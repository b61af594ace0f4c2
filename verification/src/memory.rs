//! The memory subsystem: a paged, byte-addressable space.  Pages are
//! allocated lazily — a page not yet touched reads as zero-filled and its
//! first write materializes it.  Loads and stores move raw little-endian
//! bytes; sign- or zero-extension is the caller's concern.

use vstd::prelude::*;
use vstd::arithmetic::div_mod::{
    lemma_breakdown, lemma_div_denominator, lemma_fundamental_div_mod,
};
use vstd::arithmetic::mul::lemma_mul_inequality;
use crate::VmError;

verus! {

/// Size in bytes of one page, the unit of lazy allocation.
pub const PAGE_SIZE: usize = 4096;

/// The paged memory.  The page table is indexed by page number; an entry of
/// length zero stands for a page that was never written and reads as zeros.
pub struct Memory {
    /// Page buffers, indexed by page number.  Each entry is either empty
    /// (page untouched) or exactly `PAGE_SIZE` bytes.
    pub pages: Vec<Vec<u8>>,
    /// Number of addressable bytes, fixed at construction.
    pub size: u64,
}

impl Memory {
    /// Well-formedness: the configured range fits 32-bit addressing, every
    /// addressable byte falls in some page slot, and every materialized
    /// page buffer holds exactly `PAGE_SIZE` bytes.
    pub open spec fn wf(self) -> bool {
        &&& self.size <= 0x1_0000_0000u64
        &&& self.pages@.len() * (PAGE_SIZE as int) >= self.size as int
        &&& forall|p: int|
            0 <= p < self.pages@.len() ==> (#[trigger] self.pages@[p]@.len() == 0
                || self.pages@[p]@.len() == PAGE_SIZE as int)
    }

    /// The configured addressable range, in bytes.
    pub open spec fn spec_size(self) -> int {
        self.size as int
    }

    /// The byte stored at `addr`: the byte of the materialized page that
    /// covers `addr`, or zero if that page was never written.
    pub open spec fn spec_byte(self, addr: int) -> u8 {
        let p = addr / (PAGE_SIZE as int);
        let o = addr % (PAGE_SIZE as int);
        if 0 <= p < self.pages@.len() && self.pages@[p]@.len() == PAGE_SIZE as int {
            self.pages@[p]@[o]
        } else {
            0
        }
    }

    /// Whether the `width` bytes starting at `addr` all lie in range.
    pub open spec fn in_range(self, addr: int, width: int) -> bool {
        0 <= addr && addr + width <= self.spec_size()
    }

    /// The little-endian unsigned value of `width` bytes starting at
    /// `addr`, for widths 1, 2 and 4.
    pub open spec fn spec_read_le(self, addr: int, width: int) -> u32 {
        if width == 1 {
            self.spec_byte(addr) as u32
        } else if width == 2 {
            (self.spec_byte(addr) + self.spec_byte(addr + 1) * 0x100) as u32
        } else {
            (self.spec_byte(addr) + self.spec_byte(addr + 1) * 0x100 + self.spec_byte(addr + 2)
                * 0x1_0000 + self.spec_byte(addr + 3) * 0x100_0000) as u32
        }
    }

    /// A fresh memory of `size` addressable bytes, all reading as zero and
    /// no page materialized.
    pub fn create(size: u64) -> (r: Memory)
        requires
            size <= 0x1_0000_0000u64,
        ensures
            r.wf(),
            r.spec_size() == size,
            forall|a: int| r.spec_byte(a) == 0,
    {
        let num_pages: usize = ((size + (PAGE_SIZE as u64) - 1) / (PAGE_SIZE as u64)) as usize;
        let mut pages: Vec<Vec<u8>> = Vec::new();
        let mut i: usize = 0;
        while i < num_pages
            invariant
                i <= num_pages,
                pages@.len() == i,
                forall|p: int| 0 <= p < i ==> #[trigger] pages@[p]@.len() == 0,
            decreases num_pages - i,
        {
            pages.push(Vec::new());
            i = i + 1;
        }
        proof {
            lemma_fundamental_div_mod((size + PAGE_SIZE - 1) as int, PAGE_SIZE as int);
        }
        Memory { pages, size }
    }

    /// Read the byte at `addr`.
    pub fn read_byte(&self, addr: u32) -> (r: u8)
        requires
            self.wf(),
            (addr as int) < self.spec_size(),
        ensures
            r == self.spec_byte(addr as int),
    {
        let p: usize = (addr / (PAGE_SIZE as u32)) as usize;
        let o: usize = (addr % (PAGE_SIZE as u32)) as usize;
        proof {
            lemma_fundamental_div_mod(addr as int, PAGE_SIZE as int);
            if p >= self.pages@.len() {
                lemma_mul_inequality(self.pages@.len() as int, p as int, PAGE_SIZE as int);
            }
        }
        if self.pages[p].len() == PAGE_SIZE {
            self.pages[p][o]
        } else {
            0
        }
    }

    /// Write `value` at `addr`, materializing the covering page if this is
    /// its first write.  Every other byte keeps its value.
    pub fn write_byte(&mut self, addr: u32, value: u8)
        requires
            old(self).wf(),
            (addr as int) < old(self).spec_size(),
        ensures
            final(self).wf(),
            final(self).spec_size() == old(self).spec_size(),
            forall|a: int|
                final(self).spec_byte(a) == (if a == addr as int {
                    value
                } else {
                    old(self).spec_byte(a)
                }),
    {
        let p: usize = (addr / (PAGE_SIZE as u32)) as usize;
        let o: usize = (addr % (PAGE_SIZE as u32)) as usize;
        proof {
            lemma_fundamental_div_mod(addr as int, PAGE_SIZE as int);
            if p >= self.pages@.len() {
                lemma_mul_inequality(self.pages@.len() as int, p as int, PAGE_SIZE as int);
            }
        }
        if self.pages[p].len() == 0 {
            let z = zero_page();
            let slot = &mut self.pages[p];
            *slot = z;
        }
        let ghost mid = *self;
        assert(forall|a: int| mid.spec_byte(a) == old(self).spec_byte(a)) by {
            assert forall|a: int| mid.spec_byte(a) == old(self).spec_byte(a) by {
                let pa = a / (PAGE_SIZE as int);
                if pa == p as int {
                    assert(mid.spec_byte(a) == 0 || mid.spec_byte(a) == old(self).spec_byte(a));
                }
            }
        }
        let cell = &mut self.pages[p][o];
        *cell = value;
        proof {
            assert forall|a: int|
                final(self).spec_byte(a) == (if a == addr as int {
                    value
                } else {
                    old(self).spec_byte(a)
                }) by {
                let pa = a / (PAGE_SIZE as int);
                let oa = a % (PAGE_SIZE as int);
                if pa == p as int && 0 <= a {
                    lemma_fundamental_div_mod(a, PAGE_SIZE as int);
                }
            }
        }
    }

    /// Read the little-endian value of `width` bytes at `addr`; `width` is
    /// 1, 2 or 4.  Crossing a page boundary is permitted; an access past
    /// the addressable range fails with `OutOfRange` and nothing else does.
    pub fn read_bytes(&self, addr: u32, width: u32) -> (r: Result<u32, VmError>)
        requires
            self.wf(),
            width == 1 || width == 2 || width == 4,
        ensures
            match r {
                Ok(v) => self.in_range(addr as int, width as int) && v == self.spec_read_le(
                    addr as int,
                    width as int,
                ),
                Err(e) => !self.in_range(addr as int, width as int) && e == (VmError::OutOfRange {
                    address: addr,
                }),
            },
    {
        if (addr as u64) + (width as u64) > self.size {
            return Err(VmError::OutOfRange { address: addr });
        }
        let b0 = self.read_byte(addr) as u32;
        if width == 1 {
            return Ok(b0);
        }
        let b1 = self.read_byte(addr + 1) as u32;
        if width == 2 {
            return Ok(b0 + b1 * 0x100);
        }
        let b2 = self.read_byte(addr + 2) as u32;
        let b3 = self.read_byte(addr + 3) as u32;
        Ok(b0 + b1 * 0x100 + b2 * 0x1_0000 + b3 * 0x100_0000)
    }

    /// Store the low `width` bytes of `value` at `addr`, little-endian;
    /// `width` is 1, 2 or 4.  Pages are materialized as needed.  An access
    /// past the addressable range fails with `OutOfRange`, leaving memory
    /// unchanged; nothing else fails.
    pub fn write_bytes(&mut self, addr: u32, width: u32, value: u32) -> (r: Result<(), VmError>)
        requires
            old(self).wf(),
            width == 1 || width == 2 || width == 4,
        ensures
            final(self).wf(),
            final(self).spec_size() == old(self).spec_size(),
            match r {
                Ok(()) => old(self).in_range(addr as int, width as int) && forall|a: int|
                    final(self).spec_byte(a) == (if addr as int <= a < addr as int + width as int {
                        spec_le_byte(value, a - addr as int)
                    } else {
                        old(self).spec_byte(a)
                    }),
                Err(e) => !old(self).in_range(addr as int, width as int) && e
                    == (VmError::OutOfRange { address: addr }) && *final(self) == *old(self),
            },
    {
        if (addr as u64) + (width as u64) > self.size {
            return Err(VmError::OutOfRange { address: addr });
        }
        self.write_byte(addr, (value % 0x100) as u8);
        if width == 1 {
            return Ok(());
        }
        self.write_byte(addr + 1, ((value / 0x100) % 0x100) as u8);
        if width == 2 {
            return Ok(());
        }
        self.write_byte(addr + 2, ((value / 0x1_0000) % 0x100) as u8);
        self.write_byte(addr + 3, ((value / 0x100_0000) % 0x100) as u8);
        Ok(())
    }

    /// Copy `length` bytes starting at `addr` out into a fresh vector.
    /// Fails with `OutOfRange` exactly when the range does not fit.
    pub fn read_segment(&self, addr: u32, length: u32) -> (r: Result<Vec<u8>, VmError>)
        requires
            self.wf(),
        ensures
            match r {
                Ok(v) => self.in_range(addr as int, length as int) && v@.len() == length && forall|
                    k: int,
                |
                    0 <= k < length ==> v@[k] == self.spec_byte(addr as int + k),
                Err(e) => !self.in_range(addr as int, length as int) && e == (VmError::OutOfRange {
                    address: addr,
                }),
            },
    {
        if (addr as u64) + (length as u64) > self.size {
            return Err(VmError::OutOfRange { address: addr });
        }
        let mut out: Vec<u8> = Vec::new();
        let mut k: u32 = 0;
        while k < length
            invariant
                self.wf(),
                k <= length,
                (addr as u64) + (length as u64) <= self.size,
                self.size <= 0x1_0000_0000u64,
                out@.len() == k,
                forall|j: int| 0 <= j < k ==> out@[j] == self.spec_byte(addr as int + j),
            decreases length - k,
        {
            out.push(self.read_byte(addr + k));
            k = k + 1;
        }
        Ok(out)
    }
}

/// Byte `k` (little-endian, k in 0..4) of a 32-bit value.
pub open spec fn spec_le_byte(value: u32, k: int) -> u8 {
    if k == 0 {
        (value % 0x100) as u8
    } else if k == 1 {
        ((value as int / 0x100) % 0x100) as u8
    } else if k == 2 {
        ((value as int / 0x1_0000) % 0x100) as u8
    } else {
        ((value as int / 0x100_0000) % 0x100) as u8
    }
}

/// A fully materialized page of zeros.
fn zero_page() -> (r: Vec<u8>)
    ensures
        r@.len() == PAGE_SIZE as int,
        forall|j: int| 0 <= j < PAGE_SIZE as int ==> r@[j] == 0,
{
    let mut z: Vec<u8> = Vec::new();
    let mut i: usize = 0;
    while i < PAGE_SIZE
        invariant
            i <= PAGE_SIZE,
            z@.len() == i,
            forall|j: int| 0 <= j < i ==> z@[j] == 0,
        decreases PAGE_SIZE - i,
    {
        z.push(0);
        i = i + 1;
    }
    z
}

/// Law: a load sees the most recent store to the same byte range.  If
/// `post` is `pre` after a store of `value` of `width` bytes at `addr`
/// (the relation `write_bytes` establishes), then reading `width` bytes
/// back at `addr` yields the low `width` bytes of `value`.
pub proof fn lemma_read_after_write(pre: Memory, post: Memory, addr: int, width: int, value: u32)
    requires
        width == 1 || width == 2 || width == 4,
        forall|a: int|
            post.spec_byte(a) == (if addr <= a < addr + width {
                spec_le_byte(value, a - addr)
            } else {
                pre.spec_byte(a)
            }),
    ensures
        width == 1 ==> post.spec_read_le(addr, width) == value as int % 0x100,
        width == 2 ==> post.spec_read_le(addr, width) == value as int % 0x1_0000,
        width == 4 ==> post.spec_read_le(addr, width) == value,
{
    let v = value as int;
    if width == 2 {
        lemma_breakdown(v, 0x100, 0x100);
    }
    if width == 4 {
        lemma_breakdown(v, 0x100, 0x100_0000);
        lemma_breakdown(v / 0x100, 0x100, 0x1_0000);
        lemma_div_denominator(v, 0x100, 0x100);
        lemma_breakdown(v / 0x1_0000, 0x100, 0x100);
        lemma_div_denominator(v, 0x1_0000, 0x100);
        lemma_div_denominator(v / 0x100, 0x100, 0x100);
        assert(v % 0x1_0000_0000 == v);
    }
}

} // verus!
