//! The register file: 32 general-purpose registers plus the two
//! program-counter registers, with name-based and index-based access.
//! Register index 0 is hard-wired to zero: writes to it are discarded.

use vstd::prelude::*;

verus! {

/// Conventional assembly names for the registers, plus `Ip` and `NextIp`
/// for the two program-counter registers.
#[derive(Clone, Copy, PartialEq, Eq, Structural, Debug)]
pub enum RegisterAlias {
    Zero,
    Ra,
    Sp,
    Gp,
    Tp,
    T0,
    T1,
    T2,
    S0,
    S1,
    A0,
    A1,
    A2,
    A3,
    A4,
    A5,
    A6,
    A7,
    S2,
    S3,
    S4,
    S5,
    S6,
    S7,
    S8,
    S9,
    S10,
    S11,
    T3,
    T4,
    T5,
    T6,
    /// The address of the instruction fetched by the current step.
    Ip,
    /// The address the next step will fetch from.
    NextIp,
}

/// The raw index a named alias resolves to.  The general-purpose aliases
/// map onto 0..=31; `Ip` and `NextIp` stand apart at 32 and 33.
pub open spec fn spec_alias_index(a: RegisterAlias) -> int {
    match a {
        RegisterAlias::Zero => 0,
        RegisterAlias::Ra => 1,
        RegisterAlias::Sp => 2,
        RegisterAlias::Gp => 3,
        RegisterAlias::Tp => 4,
        RegisterAlias::T0 => 5,
        RegisterAlias::T1 => 6,
        RegisterAlias::T2 => 7,
        RegisterAlias::S0 => 8,
        RegisterAlias::S1 => 9,
        RegisterAlias::A0 => 10,
        RegisterAlias::A1 => 11,
        RegisterAlias::A2 => 12,
        RegisterAlias::A3 => 13,
        RegisterAlias::A4 => 14,
        RegisterAlias::A5 => 15,
        RegisterAlias::A6 => 16,
        RegisterAlias::A7 => 17,
        RegisterAlias::S2 => 18,
        RegisterAlias::S3 => 19,
        RegisterAlias::S4 => 20,
        RegisterAlias::S5 => 21,
        RegisterAlias::S6 => 22,
        RegisterAlias::S7 => 23,
        RegisterAlias::S8 => 24,
        RegisterAlias::S9 => 25,
        RegisterAlias::S10 => 26,
        RegisterAlias::S11 => 27,
        RegisterAlias::T3 => 28,
        RegisterAlias::T4 => 29,
        RegisterAlias::T5 => 30,
        RegisterAlias::T6 => 31,
        RegisterAlias::Ip => 32,
        RegisterAlias::NextIp => 33,
    }
}

impl RegisterAlias {
    /// Resolve this alias to its raw index; a closed, total mapping.
    pub fn index(&self) -> (r: usize)
        ensures
            r == spec_alias_index(*self),
    {
        match self {
            RegisterAlias::Zero => 0,
            RegisterAlias::Ra => 1,
            RegisterAlias::Sp => 2,
            RegisterAlias::Gp => 3,
            RegisterAlias::Tp => 4,
            RegisterAlias::T0 => 5,
            RegisterAlias::T1 => 6,
            RegisterAlias::T2 => 7,
            RegisterAlias::S0 => 8,
            RegisterAlias::S1 => 9,
            RegisterAlias::A0 => 10,
            RegisterAlias::A1 => 11,
            RegisterAlias::A2 => 12,
            RegisterAlias::A3 => 13,
            RegisterAlias::A4 => 14,
            RegisterAlias::A5 => 15,
            RegisterAlias::A6 => 16,
            RegisterAlias::A7 => 17,
            RegisterAlias::S2 => 18,
            RegisterAlias::S3 => 19,
            RegisterAlias::S4 => 20,
            RegisterAlias::S5 => 21,
            RegisterAlias::S6 => 22,
            RegisterAlias::S7 => 23,
            RegisterAlias::S8 => 24,
            RegisterAlias::S9 => 25,
            RegisterAlias::S10 => 26,
            RegisterAlias::S11 => 27,
            RegisterAlias::T3 => 28,
            RegisterAlias::T4 => 29,
            RegisterAlias::T5 => 30,
            RegisterAlias::T6 => 31,
            RegisterAlias::Ip => 32,
            RegisterAlias::NextIp => 33,
        }
    }
}

/// What a write of `value` at `index` leaves the general-purpose bank as:
/// index 0 is hard-wired to zero, so such a write is discarded.
pub open spec fn spec_gp_write(gp: Seq<u32>, index: int, value: u32) -> Seq<u32> {
    if index == 0 {
        gp
    } else {
        gp.update(index, value)
    }
}

/// The register file.
pub struct Registers {
    /// The 32 general-purpose registers; index 0 is hard-wired to zero.
    pub general_purpose: Vec<u32>,
    /// Address of the instruction fetched by the current step.
    pub current_instruction_pointer: u32,
    /// Address the next step will fetch from.
    pub next_instruction_pointer: u32,
}

impl Registers {
    /// Well-formedness: exactly 32 general-purpose registers, and register 0
    /// holds zero.  Every constructor establishes this and every method
    /// preserves it.
    pub open spec fn wf(self) -> bool {
        &&& self.general_purpose@.len() == 32
        &&& self.general_purpose@[0] == 0
    }

    /// The general-purpose bank as a sequence of 32 values.
    pub open spec fn gp(self) -> Seq<u32> {
        self.general_purpose@
    }

    /// A fresh register file: all general-purpose registers zero, the
    /// current instruction pointer at `entry`, the next one four bytes on.
    pub fn create(entry: u32) -> (r: Registers)
        ensures
            r.wf(),
            r.gp().len() == 32,
            forall|i: int| 0 <= i < 32 ==> r.gp()[i] == 0,
            r.current_instruction_pointer == entry,
            r.next_instruction_pointer == entry.wrapping_add(4),
    {
        let mut bank: Vec<u32> = Vec::new();
        let mut i: usize = 0;
        while i < 32
            invariant
                i <= 32,
                bank@.len() == i,
                forall|j: int| 0 <= j < i ==> bank@[j] == 0,
            decreases 32 - i,
        {
            bank.push(0);
            i = i + 1;
        }
        Registers {
            general_purpose: bank,
            current_instruction_pointer: entry,
            next_instruction_pointer: entry.wrapping_add(4),
        }
    }

    /// Read the general-purpose register at `index`.  Register 0 always
    /// yields zero, which here follows from well-formedness.
    pub fn read_index(&self, index: usize) -> (r: u32)
        requires
            self.wf(),
            index < 32,
        ensures
            r == self.gp()[index as int],
    {
        self.general_purpose[index]
    }

    /// Write `value` into the general-purpose register at `index`.  A write
    /// to index 0 is a no-op with no error.
    pub fn write_index(&mut self, index: usize, value: u32)
        requires
            old(self).wf(),
            index < 32,
        ensures
            final(self).wf(),
            final(self).gp() == spec_gp_write(old(self).gp(), index as int, value),
            final(self).current_instruction_pointer == old(self).current_instruction_pointer,
            final(self).next_instruction_pointer == old(self).next_instruction_pointer,
    {
        if index != 0 {
            let slot = &mut self.general_purpose[index];
            *slot = value;
        }
    }

    /// What `read` returns for each alias.
    pub open spec fn spec_read_alias(self, alias: RegisterAlias) -> u32 {
        if alias == RegisterAlias::Ip {
            self.current_instruction_pointer
        } else if alias == RegisterAlias::NextIp {
            self.next_instruction_pointer
        } else {
            self.gp()[spec_alias_index(alias)]
        }
    }

    /// Read a register by its conventional name; `Ip` and `NextIp` resolve
    /// to the two program-counter registers.
    pub fn read(&self, alias: RegisterAlias) -> (r: u32)
        requires
            self.wf(),
        ensures
            r == self.spec_read_alias(alias),
    {
        match alias {
            RegisterAlias::Ip => self.current_instruction_pointer,
            RegisterAlias::NextIp => self.next_instruction_pointer,
            _ => {
                let index = alias.index();
                self.read_index(index)
            },
        }
    }

    /// Write a register by its conventional name.  A write to `Zero` is
    /// discarded; `Ip` and `NextIp` set the program-counter registers.
    pub fn write(&mut self, alias: RegisterAlias, value: u32)
        requires
            old(self).wf(),
        ensures
            final(self).wf(),
            alias == RegisterAlias::Ip ==> *final(self) == (Registers {
                current_instruction_pointer: value,
                ..*old(self)
            }),
            alias == RegisterAlias::NextIp ==> *final(self) == (Registers {
                next_instruction_pointer: value,
                ..*old(self)
            }),
            alias != RegisterAlias::Ip && alias != RegisterAlias::NextIp ==> {
                &&& final(self).gp() == spec_gp_write(old(self).gp(), spec_alias_index(alias), value)
                &&& final(self).current_instruction_pointer == old(self).current_instruction_pointer
                &&& final(self).next_instruction_pointer == old(self).next_instruction_pointer
            },
    {
        match alias {
            RegisterAlias::Ip => {
                self.current_instruction_pointer = value;
            },
            RegisterAlias::NextIp => {
                self.next_instruction_pointer = value;
            },
            _ => {
                let index = alias.index();
                self.write_index(index, value);
            },
        }
    }
}

/// Law: a write to register index 0 is discarded — the bank is unchanged —
/// and register 0 of a well-formed file still reads as zero.
pub proof fn lemma_write_to_zero_discarded(r: Registers, value: u32)
    requires
        r.wf(),
    ensures
        spec_gp_write(r.gp(), 0, value) == r.gp(),
        spec_gp_write(r.gp(), 0, value)[0] == 0,
{
}

} // verus!
