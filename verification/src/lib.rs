//! A 32-bit RISC-V (RV32IM) interpreter that executes one instruction per
//! `step` call and keeps its whole state observable, so that a driver can
//! record the exact trajectory of registers, memory and program counters.
//!
//! The crate is organised bottom-up: the register file, the paged memory,
//! the instruction decoder, the arithmetic helpers, and finally the machine
//! that ties them together.  A small module holds the pure framing logic of
//! the preimage-oracle protocol; the pipe and process plumbing around it is
//! not part of this library.

use vstd::prelude::*;

pub mod alu;
pub mod decoder;
pub mod instruction;
pub mod machine;
pub mod memory;
pub mod preimage_oracle;
pub mod registers;

verus! {

/// The failures the interpreter can report.  Every one of them is fatal for
/// the step that raised it: the machine is left exactly as it was.
#[derive(Clone, Copy, PartialEq, Eq, Structural, Debug)]
pub enum VmError {
    /// The decoder could not match the opcode/funct fields of `word`,
    /// fetched from `address`.
    UnsupportedInstruction { word: u32, address: u32 },
    /// A memory access touched an address past the addressable range that
    /// the memory was created with.
    OutOfRange { address: u32 },
    /// A preimage-oracle response did not carry as many payload bytes as
    /// its length prefix declared.
    ProtocolViolation { declared: u64, actual: u64 },
    /// The external image loader could not produce an initial memory image.
    /// Raised only by unverified adapter code around this library.
    ImageLoadFailure,
}

} // verus!
