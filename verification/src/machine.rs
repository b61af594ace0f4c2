//! The execution engine: the fetch-decode-execute-advance loop.  One call
//! to `step` executes one instruction.  The machine owns the register file
//! and the memory, mutates them per instruction semantics, and reports a
//! halted/running status.
//!
//! Environment calls follow a fixed convention: register a7 selects the
//! service.  `SYSCALL_HALT` terminates the run with the exit code in a0.
//! `SYSCALL_PREIMAGE_READ` asks the host for the preimage of the 32-byte
//! digest stored at the address in a0; the machine reports the request to
//! the driver, which obtains the payload from the oracle process and hands
//! it back through `apply_preimage` to finish the step, writing the bytes
//! at the address that was in a1 and the payload length into a0.
//! `SYSCALL_HINT` reports a fire-and-forget hint (address in a0, length in
//! a1) and the step completes at once.  Any other service number is a
//! no-op that advances.

use vstd::prelude::*;
use crate::VmError;
use crate::alu::{
    add32, div32, divu32, mul32, mulh32, mulhsu32, mulhu32, rem32, remu32, sll32, slt32, sltu32,
    spec_add, spec_div, spec_divu, spec_mul, spec_mulh, spec_mulhsu, spec_mulhu, spec_rem,
    spec_remu, spec_sext16, spec_sext8, spec_sll, spec_slt, spec_sltu, spec_sra, spec_srl,
    spec_sub, sra32, srl32, sub32, to_signed,
};
use crate::decoder::{decode, spec_decode};
use crate::instruction::{
    Decoded, IInstruction, Instruction, MInstruction, RInstruction, SBInstruction, SInstruction,
    SyscallInstruction, UInstruction, UJInstruction,
};
use crate::memory::Memory;
use crate::registers::{spec_gp_write, Registers};

verus! {

/// Service number that terminates the run; the exit code is taken from a0.
pub const SYSCALL_HALT: u32 = 93;

/// Service number that requests a preimage from the host oracle.
pub const SYSCALL_PREIMAGE_READ: u32 = 63;

/// Service number that sends a best-effort hint to the host oracle.
pub const SYSCALL_HINT: u32 = 62;

/// What a completed `step` reports beside the mutation of the machine.
#[derive(Clone, Copy, PartialEq, Eq, Structural, Debug)]
pub enum StepEffect {
    /// An ordinary instruction ran and the program counters advanced.
    Advanced,
    /// The halt service ran: the machine is now halted.
    Halted { exit_code: u32 },
    /// The preimage service ran: the driver must fetch the preimage of the
    /// 32-byte digest at `key_address` and hand it to `apply_preimage`
    /// together with `destination`.  The machine itself is unchanged.
    PreimageRequest { key_address: u32, destination: u32 },
    /// The hint service ran: `length` bytes at `address` are the hint; the
    /// driver may forward them to the oracle process or drop them.
    HintNotice { address: u32, length: u32 },
    /// `step` was called on a machine that had already halted: a no-op.
    AlreadyHalted,
}

/// The decoded instruction a step executed, with the post-step effect.
#[derive(Clone, Copy, PartialEq, Eq, Structural, Debug)]
pub struct StepOutcome {
    /// The instruction that ran; `None` when the machine was already
    /// halted and nothing was fetched.
    pub instruction: Option<Instruction>,
    pub effect: StepEffect,
}

/// The machine state: register file, memory, halted flag, step counter.
pub struct Machine {
    pub registers: Registers,
    pub memory: Memory,
    /// True once the halt service has run; further steps are no-ops.
    pub halt: bool,
    /// Completed steps, counted modulo 2^64.
    pub steps: u64,
}

/// The value an R-type (register-register) operation computes.
pub open spec fn spec_rtype_value(op: RInstruction, a: u32, b: u32) -> u32 {
    match op {
        RInstruction::Add => spec_add(a, b),
        RInstruction::Sub => spec_sub(a, b),
        RInstruction::ShiftLeftLogical => spec_sll(a, b),
        RInstruction::SetLessThan => spec_slt(a, b),
        RInstruction::SetLessThanUnsigned => spec_sltu(a, b),
        RInstruction::Xor => a ^ b,
        RInstruction::ShiftRightLogical => spec_srl(a, b),
        RInstruction::ShiftRightArithmetic => spec_sra(a, b),
        RInstruction::Or => a | b,
        RInstruction::And => a & b,
    }
}

/// The value an M-extension operation computes.
pub open spec fn spec_mtype_value(op: MInstruction, a: u32, b: u32) -> u32 {
    match op {
        MInstruction::Mul => spec_mul(a, b),
        MInstruction::Mulh => spec_mulh(a, b),
        MInstruction::Mulhsu => spec_mulhsu(a, b),
        MInstruction::Mulhu => spec_mulhu(a, b),
        MInstruction::Div => spec_div(a, b),
        MInstruction::Divu => spec_divu(a, b),
        MInstruction::Rem => spec_rem(a, b),
        MInstruction::Remu => spec_remu(a, b),
    }
}

/// Whether an I-type operation is a load.
pub open spec fn spec_is_load(op: IInstruction) -> bool {
    ||| op == IInstruction::LoadByte
    ||| op == IInstruction::LoadHalf
    ||| op == IInstruction::LoadWord
    ||| op == IInstruction::LoadByteUnsigned
    ||| op == IInstruction::LoadHalfUnsigned
}

/// The value a non-load, non-jump I-type operation computes.
pub open spec fn spec_itype_value(op: IInstruction, a: u32, imm: u32) -> u32 {
    match op {
        IInstruction::AddImmediate => spec_add(a, imm),
        IInstruction::SetLessThanImmediate => spec_slt(a, imm),
        IInstruction::SetLessThanImmediateUnsigned => spec_sltu(a, imm),
        IInstruction::XorImmediate => a ^ imm,
        IInstruction::OrImmediate => a | imm,
        IInstruction::AndImmediate => a & imm,
        IInstruction::ShiftLeftLogicalImmediate => spec_sll(a, imm),
        IInstruction::ShiftRightLogicalImmediate => spec_srl(a, imm),
        IInstruction::ShiftRightArithmeticImmediate => spec_sra(a, imm),
        _ => 0u32,
    }
}

/// How many bytes a load moves.
pub open spec fn spec_load_width(op: IInstruction) -> u32 {
    match op {
        IInstruction::LoadByte => 1u32,
        IInstruction::LoadByteUnsigned => 1u32,
        IInstruction::LoadHalf => 2u32,
        IInstruction::LoadHalfUnsigned => 2u32,
        _ => 4u32,
    }
}

/// The extension a load applies to the raw little-endian bytes: `lb` and
/// `lh` sign-extend, the rest zero-extend (the raw value stands).
pub open spec fn spec_load_extend(op: IInstruction, raw: u32) -> u32 {
    if op == IInstruction::LoadByte {
        spec_sext8(raw)
    } else if op == IInstruction::LoadHalf {
        spec_sext16(raw)
    } else {
        raw
    }
}

/// How many bytes a store moves.
pub open spec fn spec_store_width(op: SInstruction) -> u32 {
    match op {
        SInstruction::StoreByte => 1u32,
        SInstruction::StoreHalf => 2u32,
        SInstruction::StoreWord => 4u32,
    }
}

/// Whether a branch is taken: `slt`/`sltu` signed/unsigned conventions.
pub open spec fn spec_branch_taken(op: SBInstruction, a: u32, b: u32) -> bool {
    match op {
        SBInstruction::BranchEq => a == b,
        SBInstruction::BranchNeq => a != b,
        SBInstruction::BranchLessThan => to_signed(a) < to_signed(b),
        SBInstruction::BranchGreaterThanEqual => to_signed(a) >= to_signed(b),
        SBInstruction::BranchLessThanUnsigned => a < b,
        SBInstruction::BranchGreaterThanEqualUnsigned => a >= b,
    }
}

/// A completed step: the general-purpose bank becomes `gp`, both program
/// counters land on `target` (the two-phase update writes the computed
/// target into the next-instruction pointer and then advances the current
/// one onto it), memory is untouched, the machine keeps running, and the
/// step counter ticks.
pub open spec fn spec_advanced(pre: Machine, post: Machine, gp: Seq<u32>, target: u32) -> bool {
    &&& post.registers.general_purpose@ == gp
    &&& post.registers.current_instruction_pointer == target
    &&& post.registers.next_instruction_pointer == target
    &&& post.memory == pre.memory
    &&& post.halt == false
    &&& post.steps == pre.steps.wrapping_add(1)
}

/// Like `spec_advanced`, but the machine is halted afterwards.
pub open spec fn spec_halted(pre: Machine, post: Machine, gp: Seq<u32>, target: u32) -> bool {
    &&& post.registers.general_purpose@ == gp
    &&& post.registers.current_instruction_pointer == target
    &&& post.registers.next_instruction_pointer == target
    &&& post.memory == pre.memory
    &&& post.halt == true
    &&& post.steps == pre.steps.wrapping_add(1)
}

/// A completed store: registers move to `target` unchanged otherwise, and
/// memory holds the low `width` bytes of `value` at `addr`.
pub open spec fn spec_stored(
    pre: Machine,
    post: Machine,
    addr: u32,
    width: u32,
    value: u32,
    target: u32,
) -> bool {
    &&& post.registers.general_purpose@ == pre.registers.general_purpose@
    &&& post.registers.current_instruction_pointer == target
    &&& post.registers.next_instruction_pointer == target
    &&& post.memory.spec_size() == pre.memory.spec_size()
    &&& forall|a: int|
        post.memory.spec_byte(a) == (if addr as int <= a < addr as int + width as int {
            crate::memory::spec_le_byte(value, a - addr as int)
        } else {
            pre.memory.spec_byte(a)
        })
    &&& post.halt == false
    &&& post.steps == pre.steps.wrapping_add(1)
}

/// An outcome that carries an instruction.
pub open spec fn spec_outcome(i: Instruction, e: StepEffect) -> StepOutcome {
    StepOutcome { instruction: Some(i), effect: e }
}

/// What executing the decoded instruction `d` does: the relation between
/// the machine before and after, and the returned outcome.
pub open spec fn spec_execute(
    pre: Machine,
    post: Machine,
    r: Result<StepOutcome, VmError>,
    d: Decoded,
) -> bool {
    let gp = pre.registers.general_purpose@;
    let ip = pre.registers.current_instruction_pointer;
    let seq4 = spec_add(ip, 4);
    match d {
        Decoded::R { op, rd, rs1, rs2 } => {
            let v = spec_rtype_value(op, gp[rs1 as int], gp[rs2 as int]);
            &&& spec_advanced(pre, post, spec_gp_write(gp, rd as int, v), seq4)
            &&& r == Ok::<StepOutcome, VmError>(
                spec_outcome(Instruction::RType(op), StepEffect::Advanced),
            )
        },
        Decoded::M { op, rd, rs1, rs2 } => {
            let v = spec_mtype_value(op, gp[rs1 as int], gp[rs2 as int]);
            &&& spec_advanced(pre, post, spec_gp_write(gp, rd as int, v), seq4)
            &&& r == Ok::<StepOutcome, VmError>(
                spec_outcome(Instruction::MType(op), StepEffect::Advanced),
            )
        },
        Decoded::I { op, rd, rs1, imm } => {
            if op == IInstruction::JumpAndLinkRegister {
                let target = spec_add(gp[rs1 as int], imm) & 0xffff_fffeu32;
                &&& spec_advanced(pre, post, spec_gp_write(gp, rd as int, seq4), target)
                &&& r == Ok::<StepOutcome, VmError>(
                    spec_outcome(Instruction::IType(op), StepEffect::Advanced),
                )
            } else if spec_is_load(op) {
                let addr = spec_add(gp[rs1 as int], imm);
                let width = spec_load_width(op);
                if pre.memory.in_range(addr as int, width as int) {
                    let v = spec_load_extend(op, pre.memory.spec_read_le(addr as int, width as int));
                    &&& spec_advanced(pre, post, spec_gp_write(gp, rd as int, v), seq4)
                    &&& r == Ok::<StepOutcome, VmError>(
                        spec_outcome(Instruction::IType(op), StepEffect::Advanced),
                    )
                } else {
                    &&& post == pre
                    &&& r == Err::<StepOutcome, VmError>(VmError::OutOfRange { address: addr })
                }
            } else {
                let v = spec_itype_value(op, gp[rs1 as int], imm);
                &&& spec_advanced(pre, post, spec_gp_write(gp, rd as int, v), seq4)
                &&& r == Ok::<StepOutcome, VmError>(
                    spec_outcome(Instruction::IType(op), StepEffect::Advanced),
                )
            }
        },
        Decoded::S { op, rs1, rs2, imm } => {
            let addr = spec_add(gp[rs1 as int], imm);
            let width = spec_store_width(op);
            if pre.memory.in_range(addr as int, width as int) {
                &&& spec_stored(pre, post, addr, width, gp[rs2 as int], seq4)
                &&& r == Ok::<StepOutcome, VmError>(
                    spec_outcome(Instruction::SType(op), StepEffect::Advanced),
                )
            } else {
                &&& post == pre
                &&& r == Err::<StepOutcome, VmError>(VmError::OutOfRange { address: addr })
            }
        },
        Decoded::SB { op, rs1, rs2, imm } => {
            let target = if spec_branch_taken(op, gp[rs1 as int], gp[rs2 as int]) {
                spec_add(ip, imm)
            } else {
                seq4
            };
            &&& spec_advanced(pre, post, gp, target)
            &&& r == Ok::<StepOutcome, VmError>(
                spec_outcome(Instruction::SBType(op), StepEffect::Advanced),
            )
        },
        Decoded::U { op, rd, imm } => {
            let v = if op == UInstruction::LoadUpperImmediate {
                imm
            } else {
                spec_add(ip, imm)
            };
            &&& spec_advanced(pre, post, spec_gp_write(gp, rd as int, v), seq4)
            &&& r == Ok::<StepOutcome, VmError>(
                spec_outcome(Instruction::UType(op), StepEffect::Advanced),
            )
        },
        Decoded::UJ { op, rd, imm } => {
            &&& spec_advanced(pre, post, spec_gp_write(gp, rd as int, seq4), spec_add(ip, imm))
            &&& r == Ok::<StepOutcome, VmError>(
                spec_outcome(Instruction::UJType(op), StepEffect::Advanced),
            )
        },
        Decoded::Sys { op } => {
            let service = gp[17];
            let a0 = gp[10];
            let a1 = gp[11];
            if service == SYSCALL_HALT {
                &&& spec_halted(pre, post, gp, seq4)
                &&& r == Ok::<StepOutcome, VmError>(
                    spec_outcome(
                        Instruction::SyscallType(op),
                        StepEffect::Halted { exit_code: a0 },
                    ),
                )
            } else if service == SYSCALL_PREIMAGE_READ {
                &&& post == pre
                &&& r == Ok::<StepOutcome, VmError>(
                    spec_outcome(
                        Instruction::SyscallType(op),
                        StepEffect::PreimageRequest { key_address: a0, destination: a1 },
                    ),
                )
            } else if service == SYSCALL_HINT {
                &&& spec_advanced(pre, post, gp, seq4)
                &&& r == Ok::<StepOutcome, VmError>(
                    spec_outcome(
                        Instruction::SyscallType(op),
                        StepEffect::HintNotice { address: a0, length: a1 },
                    ),
                )
            } else {
                &&& spec_advanced(pre, post, gp, seq4)
                &&& r == Ok::<StepOutcome, VmError>(
                    spec_outcome(Instruction::SyscallType(op), StepEffect::Advanced),
                )
            }
        },
    }
}

/// The full step relation: what one `step` call does for every starting
/// state.  A halted machine is left untouched; otherwise the word at the
/// current instruction pointer is fetched, decoded and executed, and the
/// two fatal errors leave the machine exactly as it was.
pub open spec fn spec_step(pre: Machine, post: Machine, r: Result<StepOutcome, VmError>) -> bool {
    if pre.halt {
        &&& post == pre
        &&& r == Ok::<StepOutcome, VmError>(
            StepOutcome { instruction: None, effect: StepEffect::AlreadyHalted },
        )
    } else {
        let ip = pre.registers.current_instruction_pointer;
        if !pre.memory.in_range(ip as int, 4) {
            &&& post == pre
            &&& r == Err::<StepOutcome, VmError>(VmError::OutOfRange { address: ip })
        } else {
            let w = pre.memory.spec_read_le(ip as int, 4);
            match spec_decode(w) {
                Option::None => {
                    &&& post == pre
                    &&& r == Err::<StepOutcome, VmError>(
                        VmError::UnsupportedInstruction { word: w, address: ip },
                    )
                },
                Option::Some(d) => spec_execute(pre, post, r, d),
            }
        }
    }
}

/// Every register index a decoded instruction carries is below 32.
pub open spec fn spec_fields_bounded(d: Decoded) -> bool {
    match d {
        Decoded::R { rd, rs1, rs2, .. } => rd < 32 && rs1 < 32 && rs2 < 32,
        Decoded::M { rd, rs1, rs2, .. } => rd < 32 && rs1 < 32 && rs2 < 32,
        Decoded::I { rd, rs1, .. } => rd < 32 && rs1 < 32,
        Decoded::S { rs1, rs2, .. } => rs1 < 32 && rs2 < 32,
        Decoded::SB { rs1, rs2, .. } => rs1 < 32 && rs2 < 32,
        Decoded::U { rd, .. } => rd < 32,
        Decoded::UJ { rd, .. } => rd < 32,
        Decoded::Sys { .. } => true,
    }
}

/// The decoder only produces register indices below 32.
pub proof fn lemma_decode_fields_bounded(w: u32)
    ensures
        spec_decode(w) matches Some(d) ==> spec_fields_bounded(d),
{
    assert(((w >> 7) & 0x1f) < 32 && ((w >> 15) & 0x1f) < 32 && ((w >> 20) & 0x1f) < 32)
        by (bit_vector);
}

impl Machine {
    /// Well-formedness of the whole machine.
    pub open spec fn wf(self) -> bool {
        &&& self.registers.wf()
        &&& self.memory.wf()
    }

    /// A fresh machine over an initial memory image, positioned at the
    /// entry point, running, with no step taken yet.
    pub fn create(entry: u32, memory: Memory) -> (r: Machine)
        requires
            memory.wf(),
        ensures
            r.wf(),
            r.registers.gp().len() == 32,
            forall|i: int| 0 <= i < 32 ==> r.registers.gp()[i] == 0,
            r.registers.current_instruction_pointer == entry,
            r.registers.next_instruction_pointer == entry.wrapping_add(4),
            r.memory == memory,
            r.halt == false,
            r.steps == 0,
    {
        Machine { registers: Registers::create(entry), memory, halt: false, steps: 0 }
    }

    /// Finish a step: write the computed target into the next-instruction
    /// pointer, advance the current one onto it, count the step.
    fn advance(&mut self, target: u32)
        requires
            old(self).wf(),
        ensures
            final(self).wf(),
            final(self).registers.general_purpose@ == old(self).registers.general_purpose@,
            final(self).registers.current_instruction_pointer == target,
            final(self).registers.next_instruction_pointer == target,
            final(self).memory == old(self).memory,
            final(self).halt == old(self).halt,
            final(self).steps == old(self).steps.wrapping_add(1),
    {
        self.registers.next_instruction_pointer = target;
        self.registers.current_instruction_pointer = self.registers.next_instruction_pointer;
        self.steps = self.steps.wrapping_add(1);
    }

    /// Execute one instruction.  The returned outcome carries the decoded
    /// instruction and the post-step effect; the relation `spec_step` pins
    /// the whole transition, error cases included.
    pub fn step(&mut self) -> (r: Result<StepOutcome, VmError>)
        requires
            old(self).wf(),
        ensures
            final(self).wf(),
            spec_step(*old(self), *final(self), r),
    {
        if self.halt {
            return Ok(StepOutcome { instruction: None, effect: StepEffect::AlreadyHalted });
        }
        let ip = self.registers.current_instruction_pointer;
        let w = match self.memory.read_bytes(ip, 4) {
            Ok(w) => w,
            Err(e) => {
                return Err(e);
            },
        };
        let d = match decode(w) {
            Some(d) => d,
            None => {
                return Err(VmError::UnsupportedInstruction { word: w, address: ip });
            },
        };
        proof {
            lemma_decode_fields_bounded(w);
        }
        let seq4 = add32(ip, 4);
        match d {
            Decoded::R { op, rd, rs1, rs2 } => {
                let a = self.registers.read_index(rs1 as usize);
                let b = self.registers.read_index(rs2 as usize);
                let v = rtype_value(op, a, b);
                self.registers.write_index(rd as usize, v);
                self.advance(seq4);
                Ok(StepOutcome {
                    instruction: Some(Instruction::RType(op)),
                    effect: StepEffect::Advanced,
                })
            },
            Decoded::M { op, rd, rs1, rs2 } => {
                let a = self.registers.read_index(rs1 as usize);
                let b = self.registers.read_index(rs2 as usize);
                let v = mtype_value(op, a, b);
                self.registers.write_index(rd as usize, v);
                self.advance(seq4);
                Ok(StepOutcome {
                    instruction: Some(Instruction::MType(op)),
                    effect: StepEffect::Advanced,
                })
            },
            Decoded::I { op, rd, rs1, imm } => {
                let a = self.registers.read_index(rs1 as usize);
                match op {
                    IInstruction::JumpAndLinkRegister => {
                        let target = add32(a, imm) & 0xffff_fffe;
                        self.registers.write_index(rd as usize, seq4);
                        self.advance(target);
                        Ok(StepOutcome {
                            instruction: Some(Instruction::IType(op)),
                            effect: StepEffect::Advanced,
                        })
                    },
                    IInstruction::LoadByte
                    | IInstruction::LoadHalf
                    | IInstruction::LoadWord
                    | IInstruction::LoadByteUnsigned
                    | IInstruction::LoadHalfUnsigned => {
                        let addr = add32(a, imm);
                        let width = match op {
                            IInstruction::LoadByte => 1u32,
                            IInstruction::LoadByteUnsigned => 1u32,
                            IInstruction::LoadHalf => 2u32,
                            IInstruction::LoadHalfUnsigned => 2u32,
                            _ => 4u32,
                        };
                        let raw = match self.memory.read_bytes(addr, width) {
                            Ok(v) => v,
                            Err(e) => {
                                return Err(e);
                            },
                        };
                        let v = match op {
                            IInstruction::LoadByte => sext8(raw),
                            IInstruction::LoadHalf => sext16(raw),
                            _ => raw,
                        };
                        self.registers.write_index(rd as usize, v);
                        self.advance(seq4);
                        Ok(StepOutcome {
                            instruction: Some(Instruction::IType(op)),
                            effect: StepEffect::Advanced,
                        })
                    },
                    _ => {
                        let v = itype_value(op, a, imm);
                        self.registers.write_index(rd as usize, v);
                        self.advance(seq4);
                        Ok(StepOutcome {
                            instruction: Some(Instruction::IType(op)),
                            effect: StepEffect::Advanced,
                        })
                    },
                }
            },
            Decoded::S { op, rs1, rs2, imm } => {
                let addr = add32(self.registers.read_index(rs1 as usize), imm);
                let value = self.registers.read_index(rs2 as usize);
                let width = match op {
                    SInstruction::StoreByte => 1u32,
                    SInstruction::StoreHalf => 2u32,
                    SInstruction::StoreWord => 4u32,
                };
                match self.memory.write_bytes(addr, width, value) {
                    Ok(()) => {},
                    Err(e) => {
                        return Err(e);
                    },
                };
                self.advance(seq4);
                Ok(StepOutcome {
                    instruction: Some(Instruction::SType(op)),
                    effect: StepEffect::Advanced,
                })
            },
            Decoded::SB { op, rs1, rs2, imm } => {
                let a = self.registers.read_index(rs1 as usize);
                let b = self.registers.read_index(rs2 as usize);
                let taken = branch_taken(op, a, b);
                let target = if taken {
                    add32(ip, imm)
                } else {
                    seq4
                };
                self.advance(target);
                Ok(StepOutcome {
                    instruction: Some(Instruction::SBType(op)),
                    effect: StepEffect::Advanced,
                })
            },
            Decoded::U { op, rd, imm } => {
                let v = match op {
                    UInstruction::LoadUpperImmediate => imm,
                    UInstruction::AddUpperImmediate => add32(ip, imm),
                };
                self.registers.write_index(rd as usize, v);
                self.advance(seq4);
                Ok(StepOutcome {
                    instruction: Some(Instruction::UType(op)),
                    effect: StepEffect::Advanced,
                })
            },
            Decoded::UJ { op, rd, imm } => {
                let target = add32(ip, imm);
                self.registers.write_index(rd as usize, seq4);
                self.advance(target);
                Ok(StepOutcome {
                    instruction: Some(Instruction::UJType(op)),
                    effect: StepEffect::Advanced,
                })
            },
            Decoded::Sys { op } => {
                let service = self.registers.read_index(17);
                let a0 = self.registers.read_index(10);
                let a1 = self.registers.read_index(11);
                if service == SYSCALL_HALT {
                    self.halt = true;
                    self.advance(seq4);
                    Ok(StepOutcome {
                        instruction: Some(Instruction::SyscallType(op)),
                        effect: StepEffect::Halted { exit_code: a0 },
                    })
                } else if service == SYSCALL_PREIMAGE_READ {
                    Ok(StepOutcome {
                        instruction: Some(Instruction::SyscallType(op)),
                        effect: StepEffect::PreimageRequest { key_address: a0, destination: a1 },
                    })
                } else if service == SYSCALL_HINT {
                    self.advance(seq4);
                    Ok(StepOutcome {
                        instruction: Some(Instruction::SyscallType(op)),
                        effect: StepEffect::HintNotice { address: a0, length: a1 },
                    })
                } else {
                    self.advance(seq4);
                    Ok(StepOutcome {
                        instruction: Some(Instruction::SyscallType(op)),
                        effect: StepEffect::Advanced,
                    })
                }
            },
        }
    }

    /// Finish a preimage step: write the fetched `payload` at
    /// `destination`, put its length into a0, and advance past the
    /// environment call.  Fails with `OutOfRange`, leaving the machine
    /// untouched, exactly when the payload does not fit the addressable
    /// range at `destination`.
    pub fn apply_preimage(&mut self, destination: u32, payload: &Vec<u8>) -> (r: Result<
        (),
        VmError,
    >)
        requires
            old(self).wf(),
            payload@.len() < 0x1_0000_0000,
        ensures
            final(self).wf(),
            match r {
                Ok(()) => {
                    &&& old(self).memory.in_range(destination as int, payload@.len() as int)
                    &&& final(self).memory.spec_size() == old(self).memory.spec_size()
                    &&& forall|a: int|
                        final(self).memory.spec_byte(a) == (if destination as int <= a
                            < destination as int + payload@.len() {
                            payload@[a - destination as int]
                        } else {
                            old(self).memory.spec_byte(a)
                        })
                    &&& final(self).registers.general_purpose@ == spec_gp_write(
                        old(self).registers.general_purpose@,
                        10,
                        payload@.len() as u32,
                    )
                    &&& final(self).registers.current_instruction_pointer == spec_add(
                        old(self).registers.current_instruction_pointer,
                        4,
                    )
                    &&& final(self).registers.next_instruction_pointer == spec_add(
                        old(self).registers.current_instruction_pointer,
                        4,
                    )
                    &&& final(self).halt == old(self).halt
                    &&& final(self).steps == old(self).steps.wrapping_add(1)
                },
                Err(e) => {
                    &&& !old(self).memory.in_range(destination as int, payload@.len() as int)
                    &&& e == (VmError::OutOfRange { address: destination })
                    &&& *final(self) == *old(self)
                },
            },
    {
        let length: usize = payload.len();
        if (destination as u64) + (length as u64) > self.memory.size {
            return Err(VmError::OutOfRange { address: destination });
        }
        let mut k: usize = 0;
        while k < length
            invariant
                self.wf(),
                k <= length,
                length < 0x1_0000_0000,
                (destination as u64) + (length as u64) <= self.memory.size,
                self.memory.size <= 0x1_0000_0000u64,
                payload@.len() == length,
                self.memory.spec_size() == old(self).memory.spec_size(),
                self.registers == old(self).registers,
                self.halt == old(self).halt,
                self.steps == old(self).steps,
                forall|a: int|
                    self.memory.spec_byte(a) == (if destination as int <= a < destination as int
                        + k {
                        payload@[a - destination as int]
                    } else {
                        old(self).memory.spec_byte(a)
                    }),
            decreases length - k,
        {
            self.memory.write_byte(destination + (k as u32), payload[k]);
            k = k + 1;
        }
        let len32: u32 = length as u32;
        self.registers.write_index(10, len32);
        let target = add32(self.registers.current_instruction_pointer, 4);
        self.advance(target);
        Ok(())
    }
}

/// Exec mirror of `spec_rtype_value`.
fn rtype_value(op: RInstruction, a: u32, b: u32) -> (r: u32)
    ensures
        r == spec_rtype_value(op, a, b),
{
    match op {
        RInstruction::Add => add32(a, b),
        RInstruction::Sub => sub32(a, b),
        RInstruction::ShiftLeftLogical => sll32(a, b),
        RInstruction::SetLessThan => slt32(a, b),
        RInstruction::SetLessThanUnsigned => sltu32(a, b),
        RInstruction::Xor => a ^ b,
        RInstruction::ShiftRightLogical => srl32(a, b),
        RInstruction::ShiftRightArithmetic => sra32(a, b),
        RInstruction::Or => a | b,
        RInstruction::And => a & b,
    }
}

/// Exec mirror of `spec_mtype_value`.
fn mtype_value(op: MInstruction, a: u32, b: u32) -> (r: u32)
    ensures
        r == spec_mtype_value(op, a, b),
{
    match op {
        MInstruction::Mul => mul32(a, b),
        MInstruction::Mulh => mulh32(a, b),
        MInstruction::Mulhsu => mulhsu32(a, b),
        MInstruction::Mulhu => mulhu32(a, b),
        MInstruction::Div => div32(a, b),
        MInstruction::Divu => divu32(a, b),
        MInstruction::Rem => rem32(a, b),
        MInstruction::Remu => remu32(a, b),
    }
}

/// Exec mirror of `spec_itype_value`.
fn itype_value(op: IInstruction, a: u32, imm: u32) -> (r: u32)
    ensures
        r == spec_itype_value(op, a, imm),
{
    match op {
        IInstruction::AddImmediate => add32(a, imm),
        IInstruction::SetLessThanImmediate => slt32(a, imm),
        IInstruction::SetLessThanImmediateUnsigned => sltu32(a, imm),
        IInstruction::XorImmediate => a ^ imm,
        IInstruction::OrImmediate => a | imm,
        IInstruction::AndImmediate => a & imm,
        IInstruction::ShiftLeftLogicalImmediate => sll32(a, imm),
        IInstruction::ShiftRightLogicalImmediate => srl32(a, imm),
        IInstruction::ShiftRightArithmeticImmediate => sra32(a, imm),
        _ => 0u32,
    }
}

/// Exec mirror of `spec_branch_taken`.
fn branch_taken(op: SBInstruction, a: u32, b: u32) -> (r: bool)
    ensures
        r == spec_branch_taken(op, a, b),
{
    match op {
        SBInstruction::BranchEq => a == b,
        SBInstruction::BranchNeq => a != b,
        SBInstruction::BranchLessThan => slt32(a, b) == 1,
        SBInstruction::BranchGreaterThanEqual => slt32(a, b) == 0,
        SBInstruction::BranchLessThanUnsigned => a < b,
        SBInstruction::BranchGreaterThanEqualUnsigned => a >= b,
    }
}

/// Exec mirror of `spec_sext8`.
fn sext8(v: u32) -> (r: u32)
    ensures
        r == spec_sext8(v),
{
    if v & 0x80 != 0 {
        v | 0xffff_ff00
    } else {
        v
    }
}

/// Exec mirror of `spec_sext16`.
fn sext16(v: u32) -> (r: u32)
    ensures
        r == spec_sext16(v),
{
    if v & 0x8000 != 0 {
        v | 0xffff_0000
    } else {
        v
    }
}

/// Law: the two program counters pair up.  Every completed step leaves
/// the current instruction pointer equal to the next-instruction pointer
/// that the step computed, so the following step fetches exactly there;
/// and absent a control transfer the computed pointer is the old one
/// plus 4, modulo 2^32.
pub proof fn lemma_pc_pairing(pre: Machine, post: Machine, r: Result<StepOutcome, VmError>)
    requires
        spec_step(pre, post, r),
        !pre.halt,
        r matches Ok(o) && !(o.effect matches StepEffect::PreimageRequest { .. }),
    ensures
        post.registers.current_instruction_pointer == post.registers.next_instruction_pointer,
{
}

/// Which decoded instructions never transfer control: for them the
/// computed next program counter is always the current one plus 4.
pub open spec fn spec_plain_advance(d: Decoded) -> bool {
    match d {
        Decoded::R { .. } => true,
        Decoded::M { .. } => true,
        Decoded::U { .. } => true,
        Decoded::S { .. } => true,
        Decoded::I { op, .. } => op != IInstruction::JumpAndLinkRegister,
        _ => false,
    }
}

/// Law: sequential default stepping adds exactly 4 to the program
/// counter, modulo 2^32, for every completed step of an instruction
/// without a control transfer.
pub proof fn lemma_sequential_default(pre: Machine, post: Machine, r: Result<StepOutcome, VmError>)
    requires
        spec_step(pre, post, r),
        !pre.halt,
        pre.memory.in_range(pre.registers.current_instruction_pointer as int, 4),
        spec_decode(
            pre.memory.spec_read_le(pre.registers.current_instruction_pointer as int, 4),
        ) matches Some(d) && spec_plain_advance(d),
        r matches Ok(o),
    ensures
        post.registers.current_instruction_pointer == spec_add(
            pre.registers.current_instruction_pointer,
            4,
        ),
{
}

/// Law: an `add` step stores into `rd` exactly the 32-bit unsigned sum
/// of the source registers modulo 2^32 — overflow wraps, nothing traps.
pub proof fn lemma_add_step_stores_wrapped_sum(
    pre: Machine,
    post: Machine,
    r: Result<StepOutcome, VmError>,
    rd: u8,
    rs1: u8,
    rs2: u8,
)
    requires
        spec_step(pre, post, r),
        !pre.halt,
        pre.memory.in_range(pre.registers.current_instruction_pointer as int, 4),
        spec_decode(
            pre.memory.spec_read_le(pre.registers.current_instruction_pointer as int, 4),
        ) == Some(Decoded::R { op: RInstruction::Add, rd, rs1, rs2 }),
        rd != 0,
        pre.registers.wf(),
    ensures
        post.registers.general_purpose@[rd as int] as int == (
        pre.registers.general_purpose@[rs1 as int] as int
            + pre.registers.general_purpose@[rs2 as int] as int) % 0x1_0000_0000,
{
    let w = pre.memory.spec_read_le(pre.registers.current_instruction_pointer as int, 4);
    lemma_decode_fields_bounded(w);
    crate::alu::lemma_add_is_modular(
        pre.registers.general_purpose@[rs1 as int],
        pre.registers.general_purpose@[rs2 as int],
    );
}

/// Law: an `addi` step stores into `rd` the 32-bit unsigned sum of the
/// source register and the sign-extended immediate, modulo 2^32.
pub proof fn lemma_addi_step_stores_wrapped_sum(
    pre: Machine,
    post: Machine,
    r: Result<StepOutcome, VmError>,
    rd: u8,
    rs1: u8,
    imm: u32,
)
    requires
        spec_step(pre, post, r),
        !pre.halt,
        pre.memory.in_range(pre.registers.current_instruction_pointer as int, 4),
        spec_decode(
            pre.memory.spec_read_le(pre.registers.current_instruction_pointer as int, 4),
        ) == Some(Decoded::I { op: IInstruction::AddImmediate, rd, rs1, imm }),
        rd != 0,
        pre.registers.wf(),
    ensures
        post.registers.general_purpose@[rd as int] as int == (
        pre.registers.general_purpose@[rs1 as int] as int + imm as int) % 0x1_0000_0000,
{
    let w = pre.memory.spec_read_le(pre.registers.current_instruction_pointer as int, 4);
    lemma_decode_fields_bounded(w);
    crate::alu::lemma_add_is_modular(pre.registers.general_purpose@[rs1 as int], imm);
}

/// Law: a halted machine stays halted and untouched; `step` never
/// re-executes past the halt.
pub proof fn lemma_halt_is_terminal(pre: Machine, post: Machine, r: Result<StepOutcome, VmError>)
    requires
        spec_step(pre, post, r),
        pre.halt,
    ensures
        post == pre,
        r == Ok::<StepOutcome, VmError>(
            StepOutcome { instruction: None, effect: StepEffect::AlreadyHalted },
        ),
{
}

/// Law: executing the environment call with the halt service number sets
/// the halted flag, and the run's registers are final from then on.
pub proof fn lemma_halt_syscall(pre: Machine, post: Machine, r: Result<StepOutcome, VmError>)
    requires
        spec_step(pre, post, r),
        !pre.halt,
        pre.memory.in_range(pre.registers.current_instruction_pointer as int, 4),
        spec_decode(
            pre.memory.spec_read_le(pre.registers.current_instruction_pointer as int, 4),
        ) matches Some(d) && d matches Decoded::Sys { .. },
        pre.registers.general_purpose@[17] == SYSCALL_HALT,
    ensures
        post.halt,
        post.registers.general_purpose@ == pre.registers.general_purpose@,
        r == Ok::<StepOutcome, VmError>(
            spec_outcome(
                Instruction::SyscallType(SyscallInstruction::SyscallSuccess),
                StepEffect::Halted { exit_code: pre.registers.general_purpose@[10] },
            ),
        ),
{
}

} // verus!
