//! The instruction decoder: turns a raw 32-bit instruction word into a
//! `Decoded` value.  The 7-bit opcode selects the format family, funct3
//! and funct7 select the operation within it, and the immediate is
//! assembled from the family's bit layout and sign-extended.
//!
//! A word whose opcode/funct combination matches no implemented
//! instruction decodes to `None`; the machine turns that into the fatal
//! `UnsupportedInstruction` error.

use vstd::prelude::*;
use crate::instruction::{
    Decoded, IInstruction, MInstruction, RInstruction, SBInstruction, SInstruction,
    SyscallInstruction, UInstruction, UJInstruction,
};

verus! {

pub open spec fn spec_opcode(w: u32) -> u32 {
    w & 0x7f
}

pub open spec fn spec_rd(w: u32) -> u32 {
    (w >> 7) & 0x1f
}

pub open spec fn spec_funct3(w: u32) -> u32 {
    (w >> 12) & 0x7
}

pub open spec fn spec_rs1(w: u32) -> u32 {
    (w >> 15) & 0x1f
}

pub open spec fn spec_rs2(w: u32) -> u32 {
    (w >> 20) & 0x1f
}

pub open spec fn spec_funct7(w: u32) -> u32 {
    w >> 25
}

/// Sign-extension of a 12-bit value to 32 bits.
pub open spec fn spec_sext12(x: u32) -> u32 {
    if x & 0x800 != 0 {
        x | 0xffff_f000
    } else {
        x
    }
}

/// Sign-extension of a 13-bit value (branch offsets) to 32 bits.
pub open spec fn spec_sext13(x: u32) -> u32 {
    if x & 0x1000 != 0 {
        x | 0xffff_e000
    } else {
        x
    }
}

/// Sign-extension of a 21-bit value (jump offsets) to 32 bits.
pub open spec fn spec_sext21(x: u32) -> u32 {
    if x & 0x10_0000 != 0 {
        x | 0xffe0_0000
    } else {
        x
    }
}

/// The I-type immediate: instruction bits 31..20, sign-extended.
pub open spec fn spec_imm_i(w: u32) -> u32 {
    spec_sext12(w >> 20)
}

/// The S-type immediate: bits 31..25 and 11..7, sign-extended.
pub open spec fn spec_imm_s(w: u32) -> u32 {
    spec_sext12(((w >> 25) << 5) | ((w >> 7) & 0x1f))
}

/// The B-type immediate: the shuffled branch offset, even, sign-extended.
pub open spec fn spec_imm_b(w: u32) -> u32 {
    spec_sext13(
        ((w >> 31) << 12) | (((w >> 7) & 0x1) << 11) | (((w >> 25) & 0x3f) << 5) | (((w >> 8)
            & 0xf) << 1),
    )
}

/// The U-type immediate: the upper 20 bits, low 12 bits zero.
pub open spec fn spec_imm_u(w: u32) -> u32 {
    w & 0xffff_f000
}

/// The J-type immediate: the shuffled jump offset, even, sign-extended.
pub open spec fn spec_imm_j(w: u32) -> u32 {
    spec_sext21(
        ((w >> 31) << 20) | (((w >> 12) & 0xff) << 12) | (((w >> 20) & 0x1) << 11) | (((w >> 21)
            & 0x3ff) << 1),
    )
}

/// What `decode` returns for every instruction word: the decoded
/// instruction, or `None` when the opcode/funct combination matches no
/// implemented instruction.
pub open spec fn spec_decode(w: u32) -> Option<Decoded> {
    let opcode = spec_opcode(w);
    let rd = spec_rd(w) as u8;
    let rs1 = spec_rs1(w) as u8;
    let rs2 = spec_rs2(w) as u8;
    let funct3 = spec_funct3(w);
    let funct7 = spec_funct7(w);
    if opcode == 0x33 {
        if funct7 == 0x01 {
            let op = if funct3 == 0 {
                MInstruction::Mul
            } else if funct3 == 1 {
                MInstruction::Mulh
            } else if funct3 == 2 {
                MInstruction::Mulhsu
            } else if funct3 == 3 {
                MInstruction::Mulhu
            } else if funct3 == 4 {
                MInstruction::Div
            } else if funct3 == 5 {
                MInstruction::Divu
            } else if funct3 == 6 {
                MInstruction::Rem
            } else {
                MInstruction::Remu
            };
            Some(Decoded::M { op, rd, rs1, rs2 })
        } else if funct7 == 0x00 || funct7 == 0x20 {
            let op = if funct3 == 0 {
                if funct7 == 0x00 {
                    Some(RInstruction::Add)
                } else {
                    Some(RInstruction::Sub)
                }
            } else if funct3 == 1 && funct7 == 0x00 {
                Some(RInstruction::ShiftLeftLogical)
            } else if funct3 == 2 && funct7 == 0x00 {
                Some(RInstruction::SetLessThan)
            } else if funct3 == 3 && funct7 == 0x00 {
                Some(RInstruction::SetLessThanUnsigned)
            } else if funct3 == 4 && funct7 == 0x00 {
                Some(RInstruction::Xor)
            } else if funct3 == 5 {
                if funct7 == 0x00 {
                    Some(RInstruction::ShiftRightLogical)
                } else {
                    Some(RInstruction::ShiftRightArithmetic)
                }
            } else if funct3 == 6 && funct7 == 0x00 {
                Some(RInstruction::Or)
            } else if funct3 == 7 && funct7 == 0x00 {
                Some(RInstruction::And)
            } else {
                None
            };
            match op {
                Some(op) => Some(Decoded::R { op, rd, rs1, rs2 }),
                None => None,
            }
        } else {
            None
        }
    } else if opcode == 0x13 {
        let imm = spec_imm_i(w);
        let op = if funct3 == 0 {
            Some(IInstruction::AddImmediate)
        } else if funct3 == 1 && funct7 == 0x00 {
            Some(IInstruction::ShiftLeftLogicalImmediate)
        } else if funct3 == 2 {
            Some(IInstruction::SetLessThanImmediate)
        } else if funct3 == 3 {
            Some(IInstruction::SetLessThanImmediateUnsigned)
        } else if funct3 == 4 {
            Some(IInstruction::XorImmediate)
        } else if funct3 == 5 && funct7 == 0x00 {
            Some(IInstruction::ShiftRightLogicalImmediate)
        } else if funct3 == 5 && funct7 == 0x20 {
            Some(IInstruction::ShiftRightArithmeticImmediate)
        } else if funct3 == 6 {
            Some(IInstruction::OrImmediate)
        } else if funct3 == 7 {
            Some(IInstruction::AndImmediate)
        } else {
            None
        };
        match op {
            Some(op) => Some(Decoded::I { op, rd, rs1, imm }),
            None => None,
        }
    } else if opcode == 0x03 {
        let imm = spec_imm_i(w);
        let op = if funct3 == 0 {
            Some(IInstruction::LoadByte)
        } else if funct3 == 1 {
            Some(IInstruction::LoadHalf)
        } else if funct3 == 2 {
            Some(IInstruction::LoadWord)
        } else if funct3 == 4 {
            Some(IInstruction::LoadByteUnsigned)
        } else if funct3 == 5 {
            Some(IInstruction::LoadHalfUnsigned)
        } else {
            None
        };
        match op {
            Some(op) => Some(Decoded::I { op, rd, rs1, imm }),
            None => None,
        }
    } else if opcode == 0x67 {
        if funct3 == 0 {
            Some(Decoded::I { op: IInstruction::JumpAndLinkRegister, rd, rs1, imm: spec_imm_i(w) })
        } else {
            None
        }
    } else if opcode == 0x23 {
        let imm = spec_imm_s(w);
        let op = if funct3 == 0 {
            Some(SInstruction::StoreByte)
        } else if funct3 == 1 {
            Some(SInstruction::StoreHalf)
        } else if funct3 == 2 {
            Some(SInstruction::StoreWord)
        } else {
            None
        };
        match op {
            Some(op) => Some(Decoded::S { op, rs1, rs2, imm }),
            None => None,
        }
    } else if opcode == 0x63 {
        let imm = spec_imm_b(w);
        let op = if funct3 == 0 {
            Some(SBInstruction::BranchEq)
        } else if funct3 == 1 {
            Some(SBInstruction::BranchNeq)
        } else if funct3 == 4 {
            Some(SBInstruction::BranchLessThan)
        } else if funct3 == 5 {
            Some(SBInstruction::BranchGreaterThanEqual)
        } else if funct3 == 6 {
            Some(SBInstruction::BranchLessThanUnsigned)
        } else if funct3 == 7 {
            Some(SBInstruction::BranchGreaterThanEqualUnsigned)
        } else {
            None
        };
        match op {
            Some(op) => Some(Decoded::SB { op, rs1, rs2, imm }),
            None => None,
        }
    } else if opcode == 0x37 {
        Some(Decoded::U { op: UInstruction::LoadUpperImmediate, rd, imm: spec_imm_u(w) })
    } else if opcode == 0x17 {
        Some(Decoded::U { op: UInstruction::AddUpperImmediate, rd, imm: spec_imm_u(w) })
    } else if opcode == 0x6f {
        Some(Decoded::UJ { op: UJInstruction::JumpAndLink, rd, imm: spec_imm_j(w) })
    } else if opcode == 0x73 {
        if w == 0x0000_0073 {
            Some(Decoded::Sys { op: SyscallInstruction::SyscallSuccess })
        } else {
            None
        }
    } else {
        None
    }
}

fn x_rd(w: u32) -> (r: u8)
    ensures
        r as u32 == spec_rd(w),
{
    assert((w >> 7) & 0x1f < 256) by (bit_vector);
    ((w >> 7) & 0x1f) as u8
}

fn x_rs1(w: u32) -> (r: u8)
    ensures
        r as u32 == spec_rs1(w),
{
    assert((w >> 15) & 0x1f < 256) by (bit_vector);
    ((w >> 15) & 0x1f) as u8
}

fn x_rs2(w: u32) -> (r: u8)
    ensures
        r as u32 == spec_rs2(w),
{
    assert((w >> 20) & 0x1f < 256) by (bit_vector);
    ((w >> 20) & 0x1f) as u8
}

fn sext12(x: u32) -> (r: u32)
    ensures
        r == spec_sext12(x),
{
    if x & 0x800 != 0 {
        x | 0xffff_f000
    } else {
        x
    }
}

/// Decode an instruction word; `None` exactly where `spec_decode` says
/// the word is unsupported.
pub fn decode(w: u32) -> (r: Option<Decoded>)
    ensures
        r == spec_decode(w),
{
    let opcode = w & 0x7f;
    let funct3 = (w >> 12) & 0x7;
    let funct7 = w >> 25;
    if opcode == 0x33 {
        let rd = x_rd(w);
        let rs1 = x_rs1(w);
        let rs2 = x_rs2(w);
        if funct7 == 0x01 {
            let op = if funct3 == 0 {
                MInstruction::Mul
            } else if funct3 == 1 {
                MInstruction::Mulh
            } else if funct3 == 2 {
                MInstruction::Mulhsu
            } else if funct3 == 3 {
                MInstruction::Mulhu
            } else if funct3 == 4 {
                MInstruction::Div
            } else if funct3 == 5 {
                MInstruction::Divu
            } else if funct3 == 6 {
                MInstruction::Rem
            } else {
                MInstruction::Remu
            };
            Some(Decoded::M { op, rd, rs1, rs2 })
        } else if funct7 == 0x00 || funct7 == 0x20 {
            let op = if funct3 == 0 {
                if funct7 == 0x00 {
                    Some(RInstruction::Add)
                } else {
                    Some(RInstruction::Sub)
                }
            } else if funct3 == 1 && funct7 == 0x00 {
                Some(RInstruction::ShiftLeftLogical)
            } else if funct3 == 2 && funct7 == 0x00 {
                Some(RInstruction::SetLessThan)
            } else if funct3 == 3 && funct7 == 0x00 {
                Some(RInstruction::SetLessThanUnsigned)
            } else if funct3 == 4 && funct7 == 0x00 {
                Some(RInstruction::Xor)
            } else if funct3 == 5 {
                if funct7 == 0x00 {
                    Some(RInstruction::ShiftRightLogical)
                } else {
                    Some(RInstruction::ShiftRightArithmetic)
                }
            } else if funct3 == 6 && funct7 == 0x00 {
                Some(RInstruction::Or)
            } else if funct3 == 7 && funct7 == 0x00 {
                Some(RInstruction::And)
            } else {
                None
            };
            match op {
                Some(op) => Some(Decoded::R { op, rd, rs1, rs2 }),
                None => None,
            }
        } else {
            None
        }
    } else if opcode == 0x13 {
        let rd = x_rd(w);
        let rs1 = x_rs1(w);
        let imm = sext12(w >> 20);
        let op = if funct3 == 0 {
            Some(IInstruction::AddImmediate)
        } else if funct3 == 1 && funct7 == 0x00 {
            Some(IInstruction::ShiftLeftLogicalImmediate)
        } else if funct3 == 2 {
            Some(IInstruction::SetLessThanImmediate)
        } else if funct3 == 3 {
            Some(IInstruction::SetLessThanImmediateUnsigned)
        } else if funct3 == 4 {
            Some(IInstruction::XorImmediate)
        } else if funct3 == 5 && funct7 == 0x00 {
            Some(IInstruction::ShiftRightLogicalImmediate)
        } else if funct3 == 5 && funct7 == 0x20 {
            Some(IInstruction::ShiftRightArithmeticImmediate)
        } else if funct3 == 6 {
            Some(IInstruction::OrImmediate)
        } else if funct3 == 7 {
            Some(IInstruction::AndImmediate)
        } else {
            None
        };
        match op {
            Some(op) => Some(Decoded::I { op, rd, rs1, imm }),
            None => None,
        }
    } else if opcode == 0x03 {
        let rd = x_rd(w);
        let rs1 = x_rs1(w);
        let imm = sext12(w >> 20);
        let op = if funct3 == 0 {
            Some(IInstruction::LoadByte)
        } else if funct3 == 1 {
            Some(IInstruction::LoadHalf)
        } else if funct3 == 2 {
            Some(IInstruction::LoadWord)
        } else if funct3 == 4 {
            Some(IInstruction::LoadByteUnsigned)
        } else if funct3 == 5 {
            Some(IInstruction::LoadHalfUnsigned)
        } else {
            None
        };
        match op {
            Some(op) => Some(Decoded::I { op, rd, rs1, imm }),
            None => None,
        }
    } else if opcode == 0x67 {
        if funct3 == 0 {
            let rd = x_rd(w);
            let rs1 = x_rs1(w);
            let imm = sext12(w >> 20);
            Some(Decoded::I { op: IInstruction::JumpAndLinkRegister, rd, rs1, imm })
        } else {
            None
        }
    } else if opcode == 0x23 {
        let rs1 = x_rs1(w);
        let rs2 = x_rs2(w);
        let imm = sext12(((w >> 25) << 5) | ((w >> 7) & 0x1f));
        let op = if funct3 == 0 {
            Some(SInstruction::StoreByte)
        } else if funct3 == 1 {
            Some(SInstruction::StoreHalf)
        } else if funct3 == 2 {
            Some(SInstruction::StoreWord)
        } else {
            None
        };
        match op {
            Some(op) => Some(Decoded::S { op, rs1, rs2, imm }),
            None => None,
        }
    } else if opcode == 0x63 {
        let rs1 = x_rs1(w);
        let rs2 = x_rs2(w);
        let raw = ((w >> 31) << 12) | (((w >> 7) & 0x1) << 11) | (((w >> 25) & 0x3f) << 5) | (((w
            >> 8) & 0xf) << 1);
        let imm = if raw & 0x1000 != 0 {
            raw | 0xffff_e000
        } else {
            raw
        };
        let op = if funct3 == 0 {
            Some(SBInstruction::BranchEq)
        } else if funct3 == 1 {
            Some(SBInstruction::BranchNeq)
        } else if funct3 == 4 {
            Some(SBInstruction::BranchLessThan)
        } else if funct3 == 5 {
            Some(SBInstruction::BranchGreaterThanEqual)
        } else if funct3 == 6 {
            Some(SBInstruction::BranchLessThanUnsigned)
        } else if funct3 == 7 {
            Some(SBInstruction::BranchGreaterThanEqualUnsigned)
        } else {
            None
        };
        match op {
            Some(op) => Some(Decoded::SB { op, rs1, rs2, imm }),
            None => None,
        }
    } else if opcode == 0x37 {
        let rd = x_rd(w);
        Some(Decoded::U { op: UInstruction::LoadUpperImmediate, rd, imm: w & 0xffff_f000 })
    } else if opcode == 0x17 {
        let rd = x_rd(w);
        Some(Decoded::U { op: UInstruction::AddUpperImmediate, rd, imm: w & 0xffff_f000 })
    } else if opcode == 0x6f {
        let rd = x_rd(w);
        let raw = ((w >> 31) << 20) | (((w >> 12) & 0xff) << 12) | (((w >> 20) & 0x1) << 11) | (((w
            >> 21) & 0x3ff) << 1);
        let imm = if raw & 0x10_0000 != 0 {
            raw | 0xffe0_0000
        } else {
            raw
        };
        Some(Decoded::UJ { op: UJInstruction::JumpAndLink, rd, imm })
    } else if opcode == 0x73 {
        if w == 0x0000_0073 {
            Some(Decoded::Sys { op: SyscallInstruction::SyscallSuccess })
        } else {
            None
        }
    } else {
        None
    }
}

} // verus!
