//! The instruction set: a tagged union over the RISC-V instruction
//! formats, the decoded form that carries operand fields, and the
//! canonical lowercase mnemonic of every instruction.

use vstd::prelude::*;

verus! {

/// Register-register operations (the base set and the M extension's
/// multiply/divide family share this format).
#[derive(Clone, Copy, PartialEq, Eq, Structural, Debug)]
pub enum RInstruction {
    Add,
    Sub,
    ShiftLeftLogical,
    SetLessThan,
    SetLessThanUnsigned,
    Xor,
    ShiftRightLogical,
    ShiftRightArithmetic,
    Or,
    And,
}

/// Register-immediate operations, loads included.
#[derive(Clone, Copy, PartialEq, Eq, Structural, Debug)]
pub enum IInstruction {
    LoadByte,
    LoadHalf,
    LoadWord,
    LoadByteUnsigned,
    LoadHalfUnsigned,
    ShiftLeftLogicalImmediate,
    ShiftRightLogicalImmediate,
    ShiftRightArithmeticImmediate,
    SetLessThanImmediate,
    SetLessThanImmediateUnsigned,
    AddImmediate,
    XorImmediate,
    OrImmediate,
    AndImmediate,
    JumpAndLinkRegister,
}

/// Store operations.
#[derive(Clone, Copy, PartialEq, Eq, Structural, Debug)]
pub enum SInstruction {
    StoreByte,
    StoreHalf,
    StoreWord,
}

/// Conditional branches.
#[derive(Clone, Copy, PartialEq, Eq, Structural, Debug)]
pub enum SBInstruction {
    BranchEq,
    BranchNeq,
    BranchLessThan,
    BranchGreaterThanEqual,
    BranchLessThanUnsigned,
    BranchGreaterThanEqualUnsigned,
}

/// Upper-immediate operations.
#[derive(Clone, Copy, PartialEq, Eq, Structural, Debug)]
pub enum UInstruction {
    LoadUpperImmediate,
    AddUpperImmediate,
}

/// The unconditional jump.
#[derive(Clone, Copy, PartialEq, Eq, Structural, Debug)]
pub enum UJInstruction {
    JumpAndLink,
}

/// The multiply/divide family of the M extension.
#[derive(Clone, Copy, PartialEq, Eq, Structural, Debug)]
pub enum MInstruction {
    Mul,
    Mulh,
    Mulhsu,
    Mulhu,
    Div,
    Divu,
    Rem,
    Remu,
}

/// The environment-call instruction, used for halting and oracle requests.
#[derive(Clone, Copy, PartialEq, Eq, Structural, Debug)]
pub enum SyscallInstruction {
    SyscallSuccess,
}

/// A decoded instruction's format family and operation.
#[derive(Clone, Copy, PartialEq, Eq, Structural, Debug)]
pub enum Instruction {
    RType(RInstruction),
    IType(IInstruction),
    SType(SInstruction),
    SBType(SBInstruction),
    UType(UInstruction),
    UJType(UJInstruction),
    MType(MInstruction),
    SyscallType(SyscallInstruction),
}

/// A fully decoded instruction: the operation together with its operand
/// fields, extracted once so that execution never re-decodes.  Immediates
/// are already sign-extended to 32 bits.
#[derive(Clone, Copy, PartialEq, Eq, Structural, Debug)]
pub enum Decoded {
    R { op: RInstruction, rd: u8, rs1: u8, rs2: u8 },
    I { op: IInstruction, rd: u8, rs1: u8, imm: u32 },
    S { op: SInstruction, rs1: u8, rs2: u8, imm: u32 },
    SB { op: SBInstruction, rs1: u8, rs2: u8, imm: u32 },
    U { op: UInstruction, rd: u8, imm: u32 },
    UJ { op: UJInstruction, rd: u8, imm: u32 },
    M { op: MInstruction, rd: u8, rs1: u8, rs2: u8 },
    Sys { op: SyscallInstruction },
}

/// The format tag of a decoded instruction.
pub open spec fn spec_instruction_of(d: Decoded) -> Instruction {
    match d {
        Decoded::R { op, .. } => Instruction::RType(op),
        Decoded::I { op, .. } => Instruction::IType(op),
        Decoded::S { op, .. } => Instruction::SType(op),
        Decoded::SB { op, .. } => Instruction::SBType(op),
        Decoded::U { op, .. } => Instruction::UType(op),
        Decoded::UJ { op, .. } => Instruction::UJType(op),
        Decoded::M { op, .. } => Instruction::MType(op),
        Decoded::Sys { op } => Instruction::SyscallType(op),
    }
}

impl Decoded {
    /// The format family and operation, without the operand fields.
    pub fn instruction(&self) -> (r: Instruction)
        ensures
            r == spec_instruction_of(*self),
    {
        match *self {
            Decoded::R { op, .. } => Instruction::RType(op),
            Decoded::I { op, .. } => Instruction::IType(op),
            Decoded::S { op, .. } => Instruction::SType(op),
            Decoded::SB { op, .. } => Instruction::SBType(op),
            Decoded::U { op, .. } => Instruction::UType(op),
            Decoded::UJ { op, .. } => Instruction::UJType(op),
            Decoded::M { op, .. } => Instruction::MType(op),
            Decoded::Sys { op } => Instruction::SyscallType(op),
        }
    }
}

/// The canonical lowercase assembly mnemonic of every instruction; a
/// closed, total mapping.
pub open spec fn spec_mnemonic(i: Instruction) -> Seq<char> {
    match i {
        Instruction::RType(r) => match r {
            RInstruction::Add => "add"@,
            RInstruction::Sub => "sub"@,
            RInstruction::ShiftLeftLogical => "sll"@,
            RInstruction::SetLessThan => "slt"@,
            RInstruction::SetLessThanUnsigned => "sltu"@,
            RInstruction::Xor => "xor"@,
            RInstruction::ShiftRightLogical => "srl"@,
            RInstruction::ShiftRightArithmetic => "sra"@,
            RInstruction::Or => "or"@,
            RInstruction::And => "and"@,
        },
        Instruction::IType(i) => match i {
            IInstruction::LoadByte => "lb"@,
            IInstruction::LoadHalf => "lh"@,
            IInstruction::LoadWord => "lw"@,
            IInstruction::LoadByteUnsigned => "lbu"@,
            IInstruction::LoadHalfUnsigned => "lhu"@,
            IInstruction::ShiftLeftLogicalImmediate => "slli"@,
            IInstruction::ShiftRightLogicalImmediate => "srli"@,
            IInstruction::ShiftRightArithmeticImmediate => "srai"@,
            IInstruction::SetLessThanImmediate => "slti"@,
            IInstruction::SetLessThanImmediateUnsigned => "sltiu"@,
            IInstruction::AddImmediate => "addi"@,
            IInstruction::XorImmediate => "xori"@,
            IInstruction::OrImmediate => "ori"@,
            IInstruction::AndImmediate => "andi"@,
            IInstruction::JumpAndLinkRegister => "jalr"@,
        },
        Instruction::SType(s) => match s {
            SInstruction::StoreByte => "sb"@,
            SInstruction::StoreHalf => "sh"@,
            SInstruction::StoreWord => "sw"@,
        },
        Instruction::SBType(b) => match b {
            SBInstruction::BranchEq => "beq"@,
            SBInstruction::BranchNeq => "bne"@,
            SBInstruction::BranchLessThan => "blt"@,
            SBInstruction::BranchGreaterThanEqual => "bge"@,
            SBInstruction::BranchLessThanUnsigned => "bltu"@,
            SBInstruction::BranchGreaterThanEqualUnsigned => "bgeu"@,
        },
        Instruction::UType(u) => match u {
            UInstruction::LoadUpperImmediate => "lui"@,
            UInstruction::AddUpperImmediate => "auipc"@,
        },
        Instruction::UJType(j) => match j {
            UJInstruction::JumpAndLink => "jal"@,
        },
        Instruction::MType(m) => match m {
            MInstruction::Mul => "mul"@,
            MInstruction::Mulh => "mulh"@,
            MInstruction::Mulhsu => "mulhsu"@,
            MInstruction::Mulhu => "mulhu"@,
            MInstruction::Div => "div"@,
            MInstruction::Divu => "divu"@,
            MInstruction::Rem => "rem"@,
            MInstruction::Remu => "remu"@,
        },
        Instruction::SyscallType(s) => match s {
            SyscallInstruction::SyscallSuccess => "ecall"@,
        },
    }
}

impl Instruction {
    /// Render the instruction as its standard assembly mnemonic.  The
    /// rendering is total and exact: every instruction has one, and it is
    /// pinned by `spec_mnemonic`.
    pub fn to_string(&self) -> (r: &'static str)
        ensures
            r@ == spec_mnemonic(*self),
    {
        match *self {
            Instruction::RType(r) => match r {
                RInstruction::Add => "add",
                RInstruction::Sub => "sub",
                RInstruction::ShiftLeftLogical => "sll",
                RInstruction::SetLessThan => "slt",
                RInstruction::SetLessThanUnsigned => "sltu",
                RInstruction::Xor => "xor",
                RInstruction::ShiftRightLogical => "srl",
                RInstruction::ShiftRightArithmetic => "sra",
                RInstruction::Or => "or",
                RInstruction::And => "and",
            },
            Instruction::IType(i) => match i {
                IInstruction::LoadByte => "lb",
                IInstruction::LoadHalf => "lh",
                IInstruction::LoadWord => "lw",
                IInstruction::LoadByteUnsigned => "lbu",
                IInstruction::LoadHalfUnsigned => "lhu",
                IInstruction::ShiftLeftLogicalImmediate => "slli",
                IInstruction::ShiftRightLogicalImmediate => "srli",
                IInstruction::ShiftRightArithmeticImmediate => "srai",
                IInstruction::SetLessThanImmediate => "slti",
                IInstruction::SetLessThanImmediateUnsigned => "sltiu",
                IInstruction::AddImmediate => "addi",
                IInstruction::XorImmediate => "xori",
                IInstruction::OrImmediate => "ori",
                IInstruction::AndImmediate => "andi",
                IInstruction::JumpAndLinkRegister => "jalr",
            },
            Instruction::SType(s) => match s {
                SInstruction::StoreByte => "sb",
                SInstruction::StoreHalf => "sh",
                SInstruction::StoreWord => "sw",
            },
            Instruction::SBType(b) => match b {
                SBInstruction::BranchEq => "beq",
                SBInstruction::BranchNeq => "bne",
                SBInstruction::BranchLessThan => "blt",
                SBInstruction::BranchGreaterThanEqual => "bge",
                SBInstruction::BranchLessThanUnsigned => "bltu",
                SBInstruction::BranchGreaterThanEqualUnsigned => "bgeu",
            },
            Instruction::UType(u) => match u {
                UInstruction::LoadUpperImmediate => "lui",
                UInstruction::AddUpperImmediate => "auipc",
            },
            Instruction::UJType(j) => match j {
                UJInstruction::JumpAndLink => "jal",
            },
            Instruction::MType(m) => match m {
                MInstruction::Mul => "mul",
                MInstruction::Mulh => "mulh",
                MInstruction::Mulhsu => "mulhsu",
                MInstruction::Mulhu => "mulhu",
                MInstruction::Div => "div",
                MInstruction::Divu => "divu",
                MInstruction::Rem => "rem",
                MInstruction::Remu => "remu",
            },
            Instruction::SyscallType(s) => match s {
                SyscallInstruction::SyscallSuccess => "ecall",
            },
        }
    }
}

} // verus!
