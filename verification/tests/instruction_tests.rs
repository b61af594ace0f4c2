use riscv32im::decoder::decode;
use riscv32im::instruction::{
    Decoded, IInstruction, Instruction, MInstruction, RInstruction, SBInstruction, SInstruction,
    SyscallInstruction, UInstruction, UJInstruction,
};

#[test]
// Checking an instruction can be converted into a string.
// It is mostly because we would want to use it to debug or write better error
// messages.
fn test_instruction_can_be_converted_into_string() {
    let instruction = Instruction::RType(RInstruction::Add);
    assert_eq!(instruction.to_string(), "add");

    let instruction = Instruction::RType(RInstruction::Sub);
    assert_eq!(instruction.to_string(), "sub");

    let instruction = Instruction::IType(IInstruction::LoadByte);
    assert_eq!(instruction.to_string(), "lb");

    let instruction = Instruction::IType(IInstruction::LoadHalf);
    assert_eq!(instruction.to_string(), "lh");
}

#[test]
fn mnemonics_of_rtype_are_exact() {
    assert_eq!(Instruction::RType(RInstruction::ShiftLeftLogical).to_string(), "sll");
    assert_eq!(Instruction::RType(RInstruction::SetLessThan).to_string(), "slt");
    assert_eq!(Instruction::RType(RInstruction::SetLessThanUnsigned).to_string(), "sltu");
    assert_eq!(Instruction::RType(RInstruction::Xor).to_string(), "xor");
    assert_eq!(Instruction::RType(RInstruction::ShiftRightLogical).to_string(), "srl");
    assert_eq!(Instruction::RType(RInstruction::ShiftRightArithmetic).to_string(), "sra");
    assert_eq!(Instruction::RType(RInstruction::Or).to_string(), "or");
    assert_eq!(Instruction::RType(RInstruction::And).to_string(), "and");
}

#[test]
fn mnemonics_of_itype_are_exact() {
    assert_eq!(Instruction::IType(IInstruction::LoadWord).to_string(), "lw");
    assert_eq!(Instruction::IType(IInstruction::LoadByteUnsigned).to_string(), "lbu");
    assert_eq!(Instruction::IType(IInstruction::LoadHalfUnsigned).to_string(), "lhu");
    assert_eq!(Instruction::IType(IInstruction::ShiftLeftLogicalImmediate).to_string(), "slli");
    assert_eq!(Instruction::IType(IInstruction::ShiftRightLogicalImmediate).to_string(), "srli");
    assert_eq!(Instruction::IType(IInstruction::ShiftRightArithmeticImmediate).to_string(), "srai");
    assert_eq!(Instruction::IType(IInstruction::SetLessThanImmediate).to_string(), "slti");
    assert_eq!(Instruction::IType(IInstruction::SetLessThanImmediateUnsigned).to_string(), "sltiu");
    assert_eq!(Instruction::IType(IInstruction::AddImmediate).to_string(), "addi");
    assert_eq!(Instruction::IType(IInstruction::XorImmediate).to_string(), "xori");
    assert_eq!(Instruction::IType(IInstruction::OrImmediate).to_string(), "ori");
    assert_eq!(Instruction::IType(IInstruction::AndImmediate).to_string(), "andi");
    assert_eq!(Instruction::IType(IInstruction::JumpAndLinkRegister).to_string(), "jalr");
}

#[test]
fn mnemonics_of_remaining_formats_are_exact() {
    assert_eq!(Instruction::SType(SInstruction::StoreByte).to_string(), "sb");
    assert_eq!(Instruction::SType(SInstruction::StoreHalf).to_string(), "sh");
    assert_eq!(Instruction::SType(SInstruction::StoreWord).to_string(), "sw");
    assert_eq!(Instruction::SBType(SBInstruction::BranchEq).to_string(), "beq");
    assert_eq!(Instruction::SBType(SBInstruction::BranchNeq).to_string(), "bne");
    assert_eq!(Instruction::SBType(SBInstruction::BranchLessThan).to_string(), "blt");
    assert_eq!(Instruction::SBType(SBInstruction::BranchGreaterThanEqual).to_string(), "bge");
    assert_eq!(Instruction::SBType(SBInstruction::BranchLessThanUnsigned).to_string(), "bltu");
    assert_eq!(
        Instruction::SBType(SBInstruction::BranchGreaterThanEqualUnsigned).to_string(),
        "bgeu"
    );
    assert_eq!(Instruction::UType(UInstruction::LoadUpperImmediate).to_string(), "lui");
    assert_eq!(Instruction::UType(UInstruction::AddUpperImmediate).to_string(), "auipc");
    assert_eq!(Instruction::UJType(UJInstruction::JumpAndLink).to_string(), "jal");
    assert_eq!(Instruction::MType(MInstruction::Mul).to_string(), "mul");
    assert_eq!(Instruction::MType(MInstruction::Mulh).to_string(), "mulh");
    assert_eq!(Instruction::MType(MInstruction::Mulhsu).to_string(), "mulhsu");
    assert_eq!(Instruction::MType(MInstruction::Mulhu).to_string(), "mulhu");
    assert_eq!(Instruction::MType(MInstruction::Div).to_string(), "div");
    assert_eq!(Instruction::MType(MInstruction::Divu).to_string(), "divu");
    assert_eq!(Instruction::MType(MInstruction::Rem).to_string(), "rem");
    assert_eq!(Instruction::MType(MInstruction::Remu).to_string(), "remu");
    assert_eq!(
        Instruction::SyscallType(SyscallInstruction::SyscallSuccess).to_string(),
        "ecall"
    );
}

#[test]
fn decode_add_a0_a0_a1() {
    // add a0, a0, a1  ==  0x00b50533
    let d = decode(0x00b50533).unwrap();
    assert_eq!(d, Decoded::R { op: RInstruction::Add, rd: 10, rs1: 10, rs2: 11 });
    assert_eq!(d.instruction(), Instruction::RType(RInstruction::Add));
}

#[test]
fn decode_sub_and_sra_use_funct7() {
    // sub a0, a0, a1  ==  0x40b50533
    let d = decode(0x40b50533).unwrap();
    assert_eq!(d, Decoded::R { op: RInstruction::Sub, rd: 10, rs1: 10, rs2: 11 });
    // sra a0, a0, a1  ==  0x40b55533
    let d = decode(0x40b55533).unwrap();
    assert_eq!(d, Decoded::R { op: RInstruction::ShiftRightArithmetic, rd: 10, rs1: 10, rs2: 11 });
}

#[test]
fn decode_addi_with_negative_immediate() {
    // addi t0, t0, -50  ==  imm = 0xfce = -50
    let word = (0xfceu32 << 20) | (5 << 15) | (0 << 12) | (5 << 7) | 0x13;
    let d = decode(word).unwrap();
    assert_eq!(
        d,
        Decoded::I { op: IInstruction::AddImmediate, rd: 5, rs1: 5, imm: (-50i32) as u32 }
    );
}

#[test]
fn decode_load_and_store() {
    // lb a0, 4(sp)
    let word = (4u32 << 20) | (2 << 15) | (0 << 12) | (10 << 7) | 0x03;
    let d = decode(word).unwrap();
    assert_eq!(d, Decoded::I { op: IInstruction::LoadByte, rd: 10, rs1: 2, imm: 4 });
    // sw a1, 8(sp): imm 8 -> imm[11:5]=0, imm[4:0]=8
    let word = (0u32 << 25) | (11 << 20) | (2 << 15) | (2 << 12) | (8 << 7) | 0x23;
    let d = decode(word).unwrap();
    assert_eq!(d, Decoded::S { op: SInstruction::StoreWord, rs1: 2, rs2: 11, imm: 8 });
}

#[test]
fn decode_branch_offset_is_shuffled_and_signed() {
    // beq a0, a1, -4: offset -4 = 0x1ffc (13-bit): imm[12]=1 imm[11]=1
    // imm[10:5]=0b111111 imm[4:1]=0b1110
    let word = (1u32 << 31) | (0b111111 << 25) | (11 << 20) | (10 << 15) | (0 << 12)
        | (0b1110 << 8) | (1 << 7) | 0x63;
    let d = decode(word).unwrap();
    assert_eq!(
        d,
        Decoded::SB { op: SBInstruction::BranchEq, rs1: 10, rs2: 11, imm: (-4i32) as u32 }
    );
}

#[test]
fn decode_jal_offset_is_shuffled_and_signed() {
    // jal ra, 8: imm[20]=0 imm[19:12]=0 imm[11]=0 imm[10:1]=4
    let word = (4u32 << 21) | (1 << 7) | 0x6f;
    let d = decode(word).unwrap();
    assert_eq!(d, Decoded::UJ { op: UJInstruction::JumpAndLink, rd: 1, imm: 8 });
}

#[test]
fn decode_upper_immediates() {
    // lui t0, 0x80000
    let d = decode((0x80000u32 << 12) | (5 << 7) | 0x37).unwrap();
    assert_eq!(d, Decoded::U { op: UInstruction::LoadUpperImmediate, rd: 5, imm: 0x8000_0000 });
    // auipc t1, 1
    let d = decode((1u32 << 12) | (6 << 7) | 0x17).unwrap();
    assert_eq!(d, Decoded::U { op: UInstruction::AddUpperImmediate, rd: 6, imm: 0x1000 });
}

#[test]
fn decode_mul_family() {
    // mul a0, a0, a1 has funct7 = 1
    let word = (1u32 << 25) | (11 << 20) | (10 << 15) | (0 << 12) | (10 << 7) | 0x33;
    let d = decode(word).unwrap();
    assert_eq!(d, Decoded::M { op: MInstruction::Mul, rd: 10, rs1: 10, rs2: 11 });
    let word = (1u32 << 25) | (11 << 20) | (10 << 15) | (4 << 12) | (10 << 7) | 0x33;
    assert_eq!(
        decode(word).unwrap(),
        Decoded::M { op: MInstruction::Div, rd: 10, rs1: 10, rs2: 11 }
    );
}

#[test]
fn decode_ecall() {
    let d = decode(0x0000_0073).unwrap();
    assert_eq!(d, Decoded::Sys { op: SyscallInstruction::SyscallSuccess });
}

#[test]
fn unsupported_words_do_not_decode() {
    // all ones: opcode 0x7f is no implemented family
    assert!(decode(0xffff_ffff).is_none());
    // a csr instruction: system opcode but not the plain ecall word
    assert!(decode(0x3052_9073).is_none());
    // fence: opcode 0x0f is not implemented
    assert!(decode(0x0ff0_000f).is_none());
    // R-type with an unknown funct7
    assert!(decode(0x60b5_0533).is_none());
}
