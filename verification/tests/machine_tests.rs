use riscv32im::machine::{Machine, StepEffect, SYSCALL_HALT, SYSCALL_PREIMAGE_READ, SYSCALL_HINT};
use riscv32im::memory::Memory;
use riscv32im::registers::RegisterAlias;
use riscv32im::VmError;
use riscv32im::instruction::{IInstruction, Instruction};

const MEM_SIZE: u64 = 1 << 20;

fn r_type(funct7: u32, rs2: u32, rs1: u32, funct3: u32, rd: u32) -> u32 {
    (funct7 << 25) | (rs2 << 20) | (rs1 << 15) | (funct3 << 12) | (rd << 7) | 0x33
}

fn addi(rd: u32, rs1: u32, imm: i32) -> u32 {
    (((imm as u32) & 0xfff) << 20) | (rs1 << 15) | (rd << 7) | 0x13
}

fn lui(rd: u32, imm20: u32) -> u32 {
    (imm20 << 12) | (rd << 7) | 0x37
}

fn ecall() -> u32 {
    0x0000_0073
}

/// Load a program at address 0 and return a machine positioned on it.
fn machine_with(program: &[u32]) -> Machine {
    let mut memory = Memory::create(MEM_SIZE);
    let mut addr = 0u32;
    for &word in program {
        memory.write_bytes(addr, 4, word).unwrap();
        addr += 4;
    }
    Machine::create(0, memory)
}

fn run_to_halt(m: &mut Machine) {
    while !m.halt {
        m.step().unwrap();
    }
}

// Registers: t0=x5, t1=x6, t2=x7, t3=x28, t4=x29, t5=x30, t6=x31, a7=x17.

#[test]
fn step_addi_program_to_halt_yields_t0_15() {
    let mut m = machine_with(&[
        addi(5, 0, 7),
        addi(5, 5, 8),
        addi(17, 0, SYSCALL_HALT as i32),
        ecall(),
    ]);
    run_to_halt(&mut m);
    assert_eq!(m.registers.read(RegisterAlias::T0), 15);
}

#[test]
fn step_add_program_to_halt_yields_t0_15() {
    let mut m = machine_with(&[
        addi(6, 0, 7),
        addi(7, 0, 8),
        r_type(0, 7, 6, 0, 5), // add t0, t1, t2
        addi(17, 0, SYSCALL_HALT as i32),
        ecall(),
    ]);
    run_to_halt(&mut m);
    assert_eq!(m.registers.read(RegisterAlias::T0), 15);
}

#[test]
fn add_chain_program_computes_all_sums() {
    let mut m = machine_with(&[
        addi(5, 0, 123),
        addi(6, 0, 456),
        addi(7, 0, 789),
        r_type(0, 6, 5, 0, 28),  // t3 = t0 + t1
        r_type(0, 7, 28, 0, 29), // t4 = t3 + t2
        r_type(0, 7, 5, 0, 30),  // t5 = t0 + t2
        r_type(0, 0, 29, 0, 31), // t6 = t4 + x0
        addi(17, 0, SYSCALL_HALT as i32),
        ecall(),
    ]);
    run_to_halt(&mut m);
    assert_eq!(m.registers.read(RegisterAlias::T0), 123);
    assert_eq!(m.registers.read(RegisterAlias::T1), 456);
    assert_eq!(m.registers.read(RegisterAlias::T2), 789);
    assert_eq!(m.registers.read(RegisterAlias::T3), 579);
    assert_eq!(m.registers.read(RegisterAlias::T4), 1368);
    assert_eq!(m.registers.read(RegisterAlias::T5), 912);
    assert_eq!(m.registers.read(RegisterAlias::T6), 1368);
}

#[test]
fn add_overflow_wraps_to_most_negative() {
    let mut m = machine_with(&[
        lui(5, 0x80000),
        addi(5, 5, -1),          // t0 = 0x7fffffff
        addi(6, 0, 1),           // t1 = 1
        r_type(0, 6, 5, 0, 7),   // t2 = t0 + t1 = 0x80000000
        addi(28, 0, -1),         // t3 = 0xffffffff
        r_type(0, 6, 28, 0, 29), // t4 = t3 + t1 = 0
        addi(17, 0, SYSCALL_HALT as i32),
        ecall(),
    ]);
    run_to_halt(&mut m);
    assert_eq!(m.registers.read(RegisterAlias::T0), 0b01111111111111111111111111111111);
    assert_eq!(m.registers.read(RegisterAlias::T1), 0b00000000000000000000000000000001);
    assert_eq!(m.registers.read(RegisterAlias::T2), 0b10000000000000000000000000000000);
    assert_eq!(m.registers.read(RegisterAlias::T3), 0b11111111111111111111111111111111);
    assert_eq!(m.registers.read(RegisterAlias::T4), 0b00000000000000000000000000000000);
}

#[test]
fn addi_negative_chain_encodes_twos_complement() {
    let mut m = machine_with(&[
        addi(5, 0, 100),
        addi(6, 5, -50),    // 50
        addi(7, 6, -100),   // -50
        addi(28, 7, -950),  // -1000
        addi(29, 28, -500), // -1500
        addi(17, 0, SYSCALL_HALT as i32),
        ecall(),
    ]);
    run_to_halt(&mut m);
    assert_eq!(m.registers.read(RegisterAlias::T0), 100);
    assert_eq!(m.registers.read(RegisterAlias::T1), 50);
    assert_eq!(m.registers.read(RegisterAlias::T2), (-50_i32) as u32);
    assert_eq!(m.registers.read(RegisterAlias::T3), (-1000_i32) as u32);
    assert_eq!(m.registers.read(RegisterAlias::T4), (-1500_i32) as u32);
}

#[test]
fn sll_program_shifts_by_register_amount() {
    let mut m = machine_with(&[
        addi(6, 0, 1),
        addi(7, 0, 14),
        r_type(0, 7, 6, 1, 5), // sll t0, t1, t2
        addi(17, 0, SYSCALL_HALT as i32),
        ecall(),
    ]);
    run_to_halt(&mut m);
    assert_eq!(m.registers.read(RegisterAlias::T0), 1 << 14);
}

#[test]
fn writes_to_register_zero_are_discarded() {
    let mut m = machine_with(&[
        addi(0, 0, 5), // addi x0, x0, 5
        addi(17, 0, SYSCALL_HALT as i32),
        ecall(),
    ]);
    run_to_halt(&mut m);
    assert_eq!(m.registers.read(RegisterAlias::Zero), 0);
    assert_eq!(m.registers.general_purpose[0], 0);
}

#[test]
fn program_counters_pair_across_steps() {
    let mut m = machine_with(&[addi(5, 0, 1), addi(5, 5, 1), addi(5, 5, 1)]);
    assert_eq!(m.registers.read(RegisterAlias::Ip), 0);
    assert_eq!(m.registers.read(RegisterAlias::NextIp), 4);
    m.step().unwrap();
    // after a step, the current pointer sits on the next pointer the step
    // computed, 4 past the previous one
    assert_eq!(m.registers.current_instruction_pointer, 4);
    assert_eq!(m.registers.next_instruction_pointer, 4);
    m.step().unwrap();
    assert_eq!(m.registers.current_instruction_pointer, 8);
    assert_eq!(m.steps, 2);
}

#[test]
fn halted_machine_does_not_step_again() {
    let mut m = machine_with(&[addi(17, 0, SYSCALL_HALT as i32), ecall()]);
    run_to_halt(&mut m);
    let ip = m.registers.current_instruction_pointer;
    let steps = m.steps;
    let outcome = m.step().unwrap();
    assert_eq!(outcome.instruction, None);
    assert_eq!(outcome.effect, StepEffect::AlreadyHalted);
    assert_eq!(m.registers.current_instruction_pointer, ip);
    assert_eq!(m.steps, steps);
    assert!(m.halt);
}

#[test]
fn halt_reports_exit_code_from_a0() {
    let mut m = machine_with(&[
        addi(10, 0, 42),
        addi(17, 0, SYSCALL_HALT as i32),
        ecall(),
    ]);
    let mut last = None;
    while !m.halt {
        last = Some(m.step().unwrap());
    }
    let outcome = last.unwrap();
    assert_eq!(
        outcome.instruction,
        Some(Instruction::SyscallType(
            riscv32im::instruction::SyscallInstruction::SyscallSuccess
        ))
    );
    assert_eq!(outcome.effect, StepEffect::Halted { exit_code: 42 });
}

#[test]
fn unsupported_instruction_is_a_typed_fatal_error() {
    let mut m = machine_with(&[0xffff_ffff]);
    let e = m.step().unwrap_err();
    assert_eq!(e, VmError::UnsupportedInstruction { word: 0xffff_ffff, address: 0 });
    // the machine did not advance
    assert_eq!(m.registers.current_instruction_pointer, 0);
    assert!(!m.halt);
}

#[test]
fn fetch_past_addressable_range_is_out_of_range() {
    let memory = Memory::create(8);
    let mut m = Machine::create(8, memory);
    let e = m.step().unwrap_err();
    assert_eq!(e, VmError::OutOfRange { address: 8 });
}

#[test]
fn store_then_load_roundtrip_with_sign_extension() {
    // sb t0, 256(x0); lb t1, 256(x0); lbu t2, 256(x0)
    let sb = (8u32 << 25) | (5 << 20) | (0 << 15) | (0 << 12) | (0 << 7) | 0x23;
    let lb = (256u32 << 20) | (0 << 15) | (0 << 12) | (6 << 7) | 0x03;
    let lbu = (256u32 << 20) | (0 << 15) | (4 << 12) | (7 << 7) | 0x03;
    let mut m = machine_with(&[
        addi(5, 0, -2),
        sb,
        lb,
        lbu,
        addi(17, 0, SYSCALL_HALT as i32),
        ecall(),
    ]);
    run_to_halt(&mut m);
    assert_eq!(m.registers.read(RegisterAlias::T1), (-2_i32) as u32);
    assert_eq!(m.registers.read(RegisterAlias::T2), 0xfe);
}

#[test]
fn branch_taken_skips_and_jal_links() {
    // beq x0, x0, +8 jumps over the addi that would set t0
    let beq8 = (0u32 << 31) | (0 << 25) | (0 << 20) | (0 << 15) | (0 << 12) | (0b0100 << 8)
        | (0 << 7) | 0x63;
    let mut m = machine_with(&[
        beq8,
        addi(5, 0, 99), // skipped
        addi(17, 0, SYSCALL_HALT as i32),
        ecall(),
    ]);
    run_to_halt(&mut m);
    assert_eq!(m.registers.read(RegisterAlias::T0), 0);

    // jal ra, +8 from address 0 lands on 8 and links 4
    let jal8 = (4u32 << 21) | (1 << 7) | 0x6f;
    let mut m = machine_with(&[
        jal8,
        addi(5, 0, 99), // skipped
        addi(17, 0, SYSCALL_HALT as i32),
        ecall(),
    ]);
    run_to_halt(&mut m);
    assert_eq!(m.registers.read(RegisterAlias::Ra), 4);
    assert_eq!(m.registers.read(RegisterAlias::T0), 0);
}

#[test]
fn preimage_request_reports_key_and_destination_then_applies() {
    let mut memory = Memory::create(MEM_SIZE);
    // a 32-byte digest at 0x100
    for i in 0..32u32 {
        memory.write_bytes(0x100 + i, 1, i).unwrap();
    }
    let program = [
        addi(10, 0, 0x100), // a0 = digest address
        addi(11, 0, 0x200), // a1 = destination
        addi(17, 0, SYSCALL_PREIMAGE_READ as i32),
        ecall(),
        addi(17, 0, SYSCALL_HALT as i32),
        ecall(),
    ];
    let mut addr = 0u32;
    for &w in &program {
        memory.write_bytes(addr, 4, w).unwrap();
        addr += 4;
    }
    let mut m = Machine::create(0, memory);
    m.step().unwrap();
    m.step().unwrap();
    m.step().unwrap();
    let outcome = m.step().unwrap();
    assert_eq!(
        outcome.effect,
        StepEffect::PreimageRequest { key_address: 0x100, destination: 0x200 }
    );
    // the request leaves the machine in place until the payload arrives
    assert_eq!(m.registers.current_instruction_pointer, 12);
    let digest = m.memory.read_segment(0x100, 32).unwrap();
    assert_eq!(digest.len(), 32);
    assert_eq!(digest[3], 3);

    let payload = vec![9u8, 8, 7];
    m.apply_preimage(0x200, &payload).unwrap();
    assert_eq!(m.registers.read(RegisterAlias::A0), 3);
    assert_eq!(m.registers.current_instruction_pointer, 16);
    assert_eq!(m.memory.read_segment(0x200, 3).unwrap(), payload);

    run_to_halt(&mut m);
    assert!(m.halt);
}

#[test]
fn apply_preimage_past_range_fails_and_leaves_machine() {
    let memory = Memory::create(16);
    let mut m = Machine::create(0, memory);
    let payload = vec![1u8; 32];
    let e = m.apply_preimage(8, &payload).unwrap_err();
    assert_eq!(e, VmError::OutOfRange { address: 8 });
    assert_eq!(m.steps, 0);
}

#[test]
fn hint_syscall_reports_and_advances() {
    let mut m = machine_with(&[
        addi(10, 0, 0x40), // a0 = hint address
        addi(11, 0, 5),    // a1 = hint length
        addi(17, 0, SYSCALL_HINT as i32),
        ecall(),
        addi(17, 0, SYSCALL_HALT as i32),
        ecall(),
    ]);
    m.step().unwrap();
    m.step().unwrap();
    m.step().unwrap();
    let outcome = m.step().unwrap();
    assert_eq!(outcome.effect, StepEffect::HintNotice { address: 0x40, length: 5 });
    assert_eq!(m.registers.current_instruction_pointer, 16);
    run_to_halt(&mut m);
}

#[test]
fn register_aliases_resolve_to_their_indices() {
    let mut m = machine_with(&[addi(10, 0, 7), addi(2, 0, 3)]);
    m.step().unwrap();
    m.step().unwrap();
    assert_eq!(m.registers.read(RegisterAlias::A0), 7);
    assert_eq!(m.registers.general_purpose[10], 7);
    assert_eq!(m.registers.read(RegisterAlias::Sp), 3);
    assert_eq!(m.registers.general_purpose[2], 3);
    assert_eq!(RegisterAlias::T6.index(), 31);
    assert_eq!(RegisterAlias::S11.index(), 27);
    assert_eq!(RegisterAlias::Ip.index(), 32);
    assert_eq!(RegisterAlias::NextIp.index(), 33);
}

#[test]
fn add_sub_swap_program_exchanges_values() {
    let mut m = machine_with(&[
        addi(5, 0, 5),
        addi(6, 0, 10),
        r_type(0, 6, 5, 0, 7),     // t2 = t0 + t1 = 15
        r_type(0x20, 5, 7, 0, 5),  // t0 = t2 - t0 = 10
        r_type(0x20, 5, 7, 0, 6),  // t1 = t2 - t0 = 5
        addi(17, 0, SYSCALL_HALT as i32),
        ecall(),
    ]);
    run_to_halt(&mut m);
    assert_eq!(m.registers.read(RegisterAlias::T0), 10);
    assert_eq!(m.registers.read(RegisterAlias::T1), 5);
    assert_eq!(m.registers.read(RegisterAlias::T2), 15);
}

#[test]
fn addi_overflow_wraps_at_both_ends() {
    let mut m = machine_with(&[
        lui(28, 0x80000),
        addi(28, 28, -1),  // t3 = 0x7fffffff
        addi(6, 28, 1),    // t1 = 0x80000000, the wrapped sum
        addi(28, 6, -1),   // t3 = 0x7fffffff again, wrapping back
        lui(30, 0x75bd),
        addi(30, 30, -747), // t5 = 123456789
        addi(17, 0, SYSCALL_HALT as i32),
        ecall(),
    ]);
    run_to_halt(&mut m);
    assert_eq!(m.registers.read(RegisterAlias::T1), (-2147483648_i32) as u32);
    assert_eq!(m.registers.read(RegisterAlias::T3), 2147483647);
    assert_eq!(m.registers.read(RegisterAlias::T5), 123456789);
}

#[test]
fn addi_boundary_immediates_compose() {
    let mut m = machine_with(&[
        addi(6, 0, 2047),    // the largest positive immediate
        addi(6, 6, 100),     // t1 = 2147
        addi(28, 0, -2048),  // the smallest negative immediate
        addi(28, 28, 1000),  // t3 = -1048
        addi(17, 0, SYSCALL_HALT as i32),
        ecall(),
    ]);
    run_to_halt(&mut m);
    assert_eq!(m.registers.read(RegisterAlias::T1), 2147);
    assert_eq!(m.registers.read(RegisterAlias::T3), (-1048_i32) as u32);
}
