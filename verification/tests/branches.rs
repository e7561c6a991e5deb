use nesemu::cpu::Cpu;
use nesemu::ines::NesFile;

fn cpu_with_branch(opcode: u8) -> Cpu {
    let mut cpu = Cpu::new(NesFile { prg_rom: vec![0; 16384] });
    cpu.memory.write(0x8000, opcode);
    cpu.memory.write(0x8001, 0x06);
    cpu.program_counter = 0x8000;
    cpu
}

fn pc_after(mut cpu: Cpu) -> u16 {
    cpu.step().expect("branch instruction failed");
    cpu.program_counter
}

const TAKEN: u16 = 0x8008;
const NOT_TAKEN: u16 = 0x8002;

/// BCS branches exactly when carry is set; BCC exactly when it is clear.
#[test]
fn test_carry_branches() {
    let mut cpu = cpu_with_branch(0xB0);
    cpu.status.carry = true;
    assert_eq!(pc_after(cpu), TAKEN);
    let mut cpu = cpu_with_branch(0xB0);
    cpu.status.carry = false;
    assert_eq!(pc_after(cpu), NOT_TAKEN);

    let mut cpu = cpu_with_branch(0x90);
    cpu.status.carry = false;
    assert_eq!(pc_after(cpu), TAKEN);
    let mut cpu = cpu_with_branch(0x90);
    cpu.status.carry = true;
    assert_eq!(pc_after(cpu), NOT_TAKEN);
}

/// BVS branches exactly when overflow is set; BVC exactly when it is clear.
#[test]
fn test_overflow_branches() {
    let mut cpu = cpu_with_branch(0x70);
    cpu.status.overflow = true;
    assert_eq!(pc_after(cpu), TAKEN);
    let mut cpu = cpu_with_branch(0x70);
    cpu.status.overflow = false;
    assert_eq!(pc_after(cpu), NOT_TAKEN);

    let mut cpu = cpu_with_branch(0x50);
    cpu.status.overflow = false;
    assert_eq!(pc_after(cpu), TAKEN);
    let mut cpu = cpu_with_branch(0x50);
    cpu.status.overflow = true;
    assert_eq!(pc_after(cpu), NOT_TAKEN);
}

/// BEQ branches exactly when zero is set; BNE exactly when it is clear.
#[test]
fn test_zero_branches() {
    let mut cpu = cpu_with_branch(0xF0);
    cpu.status.zero = true;
    assert_eq!(pc_after(cpu), TAKEN);
    let mut cpu = cpu_with_branch(0xF0);
    cpu.status.zero = false;
    assert_eq!(pc_after(cpu), NOT_TAKEN);

    let mut cpu = cpu_with_branch(0xD0);
    cpu.status.zero = false;
    assert_eq!(pc_after(cpu), TAKEN);
    let mut cpu = cpu_with_branch(0xD0);
    cpu.status.zero = true;
    assert_eq!(pc_after(cpu), NOT_TAKEN);
}

/// BPL branches exactly when negative is clear; BMI exactly when it is set.
#[test]
fn test_negative_branches() {
    let mut cpu = cpu_with_branch(0x10);
    cpu.status.negative = false;
    assert_eq!(pc_after(cpu), TAKEN);
    let mut cpu = cpu_with_branch(0x10);
    cpu.status.negative = true;
    assert_eq!(pc_after(cpu), NOT_TAKEN);

    let mut cpu = cpu_with_branch(0x30);
    cpu.status.negative = true;
    assert_eq!(pc_after(cpu), TAKEN);
    let mut cpu = cpu_with_branch(0x30);
    cpu.status.negative = false;
    assert_eq!(pc_after(cpu), NOT_TAKEN);
}

/// A branch leaves registers, flags and memory untouched.
#[test]
fn test_branch_touches_only_pc_and_cycles() {
    let mut cpu = cpu_with_branch(0xF0);
    cpu.status.zero = true;
    cpu.a = 0x11;
    cpu.x = 0x22;
    cpu.y = 0x33;
    let status_before = cpu.status;
    cpu.step().expect("branch failed");
    assert_eq!(cpu.a, 0x11);
    assert_eq!(cpu.x, 0x22);
    assert_eq!(cpu.y, 0x33);
    assert_eq!(cpu.status, status_before);
    assert_eq!(cpu.stack.as_stack_offset(), 0xFD);
}
