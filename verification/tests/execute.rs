use nesemu::cpu::Cpu;
use nesemu::error::EmuError;
use nesemu::ines::NesFile;
use nesemu::opcode::next;
use nesemu::opcode::Operation;

fn blank_cpu() -> Cpu {
    Cpu::new(NesFile { prg_rom: vec![0; 16384] })
}

fn step_ok(cpu: &mut Cpu) -> String {
    cpu.step().expect("step failed on a supported instruction")
}

/// Power-up state after construction.
#[test]
fn test_power_up_state() {
    let cpu = blank_cpu();
    assert_eq!(cpu.program_counter, 0xC000);
    assert_eq!(cpu.stack.as_stack_offset(), 0xFD);
    assert_eq!(cpu.a, 0);
    assert_eq!(cpu.x, 0);
    assert_eq!(cpu.y, 0);
    assert_eq!(cpu.cycles, 7);
    assert!(cpu.status.interrupt_disable);
    assert!(!cpu.status.carry);
}

/// A 16KiB program ROM is byte-identical in both halves of the ROM window.
#[test]
fn test_rom_mirroring() {
    let mut prg = vec![0u8; 16384];
    for (i, byte) in prg.iter_mut().enumerate() {
        *byte = (i as u8).wrapping_mul(7).wrapping_add(3);
    }
    let cpu = Cpu::new(NesFile { prg_rom: prg.clone() });
    for i in 0..16384u32 {
        let low = cpu.memory.read(0x8000 + i as u16);
        let high = cpu.memory.read(0xC000u16.wrapping_add(i as u16));
        assert_eq!(low, prg[i as usize]);
        assert_eq!(low, high);
    }
}

/// A 32KiB program ROM maps directly across the whole window.
#[test]
fn test_rom_direct_mapping() {
    let mut prg = vec![0u8; 32768];
    for (i, byte) in prg.iter_mut().enumerate() {
        *byte = (i % 251) as u8;
    }
    let cpu = Cpu::new(NesFile { prg_rom: prg.clone() });
    for i in (0..32768usize).step_by(97) {
        assert_eq!(cpu.memory.read((0x8000 + i) as u16), prg[i]);
    }
}

/// Branch timing: taken without a page cross costs three cycles; a taken
/// branch whose target page differs from the page after the branch costs
/// four.
#[test]
fn test_branch_timing() {
    let mut cpu = blank_cpu();
    cpu.memory.write(0x8000, 0xF0);
    cpu.memory.write(0x8001, 0x10);
    cpu.program_counter = 0x8000;
    cpu.status.zero = true;
    let before = cpu.cycles;
    step_ok(&mut cpu);
    assert_eq!(cpu.program_counter, 0x8012);
    assert_eq!(cpu.cycles - before, 3);

    let mut cpu = blank_cpu();
    cpu.memory.write(0x80F0, 0xF0);
    cpu.memory.write(0x80F1, 0x20);
    cpu.program_counter = 0x80F0;
    cpu.status.zero = true;
    let before = cpu.cycles;
    step_ok(&mut cpu);
    assert_eq!(cpu.program_counter, 0x8112);
    assert_eq!(cpu.cycles - before, 4);
}

/// A branch not taken falls through in two cycles.
#[test]
fn test_branch_not_taken() {
    let mut cpu = blank_cpu();
    cpu.memory.write(0x8000, 0xF0);
    cpu.memory.write(0x8001, 0x10);
    cpu.program_counter = 0x8000;
    cpu.status.zero = false;
    let before = cpu.cycles;
    step_ok(&mut cpu);
    assert_eq!(cpu.program_counter, 0x8002);
    assert_eq!(cpu.cycles - before, 2);
}

/// A branch with a negative offset moves backwards.
#[test]
fn test_branch_backward() {
    let mut cpu = blank_cpu();
    cpu.memory.write(0x8010, 0xD0);
    cpu.memory.write(0x8011, 0xFB);
    cpu.program_counter = 0x8010;
    cpu.status.zero = false;
    step_ok(&mut cpu);
    assert_eq!(cpu.program_counter, 0x800D);
}

/// Load flag update: an immediate load of zero sets the zero flag only; a
/// load of 0x80 sets the negative flag only.
#[test]
fn test_load_flag_update() {
    let mut cpu = blank_cpu();
    cpu.memory.write(0x8000, 0xA9);
    cpu.memory.write(0x8001, 0x00);
    cpu.program_counter = 0x8000;
    step_ok(&mut cpu);
    assert_eq!(cpu.a, 0x00);
    assert!(cpu.status.zero);
    assert!(!cpu.status.negative);

    let mut cpu = blank_cpu();
    cpu.memory.write(0x8000, 0xA9);
    cpu.memory.write(0x8001, 0x80);
    cpu.program_counter = 0x8000;
    step_ok(&mut cpu);
    assert_eq!(cpu.a, 0x80);
    assert!(!cpu.status.zero);
    assert!(cpu.status.negative);
}

/// JSR then RTS returns to the instruction after the call and the pair costs
/// twelve cycles.
#[test]
fn test_jsr_rts_round_trip() {
    let mut cpu = blank_cpu();
    cpu.memory.write(0x8000, 0x20);
    cpu.memory.write(0x8001, 0x00);
    cpu.memory.write(0x8002, 0x90);
    cpu.memory.write(0x9000, 0x60);
    cpu.program_counter = 0x8000;
    let before = cpu.cycles;
    step_ok(&mut cpu);
    assert_eq!(cpu.program_counter, 0x9000);
    assert_eq!(cpu.stack.as_stack_offset(), 0xFB);
    assert_eq!(cpu.memory.read(0x01FD), 0x80);
    assert_eq!(cpu.memory.read(0x01FC), 0x02);
    step_ok(&mut cpu);
    assert_eq!(cpu.program_counter, 0x8003);
    assert_eq!(cpu.stack.as_stack_offset(), 0xFD);
    assert_eq!(cpu.cycles - before, 12);
}

/// Stores write the register to memory without touching any flag.
#[test]
fn test_store_zero_page() {
    let mut cpu = blank_cpu();
    cpu.memory.write(0x8000, 0x86);
    cpu.memory.write(0x8001, 0x10);
    cpu.program_counter = 0x8000;
    cpu.x = 0xAB;
    let status_before = cpu.status;
    let before = cpu.cycles;
    step_ok(&mut cpu);
    assert_eq!(cpu.memory.read(0x0010), 0xAB);
    assert_eq!(cpu.program_counter, 0x8002);
    assert_eq!(cpu.cycles - before, 3);
    assert_eq!(cpu.status, status_before);
}

/// An absolute store of the accumulator.
#[test]
fn test_store_absolute() {
    let mut cpu = blank_cpu();
    cpu.memory.write(0x8000, 0x8D);
    cpu.memory.write(0x8001, 0x34);
    cpu.memory.write(0x8002, 0x12);
    cpu.program_counter = 0x8000;
    cpu.a = 0x5C;
    let before = cpu.cycles;
    step_ok(&mut cpu);
    assert_eq!(cpu.memory.read(0x1234), 0x5C);
    assert_eq!(cpu.program_counter, 0x8003);
    assert_eq!(cpu.cycles - before, 4);
}

/// An indexed load pays one extra cycle when it crosses a page.
#[test]
fn test_load_absolute_indexed_page_cross() {
    let mut cpu = blank_cpu();
    cpu.memory.write(0x8000, 0xBD);
    cpu.memory.write(0x8001, 0xF0);
    cpu.memory.write(0x8002, 0x02);
    cpu.memory.write(0x0310, 0x3C);
    cpu.program_counter = 0x8000;
    cpu.x = 0x20;
    let before = cpu.cycles;
    step_ok(&mut cpu);
    assert_eq!(cpu.a, 0x3C);
    assert_eq!(cpu.cycles - before, 5);

    let mut cpu = blank_cpu();
    cpu.memory.write(0x8000, 0xBD);
    cpu.memory.write(0x8001, 0x00);
    cpu.memory.write(0x8002, 0x03);
    cpu.memory.write(0x0310, 0x3C);
    cpu.program_counter = 0x8000;
    cpu.x = 0x10;
    let before = cpu.cycles;
    step_ok(&mut cpu);
    assert_eq!(cpu.a, 0x3C);
    assert_eq!(cpu.cycles - before, 4);
}

/// The bit test masks memory with the accumulator and sets flags from the
/// result, leaving the accumulator itself unchanged.
#[test]
fn test_bit_zero_page() {
    let mut cpu = blank_cpu();
    cpu.memory.write(0x8000, 0x24);
    cpu.memory.write(0x8001, 0x10);
    cpu.memory.write(0x0010, 0xC0);
    cpu.program_counter = 0x8000;
    cpu.a = 0xFF;
    let before = cpu.cycles;
    step_ok(&mut cpu);
    assert_eq!(cpu.a, 0xFF);
    assert!(cpu.status.negative);
    assert!(cpu.status.overflow);
    assert!(!cpu.status.zero);
    assert_eq!(cpu.cycles - before, 3);
}

/// Push and pull move the accumulator and the packed status byte through the
/// stack.
#[test]
fn test_push_pull() {
    let mut cpu = blank_cpu();
    cpu.memory.write(0x8000, 0x48);
    cpu.memory.write(0x8001, 0xA9);
    cpu.memory.write(0x8002, 0x00);
    cpu.memory.write(0x8003, 0x68);
    cpu.program_counter = 0x8000;
    cpu.a = 0x77;
    step_ok(&mut cpu);
    assert_eq!(cpu.stack.as_stack_offset(), 0xFC);
    assert_eq!(cpu.memory.read(0x01FD), 0x77);
    step_ok(&mut cpu);
    assert_eq!(cpu.a, 0x00);
    assert!(cpu.status.zero);
    step_ok(&mut cpu);
    assert_eq!(cpu.a, 0x77);
    assert!(!cpu.status.zero);
    assert_eq!(cpu.stack.as_stack_offset(), 0xFD);
}

/// PHP pushes the packed status byte; PLP restores the flags from it.
#[test]
fn test_push_pull_status() {
    let mut cpu = blank_cpu();
    cpu.memory.write(0x8000, 0x08);
    cpu.memory.write(0x8001, 0x28);
    cpu.program_counter = 0x8000;
    cpu.status.carry = true;
    cpu.status.zero = true;
    step_ok(&mut cpu);
    let pushed = cpu.memory.read(0x01FD);
    assert_eq!(pushed, cpu.status.encode());
    cpu.status.carry = false;
    cpu.status.zero = false;
    step_ok(&mut cpu);
    assert!(cpu.status.carry);
    assert!(cpu.status.zero);
}

/// Every flag instruction mutates exactly its named flag.
#[test]
fn test_flag_instructions() {
    let mut cpu = blank_cpu();
    for (addr, opcode) in [0x38u8, 0x78, 0xF8, 0x18, 0x58, 0xD8, 0xB8]
        .iter()
        .enumerate()
    {
        cpu.memory.write(0x8000 + addr as u16, *opcode);
    }
    cpu.program_counter = 0x8000;
    cpu.status.overflow = true;
    step_ok(&mut cpu);
    assert!(cpu.status.carry);
    step_ok(&mut cpu);
    assert!(cpu.status.interrupt_disable);
    step_ok(&mut cpu);
    assert!(cpu.status.decimal);
    step_ok(&mut cpu);
    assert!(!cpu.status.carry);
    step_ok(&mut cpu);
    assert!(!cpu.status.interrupt_disable);
    step_ok(&mut cpu);
    assert!(!cpu.status.decimal);
    step_ok(&mut cpu);
    assert!(!cpu.status.overflow);
    assert_eq!(cpu.program_counter, 0x8007);
    assert_eq!(cpu.cycles, 7 + 14);
}

/// An absolute jump moves the program counter in three cycles.
#[test]
fn test_jmp_absolute() {
    let mut cpu = blank_cpu();
    cpu.memory.write(0x8000, 0x4C);
    cpu.memory.write(0x8001, 0x34);
    cpu.memory.write(0x8002, 0x12);
    cpu.program_counter = 0x8000;
    let before = cpu.cycles;
    step_ok(&mut cpu);
    assert_eq!(cpu.program_counter, 0x1234);
    assert_eq!(cpu.cycles - before, 3);
}

/// A NOP advances past one byte in two cycles and changes nothing else.
#[test]
fn test_nop() {
    let mut cpu = blank_cpu();
    cpu.memory.write(0x8000, 0xEA);
    cpu.program_counter = 0x8000;
    let before = cpu.cycles;
    step_ok(&mut cpu);
    assert_eq!(cpu.program_counter, 0x8001);
    assert_eq!(cpu.cycles - before, 2);
}

/// A byte no family claims is an unsupported-opcode failure carrying the
/// opcode and the program counter, and the state is untouched.
#[test]
fn test_unsupported_opcode() {
    let mut cpu = blank_cpu();
    cpu.memory.write(0x8000, 0xFF);
    cpu.program_counter = 0x8000;
    let err = cpu.step().unwrap_err();
    assert_eq!(err, EmuError::UnsupportedOpcode { opcode: 0xFF, pc: 0x8000 });
    assert_eq!(cpu.program_counter, 0x8000);
    assert_eq!(cpu.cycles, 7);
}

/// A recognized instruction asking for an indirect mode is a distinct,
/// unsupported-addressing-mode failure.
#[test]
fn test_unsupported_addressing_mode() {
    for opcode in [0x6Cu8, 0xA1, 0xB1, 0x81, 0x91] {
        let mut cpu = blank_cpu();
        cpu.memory.write(0x8000, opcode);
        cpu.program_counter = 0x8000;
        let err = cpu.step().unwrap_err();
        assert_eq!(err, EmuError::UnsupportedAddressingMode);
        assert_eq!(cpu.program_counter, 0x8000);
    }
}

/// Decode recognizes one family per opcode byte.
#[test]
fn test_decode_families() {
    let mut cpu = blank_cpu();
    cpu.memory.write(0x8000, 0xA2);
    cpu.program_counter = 0x8000;
    assert!(matches!(next(&cpu), Ok(Operation::Load(_))));
    cpu.memory.write(0x8000, 0x86);
    assert!(matches!(next(&cpu), Ok(Operation::Store(_))));
    cpu.memory.write(0x8000, 0xF0);
    assert!(matches!(next(&cpu), Ok(Operation::Beq(_))));
    cpu.memory.write(0x8000, 0x38);
    assert!(matches!(next(&cpu), Ok(Operation::Flag(_))));
    cpu.memory.write(0x8000, 0x20);
    assert!(matches!(next(&cpu), Ok(Operation::Jsr(_))));
    cpu.memory.write(0x8000, 0x60);
    assert!(matches!(next(&cpu), Ok(Operation::Rts(_))));
    cpu.memory.write(0x8000, 0x24);
    assert!(matches!(next(&cpu), Ok(Operation::Bit(_))));
    cpu.memory.write(0x8000, 0x48);
    assert!(matches!(next(&cpu), Ok(Operation::Push(_))));
    cpu.memory.write(0x8000, 0x28);
    assert!(matches!(next(&cpu), Ok(Operation::Pull(_))));
    cpu.memory.write(0x8000, 0xEA);
    assert!(matches!(next(&cpu), Ok(Operation::Nop(_))));
    cpu.memory.write(0x8000, 0x4C);
    assert!(matches!(next(&cpu), Ok(Operation::Jmp(_))));
}
