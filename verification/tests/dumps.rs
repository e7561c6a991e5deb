use nesemu::cpu::Cpu;
use nesemu::ines::NesFile;
use nesemu::opcode::next;

fn cpu_with_program(program: &[u8]) -> Cpu {
    let mut cpu = Cpu::new(NesFile { prg_rom: vec![0; 16384] });
    for (i, byte) in program.iter().enumerate() {
        cpu.memory.write(0x8000 + i as u16, *byte);
    }
    cpu.program_counter = 0x8000;
    cpu
}

fn dump_of(program: &[u8]) -> String {
    let cpu = cpu_with_program(program);
    let op = next(&cpu).expect("decode failed");
    op.dump(&cpu)
}

/// Each instruction family renders its dump line in the exact fixed-width
/// layout the golden trace expects.
#[test]
fn test_dump_formats() {
    assert_eq!(dump_of(&[0xA9, 0x0A]), "A9 0A     LDA #$0A");
    assert_eq!(dump_of(&[0xA2, 0xFF]), "A2 FF     LDX #$FF");
    assert_eq!(dump_of(&[0xA5, 0x42]), "A5 42     LDA $42 = 00");
    assert_eq!(dump_of(&[0xAD, 0x34, 0x12]), "AD 34 12     LDA $1234");
    assert_eq!(dump_of(&[0x86, 0x10]), "86 10     STX $10 = 00");
    assert_eq!(dump_of(&[0x8C, 0xCD, 0xAB]), "8C CD AB     STY $ABCD");
    assert_eq!(dump_of(&[0xF0, 0x03]), "F0 03     BEQ $8005   ");
    assert_eq!(dump_of(&[0x38]), "38        SEC        ");
    assert_eq!(dump_of(&[0xEA]), "EA        NOP     ");
    assert_eq!(dump_of(&[0x4C, 0x00, 0x90]), "4C 00 90  JMP $9000");
    assert_eq!(dump_of(&[0x20, 0x00, 0x90]), "20 00 90  JSR $9000");
    assert_eq!(dump_of(&[0x60]), "60        RTS     ");
    assert_eq!(dump_of(&[0x24, 0x42]), "24 42     BIT $42 = 00   ");
    assert_eq!(dump_of(&[0x48]), "48        PHA     ");
    assert_eq!(dump_of(&[0x08]), "08        PHP     ");
    assert_eq!(dump_of(&[0x68]), "68        PLA     ");
    assert_eq!(dump_of(&[0x28]), "28        PLP     ");
}

/// A zero-page dump shows the value currently stored at the resolved
/// address.
#[test]
fn test_zero_page_dump_shows_value() {
    let mut cpu = cpu_with_program(&[0xA5, 0x42]);
    cpu.memory.write(0x0042, 0xAB);
    let op = next(&cpu).expect("decode failed");
    assert_eq!(op.dump(&cpu), "A5 42     LDA $42 = AB");
}

/// A branch dump shows the resolved target, also for negative offsets.
#[test]
fn test_branch_dump_backward_target() {
    let cpu = cpu_with_program(&[0xD0, 0xFB]);
    let op = next(&cpu).expect("decode failed");
    assert_eq!(op.dump(&cpu), "D0 FB     BNE $7FFD   ");
}
