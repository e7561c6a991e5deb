use nesemu::cpu::Cpu;
use nesemu::ines::NesFile;
use nesemu::text::dec_u64;
use nesemu::text::hex2;
use nesemu::text::hex4;

/// Numeric fields render in uppercase hexadecimal with fixed width.
#[test]
fn test_hex_rendering() {
    assert_eq!(hex2(0x00), "00");
    assert_eq!(hex2(0x0A), "0A");
    assert_eq!(hex2(0xFF), "FF");
    assert_eq!(hex4(0x0000), "0000");
    assert_eq!(hex4(0xC000), "C000");
    assert_eq!(hex4(0x12AB), "12AB");
}

/// The cycle counter renders in decimal with no leading zeros.
#[test]
fn test_decimal_rendering() {
    assert_eq!(dec_u64(0), "0");
    assert_eq!(dec_u64(7), "7");
    assert_eq!(dec_u64(10), "10");
    assert_eq!(dec_u64(26554), "26554");
    assert_eq!(dec_u64(u64::MAX), "18446744073709551615");
}

/// Golden trace conformance: a fixed program, stepped a bounded number of
/// times, must reproduce the reference trace lines byte for byte.
#[test]
fn test_golden_trace() {
    let mut prg = vec![0u8; 16384];
    let program: [u8; 11] = [
        0xA2, 0x05, // LDX #$05
        0x86, 0x10, // STX $10
        0x38, // SEC
        0xB0, 0x03, // BCS +3 (to 0xC00A)
        0xEA, 0xEA, 0xEA, // skipped
        0xEA, // NOP at 0xC00A
    ];
    prg[..program.len()].copy_from_slice(&program);
    let mut cpu = Cpu::new(NesFile { prg_rom: prg });

    let expected = [
        "C000  A2 05     LDX #$05  A:00 X:00 Y:00 P:24 SP:FD CYC:7",
        "C002  86 10     STX $10 = 00  A:00 X:05 Y:00 P:24 SP:FD CYC:9",
        "C004  38        SEC          A:00 X:05 Y:00 P:24 SP:FD CYC:12",
        "C005  B0 03     BCS $C00A     A:00 X:05 Y:00 P:25 SP:FD CYC:14",
        "C00A  EA        NOP       A:00 X:05 Y:00 P:25 SP:FD CYC:17",
    ];
    for want in expected {
        let line = cpu.step().expect("trace program uses supported opcodes");
        assert_eq!(line, want);
    }
    assert_eq!(cpu.program_counter, 0xC00B);
    assert_eq!(cpu.cycles, 19);
}
