use nesemu::cpu::Cpu;
use nesemu::ines::NesFile;
use nesemu::opcode::addressing_mode::AddRegister;
use nesemu::opcode::addressing_mode::AddressMode;

fn blank_cpu() -> Cpu {
    Cpu::new(NesFile { prg_rom: vec![0; 16384] })
}

/// Zero-page indexing wraps within the zero page: the index never carries
/// into page one.
#[test]
fn test_zero_page_index_wrap() {
    let mut cpu = blank_cpu();
    cpu.x = 0x02;
    let mode = AddressMode::ZeroPage { register: AddRegister::X, offset: 0xFF };
    assert_eq!(mode.to_addr(&cpu), Some(0x0001));
}

/// Absolute indexing wraps around the full 16-bit address space.
#[test]
fn test_absolute_index_wrap() {
    let mut cpu = blank_cpu();
    cpu.x = 0x01;
    let mode = AddressMode::Absolute { register: AddRegister::X, address: 0xFFFF };
    assert_eq!(mode.to_addr(&cpu), Some(0x0000));
}

/// Accumulator and immediate modes have no address; plain zero page and
/// absolute resolve directly.
#[test]
fn test_to_addr_by_mode() {
    let mut cpu = blank_cpu();
    cpu.y = 0x10;
    assert_eq!(AddressMode::Accumulator.to_addr(&cpu), None);
    assert_eq!(AddressMode::Immediate { value: 0x55 }.to_addr(&cpu), None);
    let zp = AddressMode::ZeroPage { register: AddRegister::NoIndex, offset: 0x42 };
    assert_eq!(zp.to_addr(&cpu), Some(0x0042));
    let zpy = AddressMode::ZeroPage { register: AddRegister::Y, offset: 0x42 };
    assert_eq!(zpy.to_addr(&cpu), Some(0x0052));
    let abs = AddressMode::Absolute { register: AddRegister::NoIndex, address: 0x1234 };
    assert_eq!(abs.to_addr(&cpu), Some(0x1234));
}

/// The relative mode resolves against the program counter with a signed
/// offset.
#[test]
fn test_relative_mode_signed() {
    let mut cpu = blank_cpu();
    cpu.program_counter = 0x8000;
    let forward = AddressMode::Relative { offset: 0x10 };
    assert_eq!(forward.to_addr(&cpu), Some(0x8010));
    let backward = AddressMode::Relative { offset: -5 };
    assert_eq!(backward.to_addr(&cpu), Some(0x7FFB));
}

/// The operand value comes from the accumulator, the embedded literal, or
/// memory at the effective address.
#[test]
fn test_to_value() {
    let mut cpu = blank_cpu();
    cpu.a = 0x99;
    assert_eq!(AddressMode::Accumulator.to_value(&cpu), 0x99);
    assert_eq!(AddressMode::Immediate { value: 0x55 }.to_value(&cpu), 0x55);
    cpu.memory.write(0x0042, 0x77);
    let zp = AddressMode::ZeroPage { register: AddRegister::NoIndex, offset: 0x42 };
    assert_eq!(zp.to_value(&cpu), 0x77);
}

/// Disassembly renders exactly as hardware debuggers expect.
#[test]
fn test_mode_rendering() {
    let mut cpu = blank_cpu();
    cpu.memory.write(0x0042, 0xAB);
    assert_eq!(AddressMode::Accumulator.to_string(&cpu), "A");
    assert_eq!(AddressMode::Immediate { value: 0x0A }.to_string(&cpu), "#$0A");
    let zp = AddressMode::ZeroPage { register: AddRegister::NoIndex, offset: 0x42 };
    assert_eq!(zp.to_string(&cpu), "$42 = AB");
    let abs = AddressMode::Absolute { register: AddRegister::NoIndex, address: 0x1234 };
    assert_eq!(abs.to_string(&cpu), "$1234");
}

/// The raw operand bytes render low byte first.
#[test]
fn test_operand_rendering() {
    assert_eq!(AddressMode::Accumulator.value_to_string(), "A");
    assert_eq!(AddressMode::Immediate { value: 0x0A }.value_to_string(), "0A");
    let zp = AddressMode::ZeroPage { register: AddRegister::NoIndex, offset: 0xFF };
    assert_eq!(zp.value_to_string(), "FF");
    let abs = AddressMode::Absolute { register: AddRegister::NoIndex, address: 0xABCD };
    assert_eq!(abs.value_to_string(), "CD AB");
}
