use nesemu::error::RomError;
use nesemu::ines::Header;
use nesemu::ines::NesFile;

fn valid_image(banks: u8) -> Vec<u8> {
    let mut bytes = vec![0u8; 16 + banks as usize * 16384];
    bytes[0] = b'N';
    bytes[1] = b'E';
    bytes[2] = b'S';
    bytes[3] = 0x1A;
    bytes[4] = banks;
    bytes
}

/// A header parses exactly when the magic is present and the unknown bytes
/// are clear.
#[test]
fn test_header_parses() {
    let mut header = [0u8; 16];
    header[0] = b'N';
    header[1] = b'E';
    header[2] = b'S';
    header[3] = 0x1A;
    header[4] = 2;
    let parsed = Header::new(header).expect("valid header rejected");
    assert_eq!(parsed.prg_rom_multiple_size, 2);
    assert_eq!(parsed.get_prg_rom_size(), 32768);
}

/// A bad magic byte is an invalid-magic failure.
#[test]
fn test_header_bad_magic() {
    let mut header = [0u8; 16];
    header[0] = b'N';
    header[1] = b'E';
    header[2] = b'X';
    header[3] = 0x1A;
    assert_eq!(Header::new(header).unwrap_err(), RomError::InvalidMagic);
}

/// A set byte among the unsupported header fields is an unsupported-format
/// failure.
#[test]
fn test_header_unsupported_flags() {
    let mut header = [0u8; 16];
    header[0] = b'N';
    header[1] = b'E';
    header[2] = b'S';
    header[3] = 0x1A;
    header[7] = 1;
    assert_eq!(Header::new(header).unwrap_err(), RomError::UnsupportedFormat);
}

/// A whole image parses into the program ROM bytes after the header.
#[test]
fn test_parse_image() {
    let mut bytes = valid_image(1);
    for i in 0..16384 {
        bytes[16 + i] = (i % 256) as u8;
    }
    let nes = NesFile::parse(&bytes).expect("valid image rejected");
    assert_eq!(nes.prg_rom.len(), 16384);
    assert_eq!(nes.prg_rom[0], 0);
    assert_eq!(nes.prg_rom[300], 44);
}

/// A two-bank image hands back 32KiB of program ROM.
#[test]
fn test_parse_two_banks() {
    let bytes = valid_image(2);
    let nes = NesFile::parse(&bytes).expect("valid image rejected");
    assert_eq!(nes.prg_rom.len(), 32768);
}

/// Parse failures: short buffer, bad magic, bank counts the fixed mapping
/// cannot serve, and an image shorter than its header promises.
#[test]
fn test_parse_failures() {
    assert_eq!(NesFile::parse(&vec![0u8; 5]).unwrap_err(), RomError::TruncatedImage);

    let mut bad_magic = valid_image(1);
    bad_magic[3] = 0;
    assert_eq!(NesFile::parse(&bad_magic).unwrap_err(), RomError::InvalidMagic);

    let mut three_banks = valid_image(1);
    three_banks[4] = 3;
    assert_eq!(NesFile::parse(&three_banks).unwrap_err(), RomError::UnsupportedFormat);

    let mut zero_banks = valid_image(1);
    zero_banks[4] = 0;
    assert_eq!(NesFile::parse(&zero_banks).unwrap_err(), RomError::UnsupportedFormat);

    let mut truncated = valid_image(1);
    truncated.truncate(16 + 1000);
    assert_eq!(NesFile::parse(&truncated).unwrap_err(), RomError::TruncatedImage);
}
