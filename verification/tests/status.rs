use nesemu::cpu::ProcessorStatus;

/// Every packed byte decodes and re-encodes to itself with bit 5 forced to
/// one; bit 4 (break) survives the round trip.
#[test]
fn test_status_round_trip_all_bytes() {
    for b in 0..=255u8 {
        let decoded = ProcessorStatus::decode(b);
        assert_eq!(decoded.encode(), b | 0x20);
        assert_eq!(decoded.b_flag, b & 0x10 == 0x10);
    }
}

/// Decoding the encoding reproduces every flag exactly.
#[test]
fn test_status_decode_encode() {
    let mut s = ProcessorStatus::new();
    s.carry = true;
    s.negative = true;
    s.b_flag = true;
    let round = ProcessorStatus::decode(s.encode());
    assert_eq!(round, s);
}

/// The power-up status byte: only interrupt disable and the reserved bit.
#[test]
fn test_power_up_status_byte() {
    let s = ProcessorStatus::new();
    assert_eq!(s.encode(), 0x24);
}

/// A load of zero sets the zero flag and clears negative; a load with bit 7
/// set does the reverse.
#[test]
fn test_update_load_flags() {
    let mut s = ProcessorStatus::new();
    s.update_load(0x00);
    assert!(s.zero);
    assert!(!s.negative);
    s.update_load(0x80);
    assert!(!s.zero);
    assert!(s.negative);
    s.update_load(0x7F);
    assert!(!s.zero);
    assert!(!s.negative);
}

/// A bit-test update additionally tracks bit 6 in the overflow flag.
#[test]
fn test_update_bit_flags() {
    let mut s = ProcessorStatus::new();
    s.update_bit(0x40);
    assert!(!s.zero);
    assert!(!s.negative);
    assert!(s.overflow);
    s.update_bit(0x00);
    assert!(s.zero);
    assert!(!s.overflow);
    s.update_bit(0xC0);
    assert!(s.negative);
    assert!(s.overflow);
}
