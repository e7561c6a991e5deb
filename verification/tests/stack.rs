use nesemu::cpu::AddressSpace;
use nesemu::cpu::Stack;

/// Pushing 257 bytes leaves the stack pointer exactly where one push leaves
/// it, and every pushed byte lands inside the fixed stack page.
#[test]
fn test_stack_wrap() {
    let mut memory = AddressSpace::new();
    let mut stack = Stack::new();
    stack.push(&mut memory, 0xAB);
    let sp_after_one = stack.as_stack_offset();

    let mut memory = AddressSpace::new();
    let mut stack = Stack::new();
    for _ in 0..257 {
        stack.push(&mut memory, 0xAB);
    }
    assert_eq!(stack.as_stack_offset(), sp_after_one);

    for addr in 0..0x10000u32 {
        let value = memory.read(addr as u16);
        if addr < 0x0100 || addr > 0x01FF {
            assert_eq!(value, 0, "byte outside the stack page was touched");
        }
    }
}

/// Push writes at the pointer and then steps down; pop steps up and then
/// reads.
#[test]
fn test_push_pop_round_trip() {
    let mut memory = AddressSpace::new();
    let mut stack = Stack::new();
    assert_eq!(stack.as_stack_offset(), 0xFD);
    stack.push(&mut memory, 0x42);
    assert_eq!(stack.as_stack_offset(), 0xFC);
    assert_eq!(memory.read(0x01FD), 0x42);
    let popped = stack.pop(&mut memory);
    assert_eq!(popped, 0x42);
    assert_eq!(stack.as_stack_offset(), 0xFD);
}

/// A 16-bit address is pushed high byte first, so the high byte sits above
/// the low byte, and comes back low byte first.
#[test]
fn test_push_addr_pop_addr() {
    let mut memory = AddressSpace::new();
    let mut stack = Stack::new();
    stack.push_addr(&mut memory, 0xABCD);
    assert_eq!(stack.as_stack_offset(), 0xFB);
    assert_eq!(memory.read(0x01FD), 0xAB);
    assert_eq!(memory.read(0x01FC), 0xCD);
    let (lo, hi) = stack.pop_addr(&mut memory);
    assert_eq!(lo, 0xCD);
    assert_eq!(hi, 0xAB);
    assert_eq!(stack.as_stack_offset(), 0xFD);
}

/// The pointer wraps within the page: pushing at offset zero moves to 0xFF.
#[test]
fn test_stack_pointer_wraps_down() {
    let mut memory = AddressSpace::new();
    let mut stack = Stack::new();
    for _ in 0..0xFE {
        stack.push(&mut memory, 0x01);
    }
    assert_eq!(stack.as_stack_offset(), 0xFF);
    stack.push(&mut memory, 0x02);
    assert_eq!(stack.as_stack_offset(), 0xFE);
    assert_eq!(memory.read(0x01FF), 0x02);
}
