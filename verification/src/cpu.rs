//! The processor state: the 64KiB address space, the packed status register,
//! the one-page descending stack, and the register file.
//!
//! The stack occupies the fixed page `0x0100`–`0x01FF`.  Pushes decrement and
//! pops increment an 8-bit offset into that page, both wrapping modulo 256,
//! so the stack never leaves its page even on overflow.

use vstd::prelude::*;
use vstd::string::StringExecFns;
use vstd::wrapping::u8_specs;
use crate::error::EmuError;
use crate::ines::NesFile;

verus! {

/// Number of bytes in the address space.
pub const MEMORY_SIZE: usize = 0x10000;

/// Absolute base address of the stack page.
pub const STACK_PAGE_BASE: u16 = 0x0100;

/// The 64KiB address space, the sole mutable memory resource of the core.
pub struct AddressSpace {
    bytes: Vec<u8>,
}

impl View for AddressSpace {
    type V = Seq<u8>;

    closed spec fn view(&self) -> Seq<u8> {
        self.bytes@
    }
}

impl AddressSpace {
    /// The address space always spans exactly 64KiB.
    pub open spec fn wf(&self) -> bool {
        self@.len() == MEMORY_SIZE
    }

    /// A fresh address space, all bytes zero.
    pub fn new() -> (r: AddressSpace)
        ensures
            r.wf(),
            forall|i: int| 0 <= i < MEMORY_SIZE ==> r@[i] == 0u8,
    {
        let mut bytes: Vec<u8> = Vec::new();
        let mut i: usize = 0;
        while i < MEMORY_SIZE
            invariant
                bytes@.len() == i,
                i <= MEMORY_SIZE,
                forall|j: int| 0 <= j < i ==> bytes@[j] == 0u8,
            decreases MEMORY_SIZE - i,
        {
            bytes.push(0);
            i = i + 1;
        }
        AddressSpace { bytes }
    }

    /// The byte stored at an address.
    pub fn read(&self, addr: u16) -> (r: u8)
        requires
            self.wf(),
        ensures
            r == self@[addr as int],
    {
        self.bytes[addr as usize]
    }

    /// Store a byte at an address.
    pub fn write(&mut self, addr: u16, value: u8)
        requires
            old(self).wf(),
        ensures
            final(self).wf(),
            final(self)@ == old(self)@.update(addr as int, value),
    {
        self.bytes[addr as usize] = value;
    }
}

/// The six processor flags, plus the break flag that only exists in the
/// packed encoding.
#[derive(Clone, Copy, Debug, PartialEq, Eq, Structural)]
pub struct ProcessorStatus {
    /// Carry (C) flag.
    pub carry: bool,
    /// Zero (Z) flag.
    pub zero: bool,
    /// Interrupt disable (I) flag.
    pub interrupt_disable: bool,
    /// Overflow (V) flag.
    pub overflow: bool,
    /// Break flag, bit 4 of the packed encoding; not used by the processor
    /// core itself.
    pub b_flag: bool,
    /// Negative (N) flag.
    pub negative: bool,
    /// Decimal flag; stored but inert on this hardware.
    pub decimal: bool,
}

/// The packed one-byte encoding of the status register.  Bit order: carry,
/// zero, interrupt disable, decimal, break, reserved (always one), overflow,
/// negative.
pub open spec fn spec_encode_status(s: ProcessorStatus) -> u8 {
    (if s.carry { 1u8 } else { 0u8 }) | (if s.zero { 2u8 } else { 0u8 }) | (if s.interrupt_disable {
        4u8
    } else {
        0u8
    }) | (if s.decimal { 8u8 } else { 0u8 }) | (if s.b_flag { 16u8 } else { 0u8 }) | 32u8 | (if s.overflow {
        64u8
    } else {
        0u8
    }) | (if s.negative { 128u8 } else { 0u8 })
}

/// The status register whose packed encoding is the given byte.  Bit 5 is
/// ignored: it has no backing flag.
pub open spec fn spec_decode_status(b: u8) -> ProcessorStatus {
    ProcessorStatus {
        carry: b & 1 == 1,
        zero: b & 2 == 2,
        interrupt_disable: b & 4 == 4,
        decimal: b & 8 == 8,
        b_flag: b & 16 == 16,
        overflow: b & 64 == 64,
        negative: b & 128 == 128,
    }
}

/// Encoding the decoding of any byte reproduces that byte with bit 5 forced
/// to one; in particular bit 4 carries the decoded break flag through.
pub proof fn lemma_status_encode_decode(b: u8)
    ensures
        spec_encode_status(spec_decode_status(b)) == (b | 32),
{
    assert((if b & 1 == 1 { 1u8 } else { 0u8 }) | (if b & 2 == 2 { 2u8 } else { 0u8 }) | (if b & 4
        == 4 {
        4u8
    } else {
        0u8
    }) | (if b & 8 == 8 { 8u8 } else { 0u8 }) | (if b & 16 == 16 { 16u8 } else { 0u8 }) | 32u8 | (
    if b & 64 == 64 {
        64u8
    } else {
        0u8
    }) | (if b & 128 == 128 { 128u8 } else { 0u8 }) == (b | 32)) by (bit_vector);
}

/// Decoding the encoding of any flag combination reproduces it exactly.
pub proof fn lemma_status_decode_encode(s: ProcessorStatus)
    ensures
        spec_decode_status(spec_encode_status(s)) == s,
{
    let c = s.carry;
    let z = s.zero;
    let i = s.interrupt_disable;
    let d = s.decimal;
    let bf = s.b_flag;
    let v = s.overflow;
    let n = s.negative;
    let e = (if c { 1u8 } else { 0u8 }) | (if z { 2u8 } else { 0u8 }) | (if i { 4u8 } else { 0u8 })
        | (if d { 8u8 } else { 0u8 }) | (if bf { 16u8 } else { 0u8 }) | 32u8 | (if v {
        64u8
    } else {
        0u8
    }) | (if n { 128u8 } else { 0u8 });
    assert((e & 1 == 1) == c && (e & 2 == 2) == z && (e & 4 == 4) == i && (e & 8 == 8) == d && (e
        & 16 == 16) == bf && (e & 64 == 64) == v && (e & 128 == 128) == n) by (bit_vector)
        requires
            e == (if c { 1u8 } else { 0u8 }) | (if z { 2u8 } else { 0u8 }) | (if i {
                4u8
            } else {
                0u8
            }) | (if d { 8u8 } else { 0u8 }) | (if bf { 16u8 } else { 0u8 }) | 32u8 | (if v {
                64u8
            } else {
                0u8
            }) | (if n { 128u8 } else { 0u8 }),
    ;
}

impl ProcessorStatus {
    /// The power-up flag state: interrupt disable set, everything else clear.
    pub fn new() -> (r: ProcessorStatus)
        ensures
            r == (ProcessorStatus {
                carry: false,
                zero: false,
                interrupt_disable: true,
                overflow: false,
                b_flag: false,
                negative: false,
                decimal: false,
            }),
    {
        ProcessorStatus {
            carry: false,
            zero: false,
            b_flag: false,
            interrupt_disable: true,
            overflow: false,
            negative: false,
            decimal: false,
        }
    }

    /// The flags after a load-style update: zero and negative track the given
    /// value, everything else is unchanged.
    pub open spec fn with_load_flags(self, value: u8) -> ProcessorStatus {
        ProcessorStatus {
            zero: value == 0,
            negative: value & 0x80 == 0x80,
            carry: self.carry,
            interrupt_disable: self.interrupt_disable,
            overflow: self.overflow,
            b_flag: self.b_flag,
            decimal: self.decimal,
        }
    }

    /// The flags after a bit-test update: as a load update, and overflow
    /// tracks bit 6 of the value.
    pub open spec fn with_bit_flags(self, value: u8) -> ProcessorStatus {
        ProcessorStatus {
            zero: value == 0,
            negative: value & 0x80 == 0x80,
            overflow: value & 0x40 == 0x40,
            carry: self.carry,
            interrupt_disable: self.interrupt_disable,
            b_flag: self.b_flag,
            decimal: self.decimal,
        }
    }

    /// Set zero and negative from a value just loaded into a register.
    pub fn update_load(&mut self, value: u8)
        ensures
            *final(self) == old(self).with_load_flags(value),
    {
        self.zero = value == 0;
        self.negative = value & 0x80 == 0x80;
    }

    /// Set zero, negative and overflow from the result of a bit test.
    pub fn update_bit(&mut self, value: u8)
        ensures
            *final(self) == old(self).with_bit_flags(value),
    {
        self.update_load(value);
        self.overflow = value & 0x40 == 0x40;
    }

    /// Pack the flags into one byte.  Bit 5 is reserved and always one.
    pub fn encode(&self) -> (r: u8)
        ensures
            r == spec_encode_status(*self),
    {
        (if self.carry { 1u8 } else { 0u8 }) | (if self.zero { 2u8 } else { 0u8 }) | (if self.interrupt_disable {
            4u8
        } else {
            0u8
        }) | (if self.decimal { 8u8 } else { 0u8 }) | (if self.b_flag { 16u8 } else { 0u8 }) | 32u8
            | (if self.overflow { 64u8 } else { 0u8 }) | (if self.negative { 128u8 } else { 0u8 })
    }

    /// Unpack a byte into flags, the exact inverse of `encode` on bits 0–4,
    /// 6 and 7; bit 5 is ignored.
    pub fn decode(b: u8) -> (r: ProcessorStatus)
        ensures
            r == spec_decode_status(b),
    {
        ProcessorStatus {
            carry: b & 1 == 1,
            zero: b & 2 == 2,
            interrupt_disable: b & 4 == 4,
            decimal: b & 8 == 8,
            b_flag: b & 16 == 16,
            overflow: b & 64 == 64,
            negative: b & 128 == 128,
        }
    }
}

/// The descending stack: an 8-bit offset into the fixed stack page.
#[derive(Clone, Copy, Debug, PartialEq, Eq, Structural)]
pub struct Stack {
    /// Offset from the base of the stack page of the next free byte.
    pub stack_pointer: u8,
}

/// The absolute address of a stack cell with the given pointer offset.
pub open spec fn stack_addr(sp: u8) -> int {
    STACK_PAGE_BASE + sp
}

/// The stack pointer after a number of pushes.
pub open spec fn sp_after_pushes(sp: u8, n: nat) -> u8
    decreases n,
{
    if n == 0 {
        sp
    } else {
        u8_specs::wrapping_sub(sp_after_pushes(sp, (n - 1) as nat), 1)
    }
}

/// The stack pointer after `n` pushes is the starting pointer moved down by
/// `n`, modulo the size of the stack page.
pub proof fn lemma_sp_after_pushes(sp: u8, n: nat)
    ensures
        sp_after_pushes(sp, n) == ((sp - n) % 256) as u8,
    decreases n,
{
    if n > 0 {
        lemma_sp_after_pushes(sp, (n - 1) as nat);
    }
}

/// Pushing 257 bytes leaves the stack pointer exactly where a single push
/// leaves it: the pointer wraps modulo 256 and never leaves the stack page.
pub proof fn lemma_stack_wrap(sp: u8)
    ensures
        sp_after_pushes(sp, 257) == sp_after_pushes(sp, 1),
{
    lemma_sp_after_pushes(sp, 257);
    lemma_sp_after_pushes(sp, 1);
}

impl Stack {
    /// The power-up stack pointer.
    pub fn new() -> (r: Stack)
        ensures
            r.stack_pointer == 0xFDu8,
    {
        Stack { stack_pointer: 0xFD }
    }

    /// The stack pointer offset as it appears in a trace line.
    pub fn as_stack_offset(&self) -> (r: u8)
        ensures
            r == self.stack_pointer,
    {
        self.stack_pointer
    }

    /// Push one byte: write at the pointer, then move the pointer down,
    /// wrapping within the stack page.
    pub fn push(&mut self, memory: &mut AddressSpace, value: u8)
        requires
            old(memory).wf(),
        ensures
            final(memory).wf(),
            final(self).stack_pointer == u8_specs::wrapping_sub(old(self).stack_pointer, 1),
            final(memory)@ == old(memory)@.update(stack_addr(old(self).stack_pointer), value),
    {
        let addr: u16 = STACK_PAGE_BASE + self.stack_pointer as u16;
        memory.write(addr, value);
        self.stack_pointer = self.stack_pointer.wrapping_sub(1);
    }

    /// Pop one byte: move the pointer up, wrapping within the stack page,
    /// then read at the pointer.
    pub fn pop(&mut self, memory: &mut AddressSpace) -> (r: u8)
        requires
            old(memory).wf(),
        ensures
            final(memory).wf(),
            final(memory)@ == old(memory)@,
            final(self).stack_pointer == u8_specs::wrapping_add(old(self).stack_pointer, 1),
            r == old(memory)@[stack_addr(u8_specs::wrapping_add(old(self).stack_pointer, 1))],
    {
        self.stack_pointer = self.stack_pointer.wrapping_add(1);
        memory.read(STACK_PAGE_BASE + self.stack_pointer as u16)
    }

    /// Push a 16-bit address: high byte first, so that it sits above the low
    /// byte, then the low byte; the pointer moves down by two, wrapping.
    pub fn push_addr(&mut self, memory: &mut AddressSpace, addr: u16)
        requires
            old(memory).wf(),
        ensures
            final(memory).wf(),
            final(self).stack_pointer == u8_specs::wrapping_sub(old(self).stack_pointer, 2),
            final(memory)@ == old(memory)@.update(
                stack_addr(old(self).stack_pointer),
                crate::opcode::hi_byte(addr),
            ).update(
                stack_addr(u8_specs::wrapping_sub(old(self).stack_pointer, 1)),
                crate::opcode::lo_byte(addr),
            ),
    {
        let (pcl, pch) = crate::opcode::addr_to_bytes(addr);
        self.push(memory, pch);
        self.push(memory, pcl);
    }

    /// Pop a 16-bit address as `(low byte, high byte)`: the low byte comes
    /// off first, then the high byte; the pointer moves up by two, wrapping.
    pub fn pop_addr(&mut self, memory: &mut AddressSpace) -> (r: (u8, u8))
        requires
            old(memory).wf(),
        ensures
            final(memory).wf(),
            final(memory)@ == old(memory)@,
            final(self).stack_pointer == u8_specs::wrapping_add(old(self).stack_pointer, 2),
            r.0 == old(memory)@[stack_addr(u8_specs::wrapping_add(old(self).stack_pointer, 1))],
            r.1 == old(memory)@[stack_addr(u8_specs::wrapping_add(old(self).stack_pointer, 2))],
    {
        let pcl = self.pop(memory);
        let pch = self.pop(memory);
        (pcl, pch)
    }
}

/// The power-up flag state.
pub open spec fn power_up_status() -> ProcessorStatus {
    ProcessorStatus {
        carry: false,
        zero: false,
        interrupt_disable: true,
        overflow: false,
        b_flag: false,
        negative: false,
        decimal: false,
    }
}

/// State of the CPU: the single owner of all mutable simulation state.
pub struct Cpu {
    /// Program counter: address of the next opcode.
    pub program_counter: u16,
    /// The descending one-page stack.
    pub stack: Stack,
    /// Processor status flags.
    pub status: ProcessorStatus,
    /// Accumulator.
    pub a: u8,
    /// Index register X.
    pub x: u8,
    /// Index register Y.
    pub y: u8,
    /// The 64KiB address space, exclusively owned by the CPU.
    pub memory: AddressSpace,
    /// Cycle counter; monotonically increasing, never reset.
    pub cycles: u64,
}

impl Cpu {
    /// The address space spans its full 64KiB.
    pub open spec fn wf(&self) -> bool {
        self.memory.wf()
    }

    /// Power-up state: the program ROM is mapped into the upper 32KiB of the
    /// address space, a 16KiB image mirrored into both halves; the program
    /// counter starts at the fixed test-harness entry point, the stack
    /// pointer at `0xFD`, only the interrupt-disable flag set, and the cycle
    /// counter at 7 to match the reference power-up state.
    pub fn new(nes_file: NesFile) -> (r: Cpu)
        requires
            nes_file.prg_rom@.len() == 16384 || nes_file.prg_rom@.len() == 32768,
        ensures
            r.wf(),
            r.program_counter == 0xC000u16,
            r.stack.stack_pointer == 0xFDu8,
            r.status == power_up_status(),
            r.a == 0u8,
            r.x == 0u8,
            r.y == 0u8,
            r.cycles == 7u64,
            forall|i: int| 0 <= i < 0x8000 ==> r.memory@[i] == 0u8,
            nes_file.prg_rom@.len() == 16384 ==> forall|i: int|
                0 <= i < 16384 ==> r.memory@[0x8000 + i] == nes_file.prg_rom@[i]
                    && r.memory@[0xC000 + i] == nes_file.prg_rom@[i],
            nes_file.prg_rom@.len() == 32768 ==> forall|i: int|
                0 <= i < 32768 ==> r.memory@[0x8000 + i] == nes_file.prg_rom@[i],
    {
        let mut memory = AddressSpace::new();
        let prg_len = nes_file.prg_rom.len();
        let mut i: usize = 0;
        while i < prg_len
            invariant
                memory.wf(),
                prg_len == nes_file.prg_rom@.len(),
                prg_len == 16384 || prg_len == 32768,
                i <= prg_len,
                forall|j: int| 0 <= j < 0x8000 ==> memory@[j] == 0u8,
                forall|j: int| 0 <= j < i ==> memory@[0x8000 + j] == nes_file.prg_rom@[j],
                forall|j: int| 0x8000 + i <= j < 0x10000 ==> memory@[j] == 0u8,
            decreases prg_len - i,
        {
            memory.write((0x8000 + i) as u16, nes_file.prg_rom[i]);
            i = i + 1;
        }
        if prg_len == 16384 {
            let mut k: usize = 0;
            while k < 16384
                invariant
                    memory.wf(),
                    nes_file.prg_rom@.len() == 16384,
                    k <= 16384,
                    forall|j: int| 0 <= j < 0x8000 ==> memory@[j] == 0u8,
                    forall|j: int| 0 <= j < 16384 ==> memory@[0x8000 + j] == nes_file.prg_rom@[j],
                    forall|j: int| 0 <= j < k ==> memory@[0xC000 + j] == nes_file.prg_rom@[j],
                decreases 16384 - k,
            {
                memory.write((0xC000 + k) as u16, nes_file.prg_rom[k]);
                k = k + 1;
            }
        }
        Cpu {
            program_counter: 0xC000,
            stack: Stack::new(),
            status: ProcessorStatus::new(),
            a: 0,
            x: 0,
            y: 0,
            memory,
            cycles: 7,
        }
    }
}

/// One trace line: the program counter as four hex digits, two spaces, the
/// instruction dump, then the register and flag state and the cycle counter.
/// Every field is fixed-width; this text is the core's primary correctness
/// contract against a golden trace log.
pub open spec fn trace_line_chars(c: Cpu, op: crate::opcode::Operation) -> Seq<char> {
    crate::text::hex4_chars(c.program_counter) + seq![' ', ' '] + op.dump_chars(c) + seq![
        ' ',
        ' ',
        'A',
        ':',
    ] + crate::text::hex2_chars(c.a) + seq![' ', 'X', ':'] + crate::text::hex2_chars(c.x) + seq![
        ' ',
        'Y',
        ':',
    ] + crate::text::hex2_chars(c.y) + seq![' ', 'P', ':'] + crate::text::hex2_chars(
        spec_encode_status(c.status),
    ) + seq![' ', 'S', 'P', ':'] + crate::text::hex2_chars(c.stack.stack_pointer) + seq![
        ' ',
        'C',
        'Y',
        'C',
        ':',
    ] + crate::text::dec_chars(c.cycles)
}

impl Cpu {
    /// Render the trace line for a decoded operation against the current
    /// state, before that operation executes.
    #[verifier::rlimit(50)]
    pub fn trace_line(&self, op: &crate::opcode::Operation) -> (r: String)
        requires
            self.wf(),
            op.wf(),
        ensures
            r@ == trace_line_chars(*self, *op),
    {
        let mut line = crate::text::hex4(self.program_counter);
        line.append("  ");
        let dumped = op.dump(self);
        line.append(dumped.as_str());
        line.append("  A:");
        let ha = crate::text::hex2(self.a);
        line.append(ha.as_str());
        line.append(" X:");
        let hx = crate::text::hex2(self.x);
        line.append(hx.as_str());
        line.append(" Y:");
        let hy = crate::text::hex2(self.y);
        line.append(hy.as_str());
        line.append(" P:");
        let hp = crate::text::hex2(self.status.encode());
        line.append(hp.as_str());
        line.append(" SP:");
        let hs = crate::text::hex2(self.stack.as_stack_offset());
        line.append(hs.as_str());
        line.append(" CYC:");
        let hc = crate::text::dec_u64(self.cycles);
        line.append(hc.as_str());
        proof {
            reveal_strlit("  ");
            reveal_strlit("  A:");
            reveal_strlit(" X:");
            reveal_strlit(" Y:");
            reveal_strlit(" P:");
            reveal_strlit(" SP:");
            reveal_strlit(" CYC:");
            assert(line@ =~= trace_line_chars(*self, *op));
        }
        line
    }

    /// One fetch–decode–execute step: decode the instruction at the program
    /// counter, render its trace line against the pre-execution state,
    /// execute it, and hand the trace line back.  A decode failure leaves
    /// the processor state entirely unchanged.
    pub fn step(&mut self) -> (r: Result<String, EmuError>)
        requires
            old(self).wf(),
            old(self).cycles + 6 <= u64::MAX,
        ensures
            final(self).wf(),
            (match crate::opcode::decode_spec(*old(self)) {
                Result::Err(e) => r == Err::<String, EmuError>(e) && *final(self) == *old(self),
                Result::Ok(op) => {
                    &&& r is Ok
                    &&& (r matches Ok(line) && line@ == trace_line_chars(*old(self), op))
                    &&& op.applies(*old(self), *final(self))
                },
            }),
    {
        let op = match crate::opcode::next(self) {
            Ok(op) => op,
            Err(e) => {
                return Err(e);
            },
        };
        let line = self.trace_line(&op);
        op.execute(self);
        Ok(line)
    }
}

/// A 16KiB program ROM appears byte-identical in both halves of the ROM
/// window: every byte of the lower half equals the byte one bank above it.
pub proof fn lemma_rom_mirroring(mem: Seq<u8>, prg: Seq<u8>)
    requires
        prg.len() == 16384,
        forall|i: int|
            0 <= i < 16384 ==> mem[0x8000 + i] == prg[i] && mem[0xC000 + i] == prg[i],
    ensures
        forall|i: int| 0x8000 <= i < 0xC000 ==> #[trigger] mem[i] == mem[i + 0x4000],
{
    assert forall|i: int| 0x8000 <= i < 0xC000 implies #[trigger] mem[i] == mem[i + 0x4000] by {
        let j = i - 0x8000;
        assert(mem[0x8000 + j] == prg[j]);
        assert(mem[0xC000 + j] == prg[j]);
    }
}

} // verus!
