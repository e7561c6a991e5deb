//! Instruction decode and the shared address arithmetic of the decoder.
//!
//! A 16-bit address is stored little-endian in memory: the low byte comes
//! first, the high byte second.

pub mod addressing_mode;
pub mod branch;
pub mod flag;
pub mod jump;
pub mod load;
pub mod push_pull;
pub mod store;

use vstd::prelude::*;
use vstd::string::StringExecFns;
use vstd::wrapping::u16_specs;
use crate::cpu::Cpu;
use crate::opcode::addressing_mode::AddRegister;
use crate::opcode::addressing_mode::AddressMode;
use crate::text::hex2_chars;

verus! {

/// Each page of the address space is 256 bytes.
pub const PAGE_SIZE: u16 = 0x100;

/// The low byte of a 16-bit address.
pub open spec fn lo_byte(addr: u16) -> u8 {
    (addr % 256) as u8
}

/// The high byte of a 16-bit address.
pub open spec fn hi_byte(addr: u16) -> u8 {
    (addr / 256) as u8
}

/// The 16-bit address with the given low and high bytes.
pub open spec fn word(lo: u8, hi: u8) -> u16 {
    (hi * 256 + lo) as u16
}

/// Splitting an address into bytes and merging them back is the identity.
pub proof fn lemma_word_bytes(addr: u16)
    ensures
        word(lo_byte(addr), hi_byte(addr)) == addr,
{
    assert(256 * (addr / 256) + addr % 256 == addr) by (nonlinear_arith);
}

/// Merge two bytes read from memory into a 16-bit address, low byte first
/// (little-endian order).
pub fn bytes_to_addr(first: u8, second: u8) -> (r: u16)
    ensures
        r == word(first, second),
{
    (second as u16) * 256 + (first as u16)
}

/// Split an address into its little-endian bytes: low byte first.
pub fn addr_to_bytes(addr: u16) -> (r: (u8, u8))
    ensures
        r.0 == lo_byte(addr),
        r.1 == hi_byte(addr),
{
    ((addr % 256) as u8, (addr / 256) as u8)
}

/// Whether the two addresses fall in different 256-byte pages.
pub fn is_on_different_pages(src: u16, dest: u16) -> (r: bool)
    ensures
        r == (src / 256 != dest / 256),
{
    src / PAGE_SIZE != dest / PAGE_SIZE
}

/// The first operand byte of the instruction at the program counter.
pub open spec fn operand1(cpu: crate::cpu::Cpu) -> u8 {
    cpu.memory@[vstd::wrapping::u16_specs::wrapping_add(cpu.program_counter, 1) as int]
}

/// The second operand byte of the instruction at the program counter.
pub open spec fn operand2(cpu: crate::cpu::Cpu) -> u8 {
    cpu.memory@[vstd::wrapping::u16_specs::wrapping_add(cpu.program_counter, 2) as int]
}

/// Read the first operand byte of the instruction at the program counter.
pub fn fetch_operand1(cpu: &crate::cpu::Cpu) -> (r: u8)
    requires
        cpu.wf(),
    ensures
        r == operand1(*cpu),
{
    cpu.memory.read(cpu.program_counter.wrapping_add(1))
}

/// Read the second operand byte of the instruction at the program counter.
pub fn fetch_operand2(cpu: &crate::cpu::Cpu) -> (r: u8)
    requires
        cpu.wf(),
    ensures
        r == operand2(*cpu),
{
    cpu.memory.read(cpu.program_counter.wrapping_add(2))
}

/// A general-purpose register an instruction loads or stores.
#[derive(Clone, Copy, Debug, PartialEq, Eq, Structural)]
pub enum Register {
    /// The accumulator.
    A,
    /// Index register X.
    X,
    /// Index register Y.
    Y,
}

/// The letter naming a register in a mnemonic.
pub open spec fn register_letter(r: Register) -> char {
    match r {
        Register::A => 'A',
        Register::X => 'X',
        Register::Y => 'Y',
    }
}

impl Register {
    /// The letter naming this register in a mnemonic.
    pub fn to_string(&self) -> (r: String)
        ensures
            r@ == seq![register_letter(*self)],
    {
        proof {
            reveal_strlit("A");
            reveal_strlit("X");
            reveal_strlit("Y");
            assert("A"@ =~= seq!['A']);
            assert("X"@ =~= seq!['X']);
            assert("Y"@ =~= seq!['Y']);
        }
        let s = match self {
            Register::A => "A",
            Register::X => "X",
            Register::Y => "Y",
        };
        s.to_owned()
    }
}

/// How one executed no-op relates the next processor state to the current
/// one: only the program counter and the cycle counter move.
pub open spec fn nop_applies(pre: Cpu, post: Cpu) -> bool {
    &&& post.program_counter == u16_specs::wrapping_add(pre.program_counter, 1)
    &&& post.cycles == pre.cycles + 2
    &&& post.a == pre.a
    &&& post.x == pre.x
    &&& post.y == pre.y
    &&& post.status == pre.status
    &&& post.stack == pre.stack
    &&& post.memory@ == pre.memory@
}

/// The dump line of a no-op.
pub open spec fn nop_dump_chars() -> Seq<char> {
    hex2_chars(0xEAu8) + seq![' ', ' ', ' ', ' ', ' ', ' ', ' ', ' '] + seq!['N', 'O', 'P'] + seq![
        ' ',
        ' ',
        ' ',
        ' ',
        ' ',
    ]
}

/// The no-operation instruction.
#[derive(Clone, Copy, Debug, PartialEq, Eq, Structural)]
pub struct Nop {}

impl Nop {
    /// The opcode byte of this instruction.
    pub const OPCODE: u8 = 0xEA;

    /// Instruction length in bytes.
    pub const BYTES: u16 = 1;

    /// Cycle cost.
    pub const CYCLES: u64 = 2;

    /// Recognize a no-op from its opcode byte.
    pub fn new(opcode: u8) -> (r: Option<Nop>)
        ensures
            r is Some <==> opcode == 0xEAu8,
    {
        if opcode != Nop::OPCODE {
            None
        } else {
            Some(Nop {  })
        }
    }

    /// Advance past the instruction; no other state changes.
    pub fn execute(&self, cpu: &mut Cpu)
        requires
            old(cpu).wf(),
            old(cpu).cycles + 2 <= u64::MAX,
        ensures
            final(cpu).wf(),
            nop_applies(*old(cpu), *final(cpu)),
    {
        cpu.program_counter = cpu.program_counter.wrapping_add(Self::BYTES);
        cpu.cycles = cpu.cycles + Self::CYCLES;
    }

    /// The dump line of this instruction.
    pub fn dump(&self, _cpu: &Cpu) -> (r: String)
        ensures
            r@ == nop_dump_chars(),
    {
        let mut s = crate::text::hex2(Self::OPCODE);
        s.append("        ");
        s.append("NOP");
        s.append("     ");
        proof {
            reveal_strlit("        ");
            reveal_strlit("NOP");
            reveal_strlit("     ");
            assert(s@ =~= nop_dump_chars());
        }
        s
    }
}

/// The addressing mode a bit-test opcode uses.
pub open spec fn bit_mode_for(opcode: u8, op1: u8, op2: u8) -> AddressMode {
    if opcode == 0x24u8 {
        AddressMode::ZeroPage { register: AddRegister::NoIndex, offset: op1 }
    } else {
        AddressMode::Absolute { register: AddRegister::NoIndex, address: word(op1, op2) }
    }
}

/// How many bytes a bit test occupies, opcode included.
pub open spec fn bit_bytes(mode: AddressMode) -> u16 {
    if mode is ZeroPage {
        2u16
    } else {
        3u16
    }
}

/// The cycle cost of a bit test.
pub open spec fn bit_cycles(mode: AddressMode) -> u64 {
    if mode is ZeroPage {
        3u64
    } else {
        4u64
    }
}

/// How one executed bit test relates the next processor state to the current
/// one: the flags take the result of masking the memory value with the
/// accumulator; the accumulator itself is unchanged.
pub open spec fn bit_applies(pre: Cpu, post: Cpu, b: Bit) -> bool {
    let value = b.mode.spec_value(pre);
    let result = value & pre.a;
    &&& post.program_counter == u16_specs::wrapping_add(pre.program_counter, bit_bytes(b.mode))
    &&& post.cycles == pre.cycles + bit_cycles(b.mode)
    &&& post.status == pre.status.with_bit_flags(result)
    &&& post.a == pre.a
    &&& post.x == pre.x
    &&& post.y == pre.y
    &&& post.stack == pre.stack
    &&& post.memory@ == pre.memory@
}

/// The dump line of a bit test.
pub open spec fn bit_dump_chars(b: Bit, cpu: Cpu) -> Seq<char> {
    hex2_chars(b.opcode) + seq![' '] + b.mode.operand_chars() + seq![' ', ' ', ' ', ' ', ' ']
        + seq!['B', 'I', 'T', ' '] + b.mode.disasm_chars(cpu) + seq![' ', ' ', ' ']
}

/// Bit test: mask the memory value with the accumulator and set flags from
/// the result, leaving the accumulator itself untouched.
#[derive(Clone, Copy, Debug, PartialEq, Eq, Structural)]
pub struct Bit {
    /// The opcode byte, kept for the dump line.
    pub opcode: u8,
    /// The resolved addressing mode: zero page or absolute.
    pub mode: AddressMode,
}

impl Bit {
    /// Recognize a bit test and resolve its addressing mode.
    pub fn new(opcode: u8, cpu: &Cpu) -> (r: Option<Bit>)
        requires
            cpu.wf(),
        ensures
            r is Some <==> (opcode == 0x24u8 || opcode == 0x2Cu8),
            r is Some ==> r == Some(
                Bit { opcode, mode: bit_mode_for(opcode, operand1(*cpu), operand2(*cpu)) },
            ),
    {
        if opcode == 0x24 {
            let offset = fetch_operand1(cpu);
            Some(Bit { opcode, mode: AddressMode::ZeroPage { register: AddRegister::NoIndex, offset } })
        } else if opcode == 0x2C {
            let address = bytes_to_addr(fetch_operand1(cpu), fetch_operand2(cpu));
            Some(
                Bit {
                    opcode,
                    mode: AddressMode::Absolute { register: AddRegister::NoIndex, address },
                },
            )
        } else {
            None
        }
    }

    /// How many bytes this instruction occupies, opcode included.
    pub fn get_bytes(&self) -> (r: u16)
        ensures
            r == bit_bytes(self.mode),
    {
        match &self.mode {
            AddressMode::ZeroPage { .. } => 2,
            _ => 3,
        }
    }

    /// The cycle cost of this bit test.
    pub fn get_cycles(&self) -> (r: u64)
        ensures
            r == bit_cycles(self.mode),
    {
        match &self.mode {
            AddressMode::ZeroPage { .. } => 3,
            _ => 4,
        }
    }

    /// Mask the memory value with the accumulator and set the zero, negative
    /// and overflow flags from the result.
    pub fn execute(&self, cpu: &mut Cpu)
        requires
            old(cpu).wf(),
            self.mode is ZeroPage || self.mode is Absolute,
            old(cpu).cycles + 4 <= u64::MAX,
        ensures
            final(cpu).wf(),
            bit_applies(*old(cpu), *final(cpu), *self),
    {
        let value = self.mode.to_value(cpu);
        let bytes = self.get_bytes();
        let cycles = self.get_cycles();
        cpu.program_counter = cpu.program_counter.wrapping_add(bytes);
        cpu.cycles = cpu.cycles + cycles;
        let result = value & cpu.a;
        cpu.status.update_bit(result);
    }

    /// The dump line of this instruction.
    #[verifier::rlimit(50)]
    pub fn dump(&self, cpu: &Cpu) -> (r: String)
        requires
            cpu.wf(),
            !self.mode.is_indirect(),
        ensures
            r@ == bit_dump_chars(*self, *cpu),
    {
        let mut s = crate::text::hex2(self.opcode);
        s.append(" ");
        let operand = self.mode.value_to_string();
        s.append(operand.as_str());
        s.append("     ");
        s.append("BIT ");
        let disasm = self.mode.to_string(cpu);
        s.append(disasm.as_str());
        s.append("   ");
        proof {
            reveal_strlit(" ");
            reveal_strlit("     ");
            reveal_strlit("BIT ");
            reveal_strlit("   ");
            assert(s@ =~= bit_dump_chars(*self, *cpu));
        }
        s
    }
}

/// Whether an opcode byte encodes a conditional branch.
pub open spec fn is_branch_opcode(opcode: u8) -> bool {
    opcode == 0xB0u8 || opcode == 0x90u8 || opcode == 0x70u8 || opcode == 0x50u8 || opcode
        == 0xF0u8 || opcode == 0xD0u8 || opcode == 0x10u8 || opcode == 0x30u8
}

/// Whether an opcode byte encodes a jump, a call or a return.
pub open spec fn is_jump_opcode(opcode: u8) -> bool {
    opcode == 0x4Cu8 || opcode == 0x6Cu8 || opcode == 0x20u8 || opcode == 0x60u8
}

/// Whether an opcode byte encodes a bit test.
pub open spec fn is_bit_opcode(opcode: u8) -> bool {
    opcode == 0x24u8 || opcode == 0x2Cu8
}

/// Whether an opcode byte encodes a stack push or pull.
pub open spec fn is_push_pull_opcode(opcode: u8) -> bool {
    opcode == 0x48u8 || opcode == 0x08u8 || opcode == 0x68u8 || opcode == 0x28u8
}

/// How many instruction families claim an opcode byte.
pub open spec fn families_claiming(opcode: u8) -> int {
    (if is_branch_opcode(opcode) {
        1int
    } else {
        0int
    }) + (if crate::opcode::flag::flag_for_opcode(opcode) is Some {
        1int
    } else {
        0int
    }) + (if crate::opcode::load::load_register_for(opcode) is Some {
        1int
    } else {
        0int
    }) + (if crate::opcode::store::store_register_for(opcode) is Some {
        1int
    } else {
        0int
    }) + (if is_jump_opcode(opcode) {
        1int
    } else {
        0int
    }) + (if opcode == 0xEAu8 {
        1int
    } else {
        0int
    }) + (if is_bit_opcode(opcode) {
        1int
    } else {
        0int
    }) + (if is_push_pull_opcode(opcode) {
        1int
    } else {
        0int
    })
}

/// The dispatch table is collision-free: every opcode byte is claimed by at
/// most one instruction family, so the match order in decode cannot matter.
pub proof fn lemma_dispatch_collision_free(opcode: u8)
    ensures
        families_claiming(opcode) <= 1,
{
}

/// The dispatch table is exhaustive: decode reports an unknown opcode
/// exactly for the bytes no family claims, echoing the offending byte and
/// the program counter it stood at.
pub proof fn lemma_decode_exhaustive(cpu: Cpu)
    ensures
        decode_spec(cpu) == Err::<Operation, crate::error::EmuError>(
            crate::error::EmuError::UnsupportedOpcode {
                opcode: cpu.memory@[cpu.program_counter as int],
                pc: cpu.program_counter,
            },
        ) <==> families_claiming(cpu.memory@[cpu.program_counter as int]) == 0,
{
}

/// One decoded instruction: an immutable value carrying its resolved
/// operands, built by `next` and consumed by `execute`.
#[derive(Clone, Copy, Debug, PartialEq, Eq, Structural)]
pub enum Operation {
    /// Branch if carry set.
    Bcs(crate::opcode::branch::Bcs),
    /// Branch if carry clear.
    Bcc(crate::opcode::branch::Bcc),
    /// Branch if overflow set.
    Bvs(crate::opcode::branch::Bvs),
    /// Branch if overflow clear.
    Bvc(crate::opcode::branch::Bvc),
    /// Branch if zero set.
    Beq(crate::opcode::branch::Beq),
    /// Branch if zero clear.
    Bne(crate::opcode::branch::Bne),
    /// Branch if negative clear.
    Bpl(crate::opcode::branch::Bpl),
    /// Branch if negative set.
    Bmi(crate::opcode::branch::Bmi),
    /// Flag set/clear.
    Flag(crate::opcode::flag::Flag),
    /// Register load.
    Load(crate::opcode::load::Load),
    /// Register store.
    Store(crate::opcode::store::Store),
    /// Absolute jump.
    Jmp(crate::opcode::jump::Jmp),
    /// Subroutine call.
    Jsr(crate::opcode::jump::Jsr),
    /// Subroutine return.
    Rts(crate::opcode::jump::Rts),
    /// No operation.
    Nop(Nop),
    /// Bit test.
    Bit(Bit),
    /// Stack push.
    Push(crate::opcode::push_pull::Push),
    /// Stack pull.
    Pull(crate::opcode::push_pull::Pull),
}

/// The instruction decoded from memory at the program counter — the single
/// authoritative opcode table of this core.  An opcode byte no family claims
/// is an `UnsupportedOpcode` failure; a recognized instruction asking for an
/// indirect addressing mode is an `UnsupportedAddressingMode` failure.
pub open spec fn decode_spec(cpu: Cpu) -> Result<Operation, crate::error::EmuError> {
    let opcode = cpu.memory@[cpu.program_counter as int];
    let op1 = operand1(cpu);
    let op2 = operand2(cpu);
    if opcode == 0xB0u8 {
        Ok(Operation::Bcs(crate::opcode::branch::Bcs { relative_value: op1 }))
    } else if opcode == 0x90u8 {
        Ok(Operation::Bcc(crate::opcode::branch::Bcc { relative_value: op1 }))
    } else if opcode == 0x70u8 {
        Ok(Operation::Bvs(crate::opcode::branch::Bvs { relative_value: op1 }))
    } else if opcode == 0x50u8 {
        Ok(Operation::Bvc(crate::opcode::branch::Bvc { relative_value: op1 }))
    } else if opcode == 0xF0u8 {
        Ok(Operation::Beq(crate::opcode::branch::Beq { relative_value: op1 }))
    } else if opcode == 0xD0u8 {
        Ok(Operation::Bne(crate::opcode::branch::Bne { relative_value: op1 }))
    } else if opcode == 0x10u8 {
        Ok(Operation::Bpl(crate::opcode::branch::Bpl { relative_value: op1 }))
    } else if opcode == 0x30u8 {
        Ok(Operation::Bmi(crate::opcode::branch::Bmi { relative_value: op1 }))
    } else if crate::opcode::flag::flag_for_opcode(opcode) is Some {
        Ok(Operation::Flag(crate::opcode::flag::flag_for_opcode(opcode).unwrap()))
    } else if crate::opcode::load::load_register_for(opcode) is Some {
        let mode = crate::opcode::load::load_mode_for(opcode, op1, op2);
        if mode.spec_is_indirect() {
            Err(crate::error::EmuError::UnsupportedAddressingMode)
        } else {
            Ok(
                Operation::Load(
                    crate::opcode::load::Load {
                        mode,
                        register: crate::opcode::load::load_register_for(opcode).unwrap(),
                        opcode,
                    },
                ),
            )
        }
    } else if crate::opcode::store::store_register_for(opcode) is Some {
        let mode = crate::opcode::store::store_mode_for(opcode, op1, op2);
        if mode.spec_is_indirect() {
            Err(crate::error::EmuError::UnsupportedAddressingMode)
        } else {
            Ok(
                Operation::Store(
                    crate::opcode::store::Store {
                        mode,
                        register: crate::opcode::store::store_register_for(opcode).unwrap(),
                        opcode,
                    },
                ),
            )
        }
    } else if opcode == 0x4Cu8 {
        Ok(
            Operation::Jmp(
                crate::opcode::jump::Jmp {
                    opcode,
                    mode: AddressMode::Absolute {
                        register: AddRegister::NoIndex,
                        address: word(op1, op2),
                    },
                },
            ),
        )
    } else if opcode == 0x6Cu8 {
        Err(crate::error::EmuError::UnsupportedAddressingMode)
    } else if opcode == 0x20u8 {
        Ok(
            Operation::Jsr(
                crate::opcode::jump::Jsr {
                    mode: AddressMode::Absolute {
                        register: AddRegister::NoIndex,
                        address: word(op1, op2),
                    },
                },
            ),
        )
    } else if opcode == 0x60u8 {
        Ok(Operation::Rts(crate::opcode::jump::Rts {  }))
    } else if opcode == 0xEAu8 {
        Ok(Operation::Nop(Nop {  }))
    } else if opcode == 0x24u8 || opcode == 0x2Cu8 {
        Ok(Operation::Bit(Bit { opcode, mode: bit_mode_for(opcode, op1, op2) }))
    } else if opcode == 0x48u8 {
        Ok(
            Operation::Push(
                crate::opcode::push_pull::Push {
                    opcode,
                    data: crate::opcode::push_pull::Data::Accumulator,
                },
            ),
        )
    } else if opcode == 0x08u8 {
        Ok(
            Operation::Push(
                crate::opcode::push_pull::Push {
                    opcode,
                    data: crate::opcode::push_pull::Data::ProcessorStatus,
                },
            ),
        )
    } else if opcode == 0x68u8 {
        Ok(
            Operation::Pull(
                crate::opcode::push_pull::Pull {
                    opcode,
                    data: crate::opcode::push_pull::Data::Accumulator,
                },
            ),
        )
    } else if opcode == 0x28u8 {
        Ok(
            Operation::Pull(
                crate::opcode::push_pull::Pull {
                    opcode,
                    data: crate::opcode::push_pull::Data::ProcessorStatus,
                },
            ),
        )
    } else {
        Err(
            crate::error::EmuError::UnsupportedOpcode {
                opcode,
                pc: cpu.program_counter,
            },
        )
    }
}

impl Operation {
    /// Decode hands out only operations whose addressing mode this core
    /// implements.
    pub open spec fn wf(self) -> bool {
        match self {
            Operation::Load(l) => !l.mode.spec_is_indirect(),
            Operation::Store(s) => s.mode is ZeroPage || s.mode is Absolute,
            Operation::Jmp(j) => j.mode is Absolute,
            Operation::Jsr(j) => j.mode is Absolute,
            Operation::Bit(b) => b.mode is ZeroPage || b.mode is Absolute,
            _ => true,
        }
    }

    /// How one executed operation relates the next processor state to the
    /// current one.
    pub open spec fn applies(self, pre: Cpu, post: Cpu) -> bool {
        match self {
            Operation::Bcs(b) => crate::opcode::branch::branch_applies(
                pre,
                post,
                b.relative_value,
                pre.status.carry,
            ),
            Operation::Bcc(b) => crate::opcode::branch::branch_applies(
                pre,
                post,
                b.relative_value,
                !pre.status.carry,
            ),
            Operation::Bvs(b) => crate::opcode::branch::branch_applies(
                pre,
                post,
                b.relative_value,
                pre.status.overflow,
            ),
            Operation::Bvc(b) => crate::opcode::branch::branch_applies(
                pre,
                post,
                b.relative_value,
                !pre.status.overflow,
            ),
            Operation::Beq(b) => crate::opcode::branch::branch_applies(
                pre,
                post,
                b.relative_value,
                pre.status.zero,
            ),
            Operation::Bne(b) => crate::opcode::branch::branch_applies(
                pre,
                post,
                b.relative_value,
                !pre.status.zero,
            ),
            Operation::Bpl(b) => crate::opcode::branch::branch_applies(
                pre,
                post,
                b.relative_value,
                !pre.status.negative,
            ),
            Operation::Bmi(b) => crate::opcode::branch::branch_applies(
                pre,
                post,
                b.relative_value,
                pre.status.negative,
            ),
            Operation::Flag(f) => crate::opcode::flag::flag_applies(pre, post, f),
            Operation::Load(l) => crate::opcode::load::load_applies(pre, post, l),
            Operation::Store(s) => crate::opcode::store::store_applies(pre, post, s),
            Operation::Jmp(j) => crate::opcode::jump::jmp_applies(pre, post, j.mode),
            Operation::Jsr(j) => crate::opcode::jump::jsr_applies(pre, post, j.mode),
            Operation::Rts(_) => crate::opcode::jump::rts_applies(pre, post),
            Operation::Nop(_) => nop_applies(pre, post),
            Operation::Bit(b) => bit_applies(pre, post, b),
            Operation::Push(p) => crate::opcode::push_pull::push_applies(pre, post, p.data),
            Operation::Pull(p) => crate::opcode::push_pull::pull_applies(pre, post, p.data),
        }
    }

    /// The dump line of this operation.
    pub open spec fn dump_chars(self, cpu: Cpu) -> Seq<char> {
        match self {
            Operation::Bcs(b) => crate::opcode::branch::branch_dump_chars(
                0xB0u8,
                seq!['B', 'C', 'S'],
                b.relative_value,
                cpu.program_counter,
            ),
            Operation::Bcc(b) => crate::opcode::branch::branch_dump_chars(
                0x90u8,
                seq!['B', 'C', 'C'],
                b.relative_value,
                cpu.program_counter,
            ),
            Operation::Bvs(b) => crate::opcode::branch::branch_dump_chars(
                0x70u8,
                seq!['B', 'V', 'S'],
                b.relative_value,
                cpu.program_counter,
            ),
            Operation::Bvc(b) => crate::opcode::branch::branch_dump_chars(
                0x50u8,
                seq!['B', 'V', 'C'],
                b.relative_value,
                cpu.program_counter,
            ),
            Operation::Beq(b) => crate::opcode::branch::branch_dump_chars(
                0xF0u8,
                seq!['B', 'E', 'Q'],
                b.relative_value,
                cpu.program_counter,
            ),
            Operation::Bne(b) => crate::opcode::branch::branch_dump_chars(
                0xD0u8,
                seq!['B', 'N', 'E'],
                b.relative_value,
                cpu.program_counter,
            ),
            Operation::Bpl(b) => crate::opcode::branch::branch_dump_chars(
                0x10u8,
                seq!['B', 'P', 'L'],
                b.relative_value,
                cpu.program_counter,
            ),
            Operation::Bmi(b) => crate::opcode::branch::branch_dump_chars(
                0x30u8,
                seq!['B', 'M', 'I'],
                b.relative_value,
                cpu.program_counter,
            ),
            Operation::Flag(f) => crate::opcode::flag::flag_dump_chars(f),
            Operation::Load(l) => crate::opcode::load::load_dump_chars(l, cpu),
            Operation::Store(s) => crate::opcode::store::store_dump_chars(s, cpu),
            Operation::Jmp(j) => crate::opcode::jump::jmp_dump_chars(j, cpu),
            Operation::Jsr(j) => crate::opcode::jump::jsr_dump_chars(j, cpu),
            Operation::Rts(_) => crate::opcode::jump::rts_dump_chars(),
            Operation::Nop(_) => nop_dump_chars(),
            Operation::Bit(b) => bit_dump_chars(b, cpu),
            Operation::Push(p) => crate::opcode::push_pull::push_dump_chars(p),
            Operation::Pull(p) => crate::opcode::push_pull::pull_dump_chars(p),
        }
    }

    /// Execute this operation, mutating the processor state exactly as
    /// `applies` describes.
    pub fn execute(&self, cpu: &mut Cpu)
        requires
            old(cpu).wf(),
            self.wf(),
            old(cpu).cycles + 6 <= u64::MAX,
        ensures
            final(cpu).wf(),
            self.applies(*old(cpu), *final(cpu)),
    {
        match self {
            Operation::Bcs(b) => b.execute(cpu),
            Operation::Bcc(b) => b.execute(cpu),
            Operation::Bvs(b) => b.execute(cpu),
            Operation::Bvc(b) => b.execute(cpu),
            Operation::Beq(b) => b.execute(cpu),
            Operation::Bne(b) => b.execute(cpu),
            Operation::Bpl(b) => b.execute(cpu),
            Operation::Bmi(b) => b.execute(cpu),
            Operation::Flag(f) => f.execute(cpu),
            Operation::Load(l) => l.execute(cpu),
            Operation::Store(s) => s.execute(cpu),
            Operation::Jmp(j) => j.execute(cpu),
            Operation::Jsr(j) => j.execute(cpu),
            Operation::Rts(r) => r.execute(cpu),
            Operation::Nop(n) => n.execute(cpu),
            Operation::Bit(b) => b.execute(cpu),
            Operation::Push(p) => p.execute(cpu),
            Operation::Pull(p) => p.execute(cpu),
        }
    }

    /// Render the dump line of this operation: opcode bytes, mnemonic and
    /// operand, exactly as the golden trace expects them.
    pub fn dump(&self, cpu: &Cpu) -> (r: String)
        requires
            cpu.wf(),
            self.wf(),
        ensures
            r@ == self.dump_chars(*cpu),
    {
        match self {
            Operation::Bcs(b) => b.dump(cpu),
            Operation::Bcc(b) => b.dump(cpu),
            Operation::Bvs(b) => b.dump(cpu),
            Operation::Bvc(b) => b.dump(cpu),
            Operation::Beq(b) => b.dump(cpu),
            Operation::Bne(b) => b.dump(cpu),
            Operation::Bpl(b) => b.dump(cpu),
            Operation::Bmi(b) => b.dump(cpu),
            Operation::Flag(f) => f.dump(cpu),
            Operation::Load(l) => l.dump(cpu),
            Operation::Store(s) => s.dump(cpu),
            Operation::Jmp(j) => j.dump(cpu),
            Operation::Jsr(j) => j.dump(cpu),
            Operation::Rts(r) => r.dump(cpu),
            Operation::Nop(n) => n.dump(cpu),
            Operation::Bit(b) => b.dump(cpu),
            Operation::Push(p) => p.dump(cpu),
            Operation::Pull(p) => p.dump(cpu),
        }
    }
}

/// Decode the instruction at the program counter without mutating any state:
/// the executable face of the authoritative opcode table.
pub fn next(cpu: &Cpu) -> (r: Result<Operation, crate::error::EmuError>)
    requires
        cpu.wf(),
    ensures
        r == decode_spec(*cpu),
        r is Ok ==> r.unwrap().wf(),
{
    let opcode = cpu.memory.read(cpu.program_counter);
    match opcode {
        0xB0 => {
            return Ok(Operation::Bcs(crate::opcode::branch::Bcs::new(cpu)));
        },
        0x90 => {
            return Ok(Operation::Bcc(crate::opcode::branch::Bcc::new(cpu)));
        },
        0x70 => {
            return Ok(Operation::Bvs(crate::opcode::branch::Bvs::new(cpu)));
        },
        0x50 => {
            return Ok(Operation::Bvc(crate::opcode::branch::Bvc::new(cpu)));
        },
        0xF0 => {
            return Ok(Operation::Beq(crate::opcode::branch::Beq::new(cpu)));
        },
        0xD0 => {
            return Ok(Operation::Bne(crate::opcode::branch::Bne::new(cpu)));
        },
        0x10 => {
            return Ok(Operation::Bpl(crate::opcode::branch::Bpl::new(cpu)));
        },
        0x30 => {
            return Ok(Operation::Bmi(crate::opcode::branch::Bmi::new(cpu)));
        },
        _ => {
        },
    }
    if let Some(f) = crate::opcode::flag::Flag::new(opcode) {
        return Ok(Operation::Flag(f));
    }
    if let Some(l) = crate::opcode::load::Load::new(opcode, cpu) {
        if l.mode.is_indirect() {
            return Err(crate::error::EmuError::UnsupportedAddressingMode);
        }
        return Ok(Operation::Load(l));
    }
    if let Some(s) = crate::opcode::store::Store::new(opcode, cpu) {
        if s.mode.is_indirect() {
            return Err(crate::error::EmuError::UnsupportedAddressingMode);
        }
        return Ok(Operation::Store(s));
    }
    if let Some(j) = crate::opcode::jump::Jmp::new(opcode, cpu) {
        if j.mode.is_indirect() {
            return Err(crate::error::EmuError::UnsupportedAddressingMode);
        }
        return Ok(Operation::Jmp(j));
    }
    if let Some(j) = crate::opcode::jump::Jsr::new(opcode, cpu) {
        return Ok(Operation::Jsr(j));
    }
    if let Some(r) = crate::opcode::jump::Rts::new(opcode) {
        return Ok(Operation::Rts(r));
    }
    if let Some(n) = Nop::new(opcode) {
        return Ok(Operation::Nop(n));
    }
    if let Some(b) = Bit::new(opcode, cpu) {
        return Ok(Operation::Bit(b));
    }
    if let Some(p) = crate::opcode::push_pull::Push::new(opcode) {
        return Ok(Operation::Push(p));
    }
    if let Some(p) = crate::opcode::push_pull::Pull::new(opcode) {
        return Ok(Operation::Pull(p));
    }
    Err(crate::error::EmuError::UnsupportedOpcode { opcode, pc: cpu.program_counter })
}

} // verus!
