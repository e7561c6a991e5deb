//! The store instructions: write a register's value to the resolved
//! effective address.  No flag changes.

use vstd::prelude::*;
use vstd::string::StringExecFns;
use vstd::wrapping::u16_specs;
use crate::cpu::Cpu;
use crate::opcode::addressing_mode::AddRegister;
use crate::opcode::addressing_mode::AddressMode;
use crate::opcode::fetch_operand1;
use crate::opcode::fetch_operand2;
use crate::opcode::bytes_to_addr;
use crate::opcode::operand1;
use crate::opcode::operand2;
use crate::opcode::register_letter;
use crate::opcode::word;
use crate::opcode::Register;
use crate::text::hex2;
use crate::text::hex2_chars;

verus! {

/// Which register a store opcode writes out, if it is a store at all.
pub open spec fn store_register_for(opcode: u8) -> Option<Register> {
    match opcode {
        0x85u8 | 0x95u8 | 0x8Du8 | 0x9Du8 | 0x99u8 | 0x81u8 | 0x91u8 => Some(Register::A),
        0x86u8 | 0x96u8 | 0x8Eu8 => Some(Register::X),
        0x84u8 | 0x94u8 | 0x8Cu8 => Some(Register::Y),
        _ => None,
    }
}

/// The addressing mode a store opcode uses, built from the operand bytes
/// that follow it.
pub open spec fn store_mode_for(opcode: u8, op1: u8, op2: u8) -> AddressMode {
    match opcode {
        0x85u8 | 0x86u8 | 0x84u8 => AddressMode::ZeroPage {
            register: AddRegister::NoIndex,
            offset: op1,
        },
        0x95u8 | 0x94u8 => AddressMode::ZeroPage { register: AddRegister::X, offset: op1 },
        0x96u8 => AddressMode::ZeroPage { register: AddRegister::Y, offset: op1 },
        0x8Du8 | 0x8Eu8 | 0x8Cu8 => AddressMode::Absolute {
            register: AddRegister::NoIndex,
            address: word(op1, op2),
        },
        0x9Du8 => AddressMode::Absolute { register: AddRegister::X, address: word(op1, op2) },
        0x99u8 => AddressMode::Absolute { register: AddRegister::Y, address: word(op1, op2) },
        0x81u8 => AddressMode::Indirect {
            register: AddRegister::X,
            address_to_read_indirect: word(op1, op2),
        },
        0x91u8 => AddressMode::Indirect {
            register: AddRegister::Y,
            address_to_read_indirect: word(op1, op2),
        },
        _ => AddressMode::ZeroPage { register: AddRegister::NoIndex, offset: 0u8 },
    }
}

/// The cycle cost of a store: stores always pay the indexing cycle, so there
/// is no page-crossing term.
pub open spec fn store_cycles(mode: AddressMode) -> u64 {
    match mode {
        AddressMode::ZeroPage { register: AddRegister::NoIndex, .. } => 3u64,
        AddressMode::ZeroPage { .. } => 4u64,
        AddressMode::Absolute { register: AddRegister::NoIndex, .. } => 4u64,
        AddressMode::Absolute { .. } => 5u64,
        AddressMode::Indirect { .. } => 6u64,
        _ => 3u64,
    }
}

/// How many bytes a store instruction occupies, opcode included.
pub open spec fn store_bytes(mode: AddressMode) -> u64 {
    match mode {
        AddressMode::ZeroPage { .. } => 2u64,
        AddressMode::Absolute { .. } => 3u64,
        AddressMode::Indirect { .. } => 2u64,
        _ => 2u64,
    }
}

/// The value a store writes: the current content of its source register.
pub open spec fn store_value(pre: Cpu, r: Register) -> u8 {
    match r {
        Register::A => pre.a,
        Register::X => pre.x,
        Register::Y => pre.y,
    }
}

/// How one executed store relates the next processor state to the current
/// one: one memory byte takes the register value, and no flag changes.
pub open spec fn store_applies(pre: Cpu, post: Cpu, s: Store) -> bool {
    let addr = s.mode.spec_addr(pre).unwrap();
    &&& post.program_counter == u16_specs::wrapping_add(
        pre.program_counter,
        store_bytes(s.mode) as u16,
    )
    &&& post.cycles == pre.cycles + store_cycles(s.mode)
    &&& post.memory@ == pre.memory@.update(addr as int, store_value(pre, s.register))
    &&& post.a == pre.a
    &&& post.x == pre.x
    &&& post.y == pre.y
    &&& post.status == pre.status
    &&& post.stack == pre.stack
}

/// The dump line of a store instruction.
pub open spec fn store_dump_chars(s: Store, cpu: Cpu) -> Seq<char> {
    hex2_chars(s.opcode) + seq![' '] + s.mode.operand_chars() + seq![' ', ' ', ' ', ' ', ' ']
        + seq!['S', 'T', register_letter(s.register), ' '] + s.mode.disasm_chars(cpu)
}

/// A decoded store instruction.
#[derive(Clone, Copy, Debug, PartialEq, Eq, Structural)]
pub struct Store {
    /// The resolved addressing mode.
    pub mode: AddressMode,
    /// Which register is written out.
    pub register: Register,
    /// The opcode byte, kept for the dump line.
    pub opcode: u8,
}

impl Store {
    /// Recognize a store instruction and resolve its addressing mode from
    /// the operand bytes following the opcode.
    pub fn new(opcode: u8, cpu: &Cpu) -> (r: Option<Store>)
        requires
            cpu.wf(),
        ensures
            r is Some <==> store_register_for(opcode) is Some,
            r is Some ==> r.unwrap() == (Store {
                mode: store_mode_for(opcode, operand1(*cpu), operand2(*cpu)),
                register: store_register_for(opcode).unwrap(),
                opcode,
            }),
    {
        let register = match Self::get_register(opcode) {
            Some(rg) => rg,
            None => {
                return None;
            },
        };
        Some(Store { mode: Self::get_mode(opcode, cpu), register, opcode })
    }

    /// The register a store opcode writes out.
    pub fn get_register(opcode: u8) -> (r: Option<Register>)
        ensures
            r == store_register_for(opcode),
    {
        match opcode {
            0x85 | 0x95 | 0x8D | 0x9D | 0x99 | 0x81 | 0x91 => Some(Register::A),
            0x86 | 0x96 | 0x8E => Some(Register::X),
            0x84 | 0x94 | 0x8C => Some(Register::Y),
            _ => None,
        }
    }

    /// The addressing mode a store opcode uses, reading its operand bytes.
    pub fn get_mode(opcode: u8, cpu: &Cpu) -> (r: AddressMode)
        requires
            cpu.wf(),
            store_register_for(opcode) is Some,
        ensures
            r == store_mode_for(opcode, operand1(*cpu), operand2(*cpu)),
    {
        let value = fetch_operand1(cpu);
        match opcode {
            0x85 | 0x86 | 0x84 => AddressMode::ZeroPage {
                register: AddRegister::NoIndex,
                offset: value,
            },
            0x95 | 0x94 => AddressMode::ZeroPage { register: AddRegister::X, offset: value },
            0x96 => AddressMode::ZeroPage { register: AddRegister::Y, offset: value },
            0x8D | 0x8E | 0x8C => AddressMode::Absolute {
                register: AddRegister::NoIndex,
                address: bytes_to_addr(value, fetch_operand2(cpu)),
            },
            0x9D => AddressMode::Absolute {
                register: AddRegister::X,
                address: bytes_to_addr(value, fetch_operand2(cpu)),
            },
            0x99 => AddressMode::Absolute {
                register: AddRegister::Y,
                address: bytes_to_addr(value, fetch_operand2(cpu)),
            },
            0x81 => AddressMode::Indirect {
                register: AddRegister::X,
                address_to_read_indirect: bytes_to_addr(value, fetch_operand2(cpu)),
            },
            _ => AddressMode::Indirect {
                register: AddRegister::Y,
                address_to_read_indirect: bytes_to_addr(value, fetch_operand2(cpu)),
            },
        }
    }

    /// The cycle cost of this store.
    pub fn get_cycles(&self, _cpu: &Cpu) -> (r: u64)
        ensures
            r == store_cycles(self.mode),
    {
        match &self.mode {
            AddressMode::ZeroPage { register: AddRegister::NoIndex, .. } => 3,
            AddressMode::ZeroPage { .. } => 4,
            AddressMode::Absolute { register: AddRegister::NoIndex, .. } => 4,
            AddressMode::Absolute { .. } => 5,
            AddressMode::Indirect { .. } => 6,
            _ => 3,
        }
    }

    /// How many bytes this instruction occupies, opcode included.
    pub fn get_bytes(&self) -> (r: u64)
        ensures
            r == store_bytes(self.mode),
    {
        match &self.mode {
            AddressMode::ZeroPage { .. } => 2,
            AddressMode::Absolute { .. } => 3,
            AddressMode::Indirect { .. } => 2,
            _ => 2,
        }
    }

    /// Write the source register to the effective address and advance the
    /// program counter and the cycle counter.  No flag changes.
    pub fn execute(&self, cpu: &mut Cpu)
        requires
            old(cpu).wf(),
            self.mode is ZeroPage || self.mode is Absolute,
            old(cpu).cycles + 5 <= u64::MAX,
        ensures
            final(cpu).wf(),
            store_applies(*old(cpu), *final(cpu), *self),
    {
        let addr = self.mode.to_addr(cpu).unwrap();
        let cycles = self.get_cycles(cpu);
        let bytes = self.get_bytes();
        cpu.program_counter = cpu.program_counter.wrapping_add(bytes as u16);
        cpu.cycles = cpu.cycles + cycles;
        let value = match self.register {
            Register::A => cpu.a,
            Register::X => cpu.x,
            Register::Y => cpu.y,
        };
        cpu.memory.write(addr, value);
    }

    /// The dump line of this instruction.
    #[verifier::rlimit(50)]
    pub fn dump(&self, cpu: &Cpu) -> (r: String)
        requires
            !self.mode.is_indirect(),
            cpu.wf(),
        ensures
            r@ == store_dump_chars(*self, *cpu),
    {
        let mut s = hex2(self.opcode);
        s.append(" ");
        let operand = self.mode.value_to_string();
        s.append(operand.as_str());
        s.append("     ");
        s.append("ST");
        let letter = self.register.to_string();
        s.append(letter.as_str());
        s.append(" ");
        let disasm = self.mode.to_string(cpu);
        s.append(disasm.as_str());
        proof {
            reveal_strlit(" ");
            reveal_strlit("     ");
            reveal_strlit("ST");
            assert(s@ =~= store_dump_chars(*self, *cpu));
        }
        s
    }
}

} // verus!
