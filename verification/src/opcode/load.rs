//! The load instructions: move a resolved operand value into a register and
//! update the zero and negative flags from it.

use vstd::prelude::*;
use vstd::string::StringExecFns;
use vstd::wrapping::u16_specs;
use crate::cpu::Cpu;
use crate::opcode::addressing_mode::AddRegister;
use crate::opcode::addressing_mode::AddressMode;
use crate::opcode::addressing_mode::index_value;
use crate::opcode::fetch_operand1;
use crate::opcode::fetch_operand2;
use crate::opcode::bytes_to_addr;
use crate::opcode::is_on_different_pages;
use crate::opcode::operand1;
use crate::opcode::operand2;
use crate::opcode::register_letter;
use crate::opcode::word;
use crate::opcode::Register;
use crate::text::hex2;
use crate::text::hex2_chars;

verus! {

/// Which register a load opcode targets, if it is a load at all.
pub open spec fn load_register_for(opcode: u8) -> Option<Register> {
    match opcode {
        0xA9u8 | 0xA5u8 | 0xB5u8 | 0xADu8 | 0xBDu8 | 0xB9u8 | 0xA1u8 | 0xB1u8 => Some(Register::A),
        0xA2u8 | 0xA6u8 | 0xB6u8 | 0xAEu8 | 0xBEu8 => Some(Register::X),
        0xA0u8 | 0xA4u8 | 0xB4u8 | 0xACu8 | 0xBCu8 => Some(Register::Y),
        _ => None,
    }
}

/// The addressing mode a load opcode uses, built from the operand bytes that
/// follow it.
pub open spec fn load_mode_for(opcode: u8, op1: u8, op2: u8) -> AddressMode {
    match opcode {
        0xA9u8 | 0xA2u8 | 0xA0u8 => AddressMode::Immediate { value: op1 },
        0xA5u8 | 0xA6u8 | 0xA4u8 => AddressMode::ZeroPage {
            register: AddRegister::NoIndex,
            offset: op1,
        },
        0xB5u8 | 0xB4u8 => AddressMode::ZeroPage { register: AddRegister::X, offset: op1 },
        0xB6u8 => AddressMode::ZeroPage { register: AddRegister::Y, offset: op1 },
        0xADu8 | 0xAEu8 | 0xACu8 => AddressMode::Absolute {
            register: AddRegister::NoIndex,
            address: word(op1, op2),
        },
        0xBDu8 | 0xBCu8 => AddressMode::Absolute { register: AddRegister::X, address: word(op1, op2) },
        0xB9u8 | 0xBEu8 => AddressMode::Absolute { register: AddRegister::Y, address: word(op1, op2) },
        0xA1u8 => AddressMode::Indirect {
            register: AddRegister::X,
            address_to_read_indirect: word(op1, op2),
        },
        0xB1u8 => AddressMode::Indirect {
            register: AddRegister::Y,
            address_to_read_indirect: word(op1, op2),
        },
        _ => AddressMode::Immediate { value: 0u8 },
    }
}

/// The cycle cost of a load: two for immediate, three or four for zero page,
/// four for absolute, one more when an indexed absolute access crosses a
/// page boundary.
pub open spec fn load_cycles(mode: AddressMode, x: u8, y: u8) -> u64 {
    match mode {
        AddressMode::Immediate { .. } => 2u64,
        AddressMode::ZeroPage { register: AddRegister::NoIndex, .. } => 3u64,
        AddressMode::ZeroPage { .. } => 4u64,
        AddressMode::Absolute { register: AddRegister::NoIndex, .. } => 4u64,
        AddressMode::Absolute { register, address } => (4 + if address / 256
            != u16_specs::wrapping_add(address, index_value(register, x, y) as u16) / 256 {
            1u64
        } else {
            0u64
        }) as u64,
        _ => 2u64,
    }
}

/// How many bytes a load instruction occupies, opcode included.
pub open spec fn load_bytes(mode: AddressMode) -> u64 {
    match mode {
        AddressMode::Immediate { .. } => 2u64,
        AddressMode::ZeroPage { .. } => 2u64,
        AddressMode::Absolute { .. } => 3u64,
        AddressMode::Indirect { .. } => 2u64,
        _ => 2u64,
    }
}

/// How one executed load relates the next processor state to the current
/// one: the target register takes the operand value, the zero and negative
/// flags track it, and nothing else changes.
pub open spec fn load_applies(pre: Cpu, post: Cpu, l: Load) -> bool {
    let value = l.mode.spec_value(pre);
    &&& post.program_counter == u16_specs::wrapping_add(
        pre.program_counter,
        load_bytes(l.mode) as u16,
    )
    &&& post.cycles == pre.cycles + load_cycles(l.mode, pre.x, pre.y)
    &&& post.a == (if l.register is A {
        value
    } else {
        pre.a
    })
    &&& post.x == (if l.register is X {
        value
    } else {
        pre.x
    })
    &&& post.y == (if l.register is Y {
        value
    } else {
        pre.y
    })
    &&& post.status == pre.status.with_load_flags(value)
    &&& post.stack == pre.stack
    &&& post.memory@ == pre.memory@
}

/// The dump line of a load instruction.
pub open spec fn load_dump_chars(l: Load, cpu: Cpu) -> Seq<char> {
    hex2_chars(l.opcode) + seq![' '] + l.mode.operand_chars() + seq![' ', ' ', ' ', ' ', ' ']
        + seq!['L', 'D', register_letter(l.register), ' '] + l.mode.disasm_chars(cpu)
}

/// A decoded load instruction.
#[derive(Clone, Copy, Debug, PartialEq, Eq, Structural)]
pub struct Load {
    /// The resolved addressing mode.
    pub mode: AddressMode,
    /// Which register the value lands in.
    pub register: Register,
    /// The opcode byte, kept for the dump line.
    pub opcode: u8,
}

impl Load {
    /// Recognize a load instruction and resolve its addressing mode from the
    /// operand bytes following the opcode.
    pub fn new(opcode: u8, cpu: &Cpu) -> (r: Option<Load>)
        requires
            cpu.wf(),
        ensures
            r is Some <==> load_register_for(opcode) is Some,
            r is Some ==> r.unwrap() == (Load {
                mode: load_mode_for(opcode, operand1(*cpu), operand2(*cpu)),
                register: load_register_for(opcode).unwrap(),
                opcode,
            }),
    {
        let register = match Self::get_register(opcode) {
            Some(rg) => rg,
            None => {
                return None;
            },
        };
        Some(Load { mode: Self::get_mode(opcode, cpu), register, opcode })
    }

    /// The register a load opcode targets.
    pub fn get_register(opcode: u8) -> (r: Option<Register>)
        ensures
            r == load_register_for(opcode),
    {
        match opcode {
            0xA9 | 0xA5 | 0xB5 | 0xAD | 0xBD | 0xB9 | 0xA1 | 0xB1 => Some(Register::A),
            0xA2 | 0xA6 | 0xB6 | 0xAE | 0xBE => Some(Register::X),
            0xA0 | 0xA4 | 0xB4 | 0xAC | 0xBC => Some(Register::Y),
            _ => None,
        }
    }

    /// The addressing mode a load opcode uses, reading its operand bytes.
    pub fn get_mode(opcode: u8, cpu: &Cpu) -> (r: AddressMode)
        requires
            cpu.wf(),
            load_register_for(opcode) is Some,
        ensures
            r == load_mode_for(opcode, operand1(*cpu), operand2(*cpu)),
    {
        let value = fetch_operand1(cpu);
        match opcode {
            0xA9 | 0xA2 | 0xA0 => AddressMode::Immediate { value },
            0xA5 | 0xA6 | 0xA4 => AddressMode::ZeroPage {
                register: AddRegister::NoIndex,
                offset: value,
            },
            0xB5 | 0xB4 => AddressMode::ZeroPage { register: AddRegister::X, offset: value },
            0xB6 => AddressMode::ZeroPage { register: AddRegister::Y, offset: value },
            0xAD | 0xAE | 0xAC => AddressMode::Absolute {
                register: AddRegister::NoIndex,
                address: bytes_to_addr(value, fetch_operand2(cpu)),
            },
            0xBD | 0xBC => AddressMode::Absolute {
                register: AddRegister::X,
                address: bytes_to_addr(value, fetch_operand2(cpu)),
            },
            0xB9 | 0xBE => AddressMode::Absolute {
                register: AddRegister::Y,
                address: bytes_to_addr(value, fetch_operand2(cpu)),
            },
            0xA1 => AddressMode::Indirect {
                register: AddRegister::X,
                address_to_read_indirect: bytes_to_addr(value, fetch_operand2(cpu)),
            },
            _ => AddressMode::Indirect {
                register: AddRegister::Y,
                address_to_read_indirect: bytes_to_addr(value, fetch_operand2(cpu)),
            },
        }
    }

    /// The cycle cost of this load in the given processor state.
    pub fn get_cycles(&self, cpu: &Cpu) -> (r: u64)
        requires
            !self.mode.is_indirect(),
        ensures
            r == load_cycles(self.mode, cpu.x, cpu.y),
    {
        match &self.mode {
            AddressMode::Immediate { .. } => 2,
            AddressMode::ZeroPage { register: AddRegister::NoIndex, .. } => 3,
            AddressMode::ZeroPage { .. } => 4,
            AddressMode::Absolute { register: AddRegister::NoIndex, .. } => 4,
            AddressMode::Absolute { register, address } => {
                let idx = match register {
                    AddRegister::NoIndex => 0,
                    AddRegister::X => cpu.x,
                    AddRegister::Y => cpu.y,
                };
                if is_on_different_pages(*address, address.wrapping_add(idx as u16)) {
                    5
                } else {
                    4
                }
            },
            _ => 2,
        }
    }

    /// How many bytes this instruction occupies, opcode included.
    pub fn get_bytes(&self) -> (r: u64)
        ensures
            r == load_bytes(self.mode),
    {
        match &self.mode {
            AddressMode::Immediate { .. } => 2,
            AddressMode::ZeroPage { .. } => 2,
            AddressMode::Absolute { .. } => 3,
            AddressMode::Indirect { .. } => 2,
            _ => 2,
        }
    }

    /// Load the operand value into the target register, update the zero and
    /// negative flags from it, and advance the program counter and the cycle
    /// counter.
    pub fn execute(&self, cpu: &mut Cpu)
        requires
            old(cpu).wf(),
            !self.mode.is_indirect(),
            old(cpu).cycles + 5 <= u64::MAX,
        ensures
            final(cpu).wf(),
            load_applies(*old(cpu), *final(cpu), *self),
    {
        let value = self.mode.to_value(cpu);
        let cycles = self.get_cycles(cpu);
        let bytes = self.get_bytes();
        cpu.program_counter = cpu.program_counter.wrapping_add(bytes as u16);
        cpu.cycles = cpu.cycles + cycles;
        match self.register {
            Register::A => cpu.a = value,
            Register::X => cpu.x = value,
            Register::Y => cpu.y = value,
        }
        cpu.status.update_load(value);
    }

    /// The dump line of this instruction.
    #[verifier::rlimit(50)]
    pub fn dump(&self, cpu: &Cpu) -> (r: String)
        requires
            !self.mode.is_indirect(),
            cpu.wf(),
        ensures
            r@ == load_dump_chars(*self, *cpu),
    {
        let mut s = hex2(self.opcode);
        s.append(" ");
        let operand = self.mode.value_to_string();
        s.append(operand.as_str());
        s.append("     ");
        s.append("LD");
        let letter = self.register.to_string();
        s.append(letter.as_str());
        s.append(" ");
        let disasm = self.mode.to_string(cpu);
        s.append(disasm.as_str());
        proof {
            reveal_strlit(" ");
            reveal_strlit("     ");
            reveal_strlit("LD");
            assert(s@ =~= load_dump_chars(*self, *cpu));
        }
        s
    }
}

} // verus!
