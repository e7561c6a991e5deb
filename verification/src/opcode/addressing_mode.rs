//! Addressing modes: each is a pure function of the CPU state at resolution
//! time, capturing the values read from memory at decode time.
//!
//! Zero-page indexing wraps within the zero page — index overflow never
//! carries into page one.  Absolute indexing wraps around the full 16-bit
//! space.  The indirect modes are recognized but not implemented by this
//! core; resolution is never asked of them.

use vstd::prelude::*;
use vstd::string::StringExecFns;
use vstd::wrapping::u16_specs;
use vstd::wrapping::u8_specs;
use crate::cpu::Cpu;
use crate::opcode::lo_byte;
use crate::opcode::hi_byte;
use crate::text::hex2;
use crate::text::hex2_chars;
use crate::text::hex4;
use crate::text::hex4_chars;

verus! {

/// Which index register an addressing mode adds in.
#[derive(Clone, Copy, Debug, PartialEq, Eq, Structural)]
pub enum AddRegister {
    /// No index register is added.
    NoIndex,
    /// Add index register X.
    X,
    /// Add index register Y.
    Y,
}

/// The value the selected index register holds.
pub open spec fn index_value(register: AddRegister, x: u8, y: u8) -> u8 {
    match register {
        AddRegister::NoIndex => 0u8,
        AddRegister::X => x,
        AddRegister::Y => y,
    }
}

/// A resolved addressing mode, owned by the operation that decoded it.
#[allow(inconsistent_fields)]
#[derive(Clone, Copy, Debug, PartialEq, Eq, Structural)]
pub enum AddressMode {
    /// The operand is the accumulator itself.
    Accumulator,
    /// The operand byte is embedded in the instruction.
    Immediate { value: u8 },
    /// A signed offset from the program counter, used for branch targets.
    Relative { offset: i8 },
    /// An offset into the zero page, optionally indexed; indexing wraps
    /// within the zero page.
    ZeroPage { register: AddRegister, offset: u8 },
    /// A full 16-bit address, optionally indexed; indexing wraps around the
    /// address space.
    Absolute { register: AddRegister, address: u16 },
    /// An address holding the location to use.  Recognized but not
    /// implemented by this core.
    Indirect { register: AddRegister, address_to_read_indirect: u16 },
}

impl AddressMode {
    /// Whether this is one of the unimplemented indirect modes.
    pub open spec fn spec_is_indirect(&self) -> bool {
        self is Indirect
    }

    /// Whether this is one of the unimplemented indirect modes.
    #[verifier::when_used_as_spec(spec_is_indirect)]
    pub fn is_indirect(&self) -> (r: bool)
        ensures
            r == self.spec_is_indirect(),
    {
        matches!(self, AddressMode::Indirect { .. })
    }

    /// The effective address the mode resolves to, if it has one.
    pub open spec fn spec_addr(self, cpu: Cpu) -> Option<u16> {
        match self {
            AddressMode::Relative { offset } => Some(
                u16_specs::wrapping_add_signed(cpu.program_counter, offset as i16),
            ),
            AddressMode::ZeroPage { register, offset } => Some(
                u8_specs::wrapping_add(offset, index_value(register, cpu.x, cpu.y)) as u16,
            ),
            AddressMode::Absolute { register, address } => Some(
                u16_specs::wrapping_add(address, index_value(register, cpu.x, cpu.y) as u16),
            ),
            _ => None,
        }
    }

    /// The operand value the mode yields.
    pub open spec fn spec_value(self, cpu: Cpu) -> u8 {
        match self {
            AddressMode::Accumulator => cpu.a,
            AddressMode::Immediate { value } => value,
            _ => cpu.memory@[self.spec_addr(cpu).unwrap() as int],
        }
    }

    /// The value the selected index register holds right now.
    fn register_value(register: &AddRegister, cpu: &Cpu) -> (r: u8)
        ensures
            r == index_value(*register, cpu.x, cpu.y),
    {
        match register {
            AddRegister::NoIndex => 0,
            AddRegister::X => cpu.x,
            AddRegister::Y => cpu.y,
        }
    }

    /// The effective address: `None` for the accumulator and immediate
    /// modes, which have no address.
    pub fn to_addr(&self, cpu: &Cpu) -> (r: Option<u16>)
        requires
            !self.is_indirect(),
        ensures
            r == self.spec_addr(*cpu),
    {
        match self {
            AddressMode::Relative { offset } => Some(
                cpu.program_counter.wrapping_add_signed(*offset as i16),
            ),
            AddressMode::ZeroPage { register, offset } => {
                let idx = Self::register_value(register, cpu);
                Some(offset.wrapping_add(idx) as u16)
            },
            AddressMode::Absolute { register, address } => {
                let idx = Self::register_value(register, cpu);
                Some(address.wrapping_add(idx as u16))
            },
            _ => None,
        }
    }

    /// The operand value: the accumulator, the embedded literal, or the byte
    /// at the effective address.
    pub fn to_value(&self, cpu: &Cpu) -> (r: u8)
        requires
            !self.is_indirect(),
            cpu.wf(),
        ensures
            r == self.spec_value(*cpu),
    {
        match self {
            AddressMode::Accumulator => cpu.a,
            AddressMode::Immediate { value } => *value,
            _ => {
                let addr = self.to_addr(cpu);
                cpu.memory.read(addr.unwrap())
            },
        }
    }

    /// The disassembly rendering of the operand, exactly as hardware
    /// debuggers expect it.
    pub open spec fn disasm_chars(self, cpu: Cpu) -> Seq<char> {
        match self {
            AddressMode::Accumulator => seq!['A'],
            AddressMode::Immediate { value } => seq!['#', '$'] + hex2_chars(value),
            AddressMode::Relative { offset } => seq!['$'] + hex4_chars(
                self.spec_addr(cpu).unwrap(),
            ),
            AddressMode::ZeroPage { register, offset } => seq!['$'] + hex2_chars(
                lo_byte(self.spec_addr(cpu).unwrap()),
            ) + seq![' ', '=', ' '] + hex2_chars(self.spec_value(cpu)),
            AddressMode::Absolute { register, address } => seq!['$'] + hex4_chars(
                self.spec_addr(cpu).unwrap(),
            ),
            AddressMode::Indirect { .. } => Seq::empty(),
        }
    }

    /// Render the disassembly operand: `#$xx` for immediate, `$xx = yy` for
    /// zero page with the resolved value, `$xxxx` for absolute and relative,
    /// `A` for the accumulator.
    pub fn to_string(&self, cpu: &Cpu) -> (r: String)
        requires
            !self.is_indirect(),
            cpu.wf(),
        ensures
            r@ == self.disasm_chars(*cpu),
    {
        match self {
            AddressMode::Accumulator => {
                let r = "A".to_owned();
                proof {
                    reveal_strlit("A");
                    assert(r@ =~= self.disasm_chars(*cpu));
                }
                r
            },
            AddressMode::Immediate { value } => {
                let mut s = "#$".to_owned();
                let digits = hex2(*value);
                s.append(digits.as_str());
                proof {
                    reveal_strlit("#$");
                    assert(s@ =~= self.disasm_chars(*cpu));
                }
                s
            },
            AddressMode::Relative { .. } | AddressMode::Absolute { .. } => {
                let addr = self.to_addr(cpu).unwrap();
                let mut s = "$".to_owned();
                let digits = hex4(addr);
                s.append(digits.as_str());
                proof {
                    reveal_strlit("$");
                    assert(s@ =~= self.disasm_chars(*cpu));
                }
                s
            },
            AddressMode::ZeroPage { .. } => {
                let addr = self.to_addr(cpu).unwrap();
                let value = cpu.memory.read(addr);
                let mut s = "$".to_owned();
                let digits = hex2((addr % 256) as u8);
                s.append(digits.as_str());
                s.append(" = ");
                let vdigits = hex2(value);
                s.append(vdigits.as_str());
                proof {
                    reveal_strlit("$");
                    reveal_strlit(" = ");
                    assert(s@ =~= self.disasm_chars(*cpu));
                }
                s
            },
            AddressMode::Indirect { .. } => String::new(),
        }
    }

    /// The raw operand bytes as they appear in an instruction dump.
    pub open spec fn operand_chars(self) -> Seq<char> {
        match self {
            AddressMode::Accumulator => seq!['A'],
            AddressMode::Immediate { value } => hex2_chars(value),
            AddressMode::Relative { offset } => hex2_chars(offset as u8),
            AddressMode::ZeroPage { register, offset } => hex2_chars(offset),
            AddressMode::Absolute { register, address } => hex2_chars(lo_byte(address)) + seq![
                ' ',
            ] + hex2_chars(hi_byte(address)),
            AddressMode::Indirect { .. } => Seq::empty(),
        }
    }

    /// Render the raw operand bytes of the instruction encoding, low byte
    /// first for a two-byte operand.
    pub fn value_to_string(&self) -> (r: String)
        requires
            !self.is_indirect(),
        ensures
            r@ == self.operand_chars(),
    {
        match self {
            AddressMode::Accumulator => {
                let r = "A".to_owned();
                proof {
                    reveal_strlit("A");
                    assert(r@ =~= self.operand_chars());
                }
                r
            },
            AddressMode::Immediate { value } => hex2(*value),
            AddressMode::Relative { offset } => hex2(*offset as u8),
            AddressMode::ZeroPage { offset, .. } => hex2(*offset),
            AddressMode::Absolute { address, .. } => {
                let mut s = hex2((*address % 256) as u8);
                s.append(" ");
                let hi = hex2((*address / 256) as u8);
                s.append(hi.as_str());
                proof {
                    reveal_strlit(" ");
                    assert(s@ =~= self.operand_chars());
                }
                s
            },
            AddressMode::Indirect { .. } => String::new(),
        }
    }
}

} // verus!
