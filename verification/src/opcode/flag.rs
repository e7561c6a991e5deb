//! The flag set/clear instructions: each mutates exactly one named flag.

use vstd::prelude::*;
use vstd::string::StringExecFns;
use vstd::wrapping::u16_specs;
use crate::cpu::Cpu;
use crate::cpu::ProcessorStatus;
use crate::text::hex2;
use crate::text::hex2_chars;

verus! {

/// One flag set/clear instruction.
#[derive(Clone, Copy, Debug, PartialEq, Eq, Structural)]
pub enum Flag {
    /// Clear carry.
    Clc,
    /// Set carry.
    Sec,
    /// Clear interrupt disable.
    Cli,
    /// Set interrupt disable.
    Sei,
    /// Clear overflow.
    Clv,
    /// Clear decimal.
    Cld,
    /// Set decimal.
    Sed,
}

/// The flag instruction a given opcode byte encodes, if any.
pub open spec fn flag_for_opcode(opcode: u8) -> Option<Flag> {
    match opcode {
        0x18u8 => Some(Flag::Clc),
        0x38u8 => Some(Flag::Sec),
        0x58u8 => Some(Flag::Cli),
        0x78u8 => Some(Flag::Sei),
        0xB8u8 => Some(Flag::Clv),
        0xD8u8 => Some(Flag::Cld),
        0xF8u8 => Some(Flag::Sed),
        _ => None,
    }
}

/// The opcode byte of a flag instruction.
pub open spec fn flag_opcode(f: Flag) -> u8 {
    match f {
        Flag::Clc => 0x18u8,
        Flag::Sec => 0x38u8,
        Flag::Cli => 0x58u8,
        Flag::Sei => 0x78u8,
        Flag::Clv => 0xB8u8,
        Flag::Cld => 0xD8u8,
        Flag::Sed => 0xF8u8,
    }
}

/// The status register after one flag instruction: exactly the named flag
/// moves to its fixed value.
pub open spec fn flag_effect(f: Flag, s: ProcessorStatus) -> ProcessorStatus {
    match f {
        Flag::Clc => (ProcessorStatus { carry: false, ..s }),
        Flag::Sec => (ProcessorStatus { carry: true, ..s }),
        Flag::Cli => (ProcessorStatus { interrupt_disable: false, ..s }),
        Flag::Sei => (ProcessorStatus { interrupt_disable: true, ..s }),
        Flag::Clv => (ProcessorStatus { overflow: false, ..s }),
        Flag::Cld => (ProcessorStatus { decimal: false, ..s }),
        Flag::Sed => (ProcessorStatus { decimal: true, ..s }),
    }
}

/// The three-letter mnemonic of a flag instruction.
pub open spec fn flag_mnemonic_chars(f: Flag) -> Seq<char> {
    match f {
        Flag::Clc => seq!['C', 'L', 'C'],
        Flag::Sec => seq!['S', 'E', 'C'],
        Flag::Cli => seq!['C', 'L', 'I'],
        Flag::Sei => seq!['S', 'E', 'I'],
        Flag::Clv => seq!['C', 'L', 'V'],
        Flag::Cld => seq!['C', 'L', 'D'],
        Flag::Sed => seq!['S', 'E', 'D'],
    }
}

/// How one executed flag instruction relates the next processor state to the
/// current one.
pub open spec fn flag_applies(pre: Cpu, post: Cpu, f: Flag) -> bool {
    &&& post.program_counter == u16_specs::wrapping_add(pre.program_counter, 1)
    &&& post.cycles == pre.cycles + 2
    &&& post.status == flag_effect(f, pre.status)
    &&& post.a == pre.a
    &&& post.x == pre.x
    &&& post.y == pre.y
    &&& post.stack == pre.stack
    &&& post.memory@ == pre.memory@
}

/// The dump line of a flag instruction.
pub open spec fn flag_dump_chars(f: Flag) -> Seq<char> {
    hex2_chars(flag_opcode(f)) + seq![' ', ' ', ' ', ' ', ' ', ' ', ' ', ' ']
        + flag_mnemonic_chars(f) + seq![' ', ' ', ' ', ' ', ' ', ' ', ' ', ' ']
}

impl Flag {
    /// Recognize a flag instruction from its opcode byte.
    pub fn new(opcode: u8) -> (r: Option<Flag>)
        ensures
            r == flag_for_opcode(opcode),
    {
        match opcode {
            0x18 => Some(Flag::Clc),
            0x38 => Some(Flag::Sec),
            0x58 => Some(Flag::Cli),
            0x78 => Some(Flag::Sei),
            0xB8 => Some(Flag::Clv),
            0xD8 => Some(Flag::Cld),
            0xF8 => Some(Flag::Sed),
            _ => None,
        }
    }

    /// The opcode byte of this instruction.
    pub fn to_opcode(&self) -> (r: u8)
        ensures
            r == flag_opcode(*self),
    {
        match self {
            Flag::Clc => 0x18,
            Flag::Sec => 0x38,
            Flag::Cli => 0x58,
            Flag::Sei => 0x78,
            Flag::Clv => 0xB8,
            Flag::Cld => 0xD8,
            Flag::Sed => 0xF8,
        }
    }

    /// The three-letter mnemonic of this instruction.
    pub fn mnemonic(&self) -> (r: &'static str)
        ensures
            r@ == flag_mnemonic_chars(*self),
    {
        proof {
            reveal_strlit("CLC");
            reveal_strlit("SEC");
            reveal_strlit("CLI");
            reveal_strlit("SEI");
            reveal_strlit("CLV");
            reveal_strlit("CLD");
            reveal_strlit("SED");
            assert("CLC"@ =~= seq!['C', 'L', 'C']);
            assert("SEC"@ =~= seq!['S', 'E', 'C']);
            assert("CLI"@ =~= seq!['C', 'L', 'I']);
            assert("SEI"@ =~= seq!['S', 'E', 'I']);
            assert("CLV"@ =~= seq!['C', 'L', 'V']);
            assert("CLD"@ =~= seq!['C', 'L', 'D']);
            assert("SED"@ =~= seq!['S', 'E', 'D']);
        }
        match self {
            Flag::Clc => "CLC",
            Flag::Sec => "SEC",
            Flag::Cli => "CLI",
            Flag::Sei => "SEI",
            Flag::Clv => "CLV",
            Flag::Cld => "CLD",
            Flag::Sed => "SED",
        }
    }

    /// Move exactly the named flag to its fixed value and advance past the
    /// one instruction byte.
    pub fn execute(&self, cpu: &mut Cpu)
        requires
            old(cpu).wf(),
            old(cpu).cycles + 2 <= u64::MAX,
        ensures
            final(cpu).wf(),
            flag_applies(*old(cpu), *final(cpu), *self),
    {
        cpu.program_counter = cpu.program_counter.wrapping_add(1);
        cpu.cycles = cpu.cycles + 2;
        match self {
            Flag::Clc => cpu.status.carry = false,
            Flag::Sec => cpu.status.carry = true,
            Flag::Cli => cpu.status.interrupt_disable = false,
            Flag::Sei => cpu.status.interrupt_disable = true,
            Flag::Clv => cpu.status.overflow = false,
            Flag::Cld => cpu.status.decimal = false,
            Flag::Sed => cpu.status.decimal = true,
        }
    }

    /// The dump line of this instruction.
    pub fn dump(&self, _cpu: &Cpu) -> (r: String)
        ensures
            r@ == flag_dump_chars(*self),
    {
        let mut s = hex2(self.to_opcode());
        s.append("        ");
        s.append(self.mnemonic());
        s.append("        ");
        proof {
            reveal_strlit("        ");
            assert(s@ =~= flag_dump_chars(*self));
        }
        s
    }
}

} // verus!
