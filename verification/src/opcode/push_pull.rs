//! The stack push and pull instructions, moving the accumulator or the
//! packed status byte to and from the stack.

use vstd::prelude::*;
use vstd::string::StringExecFns;
use vstd::wrapping::u16_specs;
use vstd::wrapping::u8_specs;
use crate::cpu::spec_decode_status;
use crate::cpu::spec_encode_status;
use crate::cpu::stack_addr;
use crate::cpu::Cpu;
use crate::cpu::ProcessorStatus;
use crate::text::hex2;
use crate::text::hex2_chars;

verus! {

/// What a push or pull instruction moves.
#[derive(Clone, Copy, Debug, PartialEq, Eq, Structural)]
pub enum Data {
    /// The accumulator.
    Accumulator,
    /// The packed status byte.
    ProcessorStatus,
}

/// The letter naming the moved data in a mnemonic.
pub open spec fn data_letter(d: Data) -> char {
    match d {
        Data::Accumulator => 'A',
        Data::ProcessorStatus => 'P',
    }
}

impl Data {
    /// The letter naming this data in a mnemonic.
    pub fn to_string(&self) -> (r: String)
        ensures
            r@ == seq![data_letter(*self)],
    {
        proof {
            reveal_strlit("A");
            reveal_strlit("P");
            assert("A"@ =~= seq!['A']);
            assert("P"@ =~= seq!['P']);
        }
        let s = match self {
            Data::Accumulator => "A",
            Data::ProcessorStatus => "P",
        };
        s.to_owned()
    }
}

/// The byte a push instruction places on the stack.
pub open spec fn push_value(pre: Cpu, d: Data) -> u8 {
    match d {
        Data::Accumulator => pre.a,
        Data::ProcessorStatus => spec_encode_status(pre.status),
    }
}

/// How one executed push relates the next processor state to the current
/// one: the moved byte lands at the stack pointer, which steps down.
pub open spec fn push_applies(pre: Cpu, post: Cpu, d: Data) -> bool {
    let sp = pre.stack.stack_pointer;
    &&& post.program_counter == u16_specs::wrapping_add(pre.program_counter, 1)
    &&& post.cycles == pre.cycles + 3
    &&& post.stack.stack_pointer == u8_specs::wrapping_sub(sp, 1)
    &&& post.memory@ == pre.memory@.update(stack_addr(sp), push_value(pre, d))
    &&& post.a == pre.a
    &&& post.x == pre.x
    &&& post.y == pre.y
    &&& post.status == pre.status
}

/// The dump line of a push instruction.
pub open spec fn push_dump_chars(p: Push) -> Seq<char> {
    hex2_chars(p.opcode) + seq![' ', ' ', ' ', ' ', ' ', ' ', ' ', ' '] + seq!['P', 'H', data_letter(
        p.data,
    )] + seq![' ', ' ', ' ', ' ', ' ']
}

/// A decoded push instruction.
#[derive(Clone, Copy, Debug, PartialEq, Eq, Structural)]
pub struct Push {
    /// The opcode byte, kept for the dump line.
    pub opcode: u8,
    /// What is pushed.
    pub data: Data,
}

impl Push {
    /// Instruction length in bytes.
    pub const BYTES: u16 = 1;

    /// Cycle cost: a push always takes three cycles.
    pub const CYCLES: u64 = 3;

    /// Recognize a push instruction from its opcode byte.
    pub fn new(opcode: u8) -> (r: Option<Push>)
        ensures
            r is Some <==> (opcode == 0x48u8 || opcode == 0x08u8),
            opcode == 0x48u8 ==> r == Some(Push { opcode, data: Data::Accumulator }),
            opcode == 0x08u8 ==> r == Some(Push { opcode, data: Data::ProcessorStatus }),
    {
        match opcode {
            0x48 => Some(Push { opcode, data: Data::Accumulator }),
            0x08 => Some(Push { opcode, data: Data::ProcessorStatus }),
            _ => None,
        }
    }

    /// Push the accumulator or the packed status byte.
    pub fn execute(&self, cpu: &mut Cpu)
        requires
            old(cpu).wf(),
            old(cpu).cycles + 3 <= u64::MAX,
        ensures
            final(cpu).wf(),
            push_applies(*old(cpu), *final(cpu), self.data),
    {
        cpu.program_counter = cpu.program_counter.wrapping_add(Self::BYTES);
        cpu.cycles = cpu.cycles + Self::CYCLES;
        let value = match self.data {
            Data::Accumulator => cpu.a,
            Data::ProcessorStatus => cpu.status.encode(),
        };
        cpu.stack.push(&mut cpu.memory, value);
    }

    /// The dump line of this instruction.
    pub fn dump(&self, _cpu: &Cpu) -> (r: String)
        ensures
            r@ == push_dump_chars(*self),
    {
        let mut s = hex2(self.opcode);
        s.append("        ");
        s.append("PH");
        let letter = self.data.to_string();
        s.append(letter.as_str());
        s.append("     ");
        proof {
            reveal_strlit("        ");
            reveal_strlit("PH");
            reveal_strlit("     ");
            assert(s@ =~= push_dump_chars(*self));
        }
        s
    }
}

/// The byte a pull instruction takes off the stack.
pub open spec fn pulled_value(pre: Cpu) -> u8 {
    pre.memory@[stack_addr(u8_specs::wrapping_add(pre.stack.stack_pointer, 1))]
}

/// How one executed pull relates the next processor state to the current
/// one: the stack pointer steps up and the byte under it lands in the
/// accumulator (updating the load flags) or in the status register.
pub open spec fn pull_applies(pre: Cpu, post: Cpu, d: Data) -> bool {
    let value = pulled_value(pre);
    &&& post.program_counter == u16_specs::wrapping_add(pre.program_counter, 1)
    &&& post.cycles == pre.cycles + 4
    &&& post.stack.stack_pointer == u8_specs::wrapping_add(pre.stack.stack_pointer, 1)
    &&& post.memory@ == pre.memory@
    &&& post.x == pre.x
    &&& post.y == pre.y
    &&& match d {
        Data::Accumulator => post.a == value && post.status == pre.status.with_load_flags(value),
        Data::ProcessorStatus => post.a == pre.a && post.status == spec_decode_status(value),
    }
}

/// The dump line of a pull instruction.
pub open spec fn pull_dump_chars(p: Pull) -> Seq<char> {
    hex2_chars(p.opcode) + seq![' ', ' ', ' ', ' ', ' ', ' ', ' ', ' '] + seq!['P', 'L', data_letter(
        p.data,
    )] + seq![' ', ' ', ' ', ' ', ' ']
}

/// A decoded pull instruction.
#[derive(Clone, Copy, Debug, PartialEq, Eq, Structural)]
pub struct Pull {
    /// The opcode byte, kept for the dump line.
    pub opcode: u8,
    /// What is pulled.
    pub data: Data,
}

impl Pull {
    /// Instruction length in bytes.
    pub const BYTES: u16 = 1;

    /// Cycle cost: a pull always takes four cycles.
    pub const CYCLES: u64 = 4;

    /// Recognize a pull instruction from its opcode byte.
    pub fn new(opcode: u8) -> (r: Option<Pull>)
        ensures
            r is Some <==> (opcode == 0x68u8 || opcode == 0x28u8),
            opcode == 0x68u8 ==> r == Some(Pull { opcode, data: Data::Accumulator }),
            opcode == 0x28u8 ==> r == Some(Pull { opcode, data: Data::ProcessorStatus }),
    {
        match opcode {
            0x68 => Some(Pull { opcode, data: Data::Accumulator }),
            0x28 => Some(Pull { opcode, data: Data::ProcessorStatus }),
            _ => None,
        }
    }

    /// Pull a byte into the accumulator (updating the load flags) or into
    /// the status register (decoding it).
    pub fn execute(&self, cpu: &mut Cpu)
        requires
            old(cpu).wf(),
            old(cpu).cycles + 4 <= u64::MAX,
        ensures
            final(cpu).wf(),
            pull_applies(*old(cpu), *final(cpu), self.data),
    {
        cpu.program_counter = cpu.program_counter.wrapping_add(Self::BYTES);
        cpu.cycles = cpu.cycles + Self::CYCLES;
        let value = cpu.stack.pop(&mut cpu.memory);
        match self.data {
            Data::Accumulator => {
                cpu.a = value;
                cpu.status.update_load(value);
            },
            Data::ProcessorStatus => {
                cpu.status = ProcessorStatus::decode(value);
            },
        }
    }

    /// The dump line of this instruction.
    pub fn dump(&self, _cpu: &Cpu) -> (r: String)
        ensures
            r@ == pull_dump_chars(*self),
    {
        let mut s = hex2(self.opcode);
        s.append("        ");
        s.append("PL");
        let letter = self.data.to_string();
        s.append(letter.as_str());
        s.append("     ");
        proof {
            reveal_strlit("        ");
            reveal_strlit("PL");
            reveal_strlit("     ");
            assert(s@ =~= pull_dump_chars(*self));
        }
        s
    }
}

} // verus!
