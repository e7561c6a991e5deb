//! Jump, subroutine call and subroutine return.
//!
//! A call pushes the address of its own last byte (the already-advanced
//! program counter minus one); the return pops it and adds one, landing on
//! the instruction after the call.

use vstd::prelude::*;
use vstd::string::StringExecFns;
use vstd::wrapping::u16_specs;
use vstd::wrapping::u8_specs;
use crate::cpu::stack_addr;
use crate::cpu::Cpu;
use crate::opcode::addressing_mode::AddRegister;
use crate::opcode::addressing_mode::AddressMode;
use crate::opcode::fetch_operand1;
use crate::opcode::fetch_operand2;
use crate::opcode::bytes_to_addr;
use crate::opcode::hi_byte;
use crate::opcode::lo_byte;
use crate::opcode::operand1;
use crate::opcode::operand2;
use crate::opcode::word;
use crate::text::hex2;
use crate::text::hex2_chars;

verus! {

/// How one executed absolute jump relates the next processor state to the
/// current one: the program counter takes the resolved address.
pub open spec fn jmp_applies(pre: Cpu, post: Cpu, mode: AddressMode) -> bool {
    &&& post.program_counter == mode.spec_addr(pre).unwrap()
    &&& post.cycles == pre.cycles + 3
    &&& post.a == pre.a
    &&& post.x == pre.x
    &&& post.y == pre.y
    &&& post.status == pre.status
    &&& post.stack == pre.stack
    &&& post.memory@ == pre.memory@
}

/// A decoded jump instruction: absolute, or the unimplemented indirect form.
#[derive(Clone, Copy, Debug, PartialEq, Eq, Structural)]
pub struct Jmp {
    /// The opcode byte, kept for the dump line.
    pub opcode: u8,
    /// The resolved addressing mode: absolute or indirect.
    pub mode: AddressMode,
}

/// The dump line of a jump.
pub open spec fn jmp_dump_chars(j: Jmp, cpu: Cpu) -> Seq<char> {
    hex2_chars(j.opcode) + seq![' '] + j.mode.operand_chars() + seq![' ', ' '] + seq![
        'J',
        'M',
        'P',
        ' ',
    ] + j.mode.disasm_chars(cpu)
}

impl Jmp {
    /// Recognize a jump and read its target address.
    pub fn new(opcode: u8, cpu: &Cpu) -> (r: Option<Jmp>)
        requires
            cpu.wf(),
        ensures
            r is Some <==> (opcode == 0x4Cu8 || opcode == 0x6Cu8),
            opcode == 0x4Cu8 ==> r == Some(
                Jmp {
                    opcode,
                    mode: AddressMode::Absolute {
                        register: AddRegister::NoIndex,
                        address: word(operand1(*cpu), operand2(*cpu)),
                    },
                },
            ),
            opcode == 0x6Cu8 ==> r == Some(
                Jmp {
                    opcode,
                    mode: AddressMode::Indirect {
                        register: AddRegister::NoIndex,
                        address_to_read_indirect: word(operand1(*cpu), operand2(*cpu)),
                    },
                },
            ),
    {
        if opcode != 0x4C && opcode != 0x6C {
            return None;
        }
        let address = bytes_to_addr(fetch_operand1(cpu), fetch_operand2(cpu));
        if opcode == 0x4C {
            Some(Jmp { opcode, mode: AddressMode::Absolute { register: AddRegister::NoIndex, address } })
        } else {
            Some(
                Jmp {
                    opcode,
                    mode: AddressMode::Indirect {
                        register: AddRegister::NoIndex,
                        address_to_read_indirect: address,
                    },
                },
            )
        }
    }

    /// The cycle cost of this jump.
    pub fn get_cycles(&self, _cpu: &Cpu) -> (r: u64)
        requires
            self.mode is Absolute || self.mode is Indirect,
        ensures
            r == (if self.mode is Absolute {
                3u64
            } else {
                5u64
            }),
    {
        match &self.mode {
            AddressMode::Absolute { .. } => 3,
            _ => 5,
        }
    }

    /// Move the program counter to the resolved address.
    pub fn execute(&self, cpu: &mut Cpu)
        requires
            old(cpu).wf(),
            self.mode is Absolute,
            old(cpu).cycles + 3 <= u64::MAX,
        ensures
            final(cpu).wf(),
            jmp_applies(*old(cpu), *final(cpu), self.mode),
    {
        let target = self.mode.to_addr(cpu).unwrap();
        cpu.program_counter = target;
        cpu.cycles = cpu.cycles + 3;
    }

    /// The dump line of this instruction.
    pub fn dump(&self, cpu: &Cpu) -> (r: String)
        requires
            !self.mode.is_indirect(),
            cpu.wf(),
        ensures
            r@ == jmp_dump_chars(*self, *cpu),
    {
        let mut s = hex2(self.opcode);
        s.append(" ");
        let operand = self.mode.value_to_string();
        s.append(operand.as_str());
        s.append("  ");
        s.append("JMP ");
        let disasm = self.mode.to_string(cpu);
        s.append(disasm.as_str());
        proof {
            reveal_strlit(" ");
            reveal_strlit("  ");
            reveal_strlit("JMP ");
            assert(s@ =~= jmp_dump_chars(*self, *cpu));
        }
        s
    }
}

/// How one executed subroutine call relates the next processor state to the
/// current one: the address of the call's own last byte is pushed, high byte
/// above low byte, and the program counter takes the target.
pub open spec fn jsr_applies(pre: Cpu, post: Cpu, mode: AddressMode) -> bool {
    let ret = u16_specs::wrapping_add(pre.program_counter, 2);
    let sp = pre.stack.stack_pointer;
    &&& post.program_counter == mode.spec_addr(pre).unwrap()
    &&& post.cycles == pre.cycles + 6
    &&& post.stack.stack_pointer == u8_specs::wrapping_sub(sp, 2)
    &&& post.memory@ == pre.memory@.update(stack_addr(sp), hi_byte(ret)).update(
        stack_addr(u8_specs::wrapping_sub(sp, 1)),
        lo_byte(ret),
    )
    &&& post.a == pre.a
    &&& post.x == pre.x
    &&& post.y == pre.y
    &&& post.status == pre.status
}

/// A decoded subroutine call.
#[derive(Clone, Copy, Debug, PartialEq, Eq, Structural)]
pub struct Jsr {
    /// The resolved absolute target.
    pub mode: AddressMode,
}

/// The dump line of a subroutine call.
pub open spec fn jsr_dump_chars(j: Jsr, cpu: Cpu) -> Seq<char> {
    hex2_chars(0x20u8) + seq![' '] + j.mode.operand_chars() + seq![' ', ' '] + seq![
        'J',
        'S',
        'R',
        ' ',
    ] + j.mode.disasm_chars(cpu)
}

impl Jsr {
    /// The opcode byte of this instruction.
    pub const OPCODE: u8 = 0x20;

    /// Instruction length in bytes.
    pub const BYTES: u16 = 3;

    /// Cycle cost: a call always takes six cycles.
    pub const CYCLES: u64 = 6;

    /// Recognize a subroutine call and read its target address.
    pub fn new(opcode: u8, cpu: &Cpu) -> (r: Option<Jsr>)
        requires
            cpu.wf(),
        ensures
            r is Some <==> opcode == 0x20u8,
            r is Some ==> r == Some(
                Jsr {
                    mode: AddressMode::Absolute {
                        register: AddRegister::NoIndex,
                        address: word(operand1(*cpu), operand2(*cpu)),
                    },
                },
            ),
    {
        if opcode != Self::OPCODE {
            return None;
        }
        let address = bytes_to_addr(fetch_operand1(cpu), fetch_operand2(cpu));
        Some(Jsr { mode: AddressMode::Absolute { register: AddRegister::NoIndex, address } })
    }

    /// Push the return address (the call's own last byte) and move the
    /// program counter to the target.
    pub fn execute(&self, cpu: &mut Cpu)
        requires
            old(cpu).wf(),
            self.mode is Absolute,
            old(cpu).cycles + 6 <= u64::MAX,
        ensures
            final(cpu).wf(),
            jsr_applies(*old(cpu), *final(cpu), self.mode),
    {
        let target = self.mode.to_addr(cpu).unwrap();
        let return_address = cpu.program_counter.wrapping_add(Self::BYTES - 1);
        cpu.stack.push_addr(&mut cpu.memory, return_address);
        cpu.program_counter = target;
        cpu.cycles = cpu.cycles + Self::CYCLES;
    }

    /// The dump line of this instruction.
    pub fn dump(&self, cpu: &Cpu) -> (r: String)
        requires
            !self.mode.is_indirect(),
            cpu.wf(),
        ensures
            r@ == jsr_dump_chars(*self, *cpu),
    {
        let mut s = hex2(Self::OPCODE);
        s.append(" ");
        let operand = self.mode.value_to_string();
        s.append(operand.as_str());
        s.append("  ");
        s.append("JSR ");
        let disasm = self.mode.to_string(cpu);
        s.append(disasm.as_str());
        proof {
            reveal_strlit(" ");
            reveal_strlit("  ");
            reveal_strlit("JSR ");
            assert(s@ =~= jsr_dump_chars(*self, *cpu));
        }
        s
    }
}

/// How one executed subroutine return relates the next processor state to
/// the current one: the pushed address comes back off the stack, low byte
/// first, and the program counter lands one past it.
pub open spec fn rts_applies(pre: Cpu, post: Cpu) -> bool {
    let sp = pre.stack.stack_pointer;
    let pcl = pre.memory@[stack_addr(u8_specs::wrapping_add(sp, 1))];
    let pch = pre.memory@[stack_addr(u8_specs::wrapping_add(sp, 2))];
    &&& post.program_counter == u16_specs::wrapping_add(word(pcl, pch), 1)
    &&& post.cycles == pre.cycles + 6
    &&& post.stack.stack_pointer == u8_specs::wrapping_add(sp, 2)
    &&& post.memory@ == pre.memory@
    &&& post.a == pre.a
    &&& post.x == pre.x
    &&& post.y == pre.y
    &&& post.status == pre.status
}

/// A subroutine call followed immediately by a return lands the program
/// counter three bytes past the call's opcode — on the instruction after the
/// call — restores the stack pointer, and costs twelve cycles in all.
pub proof fn lemma_jsr_rts_round_trip(c0: Cpu, c1: Cpu, c2: Cpu, mode: AddressMode)
    requires
        c0.wf(),
        jsr_applies(c0, c1, mode),
        rts_applies(c1, c2),
    ensures
        c2.program_counter == u16_specs::wrapping_add(c0.program_counter, 3),
        c2.cycles == c0.cycles + 12,
        c2.stack.stack_pointer == c0.stack.stack_pointer,
        c2.a == c0.a && c2.x == c0.x && c2.y == c0.y,
        c2.status == c0.status,
{
    let ret = u16_specs::wrapping_add(c0.program_counter, 2);
    let sp = c0.stack.stack_pointer;
    assert(stack_addr(u8_specs::wrapping_sub(sp, 1)) != stack_addr(sp));
    assert(u8_specs::wrapping_add(u8_specs::wrapping_sub(sp, 2), 1) == u8_specs::wrapping_sub(
        sp,
        1,
    ));
    assert(u8_specs::wrapping_add(u8_specs::wrapping_sub(sp, 2), 2) == sp);
    assert(c1.memory@[stack_addr(u8_specs::wrapping_sub(sp, 1))] == crate::opcode::lo_byte(ret));
    assert(c1.memory@[stack_addr(sp)] == crate::opcode::hi_byte(ret));
    crate::opcode::lemma_word_bytes(ret);
}

/// A decoded subroutine return.
#[derive(Clone, Copy, Debug, PartialEq, Eq, Structural)]
pub struct Rts {}

/// The dump line of a subroutine return.
pub open spec fn rts_dump_chars() -> Seq<char> {
    hex2_chars(0x60u8) + seq![' ', ' ', ' ', ' ', ' ', ' ', ' ', ' '] + seq!['R', 'T', 'S'] + seq![
        ' ',
        ' ',
        ' ',
        ' ',
        ' ',
    ]
}

impl Rts {
    /// The opcode byte of this instruction.
    pub const OPCODE: u8 = 0x60;

    /// Instruction length in bytes.
    pub const BYTES: u16 = 1;

    /// Cycle cost: a return always takes six cycles.
    pub const CYCLES: u64 = 6;

    /// Recognize a subroutine return.
    pub fn new(opcode: u8) -> (r: Option<Rts>)
        ensures
            r is Some <==> opcode == 0x60u8,
    {
        if opcode != Self::OPCODE {
            return None;
        }
        Some(Rts {  })
    }

    /// Pop the return address and land one byte past it.
    pub fn execute(&self, cpu: &mut Cpu)
        requires
            old(cpu).wf(),
            old(cpu).cycles + 6 <= u64::MAX,
        ensures
            final(cpu).wf(),
            rts_applies(*old(cpu), *final(cpu)),
    {
        let (pcl, pch) = cpu.stack.pop_addr(&mut cpu.memory);
        let return_address = bytes_to_addr(pcl, pch);
        cpu.program_counter = return_address.wrapping_add(Self::BYTES);
        cpu.cycles = cpu.cycles + Self::CYCLES;
    }

    /// The dump line of this instruction.
    pub fn dump(&self, _cpu: &Cpu) -> (r: String)
        ensures
            r@ == rts_dump_chars(),
    {
        let mut s = hex2(Self::OPCODE);
        s.append("        ");
        s.append("RTS");
        s.append("     ");
        proof {
            reveal_strlit("        ");
            reveal_strlit("RTS");
            reveal_strlit("     ");
            assert(s@ =~= rts_dump_chars());
        }
        s
    }
}

} // verus!
