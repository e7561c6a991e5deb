//! The conditional branch instructions.
//!
//! A branch advances the program counter past its two instruction bytes
//! first; only then, if its condition holds, is the signed 8-bit offset
//! applied.  A branch costs two cycles, one more if taken, and one more
//! again if the taken branch crosses a page boundary.

use vstd::prelude::*;
use vstd::string::StringExecFns;
use vstd::wrapping::u16_specs;
use crate::cpu::Cpu;
use crate::opcode::is_on_different_pages;
use crate::text::hex2;
use crate::text::hex2_chars;
use crate::text::hex4;
use crate::text::hex4_chars;

verus! {

/// The address a branch lands on when taken: the program counter past both
/// instruction bytes, plus the signed offset, wrapping around the address
/// space.
pub open spec fn branch_target(pc: u16, offset: u8) -> u16 {
    u16_specs::wrapping_add_signed(u16_specs::wrapping_add(pc, 2), offset as i8 as i16)
}

/// The cycle cost of one branch instruction.
pub open spec fn branch_cost(pc: u16, offset: u8, taken: bool) -> u64 {
    if taken {
        if u16_specs::wrapping_add(pc, 2) / 256 != branch_target(pc, offset) / 256 {
            4u64
        } else {
            3u64
        }
    } else {
        2u64
    }
}

/// How one executed branch relates the next processor state to the current
/// one: only the program counter and the cycle counter move.
pub open spec fn branch_applies(pre: Cpu, post: Cpu, offset: u8, taken: bool) -> bool {
    &&& post.program_counter == (if taken {
        branch_target(pre.program_counter, offset)
    } else {
        u16_specs::wrapping_add(pre.program_counter, 2)
    })
    &&& post.cycles == pre.cycles + branch_cost(pre.program_counter, offset, taken)
    &&& post.a == pre.a
    &&& post.x == pre.x
    &&& post.y == pre.y
    &&& post.status == pre.status
    &&& post.stack == pre.stack
    &&& post.memory@ == pre.memory@
}

/// The dump line of a branch instruction: opcode byte, offset byte, the
/// mnemonic, and the branch target as an absolute address.
pub open spec fn branch_dump_chars(opcode: u8, mnemonic: Seq<char>, offset: u8, pc: u16) -> Seq<
    char,
> {
    hex2_chars(opcode) + seq![' '] + hex2_chars(offset) + seq![' ', ' ', ' ', ' ', ' ']
        + mnemonic + seq![' ', '$'] + hex4_chars(branch_target(pc, offset)) + seq![' ', ' ', ' ']
}

/// The offset byte that follows the branch opcode in memory.
fn fetch_offset(cpu: &Cpu) -> (r: u8)
    requires
        cpu.wf(),
    ensures
        r == cpu.memory@[u16_specs::wrapping_add(cpu.program_counter, 1) as int],
{
    cpu.memory.read(cpu.program_counter.wrapping_add(1))
}

/// Advance the program counter and the cycle counter as one branch
/// instruction demands.
fn take_branch(cpu: &mut Cpu, offset: u8, taken: bool)
    requires
        old(cpu).cycles + 4 <= u64::MAX,
    ensures
        final(cpu).program_counter == (if taken {
            branch_target(old(cpu).program_counter, offset)
        } else {
            u16_specs::wrapping_add(old(cpu).program_counter, 2)
        }),
        final(cpu).cycles == old(cpu).cycles + branch_cost(old(cpu).program_counter, offset, taken),
        final(cpu).a == old(cpu).a,
        final(cpu).x == old(cpu).x,
        final(cpu).y == old(cpu).y,
        final(cpu).status == old(cpu).status,
        final(cpu).stack == old(cpu).stack,
        final(cpu).memory == old(cpu).memory,
{
    cpu.program_counter = cpu.program_counter.wrapping_add(2);
    cpu.cycles = cpu.cycles + 2;
    if taken {
        let target = cpu.program_counter.wrapping_add_signed((offset as i8) as i16);
        if is_on_different_pages(cpu.program_counter, target) {
            cpu.cycles = cpu.cycles + 2;
        } else {
            cpu.cycles = cpu.cycles + 1;
        }
        cpu.program_counter = target;
    }
}

/// Render the dump line of a branch instruction.
fn render_branch_dump(opcode: u8, mnemonic: &str, offset: u8, cpu: &Cpu) -> (r: String)
    ensures
        r@ == branch_dump_chars(opcode, mnemonic@, offset, cpu.program_counter),
{
    let target = cpu.program_counter.wrapping_add(2).wrapping_add_signed((offset as i8) as i16);
    let mut s = hex2(opcode);
    s.append(" ");
    let off = hex2(offset);
    s.append(off.as_str());
    s.append("     ");
    s.append(mnemonic);
    s.append(" $");
    let tgt = hex4(target);
    s.append(tgt.as_str());
    s.append("   ");
    proof {
        reveal_strlit(" ");
        reveal_strlit("     ");
        reveal_strlit(" $");
        reveal_strlit("   ");
        assert(s@ =~= branch_dump_chars(opcode, mnemonic@, offset, cpu.program_counter));
    }
    s
}

/// Branch if the carry flag is set.
#[derive(Clone, Copy, Debug, PartialEq, Eq, Structural)]
pub struct Bcs {
    /// Signed offset applied when the branch is taken.
    pub relative_value: u8,
}

impl Bcs {
    /// The opcode byte of this instruction.
    pub const OPCODE: u8 = 0xB0;

    /// Decode the branch: read the offset byte that follows the opcode.
    pub fn new(cpu: &Cpu) -> (r: Bcs)
        requires
            cpu.wf(),
        ensures
            r.relative_value == cpu.memory@[u16_specs::wrapping_add(cpu.program_counter, 1) as int],
    {
        Bcs { relative_value: fetch_offset(cpu) }
    }

    /// Take the branch exactly when the carry flag is set.
    pub fn execute(&self, cpu: &mut Cpu)
        requires
            old(cpu).wf(),
            old(cpu).cycles + 4 <= u64::MAX,
        ensures
            final(cpu).wf(),
            branch_applies(*old(cpu), *final(cpu), self.relative_value, old(cpu).status.carry),
    {
        let taken = cpu.status.carry;
        take_branch(cpu, self.relative_value, taken);
    }

    /// The dump line of this instruction.
    pub fn dump(&self, cpu: &Cpu) -> (r: String)
        ensures
            r@ == branch_dump_chars(
                Self::OPCODE,
                seq!['B', 'C', 'S'],
                self.relative_value,
                cpu.program_counter,
            ),
    {
        proof {
            reveal_strlit("BCS");
            assert("BCS"@ =~= seq!['B', 'C', 'S']);
        }
        render_branch_dump(Self::OPCODE, "BCS", self.relative_value, cpu)
    }
}

/// Branch if the carry flag is clear.
#[derive(Clone, Copy, Debug, PartialEq, Eq, Structural)]
pub struct Bcc {
    /// Signed offset applied when the branch is taken.
    pub relative_value: u8,
}

impl Bcc {
    /// The opcode byte of this instruction.
    pub const OPCODE: u8 = 0x90;

    /// Decode the branch: read the offset byte that follows the opcode.
    pub fn new(cpu: &Cpu) -> (r: Bcc)
        requires
            cpu.wf(),
        ensures
            r.relative_value == cpu.memory@[u16_specs::wrapping_add(cpu.program_counter, 1) as int],
    {
        Bcc { relative_value: fetch_offset(cpu) }
    }

    /// Take the branch exactly when the carry flag is clear.
    pub fn execute(&self, cpu: &mut Cpu)
        requires
            old(cpu).wf(),
            old(cpu).cycles + 4 <= u64::MAX,
        ensures
            final(cpu).wf(),
            branch_applies(*old(cpu), *final(cpu), self.relative_value, !old(cpu).status.carry),
    {
        let taken = !cpu.status.carry;
        take_branch(cpu, self.relative_value, taken);
    }

    /// The dump line of this instruction.
    pub fn dump(&self, cpu: &Cpu) -> (r: String)
        ensures
            r@ == branch_dump_chars(
                Self::OPCODE,
                seq!['B', 'C', 'C'],
                self.relative_value,
                cpu.program_counter,
            ),
    {
        proof {
            reveal_strlit("BCC");
            assert("BCC"@ =~= seq!['B', 'C', 'C']);
        }
        render_branch_dump(Self::OPCODE, "BCC", self.relative_value, cpu)
    }
}

/// Branch if the overflow flag is set.
#[derive(Clone, Copy, Debug, PartialEq, Eq, Structural)]
pub struct Bvs {
    /// Signed offset applied when the branch is taken.
    pub relative_value: u8,
}

impl Bvs {
    /// The opcode byte of this instruction.
    pub const OPCODE: u8 = 0x70;

    /// Decode the branch: read the offset byte that follows the opcode.
    pub fn new(cpu: &Cpu) -> (r: Bvs)
        requires
            cpu.wf(),
        ensures
            r.relative_value == cpu.memory@[u16_specs::wrapping_add(cpu.program_counter, 1) as int],
    {
        Bvs { relative_value: fetch_offset(cpu) }
    }

    /// Take the branch exactly when the overflow flag is set.
    pub fn execute(&self, cpu: &mut Cpu)
        requires
            old(cpu).wf(),
            old(cpu).cycles + 4 <= u64::MAX,
        ensures
            final(cpu).wf(),
            branch_applies(*old(cpu), *final(cpu), self.relative_value, old(cpu).status.overflow),
    {
        let taken = cpu.status.overflow;
        take_branch(cpu, self.relative_value, taken);
    }

    /// The dump line of this instruction.
    pub fn dump(&self, cpu: &Cpu) -> (r: String)
        ensures
            r@ == branch_dump_chars(
                Self::OPCODE,
                seq!['B', 'V', 'S'],
                self.relative_value,
                cpu.program_counter,
            ),
    {
        proof {
            reveal_strlit("BVS");
            assert("BVS"@ =~= seq!['B', 'V', 'S']);
        }
        render_branch_dump(Self::OPCODE, "BVS", self.relative_value, cpu)
    }
}

/// Branch if the overflow flag is clear.
#[derive(Clone, Copy, Debug, PartialEq, Eq, Structural)]
pub struct Bvc {
    /// Signed offset applied when the branch is taken.
    pub relative_value: u8,
}

impl Bvc {
    /// The opcode byte of this instruction.
    pub const OPCODE: u8 = 0x50;

    /// Decode the branch: read the offset byte that follows the opcode.
    pub fn new(cpu: &Cpu) -> (r: Bvc)
        requires
            cpu.wf(),
        ensures
            r.relative_value == cpu.memory@[u16_specs::wrapping_add(cpu.program_counter, 1) as int],
    {
        Bvc { relative_value: fetch_offset(cpu) }
    }

    /// Take the branch exactly when the overflow flag is clear.
    pub fn execute(&self, cpu: &mut Cpu)
        requires
            old(cpu).wf(),
            old(cpu).cycles + 4 <= u64::MAX,
        ensures
            final(cpu).wf(),
            branch_applies(*old(cpu), *final(cpu), self.relative_value, !old(cpu).status.overflow),
    {
        let taken = !cpu.status.overflow;
        take_branch(cpu, self.relative_value, taken);
    }

    /// The dump line of this instruction.
    pub fn dump(&self, cpu: &Cpu) -> (r: String)
        ensures
            r@ == branch_dump_chars(
                Self::OPCODE,
                seq!['B', 'V', 'C'],
                self.relative_value,
                cpu.program_counter,
            ),
    {
        proof {
            reveal_strlit("BVC");
            assert("BVC"@ =~= seq!['B', 'V', 'C']);
        }
        render_branch_dump(Self::OPCODE, "BVC", self.relative_value, cpu)
    }
}

/// Branch if the zero flag is set.
#[derive(Clone, Copy, Debug, PartialEq, Eq, Structural)]
pub struct Beq {
    /// Signed offset applied when the branch is taken.
    pub relative_value: u8,
}

impl Beq {
    /// The opcode byte of this instruction.
    pub const OPCODE: u8 = 0xF0;

    /// Decode the branch: read the offset byte that follows the opcode.
    pub fn new(cpu: &Cpu) -> (r: Beq)
        requires
            cpu.wf(),
        ensures
            r.relative_value == cpu.memory@[u16_specs::wrapping_add(cpu.program_counter, 1) as int],
    {
        Beq { relative_value: fetch_offset(cpu) }
    }

    /// Take the branch exactly when the zero flag is set.
    pub fn execute(&self, cpu: &mut Cpu)
        requires
            old(cpu).wf(),
            old(cpu).cycles + 4 <= u64::MAX,
        ensures
            final(cpu).wf(),
            branch_applies(*old(cpu), *final(cpu), self.relative_value, old(cpu).status.zero),
    {
        let taken = cpu.status.zero;
        take_branch(cpu, self.relative_value, taken);
    }

    /// The dump line of this instruction.
    pub fn dump(&self, cpu: &Cpu) -> (r: String)
        ensures
            r@ == branch_dump_chars(
                Self::OPCODE,
                seq!['B', 'E', 'Q'],
                self.relative_value,
                cpu.program_counter,
            ),
    {
        proof {
            reveal_strlit("BEQ");
            assert("BEQ"@ =~= seq!['B', 'E', 'Q']);
        }
        render_branch_dump(Self::OPCODE, "BEQ", self.relative_value, cpu)
    }
}

/// Branch if the zero flag is clear.
#[derive(Clone, Copy, Debug, PartialEq, Eq, Structural)]
pub struct Bne {
    /// Signed offset applied when the branch is taken.
    pub relative_value: u8,
}

impl Bne {
    /// The opcode byte of this instruction.
    pub const OPCODE: u8 = 0xD0;

    /// Decode the branch: read the offset byte that follows the opcode.
    pub fn new(cpu: &Cpu) -> (r: Bne)
        requires
            cpu.wf(),
        ensures
            r.relative_value == cpu.memory@[u16_specs::wrapping_add(cpu.program_counter, 1) as int],
    {
        Bne { relative_value: fetch_offset(cpu) }
    }

    /// Take the branch exactly when the zero flag is clear.
    pub fn execute(&self, cpu: &mut Cpu)
        requires
            old(cpu).wf(),
            old(cpu).cycles + 4 <= u64::MAX,
        ensures
            final(cpu).wf(),
            branch_applies(*old(cpu), *final(cpu), self.relative_value, !old(cpu).status.zero),
    {
        let taken = !cpu.status.zero;
        take_branch(cpu, self.relative_value, taken);
    }

    /// The dump line of this instruction.
    pub fn dump(&self, cpu: &Cpu) -> (r: String)
        ensures
            r@ == branch_dump_chars(
                Self::OPCODE,
                seq!['B', 'N', 'E'],
                self.relative_value,
                cpu.program_counter,
            ),
    {
        proof {
            reveal_strlit("BNE");
            assert("BNE"@ =~= seq!['B', 'N', 'E']);
        }
        render_branch_dump(Self::OPCODE, "BNE", self.relative_value, cpu)
    }
}

/// Branch if the negative flag is clear.
#[derive(Clone, Copy, Debug, PartialEq, Eq, Structural)]
pub struct Bpl {
    /// Signed offset applied when the branch is taken.
    pub relative_value: u8,
}

impl Bpl {
    /// The opcode byte of this instruction.
    pub const OPCODE: u8 = 0x10;

    /// Decode the branch: read the offset byte that follows the opcode.
    pub fn new(cpu: &Cpu) -> (r: Bpl)
        requires
            cpu.wf(),
        ensures
            r.relative_value == cpu.memory@[u16_specs::wrapping_add(cpu.program_counter, 1) as int],
    {
        Bpl { relative_value: fetch_offset(cpu) }
    }

    /// Take the branch exactly when the negative flag is clear.
    pub fn execute(&self, cpu: &mut Cpu)
        requires
            old(cpu).wf(),
            old(cpu).cycles + 4 <= u64::MAX,
        ensures
            final(cpu).wf(),
            branch_applies(*old(cpu), *final(cpu), self.relative_value, !old(cpu).status.negative),
    {
        let taken = !cpu.status.negative;
        take_branch(cpu, self.relative_value, taken);
    }

    /// The dump line of this instruction.
    pub fn dump(&self, cpu: &Cpu) -> (r: String)
        ensures
            r@ == branch_dump_chars(
                Self::OPCODE,
                seq!['B', 'P', 'L'],
                self.relative_value,
                cpu.program_counter,
            ),
    {
        proof {
            reveal_strlit("BPL");
            assert("BPL"@ =~= seq!['B', 'P', 'L']);
        }
        render_branch_dump(Self::OPCODE, "BPL", self.relative_value, cpu)
    }
}

/// Branch if the negative flag is set.
#[derive(Clone, Copy, Debug, PartialEq, Eq, Structural)]
pub struct Bmi {
    /// Signed offset applied when the branch is taken.
    pub relative_value: u8,
}

impl Bmi {
    /// The opcode byte of this instruction.
    pub const OPCODE: u8 = 0x30;

    /// Decode the branch: read the offset byte that follows the opcode.
    pub fn new(cpu: &Cpu) -> (r: Bmi)
        requires
            cpu.wf(),
        ensures
            r.relative_value == cpu.memory@[u16_specs::wrapping_add(cpu.program_counter, 1) as int],
    {
        Bmi { relative_value: fetch_offset(cpu) }
    }

    /// Take the branch exactly when the negative flag is set.
    pub fn execute(&self, cpu: &mut Cpu)
        requires
            old(cpu).wf(),
            old(cpu).cycles + 4 <= u64::MAX,
        ensures
            final(cpu).wf(),
            branch_applies(*old(cpu), *final(cpu), self.relative_value, old(cpu).status.negative),
    {
        let taken = cpu.status.negative;
        take_branch(cpu, self.relative_value, taken);
    }

    /// The dump line of this instruction.
    pub fn dump(&self, cpu: &Cpu) -> (r: String)
        ensures
            r@ == branch_dump_chars(
                Self::OPCODE,
                seq!['B', 'M', 'I'],
                self.relative_value,
                cpu.program_counter,
            ),
    {
        proof {
            reveal_strlit("BMI");
            assert("BMI"@ =~= seq!['B', 'M', 'I']);
        }
        render_branch_dump(Self::OPCODE, "BMI", self.relative_value, cpu)
    }
}

} // verus!
