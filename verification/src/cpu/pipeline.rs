//! Decoded instructions, and the rules by which they issue to the pipes.

use crate::isa::mips::{Capability, Requirement};
use crate::isa::mips::instruction::{
    Instruction, with_destination, with_function, with_immediate, with_jump, with_opcode,
    with_shift_amount, with_source, with_target,
};
use std::cmp::Ordering;
use vstd::prelude::*;

verus! {

/// The handlers: one for each thing that an instruction can do.
#[derive(Clone, Copy, Debug, PartialEq, Eq, Structural)]
pub enum EEAction {
    Nop,
    Add,
    Addi,
    Addiu,
    Addu,
    And,
    Andi,
    Daddu,
    Div,
    Divu,
    Movn,
    Mult,
    Or,
    Ori,
    Sll,
    Slt,
    Slti,
    Sltiu,
    Sltu,
    Sra,
    Srl,
    Subu,
    Beq,
    Beql,
    Bgez,
    Bgtz,
    Blez,
    Bltz,
    Bne,
    Bnel,
    BreakI,
    J,
    Jal,
    Jalr,
    Jr,
    Mfc0,
    Mtc0,
    Tlbwi,
    Tlbwr,
    Ixltg,
    Swc1,
    Lb,
    Lbu,
    Ld,
    Lhu,
    Lw,
    Lui,
    Mfhi,
    Mflo,
    Sb,
    Sw,
    Sd,
}

/// The second stages of the branches and jumps: what is done once the
/// instruction in the delay slot is about to run.
#[derive(Clone, Copy, Debug, PartialEq, Eq, Structural)]
pub enum BranchAction {
    /// A branch relative to the program counter.
    InnerBne,
    /// A likely branch: where it is not taken, the delay slot is skipped.
    InnerBnel,
    /// A jump within the current 256 MiB region.
    InnerJ,
    /// A jump to an address taken from a register.
    InnerJr,
}


/// What the second stage of a branch tells the instruction in its delay slot.
#[derive(Clone, Copy, Debug, PartialEq, Eq, Structural)]
pub struct BranchResult {
    /// The flags that are set, as a mask.
    pub bits: u8,
}

impl BranchResult {
    /// The instruction in the delay slot is skipped.
    pub const NULLIFIED: u8 = 0b0000_0001;

    /// The program counter was written: it is not advanced.
    pub const BRANCHED: u8 = 0b0000_0010;

    /// Every bit that names a flag.
    pub const ALL: u8 = 0b0000_0011;

    /// No flag.
    pub fn empty() -> (r: BranchResult)
        ensures
            r.bits == 0,
    {
        BranchResult { bits: 0 }
    }

    /// Every flag.
    pub fn all() -> (r: BranchResult)
        ensures
            r.bits == BranchResult::ALL,
    {
        BranchResult { bits: BranchResult::ALL }
    }

    /// The flags of `bits`, without the bits that name none.
    pub open spec fn spec_from_bits_truncate(bits: u8) -> BranchResult {
        BranchResult { bits: bits & BranchResult::ALL }
    }

    pub fn from_bits_truncate(bits: u8) -> (r: BranchResult)
        ensures
            r == BranchResult::spec_from_bits_truncate(bits),
    {
        BranchResult { bits: bits & BranchResult::ALL }
    }

    pub fn bits(&self) -> (r: u8)
        ensures
            r == self.bits,
    {
        self.bits
    }

    /// Whether every bit of `flags` is set.
    pub open spec fn spec_contains(self, flags: u8) -> bool {
        self.bits & flags == flags
    }

    pub fn contains(&self, flags: u8) -> (r: bool)
        ensures
            r == self.spec_contains(flags),
    {
        self.bits & flags == flags
    }

    /// With the flags of `flags` set; bits that name no flag are left out.
    pub open spec fn spec_insert(self, flags: u8) -> BranchResult {
        BranchResult { bits: self.bits | (flags & BranchResult::ALL) }
    }

    pub fn insert(&mut self, flags: u8)
        ensures
            *final(self) == old(self).spec_insert(flags),
    {
        self.bits = self.bits | (flags & BranchResult::ALL);
    }

    /// With the flags of `flags` cleared.
    pub open spec fn spec_remove(self, flags: u8) -> BranchResult {
        BranchResult { bits: self.bits & !flags }
    }

    pub fn remove(&mut self, flags: u8)
        ensures
            *final(self) == old(self).spec_remove(flags),
    {
        self.bits = self.bits & !flags;
    }
}

impl Default for BranchResult {
    fn default() -> (r: Self)
        ensures
            r.bits == 0,
    {
        BranchResult { bits: 0 }
    }
}

/// A decoded instruction: the word, what it does, how long it takes, and
/// what it needs in order to issue.
#[derive(Clone, Copy, Debug)]
pub struct OpCode {
    pub raw: u32,
    pub action: EEAction,
    pub delay: u8,
    pub requirements: Requirement<Capability>,
}

/// An instruction paired with the time at which its effect is due. Two of
/// them are equal, and are ordered, by their times alone.
#[derive(Clone, Copy, Debug)]
pub struct LiveAction {
    pub time: u64,
    pub action: OpCode,
}

impl PartialEq for LiveAction {
    fn eq(&self, other: &Self) -> (r: bool) {
        self.time == other.time
    }
}

impl vstd::std_specs::cmp::PartialEqSpecImpl for LiveAction {
    open spec fn obeys_eq_spec() -> bool {
        true
    }

    open spec fn eq_spec(&self, other: &Self) -> bool {
        self.time == other.time
    }
}

impl Eq for LiveAction {

}

impl PartialOrd for LiveAction {
    fn partial_cmp(&self, other: &Self) -> (r: Option<Ordering>) {
        if self.time < other.time {
            Some(Ordering::Less)
        } else if self.time == other.time {
            Some(Ordering::Equal)
        } else {
            Some(Ordering::Greater)
        }
    }
}

impl vstd::std_specs::cmp::PartialOrdSpecImpl for LiveAction {
    open spec fn obeys_partial_cmp_spec() -> bool {
        true
    }

    open spec fn partial_cmp_spec(&self, other: &Self) -> Option<Ordering> {
        if self.time < other.time {
            Some(Ordering::Less)
        } else if self.time == other.time {
            Some(Ordering::Equal)
        } else {
            Some(Ordering::Greater)
        }
    }
}

impl OpCode {
    /// The instruction with the time at which its effect is due, if it
    /// issues at `time`: `delay` cycles later, the cycle of issue counted
    /// in.
    pub fn make_live(self, time: u64) -> (r: LiveAction)
        requires
            1 <= time + self.delay <= u64::MAX,
        ensures
            r.time == time + self.delay - 1,
            r.action == self,
    {
        LiveAction { time: time + self.delay as u64 - 1, action: self }
    }

    /// Whether the instruction takes more than one cycle.
    #[inline]
    pub fn needs_queue(&self) -> (r: bool)
        ensures
            r == (self.delay != 1),
    {
        self.delay != 1
    }

    /// The slot that the instruction can issue to on a processor whose free
    /// registers and pipes are `cpu_cap`.
    #[inline]
    pub fn pipeline_fits(&self, cpu_cap: &Capability) -> (r: Slot)
        ensures
            r == self.requirements.spec_pipeline_fits(*cpu_cap),
    {
        self.requirements.pipeline_fits(cpu_cap)
    }

    /// The instruction that does nothing and needs nothing.
    pub open spec fn spec_default() -> OpCode {
        OpCode {
            raw: 0,
            action: EEAction::Nop,
            delay: 0,
            requirements: Requirement::Joint(Capability { write: 0, read: 0 }),
        }
    }
}

impl Default for OpCode {
    fn default() -> (r: Self)
        ensures
            r == OpCode::spec_default(),
    {
        Self {
            raw: 0,
            action: EEAction::Nop,
            delay: 0,
            requirements: Requirement::Joint(Capability { write: 0, read: 0 }),
        }
    }
}

/// The fields of the word that the instruction was decoded from. A setter
/// changes the word and nothing else: the instruction is not decoded again.
impl Instruction for OpCode {
    open spec fn word(&self) -> u32 {
        self.raw
    }

    #[inline]
    fn get_opcode(&self) -> (r: u8) {
        self.raw.get_opcode()
    }

    #[inline]
    fn ri_get_source(&self) -> (r: u8) {
        self.raw.ri_get_source()
    }

    #[inline]
    fn ri_get_target(&self) -> (r: u8) {
        self.raw.ri_get_target()
    }

    #[inline]
    fn r_get_destination(&self) -> (r: u8) {
        self.raw.r_get_destination()
    }

    #[inline]
    fn r_get_shift_amount(&self) -> (r: u8) {
        self.raw.r_get_shift_amount()
    }

    #[inline]
    fn r_get_function(&self) -> (r: u8) {
        self.raw.r_get_function()
    }

    #[inline]
    fn i_get_immediate(&self) -> (r: u16) {
        self.raw.i_get_immediate()
    }

    #[inline]
    fn i_get_immediate_signed(&self) -> (r: i16) {
        self.raw.i_get_immediate_signed()
    }

    #[inline]
    fn j_get_jump(&self) -> (r: u32) {
        self.raw.j_get_jump()
    }

    #[inline]
    fn set_opcode(&mut self, v: u8)
        ensures
            *final(self) == (OpCode { raw: with_opcode(old(self).raw, v), ..*old(self) }),
    {
        self.raw.set_opcode(v);
    }

    #[inline]
    fn ri_set_source(&mut self, v: u8)
        ensures
            *final(self) == (OpCode { raw: with_source(old(self).raw, v), ..*old(self) }),
    {
        self.raw.ri_set_source(v);
    }

    #[inline]
    fn ri_set_target(&mut self, v: u8)
        ensures
            *final(self) == (OpCode { raw: with_target(old(self).raw, v), ..*old(self) }),
    {
        self.raw.ri_set_target(v);
    }

    #[inline]
    fn r_set_destination(&mut self, v: u8)
        ensures
            *final(self) == (OpCode { raw: with_destination(old(self).raw, v), ..*old(self) }),
    {
        self.raw.r_set_destination(v);
    }

    #[inline]
    fn r_set_shift_amount(&mut self, v: u8)
        ensures
            *final(self) == (OpCode { raw: with_shift_amount(old(self).raw, v), ..*old(self) }),
    {
        self.raw.r_set_shift_amount(v);
    }

    #[inline]
    fn r_set_function(&mut self, v: u8)
        ensures
            *final(self) == (OpCode { raw: with_function(old(self).raw, v), ..*old(self) }),
    {
        self.raw.r_set_function(v);
    }

    #[inline]
    fn i_set_immediate(&mut self, v: u16)
        ensures
            *final(self) == (OpCode { raw: with_immediate(old(self).raw, v), ..*old(self) }),
    {
        self.raw.i_set_immediate(v);
    }

    #[inline]
    fn j_set_jump(&mut self, v: u32)
        ensures
            *final(self) == (OpCode { raw: with_jump(old(self).raw, v), ..*old(self) }),
    {
        self.raw.j_set_jump(v);
    }
}

/// The second half of a branch instruction: the word, the second stage, and
/// what the first stage left for it: whether the branch is taken, or where
/// the jump goes.
#[derive(Clone, Copy, Debug, PartialEq, Eq, Structural)]
pub struct BranchOpCode {
    pub raw: u32,
    pub action: BranchAction,
    pub temp: u32,
}

impl BranchOpCode {
    pub fn new(basis: &OpCode, action: BranchAction, temp: u32) -> (r: Self)
        ensures
            r == (BranchOpCode { raw: basis.raw, action, temp }),
    {
        Self { raw: basis.raw, action, temp }
    }
}

/// The fields of the word of the branch.
impl Instruction for BranchOpCode {
    open spec fn word(&self) -> u32 {
        self.raw
    }

    #[inline]
    fn get_opcode(&self) -> (r: u8) {
        self.raw.get_opcode()
    }

    #[inline]
    fn ri_get_source(&self) -> (r: u8) {
        self.raw.ri_get_source()
    }

    #[inline]
    fn ri_get_target(&self) -> (r: u8) {
        self.raw.ri_get_target()
    }

    #[inline]
    fn r_get_destination(&self) -> (r: u8) {
        self.raw.r_get_destination()
    }

    #[inline]
    fn r_get_shift_amount(&self) -> (r: u8) {
        self.raw.r_get_shift_amount()
    }

    #[inline]
    fn r_get_function(&self) -> (r: u8) {
        self.raw.r_get_function()
    }

    #[inline]
    fn i_get_immediate(&self) -> (r: u16) {
        self.raw.i_get_immediate()
    }

    #[inline]
    fn i_get_immediate_signed(&self) -> (r: i16) {
        self.raw.i_get_immediate_signed()
    }

    #[inline]
    fn j_get_jump(&self) -> (r: u32) {
        self.raw.j_get_jump()
    }

    #[inline]
    fn set_opcode(&mut self, v: u8)
        ensures
            *final(self) == (BranchOpCode { raw: with_opcode(old(self).raw, v), ..*old(self) }),
    {
        self.raw.set_opcode(v);
    }

    #[inline]
    fn ri_set_source(&mut self, v: u8)
        ensures
            *final(self) == (BranchOpCode { raw: with_source(old(self).raw, v), ..*old(self) }),
    {
        self.raw.ri_set_source(v);
    }

    #[inline]
    fn ri_set_target(&mut self, v: u8)
        ensures
            *final(self) == (BranchOpCode { raw: with_target(old(self).raw, v), ..*old(self) }),
    {
        self.raw.ri_set_target(v);
    }

    #[inline]
    fn r_set_destination(&mut self, v: u8)
        ensures
            *final(self) == (BranchOpCode { raw: with_destination(old(self).raw, v), ..*old(self) }),
    {
        self.raw.r_set_destination(v);
    }

    #[inline]
    fn r_set_shift_amount(&mut self, v: u8)
        ensures
            *final(self) == (BranchOpCode {
                raw: with_shift_amount(old(self).raw, v),
                ..*old(self)
            }),
    {
        self.raw.r_set_shift_amount(v);
    }

    #[inline]
    fn r_set_function(&mut self, v: u8)
        ensures
            *final(self) == (BranchOpCode { raw: with_function(old(self).raw, v), ..*old(self) }),
    {
        self.raw.r_set_function(v);
    }

    #[inline]
    fn i_set_immediate(&mut self, v: u16)
        ensures
            *final(self) == (BranchOpCode { raw: with_immediate(old(self).raw, v), ..*old(self) }),
    {
        self.raw.i_set_immediate(v);
    }

    #[inline]
    fn j_set_jump(&mut self, v: u32)
        ensures
            *final(self) == (BranchOpCode { raw: with_jump(old(self).raw, v), ..*old(self) }),
    {
        self.raw.j_set_jump(v);
    }
}


/// The physical pipes, and the sets of them that the classes of
/// instructions take. A set is taken as a whole.
#[derive(Clone, Copy, Debug, PartialEq, Eq, Structural)]
pub struct Pipe {
    /// The flags that are set, as a mask.
    pub bits: u64,
}

impl Pipe {
    /// The physical pipe Integer 0.
    pub const I0: u64 = 0b00_0001;

    /// The physical pipe Integer 1.
    pub const I1: u64 = 0b00_0010;

    /// The physical load and store pipe.
    pub const LS: u64 = 0b00_0100;

    /// The physical branch pipe.
    pub const BR: u64 = 0b00_1000;

    /// The physical COP1 pipe.
    pub const C1: u64 = 0b01_0000;

    /// The physical COP2 pipe.
    pub const C2: u64 = 0b10_0000;

    /// Multimedia instructions: both integer pipes.
    pub const WIDE_OPERATE: u64 = 0b00_0011;

    /// Most COP1 instructions.
    pub const COP1_OPERATE: u64 = 0b01_0001;

    /// Moves, loads and stores of COP1.
    pub const COP1_MOVE: u64 = 0b01_0100;

    /// The operations of COP2.
    pub const COP2_OPERATE: u64 = 0b10_0001;

    /// Moves, loads and stores of COP2.
    pub const COP2_MOVE: u64 = 0b10_0100;

    /// The pipes that the first instruction slot of a dual issue can use.
    pub const LOGICAL0: u64 = 0b11_1001;

    /// The pipes that the second instruction slot of a dual issue can use.
    pub const LOGICAL1: u64 = 0b11_1110;

    /// Every bit that names a flag.
    pub const ALL: u64 = 0b11_1111;

    /// No flag.
    pub fn empty() -> (r: Pipe)
        ensures
            r.bits == 0,
    {
        Pipe { bits: 0 }
    }

    /// Every flag.
    pub fn all() -> (r: Pipe)
        ensures
            r.bits == Pipe::ALL,
    {
        Pipe { bits: Pipe::ALL }
    }

    /// The flags of `bits`, without the bits that name none.
    pub open spec fn spec_from_bits_truncate(bits: u64) -> Pipe {
        Pipe { bits: bits & Pipe::ALL }
    }

    pub fn from_bits_truncate(bits: u64) -> (r: Pipe)
        ensures
            r == Pipe::spec_from_bits_truncate(bits),
    {
        Pipe { bits: bits & Pipe::ALL }
    }

    pub fn bits(&self) -> (r: u64)
        ensures
            r == self.bits,
    {
        self.bits
    }

    /// Whether every bit of `flags` is set.
    pub open spec fn spec_contains(self, flags: u64) -> bool {
        self.bits & flags == flags
    }

    pub fn contains(&self, flags: u64) -> (r: bool)
        ensures
            r == self.spec_contains(flags),
    {
        self.bits & flags == flags
    }

    /// With the flags of `flags` set; bits that name no flag are left out.
    pub open spec fn spec_insert(self, flags: u64) -> Pipe {
        Pipe { bits: self.bits | (flags & Pipe::ALL) }
    }

    pub fn insert(&mut self, flags: u64)
        ensures
            *final(self) == old(self).spec_insert(flags),
    {
        self.bits = self.bits | (flags & Pipe::ALL);
    }

    /// With the flags of `flags` cleared.
    pub open spec fn spec_remove(self, flags: u64) -> Pipe {
        Pipe { bits: self.bits & !flags }
    }

    pub fn remove(&mut self, flags: u64)
        ensures
            *final(self) == old(self).spec_remove(flags),
    {
        self.bits = self.bits & !flags;
    }
}

impl Default for Pipe {
    fn default() -> (r: Self)
        ensures
            r.bits == 0,
    {
        Pipe { bits: 0 }
    }
}

impl Requirement<Pipe> {
    /// The requirement with the registers of `register_list` and, in the bits
    /// above them, the pipes of each alternative.
    pub open spec fn spec_fuse_registers(self, register_list: Capability) -> Requirement<Capability> {
        match self {
            Requirement::Joint(a) => Requirement::Joint(
                Capability {
                    write: register_list.write | (a.bits << Capability::PIPELINE_SHIFT),
                    ..register_list
                },
            ),
            Requirement::Disjoint(a, b) => Requirement::Disjoint(
                Capability {
                    write: register_list.write | (a.bits << Capability::PIPELINE_SHIFT),
                    ..register_list
                },
                Capability {
                    write: register_list.write | (b.bits << Capability::PIPELINE_SHIFT),
                    ..register_list
                },
            ),
        }
    }

    pub fn fuse_registers(self, register_list: Capability) -> (r: Requirement<Capability>)
        ensures
            r == self.spec_fuse_registers(register_list),
    {
        let mut register_list = register_list;
        match self {
            Requirement::Joint(a) => {
                let pipes = a.bits();
                register_list.write = register_list.write | (pipes << Capability::PIPELINE_SHIFT);

                Requirement::Joint(register_list)
            },
            Requirement::Disjoint(a, b) => {
                let pipes = a.bits();
                let alt_pipes = b.bits();
                let mut alt_list = register_list;

                register_list.write = register_list.write | (pipes << Capability::PIPELINE_SHIFT);
                alt_list.write = alt_list.write | (alt_pipes << Capability::PIPELINE_SHIFT);

                Requirement::Disjoint(register_list, alt_list)
            },
        }
    }
}

/// The slot for an instruction that needs `instr` on a processor that has
/// `cpu` free. Where a register or a pipe that it needs is taken, there is
/// none. Else its pipes decide: the slot whose pipes hold them all, either
/// slot where both do, and both slots together where neither does.
pub open spec fn capability_fits(cpu: Capability, instr: Capability) -> Slot {
    let pipes = instr.write >> Capability::PIPELINE_SHIFT;
    let fits_in_0 = (pipes & Pipe::LOGICAL0) == pipes;
    let fits_in_1 = (pipes & Pipe::LOGICAL1) == pipes;
    if cpu.read & instr.read != instr.read || cpu.write & instr.write != instr.write {
        Slot::Neither
    } else if fits_in_0 && fits_in_1 {
        Slot::Either
    } else if fits_in_0 {
        Slot::Pipe0
    } else if fits_in_1 {
        Slot::Pipe1
    } else {
        Slot::Both
    }
}

impl Requirement<Capability> {
    /// The slot that the requirement can issue to: that of its one
    /// alternative, or the better of the two.
    pub open spec fn spec_pipeline_fits(self, cpu_cap: Capability) -> Slot {
        match self {
            Requirement::Joint(a) => capability_fits(cpu_cap, a),
            Requirement::Disjoint(a, b) => capability_fits(cpu_cap, a).spec_combine(
                capability_fits(cpu_cap, b),
            ),
        }
    }

    #[inline]
    pub fn pipeline_fits(&self, cpu_cap: &Capability) -> (r: Slot)
        ensures
            r == self.spec_pipeline_fits(*cpu_cap),
    {
        match self {
            Requirement::Joint(a) => pipeline_capability_fits(cpu_cap, a),
            Requirement::Disjoint(a, b) => {
                let s1 = pipeline_capability_fits(cpu_cap, a);
                let s2 = pipeline_capability_fits(cpu_cap, b);

                s1.combine(s2)
            },
        }
    }
}

fn pipeline_capability_fits(cpu: &Capability, instr: &Capability) -> (r: Slot)
    ensures
        r == capability_fits(*cpu, *instr),
{
    let read_mask = cpu.read & instr.read;
    let write_mask = cpu.write & instr.write;

    let valid = read_mask == instr.read && write_mask == instr.write;

    if valid {
        let pipes = write_mask >> Capability::PIPELINE_SHIFT;
        let fits_in_0 = (pipes & Pipe::LOGICAL0) == pipes;
        let fits_in_1 = (pipes & Pipe::LOGICAL1) == pipes;

        if fits_in_0 {
            if fits_in_1 {
                Slot::Either
            } else {
                Slot::Pipe0
            }
        } else if fits_in_1 {
            Slot::Pipe1
        } else {
            Slot::Both
        }
    } else {
        Slot::Neither
    }
}

/// Where an instruction can issue.
#[derive(Clone, Copy, Debug, Eq, PartialEq, Structural)]
pub enum Slot {
    /// Nowhere.
    Neither,
    /// In the first slot only.
    Pipe0,
    /// In the second slot only.
    Pipe1,
    /// In either slot.
    Either,
    /// Only in both slots at once.
    Both,
}

impl Slot {
    /// How much freedom a slot leaves: either slot is worth more than a
    /// single one, a single one more than both at once, and that more than
    /// none.
    pub open spec fn rank(self) -> nat {
        match self {
            Slot::Neither => 0,
            Slot::Both => 1,
            Slot::Pipe0 => 2,
            Slot::Pipe1 => 2,
            Slot::Either => 3,
        }
    }

    /// The slot of a requirement whose two alternatives have these slots:
    /// either slot where each fits one of the two single slots, else the
    /// better of the two, and the first where they are worth the same.
    pub open spec fn spec_combine(self, other: Slot) -> Slot {
        if (self == Slot::Pipe0 && other == Slot::Pipe1) || (self == Slot::Pipe1 && other
            == Slot::Pipe0) {
            Slot::Either
        } else if other.rank() > self.rank() {
            other
        } else {
            self
        }
    }

    pub fn combine(self, other: Self) -> (r: Slot)
        ensures
            r == self.spec_combine(other),
    {
        match (self, other) {
            (Slot::Pipe0, Slot::Pipe1) | (Slot::Pipe1, Slot::Pipe0) => Slot::Either,
            (Slot::Neither, a) => a,
            (a, Slot::Neither) => a,
            (Slot::Either, _) => Slot::Either,
            (_, Slot::Either) => Slot::Either,
            (Slot::Both, a) => a,
            (a, _) => a,
        }
    }
}

/// The registers among the bits of a mask.
pub open spec fn registers_of(mask: u64) -> u64 {
    mask & Capability::REGISTER_MASK
}

/// Whether two instructions whose slots are `first` and `second` can issue
/// together: each to a slot of its own.
pub open spec fn slots_admit(first: Slot, second: Slot) -> bool {
    ||| (first == Slot::Pipe0 && second == Slot::Pipe1)
    ||| (first == Slot::Pipe1 && second == Slot::Pipe0)
    ||| (first == Slot::Either && second == Slot::Either)
    ||| (first == Slot::Either && (second == Slot::Pipe0 || second == Slot::Pipe1))
    ||| ((first == Slot::Pipe0 || first == Slot::Pipe1) && second == Slot::Either)
}

/// Whether the second instruction depends on the first: it reads a register
/// that the first writes, or writes one that the first writes.
pub open spec fn register_hazard(first: Capability, second: Capability) -> bool {
    (registers_of(first.write) & second.read) != 0 || (registers_of(first.write) & registers_of(
        second.write,
    )) != 0
}

/// Whether `second` can issue in the same cycle as `first`, which comes
/// before it, on a processor that has `cpu_cap` free: their slots admit it
/// and no register hazard stands between them.
pub open spec fn admits_second(first: OpCode, second: OpCode, cpu_cap: Capability) -> bool {
    slots_admit(
        first.requirements.spec_pipeline_fits(cpu_cap),
        second.requirements.spec_pipeline_fits(cpu_cap),
    ) && !register_hazard(first.requirements.spec_first(), second.requirements.spec_first())
}

/// The registers written in a cycle that fetched `first` and `second`: those
/// of both where the second was admitted, those of the first alone where it
/// was not.
pub open spec fn issued_write_set(first: OpCode, second: OpCode, admitted: bool) -> u64 {
    if admitted {
        registers_of(first.requirements.spec_first().write) | registers_of(
            second.requirements.spec_first().write,
        )
    } else {
        registers_of(first.requirements.spec_first().write)
    }
}

/// Decides whether `second` issues in the same cycle as `first`.
pub fn can_dual_issue(first: &OpCode, second: &OpCode, cpu_cap: &Capability) -> (r: bool)
    ensures
        r == admits_second(*first, *second, *cpu_cap),
{
    let s1 = first.pipeline_fits(cpu_cap);
    let s2 = second.pipeline_fits(cpu_cap);
    let slots = match (s1, s2) {
        (Slot::Pipe0, Slot::Pipe1) | (Slot::Pipe1, Slot::Pipe0) => true,
        (Slot::Either, Slot::Either) => true,
        (Slot::Either, Slot::Pipe0) | (Slot::Either, Slot::Pipe1) => true,
        (Slot::Pipe0, Slot::Either) | (Slot::Pipe1, Slot::Either) => true,
        _ => false,
    };
    let w1 = first.requirements.first().write & Capability::REGISTER_MASK;
    let w2 = second.requirements.first().write & Capability::REGISTER_MASK;
    let r2 = second.requirements.first().read;
    slots && (w1 & r2) == 0 && (w1 & w2) == 0
}

} // verus!
