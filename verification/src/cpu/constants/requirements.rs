//! The pipes that each class of instruction takes.

use crate::cpu::pipeline::Pipe;
use crate::isa::mips::Requirement;
use vstd::prelude::*;

verus! {

/// The classes of instructions, by the pipes they take.
#[derive(Clone, Copy, Debug, PartialEq, Eq, Structural)]
pub enum PipeClass {
    /// Loads and stores, prefetch, cache.
    Ls,
    /// Synchronisation.
    Sync,
    /// Leading-zero count.
    Lzc,
    /// Exception return.
    Eret,
    /// Moves to and from the SA register.
    Sa,
    /// Moves and operations of COP0.
    Cop0,
    /// Loads and stores of COP1.
    Cop1Move,
    /// Operations of COP1.
    Cop1Operate,
    /// Loads and stores of COP2.
    Cop2Move,
    /// Operations of COP2.
    Cop2Operate,
    /// Arithmetic, shift, logic, trap, syscall, break: either integer pipe.
    Alu,
    /// Multiply, multiply-accumulate and moves for HI and LO.
    Mac0,
    /// Multiply, multiply-accumulate and moves for HI1 and LO1.
    Mac1,
    /// Branches.
    Branch,
    /// Multimedia instructions.
    WideOperate,
}

impl PipeClass {
    /// The pipes of each class. Only the ALU class has a choice.
    pub open spec fn pipes(self) -> Requirement<Pipe> {
        match self {
            PipeClass::Ls => Requirement::Joint(Pipe { bits: Pipe::LS }),
            PipeClass::Sync => Requirement::Joint(Pipe { bits: Pipe::I1 }),
            PipeClass::Lzc => Requirement::Joint(Pipe { bits: Pipe::I1 }),
            PipeClass::Eret => Requirement::Joint(Pipe { bits: Pipe::I1 }),
            PipeClass::Sa => Requirement::Joint(Pipe { bits: Pipe::I0 }),
            PipeClass::Cop0 => Requirement::Joint(Pipe { bits: Pipe::LS }),
            PipeClass::Cop1Move => Requirement::Joint(Pipe { bits: Pipe::COP1_MOVE }),
            PipeClass::Cop1Operate => Requirement::Joint(Pipe { bits: Pipe::COP1_OPERATE }),
            PipeClass::Cop2Move => Requirement::Joint(Pipe { bits: Pipe::COP2_MOVE }),
            PipeClass::Cop2Operate => Requirement::Joint(Pipe { bits: Pipe::COP2_OPERATE }),
            PipeClass::Alu => Requirement::Disjoint(
                Pipe { bits: Pipe::I0 },
                Pipe { bits: Pipe::I1 },
            ),
            PipeClass::Mac0 => Requirement::Joint(Pipe { bits: Pipe::I0 }),
            PipeClass::Mac1 => Requirement::Joint(Pipe { bits: Pipe::I1 }),
            PipeClass::Branch => Requirement::Joint(Pipe { bits: Pipe::BR }),
            PipeClass::WideOperate => Requirement::Joint(Pipe { bits: Pipe::WIDE_OPERATE }),
        }
    }

    pub fn requirement(self) -> (r: Requirement<Pipe>)
        ensures
            r == self.pipes(),
    {
        match self {
            PipeClass::Ls => ls(),
            PipeClass::Sync => sync(),
            PipeClass::Lzc => lzc(),
            PipeClass::Eret => eret(),
            PipeClass::Sa => sa(),
            PipeClass::Cop0 => cop0(),
            PipeClass::Cop1Move => cop1_move(),
            PipeClass::Cop1Operate => cop1_operate(),
            PipeClass::Cop2Move => cop2_move(),
            PipeClass::Cop2Operate => cop2_operate(),
            PipeClass::Alu => alu(),
            PipeClass::Mac0 => mac0(),
            PipeClass::Mac1 => mac1(),
            PipeClass::Branch => branch(),
            PipeClass::WideOperate => wide_operate(),
        }
    }
}

/// Loads and stores, prefetch, cache.
pub fn ls() -> (r: Requirement<Pipe>)
    ensures
        r == PipeClass::Ls.pipes(),
{
    Requirement::Joint(Pipe { bits: Pipe::LS })
}

/// Synchronisation.
pub fn sync() -> (r: Requirement<Pipe>)
    ensures
        r == PipeClass::Sync.pipes(),
{
    Requirement::Joint(Pipe { bits: Pipe::I1 })
}

/// Leading-zero count.
pub fn lzc() -> (r: Requirement<Pipe>)
    ensures
        r == PipeClass::Lzc.pipes(),
{
    Requirement::Joint(Pipe { bits: Pipe::I1 })
}

/// Exception return.
pub fn eret() -> (r: Requirement<Pipe>)
    ensures
        r == PipeClass::Eret.pipes(),
{
    Requirement::Joint(Pipe { bits: Pipe::I1 })
}

/// Moves to and from the SA register.
pub fn sa() -> (r: Requirement<Pipe>)
    ensures
        r == PipeClass::Sa.pipes(),
{
    Requirement::Joint(Pipe { bits: Pipe::I0 })
}

/// Moves and operations of COP0.
pub fn cop0() -> (r: Requirement<Pipe>)
    ensures
        r == PipeClass::Cop0.pipes(),
{
    Requirement::Joint(Pipe { bits: Pipe::LS })
}

/// Loads and stores of COP1.
pub fn cop1_move() -> (r: Requirement<Pipe>)
    ensures
        r == PipeClass::Cop1Move.pipes(),
{
    Requirement::Joint(Pipe { bits: Pipe::COP1_MOVE })
}

/// Operations of COP1.
pub fn cop1_operate() -> (r: Requirement<Pipe>)
    ensures
        r == PipeClass::Cop1Operate.pipes(),
{
    Requirement::Joint(Pipe { bits: Pipe::COP1_OPERATE })
}

/// Loads and stores of COP2.
pub fn cop2_move() -> (r: Requirement<Pipe>)
    ensures
        r == PipeClass::Cop2Move.pipes(),
{
    Requirement::Joint(Pipe { bits: Pipe::COP2_MOVE })
}

/// Operations of COP2.
pub fn cop2_operate() -> (r: Requirement<Pipe>)
    ensures
        r == PipeClass::Cop2Operate.pipes(),
{
    Requirement::Joint(Pipe { bits: Pipe::COP2_OPERATE })
}

/// Arithmetic, shift, logic, trap, syscall, break: either integer pipe.
pub fn alu() -> (r: Requirement<Pipe>)
    ensures
        r == PipeClass::Alu.pipes(),
{
    Requirement::Disjoint(Pipe { bits: Pipe::I0 }, Pipe { bits: Pipe::I1 })
}

/// Multiply, multiply-accumulate and moves for HI and LO.
pub fn mac0() -> (r: Requirement<Pipe>)
    ensures
        r == PipeClass::Mac0.pipes(),
{
    Requirement::Joint(Pipe { bits: Pipe::I0 })
}

/// Multiply, multiply-accumulate and moves for HI1 and LO1.
pub fn mac1() -> (r: Requirement<Pipe>)
    ensures
        r == PipeClass::Mac1.pipes(),
{
    Requirement::Joint(Pipe { bits: Pipe::I1 })
}

/// Branches.
pub fn branch() -> (r: Requirement<Pipe>)
    ensures
        r == PipeClass::Branch.pipes(),
{
    Requirement::Joint(Pipe { bits: Pipe::BR })
}

/// Multimedia instructions.
pub fn wide_operate() -> (r: Requirement<Pipe>)
    ensures
        r == PipeClass::WideOperate.pipes(),
{
    Requirement::Joint(Pipe { bits: Pipe::WIDE_OPERATE })
}

} // verus!
