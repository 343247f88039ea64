//! What the Emotion Engine adds to the MIPS instruction set: the COP0, COP1
//! and cache operations.

use crate::cpu::cop0::Register;
use crate::isa::mips::instruction::{destination_of, function_of, Instruction, source_of, target_of};
use vstd::prelude::*;

verus! {

/// The operations of the `C0` family of COP0: bits 5..0 of the word.
#[derive(Clone, Copy, Debug, PartialEq, Eq, Structural)]
pub enum C0Function {
    TlbWI,
    TlbWR,
}

impl C0Function {
    /// The six bits that encode each operation.
    pub open spec fn code(self) -> u8 {
        match self {
            C0Function::TlbWI => 0b00_0010,
            C0Function::TlbWR => 0b00_0110,
        }
    }

    /// The variant that `v` stands for, if any.
    pub open spec fn spec_from_u8(v: u8) -> Option<C0Function> {
        if v == 0b00_0010 {
            Some(C0Function::TlbWI)
        } else if v == 0b00_0110 {
            Some(C0Function::TlbWR)
        } else {
            None
        }
    }

    pub fn to_u8(self) -> (r: u8)
        ensures
            r == self.code(),
    {
        match self {
            C0Function::TlbWI => 0b00_0010,
            C0Function::TlbWR => 0b00_0110,
        }
    }

    pub fn from_u8(v: u8) -> (r: Option<C0Function>)
        ensures
            r == C0Function::spec_from_u8(v),
            r matches Some(x) ==> x.code() == v,
    {
        if v == 0b00_0010 {
            Some(C0Function::TlbWI)
        } else if v == 0b00_0110 {
            Some(C0Function::TlbWR)
        } else {
            None
        }
    }

    /// Every variant is found again from its number.
    pub proof fn law_code_round_trip(self)
        ensures
            C0Function::spec_from_u8(self.code()) == Some(self),
    {
    }
}

impl C0Function {
    /// The operation that the function field of `instruction` names.
    pub open spec fn spec_decode(instruction: u32) -> Option<C0Function> {
        C0Function::spec_from_u8(function_of(instruction))
    }

    #[inline(always)]
    pub fn decode(instruction: u32) -> (r: Option<C0Function>)
        ensures
            r == C0Function::spec_decode(instruction),
    {
        let raw_func = instruction.r_get_function();
        C0Function::from_u8(raw_func)
    }
}

/// The operations under the `Cop0` opcode.
#[derive(Clone, Copy, Debug, PartialEq, Eq, Structural)]
pub enum Cop0Function {
    MFBPC,
    MFC0,
    MTBPC,
    MTC0,
    TlbWI,
    TlbWR,
}

/// The family of moves from COP0, in the source field.
pub const MF0: u8 = 0b0_0000;

/// The family of COP0 operations, in the source field.
pub const C0: u8 = 0b1_0000;

/// The family of branches on the COP0 condition, in the source field.
pub const BC0: u8 = 0b0_1000;

/// The family of moves to COP0, in the source field.
pub const MT0: u8 = 0b0_0100;

/// The low eleven bits, which a move to or from COP0 leaves zero.
pub const LAST_11: u32 = 0b0111_1111_1111;

impl Cop0Function {
    /// The operation that `instruction` names. The source field selects the
    /// family. A move is recognised where the low eleven bits are zero, and
    /// is a breakpoint move where its destination is the `Debug` register.
    /// The `C0` family goes by the function field. Branches on the COP0
    /// condition and every other family name nothing.
    pub open spec fn spec_decode(instruction: u32) -> Option<Cop0Function> {
        let family = source_of(instruction);
        if family == MF0 {
            if instruction & LAST_11 != 0 {
                None
            } else if destination_of(instruction) == Register::Debug.code() {
                Some(Cop0Function::MFBPC)
            } else {
                Some(Cop0Function::MFC0)
            }
        } else if family == C0 {
            match C0Function::spec_decode(instruction) {
                Some(C0Function::TlbWI) => Some(Cop0Function::TlbWI),
                Some(C0Function::TlbWR) => Some(Cop0Function::TlbWR),
                None => None,
            }
        } else if family == MT0 {
            if instruction & LAST_11 != 0 {
                None
            } else if destination_of(instruction) == Register::Debug.code() {
                Some(Cop0Function::MTBPC)
            } else {
                Some(Cop0Function::MTC0)
            }
        } else {
            None
        }
    }

    #[inline(always)]
    pub fn decode(instruction: u32) -> (r: Option<Cop0Function>)
        ensures
            r == Cop0Function::spec_decode(instruction),
    {
        let family = instruction.ri_get_source();
        if family == MF0 {
            if instruction & LAST_11 != 0 {
                None
            } else if instruction.r_get_destination() == Register::Debug.to_u8() {
                Some(Cop0Function::MFBPC)
            } else {
                Some(Cop0Function::MFC0)
            }
        } else if family == C0 {
            match C0Function::decode(instruction) {
                Some(C0Function::TlbWI) => Some(Cop0Function::TlbWI),
                Some(C0Function::TlbWR) => Some(Cop0Function::TlbWR),
                None => None,
            }
        } else if family == BC0 {
            None
        } else if family == MT0 {
            if instruction & LAST_11 != 0 {
                None
            } else if instruction.r_get_destination() == Register::Debug.to_u8() {
                Some(Cop0Function::MTBPC)
            } else {
                Some(Cop0Function::MTC0)
            }
        } else {
            None
        }
    }
}

/// The operations under the `Cop1` opcode. No instruction names one yet.
#[derive(Clone, Copy, Debug, PartialEq, Eq, Structural)]
pub enum Cop1Function {
    /// Kept for the encodings that are not assigned: `decode` never gives it.
    Reserved,
}

impl Cop1Function {
    #[inline(always)]
    pub fn decode(_instruction: u32) -> (r: Option<Cop1Function>)
        ensures
            r is None,
    {
        None
    }
}

/// The operations of the `Cache` opcode: bits 20..16 of the word.
#[derive(Clone, Copy, Debug, PartialEq, Eq, Structural)]
pub enum CacheFunction {
    BFH,
    BHINBT,
    BXLBT,
    BXSBT,
    DHIN,
    DHWBIN,
    DHWOIN,
    DXIN,
    DXLDT,
    DXLTG,
    DXSDT,
    DXSTG,
    DXWBIN,
    IFL,
    IHIN,
    IXIN,
    IXLDT,
    IXLTG,
    IXSDT,
    IXSTG,
}

impl CacheFunction {
    /// The five bits that encode each operation.
    pub open spec fn code(self) -> u8 {
        match self {
            CacheFunction::BFH => 0b0_1100,
            CacheFunction::BHINBT => 0b0_1010,
            CacheFunction::BXLBT => 0b0_0010,
            CacheFunction::BXSBT => 0b0_0110,
            CacheFunction::DHIN => 0b1_1010,
            CacheFunction::DHWBIN => 0b1_1000,
            CacheFunction::DHWOIN => 0b1_1100,
            CacheFunction::DXIN => 0b1_0110,
            CacheFunction::DXLDT => 0b1_0001,
            CacheFunction::DXLTG => 0b1_0000,
            CacheFunction::DXSDT => 0b1_0011,
            CacheFunction::DXSTG => 0b1_0010,
            CacheFunction::DXWBIN => 0b1_0100,
            CacheFunction::IFL => 0b0_1110,
            CacheFunction::IHIN => 0b0_1011,
            CacheFunction::IXIN => 0b0_0111,
            CacheFunction::IXLDT => 0b0_0001,
            CacheFunction::IXLTG => 0b0_0000,
            CacheFunction::IXSDT => 0b0_0101,
            CacheFunction::IXSTG => 0b0_0100,
        }
    }

    /// The variant that `v` stands for, if any.
    pub open spec fn spec_from_u8(v: u8) -> Option<CacheFunction> {
        if v == 0b0_1100 {
            Some(CacheFunction::BFH)
        } else if v == 0b0_1010 {
            Some(CacheFunction::BHINBT)
        } else if v == 0b0_0010 {
            Some(CacheFunction::BXLBT)
        } else if v == 0b0_0110 {
            Some(CacheFunction::BXSBT)
        } else if v == 0b1_1010 {
            Some(CacheFunction::DHIN)
        } else if v == 0b1_1000 {
            Some(CacheFunction::DHWBIN)
        } else if v == 0b1_1100 {
            Some(CacheFunction::DHWOIN)
        } else if v == 0b1_0110 {
            Some(CacheFunction::DXIN)
        } else if v == 0b1_0001 {
            Some(CacheFunction::DXLDT)
        } else if v == 0b1_0000 {
            Some(CacheFunction::DXLTG)
        } else if v == 0b1_0011 {
            Some(CacheFunction::DXSDT)
        } else if v == 0b1_0010 {
            Some(CacheFunction::DXSTG)
        } else if v == 0b1_0100 {
            Some(CacheFunction::DXWBIN)
        } else if v == 0b0_1110 {
            Some(CacheFunction::IFL)
        } else if v == 0b0_1011 {
            Some(CacheFunction::IHIN)
        } else if v == 0b0_0111 {
            Some(CacheFunction::IXIN)
        } else if v == 0b0_0001 {
            Some(CacheFunction::IXLDT)
        } else if v == 0b0_0000 {
            Some(CacheFunction::IXLTG)
        } else if v == 0b0_0101 {
            Some(CacheFunction::IXSDT)
        } else if v == 0b0_0100 {
            Some(CacheFunction::IXSTG)
        } else {
            None
        }
    }

    pub fn to_u8(self) -> (r: u8)
        ensures
            r == self.code(),
    {
        match self {
            CacheFunction::BFH => 0b0_1100,
            CacheFunction::BHINBT => 0b0_1010,
            CacheFunction::BXLBT => 0b0_0010,
            CacheFunction::BXSBT => 0b0_0110,
            CacheFunction::DHIN => 0b1_1010,
            CacheFunction::DHWBIN => 0b1_1000,
            CacheFunction::DHWOIN => 0b1_1100,
            CacheFunction::DXIN => 0b1_0110,
            CacheFunction::DXLDT => 0b1_0001,
            CacheFunction::DXLTG => 0b1_0000,
            CacheFunction::DXSDT => 0b1_0011,
            CacheFunction::DXSTG => 0b1_0010,
            CacheFunction::DXWBIN => 0b1_0100,
            CacheFunction::IFL => 0b0_1110,
            CacheFunction::IHIN => 0b0_1011,
            CacheFunction::IXIN => 0b0_0111,
            CacheFunction::IXLDT => 0b0_0001,
            CacheFunction::IXLTG => 0b0_0000,
            CacheFunction::IXSDT => 0b0_0101,
            CacheFunction::IXSTG => 0b0_0100,
        }
    }

    pub fn from_u8(v: u8) -> (r: Option<CacheFunction>)
        ensures
            r == CacheFunction::spec_from_u8(v),
            r matches Some(x) ==> x.code() == v,
    {
        if v == 0b0_1100 {
            Some(CacheFunction::BFH)
        } else if v == 0b0_1010 {
            Some(CacheFunction::BHINBT)
        } else if v == 0b0_0010 {
            Some(CacheFunction::BXLBT)
        } else if v == 0b0_0110 {
            Some(CacheFunction::BXSBT)
        } else if v == 0b1_1010 {
            Some(CacheFunction::DHIN)
        } else if v == 0b1_1000 {
            Some(CacheFunction::DHWBIN)
        } else if v == 0b1_1100 {
            Some(CacheFunction::DHWOIN)
        } else if v == 0b1_0110 {
            Some(CacheFunction::DXIN)
        } else if v == 0b1_0001 {
            Some(CacheFunction::DXLDT)
        } else if v == 0b1_0000 {
            Some(CacheFunction::DXLTG)
        } else if v == 0b1_0011 {
            Some(CacheFunction::DXSDT)
        } else if v == 0b1_0010 {
            Some(CacheFunction::DXSTG)
        } else if v == 0b1_0100 {
            Some(CacheFunction::DXWBIN)
        } else if v == 0b0_1110 {
            Some(CacheFunction::IFL)
        } else if v == 0b0_1011 {
            Some(CacheFunction::IHIN)
        } else if v == 0b0_0111 {
            Some(CacheFunction::IXIN)
        } else if v == 0b0_0001 {
            Some(CacheFunction::IXLDT)
        } else if v == 0b0_0000 {
            Some(CacheFunction::IXLTG)
        } else if v == 0b0_0101 {
            Some(CacheFunction::IXSDT)
        } else if v == 0b0_0100 {
            Some(CacheFunction::IXSTG)
        } else {
            None
        }
    }

    /// Every variant is found again from its number.
    pub proof fn law_code_round_trip(self)
        ensures
            CacheFunction::spec_from_u8(self.code()) == Some(self),
    {
    }
}

impl CacheFunction {
    /// The operation that the target field of `instruction` names.
    pub open spec fn spec_decode(instruction: u32) -> Option<CacheFunction> {
        CacheFunction::spec_from_u8(target_of(instruction))
    }

    #[inline(always)]
    pub fn decode(instruction: u32) -> (r: Option<CacheFunction>)
        ensures
            r == CacheFunction::spec_decode(instruction),
    {
        let raw_func = instruction.ri_get_target();
        CacheFunction::from_u8(raw_func)
    }
}

} // verus!
