//! The two levels of exceptions: what each kind is, which code it has, and
//! where its handler starts.

pub mod vectors;

use crate::cpu::EECore;
use crate::cpu::cop0::{
    Cause, Config, Context, context_from_parts, entry_hi_from_parts, EntryHi, RANDOM_DEFAULT,
    Register, Status,
};
use crate::cpu::exceptions::vectors::{
    COMMON, COMMON_B, COUNTER, COUNTER_D, DEBUG, DEBUG_D, INTERRUPT, INTERRUPT_B, RESET_NMI,
    TLB_REFILL, TLB_REFILL_B,
};
use crate::cpu::mode::{ExceptionLevel, PrivilegeLevel};
use vstd::prelude::*;

verus! {

/// The level 1 exceptions. Those that an address caused carry it.
#[derive(Clone, Copy, Debug, PartialEq, Eq, Structural)]
pub enum L1Exception {
    /// An interrupt, by its number from 0 to 7.
    Interrupt(u8),
    TlbModified(u32),
    TlbFetchLoadRefill(u32),
    TlbStoreRefill(u32),
    TlbFetchLoadInvalid(u32),
    TlbStoreInvalid(u32),
    AddressErrorFetchLoad(u32),
    AddressErrorStore(u32),
    BusErrorFetch,
    BusErrorLoadStore,
    Systemcall,
    Break,
    ReservedInstruction,
    /// A coprocessor that may not be used, by its number.
    CoprocessorUnusable(u8),
    Overflow,
    Trap,
}

impl From<L1Exception> for u8 {
    /// The code of the exception.
    fn from(v: L1Exception) -> (r: u8) {
        match v {
            L1Exception::Interrupt(_) => 0,
            L1Exception::TlbModified(_) => 1,
            L1Exception::TlbFetchLoadRefill(_) => 2,
            L1Exception::TlbStoreRefill(_) => 3,
            L1Exception::TlbFetchLoadInvalid(_) => 2,
            L1Exception::TlbStoreInvalid(_) => 3,
            L1Exception::AddressErrorFetchLoad(_) => 4,
            L1Exception::AddressErrorStore(_) => 5,
            L1Exception::BusErrorFetch => 6,
            L1Exception::BusErrorLoadStore => 7,
            L1Exception::Systemcall => 8,
            L1Exception::Break => 9,
            L1Exception::ReservedInstruction => 10,
            L1Exception::CoprocessorUnusable(_) => 11,
            L1Exception::Overflow => 12,
            L1Exception::Trap => 13,
        }
    }
}

impl vstd::std_specs::convert::FromSpecImpl<L1Exception> for u8 {
    open spec fn obeys_from_spec() -> bool {
        true
    }

    open spec fn from_spec(v: L1Exception) -> u8 {
        v.code()
    }
}

impl L1Exception {
    /// The code that the Cause register shows. The refill and the invalid
    /// kinds of a TLB miss share one.
    pub open spec fn code(self) -> u8 {
        match self {
            L1Exception::Interrupt(_) => 0,
            L1Exception::TlbModified(_) => 1,
            L1Exception::TlbFetchLoadRefill(_) => 2,
            L1Exception::TlbStoreRefill(_) => 3,
            L1Exception::TlbFetchLoadInvalid(_) => 2,
            L1Exception::TlbStoreInvalid(_) => 3,
            L1Exception::AddressErrorFetchLoad(_) => 4,
            L1Exception::AddressErrorStore(_) => 5,
            L1Exception::BusErrorFetch => 6,
            L1Exception::BusErrorLoadStore => 7,
            L1Exception::Systemcall => 8,
            L1Exception::Break => 9,
            L1Exception::ReservedInstruction => 10,
            L1Exception::CoprocessorUnusable(_) => 11,
            L1Exception::Overflow => 12,
            L1Exception::Trap => 13,
        }
    }

    /// Whether the exception can be raised: an interrupt has a number below
    /// 8, and a coprocessor a number below 4, which is what its field in
    /// Cause holds.
    pub open spec fn wf(self) -> bool {
        &&& self matches L1Exception::Interrupt(n) ==> n < 8
        &&& self matches L1Exception::CoprocessorUnusable(c) ==> c < 4
    }

    /// Tells whether the exception can be raised.
    pub fn can_be_raised(self) -> (r: bool)
        ensures
            r == self.wf(),
    {
        match self {
            L1Exception::Interrupt(n) => n < 8,
            L1Exception::CoprocessorUnusable(c) => c < 4,
            _ => true,
        }
    }

    /// Whether this is one of the two refill kinds of a TLB miss.
    pub open spec fn is_tlb_refill(self) -> bool {
        self is TlbFetchLoadRefill || self is TlbStoreRefill
    }

    /// Where the handler starts. Interrupts have a vector of their own. A TLB
    /// refill has one too, unless the processor is at exception level 1,
    /// where it goes to the common vector with all the others. The status
    /// flag picks the bootstrap variant of each.
    pub open spec fn vector(self, status: Status) -> u32 {
        let b_set = status.spec_contains(Status::B_EXCEPTION_VECTOR);
        if self is Interrupt {
            if b_set {
                INTERRUPT_B
            } else {
                INTERRUPT
            }
        } else if self.is_tlb_refill() && status.spec_privilege_level() != PrivilegeLevel::Kernel(
            ExceptionLevel::Level1,
        ) {
            if b_set {
                TLB_REFILL_B
            } else {
                TLB_REFILL
            }
        } else {
            if b_set {
                COMMON_B
            } else {
                COMMON
            }
        }
    }

    pub fn to_exception_code(self) -> (r: u8)
        ensures
            r == self.code(),
            r <= 13,
    {
        u8::from(self)
    }

    /// The vector for a processor whose status is `status`.
    pub fn to_exception_vector(self, status: Status) -> (r: u32)
        ensures
            r == self.vector(status),
    {
        let b_set = status.contains(Status::B_EXCEPTION_VECTOR);

        match self {
            L1Exception::Interrupt(_) => if b_set {
                INTERRUPT_B
            } else {
                INTERRUPT
            },
            L1Exception::TlbFetchLoadRefill(_) | L1Exception::TlbStoreRefill(_) => match status.privilege_level() {
                PrivilegeLevel::Kernel(ExceptionLevel::Level1) => if b_set {
                    COMMON_B
                } else {
                    COMMON
                },
                _ => if b_set {
                    TLB_REFILL_B
                } else {
                    TLB_REFILL
                },
            },
            _ => if b_set {
                COMMON_B
            } else {
                COMMON
            },
        }
    }

    /// What the kind of the exception adds to the processor and to the
    /// cause flags.
    pub fn specific_handling(self, cpu: &mut EECore, cause: &mut Cause)
        requires
            self.wf(),
        ensures
            (final(cpu)@, *final(cause)) == old(cpu)@.l1_specific_handling(self, *old(cause)),
    {
        match self {
            L1Exception::Interrupt(code) => {
                let interrupt_bits = 1u32 << (code + 8);
                cause.insert(interrupt_bits);
            },
            L1Exception::TlbModified(addr) | L1Exception::TlbFetchLoadRefill(addr)
            | L1Exception::TlbStoreRefill(addr) | L1Exception::TlbFetchLoadInvalid(addr)
            | L1Exception::TlbStoreInvalid(addr) => {
                bad_v_addr(cpu, addr);
                fill_ctx_entryhi(cpu, addr);
            },
            L1Exception::AddressErrorStore(addr) | L1Exception::AddressErrorFetchLoad(addr) => {
                bad_v_addr(cpu, addr);
            },
            L1Exception::CoprocessorUnusable(cop_code) => {
                cause.set_coprocessor_number(cop_code);
            },
            _ => {},
        }
    }
}

#[inline]
fn bad_v_addr(cpu: &mut EECore, addr: u32)
    ensures
        final(cpu)@ == old(cpu)@.write_cop0(Register::BadVAddr.code(), addr),
{
    cpu.write_cop0(Register::BadVAddr.to_u8(), addr);
}

#[inline]
fn fill_ctx_entryhi(cpu: &mut EECore, addr: u32)
    ensures
        final(cpu)@ == old(cpu)@.fill_ctx_entryhi(addr),
{
    let context = cpu.read_cop0_direct(Register::Context.to_u8());
    let entry_hi = cpu.read_cop0_direct(Register::EntryHi.to_u8());
    cpu.write_cop0(Register::Context.to_u8(), context_from_parts(context.get_pte_base(), addr >> 13));
    cpu.write_cop0(Register::EntryHi.to_u8(), entry_hi_from_parts(addr >> 13, entry_hi.get_asid()));
}

/// The level 2 exceptions.
#[derive(Clone, Copy, Debug, PartialEq, Eq, Structural)]
pub enum L2Exception {
    Reset,
    Nmi,
    PerformanceCounter,
    Debug,
}

impl L2Exception {
    /// The exception code of each.
    pub open spec fn code(self) -> u8 {
        match self {
            L2Exception::Reset => 0,
            L2Exception::Nmi => 1,
            L2Exception::PerformanceCounter => 2,
            L2Exception::Debug => 4,
        }
    }

    /// The variant that `v` stands for, if any.
    pub open spec fn spec_from_u8(v: u8) -> Option<L2Exception> {
        if v == 0 {
            Some(L2Exception::Reset)
        } else if v == 1 {
            Some(L2Exception::Nmi)
        } else if v == 2 {
            Some(L2Exception::PerformanceCounter)
        } else if v == 4 {
            Some(L2Exception::Debug)
        } else {
            None
        }
    }

    pub fn to_u8(self) -> (r: u8)
        ensures
            r == self.code(),
    {
        match self {
            L2Exception::Reset => 0,
            L2Exception::Nmi => 1,
            L2Exception::PerformanceCounter => 2,
            L2Exception::Debug => 4,
        }
    }

    pub fn from_u8(v: u8) -> (r: Option<L2Exception>)
        ensures
            r == L2Exception::spec_from_u8(v),
            r matches Some(x) ==> x.code() == v,
    {
        if v == 0 {
            Some(L2Exception::Reset)
        } else if v == 1 {
            Some(L2Exception::Nmi)
        } else if v == 2 {
            Some(L2Exception::PerformanceCounter)
        } else if v == 4 {
            Some(L2Exception::Debug)
        } else {
            None
        }
    }

    /// Every variant is found again from its number.
    pub proof fn law_code_round_trip(self)
        ensures
            L2Exception::spec_from_u8(self.code()) == Some(self),
    {
    }
}

impl L2Exception {
    /// Where the handler starts. Reset and NMI share a fixed vector. The
    /// performance counter and debug have one each, and the status flag picks
    /// its bootstrap variant.
    pub open spec fn vector(self, status: Status) -> u32 {
        let d_set = status.spec_contains(Status::D_EXCEPTION_VECTOR);
        match self {
            L2Exception::Reset | L2Exception::Nmi => RESET_NMI,
            L2Exception::PerformanceCounter => if d_set {
                COUNTER_D
            } else {
                COUNTER
            },
            L2Exception::Debug => if d_set {
                DEBUG_D
            } else {
                DEBUG
            },
        }
    }

    pub fn to_exception_code(self) -> (r: u8)
        ensures
            r == self.code(),
            r <= 4,
    {
        self.to_u8()
    }

    /// The vector for a processor whose status is `status`.
    pub fn to_exception_vector(self, status: Status) -> (r: u32)
        ensures
            r == self.vector(status),
    {
        let d_set = status.contains(Status::D_EXCEPTION_VECTOR);

        match self {
            L2Exception::Reset | L2Exception::Nmi => RESET_NMI,
            L2Exception::PerformanceCounter => if d_set {
                COUNTER_D
            } else {
                COUNTER
            },
            L2Exception::Debug => if d_set {
                DEBUG_D
            } else {
                DEBUG
            },
        }
    }

    /// What the kind of the exception adds to the processor and to the
    /// status flags.
    pub fn specific_handling(self, cpu: &mut EECore, status: &mut Status)
        ensures
            (final(cpu)@, *final(status)) == old(cpu)@.l2_specific_handling(self, *old(status)),
    {
        match self {
            L2Exception::Reset => {
                status.insert(Status::B_EXCEPTION_VECTOR);
                status.remove(Status::BUS_ERROR_MASK);
                cpu.write_cop0(Register::Random.to_u8(), RANDOM_DEFAULT);
                cpu.write_cop0(Register::Wired.to_u8(), 0);
                let config = cpu.read_cop0_direct(Register::Config.to_u8());
                cpu.write_cop0(Register::Config.to_u8(), config & !Config::ENABLES);
            },
            L2Exception::Nmi => {
                status.insert(Status::B_EXCEPTION_VECTOR);
            },
            _ => {},
        }
    }
}

} // verus!
