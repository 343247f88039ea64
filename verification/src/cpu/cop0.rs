//! The registers of COP0, the system control coprocessor, and the fields that
//! they hold.

use crate::cpu::mode::{ExceptionLevel, PrivilegeLevel};
use vstd::prelude::*;

verus! {

/// The COP0 registers by name. The numbers 7, 17 to 22, 26, 27 and 31 are
/// reserved and name none.
#[derive(Clone, Copy, Debug, PartialEq, Eq, Structural)]
pub enum Register {
    /// MMU register: the TLB entry for reads and writes.
    Index,
    /// MMU register: the index that a random TLB write replaces.
    Random,
    /// MMU register: low half of a TLB entry, even page.
    EntryLo0,
    /// MMU register: low half of a TLB entry, odd page.
    EntryLo1,
    /// MMU register: page table entry address.
    Context,
    /// MMU register: the page size mask.
    PageMask,
    /// MMU register: the count of wired TLB entries.
    Wired,
    /// Exception register: the virtual address that failed.
    BadVAddr,
    /// The timer.
    Count,
    /// MMU register: VPN and ASID of a TLB entry.
    EntryHi,
    /// The value of the timer that raises the timer interrupt.
    Compare,
    /// Exception register: the status of the processor.
    Status,
    /// Exception register: the result of the last exception.
    Cause,
    /// Exception register: the program counter at a level 1 exception.
    EPC,
    /// The processor revision.
    PRId,
    /// The configuration of the processor.
    Config,
    /// Exception register: the physical address that failed.
    BadPAddr,
    /// The debug registers.
    Debug,
    /// The performance counters and their control register.
    Perf,
    /// Cache register: low bits of the tag.
    TagLo,
    /// Cache register: high bits of the tag.
    TagHi,
    /// Exception register: the program counter at a level 2 exception.
    ErrorEPC,
}

impl Register {
    /// The number of each register.
    pub open spec fn code(self) -> u8 {
        match self {
            Register::Index => 0,
            Register::Random => 1,
            Register::EntryLo0 => 2,
            Register::EntryLo1 => 3,
            Register::Context => 4,
            Register::PageMask => 5,
            Register::Wired => 6,
            Register::BadVAddr => 8,
            Register::Count => 9,
            Register::EntryHi => 10,
            Register::Compare => 11,
            Register::Status => 12,
            Register::Cause => 13,
            Register::EPC => 14,
            Register::PRId => 15,
            Register::Config => 16,
            Register::BadPAddr => 23,
            Register::Debug => 24,
            Register::Perf => 25,
            Register::TagLo => 28,
            Register::TagHi => 29,
            Register::ErrorEPC => 30,
        }
    }

    /// The variant that `v` stands for, if any.
    pub open spec fn spec_from_u8(v: u8) -> Option<Register> {
        if v == 0 {
            Some(Register::Index)
        } else if v == 1 {
            Some(Register::Random)
        } else if v == 2 {
            Some(Register::EntryLo0)
        } else if v == 3 {
            Some(Register::EntryLo1)
        } else if v == 4 {
            Some(Register::Context)
        } else if v == 5 {
            Some(Register::PageMask)
        } else if v == 6 {
            Some(Register::Wired)
        } else if v == 8 {
            Some(Register::BadVAddr)
        } else if v == 9 {
            Some(Register::Count)
        } else if v == 10 {
            Some(Register::EntryHi)
        } else if v == 11 {
            Some(Register::Compare)
        } else if v == 12 {
            Some(Register::Status)
        } else if v == 13 {
            Some(Register::Cause)
        } else if v == 14 {
            Some(Register::EPC)
        } else if v == 15 {
            Some(Register::PRId)
        } else if v == 16 {
            Some(Register::Config)
        } else if v == 23 {
            Some(Register::BadPAddr)
        } else if v == 24 {
            Some(Register::Debug)
        } else if v == 25 {
            Some(Register::Perf)
        } else if v == 28 {
            Some(Register::TagLo)
        } else if v == 29 {
            Some(Register::TagHi)
        } else if v == 30 {
            Some(Register::ErrorEPC)
        } else {
            None
        }
    }

    pub fn to_u8(self) -> (r: u8)
        ensures
            r == self.code(),
    {
        match self {
            Register::Index => 0,
            Register::Random => 1,
            Register::EntryLo0 => 2,
            Register::EntryLo1 => 3,
            Register::Context => 4,
            Register::PageMask => 5,
            Register::Wired => 6,
            Register::BadVAddr => 8,
            Register::Count => 9,
            Register::EntryHi => 10,
            Register::Compare => 11,
            Register::Status => 12,
            Register::Cause => 13,
            Register::EPC => 14,
            Register::PRId => 15,
            Register::Config => 16,
            Register::BadPAddr => 23,
            Register::Debug => 24,
            Register::Perf => 25,
            Register::TagLo => 28,
            Register::TagHi => 29,
            Register::ErrorEPC => 30,
        }
    }

    pub fn from_u8(v: u8) -> (r: Option<Register>)
        ensures
            r == Register::spec_from_u8(v),
            r matches Some(x) ==> x.code() == v,
    {
        if v == 0 {
            Some(Register::Index)
        } else if v == 1 {
            Some(Register::Random)
        } else if v == 2 {
            Some(Register::EntryLo0)
        } else if v == 3 {
            Some(Register::EntryLo1)
        } else if v == 4 {
            Some(Register::Context)
        } else if v == 5 {
            Some(Register::PageMask)
        } else if v == 6 {
            Some(Register::Wired)
        } else if v == 8 {
            Some(Register::BadVAddr)
        } else if v == 9 {
            Some(Register::Count)
        } else if v == 10 {
            Some(Register::EntryHi)
        } else if v == 11 {
            Some(Register::Compare)
        } else if v == 12 {
            Some(Register::Status)
        } else if v == 13 {
            Some(Register::Cause)
        } else if v == 14 {
            Some(Register::EPC)
        } else if v == 15 {
            Some(Register::PRId)
        } else if v == 16 {
            Some(Register::Config)
        } else if v == 23 {
            Some(Register::BadPAddr)
        } else if v == 24 {
            Some(Register::Debug)
        } else if v == 25 {
            Some(Register::Perf)
        } else if v == 28 {
            Some(Register::TagLo)
        } else if v == 29 {
            Some(Register::TagHi)
        } else if v == 30 {
            Some(Register::ErrorEPC)
        } else {
            None
        }
    }

    /// Every variant is found again from its number.
    pub proof fn law_code_round_trip(self)
        ensures
            Register::spec_from_u8(self.code()) == Some(self),
    {
    }
}

/// The flags of the COP0 status register.
#[derive(Clone, Copy, Debug, PartialEq, Eq, Structural)]
pub struct Status {
    /// The flags that are set, as a mask.
    pub bits: u32,
}

impl Status {
    /// Enables every interrupt.
    pub const INTERRUPT_ENABLE: u32 = 0x0000_0001;

    /// Set by every exception of level 1.
    pub const EXCEPTION_LEVEL: u32 = 0x0000_0002;

    /// Set by reset, NMI, performance counter and debug.
    pub const ERROR_LEVEL: u32 = 0x0000_0004;

    pub const SUPERVISOR_MODE: u32 = 0x0000_0008;

    pub const USER_MODE: u32 = 0x0000_0010;

    /// Mask of the interrupt Int[0].
    pub const INTERRUPT_MASK_2: u32 = 0x0000_0400;

    /// Mask of the interrupt Int[1].
    pub const INTERRUPT_MASK_3: u32 = 0x0000_0800;

    /// Mask of the timer interrupt.
    pub const INTERRUPT_MASK_7: u32 = 0x0000_8000;

    /// Masks a bus error.
    pub const BUS_ERROR_MASK: u32 = 0x0000_1000;

    /// Whether `INTERRUPT_ENABLE` is respected.
    pub const ENABLE_IE: u32 = 0x0001_0000;

    /// Allows the instructions that switch `ENABLE_IE`.
    pub const ENABLE_EDI: u32 = 0x0002_0000;

    /// Whether the last data cache invalidate hit.
    pub const CACHE_HIT: u32 = 0x0004_0000;

    /// Selects the bootstrap vectors of level 1.
    pub const B_EXCEPTION_VECTOR: u32 = 0x0040_0000;

    /// Selects the bootstrap vectors of the performance counter and debug exceptions.
    pub const D_EXCEPTION_VECTOR: u32 = 0x0080_0000;

    pub const COP0_USABLE: u32 = 0x1000_0000;

    pub const COP1_USABLE: u32 = 0x2000_0000;

    pub const COP2_USABLE: u32 = 0x4000_0000;

    pub const COP3_USABLE: u32 = 0x8000_0000;

    /// The three interrupt masks.
    pub const INTERRUPT_MASK: u32 = 0x0000_8C00;

    /// The two mode bits.
    pub const PRIVILEGE_LEVEL: u32 = 0x0000_0018;

    /// The four coprocessor bits. A set bit allows use outside kernel mode.
    pub const COPS_USABLE: u32 = 0xF000_0000;

    /// Every bit that names a flag.
    pub const ALL: u32 = 0xF0C7_9C1F;

    /// No flag.
    pub fn empty() -> (r: Status)
        ensures
            r.bits == 0,
    {
        Status { bits: 0 }
    }

    /// Every flag.
    pub fn all() -> (r: Status)
        ensures
            r.bits == Status::ALL,
    {
        Status { bits: Status::ALL }
    }

    /// The flags of `bits`, without the bits that name none.
    pub open spec fn spec_from_bits_truncate(bits: u32) -> Status {
        Status { bits: bits & Status::ALL }
    }

    pub fn from_bits_truncate(bits: u32) -> (r: Status)
        ensures
            r == Status::spec_from_bits_truncate(bits),
    {
        Status { bits: bits & Status::ALL }
    }

    pub fn bits(&self) -> (r: u32)
        ensures
            r == self.bits,
    {
        self.bits
    }

    /// Whether every bit of `flags` is set.
    pub open spec fn spec_contains(self, flags: u32) -> bool {
        self.bits & flags == flags
    }

    pub fn contains(&self, flags: u32) -> (r: bool)
        ensures
            r == self.spec_contains(flags),
    {
        self.bits & flags == flags
    }

    /// With the flags of `flags` set; bits that name no flag are left out.
    pub open spec fn spec_insert(self, flags: u32) -> Status {
        Status { bits: self.bits | (flags & Status::ALL) }
    }

    pub fn insert(&mut self, flags: u32)
        ensures
            *final(self) == old(self).spec_insert(flags),
    {
        self.bits = self.bits | (flags & Status::ALL);
    }

    /// With the flags of `flags` cleared.
    pub open spec fn spec_remove(self, flags: u32) -> Status {
        Status { bits: self.bits & !flags }
    }

    pub fn remove(&mut self, flags: u32)
        ensures
            *final(self) == old(self).spec_remove(flags),
    {
        self.bits = self.bits & !flags;
    }

    /// The privilege that these flags give. The exception levels come first
    /// and make the processor a kernel; the mode bits count only outside them.
    pub open spec fn spec_privilege_level(self) -> PrivilegeLevel {
        if self.spec_contains(Status::ERROR_LEVEL) {
            PrivilegeLevel::Kernel(ExceptionLevel::Level2)
        } else if self.spec_contains(Status::EXCEPTION_LEVEL) {
            PrivilegeLevel::Kernel(ExceptionLevel::Level1)
        } else if self.spec_contains(Status::USER_MODE) {
            PrivilegeLevel::User
        } else if self.spec_contains(Status::SUPERVISOR_MODE) {
            PrivilegeLevel::Supervisor
        } else {
            PrivilegeLevel::Kernel(ExceptionLevel::NoException)
        }
    }

    #[inline]
    pub fn privilege_level(self) -> (r: PrivilegeLevel)
        ensures
            r == self.spec_privilege_level(),
    {
        if self.contains(Status::ERROR_LEVEL) {
            PrivilegeLevel::Kernel(ExceptionLevel::Level2)
        } else if self.contains(Status::EXCEPTION_LEVEL) {
            PrivilegeLevel::Kernel(ExceptionLevel::Level1)
        } else if self.contains(Status::USER_MODE) {
            PrivilegeLevel::User
        } else if self.contains(Status::SUPERVISOR_MODE) {
            PrivilegeLevel::Supervisor
        } else {
            PrivilegeLevel::Kernel(ExceptionLevel::NoException)
        }
    }
}

impl Default for Status {
    /// The flags at power-up: the error level and the bootstrap vectors.
    fn default() -> (r: Self)
        ensures
            r.bits == Status::ERROR_LEVEL | Status::B_EXCEPTION_VECTOR,
    {
        Status { bits: Status::ERROR_LEVEL | Status::B_EXCEPTION_VECTOR }
    }
}

/// The flags of the COP0 cause register.
#[derive(Clone, Copy, Debug, PartialEq, Eq, Structural)]
pub struct Cause {
    /// The flags that are set, as a mask.
    pub bits: u32,
}

impl Cause {
    pub const EXCEPTION_CODE_L1_B0: u32 = 0x0000_0004;

    pub const EXCEPTION_CODE_L1_B1: u32 = 0x0000_0008;

    pub const EXCEPTION_CODE_L1_B2: u32 = 0x0000_0010;

    pub const EXCEPTION_CODE_L1_B3: u32 = 0x0000_0020;

    pub const EXCEPTION_CODE_L1_B4: u32 = 0x0000_0040;

    /// The five bits of the level 1 exception code.
    pub const EXCEPTION_CODE_L1: u32 = 0x0000_007C;

    /// An interrupt I[0] is pending.
    pub const PENDING_INTERRUPT_I1: u32 = 0x0000_0400;

    /// An interrupt I[1] is pending.
    pub const PENDING_INTERRUPT_I0: u32 = 0x0000_0800;

    /// A timer interrupt is pending.
    pub const PENDING_INTERRUPT_TIMER: u32 = 0x0000_8000;

    pub const EXCEPTION_CODE_L2_B0: u32 = 0x0001_0000;

    pub const EXCEPTION_CODE_L2_B1: u32 = 0x0002_0000;

    pub const EXCEPTION_CODE_L2_B2: u32 = 0x0004_0000;

    /// The three bits of the level 2 exception code.
    pub const EXCEPTION_CODE_L2: u32 = 0x0007_0000;

    pub const COPROCESSOR_B0: u32 = 0x1000_0000;

    pub const COPROCESSOR_B1: u32 = 0x2000_0000;

    /// The coprocessor that a "coprocessor unusable" exception is about.
    pub const COPROCESSOR_NUMBER: u32 = 0x3000_0000;

    /// The branch delay flag of level 2.
    pub const BRANCH_DELAY_2: u32 = 0x4000_0000;

    /// The branch delay flag of level 1.
    pub const BRANCH_DELAY_1: u32 = 0x8000_0000;

    /// Every bit that names a flag.
    pub const ALL: u32 = 0xF007_8C7C;

    /// No flag.
    pub fn empty() -> (r: Cause)
        ensures
            r.bits == 0,
    {
        Cause { bits: 0 }
    }

    /// Every flag.
    pub fn all() -> (r: Cause)
        ensures
            r.bits == Cause::ALL,
    {
        Cause { bits: Cause::ALL }
    }

    /// The flags of `bits`, without the bits that name none.
    pub open spec fn spec_from_bits_truncate(bits: u32) -> Cause {
        Cause { bits: bits & Cause::ALL }
    }

    pub fn from_bits_truncate(bits: u32) -> (r: Cause)
        ensures
            r == Cause::spec_from_bits_truncate(bits),
    {
        Cause { bits: bits & Cause::ALL }
    }

    pub fn bits(&self) -> (r: u32)
        ensures
            r == self.bits,
    {
        self.bits
    }

    /// Whether every bit of `flags` is set.
    pub open spec fn spec_contains(self, flags: u32) -> bool {
        self.bits & flags == flags
    }

    pub fn contains(&self, flags: u32) -> (r: bool)
        ensures
            r == self.spec_contains(flags),
    {
        self.bits & flags == flags
    }

    /// With the flags of `flags` set; bits that name no flag are left out.
    pub open spec fn spec_insert(self, flags: u32) -> Cause {
        Cause { bits: self.bits | (flags & Cause::ALL) }
    }

    pub fn insert(&mut self, flags: u32)
        ensures
            *final(self) == old(self).spec_insert(flags),
    {
        self.bits = self.bits | (flags & Cause::ALL);
    }

    /// With the flags of `flags` cleared.
    pub open spec fn spec_remove(self, flags: u32) -> Cause {
        Cause { bits: self.bits & !flags }
    }

    pub fn remove(&mut self, flags: u32)
        ensures
            *final(self) == old(self).spec_remove(flags),
    {
        self.bits = self.bits & !flags;
    }

    /// The number in the coprocessor field: bits 29 and 28.
    pub open spec fn spec_coprocessor_number(self) -> u8 {
        ((self.bits & Cause::COPROCESSOR_NUMBER) >> 28u32) as u8
    }

    pub fn coprocessor_number(&self) -> (r: u8)
        ensures
            r == self.spec_coprocessor_number(),
            r < 4,
    {
        proof {
            lemma_coprocessor_field(self.bits, 0);
        }
        ((self.bits & Cause::COPROCESSOR_NUMBER) >> 28) as u8
    }

    /// With `number` written into the coprocessor field: what the field
    /// held before is gone. A number of more than two bits spills into the
    /// bits above the field.
    pub open spec fn spec_with_coprocessor_number(self, number: u8) -> Cause {
        Cause { bits: (self.bits & !Cause::COPROCESSOR_NUMBER) | ((number as u32) << 28u32) }
    }

    pub fn set_coprocessor_number(&mut self, number: u8)
        ensures
            *final(self) == old(self).spec_with_coprocessor_number(number),
    {
        self.bits = (self.bits & !Cause::COPROCESSOR_NUMBER) | ((number as u32) << 28);
    }

    /// A number of two bits that is written into the coprocessor field is
    /// read back from it, and every bit outside the field stays as it was.
    pub proof fn law_coprocessor_number_is_written(self, number: u8)
        requires
            number < 4,
        ensures
            self.spec_with_coprocessor_number(number).spec_coprocessor_number() == number,
            (self.spec_with_coprocessor_number(number).bits & Cause::COPROCESSOR_NUMBER) >> 28u32
                == number,
            self.spec_with_coprocessor_number(number).bits & !Cause::COPROCESSOR_NUMBER
                == self.bits & !Cause::COPROCESSOR_NUMBER,
    {
        lemma_coprocessor_field(self.bits, number as u32);
    }
}

proof fn lemma_coprocessor_field(bits: u32, number: u32)
    by (bit_vector)
    requires
        number < 4,
    ensures
        (bits & 0x3000_0000u32) >> 28u32 < 4,
        (((bits & !0x3000_0000u32) | (number << 28u32)) & 0x3000_0000u32) >> 28u32 == number,
        ((bits & !0x3000_0000u32) | (number << 28u32)) & !0x3000_0000u32 == bits & !0x3000_0000u32,
{
}

/// The flags of the COP0 config register.
#[derive(Clone, Copy, Debug, PartialEq, Eq, Structural)]
pub struct Config {
    /// The flags that are set, as a mask.
    pub bits: u32,
}

impl Config {
    pub const KSEG0_CACHE_MODE_B0: u32 = 0x0000_0001;

    pub const KSEG0_CACHE_MODE_B1: u32 = 0x0000_0002;

    pub const KSEG0_CACHE_MODE_B2: u32 = 0x0000_0004;

    /// The cache mode of KSEG0.
    pub const KSEG0_CACHE_MODE: u32 = 0x0000_0007;

    pub const DATA_CACHE_B0: u32 = 0x0000_0040;

    pub const DATA_CACHE_B1: u32 = 0x0000_0080;

    pub const DATA_CACHE_B2: u32 = 0x0000_0100;

    /// The size of the data cache.
    pub const DATA_CACHE_SIZE: u32 = 0x0000_01C0;

    pub const INSTR_CACHE_B0: u32 = 0x0000_0200;

    pub const INSTR_CACHE_B1: u32 = 0x0000_0400;

    pub const INSTR_CACHE_B2: u32 = 0x0000_0800;

    /// The size of the instruction cache.
    pub const INSTR_CACHE_SIZE: u32 = 0x0000_0E00;

    pub const ENABLE_BRANCH_PREDICTION: u32 = 0x0000_1000;

    /// Enables non-blocking loads.
    pub const ENABLE_NB_LOAD: u32 = 0x0000_2000;

    pub const ENABLE_DATA_CACHE: u32 = 0x0001_0000;

    pub const ENABLE_INSTR_CACHE: u32 = 0x0002_0000;

    /// Enables the issue of two instructions in one cycle.
    pub const ENABLE_DUAL_ISSUE: u32 = 0x0004_0000;

    pub const BUS_CLOCK_RATIO_B0: u32 = 0x1000_0000;

    pub const BUS_CLOCK_RATIO_B1: u32 = 0x2000_0000;

    pub const BUS_CLOCK_RATIO_B2: u32 = 0x4000_0000;

    pub const BUS_CLOCK_RATIO: u32 = 0x7000_0000;

    /// The five enable bits: dual issue, both caches, non-blocking loads and branch prediction.
    pub const ENABLES: u32 = 0x0007_3000;

    /// Every bit that names a flag.
    pub const ALL: u32 = 0x7007_3FC7;

    /// No flag.
    pub fn empty() -> (r: Config)
        ensures
            r.bits == 0,
    {
        Config { bits: 0 }
    }

    /// Every flag.
    pub fn all() -> (r: Config)
        ensures
            r.bits == Config::ALL,
    {
        Config { bits: Config::ALL }
    }

    /// The flags of `bits`, without the bits that name none.
    pub open spec fn spec_from_bits_truncate(bits: u32) -> Config {
        Config { bits: bits & Config::ALL }
    }

    pub fn from_bits_truncate(bits: u32) -> (r: Config)
        ensures
            r == Config::spec_from_bits_truncate(bits),
    {
        Config { bits: bits & Config::ALL }
    }

    pub fn bits(&self) -> (r: u32)
        ensures
            r == self.bits,
    {
        self.bits
    }

    /// Whether every bit of `flags` is set.
    pub open spec fn spec_contains(self, flags: u32) -> bool {
        self.bits & flags == flags
    }

    pub fn contains(&self, flags: u32) -> (r: bool)
        ensures
            r == self.spec_contains(flags),
    {
        self.bits & flags == flags
    }

    /// With the flags of `flags` set; bits that name no flag are left out.
    pub open spec fn spec_insert(self, flags: u32) -> Config {
        Config { bits: self.bits | (flags & Config::ALL) }
    }

    pub fn insert(&mut self, flags: u32)
        ensures
            *final(self) == old(self).spec_insert(flags),
    {
        self.bits = self.bits | (flags & Config::ALL);
    }

    /// With the flags of `flags` cleared.
    pub open spec fn spec_remove(self, flags: u32) -> Config {
        Config { bits: self.bits & !flags }
    }

    pub fn remove(&mut self, flags: u32)
        ensures
            *final(self) == old(self).spec_remove(flags),
    {
        self.bits = self.bits & !flags;
    }
}

impl Default for Config {
    /// The configuration at power-up: a data cache of one block and an
    /// instruction cache of two.
    fn default() -> (r: Self)
        ensures
            r.bits == 0x0000_0440,
    {
        Config { bits: 0x0000_0440 }
    }
}

/// The bits of COP0 register `index` that a write through
/// `EECore::write_cop0` can change. Every bit of every register is writable.
pub open spec fn spec_writable_bitmask(index: u8) -> u32 {
    0xff_ff_ff_ff
}

pub fn get_writable_bitmask(index: u8) -> (r: u32)
    ensures
        r == spec_writable_bitmask(index),
{
    0xff_ff_ff_ff
}

pub const WIRED_DEFAULT: u32 = 0;

pub const RANDOM_DEFAULT: u32 = RANDOM_MAX;

/// The last line of a TLB of 48 lines.
pub const RANDOM_MAX: u32 = 47;

pub const RANDOM_MOD: u32 = RANDOM_MAX + 1;

/// The index after `random`, going round from the last line to the first.
pub fn increment_random(random: u32) -> (r: u32)
    requires
        random < u32::MAX,
    ensures
        r == (random + 1) % (RANDOM_MOD as int),
        r <= RANDOM_MAX,
{
    (random + 1) % RANDOM_MOD
}

/// The fields of the EntryLo0 and EntryLo1 registers.
pub trait EntryLo: Sized {
    /// Bit 31: the entry maps the scratchpad.
    spec fn spec_is_scratchpad(self) -> bool;

    /// Bits 25..6: the page frame number.
    spec fn spec_get_pfn(self) -> u32;

    /// Bits 5..3: the cache mode.
    spec fn spec_get_cache_mode(self) -> u8;

    /// Bit 2: the page may be written.
    spec fn spec_is_dirty(self) -> bool;

    /// Bit 1: the entry is valid.
    spec fn spec_is_valid(self) -> bool;

    /// Bit 0: the entry matches every address space.
    spec fn spec_is_global(self) -> bool;

    fn is_scratchpad(self) -> (r: bool)
        ensures
            r == self.spec_is_scratchpad(),
    ;

    fn get_pfn(self) -> (r: u32)
        ensures
            r == self.spec_get_pfn(),
    ;

    fn get_cache_mode(self) -> (r: u8)
        ensures
            r == self.spec_get_cache_mode(),
    ;

    fn is_dirty(self) -> (r: bool)
        ensures
            r == self.spec_is_dirty(),
    ;

    fn is_valid(self) -> (r: bool)
        ensures
            r == self.spec_is_valid(),
    ;

    fn is_global(self) -> (r: bool)
        ensures
            r == self.spec_is_global(),
    ;
}

impl EntryLo for u32 {
    open spec fn spec_is_scratchpad(self) -> bool {
        (self & 0x8000_0000) != 0
    }

    open spec fn spec_get_pfn(self) -> u32 {
        (self & 0x03ff_ffff) >> 6
    }

    open spec fn spec_get_cache_mode(self) -> u8 {
        ((self & 0x0000_003f) >> 3) as u8
    }

    open spec fn spec_is_dirty(self) -> bool {
        (self & 0b100) != 0
    }

    open spec fn spec_is_valid(self) -> bool {
        (self & 0b010) != 0
    }

    open spec fn spec_is_global(self) -> bool {
        (self & 0b001) != 0
    }

    fn is_scratchpad(self) -> (r: bool) {
        (self & 0x8000_0000) != 0
    }

    fn get_pfn(self) -> (r: u32) {
        (self & 0x03ff_ffff) >> 6
    }

    fn get_cache_mode(self) -> (r: u8) {
        ((self & 0x0000_003f) >> 3) as u8
    }

    fn is_dirty(self) -> (r: bool) {
        (self & 0b100) != 0
    }

    fn is_valid(self) -> (r: bool) {
        (self & 0b010) != 0
    }

    fn is_global(self) -> (r: bool) {
        (self & 0b001) != 0
    }
}

/// The number that a flag stands for in a register: 1 when set.
pub open spec fn flag_bit(flag: bool) -> u32 {
    if flag {
        1
    } else {
        0
    }
}

/// The EntryLo value of the given fields. A `pfn` of more than 20 bits spills
/// into the bits above the field.
pub open spec fn spec_entry_lo_from_parts(
    scratchpad: bool,
    pfn: u32,
    cache_mode: u8,
    dirty: bool,
    valid: bool,
    global: bool,
) -> u32 {
    (flag_bit(scratchpad) << 31) | (pfn << 6) | ((cache_mode as u32) << 3) | (flag_bit(dirty) << 2)
        | (flag_bit(valid) << 1) | flag_bit(global)
}

fn bit_of(flag: bool) -> (r: u32)
    ensures
        r == flag_bit(flag),
{
    if flag {
        1
    } else {
        0
    }
}

pub fn entry_lo_from_parts(
    scratchpad: bool,
    pfn: u32,
    cache_mode: u8,
    dirty: bool,
    valid: bool,
    global: bool,
) -> (r: u32)
    ensures
        r == spec_entry_lo_from_parts(scratchpad, pfn, cache_mode, dirty, valid, global),
{
    (bit_of(scratchpad) << 31) | (pfn << 6) | ((cache_mode as u32) << 3) | (bit_of(dirty) << 2) | (
    bit_of(valid) << 1) | bit_of(global)
}

/// The fields of the Context register.
pub trait Context: Sized {
    /// Bits 31..23: the base of the page table.
    spec fn spec_get_pte_base(self) -> u32;

    /// Bits 21..4: the virtual page number, halved, of the address that failed.
    spec fn spec_get_vpn2(self) -> u32;

    fn get_pte_base(self) -> (r: u32)
        ensures
            r == self.spec_get_pte_base(),
    ;

    fn get_vpn2(self) -> (r: u32)
        ensures
            r == self.spec_get_vpn2(),
    ;
}

impl Context for u32 {
    open spec fn spec_get_pte_base(self) -> u32 {
        self >> 23
    }

    open spec fn spec_get_vpn2(self) -> u32 {
        (self & 0x003f_ffff) >> 4
    }

    fn get_pte_base(self) -> (r: u32) {
        self >> 23
    }

    fn get_vpn2(self) -> (r: u32) {
        (self & 0x003f_ffff) >> 4
    }
}

pub open spec fn spec_context_from_parts(pte_base: u32, vpn2: u32) -> u32 {
    (pte_base << 23) | (vpn2 << 4)
}

pub fn context_from_parts(pte_base: u32, vpn2: u32) -> (r: u32)
    ensures
        r == spec_context_from_parts(pte_base, vpn2),
{
    (pte_base << 23) | (vpn2 << 4)
}

/// The fields of the EntryHi register.
pub trait EntryHi: Sized {
    /// Bits 7..0: the address space identifier.
    spec fn spec_get_asid(self) -> u8;

    /// Bits 31..13: the virtual page number, halved.
    spec fn spec_get_vpn2(self) -> u32;

    fn get_asid(self) -> (r: u8)
        ensures
            r == self.spec_get_asid(),
    ;

    fn get_vpn2(self) -> (r: u32)
        ensures
            r == self.spec_get_vpn2(),
    ;
}

impl EntryHi for u32 {
    open spec fn spec_get_asid(self) -> u8 {
        self as u8
    }

    open spec fn spec_get_vpn2(self) -> u32 {
        self >> 13
    }

    fn get_asid(self) -> (r: u8) {
        self as u8
    }

    fn get_vpn2(self) -> (r: u32) {
        self >> 13
    }
}

pub open spec fn spec_entry_hi_from_parts(vpn2: u32, asid: u8) -> u32 {
    (vpn2 << 13) | (asid as u32)
}

pub fn entry_hi_from_parts(vpn2: u32, asid: u8) -> (r: u32)
    ensures
        r == spec_entry_hi_from_parts(vpn2, asid),
{
    (vpn2 << 13) | (asid as u32)
}

} // verus!
