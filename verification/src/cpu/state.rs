//! The state of a processor as the contracts see it, and what each operation
//! of the processor makes of it.

use crate::cpu::constants::{
    COP0_REGISTER_WIDTH_BYTES, EE_PRID, HALF_REGISTER_WIDTH_BYTES, OPCODE_LENGTH_BYTES,
    REGISTER_WIDTH_BYTES,
};
use crate::cpu::cop0::{
    Cause, Config, Context, EntryHi, RANDOM_DEFAULT, RANDOM_MAX, Register, spec_context_from_parts,
    spec_entry_hi_from_parts, spec_writable_bitmask, Status, WIRED_DEFAULT,
};
use crate::cpu::exceptions::{L1Exception, L2Exception};
use crate::cpu::mode::PrivilegeLevel;
use crate::cpu::ops::{branch_effect, effect, spec_process_instruction};
use crate::cpu::pipeline::{admits_second, BranchOpCode, BranchResult, OpCode};
use crate::endian::splice;
use crate::isa::mips::Capability;
use crate::memory::{MemoryView, zeros};
use crate::memory::constants::{
    BIOS_LEN, BIOS_START, KSEG0_END, KSEG0_START, KSEG1_END, KSEG1_START, PHYSICAL_MEMORY_SIZE,
    SPRAM_SIZE, SSEG_END, SSEG_START, USEG_END,
};
use crate::memory::mmu::{MmuAddress, MmuView, page_mask_is_legal};
use crate::memory::mmu::tlb::TlbLine;
use vstd::bytes::{
    spec_u32_from_le_bytes, spec_u32_to_le_bytes, spec_u64_from_le_bytes, spec_u64_to_le_bytes,
};
use vstd::prelude::*;

verus! {

/// What a guest program can ask for that the machine cannot do. The
/// processor notes the last such request and goes on; whoever drives it
/// decides whether to stop.
#[derive(Clone, Copy, Debug, PartialEq, Eq, Structural)]
pub enum Fault {
    /// An access to physical memory that no store backs.
    UnbackedMemory,
    /// A translation through the TLB under a page mask that is not one of
    /// the seven legal ones.
    IllegalPageMask,
    /// A TLB write to a line that does not exist.
    TlbIndexOutOfRange,
    /// A TLB write of a scratchpad line that is not valid.
    InvalidScratchpadLine,
}

/// The state of a processor: the bytes of its register files, its special
/// registers, its memory, its MMU and what it has pending.
pub struct EEState {
    /// The 32 general registers, 16 bytes each. The architectural 64 bits of
    /// a register are bytes 8 to 15 of its lane, low byte first.
    pub register_file: Seq<u8>,
    /// The 32 registers of COP0, 4 bytes each, low byte first.
    pub cop0_register_file: Seq<u8>,
    pub hi: Seq<u8>,
    pub lo: Seq<u8>,
    pub sa_register: u32,
    pub pc_register: u32,
    pub memory: MemoryView,
    pub mmu: MmuView,
    /// The second stage of a branch, where the next instruction to execute
    /// sits in a delay slot.
    pub branch_delay_slot_active: Option<BranchOpCode>,
    pub dual_issue: bool,
    pub excepted_this_cycle: bool,
    pub fault: Option<Fault>,
}

/// The byte of a lane of 128 bits at which its lower half starts: the
/// lower half is stored behind the upper one.
pub open spec fn lower_half() -> int {
    HALF_REGISTER_WIDTH_BYTES as int
}

/// The byte at which the architectural half of general register `index`
/// starts: the lower half of its lane.
pub open spec fn gpr_floor(index: u8) -> int {
    index * REGISTER_WIDTH_BYTES + lower_half()
}

/// The byte of HI or LO at which its half `index` starts. Half 0 is the
/// low word of the lower half, and so of the 64 bits that `read_hi` and
/// `read_lo` give; every other index names the low word of the upper half.
pub open spec fn half_offset(index: u8) -> int {
    if index == 0 {
        lower_half()
    } else {
        0
    }
}

impl EEState {
    /// The register files have their lengths, register 0 holds zero, and the
    /// TLB is well formed.
    pub open spec fn wf(self) -> bool {
        &&& self.register_file.len() == 512
        &&& self.cop0_register_file.len() == 128
        &&& self.hi.len() == 16
        &&& self.lo.len() == 16
        &&& self.read_register(0) == 0
        &&& self.mmu.wf()
    }

    pub open spec fn read_register(self, index: u8) -> u64 {
        spec_u64_from_le_bytes(self.register_file.subrange(gpr_floor(index), gpr_floor(index) + 8))
    }

    /// Register 0 is wired to zero: a write to it changes nothing.
    pub open spec fn write_register(self, index: u8, value: u64) -> EEState {
        if index != 0 {
            EEState {
                register_file: splice(
                    self.register_file,
                    gpr_floor(index),
                    spec_u64_to_le_bytes(value),
                ),
                ..self
            }
        } else {
            self
        }
    }

    /// The 64 bits of HI: the lower half of its 128.
    pub open spec fn read_hi(self) -> u64 {
        spec_u64_from_le_bytes(self.hi.subrange(lower_half(), lower_half() + 8))
    }

    pub open spec fn write_hi(self, value: u64) -> EEState {
        EEState { hi: splice(self.hi, lower_half(), spec_u64_to_le_bytes(value)), ..self }
    }

    pub open spec fn read_hi_half(self, index: u8) -> u32 {
        spec_u32_from_le_bytes(self.hi.subrange(half_offset(index), half_offset(index) + 4))
    }

    pub open spec fn write_hi_half(self, index: u8, value: u32) -> EEState {
        EEState { hi: splice(self.hi, half_offset(index), spec_u32_to_le_bytes(value)), ..self }
    }

    /// The 64 bits of LO: the lower half of its 128.
    pub open spec fn read_lo(self) -> u64 {
        spec_u64_from_le_bytes(self.lo.subrange(lower_half(), lower_half() + 8))
    }

    pub open spec fn write_lo(self, value: u64) -> EEState {
        EEState { lo: splice(self.lo, lower_half(), spec_u64_to_le_bytes(value)), ..self }
    }

    pub open spec fn read_lo_half(self, index: u8) -> u32 {
        spec_u32_from_le_bytes(self.lo.subrange(half_offset(index), half_offset(index) + 4))
    }

    pub open spec fn write_lo_half(self, index: u8, value: u32) -> EEState {
        EEState { lo: splice(self.lo, half_offset(index), spec_u32_to_le_bytes(value)), ..self }
    }

    pub open spec fn read_cop0_direct(self, index: u8) -> u32 {
        spec_u32_from_le_bytes(
            self.cop0_register_file.subrange(
                index * COP0_REGISTER_WIDTH_BYTES,
                index * COP0_REGISTER_WIDTH_BYTES + 4,
            ),
        )
    }

    /// Stores `value` in the register, and does nothing else.
    pub open spec fn write_cop0_direct(self, index: u8, value: u32) -> EEState {
        EEState {
            cop0_register_file: splice(
                self.cop0_register_file,
                index * COP0_REGISTER_WIDTH_BYTES,
                spec_u32_to_le_bytes(value),
            ),
            ..self
        }
    }

    /// What a write of `value` to register `index` stores: the bits that are
    /// writable from `value`, the others as they were.
    pub open spec fn masked_cop0_value(self, index: u8, value: u32) -> u32 {
        let bmask = spec_writable_bitmask(index);
        (value & bmask) | (self.read_cop0_direct(index) & !bmask)
    }

    /// What follows from a write of `value` to register `index`: Config
    /// switches dual issue; Index, PageMask and Wired go to the MMU; and
    /// Wired sets Random back to its maximum.
    pub open spec fn cop0_side_effects(self, index: u8, value: u32) -> EEState {
        match Register::spec_from_u8(index) {
            Some(Register::Config) => EEState {
                dual_issue: Config::spec_from_bits_truncate(value).spec_contains(
                    Config::ENABLE_DUAL_ISSUE,
                ),
                ..self
            },
            Some(Register::Index) => EEState {
                mmu: MmuView { index: value as u8, ..self.mmu },
                ..self
            },
            Some(Register::PageMask) => EEState {
                mmu: MmuView { page_mask: value, ..self.mmu },
                ..self
            },
            Some(Register::Wired) => (EEState {
                mmu: MmuView { wired: value as u8, ..self.mmu },
                ..self
            }).write_cop0_direct(Register::Random.code(), RANDOM_DEFAULT),
            _ => self,
        }
    }

    /// Stores the writable bits of `value` in the register, and lets the
    /// side effects of that register follow.
    pub open spec fn write_cop0(self, index: u8, value: u32) -> EEState {
        let stored = self.masked_cop0_value(index, value);
        self.write_cop0_direct(index, stored).cop0_side_effects(index, stored)
    }

    pub open spec fn status(self) -> Status {
        Status::spec_from_bits_truncate(self.read_cop0_direct(Register::Status.code()))
    }

    pub open spec fn cause(self) -> Cause {
        Cause::spec_from_bits_truncate(self.read_cop0_direct(Register::Cause.code()))
    }

    pub open spec fn get_current_privilege(self) -> PrivilegeLevel {
        self.status().spec_privilege_level()
    }

    pub open spec fn in_exception(self) -> bool {
        self.get_current_privilege().spec_is_in_exception()
    }

    /// The address that an exception saves: that of the current instruction
    /// where no branch is pending, the one before it where one is.
    pub open spec fn saved_address(self) -> u32 {
        if self.branch_delay_slot_active is None {
            self.pc_register
        } else {
            vstd::wrapping::u32_specs::wrapping_sub(self.pc_register, OPCODE_LENGTH_BYTES as u32)
        }
    }

    /// What the kind of a level 1 exception adds, to the processor and to
    /// the cause flags: an interrupt sets its pending bit, a TLB miss puts
    /// the address in BadVAddr, Context and EntryHi, an address error puts
    /// it in BadVAddr, and an unusable coprocessor writes its number into
    /// the coprocessor field, over what was there.
    pub open spec fn l1_specific_handling(self, ex: L1Exception, cause: Cause) -> (EEState, Cause) {
        match ex {
            L1Exception::Interrupt(code) => (self, cause.spec_insert(1u32 << ((code + 8) as u32))),
            L1Exception::TlbModified(addr) | L1Exception::TlbFetchLoadRefill(addr)
            | L1Exception::TlbStoreRefill(addr) | L1Exception::TlbFetchLoadInvalid(addr)
            | L1Exception::TlbStoreInvalid(addr) => (
                self.write_cop0(Register::BadVAddr.code(), addr).fill_ctx_entryhi(addr),
                cause,
            ),
            L1Exception::AddressErrorStore(addr) | L1Exception::AddressErrorFetchLoad(addr) => (
                self.write_cop0(Register::BadVAddr.code(), addr),
                cause,
            ),
            L1Exception::CoprocessorUnusable(cop_code) => (
                self,
                cause.spec_with_coprocessor_number(cop_code),
            ),
            _ => (self, cause),
        }
    }

    /// With the page pair of `addr` in Context, beside the page table base
    /// that is there, and in EntryHi, beside the address space that is there.
    pub open spec fn fill_ctx_entryhi(self, addr: u32) -> EEState {
        let context = self.read_cop0_direct(Register::Context.code());
        let entry_hi = self.read_cop0_direct(Register::EntryHi.code());
        self.write_cop0(
            Register::Context.code(),
            spec_context_from_parts(context.spec_get_pte_base(), addr >> 13u32),
        ).write_cop0(
            Register::EntryHi.code(),
            spec_entry_hi_from_parts(addr >> 13u32, entry_hi.spec_get_asid()),
        )
    }

    /// The Cause register with the code of `ex` as its level 1 code.
    pub open spec fn cause_with_l1_code(self, ex: L1Exception) -> Cause {
        Cause::spec_from_bits_truncate(
            (self.read_cop0_direct(Register::Cause.code()) & !Cause::EXCEPTION_CODE_L1) | ((
            ex.code() as u32) << 2u32),
        )
    }

    /// Raises a level 1 exception. The exception is noted for this cycle and
    /// its code goes to Cause. Unless the processor is at exception level 1
    /// already, it enters it: the address to come back to goes to EPC, and
    /// the branch delay flag of Cause is set where no branch is pending and
    /// cleared where one is. Then comes what the kind adds, and the program
    /// counter goes to the vector, chosen by the status from before.
    pub open spec fn throw_l1_exception(self, ex: L1Exception) -> EEState {
        let status = self.status();
        let cause = self.cause_with_l1_code(ex);
        let entering = !status.spec_contains(Status::EXCEPTION_LEVEL);
        let cause1 = if !entering {
            cause
        } else if self.branch_delay_slot_active is None {
            cause.spec_insert(Cause::BRANCH_DELAY_1)
        } else {
            cause.spec_remove(Cause::BRANCH_DELAY_1)
        };
        let s0 = EEState { excepted_this_cycle: true, ..self };
        let s1 = if entering {
            s0.write_cop0_direct(Register::EPC.code(), self.saved_address()).write_cop0_direct(
                Register::Status.code(),
                status.spec_insert(Status::EXCEPTION_LEVEL).bits,
            )
        } else {
            s0
        };
        let (s2, cause2) = s1.l1_specific_handling(ex, cause1);
        EEState {
            pc_register: ex.vector(status),
            ..s2.write_cop0_direct(Register::Cause.code(), cause2.bits)
        }
    }

    /// What the kind of a level 2 exception adds, to the processor and to
    /// the status flags. A reset selects the bootstrap vectors, unmasks bus
    /// errors, sets Random to its maximum and Wired to zero, and clears the
    /// enable bits of Config. An NMI selects the bootstrap vectors.
    pub open spec fn l2_specific_handling(self, ex: L2Exception, status: Status) -> (EEState, Status) {
        match ex {
            L2Exception::Reset => (
                self.write_cop0(Register::Random.code(), RANDOM_DEFAULT).write_cop0(
                    Register::Wired.code(),
                    0,
                ).clear_config_enables(),
                status.spec_insert(Status::B_EXCEPTION_VECTOR).spec_remove(Status::BUS_ERROR_MASK),
            ),
            L2Exception::Nmi => (self, status.spec_insert(Status::B_EXCEPTION_VECTOR)),
            _ => (self, status),
        }
    }

    pub open spec fn clear_config_enables(self) -> EEState {
        self.write_cop0(
            Register::Config.code(),
            self.read_cop0_direct(Register::Config.code()) & !Config::ENABLES,
        )
    }

    /// The Cause register with the code of `ex` as its level 2 code.
    pub open spec fn cause_with_l2_code(self, ex: L2Exception) -> Cause {
        Cause::spec_from_bits_truncate(
            (self.read_cop0_direct(Register::Cause.code()) & !Cause::EXCEPTION_CODE_L2) | ((
            ex.code() as u32) << 16u32),
        )
    }

    /// Raises a level 2 exception: as at level 1, with the error level, the
    /// ErrorEPC register and the second branch delay flag in the place of
    /// theirs.
    pub open spec fn throw_l2_exception(self, ex: L2Exception) -> EEState {
        let status = self.status();
        let cause = self.cause_with_l2_code(ex);
        let entering = !status.spec_contains(Status::ERROR_LEVEL);
        let status1 = if entering {
            status.spec_insert(Status::ERROR_LEVEL)
        } else {
            status
        };
        let cause1 = if !entering {
            cause
        } else if self.branch_delay_slot_active is None {
            cause.spec_insert(Cause::BRANCH_DELAY_2)
        } else {
            cause.spec_remove(Cause::BRANCH_DELAY_2)
        };
        let s0 = EEState { excepted_this_cycle: true, ..self };
        let s1 = if entering {
            s0.write_cop0_direct(Register::ErrorEPC.code(), self.saved_address())
        } else {
            s0
        };
        let s2 = EEState {
            pc_register: ex.vector(status1),
            ..s1.write_cop0_direct(Register::Cause.code(), cause1.bits)
        };
        let (s3, status2) = s2.l2_specific_handling(ex, status1);
        s3.write_cop0_direct(Register::Status.code(), status2.bits)
    }

    /// Whether the current privilege may touch `v_addr`: anyone the user
    /// segment, all but a user the supervisor segment, a kernel the rest.
    pub open spec fn may_access(self, v_addr: u32) -> bool {
        if v_addr <= USEG_END {
            true
        } else if SSEG_START <= v_addr <= SSEG_END {
            self.get_current_privilege() != PrivilegeLevel::User
        } else {
            self.get_current_privilege().spec_is_kernel()
        }
    }

    /// Checks the access, and raises an address error where it is refused.
    pub open spec fn access_virtual_address(self, v_addr: u32, load: bool) -> (EEState, bool) {
        if self.may_access(v_addr) {
            (self, true)
        } else if load {
            (self.throw_l1_exception(L1Exception::AddressErrorFetchLoad(v_addr)), false)
        } else {
            (self.throw_l1_exception(L1Exception::AddressErrorStore(v_addr)), false)
        }
    }

    /// Whether `v_addr` lies in kseg0 or kseg1, which map straight onto
    /// physical addresses.
    pub open spec fn is_unmapped(v_addr: u32) -> bool {
        KSEG0_START <= v_addr <= KSEG1_END
    }

    /// The physical address of an address in kseg0 or kseg1.
    pub open spec fn unmapped_address(v_addr: u32) -> u32 {
        if v_addr <= KSEG0_END {
            (v_addr - KSEG0_START) as u32
        } else {
            (v_addr - KSEG1_START) as u32
        }
    }

    /// Translates `v_addr`. The two unmapped segments lead straight to
    /// their physical address. Every other goes through the TLB, whose
    /// exception is raised where it gives one. Under an illegal page mask
    /// the TLB cannot be asked: that is a fault.
    pub open spec fn translate_virtual_address(self, v_addr: u32, load: bool) -> (
        EEState,
        Option<MmuAddress>,
    ) {
        if EEState::is_unmapped(v_addr) {
            (self, Some(MmuAddress::Address(EEState::unmapped_address(v_addr))))
        } else if !page_mask_is_legal(self.mmu.page_mask) {
            (EEState { fault: Some(Fault::IllegalPageMask), ..self }, None)
        } else {
            match self.mmu.translate_address(v_addr, load) {
                MmuAddress::Exception(e) => (self.throw_l1_exception(e), None),
                a => (self, Some(a)),
            }
        }
    }

    /// Finds the `size` bytes at `v_addr`: checks the access, translates,
    /// and sees that memory backs what comes out. Bytes that no store backs
    /// are a fault.
    pub open spec fn locate(self, v_addr: u32, size: int, load: bool) -> (EEState, Option<MmuAddress>) {
        let (s1, allowed) = self.access_virtual_address(v_addr, load);
        if !allowed {
            (s1, None)
        } else {
            let (s2, found) = s1.translate_virtual_address(v_addr, load);
            match found {
                None => (s2, None),
                Some(a) => if s2.memory.backs(a, size) {
                    (s2, Some(a))
                } else {
                    (EEState { fault: Some(Fault::UnbackedMemory), ..s2 }, None)
                },
            }
        }
    }

    /// Reads `size` bytes at `v_addr`.
    pub open spec fn read_memory(self, v_addr: u32, size: int) -> (EEState, Option<Seq<u8>>) {
        let (s, found) = self.locate(v_addr, size, true);
        match found {
            Some(a) => (s, Some(s.memory.read(a, size))),
            None => (s, None),
        }
    }

    /// Writes `data` at `v_addr`, if it can be written there.
    pub open spec fn write_memory(self, v_addr: u32, data: Seq<u8>) -> EEState {
        let (s, found) = self.locate(v_addr, data.len() as int, false);
        match found {
            Some(a) => EEState { memory: s.memory.write(a, data), ..s },
            None => s,
        }
    }

    /// Queues the second stage of a branch.
    pub open spec fn branch(self, raw: u32, action: crate::cpu::pipeline::BranchAction, temp: u32) -> EEState {
        EEState { branch_delay_slot_active: Some(BranchOpCode { raw, action, temp }), ..self }
    }
}

/// The image that is installed for `bios`: cut or padded with zeros to the
/// length of the BIOS.
pub open spec fn installed_image(bios: Seq<u8>) -> Seq<u8> {
    if bios.len() >= BIOS_LEN {
        bios.subrange(0, BIOS_LEN as int)
    } else {
        bios + zeros((BIOS_LEN - bios.len()) as nat)
    }
}

impl EEState {
    /// The processor as it is made: every register zero, the program
    /// counter at the start of the BIOS, a BIOS of four zero bytes, an
    /// empty TLB, and nothing pending.
    pub open spec fn created() -> EEState {
        EEState {
            register_file: zeros(512),
            cop0_register_file: zeros(128),
            hi: zeros(16),
            lo: zeros(16),
            sa_register: 0,
            pc_register: BIOS_START,
            memory: MemoryView {
                bios: zeros(4),
                data: zeros(PHYSICAL_MEMORY_SIZE as nat),
                scratchpad: zeros(SPRAM_SIZE as nat),
            },
            mmu: MmuView {
                lines: Seq::new(48, |i: int| TlbLine::empty()),
                page_mask: 0,
                wired: 0,
                index: 0,
                context: 0,
                asid: 0,
            },
            branch_delay_slot_active: None,
            dual_issue: false,
            excepted_this_cycle: false,
            fault: None,
        }
    }

    /// With the COP0 registers of an EE Core at power-up.
    pub open spec fn init_as_ee(self) -> EEState {
        self.write_cop0_direct(Register::Wired.code(), WIRED_DEFAULT).write_cop0_direct(
            Register::Random.code(),
            RANDOM_DEFAULT,
        ).write_cop0_direct(Register::PRId.code(), EE_PRID).write_cop0_direct(
            Register::Status.code(),
            Status::ERROR_LEVEL | Status::B_EXCEPTION_VECTOR,
        ).write_cop0_direct(Register::Config.code(), 0x0000_0440)
    }

    pub open spec fn set_bios(self, bios: Seq<u8>) -> EEState {
        EEState { memory: MemoryView { bios: installed_image(bios), ..self.memory }, ..self }
    }

    /// Executes one instruction. If a branch is pending, its second stage
    /// runs first, and is pending no more. Then the instruction runs,
    /// unless the second stage nullified it. At the end the program counter
    /// moves on by one instruction, unless the second stage wrote it or an
    /// exception was raised in this cycle.
    pub open spec fn execute(self, op: OpCode) -> EEState {
        let (s1, result) = match self.branch_delay_slot_active {
            Some(b) => branch_effect(EEState { branch_delay_slot_active: None, ..self }, b),
            None => (self, BranchResult { bits: 0 }),
        };
        let s2 = if !result.spec_contains(BranchResult::NULLIFIED) {
            effect(s1, op.action, op.raw)
        } else {
            s1
        };
        if !(result.spec_contains(BranchResult::BRANCHED) || s2.excepted_this_cycle) {
            EEState {
                pc_register: vstd::wrapping::u32_specs::wrapping_add(
                    s2.pc_register,
                    OPCODE_LENGTH_BYTES as u32,
                ),
                ..s2
            }
        } else {
            s2
        }
    }

    /// The timer: Count goes up by one, and the timer interrupt is raised
    /// where it then equals Compare.
    pub open spec fn tick_timer(self) -> EEState {
        let count = vstd::wrapping::u32_specs::wrapping_add(
            self.read_cop0_direct(Register::Count.code()),
            1,
        );
        let s = self.write_cop0_direct(Register::Count.code(), count);
        if count == s.read_cop0_direct(Register::Compare.code()) {
            s.throw_l1_exception(L1Exception::Interrupt(7))
        } else {
            s
        }
    }

    /// The two instruction words at the program counter, where they can be
    /// read.
    pub open spec fn fetch(self) -> (EEState, Option<(u32, u32)>) {
        let (s, bytes) = self.read_memory(self.pc_register, 2 * OPCODE_LENGTH_BYTES as int);
        match bytes {
            Some(b) => (
                s,
                Some(
                    (
                        vstd::bytes::spec_u32_from_le_bytes(b.subrange(0, 4)),
                        vstd::bytes::spec_u32_from_le_bytes(b.subrange(4, 8)),
                    ),
                ),
            ),
            None => (s, None),
        }
    }

    /// Whether the second of two fetched words issues with the first: dual
    /// issue is on, and the first admits the second on a processor whose
    /// pipes are all free.
    pub open spec fn issues_both(self, first: u32, second: u32) -> bool {
        self.dual_issue && admits_second(
            spec_process_instruction(first),
            spec_process_instruction(second),
            Capability { write: u64::MAX, read: u64::MAX },
        )
    }

    /// Issues the two fetched words: the first is executed, and then the
    /// second, if it issues with the first.
    pub open spec fn issue(self, first: u32, second: u32) -> EEState {
        let after_first = self.execute(spec_process_instruction(first));
        if self.issues_both(first, second) {
            after_first.execute(spec_process_instruction(second))
        } else {
            after_first
        }
    }

    /// The Random register after a cycle: one less where that keeps it
    /// between Wired and the last line of the TLB, and else back at its
    /// maximum. So it starts again once it has reached Wired, and also
    /// where a write has put it below Wired or beyond the last line.
    pub open spec fn next_random(self) -> u32 {
        let old_random = self.read_cop0_direct(Register::Random.code());
        if old_random <= self.mmu.wired as u32 || old_random > RANDOM_MAX {
            RANDOM_DEFAULT
        } else {
            (old_random - 1) as u32
        }
    }

    pub open spec fn step_random(self) -> EEState {
        self.write_cop0_direct(Register::Random.code(), self.next_random())
    }

    /// A cycle up to the point where Random steps: the timer ticks, two
    /// words are fetched and issued, and the note of an exception in this
    /// cycle is cleared. Where the fetch fails, nothing issues.
    pub open spec fn cycle_before_random(self) -> EEState {
        let s0 = self.tick_timer();
        let (s1, words) = s0.fetch();
        let s2 = match words {
            Some((first, second)) => s1.issue(first, second),
            None => s1,
        };
        EEState { excepted_this_cycle: false, ..s2 }
    }

    /// One cycle of the processor.
    pub open spec fn cycle(self) -> EEState {
        self.cycle_before_random().step_random()
    }
}

} // verus!
