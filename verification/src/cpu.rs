//! The processor core: its registers, its memory, and the operations on
//! them.

pub mod constants;
pub mod cop0;
pub mod exceptions;
pub mod laws;
pub mod mode;
pub mod ops;
pub mod pipeline;
pub mod state;

use crate::cpu::constants::{
    COP0_REGISTER_WIDTH_BYTES, EE_PRID, HALF_REGISTER_WIDTH_BYTES, OPCODE_LENGTH_BYTES,
    REGISTER_WIDTH_BYTES,
};
use crate::cpu::cop0::{
    Cause, Config, get_writable_bitmask, RANDOM_DEFAULT, RANDOM_MAX, Register, Status,
    WIRED_DEFAULT,
};
use crate::cpu::exceptions::{L1Exception, L2Exception};
use crate::cpu::mode::PrivilegeLevel;
use crate::cpu::ops::{effect, perform, perform_branch, process_instruction};
use crate::cpu::pipeline::{BranchAction, BranchOpCode, BranchResult, can_dual_issue, OpCode};
use crate::cpu::state::{EEState, Fault, installed_image};
use crate::endian::{read_u32, read_u64, write_u32, write_u64};
use crate::isa::mips::{Capability, Cpu};
use crate::memory::{Memory, zeros};
use crate::memory::constants::{
    BIOS_LEN, BIOS_START, KSEG0_END, KSEG0_START, KSEG1_END, KSEG1_START, SSEG_END, SSEG_START,
    USEG_END,
};
use crate::memory::mmu::{is_legal_page_mask, Mmu, MmuAddress};
use vstd::prelude::*;

verus! {

/// The Emotion Engine core: its register files, its memory, its MMU and
/// what it has pending. What the contracts say of one is its view, an
/// `EEState`.
pub struct EECore {
    /// The 32 general registers, 16 bytes each.
    pub register_file: [u8; 512],
    /// The 32 registers of COP0, 4 bytes each.
    pub cop0_register_file: [u8; 128],
    pub hi: [u8; 16],
    pub lo: [u8; 16],
    pub sa_register: u32,
    pub pc_register: u32,
    pub memory: Memory,
    pub mmu: Mmu,
    /// The second stage of a branch instruction.
    ///
    /// It is run, and cleared, before the next instruction that `execute`
    /// is given: that instruction sits in the delay slot of the branch.
    pub branch_delay_slot_active: Option<BranchOpCode>,
    /// Whether two instructions may issue in one cycle.
    pub dual_issue: bool,
    /// Whether an exception was raised in the current cycle.
    pub excepted_this_cycle: bool,
    /// The last thing a guest asked for that the machine cannot do.
    pub fault: Option<Fault>,
}

impl View for EECore {
    type V = EEState;

    open spec fn view(&self) -> EEState {
        EEState {
            register_file: self.register_file@,
            cop0_register_file: self.cop0_register_file@,
            hi: self.hi@,
            lo: self.lo@,
            sa_register: self.sa_register,
            pc_register: self.pc_register,
            memory: self.memory@,
            mmu: self.mmu@,
            branch_delay_slot_active: self.branch_delay_slot_active,
            dual_issue: self.dual_issue,
            excepted_this_cycle: self.excepted_this_cycle,
            fault: self.fault,
        }
    }
}

/// The bytes of `buf` from `at` on, for writing.
fn run_mut(buf: &mut [u8], at: usize) -> (r: &mut [u8])
    requires
        at <= old(buf)@.len(),
    ensures
        r@ == old(buf)@.subrange(at as int, old(buf)@.len() as int),
        final(buf)@ == old(buf)@.subrange(0, at as int) + final(r)@,
{
    let (_, rest) = buf.split_at_mut(at);
    rest
}

impl EECore {
    /// Register 0 holds zero and the TLB is well formed.
    pub open spec fn wf(&self) -> bool {
        self@.wf()
    }

    /// Create a new instance of an EE Core processor.
    pub fn new() -> (r: Self)
        ensures
            r@ == EEState::created(),
            r.wf(),
    {
        proof {
            crate::cpu::laws::wellformed::law_created_is_wf();
        }
        let bios: Vec<u8> = vec![0u8; 4];
        let r = Self {
            register_file: [0u8;512],
            cop0_register_file: [0u8;128],
            hi: [0u8;16],
            lo: [0u8;16],
            sa_register: 0,
            pc_register: BIOS_START,
            memory: Memory::new(bios),
            mmu: Mmu::default(),
            branch_delay_slot_active: None,
            dual_issue: false,
            excepted_this_cycle: false,
            fault: None,
        };
        proof {
            assert(r.register_file == vstd::array::spec_array_fill_for_copy_type::<u8, 512>(0u8));
            assert(r.cop0_register_file == vstd::array::spec_array_fill_for_copy_type::<u8, 128>(
                0u8,
            ));
            assert(r.hi == vstd::array::spec_array_fill_for_copy_type::<u8, 16>(0u8));
            assert(r.lo == vstd::array::spec_array_fill_for_copy_type::<u8, 16>(0u8));
            assert(r.register_file@ =~= zeros(512));
            assert(r.cop0_register_file@ =~= zeros(128));
            assert(r.hi@ =~= zeros(16));
            assert(r.lo@ =~= zeros(16));
            assert(bios@ =~= zeros(4));
        }
        r
    }

    /// Installs `bios`, cut or padded with zeros to the length of the BIOS.
    pub fn set_bios(&mut self, bios: Vec<u8>)
        ensures
            final(self)@ == old(self)@.set_bios(bios@),
    {
        let mut bios = bios;
        let ghost given = bios@;
        bios.resize(BIOS_LEN as usize, 0);
        proof {
            assert(bios@ =~= installed_image(given));
        }
        self.memory.set_bios(bios);
    }

    /// Reads a value from the specified register. Register 0 reads as zero
    /// on a well-formed processor.
    pub fn read_register(&self, index: u8) -> (r: u64)
        requires
            index < 32,
        ensures
            r == self@.read_register(index),
    {
        let floor = ((index as usize) * REGISTER_WIDTH_BYTES) + HALF_REGISTER_WIDTH_BYTES;
        let bytes = &self.register_file[floor..floor + 8];
        proof {
            assert(bytes@.subrange(0, 8) =~= bytes@);
        }
        read_u64(bytes)
    }

    /// Write a value to the specified register. Writes to register 0 have
    /// no effect.
    pub fn write_register(&mut self, index: u8, value: u64) -> (r: Option<()>)
        requires
            index < 32,
        ensures
            final(self)@ == old(self)@.write_register(index, value),
            r is Some <==> index != 0,
    {
        if index != 0 {
            let floor = ((index as usize) * REGISTER_WIDTH_BYTES) + HALF_REGISTER_WIDTH_BYTES;
            let buf: &mut [u8] = &mut self.register_file;
            write_u64(run_mut(buf, floor), value);
            proof {
                vstd::bytes::lemma_auto_spec_u64_to_from_le_bytes();
                assert(self@.register_file =~= old(self)@.write_register(
                    index,
                    value,
                ).register_file);
            }
            Some(())
        } else {
            None
        }
    }

    /// Reads the value of the HI register: its lower 64 bits.
    pub fn read_hi(&self) -> (r: u64)
        ensures
            r == self@.read_hi(),
    {
        let bytes = &self.hi[HALF_REGISTER_WIDTH_BYTES..REGISTER_WIDTH_BYTES];
        proof {
            assert(bytes@.subrange(0, 8) =~= bytes@);
        }
        read_u64(bytes)
    }

    /// Write a value to the HI register.
    pub fn write_hi(&mut self, value: u64)
        ensures
            final(self)@ == old(self)@.write_hi(value),
    {
        let buf: &mut [u8] = &mut self.hi;
        write_u64(run_mut(buf, HALF_REGISTER_WIDTH_BYTES), value);
        proof {
            vstd::bytes::lemma_auto_spec_u64_to_from_le_bytes();
            assert(self@.hi =~= old(self)@.write_hi(value).hi);
        }
    }

    /// Reads half of the HI register, where `index` is `0` or `1`.
    pub fn read_hi_half(&self, index: u8) -> (r: u32)
        ensures
            r == self@.read_hi_half(index),
    {
        let offset: usize = if index == 0 {
            HALF_REGISTER_WIDTH_BYTES
        } else {
            0
        };
        let bytes = &self.hi[offset..offset + 4];
        proof {
            assert(bytes@.subrange(0, 4) =~= bytes@);
        }
        read_u32(bytes)
    }

    /// Write a value to half of the HI register, where `index` is `0` or
    /// `1`.
    pub fn write_hi_half(&mut self, index: u8, value: u32)
        ensures
            final(self)@ == old(self)@.write_hi_half(index, value),
    {
        let offset: usize = if index == 0 {
            HALF_REGISTER_WIDTH_BYTES
        } else {
            0
        };
        let buf: &mut [u8] = &mut self.hi;
        write_u32(run_mut(buf, offset), value);
        proof {
            vstd::bytes::lemma_auto_spec_u32_to_from_le_bytes();
            assert(self@.hi =~= old(self)@.write_hi_half(index, value).hi);
        }
    }

    /// Reads the value of the LO register: its lower 64 bits.
    pub fn read_lo(&self) -> (r: u64)
        ensures
            r == self@.read_lo(),
    {
        let bytes = &self.lo[HALF_REGISTER_WIDTH_BYTES..REGISTER_WIDTH_BYTES];
        proof {
            assert(bytes@.subrange(0, 8) =~= bytes@);
        }
        read_u64(bytes)
    }

    /// Write a value to the LO register.
    pub fn write_lo(&mut self, value: u64)
        ensures
            final(self)@ == old(self)@.write_lo(value),
    {
        let buf: &mut [u8] = &mut self.lo;
        write_u64(run_mut(buf, HALF_REGISTER_WIDTH_BYTES), value);
        proof {
            vstd::bytes::lemma_auto_spec_u64_to_from_le_bytes();
            assert(self@.lo =~= old(self)@.write_lo(value).lo);
        }
    }

    /// Reads half of the LO register, where `index` is `0` or `1`.
    pub fn read_lo_half(&self, index: u8) -> (r: u32)
        ensures
            r == self@.read_lo_half(index),
    {
        let offset: usize = if index == 0 {
            HALF_REGISTER_WIDTH_BYTES
        } else {
            0
        };
        let bytes = &self.lo[offset..offset + 4];
        proof {
            assert(bytes@.subrange(0, 4) =~= bytes@);
        }
        read_u32(bytes)
    }

    /// Write a value to half of the LO register, where `index` is `0` or
    /// `1`.
    pub fn write_lo_half(&mut self, index: u8, value: u32)
        ensures
            final(self)@ == old(self)@.write_lo_half(index, value),
    {
        let offset: usize = if index == 0 {
            HALF_REGISTER_WIDTH_BYTES
        } else {
            0
        };
        let buf: &mut [u8] = &mut self.lo;
        write_u32(run_mut(buf, offset), value);
        proof {
            vstd::bytes::lemma_auto_spec_u32_to_from_le_bytes();
            assert(self@.lo =~= old(self)@.write_lo_half(index, value).lo);
        }
    }

    /// Reads a value from the specified register of COP0.
    pub fn read_cop0(&self, index: u8) -> (r: u32)
        requires
            index < 32,
        ensures
            r == self@.read_cop0_direct(index),
    {
        self.read_cop0_direct(index)
    }

    /// Reads a value from the specified register of COP0.
    #[inline]
    pub fn read_cop0_direct(&self, index: u8) -> (r: u32)
        requires
            index < 32,
        ensures
            r == self@.read_cop0_direct(index),
    {
        let floor = (index as usize) * COP0_REGISTER_WIDTH_BYTES;
        let bytes = &self.cop0_register_file[floor..floor + 4];
        proof {
            assert(bytes@.subrange(0, 4) =~= bytes@);
        }
        read_u32(bytes)
    }

    /// Write a value to the specified register of COP0: the bits of it
    /// that are writable, with the side effects of that register.
    pub fn write_cop0(&mut self, index: u8, value: u32)
        requires
            index < 32,
        ensures
            final(self)@ == old(self)@.write_cop0(index, value),
    {
        let bmask = get_writable_bitmask(index);
        let value = (value & bmask) | (self.read_cop0_direct(index) & !bmask);
        self.write_cop0_direct(index, value);

        match Register::from_u8(index) {
            Some(Register::Config) => self.update_config(value),
            Some(Register::Index) => {
                self.mmu.index = value as u8;
            },
            Some(Register::PageMask) => {
                self.mmu.page_mask = value;
            },
            Some(Register::Wired) => {
                self.mmu.wired = value as u8;
                self.write_cop0_direct(Register::Random.to_u8(), RANDOM_DEFAULT);
            },
            _ => {},
        }
    }

    /// Write a value to the specified register of COP0, and nothing else.
    #[inline]
    pub fn write_cop0_direct(&mut self, index: u8, value: u32)
        requires
            index < 32,
        ensures
            final(self)@ == old(self)@.write_cop0_direct(index, value),
    {
        let floor = (index as usize) * COP0_REGISTER_WIDTH_BYTES;
        let buf: &mut [u8] = &mut self.cop0_register_file;
        write_u32(run_mut(buf, floor), value);
        proof {
            vstd::bytes::lemma_auto_spec_u32_to_from_le_bytes();
            assert(self@.cop0_register_file =~= old(self)@.write_cop0_direct(
                index,
                value,
            ).cop0_register_file);
        }
    }

    fn update_config(&mut self, value: u32)
        ensures
            final(self)@ == (EEState {
                dual_issue: Config::spec_from_bits_truncate(value).spec_contains(
                    Config::ENABLE_DUAL_ISSUE,
                ),
                ..old(self)@
            }),
    {
        let config = Config::from_bits_truncate(value);

        self.dual_issue = config.contains(Config::ENABLE_DUAL_ISSUE);
    }

    /// Sets the COP0 registers as they are in an EE Core at power-up.
    pub fn init_as_ee(&mut self)
        ensures
            final(self)@ == old(self)@.init_as_ee(),
    {
        self.write_cop0_direct(Register::Wired.to_u8(), WIRED_DEFAULT);
        self.write_cop0_direct(Register::Random.to_u8(), RANDOM_DEFAULT);
        self.write_cop0_direct(Register::PRId.to_u8(), EE_PRID);
        self.write_cop0_direct(Register::Status.to_u8(), Status::default().bits());
        self.write_cop0_direct(Register::Config.to_u8(), Config::default().bits());
    }

    /// Nothing of the IOP is set up.
    pub fn init_as_iop(&mut self)
        ensures
            final(self)@ == old(self)@,
    {
    }

    /// The privilege that the Status register gives.
    pub fn get_current_privilege(&self) -> (r: PrivilegeLevel)
        ensures
            r == self@.get_current_privilege(),
    {
        Status::from_bits_truncate(
            self.read_cop0_direct(Register::Status.to_u8()),
        ).privilege_level()
    }

    /// Execute one cycle of the EE Core.
    ///
    /// This fetches two instructions from memory and issues the first, and
    /// the second with it where dual issue is on and admits it.
    pub fn cycle(&mut self)
        ensures
            final(self)@ == old(self)@.cycle(),
    {
        let count = self.read_cop0_direct(Register::Count.to_u8()).wrapping_add(1);
        self.write_cop0_direct(Register::Count.to_u8(), count);
        if count == self.read_cop0_direct(Register::Compare.to_u8()) {
            self.throw_l1_exception(L1Exception::Interrupt(7))
        }
        let pc = self.pc_register;

        let words = match self.read_memory(pc, 2 * OPCODE_LENGTH_BYTES) {
            Some(ops) => {
                proof {
                    assert(ops@.subrange(0, 4).subrange(0, 4) =~= ops@.subrange(0, 4));
                    assert(ops@.subrange(4, 8).subrange(0, 4) =~= ops@.subrange(4, 8));
                }
                let first = read_u32(&ops[0..4]);
                let second = read_u32(&ops[4..8]);
                Some((first, second))
            },
            None => None,
        };

        if let Some((first, second)) = words {
            // The first instruction may switch dual issue: what counts is
            // how it stood when the two were fetched.
            let dual_issue = self.dual_issue;

            let first_op = process_instruction(first);
            let second_op = process_instruction(second);
            self.execute(first_op);

            if dual_issue && can_dual_issue(&first_op, &second_op, &Capability::all()) {
                self.execute(second_op);
            }
        }
        self.excepted_this_cycle = false;

        // Step the random destination of the TLB once per cycle.
        let old_random = self.read_cop0_direct(Register::Random.to_u8());
        let wired = self.mmu.wired as u32;
        let new_random = if old_random <= wired || old_random > RANDOM_MAX {
            RANDOM_DEFAULT
        } else {
            old_random - 1
        };
        self.write_cop0_direct(Register::Random.to_u8(), new_random);
    }

    /// Execute one instruction, after the second stage of a branch that is
    /// pending.
    pub fn execute(&mut self, instruction: OpCode)
        ensures
            final(self)@ == old(self)@.execute(instruction),
    {
        let branch_result = if let Some(op) = self.branch_delay_slot_active.take() {
            perform_branch(self, &op)
        } else {
            BranchResult::empty()
        };

        if !branch_result.contains(BranchResult::NULLIFIED) {
            perform(self, &instruction);
        }
        if !(branch_result.contains(BranchResult::BRANCHED) || self.excepted_this_cycle) {
            self.pc_register = self.pc_register.wrapping_add(OPCODE_LENGTH_BYTES as u32);
        }
    }

    /// Whether the processor is at an exception level.
    pub fn in_exception(&mut self) -> (r: bool)
        ensures
            r == old(self)@.in_exception(),
            final(self)@ == old(self)@,
    {
        self.get_current_privilege().is_in_exception()
    }

    /// Raises a level 1 exception.
    pub fn throw_l1_exception(&mut self, ex: L1Exception)
        requires
            ex.wf(),
        ensures
            final(self)@ == old(self)@.throw_l1_exception(ex),
    {
        self.excepted_this_cycle = true;

        let status = self.read_cop0_direct(Register::Status.to_u8());
        let status = Status::from_bits_truncate(status);

        // Set exception code.
        let mut cause = self.read_cop0_direct(Register::Cause.to_u8());
        cause = cause & !Cause::EXCEPTION_CODE_L1;
        cause = cause | ((ex.to_exception_code() as u32) << 2);
        let mut cause = Cause::from_bits_truncate(cause);

        if !status.contains(Status::EXCEPTION_LEVEL) {
            let mut entered = status;
            entered.insert(Status::EXCEPTION_LEVEL);

            let saved_addr = if self.branch_delay_slot_active.is_none() {
                cause.insert(Cause::BRANCH_DELAY_1);
                self.pc_register
            } else {
                cause.remove(Cause::BRANCH_DELAY_1);
                self.pc_register.wrapping_sub(OPCODE_LENGTH_BYTES as u32)
            };

            self.write_cop0_direct(Register::EPC.to_u8(), saved_addr);
            self.write_cop0_direct(Register::Status.to_u8(), entered.bits());
        }
        ex.specific_handling(self, &mut cause);
        self.write_cop0_direct(Register::Cause.to_u8(), cause.bits());
        self.pc_register = ex.to_exception_vector(status);
    }

    /// Raises a level 2 exception.
    pub fn throw_l2_exception(&mut self, ex: L2Exception)
        ensures
            final(self)@ == old(self)@.throw_l2_exception(ex),
    {
        self.excepted_this_cycle = true;

        let status = self.read_cop0_direct(Register::Status.to_u8());
        let mut status = Status::from_bits_truncate(status);

        // Set exception code.
        let mut cause = self.read_cop0_direct(Register::Cause.to_u8());
        cause = cause & !Cause::EXCEPTION_CODE_L2;
        cause = cause | ((ex.to_exception_code() as u32) << 16);
        let mut cause = Cause::from_bits_truncate(cause);

        if !status.contains(Status::ERROR_LEVEL) {
            status.insert(Status::ERROR_LEVEL);

            let saved_addr = if self.branch_delay_slot_active.is_none() {
                cause.insert(Cause::BRANCH_DELAY_2);
                self.pc_register
            } else {
                cause.remove(Cause::BRANCH_DELAY_2);
                self.pc_register.wrapping_sub(OPCODE_LENGTH_BYTES as u32)
            };

            self.write_cop0_direct(Register::ErrorEPC.to_u8(), saved_addr);
        }
        // Write back cause, then status once the kind has had its say.

        self.write_cop0_direct(Register::Cause.to_u8(), cause.bits());

        self.pc_register = ex.to_exception_vector(status);

        ex.specific_handling(self, &mut status);
        self.write_cop0_direct(Register::Status.to_u8(), status.bits());
    }

    /// Determine whether an address can be served in the current processor
    /// mode. An access violation raises an address error.
    #[inline]
    pub fn access_virtual_address(&mut self, v_addr: u32, load: bool) -> (r: bool)
        ensures
            (final(self)@, r) == old(self)@.access_virtual_address(v_addr, load),
    {
        let out = if v_addr <= USEG_END {
            true
        } else if SSEG_START <= v_addr && v_addr <= SSEG_END {
            self.get_current_privilege() != PrivilegeLevel::User
        } else {
            self.get_current_privilege().is_kernel()
        };

        if !out {
            if load {
                self.throw_l1_exception(L1Exception::AddressErrorFetchLoad(v_addr));
            } else {
                self.throw_l1_exception(L1Exception::AddressErrorStore(v_addr));
            }
        }
        out
    }

    /// Translates a virtual address. Where the TLB gives an exception, it is
    /// raised and there is no address.
    pub fn translate_virtual_address(&mut self, v_addr: u32, load: bool) -> (r: Option<MmuAddress>)
        ensures
            (final(self)@, r) == old(self)@.translate_virtual_address(v_addr, load),
    {
        if KSEG0_START <= v_addr && v_addr <= KSEG0_END {
            Some(MmuAddress::Address(v_addr - KSEG0_START))
        } else if KSEG1_START <= v_addr && v_addr <= KSEG1_END {
            Some(MmuAddress::Address(v_addr - KSEG1_START))
        } else if !is_legal_page_mask(self.mmu.page_mask) {
            self.fault = Some(Fault::IllegalPageMask);
            None
        } else {
            match self.mmu.translate_address(v_addr, load) {
                MmuAddress::Exception(e) => {
                    self.throw_l1_exception(e);
                    None
                },
                a => Some(a),
            }
        }
    }

    /// Finds the `size` bytes at `v_addr` for a load or for a store.
    fn locate(&mut self, v_addr: u32, size: usize, load: bool) -> (r: Option<MmuAddress>)
        ensures
            (final(self)@, r) == old(self)@.locate(v_addr, size as int, load),
            r matches Some(a) ==> final(self)@.memory.backs(a, size as int),
    {
        if self.access_virtual_address(v_addr, load) {
            match self.translate_virtual_address(v_addr, load) {
                Some(a) => {
                    if self.memory.backs(a, size) {
                        Some(a)
                    } else {
                        self.fault = Some(Fault::UnbackedMemory);
                        None
                    }
                },
                None => None,
            }
        } else {
            None
        }
    }

    /// The `size` bytes at `v_addr` that `read_memory` would give, without
    /// reading them: nothing is raised and nothing is noted where they
    /// cannot be read.
    pub fn peek_memory(&self, v_addr: u32, size: usize) -> (r: Option<&[u8]>)
        ensures
            match self@.read_memory(v_addr, size as int).1 {
                Some(bytes) => r is Some && r.unwrap()@ == bytes,
                None => r is None,
            },
    {
        let privilege = self.get_current_privilege();
        let allowed = if v_addr <= USEG_END {
            true
        } else if SSEG_START <= v_addr && v_addr <= SSEG_END {
            privilege != PrivilegeLevel::User
        } else {
            privilege.is_kernel()
        };
        if !allowed {
            return None;
        }
        let found = if KSEG0_START <= v_addr && v_addr <= KSEG0_END {
            MmuAddress::Address(v_addr - KSEG0_START)
        } else if KSEG1_START <= v_addr && v_addr <= KSEG1_END {
            MmuAddress::Address(v_addr - KSEG1_START)
        } else if !is_legal_page_mask(self.mmu.page_mask) {
            return None;
        } else {
            self.mmu.translate_address(v_addr, true)
        };
        match found {
            MmuAddress::Exception(_) => None,
            a => if self.memory.backs(a, size) {
                Some(self.memory.read(a, size))
            } else {
                None
            },
        }
    }

    /// The `size` bytes at `v_addr`, where they can be read.
    pub fn read_memory(&mut self, v_addr: u32, size: usize) -> (r: Option<&[u8]>)
        ensures
            final(self)@ == old(self)@.read_memory(v_addr, size as int).0,
            match old(self)@.read_memory(v_addr, size as int).1 {
                Some(bytes) => r is Some && r.unwrap()@ == bytes,
                None => r is None,
            },
    {
        match self.locate(v_addr, size, true) {
            Some(real_p) => Some(self.memory.read(real_p, size)),
            None => None,
        }
    }

    /// The `size` bytes at `v_addr`, for writing, where they can be
    /// written.
    pub fn read_memory_mut(&mut self, v_addr: u32, size: usize) -> (r: Option<&mut [u8]>)
        ensures
            match old(self)@.locate(v_addr, size as int, false) {
                (s, Some(a)) => r is Some && r.unwrap()@ == s.memory.read(a, size as int)
                    && final(self)@ == (EEState {
                    memory: s.memory.replace(a, size as int, final(r.unwrap())@),
                    ..s
                }),
                (s, None) => r is None && final(self)@ == s,
            },
    {
        match self.locate(v_addr, size, false) {
            Some(real_p) => Some(self.memory.read_mut(real_p, size)),
            None => None,
        }
    }

    /// Writes `data` at `v_addr`, where it can be written.
    pub fn write_memory(&mut self, v_addr: u32, data: &[u8])
        ensures
            final(self)@ == old(self)@.write_memory(v_addr, data@),
    {
        match self.locate(v_addr, data.len(), false) {
            Some(p_addr) => {
                self.memory.write(p_addr, data);
            },
            None => {},
        }
    }

    /// Queues the second stage of the branch `op`.
    #[inline]
    pub fn branch(&mut self, op: &OpCode, new_action: BranchAction, temp: u32)
        ensures
            final(self)@ == old(self)@.branch(op.raw, new_action, temp),
    {
        self.branch_delay_slot_active = Some(BranchOpCode::new(op, new_action, temp));
    }
}

impl Default for EECore {
    /// An EE Core at power-up.
    fn default() -> (r: Self)
        ensures
            r@ == EEState::created().init_as_ee(),
            r.wf(),
    {
        proof {
            crate::cpu::laws::wellformed::law_created_is_wf();
        }
        let mut out = Self::new();
        out.init_as_ee();

        out
    }
}

/// The EE Core as a MIPS processor of 64 bits. A register of COP0 has 32
/// bits: it is read zero-extended, and takes the low 32 bits of a value.
impl Cpu for EECore {
    type Register = u64;

    open spec fn cpu_wf(&self) -> bool {
        self.wf()
    }

    open spec fn register(&self, index: u8) -> u64 {
        self@.read_register(index)
    }

    open spec fn cop0_register(&self, index: u8) -> u64 {
        self@.read_cop0_direct(index) as u64
    }

    open spec fn cop0_written(&self, index: u8, value: u64) -> u64 {
        self@.masked_cop0_value(index, value as u32) as u64
    }

    open spec fn hi_register(&self) -> u64 {
        self@.read_hi()
    }

    open spec fn lo_register(&self) -> u64 {
        self@.read_lo()
    }

    fn read_register(&self, index: u8) -> (r: u64) {
        EECore::read_register(self, index)
    }

    fn write_register(&mut self, index: u8, value: u64)
        ensures
            final(self)@ == old(self)@.write_register(index, value),
    {
        proof {
            crate::cpu::laws::wellformed::lemma_register_writes_keep_wf(self@);
            assert forall|other: u8| other < 32 implies #[trigger] self@.write_register(
                index,
                value,
            ).read_register(other) == if other == index && index != 0 {
                value
            } else {
                self@.read_register(other)
            } by {
                if index != 0 {
                    if other == index {
                        crate::cpu::laws::registers::law_register_keeps_what_is_written(self@, index, value);
                    } else {
                        crate::cpu::laws::registers::law_register_write_leaves_the_others(
                            self@,
                            index,
                            value,
                            other,
                        );
                    }
                }
            }
        }
        let _ = EECore::write_register(self, index, value);
    }

    fn read_cop0(&self, index: u8) -> (r: u64) {
        EECore::read_cop0(self, index) as u64
    }

    fn write_cop0(&mut self, index: u8, value: u64)
        ensures
            final(self)@ == old(self)@.write_cop0(index, value as u32),
    {
        proof {
            crate::cpu::laws::wellformed::lemma_write_cop0_keeps_wf(self@, index, value as u32);
            crate::cpu::laws::registers::law_cop0_write_is_read_back(self@, index, value as u32);
        }
        EECore::write_cop0(self, index, value as u32);
    }

    fn read_hi(&self) -> (r: u64) {
        EECore::read_hi(self)
    }

    fn write_hi(&mut self, value: u64)
        ensures
            final(self)@ == old(self)@.write_hi(value),
    {
        proof {
            crate::cpu::laws::wellformed::lemma_register_writes_keep_wf(self@);
            vstd::bytes::lemma_auto_spec_u64_to_from_le_bytes();
            crate::cpu::laws::registers::lemma_splice(
                self@.hi,
                crate::cpu::state::lower_half(),
                vstd::bytes::spec_u64_to_le_bytes(value),
            );
        }
        EECore::write_hi(self, value);
    }

    fn read_lo(&self) -> (r: u64) {
        EECore::read_lo(self)
    }

    fn write_lo(&mut self, value: u64)
        ensures
            final(self)@ == old(self)@.write_lo(value),
    {
        proof {
            crate::cpu::laws::wellformed::lemma_register_writes_keep_wf(self@);
            vstd::bytes::lemma_auto_spec_u64_to_from_le_bytes();
            crate::cpu::laws::registers::lemma_splice(
                self@.lo,
                crate::cpu::state::lower_half(),
                vstd::bytes::spec_u64_to_le_bytes(value),
            );
        }
        EECore::write_lo(self, value);
    }
}

} // verus!
