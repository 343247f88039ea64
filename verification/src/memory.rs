//! The physical memory: main memory, scratchpad and BIOS.

pub mod constants;
pub mod mmu;

use crate::endian::replace_run;
use crate::memory::constants::{
    BIOS_PHYSICAL, IO_REGISTERS_PHYSICAL, PHYSICAL_MEMORY_SIZE, SPRAM_SIZE,
};
use crate::memory::mmu::MmuAddress;
use vstd::prelude::*;

verus! {

/// The three stores of physical memory: the BIOS, main memory and the
/// scratchpad.
pub struct Memory {
    pub bios: Vec<u8>,
    pub data: Vec<u8>,
    pub scratchpad: Vec<u8>,
}

/// What the contracts say of a `Memory`: the bytes of its three stores.
pub struct MemoryView {
    pub bios: Seq<u8>,
    pub data: Seq<u8>,
    pub scratchpad: Seq<u8>,
}

impl View for Memory {
    type V = MemoryView;

    open spec fn view(&self) -> MemoryView {
        MemoryView { bios: self.bios@, data: self.data@, scratchpad: self.scratchpad@ }
    }
}

/// The three stores.
#[derive(Clone, Copy, Debug, PartialEq, Eq, Structural)]
pub enum Store {
    Bios,
    Data,
    Scratchpad,
}

/// `n` zero bytes.
pub open spec fn zeros(n: nat) -> Seq<u8> {
    Seq::new(n, |i: int| 0u8)
}

/// The store that `addr` leads to and the offset in it. Physical addresses
/// below the I/O registers lead into main memory, those from the BIOS on
/// into the BIOS, and those between the two to the start of main memory.
pub open spec fn place_of(addr: MmuAddress) -> (Store, int) {
    match addr {
        MmuAddress::Address(a) => if a < IO_REGISTERS_PHYSICAL {
            (Store::Data, a as int)
        } else if a >= BIOS_PHYSICAL {
            (Store::Bios, a - BIOS_PHYSICAL)
        } else {
            (Store::Data, 0)
        },
        MmuAddress::Scratchpad(a) => (Store::Scratchpad, a as int),
        MmuAddress::Exception(_) => (Store::Data, 0),
    }
}

impl MemoryView {
    pub open spec fn store(self, which: Store) -> Seq<u8> {
        match which {
            Store::Bios => self.bios,
            Store::Data => self.data,
            Store::Scratchpad => self.scratchpad,
        }
    }

    pub open spec fn with_store(self, which: Store, bytes: Seq<u8>) -> MemoryView {
        match which {
            Store::Bios => MemoryView { bios: bytes, ..self },
            Store::Data => MemoryView { data: bytes, ..self },
            Store::Scratchpad => MemoryView { scratchpad: bytes, ..self },
        }
    }

    /// Whether `size` bytes at `addr` lie within the store that `addr` leads
    /// to. An exception is no address.
    pub open spec fn backs(self, addr: MmuAddress, size: int) -> bool {
        let (which, at) = place_of(addr);
        !(addr is Exception) && 0 <= size && at + size <= self.store(which).len()
    }

    /// The `size` bytes at `addr`.
    pub open spec fn read(self, addr: MmuAddress, size: int) -> Seq<u8> {
        let (which, at) = place_of(addr);
        self.store(which).subrange(at, at + size)
    }

    /// With the `size` bytes at `addr` taken out and `bytes` put in their
    /// place.
    pub open spec fn replace(self, addr: MmuAddress, size: int, bytes: Seq<u8>) -> MemoryView {
        let (which, at) = place_of(addr);
        self.with_store(which, replace_run(self.store(which), at, size, bytes))
    }

    /// With `bytes` written at `addr`.
    pub open spec fn write(self, addr: MmuAddress, bytes: Seq<u8>) -> MemoryView {
        self.replace(addr, bytes.len() as int, bytes)
    }
}

impl Memory {
    /// A memory that holds `bios`, with main memory and scratchpad zeroed.
    pub fn new(bios: Vec<u8>) -> (r: Self)
        ensures
            r@ == (MemoryView {
                bios: bios@,
                data: zeros(PHYSICAL_MEMORY_SIZE as nat),
                scratchpad: zeros(SPRAM_SIZE as nat),
            }),
    {
        let r = Self { bios, data: vec![0u8; PHYSICAL_MEMORY_SIZE], scratchpad: vec![0u8; SPRAM_SIZE] };
        assert(r.data@ =~= zeros(PHYSICAL_MEMORY_SIZE as nat));
        assert(r.scratchpad@ =~= zeros(SPRAM_SIZE as nat));
        r
    }

    pub fn set_bios(&mut self, bios: Vec<u8>)
        ensures
            final(self)@ == (MemoryView { bios: bios@, ..old(self)@ }),
    {
        self.bios = bios;
    }

    /// Tells whether `size` bytes at `addr` can be read and written.
    pub fn backs(&self, addr: MmuAddress, size: usize) -> (r: bool)
        ensures
            r == self@.backs(addr, size as int),
    {
        match addr {
            MmuAddress::Address(a) => {
                if a < IO_REGISTERS_PHYSICAL {
                    let u_addr = a as usize;
                    u_addr <= self.data.len() && size <= self.data.len() - u_addr
                } else if a >= BIOS_PHYSICAL {
                    let bios_addr = (a - BIOS_PHYSICAL) as usize;
                    bios_addr <= self.bios.len() && size <= self.bios.len() - bios_addr
                } else {
                    size <= self.data.len()
                }
            },
            MmuAddress::Scratchpad(a) => {
                let u_addr = a as usize;
                u_addr <= self.scratchpad.len() && size <= self.scratchpad.len() - u_addr
            },
            MmuAddress::Exception(_) => false,
        }
    }

    /// Reads a slice of the desired size from the specified physical address.
    pub fn read(&self, addr: MmuAddress, size: usize) -> (r: &[u8])
        requires
            self@.backs(addr, size as int),
        ensures
            r@ == self@.read(addr, size as int),
    {
        match addr {
            MmuAddress::Address(a) => {
                if a < IO_REGISTERS_PHYSICAL {
                    let u_addr = a as usize;
                    let whole = self.data.as_slice();
                    let _ = whole.len();
                    &whole[u_addr..u_addr + size]
                } else if a >= BIOS_PHYSICAL {
                    let bios_addr = (a - BIOS_PHYSICAL) as usize;
                    let whole = self.bios.as_slice();
                    let _ = whole.len();
                    &whole[bios_addr..bios_addr + size]
                } else {
                    &self.data.as_slice()[0..size]
                }
            },
            MmuAddress::Scratchpad(a) => {
                let u_addr = a as usize;
                let whole = self.scratchpad.as_slice();
                let _ = whole.len();
                &whole[u_addr..u_addr + size]
            },
            MmuAddress::Exception(_) => {
                &self.data.as_slice()[0..size]
            },
        }
    }

    /// Hands out, for writing, a slice of the desired size at the specified
    /// physical address.
    pub fn read_mut(&mut self, addr: MmuAddress, size: usize) -> (r: &mut [u8])
        requires
            old(self)@.backs(addr, size as int),
        ensures
            r@ == old(self)@.read(addr, size as int),
            final(self)@ == old(self)@.replace(addr, size as int, final(r)@),
    {
        match addr {
            MmuAddress::Address(a) => {
                if a < IO_REGISTERS_PHYSICAL {
                    window(self.data.as_mut_slice(), a as usize, size)
                } else if a >= BIOS_PHYSICAL {
                    window(self.bios.as_mut_slice(), (a - BIOS_PHYSICAL) as usize, size)
                } else {
                    window(self.data.as_mut_slice(), 0, size)
                }
            },
            MmuAddress::Scratchpad(a) => window(self.scratchpad.as_mut_slice(), a as usize, size),
            MmuAddress::Exception(_) => window(self.data.as_mut_slice(), 0, size),
        }
    }

    pub fn write(&mut self, addr: MmuAddress, data: &[u8])
        requires
            old(self)@.backs(addr, data@.len() as int),
        ensures
            final(self)@ == old(self)@.write(addr, data@),
    {
        let dest = self.read_mut(addr, data.len());
        copy_bytes(dest, data);
    }
}

/// The `size` bytes of `buf` that start at `at`, for writing.
fn window(buf: &mut [u8], at: usize, size: usize) -> (r: &mut [u8])
    requires
        at + size <= old(buf)@.len(),
    ensures
        r@ == old(buf)@.subrange(at as int, at + size),
        final(buf)@ == replace_run(old(buf)@, at as int, size as int, final(r)@),
{
    let ghost whole = buf@;
    let (_, rest) = buf.split_at_mut(at);
    let ghost tail = rest@;
    let (mid, _) = rest.split_at_mut(size);
    proof {
        assert(tail.subrange(0, size as int) =~= whole.subrange(at as int, at + size));
        assert(tail.subrange(size as int, tail.len() as int) =~= whole.subrange(
            at + size,
            whole.len() as int,
        ));
    }
    mid
}

/// Copies `src` over `dest`, which is as long.
fn copy_bytes(dest: &mut [u8], src: &[u8])
    requires
        old(dest)@.len() == src@.len(),
    ensures
        final(dest)@ == src@,
{
    let n = src.len();
    let mut i: usize = 0;
    while i < n
        invariant
            0 <= i <= n,
            n == src@.len(),
            dest@.len() == n,
            forall|k: int| 0 <= k < i ==> dest@[k] == src@[k],
        decreases n - i,
    {
        dest[i] = src[i];
        i += 1;
    }
    assert(dest@ =~= src@);
}

} // verus!
