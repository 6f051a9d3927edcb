use vstd::prelude::*;
use vstd::slice::*;
use crate::Fault;
use crate::niche_opt::Nibble;

verus! {

/// Number of bytes of emulated memory.
pub const MEMORY_SIZE: usize = 4096;

/// The big-endian word made of the bytes at `addr` and `addr + 1`.
pub open spec fn word_at(mem: Seq<u8>, addr: int) -> u16 {
    (mem[addr] as int * 256 + mem[addr + 1] as int) as u16
}

/// The return address saved in stack slot `slot`: slot `k` occupies bytes
/// `2k` (low byte) and `2k + 1` (high byte) of memory.
pub open spec fn stack_slot(mem: Seq<u8>, slot: int) -> u16 {
    (mem[2 * slot] as int + mem[2 * slot + 1] as int * 256) as u16
}

/// `mem` with `pc` saved in stack slot `slot`.
pub open spec fn with_stack_slot(mem: Seq<u8>, slot: int, pc: u16) -> Seq<u8> {
    mem.update(2 * slot, (pc % 256) as u8).update(2 * slot + 1, (pc / 256) as u8)
}

/// `mem` after copying `bytes` to `addr` onwards, each byte that falls
/// inside memory being written and the rest dropped.
pub open spec fn store_bytes_spec(mem: Seq<u8>, addr: int, bytes: Seq<u8>) -> Seq<u8> {
    Seq::new(mem.len(), |j: int| if addr <= j < addr + bytes.len() { bytes[j - addr] } else { mem[j] })
}

/// `dst` after reading memory from `addr` onwards into its first `count`
/// entries, an entry whose source lies outside memory being left as it was.
pub open spec fn load_bytes_spec(mem: Seq<u8>, addr: int, dst: Seq<u8>, count: int) -> Seq<u8> {
    Seq::new(dst.len(), |i: int| if i < count && addr + i < mem.len() { mem[addr + i] } else { dst[i] })
}

/// A 12-bit-or-wider machine address, kept as the `u16` the CPU works with.
#[derive(Copy, Clone, PartialEq, Eq, Structural)]
pub(crate) struct Addr(pub(crate) u16);

impl Addr {
    pub(crate) open spec fn view(self) -> u16 {
        self.0
    }

    /// `self + offset`, wrapping at 16 bits.
    pub(crate) fn add8(self, offset: u8) -> (r: Self)
        ensures
            r@ == (self@ + offset) % 0x10000,
    {
        Addr(self.0.wrapping_add(offset as u16))
    }

    /// `self + offset`, wrapping at 16 bits.
    pub(crate) fn add(self, offset: u16) -> (r: Self)
        ensures
            r@ == (self@ + offset) % 0x10000,
    {
        Addr(self.0.wrapping_add(offset))
    }

    /// `self - offset`, wrapping at 16 bits.
    pub(crate) fn sub(self, offset: u16) -> (r: Self)
        ensures
            r@ == (self@ - offset + 0x10000) % 0x10000,
    {
        Addr(self.0.wrapping_sub(offset))
    }

    /// The address held in the low twelve bits of an opcode.
    pub(crate) fn from_opcode(opcode: u16) -> (r: Self)
        ensures
            r@ == opcode % 0x1000,
    {
        proof {
            assert(opcode & 0xFFF == opcode % 0x1000) by (bit_vector);
        }
        Addr(opcode & 0xFFF)
    }

    pub(crate) fn get(self) -> (r: usize)
        ensures
            r == self@,
    {
        self.0 as usize
    }
}

/// The emulated memory: 4096 bytes. The first 32 bytes hold the call stack,
/// the font sprites start at `0x50` and programs are loaded at `0x200`.
pub(crate) struct Memory(pub(crate) [u8; 4096]);

impl Memory {
    pub(crate) open spec fn view(&self) -> Seq<u8> {
        self.0@
    }

    /// Where programs are loaded and where execution starts.
    pub(crate) const ROM_START: u16 = 0x200;

    /// Where the built-in hexadecimal font sprites are stored.
    pub(crate) const FONTSET_START_ADDRESS: u16 = 0x50;

    pub(crate) fn zeroed() -> (r: Self)
        ensures
            r@ == Seq::new(4096, |i: int| 0u8),
    {
        let r = Memory([0u8; 4096]);
        assert(r@ =~= Seq::new(4096, |i: int| 0u8));
        r
    }

    /// The big-endian word at `addr`; a fault when `addr + 1` lies outside memory.
    pub(crate) fn load_word(&self, addr: Addr) -> (r: Result<u16, Fault>)
        ensures
            addr@ + 1 < 4096 <==> r is Ok,
            r is Err ==> r == Err::<u16, Fault>(Fault::Memory),
            r matches Ok(w) ==> w == word_at(self@, addr@ as int),
    {
        let i = addr.get();
        if i + 1 >= MEMORY_SIZE {
            return Err(Fault::Memory);
        }
        let hi = self.0[i];
        let lo = self.0[i + 1];
        proof {
            assert(((hi as u16) << 8u16) | (lo as u16) == (hi as int * 256 + lo as int) as u16)
                by (bit_vector);
        }
        Ok(((hi as u16) << 8) | (lo as u16))
    }

    /// Copies `slice` to memory from `addr` onwards. Bytes are written in order;
    /// the first one that would fall outside memory ends the copy with a fault,
    /// the bytes before it staying written.
    pub(crate) fn store_slice(&mut self, addr: Addr, slice: &[u8]) -> (r: Result<(), Fault>)
        ensures
            final(self)@ == store_bytes_spec(old(self)@, addr@ as int, slice@),
            slice@.len() == 0 || addr@ + slice@.len() <= 4096 <==> r is Ok,
            r is Err ==> r == Err::<(), Fault>(Fault::Memory),
    {
        let base = addr.get();
        let len = slice.len();
        let mut i: usize = 0;
        while i < len
            invariant
                0 <= i <= len,
                len == slice@.len(),
                base == addr@,
                self@.len() == 4096,
                i == 0 || base + i <= 4096,
                self@ == store_bytes_spec(old(self)@, base as int, slice@.take(i as int)),
            decreases len - i,
        {
            if base >= MEMORY_SIZE || i >= MEMORY_SIZE - base {
                assert(store_bytes_spec(old(self)@, base as int, slice@.take(i as int))
                    =~= store_bytes_spec(old(self)@, base as int, slice@));
                return Err(Fault::Memory);
            }
            let byte = *slice_index_get(slice, i);
            self.0[base + i] = byte;
            i = i + 1;
            assert(self@ =~= store_bytes_spec(old(self)@, base as int, slice@.take(i as int)));
        }
        assert(slice@.take(len as int) =~= slice@);
        Ok(())
    }

    /// Reads memory from `addr` onwards into the first `count` entries of `dst`.
    /// Entries are filled in order; the first whose source would lie outside
    /// memory ends the copy with a fault, the entries before it staying filled.
    pub(crate) fn load_slice(&self, addr: Addr, dst: &mut [u8; 16], count: usize) -> (r: Result<(), Fault>)
        requires
            count <= 16,
        ensures
            final(dst)@ == load_bytes_spec(self@, addr@ as int, old(dst)@, count as int),
            count == 0 || addr@ + count <= 4096 <==> r is Ok,
            r is Err ==> r == Err::<(), Fault>(Fault::Memory),
    {
        let base = addr.get();
        let mut i: usize = 0;
        while i < count
            invariant
                0 <= i <= count <= 16,
                base == addr@,
                self@.len() == 4096,
                i == 0 || base + i <= 4096,
                dst@ == load_bytes_spec(self@, base as int, old(dst)@, i as int),
            decreases count - i,
        {
            if base + i >= MEMORY_SIZE {
                assert(dst@ =~= load_bytes_spec(self@, base as int, old(dst)@, count as int));
                return Err(Fault::Memory);
            }
            dst[i] = self.0[base + i];
            i = i + 1;
            assert(dst@ =~= load_bytes_spec(self@, base as int, old(dst)@, i as int));
        }
        Ok(())
    }

    /// Copies `bytes` to memory from `addr` onwards, as `store_slice` does.
    pub(crate) fn store_bytes<const N: usize>(&mut self, addr: Addr, bytes: [u8; N]) -> (r: Result<(), Fault>)
        ensures
            final(self)@ == store_bytes_spec(old(self)@, addr@ as int, bytes@),
            N == 0 || addr@ + N <= 4096 <==> r is Ok,
            r is Err ==> r == Err::<(), Fault>(Fault::Memory),
    {
        self.store_slice(addr, bytes.as_slice())
    }
}

/// The index of the next free slot of the 16-entry call stack.
#[derive(Copy, Clone)]
pub(crate) struct StackPointer(pub(crate) Nibble);

impl StackPointer {
    pub(crate) open spec fn view(self) -> u8 {
        self.0@
    }

    /// The next slot, or `None` when the stack is full.
    pub(crate) fn inc(self) -> (r: Option<Self>)
        ensures
            self@ + 1 < 16 <==> r is Some,
            r matches Some(sp) ==> sp@ == self@ + 1,
    {
        let new = self.0.get() + 1;
        match Nibble::new(new) {
            Some(n) => Some(StackPointer(n)),
            None => None,
        }
    }

    /// The previous slot, or `None` when the stack is empty.
    pub(crate) fn dec(self) -> (r: Option<Self>)
        ensures
            self@ > 0 <==> r is Some,
            r matches Some(sp) ==> sp@ == self@ - 1,
    {
        let cur = self.0.get();
        if cur == 0 {
            return None;
        }
        match Nibble::new(cur - 1) {
            Some(n) => Some(StackPointer(n)),
            None => None,
        }
    }

    /// The return address saved in this slot.
    pub(crate) fn load_pc(self, mem: &Memory) -> (r: Addr)
        ensures
            r@ == stack_slot(mem@, self@ as int),
    {
        let slot = self.0.get() as usize;
        let lo = mem.0[2 * slot];
        let hi = mem.0[2 * slot + 1];
        proof {
            assert((lo as u16) | ((hi as u16) << 8u16) == (lo as int + hi as int * 256) as u16)
                by (bit_vector);
        }
        Addr((lo as u16) | ((hi as u16) << 8))
    }

    /// Saves `pc` in this slot.
    pub(crate) fn store_pc(self, pc: Addr, mem: &mut Memory)
        ensures
            final(mem)@ == with_stack_slot(old(mem)@, self@ as int, pc@),
    {
        let slot = self.0.get() as usize;
        let p = pc.0;
        proof {
            assert((p & 0xFF) as u8 == (p % 256) as u8 && (p >> 8u16) as u8 == (p / 256) as u8)
                by (bit_vector);
        }
        mem.0[2 * slot] = (p & 0xFF) as u8;
        mem.0[2 * slot + 1] = (p >> 8) as u8;
    }
}

} // verus!
