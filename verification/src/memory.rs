//! A flat byte-addressable memory with sized little-endian loads and stores
//! and a bulk flash of a firmware image into its prefix.

use vstd::prelude::*;

use crate::fault::Fault;

verus! {

/// The width of a memory access, in bytes.
#[derive(Debug, PartialEq, Eq, Structural, Clone, Copy)]
pub enum MemAccessSize {
    /// 8 bits
    Byte,
    /// 16 bits
    HalfWord,
    /// 32 bits
    Word,
}

impl MemAccessSize {
    /// The access width in bytes.
    pub open spec fn spec_width(self) -> usize {
        match self {
            MemAccessSize::Byte => 1,
            MemAccessSize::HalfWord => 2,
            MemAccessSize::Word => 4,
        }
    }

    /// The access width in bytes.
    #[verifier::when_used_as_spec(spec_width)]
    pub fn width(self) -> (w: usize)
        ensures
            w == self.spec_width(),
    {
        match self {
            MemAccessSize::Byte => 1,
            MemAccessSize::HalfWord => 2,
            MemAccessSize::Word => 4,
        }
    }
}

/// The value assembled from `size.spec_width()` little-endian bytes of `mem`
/// starting at `addr`; the upper bits of a narrow load are zero.
pub open spec fn spec_load(mem: Seq<u8>, addr: int, size: MemAccessSize) -> u32 {
    match size {
        MemAccessSize::Byte => mem[addr] as u32,
        MemAccessSize::HalfWord => (mem[addr] as u32) | ((mem[addr + 1] as u32) << 8),
        MemAccessSize::Word => (mem[addr] as u32) | ((mem[addr + 1] as u32) << 8) | ((mem[addr + 2]
            as u32) << 16) | ((mem[addr + 3] as u32) << 24),
    }
}

/// `mem` with the low `size.spec_width()` bytes of `data` written
/// little-endian at `addr`.
pub open spec fn spec_store(mem: Seq<u8>, addr: int, size: MemAccessSize, data: u32) -> Seq<u8> {
    match size {
        MemAccessSize::Byte => mem.update(addr, (data & 0xff) as u8),
        MemAccessSize::HalfWord => mem.update(addr, (data & 0xff) as u8).update(
            addr + 1,
            ((data >> 8) & 0xff) as u8,
        ),
        MemAccessSize::Word => mem.update(addr, (data & 0xff) as u8).update(
            addr + 1,
            ((data >> 8) & 0xff) as u8,
        ).update(addr + 2, ((data >> 16) & 0xff) as u8).update(addr + 3, ((data >> 24) & 0xff) as u8),
    }
}

/// A contiguous byte array, created zeroed.
pub struct Memory {
    pub vec: Vec<u8>,
}

impl Memory {
    /// The size is a non-zero multiple of 4, and every address of the array
    /// fits in a 32-bit word.
    pub open spec fn wf(&self) -> bool {
        &&& self.vec@.len() % 4 == 0
        &&& 0 < self.vec@.len() <= 0xffff_ffff
    }

    /// A zeroed memory of `size` bytes.
    pub fn new(size: usize) -> (m: Memory)
        requires
            size % 4 == 0,
            0 < size <= 0xffff_ffff,
        ensures
            m.wf(),
            m.vec@.len() == size,
            m.vec@ =~= Seq::new(size as nat, |i: int| 0u8),
    {
        Memory { vec: vec![0u8; size] }
    }

    /// Load `osize.width()` little-endian bytes from `addr`. Alignment is not
    /// enforced for loads; an access past the end of memory faults.
    pub fn read(&self, addr: u32, osize: MemAccessSize) -> (r: Result<u32, Fault>)
        ensures
            match r {
                Ok(v) => {
                    &&& addr + osize.spec_width() <= self.vec@.len()
                    &&& v == spec_load(self.vec@, addr as int, osize)
                },
                Err(f) => {
                    &&& f == Fault::OutOfRangeAccess(addr)
                    &&& addr + osize.spec_width() > self.vec@.len()
                },
            },
    {
        let size = osize.width();
        let a = addr as usize;
        if a >= self.vec.len() || size > self.vec.len() - a {
            return Err(Fault::OutOfRangeAccess(addr));
        }
        let v = match osize {
            MemAccessSize::Byte => self.vec[a] as u32,
            MemAccessSize::HalfWord => (self.vec[a] as u32) | ((self.vec[a + 1] as u32) << 8),
            MemAccessSize::Word => (self.vec[a] as u32) | ((self.vec[a + 1] as u32) << 8) | ((
            self.vec[a + 2] as u32) << 16) | ((self.vec[a + 3] as u32) << 24),
        };
        Ok(v)
    }

    /// Store the low `osize.width()` bytes of `data` little-endian at `addr`.
    /// Stores require natural alignment; a misaligned or out-of-range store
    /// faults and leaves memory unchanged.
    pub fn write(&mut self, addr: u32, osize: MemAccessSize, data: u32) -> (r: Result<(), Fault>)
        ensures
            match r {
                Ok(()) => {
                    &&& addr % osize.spec_width() as u32 == 0
                    &&& addr + osize.spec_width() <= old(self).vec@.len()
                    &&& final(self).vec@ == spec_store(old(self).vec@, addr as int, osize, data)
                },
                Err(f) => {
                    &&& final(self).vec@ == old(self).vec@
                    &&& if addr % osize.spec_width() as u32 != 0 {
                        f == Fault::MisalignedStore(addr)
                    } else {
                        &&& f == Fault::OutOfRangeAccess(addr)
                        &&& addr + osize.spec_width() > old(self).vec@.len()
                    }
                },
            },
    {
        let size = osize.width();
        let a = addr as usize;
        if addr % (size as u32) != 0 {
            return Err(Fault::MisalignedStore(addr));
        }
        if a >= self.vec.len() || size > self.vec.len() - a {
            return Err(Fault::OutOfRangeAccess(addr));
        }
        self.vec[a] = (data & 0xff) as u8;
        if size >= 2 {
            self.vec[a + 1] = ((data >> 8) & 0xff) as u8;
        }
        if size == 4 {
            self.vec[a + 2] = ((data >> 16) & 0xff) as u8;
            self.vec[a + 3] = ((data >> 24) & 0xff) as u8;
        }
        Ok(())
    }

    /// Copy a firmware image into the prefix of memory; the remainder is
    /// unchanged.
    pub fn flash(&mut self, data: &[u8])
        requires
            data@.len() <= old(self).vec@.len(),
        ensures
            final(self).vec@.len() == old(self).vec@.len(),
            final(self).vec@ =~= data@ + old(self).vec@.skip(data@.len() as int),
    {
        let n = data.len();
        let mut i: usize = 0;
        while i < n
            invariant
                n == data@.len() <= self.vec@.len(),
                i <= n,
                self.vec@.len() == old(self).vec@.len(),
                forall|j: int| 0 <= j < i ==> self.vec@[j] == data@[j],
                forall|j: int| i <= j < self.vec@.len() ==> self.vec@[j] == old(self).vec@[j],
            decreases n - i,
        {
            self.vec[i] = data[i];
            i = i + 1;
        }
    }
}

/// Storing a value of any width at an aligned in-range address and loading it
/// back with the same width returns the value reduced modulo 2^(8 * width).
pub proof fn lemma_store_load_round_trip(mem: Seq<u8>, addr: int, size: MemAccessSize, data: u32)
    requires
        0 <= addr,
        addr % size.spec_width() as int == 0,
        addr + size.spec_width() <= mem.len(),
    ensures
        spec_load(spec_store(mem, addr, size, data), addr, size) == match size {
            MemAccessSize::Byte => data & 0xff,
            MemAccessSize::HalfWord => data & 0xffff,
            MemAccessSize::Word => data,
        },
{
    let stored = spec_store(mem, addr, size, data);
    match size {
        MemAccessSize::Byte => {
            assert((data & 0xff) as u8 as u32 == data & 0xff) by (bit_vector);
        },
        MemAccessSize::HalfWord => {
            let b0 = (data & 0xff) as u8;
            let b1 = ((data >> 8) & 0xff) as u8;
            assert((b0 as u32) | ((b1 as u32) << 8) == data & 0xffff) by (bit_vector)
                requires
                    b0 == (data & 0xff) as u8 && b1 == ((data >> 8) & 0xff) as u8,
            ;
        },
        MemAccessSize::Word => {
            let b0 = (data & 0xff) as u8;
            let b1 = ((data >> 8) & 0xff) as u8;
            let b2 = ((data >> 16) & 0xff) as u8;
            let b3 = ((data >> 24) & 0xff) as u8;
            assert((b0 as u32) | ((b1 as u32) << 8) | ((b2 as u32) << 16) | ((b3 as u32) << 24)
                == data) by (bit_vector)
                requires
                    b0 == (data & 0xff) as u8 && b1 == ((data >> 8) & 0xff) as u8 && b2 == ((data
                        >> 16) & 0xff) as u8 && b3 == ((data >> 24) & 0xff) as u8,
            ;
        },
    }
}

} // verus!
