//! The flat, little-endian physical memory of the hart.
use vstd::prelude::*;
use crate::exception::Exception;

verus! {

/// Size of physical memory in bytes (128 MiB).
pub const MEMORY_SIZE: u32 = 0x0800_0000;

/// Physical memory: `MEMORY_SIZE` bytes, addressed from 0.
pub struct Memory {
    pub ram: Vec<u8>,
}

/// The kind of a memory access; it decides which exception a failed access raises.
#[derive(Clone, Copy, Debug, PartialEq, Eq, Structural)]
pub enum MemOps {
    Load,
    Store,
    Fetch,
}

/// The exception for an access outside memory.
pub open spec fn access_fault(ops: MemOps) -> Exception {
    match ops {
        MemOps::Load => Exception::LoadAccessFault,
        MemOps::Store => Exception::StoreAMOAccessFault,
        MemOps::Fetch => Exception::InstructionAccessFault,
    }
}

/// The exception for an access that is not naturally aligned.
pub open spec fn misaligned(ops: MemOps) -> Exception {
    match ops {
        MemOps::Load => Exception::LoadAddressMisaligned,
        MemOps::Store => Exception::StoreAMOAddressMisaligned,
        MemOps::Fetch => Exception::InstructionAddressMisaligned,
    }
}

/// The outcome of checking an access of `size` bytes at `start`: it must lie
/// inside memory, and then be a multiple of its size.
pub open spec fn access_check(start: u32, size: u32, ops: MemOps) -> Result<(), Exception> {
    if start + size > MEMORY_SIZE {
        Err(access_fault(ops))
    } else if start % size != 0 {
        Err(misaligned(ops))
    } else {
        Ok(())
    }
}

/// The little-endian value of the two bytes at `a`.
pub open spec fn le16(m: Seq<u8>, a: int) -> int {
    m[a] + 256 * m[a + 1]
}

/// The little-endian value of the four bytes at `a`.
pub open spec fn le32(m: Seq<u8>, a: int) -> int {
    le16(m, a) + 0x1_0000 * le16(m, a + 2)
}

/// The little-endian value of the eight bytes at `a`.
pub open spec fn le64(m: Seq<u8>, a: int) -> int {
    le32(m, a) + 0x1_0000_0000 * le32(m, a + 4)
}

/// `m` with the two bytes of `v` stored little-endian at `a`.
pub open spec fn store16(m: Seq<u8>, a: int, v: u16) -> Seq<u8> {
    m.update(a, v as u8).update(a + 1, (v >> 8) as u8)
}

/// `m` with the four bytes of `v` stored little-endian at `a`.
pub open spec fn store32(m: Seq<u8>, a: int, v: u32) -> Seq<u8> {
    store16(store16(m, a, v as u16), a + 2, (v >> 16) as u16)
}

/// `m` with the eight bytes of `v` stored little-endian at `a`.
pub open spec fn store64(m: Seq<u8>, a: int, v: u64) -> Seq<u8> {
    store32(store32(m, a, v as u32), a + 4, (v >> 32) as u32)
}

/// Checks an access of `size` bytes at `start`.
fn chk_address(start: u32, size: u32, ops: MemOps) -> (r: Result<(), Exception>)
    requires
        size > 0,
    ensures
        r == access_check(start, size, ops),
{
    if start > MEMORY_SIZE || size > MEMORY_SIZE - start {
        match ops {
            MemOps::Load => return Err(Exception::LoadAccessFault),
            MemOps::Store => return Err(Exception::StoreAMOAccessFault),
            MemOps::Fetch => return Err(Exception::InstructionAccessFault),
        }
    }
    if start % size != 0 {
        match ops {
            MemOps::Load => return Err(Exception::LoadAddressMisaligned),
            MemOps::Store => return Err(Exception::StoreAMOAddressMisaligned),
            MemOps::Fetch => return Err(Exception::InstructionAddressMisaligned),
        }
    }
    Ok(())
}

impl View for Memory {
    type V = Seq<u8>;

    open spec fn view(&self) -> Seq<u8> {
        self.ram@
    }
}

impl Memory {
    /// Memory holds exactly `MEMORY_SIZE` bytes.
    pub open spec fn wf(&self) -> bool {
        self.ram@.len() == MEMORY_SIZE
    }

    /// Memory filled with zeros.
    pub fn new() -> (r: Memory)
        ensures
            r.wf(),
            forall|i: int| 0 <= i < MEMORY_SIZE ==> #[trigger] r@[i] == 0,
    {
        Self { ram: vec![0u8; MEMORY_SIZE as usize] }
    }

    /// Copies `binary` to the start of memory; the rest is left as it was.
    pub fn set(&mut self, binary: &Vec<u8>)
        requires
            old(self).wf(),
            binary@.len() <= MEMORY_SIZE,
        ensures
            final(self).wf(),
            final(self)@ == binary@ + old(self)@.subrange(binary@.len() as int, MEMORY_SIZE as int),
    {
        let n = binary.len();
        let mut i: usize = 0;
        while i < n
            invariant
                n == binary@.len(),
                n <= MEMORY_SIZE,
                i <= n,
                self.wf(),
                forall|k: int| 0 <= k < i ==> #[trigger] self.ram@[k] == binary@[k],
                forall|k: int| i <= k < MEMORY_SIZE ==> #[trigger] self.ram@[k] == old(self).ram@[k],
            decreases n - i,
        {
            self.ram.set(i, binary[i]);
            i = i + 1;
        }
        assert(self@ =~= binary@ + old(self)@.subrange(binary@.len() as int, MEMORY_SIZE as int));
    }

    /// Fetches the instruction word at `addr`.
    pub fn fetch(&self, addr: u32) -> (r: Result<u32, Exception>)
        requires
            self.wf(),
        ensures
            r == (match access_check(addr, 4, MemOps::Fetch) {
                Err(e) => Err(e),
                Ok(_) => Ok(le32(self@, addr as int) as u32),
            }),
    {
        chk_address(addr, 4, MemOps::Fetch)?;
        self.read32(addr)
    }

    /// Reads the byte at `addr`, zero-extended.
    pub fn read8(&self, addr: u32) -> (r: Result<u32, Exception>)
        requires
            self.wf(),
        ensures
            r == (match access_check(addr, 1, MemOps::Load) {
                Err(e) => Err(e),
                Ok(_) => Ok(self@[addr as int] as u32),
            }),
    {
        chk_address(addr, 1, MemOps::Load)?;
        Ok(self.ram[addr as usize] as u32)
    }

    /// Reads the little-endian halfword at `addr`, zero-extended.
    pub fn read16(&self, addr: u32) -> (r: Result<u32, Exception>)
        requires
            self.wf(),
        ensures
            r == (match access_check(addr, 2, MemOps::Load) {
                Err(e) => Err(e),
                Ok(_) => Ok(le16(self@, addr as int) as u32),
            }),
    {
        chk_address(addr, 2, MemOps::Load)?;
        let index = addr as usize;
        Ok((self.ram[index] as u32) + (self.ram[index + 1] as u32) * 0x100)
    }

    /// Reads the little-endian word at `addr`.
    pub fn read32(&self, addr: u32) -> (r: Result<u32, Exception>)
        requires
            self.wf(),
        ensures
            r == (match access_check(addr, 4, MemOps::Load) {
                Err(e) => Err(e),
                Ok(_) => Ok(le32(self@, addr as int) as u32),
            }),
    {
        chk_address(addr, 4, MemOps::Load)?;
        let index = addr as usize;
        Ok((self.ram[index] as u32) + (self.ram[index + 1] as u32) * 0x100
            + (self.ram[index + 2] as u32) * 0x1_0000 + (self.ram[index + 3] as u32) * 0x100_0000)
    }

    /// Reads the little-endian doubleword at `addr`.
    pub fn read64(&self, addr: u32) -> (r: Result<u64, Exception>)
        requires
            self.wf(),
        ensures
            r == (match access_check(addr, 8, MemOps::Load) {
                Err(e) => Err(e),
                Ok(_) => Ok(le64(self@, addr as int) as u64),
            }),
    {
        chk_address(addr, 8, MemOps::Load)?;
        let index = addr as usize;
        let lo = (self.ram[index] as u64) + (self.ram[index + 1] as u64) * 0x100
            + (self.ram[index + 2] as u64) * 0x1_0000 + (self.ram[index + 3] as u64) * 0x100_0000;
        let hi = (self.ram[index + 4] as u64) + (self.ram[index + 5] as u64) * 0x100
            + (self.ram[index + 6] as u64) * 0x1_0000 + (self.ram[index + 7] as u64) * 0x100_0000;
        Ok(lo + hi * 0x1_0000_0000)
    }

    /// Writes the byte `val` at `addr`.
    pub fn write8(&mut self, addr: u32, val: u8) -> (r: Result<(), Exception>)
        requires
            old(self).wf(),
        ensures
            final(self).wf(),
            r == access_check(addr, 1, MemOps::Store),
            r is Ok ==> final(self)@ == old(self)@.update(addr as int, val),
            r is Err ==> final(self)@ == old(self)@,
    {
        chk_address(addr, 1, MemOps::Store)?;
        self.ram.set(addr as usize, val);
        Ok(())
    }

    /// Writes the halfword `val` little-endian at `addr`.
    pub fn write16(&mut self, addr: u32, val: u16) -> (r: Result<(), Exception>)
        requires
            old(self).wf(),
        ensures
            final(self).wf(),
            r == access_check(addr, 2, MemOps::Store),
            r is Ok ==> final(self)@ == store16(old(self)@, addr as int, val),
            r is Err ==> final(self)@ == old(self)@,
    {
        chk_address(addr, 2, MemOps::Store)?;
        let index = addr as usize;
        self.ram.set(index, val as u8);
        self.ram.set(index + 1, (val >> 8) as u8);
        Ok(())
    }

    /// Writes the word `val` little-endian at `addr`.
    pub fn write32(&mut self, addr: u32, val: u32) -> (r: Result<(), Exception>)
        requires
            old(self).wf(),
        ensures
            final(self).wf(),
            r == access_check(addr, 4, MemOps::Store),
            r is Ok ==> final(self)@ == store32(old(self)@, addr as int, val),
            r is Err ==> final(self)@ == old(self)@,
    {
        chk_address(addr, 4, MemOps::Store)?;
        let index = addr as usize;
        let lo = val as u16;
        let hi = (val >> 16) as u16;
        self.ram.set(index, lo as u8);
        self.ram.set(index + 1, (lo >> 8) as u8);
        self.ram.set(index + 2, hi as u8);
        self.ram.set(index + 3, (hi >> 8) as u8);
        Ok(())
    }

    /// Writes the doubleword `val` little-endian at `addr`.
    pub fn write64(&mut self, addr: u32, val: u64) -> (r: Result<(), Exception>)
        requires
            old(self).wf(),
        ensures
            final(self).wf(),
            r == access_check(addr, 8, MemOps::Store),
            r is Ok ==> final(self)@ == store64(old(self)@, addr as int, val),
            r is Err ==> final(self)@ == old(self)@,
    {
        chk_address(addr, 8, MemOps::Store)?;
        let index = addr as usize;
        let words: [u32; 2] = [val as u32, (val >> 32) as u32];
        let mut k: usize = 0;
        while k < 2
            invariant
                k <= 2,
                self.wf(),
                index + 8 <= MEMORY_SIZE,
                index == addr,
                words@ == seq![val as u32, (val >> 32) as u32],
                k == 0 ==> self@ == old(self)@,
                k == 1 ==> self@ == store32(old(self)@, addr as int, val as u32),
                k == 2 ==> self@ == store64(old(self)@, addr as int, val),
            decreases 2 - k,
        {
            let w = words[k];
            let at = index + 4 * k;
            let lo = w as u16;
            let hi = (w >> 16) as u16;
            self.ram.set(at, lo as u8);
            self.ram.set(at + 1, (lo >> 8) as u8);
            self.ram.set(at + 2, hi as u8);
            self.ram.set(at + 3, (hi >> 8) as u8);
            k = k + 1;
        }
        Ok(())
    }
}

/// A value splits into a low and a high half, little-endian.
proof fn lemma_halves(h: u16, w: u32, d: u64)
    ensures
        h == (h as u8) + 0x100 * ((h >> 8) as u8),
        w == (w as u16) + 0x1_0000 * ((w >> 16) as u16),
        d == (d as u32) + 0x1_0000_0000 * ((d >> 32) as u32),
        (w as u16) == w % 0x1_0000,
        ((w >> 16) as u16) == w / 0x1_0000,
        (d as u32) == d % 0x1_0000_0000,
        ((d >> 32) as u32) == d / 0x1_0000_0000,
{
    assert(h as u64 == ((h as u8) as u64) + 0x100 * (((h >> 8) as u8) as u64)) by (bit_vector);
    assert(w as u64 == ((w as u16) as u64) + 0x1_0000 * (((w >> 16) as u16) as u64)) by (bit_vector);
    assert(d == ((d as u32) as u64) + 0x1_0000_0000 * (((d >> 32) as u32) as u64)) by (bit_vector);
    assert((w as u16) as u32 == w % 0x1_0000 && ((w >> 16) as u16) as u32 == w / 0x1_0000) by (bit_vector);
    assert((d as u32) as u64 == d % 0x1_0000_0000 && ((d >> 32) as u32) as u64 == d / 0x1_0000_0000) by (bit_vector);
}

/// An access check depends on the kind of access only for the exception it names.
pub proof fn lemma_check_kind(a: u32, size: u32, k1: MemOps, k2: MemOps)
    requires
        size > 0,
    ensures
        (access_check(a, size, k1) is Ok) == (access_check(a, size, k2) is Ok),
{
}

/// A halfword written at `a` reads back unchanged from `a`.
pub proof fn lemma_store_load16(m: Seq<u8>, a: int, v: u16)
    requires
        0 <= a,
        a + 2 <= m.len(),
    ensures
        le16(store16(m, a, v), a) == v,
        store16(m, a, v)[a] == v as u8,
        store16(m, a, v).len() == m.len(),
        forall|i: int| 0 <= i < m.len() && !(a <= i < a + 2) ==> #[trigger] store16(m, a, v)[i] == m[i],
{
    lemma_halves(v, 0, 0);
}

/// A word written at `a` reads back unchanged from `a`; its halfwords read
/// back from `a` and `a + 2`, low half first.
pub proof fn lemma_store_load32(m: Seq<u8>, a: int, v: u32)
    requires
        0 <= a,
        a + 4 <= m.len(),
    ensures
        le32(store32(m, a, v), a) == v,
        le16(store32(m, a, v), a) == v % 0x1_0000,
        le16(store32(m, a, v), a + 2) == v / 0x1_0000,
        store32(m, a, v).len() == m.len(),
        forall|i: int| 0 <= i < m.len() && !(a <= i < a + 4) ==> #[trigger] store32(m, a, v)[i] == m[i],
{
    lemma_halves(0, v, 0);
    let m1 = store16(m, a, v as u16);
    lemma_store_load16(m, a, v as u16);
    lemma_store_load16(m1, a + 2, (v >> 16) as u16);
    assert(le16(store32(m, a, v), a) == le16(m1, a));
}

/// A doubleword written at `a` reads back unchanged from `a`; its words read
/// back from `a` and `a + 4`, low word first.
pub proof fn lemma_store_load64(m: Seq<u8>, a: int, v: u64)
    requires
        0 <= a,
        a + 8 <= m.len(),
    ensures
        le64(store64(m, a, v), a) == v,
        le32(store64(m, a, v), a) == v % 0x1_0000_0000,
        le32(store64(m, a, v), a + 4) == v / 0x1_0000_0000,
        store64(m, a, v).len() == m.len(),
        forall|i: int| 0 <= i < m.len() && !(a <= i < a + 8) ==> #[trigger] store64(m, a, v)[i] == m[i],
{
    lemma_halves(0, 0, v);
    let m1 = store32(m, a, v as u32);
    lemma_store_load32(m, a, v as u32);
    lemma_store_load32(m1, a + 4, (v >> 32) as u32);
    assert(le32(store64(m, a, v), a) == le32(m1, a));
}

/// Writing `v` with one of `write8`, `write16`, `write32`, `write64` at an
/// address that passes the check, then reading back with the read of the same
/// width, gives `v` truncated to that width; the narrower reads of the same
/// bytes compose little-endian.
pub proof fn lemma_write_then_read(m: Seq<u8>, a: u32, b: u8, h: u16, w: u32, d: u64)
    requires
        m.len() == MEMORY_SIZE,
    ensures
        access_check(a, 1, MemOps::Store) is Ok ==> access_check(a, 1, MemOps::Load) is Ok
            && m.update(a as int, b)[a as int] == b,
        access_check(a, 2, MemOps::Store) is Ok ==> access_check(a, 2, MemOps::Load) is Ok
            && le16(store16(m, a as int, h), a as int) == h,
        access_check(a, 4, MemOps::Store) is Ok ==> access_check(a, 4, MemOps::Load) is Ok
            && le32(store32(m, a as int, w), a as int) == w
            && le32(store32(m, a as int, w), a as int) == le16(store32(m, a as int, w), a as int)
                + 0x1_0000 * le16(store32(m, a as int, w), a as int + 2),
        access_check(a, 8, MemOps::Store) is Ok ==> access_check(a, 8, MemOps::Load) is Ok
            && le64(store64(m, a as int, d), a as int) == d
            && le64(store64(m, a as int, d), a as int) == le32(store64(m, a as int, d), a as int)
                + 0x1_0000_0000 * le32(store64(m, a as int, d), a as int + 4),
{
    if access_check(a, 2, MemOps::Store) is Ok {
        lemma_store_load16(m, a as int, h);
    }
    if access_check(a, 4, MemOps::Store) is Ok {
        lemma_store_load32(m, a as int, w);
    }
    if access_check(a, 8, MemOps::Store) is Ok {
        lemma_store_load64(m, a as int, d);
    }
}

} // verus!
