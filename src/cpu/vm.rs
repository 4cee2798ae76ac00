//! Sv32 address translation and the virtual-memory accesses built on it.
use vstd::prelude::*;
use crate::cpu::csr::{MSTATUS, MSTATUS_SUM, SATP};
use crate::cpu::{Cpu, HartView, Mode};
use crate::exception::Exception;
use crate::memory::{access_check, access_fault, le16, le32, le64, store16, store32, store64, MemOps, MEMORY_SIZE};

verus! {

/// `satp.MODE`: translation is on when this bit is set.
pub const SATP_SV32: u32 = 0x8000_0000;
/// `satp.PPN`: the page number of the root page table.
pub const SATP_PPN: u32 = 0x003F_FFFF;

pub const PTE_V: u32 = 0x01;
pub const PTE_R: u32 = 0x02;
pub const PTE_W: u32 = 0x04;
pub const PTE_X: u32 = 0x08;
pub const PTE_U: u32 = 0x10;

/// The page fault raised by an access of kind `ops`.
pub open spec fn page_fault_of(ops: MemOps) -> Exception {
    match ops {
        MemOps::Load => Exception::LoadPageFault,
        MemOps::Store => Exception::StoreAMOPageFault,
        MemOps::Fetch => Exception::InstructionPageFault,
    }
}

/// The page fault raised by an access of kind `ops`.
pub fn page_fault(ops: MemOps) -> (r: Exception)
    ensures
        r == page_fault_of(ops),
{
    match ops {
        MemOps::Load => Exception::LoadPageFault,
        MemOps::Store => Exception::StoreAMOPageFault,
        MemOps::Fetch => Exception::InstructionPageFault,
    }
}

/// The page-table entry at physical address `pa`; an entry outside memory
/// is an access fault of the kind of the access being translated.
pub open spec fn pt_read(m: Seq<u8>, pa: int, ops: MemOps) -> Result<u32, Exception> {
    if pa + 4 > MEMORY_SIZE || pa % 4 != 0 {
        Err(access_fault(ops))
    } else {
        Ok(le32(m, pa) as u32)
    }
}

/// Whether a leaf entry grants an access of kind `ops`.
pub open spec fn perm_ok(pte: u32, ops: MemOps) -> bool {
    match ops {
        MemOps::Load => pte & PTE_R != 0,
        MemOps::Store => pte & PTE_W != 0,
        MemOps::Fetch => pte & PTE_X != 0 && pte & PTE_R != 0,
    }
}

/// Whether the U bit of a leaf entry forbids the access in the current mode.
pub open spec fn user_bit_denies(s: HartView, pte: u32) -> bool {
    if pte & PTE_U != 0 {
        s.mode == Mode::Supervisor && s.csrs[MSTATUS as int] & (1u32 << MSTATUS_SUM) == 0
    } else {
        s.mode == Mode::User
    }
}

/// The two-level Sv32 walk of `va` from the root table named by `satp`.
pub open spec fn walk(s: HartView, satp: u32, va: u32, ops: MemOps) -> Result<u32, Exception> {
    let pde_pa = (satp & SATP_PPN) as int * 4096 + (va >> 22u32) as int * 4;
    match pt_read(s.ram, pde_pa, ops) {
        Err(e) => Err(e),
        Ok(pde) => if pde & PTE_V == 0 || pde & (PTE_R | PTE_W | PTE_X) != 0 {
            Err(page_fault_of(ops))
        } else {
            let pte_pa = (pde >> 10u32) as int * 4096 + ((va >> 12u32) & 0x3ff) as int * 4;
            match pt_read(s.ram, pte_pa, ops) {
                Err(e) => Err(e),
                Ok(pte) => if pte & PTE_V == 0 || user_bit_denies(s, pte) || !perm_ok(pte, ops) {
                    Err(page_fault_of(ops))
                } else {
                    let pa = (pte >> 10u32) as int * 4096 + (va & 0xfff) as int;
                    if pa > u32::MAX {
                        Err(access_fault(ops))
                    } else {
                        Ok(pa as u32)
                    }
                },
            }
        },
    }
}

/// The physical address of `va` for an access of kind `ops`: `va` itself
/// while `satp.MODE` is clear, else the result of the walk.
pub open spec fn translate(s: HartView, va: u32, ops: MemOps) -> Result<u32, Exception> {
    let satp = s.csrs[SATP as int];
    if satp & SATP_SV32 == 0 {
        Ok(va)
    } else {
        walk(s, satp, va, ops)
    }
}

/// The value of the `size`-byte read at physical address `pa`.
pub open spec fn phys_value(m: Seq<u8>, pa: u32, size: u32) -> int {
    if size == 1 {
        m[pa as int] as int
    } else if size == 2 {
        le16(m, pa as int)
    } else if size == 4 {
        le32(m, pa as int)
    } else {
        le64(m, pa as int)
    }
}

/// A virtual read of `size` bytes at `va`: translation, then the physical
/// check and read.
pub open spec fn vm_load(s: HartView, va: u32, size: u32, ops: MemOps) -> Result<int, Exception> {
    match translate(s, va, ops) {
        Err(e) => Err(e),
        Ok(pa) => match access_check(pa, size, ops) {
            Err(e) => Err(e),
            Ok(_) => Ok(phys_value(s.ram, pa, size)),
        },
    }
}

/// The memory after writing the low `size` bytes of `v` at physical `pa`.
pub open spec fn phys_store(m: Seq<u8>, pa: u32, size: u32, v: u64) -> Seq<u8> {
    if size == 1 {
        m.update(pa as int, v as u8)
    } else if size == 2 {
        store16(m, pa as int, v as u16)
    } else if size == 4 {
        store32(m, pa as int, v as u32)
    } else {
        store64(m, pa as int, v)
    }
}

/// A virtual write of the low `size` bytes of `v` at `va`: the memory after it.
pub open spec fn vm_store(s: HartView, va: u32, size: u32, v: u64) -> Result<Seq<u8>, Exception> {
    match translate(s, va, MemOps::Store) {
        Err(e) => Err(e),
        Ok(pa) => match access_check(pa, size, MemOps::Store) {
            Err(e) => Err(e),
            Ok(_) => Ok(phys_store(s.ram, pa, size, v)),
        },
    }
}

/// A fetch: a `pc` that is not a multiple of four is misaligned before
/// anything else; then the translated word is read.
pub open spec fn vm_fetch_spec(s: HartView, va: u32) -> Result<u32, Exception> {
    if va % 4 != 0 {
        Err(Exception::InstructionAddressMisaligned)
    } else {
        match vm_load(s, va, 4, MemOps::Fetch) {
            Err(e) => Err(e),
            Ok(v) => Ok(v as u32),
        }
    }
}

/// The state with memory replaced.
pub open spec fn with_ram(s: HartView, m: Seq<u8>) -> HartView {
    HartView { ram: m, ..s }
}

impl Cpu {
    /// Reads the page-table entry at `pa`.
    fn pt_entry(&self, pa: u64, ops: MemOps) -> (r: Result<u32, Exception>)
        requires
            self.wf(),
        ensures
            r == pt_read(self@.ram, pa as int, ops),
    {
        if pa > (MEMORY_SIZE - 4) as u64 {
            return Err(access_fault_exec(ops));
        }
        match self.ram.read32(pa as u32) {
            Ok(v) => Ok(v),
            Err(_) => Err(access_fault_exec(ops)),
        }
    }

    /// Walks the page tables rooted at `satp.PPN` for `va`.
    fn walkpgdir(&self, satp: u32, va: u32, ops: MemOps) -> (r: Result<u32, Exception>)
        requires
            self.wf(),
        ensures
            r == walk(self@, satp, va, ops),
    {
        let pde_pa = ((satp & SATP_PPN) as u64) * 4096 + ((va >> 22) as u64) * 4;
        let pde = self.pt_entry(pde_pa, ops)?;
        if pde & PTE_V == 0 || pde & (PTE_R | PTE_W | PTE_X) != 0 {
            return Err(page_fault(ops));
        }
        let pte_pa = ((pde >> 10) as u64) * 4096 + (((va >> 12) & 0x3ff) as u64) * 4;
        let pte = self.pt_entry(pte_pa, ops)?;
        if pte & PTE_V == 0 {
            return Err(page_fault(ops));
        }
        let denied = if pte & PTE_U != 0 {
            self.mode == Mode::Supervisor && self.csrs[MSTATUS] & (1u32 << MSTATUS_SUM) == 0
        } else {
            self.mode == Mode::User
        };
        let allowed = match ops {
            MemOps::Load => pte & PTE_R != 0,
            MemOps::Store => pte & PTE_W != 0,
            MemOps::Fetch => pte & PTE_X != 0 && pte & PTE_R != 0,
        };
        if denied || !allowed {
            return Err(page_fault(ops));
        }
        let pa = ((pte >> 10) as u64) * 4096 + ((va & 0xfff) as u64);
        if pa > u32::MAX as u64 {
            return Err(access_fault_exec(ops));
        }
        Ok(pa as u32)
    }

    /// Translates `va` for an access of kind `ops`.
    pub fn translate(&self, va: u32, ops: MemOps) -> (r: Result<u32, Exception>)
        requires
            self.wf(),
        ensures
            r == translate(self@, va, ops),
    {
        let satp = self.csrs[SATP];
        if satp & SATP_SV32 != 0 {
            self.walkpgdir(satp, va, ops)
        } else {
            Ok(va)
        }
    }

    /// Fetches the instruction word at virtual address `addr`.
    pub fn vm_fetch(&self, addr: u32) -> (r: Result<u32, Exception>)
        requires
            self.wf(),
        ensures
            r == vm_fetch_spec(self@, addr),
    {
        if addr % 4 != 0 {
            return Err(Exception::InstructionAddressMisaligned);
        }
        let pa = self.translate(addr, MemOps::Fetch)?;
        self.ram.fetch(pa)
    }

    /// Reads the byte at virtual address `addr`, zero-extended.
    pub fn vm_read8(&self, addr: u32) -> (r: Result<u32, Exception>)
        requires
            self.wf(),
        ensures
            r == (match vm_load(self@, addr, 1, MemOps::Load) {
                Err(e) => Err(e),
                Ok(v) => Ok(v as u32),
            }),
    {
        let pa = self.translate(addr, MemOps::Load)?;
        self.ram.read8(pa)
    }

    /// Reads the halfword at virtual address `addr`, zero-extended.
    pub fn vm_read16(&self, addr: u32) -> (r: Result<u32, Exception>)
        requires
            self.wf(),
        ensures
            r == (match vm_load(self@, addr, 2, MemOps::Load) {
                Err(e) => Err(e),
                Ok(v) => Ok(v as u32),
            }),
    {
        let pa = self.translate(addr, MemOps::Load)?;
        self.ram.read16(pa)
    }

    /// Reads the word at virtual address `addr`.
    pub fn vm_read32(&self, addr: u32) -> (r: Result<u32, Exception>)
        requires
            self.wf(),
        ensures
            r == (match vm_load(self@, addr, 4, MemOps::Load) {
                Err(e) => Err(e),
                Ok(v) => Ok(v as u32),
            }),
    {
        let pa = self.translate(addr, MemOps::Load)?;
        self.ram.read32(pa)
    }

    /// Reads the doubleword at virtual address `addr`.
    pub fn vm_read64(&self, addr: u32) -> (r: Result<u64, Exception>)
        requires
            self.wf(),
        ensures
            r == (match vm_load(self@, addr, 8, MemOps::Load) {
                Err(e) => Err(e),
                Ok(v) => Ok(v as u64),
            }),
    {
        let pa = self.translate(addr, MemOps::Load)?;
        self.ram.read64(pa)
    }

    /// Writes the byte `val` at virtual address `addr`.
    pub fn vm_write8(&mut self, addr: u32, val: u8) -> (r: Result<(), Exception>)
        requires
            old(self).wf(),
        ensures
            final(self).wf(),
            r is Ok == vm_store(old(self)@, addr, 1, val as u64) is Ok,
            r is Ok ==> final(self)@ == with_ram(old(self)@, vm_store(old(self)@, addr, 1, val as u64)->Ok_0),
            r is Err ==> final(self)@ == old(self)@ && r == Err::<(), Exception>(vm_store(old(self)@, addr, 1, val as u64)->Err_0),
    {
        let pa = self.translate(addr, MemOps::Store)?;
        self.ram.write8(pa, val)
    }

    /// Writes the halfword `val` at virtual address `addr`.
    pub fn vm_write16(&mut self, addr: u32, val: u16) -> (r: Result<(), Exception>)
        requires
            old(self).wf(),
        ensures
            final(self).wf(),
            r is Ok == vm_store(old(self)@, addr, 2, val as u64) is Ok,
            r is Ok ==> final(self)@ == with_ram(old(self)@, vm_store(old(self)@, addr, 2, val as u64)->Ok_0),
            r is Err ==> final(self)@ == old(self)@ && r == Err::<(), Exception>(vm_store(old(self)@, addr, 2, val as u64)->Err_0),
    {
        let pa = self.translate(addr, MemOps::Store)?;
        self.ram.write16(pa, val)
    }

    /// Writes the word `val` at virtual address `addr`.
    pub fn vm_write32(&mut self, addr: u32, val: u32) -> (r: Result<(), Exception>)
        requires
            old(self).wf(),
        ensures
            final(self).wf(),
            r is Ok == vm_store(old(self)@, addr, 4, val as u64) is Ok,
            r is Ok ==> final(self)@ == with_ram(old(self)@, vm_store(old(self)@, addr, 4, val as u64)->Ok_0),
            r is Err ==> final(self)@ == old(self)@ && r == Err::<(), Exception>(vm_store(old(self)@, addr, 4, val as u64)->Err_0),
    {
        let pa = self.translate(addr, MemOps::Store)?;
        self.ram.write32(pa, val)
    }

    /// Writes the doubleword `val` at virtual address `addr`.
    pub fn vm_write64(&mut self, addr: u32, val: u64) -> (r: Result<(), Exception>)
        requires
            old(self).wf(),
        ensures
            final(self).wf(),
            r is Ok == vm_store(old(self)@, addr, 8, val) is Ok,
            r is Ok ==> final(self)@ == with_ram(old(self)@, vm_store(old(self)@, addr, 8, val)->Ok_0),
            r is Err ==> final(self)@ == old(self)@ && r == Err::<(), Exception>(vm_store(old(self)@, addr, 8, val)->Err_0),
    {
        let pa = self.translate(addr, MemOps::Store)?;
        self.ram.write64(pa, val)
    }
}

/// The access fault raised by an access of kind `ops`.
fn access_fault_exec(ops: MemOps) -> (r: Exception)
    ensures
        r == access_fault(ops),
{
    match ops {
        MemOps::Load => Exception::LoadAccessFault,
        MemOps::Store => Exception::StoreAMOAccessFault,
        MemOps::Fetch => Exception::InstructionAccessFault,
    }
}

/// With translation off, every virtual access is the physical access at the
/// same address.
pub proof fn lemma_bare_is_physical(s: HartView, va: u32, size: u32, ops: MemOps, v: u64)
    requires
        s.csrs[SATP as int] & SATP_SV32 == 0,
    ensures
        translate(s, va, ops) == Ok::<u32, Exception>(va),
        vm_load(s, va, size, ops) == (match access_check(va, size, ops) {
            Err(e) => Err(e),
            Ok(_) => Ok(phys_value(s.ram, va, size)),
        }),
        vm_store(s, va, size, v) == (match access_check(va, size, MemOps::Store) {
            Err(e) => Err(e),
            Ok(_) => Ok(phys_store(s.ram, va, size, v)),
        }),
{
}

} // verus!
