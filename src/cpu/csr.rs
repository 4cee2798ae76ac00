//! Control and status registers: addresses, and reads and writes through
//! their aliases.
use vstd::prelude::*;
use crate::cpu::{hart_wf, Cpu, HartView};
use crate::exception::Exception;

verus! {

pub const USTATUS: usize = 0x000;
pub const FFLAGS: usize = 0x001;
pub const FRM: usize = 0x002;
pub const FCSR: usize = 0x003;
pub const UIE: usize = 0x004;
pub const UTVEC: usize = 0x005;
pub const USCRATCH: usize = 0x040;
pub const UEPC: usize = 0x041;
pub const UCAUSE: usize = 0x042;
pub const UTVAL: usize = 0x043;
pub const UIP: usize = 0x044;
pub const SSTATUS: usize = 0x100;
pub const SEDELEG: usize = 0x102;
pub const SIDELEG: usize = 0x103;
pub const SIE: usize = 0x104;
pub const STVEC: usize = 0x105;
pub const SSCRATCH: usize = 0x140;
pub const SEPC: usize = 0x141;
pub const SCAUSE: usize = 0x142;
pub const STVAL: usize = 0x143;
pub const SIP: usize = 0x144;
pub const SATP: usize = 0x180;
pub const MSTATUS: usize = 0x300;
pub const MEDELEG: usize = 0x302;
pub const MIDELEG: usize = 0x303;
pub const MIE: usize = 0x304;
pub const MTVEC: usize = 0x305;
pub const MSCRATCH: usize = 0x340;
pub const MEPC: usize = 0x341;
pub const MCAUSE: usize = 0x342;
pub const MTVAL: usize = 0x343;
pub const MIP: usize = 0x344;
pub const MHARTID: usize = 0xF14;

// Bit positions in mstatus.
pub const MSTATUS_UIE: u32 = 0;
pub const MSTATUS_SIE: u32 = 1;
pub const MSTATUS_MIE: u32 = 3;
pub const MSTATUS_UPIE: u32 = 4;
pub const MSTATUS_SPIE: u32 = 5;
pub const MSTATUS_MPIE: u32 = 7;
pub const MSTATUS_SPP: u32 = 8;
pub const MSTATUS_MPP: u32 = 11;
pub const MSTATUS_SUM: u32 = 18;
pub const MSTATUS_TSR: u32 = 22;

/// The CSR addresses this hart implements.
pub open spec fn csr_implemented(a: int) -> bool {
    ||| a == USTATUS as int || a == UIE as int || a == UIP as int || a == UTVEC as int
    ||| a == USCRATCH as int || a == UEPC as int || a == UCAUSE as int || a == UTVAL as int
    ||| a == FFLAGS as int || a == FRM as int || a == FCSR as int
    ||| a == SSTATUS as int || a == SIE as int || a == SIP as int || a == STVEC as int
    ||| a == SSCRATCH as int || a == SEPC as int || a == SCAUSE as int || a == STVAL as int
    ||| a == SEDELEG as int || a == SIDELEG as int || a == SATP as int
    ||| a == MSTATUS as int || a == MTVEC as int || a == MIE as int || a == MIP as int
    ||| a == MSCRATCH as int || a == MEPC as int || a == MCAUSE as int || a == MTVAL as int
    ||| a == MHARTID as int || a == MEDELEG as int || a == MIDELEG as int
}

/// The value read from CSR `a`. The status, interrupt-enable and
/// interrupt-pending registers of S and U mode are views of the M-mode ones;
/// `fflags` and `frm` are the two fields of `fcsr`; `mhartid` is zero.
pub open spec fn csr_read(s: HartView, a: int) -> Result<u32, Exception> {
    if !csr_implemented(a) {
        Err(Exception::IllegalInstruction)
    } else if a == SSTATUS as int || a == USTATUS as int {
        Ok(s.csrs[MSTATUS as int])
    } else if a == SIP as int || a == UIP as int {
        Ok(s.csrs[MIP as int])
    } else if a == SIE as int || a == UIE as int {
        Ok(s.csrs[MIE as int])
    } else if a == FCSR as int {
        Ok(s.fcsr & 0xff)
    } else if a == FFLAGS as int {
        Ok(s.fcsr & 0x1f)
    } else if a == FRM as int {
        Ok((s.fcsr >> 5u32) & 7)
    } else if a == MHARTID as int {
        Ok(0)
    } else {
        Ok(s.csrs[a])
    }
}

/// The value a trap vector takes on a write of `v`: a defined MODE (0 or 1)
/// is stored with its base; any other MODE keeps the MODE held before.
pub open spec fn legal_tvec(old: u32, v: u32) -> u32 {
    if v & 3 < 2 {
        v
    } else {
        (v & !3u32) | (old & 3)
    }
}

/// The value `mstatus` takes on a write of `v`: an undefined MPP (2) keeps
/// the MPP held before.
pub open spec fn legal_status(old: u32, v: u32) -> u32 {
    if (v >> 11u32) & 3 == 2 {
        (v & !0x1800u32) | (old & 0x1800)
    } else {
        v
    }
}

/// The state after writing `v` to CSR `a`. Bit 0 of an exception PC
/// always reads as zero.
pub open spec fn csr_write(s: HartView, a: int, v: u32) -> Result<HartView, Exception> {
    if !csr_implemented(a) {
        Err(Exception::IllegalInstruction)
    } else if a == SSTATUS as int || a == USTATUS as int || a == MSTATUS as int {
        Ok(HartView { csrs: s.csrs.update(MSTATUS as int, legal_status(s.csrs[MSTATUS as int], v)), ..s })
    } else if a == SIP as int || a == UIP as int {
        Ok(HartView { csrs: s.csrs.update(MIP as int, v), ..s })
    } else if a == SIE as int || a == UIE as int {
        Ok(HartView { csrs: s.csrs.update(MIE as int, v), ..s })
    } else if a == FCSR as int {
        Ok(HartView { fcsr: v & 0xff, ..s })
    } else if a == FFLAGS as int {
        Ok(HartView { fcsr: (s.fcsr & !0x1fu32) | (v & 0x1f), ..s })
    } else if a == FRM as int {
        Ok(HartView { fcsr: (s.fcsr & !0xe0u32) | ((v & 7) << 5u32), ..s })
    } else if a == MTVEC as int || a == STVEC as int || a == UTVEC as int {
        Ok(HartView { csrs: s.csrs.update(a, legal_tvec(s.csrs[a], v)), ..s })
    } else if a == MEPC as int || a == SEPC as int || a == UEPC as int {
        Ok(HartView { csrs: s.csrs.update(a, v & !1u32), ..s })
    } else if a == MHARTID as int {
        Ok(s)
    } else {
        Ok(HartView { csrs: s.csrs.update(a, v), ..s })
    }
}

/// The facts on bits that keep the invariant across CSR writes.
proof fn lemma_legal_values(old: u32, v: u32, f: u32)
    by (bit_vector)
    requires
        f <= 0xff,
    ensures
        old & 3 < 2 ==> legal_tvec(old, v) & 3 < 2,
        (legal_status(old, v) >> 11u32) & 3 != 2 || (old >> 11u32) & 3 == 2,
        v & 0xff <= 0xff,
        (f & !0x1fu32) | (v & 0x1f) <= 0xff,
        (f & !0xe0u32) | ((v & 7) << 5u32) <= 0xff,
        (v & !1u32) % 2 == 0,
{
}

/// A write that succeeds keeps the invariant of the hart.
pub proof fn lemma_csr_write_wf(s: HartView, a: int, v: u32)
    requires
        hart_wf(s),
        csr_write(s, a, v) is Ok,
    ensures
        hart_wf(csr_write(s, a, v)->Ok_0),
{
    lemma_legal_values(s.csrs[a], v, s.fcsr);
    lemma_legal_values(s.csrs[MSTATUS as int], v, s.fcsr);
}

impl Cpu {
    /// Reads CSR `src`.
    pub fn csrr(&self, src: usize) -> (r: Result<u32, Exception>)
        requires
            self.wf(),
        ensures
            r == csr_read(self@, src as int),
    {
        if src == SSTATUS || src == USTATUS {
            Ok(self.csrs[MSTATUS])
        } else if src == SIP || src == UIP {
            Ok(self.csrs[MIP])
        } else if src == SIE || src == UIE {
            Ok(self.csrs[MIE])
        } else if src == FCSR {
            Ok(self.fcsr & 0xff)
        } else if src == FFLAGS {
            Ok(self.fcsr & 0x1f)
        } else if src == FRM {
            Ok((self.fcsr >> 5) & 7)
        } else if src == MHARTID {
            Ok(0)
        } else if is_implemented(src) {
            Ok(self.csrs[src])
        } else {
            Err(Exception::IllegalInstruction)
        }
    }

    /// Writes `imm` to CSR `dst`.
    pub fn csrw(&mut self, dst: usize, imm: u32) -> (r: Result<(), Exception>)
        requires
            old(self).wf(),
        ensures
            final(self).wf(),
            r is Ok == csr_write(old(self)@, dst as int, imm) is Ok,
            r is Ok ==> final(self)@ == csr_write(old(self)@, dst as int, imm)->Ok_0,
            r is Err ==> r == Err::<(), Exception>(Exception::IllegalInstruction) && final(self)@ == old(self)@,
    {
        if !is_implemented(dst) {
            return Err(Exception::IllegalInstruction);
        }
        proof {
            lemma_csr_write_wf(self@, dst as int, imm);
        }
        if dst == SSTATUS || dst == USTATUS || dst == MSTATUS {
            let old = self.csrs[MSTATUS];
            let v = if (imm >> 11) & 3 == 2 { (imm & !0x1800u32) | (old & 0x1800) } else { imm };
            self.csrs.set(MSTATUS, v);
        } else if dst == SIP || dst == UIP {
            self.csrs.set(MIP, imm);
        } else if dst == SIE || dst == UIE {
            self.csrs.set(MIE, imm);
        } else if dst == FCSR {
            self.fcsr = imm & 0xff;
        } else if dst == FFLAGS {
            self.fcsr = (self.fcsr & !0x1fu32) | (imm & 0x1f);
        } else if dst == FRM {
            self.fcsr = (self.fcsr & !0xe0u32) | ((imm & 7) << 5);
        } else if dst == MEPC || dst == SEPC || dst == UEPC {
            self.csrs.set(dst, imm & !1u32);
        } else if dst == MTVEC || dst == STVEC || dst == UTVEC {
            let old = self.csrs[dst];
            let v = if imm & 3 < 2 { imm } else { (imm & !3u32) | (old & 3) };
            self.csrs.set(dst, v);
        } else if dst == MHARTID {
        } else {
            self.csrs.set(dst, imm);
        }
        Ok(())
    }
}

/// Whether CSR address `a` is implemented.
pub fn is_implemented(a: usize) -> (r: bool)
    ensures
        r == csr_implemented(a as int),
{
    a == USTATUS || a == UIE || a == UIP || a == UTVEC || a == USCRATCH || a == UEPC
        || a == UCAUSE || a == UTVAL || a == FFLAGS || a == FRM || a == FCSR || a == SSTATUS
        || a == SIE || a == SIP || a == STVEC || a == SSCRATCH || a == SEPC || a == SCAUSE
        || a == STVAL || a == SEDELEG || a == SIDELEG || a == SATP || a == MSTATUS || a == MTVEC
        || a == MIE || a == MIP || a == MSCRATCH || a == MEPC || a == MCAUSE || a == MTVAL
        || a == MHARTID || a == MEDELEG || a == MIDELEG
}

} // verus!
