//! The hart: its registers, CSR bank and memory, and the step that fetches
//! and executes one instruction.
use vstd::prelude::*;
use crate::memory::{Memory, MEMORY_SIZE};
use crate::cpu::csr::{MEPC, MSTATUS, MTVEC, SEPC, STVEC, UEPC, UTVEC};

pub mod csr;
pub mod decode;
pub mod execute;
pub mod trap;
pub mod vm;

verus! {

/// Index of the stack pointer among the integer registers.
pub const SP: usize = 2;

/// Number of addresses in the CSR bank.
pub const NCSR: usize = 0x1000;

/// A privilege mode.
#[derive(Clone, Copy, Debug, PartialEq, Eq, Structural)]
pub enum Mode {
    User,
    Supervisor,
    Machine,
}

/// The two-bit encoding of a mode, as kept in `mstatus.MPP`.
pub open spec fn mode_code(m: Mode) -> u32 {
    match m {
        Mode::User => 0,
        Mode::Supervisor => 1,
        Mode::Machine => 3,
    }
}

impl Mode {
    /// The two-bit encoding of the mode.
    pub fn code(&self) -> (r: u32)
        ensures
            r == mode_code(*self),
    {
        match self {
            Mode::User => 0,
            Mode::Supervisor => 1,
            Mode::Machine => 3,
        }
    }
}

/// The architectural state of a hart, as plain values.
pub struct HartView {
    pub xregs: Seq<u32>,
    pub fregs: Seq<u64>,
    pub csrs: Seq<u32>,
    pub fcsr: u32,
    pub pc: u32,
    pub mode: Mode,
    pub ram: Seq<u8>,
}

/// One hart. Single-precision values live in the low 32 bits of `fregs`;
/// `fcsr` holds the accrued flags in bits 4..0 and `frm` in bits 7..5.
pub struct Cpu {
    pub xregs: Vec<u32>,
    pub fregs: Vec<u64>,
    pub csrs: Vec<u32>,
    pub fcsr: u32,
    pub pc: u32,
    pub mode: Mode,
    pub ram: Memory,
}

impl View for Cpu {
    type V = HartView;

    open spec fn view(&self) -> HartView {
        HartView {
            xregs: self.xregs@,
            fregs: self.fregs@,
            csrs: self.csrs@,
            fcsr: self.fcsr,
            pc: self.pc,
            mode: self.mode,
            ram: self.ram@,
        }
    }
}

/// The invariant of a hart's state: register files and memory have their
/// sizes, `x0` reads as zero, each trap vector holds a defined MODE, `mstatus.MPP`
/// holds a defined mode, `fcsr` has eight bits, and `pc` and the exception
/// PCs are even.
pub open spec fn hart_wf(s: HartView) -> bool {
    &&& s.xregs.len() == 32
    &&& s.fregs.len() == 32
    &&& s.csrs.len() == NCSR
    &&& s.ram.len() == MEMORY_SIZE
    &&& s.xregs[0] == 0
    &&& s.csrs[MTVEC as int] & 3 < 2
    &&& s.csrs[STVEC as int] & 3 < 2
    &&& s.csrs[UTVEC as int] & 3 < 2
    &&& (s.csrs[MSTATUS as int] >> 11u32) & 3 != 2
    &&& s.fcsr <= 0xff
    &&& s.pc % 2 == 0
    &&& s.csrs[MEPC as int] % 2 == 0
    &&& s.csrs[SEPC as int] % 2 == 0
    &&& s.csrs[UEPC as int] % 2 == 0
}

impl Cpu {
    /// The invariant of the hart.
    pub open spec fn wf(&self) -> bool {
        hart_wf(self@)
    }

    /// The hart at reset: `pc = 0`, Machine mode, every register and CSR zero
    /// except `x2`, which holds the top of memory, and memory all zeros.
    pub fn new() -> (r: Cpu)
        ensures
            r.wf(),
            r.pc == 0,
            r.mode == Mode::Machine,
            r.fcsr == 0,
            forall|i: int| 0 <= i < 32 ==> #[trigger] r.xregs@[i] == (if i == SP { MEMORY_SIZE } else { 0 }),
            forall|i: int| 0 <= i < 32 ==> #[trigger] r.fregs@[i] == 0,
            forall|i: int| 0 <= i < NCSR ==> #[trigger] r.csrs@[i] == 0,
            forall|i: int| 0 <= i < MEMORY_SIZE ==> #[trigger] r.ram@[i] == 0,
    {
        let mut xregs: Vec<u32> = vec![0u32; 32];
        xregs.set(SP, MEMORY_SIZE);
        let fregs: Vec<u64> = vec![0u64; 32];
        let csrs: Vec<u32> = vec![0u32; NCSR];
        proof {
            assert(csrs@[MSTATUS as int] == 0);
            assert((0u32 >> 11u32) & 3 == 0) by (bit_vector);
            assert(0u32 & 3 == 0) by (bit_vector);
        }
        Cpu { xregs, fregs, csrs, fcsr: 0, pc: 0, mode: Mode::Machine, ram: Memory::new() }
    }
}

} // verus!
