//! Taking a trap: choosing the target mode through the delegation registers,
//! and entering it.
use vstd::prelude::*;
use crate::bits::{bits_of, read_bit, with_bits, write_bit, write_bits};
use crate::cpu::csr::{
    csr_read,
    MCAUSE, MEDELEG, MEPC, MSTATUS, MSTATUS_MIE, MSTATUS_MPIE, MSTATUS_MPP, MSTATUS_SIE, MSTATUS_SPIE,
    MSTATUS_SPP, MSTATUS_UIE, MSTATUS_UPIE, MTVAL, MTVEC, SCAUSE, SEDELEG, SEPC, STVAL, STVEC, UCAUSE,
    UEPC, UTVAL, UTVEC,
};
use crate::cpu::{hart_wf, mode_code, Cpu, HartView, Mode};
use crate::exception::Exception;
use vstd::wrapping::u32_specs::{wrapping_add, wrapping_sub};

verus! {

/// Whether bit `code` of the delegation register value `deleg` is set.
pub open spec fn delegated(deleg: u32, code: u32) -> bool {
    deleg & (1u32 << code) != 0
}

/// The mode that takes an exception with cause `code` raised in the state `s`.
pub open spec fn trap_target(s: HartView, code: u32) -> Mode {
    if s.mode == Mode::User && delegated(s.csrs[MEDELEG as int], code) {
        if delegated(s.csrs[SEDELEG as int], code) {
            Mode::User
        } else {
            Mode::Supervisor
        }
    } else if s.mode == Mode::Supervisor && delegated(s.csrs[MEDELEG as int], code) {
        Mode::Supervisor
    } else {
        Mode::Machine
    }
}

/// Where a trap with cause `code` jumps through the vector `tvec`: to the
/// base in Direct mode, to `base + 4 * code` in Vectored mode.
pub open spec fn tvec_target(tvec: u32, code: u32) -> u32 {
    if tvec & 3 == 0 {
        tvec & !3u32
    } else {
        wrapping_add(tvec & !3u32, (4 * code) as u32)
    }
}

/// The exception-PC register of a mode.
pub open spec fn epc_of(m: Mode) -> usize {
    match m {
        Mode::Machine => MEPC,
        Mode::Supervisor => SEPC,
        Mode::User => UEPC,
    }
}

/// The cause register of a mode.
pub open spec fn cause_of(m: Mode) -> usize {
    match m {
        Mode::Machine => MCAUSE,
        Mode::Supervisor => SCAUSE,
        Mode::User => UCAUSE,
    }
}

/// The trap-value register of a mode.
pub open spec fn tval_of(m: Mode) -> usize {
    match m {
        Mode::Machine => MTVAL,
        Mode::Supervisor => STVAL,
        Mode::User => UTVAL,
    }
}

/// The trap-vector register of a mode.
pub open spec fn tvec_of(m: Mode) -> usize {
    match m {
        Mode::Machine => MTVEC,
        Mode::Supervisor => STVEC,
        Mode::User => UTVEC,
    }
}

/// `mstatus` after entering mode `t` from mode `from`: the target's IE bit
/// moves to its PIE bit and is cleared, and its PP field records `from`
/// (two bits for M, one for S, none for U).
pub open spec fn status_on_trap(ms: u32, t: Mode, from: Mode) -> u32 {
    match t {
        Mode::Machine => with_bits(
            with_bits(with_bits(ms, MSTATUS_MIE, MSTATUS_MIE, 0), MSTATUS_MPIE, MSTATUS_MPIE,
                bits_of(ms, MSTATUS_MIE, MSTATUS_MIE)),
            MSTATUS_MPP, 12, mode_code(from)),
        Mode::Supervisor => with_bits(
            with_bits(with_bits(ms, MSTATUS_SIE, MSTATUS_SIE, 0), MSTATUS_SPIE, MSTATUS_SPIE,
                bits_of(ms, MSTATUS_SIE, MSTATUS_SIE)),
            MSTATUS_SPP, MSTATUS_SPP, mode_code(from)),
        Mode::User => with_bits(with_bits(ms, MSTATUS_UIE, MSTATUS_UIE, 0), MSTATUS_UPIE,
            MSTATUS_UPIE, bits_of(ms, MSTATUS_UIE, MSTATUS_UIE)),
    }
}

/// The state after taking exception `e` in state `s`, whose `pc` is already
/// past the faulting instruction.
pub open spec fn trap_spec(s: HartView, e: Exception) -> HartView {
    let code = e.code();
    let t = trap_target(s, code);
    HartView {
        csrs: s.csrs.update(epc_of(t) as int, wrapping_sub(s.pc, 4)).update(cause_of(t) as int, code)
            .update(tval_of(t) as int, 0).update(MSTATUS as int,
            status_on_trap(s.csrs[MSTATUS as int], t, s.mode)),
        pc: tvec_target(s.csrs[tvec_of(t) as int], code),
        mode: t,
        ..s
    }
}

/// The bit facts on `mstatus` updates that trap entry and return rely on.
pub proof fn lemma_status_fields(x: u32, b: u32, v: u32, m: u32)
    by (bit_vector)
    requires
        b < 11,
        v <= 1,
        m <= 3,
    ensures
        (with_bits(x, b, b, v) >> 11u32) & 3 == (x >> 11u32) & 3,
        (with_bits(x, 11, 12, m) >> 11u32) & 3 == m,
        bits_of(x, b, b) <= 1,
        (x & !3u32) % 2 == 0,
        (x & !3u32) % 2 == 0 ==> ((x & !3u32) + 4 * m) % 2 == 0,
{
}

/// Trap entry keeps the invariant of the hart.
pub proof fn lemma_trap_wf(s: HartView, e: Exception)
    requires
        hart_wf(s),
    ensures
        hart_wf(trap_spec(s, e)),
{
    let ms = s.csrs[MSTATUS as int];
    let t = trap_target(s, e.code());
    let from = mode_code(s.mode);
    lemma_status_fields(ms, MSTATUS_MIE, 0, from);
    lemma_status_fields(ms, MSTATUS_SIE, 0, from);
    lemma_status_fields(ms, MSTATUS_UIE, 0, from);
    let m1 = with_bits(ms, MSTATUS_MIE, MSTATUS_MIE, 0);
    lemma_status_fields(m1, MSTATUS_MPIE, bits_of(ms, MSTATUS_MIE, MSTATUS_MIE), from);
    let m2 = with_bits(m1, MSTATUS_MPIE, MSTATUS_MPIE, bits_of(ms, MSTATUS_MIE, MSTATUS_MIE));
    lemma_status_fields(m2, MSTATUS_MIE, 0, from);
    let s1 = with_bits(ms, MSTATUS_SIE, MSTATUS_SIE, 0);
    lemma_status_fields(s1, MSTATUS_SPIE, bits_of(ms, MSTATUS_SIE, MSTATUS_SIE), 0);
    let s2 = with_bits(s1, MSTATUS_SPIE, MSTATUS_SPIE, bits_of(ms, MSTATUS_SIE, MSTATUS_SIE));
    if t == Mode::Supervisor {
        assert(from <= 1);
        lemma_status_fields(s2, MSTATUS_SPP, from, 0);
    }
    let tvec = s.csrs[tvec_of(t) as int];
    lemma_status_fields(tvec, 0, 0, 0);
    lemma_status_fields(tvec, 0, 0, 3);
    let u1 = with_bits(ms, MSTATUS_UIE, MSTATUS_UIE, 0);
    lemma_status_fields(u1, MSTATUS_UPIE, bits_of(ms, MSTATUS_UIE, MSTATUS_UIE), 0);
}

impl Cpu {
    /// Takes exception `e`: routes it through `medeleg`/`sedeleg`, records the
    /// faulting PC (`pc - 4`), the cause and a zero trap value in the target
    /// mode's CSRs, pushes the interrupt-enable stack, and jumps through the
    /// target's trap vector.
    pub fn trap(&mut self, e: Exception)
        requires
            old(self).wf(),
        ensures
            final(self).wf(),
            final(self)@ == trap_spec(old(self)@, e),
    {
        let ecode = e.exception_code();
        proof {
            lemma_trap_wf(self@, e);
        }
        let delegated_m = self.csrs[MEDELEG] & (1u32 << ecode) != 0;
        let mode = if self.mode == Mode::User && delegated_m {
            if self.csrs[SEDELEG] & (1u32 << ecode) != 0 {
                Mode::User
            } else {
                Mode::Supervisor
            }
        } else if self.mode == Mode::Supervisor && delegated_m {
            Mode::Supervisor
        } else {
            Mode::Machine
        };
        let (epc, cause, tval, tvec_addr) = match mode {
            Mode::Machine => (MEPC, MCAUSE, MTVAL, MTVEC),
            Mode::Supervisor => (SEPC, SCAUSE, STVAL, STVEC),
            Mode::User => (UEPC, UCAUSE, UTVAL, UTVEC),
        };
        let tvec = self.csrs[tvec_addr];
        let epc_val = self.pc.wrapping_sub(4);
        self.csrs.set(epc, epc_val);
        self.csrs.set(cause, ecode);
        self.csrs.set(tval, 0);
        self.pc = if tvec & 3 == 0 {
            tvec & !3u32
        } else {
            (tvec & !3u32).wrapping_add(4 * ecode)
        };
        let mut ms = self.csrs[MSTATUS];
        match mode {
            Mode::Machine => {
                let mpie = read_bit(ms, MSTATUS_MIE);
                write_bit(&mut ms, MSTATUS_MIE, 0);
                write_bit(&mut ms, MSTATUS_MPIE, mpie);
                write_bits(&mut ms, MSTATUS_MPP..MSTATUS_MPP + 1, self.mode.code());
            },
            Mode::Supervisor => {
                let spie = read_bit(ms, MSTATUS_SIE);
                write_bit(&mut ms, MSTATUS_SIE, 0);
                write_bit(&mut ms, MSTATUS_SPIE, spie);
                write_bit(&mut ms, MSTATUS_SPP, self.mode.code());
            },
            Mode::User => {
                let upie = read_bit(ms, MSTATUS_UIE);
                write_bit(&mut ms, MSTATUS_UIE, 0);
                write_bit(&mut ms, MSTATUS_UPIE, upie);
            },
        }
        self.csrs.set(MSTATUS, ms);
        self.mode = mode;
        proof {
            let s0 = old(self)@;
            assert(mode == trap_target(s0, ecode));
            assert(self.pc == tvec_target(s0.csrs[tvec_of(mode) as int], ecode));
            assert(ms == status_on_trap(s0.csrs[MSTATUS as int], mode, s0.mode));
            assert(self.csrs@ =~= trap_spec(s0, e).csrs);
        }
    }
}

/// A trap into mode `t` leaves the address of the faulting instruction
/// (`pc - 4`) in `t`'s exception-PC register, and `csrr` reads it back.
pub proof fn lemma_trap_epc(s: HartView, e: Exception)
    requires
        hart_wf(s),
    ensures
        trap_spec(s, e).mode == trap_target(s, e.code()),
        csr_read(trap_spec(s, e), epc_of(trap_target(s, e.code())) as int)
            == Ok::<u32, Exception>(wrapping_sub(s.pc, 4)),
{
}

} // verus!
