//! Decoding and executing one instruction.
use vstd::prelude::*;
use crate::cpu::decode::{
    fields, funct12_of, funct3_of, funct5_of, funct7_of, fmt_of, i_imm, imm_b, imm_i, imm_j, imm_s,
    imm_u, j_imm, b_imm, s_imm, lemma_even_offsets, lemma_field_bounds, opcode_of, rd_of, rs1_of, rs2_of, rs3_of, Fields,
};
use crate::bits::{bits_of, read_bit, read_bits, with_bits, write_bit, write_bits};
use crate::cpu::csr::{
    csr_read, csr_write, MEPC, MSTATUS, MSTATUS_MIE, MSTATUS_MPIE, MSTATUS_MPP,
    MSTATUS_SIE, MSTATUS_SPIE, MSTATUS_SPP, MSTATUS_TSR, SEPC,
};
use crate::cpu::trap::lemma_status_fields;
use crate::cpu::vm::{vm_fetch_spec, vm_load, vm_store, with_ram};
use crate::cpu::{hart_wf, Cpu, HartView, Mode};
use crate::exception::Exception;
use crate::fpu::{
    effective_rm, fclass32_spec, fmax, fmin, fp_value, fclass64_spec, fclass_32, fclass_64, fsgnj_32, fsgnj_64, resolve_rm,
    sgnj32_spec, sgnj64_spec, FpOp, FpRequest, RoundMode, SIGN32, SIGN64,
};
use crate::memory::MemOps;
use vstd::wrapping::u32_specs::{wrapping_add, wrapping_mul, wrapping_sub};

verus! {

/// What executing an instruction comes to: a next state, a floating-point
/// operation to be carried out by the soft-float layer (the state is then
/// unchanged), or an exception (the state is then unchanged).
pub enum Outcome {
    Next(HartView),
    Float(FpRequest),
    Raise(Exception),
}

/// `r` and the state `t` after the call agree with outcome `o` of executing
/// from state `s`.
pub open spec fn outcome_holds(s: HartView, t: HartView, r: Result<Option<FpRequest>, Exception>, o: Outcome) -> bool {
    match o {
        Outcome::Next(n) => r == Ok::<Option<FpRequest>, Exception>(None) && t == n,
        Outcome::Float(q) => r == Ok::<Option<FpRequest>, Exception>(Some(q)) && t == s,
        Outcome::Raise(e) => r == Err::<Option<FpRequest>, Exception>(e) && t == s,
    }
}

/// Integer register `r`.
pub open spec fn xr(s: HartView, r: u32) -> u32 {
    s.xregs[r as int]
}

/// The state with `x[rd]` set to `v`; a write to `x0` is dropped.
pub open spec fn set_x(s: HartView, rd: u32, v: u32) -> HartView {
    if rd == 0 {
        s
    } else {
        HartView { xregs: s.xregs.update(rd as int, v), ..s }
    }
}

/// The state with `f[rd]` set to `v`.
pub open spec fn set_f(s: HartView, rd: u32, v: u64) -> HartView {
    HartView { fregs: s.fregs.update(rd as int, v), ..s }
}

/// The state with `pc` set to `v`.
pub open spec fn set_pc(s: HartView, v: u32) -> HartView {
    HartView { pc: v, ..s }
}

/// The upper word of the signed-by-signed 64-bit product.
pub open spec fn mulh(a: u32, b: u32) -> u32 {
    (((a as i32 as i64) * (b as i32 as i64)) as i64 >> 32u64) as u32
}

/// The upper word of the signed-by-unsigned 64-bit product.
pub open spec fn mulhsu(a: u32, b: u32) -> u32 {
    (((a as i32 as i64) * (b as i64)) as i64 >> 32u64) as u32
}

/// The upper word of the unsigned-by-unsigned 64-bit product.
pub open spec fn mulhu(a: u32, b: u32) -> u32 {
    (((a as u64) * (b as u64)) as u64 >> 32u64) as u32
}

/// Signed division rounding towards zero; all ones for a zero divisor, and
/// the dividend for the overflowing `i32::MIN / -1`.
pub open spec fn div_s(a: u32, b: u32) -> u32 {
    if b == 0 {
        0xffff_ffff
    } else {
        match (a as i32).checked_div(b as i32) {
            Some(q) => q as u32,
            None => a,
        }
    }
}

/// Unsigned division; all ones for a zero divisor.
pub open spec fn div_u(a: u32, b: u32) -> u32 {
    if b == 0 {
        0xffff_ffff
    } else {
        a / b
    }
}

/// The remainder of signed division rounding towards zero; the dividend for
/// a zero divisor, and 0 for the overflowing `i32::MIN % -1`.
pub open spec fn rem_s(a: u32, b: u32) -> u32 {
    if b == 0 {
        a
    } else {
        match (a as i32).checked_rem(b as i32) {
            Some(q) => q as u32,
            None => 0,
        }
    }
}

/// The unsigned remainder; the dividend for a zero divisor.
pub open spec fn rem_u(a: u32, b: u32) -> u32 {
    if b == 0 {
        a
    } else {
        a % b
    }
}

/// The register-register operation selected by funct3 and funct7 on `a`
/// and `b`; `None` for an encoding that names none.
pub open spec fn alu_r(funct3: u32, funct7: u32, a: u32, b: u32) -> Option<u32> {
    if funct7 == 0 {
        if funct3 == 0 {
            Some(wrapping_add(a, b))
        } else if funct3 == 1 {
            Some(a << (b & 0x1f))
        } else if funct3 == 2 {
            Some(if (a as i32) < (b as i32) { 1u32 } else { 0u32 })
        } else if funct3 == 3 {
            Some(if a < b { 1u32 } else { 0u32 })
        } else if funct3 == 4 {
            Some(a ^ b)
        } else if funct3 == 5 {
            Some(a >> (b & 0x1f))
        } else if funct3 == 6 {
            Some(a | b)
        } else {
            Some(a & b)
        }
    } else if funct7 == 0x20 {
        if funct3 == 0 {
            Some(wrapping_sub(a, b))
        } else if funct3 == 5 {
            Some(((a as i32) >> (b & 0x1f)) as u32)
        } else {
            None
        }
    } else if funct7 == 1 {
        if funct3 == 0 {
            Some(wrapping_mul(a, b))
        } else if funct3 == 1 {
            Some(mulh(a, b))
        } else if funct3 == 2 {
            Some(mulhsu(a, b))
        } else if funct3 == 3 {
            Some(mulhu(a, b))
        } else if funct3 == 4 {
            Some(div_s(a, b))
        } else if funct3 == 5 {
            Some(div_u(a, b))
        } else if funct3 == 6 {
            Some(rem_s(a, b))
        } else {
            Some(rem_u(a, b))
        }
    } else {
        None
    }
}

/// The register-immediate operation selected by funct3 on `a` and the
/// sign-extended immediate `imm`; shifts take their amount from the low five
/// bits of `imm` and their kind from its upper seven bits.
pub open spec fn alu_i(funct3: u32, a: u32, imm: u32) -> Option<u32> {
    let shamt = imm & 0x1f;
    let f7 = (imm >> 5u32) & 0x7f;
    if funct3 == 0 {
        Some(wrapping_add(a, imm))
    } else if funct3 == 1 {
        if f7 == 0 { Some(a << shamt) } else { None }
    } else if funct3 == 2 {
        Some(if (a as i32) < (imm as i32) { 1u32 } else { 0u32 })
    } else if funct3 == 3 {
        Some(if a < imm { 1u32 } else { 0u32 })
    } else if funct3 == 4 {
        Some(a ^ imm)
    } else if funct3 == 5 {
        if f7 == 0 {
            Some(a >> shamt)
        } else if f7 == 0x20 {
            Some(((a as i32) >> shamt) as u32)
        } else {
            None
        }
    } else if funct3 == 6 {
        Some(a | imm)
    } else {
        Some(a & imm)
    }
}

/// Whether the branch selected by funct3 is taken; `None` for funct3 2 and 3.
pub open spec fn branch_taken(funct3: u32, a: u32, b: u32) -> Option<bool> {
    if funct3 == 0 {
        Some(a == b)
    } else if funct3 == 1 {
        Some(a != b)
    } else if funct3 == 4 {
        Some((a as i32) < (b as i32))
    } else if funct3 == 5 {
        Some((a as i32) >= (b as i32))
    } else if funct3 == 6 {
        Some(a < b)
    } else if funct3 == 7 {
        Some(a >= b)
    } else {
        None
    }
}

/// OP: register-register arithmetic.
pub open spec fn op_spec(s: HartView, inst: u32) -> Outcome {
    match alu_r(funct3_of(inst), funct7_of(inst), xr(s, rs1_of(inst)), xr(s, rs2_of(inst))) {
        Some(v) => Outcome::Next(set_x(s, rd_of(inst), v)),
        None => Outcome::Raise(Exception::IllegalInstruction),
    }
}

/// OP-IMM: register-immediate arithmetic.
pub open spec fn op_imm_spec(s: HartView, inst: u32) -> Outcome {
    match alu_i(funct3_of(inst), xr(s, rs1_of(inst)), imm_i(inst)) {
        Some(v) => Outcome::Next(set_x(s, rd_of(inst), v)),
        None => Outcome::Raise(Exception::IllegalInstruction),
    }
}

/// Sign extension of the low byte and the low halfword.
pub open spec fn sext8(v: u32) -> u32 {
    v as u8 as i8 as i32 as u32
}

pub open spec fn sext16(v: u32) -> u32 {
    v as u16 as i16 as i32 as u32
}

/// LOAD: LB, LH, LW sign-extend; LBU, LHU zero-extend.
pub open spec fn load_spec(s: HartView, inst: u32) -> Outcome {
    let f3 = funct3_of(inst);
    let addr = wrapping_add(xr(s, rs1_of(inst)), imm_i(inst));
    let size: u32 = if f3 == 0 || f3 == 4 { 1 } else if f3 == 1 || f3 == 5 { 2 } else { 4 };
    if !(f3 == 0 || f3 == 1 || f3 == 2 || f3 == 4 || f3 == 5) {
        Outcome::Raise(Exception::IllegalInstruction)
    } else {
        match vm_load(s, addr, size, MemOps::Load) {
            Err(e) => Outcome::Raise(e),
            Ok(v) => Outcome::Next(set_x(s, rd_of(inst),
                if f3 == 0 { sext8(v as u32) } else if f3 == 1 { sext16(v as u32) } else { v as u32 })),
        }
    }
}

/// STORE: SB, SH, SW write the low 1, 2 or 4 bytes of `x[rs2]`.
pub open spec fn store_spec(s: HartView, inst: u32) -> Outcome {
    let f3 = funct3_of(inst);
    let addr = wrapping_add(xr(s, rs1_of(inst)), imm_s(inst));
    let size: u32 = if f3 == 0 { 1 } else if f3 == 1 { 2 } else { 4 };
    if f3 > 2 {
        Outcome::Raise(Exception::IllegalInstruction)
    } else {
        match vm_store(s, addr, size, xr(s, rs2_of(inst)) as u64) {
            Err(e) => Outcome::Raise(e),
            Ok(m) => Outcome::Next(with_ram(s, m)),
        }
    }
}

/// The target of a taken branch or a JAL: `pc` already points past the
/// instruction, so the offset is taken from `pc - 4`.
pub open spec fn rel_target(pc: u32, imm: u32) -> u32 {
    wrapping_sub(wrapping_add(pc, imm), 4)
}

/// BRANCH: compare two registers and jump when the condition holds.
pub open spec fn branch_spec(s: HartView, inst: u32) -> Outcome {
    match branch_taken(funct3_of(inst), xr(s, rs1_of(inst)), xr(s, rs2_of(inst))) {
        None => Outcome::Raise(Exception::IllegalInstruction),
        Some(taken) => Outcome::Next(if taken { set_pc(s, rel_target(s.pc, imm_b(inst))) } else { s }),
    }
}

/// JAL: link the address after the jump and jump.
pub open spec fn jal_spec(s: HartView, inst: u32) -> Outcome {
    Outcome::Next(set_pc(set_x(s, rd_of(inst), s.pc), rel_target(s.pc, imm_j(inst))))
}

/// JALR: jump to `x[rs1] + imm` with bit 0 cleared, linking the address after it.
pub open spec fn jalr_spec(s: HartView, inst: u32) -> Outcome {
    if funct3_of(inst) != 0 {
        Outcome::Raise(Exception::IllegalInstruction)
    } else {
        Outcome::Next(set_pc(set_x(s, rd_of(inst), s.pc),
            wrapping_add(xr(s, rs1_of(inst)), imm_i(inst)) & !1u32))
    }
}

/// MISC-MEM: FENCE and FENCE.I order nothing on a single hart.
pub open spec fn fence_spec(s: HartView, inst: u32) -> Outcome {
    if funct3_of(inst) <= 1 {
        Outcome::Next(s)
    } else {
        Outcome::Raise(Exception::IllegalInstruction)
    }
}

/// The mode an xPP field value names.
pub open spec fn mode_of_code(c: u32) -> Mode {
    if c == 0 {
        Mode::User
    } else if c == 1 {
        Mode::Supervisor
    } else {
        Mode::Machine
    }
}

/// `mstatus` after MRET: MIE takes MPIE, MPIE is set, MPP becomes U.
pub open spec fn status_after_mret(ms: u32) -> u32 {
    with_bits(with_bits(with_bits(ms, MSTATUS_MIE, MSTATUS_MIE, bits_of(ms, MSTATUS_MPIE, MSTATUS_MPIE)),
        MSTATUS_MPIE, MSTATUS_MPIE, 1), MSTATUS_MPP, 12, 0)
}

/// `mstatus` after SRET: SIE takes SPIE, SPIE is set, SPP becomes U.
pub open spec fn status_after_sret(ms: u32) -> u32 {
    with_bits(with_bits(with_bits(ms, MSTATUS_SIE, MSTATUS_SIE, bits_of(ms, MSTATUS_SPIE, MSTATUS_SPIE)),
        MSTATUS_SPIE, MSTATUS_SPIE, 1), MSTATUS_SPP, MSTATUS_SPP, 0)
}

/// MRET: legal in Machine mode only; returns to `mepc` in the mode held in MPP.
pub open spec fn mret_spec(s: HartView) -> Outcome {
    let ms = s.csrs[MSTATUS as int];
    if s.mode != Mode::Machine {
        Outcome::Raise(Exception::IllegalInstruction)
    } else {
        Outcome::Next(HartView {
            pc: s.csrs[MEPC as int],
            mode: mode_of_code(bits_of(ms, MSTATUS_MPP, 12)),
            csrs: s.csrs.update(MSTATUS as int, status_after_mret(ms)),
            ..s
        })
    }
}

/// SRET: illegal in User mode and while `mstatus.TSR` is set; returns to
/// `sepc` in the mode held in SPP.
pub open spec fn sret_spec(s: HartView) -> Outcome {
    let ms = s.csrs[MSTATUS as int];
    if bits_of(ms, MSTATUS_TSR, MSTATUS_TSR) != 0 || s.mode == Mode::User {
        Outcome::Raise(Exception::IllegalInstruction)
    } else {
        Outcome::Next(HartView {
            pc: s.csrs[SEPC as int],
            mode: if bits_of(ms, MSTATUS_SPP, MSTATUS_SPP) == 0 { Mode::User } else { Mode::Supervisor },
            csrs: s.csrs.update(MSTATUS as int, status_after_sret(ms)),
            ..s
        })
    }
}

/// The environment call raised in mode `m`.
pub open spec fn ecall_of(m: Mode) -> Exception {
    match m {
        Mode::User => Exception::EnvironmentCallFromUMode,
        Mode::Supervisor => Exception::EnvironmentCallFromSMode,
        Mode::Machine => Exception::EnvironmentCallFromMMode,
    }
}

/// CSRRW/CSRRS/CSRRC and their immediate forms: `x[rd]` receives the old
/// value; the CSR receives the source, or the old value with the source's
/// bits set or cleared. Set and clear write nothing when the rs1 field is 0.
pub open spec fn csr_op_spec(s: HartView, inst: u32) -> Outcome {
    let f3 = funct3_of(inst);
    let csr = funct12_of(inst) as int;
    let rs1 = rs1_of(inst);
    let src = if f3 >= 5 { rs1 } else { xr(s, rs1) };
    match csr_read(s, csr) {
        Err(e) => Outcome::Raise(e),
        Ok(old) => if (f3 == 2 || f3 == 3 || f3 == 6 || f3 == 7) && rs1 == 0 {
            Outcome::Next(set_x(s, rd_of(inst), old))
        } else {
            let v = if f3 == 1 || f3 == 5 { src } else if f3 == 2 || f3 == 6 { old | src } else { old & !src };
            match csr_write(s, csr, v) {
                Err(e) => Outcome::Raise(e),
                Ok(t) => Outcome::Next(set_x(t, rd_of(inst), old)),
            }
        },
    }
}

/// SYSTEM: environment call and breakpoint, the trap returns, WFI and
/// SFENCE.VMA (no-ops here), and the CSR instructions.
pub open spec fn system_spec(s: HartView, inst: u32) -> Outcome {
    let f3 = funct3_of(inst);
    let f12 = funct12_of(inst);
    if f3 == 0 {
        if f12 == 0 {
            Outcome::Raise(ecall_of(s.mode))
        } else if f12 == 1 {
            Outcome::Raise(Exception::Breakpoint)
        } else if f12 == 0x002 || f12 == 0x105 {
            Outcome::Next(s)
        } else if f12 == 0x102 {
            sret_spec(s)
        } else if f12 == 0x302 {
            mret_spec(s)
        } else if funct7_of(inst) == 0x09 {
            Outcome::Next(s)
        } else {
            Outcome::Raise(Exception::IllegalInstruction)
        }
    } else if f3 == 4 {
        Outcome::Raise(Exception::IllegalInstruction)
    } else {
        csr_op_spec(s, inst)
    }
}

/// Whether funct5 names a read-modify-write AMO.
pub open spec fn amo_known(f5: u32) -> bool {
    f5 == 0x00 || f5 == 0x01 || f5 == 0x04 || f5 == 0x08 || f5 == 0x0c || f5 == 0x10 || f5 == 0x14
        || f5 == 0x18 || f5 == 0x1c
}

/// The value an AMO stores, from the loaded value and `x[rs2]`.
pub open spec fn amo_value(f5: u32, old: u32, src: u32) -> u32 {
    if f5 == 0x01 {
        src
    } else if f5 == 0x00 {
        wrapping_add(old, src)
    } else if f5 == 0x04 {
        old ^ src
    } else if f5 == 0x0c {
        old & src
    } else if f5 == 0x08 {
        old | src
    } else if f5 == 0x10 {
        if (old as i32) < (src as i32) { old } else { src }
    } else if f5 == 0x14 {
        if (old as i32) > (src as i32) { old } else { src }
    } else if f5 == 0x18 {
        if old < src { old } else { src }
    } else {
        if old > src { old } else { src }
    }
}

/// AMO: LR.W loads; SC.W stores and always succeeds, writing 0 to `rd`; the
/// other AMOs load the word at `x[rs1]` into `rd` and store the combined
/// value. SC and the AMOs need a word-aligned address.
pub open spec fn amo_spec(s: HartView, inst: u32) -> Outcome {
    let f5 = funct5_of(inst);
    let addr = xr(s, rs1_of(inst));
    let src = xr(s, rs2_of(inst));
    if funct3_of(inst) != 2 {
        Outcome::Raise(Exception::IllegalInstruction)
    } else if f5 == 0x02 {
        match vm_load(s, addr, 4, MemOps::Load) {
            Err(e) => Outcome::Raise(e),
            Ok(v) => Outcome::Next(set_x(s, rd_of(inst), v as u32)),
        }
    } else if !(f5 == 0x03 || amo_known(f5)) {
        Outcome::Raise(Exception::IllegalInstruction)
    } else if addr % 4 != 0 {
        Outcome::Raise(Exception::StoreAMOAddressMisaligned)
    } else if f5 == 0x03 {
        match vm_store(s, addr, 4, src as u64) {
            Err(e) => Outcome::Raise(e),
            Ok(m) => Outcome::Next(set_x(with_ram(s, m), rd_of(inst), 0)),
        }
    } else {
        match vm_load(s, addr, 4, MemOps::Load) {
            Err(e) => Outcome::Raise(e),
            Ok(v) => match vm_store(s, addr, 4, amo_value(f5, v as u32, src) as u64) {
                Err(e) => Outcome::Raise(e),
                Ok(m) => Outcome::Next(set_x(with_ram(s, m), rd_of(inst), v as u32)),
            },
        }
    }
}

/// Floating-point register `r` as an operand: the whole register for
/// binary64, its low word for binary32.
pub open spec fn fsrc(s: HartView, r: u32, double: bool) -> u64 {
    if double {
        s.fregs[r as int]
    } else {
        s.fregs[r as int] as u32 as u64
    }
}

/// `x` with its sign flipped, as binary64 or binary32.
pub open spec fn fneg(x: u64, double: bool) -> u64 {
    if double {
        x ^ SIGN64
    } else {
        x ^ (SIGN32 as u64)
    }
}

/// A floating-point request from its fields.
pub open spec fn fp_req(op: FpOp, double: bool, a: u64, b: u64, c: u64, rm: RoundMode, rd: u32, to_x: bool) -> FpRequest {
    FpRequest { op, double, a, b, c, rm, rd, to_x }
}

/// LOAD-FP: FLW and FLD.
pub open spec fn load_fp_spec(s: HartView, inst: u32) -> Outcome {
    let f3 = funct3_of(inst);
    let addr = wrapping_add(xr(s, rs1_of(inst)), imm_i(inst));
    if f3 != 2 && f3 != 3 {
        Outcome::Raise(Exception::IllegalInstruction)
    } else {
        match vm_load(s, addr, if f3 == 2 { 4 } else { 8 }, MemOps::Load) {
            Err(e) => Outcome::Raise(e),
            Ok(v) => Outcome::Next(set_f(s, rd_of(inst), v as u64)),
        }
    }
}

/// STORE-FP: FSW and FSD.
pub open spec fn store_fp_spec(s: HartView, inst: u32) -> Outcome {
    let f3 = funct3_of(inst);
    let addr = wrapping_add(xr(s, rs1_of(inst)), imm_s(inst));
    if f3 != 2 && f3 != 3 {
        Outcome::Raise(Exception::IllegalInstruction)
    } else {
        match vm_store(s, addr, if f3 == 2 { 4 } else { 8 }, s.fregs[rs2_of(inst) as int]) {
            Err(e) => Outcome::Raise(e),
            Ok(m) => Outcome::Next(with_ram(s, m)),
        }
    }
}

/// The arithmetic operation of OP-FP funct5 0..3 and 0x0b.
pub open spec fn arith_op(f5: u32) -> FpOp {
    if f5 == 0 {
        FpOp::Add
    } else if f5 == 1 {
        FpOp::Sub
    } else if f5 == 2 {
        FpOp::Mul
    } else if f5 == 3 {
        FpOp::Div
    } else {
        FpOp::Sqrt
    }
}

/// OP-FP with a rounding mode: `op` on the given operands, or an illegal
/// instruction when the rounding mode is invalid.
pub open spec fn rounded(s: HartView, inst: u32, op: FpOp, double: bool, a: u64, b: u64, c: u64, to_x: bool) -> Outcome {
    match effective_rm(funct3_of(inst), s.fcsr) {
        None => Outcome::Raise(Exception::IllegalInstruction),
        Some(rm) => Outcome::Float(fp_req(op, double, a, b, c, rm, rd_of(inst), to_x)),
    }
}

/// OP-FP: arithmetic, sign injection, min/max, conversions, comparisons,
/// moves and classification, on binary32 (fmt 0) or binary64 (fmt 1).
pub open spec fn op_fp_spec(s: HartView, inst: u32) -> Outcome {
    let fmt = fmt_of(inst);
    let d = fmt == 1;
    let f5 = funct5_of(inst);
    let f3 = funct3_of(inst);
    let rd = rd_of(inst);
    let rs1 = rs1_of(inst);
    let rs2 = rs2_of(inst);
    let a = fsrc(s, rs1, d);
    let b = fsrc(s, rs2, d);
    let ill = Outcome::Raise(Exception::IllegalInstruction);
    if fmt > 1 {
        ill
    } else if f5 <= 3 || f5 == 0x0b {
        rounded(s, inst, arith_op(f5), d, a, b, 0, false)
    } else if f5 == 0x04 {
        if d {
            match sgnj64_spec(a, b, f3) {
                Some(v) => Outcome::Next(set_f(s, rd, v)),
                None => ill,
            }
        } else {
            match sgnj32_spec(a as u32, b as u32, f3) {
                Some(v) => Outcome::Next(set_f(s, rd, v as u64)),
                None => ill,
            }
        }
    } else if f5 == 0x05 {
        if f3 == 0 {
            Outcome::Float(fp_req(FpOp::Min, d, a, b, 0, RoundMode::RNE, rd, false))
        } else if f3 == 1 {
            Outcome::Float(fp_req(FpOp::Max, d, a, b, 0, RoundMode::RNE, rd, false))
        } else {
            ill
        }
    } else if f5 == 0x08 {
        if !d && rs2 == 1 {
            rounded(s, inst, FpOp::ToSingle, true, s.fregs[rs1 as int], 0, 0, false)
        } else if d && rs2 == 0 {
            rounded(s, inst, FpOp::ToDouble, false, s.fregs[rs1 as int] as u32 as u64, 0, 0, false)
        } else {
            ill
        }
    } else if f5 == 0x18 {
        if rs2 == 0 {
            rounded(s, inst, FpOp::ToInt, d, a, 0, 0, true)
        } else if rs2 == 1 {
            rounded(s, inst, FpOp::ToUint, d, a, 0, 0, true)
        } else {
            ill
        }
    } else if f5 == 0x1a {
        if rs2 == 0 {
            rounded(s, inst, FpOp::FromInt, d, xr(s, rs1) as u64, 0, 0, false)
        } else if rs2 == 1 {
            rounded(s, inst, FpOp::FromUint, d, xr(s, rs1) as u64, 0, 0, false)
        } else {
            ill
        }
    } else if f5 == 0x14 {
        if f3 == 2 {
            Outcome::Float(fp_req(FpOp::Eq, d, a, b, 0, RoundMode::RNE, rd, true))
        } else if f3 == 1 {
            Outcome::Float(fp_req(FpOp::Lt, d, a, b, 0, RoundMode::RNE, rd, true))
        } else if f3 == 0 {
            Outcome::Float(fp_req(FpOp::Le, d, a, b, 0, RoundMode::RNE, rd, true))
        } else {
            ill
        }
    } else if f5 == 0x1c && rs2 == 0 {
        if f3 == 0 && !d {
            Outcome::Next(set_x(s, rd, a as u32))
        } else if f3 == 1 {
            Outcome::Next(set_x(s, rd, if d { fclass64_spec(a) } else { fclass32_spec(a as u32) }))
        } else {
            ill
        }
    } else if f5 == 0x1e && rs2 == 0 && f3 == 0 && !d {
        Outcome::Next(set_f(s, rd, xr(s, rs1) as u64))
    } else {
        ill
    }
}

/// FMADD, FMSUB, FNMSUB, FNMADD: one fused multiply-add, with the product
/// and the addend negated as the opcode says.
pub open spec fn fma_spec(s: HartView, inst: u32) -> Outcome {
    let op = opcode_of(inst);
    let fmt = fmt_of(inst);
    let d = fmt == 1;
    let a = fsrc(s, rs1_of(inst), d);
    let b = fsrc(s, rs2_of(inst), d);
    let c = fsrc(s, rs3_of(inst), d);
    let neg_a = op == 0x4b || op == 0x4f;
    let neg_c = op == 0x47 || op == 0x4f;
    if fmt > 1 {
        Outcome::Raise(Exception::IllegalInstruction)
    } else {
        rounded(s, inst, FpOp::MulAdd, d, if neg_a { fneg(a, d) } else { a }, b,
            if neg_c { fneg(c, d) } else { c }, false)
    }
}

/// The state after committing the result of request `q`: the destination
/// register takes `result` (its low word for an integer register), and the
/// exception flags `flags` are ORed into `fcsr`.
pub open spec fn fp_commit(s: HartView, q: FpRequest, result: u64, flags: u32) -> HartView {
    let v = fp_value(q, result);
    let t = if q.to_x { set_x(s, q.rd, v as u32) } else { set_f(s, q.rd, v) };
    HartView { fcsr: t.fcsr | (flags & 0x1f), ..t }
}

/// The semantics of one instruction word, executed with `pc` already past it.
pub open spec fn exec_spec(s: HartView, inst: u32) -> Outcome {
    let op = opcode_of(inst);
    if op == 0x33 {
        op_spec(s, inst)
    } else if op == 0x13 {
        op_imm_spec(s, inst)
    } else if op == 0x03 {
        load_spec(s, inst)
    } else if op == 0x23 {
        store_spec(s, inst)
    } else if op == 0x63 {
        branch_spec(s, inst)
    } else if op == 0x6f {
        jal_spec(s, inst)
    } else if op == 0x67 {
        jalr_spec(s, inst)
    } else if op == 0x37 {
        Outcome::Next(set_x(s, rd_of(inst), imm_u(inst)))
    } else if op == 0x17 {
        Outcome::Next(set_x(s, rd_of(inst), rel_target(s.pc, imm_u(inst))))
    } else if op == 0x0f {
        fence_spec(s, inst)
    } else if op == 0x73 {
        system_spec(s, inst)
    } else if op == 0x2f {
        amo_spec(s, inst)
    } else if op == 0x07 {
        load_fp_spec(s, inst)
    } else if op == 0x27 {
        store_fp_spec(s, inst)
    } else if op == 0x53 {
        op_fp_spec(s, inst)
    } else if op == 0x43 || op == 0x47 || op == 0x4b || op == 0x4f {
        fma_spec(s, inst)
    } else {
        Outcome::Raise(Exception::IllegalInstruction)
    }
}

/// The shift amount taken from the low five bits of a register.
proof fn lemma_mask5(b: u32)
    by (bit_vector)
    ensures
        b & 0x1f < 32,
        (b & 0x1f) & 0x1f == b & 0x1f,
        (b >> 5u32) & 0x7f < 128,
{
}

/// ORing flags into `fcsr` keeps it to eight bits and keeps every flag
/// that was set.
pub proof fn lemma_flags_or(fcsr: u32, flags: u32)
    by (bit_vector)
    ensures
        fcsr <= 0xff ==> fcsr | (flags & 0x1f) <= 0xff,
        (fcsr | (flags & 0x1f)) & 0x1f & (fcsr & 0x1f) == fcsr & 0x1f,
        (fcsr | (flags & 0x1f)) & 0xe0 == fcsr & 0xe0,
{
}

impl Cpu {
    /// Sets `x[rd]`; a write to `x0` is dropped.
    fn write_x(&mut self, rd: usize, v: u32)
        requires
            old(self).wf(),
            rd < 32,
        ensures
            final(self).wf(),
            final(self)@ == set_x(old(self)@, rd as u32, v),
    {
        if rd != 0 {
            self.xregs.set(rd, v);
        }
    }

    /// The families of `execute`, one per major opcode.
    fn exec_op(&mut self, inst: u32, f: &Fields) -> (r: Result<Option<FpRequest>, Exception>)
        requires
            old(self).wf(),
            f.rd == rd_of(inst) && f.rs1 == rs1_of(inst) && f.rs2 == rs2_of(inst),
            f.funct3 == funct3_of(inst) && f.funct7 == funct7_of(inst),
            f.rd < 32 && f.rs1 < 32 && f.rs2 < 32 && f.funct3 < 8,
        ensures
            final(self).wf(),
            outcome_holds(old(self)@, final(self)@, r, op_spec(old(self)@, inst)),
    {
        let a = self.xregs[f.rs1];
        let b = self.xregs[f.rs2];
        proof {
            lemma_mask5(b);
        }
        let v: u32 = match (f.funct3, f.funct7) {
            (0, 0x00) => a.wrapping_add(b),
            (0, 0x20) => a.wrapping_sub(b),
            (1, 0x00) => a << (b & 0x1f),
            (2, 0x00) => if (a as i32) < (b as i32) { 1 } else { 0 },
            (3, 0x00) => if a < b { 1 } else { 0 },
            (4, 0x00) => a ^ b,
            (5, 0x00) => a >> (b & 0x1f),
            (5, 0x20) => ((a as i32) >> (b & 0x1f)) as u32,
            (6, 0x00) => a | b,
            (7, 0x00) => a & b,
            (0, 0x01) => a.wrapping_mul(b),
            (1, 0x01) => {
                let x = a as i32 as i64;
                let y = b as i32 as i64;
                assert(-0x8000_0000 <= x < 0x8000_0000 && -0x8000_0000 <= y < 0x8000_0000 ==>
                    -0x4000_0000_0000_0000 <= x * y <= 0x4000_0000_0000_0000) by (nonlinear_arith);
                ((x * y) >> 32) as u32
            },
            (2, 0x01) => {
                let x = a as i32 as i64;
                let y = b as i64;
                assert(-0x8000_0000 <= x < 0x8000_0000 && 0 <= y < 0x1_0000_0000 ==>
                    -0x8000_0000_0000_0000 < x * y < 0x8000_0000_0000_0000) by (nonlinear_arith);
                ((x * y) >> 32) as u32
            },
            (3, 0x01) => {
                let x = a as u64;
                let y = b as u64;
                assert(x < 0x1_0000_0000 && y < 0x1_0000_0000 ==> x * y < 0x1_0000_0000_0000_0000)
                    by (nonlinear_arith);
                ((x * y) >> 32) as u32
            },
            (4, 0x01) => {
                if b == 0 {
                    0xffff_ffff
                } else {
                    match (a as i32).checked_div(b as i32) {
                        Some(q) => q as u32,
                        None => a,
                    }
                }
            },
            (5, 0x01) => if b == 0 { 0xffff_ffff } else { a / b },
            (6, 0x01) => {
                if b == 0 {
                    a
                } else {
                    match (a as i32).checked_rem(b as i32) {
                        Some(q) => q as u32,
                        None => 0,
                    }
                }
            },
            (7, 0x01) => if b == 0 { a } else { a % b },
            _ => return Err(Exception::IllegalInstruction),
        };
        self.write_x(f.rd, v);
        Ok(None)
    }

    fn exec_op_imm(&mut self, inst: u32, f: &Fields) -> (r: Result<Option<FpRequest>, Exception>)
        requires
            old(self).wf(),
            f.rd == rd_of(inst) && f.rs1 == rs1_of(inst) && f.funct3 == funct3_of(inst),
            f.rd < 32 && f.rs1 < 32 && f.funct3 < 8,
        ensures
            final(self).wf(),
            outcome_holds(old(self)@, final(self)@, r, op_imm_spec(old(self)@, inst)),
    {
        let a = self.xregs[f.rs1];
        let imm = i_imm(inst);
        proof {
            lemma_mask5(imm);
        }
        let shamt = imm & 0x1f;
        let f7 = (imm >> 5) & 0x7f;
        let v: u32 = match f.funct3 {
            0 => a.wrapping_add(imm),
            1 => if f7 == 0 { a << shamt } else { return Err(Exception::IllegalInstruction) },
            2 => if (a as i32) < (imm as i32) { 1 } else { 0 },
            3 => if a < imm { 1 } else { 0 },
            4 => a ^ imm,
            5 => if f7 == 0 {
                a >> shamt
            } else if f7 == 0x20 {
                ((a as i32) >> shamt) as u32
            } else {
                return Err(Exception::IllegalInstruction)
            },
            6 => a | imm,
            _ => a & imm,
        };
        self.write_x(f.rd, v);
        Ok(None)
    }

    fn exec_load(&mut self, inst: u32, f: &Fields) -> (r: Result<Option<FpRequest>, Exception>)
        requires
            old(self).wf(),
            f.rd == rd_of(inst) && f.rs1 == rs1_of(inst) && f.funct3 == funct3_of(inst),
            f.rd < 32 && f.rs1 < 32 && f.funct3 < 8,
        ensures
            final(self).wf(),
            outcome_holds(old(self)@, final(self)@, r, load_spec(old(self)@, inst)),
    {
        let addr = self.xregs[f.rs1].wrapping_add(i_imm(inst));
        let v: u32 = match f.funct3 {
            0 => {
                let b = self.vm_read8(addr)?;
                b as u8 as i8 as i32 as u32
            },
            1 => {
                let h = self.vm_read16(addr)?;
                h as u16 as i16 as i32 as u32
            },
            2 => self.vm_read32(addr)?,
            4 => self.vm_read8(addr)?,
            5 => self.vm_read16(addr)?,
            _ => return Err(Exception::IllegalInstruction),
        };
        self.write_x(f.rd, v);
        Ok(None)
    }

    fn exec_store(&mut self, inst: u32, f: &Fields) -> (r: Result<Option<FpRequest>, Exception>)
        requires
            old(self).wf(),
            f.rs1 == rs1_of(inst) && f.rs2 == rs2_of(inst) && f.funct3 == funct3_of(inst),
            f.rs2 < 32 && f.rs1 < 32 && f.funct3 < 8,
        ensures
            final(self).wf(),
            outcome_holds(old(self)@, final(self)@, r, store_spec(old(self)@, inst)),
    {
        let addr = self.xregs[f.rs1].wrapping_add(s_imm(inst));
        let v = self.xregs[f.rs2];
        match f.funct3 {
            0 => self.vm_write8(addr, v as u8)?,
            1 => self.vm_write16(addr, v as u16)?,
            2 => self.vm_write32(addr, v)?,
            _ => return Err(Exception::IllegalInstruction),
        }
        Ok(None)
    }

    fn exec_branch(&mut self, inst: u32, f: &Fields) -> (r: Result<Option<FpRequest>, Exception>)
        requires
            old(self).wf(),
            f.rs1 == rs1_of(inst) && f.rs2 == rs2_of(inst) && f.funct3 == funct3_of(inst),
            f.rs2 < 32 && f.rs1 < 32 && f.funct3 < 8,
        ensures
            final(self).wf(),
            outcome_holds(old(self)@, final(self)@, r, branch_spec(old(self)@, inst)),
    {
        let a = self.xregs[f.rs1];
        let b = self.xregs[f.rs2];
        let taken = match f.funct3 {
            0 => a == b,
            1 => a != b,
            4 => (a as i32) < (b as i32),
            5 => (a as i32) >= (b as i32),
            6 => a < b,
            7 => a >= b,
            _ => return Err(Exception::IllegalInstruction),
        };
        if taken {
            proof {
                lemma_even_offsets(inst, 0);
            }
            self.pc = self.pc.wrapping_add(b_imm(inst)).wrapping_sub(4);
        }
        Ok(None)
    }

    fn exec_csr(&mut self, inst: u32, f: &Fields) -> (r: Result<Option<FpRequest>, Exception>)
        requires
            old(self).wf(),
            f.rd == rd_of(inst) && f.rs1 == rs1_of(inst) && f.funct3 == funct3_of(inst),
            f.rd < 32 && f.rs1 < 32 && f.funct3 < 8,
            f.funct3 != 0 && f.funct3 != 4,
        ensures
            final(self).wf(),
            outcome_holds(old(self)@, final(self)@, r, csr_op_spec(old(self)@, inst)),
    {
        proof {
            lemma_field_bounds(inst);
        }
        let csr = (inst >> 20) as usize;
        let src = if f.funct3 >= 5 { f.rs1 as u32 } else { self.xregs[f.rs1] };
        let old = self.csrr(csr)?;
        let set_or_clear = f.funct3 == 2 || f.funct3 == 3 || f.funct3 == 6 || f.funct3 == 7;
        if !(set_or_clear && f.rs1 == 0) {
            let v = if f.funct3 == 1 || f.funct3 == 5 {
                src
            } else if f.funct3 == 2 || f.funct3 == 6 {
                old | src
            } else {
                old & !src
            };
            self.csrw(csr, v)?;
        }
        self.write_x(f.rd, old);
        Ok(None)
    }

    fn exec_system(&mut self, inst: u32, f: &Fields) -> (r: Result<Option<FpRequest>, Exception>)
        requires
            old(self).wf(),
            f.rd == rd_of(inst) && f.rs1 == rs1_of(inst) && f.funct3 == funct3_of(inst),
            f.funct7 == funct7_of(inst),
            f.rd < 32 && f.rs1 < 32 && f.funct3 < 8,
        ensures
            final(self).wf(),
            outcome_holds(old(self)@, final(self)@, r, system_spec(old(self)@, inst)),
    {
        if f.funct3 == 4 {
            return Err(Exception::IllegalInstruction);
        }
        if f.funct3 != 0 {
            return self.exec_csr(inst, f);
        }
        let funct12 = inst >> 20;
        if funct12 == 0 {
            return match self.mode {
                Mode::Machine => Err(Exception::EnvironmentCallFromMMode),
                Mode::Supervisor => Err(Exception::EnvironmentCallFromSMode),
                Mode::User => Err(Exception::EnvironmentCallFromUMode),
            };
        }
        if funct12 == 1 {
            return Err(Exception::Breakpoint);
        }
        if funct12 == 0x002 || funct12 == 0x105 {
            return Ok(None);
        }
        let ms0 = self.csrs[MSTATUS];
        if funct12 == 0x102 {
            if read_bit(ms0, MSTATUS_TSR) != 0 || self.mode == Mode::User {
                return Err(Exception::IllegalInstruction);
            }
            let mut ms = ms0;
            let spp = read_bit(ms, MSTATUS_SPP);
            let spie = read_bit(ms, MSTATUS_SPIE);
            proof {
                lemma_status_fields(ms0, MSTATUS_SIE, spie, 0);
            }
            write_bit(&mut ms, MSTATUS_SIE, spie);
            proof {
                lemma_status_fields(ms, MSTATUS_SPIE, 1, 0);
            }
            write_bit(&mut ms, MSTATUS_SPIE, 1);
            proof {
                lemma_status_fields(ms, MSTATUS_SPP, 0, 0);
            }
            write_bit(&mut ms, MSTATUS_SPP, 0);
            self.pc = self.csrs[SEPC];
            self.mode = if spp == 0 { Mode::User } else { Mode::Supervisor };
            self.csrs.set(MSTATUS, ms);
            return Ok(None);
        }
        if funct12 == 0x302 {
            if self.mode != Mode::Machine {
                return Err(Exception::IllegalInstruction);
            }
            let mut ms = ms0;
            let mpp = read_bits(ms, MSTATUS_MPP..12);
            let mpie = read_bit(ms, MSTATUS_MPIE);
            proof {
                lemma_status_fields(ms0, MSTATUS_MIE, mpie, 0);
            }
            write_bit(&mut ms, MSTATUS_MIE, mpie);
            proof {
                lemma_status_fields(ms, MSTATUS_MPIE, 1, 0);
            }
            write_bit(&mut ms, MSTATUS_MPIE, 1);
            proof {
                lemma_status_fields(ms, MSTATUS_MIE, 0, 0);
            }
            write_bits(&mut ms, MSTATUS_MPP..12, 0);
            self.pc = self.csrs[MEPC];
            self.mode = if mpp == 0 {
                Mode::User
            } else if mpp == 1 {
                Mode::Supervisor
            } else {
                Mode::Machine
            };
            self.csrs.set(MSTATUS, ms);
            return Ok(None);
        }
        if f.funct7 == 0x09 {
            return Ok(None);
        }
        Err(Exception::IllegalInstruction)
    }

    fn exec_amo(&mut self, inst: u32, f: &Fields) -> (r: Result<Option<FpRequest>, Exception>)
        requires
            old(self).wf(),
            f.rd == rd_of(inst) && f.rs1 == rs1_of(inst) && f.rs2 == rs2_of(inst),
            f.funct3 == funct3_of(inst),
            f.rd < 32 && f.rs1 < 32 && f.rs2 < 32 && f.funct3 < 8,
        ensures
            final(self).wf(),
            outcome_holds(old(self)@, final(self)@, r, amo_spec(old(self)@, inst)),
    {
        proof {
            lemma_field_bounds(inst);
        }
        if f.funct3 != 2 {
            return Err(Exception::IllegalInstruction);
        }
        let f5 = inst >> 27;
        let addr = self.xregs[f.rs1];
        let src = self.xregs[f.rs2];
        if f5 == 0x02 {
            let v = self.vm_read32(addr)?;
            self.write_x(f.rd, v);
            return Ok(None);
        }
        let known = f5 == 0x00 || f5 == 0x01 || f5 == 0x04 || f5 == 0x08 || f5 == 0x0c || f5 == 0x10
            || f5 == 0x14 || f5 == 0x18 || f5 == 0x1c;
        if !(f5 == 0x03 || known) {
            return Err(Exception::IllegalInstruction);
        }
        if addr % 4 != 0 {
            return Err(Exception::StoreAMOAddressMisaligned);
        }
        if f5 == 0x03 {
            self.vm_write32(addr, src)?;
            self.write_x(f.rd, 0);
            return Ok(None);
        }
        let old = self.vm_read32(addr)?;
        let v = if f5 == 0x01 {
            src
        } else if f5 == 0x00 {
            old.wrapping_add(src)
        } else if f5 == 0x04 {
            old ^ src
        } else if f5 == 0x0c {
            old & src
        } else if f5 == 0x08 {
            old | src
        } else if f5 == 0x10 {
            if (old as i32) < (src as i32) { old } else { src }
        } else if f5 == 0x14 {
            if (old as i32) > (src as i32) { old } else { src }
        } else if f5 == 0x18 {
            if old < src { old } else { src }
        } else {
            if old > src { old } else { src }
        };
        self.vm_write32(addr, v)?;
        self.write_x(f.rd, old);
        Ok(None)
    }

    fn exec_load_fp(&mut self, inst: u32, f: &Fields) -> (r: Result<Option<FpRequest>, Exception>)
        requires
            old(self).wf(),
            f.rd == rd_of(inst) && f.rs1 == rs1_of(inst) && f.funct3 == funct3_of(inst),
            f.rd < 32 && f.rs1 < 32 && f.funct3 < 8,
        ensures
            final(self).wf(),
            outcome_holds(old(self)@, final(self)@, r, load_fp_spec(old(self)@, inst)),
    {
        let addr = self.xregs[f.rs1].wrapping_add(i_imm(inst));
        let v: u64 = match f.funct3 {
            2 => self.vm_read32(addr)? as u64,
            3 => self.vm_read64(addr)?,
            _ => return Err(Exception::IllegalInstruction),
        };
        self.fregs.set(f.rd, v);
        Ok(None)
    }

    fn exec_store_fp(&mut self, inst: u32, f: &Fields) -> (r: Result<Option<FpRequest>, Exception>)
        requires
            old(self).wf(),
            f.rs1 == rs1_of(inst) && f.rs2 == rs2_of(inst) && f.funct3 == funct3_of(inst),
            f.rs2 < 32 && f.rs1 < 32 && f.funct3 < 8,
        ensures
            final(self).wf(),
            outcome_holds(old(self)@, final(self)@, r, store_fp_spec(old(self)@, inst)),
    {
        let addr = self.xregs[f.rs1].wrapping_add(s_imm(inst));
        let v = self.fregs[f.rs2];
        match f.funct3 {
            2 => self.vm_write32(addr, v as u32)?,
            3 => self.vm_write64(addr, v)?,
            _ => return Err(Exception::IllegalInstruction),
        }
        Ok(None)
    }

    /// Floating-point register `r` as an operand of the given format.
    fn freg(&self, r: usize, double: bool) -> (v: u64)
        requires
            self.wf(),
            r < 32,
        ensures
            v == fsrc(self@, r as u32, double),
    {
        if double {
            self.fregs[r]
        } else {
            self.fregs[r] as u32 as u64
        }
    }

    /// A request for `op`, or an illegal instruction when the rounding mode is invalid.
    fn rounded(&self, inst: u32, f: &Fields, op: FpOp, double: bool, a: u64, b: u64, c: u64, to_x: bool) -> (r: Result<Option<FpRequest>, Exception>)
        requires
            self.wf(),
            f.rd == rd_of(inst) && f.funct3 == funct3_of(inst),
            f.rd < 32,
        ensures
            outcome_holds(self@, self@, r, rounded(self@, inst, op, double, a, b, c, to_x)),
    {
        match resolve_rm(f.funct3, self.fcsr) {
            None => Err(Exception::IllegalInstruction),
            Some(rm) => Ok(Some(FpRequest { op, double, a, b, c, rm, rd: f.rd as u32, to_x })),
        }
    }

    fn exec_op_fp(&mut self, inst: u32, f: &Fields) -> (r: Result<Option<FpRequest>, Exception>)
        requires
            old(self).wf(),
            f.rd == rd_of(inst) && f.rs1 == rs1_of(inst) && f.rs2 == rs2_of(inst),
            f.funct3 == funct3_of(inst),
            f.rd < 32 && f.rs1 < 32 && f.rs2 < 32 && f.funct3 < 8,
        ensures
            final(self).wf(),
            outcome_holds(old(self)@, final(self)@, r, op_fp_spec(old(self)@, inst)),
    {
        proof {
            lemma_field_bounds(inst);
        }
        let fmt = (inst >> 25) & 3;
        let f5 = inst >> 27;
        if fmt > 1 {
            return Err(Exception::IllegalInstruction);
        }
        let d = fmt == 1;
        let a = self.freg(f.rs1, d);
        let b = self.freg(f.rs2, d);
        let rd = f.rd as u32;
        if f5 <= 3 || f5 == 0x0b {
            let op = if f5 == 0 {
                FpOp::Add
            } else if f5 == 1 {
                FpOp::Sub
            } else if f5 == 2 {
                FpOp::Mul
            } else if f5 == 3 {
                FpOp::Div
            } else {
                FpOp::Sqrt
            };
            return self.rounded(inst, f, op, d, a, b, 0, false);
        }
        if f5 == 0x04 {
            let v = if d {
                match fsgnj_64(a, b, f.funct3) {
                    Some(v) => v,
                    None => return Err(Exception::IllegalInstruction),
                }
            } else {
                match fsgnj_32(a as u32, b as u32, f.funct3) {
                    Some(v) => v as u64,
                    None => return Err(Exception::IllegalInstruction),
                }
            };
            self.fregs.set(f.rd, v);
            return Ok(None);
        }
        if f5 == 0x05 {
            let op = match f.funct3 {
                0 => FpOp::Min,
                1 => FpOp::Max,
                _ => return Err(Exception::IllegalInstruction),
            };
            return Ok(Some(FpRequest { op, double: d, a, b, c: 0, rm: RoundMode::RNE, rd, to_x: false }));
        }
        if f5 == 0x08 {
            if !d && f.rs2 == 1 {
                return self.rounded(inst, f, FpOp::ToSingle, true, self.fregs[f.rs1], 0, 0, false);
            } else if d && f.rs2 == 0 {
                return self.rounded(inst, f, FpOp::ToDouble, false, self.fregs[f.rs1] as u32 as u64, 0, 0, false);
            }
            return Err(Exception::IllegalInstruction);
        }
        if f5 == 0x18 {
            return match f.rs2 {
                0 => self.rounded(inst, f, FpOp::ToInt, d, a, 0, 0, true),
                1 => self.rounded(inst, f, FpOp::ToUint, d, a, 0, 0, true),
                _ => Err(Exception::IllegalInstruction),
            };
        }
        if f5 == 0x1a {
            let x = self.xregs[f.rs1] as u64;
            return match f.rs2 {
                0 => self.rounded(inst, f, FpOp::FromInt, d, x, 0, 0, false),
                1 => self.rounded(inst, f, FpOp::FromUint, d, x, 0, 0, false),
                _ => Err(Exception::IllegalInstruction),
            };
        }
        if f5 == 0x14 {
            let op = match f.funct3 {
                2 => FpOp::Eq,
                1 => FpOp::Lt,
                0 => FpOp::Le,
                _ => return Err(Exception::IllegalInstruction),
            };
            return Ok(Some(FpRequest { op, double: d, a, b, c: 0, rm: RoundMode::RNE, rd, to_x: true }));
        }
        if f5 == 0x1c && f.rs2 == 0 {
            if f.funct3 == 0 && !d {
                self.write_x(f.rd, a as u32);
                return Ok(None);
            } else if f.funct3 == 1 {
                let v = if d { fclass_64(a) } else { fclass_32(a as u32) };
                self.write_x(f.rd, v);
                return Ok(None);
            }
            return Err(Exception::IllegalInstruction);
        }
        if f5 == 0x1e && f.rs2 == 0 && f.funct3 == 0 && !d {
            let x = self.xregs[f.rs1] as u64;
            self.fregs.set(f.rd, x);
            return Ok(None);
        }
        Err(Exception::IllegalInstruction)
    }

    fn exec_fma(&mut self, inst: u32, f: &Fields) -> (r: Result<Option<FpRequest>, Exception>)
        requires
            old(self).wf(),
            f.rd == rd_of(inst) && f.rs1 == rs1_of(inst) && f.rs2 == rs2_of(inst),
            f.funct3 == funct3_of(inst) && f.opcode == opcode_of(inst),
            f.rd < 32 && f.rs1 < 32 && f.rs2 < 32 && f.funct3 < 8,
        ensures
            final(self).wf(),
            outcome_holds(old(self)@, final(self)@, r, fma_spec(old(self)@, inst)),
    {
        proof {
            lemma_field_bounds(inst);
        }
        let fmt = (inst >> 25) & 3;
        if fmt > 1 {
            return Err(Exception::IllegalInstruction);
        }
        let d = fmt == 1;
        let sign: u64 = if d { SIGN64 } else { SIGN32 as u64 };
        let a = self.freg(f.rs1, d);
        let b = self.freg(f.rs2, d);
        let c = self.freg((inst >> 27) as usize, d);
        let neg_a = f.opcode == 0x4b || f.opcode == 0x4f;
        let neg_c = f.opcode == 0x47 || f.opcode == 0x4f;
        let a2 = if neg_a { a ^ sign } else { a };
        let c2 = if neg_c { c ^ sign } else { c };
        self.rounded(inst, f, FpOp::MulAdd, d, a2, b, c2, false)
    }

    /// Commits the result of the floating-point request `req`: `result` (for
    /// FMIN/FMAX, the operand that the comparison in `result` picks) goes to
    /// the destination register (the low word, for an integer register) and
    /// the exception flags `flags` (in `fflags` order) are ORed into `fcsr`.
    pub fn finish_fp(&mut self, req: &FpRequest, result: u64, flags: u32)
        requires
            old(self).wf(),
            req.rd < 32,
        ensures
            final(self).wf(),
            final(self).xregs@[0] == 0,
            final(self)@ == fp_commit(old(self)@, *req, result, flags),
    {
        let v = if req.op == FpOp::Min {
            fmin(req.double, req.a, req.b, result != 0)
        } else if req.op == FpOp::Max {
            fmax(req.double, req.a, req.b, result != 0)
        } else {
            result
        };
        if req.to_x {
            self.write_x(req.rd as usize, v as u32);
        } else {
            self.fregs.set(req.rd as usize, v);
        }
        proof {
            lemma_flags_or(self.fcsr, flags);
        }
        self.fcsr = self.fcsr | (flags & 0x1f);
    }

    /// Executes the instruction word `inst`, with `pc` already advanced past
    /// it. On `Ok(None)` the instruction has committed; on `Ok(Some(q))` it
    /// needs the IEEE-754 operation `q`, to be committed by `finish_fp`; on
    /// `Err(e)` it raised `e`. In the last two cases nothing has changed.
    pub fn execute(&mut self, inst: u32) -> (r: Result<Option<FpRequest>, Exception>)
        requires
            old(self).wf(),
        ensures
            final(self).wf(),
            final(self).xregs@[0] == 0,
            outcome_holds(old(self)@, final(self)@, r, exec_spec(old(self)@, inst)),
    {
        let f = fields(inst);
        match f.opcode {
            0b011_0011 => self.exec_op(inst, &f),
            0b001_0011 => self.exec_op_imm(inst, &f),
            0b000_0011 => self.exec_load(inst, &f),
            0b010_0011 => self.exec_store(inst, &f),
            0b110_0011 => self.exec_branch(inst, &f),
            0b110_1111 => {
                proof {
                    lemma_even_offsets(inst, 0);
                }
                let target = self.pc.wrapping_add(j_imm(inst)).wrapping_sub(4);
                let link = self.pc;
                self.write_x(f.rd, link);
                self.pc = target;
                Ok(None)
            },
            0b110_0111 => {
                if f.funct3 != 0 {
                    return Err(Exception::IllegalInstruction);
                }
                let target = self.xregs[f.rs1].wrapping_add(i_imm(inst)) & !1u32;
                proof {
                    lemma_even_offsets(inst, self.xregs@[f.rs1 as int].wrapping_add(imm_i(inst)));
                }
                let link = self.pc;
                self.write_x(f.rd, link);
                self.pc = target;
                Ok(None)
            },
            0b011_0111 => {
                self.write_x(f.rd, inst & 0xffff_f000);
                Ok(None)
            },
            0b001_0111 => {
                let v = self.pc.wrapping_add(inst & 0xffff_f000).wrapping_sub(4);
                self.write_x(f.rd, v);
                Ok(None)
            },
            0b111_0011 => self.exec_system(inst, &f),
            0b010_1111 => self.exec_amo(inst, &f),
            0b000_0111 => self.exec_load_fp(inst, &f),
            0b010_0111 => self.exec_store_fp(inst, &f),
            0b101_0011 => self.exec_op_fp(inst, &f),
            0b100_0011 | 0b100_0111 | 0b100_1011 | 0b100_1111 => self.exec_fma(inst, &f),
            0b000_1111 => {
                if f.funct3 <= 1 {
                    Ok(None)
                } else {
                    Err(Exception::IllegalInstruction)
                }
            },
            _ => Err(Exception::IllegalInstruction),
        }
    }
}

/// The state a step starts from once the fetch is done: `pc` past the
/// fetched word.
pub open spec fn advanced(s: HartView) -> HartView {
    set_pc(s, wrapping_add(s.pc, 4))
}

impl Cpu {
    /// Fetches the instruction at `pc`, advances `pc` by 4 and executes the
    /// instruction. A failed fetch is reported with `pc` advanced as well, so
    /// that the trap records the address of the failed fetch.
    pub fn step(&mut self) -> (r: Result<Option<FpRequest>, Exception>)
        requires
            old(self).wf(),
        ensures
            final(self).wf(),
            final(self).xregs@[0] == 0,
            match vm_fetch_spec(old(self)@, old(self).pc) {
                Err(e) => r == Err::<Option<FpRequest>, Exception>(e) && final(self)@ == advanced(old(self)@),
                Ok(inst) => outcome_holds(advanced(old(self)@), final(self)@, r,
                    exec_spec(advanced(old(self)@), inst)),
            },
    {
        let pc = self.pc;
        let fetched = self.vm_fetch(pc);
        self.pc = pc.wrapping_add(4);
        match fetched {
            Err(e) => Err(e),
            Ok(inst) => self.execute(inst),
        }
    }
}

/// `pc` is even in every well-formed state, the states that `new`, `step`,
/// `execute`, `finish_fp`, `trap` and `csrw` keep; and a fetch from an
/// address that is not a multiple of two raises exactly an
/// instruction-address-misaligned exception.
pub proof fn lemma_pc_alignment(s: HartView, pc: u32)
    ensures
        hart_wf(s) ==> s.pc % 2 == 0,
        pc % 2 != 0 ==> vm_fetch_spec(s, pc) == Err::<u32, Exception>(Exception::InstructionAddressMisaligned),
{
}

/// The register shifts (SLL, SRL, SRA) use only the low five bits of the
/// amount: shifting by `b` is shifting by `b & 0x1f`.
pub proof fn lemma_shift_amount(funct3: u32, funct7: u32, a: u32, b: u32)
    requires
        funct3 == 1 || funct3 == 5,
        funct7 == 0 || funct7 == 0x20,
    ensures
        alu_r(funct3, funct7, a, b) == alu_r(funct3, funct7, a, b & 0x1f),
{
    lemma_mask5(b);
}

/// An arithmetic operation that reads `x0` sees the literal 0.
pub proof fn lemma_x0_operand(s: HartView, inst: u32)
    requires
        hart_wf(s),
    ensures
        opcode_of(inst) == 0x33 && rs1_of(inst) == 0 ==> op_spec(s, inst) == match alu_r(
            funct3_of(inst), funct7_of(inst), 0, xr(s, rs2_of(inst))) {
            Some(v) => Outcome::Next(set_x(s, rd_of(inst), v)),
            None => Outcome::Raise(Exception::IllegalInstruction),
        },
        opcode_of(inst) == 0x33 && rs2_of(inst) == 0 ==> op_spec(s, inst) == match alu_r(
            funct3_of(inst), funct7_of(inst), xr(s, rs1_of(inst)), 0) {
            Some(v) => Outcome::Next(set_x(s, rd_of(inst), v)),
            None => Outcome::Raise(Exception::IllegalInstruction),
        },
        opcode_of(inst) == 0x13 && rs1_of(inst) == 0 ==> op_imm_spec(s, inst) == match alu_i(
            funct3_of(inst), 0, imm_i(inst)) {
            Some(v) => Outcome::Next(set_x(s, rd_of(inst), v)),
            None => Outcome::Raise(Exception::IllegalInstruction),
        },
{
}

/// Division by zero and the one overflowing division give the defined
/// values instead of trapping.
pub proof fn lemma_division_edges(x: u32)
    ensures
        alu_r(4, 1, x, 0) == Some(0xffff_ffffu32),
        alu_r(5, 1, x, 0) == Some(0xffff_ffffu32),
        alu_r(6, 1, x, 0) == Some(x),
        alu_r(7, 1, x, 0) == Some(x),
        alu_r(4, 1, 0x8000_0000, 0xffff_ffff) == Some(0x8000_0000u32),
        alu_r(6, 1, 0x8000_0000, 0xffff_ffff) == Some(0u32),
{
    assert((0x8000_0000u32 as i32) == i32::MIN) by (bit_vector);
    assert((0xffff_ffffu32 as i32) == -1i32) by (bit_vector);
}

/// MRET from Machine mode with MPP holding `y`: MIE takes the old MPIE,
/// MPIE is set, MPP becomes U, and the hart continues in mode `y`.
pub proof fn lemma_mret_stack(s: HartView)
    requires
        hart_wf(s),
        s.mode == Mode::Machine,
    ensures
        mret_spec(s) is Next,
        ({
            let ms = s.csrs[MSTATUS as int];
            let t = mret_spec(s)->Next_0;
            let ms2 = t.csrs[MSTATUS as int];
            &&& bits_of(ms2, MSTATUS_MIE, MSTATUS_MIE) == bits_of(ms, MSTATUS_MPIE, MSTATUS_MPIE)
            &&& bits_of(ms2, MSTATUS_MPIE, MSTATUS_MPIE) == 1
            &&& bits_of(ms2, MSTATUS_MPP, 12) == 0
            &&& t.mode == mode_of_code(bits_of(ms, MSTATUS_MPP, 12))
            &&& t.pc == s.csrs[MEPC as int]
        }),
{
    lemma_mret_bits(s.csrs[MSTATUS as int]);
}

proof fn lemma_mret_bits(x: u32)
    by (bit_vector)
    ensures
        bits_of(status_after_mret(x), 3, 3) == bits_of(x, 7, 7),
        bits_of(status_after_mret(x), 7, 7) == 1,
        bits_of(status_after_mret(x), 11, 12) == 0,
{
}

/// Accrued flags only grow: committing a floating-point result keeps every
/// flag that was set, and an instruction other than a CSR instruction
/// leaves `fcsr` as it was.
pub proof fn lemma_flags_monotonic(s: HartView, inst: u32, q: FpRequest, result: u64, flags: u32)
    requires
        hart_wf(s),
    ensures
        fp_commit(s, q, result, flags).fcsr & 0x1f & (s.fcsr & 0x1f) == s.fcsr & 0x1f,
        (opcode_of(inst) != 0x73 || funct3_of(inst) == 0) && exec_spec(s, inst) is Next ==>
            (exec_spec(s, inst)->Next_0).fcsr == s.fcsr,
{
    lemma_flags_or(s.fcsr, flags);
}

} // verus!
