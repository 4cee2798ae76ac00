//! The floating-point layer. The bit-level operations (sign injection,
//! classification, negation) are computed here; the IEEE-754 arithmetic is
//! described by an `FpRequest` that a soft-float implementation carries out,
//! whose result the hart then commits.
use vstd::prelude::*;

verus! {

/// The `fmt` field of an instruction selecting binary32.
pub const FP32: u32 = 0b00;
/// The `fmt` field of an instruction selecting binary64.
pub const FP64: u32 = 0b01;

/// Accrued exception flags, in `fflags` order.
pub const FFLAGS_NX: u32 = 1;
pub const FFLAGS_UF: u32 = 1 << 1;
pub const FFLAGS_OF: u32 = 1 << 2;
pub const FFLAGS_DZ: u32 = 1 << 3;
pub const FFLAGS_NV: u32 = 1 << 4;

/// A rounding mode, as encoded in an instruction's `rm` field or in `frm`.
#[derive(Clone, Copy, Debug, PartialEq, Eq, Structural)]
pub enum RoundMode {
    /// to nearest, ties to even
    RNE,
    /// towards zero
    RTZ,
    /// down, towards -inf
    RDN,
    /// up, towards +inf
    RUP,
    /// to nearest, ties to max magnitude
    RMM,
    /// in an instruction, the mode held in `frm`
    DYN,
}

/// The rounding mode a three-bit field encodes; 0b101 and 0b110 encode none.
pub open spec fn round_mode_of(n: u32) -> Option<RoundMode> {
    if n == 0 {
        Some(RoundMode::RNE)
    } else if n == 1 {
        Some(RoundMode::RTZ)
    } else if n == 2 {
        Some(RoundMode::RDN)
    } else if n == 3 {
        Some(RoundMode::RUP)
    } else if n == 4 {
        Some(RoundMode::RMM)
    } else if n == 7 {
        Some(RoundMode::DYN)
    } else {
        None
    }
}

impl RoundMode {
    /// Decodes a rounding-mode field.
    pub fn from_u32(n: u32) -> (r: Option<RoundMode>)
        ensures
            r == round_mode_of(n),
    {
        match n {
            0b000 => Some(RoundMode::RNE),
            0b001 => Some(RoundMode::RTZ),
            0b010 => Some(RoundMode::RDN),
            0b011 => Some(RoundMode::RUP),
            0b100 => Some(RoundMode::RMM),
            0b111 => Some(RoundMode::DYN),
            _ => None,
        }
    }
}

/// The rounding mode an instruction with `rm` field `funct3` uses when `fcsr`
/// holds `fcsr`: the field itself, or for DYN the mode in `frm`; `None` when
/// the field or `frm` names no mode.
pub open spec fn effective_rm(funct3: u32, fcsr: u32) -> Option<RoundMode> {
    match round_mode_of(funct3) {
        Some(RoundMode::DYN) => match round_mode_of((fcsr >> 5u32) & 7) {
            Some(RoundMode::DYN) => None,
            o => o,
        },
        o => o,
    }
}

/// Resolves the rounding mode of an instruction.
pub fn resolve_rm(funct3: u32, fcsr: u32) -> (r: Option<RoundMode>)
    ensures
        r == effective_rm(funct3, fcsr),
        r != Some(RoundMode::DYN),
{
    match RoundMode::from_u32(funct3) {
        Some(RoundMode::DYN) => match RoundMode::from_u32((fcsr >> 5) & 7) {
            Some(RoundMode::DYN) => None,
            o => o,
        },
        o => o,
    }
}

/// An IEEE-754 operation that the soft-float layer computes.
#[derive(Clone, Copy, Debug, PartialEq, Eq, Structural)]
pub enum FpOp {
    /// a + b
    Add,
    /// a - b
    Sub,
    /// a * b
    Mul,
    /// a / b
    Div,
    /// sqrt(a)
    Sqrt,
    /// a * b + c, rounded once
    MulAdd,
    /// minimum of a and b: the soft-float layer answers the quiet a < b
    /// (0 or 1) and the hart picks the operand
    Min,
    /// maximum of a and b, answered like `Min`
    Max,
    /// quiet a == b, giving 0 or 1
    Eq,
    /// signaling a < b, giving 0 or 1
    Lt,
    /// signaling a <= b, giving 0 or 1
    Le,
    /// binary64 a to binary32
    ToSingle,
    /// binary32 a to binary64
    ToDouble,
    /// a to a signed 32-bit integer
    ToInt,
    /// a to an unsigned 32-bit integer
    ToUint,
    /// the signed 32-bit integer in the low word of a, to a float
    FromInt,
    /// the unsigned 32-bit integer in the low word of a, to a float
    FromUint,
}

/// A floating-point operation an instruction asks for. `double` selects
/// binary64 (for the conversions between formats, the format of `a`; for
/// `FromInt`/`FromUint`, that of the result). Binary32 operands sit in the low
/// word. The result goes to `x[rd]` when `to_x` holds, else to `f[rd]`.
#[derive(Clone, Copy, Debug, PartialEq, Eq, Structural)]
pub struct FpRequest {
    pub op: FpOp,
    pub double: bool,
    pub a: u64,
    pub b: u64,
    pub c: u64,
    pub rm: RoundMode,
    pub rd: u32,
    pub to_x: bool,
}

pub const SIGN32: u32 = 0x8000_0000;
pub const SIGN64: u64 = 0x8000_0000_0000_0000;

/// Sign injection on binary32 patterns: `a` with the sign of `b`, of `!b`,
/// or of `a ^ b` (funct3 0, 1, 2).
pub open spec fn sgnj32_spec(a: u32, b: u32, funct3: u32) -> Option<u32> {
    if funct3 == 0 {
        Some((a & !SIGN32) | (b & SIGN32))
    } else if funct3 == 1 {
        Some((a & !SIGN32) | (!b & SIGN32))
    } else if funct3 == 2 {
        Some((a & !SIGN32) | ((a ^ b) & SIGN32))
    } else {
        None
    }
}

/// Sign injection on binary64 patterns.
pub open spec fn sgnj64_spec(a: u64, b: u64, funct3: u32) -> Option<u64> {
    if funct3 == 0 {
        Some((a & !SIGN64) | (b & SIGN64))
    } else if funct3 == 1 {
        Some((a & !SIGN64) | (!b & SIGN64))
    } else if funct3 == 2 {
        Some((a & !SIGN64) | ((a ^ b) & SIGN64))
    } else {
        None
    }
}

/// FSGNJ/FSGNJN/FSGNJX on binary32 patterns.
pub fn fsgnj_32(a: u32, b: u32, funct3: u32) -> (r: Option<u32>)
    ensures
        r == sgnj32_spec(a, b, funct3),
{
    match funct3 {
        0b000 => Some((a & !SIGN32) | (b & SIGN32)),
        0b001 => Some((a & !SIGN32) | (!b & SIGN32)),
        0b010 => Some((a & !SIGN32) | ((a ^ b) & SIGN32)),
        _ => None,
    }
}

/// FSGNJ/FSGNJN/FSGNJX on binary64 patterns.
pub fn fsgnj_64(a: u64, b: u64, funct3: u32) -> (r: Option<u64>)
    ensures
        r == sgnj64_spec(a, b, funct3),
{
    match funct3 {
        0b000 => Some((a & !SIGN64) | (b & SIGN64)),
        0b001 => Some((a & !SIGN64) | (!b & SIGN64)),
        0b010 => Some((a & !SIGN64) | ((a ^ b) & SIGN64)),
        _ => None,
    }
}

/// The FCLASS mask of a value from its parts: bit 0 -inf, 1 negative normal,
/// 2 negative subnormal, 3 -0, 4 +0, 5 positive subnormal, 6 positive normal,
/// 7 +inf, 8 signaling NaN, 9 quiet NaN.
pub open spec fn class_mask(negative: bool, exp_max: bool, exp_zero: bool, frac_zero: bool, quiet: bool) -> u32 {
    if exp_max {
        if frac_zero {
            if negative { 1 } else { 1u32 << 7u32 }
        } else if quiet {
            1u32 << 9u32
        } else {
            1u32 << 8u32
        }
    } else if exp_zero {
        if frac_zero {
            if negative { 1u32 << 3u32 } else { 1u32 << 4u32 }
        } else if negative {
            1u32 << 2u32
        } else {
            1u32 << 5u32
        }
    } else if negative {
        1u32 << 1u32
    } else {
        1u32 << 6u32
    }
}

fn class_mask_exec(negative: bool, exp_max: bool, exp_zero: bool, frac_zero: bool, quiet: bool) -> (r: u32)
    ensures
        r == class_mask(negative, exp_max, exp_zero, frac_zero, quiet),
{
    if exp_max {
        if frac_zero {
            if negative { 1 } else { 1 << 7 }
        } else if quiet {
            1 << 9
        } else {
            1 << 8
        }
    } else if exp_zero {
        if frac_zero {
            if negative { 1 << 3 } else { 1 << 4 }
        } else if negative {
            1 << 2
        } else {
            1 << 5
        }
    } else if negative {
        1 << 1
    } else {
        1 << 6
    }
}

/// The FCLASS mask of a binary32 pattern.
pub open spec fn fclass32_spec(a: u32) -> u32 {
    class_mask(a >> 31u32 == 1, (a >> 23u32) & 0xff == 0xff, (a >> 23u32) & 0xff == 0,
        a & 0x7f_ffff == 0, (a >> 22u32) & 1 == 1)
}

/// The FCLASS mask of a binary64 pattern.
pub open spec fn fclass64_spec(a: u64) -> u32 {
    class_mask(a >> 63u64 == 1, (a >> 52u64) & 0x7ff == 0x7ff, (a >> 52u64) & 0x7ff == 0,
        a & 0xf_ffff_ffff_ffff == 0, (a >> 51u64) & 1 == 1)
}

/// FCLASS.S.
pub fn fclass_32(a: u32) -> (r: u32)
    ensures
        r == fclass32_spec(a),
{
    class_mask_exec(a >> 31 == 1, (a >> 23) & 0xff == 0xff, (a >> 23) & 0xff == 0, a & 0x7f_ffff == 0,
        (a >> 22) & 1 == 1)
}

/// FCLASS.D.
pub fn fclass_64(a: u64) -> (r: u32)
    ensures
        r == fclass64_spec(a),
{
    class_mask_exec(a >> 63 == 1, (a >> 52) & 0x7ff == 0x7ff, (a >> 52) & 0x7ff == 0,
        a & 0xf_ffff_ffff_ffff == 0, (a >> 51) & 1 == 1)
}

/// Whether a pattern is a NaN, as binary64 or as binary32 in the low word.
pub open spec fn is_nan_bits(x: u64, double: bool) -> bool {
    if double {
        (x >> 52u64) & 0x7ff == 0x7ff && x & 0xf_ffff_ffff_ffff != 0
    } else {
        ((x as u32) >> 23u32) & 0xff == 0xff && (x as u32) & 0x7f_ffff != 0
    }
}

/// Whether a pattern is +0 or -0.
pub open spec fn is_zero_bits(x: u64, double: bool) -> bool {
    if double {
        x & !SIGN64 == 0
    } else {
        (x as u32) & !SIGN32 == 0
    }
}

/// The canonical quiet NaN.
pub open spec fn canonical_nan(double: bool) -> u64 {
    if double {
        0x7ff8_0000_0000_0000
    } else {
        0x7fc0_0000
    }
}

/// FMIN/FMAX from the operands and the quiet comparison `a < b`: a NaN
/// operand yields the other one, two NaNs the canonical NaN, and -0 is
/// below +0.
pub open spec fn min_max(max: bool, double: bool, a: u64, b: u64, a_lt_b: bool) -> u64 {
    if is_nan_bits(a, double) && is_nan_bits(b, double) {
        canonical_nan(double)
    } else if is_nan_bits(a, double) {
        b
    } else if is_nan_bits(b, double) {
        a
    } else if a_lt_b {
        if max { b } else { a }
    } else if is_zero_bits(a, double) && is_zero_bits(b, double) {
        if max { a & b } else { a | b }
    } else if max {
        a
    } else {
        b
    }
}

fn is_nan_exec(x: u64, double: bool) -> (r: bool)
    ensures
        r == is_nan_bits(x, double),
{
    if double {
        (x >> 52) & 0x7ff == 0x7ff && x & 0xf_ffff_ffff_ffff != 0
    } else {
        ((x as u32) >> 23) & 0xff == 0xff && (x as u32) & 0x7f_ffff != 0
    }
}

fn is_zero_exec(x: u64, double: bool) -> (r: bool)
    ensures
        r == is_zero_bits(x, double),
{
    if double {
        x & !SIGN64 == 0
    } else {
        (x as u32) & !SIGN32 == 0
    }
}

fn min_max_exec(max: bool, double: bool, a: u64, b: u64, a_lt_b: bool) -> (r: u64)
    ensures
        r == min_max(max, double, a, b, a_lt_b),
{
    let a_nan = is_nan_exec(a, double);
    let b_nan = is_nan_exec(b, double);
    if a_nan && b_nan {
        if double { 0x7ff8_0000_0000_0000 } else { 0x7fc0_0000 }
    } else if a_nan {
        b
    } else if b_nan {
        a
    } else if a_lt_b {
        if max { b } else { a }
    } else if is_zero_exec(a, double) && is_zero_exec(b, double) {
        if max { a & b } else { a | b }
    } else if max {
        a
    } else {
        b
    }
}

/// FMIN on two patterns (binary64 when `double`, else binary32 in the low
/// word), given the quiet comparison `a < b`.
pub fn fmin(double: bool, a: u64, b: u64, a_lt_b: bool) -> (r: u64)
    ensures
        r == min_max(false, double, a, b, a_lt_b),
{
    min_max_exec(false, double, a, b, a_lt_b)
}

/// FMAX on two patterns, given the quiet comparison `a < b`.
pub fn fmax(double: bool, a: u64, b: u64, a_lt_b: bool) -> (r: u64)
    ensures
        r == min_max(true, double, a, b, a_lt_b),
{
    min_max_exec(true, double, a, b, a_lt_b)
}

/// The value request `q` writes, given the soft-float layer's `result`: for
/// FMIN/FMAX the chosen operand, else `result` itself.
pub open spec fn fp_value(q: FpRequest, result: u64) -> u64 {
    if q.op == FpOp::Min || q.op == FpOp::Max {
        min_max(q.op == FpOp::Max, q.double, q.a, q.b, result != 0)
    } else {
        result
    }
}

} // verus!
