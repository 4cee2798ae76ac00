//! Instruction fields and immediates.
use vstd::prelude::*;

verus! {

/// The fields of an instruction word: opcode, destination, function codes,
/// source registers and the floating-point format.
pub open spec fn opcode_of(inst: u32) -> u32 {
    inst & 0x7f
}

pub open spec fn rd_of(inst: u32) -> u32 {
    (inst >> 7u32) & 0x1f
}

pub open spec fn funct3_of(inst: u32) -> u32 {
    (inst >> 12u32) & 7
}

pub open spec fn rs1_of(inst: u32) -> u32 {
    (inst >> 15u32) & 0x1f
}

pub open spec fn rs2_of(inst: u32) -> u32 {
    (inst >> 20u32) & 0x1f
}

pub open spec fn rs3_of(inst: u32) -> u32 {
    inst >> 27u32
}

pub open spec fn funct7_of(inst: u32) -> u32 {
    inst >> 25u32
}

pub open spec fn funct5_of(inst: u32) -> u32 {
    inst >> 27u32
}

pub open spec fn fmt_of(inst: u32) -> u32 {
    (inst >> 25u32) & 3
}

pub open spec fn funct12_of(inst: u32) -> u32 {
    inst >> 20u32
}

/// The I-type immediate: bits 31..20, sign-extended.
pub open spec fn imm_i(inst: u32) -> u32 {
    ((inst as i32) >> 20u32) as u32
}

/// The S-type immediate: bits 31..25 and 11..7, sign-extended.
pub open spec fn imm_s(inst: u32) -> u32 {
    (imm_i(inst) & !0x1fu32) | ((inst >> 7u32) & 0x1f)
}

/// The B-type immediate: a sign-extended even offset of 13 bits.
pub open spec fn imm_b(inst: u32) -> u32 {
    ((((inst as i32) >> 19u32) as u32) & 0xffff_f000) | ((inst << 4u32) & 0x800)
        | ((inst >> 20u32) & 0x7e0) | ((inst >> 7u32) & 0x1e)
}

/// The J-type immediate: a sign-extended even offset of 21 bits.
pub open spec fn imm_j(inst: u32) -> u32 {
    ((((inst as i32) >> 11u32) as u32) & 0xfff0_0000) | (inst & 0xf_f000) | ((inst >> 9u32) & 0x800)
        | ((inst >> 20u32) & 0x7fe)
}

/// The U-type immediate: bits 31..12 in place.
pub open spec fn imm_u(inst: u32) -> u32 {
    inst & 0xffff_f000
}

/// The ranges of the fields.
pub proof fn lemma_field_bounds(inst: u32)
    by (bit_vector)
    ensures
        inst & 0x7f < 128,
        (inst >> 7u32) & 0x1f < 32,
        (inst >> 12u32) & 7 < 8,
        (inst >> 15u32) & 0x1f < 32,
        (inst >> 20u32) & 0x1f < 32,
        inst >> 27u32 < 32,
        inst >> 25u32 < 128,
        (inst >> 25u32) & 3 < 4,
        inst >> 20u32 < 4096,
{
}

/// Branch and jump offsets are even, and so is an address with bit 0 cleared.
pub proof fn lemma_even_offsets(inst: u32, x: u32)
    by (bit_vector)
    ensures
        imm_b(inst) % 2 == 0,
        imm_j(inst) % 2 == 0,
        (x & !1u32) % 2 == 0,
{
}

/// The fields of an instruction word.
pub struct Fields {
    pub opcode: u32,
    pub rd: usize,
    pub funct3: u32,
    pub rs1: usize,
    pub rs2: usize,
    pub funct7: u32,
}

/// Splits an instruction word into its register and function fields.
pub fn fields(inst: u32) -> (r: Fields)
    ensures
        r.opcode == opcode_of(inst),
        r.rd == rd_of(inst),
        r.funct3 == funct3_of(inst),
        r.rs1 == rs1_of(inst),
        r.rs2 == rs2_of(inst),
        r.funct7 == funct7_of(inst),
        r.opcode < 128,
        r.rd < 32,
        r.funct3 < 8,
        r.rs1 < 32,
        r.rs2 < 32,
        r.funct7 < 128,
{
    proof {
        lemma_field_bounds(inst);
    }
    Fields {
        opcode: inst & 0x7f,
        rd: ((inst >> 7) & 0x1f) as usize,
        funct3: (inst >> 12) & 7,
        rs1: ((inst >> 15) & 0x1f) as usize,
        rs2: ((inst >> 20) & 0x1f) as usize,
        funct7: inst >> 25,
    }
}

/// The I-type immediate.
pub fn i_imm(inst: u32) -> (r: u32)
    ensures
        r == imm_i(inst),
{
    ((inst as i32) >> 20) as u32
}

/// The S-type immediate.
pub fn s_imm(inst: u32) -> (r: u32)
    ensures
        r == imm_s(inst),
{
    (i_imm(inst) & !0x1fu32) | ((inst >> 7) & 0x1f)
}

/// The B-type immediate.
pub fn b_imm(inst: u32) -> (r: u32)
    ensures
        r == imm_b(inst),
{
    ((((inst as i32) >> 19) as u32) & 0xffff_f000) | ((inst << 4) & 0x800) | ((inst >> 20) & 0x7e0)
        | ((inst >> 7) & 0x1e)
}

/// The J-type immediate.
pub fn j_imm(inst: u32) -> (r: u32)
    ensures
        r == imm_j(inst),
{
    ((((inst as i32) >> 11) as u32) & 0xfff0_0000) | (inst & 0xf_f000) | ((inst >> 9) & 0x800)
        | ((inst >> 20) & 0x7fe)
}

} // verus!
