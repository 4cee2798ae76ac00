//! Bit-field helpers on 32-bit registers. A field is named by an inclusive
//! pair of bit positions carried in a `Range`: `lo..hi` stands for bits
//! `lo` up to and including `hi`.
use vstd::prelude::*;

verus! {

/// The mask that keeps bits `0..=hi` of a word (every bit when `hi >= 31`).
pub open spec fn keep_low(hi: u32) -> u32 {
    if hi >= 31 {
        0xffff_ffffu32
    } else {
        !(0xffff_ffffu32 << ((hi + 1) as u32))
    }
}

/// The mask that selects bits `lo..=hi` of a word.
pub open spec fn field_mask(lo: u32, hi: u32) -> u32 {
    keep_low(hi) & !keep_low_below(lo)
}

/// The mask that keeps bits below `lo`.
pub open spec fn keep_low_below(lo: u32) -> u32 {
    !(0xffff_ffffu32 << lo)
}

/// Bits `lo..=hi` of `reg`, moved down to bit 0.
pub open spec fn bits_of(reg: u32, lo: u32, hi: u32) -> u32 {
    (reg & keep_low(hi)) >> lo
}

/// `reg` with bits `lo..=hi` cleared and `val << lo` merged in.
pub open spec fn with_bits(reg: u32, lo: u32, hi: u32, val: u32) -> u32 {
    (reg & !field_mask(lo, hi)) | (val << lo)
}

/// Reads bit `bit` of `reg`.
pub fn read_bit(reg: u32, bit: u32) -> (r: u32)
    requires
        bit < 32,
    ensures
        r == bits_of(reg, bit, bit),
        r == (reg >> bit) & 1,
        r <= 1,
{
    proof {
        lemma_single_bit(reg, bit);
    }
    read_bits(reg, bit..bit)
}

proof fn lemma_single_bit(reg: u32, bit: u32)
    requires
        bit < 32,
    ensures
        bits_of(reg, bit, bit) == (reg >> bit) & 1,
        bits_of(reg, bit, bit) <= 1,
{
    assert((reg & (if bit >= 31 { 0xffff_ffffu32 } else { !(0xffff_ffffu32 << ((bit + 1) as u32)) })) >> bit
        == (reg >> bit) & 1 && (reg >> bit) & 1 <= 1) by (bit_vector)
        requires
            bit < 32,
    ;
}

/// The mask that `read_bits` and `write_bits` build clears exactly the bits above `hi`.
proof fn lemma_low_mask(hi: u32, mask: u32)
    requires
        mask == (if hi < 31 { (0xffff_ffffu32 << ((hi + 1) as u32 % 32)) as u32 } else { 0u32 }),
    ensures
        !mask == keep_low(hi),
{
    assert(hi < 31 ==> (hi + 1) as u32 % 32 == (hi + 1) as u32);
    assert(!mask == keep_low(hi)) by (bit_vector)
        requires
            mask == (if hi < 31 { (0xffff_ffffu32 << ((hi + 1) as u32 % 32)) as u32 } else { 0u32 }),
            hi < 31 ==> (hi + 1) as u32 % 32 == (hi + 1) as u32,
    ;
}

/// Reads bits `range.start..=range.end` of `reg`, shifted down to bit 0.
pub fn read_bits(reg: u32, range: std::ops::Range<u32>) -> (r: u32)
    requires
        range.start < 32,
    ensures
        r == bits_of(reg, range.start, range.end),
{
    let mask: u32 = if range.end < 31 {
        u32::MAX.wrapping_shl(range.end + 1)
    } else {
        0
    };
    proof {
        lemma_low_mask(range.end, mask);
    }
    (reg & !mask) >> range.start
}

/// Sets bit `bit` of `reg` to `val`.
pub fn write_bit(reg: &mut u32, bit: u32, val: u32)
    requires
        bit < 32,
    ensures
        *final(reg) == with_bits(*old(reg), bit, bit, val),
{
    write_bits(reg, bit..bit, val)
}

/// Replaces bits `range.start..=range.end` of `reg` by `val << range.start`.
pub fn write_bits(reg: &mut u32, range: std::ops::Range<u32>, val: u32)
    requires
        range.start < 32,
    ensures
        *final(reg) == with_bits(*old(reg), range.start, range.end, val),
{
    let t: u32 = if range.end < 31 {
        u32::MAX.wrapping_shl(range.end + 1)
    } else {
        0
    };
    proof {
        lemma_low_mask(range.end, t);
    }
    let mask = t | !(u32::MAX.wrapping_shl(range.start));
    assert(range.start % 32 == range.start);
    let lo = range.start;
    let hi = range.end;
    assert(t | !(0xffff_ffffu32 << lo) == !(keep_low(hi) & !keep_low_below(lo))) by (bit_vector)
        requires
            !t == keep_low(hi),
    ;
    *reg = *reg & mask | val << range.start;
}

} // verus!
