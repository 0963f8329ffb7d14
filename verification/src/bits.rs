//! Single bits and bit ranges of unsigned integers.

use vstd::arithmetic::power2::{lemma2_to64, lemma_pow2_strictly_increases, pow2};
use vstd::bits::{
    lemma_u64_low_bits_mask_is_mod, lemma_u64_pow2_no_overflow, lemma_u64_shl_is_mul,
    lemma_u64_shr_is_div, low_bits_mask,
};
use vstd::prelude::*;

verus! {

/// Whether bit `index` (bit 0 is the least significant) of `value` is set.
pub open spec fn is_bit_set(value: int, index: nat) -> bool {
    (value / (pow2(index) as int)) % 2 == 1
}

/// The `count` bits of `value` that start at bit `lowest`, as a number.
pub open spec fn bit_range(value: int, lowest: nat, count: nat) -> int {
    (value / (pow2(lowest) as int)) % (pow2(count) as int)
}

/// Tests a single bit of `value`.
pub fn bit_is_set(value: u64, index: u32) -> (r: bool)
    requires
        index < 64,
    ensures
        r == is_bit_set(value as int, index as nat),
{
    let shifted: u64 = value >> index;
    proof {
        lemma_u64_shr_is_div(value, index as u64);
    }
    shifted % 2 == 1
}

/// Extracts `count` bits of `value`, starting at bit `lowest`.
pub fn extract_bits(value: u64, lowest: u32, count: u32) -> (r: u64)
    requires
        lowest < 64,
        count < 64,
    ensures
        r == bit_range(value as int, lowest as nat, count as nat),
        r < pow2(count as nat),
{
    let shifted: u64 = value >> lowest;
    proof {
        lemma_u64_shr_is_div(value, lowest as u64);
        lemma_u64_pow2_no_overflow(count as nat);
        lemma_u64_shl_is_mul(1, count as u64);
    }
    let mask: u64 = (1u64 << count) - 1;
    proof {
        assert(mask == low_bits_mask(count as nat));
        lemma_u64_low_bits_mask_is_mod(shifted, count as nat);
    }
    shifted & mask
}

/// Extracts at most eight bits of `value` into a byte.
pub fn extract_bits_u8(value: u64, lowest: u32, count: u32) -> (r: u8)
    requires
        lowest < 64,
        count <= 8,
    ensures
        r == bit_range(value as int, lowest as nat, count as nat),
{
    let wide: u64 = extract_bits(value, lowest, count);
    proof {
        lemma2_to64();
        if count < 8 {
            lemma_pow2_strictly_increases(count as nat, 8);
        }
    }
    wide as u8
}

/// Extracts at most sixteen bits of `value` into a 16-bit word.
pub fn extract_bits_u16(value: u64, lowest: u32, count: u32) -> (r: u16)
    requires
        lowest < 64,
        count <= 16,
    ensures
        r == bit_range(value as int, lowest as nat, count as nat),
{
    let wide: u64 = extract_bits(value, lowest, count);
    proof {
        lemma2_to64();
        if count < 16 {
            lemma_pow2_strictly_increases(count as nat, 16);
        }
    }
    wide as u16
}

} // verus!
