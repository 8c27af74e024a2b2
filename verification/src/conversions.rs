//! Address and size rounding used throughout the binding.
use vstd::prelude::*;
use vstd::arithmetic::power2::{pow2, lemma2_to64, lemma_pow2_pos};
use vstd::bits::{low_bits_mask, lemma_usize_low_bits_mask_is_mod, lemma_usize_pow2_no_overflow};

verus! {

/// `align` is a power of two that fits in a `usize`.
pub open spec fn is_pow2(align: int) -> bool {
    exists|k: nat| k < usize::BITS && #[trigger] pow2(k) == align
}

/// `val` rounded up to the next multiple of `align`.
#[verifier::opaque]
pub open spec fn align_up_spec(val: int, align: int) -> int {
    ((val + align - 1) / align) * align
}

/// The small powers of two that the object layouts use are powers of two.
pub proof fn lemma_small_pow2()
    ensures
        is_pow2(1),
        is_pow2(2),
        is_pow2(4),
        is_pow2(8),
{
    lemma2_to64();
    assert(pow2(0) == 1 && pow2(1) == 2 && pow2(2) == 4 && pow2(3) == 8);
}

/// A power of two is positive.
pub proof fn lemma_pow2_is_positive(a: int)
    requires
        is_pow2(a),
    ensures
        a > 0,
{
    let k = choose|k: nat| k < usize::BITS && #[trigger] pow2(k) == a;
    lemma_pow2_pos(k);
}

/// Masking off the low bits of `x` with the mask of a power of two `a`
/// rounds `x` down to a multiple of `a`.
proof fn lemma_mask_rounds_down(x: usize, a: usize)
    requires
        is_pow2(a as int),
    ensures
        a > 0,
        x & ((a - 1) as usize) == x % a,
        x & !((a - 1) as usize) == x - x % a,
{
    let k = choose|k: nat| k < usize::BITS && #[trigger] pow2(k) == a as int;
    lemma_pow2_pos(k);
    lemma_usize_pow2_no_overflow(k);
    lemma_usize_low_bits_mask_is_mod(x, k);
    let m = (a - 1) as usize;
    assert(low_bits_mask(k) as usize == m);
    assert(x & !m == ((x - (x & m)) as usize) && (x & m) <= x) by (bit_vector);
}

/// Round `val` up to a multiple of the power of two `align`.
pub fn raw_align_up(val: usize, align: usize) -> (r: usize)
    requires
        is_pow2(align as int),
        val + align - 1 <= usize::MAX,
    ensures
        r == align_up_spec(val as int, align as int),
{
    proof {
        lemma_mask_rounds_down(0, align);
    }
    let x = val + (align - 1);
    proof {
        lemma_mask_rounds_down(x, align);
        assert(x - x % align == (x / align) * align) by (nonlinear_arith)
            requires align > 0;
        reveal(align_up_spec);
    }
    x & !(align - 1)
}

/// Rounding up to a power of two gives the least multiple of it that is at least the value.
pub proof fn lemma_align_up_is_least_multiple(val: int, align: int)
    requires
        align > 0,
    ensures
        val <= align_up_spec(val, align) < val + align,
        align_up_spec(val, align) % align == 0,
{
    let x = val + align - 1;
    assert(x - align < (x / align) * align <= x) by (nonlinear_arith)
        requires align > 0;
    assert(((x / align) * align) % align == 0) by (nonlinear_arith)
        requires align > 0;
    reveal(align_up_spec);
}

/// Whether `val` is a multiple of the power of two `align`.
pub fn raw_is_aligned(val: usize, align: usize) -> (r: bool)
    requires
        is_pow2(align as int),
    ensures
        r == (val % align == 0),
{
    proof {
        lemma_mask_rounds_down(val, align);
    }
    val & (align - 1) == 0
}

} // verus!
