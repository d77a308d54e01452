use vstd::prelude::*;

verus! {

// Layout of a 32-bit IEEE 754 value: 1 sign bit, 8 exponent bits, 23
// fraction bits.

pub const SIGN_MASK_32: u32 = 0x8000_0000;
pub const EXP_MASK_32: u32 = 0x7F80_0000;
pub const FRAC_MASK_32: u32 = 0x007F_FFFF;
pub const ABS_MASK_32: u32 = 0x7FFF_FFFF;

/// Bits of positive zero.
pub const ZERO_BITS_32: u32 = 0;
/// Bits of one.
pub const ONE_BITS_32: u32 = 0x3F80_0000;
/// Bits of the largest finite value.
pub const MAX_BITS_32: u32 = 0x7F7F_FFFF;
/// Bits of the smallest finite value (the negation of the largest).
pub const MIN_BITS_32: u32 = 0xFF7F_FFFF;
/// Bits of the smallest positive normal value.
pub const MIN_POSITIVE_BITS_32: u32 = 0x0080_0000;

/// The sign bit is set: the value is negative (or a NaN with the sign set).
pub open spec fn sign_bit_32(b: u32) -> bool {
    b & SIGN_MASK_32 != 0
}

/// The bits with the sign cleared: the magnitude of the value.
pub open spec fn abs_bits_32(b: u32) -> u32 {
    b & ABS_MASK_32
}

/// All exponent bits set and a non-zero fraction: not a number.
pub open spec fn is_nan_32(b: u32) -> bool {
    abs_bits_32(b) > EXP_MASK_32
}

/// All exponent bits set and a zero fraction: an infinity.
pub open spec fn is_infinite_32(b: u32) -> bool {
    abs_bits_32(b) == EXP_MASK_32
}

/// Not all exponent bits set: a finite value (zero, subnormal or normal).
pub open spec fn is_finite_32(b: u32) -> bool {
    abs_bits_32(b) < EXP_MASK_32
}

/// Zero magnitude: positive or negative zero.
pub open spec fn is_zero_32(b: u32) -> bool {
    abs_bits_32(b) == 0
}

/// Zero exponent and non-zero fraction: a subnormal value.
pub open spec fn is_subnormal_32(b: u32) -> bool {
    b & EXP_MASK_32 == 0 && b & FRAC_MASK_32 != 0
}

/// Finite with a non-zero, non-saturated exponent: a normal value.
pub open spec fn is_normal_32(b: u32) -> bool {
    is_finite_32(b) && b & EXP_MASK_32 != 0
}

/// The bits of the negated value: the sign bit flipped.
pub open spec fn neg_bits_32(b: u32) -> u32 {
    b ^ SIGN_MASK_32
}

/// The bits of `x` with the sign of `y`.
pub open spec fn copysign_bits_32(x: u32, y: u32) -> u32 {
    (x & ABS_MASK_32) | (y & SIGN_MASK_32)
}

/// A monotone key: ordering keys by `<` on `u32` orders the values they came
/// from numerically. A negative value maps below every non-negative one,
/// larger magnitudes of negative values map lower, larger magnitudes of
/// positive values map higher. The two zeros map to adjacent keys, so they
/// are identified separately wherever equality matters.
pub open spec fn order_key_32(b: u32) -> u32 {
    if sign_bit_32(b) {
        !b
    } else {
        b | SIGN_MASK_32
    }
}

/// Numeric equality of two non-NaN values: equal bits, or the two zeros.
/// Any NaN compares unequal to everything, itself included.
pub open spec fn eq_bits_32(a: u32, b: u32) -> bool {
    &&& !is_nan_32(a)
    &&& !is_nan_32(b)
    &&& (a == b || (is_zero_32(a) && is_zero_32(b)))
}

/// Numeric strict order of two non-NaN values. Any comparison with a NaN is
/// false.
pub open spec fn lt_bits_32(a: u32, b: u32) -> bool {
    &&& !is_nan_32(a)
    &&& !is_nan_32(b)
    &&& order_key_32(a) < order_key_32(b)
    &&& !(is_zero_32(a) && is_zero_32(b))
}

/// Numeric non-strict order: strictly below, or numerically equal.
pub open spec fn le_bits_32(a: u32, b: u32) -> bool {
    lt_bits_32(a, b) || eq_bits_32(a, b)
}

/// The ordering that comparison of frozen values reports: `Less` when
/// strictly below, `Greater` when strictly above, `Equal` otherwise (which
/// for NaN operands makes every comparison that is not strict come out
/// `Equal`, as the documentation of the fast types warns).
pub open spec fn cmp_bits_32(a: u32, b: u32) -> core::cmp::Ordering {
    if lt_bits_32(a, b) {
        core::cmp::Ordering::Less
    } else if lt_bits_32(b, a) {
        core::cmp::Ordering::Greater
    } else {
        core::cmp::Ordering::Equal
    }
}

/// The smaller of two values under the strict order, preferring the first
/// operand when neither is strictly smaller.
pub open spec fn min_bits_32(a: u32, b: u32) -> u32 {
    if lt_bits_32(b, a) {
        b
    } else {
        a
    }
}

/// The larger of two values under the strict order, preferring the first
/// operand when neither is strictly larger.
pub open spec fn max_bits_32(a: u32, b: u32) -> u32 {
    if lt_bits_32(a, b) {
        b
    } else {
        a
    }
}

/// The value clamped to `[lo, hi]`.
pub open spec fn clamp_bits_32(x: u32, lo: u32, hi: u32) -> u32 {
    if lt_bits_32(x, lo) {
        lo
    } else if lt_bits_32(hi, x) {
        hi
    } else {
        x
    }
}

/// The categories partition the bit patterns: every value is exactly one of
/// NaN, infinite, zero, subnormal and normal, and only the last three are
/// finite.
pub proof fn lemma_category_partition_32(b: u32)
    ensures
        is_nan_32(b) || is_infinite_32(b) ==> !is_finite_32(b) && !is_zero_32(b)
            && !is_subnormal_32(b) && !is_normal_32(b),
        is_zero_32(b) ==> is_finite_32(b) && !is_subnormal_32(b) && !is_normal_32(b),
        is_subnormal_32(b) ==> is_finite_32(b) && !is_zero_32(b) && !is_normal_32(b),
        is_finite_32(b) && !is_zero_32(b) && !is_subnormal_32(b) ==> is_normal_32(b),
{
    assert(((is_nan_32(b) || is_infinite_32(b)) ==> !is_finite_32(b) && !is_zero_32(b)
        && !is_subnormal_32(b) && !is_normal_32(b)) && (is_zero_32(b) ==> is_finite_32(b)
        && !is_subnormal_32(b) && !is_normal_32(b)) && (is_subnormal_32(b) ==> is_finite_32(b)
        && !is_zero_32(b) && !is_normal_32(b)) && ((is_finite_32(b) && !is_zero_32(b)
        && !is_subnormal_32(b)) ==> is_normal_32(b))) by (bit_vector);
}

/// Total order, part one: of two non-NaN values, exactly one of "strictly
/// below", "numerically equal" and "strictly above" holds.
pub proof fn lemma_order_trichotomy_32(a: u32, b: u32)
    requires
        !is_nan_32(a),
        !is_nan_32(b),
    ensures
        lt_bits_32(a, b) || eq_bits_32(a, b) || lt_bits_32(b, a),
        lt_bits_32(a, b) ==> !eq_bits_32(a, b) && !lt_bits_32(b, a),
        eq_bits_32(a, b) ==> !lt_bits_32(a, b) && !lt_bits_32(b, a),
{
    assert((lt_bits_32(a, b) || eq_bits_32(a, b) || lt_bits_32(b, a)) && (lt_bits_32(a, b)
        ==> !eq_bits_32(a, b) && !lt_bits_32(b, a)) && (eq_bits_32(a, b) ==> !lt_bits_32(a, b)
        && !lt_bits_32(b, a))) by (bit_vector)
        requires
            !is_nan_32(a),
            !is_nan_32(b),
    ;
}

/// Total order, part two: the strict order is transitive.
pub proof fn lemma_lt_transitive_32(a: u32, b: u32, c: u32)
    requires
        lt_bits_32(a, b),
        lt_bits_32(b, c),
    ensures
        lt_bits_32(a, c),
{
    assert(lt_bits_32(a, b) && lt_bits_32(b, c) ==> lt_bits_32(a, c)) by (bit_vector);
}

/// Numeric equality is transitive (and, by its shape, symmetric).
pub proof fn lemma_eq_transitive_32(a: u32, b: u32, c: u32)
    requires
        eq_bits_32(a, b),
        eq_bits_32(b, c),
    ensures
        eq_bits_32(a, c),
{
    assert(eq_bits_32(a, b) && eq_bits_32(b, c) ==> eq_bits_32(a, c)) by (bit_vector);
}

/// Equality and the reported ordering cohere: two non-NaN values are
/// numerically equal exactly when their comparison comes out `Equal`.
pub proof fn lemma_eq_matches_cmp_32(a: u32, b: u32)
    requires
        !is_nan_32(a),
        !is_nan_32(b),
    ensures
        eq_bits_32(a, b) <==> cmp_bits_32(a, b) == core::cmp::Ordering::Equal,
{
    lemma_order_trichotomy_32(a, b);
}

/// The branch-free minimum and maximum agree with the order: each picks one
/// of its operands, below (respectively above) or numerically equal to both.
pub proof fn lemma_min_max_follow_the_order_32(a: u32, b: u32)
    requires
        !is_nan_32(a),
        !is_nan_32(b),
    ensures
        le_bits_32(min_bits_32(a, b), a),
        le_bits_32(min_bits_32(a, b), b),
        le_bits_32(a, max_bits_32(a, b)),
        le_bits_32(b, max_bits_32(a, b)),
        min_bits_32(a, b) == a || min_bits_32(a, b) == b,
        max_bits_32(a, b) == a || max_bits_32(a, b) == b,
{
    assert(le_bits_32(min_bits_32(a, b), a) && le_bits_32(min_bits_32(a, b), b) && le_bits_32(
        a,
        max_bits_32(a, b),
    ) && le_bits_32(b, max_bits_32(a, b))) by (bit_vector)
        requires
            !is_nan_32(a),
            !is_nan_32(b),
    ;
}

/// A clamped value lies within the (ordered, hence non-NaN) bounds.
pub proof fn lemma_clamp_bounded_32(x: u32, lo: u32, hi: u32)
    requires
        le_bits_32(lo, hi),
        !is_nan_32(x),
    ensures
        le_bits_32(lo, clamp_bits_32(x, lo, hi)),
        le_bits_32(clamp_bits_32(x, lo, hi), hi),
{
    assert(le_bits_32(lo, clamp_bits_32(x, lo, hi)) && le_bits_32(
        clamp_bits_32(x, lo, hi),
        hi,
    )) by (bit_vector)
        requires
            le_bits_32(lo, hi),
            !is_nan_32(x),
    ;
}

/// Equal values order the same way against any third value, so the strict
/// order and the equality together order the values totally.
pub proof fn lemma_eq_lt_compatible_32(a: u32, b: u32, c: u32)
    requires
        eq_bits_32(a, b),
    ensures
        lt_bits_32(a, c) == lt_bits_32(b, c),
        lt_bits_32(c, a) == lt_bits_32(c, b),
{
    assert(eq_bits_32(a, b) ==> (lt_bits_32(a, c) == lt_bits_32(b, c)) && (lt_bits_32(c, a)
        == lt_bits_32(c, b))) by (bit_vector);
}

} // verus!
