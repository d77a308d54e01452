use vstd::prelude::*;

verus! {

// Layout of a 64-bit IEEE 754 value: 1 sign bit, 11 exponent bits, 52
// fraction bits.

pub const SIGN_MASK_64: u64 = 0x8000_0000_0000_0000;
pub const EXP_MASK_64: u64 = 0x7FF0_0000_0000_0000;
pub const FRAC_MASK_64: u64 = 0x000F_FFFF_FFFF_FFFF;
pub const ABS_MASK_64: u64 = 0x7FFF_FFFF_FFFF_FFFF;

/// Bits of positive zero.
pub const ZERO_BITS_64: u64 = 0;
/// Bits of one.
pub const ONE_BITS_64: u64 = 0x3FF0_0000_0000_0000;
/// Bits of the largest finite value.
pub const MAX_BITS_64: u64 = 0x7FEF_FFFF_FFFF_FFFF;
/// Bits of the smallest finite value (the negation of the largest).
pub const MIN_BITS_64: u64 = 0xFFEF_FFFF_FFFF_FFFF;
/// Bits of the smallest positive normal value.
pub const MIN_POSITIVE_BITS_64: u64 = 0x0010_0000_0000_0000;

/// The sign bit is set: the value is negative (or a NaN with the sign set).
pub open spec fn sign_bit_64(b: u64) -> bool {
    b & SIGN_MASK_64 != 0
}

/// The bits with the sign cleared: the magnitude of the value.
pub open spec fn abs_bits_64(b: u64) -> u64 {
    b & ABS_MASK_64
}

/// All exponent bits set and a non-zero fraction: not a number.
pub open spec fn is_nan_64(b: u64) -> bool {
    abs_bits_64(b) > EXP_MASK_64
}

/// All exponent bits set and a zero fraction: an infinity.
pub open spec fn is_infinite_64(b: u64) -> bool {
    abs_bits_64(b) == EXP_MASK_64
}

/// Not all exponent bits set: a finite value (zero, subnormal or normal).
pub open spec fn is_finite_64(b: u64) -> bool {
    abs_bits_64(b) < EXP_MASK_64
}

/// Zero magnitude: positive or negative zero.
pub open spec fn is_zero_64(b: u64) -> bool {
    abs_bits_64(b) == 0
}

/// Zero exponent and non-zero fraction: a subnormal value.
pub open spec fn is_subnormal_64(b: u64) -> bool {
    b & EXP_MASK_64 == 0 && b & FRAC_MASK_64 != 0
}

/// Finite with a non-zero, non-saturated exponent: a normal value.
pub open spec fn is_normal_64(b: u64) -> bool {
    is_finite_64(b) && b & EXP_MASK_64 != 0
}

/// The bits of the negated value: the sign bit flipped.
pub open spec fn neg_bits_64(b: u64) -> u64 {
    b ^ SIGN_MASK_64
}

/// The bits of `x` with the sign of `y`.
pub open spec fn copysign_bits_64(x: u64, y: u64) -> u64 {
    (x & ABS_MASK_64) | (y & SIGN_MASK_64)
}

/// A monotone key: ordering keys by `<` on `u64` orders the values they came
/// from numerically. A negative value maps below every non-negative one,
/// larger magnitudes of negative values map lower, larger magnitudes of
/// positive values map higher. The two zeros map to adjacent keys, so they
/// are identified separately wherever equality matters.
pub open spec fn order_key_64(b: u64) -> u64 {
    if sign_bit_64(b) {
        !b
    } else {
        b | SIGN_MASK_64
    }
}

/// Numeric equality of two non-NaN values: equal bits, or the two zeros.
/// Any NaN compares unequal to everything, itself included.
pub open spec fn eq_bits_64(a: u64, b: u64) -> bool {
    &&& !is_nan_64(a)
    &&& !is_nan_64(b)
    &&& (a == b || (is_zero_64(a) && is_zero_64(b)))
}

/// Numeric strict order of two non-NaN values. Any comparison with a NaN is
/// false.
pub open spec fn lt_bits_64(a: u64, b: u64) -> bool {
    &&& !is_nan_64(a)
    &&& !is_nan_64(b)
    &&& order_key_64(a) < order_key_64(b)
    &&& !(is_zero_64(a) && is_zero_64(b))
}

/// Numeric non-strict order: strictly below, or numerically equal.
pub open spec fn le_bits_64(a: u64, b: u64) -> bool {
    lt_bits_64(a, b) || eq_bits_64(a, b)
}

/// The ordering that comparison of frozen values reports: `Less` when
/// strictly below, `Greater` when strictly above, `Equal` otherwise (which
/// for NaN operands makes every comparison that is not strict come out
/// `Equal`, as the documentation of the fast types warns).
pub open spec fn cmp_bits_64(a: u64, b: u64) -> core::cmp::Ordering {
    if lt_bits_64(a, b) {
        core::cmp::Ordering::Less
    } else if lt_bits_64(b, a) {
        core::cmp::Ordering::Greater
    } else {
        core::cmp::Ordering::Equal
    }
}

/// The smaller of two values under the strict order, preferring the first
/// operand when neither is strictly smaller.
pub open spec fn min_bits_64(a: u64, b: u64) -> u64 {
    if lt_bits_64(b, a) {
        b
    } else {
        a
    }
}

/// The larger of two values under the strict order, preferring the first
/// operand when neither is strictly larger.
pub open spec fn max_bits_64(a: u64, b: u64) -> u64 {
    if lt_bits_64(a, b) {
        b
    } else {
        a
    }
}

/// The value clamped to `[lo, hi]`.
pub open spec fn clamp_bits_64(x: u64, lo: u64, hi: u64) -> u64 {
    if lt_bits_64(x, lo) {
        lo
    } else if lt_bits_64(hi, x) {
        hi
    } else {
        x
    }
}

/// The categories partition the bit patterns: every value is exactly one of
/// NaN, infinite, zero, subnormal and normal, and only the last three are
/// finite.
pub proof fn lemma_category_partition_64(b: u64)
    ensures
        is_nan_64(b) || is_infinite_64(b) ==> !is_finite_64(b) && !is_zero_64(b)
            && !is_subnormal_64(b) && !is_normal_64(b),
        is_zero_64(b) ==> is_finite_64(b) && !is_subnormal_64(b) && !is_normal_64(b),
        is_subnormal_64(b) ==> is_finite_64(b) && !is_zero_64(b) && !is_normal_64(b),
        is_finite_64(b) && !is_zero_64(b) && !is_subnormal_64(b) ==> is_normal_64(b),
{
    assert(((is_nan_64(b) || is_infinite_64(b)) ==> !is_finite_64(b) && !is_zero_64(b)
        && !is_subnormal_64(b) && !is_normal_64(b)) && (is_zero_64(b) ==> is_finite_64(b)
        && !is_subnormal_64(b) && !is_normal_64(b)) && (is_subnormal_64(b) ==> is_finite_64(b)
        && !is_zero_64(b) && !is_normal_64(b)) && ((is_finite_64(b) && !is_zero_64(b)
        && !is_subnormal_64(b)) ==> is_normal_64(b))) by (bit_vector);
}

/// Total order, part one: of two non-NaN values, exactly one of "strictly
/// below", "numerically equal" and "strictly above" holds.
pub proof fn lemma_order_trichotomy_64(a: u64, b: u64)
    requires
        !is_nan_64(a),
        !is_nan_64(b),
    ensures
        lt_bits_64(a, b) || eq_bits_64(a, b) || lt_bits_64(b, a),
        lt_bits_64(a, b) ==> !eq_bits_64(a, b) && !lt_bits_64(b, a),
        eq_bits_64(a, b) ==> !lt_bits_64(a, b) && !lt_bits_64(b, a),
{
    assert((lt_bits_64(a, b) || eq_bits_64(a, b) || lt_bits_64(b, a)) && (lt_bits_64(a, b)
        ==> !eq_bits_64(a, b) && !lt_bits_64(b, a)) && (eq_bits_64(a, b) ==> !lt_bits_64(a, b)
        && !lt_bits_64(b, a))) by (bit_vector)
        requires
            !is_nan_64(a),
            !is_nan_64(b),
    ;
}

/// Total order, part two: the strict order is transitive.
pub proof fn lemma_lt_transitive_64(a: u64, b: u64, c: u64)
    requires
        lt_bits_64(a, b),
        lt_bits_64(b, c),
    ensures
        lt_bits_64(a, c),
{
    assert(lt_bits_64(a, b) && lt_bits_64(b, c) ==> lt_bits_64(a, c)) by (bit_vector);
}

/// Numeric equality is transitive (and, by its shape, symmetric).
pub proof fn lemma_eq_transitive_64(a: u64, b: u64, c: u64)
    requires
        eq_bits_64(a, b),
        eq_bits_64(b, c),
    ensures
        eq_bits_64(a, c),
{
    assert(eq_bits_64(a, b) && eq_bits_64(b, c) ==> eq_bits_64(a, c)) by (bit_vector);
}

/// Equality and the reported ordering cohere: two non-NaN values are
/// numerically equal exactly when their comparison comes out `Equal`.
pub proof fn lemma_eq_matches_cmp_64(a: u64, b: u64)
    requires
        !is_nan_64(a),
        !is_nan_64(b),
    ensures
        eq_bits_64(a, b) <==> cmp_bits_64(a, b) == core::cmp::Ordering::Equal,
{
    lemma_order_trichotomy_64(a, b);
}

/// The branch-free minimum and maximum agree with the order: each picks one
/// of its operands, below (respectively above) or numerically equal to both.
pub proof fn lemma_min_max_follow_the_order_64(a: u64, b: u64)
    requires
        !is_nan_64(a),
        !is_nan_64(b),
    ensures
        le_bits_64(min_bits_64(a, b), a),
        le_bits_64(min_bits_64(a, b), b),
        le_bits_64(a, max_bits_64(a, b)),
        le_bits_64(b, max_bits_64(a, b)),
        min_bits_64(a, b) == a || min_bits_64(a, b) == b,
        max_bits_64(a, b) == a || max_bits_64(a, b) == b,
{
    assert(le_bits_64(min_bits_64(a, b), a) && le_bits_64(min_bits_64(a, b), b) && le_bits_64(
        a,
        max_bits_64(a, b),
    ) && le_bits_64(b, max_bits_64(a, b))) by (bit_vector)
        requires
            !is_nan_64(a),
            !is_nan_64(b),
    ;
}

/// A clamped value lies within the (ordered, hence non-NaN) bounds.
pub proof fn lemma_clamp_bounded_64(x: u64, lo: u64, hi: u64)
    requires
        le_bits_64(lo, hi),
        !is_nan_64(x),
    ensures
        le_bits_64(lo, clamp_bits_64(x, lo, hi)),
        le_bits_64(clamp_bits_64(x, lo, hi), hi),
{
    assert(le_bits_64(lo, clamp_bits_64(x, lo, hi)) && le_bits_64(
        clamp_bits_64(x, lo, hi),
        hi,
    )) by (bit_vector)
        requires
            le_bits_64(lo, hi),
            !is_nan_64(x),
    ;
}

/// Equal values order the same way against any third value, so the strict
/// order and the equality together order the values totally.
pub proof fn lemma_eq_lt_compatible_64(a: u64, b: u64, c: u64)
    requires
        eq_bits_64(a, b),
    ensures
        lt_bits_64(a, c) == lt_bits_64(b, c),
        lt_bits_64(c, a) == lt_bits_64(c, b),
{
    assert(eq_bits_64(a, b) ==> (lt_bits_64(a, c) == lt_bits_64(b, c)) && (lt_bits_64(c, a)
        == lt_bits_64(c, b))) by (bit_vector);
}

} // verus!
