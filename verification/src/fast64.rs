use vstd::prelude::*;

use crate::backend::{
    add_bits_64, backend_add_64, backend_div_64, backend_mul_64, backend_mul_add_64,
    backend_rem_64, backend_sub_64, div_bits_64, mul_add_bits_64, mul_bits_64, rem_bits_64,
    sub_bits_64,
};
use crate::bits64::{
    abs_bits_64, clamp_bits_64, cmp_bits_64, copysign_bits_64, eq_bits_64, is_finite_64,
    is_infinite_64, is_nan_64, is_subnormal_64, is_zero_64, le_bits_64, lt_bits_64, max_bits_64,
    min_bits_64, neg_bits_64, order_key_64, sign_bit_64, ABS_MASK_64, EXP_MASK_64, FRAC_MASK_64,
    MAX_BITS_64, MIN_BITS_64, MIN_POSITIVE_BITS_64, ONE_BITS_64, SIGN_MASK_64, ZERO_BITS_64,
};
use crate::poison::MaybePoison;
use crate::FpCategory;
use crate::InvalidValueError;

verus! {

/// A wrapper over the bits of a 64-bit IEEE 754 value which tolerates the
/// poison values that aggressive numeric optimization may produce.
///
/// The wrapped bits may be any pattern, the invalid ones (NaN, the two
/// infinities) included; a value holding such bits yields unspecified — but
/// never undefined — results. Arithmetic and the bit-mask operations are
/// poison-safe and work on the unfrozen bits; every operation that produces
/// an observation (a comparison, a classification, a conversion) freezes its
/// operands first.
#[derive(Clone, Copy)]
pub struct FF64(MaybePoison<u64>);

impl View for FF64 {
    type V = u64;

    closed spec fn view(&self) -> u64 {
        self.0@
    }
}

/// What `classify` reports for frozen bits: the true category, except that
/// the invalid categories are never shown to the caller and are reported as
/// `Normal` instead.
pub open spec fn classify_visible_64(b: u64) -> FpCategory {
    if is_nan_64(b) || is_infinite_64(b) {
        FpCategory::Normal
    } else if is_zero_64(b) {
        FpCategory::Zero
    } else if is_subnormal_64(b) {
        FpCategory::Subnormal
    } else {
        FpCategory::Normal
    }
}

/// The left fold of the backend addition over a sequence of operand bits,
/// starting from positive zero: what summing a slice computes.
pub open spec fn sum_bits_64(s: Seq<u64>) -> u64
    decreases s.len(),
{
    if s.len() == 0 {
        ZERO_BITS_64
    } else {
        add_bits_64(sum_bits_64(s.drop_last()), s.last())
    }
}

/// The left fold of the backend multiplication over a sequence of operand
/// bits, starting from one: what multiplying a slice out computes.
pub open spec fn product_bits_64(s: Seq<u64>) -> u64
    decreases s.len(),
{
    if s.len() == 0 {
        ONE_BITS_64
    } else {
        mul_bits_64(product_bits_64(s.drop_last()), s.last())
    }
}

// The exec twins of the bit-level spec functions. They read unfrozen bits,
// so they may only be applied where poison is tolerated: they compute masks
// and integer comparisons and stand for the dedicated poison-safe primitives
// of the backend.

fn exec_is_nan_64(b: u64) -> (r: bool)
    ensures
        r == is_nan_64(b),
{
    (b & ABS_MASK_64) > EXP_MASK_64
}

fn exec_is_zero_64(b: u64) -> (r: bool)
    ensures
        r == is_zero_64(b),
{
    (b & ABS_MASK_64) == 0
}

fn exec_order_key_64(b: u64) -> (r: u64)
    ensures
        r == order_key_64(b),
{
    if b & SIGN_MASK_64 != 0 {
        !b
    } else {
        b | SIGN_MASK_64
    }
}

fn exec_lt_bits_64(a: u64, b: u64) -> (r: bool)
    ensures
        r == lt_bits_64(a, b),
{
    if exec_is_nan_64(a) || exec_is_nan_64(b) {
        false
    } else if exec_is_zero_64(a) && exec_is_zero_64(b) {
        false
    } else {
        exec_order_key_64(a) < exec_order_key_64(b)
    }
}

fn exec_eq_bits_64(a: u64, b: u64) -> (r: bool)
    ensures
        r == eq_bits_64(a, b),
{
    if exec_is_nan_64(a) || exec_is_nan_64(b) {
        false
    } else {
        a == b || (exec_is_zero_64(a) && exec_is_zero_64(b))
    }
}

impl FF64 {
    /// Wrap raw bits. Total: every pattern is a valid "maybe poison" value.
    /// The value **must not** be infinite or NaN if meaningful numeric
    /// results are wanted; a wrapped invalid value stays safe but every
    /// observation of it is unspecified.
    pub fn new(bits: u64) -> (r: Self)
        ensures
            r@ == bits,
    {
        FF64(MaybePoison::new(bits))
    }

    /// Wrap raw bits after validating them, rejecting the bits of an
    /// infinity or a NaN.
    ///
    /// The check is not sufficient to rule all unspecified results out — a
    /// later operation on valid operands can still produce an invalid value
    /// — but it is useful as best-effort validation of inputs.
    pub fn new_checked(bits: u64) -> (r: Result<Self, InvalidValueError>)
        ensures
            r is Ok <==> is_finite_64(bits),
            r matches Ok(v) ==> v@ == bits,
    {
        if (bits & ABS_MASK_64) < EXP_MASK_64 {
            Ok(FF64::new(bits))
        } else {
            Err(InvalidValueError {})
        }
    }

    /// Freeze a copy of the value and hand its concrete bits out. The result
    /// is stable: repeated freezes of the same value return the same bits.
    pub fn freeze_raw(self) -> (r: u64)
        ensures
            r == self@,
    {
        self.0.freeze()
    }

    /// Positive zero, the identity of addition.
    pub fn zero() -> (r: Self)
        ensures
            r@ == ZERO_BITS_64,
    {
        FF64::new(ZERO_BITS_64)
    }

    /// One, the identity of multiplication.
    pub fn one() -> (r: Self)
        ensures
            r@ == ONE_BITS_64,
    {
        FF64::new(ONE_BITS_64)
    }

    /// The smallest finite value.
    pub fn min_value() -> (r: Self)
        ensures
            r@ == MIN_BITS_64,
    {
        FF64::new(MIN_BITS_64)
    }

    /// The smallest positive normal value.
    pub fn min_positive() -> (r: Self)
        ensures
            r@ == MIN_POSITIVE_BITS_64,
    {
        FF64::new(MIN_POSITIVE_BITS_64)
    }

    /// The largest finite value.
    pub fn max_value() -> (r: Self)
        ensures
            r@ == MAX_BITS_64,
    {
        FF64::new(MAX_BITS_64)
    }

    // Arithmetic is poison-safe: it runs on the unfrozen bits and re-wraps
    // the result as possibly poison, keeping every check off the hot path.

    /// The sum. Poison-safe: no freeze.
    pub fn add(self, rhs: FF64) -> (r: FF64)
        ensures
            r@ == add_bits_64(self@, rhs@),
    {
        FF64::new(backend_add_64(self.0.maybe_poison(), rhs.0.maybe_poison()))
    }

    /// The difference. Poison-safe: no freeze.
    pub fn sub(self, rhs: FF64) -> (r: FF64)
        ensures
            r@ == sub_bits_64(self@, rhs@),
    {
        FF64::new(backend_sub_64(self.0.maybe_poison(), rhs.0.maybe_poison()))
    }

    /// The product. Poison-safe: no freeze.
    pub fn mul(self, rhs: FF64) -> (r: FF64)
        ensures
            r@ == mul_bits_64(self@, rhs@),
    {
        FF64::new(backend_mul_64(self.0.maybe_poison(), rhs.0.maybe_poison()))
    }

    /// The quotient. Poison-safe: no freeze.
    pub fn div(self, rhs: FF64) -> (r: FF64)
        ensures
            r@ == div_bits_64(self@, rhs@),
    {
        FF64::new(backend_div_64(self.0.maybe_poison(), rhs.0.maybe_poison()))
    }

    /// The remainder, as C `fmod` computes it. Poison-safe: no freeze.
    pub fn rem(self, rhs: FF64) -> (r: FF64)
        ensures
            r@ == rem_bits_64(self@, rhs@),
    {
        FF64::new(backend_rem_64(self.0.maybe_poison(), rhs.0.maybe_poison()))
    }

    /// The negation: the sign bit flipped, exact for every operand.
    /// Poison-safe: no freeze, no branch.
    pub fn neg(self) -> (r: FF64)
        ensures
            r@ == neg_bits_64(self@),
    {
        FF64::new(self.0.maybe_poison() ^ SIGN_MASK_64)
    }

    /// The fused multiply-add `self * a + b`, rounded once. The operands are
    /// frozen first and the conservative backend does the work.
    pub fn mul_add(self, a: FF64, b: FF64) -> (r: FF64)
        ensures
            r@ == mul_add_bits_64(self@, a@, b@),
    {
        FF64::new(backend_mul_add_64(self.freeze_raw(), a.freeze_raw(), b.freeze_raw()))
    }

    // The bit-mask operations are poison-safe as well: sign-bit manipulation
    // and sign-magnitude comparison, never a freeze.

    /// The absolute value: the sign bit cleared, exact for every operand.
    pub fn abs(self) -> (r: FF64)
        ensures
            r@ == abs_bits_64(self@),
    {
        FF64::new(self.0.maybe_poison() & ABS_MASK_64)
    }

    /// The magnitude of `self` with the sign of `sign`, exact for every
    /// operand.
    pub fn copysign(self, sign: FF64) -> (r: FF64)
        ensures
            r@ == copysign_bits_64(self@, sign@),
    {
        FF64::new(
            (self.0.maybe_poison() & ABS_MASK_64) | (sign.0.maybe_poison() & SIGN_MASK_64),
        )
    }

    /// The smaller operand, by sign-magnitude comparison; `self` if neither
    /// is strictly smaller.
    pub fn min(self, other: FF64) -> (r: FF64)
        ensures
            r@ == min_bits_64(self@, other@),
    {
        let a = self.0.maybe_poison();
        let b = other.0.maybe_poison();
        if exec_lt_bits_64(b, a) {
            FF64::new(b)
        } else {
            FF64::new(a)
        }
    }

    /// The larger operand, by sign-magnitude comparison; `self` if neither
    /// is strictly larger.
    pub fn max(self, other: FF64) -> (r: FF64)
        ensures
            r@ == max_bits_64(self@, other@),
    {
        let a = self.0.maybe_poison();
        let b = other.0.maybe_poison();
        if exec_lt_bits_64(a, b) {
            FF64::new(b)
        } else {
            FF64::new(a)
        }
    }

    /// The value clamped to `[lo, hi]`. The bounds must be ordered, which
    /// rules NaN bounds out.
    pub fn clamp(self, lo: FF64, hi: FF64) -> (r: FF64)
        requires
            le_bits_64(lo@, hi@),
        ensures
            r@ == clamp_bits_64(self@, lo@, hi@),
    {
        let x = self.0.maybe_poison();
        let l = lo.0.maybe_poison();
        let h = hi.0.maybe_poison();
        if exec_lt_bits_64(x, l) {
            FF64::new(l)
        } else if exec_lt_bits_64(h, x) {
            FF64::new(h)
        } else {
            FF64::new(x)
        }
    }

    // Everything that produces an observation — a boolean, an ordering, a
    // category — is poison-unsafe and freezes its operands first.

    /// The ordering of the two frozen values: a strict total order on
    /// everything the checked constructor accepts.
    pub fn cmp(self, other: FF64) -> (r: core::cmp::Ordering)
        ensures
            r == cmp_bits_64(self@, other@),
    {
        let a = self.freeze_raw();
        let b = other.freeze_raw();
        if exec_lt_bits_64(a, b) {
            core::cmp::Ordering::Less
        } else if exec_lt_bits_64(b, a) {
            core::cmp::Ordering::Greater
        } else {
            core::cmp::Ordering::Equal
        }
    }

    /// The category of the frozen value. Never reports `Nan` or `Infinite`:
    /// results are unspecified for invalid values, so `Normal` is as valid
    /// an answer as any other.
    pub fn classify(self) -> (r: FpCategory)
        ensures
            r == classify_visible_64(self@),
            r != FpCategory::Nan,
            r != FpCategory::Infinite,
    {
        let b = self.freeze_raw();
        proof {
            crate::bits64::lemma_category_partition_64(b);
        }
        if exec_is_zero_64(b) {
            FpCategory::Zero
        } else if (b & EXP_MASK_64) == 0 && (b & FRAC_MASK_64) != 0 {
            FpCategory::Subnormal
        } else {
            FpCategory::Normal
        }
    }

    /// Whether the frozen value has its sign bit set.
    pub fn is_sign_negative(self) -> (r: bool)
        ensures
            r == sign_bit_64(self@),
    {
        let b = self.freeze_raw();
        b & SIGN_MASK_64 != 0
    }

    /// Whether the frozen value has its sign bit clear.
    pub fn is_sign_positive(self) -> (r: bool)
        ensures
            r == !sign_bit_64(self@),
    {
        let b = self.freeze_raw();
        b & SIGN_MASK_64 == 0
    }

    /// Whether the frozen value is classified `Normal` (which an invalid
    /// value is reported as too).
    pub fn is_normal(self) -> (r: bool)
        ensures
            r == (classify_visible_64(self@) == FpCategory::Normal),
    {
        let c = self.classify();
        c == FpCategory::Normal
    }

    /// Whether the frozen value is subnormal.
    pub fn is_subnormal(self) -> (r: bool)
        ensures
            r == is_subnormal_64(self@),
    {
        proof {
            crate::bits64::lemma_category_partition_64(self@);
        }
        let c = self.classify();
        c == FpCategory::Subnormal
    }

    /// The sum of a slice: the poison-safe addition folded left over the
    /// elements, starting from zero.
    pub fn sum(values: &Vec<FF64>) -> (r: FF64)
        ensures
            r@ == sum_bits_64(values@.map_values(|v: FF64| v@)),
    {
        let ghost all = values@.map_values(|v: FF64| v@);
        let mut acc = FF64::zero();
        let mut i: usize = 0;
        while i < values.len()
            invariant
                i <= values@.len(),
                all == values@.map_values(|v: FF64| v@),
                acc@ == sum_bits_64(all.take(i as int)),
            decreases values@.len() - i,
        {
            acc = acc.add(values[i]);
            proof {
                assert(all.take(i + 1).drop_last() =~= all.take(i as int));
                assert(all.take(i + 1).last() == all[i as int]);
            }
            i = i + 1;
        }
        proof {
            assert(all.take(values@.len() as int) =~= all);
        }
        acc
    }

    /// The product of a slice: the poison-safe multiplication folded left
    /// over the elements, starting from one.
    pub fn product(values: &Vec<FF64>) -> (r: FF64)
        ensures
            r@ == product_bits_64(values@.map_values(|v: FF64| v@)),
    {
        let ghost all = values@.map_values(|v: FF64| v@);
        let mut acc = FF64::one();
        let mut i: usize = 0;
        while i < values.len()
            invariant
                i <= values@.len(),
                all == values@.map_values(|v: FF64| v@),
                acc@ == product_bits_64(all.take(i as int)),
            decreases values@.len() - i,
        {
            acc = acc.mul(values[i]);
            proof {
                assert(all.take(i + 1).drop_last() =~= all.take(i as int));
                assert(all.take(i + 1).last() == all[i as int]);
            }
            i = i + 1;
        }
        proof {
            assert(all.take(values@.len() as int) =~= all);
        }
        acc
    }
}

// Equality and ordering are defined on frozen copies of the operands; only
// the copies are pinned, so two observations of one logically-poison value
// may disagree. That is documented behavior, kept out of the way by keeping
// values finite.

impl PartialEq for FF64 {
    fn eq(&self, other: &FF64) -> (r: bool) {
        let a = (*self).freeze_raw();
        let b = (*other).freeze_raw();
        exec_eq_bits_64(a, b)
    }
}

impl vstd::std_specs::cmp::PartialEqSpecImpl for FF64 {
    open spec fn obeys_eq_spec() -> bool {
        true
    }

    open spec fn eq_spec(&self, other: &FF64) -> bool {
        eq_bits_64(self@, other@)
    }
}

impl Eq for FF64 {
}

impl PartialOrd for FF64 {
    fn partial_cmp(&self, other: &FF64) -> (r: Option<core::cmp::Ordering>) {
        Some((*self).cmp(*other))
    }

    fn lt(&self, other: &FF64) -> (r: bool) {
        let a = (*self).freeze_raw();
        let b = (*other).freeze_raw();
        exec_lt_bits_64(a, b)
    }

    fn le(&self, other: &FF64) -> (r: bool) {
        let a = (*self).freeze_raw();
        let b = (*other).freeze_raw();
        !exec_lt_bits_64(b, a)
    }

    fn gt(&self, other: &FF64) -> (r: bool) {
        let a = (*self).freeze_raw();
        let b = (*other).freeze_raw();
        exec_lt_bits_64(b, a)
    }

    fn ge(&self, other: &FF64) -> (r: bool) {
        let a = (*self).freeze_raw();
        let b = (*other).freeze_raw();
        !exec_lt_bits_64(a, b)
    }
}

impl vstd::std_specs::cmp::PartialOrdSpecImpl for FF64 {
    open spec fn obeys_partial_cmp_spec() -> bool {
        true
    }

    open spec fn partial_cmp_spec(&self, other: &FF64) -> Option<core::cmp::Ordering> {
        Some(cmp_bits_64(self@, other@))
    }
}

} // verus!
