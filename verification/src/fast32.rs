use vstd::prelude::*;

use crate::backend::{
    add_bits_32, backend_add_32, backend_div_32, backend_mul_32, backend_mul_add_32,
    backend_rem_32, backend_sub_32, div_bits_32, mul_add_bits_32, mul_bits_32, rem_bits_32,
    sub_bits_32,
};
use crate::bits32::{
    abs_bits_32, clamp_bits_32, cmp_bits_32, copysign_bits_32, eq_bits_32, is_finite_32,
    is_infinite_32, is_nan_32, is_subnormal_32, is_zero_32, le_bits_32, lt_bits_32, max_bits_32,
    min_bits_32, neg_bits_32, order_key_32, sign_bit_32, ABS_MASK_32, EXP_MASK_32, FRAC_MASK_32,
    MAX_BITS_32, MIN_BITS_32, MIN_POSITIVE_BITS_32, ONE_BITS_32, SIGN_MASK_32, ZERO_BITS_32,
};
use crate::poison::MaybePoison;
use crate::FpCategory;
use crate::InvalidValueError;

verus! {

/// A wrapper over the bits of a 32-bit IEEE 754 value which tolerates the
/// poison values that aggressive numeric optimization may produce.
///
/// The wrapped bits may be any pattern, the invalid ones (NaN, the two
/// infinities) included; a value holding such bits yields unspecified — but
/// never undefined — results. Arithmetic and the bit-mask operations are
/// poison-safe and work on the unfrozen bits; every operation that produces
/// an observation (a comparison, a classification, a conversion) freezes its
/// operands first.
#[derive(Clone, Copy)]
pub struct FF32(MaybePoison<u32>);

impl View for FF32 {
    type V = u32;

    closed spec fn view(&self) -> u32 {
        self.0@
    }
}

/// What `classify` reports for frozen bits: the true category, except that
/// the invalid categories are never shown to the caller and are reported as
/// `Normal` instead.
pub open spec fn classify_visible_32(b: u32) -> FpCategory {
    if is_nan_32(b) || is_infinite_32(b) {
        FpCategory::Normal
    } else if is_zero_32(b) {
        FpCategory::Zero
    } else if is_subnormal_32(b) {
        FpCategory::Subnormal
    } else {
        FpCategory::Normal
    }
}

/// The left fold of the backend addition over a sequence of operand bits,
/// starting from positive zero: what summing a slice computes.
pub open spec fn sum_bits_32(s: Seq<u32>) -> u32
    decreases s.len(),
{
    if s.len() == 0 {
        ZERO_BITS_32
    } else {
        add_bits_32(sum_bits_32(s.drop_last()), s.last())
    }
}

/// The left fold of the backend multiplication over a sequence of operand
/// bits, starting from one: what multiplying a slice out computes.
pub open spec fn product_bits_32(s: Seq<u32>) -> u32
    decreases s.len(),
{
    if s.len() == 0 {
        ONE_BITS_32
    } else {
        mul_bits_32(product_bits_32(s.drop_last()), s.last())
    }
}

// The exec twins of the bit-level spec functions. They read unfrozen bits,
// so they may only be applied where poison is tolerated: they compute masks
// and integer comparisons and stand for the dedicated poison-safe primitives
// of the backend.

fn exec_is_nan_32(b: u32) -> (r: bool)
    ensures
        r == is_nan_32(b),
{
    (b & ABS_MASK_32) > EXP_MASK_32
}

fn exec_is_zero_32(b: u32) -> (r: bool)
    ensures
        r == is_zero_32(b),
{
    (b & ABS_MASK_32) == 0
}

fn exec_order_key_32(b: u32) -> (r: u32)
    ensures
        r == order_key_32(b),
{
    if b & SIGN_MASK_32 != 0 {
        !b
    } else {
        b | SIGN_MASK_32
    }
}

fn exec_lt_bits_32(a: u32, b: u32) -> (r: bool)
    ensures
        r == lt_bits_32(a, b),
{
    if exec_is_nan_32(a) || exec_is_nan_32(b) {
        false
    } else if exec_is_zero_32(a) && exec_is_zero_32(b) {
        false
    } else {
        exec_order_key_32(a) < exec_order_key_32(b)
    }
}

fn exec_eq_bits_32(a: u32, b: u32) -> (r: bool)
    ensures
        r == eq_bits_32(a, b),
{
    if exec_is_nan_32(a) || exec_is_nan_32(b) {
        false
    } else {
        a == b || (exec_is_zero_32(a) && exec_is_zero_32(b))
    }
}

impl FF32 {
    /// Wrap raw bits. Total: every pattern is a valid "maybe poison" value.
    /// The value **must not** be infinite or NaN if meaningful numeric
    /// results are wanted; a wrapped invalid value stays safe but every
    /// observation of it is unspecified.
    pub fn new(bits: u32) -> (r: Self)
        ensures
            r@ == bits,
    {
        FF32(MaybePoison::new(bits))
    }

    /// Wrap raw bits after validating them, rejecting the bits of an
    /// infinity or a NaN.
    ///
    /// The check is not sufficient to rule all unspecified results out — a
    /// later operation on valid operands can still produce an invalid value
    /// — but it is useful as best-effort validation of inputs.
    pub fn new_checked(bits: u32) -> (r: Result<Self, InvalidValueError>)
        ensures
            r is Ok <==> is_finite_32(bits),
            r matches Ok(v) ==> v@ == bits,
    {
        if (bits & ABS_MASK_32) < EXP_MASK_32 {
            Ok(FF32::new(bits))
        } else {
            Err(InvalidValueError {})
        }
    }

    /// Freeze a copy of the value and hand its concrete bits out. The result
    /// is stable: repeated freezes of the same value return the same bits.
    pub fn freeze_raw(self) -> (r: u32)
        ensures
            r == self@,
    {
        self.0.freeze()
    }

    /// Positive zero, the identity of addition.
    pub fn zero() -> (r: Self)
        ensures
            r@ == ZERO_BITS_32,
    {
        FF32::new(ZERO_BITS_32)
    }

    /// One, the identity of multiplication.
    pub fn one() -> (r: Self)
        ensures
            r@ == ONE_BITS_32,
    {
        FF32::new(ONE_BITS_32)
    }

    /// The smallest finite value.
    pub fn min_value() -> (r: Self)
        ensures
            r@ == MIN_BITS_32,
    {
        FF32::new(MIN_BITS_32)
    }

    /// The smallest positive normal value.
    pub fn min_positive() -> (r: Self)
        ensures
            r@ == MIN_POSITIVE_BITS_32,
    {
        FF32::new(MIN_POSITIVE_BITS_32)
    }

    /// The largest finite value.
    pub fn max_value() -> (r: Self)
        ensures
            r@ == MAX_BITS_32,
    {
        FF32::new(MAX_BITS_32)
    }

    // Arithmetic is poison-safe: it runs on the unfrozen bits and re-wraps
    // the result as possibly poison, keeping every check off the hot path.

    /// The sum. Poison-safe: no freeze.
    pub fn add(self, rhs: FF32) -> (r: FF32)
        ensures
            r@ == add_bits_32(self@, rhs@),
    {
        FF32::new(backend_add_32(self.0.maybe_poison(), rhs.0.maybe_poison()))
    }

    /// The difference. Poison-safe: no freeze.
    pub fn sub(self, rhs: FF32) -> (r: FF32)
        ensures
            r@ == sub_bits_32(self@, rhs@),
    {
        FF32::new(backend_sub_32(self.0.maybe_poison(), rhs.0.maybe_poison()))
    }

    /// The product. Poison-safe: no freeze.
    pub fn mul(self, rhs: FF32) -> (r: FF32)
        ensures
            r@ == mul_bits_32(self@, rhs@),
    {
        FF32::new(backend_mul_32(self.0.maybe_poison(), rhs.0.maybe_poison()))
    }

    /// The quotient. Poison-safe: no freeze.
    pub fn div(self, rhs: FF32) -> (r: FF32)
        ensures
            r@ == div_bits_32(self@, rhs@),
    {
        FF32::new(backend_div_32(self.0.maybe_poison(), rhs.0.maybe_poison()))
    }

    /// The remainder, as C `fmod` computes it. Poison-safe: no freeze.
    pub fn rem(self, rhs: FF32) -> (r: FF32)
        ensures
            r@ == rem_bits_32(self@, rhs@),
    {
        FF32::new(backend_rem_32(self.0.maybe_poison(), rhs.0.maybe_poison()))
    }

    /// The negation: the sign bit flipped, exact for every operand.
    /// Poison-safe: no freeze, no branch.
    pub fn neg(self) -> (r: FF32)
        ensures
            r@ == neg_bits_32(self@),
    {
        FF32::new(self.0.maybe_poison() ^ SIGN_MASK_32)
    }

    /// The fused multiply-add `self * a + b`, rounded once. The operands are
    /// frozen first and the conservative backend does the work.
    pub fn mul_add(self, a: FF32, b: FF32) -> (r: FF32)
        ensures
            r@ == mul_add_bits_32(self@, a@, b@),
    {
        FF32::new(backend_mul_add_32(self.freeze_raw(), a.freeze_raw(), b.freeze_raw()))
    }

    // The bit-mask operations are poison-safe as well: sign-bit manipulation
    // and sign-magnitude comparison, never a freeze.

    /// The absolute value: the sign bit cleared, exact for every operand.
    pub fn abs(self) -> (r: FF32)
        ensures
            r@ == abs_bits_32(self@),
    {
        FF32::new(self.0.maybe_poison() & ABS_MASK_32)
    }

    /// The magnitude of `self` with the sign of `sign`, exact for every
    /// operand.
    pub fn copysign(self, sign: FF32) -> (r: FF32)
        ensures
            r@ == copysign_bits_32(self@, sign@),
    {
        FF32::new(
            (self.0.maybe_poison() & ABS_MASK_32) | (sign.0.maybe_poison() & SIGN_MASK_32),
        )
    }

    /// The smaller operand, by sign-magnitude comparison; `self` if neither
    /// is strictly smaller.
    pub fn min(self, other: FF32) -> (r: FF32)
        ensures
            r@ == min_bits_32(self@, other@),
    {
        let a = self.0.maybe_poison();
        let b = other.0.maybe_poison();
        if exec_lt_bits_32(b, a) {
            FF32::new(b)
        } else {
            FF32::new(a)
        }
    }

    /// The larger operand, by sign-magnitude comparison; `self` if neither
    /// is strictly larger.
    pub fn max(self, other: FF32) -> (r: FF32)
        ensures
            r@ == max_bits_32(self@, other@),
    {
        let a = self.0.maybe_poison();
        let b = other.0.maybe_poison();
        if exec_lt_bits_32(a, b) {
            FF32::new(b)
        } else {
            FF32::new(a)
        }
    }

    /// The value clamped to `[lo, hi]`. The bounds must be ordered, which
    /// rules NaN bounds out.
    pub fn clamp(self, lo: FF32, hi: FF32) -> (r: FF32)
        requires
            le_bits_32(lo@, hi@),
        ensures
            r@ == clamp_bits_32(self@, lo@, hi@),
    {
        let x = self.0.maybe_poison();
        let l = lo.0.maybe_poison();
        let h = hi.0.maybe_poison();
        if exec_lt_bits_32(x, l) {
            FF32::new(l)
        } else if exec_lt_bits_32(h, x) {
            FF32::new(h)
        } else {
            FF32::new(x)
        }
    }

    // Everything that produces an observation — a boolean, an ordering, a
    // category — is poison-unsafe and freezes its operands first.

    /// The ordering of the two frozen values: a strict total order on
    /// everything the checked constructor accepts.
    pub fn cmp(self, other: FF32) -> (r: core::cmp::Ordering)
        ensures
            r == cmp_bits_32(self@, other@),
    {
        let a = self.freeze_raw();
        let b = other.freeze_raw();
        if exec_lt_bits_32(a, b) {
            core::cmp::Ordering::Less
        } else if exec_lt_bits_32(b, a) {
            core::cmp::Ordering::Greater
        } else {
            core::cmp::Ordering::Equal
        }
    }

    /// The category of the frozen value. Never reports `Nan` or `Infinite`:
    /// results are unspecified for invalid values, so `Normal` is as valid
    /// an answer as any other.
    pub fn classify(self) -> (r: FpCategory)
        ensures
            r == classify_visible_32(self@),
            r != FpCategory::Nan,
            r != FpCategory::Infinite,
    {
        let b = self.freeze_raw();
        proof {
            crate::bits32::lemma_category_partition_32(b);
        }
        if exec_is_zero_32(b) {
            FpCategory::Zero
        } else if (b & EXP_MASK_32) == 0 && (b & FRAC_MASK_32) != 0 {
            FpCategory::Subnormal
        } else {
            FpCategory::Normal
        }
    }

    /// Whether the frozen value has its sign bit set.
    pub fn is_sign_negative(self) -> (r: bool)
        ensures
            r == sign_bit_32(self@),
    {
        let b = self.freeze_raw();
        b & SIGN_MASK_32 != 0
    }

    /// Whether the frozen value has its sign bit clear.
    pub fn is_sign_positive(self) -> (r: bool)
        ensures
            r == !sign_bit_32(self@),
    {
        let b = self.freeze_raw();
        b & SIGN_MASK_32 == 0
    }

    /// Whether the frozen value is classified `Normal` (which an invalid
    /// value is reported as too).
    pub fn is_normal(self) -> (r: bool)
        ensures
            r == (classify_visible_32(self@) == FpCategory::Normal),
    {
        let c = self.classify();
        c == FpCategory::Normal
    }

    /// Whether the frozen value is subnormal.
    pub fn is_subnormal(self) -> (r: bool)
        ensures
            r == is_subnormal_32(self@),
    {
        proof {
            crate::bits32::lemma_category_partition_32(self@);
        }
        let c = self.classify();
        c == FpCategory::Subnormal
    }

    /// The sum of a slice: the poison-safe addition folded left over the
    /// elements, starting from zero.
    pub fn sum(values: &Vec<FF32>) -> (r: FF32)
        ensures
            r@ == sum_bits_32(values@.map_values(|v: FF32| v@)),
    {
        let ghost all = values@.map_values(|v: FF32| v@);
        let mut acc = FF32::zero();
        let mut i: usize = 0;
        while i < values.len()
            invariant
                i <= values@.len(),
                all == values@.map_values(|v: FF32| v@),
                acc@ == sum_bits_32(all.take(i as int)),
            decreases values@.len() - i,
        {
            acc = acc.add(values[i]);
            proof {
                assert(all.take(i + 1).drop_last() =~= all.take(i as int));
                assert(all.take(i + 1).last() == all[i as int]);
            }
            i = i + 1;
        }
        proof {
            assert(all.take(values@.len() as int) =~= all);
        }
        acc
    }

    /// The product of a slice: the poison-safe multiplication folded left
    /// over the elements, starting from one.
    pub fn product(values: &Vec<FF32>) -> (r: FF32)
        ensures
            r@ == product_bits_32(values@.map_values(|v: FF32| v@)),
    {
        let ghost all = values@.map_values(|v: FF32| v@);
        let mut acc = FF32::one();
        let mut i: usize = 0;
        while i < values.len()
            invariant
                i <= values@.len(),
                all == values@.map_values(|v: FF32| v@),
                acc@ == product_bits_32(all.take(i as int)),
            decreases values@.len() - i,
        {
            acc = acc.mul(values[i]);
            proof {
                assert(all.take(i + 1).drop_last() =~= all.take(i as int));
                assert(all.take(i + 1).last() == all[i as int]);
            }
            i = i + 1;
        }
        proof {
            assert(all.take(values@.len() as int) =~= all);
        }
        acc
    }
}

// Equality and ordering are defined on frozen copies of the operands; only
// the copies are pinned, so two observations of one logically-poison value
// may disagree. That is documented behavior, kept out of the way by keeping
// values finite.

impl PartialEq for FF32 {
    fn eq(&self, other: &FF32) -> (r: bool) {
        let a = (*self).freeze_raw();
        let b = (*other).freeze_raw();
        exec_eq_bits_32(a, b)
    }
}

impl vstd::std_specs::cmp::PartialEqSpecImpl for FF32 {
    open spec fn obeys_eq_spec() -> bool {
        true
    }

    open spec fn eq_spec(&self, other: &FF32) -> bool {
        eq_bits_32(self@, other@)
    }
}

impl Eq for FF32 {
}

impl PartialOrd for FF32 {
    fn partial_cmp(&self, other: &FF32) -> (r: Option<core::cmp::Ordering>) {
        Some((*self).cmp(*other))
    }

    fn lt(&self, other: &FF32) -> (r: bool) {
        let a = (*self).freeze_raw();
        let b = (*other).freeze_raw();
        exec_lt_bits_32(a, b)
    }

    fn le(&self, other: &FF32) -> (r: bool) {
        let a = (*self).freeze_raw();
        let b = (*other).freeze_raw();
        !exec_lt_bits_32(b, a)
    }

    fn gt(&self, other: &FF32) -> (r: bool) {
        let a = (*self).freeze_raw();
        let b = (*other).freeze_raw();
        exec_lt_bits_32(b, a)
    }

    fn ge(&self, other: &FF32) -> (r: bool) {
        let a = (*self).freeze_raw();
        let b = (*other).freeze_raw();
        !exec_lt_bits_32(a, b)
    }
}

impl vstd::std_specs::cmp::PartialOrdSpecImpl for FF32 {
    open spec fn obeys_partial_cmp_spec() -> bool {
        true
    }

    open spec fn partial_cmp_spec(&self, other: &FF32) -> Option<core::cmp::Ordering> {
        Some(cmp_bits_32(self@, other@))
    }
}

} // verus!
