use vstd::prelude::*;

verus! {

/// A wrapper used to model the "poison" discipline of aggressively optimized
/// numeric code: a value of this type is either a genuine value of `T` or an
/// unspecified-but-not-undefined placeholder left behind by an optimization.
///
/// Construction is total: every value of `T` is a valid "maybe poison" value.
/// The raw value read back by [`MaybePoison::maybe_poison`] may be used only
/// as an operand of operations that tolerate poison (arithmetic primitives and
/// bit-mask operations); anything that branches on the value, or otherwise
/// turns it into an observation, must go through [`MaybePoison::freeze`]
/// first.
pub struct MaybePoison<T>(T);

impl<T: Copy> Clone for MaybePoison<T> {
    fn clone(&self) -> (r: Self)
        ensures
            r@ == self@,
    {
        MaybePoison(self.0)
    }
}

impl<T: Copy> Copy for MaybePoison<T> {}

impl<T> View for MaybePoison<T> {
    type V = T;

    closed spec fn view(&self) -> T {
        self.0
    }
}

impl<T> MaybePoison<T> {
    /// Wrap a raw value. Total: never fails, stores the value without
    /// interpreting it.
    pub fn new(t: T) -> (r: Self)
        ensures
            r@ == t,
    {
        MaybePoison(t)
    }

    /// Read the (possibly poison) value without freezing it.
    ///
    /// The caller must use the result only as an operand of an operation that
    /// is documented to accept poison: the arithmetic primitives of the
    /// backend, or pure bit-mask manipulation. Using it where any operand
    /// value could cause undefined behavior (a branch condition, an index, a
    /// divisor of an integer division) is forbidden by this contract.
    pub fn maybe_poison(self) -> (r: T)
        ensures
            r == self@,
    {
        self.0
    }

    /// Freeze the possibly-poison value into a concrete, stable value.
    ///
    /// Relies on `std::hint::black_box`: it returns its argument unchanged,
    /// and it is an optimizer barrier, forcing the compiler to materialize a
    /// concrete value instead of reasoning about where the value came
    /// from. A frozen value stays fixed: freezing it again returns the same
    /// value, bit for bit.
    #[verifier::external_body]
    pub(crate) fn freeze(self) -> (r: T)
        ensures
            r == self@,
    {
        std::hint::black_box(self.0)
    }
}

} // verus!
