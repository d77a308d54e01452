//! Fast floating-point value types with a verified poison-safety discipline.
//!
//! Aggressive numeric optimization (reassociation, reciprocal approximation,
//! fused multiply-add, relaxed handling of NaN and infinity) may legally turn
//! an invalid intermediate value into "poison": an unspecified placeholder
//! that is harmless until something branches on it. This crate keeps such a
//! program safe by construction. A [`MaybePoison`] container holds raw bits
//! that may or may not be meaningful; the fast value types [`FF32`] and
//! [`FF64`] wrap one container each and classify every operation:
//!
//! - arithmetic and the bit-mask operations (negation, absolute value,
//!   copying a sign, minimum, maximum, clamping) are poison-safe and run on
//!   the unfrozen bits, keeping the hot path free of checks;
//! - everything that produces an observation — a comparison, an ordering, a
//!   category, a sign test, a conversion — is poison-unsafe and freezes its
//!   operands first, pinning concrete bits before any branch is taken.
//!
//! The types work on raw IEEE 754 bit patterns, so every contract is exact
//! down to the bit. Converting between native floats and bits, formatting,
//! and the transcendental functions live in the unverified layer around this
//! crate.

use vstd::prelude::*;

pub mod backend;
pub mod bits32;
pub mod bits64;
pub mod fast32;
pub mod fast64;
pub mod poison;

pub use fast32::FF32;
pub use fast64::FF64;
pub use poison::MaybePoison;

verus! {

/// The error returned by the checked constructors of the fast float types.
#[derive(Clone, Debug, PartialEq, Eq, Structural)]
pub struct InvalidValueError {}

impl InvalidValueError {
    /// A human-readable description of the error.
    pub fn message(&self) -> (r: &'static str)
        ensures
            r@ == "value may not be infinite or NaN"@,
    {
        "value may not be infinite or NaN"
    }
}

/// The category of a value, as `classify` reports it. The two invalid
/// categories are listed for completeness but never reported: an invalid
/// value is unspecified, and is classified as some valid category instead.
#[derive(Clone, Copy, Debug, PartialEq, Eq, Structural)]
pub enum FpCategory {
    Nan,
    Infinite,
    Zero,
    Subnormal,
    Normal,
}

/// Create a new `FF32` from the given raw bits.
///
/// This is syntax sugar for `FF32::new(bits)`. The value **must not** be
/// infinite or NaN, and no operation involving it may produce an infinite or
/// NaN result; any observation of such a value is unspecified.
pub fn ff32(bits: u32) -> (r: FF32)
    ensures
        r@ == bits,
{
    FF32::new(bits)
}

/// Create a new `FF64` from the given raw bits.
///
/// This is syntax sugar for `FF64::new(bits)`. The value **must not** be
/// infinite or NaN, and no operation involving it may produce an infinite or
/// NaN result; any observation of such a value is unspecified.
pub fn ff64(bits: u64) -> (r: FF64)
    ensures
        r@ == bits,
{
    FF64::new(bits)
}

} // verus!
