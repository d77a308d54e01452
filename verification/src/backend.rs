//! The native operation backend: the arithmetic primitives behind the fast
//! float types, one function per (operation, precision) pair, each taking and
//! returning raw bits.
//!
//! The backend is a software implementation of IEEE 754 arithmetic
//! (`rustc_apfloat`), so every primitive here is a pure function of its
//! operand bits: the same bits give the same result in every process and on
//! every machine. Each primitive's result is therefore given a name below,
//! and the contracts of the fast types speak of those names. The primitives
//! tolerate every operand bit pattern — NaN and infinity included — and
//! never fail: an invalid operand yields some well-formed result bits, never
//! a crash.
//!
//! One set of primitives serves both the poison-safe and the poison-unsafe
//! call sites. A bit-exact implementation is a legal realization of the
//! aggressively optimized group (every relaxation is a permission, not an
//! obligation) as well as of the conservative group, since it cannot
//! manufacture poison from a frozen operand.

use rustc_apfloat::Float;
use vstd::prelude::*;

verus! {

/// The bits of the IEEE 754 sum of the two 64-bit values.
pub uninterp spec fn add_bits_64(a: u64, b: u64) -> u64;

/// The bits of the IEEE 754 difference of the two 64-bit values.
pub uninterp spec fn sub_bits_64(a: u64, b: u64) -> u64;

/// The bits of the IEEE 754 product of the two 64-bit values.
pub uninterp spec fn mul_bits_64(a: u64, b: u64) -> u64;

/// The bits of the IEEE 754 quotient of the two 64-bit values.
pub uninterp spec fn div_bits_64(a: u64, b: u64) -> u64;

/// The bits of the remainder (as C `fmod` computes it) of the two 64-bit
/// values.
pub uninterp spec fn rem_bits_64(a: u64, b: u64) -> u64;

/// The bits of the fused multiply-add `a * b + c` of the 64-bit values,
/// rounded once.
pub uninterp spec fn mul_add_bits_64(a: u64, b: u64, c: u64) -> u64;

/// The bits of the IEEE 754 sum of the two 32-bit values.
pub uninterp spec fn add_bits_32(a: u32, b: u32) -> u32;

/// The bits of the IEEE 754 difference of the two 32-bit values.
pub uninterp spec fn sub_bits_32(a: u32, b: u32) -> u32;

/// The bits of the IEEE 754 product of the two 32-bit values.
pub uninterp spec fn mul_bits_32(a: u32, b: u32) -> u32;

/// The bits of the IEEE 754 quotient of the two 32-bit values.
pub uninterp spec fn div_bits_32(a: u32, b: u32) -> u32;

/// The bits of the remainder (as C `fmod` computes it) of the two 32-bit
/// values.
pub uninterp spec fn rem_bits_32(a: u32, b: u32) -> u32;

/// The bits of the fused multiply-add `a * b + c` of the 32-bit values,
/// rounded once.
pub uninterp spec fn mul_add_bits_32(a: u32, b: u32, c: u32) -> u32;

/// Relies on `rustc_apfloat::ieee::Double`'s `Add` impl: addition rounded to
/// nearest-even, a pure function of the operand bits, total on all bit
/// patterns.
#[verifier::external_body]
pub(crate) fn backend_add_64(a: u64, b: u64) -> (r: u64)
    ensures
        r == add_bits_64(a, b),
{
    let x = rustc_apfloat::ieee::Double::from_bits(a as u128);
    let y = rustc_apfloat::ieee::Double::from_bits(b as u128);
    (x + y).value.to_bits() as u64
}

/// Relies on `rustc_apfloat::ieee::Double`'s `Sub` impl: subtraction rounded
/// to nearest-even, a pure function of the operand bits, total on all bit
/// patterns.
#[verifier::external_body]
pub(crate) fn backend_sub_64(a: u64, b: u64) -> (r: u64)
    ensures
        r == sub_bits_64(a, b),
{
    let x = rustc_apfloat::ieee::Double::from_bits(a as u128);
    let y = rustc_apfloat::ieee::Double::from_bits(b as u128);
    (x - y).value.to_bits() as u64
}

/// Relies on `rustc_apfloat::ieee::Double`'s `Mul` impl: multiplication
/// rounded to nearest-even, a pure function of the operand bits, total on
/// all bit patterns.
#[verifier::external_body]
pub(crate) fn backend_mul_64(a: u64, b: u64) -> (r: u64)
    ensures
        r == mul_bits_64(a, b),
{
    let x = rustc_apfloat::ieee::Double::from_bits(a as u128);
    let y = rustc_apfloat::ieee::Double::from_bits(b as u128);
    (x * y).value.to_bits() as u64
}

/// Relies on `rustc_apfloat::ieee::Double`'s `Div` impl: division rounded to
/// nearest-even, a pure function of the operand bits, total on all bit
/// patterns.
#[verifier::external_body]
pub(crate) fn backend_div_64(a: u64, b: u64) -> (r: u64)
    ensures
        r == div_bits_64(a, b),
{
    let x = rustc_apfloat::ieee::Double::from_bits(a as u128);
    let y = rustc_apfloat::ieee::Double::from_bits(b as u128);
    (x / y).value.to_bits() as u64
}

/// Relies on `rustc_apfloat::ieee::Double`'s `Rem` impl (`c_fmod`): the
/// remainder as C `fmod` computes it, a pure function of the operand bits,
/// total on all bit patterns.
#[verifier::external_body]
pub(crate) fn backend_rem_64(a: u64, b: u64) -> (r: u64)
    ensures
        r == rem_bits_64(a, b),
{
    let x = rustc_apfloat::ieee::Double::from_bits(a as u128);
    let y = rustc_apfloat::ieee::Double::from_bits(b as u128);
    (x % y).value.to_bits() as u64
}

/// Relies on `rustc_apfloat::Float::mul_add`: fused multiply-add rounded
/// once to nearest-even, a pure function of the operand bits, total on all
/// bit patterns.
#[verifier::external_body]
pub(crate) fn backend_mul_add_64(a: u64, b: u64, c: u64) -> (r: u64)
    ensures
        r == mul_add_bits_64(a, b, c),
{
    let x = rustc_apfloat::ieee::Double::from_bits(a as u128);
    let y = rustc_apfloat::ieee::Double::from_bits(b as u128);
    let z = rustc_apfloat::ieee::Double::from_bits(c as u128);
    x.mul_add(y, z).value.to_bits() as u64
}

/// Relies on `rustc_apfloat::ieee::Single`'s `Add` impl: addition rounded to
/// nearest-even, a pure function of the operand bits, total on all bit
/// patterns.
#[verifier::external_body]
pub(crate) fn backend_add_32(a: u32, b: u32) -> (r: u32)
    ensures
        r == add_bits_32(a, b),
{
    let x = rustc_apfloat::ieee::Single::from_bits(a as u128);
    let y = rustc_apfloat::ieee::Single::from_bits(b as u128);
    (x + y).value.to_bits() as u32
}

/// Relies on `rustc_apfloat::ieee::Single`'s `Sub` impl: subtraction rounded
/// to nearest-even, a pure function of the operand bits, total on all bit
/// patterns.
#[verifier::external_body]
pub(crate) fn backend_sub_32(a: u32, b: u32) -> (r: u32)
    ensures
        r == sub_bits_32(a, b),
{
    let x = rustc_apfloat::ieee::Single::from_bits(a as u128);
    let y = rustc_apfloat::ieee::Single::from_bits(b as u128);
    (x - y).value.to_bits() as u32
}

/// Relies on `rustc_apfloat::ieee::Single`'s `Mul` impl: multiplication
/// rounded to nearest-even, a pure function of the operand bits, total on
/// all bit patterns.
#[verifier::external_body]
pub(crate) fn backend_mul_32(a: u32, b: u32) -> (r: u32)
    ensures
        r == mul_bits_32(a, b),
{
    let x = rustc_apfloat::ieee::Single::from_bits(a as u128);
    let y = rustc_apfloat::ieee::Single::from_bits(b as u128);
    (x * y).value.to_bits() as u32
}

/// Relies on `rustc_apfloat::ieee::Single`'s `Div` impl: division rounded to
/// nearest-even, a pure function of the operand bits, total on all bit
/// patterns.
#[verifier::external_body]
pub(crate) fn backend_div_32(a: u32, b: u32) -> (r: u32)
    ensures
        r == div_bits_32(a, b),
{
    let x = rustc_apfloat::ieee::Single::from_bits(a as u128);
    let y = rustc_apfloat::ieee::Single::from_bits(b as u128);
    (x / y).value.to_bits() as u32
}

/// Relies on `rustc_apfloat::ieee::Single`'s `Rem` impl (`c_fmod`): the
/// remainder as C `fmod` computes it, a pure function of the operand bits,
/// total on all bit patterns.
#[verifier::external_body]
pub(crate) fn backend_rem_32(a: u32, b: u32) -> (r: u32)
    ensures
        r == rem_bits_32(a, b),
{
    let x = rustc_apfloat::ieee::Single::from_bits(a as u128);
    let y = rustc_apfloat::ieee::Single::from_bits(b as u128);
    (x % y).value.to_bits() as u32
}

/// Relies on `rustc_apfloat::Float::mul_add`: fused multiply-add rounded
/// once to nearest-even, a pure function of the operand bits, total on all
/// bit patterns.
#[verifier::external_body]
pub(crate) fn backend_mul_add_32(a: u32, b: u32, c: u32) -> (r: u32)
    ensures
        r == mul_add_bits_32(a, b, c),
{
    let x = rustc_apfloat::ieee::Single::from_bits(a as u128);
    let y = rustc_apfloat::ieee::Single::from_bits(b as u128);
    let z = rustc_apfloat::ieee::Single::from_bits(c as u128);
    x.mul_add(y, z).value.to_bits() as u32
}

} // verus!
