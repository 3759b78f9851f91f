//! Bit-level interface to IEEE single-precision arithmetic.
//!
//! Verified code in this crate never holds a machine real number directly:
//! every sample, coefficient and derived value travels as the `u32` bit
//! pattern of an IEEE single-precision number.  The few arithmetic
//! operations the crate needs are carried out by `rustc_apfloat`, a software
//! implementation of IEEE arithmetic that works on bit patterns.  Each
//! operation's result is named by an uninterpreted spec function: a contract
//! can then say exactly which operation produced a value without restating
//! IEEE arithmetic.

use rustc_apfloat::ieee::Single;
use rustc_apfloat::Float;
use rustc_apfloat::Round;
use vstd::prelude::*;

verus! {

/// Bit pattern of the IEEE single-precision value one.
pub const ONE_BITS: u32 = 0x3F80_0000;

/// Bit pattern of the IEEE single-precision value two.
pub const TWO_BITS: u32 = 0x4000_0000;

// The IEEE single-precision sum of two bit patterns (round to nearest,
// ties to even).
pub uninterp spec fn ieee_add(a: u32, b: u32) -> u32;

// The IEEE single-precision difference of two bit patterns (round to
// nearest, ties to even).
pub uninterp spec fn ieee_sub(a: u32, b: u32) -> u32;

// The IEEE single-precision product of two bit patterns (round to nearest,
// ties to even).
pub uninterp spec fn ieee_mul(a: u32, b: u32) -> u32;

// The bit pattern rounded to an integral value toward positive infinity.
pub uninterp spec fn ieee_ceil(a: u32) -> u32;

// The bit pattern truncated toward zero and clamped into the `usize`
// range, with zero for a value that is not a number.
pub uninterp spec fn ieee_to_usize(a: u32) -> usize;

/// Relies on `rustc_apfloat::ieee::Single`'s addition: the IEEE
/// single-precision sum (round to nearest, ties to even), a function of the
/// two bit patterns alone.
#[verifier::external_body]
pub(crate) fn add_single(a: u32, b: u32) -> (r: u32)
    ensures
        r == ieee_add(a, b),
{
    (Single::from_bits(a as u128) + Single::from_bits(b as u128)).value.to_bits() as u32
}

/// Relies on `rustc_apfloat::ieee::Single`'s subtraction: the IEEE
/// single-precision difference (round to nearest, ties to even), a function
/// of the two bit patterns alone.
#[verifier::external_body]
pub(crate) fn sub_single(a: u32, b: u32) -> (r: u32)
    ensures
        r == ieee_sub(a, b),
{
    (Single::from_bits(a as u128) - Single::from_bits(b as u128)).value.to_bits() as u32
}

/// Relies on `rustc_apfloat::ieee::Single`'s multiplication: the IEEE
/// single-precision product (round to nearest, ties to even), a function of
/// the two bit patterns alone.
#[verifier::external_body]
pub(crate) fn mul_single(a: u32, b: u32) -> (r: u32)
    ensures
        r == ieee_mul(a, b),
{
    (Single::from_bits(a as u128) * Single::from_bits(b as u128)).value.to_bits() as u32
}

/// Relies on `rustc_apfloat::ieee::Single::round_to_integral` with rounding
/// toward positive infinity: the ceiling of the value, a function of the bit
/// pattern alone.
#[verifier::external_body]
pub(crate) fn ceil_single(a: u32) -> (r: u32)
    ensures
        r == ieee_ceil(a),
{
    Single::from_bits(a as u128).round_to_integral(Round::TowardPositive).value.to_bits() as u32
}

/// Relies on `rustc_apfloat::ieee::Single::to_u128`, which truncates toward
/// zero and returns deterministic values out of range: zero below the range
/// or for a value that is not a number, the largest value above it.  The
/// width of 64 bits matches `usize` here.
#[verifier::external_body]
pub(crate) fn single_to_usize(a: u32) -> (r: usize)
    ensures
        r == ieee_to_usize(a),
{
    Single::from_bits(a as u128).to_u128(64).value as usize
}

} // verus!
