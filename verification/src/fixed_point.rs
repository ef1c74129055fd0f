//! Unsigned fixed-point numbers with 64 integer and 64 fractional bits.
//!
//! The arithmetic is that of the `fixed` crate. A number travels through the
//! library as its bit pattern: the `u128` that is the number times 2^64.

use az::CheckedAs;
use fixed::types::U64F64;
use vstd::prelude::*;

verus! {

/// The bit pattern of the number one: 2^64.
pub open spec fn one() -> int {
    0x1_0000_0000_0000_0000
}

/// The bit pattern of a quotient: the quotient of the two numbers, times 2^64,
/// rounded down. `None` for a divisor of zero and for a quotient of 2^64 or
/// more.
pub open spec fn quotient(lhs: u128, rhs: u128) -> Option<u128> {
    if rhs == 0 || (lhs * one()) / (rhs as int) > u128::MAX {
        None
    } else {
        Some(((lhs * one()) / (rhs as int)) as u128)
    }
}

/// The bit pattern of a product: the product of the two numbers, times 2^64,
/// rounded down. `None` for a product of 2^64 or more.
pub open spec fn product(lhs: u128, rhs: u128) -> Option<u128> {
    if (lhs * rhs) / one() > u128::MAX {
        None
    } else {
        Some(((lhs * rhs) / one()) as u128)
    }
}

/// The bit pattern of a sum. `None` for a sum of 2^64 or more.
pub open spec fn sum(lhs: u128, rhs: u128) -> Option<u128> {
    if lhs + rhs > u128::MAX {
        None
    } else {
        Some((lhs + rhs) as u128)
    }
}

/// The integer that a number rounds down to. `None` where it exceeds a `u64`.
pub open spec fn integer_part(bits: u128) -> Option<u64> {
    if bits / (one() as u128) > u64::MAX {
        None
    } else {
        Some((bits / (one() as u128)) as u64)
    }
}

/// `U64F64::from_num` on a `u64`: the integer as a fixed-point number. Every
/// `u64` fits the 64 integer bits, and the bit pattern is the integer times
/// 2^64.
#[verifier::external_body]
pub(crate) fn from_num(n: u64) -> (bits: u128)
    ensures
        bits == n * one(),
{
    U64F64::from_num(n).to_bits()
}

/// `U64F64::checked_div`: the quotient rounded down to a multiple of 2^-64, or
/// `None` where the divisor is zero or the quotient does not fit.
#[verifier::external_body]
pub(crate) fn checked_div(lhs: u128, rhs: u128) -> (bits: Option<u128>)
    ensures
        bits == quotient(lhs, rhs),
{
    match U64F64::from_bits(lhs).checked_div(U64F64::from_bits(rhs)) {
        Some(q) => Some(q.to_bits()),
        None => None,
    }
}

/// `U64F64::checked_mul`: the product rounded down to a multiple of 2^-64, or
/// `None` where it does not fit.
#[verifier::external_body]
pub(crate) fn checked_mul(lhs: u128, rhs: u128) -> (bits: Option<u128>)
    ensures
        bits == product(lhs, rhs),
{
    match U64F64::from_bits(lhs).checked_mul(U64F64::from_bits(rhs)) {
        Some(p) => Some(p.to_bits()),
        None => None,
    }
}

/// `U64F64::checked_add`: the sum, or `None` where it does not fit.
#[verifier::external_body]
pub(crate) fn checked_add(lhs: u128, rhs: u128) -> (bits: Option<u128>)
    ensures
        bits == sum(lhs, rhs),
{
    match U64F64::from_bits(lhs).checked_add(U64F64::from_bits(rhs)) {
        Some(s) => Some(s.to_bits()),
        None => None,
    }
}

/// `az::CheckedAs::checked_as::<u64>` on a `U64F64`: the number rounded down to
/// an integer, or `None` where that integer does not fit a `u64`.
#[verifier::external_body]
pub(crate) fn checked_as_u64(bits: u128) -> (n: Option<u64>)
    ensures
        n == integer_part(bits),
{
    U64F64::from_bits(bits).checked_as::<u64>()
}

} // verus!
