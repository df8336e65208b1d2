//! Contracts for the arbitrary-precision unsigned integers of `num_bigint`.
//!
//! Nothing in this file is proved: each function states, over the number a
//! `BigUint` stands for, what the operation of `num_bigint` it calls returns.

use num_bigint::BigUint;
use num_traits::ToPrimitive;
use num_traits::Zero;
use vstd::arithmetic::power2::pow2;
use vstd::prelude::*;

verus! {

#[verifier::external_type_specification]
#[verifier::external_body]
pub struct ExBigUint(num_bigint::BigUint);

/// The natural number that a `BigUint` stands for.
pub uninterp spec fn biguint_value(number: BigUint) -> nat;

/// Bitwise conjunction of two natural numbers, bit by bit from the lowest.
pub open spec fn bit_and(a: nat, b: nat) -> nat
    decreases b,
{
    if b == 0 {
        0
    } else {
        2 * bit_and(a / 2, b / 2) + (if a % 2 == 1 && b % 2 == 1 { 1nat } else { 0nat })
    }
}

/// Bitwise disjunction of two natural numbers, bit by bit from the lowest.
pub open spec fn bit_or(a: nat, b: nat) -> nat
    decreases a + b,
{
    if a == 0 {
        b
    } else if b == 0 {
        a
    } else {
        2 * bit_or(a / 2, b / 2) + (if a % 2 == 1 || b % 2 == 1 { 1nat } else { 0nat })
    }
}

/// `<BigUint as Zero>::zero`: the number zero.
#[verifier::external_body]
pub(crate) fn zero() -> (number: BigUint)
    ensures
        biguint_value(number) == 0,
{
    BigUint::zero()
}

/// `<BigUint as From<u8>>::from`: the number with the value of `small`.
#[verifier::external_body]
pub(crate) fn from_u8(small: u8) -> (number: BigUint)
    ensures
        biguint_value(number) == small,
{
    BigUint::from(small)
}

/// `<BigUint as PartialEq>::eq`: two numbers are equal exactly when they
/// stand for the same value.
#[verifier::external_body]
pub(crate) fn equal(a: &BigUint, b: &BigUint) -> (same: bool)
    ensures
        same == (biguint_value(*a) == biguint_value(*b)),
{
    a == b
}

/// `<BigUint as Clone>::clone`: a second number of the same value.
pub assume_specification[ <BigUint as Clone>::clone ](number: &BigUint) -> (copy: BigUint)
    ensures
        biguint_value(copy) == biguint_value(*number),
;

/// `<&BigUint as BitAnd<BigUint>>::bitand`: the bitwise conjunction.
#[verifier::external_body]
pub(crate) fn and_with(a: &BigUint, mask: BigUint) -> (masked: BigUint)
    ensures
        biguint_value(masked) == bit_and(biguint_value(*a), biguint_value(mask)),
{
    a & mask
}

/// `<BigUint as BitOr<BigUint>>::bitor`: the bitwise disjunction.
#[verifier::external_body]
pub(crate) fn or_with(a: BigUint, b: BigUint) -> (joined: BigUint)
    ensures
        biguint_value(joined) == bit_or(biguint_value(a), biguint_value(b)),
{
    a | b
}

/// `<&BigUint as Shr<u8>>::shr`: the number divided by two to the power of
/// `bits`, rounded down.
#[verifier::external_body]
pub(crate) fn shift_right(a: &BigUint, bits: u8) -> (shifted: BigUint)
    ensures
        biguint_value(shifted) == biguint_value(*a) / pow2(bits as nat),
{
    a >> bits
}

/// `<BigUint as Shl<u8>>::shl`: the number times two to the power of
/// `bits`.
#[verifier::external_body]
pub(crate) fn shift_left(a: BigUint, bits: u8) -> (shifted: BigUint)
    ensures
        biguint_value(shifted) == biguint_value(a) * pow2(bits as nat),
{
    a << bits
}

/// `<BigUint as Add<BigUint>>::add`: the sum.
#[verifier::external_body]
pub(crate) fn sum(a: BigUint, b: BigUint) -> (total: BigUint)
    ensures
        biguint_value(total) == biguint_value(a) + biguint_value(b),
{
    a + b
}

/// `<BigUint as ToPrimitive>::to_u8`: the value as a byte where it fits one,
/// `None` where it does not.
#[verifier::external_body]
pub(crate) fn to_u8(a: &BigUint) -> (small: Option<u8>)
    ensures
        biguint_value(*a) <= 255 ==> small == Some(biguint_value(*a) as u8),
        biguint_value(*a) > 255 ==> small.is_none(),
{
    a.to_u8()
}

} // verus!
