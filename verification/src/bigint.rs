//! Trusted interface to the unbounded unsigned integers of `num_bigint`.
//!
//! Every contract in this crate speaks of a `BigUint` through
//! [`biguint_nat`], the natural number it stands for; the wrappers below
//! state how each arithmetic call moves that number.

use vstd::prelude::*;
use vstd::arithmetic::power2::pow2;
use num_bigint::BigUint;
use num_traits::Zero;

verus! {

#[verifier::external_type_specification]
#[verifier::external_body]
pub struct ExBigUint(BigUint);

/// The natural number that a `BigUint` holds.
pub uninterp spec fn biguint_nat(b: BigUint) -> nat;

/// Relies on `num_traits::Zero::zero` for `BigUint`: the number zero.
#[verifier::external_body]
pub(crate) fn biguint_zero() -> (r: BigUint)
    ensures
        biguint_nat(r) == 0,
{
    BigUint::zero()
}

/// Relies on `<BigUint as From<u64>>::from`: the same number, widened.
#[verifier::external_body]
pub(crate) fn biguint_from_u64(x: u64) -> (r: BigUint)
    ensures
        biguint_nat(r) == x as nat,
{
    BigUint::from(x)
}

/// Relies on `<BigUint as Shl<u32>>::shl`: a left shift by `k` bits
/// multiplies the number by `2^k`.
#[verifier::external_body]
pub(crate) fn biguint_shl(b: BigUint, k: u32) -> (r: BigUint)
    ensures
        biguint_nat(r) == biguint_nat(b) * pow2(k as nat),
{
    b << k
}

/// Relies on `<BigUint as Add<u64>>::add`: unbounded addition.
#[verifier::external_body]
pub(crate) fn biguint_add_u64(b: BigUint, x: u64) -> (r: BigUint)
    ensures
        biguint_nat(r) == biguint_nat(b) + x as nat,
{
    b + x
}

/// Relies on `<BigUint as Add>::add`: unbounded addition.
#[verifier::external_body]
pub(crate) fn biguint_add(a: BigUint, b: BigUint) -> (r: BigUint)
    ensures
        biguint_nat(r) == biguint_nat(a) + biguint_nat(b),
{
    a + b
}

/// Relies on `<BigUint as Mul>::mul`: unbounded multiplication.
#[verifier::external_body]
pub(crate) fn biguint_mul(a: BigUint, b: BigUint) -> (r: BigUint)
    ensures
        biguint_nat(r) == biguint_nat(a) * biguint_nat(b),
{
    a * b
}

/// Relies on `<BigUint as PartialEq>::eq`, which compares the normalized
/// digit vectors: two `BigUint`s are `==` exactly when they hold the same
/// number.
#[verifier::external_body]
pub(crate) fn biguint_eq(a: &BigUint, b: &BigUint) -> (r: bool)
    ensures
        r == (biguint_nat(*a) == biguint_nat(*b)),
{
    a == b
}

} // verus!
