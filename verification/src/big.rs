//! Whole numbers without bound: what this library assumes of `num-bigint`.
//!
//! Prices are counted exactly, whatever their size, so the counting is done
//! on integers that grow as they must.

use vstd::prelude::*;

verus! {

#[verifier::external_type_specification]
#[verifier::external_body]
pub struct ExBigInt(num_bigint::BigInt);

/// The integer that a `BigInt` holds.
pub uninterp spec fn big_value(b: num_bigint::BigInt) -> int;

/// The integers that a sequence of `BigInt` holds, in its order.
pub open spec fn big_values(s: Seq<num_bigint::BigInt>) -> Seq<int> {
    Seq::new(s.len(), |i: int| big_value(s[i]))
}

/// No element is smaller than one before it.
pub open spec fn ascending(s: Seq<int>) -> bool {
    forall|i: int, j: int| 0 <= i <= j < s.len() ==> s[i] <= s[j]
}

/// `BigInt::from` at `u64`: the same number.
#[verifier::external_body]
pub(crate) fn big_from(n: u64) -> (r: num_bigint::BigInt)
    ensures
        big_value(r) == n,
{
    num_bigint::BigInt::from(n)
}

/// `Clone` of `BigInt`: the same number.
pub assume_specification[ <num_bigint::BigInt as Clone>::clone ](b: &num_bigint::BigInt) -> (r:
    num_bigint::BigInt)
    ensures
        big_value(r) == big_value(*b),
;

/// A copy of `a`.
pub fn big_copy(a: &num_bigint::BigInt) -> (r: num_bigint::BigInt)
    ensures
        big_value(r) == big_value(*a),
{
    a.clone()
}

/// `+` of `BigInt`: the sum.
#[verifier::external_body]
pub(crate) fn big_add(a: &num_bigint::BigInt, b: &num_bigint::BigInt) -> (r: num_bigint::BigInt)
    ensures
        big_value(r) == big_value(*a) + big_value(*b),
{
    a + b
}

/// `-` of `BigInt`: the difference.
#[verifier::external_body]
pub(crate) fn big_sub(a: &num_bigint::BigInt, b: &num_bigint::BigInt) -> (r: num_bigint::BigInt)
    ensures
        big_value(r) == big_value(*a) - big_value(*b),
{
    a - b
}

/// `*` of `BigInt`: the product.
#[verifier::external_body]
pub(crate) fn big_mul(a: &num_bigint::BigInt, b: &num_bigint::BigInt) -> (r: num_bigint::BigInt)
    ensures
        big_value(r) == big_value(*a) * big_value(*b),
{
    a * b
}

/// `Integer::div_floor` of `BigInt`, for a divisor above zero: the quotient
/// rounded down.
#[verifier::external_body]
pub(crate) fn big_div(a: &num_bigint::BigInt, b: &num_bigint::BigInt) -> (r: num_bigint::BigInt)
    requires
        big_value(*b) > 0,
    ensures
        big_value(r) == big_value(*a) / big_value(*b),
{
    num_integer::Integer::div_floor(a, b)
}

/// `Integer::mod_floor` of `BigInt`, for a divisor above zero: what the
/// quotient rounded down leaves.
#[verifier::external_body]
pub(crate) fn big_rem(a: &num_bigint::BigInt, b: &num_bigint::BigInt) -> (r: num_bigint::BigInt)
    requires
        big_value(*b) > 0,
    ensures
        big_value(r) == big_value(*a) % big_value(*b),
{
    num_integer::Integer::mod_floor(a, b)
}

/// `<` of `BigInt`: whether the first number is the smaller.
#[verifier::external_body]
pub(crate) fn big_less(a: &num_bigint::BigInt, b: &num_bigint::BigInt) -> (r: bool)
    ensures
        r == (big_value(*a) < big_value(*b)),
{
    a < b
}

/// `<[BigInt]>::sort`: afterwards the numbers are ascending, and each is
/// there as often as before.
#[verifier::external_body]
pub(crate) fn big_sort(values: &mut Vec<num_bigint::BigInt>)
    ensures
        ascending(big_values(final(values)@)),
        big_values(final(values)@).to_multiset() == big_values(old(values)@).to_multiset(),
{
    values.sort();
}

/// `Display` of `BigInt`, for a number not below zero: its decimal digits,
/// without zeros in front.
#[verifier::external_body]
pub(crate) fn big_digits(a: &num_bigint::BigInt) -> (r: String)
    requires
        big_value(*a) >= 0,
    ensures
        r@ == crate::writing::natural_text(big_value(*a) as nat),
{
    a.to_string()
}

} // verus!
