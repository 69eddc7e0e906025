//! Scaling by powers of ten, on whole numbers without bound.

use crate::big::{big_add, big_copy, big_from, big_less, big_mul, big_value};
use crate::decimal::{lemma_pow10_positive, pow10};
use num_bigint::BigInt;
use vstd::prelude::*;

verus! {

/// `units` times ten to the power of `by`.
pub fn scale_up(units: &BigInt, by: &BigInt) -> (r: BigInt)
    requires
        big_value(*by) >= 0,
    ensures
        big_value(r) == big_value(*units) * pow10(big_value(*by) as nat),
{
    let one: BigInt = big_from(1);
    let ten: BigInt = big_from(10);
    let mut acc: BigInt = big_copy(units);
    let mut done: BigInt = big_from(0);
    assert(big_value(*units) * pow10(0) == big_value(*units)) by (nonlinear_arith)
        requires
            pow10(0) == 1,
    ;
    while big_less(&done, by)
        invariant
            0 <= big_value(done) <= big_value(*by),
            big_value(one) == 1,
            big_value(ten) == 10,
            big_value(acc) == big_value(*units) * pow10(big_value(done) as nat),
        decreases big_value(*by) - big_value(done),
    {
        proof {
            let step = big_value(done) as nat;
            assert(pow10(step + 1) == 10 * pow10(step));
            assert((big_value(*units) * pow10(step)) * 10 == big_value(*units) * (10 * pow10(step)))
                by (nonlinear_arith);
        }
        acc = big_mul(&acc, &ten);
        done = big_add(&done, &one);
    }
    acc
}

/// Ten to the power of `places`.
pub fn power_of_ten(places: &BigInt) -> (r: BigInt)
    requires
        big_value(*places) >= 0,
    ensures
        big_value(r) == pow10(big_value(*places) as nat),
        big_value(r) >= 1,
{
    let one: BigInt = big_from(1);
    proof {
        lemma_pow10_positive(big_value(*places) as nat);
        assert(1 * pow10(big_value(*places) as nat) == pow10(big_value(*places) as nat));
    }
    scale_up(&one, places)
}

} // verus!
