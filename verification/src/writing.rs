//! Writing a price in plain decimal notation, exactly.

use crate::big::{big_add, big_copy, big_digits, big_div, big_from, big_less, big_rem, big_sub, big_value};
use crate::decimal::{digit_char, lemma_pow10_positive, pow10};
use crate::exact::{power_of_ten, scale_up};
use crate::model::{Decimal, DecimalView};
use num_bigint::BigInt;
use vstd::prelude::*;
use vstd::string::{StrSliceExecFns, StringExecFns};

verus! {

/// A whole number in decimal digits, without leading zeros.
pub open spec fn natural_text(n: nat) -> Seq<char>
    decreases n,
{
    if n < 10 {
        seq![digit_char(n)]
    } else {
        natural_text(n / 10) + seq![digit_char(n % 10)]
    }
}

/// So many zeros.
pub open spec fn zeros(n: nat) -> Seq<char> {
    Seq::new(n, |i: int| '0')
}

/// How many decimal places are left of `places` when the zeros at the end of
/// `f` are left out, as far as `keep` places remain.
pub open spec fn trimmed_places(f: nat, places: nat, keep: nat) -> nat
    decreases places,
{
    if places > keep && f % 10 == 0 {
        trimmed_places(f / 10, (places - 1) as nat, keep)
    } else {
        places
    }
}

/// What is left of `f` when the zeros at its end are left out, as far as
/// `keep` places remain.
pub open spec fn trimmed(f: nat, places: nat, keep: nat) -> nat
    decreases places,
{
    if places > keep && f % 10 == 0 {
        trimmed(f / 10, (places - 1) as nat, keep)
    } else {
        f
    }
}

/// The digits of `f` in `places` decimal places: zeros in front as far as its
/// own digits do not fill them.
pub open spec fn fraction_text(f: nat, places: nat) -> Seq<char> {
    let digits = natural_text(f);
    if digits.len() < places {
        zeros((places - digits.len()) as nat) + digits
    } else {
        digits
    }
}

/// `amount` divided by ten to the power of `places`, in plain decimal
/// notation: the whole part, and after a point the decimal places without
/// the zeros at the end that come after the first `keep` of them.
pub open spec fn decimal_text(amount: nat, places: nat, keep: nat) -> Seq<char> {
    let unit = pow10(places);
    let left = trimmed_places(amount % unit, places, keep);
    if left == 0 {
        natural_text(amount / unit)
    } else {
        natural_text(amount / unit) + seq!['.'] + fraction_text(
            trimmed(amount % unit, places, keep),
            left,
        )
    }
}

/// The decimal places that a number is written with: its own, and at least
/// `keep`.
pub open spec fn places_of(d: DecimalView, keep: nat) -> nat {
    if -d.exponent > keep {
        (-d.exponent) as nat
    } else {
        keep
    }
}

/// A number in plain decimal notation, with at least `keep` decimal places:
/// below zero a minus sign, then the number without its sign.
pub open spec fn price_text(d: DecimalView, keep: nat) -> Seq<char> {
    let places = places_of(d, keep);
    let amount = (if d.units < 0 {
        -d.units
    } else {
        d.units
    }) * pow10((places + d.exponent) as nat);
    if d.units < 0 {
        seq!['-'] + decimal_text(amount as nat, places, keep)
    } else {
        decimal_text(amount as nat, places, keep)
    }
}

/// Appends so many zeros.
fn append_zeros(out: &mut String, count: &BigInt)
    ensures
        final(out)@ == old(out)@ + zeros(if big_value(*count) < 0 {
            0
        } else {
            big_value(*count) as nat
        }),
{
    let one: BigInt = big_from(1);
    let mut done: BigInt = big_from(0);
    assert(out@ =~= old(out)@ + zeros(0));
    while big_less(&done, count)
        invariant
            big_value(one) == 1,
            0 <= big_value(done),
            big_value(done) <= big_value(*count) || big_value(*count) < 0,
            big_value(*count) < 0 ==> big_value(done) == 0,
            out@ == old(out)@ + zeros(big_value(done) as nat),
        decreases big_value(*count) - big_value(done),
    {
        proof {
            reveal_strlit("0");
            assert(zeros(big_value(done) as nat) + "0"@ =~= zeros((big_value(done) + 1) as nat));
        }
        out.append("0");
        done = big_add(&done, &one);
    }
}

/// Writes `amount` divided by ten to the power of `places` in plain decimal
/// notation.
fn format_amount(amount: &BigInt, places: &BigInt, keep: &BigInt) -> (r: String)
    requires
        big_value(*amount) >= 0,
        big_value(*places) >= 0,
        big_value(*keep) >= 0,
    ensures
        r@ == decimal_text(big_value(*amount) as nat, big_value(*places) as nat, big_value(*keep) as nat),
{
    let zero: BigInt = big_from(0);
    let one: BigInt = big_from(1);
    let ten: BigInt = big_from(10);
    let unit: BigInt = power_of_ten(places);
    let whole: BigInt = big_div(amount, &unit);
    let mut f: BigInt = big_rem(amount, &unit);
    let mut left: BigInt = big_copy(places);
    let ghost f0 = big_value(f) as nat;
    let ghost k = big_value(*keep) as nat;
    let ghost p0 = big_value(*places) as nat;
    assert(big_value(whole) >= 0 && big_value(f) >= 0) by (nonlinear_arith)
        requires
            big_value(whole) == big_value(*amount) / big_value(unit),
            big_value(f) == big_value(*amount) % big_value(unit),
            big_value(*amount) >= 0,
            big_value(unit) >= 1,
    ;
    loop
        invariant
            big_value(zero) == 0,
            big_value(one) == 1,
            big_value(ten) == 10,
            big_value(f) >= 0,
            big_value(left) >= 0,
            k == big_value(*keep),
            trimmed_places(big_value(f) as nat, big_value(left) as nat, k) == trimmed_places(f0, p0, k),
            trimmed(big_value(f) as nat, big_value(left) as nat, k) == trimmed(f0, p0, k),
        ensures
            big_value(f) >= 0,
            big_value(left) >= 0,
            big_value(left) == trimmed_places(f0, p0, k),
            big_value(f) == trimmed(f0, p0, k),
        decreases big_value(left),
    {
        if !big_less(keep, &left) {
            break;
        }
        let last: BigInt = big_rem(&f, &ten);
        if big_less(&zero, &last) || big_less(&last, &zero) {
            break;
        }
        f = big_div(&f, &ten);
        left = big_sub(&left, &one);
    }
    let mut out: String = big_digits(&whole);
    if big_less(&zero, &left) {
        out.append(".");
        let digits: String = big_digits(&f);
        let len: BigInt = big_from(digits.as_str().unicode_len() as u64);
        let missing: BigInt = big_sub(&left, &len);
        append_zeros(&mut out, &missing);
        out.append(digits.as_str());
        proof {
            reveal_strlit(".");
            assert("."@ =~= seq!['.']);
        }
    }
    assert(out@ =~= decimal_text(big_value(*amount) as nat, p0, k));
    out
}

/// Writes a number in plain decimal notation, with at least `keep` decimal
/// places and no zeros at the end beyond them.
pub fn format_price(price: &Decimal, keep: u32) -> (r: String)
    ensures
        r@ == price_text(price@, keep as nat),
{
    let zero: BigInt = big_from(0);
    let least: BigInt = big_from(keep as u64);
    let own: BigInt = big_sub(&zero, &price.exponent);
    let places: BigInt = if big_less(&least, &own) {
        own
    } else {
        big_copy(&least)
    };
    let negative: bool = big_less(&price.units, &zero);
    let size: BigInt = if negative {
        big_sub(&zero, &price.units)
    } else {
        big_copy(&price.units)
    };
    let by: BigInt = big_add(&places, &price.exponent);
    let amount: BigInt = scale_up(&size, &by);
    proof {
        lemma_pow10_positive(big_value(by) as nat);
        assert(big_value(amount) >= 0) by (nonlinear_arith)
            requires
                big_value(amount) == big_value(size) * pow10(big_value(by) as nat),
                big_value(size) >= 0,
                pow10(big_value(by) as nat) >= 1,
        ;
    }
    let body: String = format_amount(&amount, &places, &least);
    if negative {
        let mut out: String = String::from_str("-");
        out.append(body.as_str());
        proof {
            reveal_strlit("-");
            assert("-"@ =~= seq!['-']);
        }
        out
    } else {
        body
    }
}

} // verus!
