//! The advice itself: what to pay, whether the price is risky, and whether to
//! wait. It depends on the request alone, not on the time of day.
//!
//! The prices of a request are first brought to one unit: the finest power
//! of ten that any of them is written in, and no coarser than a gwei. From
//! there on all is whole numbers, and nothing is rounded but the suggestion,
//! to the hundredth of a gwei.

use crate::big::{big_add, big_copy, big_div, big_from, big_less, big_mul, big_sub, big_value, big_values};
use crate::decimal::pow10;
use crate::exact::{power_of_ten, scale_up};
use crate::model::{
    copy_decimal, Decimal, DecimalView, OptimizeInput, OptimizeInputView, RecentGasPoint,
    RecentGasPointView,
};
use crate::stats::{
    in_order, is_trending_down, lemma_in_order, median, median_twice, percentile_90,
    percentile_90_of, sorted, trending_down,
};
use num_bigint::BigInt;
use vstd::prelude::*;

verus! {

/// What the optimizer concludes from a request.
#[derive(Debug, Clone, PartialEq, Eq)]
pub struct Advice {
    /// The suggested price, in gwei.
    pub suggested_gas: Decimal,
    /// Whether the current price is above the 90th percentile of the history.
    pub risk: bool,
    /// Whether prices are falling, so that it pays to wait.
    pub wait: bool,
    /// The median of the history in gwei; `None` without a history.
    pub median: Option<Decimal>,
}

/// Advice as contracts see it.
pub struct AdviceView {
    pub suggested_gas: DecimalView,
    pub risk: bool,
    pub wait: bool,
    pub median: Option<DecimalView>,
}

impl View for Advice {
    type V = AdviceView;

    open spec fn view(&self) -> AdviceView {
        AdviceView {
            suggested_gas: self.suggested_gas@,
            risk: self.risk,
            wait: self.wait,
            median: match self.median {
                Some(m) => Some(m@),
                None => None,
            },
        }
    }
}

/// The least exponent among the prices of a history, and no more than zero.
pub open spec fn least_exponent(recent: Seq<RecentGasPointView>) -> int
    decreases recent.len(),
{
    if recent.len() == 0 {
        0
    } else {
        let rest = least_exponent(recent.drop_last());
        if recent.last().gas_gwei.exponent < rest {
            recent.last().gas_gwei.exponent
        } else {
            rest
        }
    }
}

/// The exponent of the unit that a request is counted in: the least among
/// its prices, and no more than zero.
pub open spec fn common_exponent(input: OptimizeInputView) -> int {
    let least = least_exponent(input.recent);
    if input.current_gas.exponent < least {
        input.current_gas.exponent
    } else {
        least
    }
}

/// A number in units of ten to the power of `e`, for `e` no more than the
/// number's own exponent.
pub open spec fn units_at(d: DecimalView, e: int) -> int {
    d.units * pow10((d.exponent - e) as nat)
}

/// The prices of a history in units of ten to the power of `e`, in its order.
pub open spec fn prices_at(recent: Seq<RecentGasPointView>, e: int) -> Seq<int> {
    Seq::new(recent.len(), |i: int| units_at(recent[i].gas_gwei, e))
}

/// The price to suggest before rounding, in twentieths of a unit, for a
/// current price in units and twice a median in units.
///
/// Above the median: the current price less a tenth, but not below the
/// median. Otherwise: the median less a tenth, but not below the current
/// price.
pub open spec fn suggestion(current: int, median: int) -> int {
    if 2 * current > median {
        if 18 * current >= 10 * median {
            18 * current
        } else {
            10 * median
        }
    } else {
        if 9 * median >= 20 * current {
            9 * median
        } else {
            20 * current
        }
    }
}

/// An amount with `places` digits below the hundredth of a gwei, rounded to
/// the nearest hundredth, halves towards the greater amount; in hundredths.
pub open spec fn round_to_cents(x: int, places: nat) -> int {
    if places == 0 {
        x
    } else {
        (x + 5 * pow10((places - 1) as nat)) / (pow10(places) as int)
    }
}

/// The advice for a request.
pub open spec fn advice_for(input: OptimizeInputView) -> AdviceView {
    if input.recent.len() == 0 {
        AdviceView { suggested_gas: input.current_gas, risk: false, wait: false, median: None }
    } else {
        let e = common_exponent(input);
        let current = units_at(input.current_gas, e);
        let history = prices_at(input.recent, e);
        let ascending = in_order(history);
        let median = median_twice(ascending);
        AdviceView {
            suggested_gas: DecimalView {
                units: round_to_cents(5 * suggestion(current, median), (-e) as nat),
                exponent: -2,
            },
            risk: current > percentile_90_of(ascending),
            wait: trending_down(history),
            median: Some(DecimalView { units: 5 * median, exponent: e - 1 }),
        }
    }
}

/// The least exponent is no more than zero, and no more than any exponent of
/// the history.
pub proof fn lemma_least_exponent(recent: Seq<RecentGasPointView>, i: int)
    requires
        0 <= i < recent.len(),
    ensures
        least_exponent(recent) <= 0,
        least_exponent(recent) <= recent[i].gas_gwei.exponent,
    decreases recent.len(),
{
    lemma_least_exponent_sign(recent.drop_last());
    if i < recent.len() - 1 {
        lemma_least_exponent(recent.drop_last(), i);
    }
}

/// The least exponent is no more than zero.
pub proof fn lemma_least_exponent_sign(recent: Seq<RecentGasPointView>)
    ensures
        least_exponent(recent) <= 0,
    decreases recent.len(),
{
    if recent.len() > 0 {
        lemma_least_exponent_sign(recent.drop_last());
    }
}

/// The exponent of the unit that `input` is counted in.
fn common_scale(input: &OptimizeInput) -> (e: BigInt)
    ensures
        big_value(e) == common_exponent(input@),
{
    let mut least: BigInt = big_from(0);
    let mut i: usize = 0;
    assert(input@.recent.take(0).len() == 0);
    while i < input.recent.len()
        invariant
            i <= input.recent@.len(),
            input@.recent.len() == input.recent@.len(),
            big_value(least) == least_exponent(input@.recent.take(i as int)),
        decreases input.recent@.len() - i,
    {
        proof {
            assert(input@.recent.take(i + 1).drop_last() == input@.recent.take(i as int));
            assert(input@.recent.take(i + 1).last() == input.recent@[i as int]@);
        }
        if big_less(&input.recent[i].gas_gwei.exponent, &least) {
            least = big_copy(&input.recent[i].gas_gwei.exponent);
        }
        i += 1;
    }
    assert(input@.recent.take(input@.recent.len() as int) == input@.recent);
    if big_less(&input.current_gas.exponent, &least) {
        big_copy(&input.current_gas.exponent)
    } else {
        least
    }
}

/// `d` in units of ten to the power of `e`.
fn rescale(d: &Decimal, e: &BigInt) -> (r: BigInt)
    requires
        big_value(*e) <= d@.exponent,
    ensures
        big_value(r) == units_at(d@, big_value(*e)),
{
    let by: BigInt = big_sub(&d.exponent, e);
    scale_up(&d.units, &by)
}

/// The price to suggest before rounding, in twentieths of a unit, for a
/// current price in units and twice a median in units.
pub fn suggest(current: &BigInt, median: &BigInt) -> (r: BigInt)
    ensures
        big_value(r) == suggestion(big_value(*current), big_value(*median)),
        2 * big_value(*current) > big_value(*median) ==> big_value(r) >= 10 * big_value(*median),
        2 * big_value(*current) <= big_value(*median) ==> big_value(r) >= 20 * big_value(*current),
{
    let twice: BigInt = big_mul(&big_from(2), current);
    let above: bool = big_less(median, &twice);
    let discounted: BigInt = if above {
        big_mul(&big_from(18), current)
    } else {
        big_mul(&big_from(9), median)
    };
    let floor: BigInt = if above {
        big_mul(&big_from(10), median)
    } else {
        big_mul(&big_from(20), current)
    };
    if big_less(&discounted, &floor) {
        floor
    } else {
        discounted
    }
}

/// Rounds an amount with `places` digits below the hundredth of a gwei to
/// hundredths.
pub fn round_cents(x: &BigInt, places: &BigInt) -> (r: BigInt)
    requires
        big_value(*places) >= 0,
    ensures
        big_value(r) == round_to_cents(big_value(*x), big_value(*places) as nat),
{
    let zero: BigInt = big_from(0);
    if big_less(&zero, places) {
        let fewer: BigInt = big_sub(places, &big_from(1));
        let half: BigInt = scale_up(&big_from(5), &fewer);
        let unit: BigInt = power_of_ten(places);
        let lifted: BigInt = big_add(x, &half);
        big_div(&lifted, &unit)
    } else {
        big_copy(x)
    }
}

/// Judges the current price of a request by its history.
pub fn analyze(input: &OptimizeInput) -> (r: Advice)
    ensures
        r@ == advice_for(input@),
        input@.recent.len() == 0 ==> r@ == (AdviceView {
            suggested_gas: input@.current_gas,
            risk: false,
            wait: false,
            median: None,
        }),
{
    if input.recent.len() == 0 {
        return Advice {
            suggested_gas: copy_decimal(&input.current_gas),
            risk: false,
            wait: false,
            median: None,
        };
    }
    let e: BigInt = common_scale(input);
    proof {
        lemma_least_exponent_sign(input@.recent);
    }
    let current: BigInt = rescale(&input.current_gas, &e);
    let mut history: Vec<BigInt> = Vec::new();
    let mut i: usize = 0;
    while i < input.recent.len()
        invariant
            i <= input.recent@.len(),
            input@.recent.len() == input.recent@.len(),
            big_value(e) == common_exponent(input@),
            history@.len() == i,
            forall|j: int|
                0 <= j < i ==> big_value(#[trigger] history@[j]) == units_at(
                    input.recent@[j]@.gas_gwei,
                    big_value(e),
                ),
        decreases input.recent@.len() - i,
    {
        proof {
            lemma_least_exponent(input@.recent, i as int);
        }
        let price: BigInt = rescale(&input.recent[i].gas_gwei, &e);
        history.push(price);
        i += 1;
    }
    assert(big_values(history@) =~= prices_at(input@.recent, big_value(e)));
    let ascending: Vec<BigInt> = sorted(&history);
    proof {
        lemma_in_order(big_values(history@));
    }
    let middle: BigInt = median(&ascending);
    let high: BigInt = percentile_90(&ascending);
    let exact: BigInt = suggest(&current, &middle);
    let five: BigInt = big_from(5);
    let places: BigInt = big_sub(&big_from(0), &e);
    let cents: BigInt = round_cents(&big_mul(&five, &exact), &places);
    let risk: bool = big_less(&high, &current);
    let wait: bool = is_trending_down(&history);
    let two: BigInt = big_from(2);
    Advice {
        suggested_gas: Decimal { units: cents, exponent: big_sub(&big_from(0), &two) },
        risk,
        wait,
        median: Some(
            Decimal { units: big_mul(&five, &middle), exponent: big_sub(&e, &big_from(1)) },
        ),
    }
}

} // verus!
