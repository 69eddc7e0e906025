//! What holds of every request, proved from the definitions.

use crate::advice::{
    advice_for, common_exponent, prices_at, round_to_cents, suggestion, units_at,
};
use crate::clock::{rfc3339_text, submission_text, submission_time, writable, WAIT_SECONDS};
use crate::decimal::{lemma_pow10_positive, pow10};
use crate::model::{DecimalView, OptimizeInputView, OptimizeOutputView, Timestamp};
use crate::optimizer::{answer_for, request_of, response_text};
use crate::response::{invalid_input_json, json_string, output_json};
use crate::stats::{in_order, lemma_in_order, median_twice, percentile_90_of, trending_down};
use crate::writing::price_text;
use vstd::prelude::*;

verus! {

/// A request without a history is answered with its own current price, as it
/// came, no risk, the time at which it is asked and the reason "No recent
/// data", whatever the current price is.
pub proof fn law_empty_history(input: OptimizeInputView, now: Timestamp)
    requires
        input.recent.len() == 0,
    ensures
        answer_for(input, now).suggested_gas == input.current_gas,
        !answer_for(input, now).risk,
        answer_for(input, now).optimal_time_iso == rfc3339_text(now.secs, now.nanos).unwrap(),
        answer_for(input, now).reason == "No recent data"@,
        response_text(Some(input), now) == "{\"suggested_gas\":"@ + price_text(input.current_gas, 1)
            + ",\"risk\":"@ + "false"@ + ",\"optimal_time_iso\":"@ + json_string(
            rfc3339_text(now.secs, now.nanos).unwrap(),
        ) + ",\"reason\":"@ + json_string("No recent data"@) + "}"@,
{
}

/// A request with a history is answered by the rules. With the prices
/// counted in the finest unit among them: the suggested price is the
/// suggestion for the current price and the median of the ascending prices,
/// rounded to hundredths of a gwei; the risk is that the current price is
/// above their 90th percentile; the time is that for their trend; the reason
/// names their median.
pub proof fn law_answer(input: OptimizeInputView, now: Timestamp)
    requires
        input.recent.len() > 0,
    ensures
        ({
            let e = common_exponent(input);
            let current = units_at(input.current_gas, e);
            let history = prices_at(input.recent, e);
            let ascending = in_order(history);
            let median = median_twice(ascending);
            let out = answer_for(input, now);
            &&& e <= 0
            &&& ascending.len() == input.recent.len()
            &&& out.suggested_gas == DecimalView {
                units: round_to_cents(5 * suggestion(current, median), (-e) as nat),
                exponent: -2,
            }
            &&& out.risk == (current > percentile_90_of(ascending))
            &&& out.optimal_time_iso == submission_text(trending_down(history), now)
            &&& out.reason == "median="@ + price_text(
                DecimalView { units: 5 * median, exponent: e - 1 },
                0,
            )
        }),
{
    crate::advice::lemma_least_exponent_sign(input.recent);
    lemma_in_order(prices_at(input.recent, common_exponent(input)));
}

/// The median that the reason of an answer names is read from the ascending
/// prices, not from their order in the request: the middle one for an odd
/// number of them, the mean of the central two for an even number. (Five
/// tenths of the doubled median is the median.)
pub proof fn law_reason_names_median(input: OptimizeInputView, now: Timestamp)
    requires
        input.recent.len() > 0,
    ensures
        ({
            let e = common_exponent(input);
            let ascending = in_order(prices_at(input.recent, e));
            let n = ascending.len() as int;
            let doubled: int = if n % 2 == 1 {
                2 * ascending[n / 2]
            } else {
                ascending[n / 2 - 1] + ascending[n / 2]
            };
            answer_for(input, now).reason == "median="@ + price_text(
                DecimalView { units: 5 * doubled, exponent: e - 1 },
                0,
            )
        }),
{
    law_answer(input, now);
}

/// The time to submit at is the time of asking, or where prices fall, three
/// minutes later, as `chrono` writes it.
pub proof fn law_submission_time(input: OptimizeInputView, now: Timestamp)
    requires
        writable(now),
        input.recent.len() > 0,
    ensures
        ({
            let falling = trending_down(prices_at(input.recent, common_exponent(input)));
            &&& !falling ==> Some(answer_for(input, now).optimal_time_iso) == rfc3339_text(
                now.secs,
                now.nanos,
            )
            &&& falling && now.secs + WAIT_SECONDS <= i64::MAX && writable(
                submission_time(true, now).unwrap(),
            ) ==> Some(answer_for(input, now).optimal_time_iso) == rfc3339_text(
                (now.secs + WAIT_SECONDS) as i64,
                now.nanos,
            )
        }),
{
    law_answer(input, now);
}

/// Before it is rounded, the suggestion is not below the median for a current
/// price above the median, and not below the current price otherwise. (The
/// current price is in units, the median doubled, the suggestion in
/// twentieths of a unit.)
pub proof fn law_suggestion_floor(current: int, median: int)
    ensures
        2 * current > median ==> suggestion(current, median) >= 10 * median,
        2 * current <= median ==> suggestion(current, median) >= 20 * current,
{
}

/// Rounding keeps the order of two amounts.
pub proof fn law_rounding_keeps_order(a: int, b: int, places: nat)
    requires
        a <= b,
    ensures
        round_to_cents(a, places) <= round_to_cents(b, places),
{
    if places > 0 {
        lemma_pow10_positive(places);
        vstd::arithmetic::div_mod::lemma_div_is_ordered(
            a + 5 * pow10((places - 1) as nat),
            b + 5 * pow10((places - 1) as nat),
            pow10(places) as int,
        );
    }
}

/// The suggested price of a request with a history is not below the median,
/// rounded, for a current price above the median, and not below the current
/// price, rounded, otherwise. Where all prices are whole gwei, nothing is
/// rounded, and the suggested price is not below the median, or the current
/// price, itself. (All in hundredths of a gwei; a hundred times a price in
/// units is five times twenty times it, with the digits of the unit below
/// the hundredth.)
pub proof fn law_suggested_price_floor(input: OptimizeInputView)
    requires
        input.recent.len() > 0,
    ensures
        ({
            let e = common_exponent(input);
            let current = units_at(input.current_gas, e);
            let median = median_twice(in_order(prices_at(input.recent, e)));
            let cents = advice_for(input).suggested_gas.units;
            &&& 2 * current > median ==> cents >= round_to_cents(5 * (10 * median), (-e) as nat)
            &&& 2 * current <= median ==> cents >= round_to_cents(5 * (20 * current), (-e) as nat)
            &&& e == 0 && 2 * current > median ==> 2 * cents >= 100 * median
            &&& e == 0 && 2 * current <= median ==> cents >= 100 * current
        }),
{
    let e = common_exponent(input);
    let current = units_at(input.current_gas, e);
    let median = median_twice(in_order(prices_at(input.recent, e)));
    let exact = suggestion(current, median);
    if 2 * current > median {
        law_rounding_keeps_order(5 * (10 * median), 5 * exact, (-e) as nat);
    } else {
        law_rounding_keeps_order(5 * (20 * current), 5 * exact, (-e) as nat);
    }
}

/// The suggested price, the risk flag and the reason of an answer depend on
/// the request alone: asked at two times, a request gets the same three.
pub proof fn law_answer_but_for_time(input: OptimizeInputView, first: Timestamp, second: Timestamp)
    ensures
        answer_for(input, first).suggested_gas == answer_for(input, second).suggested_gas,
        answer_for(input, first).risk == answer_for(input, second).risk,
        answer_for(input, first).reason == answer_for(input, second).reason,
        answer_for(input, first).optimal_time_iso == submission_text(advice_for(input).wait, first),
        answer_for(input, second).optimal_time_iso == submission_text(advice_for(input).wait, second),
{
}

/// What is no request is answered alike at any two times.
pub proof fn law_error_but_for_time(bytes: Seq<u8>, first: Timestamp, second: Timestamp)
    requires
        request_of(bytes) is None,
    ensures
        response_text(request_of(bytes), first) == response_text(request_of(bytes), second),
{
}

/// The error object is never a response: the two differ in their third
/// character.
pub proof fn law_error_is_no_response(out: OptimizeOutputView)
    ensures
        invalid_input_json() != output_json(out),
{
    reveal_strlit("{\"error\":\"invalid input\"}");
    reveal_strlit("{\"suggested_gas\":");
    assert(invalid_input_json()[2] == 'e');
    assert(output_json(out)[2] == 's');
}

/// A buffer is answered with the error object exactly when it holds no
/// request, and with a response exactly when it holds one.
pub proof fn law_error_exactly_when_unreadable(bytes: Seq<u8>, now: Timestamp)
    ensures
        request_of(bytes) is None <==> response_text(request_of(bytes), now) == invalid_input_json(),
        request_of(bytes) matches Some(input) ==> response_text(request_of(bytes), now) == output_json(
            answer_for(input, now),
        ),
{
    if request_of(bytes) is Some {
        law_error_is_no_response(answer_for(request_of(bytes).unwrap(), now));
    }
}

} // verus!
