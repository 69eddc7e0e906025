use gas_optimizer::advice::{analyze, round_cents, suggest, Advice};
use gas_optimizer::{Decimal, OptimizeInput, RecentGasPoint};
use num_bigint::BigInt;

fn dec(units: i64, exponent: i64) -> Decimal {
    Decimal { units: BigInt::from(units), exponent: BigInt::from(exponent) }
}

fn request(current_gas: Decimal, prices: &[Decimal]) -> OptimizeInput {
    OptimizeInput {
        tx: String::from("0xabc"),
        current_gas,
        recent: prices
            .iter()
            .map(|p| RecentGasPoint { timestamp: String::from("2024-01-01T00:00:00Z"), gas_gwei: p.clone() })
            .collect(),
    }
}

fn gwei(prices: &[i64]) -> Vec<Decimal> {
    prices.iter().map(|p| dec(*p, 0)).collect()
}

fn twentieths(current: i64, twice_median: i64) -> BigInt {
    suggest(&BigInt::from(current), &BigInt::from(twice_median))
}

fn cents(x: i64, places: i64) -> BigInt {
    round_cents(&BigInt::from(x), &BigInt::from(places))
}

#[test]
fn without_history_the_current_price_is_suggested_as_it_came() {
    for current in [dec(0, 0), dec(1, 0), dec(-1, 0), dec(425, -1), dec(1, 30), dec(1, -10), dec(-17, 300), dec(10, -1)] {
        assert_eq!(
            analyze(&request(current.clone(), &[])),
            Advice { suggested_gas: current, risk: false, wait: false, median: None }
        );
    }
}

#[test]
fn above_the_median_a_tenth_is_taken_off_the_current_price() {
    // median 20, current 30: max(20, 27)
    assert_eq!(twentieths(30, 40), BigInt::from(20 * 27));
    // median 20, current 21: max(20, 18.9)
    assert_eq!(twentieths(21, 40), BigInt::from(20 * 20));
}

#[test]
fn up_to_the_median_a_tenth_is_taken_off_the_median() {
    // median 20, current 10: max(10, 18)
    assert_eq!(twentieths(10, 40), BigInt::from(20 * 18));
    // median 20, current 20: max(20, 18)
    assert_eq!(twentieths(20, 40), BigInt::from(20 * 20));
    // median 20.5, current 19: max(19, 18.45)
    assert_eq!(twentieths(19, 41), BigInt::from(20 * 19));
    // median 20.5, current 10: 18.45
    assert_eq!(twentieths(10, 41), BigInt::from(369));
}

#[test]
fn suggestions_below_zero_follow_the_same_rule() {
    // median -20, current -30: the median less a tenth is -18, the floor -30
    assert_eq!(twentieths(-30, -40), BigInt::from(20 * -18));
    // median -20, current -10: the current price less a tenth is -9
    assert_eq!(twentieths(-10, -40), BigInt::from(20 * -9));
}

#[test]
fn amounts_are_rounded_to_the_hundredth_with_halves_up() {
    assert_eq!(cents(1234, 0), BigInt::from(1234));
    assert_eq!(cents(11114, 1), BigInt::from(1111));
    assert_eq!(cents(11115, 1), BigInt::from(1112));
    assert_eq!(cents(11116, 1), BigInt::from(1112));
    assert_eq!(cents(1111499, 3), BigInt::from(1111));
    assert_eq!(cents(1111500, 3), BigInt::from(1112));
    assert_eq!(cents(-11115, 1), BigInt::from(-1111));
    assert_eq!(cents(-11116, 1), BigInt::from(-1112));
    assert_eq!(cents(-11114, 1), BigInt::from(-1111));
    assert_eq!(cents(4, 1), BigInt::from(0));
    assert_eq!(cents(-5, 1), BigInt::from(0));
    assert_eq!(cents(-6, 1), BigInt::from(-1));
}

#[test]
fn the_median_of_three_samples_is_the_second() {
    let advice = analyze(&request(dec(25, 0), &gwei(&[10, 20, 30])));
    assert_eq!(
        advice,
        Advice { suggested_gas: dec(2250, -2), risk: false, wait: false, median: Some(dec(200, -1)) }
    );
}

#[test]
fn prices_written_in_different_units_are_brought_to_one() {
    // 25.5 against 10, 2e1 and 30.00
    let advice = analyze(&request(dec(255, -1), &[dec(10, 0), dec(2, 1), dec(3000, -2)]));
    assert_eq!(
        advice,
        Advice { suggested_gas: dec(2295, -2), risk: false, wait: false, median: Some(dec(20000, -3)) }
    );
}

#[test]
fn suggestions_are_rounded_to_the_hundredth_of_a_gwei() {
    // 0.9 * 12.346 = 11.1114
    assert_eq!(analyze(&request(dec(12346, -3), &gwei(&[0]))).suggested_gas, dec(1111, -2));
    // 0.9 * 12.35 = 11.115, a half, goes up
    assert_eq!(analyze(&request(dec(1235, -2), &gwei(&[0]))).suggested_gas, dec(1112, -2));
    // 0.9 * -12.35 = -11.115, a half, goes up to -11.11
    assert_eq!(analyze(&request(dec(-1235, -2), &gwei(&[-100]))).suggested_gas, dec(-1111, -2));
    // median 20.004 stays the floor, and rounds down
    assert_eq!(analyze(&request(dec(21, 0), &[dec(20004, -3)])).suggested_gas, dec(2000, -2));
}

#[test]
fn the_history_is_sorted_for_the_median_only() {
    let advice = analyze(&request(dec(25, 0), &gwei(&[30, 10, 20])));
    assert_eq!(advice.median, Some(dec(200, -1)));
    // 30 against the mean of 10 and 20
    assert!(advice.wait);
    assert!(!analyze(&request(dec(25, 0), &gwei(&[10, 20, 30]))).wait);
}

#[test]
fn a_price_above_the_90th_percentile_is_risky() {
    let history = gwei(&[10, 20, 30, 40, 50, 60, 70, 80, 90, 100]);
    assert!(analyze(&request(dec(95, 0), &history)).risk);
    assert!(!analyze(&request(dec(85, 0), &history)).risk);
    assert!(!analyze(&request(dec(90, 0), &history)).risk);
    assert!(analyze(&request(dec(900_000_000_001, -10), &history)).risk);
    assert!(analyze(&request(dec(90, 0), &gwei(&[10, 20, 30, 40, 50, 60, 70, 80, 89, 100]))).risk);
    assert!(!analyze(&request(dec(899_999_999_999, -10), &history)).risk);
}

#[test]
fn prices_of_any_size_are_judged_exactly() {
    // 1e30 against a history of 1e30 and 1e30 + 1e-10
    let large = Decimal { units: BigInt::from(10).pow(40) + 1, exponent: BigInt::from(-10) };
    let advice = analyze(&request(dec(1, 30), &[large.clone(), dec(1, 30)]));
    assert!(!advice.risk);
    assert!(advice.wait);
    assert_eq!(advice.suggested_gas, Decimal { units: BigInt::from(10).pow(32), exponent: BigInt::from(-2) });
    let advice = analyze(&request(large, &[dec(1, 30), dec(1, 30)]));
    assert!(advice.risk);
    assert!(!advice.wait);
    // 5e-324 against 4e-324: everything rounds to nothing, and the order holds
    let advice = analyze(&request(dec(5, -324), &[dec(4, -324)]));
    assert!(advice.risk);
    assert_eq!(advice.suggested_gas, dec(0, -2));
    assert_eq!(advice.median, Some(dec(40, -325)));
}

#[test]
fn falling_prices_make_it_pay_to_wait() {
    assert!(analyze(&request(dec(50, 0), &gwei(&[100, 90, 80, 10, 5]))).wait);
    assert!(!analyze(&request(dec(50, 0), &gwei(&[10, 20, 30, 90, 100]))).wait);
}

#[test]
fn a_history_below_zero_is_judged_by_the_same_rules() {
    let advice = analyze(&request(dec(-5, 0), &gwei(&[-10, -20, -30])));
    assert_eq!(advice, Advice { suggested_gas: dec(-450, -2), risk: true, wait: true, median: Some(dec(-200, -1)) });
    let advice = analyze(&request(dec(0, 0), &gwei(&[-3])));
    assert_eq!(advice, Advice { suggested_gas: dec(0, -2), risk: true, wait: true, median: Some(dec(-30, -1)) });
}

#[test]
fn the_same_request_gets_the_same_advice() {
    let input = request(dec(25, 0), &gwei(&[30, 10, 20, 40]));
    assert_eq!(analyze(&input), analyze(&input));
}
