use gas_optimizer::stats::{is_trending_down, median, percentile_90, sorted, sum_range};
use num_bigint::BigInt;

fn big(values: &[i64]) -> Vec<BigInt> {
    values.iter().map(|v| BigInt::from(*v)).collect()
}

fn huge(sign: i64) -> BigInt {
    BigInt::from(sign) * BigInt::from(10).pow(400)
}

fn falls(values: &[i64]) -> bool {
    is_trending_down(&big(values))
}

#[test]
fn sorted_gives_an_ascending_copy() {
    let values = big(&[30, 10, 20, 10]);
    assert_eq!(sorted(&values), big(&[10, 10, 20, 30]));
    assert_eq!(values, big(&[30, 10, 20, 10]));
    assert_eq!(sorted(&big(&[0, -1, i64::MAX, i64::MIN, 1])), big(&[i64::MIN, -1, 0, 1, i64::MAX]));
    assert_eq!(sorted(&vec![huge(1), BigInt::from(0), huge(-1)]), vec![huge(-1), BigInt::from(0), huge(1)]);
    assert_eq!(sorted(&Vec::new()), Vec::<BigInt>::new());
}

#[test]
fn median_of_an_odd_length_is_the_middle_element() {
    assert_eq!(median(&big(&[10, 20, 30])), BigInt::from(2 * 20));
    assert_eq!(median(&big(&[7])), BigInt::from(2 * 7));
    assert_eq!(median(&big(&[1, 2, 3, 4, 100])), BigInt::from(2 * 3));
    assert_eq!(median(&big(&[-30, -20, -10])), BigInt::from(-40));
    assert_eq!(median(&vec![huge(1)]), huge(2));
}

#[test]
fn median_of_an_even_length_is_the_mean_of_the_central_two() {
    assert_eq!(median(&big(&[10, 20])), BigInt::from(30));
    assert_eq!(median(&big(&[10, 20, 21, 40])), BigInt::from(41));
    assert_eq!(median(&big(&[-3, 4])), BigInt::from(1));
    assert_eq!(median(&big(&[i64::MAX, i64::MAX])), BigInt::from(i64::MAX) * 2);
    assert_eq!(median(&vec![huge(-1), huge(1)]), BigInt::from(0));
}

#[test]
fn percentile_90_is_taken_by_nearest_rank() {
    assert_eq!(percentile_90(&big(&[10, 20, 30, 40, 50, 60, 70, 80, 90, 100])), BigInt::from(90));
    assert_eq!(percentile_90(&big(&[5])), BigInt::from(5));
    assert_eq!(percentile_90(&big(&[5, 6])), BigInt::from(6));
    assert_eq!(percentile_90(&big(&[1, 2, 3])), BigInt::from(3));
    assert_eq!(percentile_90(&big(&[-3, -2, -1])), BigInt::from(-1));
    let eleven: Vec<i64> = (1..=11).collect();
    assert_eq!(percentile_90(&big(&eleven)), BigInt::from(10));
    let twenty: Vec<i64> = (1..=20).collect();
    assert_eq!(percentile_90(&big(&twenty)), BigInt::from(18));
    let hundred: Vec<i64> = (1..=100).collect();
    assert_eq!(percentile_90(&big(&hundred)), BigInt::from(90));
}

#[test]
fn sum_range_adds_up_a_range() {
    let values = big(&[1, 2, 3, 4]);
    assert_eq!(sum_range(&values, 0, 4), BigInt::from(10));
    assert_eq!(sum_range(&values, 1, 3), BigInt::from(5));
    assert_eq!(sum_range(&values, 2, 2), BigInt::from(0));
    assert_eq!(sum_range(&big(&[i64::MAX, i64::MAX, i64::MAX]), 0, 3), BigInt::from(i64::MAX) * 3);
    assert_eq!(sum_range(&big(&[-5, 5, -7]), 0, 3), BigInt::from(-7));
    assert_eq!(sum_range(&vec![huge(1), huge(1), huge(-1)], 0, 3), huge(1));
}

#[test]
fn falling_prices_trend_down() {
    assert!(falls(&[100, 90, 80, 10, 5]));
    assert!(falls(&[3, 2]));
    assert!(falls(&[10, 10, 9, 10]));
    assert!(is_trending_down(&vec![huge(1), BigInt::from(1)]));
}

#[test]
fn rising_or_level_prices_do_not_trend_down() {
    assert!(!falls(&[10, 20, 30, 90, 100]));
    assert!(!falls(&[5, 5, 5, 5]));
    assert!(!falls(&[2, 3]));
    assert!(!falls(&[]));
    assert!(!is_trending_down(&vec![BigInt::from(1), huge(1)]));
}

#[test]
fn a_single_sample_trends_down_only_below_zero() {
    assert!(!falls(&[0]));
    assert!(!falls(&[7]));
    assert!(falls(&[-1]));
    assert!(is_trending_down(&vec![huge(-1)]));
    assert!(!is_trending_down(&vec![huge(1)]));
}

#[test]
fn prices_below_zero_have_a_trend_too() {
    assert!(falls(&[-10, -20, -30]));
    assert!(!falls(&[-30, -20, -10]));
    assert!(falls(&[5, -1, -2]));
    assert!(!falls(&[-5, 1, 2]));
    assert!(!falls(&[-3, -4, -3, -4, -3]));
    assert!(falls(&[-3, -4, -3, -4, -4]));
    assert!(!falls(&[-5, -1, -2, -3, -4]));
    assert!(falls(&[0, 0, -1]));
    assert!(!falls(&[-1, 0, 0]));
}

#[test]
fn means_are_compared_exactly() {
    // 7/2 against 10/3: the later mean is lower by a sixth.
    assert!(falls(&[3, 4, 3, 4, 3]));
    // 7/2 against 11/3: the later mean is higher by a sixth.
    assert!(!falls(&[3, 4, 3, 4, 4]));
    // 3 against 9/3 is level.
    assert!(!falls(&[5, 1, 2, 3, 4]));
    assert!(falls(&[i64::MAX, i64::MAX, i64::MAX, i64::MAX, i64::MAX - 1]));
    assert!(!falls(&[i64::MAX - 1, i64::MAX, i64::MAX, i64::MAX, i64::MAX]));
    // One unit in ten to the 400th.
    assert!(is_trending_down(&vec![huge(1), huge(1), huge(1), huge(1), huge(1) - 1]));
    assert!(!is_trending_down(&vec![huge(1), huge(1), huge(1), huge(1), huge(1)]));
}
