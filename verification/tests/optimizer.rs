use gas_optimizer::optimizer::respond;
use gas_optimizer::clock::can_write;
use gas_optimizer::{optimize, optimize_at, try_optimize_at, Decimal, OptimizeInput, RecentGasPoint, Timestamp};
use num_bigint::BigInt;

const NOON: Timestamp = Timestamp { secs: 1_700_000_000, nanos: 0 };

const INVALID: &str = r#"{"error":"invalid input"}"#;

fn answer(request: &str, now: Timestamp) -> String {
    String::from_utf8(optimize_at(request.as_bytes(), now)).unwrap()
}

fn history(prices: &[u64]) -> String {
    let points: Vec<String> =
        prices.iter().map(|p| format!(r#"{{"timestamp":"2024-01-01T00:00:00Z","gas_gwei":{}}}"#, p)).collect();
    format!("[{}]", points.join(","))
}

fn request(current: &str, prices: &[u64]) -> String {
    format!(r#"{{"tx":"0xabc","current_gas":{},"recent":{}}}"#, current, history(prices))
}

#[test]
fn empty_history_answers_with_the_current_price() {
    assert_eq!(
        answer(r#"{"tx":"0xabc","current_gas":42.5,"recent":[]}"#, NOON),
        r#"{"suggested_gas":42.5,"risk":false,"optimal_time_iso":"2023-11-14T22:13:20+00:00","reason":"No recent data"}"#
    );
    assert_eq!(
        answer(r#"{"tx":"","current_gas":12.345678901,"recent":[]}"#, NOON),
        r#"{"suggested_gas":12.345678901,"risk":false,"optimal_time_iso":"2023-11-14T22:13:20+00:00","reason":"No recent data"}"#
    );
    assert_eq!(
        answer(r#"{"tx":"","current_gas":0,"recent":[]}"#, NOON),
        r#"{"suggested_gas":0.0,"risk":false,"optimal_time_iso":"2023-11-14T22:13:20+00:00","reason":"No recent data"}"#
    );
    assert_eq!(
        answer(r#"{"tx":"0xabc","current_gas":-42,"recent":[]}"#, NOON),
        r#"{"suggested_gas":-42.0,"risk":false,"optimal_time_iso":"2023-11-14T22:13:20+00:00","reason":"No recent data"}"#
    );
    assert_eq!(
        answer(r#"{"tx":"0xabc","current_gas":-0.125,"recent":[]}"#, NOON),
        r#"{"suggested_gas":-0.125,"risk":false,"optimal_time_iso":"2023-11-14T22:13:20+00:00","reason":"No recent data"}"#
    );
    assert_eq!(
        answer(r#"{"tx":"0xabc","current_gas":42,"recent":[]}"#, NOON),
        r#"{"suggested_gas":42.0,"risk":false,"optimal_time_iso":"2023-11-14T22:13:20+00:00","reason":"No recent data"}"#
    );
}

#[test]
fn a_history_below_zero_is_answered_by_the_same_rules() {
    assert_eq!(
        answer(
            r#"{"tx":"t","current_gas":-5,"recent":[{"timestamp":"a","gas_gwei":-10},{"timestamp":"b","gas_gwei":-20},{"timestamp":"c","gas_gwei":-30}]}"#,
            NOON
        ),
        r#"{"suggested_gas":-4.5,"risk":true,"optimal_time_iso":"2023-11-14T22:16:20+00:00","reason":"median=-20"}"#
    );
}

#[test]
fn a_single_price_below_zero_defers() {
    assert_eq!(
        answer(r#"{"tx":"t","current_gas":0,"recent":[{"timestamp":"a","gas_gwei":-3}]}"#, NOON),
        r#"{"suggested_gas":0.0,"risk":true,"optimal_time_iso":"2023-11-14T22:16:20+00:00","reason":"median=-3"}"#
    );
    assert_eq!(
        answer(r#"{"tx":"t","current_gas":0,"recent":[{"timestamp":"a","gas_gwei":3}]}"#, NOON),
        r#"{"suggested_gas":2.7,"risk":false,"optimal_time_iso":"2023-11-14T22:13:20+00:00","reason":"median=3"}"#
    );
}

#[test]
fn three_samples_have_the_second_as_median() {
    assert_eq!(
        answer(&request("25", &[10, 20, 30]), NOON),
        r#"{"suggested_gas":22.5,"risk":false,"optimal_time_iso":"2023-11-14T22:13:20+00:00","reason":"median=20"}"#
    );
}

#[test]
fn an_even_history_has_the_mean_of_the_central_two_as_median() {
    assert_eq!(
        answer(&request("10", &[10, 20, 21, 40]), NOON),
        r#"{"suggested_gas":18.45,"risk":false,"optimal_time_iso":"2023-11-14T22:13:20+00:00","reason":"median=20.5"}"#
    );
}

#[test]
fn a_price_above_the_90th_percentile_is_flagged() {
    let prices = [10, 20, 30, 40, 50, 60, 70, 80, 90, 100];
    assert_eq!(
        answer(&request("95", &prices), NOON),
        r#"{"suggested_gas":85.5,"risk":true,"optimal_time_iso":"2023-11-14T22:13:20+00:00","reason":"median=55"}"#
    );
    assert_eq!(
        answer(&request("85", &prices), NOON),
        r#"{"suggested_gas":76.5,"risk":false,"optimal_time_iso":"2023-11-14T22:13:20+00:00","reason":"median=55"}"#
    );
}

#[test]
fn falling_prices_defer_by_three_minutes() {
    assert_eq!(
        answer(&request("50", &[100, 90, 80, 10, 5]), NOON),
        r#"{"suggested_gas":72.0,"risk":false,"optimal_time_iso":"2023-11-14T22:16:20+00:00","reason":"median=80"}"#
    );
}

#[test]
fn rising_prices_do_not_defer() {
    assert_eq!(
        answer(&request("50", &[10, 20, 30, 90, 100]), NOON),
        r#"{"suggested_gas":45.0,"risk":false,"optimal_time_iso":"2023-11-14T22:13:20+00:00","reason":"median=30"}"#
    );
}

#[test]
fn a_request_without_current_gas_is_answered_with_an_error() {
    assert_eq!(answer(r#"{"tx":"0xabc","recent":[]}"#, NOON), INVALID);
}

#[test]
fn bytes_that_are_not_json_are_answered_with_an_error() {
    assert_eq!(answer("", NOON), INVALID);
    assert_eq!(answer("hello", NOON), INVALID);
    assert_eq!(answer("{", NOON), INVALID);
    assert_eq!(String::from_utf8(optimize_at(&[0xff, 0xfe, 0x00], NOON)).unwrap(), INVALID);
    assert_eq!(String::from_utf8(optimize_at(&[b'"', 0xc3, b'"'], NOON)).unwrap(), INVALID);
    assert_eq!(String::from_utf8(optimize(b"not json")).unwrap(), INVALID);
}

#[test]
fn mistyped_members_are_answered_with_an_error() {
    assert_eq!(answer(r#"{"tx":"0xabc","current_gas":"42","recent":[]}"#, NOON), INVALID);
    assert_eq!(answer(r#"{"tx":"0xabc","current_gas":42,"recent":"none"}"#, NOON), INVALID);
    assert_eq!(answer(r#"{"tx":"0xabc","current_gas":true,"recent":[]}"#, NOON), INVALID);
}

#[test]
fn a_price_of_any_size_comes_back_as_it_is() {
    let tail = r#","risk":false,"optimal_time_iso":"2023-11-14T22:13:20+00:00","reason":"No recent data"}"#;
    for (number, written) in [
        ("1e10", "10000000000.0"),
        ("1e30", "1000000000000000000000000000000.0"),
        ("-1e30", "-1000000000000000000000000000000.0"),
        ("1e-10", "0.0000000001"),
        ("90.0000000001", "90.0000000001"),
        ("0.30000000000000004", "0.30000000000000004"),
        ("18446744073709551615", "18446744073709551615.0"),
        ("-0.0", "0.0"),
    ] {
        assert_eq!(
            answer(&format!(r#"{{"tx":"0xabc","current_gas":{},"recent":[]}}"#, number), NOON),
            format!(r#"{{"suggested_gas":{}{}"#, written, tail),
            "{}",
            number
        );
    }
    let large = answer(r#"{"tx":"0xabc","current_gas":1.5e300,"recent":[]}"#, NOON);
    assert_eq!(large, format!(r#"{{"suggested_gas":15{}.0{}"#, "0".repeat(299), tail));
    let small = answer(r#"{"tx":"0xabc","current_gas":5e-324,"recent":[]}"#, NOON);
    assert_eq!(small, format!(r#"{{"suggested_gas":0.{}5{}"#, "0".repeat(323), tail));
}

#[test]
fn a_history_of_prices_of_any_size_is_judged_exactly() {
    // 1e31 against 1e29 and 1e30
    assert_eq!(
        answer(
            r#"{"tx":"t","current_gas":1e31,"recent":[{"timestamp":"a","gas_gwei":1e29},{"timestamp":"b","gas_gwei":1e30}]}"#,
            NOON
        ),
        r#"{"suggested_gas":9000000000000000000000000000000.0,"risk":true,"optimal_time_iso":"2023-11-14T22:13:20+00:00","reason":"median=550000000000000000000000000000"}"#
    );
    // 1e-10 against 2e-10 and 1e-12
    assert_eq!(
        answer(
            r#"{"tx":"t","current_gas":1e-10,"recent":[{"timestamp":"a","gas_gwei":2e-10},{"timestamp":"b","gas_gwei":1e-12}]}"#,
            NOON
        ),
        r#"{"suggested_gas":0.0,"risk":false,"optimal_time_iso":"2023-11-14T22:16:20+00:00","reason":"median=0.0000000001005"}"#
    );
    // 90.0000000001 against a 90th percentile of 90
    let ten = [10, 20, 30, 40, 50, 60, 70, 80, 90, 100];
    assert_eq!(
        answer(&request("90.0000000001", &ten), NOON),
        r#"{"suggested_gas":81.0,"risk":true,"optimal_time_iso":"2023-11-14T22:13:20+00:00","reason":"median=55"}"#
    );
    assert_eq!(
        answer(&request("90", &ten), NOON),
        r#"{"suggested_gas":81.0,"risk":false,"optimal_time_iso":"2023-11-14T22:13:20+00:00","reason":"median=55"}"#
    );
}

#[test]
fn an_error_answer_has_the_member_error_alone() {
    let doc: serde_json::Value = serde_json::from_str(&answer("?", NOON)).unwrap();
    let members = doc.as_object().unwrap();
    assert_eq!(members.len(), 1);
    assert_eq!(members["error"].as_str(), Some("invalid input"));
}

#[test]
fn an_answer_has_the_four_members_and_no_error() {
    let doc: serde_json::Value = serde_json::from_str(&answer(&request("-7.25", &[3, 1, 2]), NOON)).unwrap();
    let members = doc.as_object().unwrap();
    assert_eq!(members.len(), 4);
    assert_eq!(members["suggested_gas"].to_string(), "1.8");
    assert_eq!(members["risk"].as_bool(), Some(false));
    assert_eq!(members["optimal_time_iso"].as_str(), Some("2023-11-14T22:16:20+00:00"));
    assert_eq!(members["reason"].as_str(), Some("median=2"));
    assert!(!members.contains_key("error"));
}

#[test]
fn unreadable_bytes_are_answered_without_the_clock() {
    for bytes in [&b""[..], &b"{"[..], &[0xffu8][..], &br#"{"tx":1}"#[..]] {
        assert_eq!(String::from_utf8(optimize(bytes)).unwrap(), INVALID);
    }
}

#[test]
fn text_beyond_ascii_is_read() {
    assert_eq!(
        answer(r#"{"tx":"grüße ✓","current_gas":1,"recent":[]}"#, NOON),
        r#"{"suggested_gas":1.0,"risk":false,"optimal_time_iso":"2023-11-14T22:13:20+00:00","reason":"No recent data"}"#
    );
}

#[test]
fn the_same_request_gets_the_same_answer_whenever_it_is_asked() {
    let json = request("25.5", &[30, 10, 20, 40, 15]);
    let first: serde_json::Value = serde_json::from_str(&answer(&json, NOON)).unwrap();
    let again: serde_json::Value =
        serde_json::from_str(&answer(&json, Timestamp { secs: 1_800_000_000, nanos: 1 })).unwrap();
    assert_eq!(first["suggested_gas"], again["suggested_gas"]);
    assert_eq!(first["risk"], again["risk"]);
    assert_eq!(first["reason"], again["reason"]);
    assert_ne!(first["optimal_time_iso"], again["optimal_time_iso"]);
    assert_eq!(answer(&json, NOON), answer(&json, NOON));
}

#[test]
fn the_clock_gives_the_time_to_submit_at() {
    let before = chrono::Utc::now();
    let doc: serde_json::Value =
        serde_json::from_slice(&optimize(request("50", &[10, 20, 30, 90, 100]).as_bytes())).unwrap();
    let after = chrono::Utc::now();
    let at = chrono::DateTime::parse_from_rfc3339(doc["optimal_time_iso"].as_str().unwrap()).unwrap();
    assert!(before <= at && at <= after);
    assert_eq!(doc["suggested_gas"].as_u64(), None);
    assert_eq!(doc["reason"].as_str(), Some("median=30"));
}

#[test]
fn the_clock_gives_a_time_three_minutes_on_for_falling_prices() {
    let before = chrono::Utc::now() + chrono::TimeDelta::minutes(3);
    let doc: serde_json::Value =
        serde_json::from_slice(&optimize(request("50", &[100, 90, 80, 10, 5]).as_bytes())).unwrap();
    let after = chrono::Utc::now() + chrono::TimeDelta::minutes(3);
    let at = chrono::DateTime::parse_from_rfc3339(doc["optimal_time_iso"].as_str().unwrap()).unwrap();
    assert!(before <= at && at <= after);
}

#[test]
fn a_request_in_plain_values_is_answered_alike() {
    let input = OptimizeInput {
        tx: String::from("0xabc"),
        current_gas: Decimal { units: BigInt::from(250), exponent: BigInt::from(-1) },
        recent: [10i64, 20, 30]
            .iter()
            .map(|p| RecentGasPoint {
                timestamp: String::new(),
                gas_gwei: Decimal { units: BigInt::from(*p), exponent: BigInt::from(0) },
            })
            .collect(),
    };
    assert_eq!(respond(&input, NOON), answer(&request("25", &[10, 20, 30]), NOON));
}

#[test]
fn a_time_that_cannot_be_written_is_told_apart() {
    assert!(can_write(NOON));
    assert!(can_write(Timestamp { secs: -62_000_000_000, nanos: 999_999_999 }));
    assert!(!can_write(Timestamp { secs: i64::MAX, nanos: 0 }));
    assert!(!can_write(Timestamp { secs: i64::MIN, nanos: 0 }));
    assert!(!can_write(Timestamp { secs: 0, nanos: 2_000_000_000 }));
    let last = chrono::DateTime::<chrono::Utc>::MAX_UTC.timestamp();
    assert!(can_write(Timestamp { secs: last, nanos: 0 }));
    assert!(!can_write(Timestamp { secs: last + 1, nanos: 0 }));
}

#[test]
fn a_request_is_answered_only_at_a_time_that_can_be_written() {
    let json = request("25", &[10, 20, 30]);
    assert_eq!(try_optimize_at(json.as_bytes(), NOON), Some(optimize_at(json.as_bytes(), NOON)));
    assert_eq!(try_optimize_at(json.as_bytes(), Timestamp { secs: i64::MAX, nanos: 0 }), None);
    assert_eq!(try_optimize_at(b"?", Timestamp { secs: i64::MAX, nanos: 0 }), Some(INVALID.as_bytes().to_vec()));
    assert_eq!(optimize_at(b"?", Timestamp { secs: i64::MAX, nanos: 0 }), INVALID.as_bytes().to_vec());
    assert_eq!(try_optimize_at(b"?", NOON), Some(INVALID.as_bytes().to_vec()));
}
