use server::text::{i64_to_decimal, str_equal, u64_to_decimal};
use server::time::{
    decode_timestamp, encode_timestamp, has_elapsed, hours_between, Timestamp, MAX_EPOCH_SECONDS,
    MIN_EPOCH_SECONDS,
};

fn ts(secs: i64, nanos: u32) -> Timestamp {
    Timestamp { secs, nanos }
}

#[test]
fn decimal_rendering() {
    assert_eq!(u64_to_decimal(0), "0");
    assert_eq!(u64_to_decimal(1234), "1234");
    assert_eq!(u64_to_decimal(u64::MAX), u64::MAX.to_string());
    assert_eq!(i64_to_decimal(-45), "-45");
    assert_eq!(i64_to_decimal(i64::MIN), i64::MIN.to_string());
    assert_eq!(i64_to_decimal(7), "7");
}

#[test]
fn text_equality() {
    assert!(str_equal("users_name_key", "users_name_key"));
    assert!(!str_equal("users_name_key", "users_email_key"));
    assert!(!str_equal("ab", "ac"));
}

#[test]
fn whole_hours_round_toward_zero() {
    assert_eq!(hours_between(ts(7200, 0), ts(0, 0)), 2);
    assert_eq!(hours_between(ts(7199, 999_999_999), ts(0, 0)), 1);
    // 3599.999999999 s before: rounds to 0 hours
    assert_eq!(hours_between(ts(0, 0), ts(3599, 999_999_999)), 0);
    // 7200.000000001 s before: -7200 s, -2 hours
    assert_eq!(hours_between(ts(0, 0), ts(7200, 1)), -2);
    assert_eq!(hours_between(ts(86_400, 5), ts(0, 10)), 23);
}

#[test]
fn elapsed_rule() {
    assert!(has_elapsed(None, ts(0, 0), 24));
    assert!(has_elapsed(Some(ts(0, 0)), ts(86_400, 0), 24));
    assert!(!has_elapsed(Some(ts(0, 0)), ts(86_399, 999_999_999), 24));
    // the law: once elapsed, later instants stay elapsed
    assert!(has_elapsed(Some(ts(0, 0)), ts(100_000, 0), 24));
}

#[test]
fn timestamps_are_stored_as_rfc3339() {
    let t = decode_timestamp(Some("2024-01-01T00:00:00Z")).unwrap().unwrap();
    assert_eq!(t, ts(1_704_067_200, 0));
    assert_eq!(encode_timestamp(t), "2024-01-01T00:00:00+00:00");
    let u = ts(1_704_067_200, 500_000_000);
    assert_eq!(decode_timestamp(Some(&encode_timestamp(u))).unwrap(), Some(u));
    assert_eq!(decode_timestamp(None).unwrap(), None);
    assert!(decode_timestamp(Some("yesterday")).is_err());
}

#[test]
fn stored_instants_read_back_across_the_range() {
    let samples = [
        ts(MIN_EPOCH_SECONDS, 0),
        ts(MAX_EPOCH_SECONDS, 999_999_999),
        ts(-62_135_596_801, 1),
        ts(253_402_300_800, 123_000),
        ts(0, 0),
        ts(-1, 999_000_000),
    ];
    for t in samples {
        assert!(t.is_wf());
        assert_eq!(decode_timestamp(Some(&encode_timestamp(t))).unwrap(), Some(t));
    }
    assert!(!ts(MIN_EPOCH_SECONDS - 1, 0).is_wf());
    assert!(!ts(MAX_EPOCH_SECONDS + 1, 0).is_wf());
    assert_eq!(encode_timestamp(ts(MIN_EPOCH_SECONDS, 0)), "-262143-01-01T00:00:00+00:00");
    assert_eq!(encode_timestamp(ts(MAX_EPOCH_SECONDS, 0)), "+262142-12-31T23:59:59+00:00");
}
