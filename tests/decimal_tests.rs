use codex_core::decimal::{parse_i64, parse_u64};

#[test]
fn u64_text_is_read_as_std_reads_it() {
    for s in ["0", "42", "+7", "007", "18446744073709551615", "", "+", "-1", " 1", "1 ", "1.0", "18446744073709551616", "１"] {
        assert_eq!(parse_u64(s), s.parse::<u64>().ok(), "text {s:?}");
    }
    assert_eq!(parse_u64("123"), Some(123));
    assert_eq!(parse_u64("99999999999999999999"), None);
}

#[test]
fn i64_text_is_read_as_std_reads_it() {
    for s in ["0", "-0", "+5", "-5", "9223372036854775807", "9223372036854775808", "-9223372036854775808", "-9223372036854775809", "", "-", "+", "--1", "+-1", "1e3", "18446744073709551616"] {
        assert_eq!(parse_i64(s), s.parse::<i64>().ok(), "text {s:?}");
    }
    assert_eq!(parse_i64("-9223372036854775808"), Some(i64::MIN));
    assert_eq!(parse_i64("1700000000"), Some(1_700_000_000));
}
