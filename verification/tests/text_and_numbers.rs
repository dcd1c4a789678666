use chat_relay::channel::{chat_channel_chars, priv_channel_chars};
use chat_relay::textnum::{parse_u64_digits, render_u64};

fn chars(s: &str) -> Vec<char> {
    s.chars().collect()
}

#[test]
fn rendering_gives_decimal_digits() {
    assert_eq!(render_u64(0), chars("0"));
    assert_eq!(render_u64(7), chars("7"));
    assert_eq!(render_u64(42), chars("42"));
    assert_eq!(render_u64(1000), chars("1000"));
    assert_eq!(render_u64(u64::MAX), chars("18446744073709551615"));
}

#[test]
fn parsing_reads_digits_back() {
    assert_eq!(parse_u64_digits(&chars("0")), Some(0));
    assert_eq!(parse_u64_digits(&chars("42")), Some(42));
    assert_eq!(parse_u64_digits(&chars("18446744073709551615")), Some(u64::MAX));
}

#[test]
fn parsing_accepts_leading_zeros() {
    assert_eq!(parse_u64_digits(&chars("042")), Some(42));
    assert_eq!(parse_u64_digits(&chars("000")), Some(0));
    assert_eq!(parse_u64_digits(&chars("0000000000000000000000042")), Some(42));
}

#[test]
fn parsing_rejects_non_digits_and_overflow() {
    assert_eq!(parse_u64_digits(&chars("")), None);
    assert_eq!(parse_u64_digits(&chars("abc")), None);
    assert_eq!(parse_u64_digits(&chars("4 2")), None);
    assert_eq!(parse_u64_digits(&chars("-1")), None);
    assert_eq!(parse_u64_digits(&chars("18446744073709551616")), None);
    assert_eq!(parse_u64_digits(&chars("99999999999999999999999")), None);
}

#[test]
fn round_trip_through_text() {
    for n in [0u64, 1, 9, 10, 99, 12345, u64::MAX - 1, u64::MAX] {
        assert_eq!(parse_u64_digits(&render_u64(n)), Some(n));
    }
}

#[test]
fn channel_names_carry_their_identifier() {
    assert_eq!(chat_channel_chars(42), chars("chat:42"));
    assert_eq!(chat_channel_chars(0), chars("chat:0"));
    assert_eq!(priv_channel_chars(7), chars("priv_user:7"));
}
