use lnnode::funding::btc_amount;
use lnnode::text::{chars_of, cut, join2, join3, parse_u64, string_of, text_is, u64_to_string};

#[test]
fn u64_to_string_writes_decimal() {
    assert_eq!(u64_to_string(0), "0");
    assert_eq!(u64_to_string(7), "7");
    assert_eq!(u64_to_string(10), "10");
    assert_eq!(u64_to_string(250_000_000), "250000000");
    assert_eq!(u64_to_string(u64::MAX), "18446744073709551615");
}

#[test]
fn parse_u64_reads_what_std_reads() {
    let cases = [
        "", "+", "0", "007", "+5", "-5", "abc", "12a", " 12", "12 ", "1_000",
        "18446744073709551615", "18446744073709551616", "99999999999999999999999", "٣",
    ];
    for case in cases {
        assert_eq!(parse_u64(case), case.parse::<u64>().ok(), "{:?}", case);
    }
    assert_eq!(parse_u64("100000"), Some(100000));
    assert_eq!(parse_u64("abc"), None);
}

#[test]
fn parse_u64_reads_back_what_was_written() {
    for n in [0u64, 1, 9, 10, 99, 100, 12345, 4_294_967_296, u64::MAX - 1, u64::MAX] {
        assert_eq!(parse_u64(&u64_to_string(n)), Some(n));
    }
}

#[test]
fn chars_and_strings_convert_both_ways() {
    let s = "pubkey@host:port é";
    let chars = chars_of(s);
    assert_eq!(chars.len(), 18);
    assert_eq!(string_of(&chars), s);
}

#[test]
fn join_puts_texts_in_a_row() {
    assert_eq!(join2("ab", "cd"), "abcd");
    assert_eq!(join3("ab", "", "cd"), "abcd");
}

#[test]
fn cut_splits_at_the_first_separator() {
    let (head, rest) = cut(&chars_of("a@b@c"), '@');
    assert_eq!(string_of(&head), "a");
    assert_eq!(string_of(&rest.unwrap()), "b@c");
    let (head, rest) = cut(&chars_of("abc"), '@');
    assert_eq!(string_of(&head), "abc");
    assert!(rest.is_none());
    let (head, rest) = cut(&chars_of("abc@"), '@');
    assert_eq!(string_of(&head), "abc");
    assert_eq!(string_of(&rest.unwrap()), "");
}

#[test]
fn text_is_compares_whole_texts() {
    assert!(text_is("true", "true"));
    assert!(!text_is("True", "true"));
    assert!(!text_is("true ", "true"));
}

#[test]
fn btc_amount_writes_eight_decimals() {
    assert_eq!(btc_amount(100_000), "0.00100000");
    assert_eq!(btc_amount(0), "0.00000000");
    assert_eq!(btc_amount(1), "0.00000001");
    assert_eq!(btc_amount(100_000_000), "1.00000000");
    assert_eq!(btc_amount(2_100_000_000_000_000), "21000000.00000000");
    assert_eq!(btc_amount(123_456_789), "1.23456789");
    assert_eq!(btc_amount(u64::MAX), "184467440737.09551615");
}
