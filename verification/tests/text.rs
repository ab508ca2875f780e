use todo_list::text::{chars_of, decimal_string, parse_id, parse_id_from};

#[test]
fn chars_of_gives_every_character() {
    assert_eq!(chars_of("a→b"), vec!['a', '→', 'b']);
    assert_eq!(chars_of(""), Vec::<char>::new());
}

#[test]
fn decimal_string_of_small_numbers() {
    assert_eq!(decimal_string(0), "0");
    assert_eq!(decimal_string(7), "7");
    assert_eq!(decimal_string(10), "10");
    assert_eq!(decimal_string(909), "909");
}

#[test]
fn decimal_string_of_the_largest_number() {
    assert_eq!(decimal_string(u64::MAX), "18446744073709551615");
}

#[test]
fn decimal_string_agrees_with_std() {
    let mut n: u64 = 1;
    for _ in 0..64 {
        assert_eq!(decimal_string(n), n.to_string());
        assert_eq!(decimal_string(n - 1), (n - 1).to_string());
        n = n.wrapping_mul(2);
    }
}

#[test]
fn parse_id_reads_digits() {
    assert_eq!(parse_id("0"), Some(0));
    assert_eq!(parse_id("3"), Some(3));
    assert_eq!(parse_id("42"), Some(42));
    assert_eq!(parse_id("007"), Some(7));
}

#[test]
fn parse_id_accepts_one_plus_sign() {
    assert_eq!(parse_id("+5"), Some(5));
    assert_eq!(parse_id("+"), None);
    assert_eq!(parse_id("++5"), None);
    assert_eq!(parse_id("5+"), None);
}

#[test]
fn parse_id_rejects_what_is_no_number() {
    assert_eq!(parse_id(""), None);
    assert_eq!(parse_id("abc"), None);
    assert_eq!(parse_id("-1"), None);
    assert_eq!(parse_id(" 3"), None);
    assert_eq!(parse_id("3 "), None);
    assert_eq!(parse_id("3 4"), None);
    assert_eq!(parse_id("1.5"), None);
    assert_eq!(parse_id("٣"), None);
    assert_eq!(parse_id("1_000"), None);
}

#[test]
fn parse_id_stops_at_the_largest_number() {
    assert_eq!(parse_id("18446744073709551615"), Some(u64::MAX));
    assert_eq!(parse_id("18446744073709551616"), None);
    assert_eq!(parse_id("18446744073709551620"), None);
    assert_eq!(parse_id("99999999999999999999"), None);
    assert_eq!(parse_id("184467440737095516150"), None);
    assert_eq!(parse_id("000000000000000000000018446744073709551615"), Some(u64::MAX));
}

#[test]
fn parse_id_agrees_with_std() {
    let tokens = [
        "", "0", "1", "+1", "-1", "+", "-", "++1", "+-1", "12a", "a12", " 12", "12 ", "1 2",
        "00", "0x10", "1e3", "18446744073709551615", "18446744073709551616",
        "+18446744073709551615", "٣", "１２", "12\n", "\t12",
    ];
    for token in tokens {
        assert_eq!(parse_id(token), token.parse::<u64>().ok(), "token {:?}", token);
    }
}

#[test]
fn parse_id_from_reads_the_tail() {
    let chars = chars_of("c 31");
    assert_eq!(parse_id_from(&chars, 2), Some(31));
    assert_eq!(parse_id_from(&chars, 1), None);
    assert_eq!(parse_id_from(&chars, 3), Some(1));
    assert_eq!(parse_id_from(&chars, 4), None);
}

#[test]
fn numeral_round_trip() {
    for n in [0u64, 1, 9, 10, 99, 100, 12345, u64::MAX - 1, u64::MAX] {
        assert_eq!(parse_id(&decimal_string(n)), Some(n));
    }
}
