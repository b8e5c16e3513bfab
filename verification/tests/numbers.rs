use regex_capture::number::{parse_signed, parse_unsigned};
use regex_capture::value::{parse_as, parse_flag};
use regex_capture::{Kind, NumberFault, Reason, Value};

#[test]
fn unsigned_reads_plain_digits() {
    assert_eq!(parse_unsigned("15"), Ok(15));
    assert_eq!(parse_unsigned("0"), Ok(0));
    assert_eq!(parse_unsigned("14"), Ok(14));
    assert_eq!(parse_unsigned("120"), Ok(120));
}

#[test]
fn unsigned_takes_a_plus_and_leading_zeros() {
    assert_eq!(parse_unsigned("+7"), Ok(7));
    assert_eq!(parse_unsigned("007"), Ok(7));
    assert_eq!(parse_unsigned("+0000000000000000000000000000042"), Ok(42));
}

#[test]
fn unsigned_reaches_its_largest_value_and_no_further() {
    assert_eq!(parse_unsigned("4294967295"), Ok(u32::MAX));
    assert_eq!(parse_unsigned("4294967296"), Err(NumberFault::TooLarge));
    assert_eq!(parse_unsigned("4294967300"), Err(NumberFault::TooLarge));
    assert_eq!(
        parse_unsigned("99999999999999999999999999999999999999999999"),
        Err(NumberFault::TooLarge)
    );
}

#[test]
fn unsigned_refuses_what_is_no_number() {
    assert_eq!(parse_unsigned(""), Err(NumberFault::Empty));
    assert_eq!(parse_unsigned("+"), Err(NumberFault::InvalidDigit));
    assert_eq!(parse_unsigned("-"), Err(NumberFault::InvalidDigit));
    assert_eq!(parse_unsigned("-1"), Err(NumberFault::InvalidDigit));
    assert_eq!(parse_unsigned("-0"), Err(NumberFault::InvalidDigit));
    assert_eq!(parse_unsigned("abc"), Err(NumberFault::InvalidDigit));
    assert_eq!(parse_unsigned("1a"), Err(NumberFault::InvalidDigit));
    assert_eq!(parse_unsigned(" 1"), Err(NumberFault::InvalidDigit));
    assert_eq!(parse_unsigned("1 "), Err(NumberFault::InvalidDigit));
    assert_eq!(parse_unsigned("++1"), Err(NumberFault::InvalidDigit));
    assert_eq!(parse_unsigned("1+"), Err(NumberFault::InvalidDigit));
    assert_eq!(parse_unsigned("\u{0661}"), Err(NumberFault::InvalidDigit));
    assert_eq!(parse_unsigned("9999999999999999999x"), Err(NumberFault::InvalidDigit));
}

#[test]
fn signed_reads_both_signs() {
    assert_eq!(parse_signed("15"), Ok(15));
    assert_eq!(parse_signed("+15"), Ok(15));
    assert_eq!(parse_signed("-15"), Ok(-15));
    assert_eq!(parse_signed("-0"), Ok(0));
    assert_eq!(parse_signed("-007"), Ok(-7));
}

#[test]
fn signed_reaches_both_ends_and_no_further() {
    assert_eq!(parse_signed("2147483647"), Ok(i32::MAX));
    assert_eq!(parse_signed("2147483648"), Err(NumberFault::TooLarge));
    assert_eq!(parse_signed("-2147483648"), Ok(i32::MIN));
    assert_eq!(parse_signed("-2147483649"), Err(NumberFault::TooSmall));
    assert_eq!(parse_signed("-99999999999999999999999"), Err(NumberFault::TooSmall));
    assert_eq!(parse_signed("+99999999999999999999999"), Err(NumberFault::TooLarge));
}

#[test]
fn signed_refuses_what_is_no_number() {
    assert_eq!(parse_signed(""), Err(NumberFault::Empty));
    assert_eq!(parse_signed("-"), Err(NumberFault::InvalidDigit));
    assert_eq!(parse_signed("+"), Err(NumberFault::InvalidDigit));
    assert_eq!(parse_signed("--1"), Err(NumberFault::InvalidDigit));
    assert_eq!(parse_signed("+-1"), Err(NumberFault::InvalidDigit));
    assert_eq!(parse_signed("1-"), Err(NumberFault::InvalidDigit));
    assert_eq!(parse_signed("- 1"), Err(NumberFault::InvalidDigit));
}

#[test]
fn numbers_are_accepted_as_the_standard_library_accepts_them() {
    let samples = [
        "", "0", "1", "15", "+15", "-15", "+", "-", "00", "+00", "-00", "4294967295",
        "4294967296", "2147483647", "2147483648", "-2147483648", "-2147483649", "1_000", "1e3",
        "0x10", " 7", "7 ", "7\n", "++7", "--7", "+-7", "١٢٣", "12345678901234567890", "٣",
    ];
    for text in samples {
        assert_eq!(parse_unsigned(text).ok(), text.parse::<u32>().ok());
        assert_eq!(parse_signed(text).ok(), text.parse::<i32>().ok());
    }
}

#[test]
fn flag_is_true_or_false_and_nothing_else() {
    assert_eq!(parse_flag("true"), Some(true));
    assert_eq!(parse_flag("false"), Some(false));
    assert_eq!(parse_flag("True"), None);
    assert_eq!(parse_flag("1"), None);
    assert_eq!(parse_flag(""), None);
    assert_eq!(parse_flag("true "), None);
}

#[test]
fn each_kind_reads_its_own_notation() {
    assert_eq!(parse_as::<()>(Kind::Text, "Chihaya Anon"), Ok(Value::Text("Chihaya Anon".to_string())));
    assert_eq!(parse_as::<()>(Kind::Text, ""), Ok(Value::Text(String::new())));
    assert_eq!(parse_as::<()>(Kind::Unsigned, "15"), Ok(Value::Unsigned(15)));
    assert_eq!(parse_as::<()>(Kind::Signed, "-15"), Ok(Value::Signed(-15)));
    assert_eq!(parse_as::<()>(Kind::Flag, "true"), Ok(Value::Flag(true)));
}

#[test]
fn each_kind_says_why_it_refuses() {
    assert_eq!(
        parse_as::<()>(Kind::Unsigned, "abc"),
        Err(Reason::Number(NumberFault::InvalidDigit))
    );
    assert_eq!(parse_as::<()>(Kind::Unsigned, ""), Err(Reason::Number(NumberFault::Empty)));
    assert_eq!(
        parse_as::<()>(Kind::Unsigned, "4294967296"),
        Err(Reason::Number(NumberFault::TooLarge))
    );
    assert_eq!(
        parse_as::<()>(Kind::Signed, "-2147483649"),
        Err(Reason::Number(NumberFault::TooSmall))
    );
    assert_eq!(parse_as::<()>(Kind::Flag, "yes"), Err(Reason::NotBoolean));
}
