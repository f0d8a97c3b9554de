use cute::text::{parse_usize, usize_to_string, NumberError};

#[test]
fn parse_usize_reads_plain_digits() {
    assert_eq!(parse_usize("5"), Ok(5));
    assert_eq!(parse_usize("+42"), Ok(42));
    assert_eq!(parse_usize("007"), Ok(7));
}

#[test]
fn parse_usize_rejects_what_is_no_number() {
    assert_eq!(parse_usize(""), Err(NumberError::Empty));
    assert_eq!(parse_usize("+"), Err(NumberError::InvalidDigit));
    assert_eq!(parse_usize("abc"), Err(NumberError::InvalidDigit));
    assert_eq!(parse_usize("-1"), Err(NumberError::InvalidDigit));
    assert_eq!(parse_usize("1 "), Err(NumberError::InvalidDigit));
    assert_eq!(
        parse_usize("99999999999999999999999999999999999999999"),
        Err(NumberError::PosOverflow)
    );
}

#[test]
fn usize_to_string_writes_decimal_notation() {
    assert_eq!(usize_to_string(0), "0");
    assert_eq!(usize_to_string(9), "9");
    assert_eq!(usize_to_string(10), "10");
    assert_eq!(usize_to_string(40213), "40213");
    assert_eq!(usize_to_string(usize::MAX), usize::MAX.to_string());
}

#[test]
fn parse_usize_reads_the_largest_number() {
    let max = usize::MAX.to_string();
    assert_eq!(parse_usize(&max), Ok(usize::MAX));
    let mut above = max.clone();
    above.push('0');
    assert_eq!(parse_usize(&above), Err(NumberError::PosOverflow));
}

#[test]
fn parse_usize_refuses_a_letter_after_too_many_digits() {
    assert_eq!(
        parse_usize("99999999999999999999999999999999999999999x"),
        Err(NumberError::InvalidDigit)
    );
}

#[test]
fn parse_usize_reads_back_what_usize_to_string_writes() {
    for n in [0usize, 1, 9, 10, 99, 100, 65535, 4294967295] {
        assert_eq!(parse_usize(&usize_to_string(n)), Ok(n));
    }
}
