use grid_node::decimal::{format_decimal, read_decimal};

fn std_parse(text: &str) -> Option<i32> {
    text.parse::<i32>().ok()
}

#[test]
fn format_writes_plain_decimal() {
    assert_eq!(format_decimal(0), b"0".to_vec());
    assert_eq!(format_decimal(7), b"7".to_vec());
    assert_eq!(format_decimal(-7), b"-7".to_vec());
    assert_eq!(format_decimal(10), b"10".to_vec());
    assert_eq!(format_decimal(42), b"42".to_vec());
    assert_eq!(format_decimal(-100), b"-100".to_vec());
    assert_eq!(format_decimal(1_000_000), b"1000000".to_vec());
}

#[test]
fn format_handles_the_ends_of_the_range() {
    assert_eq!(format_decimal(i32::MAX), b"2147483647".to_vec());
    assert_eq!(format_decimal(i32::MIN), b"-2147483648".to_vec());
    assert_eq!(format_decimal(i32::MIN + 1), b"-2147483647".to_vec());
}

#[test]
fn format_agrees_with_the_standard_library() {
    let mut v: i64 = i32::MIN as i64;
    while v <= i32::MAX as i64 {
        let value = v as i32;
        assert_eq!(format_decimal(value), value.to_string().into_bytes());
        v += 7_919_113;
    }
    for value in -1100..1100 {
        assert_eq!(format_decimal(value), value.to_string().into_bytes());
    }
}

#[test]
fn read_takes_digits_with_an_optional_sign() {
    assert_eq!(read_decimal(b"0"), Some(0));
    assert_eq!(read_decimal(b"42"), Some(42));
    assert_eq!(read_decimal(b"-42"), Some(-42));
    assert_eq!(read_decimal(b"+42"), Some(42));
    assert_eq!(read_decimal(b"-0"), Some(0));
    assert_eq!(read_decimal(b"+0"), Some(0));
    assert_eq!(read_decimal(b"007"), Some(7));
    assert_eq!(read_decimal(b"-007"), Some(-7));
}

#[test]
fn read_takes_the_ends_of_the_range_and_nothing_beyond() {
    assert_eq!(read_decimal(b"2147483647"), Some(i32::MAX));
    assert_eq!(read_decimal(b"-2147483648"), Some(i32::MIN));
    assert_eq!(read_decimal(b"2147483648"), None);
    assert_eq!(read_decimal(b"+2147483648"), None);
    assert_eq!(read_decimal(b"-2147483649"), None);
    assert_eq!(read_decimal(b"99999999999999999999999999999999"), None);
    assert_eq!(read_decimal(b"-99999999999999999999999999999999"), None);
    assert_eq!(read_decimal(b"0000000000000000000000000000002147483647"), Some(i32::MAX));
}

#[test]
fn read_refuses_what_is_no_number() {
    assert_eq!(read_decimal(b""), None);
    assert_eq!(read_decimal(b"-"), None);
    assert_eq!(read_decimal(b"+"), None);
    assert_eq!(read_decimal(b"--1"), None);
    assert_eq!(read_decimal(b"+-1"), None);
    assert_eq!(read_decimal(b"1-"), None);
    assert_eq!(read_decimal(b"12a"), None);
    assert_eq!(read_decimal(b"a12"), None);
    assert_eq!(read_decimal(b" 12"), None);
    assert_eq!(read_decimal(b"12 "), None);
    assert_eq!(read_decimal(b"12\n"), None);
    assert_eq!(read_decimal(b"1.5"), None);
    assert_eq!(read_decimal(b"0x10"), None);
    assert_eq!(read_decimal(b"GET"), None);
    assert_eq!(read_decimal(&[0x31, 0xff]), None);
    assert_eq!(read_decimal(b"99999999999999999999x"), None);
}

#[test]
fn read_agrees_with_the_standard_library() {
    let texts = [
        "", "0", "-0", "+0", "1", "-1", "+1", "00", "-00", "010", "2147483647", "2147483648",
        "-2147483648", "-2147483649", "4294967296", "-", "+", "++1", "1+", "1 ", " 1", "1_000",
        "1e3", "12345678901", "-12345678901", "000000000000000", "9", "/", ":", "٣",
    ];
    for text in texts {
        assert_eq!(read_decimal(text.as_bytes()), std_parse(text), "text {:?}", text);
    }
}

#[test]
fn reading_back_what_was_written_gives_the_value() {
    let mut v: i64 = i32::MIN as i64;
    while v <= i32::MAX as i64 {
        let value = v as i32;
        assert_eq!(read_decimal(&format_decimal(value)), Some(value));
        v += 3_999_971;
    }
    for value in [i32::MIN, i32::MIN + 1, -1, 0, 1, i32::MAX - 1, i32::MAX] {
        assert_eq!(read_decimal(&format_decimal(value)), Some(value));
    }
}
