use api_scaffold::count::{count_or_default, format_count, parse_count};

#[test]
fn digits_are_read_as_a_count() {
    assert_eq!(parse_count("0"), Some(0));
    assert_eq!(parse_count("7"), Some(7));
    assert_eq!(parse_count("12"), Some(12));
    assert_eq!(parse_count("4096"), Some(4096));
    assert_eq!(parse_count("007"), Some(7));
    assert_eq!(parse_count("000"), Some(0));
}

#[test]
fn one_leading_plus_is_accepted() {
    assert_eq!(parse_count("+7"), Some(7));
    assert_eq!(parse_count("+0"), Some(0));
    assert_eq!(parse_count("++7"), None);
    assert_eq!(parse_count("+"), None);
    assert_eq!(parse_count("7+"), None);
}

#[test]
fn anything_else_is_no_count() {
    let samples = [
        "", " ", "-1", "1.0", "1e3", "0x10", "12a", "a12", " 12", "12 ", "1 2", "１２", "٣", "1\n",
    ];
    for text in samples {
        assert_eq!(parse_count(text), None, "{:?}", text);
    }
}

#[test]
fn count_must_fit() {
    let max = usize::MAX.to_string();
    assert_eq!(parse_count(&max), Some(usize::MAX));
    assert_eq!(parse_count(&format!("+{}", max)), Some(usize::MAX));
    assert_eq!(parse_count(&format!("{}0", max)), None);
    let mut above = max.clone().into_bytes();
    let last = above.len() - 1;
    above[last] += 1;
    assert_eq!(parse_count(&String::from_utf8(above).unwrap()), None);
    assert_eq!(parse_count("340282366920938463463374607431768211456"), None);
}

#[test]
fn parse_count_agrees_with_the_standard_parser() {
    let samples = [
        "", "+", "-", "0", "+0", "-0", "1", "+1", "-1", "10", "0010", "+0010", "99", "1_000",
        "１", "1١", "18446744073709551615", "18446744073709551616", "4294967295", "4294967296",
        "  5", "5  ", "+-5", "5+",
    ];
    for text in samples {
        assert_eq!(parse_count(text), text.parse::<usize>().ok(), "{:?}", text);
    }
}

#[test]
fn default_stands_in_for_what_is_no_count() {
    assert_eq!(count_or_default("5", 2), 5);
    assert_eq!(count_or_default("0", 2), 0);
    assert_eq!(count_or_default("", 2), 2);
    assert_eq!(count_or_default("five", 2), 2);
    assert_eq!(count_or_default("-5", 9), 9);
}

#[test]
fn count_is_written_in_decimal() {
    assert_eq!(format_count(0), "0");
    assert_eq!(format_count(7), "7");
    assert_eq!(format_count(10), "10");
    assert_eq!(format_count(305), "305");
    assert_eq!(format_count(1000), "1000");
    assert_eq!(format_count(usize::MAX), usize::MAX.to_string());
}

#[test]
fn written_count_is_read_back() {
    let mut n: usize = 0;
    while n < 2000 {
        assert_eq!(parse_count(&format_count(n)), Some(n));
        assert_eq!(format_count(n), n.to_string());
        n += 1;
    }
    for n in [usize::MAX, usize::MAX - 1, usize::MAX / 10, usize::MAX / 10 + 1] {
        assert_eq!(parse_count(&format_count(n)), Some(n));
    }
}
