use mir_cfg::decimal::{decimal_string, push_decimal};

#[test]
fn zero_is_a_single_digit() {
    assert_eq!(decimal_string(0), "0");
}

#[test]
fn single_digits() {
    let digits = ["0", "1", "2", "3", "4", "5", "6", "7", "8", "9"];
    for (n, digit) in digits.iter().enumerate() {
        assert_eq!(decimal_string(n as u64), *digit);
    }
}

#[test]
fn powers_of_ten_keep_their_zeros() {
    assert_eq!(decimal_string(10), "10");
    assert_eq!(decimal_string(100), "100");
    assert_eq!(decimal_string(1000), "1000");
    assert_eq!(decimal_string(10_000_000_000), "10000000000");
}

#[test]
fn largest_values() {
    assert_eq!(decimal_string(u32::MAX as u64), "4294967295");
    assert_eq!(decimal_string(u64::MAX), "18446744073709551615");
}

#[test]
fn agrees_with_the_standard_formatting() {
    let samples: [u64; 9] = [0, 7, 42, 99, 101, 65_535, 123_456_789, 9_007_199_254_740_993, u64::MAX - 1];
    for n in samples.iter() {
        assert_eq!(decimal_string(*n), format!("{}", n));
    }
}

#[test]
fn push_decimal_appends_after_what_is_there() {
    let mut out = String::from("bb");
    push_decimal(&mut out, 305);
    assert_eq!(out, "bb305");
    push_decimal(&mut out, 0);
    assert_eq!(out, "bb3050");
}

#[test]
fn different_numbers_have_different_numerals() {
    let numbers: [u64; 8] = [0, 1, 9, 10, 11, 100, 101, 110];
    for (i, a) in numbers.iter().enumerate() {
        for (j, b) in numbers.iter().enumerate() {
            assert_eq!(decimal_string(*a) == decimal_string(*b), i == j);
        }
    }
}

#[test]
fn numerals_hold_digits_only() {
    for n in [0u64, 5, 60, 700, 8_000_000, u64::MAX].iter() {
        let s = decimal_string(*n);
        assert!(!s.is_empty());
        assert!(s.chars().all(|c| c.is_ascii_digit()));
        assert!(s == "0" || !s.starts_with('0'));
    }
}
