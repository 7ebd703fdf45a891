use rig_code::decimal::{format_number, push_decimal, push_signed};

fn separators_from_the_right(n: u64) -> String {
    let digits = n.to_string();
    let mut reversed = String::new();
    for (i, c) in digits.chars().rev().enumerate() {
        if i > 0 && i % 3 == 0 {
            reversed.push(',');
        }
        reversed.push(c);
    }
    reversed.chars().rev().collect()
}

#[test]
fn format_number_below_one_thousand_has_no_separator() {
    assert_eq!(format_number(0), "0");
    assert_eq!(format_number(7), "7");
    assert_eq!(format_number(10), "10");
    assert_eq!(format_number(100), "100");
    assert_eq!(format_number(999), "999");
}

#[test]
fn format_number_groups_by_three_from_the_right() {
    assert_eq!(format_number(1000), "1,000");
    assert_eq!(format_number(1001), "1,001");
    assert_eq!(format_number(12345), "12,345");
    assert_eq!(format_number(123456), "123,456");
    assert_eq!(format_number(1234567), "1,234,567");
    assert_eq!(format_number(1000000), "1,000,000");
    assert_eq!(format_number(1000000000), "1,000,000,000");
}

#[test]
fn format_number_keeps_zeros_inside_a_group() {
    assert_eq!(format_number(1_000_001), "1,000,001");
    assert_eq!(format_number(5_040_300), "5,040,300");
    assert_eq!(format_number(10_010), "10,010");
}

#[test]
fn format_number_of_the_largest_value() {
    assert_eq!(format_number(u64::MAX), "18,446,744,073,709,551,615");
}

#[test]
fn format_number_agrees_with_separators_placed_from_the_right() {
    let mut n: u64 = 0;
    let mut step: u64 = 1;
    while n < u64::MAX / 3 {
        assert_eq!(format_number(n), separators_from_the_right(n));
        n += step;
        step = step * 3 + 1;
    }
    for n in 990..1010 {
        assert_eq!(format_number(n), separators_from_the_right(n));
    }
    for n in 999_990..1_000_010 {
        assert_eq!(format_number(n), separators_from_the_right(n));
    }
}

#[test]
fn format_number_without_commas_is_the_plain_number() {
    for n in [0u64, 9, 10, 999, 1000, 65_535, 4_294_967_296, u64::MAX] {
        let plain: String = format_number(n).chars().filter(|c| *c != ',').collect();
        assert_eq!(plain, n.to_string());
    }
}

#[test]
fn push_decimal_appends_to_what_is_there() {
    let mut out = String::from("x");
    push_decimal(&mut out, 1234);
    assert_eq!(out, "x1234");
    push_decimal(&mut out, 0);
    assert_eq!(out, "x12340");
    push_decimal(&mut out, u64::MAX);
    assert_eq!(out, "x1234018446744073709551615");
}

#[test]
fn push_signed_writes_a_minus_sign_before_a_negative_number() {
    let mut out = String::new();
    push_signed(&mut out, -1);
    assert_eq!(out, "-1");
    let mut out = String::new();
    push_signed(&mut out, 0);
    assert_eq!(out, "0");
    let mut out = String::new();
    push_signed(&mut out, 255);
    assert_eq!(out, "255");
    let mut out = String::new();
    push_signed(&mut out, i64::MIN);
    assert_eq!(out, "-9223372036854775808");
    let mut out = String::new();
    push_signed(&mut out, i64::MAX);
    assert_eq!(out, "9223372036854775807");
}
