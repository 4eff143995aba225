use flt_terminal::text::{append_decimal, append_signed_decimal};

fn decimal_string(n: usize) -> String {
    let mut text = String::new();
    append_decimal(&mut text, n);
    text
}

#[test]
fn decimal_of_single_digits() {
    let digits = ["0", "1", "2", "3", "4", "5", "6", "7", "8", "9"];
    for (n, digit) in digits.iter().enumerate() {
        assert_eq!(decimal_string(n), *digit);
    }
}

#[test]
fn decimal_of_longer_numbers() {
    assert_eq!(decimal_string(10), "10");
    assert_eq!(decimal_string(99), "99");
    assert_eq!(decimal_string(100), "100");
    assert_eq!(decimal_string(4096), "4096");
    assert_eq!(decimal_string(1_000_000_007), "1000000007");
}

#[test]
fn decimal_of_the_largest_number() {
    assert_eq!(decimal_string(usize::MAX), format!("{}", usize::MAX));
}

#[test]
fn decimal_agrees_with_the_standard_formatting() {
    for n in 0usize..5000 {
        assert_eq!(decimal_string(n), format!("{}", n));
    }
}

#[test]
fn decimal_is_appended_to_what_is_there() {
    let mut text = String::from("s=");
    append_decimal(&mut text, 640);
    assert_eq!(text, "s=640");
    append_decimal(&mut text, 0);
    assert_eq!(text, "s=6400");
}

#[test]
fn signed_decimal_of_negative_numbers_has_a_minus_sign() {
    let mut text = String::new();
    append_signed_decimal(&mut text, -1);
    assert_eq!(text, "-1");
    let mut text = String::from("x=");
    append_signed_decimal(&mut text, -250);
    assert_eq!(text, "x=-250");
}

#[test]
fn signed_decimal_of_other_numbers_has_no_sign() {
    let mut text = String::new();
    append_signed_decimal(&mut text, 0);
    assert_eq!(text, "0");
    let mut text = String::new();
    append_signed_decimal(&mut text, 37);
    assert_eq!(text, "37");
}

#[test]
fn signed_decimal_of_the_extremes() {
    let mut text = String::new();
    append_signed_decimal(&mut text, isize::MIN);
    assert_eq!(text, format!("{}", isize::MIN));
    let mut text = String::new();
    append_signed_decimal(&mut text, isize::MAX);
    assert_eq!(text, format!("{}", isize::MAX));
}

#[test]
fn signed_decimal_agrees_with_the_standard_formatting() {
    for n in -2000isize..2000 {
        let mut text = String::new();
        append_signed_decimal(&mut text, n);
        assert_eq!(text, format!("{}", n));
    }
}
