use sumstring::decimal::usize_to_decimal;
use sumstring::sum_as_string;

#[test]
fn zero_plus_zero() {
    assert_eq!(sum_as_string(0, 0), "0");
}

#[test]
fn two_plus_two() {
    assert_eq!(sum_as_string(2, 2), "4");
}

#[test]
fn max_plus_zero() {
    assert_eq!(sum_as_string(usize::MAX, 0), usize::MAX.to_string());
}

#[test]
fn max_plus_one_wraps_to_zero() {
    assert_eq!(sum_as_string(usize::MAX, 1), "0");
}

#[test]
fn max_plus_two_wraps_to_one() {
    assert_eq!(sum_as_string(usize::MAX, 2), "1");
}

#[test]
fn parses_back_to_exact_sum() {
    let s = sum_as_string(123, 456);
    assert_eq!(s, "579");
    assert_eq!(s.parse::<usize>().unwrap(), 579);
}

#[test]
fn commutes_on_sample_pairs() {
    assert_eq!(sum_as_string(17, 25), sum_as_string(25, 17));
    assert_eq!(sum_as_string(0, usize::MAX), sum_as_string(usize::MAX, 0));
    assert_eq!(sum_as_string(1, 2), sum_as_string(2, 1));
}

#[test]
fn carries_across_digit_boundaries() {
    assert_eq!(sum_as_string(9, 1), "10");
    assert_eq!(sum_as_string(99999, 1), "100000");
    assert_eq!(sum_as_string(500, 501), "1001");
}

#[test]
fn no_leading_zeros_or_signs() {
    let s = sum_as_string(7, 100);
    assert_eq!(s, "107");
    assert!(s.chars().all(|c| c.is_ascii_digit()));
    assert!(!s.starts_with('0'));
}

#[test]
fn formats_zero() {
    assert_eq!(usize_to_decimal(0), "0");
}

#[test]
fn formats_single_and_multi_digit() {
    assert_eq!(usize_to_decimal(7), "7");
    assert_eq!(usize_to_decimal(10), "10");
    assert_eq!(usize_to_decimal(12345), "12345");
}

#[test]
fn formats_max() {
    assert_eq!(usize_to_decimal(usize::MAX), usize::MAX.to_string());
}
