use context_error::layout::{count_digits, least_indentation, measure_lines};

#[test]
fn lines_are_measured_without_their_endings() {
    assert_eq!(measure_lines(""), (0, 0));
    assert_eq!(measure_lines("abc"), (3, 1));
    assert_eq!(measure_lines("abc\n"), (3, 1));
    assert_eq!(measure_lines("abc\r\n"), (3, 1));
    assert_eq!(measure_lines("abc\r"), (4, 1));
    assert_eq!(measure_lines("\n"), (0, 1));
    assert_eq!(measure_lines("\r\n"), (0, 1));
    assert_eq!(measure_lines("a\nbcd\r\nef"), (3, 3));
    assert_eq!(measure_lines("\u{e9}\n\n"), (2, 2));
}

#[test]
fn least_indentation_skips_blank_lines() {
    assert_eq!(least_indentation(""), Some(usize::MAX));
    assert_eq!(least_indentation("   \n\t\n"), Some(usize::MAX));
    assert_eq!(least_indentation("abc"), Some(0));
    assert_eq!(least_indentation("    a\n  b\n   \n      c"), Some(2));
    assert_eq!(least_indentation("\ta\n \t b"), Some(4));
    assert_eq!(least_indentation("  \r\n   x  y"), Some(3));
    assert_eq!(least_indentation("\u{a0}\u{2003}x"), Some(2));
}

#[test]
fn digits_are_counted() {
    assert_eq!(count_digits(0), 1);
    assert_eq!(count_digits(9), 1);
    assert_eq!(count_digits(10), 2);
    assert_eq!(count_digits(999), 3);
    assert_eq!(count_digits(1000), 4);
    assert_eq!(count_digits(usize::MAX), usize::MAX.to_string().len());
}
