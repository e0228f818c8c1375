use budget_service::text::{i32_text, u64_text};

#[test]
fn zero_is_a_single_digit() {
    assert_eq!(u64_text(0), "0");
    assert_eq!(i32_text(0), "0");
}

#[test]
fn single_digits_are_written_as_themselves() {
    let expected = ["0", "1", "2", "3", "4", "5", "6", "7", "8", "9"];
    for (n, text) in expected.iter().enumerate() {
        assert_eq!(u64_text(n as u64), *text);
    }
}

#[test]
fn digits_come_out_most_significant_first() {
    assert_eq!(u64_text(10), "10");
    assert_eq!(u64_text(12), "12");
    assert_eq!(u64_text(907), "907");
    assert_eq!(u64_text(1_000_000), "1000000");
}

#[test]
fn largest_unsigned_number_is_written_in_full() {
    assert_eq!(u64_text(u64::MAX), "18446744073709551615");
}

#[test]
fn negative_numbers_carry_a_minus_sign() {
    assert_eq!(i32_text(-1), "-1");
    assert_eq!(i32_text(-12), "-12");
    assert_eq!(i32_text(42), "42");
}

#[test]
fn extremes_of_signed_numbers_are_written_in_full() {
    assert_eq!(i32_text(i32::MAX), "2147483647");
    assert_eq!(i32_text(i32::MIN), "-2147483648");
}

#[test]
fn text_agrees_with_the_standard_formatting() {
    let unsigned: [u64; 8] = [0, 9, 10, 99, 100, 4096, 1_234_567_890, u64::MAX - 1];
    for n in unsigned {
        assert_eq!(u64_text(n), format!("{}", n));
    }
    let signed: [i32; 8] = [0, -9, 10, -99, 100, -4096, 1_234_567_890, i32::MIN + 1];
    for i in signed {
        assert_eq!(i32_text(i), format!("{}", i));
    }
}
