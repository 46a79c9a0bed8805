use demo_runner::render::{base_u32, base_u64, bool_str, dec_i32, dec_u32, dec_u64, padded_base_u32};

#[test]
fn decimal_of_zero() {
    assert_eq!(dec_u64(0), "0");
    assert_eq!(dec_u32(0), "0");
    assert_eq!(dec_i32(0), "0");
}

#[test]
fn decimal_of_small_numbers() {
    assert_eq!(dec_u64(3), "3");
    assert_eq!(dec_u32(32), "32");
    assert_eq!(dec_u64(1234567), "1234567");
}

#[test]
fn decimal_of_largest_values() {
    assert_eq!(dec_u64(u64::MAX), "18446744073709551615");
    assert_eq!(dec_u32(u32::MAX), "4294967295");
}

#[test]
fn signed_decimal() {
    assert_eq!(dec_i32(-1), "-1");
    assert_eq!(dec_i32(-42), "-42");
    assert_eq!(dec_i32(7), "7");
    assert_eq!(dec_i32(i32::MIN), "-2147483648");
    assert_eq!(dec_i32(i32::MAX), "2147483647");
}

#[test]
fn hexadecimal() {
    assert_eq!(base_u32(0x20, 16), "20");
    assert_eq!(base_u32(255, 16), "ff");
    assert_eq!(base_u64(0xdeadbeef, 16), "deadbeef");
}

#[test]
fn octal() {
    assert_eq!(base_u32(10, 8), "12");
    assert_eq!(base_u32(0, 8), "0");
}

#[test]
fn binary_with_padding() {
    assert_eq!(padded_base_u32(1, 2, 4), "0001");
    assert_eq!(padded_base_u32(7, 2, 4), "0111");
    assert_eq!(padded_base_u32(6, 2, 4), "0110");
    assert_eq!(padded_base_u32(0, 2, 4), "0000");
}

#[test]
fn padding_never_truncates() {
    assert_eq!(padded_base_u32(32, 2, 4), "100000");
    assert_eq!(padded_base_u32(9, 10, 1), "9");
}

#[test]
fn boolean_words() {
    assert_eq!(bool_str(true), "true");
    assert_eq!(bool_str(false), "false");
}
