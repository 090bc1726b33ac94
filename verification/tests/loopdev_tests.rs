use switchroot::digits::decimal_bytes;
use switchroot::loopdev::loop_device_path;

#[test]
fn index_zero_derives_loop0() {
    assert_eq!(loop_device_path(0), b"/dev/loop0".to_vec());
}

#[test]
fn index_seven_derives_loop7() {
    assert_eq!(loop_device_path(7), b"/dev/loop7".to_vec());
}

#[test]
fn multi_digit_indexes_derive_in_full() {
    assert_eq!(loop_device_path(15), b"/dev/loop15".to_vec());
    assert_eq!(loop_device_path(123), b"/dev/loop123".to_vec());
}

#[test]
fn decimal_of_zero_is_one_digit() {
    assert_eq!(decimal_bytes(0), b"0".to_vec());
}

#[test]
fn decimal_of_round_numbers_keeps_zeros() {
    assert_eq!(decimal_bytes(100), b"100".to_vec());
    assert_eq!(decimal_bytes(1000000), b"1000000".to_vec());
}

#[test]
fn decimal_of_largest_u64() {
    assert_eq!(decimal_bytes(u64::MAX), b"18446744073709551615".to_vec());
}
