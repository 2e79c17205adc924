use lnnode::hex_utils::{hex_str, to_vec};

#[test]
fn hex_str_writes_two_lower_case_digits_per_byte() {
    assert_eq!(hex_str(&[0x00, 0x0f, 0xa5, 0xff]), "000fa5ff");
    assert_eq!(hex_str(&[]), "");
}

#[test]
fn to_vec_reads_both_cases() {
    assert_eq!(to_vec("000fA5ff"), Some(vec![0x00, 0x0f, 0xa5, 0xff]));
    assert_eq!(to_vec(""), Some(vec![]));
}

#[test]
fn to_vec_refuses_odd_length_and_other_characters() {
    assert_eq!(to_vec("abc"), None);
    assert_eq!(to_vec("zz"), None);
    assert_eq!(to_vec("0x"), None);
}
