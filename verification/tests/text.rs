use hsmattest::text::{ascii_string, hex_encode, list_encode, push_decimal};

#[test]
fn decimal_digits_have_no_leading_zeros() {
    for (n, text) in [
        (0u32, "0"),
        (7, "7"),
        (10, "10"),
        (99, "99"),
        (100, "100"),
        (3072, "3072"),
        (65537, "65537"),
        (4294967295, "4294967295"),
    ] {
        let mut out = Vec::new();
        push_decimal(&mut out, n);
        assert_eq!(out, text.as_bytes());
    }
}

#[test]
fn decimal_digits_are_appended() {
    let mut out = b"n=".to_vec();
    push_decimal(&mut out, 42);
    push_decimal(&mut out, 0);
    assert_eq!(out, b"n=420");
}

#[test]
fn hex_has_two_lowercase_digits_for_each_byte() {
    assert_eq!(hex_encode(&[]), b"");
    assert_eq!(hex_encode(&[0xDE, 0xAD]), b"dead");
    assert_eq!(hex_encode(&[0x00, 0x0F, 0xA0, 0x9B]), b"000fa09b");
    let all: Vec<u8> = (0..=255).collect();
    let expected: String = all.iter().map(|b| format!("{:02x}", b)).collect();
    assert_eq!(hex_encode(&all), expected.as_bytes());
}

#[test]
fn lists_are_bracketed_and_comma_separated() {
    assert_eq!(list_encode(&[]), b"[]");
    assert_eq!(list_encode(&[9]), b"[9]");
    assert_eq!(list_encode(&[1, 2, 3]), b"[1, 2, 3]");
    let all: Vec<u8> = (0..=255).collect();
    assert_eq!(list_encode(&all), format!("{:?}", all).as_bytes());
}

#[test]
fn ascii_bytes_become_a_string() {
    assert_eq!(ascii_string(b"hello, world".to_vec()), "hello, world");
    assert_eq!(ascii_string(vec![]), "");
    assert_eq!(ascii_string(vec![0x00, 0x7F]), "\u{0}\u{7f}");
}
