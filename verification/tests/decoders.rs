use hsmattest::tlv_mapping::{
    Bool, ByteStr, Bytes, ClassKey, EncodeTLV, HexStr128, Int, Kind, RawBytes, TLVMapping, TLVValue,
};

#[test]
fn bool_is_true_iff_first_byte_is_not_zero() {
    assert_eq!(*Bool::encode(&[0x00], 1).unwrap(), false);
    assert_eq!(*Bool::encode(&[0x01], 1).unwrap(), true);
    assert_eq!(*Bool::encode(&[0xFF], 1).unwrap(), true);
    assert_eq!(Bool::encode(&[0x00], 1).unwrap().to_str(), "false");
    assert_eq!(Bool::encode(&[0x01], 1).unwrap().to_str(), "true");
    assert_eq!(*Bool::encode(&[0x00, 0x01], 2).unwrap(), false);
}

#[test]
fn bool_of_no_bytes_does_not_decode() {
    assert!(Bool::encode(&[], 0).is_none());
    let value = TLVMapping::OBJ_ATTR_PRIVATE.encode(&[], 0);
    assert!(matches!(value, TLVValue::RawBytes(_)));
    assert_eq!(value.to_str(), "[]");
}

#[test]
fn int_folds_big_endian() {
    let value = Int::encode(&[0x00, 0x00, 0x0C, 0x00], 4).unwrap();
    assert_eq!(*value, 3072);
    assert_eq!(value.to_str(), "3072");
    assert_eq!(*Int::encode(&[0x01, 0x00, 0x01], 3).unwrap(), 65537);
    assert_eq!(*Int::encode(&[], 0).unwrap(), 0);
    assert_eq!(Int::encode(&[], 0).unwrap().to_str(), "0");
    assert_eq!(*Int::encode(&[0xFF, 0xFF, 0xFF, 0xFF], 4).unwrap(), 4294967295);
    assert_eq!(Int::encode(&[0xFF, 0xFF, 0xFF, 0xFF], 4).unwrap().to_str(), "4294967295");
}

#[test]
fn int_longer_than_four_bytes_drops_the_leading_bytes() {
    assert_eq!(*Int::encode(&[0xAA, 0x00, 0x00, 0x00, 0x07], 5).unwrap(), 7);
}

#[test]
fn class_key_names_the_three_classes() {
    assert_eq!(ClassKey::encode(&[0x02], 1).unwrap().to_str(), "public-key");
    assert_eq!(ClassKey::encode(&[0x03], 1).unwrap().to_str(), "private-key");
    assert_eq!(ClassKey::encode(&[0x04], 1).unwrap().to_str(), "secret-key (symmetric)");
    assert_eq!(*ClassKey::encode(&[0x03], 1).unwrap(), 3);
}

#[test]
fn class_key_outside_the_classes_falls_back_to_raw_bytes() {
    assert!(ClassKey::encode(&[0x07], 1).is_none());
    assert!(ClassKey::encode(&[0x01], 1).is_none());
    assert!(ClassKey::encode(&[0x05], 1).is_none());
    assert!(ClassKey::encode(&[], 0).is_none());
    let value = TLVMapping::OBJ_ATTR_CLASS.encode(&[0x07], 1);
    match &value {
        TLVValue::RawBytes(raw) => assert_eq!(&**raw, &[0x07u8][..]),
        _ => panic!("expected raw bytes"),
    }
    assert_eq!(value.to_str(), "[7]");
}

#[test]
fn byte_str_stops_at_the_first_nul() {
    let value = ByteStr::encode(b"label\x00junk", 10).unwrap();
    assert_eq!(&*value, "label");
    assert_eq!(value.to_str(), "label");
    assert_eq!(ByteStr::encode(b"plain", 5).unwrap().to_str(), "plain");
    assert_eq!(ByteStr::encode(b"\x00abc", 4).unwrap().to_str(), "");
    assert_eq!(ByteStr::encode(b"", 0).unwrap().to_str(), "");
}

#[test]
fn byte_str_ignores_bad_bytes_after_the_nul() {
    assert_eq!(ByteStr::encode(&[b'o', b'k', 0x00, 0xFF, 0xFE], 5).unwrap().to_str(), "ok");
}

#[test]
fn byte_str_of_invalid_utf8_falls_back_to_raw_bytes() {
    assert!(ByteStr::encode(&[0xFF, 0x00], 2).is_none());
    let value = TLVMapping::OBJ_ATTR_LABEL.encode(&[0xC3, 0x28], 2);
    assert!(matches!(value, TLVValue::RawBytes(_)));
    assert_eq!(value.to_str(), "[195, 40]");
}

#[test]
fn byte_str_decodes_multibyte_utf8() {
    assert_eq!(ByteStr::encode("clé".as_bytes(), 4).unwrap().to_str(), "clé");
}

#[test]
fn hex_str_reads_the_whole_value_as_utf8() {
    assert_eq!(HexStr128::encode(b"0a1b", 4).unwrap().to_str(), "0a1b");
    assert_eq!(&*HexStr128::encode(b"a\x00b", 3).unwrap(), "a\u{0}b");
    assert!(HexStr128::encode(&[0x80], 1).is_none());
    assert_eq!(TLVMapping::OBJ_ATTR_ID.encode(&[0x80], 1).to_str(), "[128]");
}

#[test]
fn bytes_are_lowercase_hex() {
    let value = Bytes::encode(&[0xDE, 0xAD], 2).unwrap();
    assert_eq!(&*value, "dead");
    assert_eq!(value.to_str(), "dead");
    assert_eq!(Bytes::encode(&[], 0).unwrap().to_str(), "");
    assert_eq!(Bytes::encode(&[0x00, 0x09, 0x0A, 0xF0, 0xFF], 5).unwrap().to_str(), "00090af0ff");
}

#[test]
fn raw_bytes_print_as_a_decimal_list() {
    assert_eq!(RawBytes::encode(&[9], 1).unwrap().to_str(), "[9]");
    assert_eq!(RawBytes::encode(&[1, 2, 3], 3).unwrap().to_str(), "[1, 2, 3]");
    assert_eq!(RawBytes::encode(&[0, 10, 255], 3).unwrap().to_str(), "[0, 10, 255]");
    assert_eq!(RawBytes::encode(&[], 0).unwrap().to_str(), "[]");
    assert_eq!(&*RawBytes::encode(&[4, 5], 2).unwrap(), &[4u8, 5u8][..]);
}

#[test]
fn unknown_tag_decodes_as_bytes() {
    let attr = TLVMapping::from_int(0xDEADBEEF);
    assert_eq!(attr, TLVMapping::UNKNOWN);
    assert_eq!(attr.kind(), Kind::Bytes);
    assert_eq!(attr.name(), "UNKNOWN");
    let value = attr.encode(&[0x01, 0x02, 0x03], 3);
    assert!(matches!(value, TLVValue::Bytes(_)));
    assert_eq!(value.to_str(), "010203");
}

#[test]
fn decoder_fallback_gives_raw_bytes() {
    let attr = TLVMapping::from_int(0x0000);
    assert_eq!(attr, TLVMapping::OBJ_ATTR_CLASS);
    let value = attr.encode(&[0x09], 1);
    assert!(matches!(value, TLVValue::RawBytes(_)));
    assert_eq!(value.to_str(), "[9]");
}

#[test]
fn catalogue_maps_tags_to_names_and_kinds() {
    let table: [(u32, &str, Kind); 38] = [
        (0x0000, "OBJ_ATTR_CLASS", Kind::ClassKey),
        (0x0001, "OBJ_ATTR_TOKEN", Kind::Bytes),
        (0x0002, "OBJ_ATTR_PRIVATE", Kind::Bool),
        (0x0003, "OBJ_ATTR_LABEL", Kind::ByteStr),
        (0x0086, "OBJ_ATTR_TRUSTED", Kind::Bool),
        (0x0100, "OBJ_ATTR_KEY_TYPE", Kind::Bytes),
        (0x0102, "OBJ_ATTR_ID", Kind::HexStr128),
        (0x0103, "OBJ_ATTR_SENSITIVE", Kind::Bool),
        (0x0104, "OBJ_ATTR_ENCRYPT", Kind::Bool),
        (0x0105, "OBJ_ATTR_DECRYPT", Kind::Bool),
        (0x0106, "OBJ_ATTR_WRAP", Kind::Bool),
        (0x0107, "OBJ_ATTR_UNWRAP", Kind::Bool),
        (0x0108, "OBJ_ATTR_SIGN", Kind::Bool),
        (0x010A, "OBJ_ATTR_VERIFY", Kind::Bool),
        (0x010C, "OBJ_ATTR_DERIVE", Kind::Bool),
        (0x0120, "OBJ_ATTR_MODULUS", Kind::Bytes),
        (0x0121, "OBJ_ATTR_MODULUS_BITS", Kind::Int),
        (0x0122, "OBJ_ATTR_PUBLIC_EXPONENT", Kind::Int),
        (0x0161, "OBJ_ATTR_VALUE_LEN", Kind::Int),
        (0x0162, "OBJ_ATTR_EXTRACTABLE", Kind::Bool),
        (0x0163, "OBJ_ATTR_LOCAL", Kind::Bool),
        (0x0164, "OBJ_ATTR_NEVER_EXTRACTABLE", Kind::Bool),
        (0x0165, "OBJ_ATTR_ALWAYS_SENSITIVE", Kind::Bool),
        (0x0173, "OBJ_ATTR_KCV", Kind::Bytes),
        (0x1000, "OBJ_EXT_ATTR1", Kind::Bytes),
        (0x1003, "OBJ_ATTR_EKCV", Kind::Bytes),
        (0x0210, "OBJ_ATTR_WRAP_WITH_TRUSTED", Kind::Bool),
        (0x80000002, "OBJ_ATTR_SPLITTABLE", Kind::Bool),
        (0x80000003, "OBJ_ATTR_IS_SPLIT", Kind::Bool),
        (0x80000174, "OBJ_ATTR_ENCRYPT_KEY_MECHANISMS", Kind::Bool),
        (0x80000175, "OBJ_ATTR_DECRYPT_KEY_MECHANISMS", Kind::Bool),
        (0x80000176, "OBJ_ATTR_SIGN_KEY_MECHANISMS", Kind::Bool),
        (0x80000177, "OBJ_ATTR_VERIFY_KEY_MECHANISMS", Kind::Bool),
        (0x80000178, "OBJ_ATTR_WRAP_KEY_MECHANISMS", Kind::Bool),
        (0x80000179, "OBJ_ATTR_UNWAP_KEY_MECHANISMS", Kind::Bool),
        (0x80000180, "OBJ_ATTR_DERIVE_KEY_MECHANISMS", Kind::Bool),
        (0x80000000, "OBJ_UNKNOWN", Kind::Bytes),
        (0xFFFFFF01, "SIGNATURE", Kind::ByteStr),
    ];
    for (tag, name, kind) in table {
        let attr = TLVMapping::from_int(tag);
        assert_ne!(attr, TLVMapping::UNKNOWN, "tag {:#x}", tag);
        assert_eq!(attr.name(), name);
        assert_eq!(attr.kind(), kind);
    }
    for tag in [0x0004u32, 0x0109, 0x010B, 0x0166, 0x80000001, 0x80000181, 0xFFFFFFFF] {
        assert_eq!(TLVMapping::from_int(tag), TLVMapping::UNKNOWN);
    }
}

#[test]
fn encode_dispatches_on_the_kind() {
    assert_eq!(TLVMapping::OBJ_ATTR_CLASS.encode(&[4], 1).to_str(), "secret-key (symmetric)");
    assert_eq!(TLVMapping::OBJ_ATTR_TOKEN.encode(&[1], 1).to_str(), "01");
    assert_eq!(TLVMapping::OBJ_ATTR_PRIVATE.encode(&[1], 1).to_str(), "true");
    assert_eq!(TLVMapping::OBJ_ATTR_LABEL.encode(b"key1\x00", 5).to_str(), "key1");
    assert_eq!(TLVMapping::OBJ_ATTR_ID.encode(b"id-7", 4).to_str(), "id-7");
    assert_eq!(TLVMapping::OBJ_ATTR_MODULUS_BITS.encode(&[0, 0, 8, 0], 4).to_str(), "2048");
    assert_eq!(TLVMapping::OBJ_ATTR_PUBLIC_EXPONENT.encode(&[1, 0, 1], 3).to_str(), "65537");
}

#[test]
fn declared_length_is_not_consulted() {
    assert_eq!(Bytes::encode(&[0xAB], 0).unwrap().to_str(), "ab");
    assert_eq!(Bytes::encode(&[0xAB], 4000000000).unwrap().to_str(), "ab");
    assert_eq!(TLVMapping::OBJ_ATTR_LABEL.encode(b"x", 99).to_str(), "x");
}
