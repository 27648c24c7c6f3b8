//! Hexadecimal and base64 texts, byte strings and large integers.

use wycheproof::bytes::int_from_base64;
use wycheproof::encoding::{encode_hex, vec_from_base64, vec_from_hex};
use wycheproof::text::{combine_header, str_eq};
use wycheproof::{ByteString, Json, LargeInteger, ParseError};

#[test]
fn hex_decodes_two_digits_a_byte() {
    assert_eq!(vec_from_hex("deadbeef"), Ok(vec![0xde, 0xad, 0xbe, 0xef]));
    assert_eq!(vec_from_hex("00"), Ok(vec![0x00]));
    assert_eq!(vec_from_hex("0a10ff"), Ok(vec![0x0a, 0x10, 0xff]));
}

#[test]
fn hex_of_nothing_is_nothing() {
    assert_eq!(vec_from_hex(""), Ok(vec![]));
    assert_eq!(encode_hex(&[]), "");
}

#[test]
fn hex_refuses_odd_length() {
    assert_eq!(vec_from_hex("abc"), Err(ParseError::Encoding("abc".to_string())));
}

#[test]
fn hex_refuses_other_characters() {
    assert_eq!(vec_from_hex("zz"), Err(ParseError::Encoding("zz".to_string())));
    assert_eq!(vec_from_hex("0g"), Err(ParseError::Encoding("0g".to_string())));
    assert_eq!(vec_from_hex("é0"), Err(ParseError::Encoding("é0".to_string())));
}

#[test]
fn hex_refuses_capital_digits() {
    assert_eq!(vec_from_hex("DEADBEEF"), Err(ParseError::Encoding("DEADBEEF".to_string())));
    assert_eq!(vec_from_hex("dE"), Err(ParseError::Encoding("dE".to_string())));
}

#[test]
fn hex_encodes_in_small_letters() {
    assert_eq!(encode_hex(&[0xde, 0xad, 0xbe, 0xef]), "deadbeef");
    assert_eq!(encode_hex(&[0x00, 0x0f, 0xf0]), "000ff0");
}

#[test]
fn hex_round_trip_gives_the_text_back() {
    for text in ["", "00", "ff", "0123456789abcdef", "a0b1c2d3e4f5"] {
        let bytes = vec_from_hex(text).unwrap();
        assert_eq!(encode_hex(&bytes), text);
    }
}

#[test]
fn hex_round_trip_gives_the_bytes_back() {
    let bytes: Vec<u8> = (0..=255).collect();
    assert_eq!(vec_from_hex(&encode_hex(&bytes)), Ok(bytes));
}

#[test]
fn base64_decodes_url_safe_text_without_padding() {
    assert_eq!(vec_from_base64("AQAB"), Ok(vec![0x01, 0x00, 0x01]));
    assert_eq!(vec_from_base64("_-8"), Ok(vec![0xff, 0xef]));
    assert_eq!(vec_from_base64(""), Ok(vec![]));
    assert_eq!(vec_from_base64("SGVsbG8"), Ok(b"Hello".to_vec()));
}

#[test]
fn base64_refuses_padding_and_other_alphabets() {
    assert_eq!(vec_from_base64("AQAB=="), Err(ParseError::Encoding("AQAB==".to_string())));
    assert_eq!(vec_from_base64("+/8"), Err(ParseError::Encoding("+/8".to_string())));
    assert_eq!(vec_from_base64("A"), Err(ParseError::Encoding("A".to_string())));
}

#[test]
fn large_integer_from_base64_json_string() {
    let n = int_from_base64(&Json::Str("AQAB".to_string())).unwrap();
    assert_eq!(n.as_bytes(), &vec![0x01, 0x00, 0x01]);
    assert_eq!(
        int_from_base64(&Json::UInt(3)),
        Err(ParseError::Unexpected { expected: "a string".to_string() })
    );
    assert_eq!(
        int_from_base64(&Json::Str("*".to_string())),
        Err(ParseError::Encoding("*".to_string()))
    );
}

#[test]
fn byte_string_length() {
    let empty = ByteString::new(vec![]);
    assert_eq!(empty.len(), 0);
    assert!(empty.is_empty());
    let three = ByteString::new(vec![1, 2, 3]);
    assert_eq!(three.len(), 3);
    assert!(!three.is_empty());
    assert_eq!(three.as_bytes(), &vec![1, 2, 3]);
}

#[test]
fn byte_string_as_hex() {
    assert_eq!(ByteString::new(vec![0xca, 0xfe]).to_hex(), "cafe");
    assert_eq!(ByteString::new(vec![]).to_hex(), "");
}

#[test]
fn byte_strings_are_equal_by_content() {
    assert_eq!(ByteString::new(vec![1, 2]), ByteString::new(vec![1, 2]));
    assert_ne!(ByteString::new(vec![1, 2]), ByteString::new(vec![2, 1]));
}

#[test]
fn large_integer_is_big_endian() {
    assert_eq!(LargeInteger::new(vec![]).as_num_bigint(), num_bigint::BigUint::from(0u32));
    assert_eq!(LargeInteger::new(vec![0x01, 0x00]).as_num_bigint(), num_bigint::BigUint::from(256u32));
    assert_eq!(
        LargeInteger::new(vec![0x01, 0x00, 0x01]).as_num_bigint(),
        num_bigint::BigUint::from(65537u32)
    );
    assert_eq!(LargeInteger::new(vec![0x00, 0x00, 0x2a]).as_num_bigint(), num_bigint::BigUint::from(42u32));
    assert_eq!(LargeInteger::new(vec![9, 8]).as_bytes(), &vec![9, 8]);
}

#[test]
fn header_lines_are_joined_by_spaces() {
    assert_eq!(combine_header(&vec![]), "");
    assert_eq!(combine_header(&vec!["one".to_string()]), "one");
    assert_eq!(
        combine_header(&vec!["Test vectors".to_string(), "of type".to_string(), "AeadTest".to_string()]),
        "Test vectors of type AeadTest"
    );
}

#[test]
fn texts_are_compared_exactly() {
    assert!(str_eq("", ""));
    assert!(str_eq("tcId", "tcId"));
    assert!(!str_eq("tcId", "tcid"));
    assert!(!str_eq("tcId", "tcI"));
    assert!(!str_eq("tc", "tcId"));
    assert!(str_eq("clé", "clé"));
    assert!(!str_eq("clé", "cle"));
}
