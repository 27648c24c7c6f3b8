//! Closed vocabularies and the JSON reader.

use wycheproof::json::parse_json;
use wycheproof::named::{parse, Named};
use wycheproof::rsa_pss_verify::deser_mgf_hash;
use wycheproof::{
    BugType, EdwardsCurve, EllipticCurve, HashFunction, Json, Mgf, MontgomeryCurve, ParseError,
    TestResult, WycheproofError,
};

#[test]
fn must_fail_only_when_invalid() {
    assert!(TestResult::Invalid.must_fail());
    assert!(!TestResult::Valid.must_fail());
    assert!(!TestResult::Acceptable.must_fail());
}

#[test]
fn test_results_by_name() {
    assert_eq!(TestResult::from_name("valid"), Some(TestResult::Valid));
    assert_eq!(TestResult::from_name("invalid"), Some(TestResult::Invalid));
    assert_eq!(TestResult::from_name("acceptable"), Some(TestResult::Acceptable));
    assert_eq!(TestResult::from_name("Valid"), None);
    assert_eq!(TestResult::from_name(""), None);
}

#[test]
fn curves_have_aliases() {
    assert_eq!(EllipticCurve::from_name("secp256r1"), Some(EllipticCurve::Secp256r1));
    assert_eq!(EllipticCurve::from_name("P-256"), Some(EllipticCurve::Secp256r1));
    assert_eq!(EllipticCurve::from_name("P-384"), Some(EllipticCurve::Secp384r1));
    assert_eq!(EllipticCurve::from_name("P-521"), Some(EllipticCurve::Secp521r1));
    assert_eq!(EllipticCurve::from_name("P-256K"), Some(EllipticCurve::Secp256k1));
    assert_eq!(EllipticCurve::from_name("brainpoolP512t1"), Some(EllipticCurve::Brainpool512t1));
    assert_eq!(EllipticCurve::from_name("p-256"), None);
    assert_eq!(EdwardsCurve::from_name("Ed25519"), Some(EdwardsCurve::Ed25519));
    assert_eq!(EdwardsCurve::from_name("edwards25519"), Some(EdwardsCurve::Ed25519));
    assert_eq!(EdwardsCurve::from_name("edwards448"), Some(EdwardsCurve::Ed448));
    assert_eq!(MontgomeryCurve::from_name("curve25519"), Some(MontgomeryCurve::X25519));
    assert_eq!(MontgomeryCurve::from_name("X448"), Some(MontgomeryCurve::X448));
}

#[test]
fn hash_functions_by_name() {
    assert_eq!(HashFunction::from_name("SHA-1"), Some(HashFunction::Sha1));
    assert_eq!(HashFunction::from_name("SHA-512/256"), Some(HashFunction::Sha2_512_256));
    assert_eq!(HashFunction::from_name("SHA3-384"), Some(HashFunction::Sha3_384));
    assert_eq!(HashFunction::from_name("SHAKE256"), Some(HashFunction::Shake256));
    assert_eq!(HashFunction::from_name("sha-1"), None);
    assert_eq!(Mgf::from_name("MGF1"), Some(Mgf::Mgf1));
    assert_eq!(Mgf::from_name("SHAKE128"), Some(Mgf::Shake128));
    assert_eq!(Mgf::from_name("MGF2"), None);
}

#[test]
fn bug_types_are_in_capitals() {
    assert_eq!(BugType::from_name("AUTH_BYPASS"), Some(BugType::AuthBypass));
    assert_eq!(BugType::from_name("CAN_OF_WORMS"), Some(BugType::CanOfWorms));
    assert_eq!(BugType::from_name("BASIC"), Some(BugType::Basic));
    assert_eq!(BugType::from_name("WRONG_PRIMITIVE"), Some(BugType::WrongPrimitive));
    assert_eq!(BugType::from_name("Basic"), None);
}

#[test]
fn unknown_name_is_quoted_in_the_error() {
    let e = parse::<HashFunction>("MD5").unwrap_err();
    assert_eq!(
        e,
        ParseError::UnknownValue { vocabulary: "HashFunction".to_string(), value: "MD5".to_string() }
    );
    assert_eq!(e.message(), "unknown value for HashFunction: MD5");
    assert_eq!(parse::<HashFunction>("SHA-256"), Ok(HashFunction::Sha2_256));
}

#[test]
fn mgf_hash_takes_the_empty_name_as_none() {
    assert_eq!(deser_mgf_hash(""), Ok(None));
    assert_eq!(deser_mgf_hash("SHA-1"), Ok(Some(HashFunction::Sha1)));
    assert_eq!(deser_mgf_hash("SHA-224"), Ok(Some(HashFunction::Sha2_224)));
    assert_eq!(deser_mgf_hash("SHA-256"), Ok(Some(HashFunction::Sha2_256)));
    assert_eq!(deser_mgf_hash("SHA-384"), Ok(Some(HashFunction::Sha2_384)));
    assert_eq!(deser_mgf_hash("SHA-512"), Ok(Some(HashFunction::Sha2_512)));
    assert_eq!(deser_mgf_hash("SHA-512/224"), Ok(Some(HashFunction::Sha2_512_224)));
    assert_eq!(deser_mgf_hash("SHA-512/256"), Ok(Some(HashFunction::Sha2_512_256)));
}

#[test]
fn mgf_hash_refuses_other_names() {
    assert_eq!(
        deser_mgf_hash("SHA3-256"),
        Err(ParseError::UnknownValue {
            vocabulary: "HashFunction".to_string(),
            value: "SHA3-256".to_string()
        })
    );
}

#[test]
fn error_messages() {
    assert_eq!(WycheproofError::NoDataSet.message(), "No data set matches provided name");
    assert_eq!(WycheproofError::InvalidData.message(), "Data set seems to be invalid");
    assert_eq!(
        WycheproofError::ParsingFailed(ParseError::UnknownField("extra".to_string())).message(),
        "Parsing JSON failed unknown field extra"
    );
    assert_eq!(ParseError::MissingField("tcId".to_string()).message(), "missing field tcId");
    assert_eq!(
        ParseError::Unexpected { expected: "a string".to_string() }.message(),
        "expected a string"
    );
    assert_eq!(ParseError::Encoding("xyz".to_string()).message(), "invalid encoding: xyz");
    assert_eq!(ParseError::Syntax("EOF while parsing".to_string()).message(), "EOF while parsing");
}

#[test]
fn json_text_is_read_into_values() {
    let j = parse_json(r#"{"a": [1, -2, 1.5, true, null, "s"], "b": {}}"#).unwrap();
    let expected = Json::Object(vec![
        (
            "a".to_string(),
            Json::Array(vec![
                Json::UInt(1),
                Json::NegInt(-2),
                Json::Real("1.5".to_string()),
                Json::Bool(true),
                Json::Null,
                Json::Str("s".to_string()),
            ]),
        ),
        ("b".to_string(), Json::Object(vec![])),
    ]);
    assert_eq!(j, expected);
}

#[test]
fn json_numbers_keep_their_range() {
    assert_eq!(parse_json("18446744073709551615"), Ok(Json::UInt(u64::MAX)));
    assert_eq!(parse_json("-9223372036854775808"), Ok(Json::NegInt(i64::MIN)));
    assert_eq!(parse_json("0"), Ok(Json::UInt(0)));
    assert_eq!(parse_json("\"text\""), Ok(Json::Str("text".to_string())));
}

#[test]
fn broken_json_is_a_syntax_error() {
    assert!(matches!(parse_json("{"), Err(ParseError::Syntax(_))));
    assert!(matches!(parse_json(""), Err(ParseError::Syntax(_))));
    assert!(matches!(parse_json("[1, 2,]"), Err(ParseError::Syntax(_))));
    assert!(matches!(parse_json("{\"a\": 1} x"), Err(ParseError::Syntax(_))));
}
