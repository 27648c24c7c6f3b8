//! Loading whole documents: what is accepted, and each way to be refused.

use wycheproof::aead;
use wycheproof::ecdsa;
use wycheproof::fpe_list;
use wycheproof::hkdf;
use wycheproof::json::parse_json;
use wycheproof::rsa_pss_verify;
use wycheproof::{HashFunction, Json, ParseError, TestResult, WycheproofError};

fn aead_test(tc_id: usize, result: &str, flags: &str) -> String {
    format!(
        r#"{{"tcId": {}, "comment": "", "key": "00", "iv": "01", "aad": "", "msg": "02", "ct": "03", "tag": "04", "result": "{}", "flags": {}}}"#,
        tc_id, result, flags
    )
}

fn aead_group(tests: &[String]) -> String {
    format!(
        r#"{{"ivSize": 96, "keySize": 128, "tagSize": 128, "type": "AeadTest", "tests": [{}]}}"#,
        tests.join(", ")
    )
}

fn aead_document(number_of_tests: usize, groups: &[String]) -> String {
    format!(
        r#"{{"algorithm": "AES-GCM", "generatorVersion": "0.8r12", "numberOfTests": {}, "header": ["Test vectors of type AeadTest", "test authenticated encryption."], "notes": {{"InvalidTagSize": {{"bugType": "MODIFIED_PARAMETER", "description": "The tag has an invalid size.", "cves": ["CVE-2017-18330"], "links": ["https://example.org/a"]}}}}, "schema": "aead_test_schema.json", "testGroups": [{}]}}"#,
        number_of_tests,
        groups.join(", ")
    )
}

fn parsing_failure(r: Result<aead::TestSet, WycheproofError>) -> ParseError {
    match r {
        Err(WycheproofError::ParsingFailed(e)) => e,
        other => panic!("expected a parse failure, got {:?}", other),
    }
}

#[test]
fn aes_gcm_document_loads() {
    let text = aead_document(
        3,
        &[
            aead_group(&[aead_test(1, "valid", "[]"), aead_test(2, "invalid", r#"["InvalidTagSize"]"#)]),
            aead_group(&[aead_test(3, "acceptable", r#"["SmallIv", "Ktv"]"#)]),
        ],
    );
    let set = aead::TestSet::load_from_text(&text).unwrap();
    assert_eq!(set.algorithm, aead::Algorithm::AesGcm);
    assert_eq!(set.generator_version, "0.8r12");
    assert_eq!(set.number_of_tests, 3);
    assert_eq!(set.header, "Test vectors of type AeadTest test authenticated encryption.");
    assert_eq!(set.notes.len(), 1);
    assert_eq!(set.notes[0].0, aead::TestFlag::InvalidTagSize);
    assert_eq!(set.notes[0].1.bug_type, wycheproof::BugType::ModifiedParameter);
    assert_eq!(set.notes[0].1.effect, None);
    assert_eq!(set.notes[0].1.cves, Some(vec![wycheproof::CVE("CVE-2017-18330".to_string())]));
    assert_eq!(set.notes[0].1.links, Some(vec![wycheproof::URL("https://example.org/a".to_string())]));
    assert_eq!(set.test_groups.len(), 2);
    assert_eq!(set.test_groups[0].nonce_size, 96);
    assert_eq!(set.test_groups[0].key_size, 128);
    assert_eq!(set.test_groups[0].tag_size, 128);
    assert_eq!(set.test_groups[0].tests.len(), 2);
    assert_eq!(set.test_groups[1].tests.len(), 1);
    let last = &set.test_groups[1].tests[0];
    assert_eq!(last.tc_id, 3);
    assert_eq!(last.key, vec![0x00]);
    assert_eq!(last.nonce, vec![0x01]);
    assert_eq!(last.aad, Vec::<u8>::new());
    assert_eq!(last.pt, vec![0x02]);
    assert_eq!(last.ct, vec![0x03]);
    assert_eq!(last.tag, vec![0x04]);
    assert_eq!(last.result, TestResult::Acceptable);
    assert_eq!(last.flags, vec![aead::TestFlag::SmallIv, aead::TestFlag::KnownTestVector]);
}

#[test]
fn tests_with_invalid_tag_size_must_fail() {
    let text = aead_document(
        3,
        &[aead_group(&[
            aead_test(1, "valid", "[]"),
            aead_test(2, "invalid", r#"["InvalidTagSize"]"#),
            aead_test(3, "invalid", r#"["ModifiedTag", "InvalidTagSize"]"#),
        ])],
    );
    let set = aead::TestSet::load_from_text(&text).unwrap();
    let mut seen = 0;
    for group in &set.test_groups {
        for test in &group.tests {
            if test.flags.contains(&aead::TestFlag::InvalidTagSize) {
                assert_eq!(test.result, TestResult::Invalid);
                assert!(test.result.must_fail());
                seen += 1;
            }
        }
    }
    assert_eq!(seen, 2);
}

#[test]
fn wrong_count_is_invalid_data() {
    let text = aead_document(2, &[aead_group(&[aead_test(1, "valid", "[]")])]);
    assert_eq!(aead::TestSet::load_from_text(&text), Err(WycheproofError::InvalidData));
}

#[test]
fn count_is_taken_over_all_groups() {
    let groups = [
        aead_group(&[aead_test(1, "valid", "[]"), aead_test(2, "valid", "[]")]),
        aead_group(&[]),
        aead_group(&[aead_test(3, "valid", "[]")]),
    ];
    assert!(aead::TestSet::load_from_text(&aead_document(3, &groups)).is_ok());
    assert_eq!(aead::TestSet::load_from_text(&aead_document(2, &groups)), Err(WycheproofError::InvalidData));
    assert_eq!(aead::TestSet::load_from_text(&aead_document(4, &groups)), Err(WycheproofError::InvalidData));
    assert_eq!(aead::TestSet::load_from_text(&aead_document(0, &groups)), Err(WycheproofError::InvalidData));
    assert!(aead::TestSet::load_from_text(&aead_document(0, &[])).is_ok());
}

#[test]
fn check_compares_declared_and_actual_count() {
    let text = aead_document(1, &[aead_group(&[aead_test(1, "valid", "[]")])]);
    let set = aead::TestSet::load_from_text(&text).unwrap();
    let same = set.clone();
    assert_eq!(aead::TestSet::check(set), Ok(same.clone()));
    let mut wrong = same;
    wrong.number_of_tests = 5;
    assert_eq!(aead::TestSet::check(wrong), Err(WycheproofError::InvalidData));
}

#[test]
fn unknown_group_type_is_named_in_the_error() {
    let text = aead_document(1, &[aead_group(&[aead_test(1, "valid", "[]")])])
        .replace(r#""type": "AeadTest""#, r#""type": "UnknownType""#);
    let e = parsing_failure(aead::TestSet::load_from_text(&text));
    assert_eq!(
        e,
        ParseError::UnknownValue {
            vocabulary: "TestGroupTypeId".to_string(),
            value: "UnknownType".to_string()
        }
    );
    assert!(e.message().contains("UnknownType"));
}

#[test]
fn unknown_top_level_field_is_refused() {
    let text = aead_document(1, &[aead_group(&[aead_test(1, "valid", "[]")])])
        .replace(r#""generatorVersion""#, r#""extra": 1, "generatorVersion""#);
    let e = parsing_failure(aead::TestSet::load_from_text(&text));
    assert_eq!(e, ParseError::UnknownField("extra".to_string()));
}

#[test]
fn unknown_group_level_field_is_refused() {
    let text = aead_document(1, &[aead_group(&[aead_test(1, "valid", "[]")])])
        .replace(r#""ivSize": 96"#, r#""ivSize": 96, "blockSize": 16"#);
    let e = parsing_failure(aead::TestSet::load_from_text(&text));
    assert_eq!(e, ParseError::UnknownField("blockSize".to_string()));
}

#[test]
fn unknown_test_level_field_is_refused() {
    let text = aead_document(1, &[aead_group(&[aead_test(1, "valid", "[]")])])
        .replace(r#""tcId": 1"#, r#""tcId": 1, "note": "x""#);
    let e = parsing_failure(aead::TestSet::load_from_text(&text));
    assert_eq!(e, ParseError::UnknownField("note".to_string()));
}

#[test]
fn unknown_flag_is_named_in_the_error() {
    let text = aead_document(1, &[aead_group(&[aead_test(1, "valid", r#"["Ktv", "BrandNewFlag"]"#)])]);
    let e = parsing_failure(aead::TestSet::load_from_text(&text));
    assert_eq!(
        e,
        ParseError::UnknownValue { vocabulary: "TestFlag".to_string(), value: "BrandNewFlag".to_string() }
    );
}

#[test]
fn unknown_flag_in_the_notes_is_named_in_the_error() {
    let text = aead_document(1, &[aead_group(&[aead_test(1, "valid", "[]")])])
        .replace(r#""InvalidTagSize": {"#, r#""FlagOfTomorrow": {"#);
    let e = parsing_failure(aead::TestSet::load_from_text(&text));
    assert_eq!(
        e,
        ParseError::UnknownValue { vocabulary: "TestFlag".to_string(), value: "FlagOfTomorrow".to_string() }
    );
}

#[test]
fn unknown_result_algorithm_and_schema_are_refused() {
    let good = aead_document(1, &[aead_group(&[aead_test(1, "valid", "[]")])]);
    assert_eq!(
        parsing_failure(aead::TestSet::load_from_text(&good.replace(r#""result": "valid""#, r#""result": "maybe""#))),
        ParseError::UnknownValue { vocabulary: "TestResult".to_string(), value: "maybe".to_string() }
    );
    assert_eq!(
        parsing_failure(aead::TestSet::load_from_text(&good.replace(r#""AES-GCM""#, r#""AES-XYZ""#))),
        ParseError::UnknownValue { vocabulary: "Algorithm".to_string(), value: "AES-XYZ".to_string() }
    );
    assert_eq!(
        parsing_failure(aead::TestSet::load_from_text(&good.replace("aead_test_schema.json", "aead_test_schema_v2.json"))),
        ParseError::UnknownValue {
            vocabulary: "AEAD schema".to_string(),
            value: "aead_test_schema_v2.json".to_string()
        }
    );
    assert_eq!(
        parsing_failure(aead::TestSet::load_from_text(&good.replace("MODIFIED_PARAMETER", "NEW_BUG"))),
        ParseError::UnknownValue { vocabulary: "BugType".to_string(), value: "NEW_BUG".to_string() }
    );
}

#[test]
fn missing_member_is_refused() {
    let good = aead_document(1, &[aead_group(&[aead_test(1, "valid", "[]")])]);
    assert_eq!(
        parsing_failure(aead::TestSet::load_from_text(&good.replace(r#""generatorVersion": "0.8r12", "#, ""))),
        ParseError::MissingField("generatorVersion".to_string())
    );
    assert_eq!(
        parsing_failure(aead::TestSet::load_from_text(&good.replace(r#""tag": "04", "#, ""))),
        ParseError::MissingField("tag".to_string())
    );
    assert_eq!(
        parsing_failure(aead::TestSet::load_from_text(&good.replace(r#""keySize": 128, "#, ""))),
        ParseError::MissingField("keySize".to_string())
    );
}

#[test]
fn missing_flags_are_no_flags() {
    let text = aead_document(1, &[aead_group(&[aead_test(1, "valid", "[]")])])
        .replace(r#", "flags": []"#, "");
    let set = aead::TestSet::load_from_text(&text).unwrap();
    assert!(set.test_groups[0].tests[0].flags.is_empty());
}

#[test]
fn wrong_kind_of_value_is_refused() {
    let good = aead_document(1, &[aead_group(&[aead_test(1, "valid", "[]")])]);
    assert_eq!(
        parsing_failure(aead::TestSet::load_from_text(&good.replace(r#""tcId": 1"#, r#""tcId": "1""#))),
        ParseError::Unexpected { expected: "an unsigned integer".to_string() }
    );
    assert_eq!(
        parsing_failure(aead::TestSet::load_from_text(&good.replace(r#""tcId": 1"#, r#""tcId": -1"#))),
        ParseError::Unexpected { expected: "an unsigned integer".to_string() }
    );
    assert_eq!(
        parsing_failure(aead::TestSet::load_from_text(&good.replace(r#""tcId": 1"#, r#""tcId": 1.5"#))),
        ParseError::Unexpected { expected: "an unsigned integer".to_string() }
    );
    assert_eq!(
        parsing_failure(aead::TestSet::load_from_text(&good.replace(r#""comment": """#, r#""comment": 7"#))),
        ParseError::Unexpected { expected: "a string".to_string() }
    );
    assert_eq!(
        parsing_failure(aead::TestSet::load_from_text(&good.replace(r#""flags": []"#, r#""flags": null"#))),
        ParseError::Unexpected { expected: "an array".to_string() }
    );
    assert_eq!(
        parsing_failure(aead::TestSet::load_from_text("[]")),
        ParseError::Unexpected { expected: "an object".to_string() }
    );
}

#[test]
fn bad_hex_is_refused() {
    let good = aead_document(1, &[aead_group(&[aead_test(1, "valid", "[]")])]);
    assert_eq!(
        parsing_failure(aead::TestSet::load_from_text(&good.replace(r#""key": "00""#, r#""key": "0""#))),
        ParseError::Encoding("0".to_string())
    );
    assert_eq!(
        parsing_failure(aead::TestSet::load_from_text(&good.replace(r#""ct": "03""#, r#""ct": "0X""#))),
        ParseError::Encoding("0X".to_string())
    );
}

#[test]
fn broken_text_is_a_syntax_error() {
    let good = aead_document(1, &[aead_group(&[aead_test(1, "valid", "[]")])]);
    let cut = &good[..good.len() - 1];
    assert!(matches!(parsing_failure(aead::TestSet::load_from_text(cut)), ParseError::Syntax(_)));
    assert!(matches!(parsing_failure(aead::TestSet::load_from_text("")), ParseError::Syntax(_)));
}

#[test]
fn loading_twice_gives_equal_sets() {
    let text = aead_document(
        2,
        &[aead_group(&[aead_test(1, "valid", "[]"), aead_test(2, "invalid", r#"["ModifiedTag"]"#)])],
    );
    let first = aead::TestSet::load_from_text(&text);
    let second = aead::TestSet::load_from_text(&text);
    assert!(first.is_ok());
    assert_eq!(first, second);
    let bad = text.replace(r#""tcId": 2"#, r#""tcId": 2, "x": 0"#);
    assert_eq!(aead::TestSet::load_from_text(&bad), aead::TestSet::load_from_text(&bad));
}

#[test]
fn loading_from_json_value_and_from_text_agree() {
    let text = aead_document(1, &[aead_group(&[aead_test(1, "valid", "[]")])]);
    let j = parse_json(&text).unwrap();
    assert_eq!(aead::TestSet::from_json(&j), aead::TestSet::load_from_text(&text));
    assert_eq!(
        aead::TestSet::from_json(&Json::Null),
        Err(WycheproofError::ParsingFailed(ParseError::Unexpected { expected: "an object".to_string() }))
    );
}

fn hkdf_document() -> String {
    r#"{
        "algorithm": "HKDF-SHA-256", "generatorVersion": "0.8r12", "numberOfTests": 3,
        "header": ["Test vectors of type HkdfTest"],
        "notes": {}, "schema": "hkdf_test_schema.json",
        "testGroups": [
            {"keySize": 0, "type": "HkdfTest", "tests": []},
            {"keySize": 128, "type": "HkdfTest", "tests": [
                {"tcId": 1, "comment": "empty salt", "ikm": "24aeff2645e3e0f5494a9a102778c43a", "salt": "", "info": "",
                 "size": 20, "okm": "d4bd3e9e5a3b4c44e6b6e8bb3b0db0bfc9e0b0a1", "result": "valid", "flags": ["EmptySalt"]},
                {"tcId": 2, "comment": "", "ikm": "00", "salt": "01", "info": "02", "size": 0, "okm": "",
                 "result": "valid", "flags": []}
            ]},
            {"keySize": 256, "type": "HkdfTest", "tests": [
                {"tcId": 3, "comment": "maximal", "ikm": "ff", "salt": "ee", "info": "dd", "size": 2, "okm": "abcd",
                 "result": "invalid", "flags": ["SizeTooLarge", "MaximalOutputSize"]}
            ]}
        ]
    }"#
    .to_string()
}

#[test]
fn hkdf_output_has_the_declared_size() {
    let set = hkdf::TestSet::load_from_text(&hkdf_document()).unwrap();
    assert_eq!(set.algorithm, hkdf::Algorithm::HkdfSha256);
    assert_eq!(set.test_groups.len(), 3);
    assert_eq!(set.test_groups[1].key_size, 128);
    assert_eq!(set.test_groups[2].key_size, 256);
    for group in &set.test_groups[1..] {
        assert!(group.key_size > 0);
        for test in &group.tests {
            assert_eq!(test.okm.len(), test.size);
        }
    }
    let first = &set.test_groups[1].tests[0];
    assert_eq!(first.ikm.to_hex(), "24aeff2645e3e0f5494a9a102778c43a");
    assert!(first.salt.is_empty());
    assert_eq!(first.okm.len(), 20);
    assert_eq!(first.flags, vec![hkdf::TestFlag::EmptySalt]);
    assert!(set.test_groups[2].tests[0].result.must_fail());
}

fn ecdsa_document() -> String {
    r#"{
        "algorithm": "ECDSA", "generatorVersion": "0.8r12", "numberOfTests": 3,
        "header": [], "notes": {"MissingZero": {"bugType": "BER_ENCODING", "effect": "none"}},
        "schema": "ecdsa_verify_schema.json",
        "testGroups": [
            {"publicKey": {"curve": "secp256r1", "keySize": 256, "type": "EcPublicKey",
                           "uncompressed": "04aa", "wx": "00aa", "wy": "00bb"},
             "publicKeyDer": "3059", "publicKeyPem": "-----BEGIN PUBLIC KEY-----",
             "publicKeyJwk": {"crv": "P-256", "kid": "none", "kty": "EC", "x": "qg", "y": "uw"},
             "sha": "SHA-256", "type": "EcdsaVerify",
             "tests": [
                {"tcId": 1, "comment": "signature malleability", "msg": "313233", "sig": "3045", "result": "valid", "flags": []},
                {"tcId": 2, "comment": "", "msg": "313233", "sig": "3046", "result": "invalid", "flags": ["MissingZero"]}
             ]},
            {"publicKey": {"curve": "secp256r1", "keySize": 256, "type": "EcPublicKey",
                           "uncompressed": "04cc", "wx": "00cc", "wy": "00dd"},
             "publicKeyDer": "3059", "publicKeyPem": "-----BEGIN PUBLIC KEY-----",
             "sha": "SHA-256", "type": "EcdsaVerify",
             "tests": [
                {"tcId": 1, "comment": "ids start again in each group", "msg": "", "sig": "", "result": "acceptable"}
             ]}
        ]
    }"#
    .to_string()
}

#[test]
fn ecdsa_tests_have_comments_and_ids() {
    let set = ecdsa::TestSet::load_from_text(&ecdsa_document()).unwrap();
    assert_eq!(set.header, "");
    assert_eq!(set.notes[0].0, ecdsa::TestFlag::MissingZero);
    assert_eq!(set.notes[0].1.effect.as_deref(), Some("none"));
    for group in &set.test_groups {
        let mut ids: Vec<usize> = group.tests.iter().map(|t| t.tc_id).collect();
        ids.sort();
        ids.dedup();
        assert_eq!(ids.len(), group.tests.len());
        for test in &group.tests {
            assert!(test.comment.len() < 100);
        }
    }
    assert_eq!(set.test_groups[0].tests[1].comment, "");
    let first = &set.test_groups[0];
    assert_eq!(first.key.curve, wycheproof::EllipticCurve::Secp256r1);
    assert_eq!(first.key.key_size, 256);
    assert_eq!(first.key.key.as_bytes(), &vec![0x04, 0xaa]);
    assert_eq!(first.key.affine_x.as_bytes(), &vec![0x00, 0xaa]);
    assert_eq!(first.hash, HashFunction::Sha2_256);
    assert_eq!(first.test_type, ecdsa::TestGroupTypeId::Ecdsa);
    let jwk = first.jwk.as_ref().unwrap();
    assert_eq!(jwk.curve, wycheproof::EllipticCurve::Secp256r1);
    assert_eq!(jwk.affine_x.as_bytes(), &vec![0xaa]);
    assert_eq!(jwk.affine_y.as_bytes(), &vec![0xbb]);
    assert!(set.test_groups[1].jwk.is_none());
}

#[test]
fn unknown_curve_and_hash_are_named_in_the_error() {
    let good = ecdsa_document();
    assert_eq!(
        ecdsa::TestSet::load_from_text(&good.replace(r#""curve": "secp256r1""#, r#""curve": "secp257r1""#)),
        Err(WycheproofError::ParsingFailed(ParseError::UnknownValue {
            vocabulary: "EllipticCurve".to_string(),
            value: "secp257r1".to_string()
        }))
    );
    assert_eq!(
        ecdsa::TestSet::load_from_text(&good.replace(r#""sha": "SHA-256""#, r#""sha": "SHA-255""#)),
        Err(WycheproofError::ParsingFailed(ParseError::UnknownValue {
            vocabulary: "HashFunction".to_string(),
            value: "SHA-255".to_string()
        }))
    );
    assert_eq!(
        ecdsa::TestSet::load_from_text(&good.replace(r#""type": "EcPublicKey""#, r#""type": "DsaPublicKey""#)),
        Err(WycheproofError::ParsingFailed(ParseError::UnknownValue {
            vocabulary: "TestKeyTypeId".to_string(),
            value: "DsaPublicKey".to_string()
        }))
    );
    assert_eq!(
        ecdsa::TestSet::load_from_text(&good.replace(r#""x": "qg""#, r#""x": "q=""#)),
        Err(WycheproofError::ParsingFailed(ParseError::Encoding("q=".to_string())))
    );
}

#[test]
fn null_member_is_an_absent_value() {
    let text = ecdsa_document().replace(
        r#""publicKeyJwk": {"crv": "P-256", "kid": "none", "kty": "EC", "x": "qg", "y": "uw"}"#,
        r#""publicKeyJwk": null"#,
    );
    let set = ecdsa::TestSet::load_from_text(&text).unwrap();
    assert!(set.test_groups[0].jwk.is_none());
}

#[test]
fn fpe_lists_hold_signed_and_unsigned_numbers() {
    let text = r#"{
        "algorithm": "AES-FF1", "generatorVersion": "0.9", "numberOfTests": 1, "header": [], "notes": {},
        "schema": "fpe_list_test_schema.json",
        "testGroups": [{"keySize": 128, "msgSize": 3, "radix": 10, "type": "FpeListTest", "tests": [
            {"tcId": 1, "comment": "", "key": "00", "tweak": "", "msg": [1, -1, 0], "ct": [7, 8, 9],
             "result": "invalid", "flags": ["InvalidPlaintext"]}
        ]}]
    }"#;
    let set = fpe_list::TestSet::load_from_text(text).unwrap();
    let test = &set.test_groups[0].tests[0];
    assert_eq!(test.pt, vec![1, -1, 0]);
    assert_eq!(test.ct, vec![7, 8, 9]);
    assert_eq!(
        fpe_list::TestSet::load_from_text(&text.replace("[7, 8, 9]", "[7, -8, 9]")),
        Err(WycheproofError::ParsingFailed(ParseError::Unexpected {
            expected: "an unsigned integer".to_string()
        }))
    );
}

#[test]
fn rsa_pss_group_reads_the_mgf_hash() {
    let text = r#"{
        "algorithm": "RSASSA-PSS", "generatorVersion": "0.9", "numberOfTests": 0, "header": [], "notes": {},
        "schema": "rsassa_pss_verify_schema.json",
        "testGroups": [{"publicKey": {"publicExponent": "010001", "modulus": "00c1"},
            "publicKeyAsn": "30", "publicKeyDer": "30", "publicKeyPem": "pem", "keySize": 2048,
            "mgf": "MGF1", "mgfSha": "SHA-1", "sLen": 20, "sha": "SHA-256",
            "type": "RsassaPssVerify", "tests": []}]
    }"#;
    let set = rsa_pss_verify::TestSet::load_from_text(text).unwrap();
    let group = &set.test_groups[0];
    assert_eq!(group.mgf_hash, Some(HashFunction::Sha1));
    assert_eq!(group.salt_size, 20);
    assert_eq!(group.key.e.as_bytes(), &vec![0x01, 0x00, 0x01]);
    assert!(group.jwk.is_none());
    let shake = text.replace(r#""mgf": "MGF1", "mgfSha": "SHA-1""#, r#""mgf": "SHAKE128", "mgfSha": """#);
    let set = rsa_pss_verify::TestSet::load_from_text(&shake).unwrap();
    assert_eq!(set.test_groups[0].mgf, wycheproof::Mgf::Shake128);
    assert_eq!(set.test_groups[0].mgf_hash, None);
    assert_eq!(
        rsa_pss_verify::TestSet::load_from_text(&text.replace(r#""mgfSha": "SHA-1""#, r#""mgfSha": "SHA3-256""#)),
        Err(WycheproofError::ParsingFailed(ParseError::UnknownValue {
            vocabulary: "HashFunction".to_string(),
            value: "SHA3-256".to_string()
        }))
    );
}

fn with_repeated_note(text: &str) -> Json {
    let mut doc = parse_json(text).unwrap();
    if let Json::Object(members) = &mut doc {
        for (name, value) in members.iter_mut() {
            if name == "notes" {
                if let Json::Object(notes) = value {
                    let again = (
                        notes[0].0.clone(),
                        Json::Object(vec![("bugType".to_string(), Json::Str("BASIC".to_string()))]),
                    );
                    notes.push(again);
                }
            }
        }
    }
    doc
}

#[test]
fn a_flag_has_one_note() {
    let text = aead_document(1, &[aead_group(&[aead_test(1, "valid", "[]")])]);
    let doc = with_repeated_note(&text);
    assert_eq!(
        aead::TestSet::from_json(&doc),
        Err(WycheproofError::ParsingFailed(ParseError::DuplicateKey("InvalidTagSize".to_string())))
    );
    assert_eq!(ParseError::DuplicateKey("Ktv".to_string()).message(), "duplicate key Ktv");
}

#[test]
fn notes_are_looked_up_by_flag() {
    let text = aead_document(1, &[aead_group(&[aead_test(1, "valid", "[]")])]).replace(
        r#""notes": {"#,
        r#""notes": {"Ktv": {"bugType": "BASIC"}, "SmallIv": {"bugType": "EDGE_CASE", "effect": "e"}, "#,
    );
    let set = aead::TestSet::load_from_text(&text).unwrap();
    assert_eq!(set.notes.len(), 3);
    assert_eq!(set.note(aead::TestFlag::KnownTestVector).unwrap().bug_type, wycheproof::BugType::Basic);
    assert_eq!(set.note(aead::TestFlag::SmallIv).unwrap().effect.as_deref(), Some("e"));
    assert_eq!(
        set.note(aead::TestFlag::InvalidTagSize).unwrap().bug_type,
        wycheproof::BugType::ModifiedParameter
    );
    assert!(set.note(aead::TestFlag::ModifiedTag).is_none());
}

#[test]
fn the_first_member_of_a_name_is_the_one_that_counts() {
    let text = aead_document(1, &[aead_group(&[aead_test(1, "valid", "[]")])]);
    let mut doc = parse_json(&text).unwrap();
    if let Json::Object(members) = &mut doc {
        members.push(("numberOfTests".to_string(), Json::UInt(9)));
    }
    assert_eq!(aead::TestSet::from_json(&doc).unwrap().number_of_tests, 1);
}
