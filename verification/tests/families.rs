//! One small document for every test family.

use wycheproof::{BugType, TestResult, WycheproofError};

#[test]
fn aead_document_loads() {
    let text = r#"{
 "algorithm": "A128CBC-HS256",
 "generatorVersion": "0.9",
 "numberOfTests": 1,
 "header": [
  "first",
  "second"
 ],
 "notes": {
  "Ktv": {
   "bugType": "BASIC",
   "description": "a note"
  }
 },
 "schema": "aead_test_schema.json",
 "testGroups": [
  {
   "ivSize": 16,
   "keySize": 16,
   "tagSize": 16,
   "type": "AeadTest",
   "tests": [
    {
     "tcId": 1,
     "comment": "first case",
     "key": "00ff",
     "iv": "00ff",
     "aad": "00ff",
     "msg": "00ff",
     "ct": "00ff",
     "tag": "00ff",
     "result": "valid",
     "flags": [
      "Ktv"
     ]
    }
   ]
  }
 ]
}"#;
    let set = wycheproof::aead::TestSet::load_from_text(text).unwrap();
    assert_eq!(set.algorithm, wycheproof::aead::Algorithm::Aes128CbcHmacSha256);
    assert_eq!(set.generator_version, "0.9");
    assert_eq!(set.number_of_tests, 1);
    assert_eq!(set.header, "first second");
    assert_eq!(set.schema.schema, "aead_test_schema.json");
    assert_eq!(set.notes.len(), 1);
    assert_eq!(set.notes[0].0, wycheproof::aead::TestFlag::KnownTestVector);
    assert_eq!(set.notes[0].1.bug_type, BugType::Basic);
    assert_eq!(set.notes[0].1.description.as_deref(), Some("a note"));
    assert!(set.notes[0].1.cves.is_none());
    assert_eq!(set.test_groups.len(), 1);
    let group = &set.test_groups[0];
    assert_eq!(group.nonce_size, 16);
    assert_eq!(group.key_size, 16);
    assert_eq!(group.tag_size, 16);
    assert_eq!(group.tests.len(), 1);
    let test = &group.tests[0];
    assert_eq!(test.tc_id, 1);
    assert_eq!(test.comment, "first case");
    assert_eq!(test.key, vec![0x00u8, 0xff]);
    assert_eq!(test.nonce, vec![0x00u8, 0xff]);
    assert_eq!(test.aad, vec![0x00u8, 0xff]);
    assert_eq!(test.pt, vec![0x00u8, 0xff]);
    assert_eq!(test.ct, vec![0x00u8, 0xff]);
    assert_eq!(test.tag, vec![0x00u8, 0xff]);
    assert_eq!(test.result, TestResult::Valid);
    assert!(!test.result.must_fail());
    assert_eq!(test.flags, vec![wycheproof::aead::TestFlag::KnownTestVector]);
}

#[test]
fn aead_names_round_trip() {
    let all = wycheproof::aead::TestName::all();
    assert_eq!(all.len(), 25);
    for name in all {
        assert_eq!(wycheproof::aead::TestName::from_str(name.name()).unwrap(), name);
    }
    assert_eq!(wycheproof::aead::TestName::from_str("xchacha20_poly1305").unwrap(), wycheproof::aead::TestName::XChaCha20Poly1305);
    assert_eq!("aegis128".parse::<wycheproof::aead::TestName>(), Ok(wycheproof::aead::TestName::Aegis128));
    assert_eq!(wycheproof::aead::TestName::from_str("no_such_set"), Err(WycheproofError::NoDataSet));
}

#[test]
fn cipher_document_loads() {
    let text = r#"{
 "algorithm": "AES-CBC-PKCS5",
 "generatorVersion": "0.9",
 "numberOfTests": 1,
 "header": [
  "first",
  "second"
 ],
 "notes": {
  "BadPadding": {
   "bugType": "BASIC",
   "description": "a note"
  }
 },
 "schema": "ind_cpa_test_schema.json",
 "testGroups": [
  {
   "ivSize": 16,
   "keySize": 16,
   "type": "IndCpaTest",
   "tests": [
    {
     "tcId": 1,
     "comment": "first case",
     "iv": "00ff",
     "key": "00ff",
     "msg": "00ff",
     "ct": "00ff",
     "result": "valid",
     "flags": [
      "BadPadding"
     ]
    }
   ]
  }
 ]
}"#;
    let set = wycheproof::cipher::TestSet::load_from_text(text).unwrap();
    assert_eq!(set.algorithm, wycheproof::cipher::Algorithm::AesCbcPkcs5);
    assert_eq!(set.generator_version, "0.9");
    assert_eq!(set.number_of_tests, 1);
    assert_eq!(set.header, "first second");
    assert_eq!(set.schema.schema, "ind_cpa_test_schema.json");
    assert_eq!(set.notes.len(), 1);
    assert_eq!(set.notes[0].0, wycheproof::cipher::TestFlag::BadPadding);
    assert_eq!(set.notes[0].1.bug_type, BugType::Basic);
    assert_eq!(set.notes[0].1.description.as_deref(), Some("a note"));
    assert!(set.notes[0].1.cves.is_none());
    assert_eq!(set.test_groups.len(), 1);
    let group = &set.test_groups[0];
    assert_eq!(group.nonce_size, 16);
    assert_eq!(group.key_size, 16);
    assert_eq!(group.tests.len(), 1);
    let test = &group.tests[0];
    assert_eq!(test.tc_id, 1);
    assert_eq!(test.comment, "first case");
    assert_eq!(test.iv.as_bytes(), &vec![0x00u8, 0xff]);
    assert_eq!(test.key.as_bytes(), &vec![0x00u8, 0xff]);
    assert_eq!(test.pt.as_bytes(), &vec![0x00u8, 0xff]);
    assert_eq!(test.ct.as_bytes(), &vec![0x00u8, 0xff]);
    assert_eq!(test.result, TestResult::Valid);
    assert!(!test.result.must_fail());
    assert_eq!(test.flags, vec![wycheproof::cipher::TestFlag::BadPadding]);
}

#[test]
fn cipher_names_round_trip() {
    let all = wycheproof::cipher::TestName::all();
    assert_eq!(all.len(), 4);
    for name in all {
        assert_eq!(wycheproof::cipher::TestName::from_str(name.name()).unwrap(), name);
    }
    assert_eq!(wycheproof::cipher::TestName::from_str("camellia_cbc_pkcs5").unwrap(), wycheproof::cipher::TestName::CamelliaCbcPkcs5);
    assert_eq!("aes_cbc_pkcs5".parse::<wycheproof::cipher::TestName>(), Ok(wycheproof::cipher::TestName::AesCbcPkcs5));
    assert_eq!(wycheproof::cipher::TestName::from_str("no_such_set"), Err(WycheproofError::NoDataSet));
}

#[test]
fn daead_document_loads() {
    let text = r#"{
 "algorithm": "AES-SIV-CMAC",
 "generatorVersion": "0.9",
 "numberOfTests": 1,
 "header": [
  "first",
  "second"
 ],
 "notes": {
  "EdgeCaseSiv": {
   "bugType": "BASIC",
   "description": "a note"
  }
 },
 "schema": "daead_test_schema.json",
 "testGroups": [
  {
   "keySize": 16,
   "type": "DaeadTest",
   "tests": [
    {
     "tcId": 1,
     "comment": "first case",
     "key": "00ff",
     "aad": "00ff",
     "msg": "00ff",
     "ct": "00ff",
     "result": "valid",
     "flags": [
      "EdgeCaseSiv"
     ]
    }
   ]
  }
 ]
}"#;
    let set = wycheproof::daead::TestSet::load_from_text(text).unwrap();
    assert_eq!(set.algorithm, wycheproof::daead::Algorithm::AesSivCmac);
    assert_eq!(set.generator_version, "0.9");
    assert_eq!(set.number_of_tests, 1);
    assert_eq!(set.header, "first second");
    assert_eq!(set.schema.schema, "daead_test_schema.json");
    assert_eq!(set.notes.len(), 1);
    assert_eq!(set.notes[0].0, wycheproof::daead::TestFlag::EdgeCaseSiv);
    assert_eq!(set.notes[0].1.bug_type, BugType::Basic);
    assert_eq!(set.notes[0].1.description.as_deref(), Some("a note"));
    assert!(set.notes[0].1.cves.is_none());
    assert_eq!(set.test_groups.len(), 1);
    let group = &set.test_groups[0];
    assert_eq!(group.key_size, 16);
    assert_eq!(group.tests.len(), 1);
    let test = &group.tests[0];
    assert_eq!(test.tc_id, 1);
    assert_eq!(test.comment, "first case");
    assert_eq!(test.key, vec![0x00u8, 0xff]);
    assert_eq!(test.aad, vec![0x00u8, 0xff]);
    assert_eq!(test.pt, vec![0x00u8, 0xff]);
    assert_eq!(test.ct, vec![0x00u8, 0xff]);
    assert_eq!(test.result, TestResult::Valid);
    assert!(!test.result.must_fail());
    assert_eq!(test.flags, vec![wycheproof::daead::TestFlag::EdgeCaseSiv]);
}

#[test]
fn daead_names_round_trip() {
    let all = wycheproof::daead::TestName::all();
    assert_eq!(all.len(), 1);
    for name in all {
        assert_eq!(wycheproof::daead::TestName::from_str(name.name()).unwrap(), name);
    }
    assert_eq!(wycheproof::daead::TestName::from_str("aes_siv_cmac").unwrap(), wycheproof::daead::TestName::AesGcmSiv);
    assert_eq!("aes_siv_cmac".parse::<wycheproof::daead::TestName>(), Ok(wycheproof::daead::TestName::AesGcmSiv));
    assert_eq!(wycheproof::daead::TestName::from_str("no_such_set"), Err(WycheproofError::NoDataSet));
}

#[test]
fn dsa_document_loads() {
    let text = r#"{
 "algorithm": "DSA",
 "generatorVersion": "0.9",
 "numberOfTests": 1,
 "header": [
  "first",
  "second"
 ],
 "notes": {
  "ArithmeticError": {
   "bugType": "BASIC",
   "description": "a note"
  }
 },
 "schema": "dsa_verify_schema.json",
 "testGroups": [
  {
   "publicKey": {
    "g": "00ff",
    "keySize": 16,
    "p": "00ff",
    "q": "00ff",
    "type": "DsaPublicKey",
    "y": "00ff"
   },
   "publicKeyDer": "00ff",
   "publicKeyPem": "text",
   "sha": "SHA-1",
   "type": "DsaVerify",
   "tests": [
    {
     "tcId": 1,
     "comment": "first case",
     "msg": "00ff",
     "sig": "00ff",
     "result": "valid",
     "flags": [
      "ArithmeticError"
     ]
    }
   ]
  }
 ]
}"#;
    let set = wycheproof::dsa::TestSet::load_from_text(text).unwrap();
    assert_eq!(set.algorithm, wycheproof::dsa::Algorithm::Dsa);
    assert_eq!(set.generator_version, "0.9");
    assert_eq!(set.number_of_tests, 1);
    assert_eq!(set.header, "first second");
    assert_eq!(set.schema.schema, "dsa_verify_schema.json");
    assert_eq!(set.notes.len(), 1);
    assert_eq!(set.notes[0].0, wycheproof::dsa::TestFlag::ArithmeticError);
    assert_eq!(set.notes[0].1.bug_type, BugType::Basic);
    assert_eq!(set.notes[0].1.description.as_deref(), Some("a note"));
    assert!(set.notes[0].1.cves.is_none());
    assert_eq!(set.test_groups.len(), 1);
    let group = &set.test_groups[0];
    assert_eq!(group.der.as_bytes(), &vec![0x00u8, 0xff]);
    assert_eq!(group.pem, "text");
    assert_eq!(group.tests.len(), 1);
    let test = &group.tests[0];
    assert_eq!(test.tc_id, 1);
    assert_eq!(test.comment, "first case");
    assert_eq!(test.msg.as_bytes(), &vec![0x00u8, 0xff]);
    assert_eq!(test.sig.as_bytes(), &vec![0x00u8, 0xff]);
    assert_eq!(test.result, TestResult::Valid);
    assert!(!test.result.must_fail());
    assert_eq!(test.flags, vec![wycheproof::dsa::TestFlag::ArithmeticError]);
}

#[test]
fn dsa_names_round_trip() {
    let all = wycheproof::dsa::TestName::all();
    assert_eq!(all.len(), 8);
    for name in all {
        assert_eq!(wycheproof::dsa::TestName::from_str(name.name()).unwrap(), name);
    }
    assert_eq!(wycheproof::dsa::TestName::from_str("dsa_3072_256_sha256_p1363").unwrap(), wycheproof::dsa::TestName::Dsa3072_256Sha256P1363);
    assert_eq!("dsa_2048_224_sha224".parse::<wycheproof::dsa::TestName>(), Ok(wycheproof::dsa::TestName::Dsa2048_224Sha224));
    assert_eq!(wycheproof::dsa::TestName::from_str("no_such_set"), Err(WycheproofError::NoDataSet));
}

#[test]
fn ec_curve_document_loads() {
    let text = r#"{
 "algorithm": "EcCurveTest",
 "generatorVersion": "0.9",
 "numberOfTests": 1,
 "header": [
  "first",
  "second"
 ],
 "notes": {},
 "schema": "ec_curve_test_schema.json",
 "testGroups": [
  {
   "type": "EcCurveTest",
   "tests": [
    {
     "tcId": 1,
     "comment": "first case",
     "name": "text",
     "oid": "text",
     "ref": "text",
     "p": "00ff",
     "n": "00ff",
     "a": "00ff",
     "b": "00ff",
     "gx": "00ff",
     "gy": "00ff",
     "h": 16,
     "result": "valid",
     "flags": []
    }
   ]
  }
 ]
}"#;
    let set = wycheproof::ec_curve::TestSet::load_from_text(text).unwrap();
    assert_eq!(set.algorithm, wycheproof::ec_curve::Algorithm::EcCurve);
    assert_eq!(set.generator_version, "0.9");
    assert_eq!(set.number_of_tests, 1);
    assert_eq!(set.header, "first second");
    assert_eq!(set.schema.schema, "ec_curve_test_schema.json");
    assert!(set.notes.is_empty());
    assert_eq!(set.test_groups.len(), 1);
    let group = &set.test_groups[0];
    assert_eq!(group.tests.len(), 1);
    let test = &group.tests[0];
    assert_eq!(test.tc_id, 1);
    assert_eq!(test.comment, "first case");
    assert_eq!(test.name, "text");
    assert_eq!(test.oid, "text");
    assert_eq!(test.reference, "text");
    assert_eq!(test.p.as_bytes(), &vec![0x00u8, 0xff]);
    assert_eq!(test.n.as_bytes(), &vec![0x00u8, 0xff]);
    assert_eq!(test.a.as_bytes(), &vec![0x00u8, 0xff]);
    assert_eq!(test.b.as_bytes(), &vec![0x00u8, 0xff]);
    assert_eq!(test.gx.as_bytes(), &vec![0x00u8, 0xff]);
    assert_eq!(test.gy.as_bytes(), &vec![0x00u8, 0xff]);
    assert_eq!(test.h, 16);
    assert_eq!(test.result, TestResult::Valid);
    assert!(!test.result.must_fail());
    assert!(test.flags.is_empty());
}

#[test]
fn ec_curve_names_round_trip() {
    let all = wycheproof::ec_curve::TestName::all();
    assert_eq!(all.len(), 1);
    for name in all {
        assert_eq!(wycheproof::ec_curve::TestName::from_str(name.name()).unwrap(), name);
    }
    assert_eq!(wycheproof::ec_curve::TestName::from_str("ec_prime_order_curves").unwrap(), wycheproof::ec_curve::TestName::EcCurveInfo);
    assert_eq!("ec_prime_order_curves".parse::<wycheproof::ec_curve::TestName>(), Ok(wycheproof::ec_curve::TestName::EcCurveInfo));
    assert_eq!(wycheproof::ec_curve::TestName::from_str("no_such_set"), Err(WycheproofError::NoDataSet));
}

#[test]
fn ecdh_document_loads() {
    let text = r#"{
 "algorithm": "ECDH",
 "generatorVersion": "0.9",
 "numberOfTests": 1,
 "header": [
  "first",
  "second"
 ],
 "notes": {
  "AdditionChain": {
   "bugType": "BASIC",
   "description": "a note"
  }
 },
 "schema": "ecdh_test_schema.json",
 "testGroups": [
  {
   "curve": "secp160r1",
   "encoding": "asn",
   "type": "EcdhTest",
   "tests": [
    {
     "tcId": 1,
     "comment": "first case",
     "public": "00ff",
     "private": "00ff",
     "shared": "00ff",
     "result": "valid",
     "flags": [
      "AdditionChain"
     ]
    }
   ]
  }
 ]
}"#;
    let set = wycheproof::ecdh::TestSet::load_from_text(text).unwrap();
    assert_eq!(set.algorithm, wycheproof::ecdh::Algorithm::Ecdh);
    assert_eq!(set.generator_version, "0.9");
    assert_eq!(set.number_of_tests, 1);
    assert_eq!(set.header, "first second");
    assert_eq!(set.schema.schema, "ecdh_test_schema.json");
    assert_eq!(set.notes.len(), 1);
    assert_eq!(set.notes[0].0, wycheproof::ecdh::TestFlag::AdditionChain);
    assert_eq!(set.notes[0].1.bug_type, BugType::Basic);
    assert_eq!(set.notes[0].1.description.as_deref(), Some("a note"));
    assert!(set.notes[0].1.cves.is_none());
    assert_eq!(set.test_groups.len(), 1);
    let group = &set.test_groups[0];
    assert_eq!(group.tests.len(), 1);
    let test = &group.tests[0];
    assert_eq!(test.tc_id, 1);
    assert_eq!(test.comment, "first case");
    assert_eq!(test.public_key.as_bytes(), &vec![0x00u8, 0xff]);
    assert_eq!(test.private_key.as_bytes(), &vec![0x00u8, 0xff]);
    assert_eq!(test.shared_secret.as_bytes(), &vec![0x00u8, 0xff]);
    assert_eq!(test.result, TestResult::Valid);
    assert!(!test.result.must_fail());
    assert_eq!(test.flags, vec![wycheproof::ecdh::TestFlag::AdditionChain]);
}

#[test]
fn ecdh_names_round_trip() {
    let all = wycheproof::ecdh::TestName::all();
    assert_eq!(all.len(), 14);
    for name in all {
        assert_eq!(wycheproof::ecdh::TestName::from_str(name.name()).unwrap(), name);
    }
    assert_eq!(wycheproof::ecdh::TestName::from_str("ecdh_secp521r1_ecpoint").unwrap(), wycheproof::ecdh::TestName::EcdhSecp521r1Ecpoint);
    assert_eq!("ecdh_brainpoolP224r1".parse::<wycheproof::ecdh::TestName>(), Ok(wycheproof::ecdh::TestName::EcdhBrainpool224r1));
    assert_eq!(wycheproof::ecdh::TestName::from_str("no_such_set"), Err(WycheproofError::NoDataSet));
}

#[test]
fn ecdsa_document_loads() {
    let text = r#"{
 "algorithm": "ECDSA",
 "generatorVersion": "0.9",
 "numberOfTests": 1,
 "header": [
  "first",
  "second"
 ],
 "notes": {
  "ArithmeticError": {
   "bugType": "BASIC",
   "description": "a note"
  }
 },
 "schema": "ecdsa_verify_schema.json",
 "testGroups": [
  {
   "publicKeyJwk": {
    "crv": "secp160r1",
    "kid": "text",
    "kty": "text",
    "x": "AQAB",
    "y": "AQAB"
   },
   "publicKey": {
    "curve": "secp160r1",
    "keySize": 16,
    "type": "EcPublicKey",
    "uncompressed": "00ff",
    "wx": "00ff",
    "wy": "00ff"
   },
   "publicKeyDer": "00ff",
   "publicKeyPem": "text",
   "sha": "SHA-1",
   "type": "EcdsaVerify",
   "tests": [
    {
     "tcId": 1,
     "comment": "first case",
     "msg": "00ff",
     "sig": "00ff",
     "result": "valid",
     "flags": [
      "ArithmeticError"
     ]
    }
   ]
  }
 ]
}"#;
    let set = wycheproof::ecdsa::TestSet::load_from_text(text).unwrap();
    assert_eq!(set.algorithm, wycheproof::ecdsa::Algorithm::Ecdsa);
    assert_eq!(set.generator_version, "0.9");
    assert_eq!(set.number_of_tests, 1);
    assert_eq!(set.header, "first second");
    assert_eq!(set.schema.schema, "ecdsa_verify_schema.json");
    assert_eq!(set.notes.len(), 1);
    assert_eq!(set.notes[0].0, wycheproof::ecdsa::TestFlag::ArithmeticError);
    assert_eq!(set.notes[0].1.bug_type, BugType::Basic);
    assert_eq!(set.notes[0].1.description.as_deref(), Some("a note"));
    assert!(set.notes[0].1.cves.is_none());
    assert_eq!(set.test_groups.len(), 1);
    let group = &set.test_groups[0];
    assert!(group.jwk.is_some());
    assert_eq!(group.der.as_bytes(), &vec![0x00u8, 0xff]);
    assert_eq!(group.pem, "text");
    assert_eq!(group.tests.len(), 1);
    let test = &group.tests[0];
    assert_eq!(test.tc_id, 1);
    assert_eq!(test.comment, "first case");
    assert_eq!(test.msg.as_bytes(), &vec![0x00u8, 0xff]);
    assert_eq!(test.sig.as_bytes(), &vec![0x00u8, 0xff]);
    assert_eq!(test.result, TestResult::Valid);
    assert!(!test.result.must_fail());
    assert_eq!(test.flags, vec![wycheproof::ecdsa::TestFlag::ArithmeticError]);
}

#[test]
fn ecdsa_names_round_trip() {
    let all = wycheproof::ecdsa::TestName::all();
    assert_eq!(all.len(), 76);
    for name in all {
        assert_eq!(wycheproof::ecdsa::TestName::from_str(name.name()).unwrap(), name);
    }
    assert_eq!(wycheproof::ecdsa::TestName::from_str("ecdsa_secp521r1_webcrypto").unwrap(), wycheproof::ecdsa::TestName::EcdsaSecp521r1Webcrypto);
    assert_eq!("ecdsa_brainpoolP224r1_sha224_p1363".parse::<wycheproof::ecdsa::TestName>(), Ok(wycheproof::ecdsa::TestName::EcdsaBrainpool224r1Sha224P1363));
    assert_eq!(wycheproof::ecdsa::TestName::from_str("no_such_set"), Err(WycheproofError::NoDataSet));
}

#[test]
fn eddsa_document_loads() {
    let text = r#"{
 "algorithm": "EDDSA",
 "generatorVersion": "0.9",
 "numberOfTests": 1,
 "header": [
  "first",
  "second"
 ],
 "notes": {
  "CompressedSignature": {
   "bugType": "BASIC",
   "description": "a note"
  }
 },
 "schema": "eddsa_verify_schema.json",
 "testGroups": [
  {
   "publicKeyJwk": {
    "crv": "Ed25519",
    "kid": "text",
    "kty": "text",
    "x": "AQAB"
   },
   "publicKey": {
    "curve": "Ed25519",
    "keySize": 16,
    "pk": "00ff",
    "type": "EDDSAPublicKey"
   },
   "publicKeyDer": "00ff",
   "publicKeyPem": "text",
   "type": "EddsaVerify",
   "tests": [
    {
     "tcId": 1,
     "comment": "first case",
     "msg": "00ff",
     "sig": "00ff",
     "result": "valid",
     "flags": [
      "CompressedSignature"
     ]
    }
   ]
  }
 ]
}"#;
    let set = wycheproof::eddsa::TestSet::load_from_text(text).unwrap();
    assert_eq!(set.algorithm, wycheproof::eddsa::Algorithm::EdDsa);
    assert_eq!(set.generator_version, "0.9");
    assert_eq!(set.number_of_tests, 1);
    assert_eq!(set.header, "first second");
    assert_eq!(set.schema.schema, "eddsa_verify_schema.json");
    assert_eq!(set.notes.len(), 1);
    assert_eq!(set.notes[0].0, wycheproof::eddsa::TestFlag::CompressedSignature);
    assert_eq!(set.notes[0].1.bug_type, BugType::Basic);
    assert_eq!(set.notes[0].1.description.as_deref(), Some("a note"));
    assert!(set.notes[0].1.cves.is_none());
    assert_eq!(set.test_groups.len(), 1);
    let group = &set.test_groups[0];
    assert_eq!(group.der.as_bytes(), &vec![0x00u8, 0xff]);
    assert_eq!(group.pem, "text");
    assert_eq!(group.tests.len(), 1);
    let test = &group.tests[0];
    assert_eq!(test.tc_id, 1);
    assert_eq!(test.comment, "first case");
    assert_eq!(test.msg.as_bytes(), &vec![0x00u8, 0xff]);
    assert_eq!(test.sig.as_bytes(), &vec![0x00u8, 0xff]);
    assert_eq!(test.result, TestResult::Valid);
    assert!(!test.result.must_fail());
    assert_eq!(test.flags, vec![wycheproof::eddsa::TestFlag::CompressedSignature]);
}

#[test]
fn eddsa_names_round_trip() {
    let all = wycheproof::eddsa::TestName::all();
    assert_eq!(all.len(), 2);
    for name in all {
        assert_eq!(wycheproof::eddsa::TestName::from_str(name.name()).unwrap(), name);
    }
    assert_eq!(wycheproof::eddsa::TestName::from_str("ed448").unwrap(), wycheproof::eddsa::TestName::Ed448);
    assert_eq!("ed25519".parse::<wycheproof::eddsa::TestName>(), Ok(wycheproof::eddsa::TestName::Ed25519));
    assert_eq!(wycheproof::eddsa::TestName::from_str("no_such_set"), Err(WycheproofError::NoDataSet));
}

#[test]
fn fpe_list_document_loads() {
    let text = r#"{
 "algorithm": "AES-FF1",
 "generatorVersion": "0.9",
 "numberOfTests": 1,
 "header": [
  "first",
  "second"
 ],
 "notes": {
  "EdgeCasePrf": {
   "bugType": "BASIC",
   "description": "a note"
  }
 },
 "schema": "fpe_list_test_schema.json",
 "testGroups": [
  {
   "keySize": 16,
   "msgSize": 16,
   "radix": 16,
   "type": "FpeListTest",
   "tests": [
    {
     "tcId": 1,
     "comment": "first case",
     "key": "00ff",
     "tweak": "00ff",
     "msg": [
      1,
      -2
     ],
     "ct": [
      3,
      4
     ],
     "result": "valid",
     "flags": [
      "EdgeCasePrf"
     ]
    }
   ]
  }
 ]
}"#;
    let set = wycheproof::fpe_list::TestSet::load_from_text(text).unwrap();
    assert_eq!(set.algorithm, wycheproof::fpe_list::Algorithm::AesFf1);
    assert_eq!(set.generator_version, "0.9");
    assert_eq!(set.number_of_tests, 1);
    assert_eq!(set.header, "first second");
    assert_eq!(set.schema.schema, "fpe_list_test_schema.json");
    assert_eq!(set.notes.len(), 1);
    assert_eq!(set.notes[0].0, wycheproof::fpe_list::TestFlag::EdgeCasePrf);
    assert_eq!(set.notes[0].1.bug_type, BugType::Basic);
    assert_eq!(set.notes[0].1.description.as_deref(), Some("a note"));
    assert!(set.notes[0].1.cves.is_none());
    assert_eq!(set.test_groups.len(), 1);
    let group = &set.test_groups[0];
    assert_eq!(group.key_size, 16);
    assert_eq!(group.msg_size, 16);
    assert_eq!(group.radix, 16);
    assert_eq!(group.tests.len(), 1);
    let test = &group.tests[0];
    assert_eq!(test.tc_id, 1);
    assert_eq!(test.comment, "first case");
    assert_eq!(test.key.as_bytes(), &vec![0x00u8, 0xff]);
    assert_eq!(test.tweak.as_bytes(), &vec![0x00u8, 0xff]);
    assert_eq!(test.pt, vec![1isize, -2]);
    assert_eq!(test.ct, vec![3usize, 4]);
    assert_eq!(test.result, TestResult::Valid);
    assert!(!test.result.must_fail());
    assert_eq!(test.flags, vec![wycheproof::fpe_list::TestFlag::EdgeCasePrf]);
}

#[test]
fn fpe_list_names_round_trip() {
    let all = wycheproof::fpe_list::TestName::all();
    assert_eq!(all.len(), 13);
    for name in all {
        assert_eq!(wycheproof::fpe_list::TestName::from_str(name.name()).unwrap(), name);
    }
    assert_eq!(wycheproof::fpe_list::TestName::from_str("aes_ff1_radix85").unwrap(), wycheproof::fpe_list::TestName::AesFf1Radix85);
    assert_eq!("aes_ff1_radix10".parse::<wycheproof::fpe_list::TestName>(), Ok(wycheproof::fpe_list::TestName::AesFf1Radix10));
    assert_eq!(wycheproof::fpe_list::TestName::from_str("no_such_set"), Err(WycheproofError::NoDataSet));
}

#[test]
fn fpe_str_document_loads() {
    let text = r#"{
 "algorithm": "AES-FF1",
 "generatorVersion": "0.9",
 "numberOfTests": 1,
 "header": [
  "first",
  "second"
 ],
 "notes": {
  "EdgeCasePrf": {
   "bugType": "BASIC",
   "description": "a note"
  }
 },
 "schema": "fpe_str_test_schema.json",
 "testGroups": [
  {
   "alphabet": "text",
   "keySize": 16,
   "msgSize": 16,
   "radix": 16,
   "type": "FpeStrTest",
   "tests": [
    {
     "tcId": 1,
     "comment": "first case",
     "key": "00ff",
     "tweak": "00ff",
     "msg": "text",
     "ct": "text",
     "result": "valid",
     "flags": [
      "EdgeCasePrf"
     ]
    }
   ]
  }
 ]
}"#;
    let set = wycheproof::fpe_str::TestSet::load_from_text(text).unwrap();
    assert_eq!(set.algorithm, wycheproof::fpe_str::Algorithm::AesFf1);
    assert_eq!(set.generator_version, "0.9");
    assert_eq!(set.number_of_tests, 1);
    assert_eq!(set.header, "first second");
    assert_eq!(set.schema.schema, "fpe_str_test_schema.json");
    assert_eq!(set.notes.len(), 1);
    assert_eq!(set.notes[0].0, wycheproof::fpe_str::TestFlag::EdgeCasePrf);
    assert_eq!(set.notes[0].1.bug_type, BugType::Basic);
    assert_eq!(set.notes[0].1.description.as_deref(), Some("a note"));
    assert!(set.notes[0].1.cves.is_none());
    assert_eq!(set.test_groups.len(), 1);
    let group = &set.test_groups[0];
    assert_eq!(group.alphabet, "text");
    assert_eq!(group.key_size, 16);
    assert_eq!(group.msg_size, 16);
    assert_eq!(group.radix, 16);
    assert_eq!(group.tests.len(), 1);
    let test = &group.tests[0];
    assert_eq!(test.tc_id, 1);
    assert_eq!(test.comment, "first case");
    assert_eq!(test.key.as_bytes(), &vec![0x00u8, 0xff]);
    assert_eq!(test.tweak.as_bytes(), &vec![0x00u8, 0xff]);
    assert_eq!(test.msg, "text");
    assert_eq!(test.ct, "text");
    assert_eq!(test.result, TestResult::Valid);
    assert!(!test.result.must_fail());
    assert_eq!(test.flags, vec![wycheproof::fpe_str::TestFlag::EdgeCasePrf]);
}

#[test]
fn fpe_str_names_round_trip() {
    let all = wycheproof::fpe_str::TestName::all();
    assert_eq!(all.len(), 9);
    for name in all {
        assert_eq!(wycheproof::fpe_str::TestName::from_str(name.name()).unwrap(), name);
    }
    assert_eq!(wycheproof::fpe_str::TestName::from_str("aes_ff1_base85").unwrap(), wycheproof::fpe_str::TestName::AesFf1Base85);
    assert_eq!("aes_ff1_base10".parse::<wycheproof::fpe_str::TestName>(), Ok(wycheproof::fpe_str::TestName::AesFf1Base10));
    assert_eq!(wycheproof::fpe_str::TestName::from_str("no_such_set"), Err(WycheproofError::NoDataSet));
}

#[test]
fn hkdf_document_loads() {
    let text = r#"{
 "algorithm": "HKDF-SHA-1",
 "generatorVersion": "0.9",
 "numberOfTests": 1,
 "header": [
  "first",
  "second"
 ],
 "notes": {
  "EmptySalt": {
   "bugType": "BASIC",
   "description": "a note"
  }
 },
 "schema": "hkdf_test_schema.json",
 "testGroups": [
  {
   "keySize": 16,
   "type": "HkdfTest",
   "tests": [
    {
     "tcId": 1,
     "comment": "first case",
     "ikm": "00ff",
     "salt": "00ff",
     "info": "00ff",
     "size": 16,
     "okm": "00ff",
     "result": "valid",
     "flags": [
      "EmptySalt"
     ]
    }
   ]
  }
 ]
}"#;
    let set = wycheproof::hkdf::TestSet::load_from_text(text).unwrap();
    assert_eq!(set.algorithm, wycheproof::hkdf::Algorithm::HkdfSha1);
    assert_eq!(set.generator_version, "0.9");
    assert_eq!(set.number_of_tests, 1);
    assert_eq!(set.header, "first second");
    assert_eq!(set.schema.schema, "hkdf_test_schema.json");
    assert_eq!(set.notes.len(), 1);
    assert_eq!(set.notes[0].0, wycheproof::hkdf::TestFlag::EmptySalt);
    assert_eq!(set.notes[0].1.bug_type, BugType::Basic);
    assert_eq!(set.notes[0].1.description.as_deref(), Some("a note"));
    assert!(set.notes[0].1.cves.is_none());
    assert_eq!(set.test_groups.len(), 1);
    let group = &set.test_groups[0];
    assert_eq!(group.key_size, 16);
    assert_eq!(group.tests.len(), 1);
    let test = &group.tests[0];
    assert_eq!(test.tc_id, 1);
    assert_eq!(test.comment, "first case");
    assert_eq!(test.ikm.as_bytes(), &vec![0x00u8, 0xff]);
    assert_eq!(test.salt.as_bytes(), &vec![0x00u8, 0xff]);
    assert_eq!(test.info.as_bytes(), &vec![0x00u8, 0xff]);
    assert_eq!(test.size, 16);
    assert_eq!(test.okm.as_bytes(), &vec![0x00u8, 0xff]);
    assert_eq!(test.result, TestResult::Valid);
    assert!(!test.result.must_fail());
    assert_eq!(test.flags, vec![wycheproof::hkdf::TestFlag::EmptySalt]);
}

#[test]
fn hkdf_names_round_trip() {
    let all = wycheproof::hkdf::TestName::all();
    assert_eq!(all.len(), 4);
    for name in all {
        assert_eq!(wycheproof::hkdf::TestName::from_str(name.name()).unwrap(), name);
    }
    assert_eq!(wycheproof::hkdf::TestName::from_str("hkdf_sha512").unwrap(), wycheproof::hkdf::TestName::HkdfSha512);
    assert_eq!("hkdf_sha1".parse::<wycheproof::hkdf::TestName>(), Ok(wycheproof::hkdf::TestName::HkdfSha1));
    assert_eq!(wycheproof::hkdf::TestName::from_str("no_such_set"), Err(WycheproofError::NoDataSet));
}

#[test]
fn keywrap_document_loads() {
    let text = r#"{
 "algorithm": "AES-KWP",
 "generatorVersion": "0.9",
 "numberOfTests": 1,
 "header": [
  "first",
  "second"
 ],
 "notes": {
  "CounterOverflow": {
   "bugType": "BASIC",
   "description": "a note"
  }
 },
 "schema": "keywrap_test_schema.json",
 "testGroups": [
  {
   "keySize": 16,
   "type": "KeywrapTest",
   "tests": [
    {
     "tcId": 1,
     "comment": "first case",
     "key": "00ff",
     "msg": "00ff",
     "ct": "00ff",
     "result": "valid",
     "flags": [
      "CounterOverflow"
     ]
    }
   ]
  }
 ]
}"#;
    let set = wycheproof::keywrap::TestSet::load_from_text(text).unwrap();
    assert_eq!(set.algorithm, wycheproof::keywrap::Algorithm::AesKeyWrapWithPadding);
    assert_eq!(set.generator_version, "0.9");
    assert_eq!(set.number_of_tests, 1);
    assert_eq!(set.header, "first second");
    assert_eq!(set.schema.schema, "keywrap_test_schema.json");
    assert_eq!(set.notes.len(), 1);
    assert_eq!(set.notes[0].0, wycheproof::keywrap::TestFlag::CounterOverflow);
    assert_eq!(set.notes[0].1.bug_type, BugType::Basic);
    assert_eq!(set.notes[0].1.description.as_deref(), Some("a note"));
    assert!(set.notes[0].1.cves.is_none());
    assert_eq!(set.test_groups.len(), 1);
    let group = &set.test_groups[0];
    assert_eq!(group.key_size, 16);
    assert_eq!(group.tests.len(), 1);
    let test = &group.tests[0];
    assert_eq!(test.tc_id, 1);
    assert_eq!(test.comment, "first case");
    assert_eq!(test.key.as_bytes(), &vec![0x00u8, 0xff]);
    assert_eq!(test.pt.as_bytes(), &vec![0x00u8, 0xff]);
    assert_eq!(test.ct.as_bytes(), &vec![0x00u8, 0xff]);
    assert_eq!(test.result, TestResult::Valid);
    assert!(!test.result.must_fail());
    assert_eq!(test.flags, vec![wycheproof::keywrap::TestFlag::CounterOverflow]);
}

#[test]
fn keywrap_names_round_trip() {
    let all = wycheproof::keywrap::TestName::all();
    assert_eq!(all.len(), 6);
    for name in all {
        assert_eq!(wycheproof::keywrap::TestName::from_str(name.name()).unwrap(), name);
    }
    assert_eq!(wycheproof::keywrap::TestName::from_str("seed_wrap").unwrap(), wycheproof::keywrap::TestName::SeedKeyWrap);
    assert_eq!("aes_wrap".parse::<wycheproof::keywrap::TestName>(), Ok(wycheproof::keywrap::TestName::AesKeyWrap));
    assert_eq!(wycheproof::keywrap::TestName::from_str("no_such_set"), Err(WycheproofError::NoDataSet));
}

#[test]
fn mac_document_loads() {
    let text = r#"{
 "algorithm": "AES-CMAC",
 "generatorVersion": "0.9",
 "numberOfTests": 1,
 "header": [
  "first",
  "second"
 ],
 "notes": {
  "InvalidKeySize": {
   "bugType": "BASIC",
   "description": "a note"
  }
 },
 "schema": "mac_test_schema.json",
 "testGroups": [
  {
   "keySize": 16,
   "tagSize": 16,
   "type": "MacTest",
   "tests": [
    {
     "tcId": 1,
     "comment": "first case",
     "key": "00ff",
     "msg": "00ff",
     "tag": "00ff",
     "result": "valid",
     "flags": [
      "InvalidKeySize"
     ]
    }
   ]
  }
 ]
}"#;
    let set = wycheproof::mac::TestSet::load_from_text(text).unwrap();
    assert_eq!(set.algorithm, wycheproof::mac::Algorithm::AesCmac);
    assert_eq!(set.generator_version, "0.9");
    assert_eq!(set.number_of_tests, 1);
    assert_eq!(set.header, "first second");
    assert_eq!(set.schema.schema, "mac_test_schema.json");
    assert_eq!(set.notes.len(), 1);
    assert_eq!(set.notes[0].0, wycheproof::mac::TestFlag::InvalidKeySize);
    assert_eq!(set.notes[0].1.bug_type, BugType::Basic);
    assert_eq!(set.notes[0].1.description.as_deref(), Some("a note"));
    assert!(set.notes[0].1.cves.is_none());
    assert_eq!(set.test_groups.len(), 1);
    let group = &set.test_groups[0];
    assert_eq!(group.key_size, 16);
    assert_eq!(group.tag_size, 16);
    assert_eq!(group.tests.len(), 1);
    let test = &group.tests[0];
    assert_eq!(test.tc_id, 1);
    assert_eq!(test.comment, "first case");
    assert_eq!(test.key.as_bytes(), &vec![0x00u8, 0xff]);
    assert_eq!(test.msg.as_bytes(), &vec![0x00u8, 0xff]);
    assert_eq!(test.tag.as_bytes(), &vec![0x00u8, 0xff]);
    assert_eq!(test.result, TestResult::Valid);
    assert!(!test.result.must_fail());
    assert_eq!(test.flags, vec![wycheproof::mac::TestFlag::InvalidKeySize]);
}

#[test]
fn mac_names_round_trip() {
    let all = wycheproof::mac::TestName::all();
    assert_eq!(all.len(), 22);
    for name in all {
        assert_eq!(wycheproof::mac::TestName::from_str(name.name()).unwrap(), name);
    }
    assert_eq!(wycheproof::mac::TestName::from_str("siphashx_4_8").unwrap(), wycheproof::mac::TestName::SipHashx_4_8);
    assert_eq!("aes_cmac".parse::<wycheproof::mac::TestName>(), Ok(wycheproof::mac::TestName::AesCmac));
    assert_eq!(wycheproof::mac::TestName::from_str("no_such_set"), Err(WycheproofError::NoDataSet));
}

#[test]
fn mac_with_nonce_document_loads() {
    let text = r#"{
 "algorithm": "AES-GMAC",
 "generatorVersion": "0.9",
 "numberOfTests": 1,
 "header": [
  "first",
  "second"
 ],
 "notes": {
  "EdgeCase": {
   "bugType": "BASIC",
   "description": "a note"
  }
 },
 "schema": "mac_with_iv_test_schema.json",
 "testGroups": [
  {
   "keySize": 16,
   "tagSize": 16,
   "ivSize": 16,
   "type": "MacWithIvTest",
   "tests": [
    {
     "tcId": 1,
     "comment": "first case",
     "key": "00ff",
     "iv": "00ff",
     "msg": "00ff",
     "tag": "00ff",
     "result": "valid",
     "flags": [
      "EdgeCase"
     ]
    }
   ]
  }
 ]
}"#;
    let set = wycheproof::mac_with_nonce::TestSet::load_from_text(text).unwrap();
    assert_eq!(set.algorithm, wycheproof::mac_with_nonce::Algorithm::AesGmac);
    assert_eq!(set.generator_version, "0.9");
    assert_eq!(set.number_of_tests, 1);
    assert_eq!(set.header, "first second");
    assert_eq!(set.schema.schema, "mac_with_iv_test_schema.json");
    assert_eq!(set.notes.len(), 1);
    assert_eq!(set.notes[0].0, wycheproof::mac_with_nonce::TestFlag::EdgeCase);
    assert_eq!(set.notes[0].1.bug_type, BugType::Basic);
    assert_eq!(set.notes[0].1.description.as_deref(), Some("a note"));
    assert!(set.notes[0].1.cves.is_none());
    assert_eq!(set.test_groups.len(), 1);
    let group = &set.test_groups[0];
    assert_eq!(group.key_size, 16);
    assert_eq!(group.tag_size, 16);
    assert_eq!(group.nonce_size, 16);
    assert_eq!(group.tests.len(), 1);
    let test = &group.tests[0];
    assert_eq!(test.tc_id, 1);
    assert_eq!(test.comment, "first case");
    assert_eq!(test.key.as_bytes(), &vec![0x00u8, 0xff]);
    assert_eq!(test.nonce.as_bytes(), &vec![0x00u8, 0xff]);
    assert_eq!(test.msg.as_bytes(), &vec![0x00u8, 0xff]);
    assert_eq!(test.tag.as_bytes(), &vec![0x00u8, 0xff]);
    assert_eq!(test.result, TestResult::Valid);
    assert!(!test.result.must_fail());
    assert_eq!(test.flags, vec![wycheproof::mac_with_nonce::TestFlag::EdgeCase]);
}

#[test]
fn mac_with_nonce_names_round_trip() {
    let all = wycheproof::mac_with_nonce::TestName::all();
    assert_eq!(all.len(), 3);
    for name in all {
        assert_eq!(wycheproof::mac_with_nonce::TestName::from_str(name.name()).unwrap(), name);
    }
    assert_eq!(wycheproof::mac_with_nonce::TestName::from_str("vmac_128").unwrap(), wycheproof::mac_with_nonce::TestName::Vmac128);
    assert_eq!("aes_gmac".parse::<wycheproof::mac_with_nonce::TestName>(), Ok(wycheproof::mac_with_nonce::TestName::Gmac));
    assert_eq!(wycheproof::mac_with_nonce::TestName::from_str("no_such_set"), Err(WycheproofError::NoDataSet));
}

#[test]
fn mldsa_sign_document_loads() {
    let text = r#"{
 "algorithm": "ML-DSA-44",
 "generatorVersion": "0.9",
 "numberOfTests": 1,
 "header": [
  "first",
  "second"
 ],
 "notes": {
  "BoundaryCondition": {
   "bugType": "BASIC",
   "description": "a note"
  }
 },
 "schema": "mldsa_sign_noseed_schema.json",
 "testGroups": [
  {
   "privateKey": "00ff",
   "privateSeed": "00ff",
   "source": {
    "name": "text",
    "version": "text"
   },
   "type": "MlDsaSign",
   "tests": [
    {
     "tcId": 1,
     "comment": "first case",
     "msg": "00ff",
     "sig": "00ff",
     "ctx": "00ff",
     "result": "valid",
     "flags": [
      "BoundaryCondition"
     ]
    }
   ]
  }
 ]
}"#;
    let set = wycheproof::mldsa_sign::TestSet::load_from_text(text).unwrap();
    assert_eq!(set.algorithm, wycheproof::mldsa_sign::Algorithm::MlDsa44);
    assert_eq!(set.generator_version, "0.9");
    assert_eq!(set.number_of_tests, 1);
    assert_eq!(set.header, "first second");
    assert_eq!(set.schema.schema, "mldsa_sign_noseed_schema.json");
    assert_eq!(set.notes.len(), 1);
    assert_eq!(set.notes[0].0, wycheproof::mldsa_sign::TestFlag::BoundaryCondition);
    assert_eq!(set.notes[0].1.bug_type, BugType::Basic);
    assert_eq!(set.notes[0].1.description.as_deref(), Some("a note"));
    assert!(set.notes[0].1.cves.is_none());
    assert_eq!(set.test_groups.len(), 1);
    let group = &set.test_groups[0];
    assert_eq!(group.privkey.as_ref().unwrap().as_bytes(), &vec![0x00u8, 0xff]);
    assert_eq!(group.privseed.as_ref().unwrap().as_bytes(), &vec![0x00u8, 0xff]);
    assert_eq!(group.tests.len(), 1);
    let test = &group.tests[0];
    assert_eq!(test.tc_id, 1);
    assert_eq!(test.comment, "first case");
    assert_eq!(test.msg.as_bytes(), &vec![0x00u8, 0xff]);
    assert_eq!(test.sig.as_bytes(), &vec![0x00u8, 0xff]);
    assert_eq!(test.ctx.as_ref().unwrap().as_bytes(), &vec![0x00u8, 0xff]);
    assert_eq!(test.result, TestResult::Valid);
    assert!(!test.result.must_fail());
    assert_eq!(test.flags, vec![wycheproof::mldsa_sign::TestFlag::BoundaryCondition]);
}

#[test]
fn mldsa_sign_names_round_trip() {
    let all = wycheproof::mldsa_sign::TestName::all();
    assert_eq!(all.len(), 6);
    for name in all {
        assert_eq!(wycheproof::mldsa_sign::TestName::from_str(name.name()).unwrap(), name);
    }
    assert_eq!(wycheproof::mldsa_sign::TestName::from_str("mldsa_87_sign_seed").unwrap(), wycheproof::mldsa_sign::TestName::MlDsa87SignSeed);
    assert_eq!("mldsa_44_sign_noseed".parse::<wycheproof::mldsa_sign::TestName>(), Ok(wycheproof::mldsa_sign::TestName::MlDsa44SignNoSeed));
    assert_eq!(wycheproof::mldsa_sign::TestName::from_str("no_such_set"), Err(WycheproofError::NoDataSet));
}

#[test]
fn mldsa_verify_document_loads() {
    let text = r#"{
 "algorithm": "ML-DSA-44",
 "generatorVersion": "0.9",
 "numberOfTests": 1,
 "header": [
  "first",
  "second"
 ],
 "notes": {
  "BoundaryCondition": {
   "bugType": "BASIC",
   "description": "a note"
  }
 },
 "schema": "mldsa_verify_schema.json",
 "testGroups": [
  {
   "publicKey": "00ff",
   "type": "MlDsaVerify",
   "tests": [
    {
     "tcId": 1,
     "comment": "first case",
     "msg": "00ff",
     "sig": "00ff",
     "ctx": "00ff",
     "result": "valid",
     "flags": [
      "BoundaryCondition"
     ]
    }
   ]
  }
 ]
}"#;
    let set = wycheproof::mldsa_verify::TestSet::load_from_text(text).unwrap();
    assert_eq!(set.algorithm, wycheproof::mldsa_verify::Algorithm::MlDsa44);
    assert_eq!(set.generator_version, "0.9");
    assert_eq!(set.number_of_tests, 1);
    assert_eq!(set.header, "first second");
    assert_eq!(set.schema.schema, "mldsa_verify_schema.json");
    assert_eq!(set.notes.len(), 1);
    assert_eq!(set.notes[0].0, wycheproof::mldsa_verify::TestFlag::BoundaryCondition);
    assert_eq!(set.notes[0].1.bug_type, BugType::Basic);
    assert_eq!(set.notes[0].1.description.as_deref(), Some("a note"));
    assert!(set.notes[0].1.cves.is_none());
    assert_eq!(set.test_groups.len(), 1);
    let group = &set.test_groups[0];
    assert_eq!(group.pubkey.as_bytes(), &vec![0x00u8, 0xff]);
    assert_eq!(group.tests.len(), 1);
    let test = &group.tests[0];
    assert_eq!(test.tc_id, 1);
    assert_eq!(test.comment, "first case");
    assert_eq!(test.msg.as_bytes(), &vec![0x00u8, 0xff]);
    assert_eq!(test.sig.as_bytes(), &vec![0x00u8, 0xff]);
    assert_eq!(test.ctx.as_ref().unwrap().as_bytes(), &vec![0x00u8, 0xff]);
    assert_eq!(test.result, TestResult::Valid);
    assert!(!test.result.must_fail());
    assert_eq!(test.flags, vec![wycheproof::mldsa_verify::TestFlag::BoundaryCondition]);
}

#[test]
fn mldsa_verify_names_round_trip() {
    let all = wycheproof::mldsa_verify::TestName::all();
    assert_eq!(all.len(), 3);
    for name in all {
        assert_eq!(wycheproof::mldsa_verify::TestName::from_str(name.name()).unwrap(), name);
    }
    assert_eq!(wycheproof::mldsa_verify::TestName::from_str("mldsa_87_verify").unwrap(), wycheproof::mldsa_verify::TestName::MlDsa87Verify);
    assert_eq!("mldsa_44_verify".parse::<wycheproof::mldsa_verify::TestName>(), Ok(wycheproof::mldsa_verify::TestName::MlDsa44Verify));
    assert_eq!(wycheproof::mldsa_verify::TestName::from_str("no_such_set"), Err(WycheproofError::NoDataSet));
}

#[test]
fn primality_document_loads() {
    let text = r#"{
 "algorithm": "PrimalityTest",
 "generatorVersion": "0.9",
 "numberOfTests": 1,
 "header": [
  "first",
  "second"
 ],
 "notes": {
  "AndDub00": {
   "bugType": "BASIC",
   "description": "a note"
  }
 },
 "schema": "primality_test_schema.json",
 "testGroups": [
  {
   "type": "PrimalityTest",
   "tests": [
    {
     "tcId": 1,
     "comment": "first case",
     "value": "00ff",
     "result": "valid",
     "flags": [
      "AndDub00"
     ]
    }
   ]
  }
 ]
}"#;
    let set = wycheproof::primality::TestSet::load_from_text(text).unwrap();
    assert_eq!(set.algorithm, wycheproof::primality::Algorithm::Primality);
    assert_eq!(set.generator_version, "0.9");
    assert_eq!(set.number_of_tests, 1);
    assert_eq!(set.header, "first second");
    assert_eq!(set.schema.schema, "primality_test_schema.json");
    assert_eq!(set.notes.len(), 1);
    assert_eq!(set.notes[0].0, wycheproof::primality::TestFlag::AndDub00);
    assert_eq!(set.notes[0].1.bug_type, BugType::Basic);
    assert_eq!(set.notes[0].1.description.as_deref(), Some("a note"));
    assert!(set.notes[0].1.cves.is_none());
    assert_eq!(set.test_groups.len(), 1);
    let group = &set.test_groups[0];
    assert_eq!(group.tests.len(), 1);
    let test = &group.tests[0];
    assert_eq!(test.tc_id, 1);
    assert_eq!(test.comment, "first case");
    assert_eq!(test.value.as_bytes(), &vec![0x00u8, 0xff]);
    assert_eq!(test.result, TestResult::Valid);
    assert!(!test.result.must_fail());
    assert_eq!(test.flags, vec![wycheproof::primality::TestFlag::AndDub00]);
}

#[test]
fn primality_names_round_trip() {
    let all = wycheproof::primality::TestName::all();
    assert_eq!(all.len(), 1);
    for name in all {
        assert_eq!(wycheproof::primality::TestName::from_str(name.name()).unwrap(), name);
    }
    assert_eq!(wycheproof::primality::TestName::from_str("primality").unwrap(), wycheproof::primality::TestName::Primality);
    assert_eq!("primality".parse::<wycheproof::primality::TestName>(), Ok(wycheproof::primality::TestName::Primality));
    assert_eq!(wycheproof::primality::TestName::from_str("no_such_set"), Err(WycheproofError::NoDataSet));
}

#[test]
fn rsa_oaep_document_loads() {
    let text = r#"{
 "algorithm": "RSAES-OAEP",
 "generatorVersion": "0.9",
 "numberOfTests": 1,
 "header": [
  "first",
  "second"
 ],
 "notes": {
  "Constructed": {
   "bugType": "BASIC",
   "description": "a note"
  }
 },
 "schema": "rsaes_oaep_decrypt_schema.json",
 "testGroups": [
  {
   "privateKey": {
    "publicExponent": "00ff",
    "privateExponent": "00ff",
    "modulus": "00ff",
    "prime1": "00ff",
    "prime2": "00ff",
    "exponent1": "00ff",
    "exponent2": "00ff",
    "coefficient": "00ff"
   },
   "keySize": 16,
   "mgf": "MGF1",
   "mgfSha": "SHA-1",
   "privateKeyJwk": {
    "alg": "text",
    "d": "AQAB",
    "dp": "AQAB",
    "dq": "AQAB",
    "e": "AQAB",
    "kid": "text",
    "kty": "text",
    "n": "AQAB",
    "p": "AQAB",
    "q": "AQAB",
    "qi": "AQAB"
   },
   "privateKeyPkcs8": "00ff",
   "privateKeyPem": "text",
   "sha": "SHA-1",
   "type": "RsaesOaepDecrypt",
   "tests": [
    {
     "tcId": 1,
     "comment": "first case",
     "msg": "00ff",
     "ct": "00ff",
     "label": "00ff",
     "result": "valid",
     "flags": [
      "Constructed"
     ]
    }
   ]
  }
 ]
}"#;
    let set = wycheproof::rsa_oaep::TestSet::load_from_text(text).unwrap();
    assert_eq!(set.algorithm, wycheproof::rsa_oaep::Algorithm::RsaOaep);
    assert_eq!(set.generator_version, "0.9");
    assert_eq!(set.number_of_tests, 1);
    assert_eq!(set.header, "first second");
    assert_eq!(set.schema.schema, "rsaes_oaep_decrypt_schema.json");
    assert_eq!(set.notes.len(), 1);
    assert_eq!(set.notes[0].0, wycheproof::rsa_oaep::TestFlag::Constructed);
    assert_eq!(set.notes[0].1.bug_type, BugType::Basic);
    assert_eq!(set.notes[0].1.description.as_deref(), Some("a note"));
    assert!(set.notes[0].1.cves.is_none());
    assert_eq!(set.test_groups.len(), 1);
    let group = &set.test_groups[0];
    assert_eq!(group.key_size, 16);
    assert!(group.jwk.is_some());
    assert_eq!(group.pkcs8, vec![0x00u8, 0xff]);
    assert_eq!(group.pem, "text");
    assert_eq!(group.tests.len(), 1);
    let test = &group.tests[0];
    assert_eq!(test.tc_id, 1);
    assert_eq!(test.comment, "first case");
    assert_eq!(test.msg, vec![0x00u8, 0xff]);
    assert_eq!(test.ct, vec![0x00u8, 0xff]);
    assert_eq!(test.label, vec![0x00u8, 0xff]);
    assert_eq!(test.result, TestResult::Valid);
    assert!(!test.result.must_fail());
    assert_eq!(test.flags, vec![wycheproof::rsa_oaep::TestFlag::Constructed]);
}

#[test]
fn rsa_oaep_names_round_trip() {
    let all = wycheproof::rsa_oaep::TestName::all();
    assert_eq!(all.len(), 22);
    for name in all {
        assert_eq!(wycheproof::rsa_oaep::TestName::from_str(name.name()).unwrap(), name);
    }
    assert_eq!(wycheproof::rsa_oaep::TestName::from_str("rsa_oaep_misc").unwrap(), wycheproof::rsa_oaep::TestName::RsaMisc);
    assert_eq!("rsa_oaep_2048_sha1_mgf1sha1".parse::<wycheproof::rsa_oaep::TestName>(), Ok(wycheproof::rsa_oaep::TestName::Rsa2048Sha1Mgf1Sha1));
    assert_eq!(wycheproof::rsa_oaep::TestName::from_str("no_such_set"), Err(WycheproofError::NoDataSet));
}

#[test]
fn rsa_pkcs1_decrypt_document_loads() {
    let text = r#"{
 "algorithm": "RSAES-PKCS1-v1_5",
 "generatorVersion": "0.9",
 "numberOfTests": 1,
 "header": [
  "first",
  "second"
 ],
 "notes": {
  "CVE 2020-14967": {
   "bugType": "BASIC",
   "description": "a note"
  }
 },
 "schema": "rsaes_pkcs1_decrypt_schema.json",
 "testGroups": [
  {
   "privateKey": {
    "publicExponent": "00ff",
    "privateExponent": "00ff",
    "modulus": "00ff",
    "prime1": "00ff",
    "prime2": "00ff",
    "exponent1": "00ff",
    "exponent2": "00ff",
    "coefficient": "00ff"
   },
   "keySize": 16,
   "privateKeyJwk": {
    "alg": "text",
    "d": "AQAB",
    "dp": "AQAB",
    "dq": "AQAB",
    "e": "AQAB",
    "kid": "text",
    "kty": "text",
    "n": "AQAB",
    "p": "AQAB",
    "q": "AQAB",
    "qi": "AQAB"
   },
   "privateKeyPkcs8": "00ff",
   "privateKeyPem": "text",
   "type": "RsaesPkcs1Decrypt",
   "tests": [
    {
     "tcId": 1,
     "comment": "first case",
     "msg": "00ff",
     "ct": "00ff",
     "result": "valid",
     "flags": [
      "CVE 2020-14967"
     ]
    }
   ]
  }
 ]
}"#;
    let set = wycheproof::rsa_pkcs1_decrypt::TestSet::load_from_text(text).unwrap();
    assert_eq!(set.algorithm, wycheproof::rsa_pkcs1_decrypt::Algorithm::RsaPkcs1v15Encryption);
    assert_eq!(set.generator_version, "0.9");
    assert_eq!(set.number_of_tests, 1);
    assert_eq!(set.header, "first second");
    assert_eq!(set.schema.schema, "rsaes_pkcs1_decrypt_schema.json");
    assert_eq!(set.notes.len(), 1);
    assert_eq!(set.notes[0].0, wycheproof::rsa_pkcs1_decrypt::TestFlag::LeadingZerosOnCiphertext);
    assert_eq!(set.notes[0].1.bug_type, BugType::Basic);
    assert_eq!(set.notes[0].1.description.as_deref(), Some("a note"));
    assert!(set.notes[0].1.cves.is_none());
    assert_eq!(set.test_groups.len(), 1);
    let group = &set.test_groups[0];
    assert_eq!(group.key_size, 16);
    assert!(group.jwk.is_some());
    assert_eq!(group.pkcs8.as_bytes(), &vec![0x00u8, 0xff]);
    assert_eq!(group.pem, "text");
    assert_eq!(group.tests.len(), 1);
    let test = &group.tests[0];
    assert_eq!(test.tc_id, 1);
    assert_eq!(test.comment, "first case");
    assert_eq!(test.pt.as_bytes(), &vec![0x00u8, 0xff]);
    assert_eq!(test.ct.as_bytes(), &vec![0x00u8, 0xff]);
    assert_eq!(test.result, TestResult::Valid);
    assert!(!test.result.must_fail());
    assert_eq!(test.flags, vec![wycheproof::rsa_pkcs1_decrypt::TestFlag::LeadingZerosOnCiphertext]);
}

#[test]
fn rsa_pkcs1_decrypt_names_round_trip() {
    let all = wycheproof::rsa_pkcs1_decrypt::TestName::all();
    assert_eq!(all.len(), 3);
    for name in all {
        assert_eq!(wycheproof::rsa_pkcs1_decrypt::TestName::from_str(name.name()).unwrap(), name);
    }
    assert_eq!(wycheproof::rsa_pkcs1_decrypt::TestName::from_str("rsa_pkcs1_4096").unwrap(), wycheproof::rsa_pkcs1_decrypt::TestName::Rsa4096);
    assert_eq!("rsa_pkcs1_2048".parse::<wycheproof::rsa_pkcs1_decrypt::TestName>(), Ok(wycheproof::rsa_pkcs1_decrypt::TestName::Rsa2048));
    assert_eq!(wycheproof::rsa_pkcs1_decrypt::TestName::from_str("no_such_set"), Err(WycheproofError::NoDataSet));
}

#[test]
fn rsa_pkcs1_sign_document_loads() {
    let text = r#"{
 "algorithm": "RSASSA-PKCS1-v1_5",
 "generatorVersion": "0.9",
 "numberOfTests": 1,
 "header": [
  "first",
  "second"
 ],
 "notes": {
  "SmallPublicKey": {
   "bugType": "BASIC",
   "description": "a note"
  }
 },
 "schema": "rsassa_pkcs1_generate_schema.json",
 "testGroups": [
  {
   "d": "00ff",
   "e": "00ff",
   "keyAsn": "00ff",
   "keyDer": "00ff",
   "keyJwk": {
    "alg": "text",
    "e": "AQAB",
    "kid": "text",
    "kty": "text",
    "n": "AQAB"
   },
   "privateKeyJwk": {
    "alg": "text",
    "d": "AQAB",
    "dp": "AQAB",
    "dq": "AQAB",
    "e": "AQAB",
    "kid": "text",
    "kty": "text",
    "n": "AQAB",
    "p": "AQAB",
    "q": "AQAB",
    "qi": "AQAB"
   },
   "keyPem": "text",
   "privateKeyPem": "text",
   "privateKeyPkcs8": "text",
   "keysize": 16,
   "n": "00ff",
   "sha": "SHA-1",
   "type": "RsassaPkcs1Generate",
   "tests": [
    {
     "tcId": 1,
     "comment": "first case",
     "msg": "00ff",
     "sig": "00ff",
     "result": "valid",
     "flags": [
      "SmallPublicKey"
     ]
    }
   ]
  }
 ]
}"#;
    let set = wycheproof::rsa_pkcs1_sign::TestSet::load_from_text(text).unwrap();
    assert_eq!(set.algorithm, wycheproof::rsa_pkcs1_sign::Algorithm::RsaPkcs1v15);
    assert_eq!(set.generator_version, "0.9");
    assert_eq!(set.number_of_tests, 1);
    assert_eq!(set.header, "first second");
    assert_eq!(set.schema.schema, "rsassa_pkcs1_generate_schema.json");
    assert_eq!(set.notes.len(), 1);
    assert_eq!(set.notes[0].0, wycheproof::rsa_pkcs1_sign::TestFlag::SmallPublicKey);
    assert_eq!(set.notes[0].1.bug_type, BugType::Basic);
    assert_eq!(set.notes[0].1.description.as_deref(), Some("a note"));
    assert!(set.notes[0].1.cves.is_none());
    assert_eq!(set.test_groups.len(), 1);
    let group = &set.test_groups[0];
    assert_eq!(group.d, vec![0x00u8, 0xff]);
    assert_eq!(group.e, vec![0x00u8, 0xff]);
    assert_eq!(group.asn_key, vec![0x00u8, 0xff]);
    assert_eq!(group.der, vec![0x00u8, 0xff]);
    assert!(group.public_jwk.is_some());
    assert!(group.private_jwk.is_some());
    assert_eq!(group.public_pem, "text");
    assert_eq!(group.private_pem, "text");
    assert_eq!(group.private_pkcs8, "text");
    assert_eq!(group.key_size, 16);
    assert_eq!(group.n, vec![0x00u8, 0xff]);
    assert_eq!(group.tests.len(), 1);
    let test = &group.tests[0];
    assert_eq!(test.tc_id, 1);
    assert_eq!(test.comment, "first case");
    assert_eq!(test.msg, vec![0x00u8, 0xff]);
    assert_eq!(test.sig, vec![0x00u8, 0xff]);
    assert_eq!(test.result, TestResult::Valid);
    assert!(!test.result.must_fail());
    assert_eq!(test.flags, vec![wycheproof::rsa_pkcs1_sign::TestFlag::SmallPublicKey]);
}

#[test]
fn rsa_pkcs1_sign_names_round_trip() {
    let all = wycheproof::rsa_pkcs1_sign::TestName::all();
    assert_eq!(all.len(), 1);
    for name in all {
        assert_eq!(wycheproof::rsa_pkcs1_sign::TestName::from_str(name.name()).unwrap(), name);
    }
    assert_eq!(wycheproof::rsa_pkcs1_sign::TestName::from_str("rsa_sig_gen_misc").unwrap(), wycheproof::rsa_pkcs1_sign::TestName::RsaMisc);
    assert_eq!("rsa_sig_gen_misc".parse::<wycheproof::rsa_pkcs1_sign::TestName>(), Ok(wycheproof::rsa_pkcs1_sign::TestName::RsaMisc));
    assert_eq!(wycheproof::rsa_pkcs1_sign::TestName::from_str("no_such_set"), Err(WycheproofError::NoDataSet));
}

#[test]
fn rsa_pkcs1_verify_document_loads() {
    let text = r#"{
 "algorithm": "RSASSA-PKCS1-v1_5",
 "generatorVersion": "0.9",
 "numberOfTests": 1,
 "header": [
  "first",
  "second"
 ],
 "notes": {
  "BerEncodedPadding": {
   "bugType": "BASIC",
   "description": "a note"
  }
 },
 "schema": "rsassa_pkcs1_verify_schema.json",
 "testGroups": [
  {
   "publicKey": {
    "publicExponent": "00ff",
    "modulus": "00ff"
   },
   "publicKeyAsn": "00ff",
   "publicKeyDer": "00ff",
   "keyJwk": {
    "alg": "text",
    "e": "AQAB",
    "kid": "text",
    "kty": "text",
    "n": "AQAB"
   },
   "publicKeyPem": "text",
   "keySize": 16,
   "sha": "SHA-1",
   "type": "RsassaPkcs1Verify",
   "tests": [
    {
     "tcId": 1,
     "comment": "first case",
     "msg": "00ff",
     "sig": "00ff",
     "result": "valid",
     "flags": [
      "BerEncodedPadding"
     ]
    }
   ]
  }
 ]
}"#;
    let set = wycheproof::rsa_pkcs1_verify::TestSet::load_from_text(text).unwrap();
    assert_eq!(set.algorithm, wycheproof::rsa_pkcs1_verify::Algorithm::RsaPkcs1v15);
    assert_eq!(set.generator_version, "0.9");
    assert_eq!(set.number_of_tests, 1);
    assert_eq!(set.header, "first second");
    assert_eq!(set.schema.schema, "rsassa_pkcs1_verify_schema.json");
    assert_eq!(set.notes.len(), 1);
    assert_eq!(set.notes[0].0, wycheproof::rsa_pkcs1_verify::TestFlag::BerEncodedPadding);
    assert_eq!(set.notes[0].1.bug_type, BugType::Basic);
    assert_eq!(set.notes[0].1.description.as_deref(), Some("a note"));
    assert!(set.notes[0].1.cves.is_none());
    assert_eq!(set.test_groups.len(), 1);
    let group = &set.test_groups[0];
    assert_eq!(group.asn_key, vec![0x00u8, 0xff]);
    assert_eq!(group.der, vec![0x00u8, 0xff]);
    assert!(group.jwk.is_some());
    assert_eq!(group.pem, "text");
    assert_eq!(group.key_size, 16);
    assert_eq!(group.tests.len(), 1);
    let test = &group.tests[0];
    assert_eq!(test.tc_id, 1);
    assert_eq!(test.comment, "first case");
    assert_eq!(test.msg, vec![0x00u8, 0xff]);
    assert_eq!(test.sig, vec![0x00u8, 0xff]);
    assert_eq!(test.result, TestResult::Valid);
    assert!(!test.result.must_fail());
    assert_eq!(test.flags, vec![wycheproof::rsa_pkcs1_verify::TestFlag::BerEncodedPadding]);
}

#[test]
fn rsa_pkcs1_verify_names_round_trip() {
    let all = wycheproof::rsa_pkcs1_verify::TestName::all();
    assert_eq!(all.len(), 24);
    for name in all {
        assert_eq!(wycheproof::rsa_pkcs1_verify::TestName::from_str(name.name()).unwrap(), name);
    }
    assert_eq!(wycheproof::rsa_pkcs1_verify::TestName::from_str("rsa_signature_8192_sha512").unwrap(), wycheproof::rsa_pkcs1_verify::TestName::Rsa8192Sha512);
    assert_eq!("rsa_signature_2048_sha224".parse::<wycheproof::rsa_pkcs1_verify::TestName>(), Ok(wycheproof::rsa_pkcs1_verify::TestName::Rsa2048Sha224));
    assert_eq!(wycheproof::rsa_pkcs1_verify::TestName::from_str("no_such_set"), Err(WycheproofError::NoDataSet));
}

#[test]
fn rsa_pss_verify_document_loads() {
    let text = r#"{
 "algorithm": "RSASSA-PSS",
 "generatorVersion": "0.9",
 "numberOfTests": 1,
 "header": [
  "first",
  "second"
 ],
 "notes": {
  "DistinctHash": {
   "bugType": "BASIC",
   "description": "a note"
  }
 },
 "schema": "rsassa_pss_verify_schema.json",
 "testGroups": [
  {
   "publicKey": {
    "publicExponent": "00ff",
    "modulus": "00ff"
   },
   "publicKeyAsn": "00ff",
   "publicKeyDer": "00ff",
   "publicKeyPem": "text",
   "publicKeyJwk": {
    "alg": "text",
    "e": "AQAB",
    "kid": "text",
    "kty": "text",
    "n": "AQAB"
   },
   "keySize": 16,
   "mgf": "MGF1",
   "mgfSha": "SHA-256",
   "sLen": 16,
   "sha": "SHA-1",
   "type": "RsassaPssVerify",
   "tests": [
    {
     "tcId": 1,
     "comment": "first case",
     "msg": "00ff",
     "sig": "00ff",
     "result": "valid",
     "flags": [
      "DistinctHash"
     ]
    }
   ]
  }
 ]
}"#;
    let set = wycheproof::rsa_pss_verify::TestSet::load_from_text(text).unwrap();
    assert_eq!(set.algorithm, wycheproof::rsa_pss_verify::Algorithm::RsaPss);
    assert_eq!(set.generator_version, "0.9");
    assert_eq!(set.number_of_tests, 1);
    assert_eq!(set.header, "first second");
    assert_eq!(set.schema.schema, "rsassa_pss_verify_schema.json");
    assert_eq!(set.notes.len(), 1);
    assert_eq!(set.notes[0].0, wycheproof::rsa_pss_verify::TestFlag::DistinctHash);
    assert_eq!(set.notes[0].1.bug_type, BugType::Basic);
    assert_eq!(set.notes[0].1.description.as_deref(), Some("a note"));
    assert!(set.notes[0].1.cves.is_none());
    assert_eq!(set.test_groups.len(), 1);
    let group = &set.test_groups[0];
    assert_eq!(group.asn_key.as_bytes(), &vec![0x00u8, 0xff]);
    assert_eq!(group.der.as_bytes(), &vec![0x00u8, 0xff]);
    assert_eq!(group.pem, "text");
    assert!(group.jwk.is_some());
    assert_eq!(group.key_size, 16);
    assert!(group.mgf_hash.is_some());
    assert_eq!(group.salt_size, 16);
    assert_eq!(group.tests.len(), 1);
    let test = &group.tests[0];
    assert_eq!(test.tc_id, 1);
    assert_eq!(test.comment, "first case");
    assert_eq!(test.msg.as_bytes(), &vec![0x00u8, 0xff]);
    assert_eq!(test.sig.as_bytes(), &vec![0x00u8, 0xff]);
    assert_eq!(test.result, TestResult::Valid);
    assert!(!test.result.must_fail());
    assert_eq!(test.flags, vec![wycheproof::rsa_pss_verify::TestFlag::DistinctHash]);
}

#[test]
fn rsa_pss_verify_names_round_trip() {
    let all = wycheproof::rsa_pss_verify::TestName::all();
    assert_eq!(all.len(), 30);
    for name in all {
        assert_eq!(wycheproof::rsa_pss_verify::TestName::from_str(name.name()).unwrap(), name);
    }
    assert_eq!(wycheproof::rsa_pss_verify::TestName::from_str("rsa_pss_misc").unwrap(), wycheproof::rsa_pss_verify::TestName::RsaPssmisc);
    assert_eq!("rsa_pss_2048_sha1_mgf1_20_params".parse::<wycheproof::rsa_pss_verify::TestName>(), Ok(wycheproof::rsa_pss_verify::TestName::RsaPss2048Sha1Mgf1SaltLen20WithParams));
    assert_eq!(wycheproof::rsa_pss_verify::TestName::from_str("no_such_set"), Err(WycheproofError::NoDataSet));
}

#[test]
fn xdh_document_loads() {
    let text = r#"{
 "algorithm": "XDH",
 "generatorVersion": "0.9",
 "numberOfTests": 1,
 "header": [
  "first",
  "second"
 ],
 "notes": {
  "EdgeCaseMultiplication": {
   "bugType": "BASIC",
   "description": "a note"
  }
 },
 "schema": "xdh_comp_schema.json",
 "testGroups": [
  {
   "curve": "X25519",
   "type": "XdhComp",
   "tests": [
    {
     "tcId": 1,
     "comment": "first case",
     "public": "00ff",
     "private": "00ff",
     "shared": "00ff",
     "result": "valid",
     "flags": [
      "EdgeCaseMultiplication"
     ]
    }
   ]
  }
 ]
}"#;
    let set = wycheproof::xdh::TestSet::load_from_text(text).unwrap();
    assert_eq!(set.algorithm, wycheproof::xdh::Algorithm::Xdh);
    assert_eq!(set.generator_version, "0.9");
    assert_eq!(set.number_of_tests, 1);
    assert_eq!(set.header, "first second");
    assert_eq!(set.schema.schema, "xdh_comp_schema.json");
    assert_eq!(set.notes.len(), 1);
    assert_eq!(set.notes[0].0, wycheproof::xdh::TestFlag::EdgeCaseMultiplication);
    assert_eq!(set.notes[0].1.bug_type, BugType::Basic);
    assert_eq!(set.notes[0].1.description.as_deref(), Some("a note"));
    assert!(set.notes[0].1.cves.is_none());
    assert_eq!(set.test_groups.len(), 1);
    let group = &set.test_groups[0];
    assert_eq!(group.tests.len(), 1);
    let test = &group.tests[0];
    assert_eq!(test.tc_id, 1);
    assert_eq!(test.comment, "first case");
    assert_eq!(test.public_key.as_bytes(), &vec![0x00u8, 0xff]);
    assert_eq!(test.private_key.as_bytes(), &vec![0x00u8, 0xff]);
    assert_eq!(test.shared_secret.as_bytes(), &vec![0x00u8, 0xff]);
    assert_eq!(test.result, TestResult::Valid);
    assert!(!test.result.must_fail());
    assert_eq!(test.flags, vec![wycheproof::xdh::TestFlag::EdgeCaseMultiplication]);
}

#[test]
fn xdh_names_round_trip() {
    let all = wycheproof::xdh::TestName::all();
    assert_eq!(all.len(), 2);
    for name in all {
        assert_eq!(wycheproof::xdh::TestName::from_str(name.name()).unwrap(), name);
    }
    assert_eq!(wycheproof::xdh::TestName::from_str("x448").unwrap(), wycheproof::xdh::TestName::X448);
    assert_eq!("x25519".parse::<wycheproof::xdh::TestName>(), Ok(wycheproof::xdh::TestName::X25519));
    assert_eq!(wycheproof::xdh::TestName::from_str("no_such_set"), Err(WycheproofError::NoDataSet));
}
