//! ECDSA verification tests.

use vstd::prelude::*;
use crate::bytes::{ByteString, LargeInteger};
use crate::decode::{field, optional_field, spec_field, spec_optional_field};
use crate::error::{ParseError, ParseFailure, WycheproofError};
use crate::json::{spec_find, Json};
use crate::named::{Named, named_field, named_list_field, spec_named_field, spec_named_list_field};
use crate::notes::{TestFlagInfo, TestFlagInfoView};
use crate::record::Record;
use crate::suite::{
    Case, check, count_matches, distinct_keys, from_json, Grouped, header_field,
    lemma_decoded_map_distinct, load_from_text, load_outcome, load_post, lookup, map_field,
    spec_from_json, spec_header_field, spec_lookup, spec_map_field, spec_total_tests, Suite, sum,
    test_counts,
};
use crate::test_keys::{EcdsaPublicJwk, EcdsaPublicJwkView};
use crate::text::str_eq;
use crate::vocab::{EllipticCurve, HashFunction, TestResult};

verus! {

/// The schema that a document of ECDSA verify tests declares.
#[derive(Debug, Clone, Hash, PartialEq, Eq)]
pub struct TestSchema {
    pub schema: String,
}

impl DeepView for TestSchema {
    type V = Seq<char>;

    open spec fn deep_view(&self) -> Seq<char> {
        self.schema@
    }
}

impl Named for TestSchema {
    open spec fn spec_vocabulary() -> Seq<char> {
        "ECDSA verify schema"@
    }

    fn vocabulary() -> (r: &'static str) {
        "ECDSA verify schema"
    }

    open spec fn spec_from_name(name: Seq<char>) -> Option<Seq<char>> {
        if name == "ecdsa_verify_schema.json"@ || name == "ecdsa_p1363_verify_schema.json"@ || name == "ecdsa_bitcoin_verify_schema.json"@ {
            Some(name)
        } else {
            None
        }
    }

    fn from_name(name: &str) -> (r: Option<TestSchema>) {
        if str_eq(name, "ecdsa_verify_schema.json") || str_eq(name, "ecdsa_p1363_verify_schema.json") || str_eq(name, "ecdsa_bitcoin_verify_schema.json") {
            Some(TestSchema { schema: name.to_owned() })
        } else {
            None
        }
    }

    fn same(&self, other: &TestSchema) -> (r: bool) {
        str_eq(self.schema.as_str(), other.schema.as_str())
    }
}

/// The test sets of this family.
#[allow(non_camel_case_types)]
#[derive(Debug, Copy, Clone, Hash, PartialEq, Eq, Structural)]
pub enum TestName {
    EcdsaBrainpool224r1Sha224P1363,
    EcdsaBrainpool224r1Sha224,
    EcdsaBrainpool224r1Sha3_224,
    EcdsaBrainpool256r1Sha256P1363,
    EcdsaBrainpool256r1Sha256,
    EcdsaBrainpool256r1Sha3_256,
    EcdsaBrainpool320r1Sha3_384,
    EcdsaBrainpool320r1Sha384P1363,
    EcdsaBrainpool320r1Sha384,
    EcdsaBrainpool384r1Sha3_384,
    EcdsaBrainpool384r1Sha384P1363,
    EcdsaBrainpool384r1Sha384,
    EcdsaBrainpool512r1Sha3_512,
    EcdsaBrainpool512r1Sha512P1363,
    EcdsaBrainpool512r1Sha512,
    EcdsaSecp160k1Sha256P1363,
    EcdsaSecp160k1Sha256,
    EcdsaSecp160r1Sha256P1363,
    EcdsaSecp160r1Sha256,
    EcdsaSecp160r2Sha256P1363,
    EcdsaSecp160r2Sha256,
    EcdsaSecp192k1Sha256P1363,
    EcdsaSecp192k1Sha256,
    EcdsaSecp192r1Sha256P1363,
    EcdsaSecp192r1Sha256,
    EcdsaSecp224k1Sha224P1363,
    EcdsaSecp224k1Sha224,
    EcdsaSecp224k1Sha256P1363,
    EcdsaSecp224k1Sha256,
    EcdsaSecp224r1Sha224P1363,
    EcdsaSecp224r1Sha224,
    EcdsaSecp224r1Sha256P1363,
    EcdsaSecp224r1Sha256,
    EcdsaSecp224r1Sha3_224,
    EcdsaSecp224r1Sha3_256,
    EcdsaSecp224r1Sha3_512,
    EcdsaSecp224r1Sha512P1363,
    EcdsaSecp224r1Sha512,
    EcdsaSecp224r1Shake128P1363,
    EcdsaSecp224r1Shake128,
    EcdsaSecp256k1Sha256Bitcoin,
    EcdsaSecp256k1Sha256P1363,
    EcdsaSecp256k1Sha256,
    EcdsaSecp256k1Sha3_256,
    EcdsaSecp256k1Sha3_512,
    EcdsaSecp256k1Sha512P1363,
    EcdsaSecp256k1Sha512,
    EcdsaSecp256k1Shake128P1363,
    EcdsaSecp256k1Shake128,
    EcdsaSecp256k1Shake256P1363,
    EcdsaSecp256k1Shake256,
    EcdsaSecp256r1Sha256P1363,
    EcdsaSecp256r1Sha256,
    EcdsaSecp256r1Sha3_256,
    EcdsaSecp256r1Sha3_512,
    EcdsaSecp256r1Sha512P1363,
    EcdsaSecp256r1Sha512,
    EcdsaSecp256r1Shake128P1363,
    EcdsaSecp256r1Shake128,
    EcdsaSecp256r1Webcrypto,
    EcdsaSecp384r1Sha256,
    EcdsaSecp384r1Sha3_384,
    EcdsaSecp384r1Sha3_512,
    EcdsaSecp384r1Sha384P1363,
    EcdsaSecp384r1Sha384,
    EcdsaSecp384r1Sha512P1363,
    EcdsaSecp384r1Sha512,
    EcdsaSecp384r1Shake256P1363,
    EcdsaSecp384r1Shake256,
    EcdsaSecp384r1Webcrypto,
    EcdsaSecp521r1Sha3_512,
    EcdsaSecp521r1Sha512P1363,
    EcdsaSecp521r1Sha512,
    EcdsaSecp521r1Shake256P1363,
    EcdsaSecp521r1Shake256,
    EcdsaSecp521r1Webcrypto,
}

impl DeepView for TestName {
    type V = TestName;

    open spec fn deep_view(&self) -> TestName {
        *self
    }
}

impl Named for TestName {
    open spec fn spec_vocabulary() -> Seq<char> {
        "TestName"@
    }

    fn vocabulary() -> (r: &'static str) {
        "TestName"
    }

    open spec fn spec_from_name(name: Seq<char>) -> Option<TestName> {
        if name == "ecdsa_brainpoolP224r1_sha224_p1363"@ { Some(TestName::EcdsaBrainpool224r1Sha224P1363) }
        else if name == "ecdsa_brainpoolP224r1_sha224"@ { Some(TestName::EcdsaBrainpool224r1Sha224) }
        else if name == "ecdsa_brainpoolP224r1_sha3_224"@ { Some(TestName::EcdsaBrainpool224r1Sha3_224) }
        else if name == "ecdsa_brainpoolP256r1_sha256_p1363"@ { Some(TestName::EcdsaBrainpool256r1Sha256P1363) }
        else if name == "ecdsa_brainpoolP256r1_sha256"@ { Some(TestName::EcdsaBrainpool256r1Sha256) }
        else if name == "ecdsa_brainpoolP256r1_sha3_256"@ { Some(TestName::EcdsaBrainpool256r1Sha3_256) }
        else if name == "ecdsa_brainpoolP320r1_sha3_384"@ { Some(TestName::EcdsaBrainpool320r1Sha3_384) }
        else if name == "ecdsa_brainpoolP320r1_sha384_p1363"@ { Some(TestName::EcdsaBrainpool320r1Sha384P1363) }
        else if name == "ecdsa_brainpoolP320r1_sha384"@ { Some(TestName::EcdsaBrainpool320r1Sha384) }
        else if name == "ecdsa_brainpoolP384r1_sha3_384"@ { Some(TestName::EcdsaBrainpool384r1Sha3_384) }
        else if name == "ecdsa_brainpoolP384r1_sha384_p1363"@ { Some(TestName::EcdsaBrainpool384r1Sha384P1363) }
        else if name == "ecdsa_brainpoolP384r1_sha384"@ { Some(TestName::EcdsaBrainpool384r1Sha384) }
        else if name == "ecdsa_brainpoolP512r1_sha3_512"@ { Some(TestName::EcdsaBrainpool512r1Sha3_512) }
        else if name == "ecdsa_brainpoolP512r1_sha512_p1363"@ { Some(TestName::EcdsaBrainpool512r1Sha512P1363) }
        else if name == "ecdsa_brainpoolP512r1_sha512"@ { Some(TestName::EcdsaBrainpool512r1Sha512) }
        else if name == "ecdsa_secp160k1_sha256_p1363"@ { Some(TestName::EcdsaSecp160k1Sha256P1363) }
        else if name == "ecdsa_secp160k1_sha256"@ { Some(TestName::EcdsaSecp160k1Sha256) }
        else if name == "ecdsa_secp160r1_sha256_p1363"@ { Some(TestName::EcdsaSecp160r1Sha256P1363) }
        else if name == "ecdsa_secp160r1_sha256"@ { Some(TestName::EcdsaSecp160r1Sha256) }
        else if name == "ecdsa_secp160r2_sha256_p1363"@ { Some(TestName::EcdsaSecp160r2Sha256P1363) }
        else if name == "ecdsa_secp160r2_sha256"@ { Some(TestName::EcdsaSecp160r2Sha256) }
        else if name == "ecdsa_secp192k1_sha256_p1363"@ { Some(TestName::EcdsaSecp192k1Sha256P1363) }
        else if name == "ecdsa_secp192k1_sha256"@ { Some(TestName::EcdsaSecp192k1Sha256) }
        else if name == "ecdsa_secp192r1_sha256_p1363"@ { Some(TestName::EcdsaSecp192r1Sha256P1363) }
        else if name == "ecdsa_secp192r1_sha256"@ { Some(TestName::EcdsaSecp192r1Sha256) }
        else if name == "ecdsa_secp224k1_sha224_p1363"@ { Some(TestName::EcdsaSecp224k1Sha224P1363) }
        else if name == "ecdsa_secp224k1_sha224"@ { Some(TestName::EcdsaSecp224k1Sha224) }
        else if name == "ecdsa_secp224k1_sha256_p1363"@ { Some(TestName::EcdsaSecp224k1Sha256P1363) }
        else if name == "ecdsa_secp224k1_sha256"@ { Some(TestName::EcdsaSecp224k1Sha256) }
        else if name == "ecdsa_secp224r1_sha224_p1363"@ { Some(TestName::EcdsaSecp224r1Sha224P1363) }
        else if name == "ecdsa_secp224r1_sha224"@ { Some(TestName::EcdsaSecp224r1Sha224) }
        else if name == "ecdsa_secp224r1_sha256_p1363"@ { Some(TestName::EcdsaSecp224r1Sha256P1363) }
        else if name == "ecdsa_secp224r1_sha256"@ { Some(TestName::EcdsaSecp224r1Sha256) }
        else if name == "ecdsa_secp224r1_sha3_224"@ { Some(TestName::EcdsaSecp224r1Sha3_224) }
        else if name == "ecdsa_secp224r1_sha3_256"@ { Some(TestName::EcdsaSecp224r1Sha3_256) }
        else if name == "ecdsa_secp224r1_sha3_512"@ { Some(TestName::EcdsaSecp224r1Sha3_512) }
        else if name == "ecdsa_secp224r1_sha512_p1363"@ { Some(TestName::EcdsaSecp224r1Sha512P1363) }
        else if name == "ecdsa_secp224r1_sha512"@ { Some(TestName::EcdsaSecp224r1Sha512) }
        else if name == "ecdsa_secp224r1_shake128_p1363"@ { Some(TestName::EcdsaSecp224r1Shake128P1363) }
        else if name == "ecdsa_secp224r1_shake128"@ { Some(TestName::EcdsaSecp224r1Shake128) }
        else if name == "ecdsa_secp256k1_sha256_bitcoin"@ { Some(TestName::EcdsaSecp256k1Sha256Bitcoin) }
        else if name == "ecdsa_secp256k1_sha256_p1363"@ { Some(TestName::EcdsaSecp256k1Sha256P1363) }
        else if name == "ecdsa_secp256k1_sha256"@ { Some(TestName::EcdsaSecp256k1Sha256) }
        else if name == "ecdsa_secp256k1_sha3_256"@ { Some(TestName::EcdsaSecp256k1Sha3_256) }
        else if name == "ecdsa_secp256k1_sha3_512"@ { Some(TestName::EcdsaSecp256k1Sha3_512) }
        else if name == "ecdsa_secp256k1_sha512_p1363"@ { Some(TestName::EcdsaSecp256k1Sha512P1363) }
        else if name == "ecdsa_secp256k1_sha512"@ { Some(TestName::EcdsaSecp256k1Sha512) }
        else if name == "ecdsa_secp256k1_shake128_p1363"@ { Some(TestName::EcdsaSecp256k1Shake128P1363) }
        else if name == "ecdsa_secp256k1_shake128"@ { Some(TestName::EcdsaSecp256k1Shake128) }
        else if name == "ecdsa_secp256k1_shake256_p1363"@ { Some(TestName::EcdsaSecp256k1Shake256P1363) }
        else if name == "ecdsa_secp256k1_shake256"@ { Some(TestName::EcdsaSecp256k1Shake256) }
        else if name == "ecdsa_secp256r1_sha256_p1363"@ { Some(TestName::EcdsaSecp256r1Sha256P1363) }
        else if name == "ecdsa_secp256r1_sha256"@ { Some(TestName::EcdsaSecp256r1Sha256) }
        else if name == "ecdsa_secp256r1_sha3_256"@ { Some(TestName::EcdsaSecp256r1Sha3_256) }
        else if name == "ecdsa_secp256r1_sha3_512"@ { Some(TestName::EcdsaSecp256r1Sha3_512) }
        else if name == "ecdsa_secp256r1_sha512_p1363"@ { Some(TestName::EcdsaSecp256r1Sha512P1363) }
        else if name == "ecdsa_secp256r1_sha512"@ { Some(TestName::EcdsaSecp256r1Sha512) }
        else if name == "ecdsa_secp256r1_shake128_p1363"@ { Some(TestName::EcdsaSecp256r1Shake128P1363) }
        else if name == "ecdsa_secp256r1_shake128"@ { Some(TestName::EcdsaSecp256r1Shake128) }
        else if name == "ecdsa_secp256r1_webcrypto"@ { Some(TestName::EcdsaSecp256r1Webcrypto) }
        else if name == "ecdsa_secp384r1_sha256"@ { Some(TestName::EcdsaSecp384r1Sha256) }
        else if name == "ecdsa_secp384r1_sha3_384"@ { Some(TestName::EcdsaSecp384r1Sha3_384) }
        else if name == "ecdsa_secp384r1_sha3_512"@ { Some(TestName::EcdsaSecp384r1Sha3_512) }
        else if name == "ecdsa_secp384r1_sha384_p1363"@ { Some(TestName::EcdsaSecp384r1Sha384P1363) }
        else if name == "ecdsa_secp384r1_sha384"@ { Some(TestName::EcdsaSecp384r1Sha384) }
        else if name == "ecdsa_secp384r1_sha512_p1363"@ { Some(TestName::EcdsaSecp384r1Sha512P1363) }
        else if name == "ecdsa_secp384r1_sha512"@ { Some(TestName::EcdsaSecp384r1Sha512) }
        else if name == "ecdsa_secp384r1_shake256_p1363"@ { Some(TestName::EcdsaSecp384r1Shake256P1363) }
        else if name == "ecdsa_secp384r1_shake256"@ { Some(TestName::EcdsaSecp384r1Shake256) }
        else if name == "ecdsa_secp384r1_webcrypto"@ { Some(TestName::EcdsaSecp384r1Webcrypto) }
        else if name == "ecdsa_secp521r1_sha3_512"@ { Some(TestName::EcdsaSecp521r1Sha3_512) }
        else if name == "ecdsa_secp521r1_sha512_p1363"@ { Some(TestName::EcdsaSecp521r1Sha512P1363) }
        else if name == "ecdsa_secp521r1_sha512"@ { Some(TestName::EcdsaSecp521r1Sha512) }
        else if name == "ecdsa_secp521r1_shake256_p1363"@ { Some(TestName::EcdsaSecp521r1Shake256P1363) }
        else if name == "ecdsa_secp521r1_shake256"@ { Some(TestName::EcdsaSecp521r1Shake256) }
        else if name == "ecdsa_secp521r1_webcrypto"@ { Some(TestName::EcdsaSecp521r1Webcrypto) }
        else { None }
    }

    fn from_name(name: &str) -> (r: Option<TestName>) {
        if str_eq(name, "ecdsa_brainpoolP224r1_sha224_p1363") { Some(TestName::EcdsaBrainpool224r1Sha224P1363) }
        else if str_eq(name, "ecdsa_brainpoolP224r1_sha224") { Some(TestName::EcdsaBrainpool224r1Sha224) }
        else if str_eq(name, "ecdsa_brainpoolP224r1_sha3_224") { Some(TestName::EcdsaBrainpool224r1Sha3_224) }
        else if str_eq(name, "ecdsa_brainpoolP256r1_sha256_p1363") { Some(TestName::EcdsaBrainpool256r1Sha256P1363) }
        else if str_eq(name, "ecdsa_brainpoolP256r1_sha256") { Some(TestName::EcdsaBrainpool256r1Sha256) }
        else if str_eq(name, "ecdsa_brainpoolP256r1_sha3_256") { Some(TestName::EcdsaBrainpool256r1Sha3_256) }
        else if str_eq(name, "ecdsa_brainpoolP320r1_sha3_384") { Some(TestName::EcdsaBrainpool320r1Sha3_384) }
        else if str_eq(name, "ecdsa_brainpoolP320r1_sha384_p1363") { Some(TestName::EcdsaBrainpool320r1Sha384P1363) }
        else if str_eq(name, "ecdsa_brainpoolP320r1_sha384") { Some(TestName::EcdsaBrainpool320r1Sha384) }
        else if str_eq(name, "ecdsa_brainpoolP384r1_sha3_384") { Some(TestName::EcdsaBrainpool384r1Sha3_384) }
        else if str_eq(name, "ecdsa_brainpoolP384r1_sha384_p1363") { Some(TestName::EcdsaBrainpool384r1Sha384P1363) }
        else if str_eq(name, "ecdsa_brainpoolP384r1_sha384") { Some(TestName::EcdsaBrainpool384r1Sha384) }
        else if str_eq(name, "ecdsa_brainpoolP512r1_sha3_512") { Some(TestName::EcdsaBrainpool512r1Sha3_512) }
        else if str_eq(name, "ecdsa_brainpoolP512r1_sha512_p1363") { Some(TestName::EcdsaBrainpool512r1Sha512P1363) }
        else if str_eq(name, "ecdsa_brainpoolP512r1_sha512") { Some(TestName::EcdsaBrainpool512r1Sha512) }
        else if str_eq(name, "ecdsa_secp160k1_sha256_p1363") { Some(TestName::EcdsaSecp160k1Sha256P1363) }
        else if str_eq(name, "ecdsa_secp160k1_sha256") { Some(TestName::EcdsaSecp160k1Sha256) }
        else if str_eq(name, "ecdsa_secp160r1_sha256_p1363") { Some(TestName::EcdsaSecp160r1Sha256P1363) }
        else if str_eq(name, "ecdsa_secp160r1_sha256") { Some(TestName::EcdsaSecp160r1Sha256) }
        else if str_eq(name, "ecdsa_secp160r2_sha256_p1363") { Some(TestName::EcdsaSecp160r2Sha256P1363) }
        else if str_eq(name, "ecdsa_secp160r2_sha256") { Some(TestName::EcdsaSecp160r2Sha256) }
        else if str_eq(name, "ecdsa_secp192k1_sha256_p1363") { Some(TestName::EcdsaSecp192k1Sha256P1363) }
        else if str_eq(name, "ecdsa_secp192k1_sha256") { Some(TestName::EcdsaSecp192k1Sha256) }
        else if str_eq(name, "ecdsa_secp192r1_sha256_p1363") { Some(TestName::EcdsaSecp192r1Sha256P1363) }
        else if str_eq(name, "ecdsa_secp192r1_sha256") { Some(TestName::EcdsaSecp192r1Sha256) }
        else if str_eq(name, "ecdsa_secp224k1_sha224_p1363") { Some(TestName::EcdsaSecp224k1Sha224P1363) }
        else if str_eq(name, "ecdsa_secp224k1_sha224") { Some(TestName::EcdsaSecp224k1Sha224) }
        else if str_eq(name, "ecdsa_secp224k1_sha256_p1363") { Some(TestName::EcdsaSecp224k1Sha256P1363) }
        else if str_eq(name, "ecdsa_secp224k1_sha256") { Some(TestName::EcdsaSecp224k1Sha256) }
        else if str_eq(name, "ecdsa_secp224r1_sha224_p1363") { Some(TestName::EcdsaSecp224r1Sha224P1363) }
        else if str_eq(name, "ecdsa_secp224r1_sha224") { Some(TestName::EcdsaSecp224r1Sha224) }
        else if str_eq(name, "ecdsa_secp224r1_sha256_p1363") { Some(TestName::EcdsaSecp224r1Sha256P1363) }
        else if str_eq(name, "ecdsa_secp224r1_sha256") { Some(TestName::EcdsaSecp224r1Sha256) }
        else if str_eq(name, "ecdsa_secp224r1_sha3_224") { Some(TestName::EcdsaSecp224r1Sha3_224) }
        else if str_eq(name, "ecdsa_secp224r1_sha3_256") { Some(TestName::EcdsaSecp224r1Sha3_256) }
        else if str_eq(name, "ecdsa_secp224r1_sha3_512") { Some(TestName::EcdsaSecp224r1Sha3_512) }
        else if str_eq(name, "ecdsa_secp224r1_sha512_p1363") { Some(TestName::EcdsaSecp224r1Sha512P1363) }
        else if str_eq(name, "ecdsa_secp224r1_sha512") { Some(TestName::EcdsaSecp224r1Sha512) }
        else if str_eq(name, "ecdsa_secp224r1_shake128_p1363") { Some(TestName::EcdsaSecp224r1Shake128P1363) }
        else if str_eq(name, "ecdsa_secp224r1_shake128") { Some(TestName::EcdsaSecp224r1Shake128) }
        else if str_eq(name, "ecdsa_secp256k1_sha256_bitcoin") { Some(TestName::EcdsaSecp256k1Sha256Bitcoin) }
        else if str_eq(name, "ecdsa_secp256k1_sha256_p1363") { Some(TestName::EcdsaSecp256k1Sha256P1363) }
        else if str_eq(name, "ecdsa_secp256k1_sha256") { Some(TestName::EcdsaSecp256k1Sha256) }
        else if str_eq(name, "ecdsa_secp256k1_sha3_256") { Some(TestName::EcdsaSecp256k1Sha3_256) }
        else if str_eq(name, "ecdsa_secp256k1_sha3_512") { Some(TestName::EcdsaSecp256k1Sha3_512) }
        else if str_eq(name, "ecdsa_secp256k1_sha512_p1363") { Some(TestName::EcdsaSecp256k1Sha512P1363) }
        else if str_eq(name, "ecdsa_secp256k1_sha512") { Some(TestName::EcdsaSecp256k1Sha512) }
        else if str_eq(name, "ecdsa_secp256k1_shake128_p1363") { Some(TestName::EcdsaSecp256k1Shake128P1363) }
        else if str_eq(name, "ecdsa_secp256k1_shake128") { Some(TestName::EcdsaSecp256k1Shake128) }
        else if str_eq(name, "ecdsa_secp256k1_shake256_p1363") { Some(TestName::EcdsaSecp256k1Shake256P1363) }
        else if str_eq(name, "ecdsa_secp256k1_shake256") { Some(TestName::EcdsaSecp256k1Shake256) }
        else if str_eq(name, "ecdsa_secp256r1_sha256_p1363") { Some(TestName::EcdsaSecp256r1Sha256P1363) }
        else if str_eq(name, "ecdsa_secp256r1_sha256") { Some(TestName::EcdsaSecp256r1Sha256) }
        else if str_eq(name, "ecdsa_secp256r1_sha3_256") { Some(TestName::EcdsaSecp256r1Sha3_256) }
        else if str_eq(name, "ecdsa_secp256r1_sha3_512") { Some(TestName::EcdsaSecp256r1Sha3_512) }
        else if str_eq(name, "ecdsa_secp256r1_sha512_p1363") { Some(TestName::EcdsaSecp256r1Sha512P1363) }
        else if str_eq(name, "ecdsa_secp256r1_sha512") { Some(TestName::EcdsaSecp256r1Sha512) }
        else if str_eq(name, "ecdsa_secp256r1_shake128_p1363") { Some(TestName::EcdsaSecp256r1Shake128P1363) }
        else if str_eq(name, "ecdsa_secp256r1_shake128") { Some(TestName::EcdsaSecp256r1Shake128) }
        else if str_eq(name, "ecdsa_secp256r1_webcrypto") { Some(TestName::EcdsaSecp256r1Webcrypto) }
        else if str_eq(name, "ecdsa_secp384r1_sha256") { Some(TestName::EcdsaSecp384r1Sha256) }
        else if str_eq(name, "ecdsa_secp384r1_sha3_384") { Some(TestName::EcdsaSecp384r1Sha3_384) }
        else if str_eq(name, "ecdsa_secp384r1_sha3_512") { Some(TestName::EcdsaSecp384r1Sha3_512) }
        else if str_eq(name, "ecdsa_secp384r1_sha384_p1363") { Some(TestName::EcdsaSecp384r1Sha384P1363) }
        else if str_eq(name, "ecdsa_secp384r1_sha384") { Some(TestName::EcdsaSecp384r1Sha384) }
        else if str_eq(name, "ecdsa_secp384r1_sha512_p1363") { Some(TestName::EcdsaSecp384r1Sha512P1363) }
        else if str_eq(name, "ecdsa_secp384r1_sha512") { Some(TestName::EcdsaSecp384r1Sha512) }
        else if str_eq(name, "ecdsa_secp384r1_shake256_p1363") { Some(TestName::EcdsaSecp384r1Shake256P1363) }
        else if str_eq(name, "ecdsa_secp384r1_shake256") { Some(TestName::EcdsaSecp384r1Shake256) }
        else if str_eq(name, "ecdsa_secp384r1_webcrypto") { Some(TestName::EcdsaSecp384r1Webcrypto) }
        else if str_eq(name, "ecdsa_secp521r1_sha3_512") { Some(TestName::EcdsaSecp521r1Sha3_512) }
        else if str_eq(name, "ecdsa_secp521r1_sha512_p1363") { Some(TestName::EcdsaSecp521r1Sha512P1363) }
        else if str_eq(name, "ecdsa_secp521r1_sha512") { Some(TestName::EcdsaSecp521r1Sha512) }
        else if str_eq(name, "ecdsa_secp521r1_shake256_p1363") { Some(TestName::EcdsaSecp521r1Shake256P1363) }
        else if str_eq(name, "ecdsa_secp521r1_shake256") { Some(TestName::EcdsaSecp521r1Shake256) }
        else if str_eq(name, "ecdsa_secp521r1_webcrypto") { Some(TestName::EcdsaSecp521r1Webcrypto) }
        else { None }
    }

    fn same(&self, other: &TestName) -> (r: bool) {
        *self == *other
    }
}

impl TestName {
    /// The name under which the test set is kept.
    pub open spec fn spec_name(self) -> Seq<char> {
        match self {
            TestName::EcdsaBrainpool224r1Sha224P1363 => "ecdsa_brainpoolP224r1_sha224_p1363"@,
            TestName::EcdsaBrainpool224r1Sha224 => "ecdsa_brainpoolP224r1_sha224"@,
            TestName::EcdsaBrainpool224r1Sha3_224 => "ecdsa_brainpoolP224r1_sha3_224"@,
            TestName::EcdsaBrainpool256r1Sha256P1363 => "ecdsa_brainpoolP256r1_sha256_p1363"@,
            TestName::EcdsaBrainpool256r1Sha256 => "ecdsa_brainpoolP256r1_sha256"@,
            TestName::EcdsaBrainpool256r1Sha3_256 => "ecdsa_brainpoolP256r1_sha3_256"@,
            TestName::EcdsaBrainpool320r1Sha3_384 => "ecdsa_brainpoolP320r1_sha3_384"@,
            TestName::EcdsaBrainpool320r1Sha384P1363 => "ecdsa_brainpoolP320r1_sha384_p1363"@,
            TestName::EcdsaBrainpool320r1Sha384 => "ecdsa_brainpoolP320r1_sha384"@,
            TestName::EcdsaBrainpool384r1Sha3_384 => "ecdsa_brainpoolP384r1_sha3_384"@,
            TestName::EcdsaBrainpool384r1Sha384P1363 => "ecdsa_brainpoolP384r1_sha384_p1363"@,
            TestName::EcdsaBrainpool384r1Sha384 => "ecdsa_brainpoolP384r1_sha384"@,
            TestName::EcdsaBrainpool512r1Sha3_512 => "ecdsa_brainpoolP512r1_sha3_512"@,
            TestName::EcdsaBrainpool512r1Sha512P1363 => "ecdsa_brainpoolP512r1_sha512_p1363"@,
            TestName::EcdsaBrainpool512r1Sha512 => "ecdsa_brainpoolP512r1_sha512"@,
            TestName::EcdsaSecp160k1Sha256P1363 => "ecdsa_secp160k1_sha256_p1363"@,
            TestName::EcdsaSecp160k1Sha256 => "ecdsa_secp160k1_sha256"@,
            TestName::EcdsaSecp160r1Sha256P1363 => "ecdsa_secp160r1_sha256_p1363"@,
            TestName::EcdsaSecp160r1Sha256 => "ecdsa_secp160r1_sha256"@,
            TestName::EcdsaSecp160r2Sha256P1363 => "ecdsa_secp160r2_sha256_p1363"@,
            TestName::EcdsaSecp160r2Sha256 => "ecdsa_secp160r2_sha256"@,
            TestName::EcdsaSecp192k1Sha256P1363 => "ecdsa_secp192k1_sha256_p1363"@,
            TestName::EcdsaSecp192k1Sha256 => "ecdsa_secp192k1_sha256"@,
            TestName::EcdsaSecp192r1Sha256P1363 => "ecdsa_secp192r1_sha256_p1363"@,
            TestName::EcdsaSecp192r1Sha256 => "ecdsa_secp192r1_sha256"@,
            TestName::EcdsaSecp224k1Sha224P1363 => "ecdsa_secp224k1_sha224_p1363"@,
            TestName::EcdsaSecp224k1Sha224 => "ecdsa_secp224k1_sha224"@,
            TestName::EcdsaSecp224k1Sha256P1363 => "ecdsa_secp224k1_sha256_p1363"@,
            TestName::EcdsaSecp224k1Sha256 => "ecdsa_secp224k1_sha256"@,
            TestName::EcdsaSecp224r1Sha224P1363 => "ecdsa_secp224r1_sha224_p1363"@,
            TestName::EcdsaSecp224r1Sha224 => "ecdsa_secp224r1_sha224"@,
            TestName::EcdsaSecp224r1Sha256P1363 => "ecdsa_secp224r1_sha256_p1363"@,
            TestName::EcdsaSecp224r1Sha256 => "ecdsa_secp224r1_sha256"@,
            TestName::EcdsaSecp224r1Sha3_224 => "ecdsa_secp224r1_sha3_224"@,
            TestName::EcdsaSecp224r1Sha3_256 => "ecdsa_secp224r1_sha3_256"@,
            TestName::EcdsaSecp224r1Sha3_512 => "ecdsa_secp224r1_sha3_512"@,
            TestName::EcdsaSecp224r1Sha512P1363 => "ecdsa_secp224r1_sha512_p1363"@,
            TestName::EcdsaSecp224r1Sha512 => "ecdsa_secp224r1_sha512"@,
            TestName::EcdsaSecp224r1Shake128P1363 => "ecdsa_secp224r1_shake128_p1363"@,
            TestName::EcdsaSecp224r1Shake128 => "ecdsa_secp224r1_shake128"@,
            TestName::EcdsaSecp256k1Sha256Bitcoin => "ecdsa_secp256k1_sha256_bitcoin"@,
            TestName::EcdsaSecp256k1Sha256P1363 => "ecdsa_secp256k1_sha256_p1363"@,
            TestName::EcdsaSecp256k1Sha256 => "ecdsa_secp256k1_sha256"@,
            TestName::EcdsaSecp256k1Sha3_256 => "ecdsa_secp256k1_sha3_256"@,
            TestName::EcdsaSecp256k1Sha3_512 => "ecdsa_secp256k1_sha3_512"@,
            TestName::EcdsaSecp256k1Sha512P1363 => "ecdsa_secp256k1_sha512_p1363"@,
            TestName::EcdsaSecp256k1Sha512 => "ecdsa_secp256k1_sha512"@,
            TestName::EcdsaSecp256k1Shake128P1363 => "ecdsa_secp256k1_shake128_p1363"@,
            TestName::EcdsaSecp256k1Shake128 => "ecdsa_secp256k1_shake128"@,
            TestName::EcdsaSecp256k1Shake256P1363 => "ecdsa_secp256k1_shake256_p1363"@,
            TestName::EcdsaSecp256k1Shake256 => "ecdsa_secp256k1_shake256"@,
            TestName::EcdsaSecp256r1Sha256P1363 => "ecdsa_secp256r1_sha256_p1363"@,
            TestName::EcdsaSecp256r1Sha256 => "ecdsa_secp256r1_sha256"@,
            TestName::EcdsaSecp256r1Sha3_256 => "ecdsa_secp256r1_sha3_256"@,
            TestName::EcdsaSecp256r1Sha3_512 => "ecdsa_secp256r1_sha3_512"@,
            TestName::EcdsaSecp256r1Sha512P1363 => "ecdsa_secp256r1_sha512_p1363"@,
            TestName::EcdsaSecp256r1Sha512 => "ecdsa_secp256r1_sha512"@,
            TestName::EcdsaSecp256r1Shake128P1363 => "ecdsa_secp256r1_shake128_p1363"@,
            TestName::EcdsaSecp256r1Shake128 => "ecdsa_secp256r1_shake128"@,
            TestName::EcdsaSecp256r1Webcrypto => "ecdsa_secp256r1_webcrypto"@,
            TestName::EcdsaSecp384r1Sha256 => "ecdsa_secp384r1_sha256"@,
            TestName::EcdsaSecp384r1Sha3_384 => "ecdsa_secp384r1_sha3_384"@,
            TestName::EcdsaSecp384r1Sha3_512 => "ecdsa_secp384r1_sha3_512"@,
            TestName::EcdsaSecp384r1Sha384P1363 => "ecdsa_secp384r1_sha384_p1363"@,
            TestName::EcdsaSecp384r1Sha384 => "ecdsa_secp384r1_sha384"@,
            TestName::EcdsaSecp384r1Sha512P1363 => "ecdsa_secp384r1_sha512_p1363"@,
            TestName::EcdsaSecp384r1Sha512 => "ecdsa_secp384r1_sha512"@,
            TestName::EcdsaSecp384r1Shake256P1363 => "ecdsa_secp384r1_shake256_p1363"@,
            TestName::EcdsaSecp384r1Shake256 => "ecdsa_secp384r1_shake256"@,
            TestName::EcdsaSecp384r1Webcrypto => "ecdsa_secp384r1_webcrypto"@,
            TestName::EcdsaSecp521r1Sha3_512 => "ecdsa_secp521r1_sha3_512"@,
            TestName::EcdsaSecp521r1Sha512P1363 => "ecdsa_secp521r1_sha512_p1363"@,
            TestName::EcdsaSecp521r1Sha512 => "ecdsa_secp521r1_sha512"@,
            TestName::EcdsaSecp521r1Shake256P1363 => "ecdsa_secp521r1_shake256_p1363"@,
            TestName::EcdsaSecp521r1Shake256 => "ecdsa_secp521r1_shake256"@,
            TestName::EcdsaSecp521r1Webcrypto => "ecdsa_secp521r1_webcrypto"@,
        }
    }

    pub fn name(&self) -> (r: &'static str)
        ensures
            r@ == self.spec_name(),
    {
        match self {
            TestName::EcdsaBrainpool224r1Sha224P1363 => "ecdsa_brainpoolP224r1_sha224_p1363",
            TestName::EcdsaBrainpool224r1Sha224 => "ecdsa_brainpoolP224r1_sha224",
            TestName::EcdsaBrainpool224r1Sha3_224 => "ecdsa_brainpoolP224r1_sha3_224",
            TestName::EcdsaBrainpool256r1Sha256P1363 => "ecdsa_brainpoolP256r1_sha256_p1363",
            TestName::EcdsaBrainpool256r1Sha256 => "ecdsa_brainpoolP256r1_sha256",
            TestName::EcdsaBrainpool256r1Sha3_256 => "ecdsa_brainpoolP256r1_sha3_256",
            TestName::EcdsaBrainpool320r1Sha3_384 => "ecdsa_brainpoolP320r1_sha3_384",
            TestName::EcdsaBrainpool320r1Sha384P1363 => "ecdsa_brainpoolP320r1_sha384_p1363",
            TestName::EcdsaBrainpool320r1Sha384 => "ecdsa_brainpoolP320r1_sha384",
            TestName::EcdsaBrainpool384r1Sha3_384 => "ecdsa_brainpoolP384r1_sha3_384",
            TestName::EcdsaBrainpool384r1Sha384P1363 => "ecdsa_brainpoolP384r1_sha384_p1363",
            TestName::EcdsaBrainpool384r1Sha384 => "ecdsa_brainpoolP384r1_sha384",
            TestName::EcdsaBrainpool512r1Sha3_512 => "ecdsa_brainpoolP512r1_sha3_512",
            TestName::EcdsaBrainpool512r1Sha512P1363 => "ecdsa_brainpoolP512r1_sha512_p1363",
            TestName::EcdsaBrainpool512r1Sha512 => "ecdsa_brainpoolP512r1_sha512",
            TestName::EcdsaSecp160k1Sha256P1363 => "ecdsa_secp160k1_sha256_p1363",
            TestName::EcdsaSecp160k1Sha256 => "ecdsa_secp160k1_sha256",
            TestName::EcdsaSecp160r1Sha256P1363 => "ecdsa_secp160r1_sha256_p1363",
            TestName::EcdsaSecp160r1Sha256 => "ecdsa_secp160r1_sha256",
            TestName::EcdsaSecp160r2Sha256P1363 => "ecdsa_secp160r2_sha256_p1363",
            TestName::EcdsaSecp160r2Sha256 => "ecdsa_secp160r2_sha256",
            TestName::EcdsaSecp192k1Sha256P1363 => "ecdsa_secp192k1_sha256_p1363",
            TestName::EcdsaSecp192k1Sha256 => "ecdsa_secp192k1_sha256",
            TestName::EcdsaSecp192r1Sha256P1363 => "ecdsa_secp192r1_sha256_p1363",
            TestName::EcdsaSecp192r1Sha256 => "ecdsa_secp192r1_sha256",
            TestName::EcdsaSecp224k1Sha224P1363 => "ecdsa_secp224k1_sha224_p1363",
            TestName::EcdsaSecp224k1Sha224 => "ecdsa_secp224k1_sha224",
            TestName::EcdsaSecp224k1Sha256P1363 => "ecdsa_secp224k1_sha256_p1363",
            TestName::EcdsaSecp224k1Sha256 => "ecdsa_secp224k1_sha256",
            TestName::EcdsaSecp224r1Sha224P1363 => "ecdsa_secp224r1_sha224_p1363",
            TestName::EcdsaSecp224r1Sha224 => "ecdsa_secp224r1_sha224",
            TestName::EcdsaSecp224r1Sha256P1363 => "ecdsa_secp224r1_sha256_p1363",
            TestName::EcdsaSecp224r1Sha256 => "ecdsa_secp224r1_sha256",
            TestName::EcdsaSecp224r1Sha3_224 => "ecdsa_secp224r1_sha3_224",
            TestName::EcdsaSecp224r1Sha3_256 => "ecdsa_secp224r1_sha3_256",
            TestName::EcdsaSecp224r1Sha3_512 => "ecdsa_secp224r1_sha3_512",
            TestName::EcdsaSecp224r1Sha512P1363 => "ecdsa_secp224r1_sha512_p1363",
            TestName::EcdsaSecp224r1Sha512 => "ecdsa_secp224r1_sha512",
            TestName::EcdsaSecp224r1Shake128P1363 => "ecdsa_secp224r1_shake128_p1363",
            TestName::EcdsaSecp224r1Shake128 => "ecdsa_secp224r1_shake128",
            TestName::EcdsaSecp256k1Sha256Bitcoin => "ecdsa_secp256k1_sha256_bitcoin",
            TestName::EcdsaSecp256k1Sha256P1363 => "ecdsa_secp256k1_sha256_p1363",
            TestName::EcdsaSecp256k1Sha256 => "ecdsa_secp256k1_sha256",
            TestName::EcdsaSecp256k1Sha3_256 => "ecdsa_secp256k1_sha3_256",
            TestName::EcdsaSecp256k1Sha3_512 => "ecdsa_secp256k1_sha3_512",
            TestName::EcdsaSecp256k1Sha512P1363 => "ecdsa_secp256k1_sha512_p1363",
            TestName::EcdsaSecp256k1Sha512 => "ecdsa_secp256k1_sha512",
            TestName::EcdsaSecp256k1Shake128P1363 => "ecdsa_secp256k1_shake128_p1363",
            TestName::EcdsaSecp256k1Shake128 => "ecdsa_secp256k1_shake128",
            TestName::EcdsaSecp256k1Shake256P1363 => "ecdsa_secp256k1_shake256_p1363",
            TestName::EcdsaSecp256k1Shake256 => "ecdsa_secp256k1_shake256",
            TestName::EcdsaSecp256r1Sha256P1363 => "ecdsa_secp256r1_sha256_p1363",
            TestName::EcdsaSecp256r1Sha256 => "ecdsa_secp256r1_sha256",
            TestName::EcdsaSecp256r1Sha3_256 => "ecdsa_secp256r1_sha3_256",
            TestName::EcdsaSecp256r1Sha3_512 => "ecdsa_secp256r1_sha3_512",
            TestName::EcdsaSecp256r1Sha512P1363 => "ecdsa_secp256r1_sha512_p1363",
            TestName::EcdsaSecp256r1Sha512 => "ecdsa_secp256r1_sha512",
            TestName::EcdsaSecp256r1Shake128P1363 => "ecdsa_secp256r1_shake128_p1363",
            TestName::EcdsaSecp256r1Shake128 => "ecdsa_secp256r1_shake128",
            TestName::EcdsaSecp256r1Webcrypto => "ecdsa_secp256r1_webcrypto",
            TestName::EcdsaSecp384r1Sha256 => "ecdsa_secp384r1_sha256",
            TestName::EcdsaSecp384r1Sha3_384 => "ecdsa_secp384r1_sha3_384",
            TestName::EcdsaSecp384r1Sha3_512 => "ecdsa_secp384r1_sha3_512",
            TestName::EcdsaSecp384r1Sha384P1363 => "ecdsa_secp384r1_sha384_p1363",
            TestName::EcdsaSecp384r1Sha384 => "ecdsa_secp384r1_sha384",
            TestName::EcdsaSecp384r1Sha512P1363 => "ecdsa_secp384r1_sha512_p1363",
            TestName::EcdsaSecp384r1Sha512 => "ecdsa_secp384r1_sha512",
            TestName::EcdsaSecp384r1Shake256P1363 => "ecdsa_secp384r1_shake256_p1363",
            TestName::EcdsaSecp384r1Shake256 => "ecdsa_secp384r1_shake256",
            TestName::EcdsaSecp384r1Webcrypto => "ecdsa_secp384r1_webcrypto",
            TestName::EcdsaSecp521r1Sha3_512 => "ecdsa_secp521r1_sha3_512",
            TestName::EcdsaSecp521r1Sha512P1363 => "ecdsa_secp521r1_sha512_p1363",
            TestName::EcdsaSecp521r1Sha512 => "ecdsa_secp521r1_sha512",
            TestName::EcdsaSecp521r1Shake256P1363 => "ecdsa_secp521r1_shake256_p1363",
            TestName::EcdsaSecp521r1Shake256 => "ecdsa_secp521r1_shake256",
            TestName::EcdsaSecp521r1Webcrypto => "ecdsa_secp521r1_webcrypto",
        }
    }

    /// Every test set of the family, in a fixed order.
    pub open spec fn spec_all() -> Seq<TestName> {
        seq![
            TestName::EcdsaBrainpool224r1Sha224P1363,
            TestName::EcdsaBrainpool224r1Sha224,
            TestName::EcdsaBrainpool224r1Sha3_224,
            TestName::EcdsaBrainpool256r1Sha256P1363,
            TestName::EcdsaBrainpool256r1Sha256,
            TestName::EcdsaBrainpool256r1Sha3_256,
            TestName::EcdsaBrainpool320r1Sha3_384,
            TestName::EcdsaBrainpool320r1Sha384P1363,
            TestName::EcdsaBrainpool320r1Sha384,
            TestName::EcdsaBrainpool384r1Sha3_384,
            TestName::EcdsaBrainpool384r1Sha384P1363,
            TestName::EcdsaBrainpool384r1Sha384,
            TestName::EcdsaBrainpool512r1Sha3_512,
            TestName::EcdsaBrainpool512r1Sha512P1363,
            TestName::EcdsaBrainpool512r1Sha512,
            TestName::EcdsaSecp160k1Sha256P1363,
            TestName::EcdsaSecp160k1Sha256,
            TestName::EcdsaSecp160r1Sha256P1363,
            TestName::EcdsaSecp160r1Sha256,
            TestName::EcdsaSecp160r2Sha256P1363,
            TestName::EcdsaSecp160r2Sha256,
            TestName::EcdsaSecp192k1Sha256P1363,
            TestName::EcdsaSecp192k1Sha256,
            TestName::EcdsaSecp192r1Sha256P1363,
            TestName::EcdsaSecp192r1Sha256,
            TestName::EcdsaSecp224k1Sha224P1363,
            TestName::EcdsaSecp224k1Sha224,
            TestName::EcdsaSecp224k1Sha256P1363,
            TestName::EcdsaSecp224k1Sha256,
            TestName::EcdsaSecp224r1Sha224P1363,
            TestName::EcdsaSecp224r1Sha224,
            TestName::EcdsaSecp224r1Sha256P1363,
            TestName::EcdsaSecp224r1Sha256,
            TestName::EcdsaSecp224r1Sha3_224,
            TestName::EcdsaSecp224r1Sha3_256,
            TestName::EcdsaSecp224r1Sha3_512,
            TestName::EcdsaSecp224r1Sha512P1363,
            TestName::EcdsaSecp224r1Sha512,
            TestName::EcdsaSecp224r1Shake128P1363,
            TestName::EcdsaSecp224r1Shake128,
            TestName::EcdsaSecp256k1Sha256Bitcoin,
            TestName::EcdsaSecp256k1Sha256P1363,
            TestName::EcdsaSecp256k1Sha256,
            TestName::EcdsaSecp256k1Sha3_256,
            TestName::EcdsaSecp256k1Sha3_512,
            TestName::EcdsaSecp256k1Sha512P1363,
            TestName::EcdsaSecp256k1Sha512,
            TestName::EcdsaSecp256k1Shake128P1363,
            TestName::EcdsaSecp256k1Shake128,
            TestName::EcdsaSecp256k1Shake256P1363,
            TestName::EcdsaSecp256k1Shake256,
            TestName::EcdsaSecp256r1Sha256P1363,
            TestName::EcdsaSecp256r1Sha256,
            TestName::EcdsaSecp256r1Sha3_256,
            TestName::EcdsaSecp256r1Sha3_512,
            TestName::EcdsaSecp256r1Sha512P1363,
            TestName::EcdsaSecp256r1Sha512,
            TestName::EcdsaSecp256r1Shake128P1363,
            TestName::EcdsaSecp256r1Shake128,
            TestName::EcdsaSecp256r1Webcrypto,
            TestName::EcdsaSecp384r1Sha256,
            TestName::EcdsaSecp384r1Sha3_384,
            TestName::EcdsaSecp384r1Sha3_512,
            TestName::EcdsaSecp384r1Sha384P1363,
            TestName::EcdsaSecp384r1Sha384,
            TestName::EcdsaSecp384r1Sha512P1363,
            TestName::EcdsaSecp384r1Sha512,
            TestName::EcdsaSecp384r1Shake256P1363,
            TestName::EcdsaSecp384r1Shake256,
            TestName::EcdsaSecp384r1Webcrypto,
            TestName::EcdsaSecp521r1Sha3_512,
            TestName::EcdsaSecp521r1Sha512P1363,
            TestName::EcdsaSecp521r1Sha512,
            TestName::EcdsaSecp521r1Shake256P1363,
            TestName::EcdsaSecp521r1Shake256,
            TestName::EcdsaSecp521r1Webcrypto,
        ]
    }

    pub fn all() -> (r: Vec<TestName>)
        ensures
            r@ == Self::spec_all(),
    {
        let r = vec![
            TestName::EcdsaBrainpool224r1Sha224P1363,
            TestName::EcdsaBrainpool224r1Sha224,
            TestName::EcdsaBrainpool224r1Sha3_224,
            TestName::EcdsaBrainpool256r1Sha256P1363,
            TestName::EcdsaBrainpool256r1Sha256,
            TestName::EcdsaBrainpool256r1Sha3_256,
            TestName::EcdsaBrainpool320r1Sha3_384,
            TestName::EcdsaBrainpool320r1Sha384P1363,
            TestName::EcdsaBrainpool320r1Sha384,
            TestName::EcdsaBrainpool384r1Sha3_384,
            TestName::EcdsaBrainpool384r1Sha384P1363,
            TestName::EcdsaBrainpool384r1Sha384,
            TestName::EcdsaBrainpool512r1Sha3_512,
            TestName::EcdsaBrainpool512r1Sha512P1363,
            TestName::EcdsaBrainpool512r1Sha512,
            TestName::EcdsaSecp160k1Sha256P1363,
            TestName::EcdsaSecp160k1Sha256,
            TestName::EcdsaSecp160r1Sha256P1363,
            TestName::EcdsaSecp160r1Sha256,
            TestName::EcdsaSecp160r2Sha256P1363,
            TestName::EcdsaSecp160r2Sha256,
            TestName::EcdsaSecp192k1Sha256P1363,
            TestName::EcdsaSecp192k1Sha256,
            TestName::EcdsaSecp192r1Sha256P1363,
            TestName::EcdsaSecp192r1Sha256,
            TestName::EcdsaSecp224k1Sha224P1363,
            TestName::EcdsaSecp224k1Sha224,
            TestName::EcdsaSecp224k1Sha256P1363,
            TestName::EcdsaSecp224k1Sha256,
            TestName::EcdsaSecp224r1Sha224P1363,
            TestName::EcdsaSecp224r1Sha224,
            TestName::EcdsaSecp224r1Sha256P1363,
            TestName::EcdsaSecp224r1Sha256,
            TestName::EcdsaSecp224r1Sha3_224,
            TestName::EcdsaSecp224r1Sha3_256,
            TestName::EcdsaSecp224r1Sha3_512,
            TestName::EcdsaSecp224r1Sha512P1363,
            TestName::EcdsaSecp224r1Sha512,
            TestName::EcdsaSecp224r1Shake128P1363,
            TestName::EcdsaSecp224r1Shake128,
            TestName::EcdsaSecp256k1Sha256Bitcoin,
            TestName::EcdsaSecp256k1Sha256P1363,
            TestName::EcdsaSecp256k1Sha256,
            TestName::EcdsaSecp256k1Sha3_256,
            TestName::EcdsaSecp256k1Sha3_512,
            TestName::EcdsaSecp256k1Sha512P1363,
            TestName::EcdsaSecp256k1Sha512,
            TestName::EcdsaSecp256k1Shake128P1363,
            TestName::EcdsaSecp256k1Shake128,
            TestName::EcdsaSecp256k1Shake256P1363,
            TestName::EcdsaSecp256k1Shake256,
            TestName::EcdsaSecp256r1Sha256P1363,
            TestName::EcdsaSecp256r1Sha256,
            TestName::EcdsaSecp256r1Sha3_256,
            TestName::EcdsaSecp256r1Sha3_512,
            TestName::EcdsaSecp256r1Sha512P1363,
            TestName::EcdsaSecp256r1Sha512,
            TestName::EcdsaSecp256r1Shake128P1363,
            TestName::EcdsaSecp256r1Shake128,
            TestName::EcdsaSecp256r1Webcrypto,
            TestName::EcdsaSecp384r1Sha256,
            TestName::EcdsaSecp384r1Sha3_384,
            TestName::EcdsaSecp384r1Sha3_512,
            TestName::EcdsaSecp384r1Sha384P1363,
            TestName::EcdsaSecp384r1Sha384,
            TestName::EcdsaSecp384r1Sha512P1363,
            TestName::EcdsaSecp384r1Sha512,
            TestName::EcdsaSecp384r1Shake256P1363,
            TestName::EcdsaSecp384r1Shake256,
            TestName::EcdsaSecp384r1Webcrypto,
            TestName::EcdsaSecp521r1Sha3_512,
            TestName::EcdsaSecp521r1Sha512P1363,
            TestName::EcdsaSecp521r1Sha512,
            TestName::EcdsaSecp521r1Shake256P1363,
            TestName::EcdsaSecp521r1Shake256,
            TestName::EcdsaSecp521r1Webcrypto,
        ];
        assert(r@ =~= Self::spec_all());
        r
    }

    /// Finds a test set by its name.
    pub fn from_str(s: &str) -> (r: Result<TestName, WycheproofError>)
        ensures
            match r {
                Ok(t) => Self::spec_from_name(s@) == Some(t),
                Err(e) => Self::spec_from_name(s@) is None && e is NoDataSet,
            },
    {
        match Self::from_name(s) {
            Some(t) => Ok(t),
            None => Err(WycheproofError::NoDataSet),
        }
    }
}

impl std::str::FromStr for TestName {
    type Err = WycheproofError;

    fn from_str(s: &str) -> (r: Result<TestName, WycheproofError>)
        ensures
            match r {
                Ok(t) => TestName::spec_from_name(s@) == Some(t),
                Err(e) => TestName::spec_from_name(s@) is None && e is NoDataSet,
            },
    {
        TestName::from_str(s)
    }
}

/// Every test set is found again by its name.
pub proof fn lemma_name_round_trip(t: TestName)
    ensures
        TestName::spec_from_name(t.spec_name()) == Some(t),
{
    reveal_strlit("ecdsa_brainpoolP224r1_sha224_p1363");
    assert("ecdsa_brainpoolP224r1_sha224_p1363"@ =~= seq!['e', 'c', 'd', 's', 'a', '_', 'b', 'r', 'a', 'i', 'n', 'p', 'o', 'o', 'l', 'P', '2', '2', '4', 'r', '1', '_', 's', 'h', 'a', '2', '2', '4', '_', 'p', '1', '3', '6', '3']);
    reveal_strlit("ecdsa_brainpoolP224r1_sha224");
    assert("ecdsa_brainpoolP224r1_sha224"@ =~= seq!['e', 'c', 'd', 's', 'a', '_', 'b', 'r', 'a', 'i', 'n', 'p', 'o', 'o', 'l', 'P', '2', '2', '4', 'r', '1', '_', 's', 'h', 'a', '2', '2', '4']);
    reveal_strlit("ecdsa_brainpoolP224r1_sha3_224");
    assert("ecdsa_brainpoolP224r1_sha3_224"@ =~= seq!['e', 'c', 'd', 's', 'a', '_', 'b', 'r', 'a', 'i', 'n', 'p', 'o', 'o', 'l', 'P', '2', '2', '4', 'r', '1', '_', 's', 'h', 'a', '3', '_', '2', '2', '4']);
    reveal_strlit("ecdsa_brainpoolP256r1_sha256_p1363");
    assert("ecdsa_brainpoolP256r1_sha256_p1363"@ =~= seq!['e', 'c', 'd', 's', 'a', '_', 'b', 'r', 'a', 'i', 'n', 'p', 'o', 'o', 'l', 'P', '2', '5', '6', 'r', '1', '_', 's', 'h', 'a', '2', '5', '6', '_', 'p', '1', '3', '6', '3']);
    reveal_strlit("ecdsa_brainpoolP256r1_sha256");
    assert("ecdsa_brainpoolP256r1_sha256"@ =~= seq!['e', 'c', 'd', 's', 'a', '_', 'b', 'r', 'a', 'i', 'n', 'p', 'o', 'o', 'l', 'P', '2', '5', '6', 'r', '1', '_', 's', 'h', 'a', '2', '5', '6']);
    reveal_strlit("ecdsa_brainpoolP256r1_sha3_256");
    assert("ecdsa_brainpoolP256r1_sha3_256"@ =~= seq!['e', 'c', 'd', 's', 'a', '_', 'b', 'r', 'a', 'i', 'n', 'p', 'o', 'o', 'l', 'P', '2', '5', '6', 'r', '1', '_', 's', 'h', 'a', '3', '_', '2', '5', '6']);
    reveal_strlit("ecdsa_brainpoolP320r1_sha3_384");
    assert("ecdsa_brainpoolP320r1_sha3_384"@ =~= seq!['e', 'c', 'd', 's', 'a', '_', 'b', 'r', 'a', 'i', 'n', 'p', 'o', 'o', 'l', 'P', '3', '2', '0', 'r', '1', '_', 's', 'h', 'a', '3', '_', '3', '8', '4']);
    reveal_strlit("ecdsa_brainpoolP320r1_sha384_p1363");
    assert("ecdsa_brainpoolP320r1_sha384_p1363"@ =~= seq!['e', 'c', 'd', 's', 'a', '_', 'b', 'r', 'a', 'i', 'n', 'p', 'o', 'o', 'l', 'P', '3', '2', '0', 'r', '1', '_', 's', 'h', 'a', '3', '8', '4', '_', 'p', '1', '3', '6', '3']);
    reveal_strlit("ecdsa_brainpoolP320r1_sha384");
    assert("ecdsa_brainpoolP320r1_sha384"@ =~= seq!['e', 'c', 'd', 's', 'a', '_', 'b', 'r', 'a', 'i', 'n', 'p', 'o', 'o', 'l', 'P', '3', '2', '0', 'r', '1', '_', 's', 'h', 'a', '3', '8', '4']);
    reveal_strlit("ecdsa_brainpoolP384r1_sha3_384");
    assert("ecdsa_brainpoolP384r1_sha3_384"@ =~= seq!['e', 'c', 'd', 's', 'a', '_', 'b', 'r', 'a', 'i', 'n', 'p', 'o', 'o', 'l', 'P', '3', '8', '4', 'r', '1', '_', 's', 'h', 'a', '3', '_', '3', '8', '4']);
    reveal_strlit("ecdsa_brainpoolP384r1_sha384_p1363");
    assert("ecdsa_brainpoolP384r1_sha384_p1363"@ =~= seq!['e', 'c', 'd', 's', 'a', '_', 'b', 'r', 'a', 'i', 'n', 'p', 'o', 'o', 'l', 'P', '3', '8', '4', 'r', '1', '_', 's', 'h', 'a', '3', '8', '4', '_', 'p', '1', '3', '6', '3']);
    reveal_strlit("ecdsa_brainpoolP384r1_sha384");
    assert("ecdsa_brainpoolP384r1_sha384"@ =~= seq!['e', 'c', 'd', 's', 'a', '_', 'b', 'r', 'a', 'i', 'n', 'p', 'o', 'o', 'l', 'P', '3', '8', '4', 'r', '1', '_', 's', 'h', 'a', '3', '8', '4']);
    reveal_strlit("ecdsa_brainpoolP512r1_sha3_512");
    assert("ecdsa_brainpoolP512r1_sha3_512"@ =~= seq!['e', 'c', 'd', 's', 'a', '_', 'b', 'r', 'a', 'i', 'n', 'p', 'o', 'o', 'l', 'P', '5', '1', '2', 'r', '1', '_', 's', 'h', 'a', '3', '_', '5', '1', '2']);
    reveal_strlit("ecdsa_brainpoolP512r1_sha512_p1363");
    assert("ecdsa_brainpoolP512r1_sha512_p1363"@ =~= seq!['e', 'c', 'd', 's', 'a', '_', 'b', 'r', 'a', 'i', 'n', 'p', 'o', 'o', 'l', 'P', '5', '1', '2', 'r', '1', '_', 's', 'h', 'a', '5', '1', '2', '_', 'p', '1', '3', '6', '3']);
    reveal_strlit("ecdsa_brainpoolP512r1_sha512");
    assert("ecdsa_brainpoolP512r1_sha512"@ =~= seq!['e', 'c', 'd', 's', 'a', '_', 'b', 'r', 'a', 'i', 'n', 'p', 'o', 'o', 'l', 'P', '5', '1', '2', 'r', '1', '_', 's', 'h', 'a', '5', '1', '2']);
    reveal_strlit("ecdsa_secp160k1_sha256_p1363");
    assert("ecdsa_secp160k1_sha256_p1363"@ =~= seq!['e', 'c', 'd', 's', 'a', '_', 's', 'e', 'c', 'p', '1', '6', '0', 'k', '1', '_', 's', 'h', 'a', '2', '5', '6', '_', 'p', '1', '3', '6', '3']);
    reveal_strlit("ecdsa_secp160k1_sha256");
    assert("ecdsa_secp160k1_sha256"@ =~= seq!['e', 'c', 'd', 's', 'a', '_', 's', 'e', 'c', 'p', '1', '6', '0', 'k', '1', '_', 's', 'h', 'a', '2', '5', '6']);
    reveal_strlit("ecdsa_secp160r1_sha256_p1363");
    assert("ecdsa_secp160r1_sha256_p1363"@ =~= seq!['e', 'c', 'd', 's', 'a', '_', 's', 'e', 'c', 'p', '1', '6', '0', 'r', '1', '_', 's', 'h', 'a', '2', '5', '6', '_', 'p', '1', '3', '6', '3']);
    reveal_strlit("ecdsa_secp160r1_sha256");
    assert("ecdsa_secp160r1_sha256"@ =~= seq!['e', 'c', 'd', 's', 'a', '_', 's', 'e', 'c', 'p', '1', '6', '0', 'r', '1', '_', 's', 'h', 'a', '2', '5', '6']);
    reveal_strlit("ecdsa_secp160r2_sha256_p1363");
    assert("ecdsa_secp160r2_sha256_p1363"@ =~= seq!['e', 'c', 'd', 's', 'a', '_', 's', 'e', 'c', 'p', '1', '6', '0', 'r', '2', '_', 's', 'h', 'a', '2', '5', '6', '_', 'p', '1', '3', '6', '3']);
    reveal_strlit("ecdsa_secp160r2_sha256");
    assert("ecdsa_secp160r2_sha256"@ =~= seq!['e', 'c', 'd', 's', 'a', '_', 's', 'e', 'c', 'p', '1', '6', '0', 'r', '2', '_', 's', 'h', 'a', '2', '5', '6']);
    reveal_strlit("ecdsa_secp192k1_sha256_p1363");
    assert("ecdsa_secp192k1_sha256_p1363"@ =~= seq!['e', 'c', 'd', 's', 'a', '_', 's', 'e', 'c', 'p', '1', '9', '2', 'k', '1', '_', 's', 'h', 'a', '2', '5', '6', '_', 'p', '1', '3', '6', '3']);
    reveal_strlit("ecdsa_secp192k1_sha256");
    assert("ecdsa_secp192k1_sha256"@ =~= seq!['e', 'c', 'd', 's', 'a', '_', 's', 'e', 'c', 'p', '1', '9', '2', 'k', '1', '_', 's', 'h', 'a', '2', '5', '6']);
    reveal_strlit("ecdsa_secp192r1_sha256_p1363");
    assert("ecdsa_secp192r1_sha256_p1363"@ =~= seq!['e', 'c', 'd', 's', 'a', '_', 's', 'e', 'c', 'p', '1', '9', '2', 'r', '1', '_', 's', 'h', 'a', '2', '5', '6', '_', 'p', '1', '3', '6', '3']);
    reveal_strlit("ecdsa_secp192r1_sha256");
    assert("ecdsa_secp192r1_sha256"@ =~= seq!['e', 'c', 'd', 's', 'a', '_', 's', 'e', 'c', 'p', '1', '9', '2', 'r', '1', '_', 's', 'h', 'a', '2', '5', '6']);
    reveal_strlit("ecdsa_secp224k1_sha224_p1363");
    assert("ecdsa_secp224k1_sha224_p1363"@ =~= seq!['e', 'c', 'd', 's', 'a', '_', 's', 'e', 'c', 'p', '2', '2', '4', 'k', '1', '_', 's', 'h', 'a', '2', '2', '4', '_', 'p', '1', '3', '6', '3']);
    reveal_strlit("ecdsa_secp224k1_sha224");
    assert("ecdsa_secp224k1_sha224"@ =~= seq!['e', 'c', 'd', 's', 'a', '_', 's', 'e', 'c', 'p', '2', '2', '4', 'k', '1', '_', 's', 'h', 'a', '2', '2', '4']);
    reveal_strlit("ecdsa_secp224k1_sha256_p1363");
    assert("ecdsa_secp224k1_sha256_p1363"@ =~= seq!['e', 'c', 'd', 's', 'a', '_', 's', 'e', 'c', 'p', '2', '2', '4', 'k', '1', '_', 's', 'h', 'a', '2', '5', '6', '_', 'p', '1', '3', '6', '3']);
    reveal_strlit("ecdsa_secp224k1_sha256");
    assert("ecdsa_secp224k1_sha256"@ =~= seq!['e', 'c', 'd', 's', 'a', '_', 's', 'e', 'c', 'p', '2', '2', '4', 'k', '1', '_', 's', 'h', 'a', '2', '5', '6']);
    reveal_strlit("ecdsa_secp224r1_sha224_p1363");
    assert("ecdsa_secp224r1_sha224_p1363"@ =~= seq!['e', 'c', 'd', 's', 'a', '_', 's', 'e', 'c', 'p', '2', '2', '4', 'r', '1', '_', 's', 'h', 'a', '2', '2', '4', '_', 'p', '1', '3', '6', '3']);
    reveal_strlit("ecdsa_secp224r1_sha224");
    assert("ecdsa_secp224r1_sha224"@ =~= seq!['e', 'c', 'd', 's', 'a', '_', 's', 'e', 'c', 'p', '2', '2', '4', 'r', '1', '_', 's', 'h', 'a', '2', '2', '4']);
    reveal_strlit("ecdsa_secp224r1_sha256_p1363");
    assert("ecdsa_secp224r1_sha256_p1363"@ =~= seq!['e', 'c', 'd', 's', 'a', '_', 's', 'e', 'c', 'p', '2', '2', '4', 'r', '1', '_', 's', 'h', 'a', '2', '5', '6', '_', 'p', '1', '3', '6', '3']);
    reveal_strlit("ecdsa_secp224r1_sha256");
    assert("ecdsa_secp224r1_sha256"@ =~= seq!['e', 'c', 'd', 's', 'a', '_', 's', 'e', 'c', 'p', '2', '2', '4', 'r', '1', '_', 's', 'h', 'a', '2', '5', '6']);
    reveal_strlit("ecdsa_secp224r1_sha3_224");
    assert("ecdsa_secp224r1_sha3_224"@ =~= seq!['e', 'c', 'd', 's', 'a', '_', 's', 'e', 'c', 'p', '2', '2', '4', 'r', '1', '_', 's', 'h', 'a', '3', '_', '2', '2', '4']);
    reveal_strlit("ecdsa_secp224r1_sha3_256");
    assert("ecdsa_secp224r1_sha3_256"@ =~= seq!['e', 'c', 'd', 's', 'a', '_', 's', 'e', 'c', 'p', '2', '2', '4', 'r', '1', '_', 's', 'h', 'a', '3', '_', '2', '5', '6']);
    reveal_strlit("ecdsa_secp224r1_sha3_512");
    assert("ecdsa_secp224r1_sha3_512"@ =~= seq!['e', 'c', 'd', 's', 'a', '_', 's', 'e', 'c', 'p', '2', '2', '4', 'r', '1', '_', 's', 'h', 'a', '3', '_', '5', '1', '2']);
    reveal_strlit("ecdsa_secp224r1_sha512_p1363");
    assert("ecdsa_secp224r1_sha512_p1363"@ =~= seq!['e', 'c', 'd', 's', 'a', '_', 's', 'e', 'c', 'p', '2', '2', '4', 'r', '1', '_', 's', 'h', 'a', '5', '1', '2', '_', 'p', '1', '3', '6', '3']);
    reveal_strlit("ecdsa_secp224r1_sha512");
    assert("ecdsa_secp224r1_sha512"@ =~= seq!['e', 'c', 'd', 's', 'a', '_', 's', 'e', 'c', 'p', '2', '2', '4', 'r', '1', '_', 's', 'h', 'a', '5', '1', '2']);
    reveal_strlit("ecdsa_secp224r1_shake128_p1363");
    assert("ecdsa_secp224r1_shake128_p1363"@ =~= seq!['e', 'c', 'd', 's', 'a', '_', 's', 'e', 'c', 'p', '2', '2', '4', 'r', '1', '_', 's', 'h', 'a', 'k', 'e', '1', '2', '8', '_', 'p', '1', '3', '6', '3']);
    reveal_strlit("ecdsa_secp224r1_shake128");
    assert("ecdsa_secp224r1_shake128"@ =~= seq!['e', 'c', 'd', 's', 'a', '_', 's', 'e', 'c', 'p', '2', '2', '4', 'r', '1', '_', 's', 'h', 'a', 'k', 'e', '1', '2', '8']);
    reveal_strlit("ecdsa_secp256k1_sha256_bitcoin");
    assert("ecdsa_secp256k1_sha256_bitcoin"@ =~= seq!['e', 'c', 'd', 's', 'a', '_', 's', 'e', 'c', 'p', '2', '5', '6', 'k', '1', '_', 's', 'h', 'a', '2', '5', '6', '_', 'b', 'i', 't', 'c', 'o', 'i', 'n']);
    reveal_strlit("ecdsa_secp256k1_sha256_p1363");
    assert("ecdsa_secp256k1_sha256_p1363"@ =~= seq!['e', 'c', 'd', 's', 'a', '_', 's', 'e', 'c', 'p', '2', '5', '6', 'k', '1', '_', 's', 'h', 'a', '2', '5', '6', '_', 'p', '1', '3', '6', '3']);
    reveal_strlit("ecdsa_secp256k1_sha256");
    assert("ecdsa_secp256k1_sha256"@ =~= seq!['e', 'c', 'd', 's', 'a', '_', 's', 'e', 'c', 'p', '2', '5', '6', 'k', '1', '_', 's', 'h', 'a', '2', '5', '6']);
    reveal_strlit("ecdsa_secp256k1_sha3_256");
    assert("ecdsa_secp256k1_sha3_256"@ =~= seq!['e', 'c', 'd', 's', 'a', '_', 's', 'e', 'c', 'p', '2', '5', '6', 'k', '1', '_', 's', 'h', 'a', '3', '_', '2', '5', '6']);
    reveal_strlit("ecdsa_secp256k1_sha3_512");
    assert("ecdsa_secp256k1_sha3_512"@ =~= seq!['e', 'c', 'd', 's', 'a', '_', 's', 'e', 'c', 'p', '2', '5', '6', 'k', '1', '_', 's', 'h', 'a', '3', '_', '5', '1', '2']);
    reveal_strlit("ecdsa_secp256k1_sha512_p1363");
    assert("ecdsa_secp256k1_sha512_p1363"@ =~= seq!['e', 'c', 'd', 's', 'a', '_', 's', 'e', 'c', 'p', '2', '5', '6', 'k', '1', '_', 's', 'h', 'a', '5', '1', '2', '_', 'p', '1', '3', '6', '3']);
    reveal_strlit("ecdsa_secp256k1_sha512");
    assert("ecdsa_secp256k1_sha512"@ =~= seq!['e', 'c', 'd', 's', 'a', '_', 's', 'e', 'c', 'p', '2', '5', '6', 'k', '1', '_', 's', 'h', 'a', '5', '1', '2']);
    reveal_strlit("ecdsa_secp256k1_shake128_p1363");
    assert("ecdsa_secp256k1_shake128_p1363"@ =~= seq!['e', 'c', 'd', 's', 'a', '_', 's', 'e', 'c', 'p', '2', '5', '6', 'k', '1', '_', 's', 'h', 'a', 'k', 'e', '1', '2', '8', '_', 'p', '1', '3', '6', '3']);
    reveal_strlit("ecdsa_secp256k1_shake128");
    assert("ecdsa_secp256k1_shake128"@ =~= seq!['e', 'c', 'd', 's', 'a', '_', 's', 'e', 'c', 'p', '2', '5', '6', 'k', '1', '_', 's', 'h', 'a', 'k', 'e', '1', '2', '8']);
    reveal_strlit("ecdsa_secp256k1_shake256_p1363");
    assert("ecdsa_secp256k1_shake256_p1363"@ =~= seq!['e', 'c', 'd', 's', 'a', '_', 's', 'e', 'c', 'p', '2', '5', '6', 'k', '1', '_', 's', 'h', 'a', 'k', 'e', '2', '5', '6', '_', 'p', '1', '3', '6', '3']);
    reveal_strlit("ecdsa_secp256k1_shake256");
    assert("ecdsa_secp256k1_shake256"@ =~= seq!['e', 'c', 'd', 's', 'a', '_', 's', 'e', 'c', 'p', '2', '5', '6', 'k', '1', '_', 's', 'h', 'a', 'k', 'e', '2', '5', '6']);
    reveal_strlit("ecdsa_secp256r1_sha256_p1363");
    assert("ecdsa_secp256r1_sha256_p1363"@ =~= seq!['e', 'c', 'd', 's', 'a', '_', 's', 'e', 'c', 'p', '2', '5', '6', 'r', '1', '_', 's', 'h', 'a', '2', '5', '6', '_', 'p', '1', '3', '6', '3']);
    reveal_strlit("ecdsa_secp256r1_sha256");
    assert("ecdsa_secp256r1_sha256"@ =~= seq!['e', 'c', 'd', 's', 'a', '_', 's', 'e', 'c', 'p', '2', '5', '6', 'r', '1', '_', 's', 'h', 'a', '2', '5', '6']);
    reveal_strlit("ecdsa_secp256r1_sha3_256");
    assert("ecdsa_secp256r1_sha3_256"@ =~= seq!['e', 'c', 'd', 's', 'a', '_', 's', 'e', 'c', 'p', '2', '5', '6', 'r', '1', '_', 's', 'h', 'a', '3', '_', '2', '5', '6']);
    reveal_strlit("ecdsa_secp256r1_sha3_512");
    assert("ecdsa_secp256r1_sha3_512"@ =~= seq!['e', 'c', 'd', 's', 'a', '_', 's', 'e', 'c', 'p', '2', '5', '6', 'r', '1', '_', 's', 'h', 'a', '3', '_', '5', '1', '2']);
    reveal_strlit("ecdsa_secp256r1_sha512_p1363");
    assert("ecdsa_secp256r1_sha512_p1363"@ =~= seq!['e', 'c', 'd', 's', 'a', '_', 's', 'e', 'c', 'p', '2', '5', '6', 'r', '1', '_', 's', 'h', 'a', '5', '1', '2', '_', 'p', '1', '3', '6', '3']);
    reveal_strlit("ecdsa_secp256r1_sha512");
    assert("ecdsa_secp256r1_sha512"@ =~= seq!['e', 'c', 'd', 's', 'a', '_', 's', 'e', 'c', 'p', '2', '5', '6', 'r', '1', '_', 's', 'h', 'a', '5', '1', '2']);
    reveal_strlit("ecdsa_secp256r1_shake128_p1363");
    assert("ecdsa_secp256r1_shake128_p1363"@ =~= seq!['e', 'c', 'd', 's', 'a', '_', 's', 'e', 'c', 'p', '2', '5', '6', 'r', '1', '_', 's', 'h', 'a', 'k', 'e', '1', '2', '8', '_', 'p', '1', '3', '6', '3']);
    reveal_strlit("ecdsa_secp256r1_shake128");
    assert("ecdsa_secp256r1_shake128"@ =~= seq!['e', 'c', 'd', 's', 'a', '_', 's', 'e', 'c', 'p', '2', '5', '6', 'r', '1', '_', 's', 'h', 'a', 'k', 'e', '1', '2', '8']);
    reveal_strlit("ecdsa_secp256r1_webcrypto");
    assert("ecdsa_secp256r1_webcrypto"@ =~= seq!['e', 'c', 'd', 's', 'a', '_', 's', 'e', 'c', 'p', '2', '5', '6', 'r', '1', '_', 'w', 'e', 'b', 'c', 'r', 'y', 'p', 't', 'o']);
    reveal_strlit("ecdsa_secp384r1_sha256");
    assert("ecdsa_secp384r1_sha256"@ =~= seq!['e', 'c', 'd', 's', 'a', '_', 's', 'e', 'c', 'p', '3', '8', '4', 'r', '1', '_', 's', 'h', 'a', '2', '5', '6']);
    reveal_strlit("ecdsa_secp384r1_sha3_384");
    assert("ecdsa_secp384r1_sha3_384"@ =~= seq!['e', 'c', 'd', 's', 'a', '_', 's', 'e', 'c', 'p', '3', '8', '4', 'r', '1', '_', 's', 'h', 'a', '3', '_', '3', '8', '4']);
    reveal_strlit("ecdsa_secp384r1_sha3_512");
    assert("ecdsa_secp384r1_sha3_512"@ =~= seq!['e', 'c', 'd', 's', 'a', '_', 's', 'e', 'c', 'p', '3', '8', '4', 'r', '1', '_', 's', 'h', 'a', '3', '_', '5', '1', '2']);
    reveal_strlit("ecdsa_secp384r1_sha384_p1363");
    assert("ecdsa_secp384r1_sha384_p1363"@ =~= seq!['e', 'c', 'd', 's', 'a', '_', 's', 'e', 'c', 'p', '3', '8', '4', 'r', '1', '_', 's', 'h', 'a', '3', '8', '4', '_', 'p', '1', '3', '6', '3']);
    reveal_strlit("ecdsa_secp384r1_sha384");
    assert("ecdsa_secp384r1_sha384"@ =~= seq!['e', 'c', 'd', 's', 'a', '_', 's', 'e', 'c', 'p', '3', '8', '4', 'r', '1', '_', 's', 'h', 'a', '3', '8', '4']);
    reveal_strlit("ecdsa_secp384r1_sha512_p1363");
    assert("ecdsa_secp384r1_sha512_p1363"@ =~= seq!['e', 'c', 'd', 's', 'a', '_', 's', 'e', 'c', 'p', '3', '8', '4', 'r', '1', '_', 's', 'h', 'a', '5', '1', '2', '_', 'p', '1', '3', '6', '3']);
    reveal_strlit("ecdsa_secp384r1_sha512");
    assert("ecdsa_secp384r1_sha512"@ =~= seq!['e', 'c', 'd', 's', 'a', '_', 's', 'e', 'c', 'p', '3', '8', '4', 'r', '1', '_', 's', 'h', 'a', '5', '1', '2']);
    reveal_strlit("ecdsa_secp384r1_shake256_p1363");
    assert("ecdsa_secp384r1_shake256_p1363"@ =~= seq!['e', 'c', 'd', 's', 'a', '_', 's', 'e', 'c', 'p', '3', '8', '4', 'r', '1', '_', 's', 'h', 'a', 'k', 'e', '2', '5', '6', '_', 'p', '1', '3', '6', '3']);
    reveal_strlit("ecdsa_secp384r1_shake256");
    assert("ecdsa_secp384r1_shake256"@ =~= seq!['e', 'c', 'd', 's', 'a', '_', 's', 'e', 'c', 'p', '3', '8', '4', 'r', '1', '_', 's', 'h', 'a', 'k', 'e', '2', '5', '6']);
    reveal_strlit("ecdsa_secp384r1_webcrypto");
    assert("ecdsa_secp384r1_webcrypto"@ =~= seq!['e', 'c', 'd', 's', 'a', '_', 's', 'e', 'c', 'p', '3', '8', '4', 'r', '1', '_', 'w', 'e', 'b', 'c', 'r', 'y', 'p', 't', 'o']);
    reveal_strlit("ecdsa_secp521r1_sha3_512");
    assert("ecdsa_secp521r1_sha3_512"@ =~= seq!['e', 'c', 'd', 's', 'a', '_', 's', 'e', 'c', 'p', '5', '2', '1', 'r', '1', '_', 's', 'h', 'a', '3', '_', '5', '1', '2']);
    reveal_strlit("ecdsa_secp521r1_sha512_p1363");
    assert("ecdsa_secp521r1_sha512_p1363"@ =~= seq!['e', 'c', 'd', 's', 'a', '_', 's', 'e', 'c', 'p', '5', '2', '1', 'r', '1', '_', 's', 'h', 'a', '5', '1', '2', '_', 'p', '1', '3', '6', '3']);
    reveal_strlit("ecdsa_secp521r1_sha512");
    assert("ecdsa_secp521r1_sha512"@ =~= seq!['e', 'c', 'd', 's', 'a', '_', 's', 'e', 'c', 'p', '5', '2', '1', 'r', '1', '_', 's', 'h', 'a', '5', '1', '2']);
    reveal_strlit("ecdsa_secp521r1_shake256_p1363");
    assert("ecdsa_secp521r1_shake256_p1363"@ =~= seq!['e', 'c', 'd', 's', 'a', '_', 's', 'e', 'c', 'p', '5', '2', '1', 'r', '1', '_', 's', 'h', 'a', 'k', 'e', '2', '5', '6', '_', 'p', '1', '3', '6', '3']);
    reveal_strlit("ecdsa_secp521r1_shake256");
    assert("ecdsa_secp521r1_shake256"@ =~= seq!['e', 'c', 'd', 's', 'a', '_', 's', 'e', 'c', 'p', '5', '2', '1', 'r', '1', '_', 's', 'h', 'a', 'k', 'e', '2', '5', '6']);
    reveal_strlit("ecdsa_secp521r1_webcrypto");
    assert("ecdsa_secp521r1_webcrypto"@ =~= seq!['e', 'c', 'd', 's', 'a', '_', 's', 'e', 'c', 'p', '5', '2', '1', 'r', '1', '_', 'w', 'e', 'b', 'c', 'r', 'y', 'p', 't', 'o']);
}

/// Every test set is listed.
pub proof fn lemma_all_complete(t: TestName)
    ensures
        TestName::spec_all().contains(t),
{
    match t {
        TestName::EcdsaBrainpool224r1Sha224P1363 => assert(TestName::spec_all()[0] == t),
        TestName::EcdsaBrainpool224r1Sha224 => assert(TestName::spec_all()[1] == t),
        TestName::EcdsaBrainpool224r1Sha3_224 => assert(TestName::spec_all()[2] == t),
        TestName::EcdsaBrainpool256r1Sha256P1363 => assert(TestName::spec_all()[3] == t),
        TestName::EcdsaBrainpool256r1Sha256 => assert(TestName::spec_all()[4] == t),
        TestName::EcdsaBrainpool256r1Sha3_256 => assert(TestName::spec_all()[5] == t),
        TestName::EcdsaBrainpool320r1Sha3_384 => assert(TestName::spec_all()[6] == t),
        TestName::EcdsaBrainpool320r1Sha384P1363 => assert(TestName::spec_all()[7] == t),
        TestName::EcdsaBrainpool320r1Sha384 => assert(TestName::spec_all()[8] == t),
        TestName::EcdsaBrainpool384r1Sha3_384 => assert(TestName::spec_all()[9] == t),
        TestName::EcdsaBrainpool384r1Sha384P1363 => assert(TestName::spec_all()[10] == t),
        TestName::EcdsaBrainpool384r1Sha384 => assert(TestName::spec_all()[11] == t),
        TestName::EcdsaBrainpool512r1Sha3_512 => assert(TestName::spec_all()[12] == t),
        TestName::EcdsaBrainpool512r1Sha512P1363 => assert(TestName::spec_all()[13] == t),
        TestName::EcdsaBrainpool512r1Sha512 => assert(TestName::spec_all()[14] == t),
        TestName::EcdsaSecp160k1Sha256P1363 => assert(TestName::spec_all()[15] == t),
        TestName::EcdsaSecp160k1Sha256 => assert(TestName::spec_all()[16] == t),
        TestName::EcdsaSecp160r1Sha256P1363 => assert(TestName::spec_all()[17] == t),
        TestName::EcdsaSecp160r1Sha256 => assert(TestName::spec_all()[18] == t),
        TestName::EcdsaSecp160r2Sha256P1363 => assert(TestName::spec_all()[19] == t),
        TestName::EcdsaSecp160r2Sha256 => assert(TestName::spec_all()[20] == t),
        TestName::EcdsaSecp192k1Sha256P1363 => assert(TestName::spec_all()[21] == t),
        TestName::EcdsaSecp192k1Sha256 => assert(TestName::spec_all()[22] == t),
        TestName::EcdsaSecp192r1Sha256P1363 => assert(TestName::spec_all()[23] == t),
        TestName::EcdsaSecp192r1Sha256 => assert(TestName::spec_all()[24] == t),
        TestName::EcdsaSecp224k1Sha224P1363 => assert(TestName::spec_all()[25] == t),
        TestName::EcdsaSecp224k1Sha224 => assert(TestName::spec_all()[26] == t),
        TestName::EcdsaSecp224k1Sha256P1363 => assert(TestName::spec_all()[27] == t),
        TestName::EcdsaSecp224k1Sha256 => assert(TestName::spec_all()[28] == t),
        TestName::EcdsaSecp224r1Sha224P1363 => assert(TestName::spec_all()[29] == t),
        TestName::EcdsaSecp224r1Sha224 => assert(TestName::spec_all()[30] == t),
        TestName::EcdsaSecp224r1Sha256P1363 => assert(TestName::spec_all()[31] == t),
        TestName::EcdsaSecp224r1Sha256 => assert(TestName::spec_all()[32] == t),
        TestName::EcdsaSecp224r1Sha3_224 => assert(TestName::spec_all()[33] == t),
        TestName::EcdsaSecp224r1Sha3_256 => assert(TestName::spec_all()[34] == t),
        TestName::EcdsaSecp224r1Sha3_512 => assert(TestName::spec_all()[35] == t),
        TestName::EcdsaSecp224r1Sha512P1363 => assert(TestName::spec_all()[36] == t),
        TestName::EcdsaSecp224r1Sha512 => assert(TestName::spec_all()[37] == t),
        TestName::EcdsaSecp224r1Shake128P1363 => assert(TestName::spec_all()[38] == t),
        TestName::EcdsaSecp224r1Shake128 => assert(TestName::spec_all()[39] == t),
        TestName::EcdsaSecp256k1Sha256Bitcoin => assert(TestName::spec_all()[40] == t),
        TestName::EcdsaSecp256k1Sha256P1363 => assert(TestName::spec_all()[41] == t),
        TestName::EcdsaSecp256k1Sha256 => assert(TestName::spec_all()[42] == t),
        TestName::EcdsaSecp256k1Sha3_256 => assert(TestName::spec_all()[43] == t),
        TestName::EcdsaSecp256k1Sha3_512 => assert(TestName::spec_all()[44] == t),
        TestName::EcdsaSecp256k1Sha512P1363 => assert(TestName::spec_all()[45] == t),
        TestName::EcdsaSecp256k1Sha512 => assert(TestName::spec_all()[46] == t),
        TestName::EcdsaSecp256k1Shake128P1363 => assert(TestName::spec_all()[47] == t),
        TestName::EcdsaSecp256k1Shake128 => assert(TestName::spec_all()[48] == t),
        TestName::EcdsaSecp256k1Shake256P1363 => assert(TestName::spec_all()[49] == t),
        TestName::EcdsaSecp256k1Shake256 => assert(TestName::spec_all()[50] == t),
        TestName::EcdsaSecp256r1Sha256P1363 => assert(TestName::spec_all()[51] == t),
        TestName::EcdsaSecp256r1Sha256 => assert(TestName::spec_all()[52] == t),
        TestName::EcdsaSecp256r1Sha3_256 => assert(TestName::spec_all()[53] == t),
        TestName::EcdsaSecp256r1Sha3_512 => assert(TestName::spec_all()[54] == t),
        TestName::EcdsaSecp256r1Sha512P1363 => assert(TestName::spec_all()[55] == t),
        TestName::EcdsaSecp256r1Sha512 => assert(TestName::spec_all()[56] == t),
        TestName::EcdsaSecp256r1Shake128P1363 => assert(TestName::spec_all()[57] == t),
        TestName::EcdsaSecp256r1Shake128 => assert(TestName::spec_all()[58] == t),
        TestName::EcdsaSecp256r1Webcrypto => assert(TestName::spec_all()[59] == t),
        TestName::EcdsaSecp384r1Sha256 => assert(TestName::spec_all()[60] == t),
        TestName::EcdsaSecp384r1Sha3_384 => assert(TestName::spec_all()[61] == t),
        TestName::EcdsaSecp384r1Sha3_512 => assert(TestName::spec_all()[62] == t),
        TestName::EcdsaSecp384r1Sha384P1363 => assert(TestName::spec_all()[63] == t),
        TestName::EcdsaSecp384r1Sha384 => assert(TestName::spec_all()[64] == t),
        TestName::EcdsaSecp384r1Sha512P1363 => assert(TestName::spec_all()[65] == t),
        TestName::EcdsaSecp384r1Sha512 => assert(TestName::spec_all()[66] == t),
        TestName::EcdsaSecp384r1Shake256P1363 => assert(TestName::spec_all()[67] == t),
        TestName::EcdsaSecp384r1Shake256 => assert(TestName::spec_all()[68] == t),
        TestName::EcdsaSecp384r1Webcrypto => assert(TestName::spec_all()[69] == t),
        TestName::EcdsaSecp521r1Sha3_512 => assert(TestName::spec_all()[70] == t),
        TestName::EcdsaSecp521r1Sha512P1363 => assert(TestName::spec_all()[71] == t),
        TestName::EcdsaSecp521r1Sha512 => assert(TestName::spec_all()[72] == t),
        TestName::EcdsaSecp521r1Shake256P1363 => assert(TestName::spec_all()[73] == t),
        TestName::EcdsaSecp521r1Shake256 => assert(TestName::spec_all()[74] == t),
        TestName::EcdsaSecp521r1Webcrypto => assert(TestName::spec_all()[75] == t),
    }
}

/// The algorithms that a test set of this family is for.
#[derive(Debug, Copy, Clone, Hash, PartialEq, Eq, Structural)]
pub enum Algorithm {
    Ecdsa,
}

impl DeepView for Algorithm {
    type V = Algorithm;

    open spec fn deep_view(&self) -> Algorithm {
        *self
    }
}

impl Named for Algorithm {
    open spec fn spec_vocabulary() -> Seq<char> {
        "Algorithm"@
    }

    fn vocabulary() -> (r: &'static str) {
        "Algorithm"
    }

    open spec fn spec_from_name(name: Seq<char>) -> Option<Algorithm> {
        if name == "ECDSA"@ { Some(Algorithm::Ecdsa) }
        else { None }
    }

    fn from_name(name: &str) -> (r: Option<Algorithm>) {
        if str_eq(name, "ECDSA") { Some(Algorithm::Ecdsa) }
        else { None }
    }

    fn same(&self, other: &Algorithm) -> (r: bool) {
        *self == *other
    }
}

/// The edge case or bug class that a test probes.
#[derive(Debug, Copy, Clone, Hash, PartialEq, Eq, Structural)]
pub enum TestFlag {
    ArithmeticError,
    BerEncodedSignature,
    EdgeCasePublicKey,
    EdgeCaseShamirMultiplication,
    GroupIsomorphism,
    IntegerOverflow,
    InvalidEncoding,
    InvalidSignature,
    InvalidTypesInSignature,
    MissingZero,
    ModifiedInteger,
    ModifiedSignature,
    ModularInverse,
    PointDuplication,
    RangeCheck,
    SignatureSize,
    SignatureMalleabilityBitcoin,
    SmallRandS,
    SpecialCaseHash,
    Untruncatedhash,
    ValidSignature,
}

impl DeepView for TestFlag {
    type V = TestFlag;

    open spec fn deep_view(&self) -> TestFlag {
        *self
    }
}

impl Named for TestFlag {
    open spec fn spec_vocabulary() -> Seq<char> {
        "TestFlag"@
    }

    fn vocabulary() -> (r: &'static str) {
        "TestFlag"
    }

    open spec fn spec_from_name(name: Seq<char>) -> Option<TestFlag> {
        if name == "ArithmeticError"@ { Some(TestFlag::ArithmeticError) }
        else if name == "BerEncodedSignature"@ { Some(TestFlag::BerEncodedSignature) }
        else if name == "EdgeCasePublicKey"@ { Some(TestFlag::EdgeCasePublicKey) }
        else if name == "EdgeCaseShamirMultiplication"@ { Some(TestFlag::EdgeCaseShamirMultiplication) }
        else if name == "GroupIsomorphism"@ { Some(TestFlag::GroupIsomorphism) }
        else if name == "IntegerOverflow"@ { Some(TestFlag::IntegerOverflow) }
        else if name == "InvalidEncoding"@ { Some(TestFlag::InvalidEncoding) }
        else if name == "InvalidSignature"@ { Some(TestFlag::InvalidSignature) }
        else if name == "InvalidTypesInSignature"@ { Some(TestFlag::InvalidTypesInSignature) }
        else if name == "MissingZero"@ { Some(TestFlag::MissingZero) }
        else if name == "ModifiedInteger"@ { Some(TestFlag::ModifiedInteger) }
        else if name == "ModifiedSignature"@ { Some(TestFlag::ModifiedSignature) }
        else if name == "ModularInverse"@ { Some(TestFlag::ModularInverse) }
        else if name == "PointDuplication"@ { Some(TestFlag::PointDuplication) }
        else if name == "RangeCheck"@ { Some(TestFlag::RangeCheck) }
        else if name == "SignatureSize"@ { Some(TestFlag::SignatureSize) }
        else if name == "SignatureMalleabilityBitcoin"@ { Some(TestFlag::SignatureMalleabilityBitcoin) }
        else if name == "SmallRandS"@ { Some(TestFlag::SmallRandS) }
        else if name == "SpecialCaseHash"@ { Some(TestFlag::SpecialCaseHash) }
        else if name == "Untruncatedhash"@ { Some(TestFlag::Untruncatedhash) }
        else if name == "ValidSignature"@ { Some(TestFlag::ValidSignature) }
        else { None }
    }

    fn from_name(name: &str) -> (r: Option<TestFlag>) {
        if str_eq(name, "ArithmeticError") { Some(TestFlag::ArithmeticError) }
        else if str_eq(name, "BerEncodedSignature") { Some(TestFlag::BerEncodedSignature) }
        else if str_eq(name, "EdgeCasePublicKey") { Some(TestFlag::EdgeCasePublicKey) }
        else if str_eq(name, "EdgeCaseShamirMultiplication") { Some(TestFlag::EdgeCaseShamirMultiplication) }
        else if str_eq(name, "GroupIsomorphism") { Some(TestFlag::GroupIsomorphism) }
        else if str_eq(name, "IntegerOverflow") { Some(TestFlag::IntegerOverflow) }
        else if str_eq(name, "InvalidEncoding") { Some(TestFlag::InvalidEncoding) }
        else if str_eq(name, "InvalidSignature") { Some(TestFlag::InvalidSignature) }
        else if str_eq(name, "InvalidTypesInSignature") { Some(TestFlag::InvalidTypesInSignature) }
        else if str_eq(name, "MissingZero") { Some(TestFlag::MissingZero) }
        else if str_eq(name, "ModifiedInteger") { Some(TestFlag::ModifiedInteger) }
        else if str_eq(name, "ModifiedSignature") { Some(TestFlag::ModifiedSignature) }
        else if str_eq(name, "ModularInverse") { Some(TestFlag::ModularInverse) }
        else if str_eq(name, "PointDuplication") { Some(TestFlag::PointDuplication) }
        else if str_eq(name, "RangeCheck") { Some(TestFlag::RangeCheck) }
        else if str_eq(name, "SignatureSize") { Some(TestFlag::SignatureSize) }
        else if str_eq(name, "SignatureMalleabilityBitcoin") { Some(TestFlag::SignatureMalleabilityBitcoin) }
        else if str_eq(name, "SmallRandS") { Some(TestFlag::SmallRandS) }
        else if str_eq(name, "SpecialCaseHash") { Some(TestFlag::SpecialCaseHash) }
        else if str_eq(name, "Untruncatedhash") { Some(TestFlag::Untruncatedhash) }
        else if str_eq(name, "ValidSignature") { Some(TestFlag::ValidSignature) }
        else { None }
    }

    fn same(&self, other: &TestFlag) -> (r: bool) {
        *self == *other
    }
}

/// The tag of a key; it holds no data.
#[derive(Debug, Copy, Clone, Hash, PartialEq, Eq, Structural)]
pub struct TestKeyTypeId {}

impl DeepView for TestKeyTypeId {
    type V = TestKeyTypeId;

    open spec fn deep_view(&self) -> TestKeyTypeId {
        *self
    }
}

impl Named for TestKeyTypeId {
    open spec fn spec_vocabulary() -> Seq<char> {
        "TestKeyTypeId"@
    }

    fn vocabulary() -> (r: &'static str) {
        "TestKeyTypeId"
    }

    open spec fn spec_from_name(name: Seq<char>) -> Option<TestKeyTypeId> {
        if name == "EcPublicKey"@ {
            Some(TestKeyTypeId {})
        } else {
            None
        }
    }

    fn from_name(name: &str) -> (r: Option<TestKeyTypeId>) {
        if str_eq(name, "EcPublicKey") {
            Some(TestKeyTypeId {})
        } else {
            None
        }
    }

    fn same(&self, other: &TestKeyTypeId) -> (r: bool) {
        true
    }
}

/// The tag of a test group: which shape the group follows.
#[derive(Debug, Copy, Clone, Hash, PartialEq, Eq, Structural)]
pub enum TestGroupTypeId {
    Ecdsa,
    EcdsaP1363,
    EcdsaBitcoin,
}

impl DeepView for TestGroupTypeId {
    type V = TestGroupTypeId;

    open spec fn deep_view(&self) -> TestGroupTypeId {
        *self
    }
}

impl Named for TestGroupTypeId {
    open spec fn spec_vocabulary() -> Seq<char> {
        "TestGroupTypeId"@
    }

    fn vocabulary() -> (r: &'static str) {
        "TestGroupTypeId"
    }

    open spec fn spec_from_name(name: Seq<char>) -> Option<TestGroupTypeId> {
        if name == "EcdsaVerify"@ { Some(TestGroupTypeId::Ecdsa) }
        else if name == "EcdsaP1363Verify"@ { Some(TestGroupTypeId::EcdsaP1363) }
        else if name == "EcdsaBitcoinVerify"@ { Some(TestGroupTypeId::EcdsaBitcoin) }
        else { None }
    }

    fn from_name(name: &str) -> (r: Option<TestGroupTypeId>) {
        if str_eq(name, "EcdsaVerify") { Some(TestGroupTypeId::Ecdsa) }
        else if str_eq(name, "EcdsaP1363Verify") { Some(TestGroupTypeId::EcdsaP1363) }
        else if str_eq(name, "EcdsaBitcoinVerify") { Some(TestGroupTypeId::EcdsaBitcoin) }
        else { None }
    }

    fn same(&self, other: &TestGroupTypeId) -> (r: bool) {
        *self == *other
    }
}

/// The key of a test group.
#[derive(Debug, Clone, Hash, PartialEq, Eq)]
pub struct TestKey {
    pub curve: EllipticCurve,
    pub key_size: usize,
    pub typ: TestKeyTypeId,
    pub key: ByteString,
    pub affine_x: LargeInteger,
    pub affine_y: LargeInteger,
}

/// The mathematical value of a [`TestKey`].
pub struct TestKeyView {
    pub curve: EllipticCurve,
    pub key_size: usize,
    pub typ: TestKeyTypeId,
    pub key: Seq<u8>,
    pub affine_x: Seq<u8>,
    pub affine_y: Seq<u8>,
}

impl DeepView for TestKey {
    type V = TestKeyView;

    open spec fn deep_view(&self) -> TestKeyView {
        TestKeyView {
            curve: self.curve.deep_view(),
            key_size: self.key_size.deep_view(),
            typ: self.typ.deep_view(),
            key: self.key.deep_view(),
            affine_x: self.affine_x.deep_view(),
            affine_y: self.affine_y.deep_view(),
        }
    }
}

impl Record for TestKey {
    open spec fn spec_known_field(name: Seq<char>) -> bool {
        name == "curve"@
            || name == "keySize"@
            || name == "type"@
            || name == "uncompressed"@
            || name == "wx"@
            || name == "wy"@
    }

    fn known_field(name: &str) -> (r: bool) {
        str_eq(name, "curve")
            || str_eq(name, "keySize")
            || str_eq(name, "type")
            || str_eq(name, "uncompressed")
            || str_eq(name, "wx")
            || str_eq(name, "wy")
    }

    open spec fn spec_decode_fields(fields: Seq<(String, Json)>) -> Result<TestKeyView, ParseFailure> {
        let curve = spec_named_field::<EllipticCurve>(fields, "curve"@);
        let key_size = spec_field::<usize>(fields, "keySize"@);
        let typ = spec_named_field::<TestKeyTypeId>(fields, "type"@);
        let key = spec_field::<ByteString>(fields, "uncompressed"@);
        let affine_x = spec_field::<LargeInteger>(fields, "wx"@);
        let affine_y = spec_field::<LargeInteger>(fields, "wy"@);
        if curve is Err { Err(curve->Err_0) }
        else if key_size is Err { Err(key_size->Err_0) }
        else if typ is Err { Err(typ->Err_0) }
        else if key is Err { Err(key->Err_0) }
        else if affine_x is Err { Err(affine_x->Err_0) }
        else if affine_y is Err { Err(affine_y->Err_0) }
        else {
            Ok(TestKeyView {
                curve: curve->Ok_0,
                key_size: key_size->Ok_0,
                typ: typ->Ok_0,
                key: key->Ok_0,
                affine_x: affine_x->Ok_0,
                affine_y: affine_y->Ok_0,
            })
        }
    }

    fn decode_fields(fields: &Vec<(String, Json)>) -> (r: Result<TestKey, ParseError>) {
        let curve = named_field::<EllipticCurve>(fields, "curve")?;
        let key_size = field::<usize>(fields, "keySize")?;
        let typ = named_field::<TestKeyTypeId>(fields, "type")?;
        let key = field::<ByteString>(fields, "uncompressed")?;
        let affine_x = field::<LargeInteger>(fields, "wx")?;
        let affine_y = field::<LargeInteger>(fields, "wy")?;
        Ok(TestKey { curve, key_size, typ, key, affine_x, affine_y })
    }
}

/// One test case.
#[derive(Debug, Clone, Hash, PartialEq, Eq)]
pub struct Test {
    pub tc_id: usize,
    pub comment: String,
    pub msg: ByteString,
    pub sig: ByteString,
    pub result: TestResult,
    pub flags: Vec<TestFlag>,
}

/// The mathematical value of a [`Test`].
pub struct TestView {
    pub tc_id: usize,
    pub comment: Seq<char>,
    pub msg: Seq<u8>,
    pub sig: Seq<u8>,
    pub result: TestResult,
    pub flags: Seq<TestFlag>,
}

impl DeepView for Test {
    type V = TestView;

    open spec fn deep_view(&self) -> TestView {
        TestView {
            tc_id: self.tc_id.deep_view(),
            comment: self.comment.deep_view(),
            msg: self.msg.deep_view(),
            sig: self.sig.deep_view(),
            result: self.result.deep_view(),
            flags: self.flags.deep_view(),
        }
    }
}

impl Record for Test {
    open spec fn spec_known_field(name: Seq<char>) -> bool {
        name == "tcId"@
            || name == "comment"@
            || name == "msg"@
            || name == "sig"@
            || name == "result"@
            || name == "flags"@
    }

    fn known_field(name: &str) -> (r: bool) {
        str_eq(name, "tcId")
            || str_eq(name, "comment")
            || str_eq(name, "msg")
            || str_eq(name, "sig")
            || str_eq(name, "result")
            || str_eq(name, "flags")
    }

    open spec fn spec_decode_fields(fields: Seq<(String, Json)>) -> Result<TestView, ParseFailure> {
        let tc_id = spec_field::<usize>(fields, "tcId"@);
        let comment = spec_field::<String>(fields, "comment"@);
        let msg = spec_field::<ByteString>(fields, "msg"@);
        let sig = spec_field::<ByteString>(fields, "sig"@);
        let result = spec_named_field::<TestResult>(fields, "result"@);
        let flags = spec_named_list_field::<TestFlag>(fields, "flags"@);
        if tc_id is Err { Err(tc_id->Err_0) }
        else if comment is Err { Err(comment->Err_0) }
        else if msg is Err { Err(msg->Err_0) }
        else if sig is Err { Err(sig->Err_0) }
        else if result is Err { Err(result->Err_0) }
        else if flags is Err { Err(flags->Err_0) }
        else {
            Ok(TestView {
                tc_id: tc_id->Ok_0,
                comment: comment->Ok_0,
                msg: msg->Ok_0,
                sig: sig->Ok_0,
                result: result->Ok_0,
                flags: flags->Ok_0,
            })
        }
    }

    fn decode_fields(fields: &Vec<(String, Json)>) -> (r: Result<Test, ParseError>) {
        let tc_id = field::<usize>(fields, "tcId")?;
        let comment = field::<String>(fields, "comment")?;
        let msg = field::<ByteString>(fields, "msg")?;
        let sig = field::<ByteString>(fields, "sig")?;
        let result = named_field::<TestResult>(fields, "result")?;
        let flags = named_list_field::<TestFlag>(fields, "flags")?;
        Ok(Test { tc_id, comment, msg, sig, result, flags })
    }
}

/// Tests that share the configuration of their group.
#[derive(Debug, Clone, Hash, PartialEq, Eq)]
pub struct TestGroup {
    pub jwk: Option<EcdsaPublicJwk>,
    pub key: TestKey,
    pub der: ByteString,
    pub pem: String,
    pub hash: HashFunction,
    pub test_type: TestGroupTypeId,
    pub tests: Vec<Test>,
}

/// The mathematical value of a [`TestGroup`].
pub struct TestGroupView {
    pub jwk: Option<EcdsaPublicJwkView>,
    pub key: TestKeyView,
    pub der: Seq<u8>,
    pub pem: Seq<char>,
    pub hash: HashFunction,
    pub test_type: TestGroupTypeId,
    pub tests: Seq<TestView>,
}

impl DeepView for TestGroup {
    type V = TestGroupView;

    open spec fn deep_view(&self) -> TestGroupView {
        TestGroupView {
            jwk: self.jwk.deep_view(),
            key: self.key.deep_view(),
            der: self.der.deep_view(),
            pem: self.pem.deep_view(),
            hash: self.hash.deep_view(),
            test_type: self.test_type.deep_view(),
            tests: self.tests.deep_view(),
        }
    }
}

impl Record for TestGroup {
    open spec fn spec_known_field(name: Seq<char>) -> bool {
        name == "publicKeyJwk"@
            || name == "publicKey"@
            || name == "publicKeyDer"@
            || name == "publicKeyPem"@
            || name == "sha"@
            || name == "type"@
            || name == "tests"@
    }

    fn known_field(name: &str) -> (r: bool) {
        str_eq(name, "publicKeyJwk")
            || str_eq(name, "publicKey")
            || str_eq(name, "publicKeyDer")
            || str_eq(name, "publicKeyPem")
            || str_eq(name, "sha")
            || str_eq(name, "type")
            || str_eq(name, "tests")
    }

    open spec fn spec_decode_fields(fields: Seq<(String, Json)>) -> Result<TestGroupView, ParseFailure> {
        let jwk = spec_optional_field::<EcdsaPublicJwk>(fields, "publicKeyJwk"@);
        let key = spec_field::<TestKey>(fields, "publicKey"@);
        let der = spec_field::<ByteString>(fields, "publicKeyDer"@);
        let pem = spec_field::<String>(fields, "publicKeyPem"@);
        let hash = spec_named_field::<HashFunction>(fields, "sha"@);
        let test_type = spec_named_field::<TestGroupTypeId>(fields, "type"@);
        let tests = spec_field::<Vec<Test>>(fields, "tests"@);
        if jwk is Err { Err(jwk->Err_0) }
        else if key is Err { Err(key->Err_0) }
        else if der is Err { Err(der->Err_0) }
        else if pem is Err { Err(pem->Err_0) }
        else if hash is Err { Err(hash->Err_0) }
        else if test_type is Err { Err(test_type->Err_0) }
        else if tests is Err { Err(tests->Err_0) }
        else {
            Ok(TestGroupView {
                jwk: jwk->Ok_0,
                key: key->Ok_0,
                der: der->Ok_0,
                pem: pem->Ok_0,
                hash: hash->Ok_0,
                test_type: test_type->Ok_0,
                tests: tests->Ok_0,
            })
        }
    }

    fn decode_fields(fields: &Vec<(String, Json)>) -> (r: Result<TestGroup, ParseError>) {
        let jwk = optional_field::<EcdsaPublicJwk>(fields, "publicKeyJwk")?;
        let key = field::<TestKey>(fields, "publicKey")?;
        let der = field::<ByteString>(fields, "publicKeyDer")?;
        let pem = field::<String>(fields, "publicKeyPem")?;
        let hash = named_field::<HashFunction>(fields, "sha")?;
        let test_type = named_field::<TestGroupTypeId>(fields, "type")?;
        let tests = field::<Vec<Test>>(fields, "tests")?;
        Ok(TestGroup { jwk, key, der, pem, hash, test_type, tests })
    }
}

/// A set of ECDSA verify tests.
#[derive(Debug, Clone, Hash, PartialEq, Eq)]
pub struct TestSet {
    pub algorithm: Algorithm,
    pub generator_version: String,
    pub number_of_tests: usize,
    pub header: String,
    pub notes: Vec<(TestFlag, TestFlagInfo)>,
    pub schema: TestSchema,
    pub test_groups: Vec<TestGroup>,
}

/// The mathematical value of a [`TestSet`].
pub struct TestSetView {
    pub algorithm: Algorithm,
    pub generator_version: Seq<char>,
    pub number_of_tests: usize,
    pub header: Seq<char>,
    pub notes: Seq<(TestFlag, TestFlagInfoView)>,
    pub schema: Seq<char>,
    pub test_groups: Seq<TestGroupView>,
}

impl DeepView for TestSet {
    type V = TestSetView;

    open spec fn deep_view(&self) -> TestSetView {
        TestSetView {
            algorithm: self.algorithm.deep_view(),
            generator_version: self.generator_version.deep_view(),
            number_of_tests: self.number_of_tests.deep_view(),
            header: self.header.deep_view(),
            notes: self.notes.deep_view(),
            schema: self.schema.deep_view(),
            test_groups: self.test_groups.deep_view(),
        }
    }
}

impl Record for TestSet {
    open spec fn spec_known_field(name: Seq<char>) -> bool {
        name == "algorithm"@
            || name == "generatorVersion"@
            || name == "numberOfTests"@
            || name == "header"@
            || name == "notes"@
            || name == "schema"@
            || name == "testGroups"@
    }

    fn known_field(name: &str) -> (r: bool) {
        str_eq(name, "algorithm")
            || str_eq(name, "generatorVersion")
            || str_eq(name, "numberOfTests")
            || str_eq(name, "header")
            || str_eq(name, "notes")
            || str_eq(name, "schema")
            || str_eq(name, "testGroups")
    }

    open spec fn spec_decode_fields(fields: Seq<(String, Json)>) -> Result<TestSetView, ParseFailure> {
        let algorithm = spec_named_field::<Algorithm>(fields, "algorithm"@);
        let generator_version = spec_field::<String>(fields, "generatorVersion"@);
        let number_of_tests = spec_field::<usize>(fields, "numberOfTests"@);
        let header = spec_header_field(fields, "header"@);
        let notes = spec_map_field::<TestFlag, TestFlagInfo>(fields, "notes"@);
        let schema = spec_named_field::<TestSchema>(fields, "schema"@);
        let test_groups = spec_field::<Vec<TestGroup>>(fields, "testGroups"@);
        if algorithm is Err { Err(algorithm->Err_0) }
        else if generator_version is Err { Err(generator_version->Err_0) }
        else if number_of_tests is Err { Err(number_of_tests->Err_0) }
        else if header is Err { Err(header->Err_0) }
        else if notes is Err { Err(notes->Err_0) }
        else if schema is Err { Err(schema->Err_0) }
        else if test_groups is Err { Err(test_groups->Err_0) }
        else {
            Ok(TestSetView {
                algorithm: algorithm->Ok_0,
                generator_version: generator_version->Ok_0,
                number_of_tests: number_of_tests->Ok_0,
                header: header->Ok_0,
                notes: notes->Ok_0,
                schema: schema->Ok_0,
                test_groups: test_groups->Ok_0,
            })
        }
    }

    fn decode_fields(fields: &Vec<(String, Json)>) -> (r: Result<TestSet, ParseError>) {
        let algorithm = named_field::<Algorithm>(fields, "algorithm")?;
        let generator_version = field::<String>(fields, "generatorVersion")?;
        let number_of_tests = field::<usize>(fields, "numberOfTests")?;
        let header = header_field(fields, "header")?;
        let notes = map_field::<TestFlag, TestFlagInfo>(fields, "notes")?;
        let schema = named_field::<TestSchema>(fields, "schema")?;
        let test_groups = field::<Vec<TestGroup>>(fields, "testGroups")?;
        Ok(TestSet { algorithm, generator_version, number_of_tests, header, notes, schema, test_groups })
    }
}

impl Case for Test {
    type Flag = TestFlag;

    proof fn lemma_flags_decoded(fields: Seq<(String, Json)>) {
    }
}

impl Grouped for TestGroup {
    type Test = Test;

    type Tag = TestGroupTypeId;

    open spec fn spec_test_count(&self) -> nat {
        self.tests@.len()
    }

    fn test_count(&self) -> (n: usize) {
        self.tests.len()
    }

    proof fn lemma_members_decoded(fields: Seq<(String, Json)>) {
    }
}

impl Suite for TestSet {
    type Group = TestGroup;

    type Schema = TestSchema;

    open spec fn spec_declared_tests(&self) -> nat {
        self.number_of_tests as nat
    }

    open spec fn spec_actual_tests(&self) -> nat {
        spec_total_tests(self.test_groups@)
    }

    fn counts_match(&self) -> (ok: bool) {
        count_matches(self.number_of_tests, &self.test_groups)
    }

    open spec fn spec_consistent(v: TestSetView) -> bool {
        v.number_of_tests == sum(Seq::new(v.test_groups.len(), |i: int| v.test_groups[i].tests.len()))
    }

    proof fn lemma_consistent(&self) {
        assert(test_counts(self.test_groups@) =~= Seq::new(
            self.deep_view().test_groups.len(),
            |i: int| self.deep_view().test_groups[i].tests.len(),
        ));
    }

    open spec fn spec_notes_distinct(v: TestSetView) -> bool {
        distinct_keys(v.notes)
    }

    proof fn lemma_members_decoded(fields: Seq<(String, Json)>) {
        lemma_decoded_map_distinct::<TestFlag, TestFlagInfo>(spec_find(fields, "notes"@)->Some_0);
    }
}

impl TestSet {
    /// Accepts a test set whose declared count is the number of its tests.
    pub fn check(obj: TestSet) -> (r: Result<TestSet, WycheproofError>)
        ensures
            r is Ok <==> obj.number_of_tests == spec_total_tests(obj.test_groups@),
            r is Ok ==> r->Ok_0 == obj,
            r is Err ==> r->Err_0 is InvalidData,
    {
        check(obj)
    }

    /// Reads and checks a test set from a JSON value.
    pub fn from_json(j: &Json) -> (r: Result<TestSet, WycheproofError>)
        ensures
            load_outcome(r) == spec_from_json::<TestSet>(*j),
            r is Ok ==> r->Ok_0.number_of_tests == spec_total_tests(r->Ok_0.test_groups@),
    {
        from_json::<TestSet>(j)
    }

    /// Reads and checks a test set from the text of its document.
    pub fn load_from_text(text: &str) -> (r: Result<TestSet, WycheproofError>)
        ensures
            load_post::<TestSet>(text@, r),
            r is Ok ==> r->Ok_0.number_of_tests == spec_total_tests(r->Ok_0.test_groups@),
    {
        load_from_text::<TestSet>(text)
    }

    /// What the document says of a flag, if it says anything.
    pub fn note(&self, flag: TestFlag) -> (r: Option<&TestFlagInfo>)
        ensures
            r.deep_view() == spec_lookup(self.deep_view().notes, flag),
    {
        lookup(&self.notes, &flag)
    }
}

} // verus!
