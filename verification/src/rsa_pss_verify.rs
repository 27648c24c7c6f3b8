//! RSA PSS verification tests.

use vstd::prelude::*;
use crate::bytes::ByteString;
use crate::decode::{field, optional_field, outcome, spec_field, spec_optional_field};
use crate::error::{ParseError, ParseFailure, WycheproofError};
use crate::json::{find, spec_find, Json};
use crate::named::{Named, named_field, named_list_field, spec_named_field, spec_named_list_field};
use crate::notes::{TestFlagInfo, TestFlagInfoView};
use crate::record::Record;
use crate::suite::{
    Case, check, count_matches, distinct_keys, from_json, Grouped, header_field,
    lemma_decoded_map_distinct, load_from_text, load_outcome, load_post, lookup, map_field,
    spec_from_json, spec_header_field, spec_lookup, spec_map_field, spec_total_tests, Suite, sum,
    test_counts,
};
use crate::test_keys::{RsaPublic, RsaPublicJwk, RsaPublicJwkView, RsaPublicView};
use crate::text::str_eq;
use crate::vocab::{HashFunction, Mgf, TestResult};

verus! {

/// The schema that a document of RSA PKCS1 verify tests declares.
#[derive(Debug, Clone, Hash, PartialEq, Eq)]
pub struct TestSchema {
    pub schema: String,
}

impl DeepView for TestSchema {
    type V = Seq<char>;

    open spec fn deep_view(&self) -> Seq<char> {
        self.schema@
    }
}

impl Named for TestSchema {
    open spec fn spec_vocabulary() -> Seq<char> {
        "RSA PKCS1 verify schema"@
    }

    fn vocabulary() -> (r: &'static str) {
        "RSA PKCS1 verify schema"
    }

    open spec fn spec_from_name(name: Seq<char>) -> Option<Seq<char>> {
        if name == "rsassa_pss_verify_schema.json"@ || name == "rsassa_pss_with_parameters_verify_schema.json"@ {
            Some(name)
        } else {
            None
        }
    }

    fn from_name(name: &str) -> (r: Option<TestSchema>) {
        if str_eq(name, "rsassa_pss_verify_schema.json") || str_eq(name, "rsassa_pss_with_parameters_verify_schema.json") {
            Some(TestSchema { schema: name.to_owned() })
        } else {
            None
        }
    }

    fn same(&self, other: &TestSchema) -> (r: bool) {
        str_eq(self.schema.as_str(), other.schema.as_str())
    }
}

/// The test sets of this family.
#[allow(non_camel_case_types)]
#[derive(Debug, Copy, Clone, Hash, PartialEq, Eq, Structural)]
pub enum TestName {
    RsaPss2048Sha1Mgf1SaltLen20WithParams,
    RsaPss2048Sha1Mgf1SaltLen20,
    RsaPss2048Sha256Mgf1SaltLen0WithParams,
    RsaPss2048Sha256Mgf1SaltLen0,
    RsaPss2048Sha256Mgf1SaltLen32WithParams,
    RsaPss2048Sha256Mgf1SaltLen32,
    RsaPss2048Sha256Mgf1Sha1_20,
    RsaPss2048Sha384Mgf1SaltLen48,
    RsaPss2048Sha512_224Mgf1SaltLen28,
    RsaPss2048Sha512_256Mgf1SaltLen32,
    RsaPss2048Sha512Mgf1Sha256SaltLen32WithParams,
    RsaPss2048Shake128WithParams,
    RsaPss2048Shake128,
    RsaPss2048Shake256,
    RsaPss3072Sha256Mgf1SaltLen32WithParams,
    RsaPss3072Sha256Mgf1SaltLen32,
    RsaPss3072Shake128WithParams,
    RsaPss3072Shake128,
    RsaPss3072Shake256WithParams,
    RsaPss3072Shake256,
    RsaPss4096Sha256Mgf1SaltLen32,
    RsaPss4096Sha384Mgf1SaltLen48,
    RsaPss4096Sha512Mgf1SaltLen32WithParams,
    RsaPss4096Sha512Mgf1SaltLen32,
    RsaPss4096Sha512Mgf1SaltLen64WithParams,
    RsaPss4096Sha512Mgf1SaltLen64,
    RsaPss4096Shake256WithParams,
    RsaPss4096Shake256,
    RsaPssmiscWithParams,
    RsaPssmisc,
}

impl DeepView for TestName {
    type V = TestName;

    open spec fn deep_view(&self) -> TestName {
        *self
    }
}

impl Named for TestName {
    open spec fn spec_vocabulary() -> Seq<char> {
        "TestName"@
    }

    fn vocabulary() -> (r: &'static str) {
        "TestName"
    }

    open spec fn spec_from_name(name: Seq<char>) -> Option<TestName> {
        if name == "rsa_pss_2048_sha1_mgf1_20_params"@ { Some(TestName::RsaPss2048Sha1Mgf1SaltLen20WithParams) }
        else if name == "rsa_pss_2048_sha1_mgf1_20"@ { Some(TestName::RsaPss2048Sha1Mgf1SaltLen20) }
        else if name == "rsa_pss_2048_sha256_mgf1_0_params"@ { Some(TestName::RsaPss2048Sha256Mgf1SaltLen0WithParams) }
        else if name == "rsa_pss_2048_sha256_mgf1_0"@ { Some(TestName::RsaPss2048Sha256Mgf1SaltLen0) }
        else if name == "rsa_pss_2048_sha256_mgf1_32_params"@ { Some(TestName::RsaPss2048Sha256Mgf1SaltLen32WithParams) }
        else if name == "rsa_pss_2048_sha256_mgf1_32"@ { Some(TestName::RsaPss2048Sha256Mgf1SaltLen32) }
        else if name == "rsa_pss_2048_sha256_mgf1sha1_20"@ { Some(TestName::RsaPss2048Sha256Mgf1Sha1_20) }
        else if name == "rsa_pss_2048_sha384_mgf1_48"@ { Some(TestName::RsaPss2048Sha384Mgf1SaltLen48) }
        else if name == "rsa_pss_2048_sha512_224_mgf1_28"@ { Some(TestName::RsaPss2048Sha512_224Mgf1SaltLen28) }
        else if name == "rsa_pss_2048_sha512_256_mgf1_32"@ { Some(TestName::RsaPss2048Sha512_256Mgf1SaltLen32) }
        else if name == "rsa_pss_2048_sha512_mgf1sha256_32_params"@ { Some(TestName::RsaPss2048Sha512Mgf1Sha256SaltLen32WithParams) }
        else if name == "rsa_pss_2048_shake128_params"@ { Some(TestName::RsaPss2048Shake128WithParams) }
        else if name == "rsa_pss_2048_shake128"@ { Some(TestName::RsaPss2048Shake128) }
        else if name == "rsa_pss_2048_shake256"@ { Some(TestName::RsaPss2048Shake256) }
        else if name == "rsa_pss_3072_sha256_mgf1_32_params"@ { Some(TestName::RsaPss3072Sha256Mgf1SaltLen32WithParams) }
        else if name == "rsa_pss_3072_sha256_mgf1_32"@ { Some(TestName::RsaPss3072Sha256Mgf1SaltLen32) }
        else if name == "rsa_pss_3072_shake128_params"@ { Some(TestName::RsaPss3072Shake128WithParams) }
        else if name == "rsa_pss_3072_shake128"@ { Some(TestName::RsaPss3072Shake128) }
        else if name == "rsa_pss_3072_shake256_params"@ { Some(TestName::RsaPss3072Shake256WithParams) }
        else if name == "rsa_pss_3072_shake256"@ { Some(TestName::RsaPss3072Shake256) }
        else if name == "rsa_pss_4096_sha256_mgf1_32"@ { Some(TestName::RsaPss4096Sha256Mgf1SaltLen32) }
        else if name == "rsa_pss_4096_sha384_mgf1_48"@ { Some(TestName::RsaPss4096Sha384Mgf1SaltLen48) }
        else if name == "rsa_pss_4096_sha512_mgf1_32_params"@ { Some(TestName::RsaPss4096Sha512Mgf1SaltLen32WithParams) }
        else if name == "rsa_pss_4096_sha512_mgf1_32"@ { Some(TestName::RsaPss4096Sha512Mgf1SaltLen32) }
        else if name == "rsa_pss_4096_sha512_mgf1_64_params"@ { Some(TestName::RsaPss4096Sha512Mgf1SaltLen64WithParams) }
        else if name == "rsa_pss_4096_sha512_mgf1_64"@ { Some(TestName::RsaPss4096Sha512Mgf1SaltLen64) }
        else if name == "rsa_pss_4096_shake256_params"@ { Some(TestName::RsaPss4096Shake256WithParams) }
        else if name == "rsa_pss_4096_shake256"@ { Some(TestName::RsaPss4096Shake256) }
        else if name == "rsa_pss_misc_params"@ { Some(TestName::RsaPssmiscWithParams) }
        else if name == "rsa_pss_misc"@ { Some(TestName::RsaPssmisc) }
        else { None }
    }

    fn from_name(name: &str) -> (r: Option<TestName>) {
        if str_eq(name, "rsa_pss_2048_sha1_mgf1_20_params") { Some(TestName::RsaPss2048Sha1Mgf1SaltLen20WithParams) }
        else if str_eq(name, "rsa_pss_2048_sha1_mgf1_20") { Some(TestName::RsaPss2048Sha1Mgf1SaltLen20) }
        else if str_eq(name, "rsa_pss_2048_sha256_mgf1_0_params") { Some(TestName::RsaPss2048Sha256Mgf1SaltLen0WithParams) }
        else if str_eq(name, "rsa_pss_2048_sha256_mgf1_0") { Some(TestName::RsaPss2048Sha256Mgf1SaltLen0) }
        else if str_eq(name, "rsa_pss_2048_sha256_mgf1_32_params") { Some(TestName::RsaPss2048Sha256Mgf1SaltLen32WithParams) }
        else if str_eq(name, "rsa_pss_2048_sha256_mgf1_32") { Some(TestName::RsaPss2048Sha256Mgf1SaltLen32) }
        else if str_eq(name, "rsa_pss_2048_sha256_mgf1sha1_20") { Some(TestName::RsaPss2048Sha256Mgf1Sha1_20) }
        else if str_eq(name, "rsa_pss_2048_sha384_mgf1_48") { Some(TestName::RsaPss2048Sha384Mgf1SaltLen48) }
        else if str_eq(name, "rsa_pss_2048_sha512_224_mgf1_28") { Some(TestName::RsaPss2048Sha512_224Mgf1SaltLen28) }
        else if str_eq(name, "rsa_pss_2048_sha512_256_mgf1_32") { Some(TestName::RsaPss2048Sha512_256Mgf1SaltLen32) }
        else if str_eq(name, "rsa_pss_2048_sha512_mgf1sha256_32_params") { Some(TestName::RsaPss2048Sha512Mgf1Sha256SaltLen32WithParams) }
        else if str_eq(name, "rsa_pss_2048_shake128_params") { Some(TestName::RsaPss2048Shake128WithParams) }
        else if str_eq(name, "rsa_pss_2048_shake128") { Some(TestName::RsaPss2048Shake128) }
        else if str_eq(name, "rsa_pss_2048_shake256") { Some(TestName::RsaPss2048Shake256) }
        else if str_eq(name, "rsa_pss_3072_sha256_mgf1_32_params") { Some(TestName::RsaPss3072Sha256Mgf1SaltLen32WithParams) }
        else if str_eq(name, "rsa_pss_3072_sha256_mgf1_32") { Some(TestName::RsaPss3072Sha256Mgf1SaltLen32) }
        else if str_eq(name, "rsa_pss_3072_shake128_params") { Some(TestName::RsaPss3072Shake128WithParams) }
        else if str_eq(name, "rsa_pss_3072_shake128") { Some(TestName::RsaPss3072Shake128) }
        else if str_eq(name, "rsa_pss_3072_shake256_params") { Some(TestName::RsaPss3072Shake256WithParams) }
        else if str_eq(name, "rsa_pss_3072_shake256") { Some(TestName::RsaPss3072Shake256) }
        else if str_eq(name, "rsa_pss_4096_sha256_mgf1_32") { Some(TestName::RsaPss4096Sha256Mgf1SaltLen32) }
        else if str_eq(name, "rsa_pss_4096_sha384_mgf1_48") { Some(TestName::RsaPss4096Sha384Mgf1SaltLen48) }
        else if str_eq(name, "rsa_pss_4096_sha512_mgf1_32_params") { Some(TestName::RsaPss4096Sha512Mgf1SaltLen32WithParams) }
        else if str_eq(name, "rsa_pss_4096_sha512_mgf1_32") { Some(TestName::RsaPss4096Sha512Mgf1SaltLen32) }
        else if str_eq(name, "rsa_pss_4096_sha512_mgf1_64_params") { Some(TestName::RsaPss4096Sha512Mgf1SaltLen64WithParams) }
        else if str_eq(name, "rsa_pss_4096_sha512_mgf1_64") { Some(TestName::RsaPss4096Sha512Mgf1SaltLen64) }
        else if str_eq(name, "rsa_pss_4096_shake256_params") { Some(TestName::RsaPss4096Shake256WithParams) }
        else if str_eq(name, "rsa_pss_4096_shake256") { Some(TestName::RsaPss4096Shake256) }
        else if str_eq(name, "rsa_pss_misc_params") { Some(TestName::RsaPssmiscWithParams) }
        else if str_eq(name, "rsa_pss_misc") { Some(TestName::RsaPssmisc) }
        else { None }
    }

    fn same(&self, other: &TestName) -> (r: bool) {
        *self == *other
    }
}

impl TestName {
    /// The name under which the test set is kept.
    pub open spec fn spec_name(self) -> Seq<char> {
        match self {
            TestName::RsaPss2048Sha1Mgf1SaltLen20WithParams => "rsa_pss_2048_sha1_mgf1_20_params"@,
            TestName::RsaPss2048Sha1Mgf1SaltLen20 => "rsa_pss_2048_sha1_mgf1_20"@,
            TestName::RsaPss2048Sha256Mgf1SaltLen0WithParams => "rsa_pss_2048_sha256_mgf1_0_params"@,
            TestName::RsaPss2048Sha256Mgf1SaltLen0 => "rsa_pss_2048_sha256_mgf1_0"@,
            TestName::RsaPss2048Sha256Mgf1SaltLen32WithParams => "rsa_pss_2048_sha256_mgf1_32_params"@,
            TestName::RsaPss2048Sha256Mgf1SaltLen32 => "rsa_pss_2048_sha256_mgf1_32"@,
            TestName::RsaPss2048Sha256Mgf1Sha1_20 => "rsa_pss_2048_sha256_mgf1sha1_20"@,
            TestName::RsaPss2048Sha384Mgf1SaltLen48 => "rsa_pss_2048_sha384_mgf1_48"@,
            TestName::RsaPss2048Sha512_224Mgf1SaltLen28 => "rsa_pss_2048_sha512_224_mgf1_28"@,
            TestName::RsaPss2048Sha512_256Mgf1SaltLen32 => "rsa_pss_2048_sha512_256_mgf1_32"@,
            TestName::RsaPss2048Sha512Mgf1Sha256SaltLen32WithParams => "rsa_pss_2048_sha512_mgf1sha256_32_params"@,
            TestName::RsaPss2048Shake128WithParams => "rsa_pss_2048_shake128_params"@,
            TestName::RsaPss2048Shake128 => "rsa_pss_2048_shake128"@,
            TestName::RsaPss2048Shake256 => "rsa_pss_2048_shake256"@,
            TestName::RsaPss3072Sha256Mgf1SaltLen32WithParams => "rsa_pss_3072_sha256_mgf1_32_params"@,
            TestName::RsaPss3072Sha256Mgf1SaltLen32 => "rsa_pss_3072_sha256_mgf1_32"@,
            TestName::RsaPss3072Shake128WithParams => "rsa_pss_3072_shake128_params"@,
            TestName::RsaPss3072Shake128 => "rsa_pss_3072_shake128"@,
            TestName::RsaPss3072Shake256WithParams => "rsa_pss_3072_shake256_params"@,
            TestName::RsaPss3072Shake256 => "rsa_pss_3072_shake256"@,
            TestName::RsaPss4096Sha256Mgf1SaltLen32 => "rsa_pss_4096_sha256_mgf1_32"@,
            TestName::RsaPss4096Sha384Mgf1SaltLen48 => "rsa_pss_4096_sha384_mgf1_48"@,
            TestName::RsaPss4096Sha512Mgf1SaltLen32WithParams => "rsa_pss_4096_sha512_mgf1_32_params"@,
            TestName::RsaPss4096Sha512Mgf1SaltLen32 => "rsa_pss_4096_sha512_mgf1_32"@,
            TestName::RsaPss4096Sha512Mgf1SaltLen64WithParams => "rsa_pss_4096_sha512_mgf1_64_params"@,
            TestName::RsaPss4096Sha512Mgf1SaltLen64 => "rsa_pss_4096_sha512_mgf1_64"@,
            TestName::RsaPss4096Shake256WithParams => "rsa_pss_4096_shake256_params"@,
            TestName::RsaPss4096Shake256 => "rsa_pss_4096_shake256"@,
            TestName::RsaPssmiscWithParams => "rsa_pss_misc_params"@,
            TestName::RsaPssmisc => "rsa_pss_misc"@,
        }
    }

    pub fn name(&self) -> (r: &'static str)
        ensures
            r@ == self.spec_name(),
    {
        match self {
            TestName::RsaPss2048Sha1Mgf1SaltLen20WithParams => "rsa_pss_2048_sha1_mgf1_20_params",
            TestName::RsaPss2048Sha1Mgf1SaltLen20 => "rsa_pss_2048_sha1_mgf1_20",
            TestName::RsaPss2048Sha256Mgf1SaltLen0WithParams => "rsa_pss_2048_sha256_mgf1_0_params",
            TestName::RsaPss2048Sha256Mgf1SaltLen0 => "rsa_pss_2048_sha256_mgf1_0",
            TestName::RsaPss2048Sha256Mgf1SaltLen32WithParams => "rsa_pss_2048_sha256_mgf1_32_params",
            TestName::RsaPss2048Sha256Mgf1SaltLen32 => "rsa_pss_2048_sha256_mgf1_32",
            TestName::RsaPss2048Sha256Mgf1Sha1_20 => "rsa_pss_2048_sha256_mgf1sha1_20",
            TestName::RsaPss2048Sha384Mgf1SaltLen48 => "rsa_pss_2048_sha384_mgf1_48",
            TestName::RsaPss2048Sha512_224Mgf1SaltLen28 => "rsa_pss_2048_sha512_224_mgf1_28",
            TestName::RsaPss2048Sha512_256Mgf1SaltLen32 => "rsa_pss_2048_sha512_256_mgf1_32",
            TestName::RsaPss2048Sha512Mgf1Sha256SaltLen32WithParams => "rsa_pss_2048_sha512_mgf1sha256_32_params",
            TestName::RsaPss2048Shake128WithParams => "rsa_pss_2048_shake128_params",
            TestName::RsaPss2048Shake128 => "rsa_pss_2048_shake128",
            TestName::RsaPss2048Shake256 => "rsa_pss_2048_shake256",
            TestName::RsaPss3072Sha256Mgf1SaltLen32WithParams => "rsa_pss_3072_sha256_mgf1_32_params",
            TestName::RsaPss3072Sha256Mgf1SaltLen32 => "rsa_pss_3072_sha256_mgf1_32",
            TestName::RsaPss3072Shake128WithParams => "rsa_pss_3072_shake128_params",
            TestName::RsaPss3072Shake128 => "rsa_pss_3072_shake128",
            TestName::RsaPss3072Shake256WithParams => "rsa_pss_3072_shake256_params",
            TestName::RsaPss3072Shake256 => "rsa_pss_3072_shake256",
            TestName::RsaPss4096Sha256Mgf1SaltLen32 => "rsa_pss_4096_sha256_mgf1_32",
            TestName::RsaPss4096Sha384Mgf1SaltLen48 => "rsa_pss_4096_sha384_mgf1_48",
            TestName::RsaPss4096Sha512Mgf1SaltLen32WithParams => "rsa_pss_4096_sha512_mgf1_32_params",
            TestName::RsaPss4096Sha512Mgf1SaltLen32 => "rsa_pss_4096_sha512_mgf1_32",
            TestName::RsaPss4096Sha512Mgf1SaltLen64WithParams => "rsa_pss_4096_sha512_mgf1_64_params",
            TestName::RsaPss4096Sha512Mgf1SaltLen64 => "rsa_pss_4096_sha512_mgf1_64",
            TestName::RsaPss4096Shake256WithParams => "rsa_pss_4096_shake256_params",
            TestName::RsaPss4096Shake256 => "rsa_pss_4096_shake256",
            TestName::RsaPssmiscWithParams => "rsa_pss_misc_params",
            TestName::RsaPssmisc => "rsa_pss_misc",
        }
    }

    /// Every test set of the family, in a fixed order.
    pub open spec fn spec_all() -> Seq<TestName> {
        seq![
            TestName::RsaPss2048Sha1Mgf1SaltLen20WithParams,
            TestName::RsaPss2048Sha1Mgf1SaltLen20,
            TestName::RsaPss2048Sha256Mgf1SaltLen0WithParams,
            TestName::RsaPss2048Sha256Mgf1SaltLen0,
            TestName::RsaPss2048Sha256Mgf1SaltLen32WithParams,
            TestName::RsaPss2048Sha256Mgf1SaltLen32,
            TestName::RsaPss2048Sha256Mgf1Sha1_20,
            TestName::RsaPss2048Sha384Mgf1SaltLen48,
            TestName::RsaPss2048Sha512_224Mgf1SaltLen28,
            TestName::RsaPss2048Sha512_256Mgf1SaltLen32,
            TestName::RsaPss2048Sha512Mgf1Sha256SaltLen32WithParams,
            TestName::RsaPss2048Shake128WithParams,
            TestName::RsaPss2048Shake128,
            TestName::RsaPss2048Shake256,
            TestName::RsaPss3072Sha256Mgf1SaltLen32WithParams,
            TestName::RsaPss3072Sha256Mgf1SaltLen32,
            TestName::RsaPss3072Shake128WithParams,
            TestName::RsaPss3072Shake128,
            TestName::RsaPss3072Shake256WithParams,
            TestName::RsaPss3072Shake256,
            TestName::RsaPss4096Sha256Mgf1SaltLen32,
            TestName::RsaPss4096Sha384Mgf1SaltLen48,
            TestName::RsaPss4096Sha512Mgf1SaltLen32WithParams,
            TestName::RsaPss4096Sha512Mgf1SaltLen32,
            TestName::RsaPss4096Sha512Mgf1SaltLen64WithParams,
            TestName::RsaPss4096Sha512Mgf1SaltLen64,
            TestName::RsaPss4096Shake256WithParams,
            TestName::RsaPss4096Shake256,
            TestName::RsaPssmiscWithParams,
            TestName::RsaPssmisc,
        ]
    }

    pub fn all() -> (r: Vec<TestName>)
        ensures
            r@ == Self::spec_all(),
    {
        let r = vec![
            TestName::RsaPss2048Sha1Mgf1SaltLen20WithParams,
            TestName::RsaPss2048Sha1Mgf1SaltLen20,
            TestName::RsaPss2048Sha256Mgf1SaltLen0WithParams,
            TestName::RsaPss2048Sha256Mgf1SaltLen0,
            TestName::RsaPss2048Sha256Mgf1SaltLen32WithParams,
            TestName::RsaPss2048Sha256Mgf1SaltLen32,
            TestName::RsaPss2048Sha256Mgf1Sha1_20,
            TestName::RsaPss2048Sha384Mgf1SaltLen48,
            TestName::RsaPss2048Sha512_224Mgf1SaltLen28,
            TestName::RsaPss2048Sha512_256Mgf1SaltLen32,
            TestName::RsaPss2048Sha512Mgf1Sha256SaltLen32WithParams,
            TestName::RsaPss2048Shake128WithParams,
            TestName::RsaPss2048Shake128,
            TestName::RsaPss2048Shake256,
            TestName::RsaPss3072Sha256Mgf1SaltLen32WithParams,
            TestName::RsaPss3072Sha256Mgf1SaltLen32,
            TestName::RsaPss3072Shake128WithParams,
            TestName::RsaPss3072Shake128,
            TestName::RsaPss3072Shake256WithParams,
            TestName::RsaPss3072Shake256,
            TestName::RsaPss4096Sha256Mgf1SaltLen32,
            TestName::RsaPss4096Sha384Mgf1SaltLen48,
            TestName::RsaPss4096Sha512Mgf1SaltLen32WithParams,
            TestName::RsaPss4096Sha512Mgf1SaltLen32,
            TestName::RsaPss4096Sha512Mgf1SaltLen64WithParams,
            TestName::RsaPss4096Sha512Mgf1SaltLen64,
            TestName::RsaPss4096Shake256WithParams,
            TestName::RsaPss4096Shake256,
            TestName::RsaPssmiscWithParams,
            TestName::RsaPssmisc,
        ];
        assert(r@ =~= Self::spec_all());
        r
    }

    /// Finds a test set by its name.
    pub fn from_str(s: &str) -> (r: Result<TestName, WycheproofError>)
        ensures
            match r {
                Ok(t) => Self::spec_from_name(s@) == Some(t),
                Err(e) => Self::spec_from_name(s@) is None && e is NoDataSet,
            },
    {
        match Self::from_name(s) {
            Some(t) => Ok(t),
            None => Err(WycheproofError::NoDataSet),
        }
    }
}

impl std::str::FromStr for TestName {
    type Err = WycheproofError;

    fn from_str(s: &str) -> (r: Result<TestName, WycheproofError>)
        ensures
            match r {
                Ok(t) => TestName::spec_from_name(s@) == Some(t),
                Err(e) => TestName::spec_from_name(s@) is None && e is NoDataSet,
            },
    {
        TestName::from_str(s)
    }
}

/// Every test set is found again by its name.
pub proof fn lemma_name_round_trip(t: TestName)
    ensures
        TestName::spec_from_name(t.spec_name()) == Some(t),
{
    reveal_strlit("rsa_pss_2048_sha1_mgf1_20_params");
    assert("rsa_pss_2048_sha1_mgf1_20_params"@ =~= seq!['r', 's', 'a', '_', 'p', 's', 's', '_', '2', '0', '4', '8', '_', 's', 'h', 'a', '1', '_', 'm', 'g', 'f', '1', '_', '2', '0', '_', 'p', 'a', 'r', 'a', 'm', 's']);
    reveal_strlit("rsa_pss_2048_sha1_mgf1_20");
    assert("rsa_pss_2048_sha1_mgf1_20"@ =~= seq!['r', 's', 'a', '_', 'p', 's', 's', '_', '2', '0', '4', '8', '_', 's', 'h', 'a', '1', '_', 'm', 'g', 'f', '1', '_', '2', '0']);
    reveal_strlit("rsa_pss_2048_sha256_mgf1_0_params");
    assert("rsa_pss_2048_sha256_mgf1_0_params"@ =~= seq!['r', 's', 'a', '_', 'p', 's', 's', '_', '2', '0', '4', '8', '_', 's', 'h', 'a', '2', '5', '6', '_', 'm', 'g', 'f', '1', '_', '0', '_', 'p', 'a', 'r', 'a', 'm', 's']);
    reveal_strlit("rsa_pss_2048_sha256_mgf1_0");
    assert("rsa_pss_2048_sha256_mgf1_0"@ =~= seq!['r', 's', 'a', '_', 'p', 's', 's', '_', '2', '0', '4', '8', '_', 's', 'h', 'a', '2', '5', '6', '_', 'm', 'g', 'f', '1', '_', '0']);
    reveal_strlit("rsa_pss_2048_sha256_mgf1_32_params");
    assert("rsa_pss_2048_sha256_mgf1_32_params"@ =~= seq!['r', 's', 'a', '_', 'p', 's', 's', '_', '2', '0', '4', '8', '_', 's', 'h', 'a', '2', '5', '6', '_', 'm', 'g', 'f', '1', '_', '3', '2', '_', 'p', 'a', 'r', 'a', 'm', 's']);
    reveal_strlit("rsa_pss_2048_sha256_mgf1_32");
    assert("rsa_pss_2048_sha256_mgf1_32"@ =~= seq!['r', 's', 'a', '_', 'p', 's', 's', '_', '2', '0', '4', '8', '_', 's', 'h', 'a', '2', '5', '6', '_', 'm', 'g', 'f', '1', '_', '3', '2']);
    reveal_strlit("rsa_pss_2048_sha256_mgf1sha1_20");
    assert("rsa_pss_2048_sha256_mgf1sha1_20"@ =~= seq!['r', 's', 'a', '_', 'p', 's', 's', '_', '2', '0', '4', '8', '_', 's', 'h', 'a', '2', '5', '6', '_', 'm', 'g', 'f', '1', 's', 'h', 'a', '1', '_', '2', '0']);
    reveal_strlit("rsa_pss_2048_sha384_mgf1_48");
    assert("rsa_pss_2048_sha384_mgf1_48"@ =~= seq!['r', 's', 'a', '_', 'p', 's', 's', '_', '2', '0', '4', '8', '_', 's', 'h', 'a', '3', '8', '4', '_', 'm', 'g', 'f', '1', '_', '4', '8']);
    reveal_strlit("rsa_pss_2048_sha512_224_mgf1_28");
    assert("rsa_pss_2048_sha512_224_mgf1_28"@ =~= seq!['r', 's', 'a', '_', 'p', 's', 's', '_', '2', '0', '4', '8', '_', 's', 'h', 'a', '5', '1', '2', '_', '2', '2', '4', '_', 'm', 'g', 'f', '1', '_', '2', '8']);
    reveal_strlit("rsa_pss_2048_sha512_256_mgf1_32");
    assert("rsa_pss_2048_sha512_256_mgf1_32"@ =~= seq!['r', 's', 'a', '_', 'p', 's', 's', '_', '2', '0', '4', '8', '_', 's', 'h', 'a', '5', '1', '2', '_', '2', '5', '6', '_', 'm', 'g', 'f', '1', '_', '3', '2']);
    reveal_strlit("rsa_pss_2048_sha512_mgf1sha256_32_params");
    assert("rsa_pss_2048_sha512_mgf1sha256_32_params"@ =~= seq!['r', 's', 'a', '_', 'p', 's', 's', '_', '2', '0', '4', '8', '_', 's', 'h', 'a', '5', '1', '2', '_', 'm', 'g', 'f', '1', 's', 'h', 'a', '2', '5', '6', '_', '3', '2', '_', 'p', 'a', 'r', 'a', 'm', 's']);
    reveal_strlit("rsa_pss_2048_shake128_params");
    assert("rsa_pss_2048_shake128_params"@ =~= seq!['r', 's', 'a', '_', 'p', 's', 's', '_', '2', '0', '4', '8', '_', 's', 'h', 'a', 'k', 'e', '1', '2', '8', '_', 'p', 'a', 'r', 'a', 'm', 's']);
    reveal_strlit("rsa_pss_2048_shake128");
    assert("rsa_pss_2048_shake128"@ =~= seq!['r', 's', 'a', '_', 'p', 's', 's', '_', '2', '0', '4', '8', '_', 's', 'h', 'a', 'k', 'e', '1', '2', '8']);
    reveal_strlit("rsa_pss_2048_shake256");
    assert("rsa_pss_2048_shake256"@ =~= seq!['r', 's', 'a', '_', 'p', 's', 's', '_', '2', '0', '4', '8', '_', 's', 'h', 'a', 'k', 'e', '2', '5', '6']);
    reveal_strlit("rsa_pss_3072_sha256_mgf1_32_params");
    assert("rsa_pss_3072_sha256_mgf1_32_params"@ =~= seq!['r', 's', 'a', '_', 'p', 's', 's', '_', '3', '0', '7', '2', '_', 's', 'h', 'a', '2', '5', '6', '_', 'm', 'g', 'f', '1', '_', '3', '2', '_', 'p', 'a', 'r', 'a', 'm', 's']);
    reveal_strlit("rsa_pss_3072_sha256_mgf1_32");
    assert("rsa_pss_3072_sha256_mgf1_32"@ =~= seq!['r', 's', 'a', '_', 'p', 's', 's', '_', '3', '0', '7', '2', '_', 's', 'h', 'a', '2', '5', '6', '_', 'm', 'g', 'f', '1', '_', '3', '2']);
    reveal_strlit("rsa_pss_3072_shake128_params");
    assert("rsa_pss_3072_shake128_params"@ =~= seq!['r', 's', 'a', '_', 'p', 's', 's', '_', '3', '0', '7', '2', '_', 's', 'h', 'a', 'k', 'e', '1', '2', '8', '_', 'p', 'a', 'r', 'a', 'm', 's']);
    reveal_strlit("rsa_pss_3072_shake128");
    assert("rsa_pss_3072_shake128"@ =~= seq!['r', 's', 'a', '_', 'p', 's', 's', '_', '3', '0', '7', '2', '_', 's', 'h', 'a', 'k', 'e', '1', '2', '8']);
    reveal_strlit("rsa_pss_3072_shake256_params");
    assert("rsa_pss_3072_shake256_params"@ =~= seq!['r', 's', 'a', '_', 'p', 's', 's', '_', '3', '0', '7', '2', '_', 's', 'h', 'a', 'k', 'e', '2', '5', '6', '_', 'p', 'a', 'r', 'a', 'm', 's']);
    reveal_strlit("rsa_pss_3072_shake256");
    assert("rsa_pss_3072_shake256"@ =~= seq!['r', 's', 'a', '_', 'p', 's', 's', '_', '3', '0', '7', '2', '_', 's', 'h', 'a', 'k', 'e', '2', '5', '6']);
    reveal_strlit("rsa_pss_4096_sha256_mgf1_32");
    assert("rsa_pss_4096_sha256_mgf1_32"@ =~= seq!['r', 's', 'a', '_', 'p', 's', 's', '_', '4', '0', '9', '6', '_', 's', 'h', 'a', '2', '5', '6', '_', 'm', 'g', 'f', '1', '_', '3', '2']);
    reveal_strlit("rsa_pss_4096_sha384_mgf1_48");
    assert("rsa_pss_4096_sha384_mgf1_48"@ =~= seq!['r', 's', 'a', '_', 'p', 's', 's', '_', '4', '0', '9', '6', '_', 's', 'h', 'a', '3', '8', '4', '_', 'm', 'g', 'f', '1', '_', '4', '8']);
    reveal_strlit("rsa_pss_4096_sha512_mgf1_32_params");
    assert("rsa_pss_4096_sha512_mgf1_32_params"@ =~= seq!['r', 's', 'a', '_', 'p', 's', 's', '_', '4', '0', '9', '6', '_', 's', 'h', 'a', '5', '1', '2', '_', 'm', 'g', 'f', '1', '_', '3', '2', '_', 'p', 'a', 'r', 'a', 'm', 's']);
    reveal_strlit("rsa_pss_4096_sha512_mgf1_32");
    assert("rsa_pss_4096_sha512_mgf1_32"@ =~= seq!['r', 's', 'a', '_', 'p', 's', 's', '_', '4', '0', '9', '6', '_', 's', 'h', 'a', '5', '1', '2', '_', 'm', 'g', 'f', '1', '_', '3', '2']);
    reveal_strlit("rsa_pss_4096_sha512_mgf1_64_params");
    assert("rsa_pss_4096_sha512_mgf1_64_params"@ =~= seq!['r', 's', 'a', '_', 'p', 's', 's', '_', '4', '0', '9', '6', '_', 's', 'h', 'a', '5', '1', '2', '_', 'm', 'g', 'f', '1', '_', '6', '4', '_', 'p', 'a', 'r', 'a', 'm', 's']);
    reveal_strlit("rsa_pss_4096_sha512_mgf1_64");
    assert("rsa_pss_4096_sha512_mgf1_64"@ =~= seq!['r', 's', 'a', '_', 'p', 's', 's', '_', '4', '0', '9', '6', '_', 's', 'h', 'a', '5', '1', '2', '_', 'm', 'g', 'f', '1', '_', '6', '4']);
    reveal_strlit("rsa_pss_4096_shake256_params");
    assert("rsa_pss_4096_shake256_params"@ =~= seq!['r', 's', 'a', '_', 'p', 's', 's', '_', '4', '0', '9', '6', '_', 's', 'h', 'a', 'k', 'e', '2', '5', '6', '_', 'p', 'a', 'r', 'a', 'm', 's']);
    reveal_strlit("rsa_pss_4096_shake256");
    assert("rsa_pss_4096_shake256"@ =~= seq!['r', 's', 'a', '_', 'p', 's', 's', '_', '4', '0', '9', '6', '_', 's', 'h', 'a', 'k', 'e', '2', '5', '6']);
    reveal_strlit("rsa_pss_misc_params");
    assert("rsa_pss_misc_params"@ =~= seq!['r', 's', 'a', '_', 'p', 's', 's', '_', 'm', 'i', 's', 'c', '_', 'p', 'a', 'r', 'a', 'm', 's']);
    reveal_strlit("rsa_pss_misc");
    assert("rsa_pss_misc"@ =~= seq!['r', 's', 'a', '_', 'p', 's', 's', '_', 'm', 'i', 's', 'c']);
}

/// Every test set is listed.
pub proof fn lemma_all_complete(t: TestName)
    ensures
        TestName::spec_all().contains(t),
{
    match t {
        TestName::RsaPss2048Sha1Mgf1SaltLen20WithParams => assert(TestName::spec_all()[0] == t),
        TestName::RsaPss2048Sha1Mgf1SaltLen20 => assert(TestName::spec_all()[1] == t),
        TestName::RsaPss2048Sha256Mgf1SaltLen0WithParams => assert(TestName::spec_all()[2] == t),
        TestName::RsaPss2048Sha256Mgf1SaltLen0 => assert(TestName::spec_all()[3] == t),
        TestName::RsaPss2048Sha256Mgf1SaltLen32WithParams => assert(TestName::spec_all()[4] == t),
        TestName::RsaPss2048Sha256Mgf1SaltLen32 => assert(TestName::spec_all()[5] == t),
        TestName::RsaPss2048Sha256Mgf1Sha1_20 => assert(TestName::spec_all()[6] == t),
        TestName::RsaPss2048Sha384Mgf1SaltLen48 => assert(TestName::spec_all()[7] == t),
        TestName::RsaPss2048Sha512_224Mgf1SaltLen28 => assert(TestName::spec_all()[8] == t),
        TestName::RsaPss2048Sha512_256Mgf1SaltLen32 => assert(TestName::spec_all()[9] == t),
        TestName::RsaPss2048Sha512Mgf1Sha256SaltLen32WithParams => assert(TestName::spec_all()[10] == t),
        TestName::RsaPss2048Shake128WithParams => assert(TestName::spec_all()[11] == t),
        TestName::RsaPss2048Shake128 => assert(TestName::spec_all()[12] == t),
        TestName::RsaPss2048Shake256 => assert(TestName::spec_all()[13] == t),
        TestName::RsaPss3072Sha256Mgf1SaltLen32WithParams => assert(TestName::spec_all()[14] == t),
        TestName::RsaPss3072Sha256Mgf1SaltLen32 => assert(TestName::spec_all()[15] == t),
        TestName::RsaPss3072Shake128WithParams => assert(TestName::spec_all()[16] == t),
        TestName::RsaPss3072Shake128 => assert(TestName::spec_all()[17] == t),
        TestName::RsaPss3072Shake256WithParams => assert(TestName::spec_all()[18] == t),
        TestName::RsaPss3072Shake256 => assert(TestName::spec_all()[19] == t),
        TestName::RsaPss4096Sha256Mgf1SaltLen32 => assert(TestName::spec_all()[20] == t),
        TestName::RsaPss4096Sha384Mgf1SaltLen48 => assert(TestName::spec_all()[21] == t),
        TestName::RsaPss4096Sha512Mgf1SaltLen32WithParams => assert(TestName::spec_all()[22] == t),
        TestName::RsaPss4096Sha512Mgf1SaltLen32 => assert(TestName::spec_all()[23] == t),
        TestName::RsaPss4096Sha512Mgf1SaltLen64WithParams => assert(TestName::spec_all()[24] == t),
        TestName::RsaPss4096Sha512Mgf1SaltLen64 => assert(TestName::spec_all()[25] == t),
        TestName::RsaPss4096Shake256WithParams => assert(TestName::spec_all()[26] == t),
        TestName::RsaPss4096Shake256 => assert(TestName::spec_all()[27] == t),
        TestName::RsaPssmiscWithParams => assert(TestName::spec_all()[28] == t),
        TestName::RsaPssmisc => assert(TestName::spec_all()[29] == t),
    }
}

/// The algorithms that a test set of this family is for.
#[derive(Debug, Copy, Clone, Hash, PartialEq, Eq, Structural)]
pub enum Algorithm {
    RsaPss,
}

impl DeepView for Algorithm {
    type V = Algorithm;

    open spec fn deep_view(&self) -> Algorithm {
        *self
    }
}

impl Named for Algorithm {
    open spec fn spec_vocabulary() -> Seq<char> {
        "Algorithm"@
    }

    fn vocabulary() -> (r: &'static str) {
        "Algorithm"
    }

    open spec fn spec_from_name(name: Seq<char>) -> Option<Algorithm> {
        if name == "RSASSA-PSS"@ { Some(Algorithm::RsaPss) }
        else { None }
    }

    fn from_name(name: &str) -> (r: Option<Algorithm>) {
        if str_eq(name, "RSASSA-PSS") { Some(Algorithm::RsaPss) }
        else { None }
    }

    fn same(&self, other: &Algorithm) -> (r: bool) {
        *self == *other
    }
}

/// The edge case or bug class that a test probes.
#[derive(Debug, Copy, Clone, Hash, PartialEq, Eq, Structural)]
pub enum TestFlag {
    DistinctHash,
    ModifiedSignature,
    Mgf1Sha1,
    Normal,
    ParameterTest,
    SpecialCaseHash,
    SpecifyPkcs1Algorithm,
    WeakHash,
    WrongPrimitive,
}

impl DeepView for TestFlag {
    type V = TestFlag;

    open spec fn deep_view(&self) -> TestFlag {
        *self
    }
}

impl Named for TestFlag {
    open spec fn spec_vocabulary() -> Seq<char> {
        "TestFlag"@
    }

    fn vocabulary() -> (r: &'static str) {
        "TestFlag"
    }

    open spec fn spec_from_name(name: Seq<char>) -> Option<TestFlag> {
        if name == "DistinctHash"@ { Some(TestFlag::DistinctHash) }
        else if name == "ModifiedSignature"@ { Some(TestFlag::ModifiedSignature) }
        else if name == "Mgf1Sha1"@ { Some(TestFlag::Mgf1Sha1) }
        else if name == "Normal"@ { Some(TestFlag::Normal) }
        else if name == "ParameterTest"@ { Some(TestFlag::ParameterTest) }
        else if name == "SpecialCaseHash"@ { Some(TestFlag::SpecialCaseHash) }
        else if name == "SpecifyPkcs1Algorithm"@ { Some(TestFlag::SpecifyPkcs1Algorithm) }
        else if name == "WeakHash"@ { Some(TestFlag::WeakHash) }
        else if name == "WrongPrimitive"@ { Some(TestFlag::WrongPrimitive) }
        else { None }
    }

    fn from_name(name: &str) -> (r: Option<TestFlag>) {
        if str_eq(name, "DistinctHash") { Some(TestFlag::DistinctHash) }
        else if str_eq(name, "ModifiedSignature") { Some(TestFlag::ModifiedSignature) }
        else if str_eq(name, "Mgf1Sha1") { Some(TestFlag::Mgf1Sha1) }
        else if str_eq(name, "Normal") { Some(TestFlag::Normal) }
        else if str_eq(name, "ParameterTest") { Some(TestFlag::ParameterTest) }
        else if str_eq(name, "SpecialCaseHash") { Some(TestFlag::SpecialCaseHash) }
        else if str_eq(name, "SpecifyPkcs1Algorithm") { Some(TestFlag::SpecifyPkcs1Algorithm) }
        else if str_eq(name, "WeakHash") { Some(TestFlag::WeakHash) }
        else if str_eq(name, "WrongPrimitive") { Some(TestFlag::WrongPrimitive) }
        else { None }
    }

    fn same(&self, other: &TestFlag) -> (r: bool) {
        *self == *other
    }
}

/// The tag of a test group: which shape the group follows.
#[derive(Debug, Copy, Clone, Hash, PartialEq, Eq, Structural)]
pub enum TestGroupTypeId {
    RsaPssVerify,
    RsaPssVerifyWithParam,
}

impl DeepView for TestGroupTypeId {
    type V = TestGroupTypeId;

    open spec fn deep_view(&self) -> TestGroupTypeId {
        *self
    }
}

impl Named for TestGroupTypeId {
    open spec fn spec_vocabulary() -> Seq<char> {
        "TestGroupTypeId"@
    }

    fn vocabulary() -> (r: &'static str) {
        "TestGroupTypeId"
    }

    open spec fn spec_from_name(name: Seq<char>) -> Option<TestGroupTypeId> {
        if name == "RsassaPssVerify"@ { Some(TestGroupTypeId::RsaPssVerify) }
        else if name == "RsassaPssWithParametersVerify"@ { Some(TestGroupTypeId::RsaPssVerifyWithParam) }
        else { None }
    }

    fn from_name(name: &str) -> (r: Option<TestGroupTypeId>) {
        if str_eq(name, "RsassaPssVerify") { Some(TestGroupTypeId::RsaPssVerify) }
        else if str_eq(name, "RsassaPssWithParametersVerify") { Some(TestGroupTypeId::RsaPssVerifyWithParam) }
        else { None }
    }

    fn same(&self, other: &TestGroupTypeId) -> (r: bool) {
        *self == *other
    }
}

/// The hash function that a mask generation function is used with: the
/// empty name stands for none, and only the SHA-1 and SHA-2 names are taken.
pub open spec fn spec_deser_mgf_hash(s: Seq<char>) -> Result<Option<HashFunction>, ParseFailure> {
    if s == ""@ {
        Ok(None)
    } else if s == "SHA-1"@ {
        Ok(Some(HashFunction::Sha1))
    } else if s == "SHA-224"@ {
        Ok(Some(HashFunction::Sha2_224))
    } else if s == "SHA-256"@ {
        Ok(Some(HashFunction::Sha2_256))
    } else if s == "SHA-384"@ {
        Ok(Some(HashFunction::Sha2_384))
    } else if s == "SHA-512"@ {
        Ok(Some(HashFunction::Sha2_512))
    } else if s == "SHA-512/224"@ {
        Ok(Some(HashFunction::Sha2_512_224))
    } else if s == "SHA-512/256"@ {
        Ok(Some(HashFunction::Sha2_512_256))
    } else {
        Err(ParseFailure::UnknownValue { vocabulary: "HashFunction"@, value: s })
    }
}

/// Reads the hash function of a mask generation function from its name.
pub fn deser_mgf_hash(s: &str) -> (r: Result<Option<HashFunction>, ParseError>)
    ensures
        outcome(r) == spec_deser_mgf_hash(s@),
{
    if str_eq(s, "") {
        Ok(None)
    } else if str_eq(s, "SHA-1") {
        Ok(Some(HashFunction::Sha1))
    } else if str_eq(s, "SHA-224") {
        Ok(Some(HashFunction::Sha2_224))
    } else if str_eq(s, "SHA-256") {
        Ok(Some(HashFunction::Sha2_256))
    } else if str_eq(s, "SHA-384") {
        Ok(Some(HashFunction::Sha2_384))
    } else if str_eq(s, "SHA-512") {
        Ok(Some(HashFunction::Sha2_512))
    } else if str_eq(s, "SHA-512/224") {
        Ok(Some(HashFunction::Sha2_512_224))
    } else if str_eq(s, "SHA-512/256") {
        Ok(Some(HashFunction::Sha2_512_256))
    } else {
        Err(ParseError::UnknownValue { vocabulary: "HashFunction".to_owned(), value: s.to_owned() })
    }
}

/// The hash function of the member `name`, which must be there.
pub open spec fn spec_mgf_hash_field(fields: Seq<(String, Json)>, name: Seq<char>) -> Result<Option<HashFunction>, ParseFailure> {
    match spec_find(fields, name) {
        Some(Json::Str(s)) => spec_deser_mgf_hash(s@),
        Some(_) => Err(ParseFailure::Unexpected { expected: "a string"@ }),
        None => Err(ParseFailure::MissingField(name)),
    }
}

pub fn mgf_hash_field(fields: &Vec<(String, Json)>, name: &str) -> (r: Result<Option<HashFunction>, ParseError>)
    ensures
        outcome(r) == spec_mgf_hash_field(fields@, name@),
{
    match find(fields, name) {
        Some(j) => match j {
            Json::Str(s) => deser_mgf_hash(s.as_str()),
            _ => Err(ParseError::Unexpected { expected: "a string".to_owned() }),
        },
        None => Err(ParseError::MissingField(name.to_owned())),
    }
}

/// One test case.
#[derive(Debug, Clone, Hash, PartialEq, Eq)]
pub struct Test {
    pub tc_id: usize,
    pub comment: String,
    pub msg: ByteString,
    pub sig: ByteString,
    pub result: TestResult,
    pub flags: Vec<TestFlag>,
}

/// The mathematical value of a [`Test`].
pub struct TestView {
    pub tc_id: usize,
    pub comment: Seq<char>,
    pub msg: Seq<u8>,
    pub sig: Seq<u8>,
    pub result: TestResult,
    pub flags: Seq<TestFlag>,
}

impl DeepView for Test {
    type V = TestView;

    open spec fn deep_view(&self) -> TestView {
        TestView {
            tc_id: self.tc_id.deep_view(),
            comment: self.comment.deep_view(),
            msg: self.msg.deep_view(),
            sig: self.sig.deep_view(),
            result: self.result.deep_view(),
            flags: self.flags.deep_view(),
        }
    }
}

impl Record for Test {
    open spec fn spec_known_field(name: Seq<char>) -> bool {
        name == "tcId"@
            || name == "comment"@
            || name == "msg"@
            || name == "sig"@
            || name == "result"@
            || name == "flags"@
    }

    fn known_field(name: &str) -> (r: bool) {
        str_eq(name, "tcId")
            || str_eq(name, "comment")
            || str_eq(name, "msg")
            || str_eq(name, "sig")
            || str_eq(name, "result")
            || str_eq(name, "flags")
    }

    open spec fn spec_decode_fields(fields: Seq<(String, Json)>) -> Result<TestView, ParseFailure> {
        let tc_id = spec_field::<usize>(fields, "tcId"@);
        let comment = spec_field::<String>(fields, "comment"@);
        let msg = spec_field::<ByteString>(fields, "msg"@);
        let sig = spec_field::<ByteString>(fields, "sig"@);
        let result = spec_named_field::<TestResult>(fields, "result"@);
        let flags = spec_named_list_field::<TestFlag>(fields, "flags"@);
        if tc_id is Err { Err(tc_id->Err_0) }
        else if comment is Err { Err(comment->Err_0) }
        else if msg is Err { Err(msg->Err_0) }
        else if sig is Err { Err(sig->Err_0) }
        else if result is Err { Err(result->Err_0) }
        else if flags is Err { Err(flags->Err_0) }
        else {
            Ok(TestView {
                tc_id: tc_id->Ok_0,
                comment: comment->Ok_0,
                msg: msg->Ok_0,
                sig: sig->Ok_0,
                result: result->Ok_0,
                flags: flags->Ok_0,
            })
        }
    }

    fn decode_fields(fields: &Vec<(String, Json)>) -> (r: Result<Test, ParseError>) {
        let tc_id = field::<usize>(fields, "tcId")?;
        let comment = field::<String>(fields, "comment")?;
        let msg = field::<ByteString>(fields, "msg")?;
        let sig = field::<ByteString>(fields, "sig")?;
        let result = named_field::<TestResult>(fields, "result")?;
        let flags = named_list_field::<TestFlag>(fields, "flags")?;
        Ok(Test { tc_id, comment, msg, sig, result, flags })
    }
}

/// Tests that share the configuration of their group.
#[derive(Debug, Clone, Hash, PartialEq, Eq)]
pub struct TestGroup {
    pub key: RsaPublic,
    pub asn_key: ByteString,
    pub der: ByteString,
    pub pem: String,
    pub jwk: Option<RsaPublicJwk>,
    pub key_size: usize,
    pub mgf: Mgf,
    pub mgf_hash: Option<HashFunction>,
    pub salt_size: usize,
    pub hash: HashFunction,
    pub test_type: TestGroupTypeId,
    pub tests: Vec<Test>,
}

/// The mathematical value of a [`TestGroup`].
pub struct TestGroupView {
    pub key: RsaPublicView,
    pub asn_key: Seq<u8>,
    pub der: Seq<u8>,
    pub pem: Seq<char>,
    pub jwk: Option<RsaPublicJwkView>,
    pub key_size: usize,
    pub mgf: Mgf,
    pub mgf_hash: Option<HashFunction>,
    pub salt_size: usize,
    pub hash: HashFunction,
    pub test_type: TestGroupTypeId,
    pub tests: Seq<TestView>,
}

impl DeepView for TestGroup {
    type V = TestGroupView;

    open spec fn deep_view(&self) -> TestGroupView {
        TestGroupView {
            key: self.key.deep_view(),
            asn_key: self.asn_key.deep_view(),
            der: self.der.deep_view(),
            pem: self.pem.deep_view(),
            jwk: self.jwk.deep_view(),
            key_size: self.key_size.deep_view(),
            mgf: self.mgf.deep_view(),
            mgf_hash: self.mgf_hash.deep_view(),
            salt_size: self.salt_size.deep_view(),
            hash: self.hash.deep_view(),
            test_type: self.test_type.deep_view(),
            tests: self.tests.deep_view(),
        }
    }
}

impl Record for TestGroup {
    open spec fn spec_known_field(name: Seq<char>) -> bool {
        name == "publicKey"@
            || name == "publicKeyAsn"@
            || name == "publicKeyDer"@
            || name == "publicKeyPem"@
            || name == "publicKeyJwk"@
            || name == "keySize"@
            || name == "mgf"@
            || name == "mgfSha"@
            || name == "sLen"@
            || name == "sha"@
            || name == "type"@
            || name == "tests"@
    }

    fn known_field(name: &str) -> (r: bool) {
        str_eq(name, "publicKey")
            || str_eq(name, "publicKeyAsn")
            || str_eq(name, "publicKeyDer")
            || str_eq(name, "publicKeyPem")
            || str_eq(name, "publicKeyJwk")
            || str_eq(name, "keySize")
            || str_eq(name, "mgf")
            || str_eq(name, "mgfSha")
            || str_eq(name, "sLen")
            || str_eq(name, "sha")
            || str_eq(name, "type")
            || str_eq(name, "tests")
    }

    open spec fn spec_decode_fields(fields: Seq<(String, Json)>) -> Result<TestGroupView, ParseFailure> {
        let key = spec_field::<RsaPublic>(fields, "publicKey"@);
        let asn_key = spec_field::<ByteString>(fields, "publicKeyAsn"@);
        let der = spec_field::<ByteString>(fields, "publicKeyDer"@);
        let pem = spec_field::<String>(fields, "publicKeyPem"@);
        let jwk = spec_optional_field::<RsaPublicJwk>(fields, "publicKeyJwk"@);
        let key_size = spec_field::<usize>(fields, "keySize"@);
        let mgf = spec_named_field::<Mgf>(fields, "mgf"@);
        let mgf_hash = spec_mgf_hash_field(fields, "mgfSha"@);
        let salt_size = spec_field::<usize>(fields, "sLen"@);
        let hash = spec_named_field::<HashFunction>(fields, "sha"@);
        let test_type = spec_named_field::<TestGroupTypeId>(fields, "type"@);
        let tests = spec_field::<Vec<Test>>(fields, "tests"@);
        if key is Err { Err(key->Err_0) }
        else if asn_key is Err { Err(asn_key->Err_0) }
        else if der is Err { Err(der->Err_0) }
        else if pem is Err { Err(pem->Err_0) }
        else if jwk is Err { Err(jwk->Err_0) }
        else if key_size is Err { Err(key_size->Err_0) }
        else if mgf is Err { Err(mgf->Err_0) }
        else if mgf_hash is Err { Err(mgf_hash->Err_0) }
        else if salt_size is Err { Err(salt_size->Err_0) }
        else if hash is Err { Err(hash->Err_0) }
        else if test_type is Err { Err(test_type->Err_0) }
        else if tests is Err { Err(tests->Err_0) }
        else {
            Ok(TestGroupView {
                key: key->Ok_0,
                asn_key: asn_key->Ok_0,
                der: der->Ok_0,
                pem: pem->Ok_0,
                jwk: jwk->Ok_0,
                key_size: key_size->Ok_0,
                mgf: mgf->Ok_0,
                mgf_hash: mgf_hash->Ok_0,
                salt_size: salt_size->Ok_0,
                hash: hash->Ok_0,
                test_type: test_type->Ok_0,
                tests: tests->Ok_0,
            })
        }
    }

    fn decode_fields(fields: &Vec<(String, Json)>) -> (r: Result<TestGroup, ParseError>) {
        let key = field::<RsaPublic>(fields, "publicKey")?;
        let asn_key = field::<ByteString>(fields, "publicKeyAsn")?;
        let der = field::<ByteString>(fields, "publicKeyDer")?;
        let pem = field::<String>(fields, "publicKeyPem")?;
        let jwk = optional_field::<RsaPublicJwk>(fields, "publicKeyJwk")?;
        let key_size = field::<usize>(fields, "keySize")?;
        let mgf = named_field::<Mgf>(fields, "mgf")?;
        let mgf_hash = mgf_hash_field(fields, "mgfSha")?;
        let salt_size = field::<usize>(fields, "sLen")?;
        let hash = named_field::<HashFunction>(fields, "sha")?;
        let test_type = named_field::<TestGroupTypeId>(fields, "type")?;
        let tests = field::<Vec<Test>>(fields, "tests")?;
        Ok(TestGroup { key, asn_key, der, pem, jwk, key_size, mgf, mgf_hash, salt_size, hash, test_type, tests })
    }
}

/// A set of RSA PKCS1 verify tests.
#[derive(Debug, Clone, Hash, PartialEq, Eq)]
pub struct TestSet {
    pub algorithm: Algorithm,
    pub generator_version: String,
    pub number_of_tests: usize,
    pub header: String,
    pub notes: Vec<(TestFlag, TestFlagInfo)>,
    pub schema: TestSchema,
    pub test_groups: Vec<TestGroup>,
}

/// The mathematical value of a [`TestSet`].
pub struct TestSetView {
    pub algorithm: Algorithm,
    pub generator_version: Seq<char>,
    pub number_of_tests: usize,
    pub header: Seq<char>,
    pub notes: Seq<(TestFlag, TestFlagInfoView)>,
    pub schema: Seq<char>,
    pub test_groups: Seq<TestGroupView>,
}

impl DeepView for TestSet {
    type V = TestSetView;

    open spec fn deep_view(&self) -> TestSetView {
        TestSetView {
            algorithm: self.algorithm.deep_view(),
            generator_version: self.generator_version.deep_view(),
            number_of_tests: self.number_of_tests.deep_view(),
            header: self.header.deep_view(),
            notes: self.notes.deep_view(),
            schema: self.schema.deep_view(),
            test_groups: self.test_groups.deep_view(),
        }
    }
}

impl Record for TestSet {
    open spec fn spec_known_field(name: Seq<char>) -> bool {
        name == "algorithm"@
            || name == "generatorVersion"@
            || name == "numberOfTests"@
            || name == "header"@
            || name == "notes"@
            || name == "schema"@
            || name == "testGroups"@
    }

    fn known_field(name: &str) -> (r: bool) {
        str_eq(name, "algorithm")
            || str_eq(name, "generatorVersion")
            || str_eq(name, "numberOfTests")
            || str_eq(name, "header")
            || str_eq(name, "notes")
            || str_eq(name, "schema")
            || str_eq(name, "testGroups")
    }

    open spec fn spec_decode_fields(fields: Seq<(String, Json)>) -> Result<TestSetView, ParseFailure> {
        let algorithm = spec_named_field::<Algorithm>(fields, "algorithm"@);
        let generator_version = spec_field::<String>(fields, "generatorVersion"@);
        let number_of_tests = spec_field::<usize>(fields, "numberOfTests"@);
        let header = spec_header_field(fields, "header"@);
        let notes = spec_map_field::<TestFlag, TestFlagInfo>(fields, "notes"@);
        let schema = spec_named_field::<TestSchema>(fields, "schema"@);
        let test_groups = spec_field::<Vec<TestGroup>>(fields, "testGroups"@);
        if algorithm is Err { Err(algorithm->Err_0) }
        else if generator_version is Err { Err(generator_version->Err_0) }
        else if number_of_tests is Err { Err(number_of_tests->Err_0) }
        else if header is Err { Err(header->Err_0) }
        else if notes is Err { Err(notes->Err_0) }
        else if schema is Err { Err(schema->Err_0) }
        else if test_groups is Err { Err(test_groups->Err_0) }
        else {
            Ok(TestSetView {
                algorithm: algorithm->Ok_0,
                generator_version: generator_version->Ok_0,
                number_of_tests: number_of_tests->Ok_0,
                header: header->Ok_0,
                notes: notes->Ok_0,
                schema: schema->Ok_0,
                test_groups: test_groups->Ok_0,
            })
        }
    }

    fn decode_fields(fields: &Vec<(String, Json)>) -> (r: Result<TestSet, ParseError>) {
        let algorithm = named_field::<Algorithm>(fields, "algorithm")?;
        let generator_version = field::<String>(fields, "generatorVersion")?;
        let number_of_tests = field::<usize>(fields, "numberOfTests")?;
        let header = header_field(fields, "header")?;
        let notes = map_field::<TestFlag, TestFlagInfo>(fields, "notes")?;
        let schema = named_field::<TestSchema>(fields, "schema")?;
        let test_groups = field::<Vec<TestGroup>>(fields, "testGroups")?;
        Ok(TestSet { algorithm, generator_version, number_of_tests, header, notes, schema, test_groups })
    }
}

impl Case for Test {
    type Flag = TestFlag;

    proof fn lemma_flags_decoded(fields: Seq<(String, Json)>) {
    }
}

impl Grouped for TestGroup {
    type Test = Test;

    type Tag = TestGroupTypeId;

    open spec fn spec_test_count(&self) -> nat {
        self.tests@.len()
    }

    fn test_count(&self) -> (n: usize) {
        self.tests.len()
    }

    proof fn lemma_members_decoded(fields: Seq<(String, Json)>) {
    }
}

impl Suite for TestSet {
    type Group = TestGroup;

    type Schema = TestSchema;

    open spec fn spec_declared_tests(&self) -> nat {
        self.number_of_tests as nat
    }

    open spec fn spec_actual_tests(&self) -> nat {
        spec_total_tests(self.test_groups@)
    }

    fn counts_match(&self) -> (ok: bool) {
        count_matches(self.number_of_tests, &self.test_groups)
    }

    open spec fn spec_consistent(v: TestSetView) -> bool {
        v.number_of_tests == sum(Seq::new(v.test_groups.len(), |i: int| v.test_groups[i].tests.len()))
    }

    proof fn lemma_consistent(&self) {
        assert(test_counts(self.test_groups@) =~= Seq::new(
            self.deep_view().test_groups.len(),
            |i: int| self.deep_view().test_groups[i].tests.len(),
        ));
    }

    open spec fn spec_notes_distinct(v: TestSetView) -> bool {
        distinct_keys(v.notes)
    }

    proof fn lemma_members_decoded(fields: Seq<(String, Json)>) {
        lemma_decoded_map_distinct::<TestFlag, TestFlagInfo>(spec_find(fields, "notes"@)->Some_0);
    }
}

impl TestSet {
    /// Accepts a test set whose declared count is the number of its tests.
    pub fn check(obj: TestSet) -> (r: Result<TestSet, WycheproofError>)
        ensures
            r is Ok <==> obj.number_of_tests == spec_total_tests(obj.test_groups@),
            r is Ok ==> r->Ok_0 == obj,
            r is Err ==> r->Err_0 is InvalidData,
    {
        check(obj)
    }

    /// Reads and checks a test set from a JSON value.
    pub fn from_json(j: &Json) -> (r: Result<TestSet, WycheproofError>)
        ensures
            load_outcome(r) == spec_from_json::<TestSet>(*j),
            r is Ok ==> r->Ok_0.number_of_tests == spec_total_tests(r->Ok_0.test_groups@),
    {
        from_json::<TestSet>(j)
    }

    /// Reads and checks a test set from the text of its document.
    pub fn load_from_text(text: &str) -> (r: Result<TestSet, WycheproofError>)
        ensures
            load_post::<TestSet>(text@, r),
            r is Ok ==> r->Ok_0.number_of_tests == spec_total_tests(r->Ok_0.test_groups@),
    {
        load_from_text::<TestSet>(text)
    }

    /// What the document says of a flag, if it says anything.
    pub fn note(&self, flag: TestFlag) -> (r: Option<&TestFlagInfo>)
        ensures
            r.deep_view() == spec_lookup(self.deep_view().notes, flag),
    {
        lookup(&self.notes, &flag)
    }
}

} // verus!
