//! Message authentication code tests.

use vstd::prelude::*;
use crate::bytes::ByteString;
use crate::decode::{field, spec_field};
use crate::error::{ParseError, ParseFailure, WycheproofError};
use crate::json::{spec_find, Json};
use crate::named::{Named, named_field, named_list_field, spec_named_field, spec_named_list_field};
use crate::notes::{TestFlagInfo, TestFlagInfoView};
use crate::record::Record;
use crate::suite::{
    Case, check, count_matches, distinct_keys, from_json, Grouped, header_field,
    lemma_decoded_map_distinct, load_from_text, load_outcome, load_post, lookup, map_field,
    spec_from_json, spec_header_field, spec_lookup, spec_map_field, spec_total_tests, Suite, sum,
    test_counts,
};
use crate::text::str_eq;
use crate::vocab::TestResult;

verus! {

/// The schema that a document of MAC tests declares.
#[derive(Debug, Clone, Hash, PartialEq, Eq)]
pub struct TestSchema {
    pub schema: String,
}

impl DeepView for TestSchema {
    type V = Seq<char>;

    open spec fn deep_view(&self) -> Seq<char> {
        self.schema@
    }
}

impl Named for TestSchema {
    open spec fn spec_vocabulary() -> Seq<char> {
        "MAC schema"@
    }

    fn vocabulary() -> (r: &'static str) {
        "MAC schema"
    }

    open spec fn spec_from_name(name: Seq<char>) -> Option<Seq<char>> {
        if name == "mac_test_schema.json"@ {
            Some(name)
        } else {
            None
        }
    }

    fn from_name(name: &str) -> (r: Option<TestSchema>) {
        if str_eq(name, "mac_test_schema.json") {
            Some(TestSchema { schema: name.to_owned() })
        } else {
            None
        }
    }

    fn same(&self, other: &TestSchema) -> (r: bool) {
        str_eq(self.schema.as_str(), other.schema.as_str())
    }
}

/// The test sets of this family.
#[allow(non_camel_case_types)]
#[derive(Debug, Copy, Clone, Hash, PartialEq, Eq, Structural)]
pub enum TestName {
    AesCmac,
    AriaCmac,
    CamelliaCmac,
    HmacSha1,
    HmacSha224,
    HmacSha256,
    HmacSha384,
    HmacSha3_224,
    HmacSha3_256,
    HmacSha3_384,
    HmacSha3_512,
    HmacSha512,
    HmacSha512_224,
    HmacSha512_256,
    HmacSm3,
    Kmac128,
    Kmac256,
    SipHash_1_3,
    SipHash_2_4,
    SipHash_4_8,
    SipHashx_2_4,
    SipHashx_4_8,
}

impl DeepView for TestName {
    type V = TestName;

    open spec fn deep_view(&self) -> TestName {
        *self
    }
}

impl Named for TestName {
    open spec fn spec_vocabulary() -> Seq<char> {
        "TestName"@
    }

    fn vocabulary() -> (r: &'static str) {
        "TestName"
    }

    open spec fn spec_from_name(name: Seq<char>) -> Option<TestName> {
        if name == "aes_cmac"@ { Some(TestName::AesCmac) }
        else if name == "aria_cmac"@ { Some(TestName::AriaCmac) }
        else if name == "camellia_cmac"@ { Some(TestName::CamelliaCmac) }
        else if name == "hmac_sha1"@ { Some(TestName::HmacSha1) }
        else if name == "hmac_sha224"@ { Some(TestName::HmacSha224) }
        else if name == "hmac_sha256"@ { Some(TestName::HmacSha256) }
        else if name == "hmac_sha384"@ { Some(TestName::HmacSha384) }
        else if name == "hmac_sha3_224"@ { Some(TestName::HmacSha3_224) }
        else if name == "hmac_sha3_256"@ { Some(TestName::HmacSha3_256) }
        else if name == "hmac_sha3_384"@ { Some(TestName::HmacSha3_384) }
        else if name == "hmac_sha3_512"@ { Some(TestName::HmacSha3_512) }
        else if name == "hmac_sha512"@ { Some(TestName::HmacSha512) }
        else if name == "hmac_sha512_224"@ { Some(TestName::HmacSha512_224) }
        else if name == "hmac_sha512_256"@ { Some(TestName::HmacSha512_256) }
        else if name == "hmac_sm3"@ { Some(TestName::HmacSm3) }
        else if name == "kmac128_no_customization"@ { Some(TestName::Kmac128) }
        else if name == "kmac256_no_customization"@ { Some(TestName::Kmac256) }
        else if name == "siphash_1_3"@ { Some(TestName::SipHash_1_3) }
        else if name == "siphash_2_4"@ { Some(TestName::SipHash_2_4) }
        else if name == "siphash_4_8"@ { Some(TestName::SipHash_4_8) }
        else if name == "siphashx_2_4"@ { Some(TestName::SipHashx_2_4) }
        else if name == "siphashx_4_8"@ { Some(TestName::SipHashx_4_8) }
        else { None }
    }

    fn from_name(name: &str) -> (r: Option<TestName>) {
        if str_eq(name, "aes_cmac") { Some(TestName::AesCmac) }
        else if str_eq(name, "aria_cmac") { Some(TestName::AriaCmac) }
        else if str_eq(name, "camellia_cmac") { Some(TestName::CamelliaCmac) }
        else if str_eq(name, "hmac_sha1") { Some(TestName::HmacSha1) }
        else if str_eq(name, "hmac_sha224") { Some(TestName::HmacSha224) }
        else if str_eq(name, "hmac_sha256") { Some(TestName::HmacSha256) }
        else if str_eq(name, "hmac_sha384") { Some(TestName::HmacSha384) }
        else if str_eq(name, "hmac_sha3_224") { Some(TestName::HmacSha3_224) }
        else if str_eq(name, "hmac_sha3_256") { Some(TestName::HmacSha3_256) }
        else if str_eq(name, "hmac_sha3_384") { Some(TestName::HmacSha3_384) }
        else if str_eq(name, "hmac_sha3_512") { Some(TestName::HmacSha3_512) }
        else if str_eq(name, "hmac_sha512") { Some(TestName::HmacSha512) }
        else if str_eq(name, "hmac_sha512_224") { Some(TestName::HmacSha512_224) }
        else if str_eq(name, "hmac_sha512_256") { Some(TestName::HmacSha512_256) }
        else if str_eq(name, "hmac_sm3") { Some(TestName::HmacSm3) }
        else if str_eq(name, "kmac128_no_customization") { Some(TestName::Kmac128) }
        else if str_eq(name, "kmac256_no_customization") { Some(TestName::Kmac256) }
        else if str_eq(name, "siphash_1_3") { Some(TestName::SipHash_1_3) }
        else if str_eq(name, "siphash_2_4") { Some(TestName::SipHash_2_4) }
        else if str_eq(name, "siphash_4_8") { Some(TestName::SipHash_4_8) }
        else if str_eq(name, "siphashx_2_4") { Some(TestName::SipHashx_2_4) }
        else if str_eq(name, "siphashx_4_8") { Some(TestName::SipHashx_4_8) }
        else { None }
    }

    fn same(&self, other: &TestName) -> (r: bool) {
        *self == *other
    }
}

impl TestName {
    /// The name under which the test set is kept.
    pub open spec fn spec_name(self) -> Seq<char> {
        match self {
            TestName::AesCmac => "aes_cmac"@,
            TestName::AriaCmac => "aria_cmac"@,
            TestName::CamelliaCmac => "camellia_cmac"@,
            TestName::HmacSha1 => "hmac_sha1"@,
            TestName::HmacSha224 => "hmac_sha224"@,
            TestName::HmacSha256 => "hmac_sha256"@,
            TestName::HmacSha384 => "hmac_sha384"@,
            TestName::HmacSha3_224 => "hmac_sha3_224"@,
            TestName::HmacSha3_256 => "hmac_sha3_256"@,
            TestName::HmacSha3_384 => "hmac_sha3_384"@,
            TestName::HmacSha3_512 => "hmac_sha3_512"@,
            TestName::HmacSha512 => "hmac_sha512"@,
            TestName::HmacSha512_224 => "hmac_sha512_224"@,
            TestName::HmacSha512_256 => "hmac_sha512_256"@,
            TestName::HmacSm3 => "hmac_sm3"@,
            TestName::Kmac128 => "kmac128_no_customization"@,
            TestName::Kmac256 => "kmac256_no_customization"@,
            TestName::SipHash_1_3 => "siphash_1_3"@,
            TestName::SipHash_2_4 => "siphash_2_4"@,
            TestName::SipHash_4_8 => "siphash_4_8"@,
            TestName::SipHashx_2_4 => "siphashx_2_4"@,
            TestName::SipHashx_4_8 => "siphashx_4_8"@,
        }
    }

    pub fn name(&self) -> (r: &'static str)
        ensures
            r@ == self.spec_name(),
    {
        match self {
            TestName::AesCmac => "aes_cmac",
            TestName::AriaCmac => "aria_cmac",
            TestName::CamelliaCmac => "camellia_cmac",
            TestName::HmacSha1 => "hmac_sha1",
            TestName::HmacSha224 => "hmac_sha224",
            TestName::HmacSha256 => "hmac_sha256",
            TestName::HmacSha384 => "hmac_sha384",
            TestName::HmacSha3_224 => "hmac_sha3_224",
            TestName::HmacSha3_256 => "hmac_sha3_256",
            TestName::HmacSha3_384 => "hmac_sha3_384",
            TestName::HmacSha3_512 => "hmac_sha3_512",
            TestName::HmacSha512 => "hmac_sha512",
            TestName::HmacSha512_224 => "hmac_sha512_224",
            TestName::HmacSha512_256 => "hmac_sha512_256",
            TestName::HmacSm3 => "hmac_sm3",
            TestName::Kmac128 => "kmac128_no_customization",
            TestName::Kmac256 => "kmac256_no_customization",
            TestName::SipHash_1_3 => "siphash_1_3",
            TestName::SipHash_2_4 => "siphash_2_4",
            TestName::SipHash_4_8 => "siphash_4_8",
            TestName::SipHashx_2_4 => "siphashx_2_4",
            TestName::SipHashx_4_8 => "siphashx_4_8",
        }
    }

    /// Every test set of the family, in a fixed order.
    pub open spec fn spec_all() -> Seq<TestName> {
        seq![
            TestName::AesCmac,
            TestName::AriaCmac,
            TestName::CamelliaCmac,
            TestName::HmacSha1,
            TestName::HmacSha224,
            TestName::HmacSha256,
            TestName::HmacSha384,
            TestName::HmacSha3_224,
            TestName::HmacSha3_256,
            TestName::HmacSha3_384,
            TestName::HmacSha3_512,
            TestName::HmacSha512,
            TestName::HmacSha512_224,
            TestName::HmacSha512_256,
            TestName::HmacSm3,
            TestName::Kmac128,
            TestName::Kmac256,
            TestName::SipHash_1_3,
            TestName::SipHash_2_4,
            TestName::SipHash_4_8,
            TestName::SipHashx_2_4,
            TestName::SipHashx_4_8,
        ]
    }

    pub fn all() -> (r: Vec<TestName>)
        ensures
            r@ == Self::spec_all(),
    {
        let r = vec![
            TestName::AesCmac,
            TestName::AriaCmac,
            TestName::CamelliaCmac,
            TestName::HmacSha1,
            TestName::HmacSha224,
            TestName::HmacSha256,
            TestName::HmacSha384,
            TestName::HmacSha3_224,
            TestName::HmacSha3_256,
            TestName::HmacSha3_384,
            TestName::HmacSha3_512,
            TestName::HmacSha512,
            TestName::HmacSha512_224,
            TestName::HmacSha512_256,
            TestName::HmacSm3,
            TestName::Kmac128,
            TestName::Kmac256,
            TestName::SipHash_1_3,
            TestName::SipHash_2_4,
            TestName::SipHash_4_8,
            TestName::SipHashx_2_4,
            TestName::SipHashx_4_8,
        ];
        assert(r@ =~= Self::spec_all());
        r
    }

    /// Finds a test set by its name.
    pub fn from_str(s: &str) -> (r: Result<TestName, WycheproofError>)
        ensures
            match r {
                Ok(t) => Self::spec_from_name(s@) == Some(t),
                Err(e) => Self::spec_from_name(s@) is None && e is NoDataSet,
            },
    {
        match Self::from_name(s) {
            Some(t) => Ok(t),
            None => Err(WycheproofError::NoDataSet),
        }
    }
}

impl std::str::FromStr for TestName {
    type Err = WycheproofError;

    fn from_str(s: &str) -> (r: Result<TestName, WycheproofError>)
        ensures
            match r {
                Ok(t) => TestName::spec_from_name(s@) == Some(t),
                Err(e) => TestName::spec_from_name(s@) is None && e is NoDataSet,
            },
    {
        TestName::from_str(s)
    }
}

/// Every test set is found again by its name.
pub proof fn lemma_name_round_trip(t: TestName)
    ensures
        TestName::spec_from_name(t.spec_name()) == Some(t),
{
    reveal_strlit("aes_cmac");
    assert("aes_cmac"@ =~= seq!['a', 'e', 's', '_', 'c', 'm', 'a', 'c']);
    reveal_strlit("aria_cmac");
    assert("aria_cmac"@ =~= seq!['a', 'r', 'i', 'a', '_', 'c', 'm', 'a', 'c']);
    reveal_strlit("camellia_cmac");
    assert("camellia_cmac"@ =~= seq!['c', 'a', 'm', 'e', 'l', 'l', 'i', 'a', '_', 'c', 'm', 'a', 'c']);
    reveal_strlit("hmac_sha1");
    assert("hmac_sha1"@ =~= seq!['h', 'm', 'a', 'c', '_', 's', 'h', 'a', '1']);
    reveal_strlit("hmac_sha224");
    assert("hmac_sha224"@ =~= seq!['h', 'm', 'a', 'c', '_', 's', 'h', 'a', '2', '2', '4']);
    reveal_strlit("hmac_sha256");
    assert("hmac_sha256"@ =~= seq!['h', 'm', 'a', 'c', '_', 's', 'h', 'a', '2', '5', '6']);
    reveal_strlit("hmac_sha384");
    assert("hmac_sha384"@ =~= seq!['h', 'm', 'a', 'c', '_', 's', 'h', 'a', '3', '8', '4']);
    reveal_strlit("hmac_sha3_224");
    assert("hmac_sha3_224"@ =~= seq!['h', 'm', 'a', 'c', '_', 's', 'h', 'a', '3', '_', '2', '2', '4']);
    reveal_strlit("hmac_sha3_256");
    assert("hmac_sha3_256"@ =~= seq!['h', 'm', 'a', 'c', '_', 's', 'h', 'a', '3', '_', '2', '5', '6']);
    reveal_strlit("hmac_sha3_384");
    assert("hmac_sha3_384"@ =~= seq!['h', 'm', 'a', 'c', '_', 's', 'h', 'a', '3', '_', '3', '8', '4']);
    reveal_strlit("hmac_sha3_512");
    assert("hmac_sha3_512"@ =~= seq!['h', 'm', 'a', 'c', '_', 's', 'h', 'a', '3', '_', '5', '1', '2']);
    reveal_strlit("hmac_sha512");
    assert("hmac_sha512"@ =~= seq!['h', 'm', 'a', 'c', '_', 's', 'h', 'a', '5', '1', '2']);
    reveal_strlit("hmac_sha512_224");
    assert("hmac_sha512_224"@ =~= seq!['h', 'm', 'a', 'c', '_', 's', 'h', 'a', '5', '1', '2', '_', '2', '2', '4']);
    reveal_strlit("hmac_sha512_256");
    assert("hmac_sha512_256"@ =~= seq!['h', 'm', 'a', 'c', '_', 's', 'h', 'a', '5', '1', '2', '_', '2', '5', '6']);
    reveal_strlit("hmac_sm3");
    assert("hmac_sm3"@ =~= seq!['h', 'm', 'a', 'c', '_', 's', 'm', '3']);
    reveal_strlit("kmac128_no_customization");
    assert("kmac128_no_customization"@ =~= seq!['k', 'm', 'a', 'c', '1', '2', '8', '_', 'n', 'o', '_', 'c', 'u', 's', 't', 'o', 'm', 'i', 'z', 'a', 't', 'i', 'o', 'n']);
    reveal_strlit("kmac256_no_customization");
    assert("kmac256_no_customization"@ =~= seq!['k', 'm', 'a', 'c', '2', '5', '6', '_', 'n', 'o', '_', 'c', 'u', 's', 't', 'o', 'm', 'i', 'z', 'a', 't', 'i', 'o', 'n']);
    reveal_strlit("siphash_1_3");
    assert("siphash_1_3"@ =~= seq!['s', 'i', 'p', 'h', 'a', 's', 'h', '_', '1', '_', '3']);
    reveal_strlit("siphash_2_4");
    assert("siphash_2_4"@ =~= seq!['s', 'i', 'p', 'h', 'a', 's', 'h', '_', '2', '_', '4']);
    reveal_strlit("siphash_4_8");
    assert("siphash_4_8"@ =~= seq!['s', 'i', 'p', 'h', 'a', 's', 'h', '_', '4', '_', '8']);
    reveal_strlit("siphashx_2_4");
    assert("siphashx_2_4"@ =~= seq!['s', 'i', 'p', 'h', 'a', 's', 'h', 'x', '_', '2', '_', '4']);
    reveal_strlit("siphashx_4_8");
    assert("siphashx_4_8"@ =~= seq!['s', 'i', 'p', 'h', 'a', 's', 'h', 'x', '_', '4', '_', '8']);
}

/// Every test set is listed.
pub proof fn lemma_all_complete(t: TestName)
    ensures
        TestName::spec_all().contains(t),
{
    match t {
        TestName::AesCmac => assert(TestName::spec_all()[0] == t),
        TestName::AriaCmac => assert(TestName::spec_all()[1] == t),
        TestName::CamelliaCmac => assert(TestName::spec_all()[2] == t),
        TestName::HmacSha1 => assert(TestName::spec_all()[3] == t),
        TestName::HmacSha224 => assert(TestName::spec_all()[4] == t),
        TestName::HmacSha256 => assert(TestName::spec_all()[5] == t),
        TestName::HmacSha384 => assert(TestName::spec_all()[6] == t),
        TestName::HmacSha3_224 => assert(TestName::spec_all()[7] == t),
        TestName::HmacSha3_256 => assert(TestName::spec_all()[8] == t),
        TestName::HmacSha3_384 => assert(TestName::spec_all()[9] == t),
        TestName::HmacSha3_512 => assert(TestName::spec_all()[10] == t),
        TestName::HmacSha512 => assert(TestName::spec_all()[11] == t),
        TestName::HmacSha512_224 => assert(TestName::spec_all()[12] == t),
        TestName::HmacSha512_256 => assert(TestName::spec_all()[13] == t),
        TestName::HmacSm3 => assert(TestName::spec_all()[14] == t),
        TestName::Kmac128 => assert(TestName::spec_all()[15] == t),
        TestName::Kmac256 => assert(TestName::spec_all()[16] == t),
        TestName::SipHash_1_3 => assert(TestName::spec_all()[17] == t),
        TestName::SipHash_2_4 => assert(TestName::spec_all()[18] == t),
        TestName::SipHash_4_8 => assert(TestName::spec_all()[19] == t),
        TestName::SipHashx_2_4 => assert(TestName::spec_all()[20] == t),
        TestName::SipHashx_4_8 => assert(TestName::spec_all()[21] == t),
    }
}

/// The algorithms that a test set of this family is for.
#[allow(non_camel_case_types)]
#[derive(Debug, Copy, Clone, Hash, PartialEq, Eq, Structural)]
pub enum Algorithm {
    AesCmac,
    AriaCmac,
    CamelliaCmac,
    HmacSha1,
    HmacSha224,
    HmacSha256,
    HmacSha3_224,
    HmacSha3_256,
    HmacSha3_384,
    HmacSha3_512,
    HmacSha384,
    HmacSha512,
    HmacSha512_224,
    HmacSha512_256,
    HmacSm3,
    Kmac128,
    Kmac256,
    Siphash_1_3,
    Siphash_2_4,
    Siphash_4_8,
    Siphashx_2_4,
    Siphashx_4_8,
}

impl DeepView for Algorithm {
    type V = Algorithm;

    open spec fn deep_view(&self) -> Algorithm {
        *self
    }
}

impl Named for Algorithm {
    open spec fn spec_vocabulary() -> Seq<char> {
        "Algorithm"@
    }

    fn vocabulary() -> (r: &'static str) {
        "Algorithm"
    }

    open spec fn spec_from_name(name: Seq<char>) -> Option<Algorithm> {
        if name == "AES-CMAC"@ { Some(Algorithm::AesCmac) }
        else if name == "ARIA-CMAC"@ { Some(Algorithm::AriaCmac) }
        else if name == "CAMELLIA-CMAC"@ { Some(Algorithm::CamelliaCmac) }
        else if name == "HMACSHA1"@ { Some(Algorithm::HmacSha1) }
        else if name == "HMACSHA224"@ { Some(Algorithm::HmacSha224) }
        else if name == "HMACSHA256"@ { Some(Algorithm::HmacSha256) }
        else if name == "HMACSHA3-224"@ { Some(Algorithm::HmacSha3_224) }
        else if name == "HMACSHA3-256"@ { Some(Algorithm::HmacSha3_256) }
        else if name == "HMACSHA3-384"@ { Some(Algorithm::HmacSha3_384) }
        else if name == "HMACSHA3-512"@ { Some(Algorithm::HmacSha3_512) }
        else if name == "HMACSHA384"@ { Some(Algorithm::HmacSha384) }
        else if name == "HMACSHA512"@ { Some(Algorithm::HmacSha512) }
        else if name == "HMACSHA512/224"@ { Some(Algorithm::HmacSha512_224) }
        else if name == "HMACSHA512/256"@ { Some(Algorithm::HmacSha512_256) }
        else if name == "HMACSM3"@ { Some(Algorithm::HmacSm3) }
        else if name == "KMAC128"@ { Some(Algorithm::Kmac128) }
        else if name == "KMAC256"@ { Some(Algorithm::Kmac256) }
        else if name == "SipHash-1-3"@ { Some(Algorithm::Siphash_1_3) }
        else if name == "SipHash-2-4"@ { Some(Algorithm::Siphash_2_4) }
        else if name == "SipHash-4-8"@ { Some(Algorithm::Siphash_4_8) }
        else if name == "SipHashX-2-4"@ { Some(Algorithm::Siphashx_2_4) }
        else if name == "SipHashX-4-8"@ { Some(Algorithm::Siphashx_4_8) }
        else { None }
    }

    fn from_name(name: &str) -> (r: Option<Algorithm>) {
        if str_eq(name, "AES-CMAC") { Some(Algorithm::AesCmac) }
        else if str_eq(name, "ARIA-CMAC") { Some(Algorithm::AriaCmac) }
        else if str_eq(name, "CAMELLIA-CMAC") { Some(Algorithm::CamelliaCmac) }
        else if str_eq(name, "HMACSHA1") { Some(Algorithm::HmacSha1) }
        else if str_eq(name, "HMACSHA224") { Some(Algorithm::HmacSha224) }
        else if str_eq(name, "HMACSHA256") { Some(Algorithm::HmacSha256) }
        else if str_eq(name, "HMACSHA3-224") { Some(Algorithm::HmacSha3_224) }
        else if str_eq(name, "HMACSHA3-256") { Some(Algorithm::HmacSha3_256) }
        else if str_eq(name, "HMACSHA3-384") { Some(Algorithm::HmacSha3_384) }
        else if str_eq(name, "HMACSHA3-512") { Some(Algorithm::HmacSha3_512) }
        else if str_eq(name, "HMACSHA384") { Some(Algorithm::HmacSha384) }
        else if str_eq(name, "HMACSHA512") { Some(Algorithm::HmacSha512) }
        else if str_eq(name, "HMACSHA512/224") { Some(Algorithm::HmacSha512_224) }
        else if str_eq(name, "HMACSHA512/256") { Some(Algorithm::HmacSha512_256) }
        else if str_eq(name, "HMACSM3") { Some(Algorithm::HmacSm3) }
        else if str_eq(name, "KMAC128") { Some(Algorithm::Kmac128) }
        else if str_eq(name, "KMAC256") { Some(Algorithm::Kmac256) }
        else if str_eq(name, "SipHash-1-3") { Some(Algorithm::Siphash_1_3) }
        else if str_eq(name, "SipHash-2-4") { Some(Algorithm::Siphash_2_4) }
        else if str_eq(name, "SipHash-4-8") { Some(Algorithm::Siphash_4_8) }
        else if str_eq(name, "SipHashX-2-4") { Some(Algorithm::Siphashx_2_4) }
        else if str_eq(name, "SipHashX-4-8") { Some(Algorithm::Siphashx_4_8) }
        else { None }
    }

    fn same(&self, other: &Algorithm) -> (r: bool) {
        *self == *other
    }
}

/// The edge case or bug class that a test probes.
#[derive(Debug, Copy, Clone, Hash, PartialEq, Eq, Structural)]
pub enum TestFlag {
    InvalidKeySize,
    ModifiedTag,
    Pseudorandom,
    TruncatedHmac,
}

impl DeepView for TestFlag {
    type V = TestFlag;

    open spec fn deep_view(&self) -> TestFlag {
        *self
    }
}

impl Named for TestFlag {
    open spec fn spec_vocabulary() -> Seq<char> {
        "TestFlag"@
    }

    fn vocabulary() -> (r: &'static str) {
        "TestFlag"
    }

    open spec fn spec_from_name(name: Seq<char>) -> Option<TestFlag> {
        if name == "InvalidKeySize"@ { Some(TestFlag::InvalidKeySize) }
        else if name == "ModifiedTag"@ { Some(TestFlag::ModifiedTag) }
        else if name == "Pseudorandom"@ { Some(TestFlag::Pseudorandom) }
        else if name == "TruncatedHmac"@ { Some(TestFlag::TruncatedHmac) }
        else { None }
    }

    fn from_name(name: &str) -> (r: Option<TestFlag>) {
        if str_eq(name, "InvalidKeySize") { Some(TestFlag::InvalidKeySize) }
        else if str_eq(name, "ModifiedTag") { Some(TestFlag::ModifiedTag) }
        else if str_eq(name, "Pseudorandom") { Some(TestFlag::Pseudorandom) }
        else if str_eq(name, "TruncatedHmac") { Some(TestFlag::TruncatedHmac) }
        else { None }
    }

    fn same(&self, other: &TestFlag) -> (r: bool) {
        *self == *other
    }
}

/// The tag of a test group: which shape the group follows.
#[derive(Debug, Copy, Clone, Hash, PartialEq, Eq, Structural)]
pub enum TestGroupTypeId {
    Mac,
}

impl DeepView for TestGroupTypeId {
    type V = TestGroupTypeId;

    open spec fn deep_view(&self) -> TestGroupTypeId {
        *self
    }
}

impl Named for TestGroupTypeId {
    open spec fn spec_vocabulary() -> Seq<char> {
        "TestGroupTypeId"@
    }

    fn vocabulary() -> (r: &'static str) {
        "TestGroupTypeId"
    }

    open spec fn spec_from_name(name: Seq<char>) -> Option<TestGroupTypeId> {
        if name == "MacTest"@ { Some(TestGroupTypeId::Mac) }
        else { None }
    }

    fn from_name(name: &str) -> (r: Option<TestGroupTypeId>) {
        if str_eq(name, "MacTest") { Some(TestGroupTypeId::Mac) }
        else { None }
    }

    fn same(&self, other: &TestGroupTypeId) -> (r: bool) {
        *self == *other
    }
}

/// One test case.
#[derive(Debug, Clone, Hash, PartialEq, Eq)]
pub struct Test {
    pub tc_id: usize,
    pub comment: String,
    pub key: ByteString,
    pub msg: ByteString,
    pub tag: ByteString,
    pub result: TestResult,
    pub flags: Vec<TestFlag>,
}

/// The mathematical value of a [`Test`].
pub struct TestView {
    pub tc_id: usize,
    pub comment: Seq<char>,
    pub key: Seq<u8>,
    pub msg: Seq<u8>,
    pub tag: Seq<u8>,
    pub result: TestResult,
    pub flags: Seq<TestFlag>,
}

impl DeepView for Test {
    type V = TestView;

    open spec fn deep_view(&self) -> TestView {
        TestView {
            tc_id: self.tc_id.deep_view(),
            comment: self.comment.deep_view(),
            key: self.key.deep_view(),
            msg: self.msg.deep_view(),
            tag: self.tag.deep_view(),
            result: self.result.deep_view(),
            flags: self.flags.deep_view(),
        }
    }
}

impl Record for Test {
    open spec fn spec_known_field(name: Seq<char>) -> bool {
        name == "tcId"@
            || name == "comment"@
            || name == "key"@
            || name == "msg"@
            || name == "tag"@
            || name == "result"@
            || name == "flags"@
    }

    fn known_field(name: &str) -> (r: bool) {
        str_eq(name, "tcId")
            || str_eq(name, "comment")
            || str_eq(name, "key")
            || str_eq(name, "msg")
            || str_eq(name, "tag")
            || str_eq(name, "result")
            || str_eq(name, "flags")
    }

    open spec fn spec_decode_fields(fields: Seq<(String, Json)>) -> Result<TestView, ParseFailure> {
        let tc_id = spec_field::<usize>(fields, "tcId"@);
        let comment = spec_field::<String>(fields, "comment"@);
        let key = spec_field::<ByteString>(fields, "key"@);
        let msg = spec_field::<ByteString>(fields, "msg"@);
        let tag = spec_field::<ByteString>(fields, "tag"@);
        let result = spec_named_field::<TestResult>(fields, "result"@);
        let flags = spec_named_list_field::<TestFlag>(fields, "flags"@);
        if tc_id is Err { Err(tc_id->Err_0) }
        else if comment is Err { Err(comment->Err_0) }
        else if key is Err { Err(key->Err_0) }
        else if msg is Err { Err(msg->Err_0) }
        else if tag is Err { Err(tag->Err_0) }
        else if result is Err { Err(result->Err_0) }
        else if flags is Err { Err(flags->Err_0) }
        else {
            Ok(TestView {
                tc_id: tc_id->Ok_0,
                comment: comment->Ok_0,
                key: key->Ok_0,
                msg: msg->Ok_0,
                tag: tag->Ok_0,
                result: result->Ok_0,
                flags: flags->Ok_0,
            })
        }
    }

    fn decode_fields(fields: &Vec<(String, Json)>) -> (r: Result<Test, ParseError>) {
        let tc_id = field::<usize>(fields, "tcId")?;
        let comment = field::<String>(fields, "comment")?;
        let key = field::<ByteString>(fields, "key")?;
        let msg = field::<ByteString>(fields, "msg")?;
        let tag = field::<ByteString>(fields, "tag")?;
        let result = named_field::<TestResult>(fields, "result")?;
        let flags = named_list_field::<TestFlag>(fields, "flags")?;
        Ok(Test { tc_id, comment, key, msg, tag, result, flags })
    }
}

/// Tests that share the configuration of their group.
#[derive(Debug, Clone, Hash, PartialEq, Eq)]
pub struct TestGroup {
    pub key_size: usize,
    pub tag_size: usize,
    pub test_type: TestGroupTypeId,
    pub tests: Vec<Test>,
}

/// The mathematical value of a [`TestGroup`].
pub struct TestGroupView {
    pub key_size: usize,
    pub tag_size: usize,
    pub test_type: TestGroupTypeId,
    pub tests: Seq<TestView>,
}

impl DeepView for TestGroup {
    type V = TestGroupView;

    open spec fn deep_view(&self) -> TestGroupView {
        TestGroupView {
            key_size: self.key_size.deep_view(),
            tag_size: self.tag_size.deep_view(),
            test_type: self.test_type.deep_view(),
            tests: self.tests.deep_view(),
        }
    }
}

impl Record for TestGroup {
    open spec fn spec_known_field(name: Seq<char>) -> bool {
        name == "keySize"@
            || name == "tagSize"@
            || name == "type"@
            || name == "tests"@
    }

    fn known_field(name: &str) -> (r: bool) {
        str_eq(name, "keySize")
            || str_eq(name, "tagSize")
            || str_eq(name, "type")
            || str_eq(name, "tests")
    }

    open spec fn spec_decode_fields(fields: Seq<(String, Json)>) -> Result<TestGroupView, ParseFailure> {
        let key_size = spec_field::<usize>(fields, "keySize"@);
        let tag_size = spec_field::<usize>(fields, "tagSize"@);
        let test_type = spec_named_field::<TestGroupTypeId>(fields, "type"@);
        let tests = spec_field::<Vec<Test>>(fields, "tests"@);
        if key_size is Err { Err(key_size->Err_0) }
        else if tag_size is Err { Err(tag_size->Err_0) }
        else if test_type is Err { Err(test_type->Err_0) }
        else if tests is Err { Err(tests->Err_0) }
        else {
            Ok(TestGroupView {
                key_size: key_size->Ok_0,
                tag_size: tag_size->Ok_0,
                test_type: test_type->Ok_0,
                tests: tests->Ok_0,
            })
        }
    }

    fn decode_fields(fields: &Vec<(String, Json)>) -> (r: Result<TestGroup, ParseError>) {
        let key_size = field::<usize>(fields, "keySize")?;
        let tag_size = field::<usize>(fields, "tagSize")?;
        let test_type = named_field::<TestGroupTypeId>(fields, "type")?;
        let tests = field::<Vec<Test>>(fields, "tests")?;
        Ok(TestGroup { key_size, tag_size, test_type, tests })
    }
}

/// A set of MAC tests.
#[derive(Debug, Clone, Hash, PartialEq, Eq)]
pub struct TestSet {
    pub algorithm: Algorithm,
    pub generator_version: String,
    pub number_of_tests: usize,
    pub header: String,
    pub notes: Vec<(TestFlag, TestFlagInfo)>,
    pub schema: TestSchema,
    pub test_groups: Vec<TestGroup>,
}

/// The mathematical value of a [`TestSet`].
pub struct TestSetView {
    pub algorithm: Algorithm,
    pub generator_version: Seq<char>,
    pub number_of_tests: usize,
    pub header: Seq<char>,
    pub notes: Seq<(TestFlag, TestFlagInfoView)>,
    pub schema: Seq<char>,
    pub test_groups: Seq<TestGroupView>,
}

impl DeepView for TestSet {
    type V = TestSetView;

    open spec fn deep_view(&self) -> TestSetView {
        TestSetView {
            algorithm: self.algorithm.deep_view(),
            generator_version: self.generator_version.deep_view(),
            number_of_tests: self.number_of_tests.deep_view(),
            header: self.header.deep_view(),
            notes: self.notes.deep_view(),
            schema: self.schema.deep_view(),
            test_groups: self.test_groups.deep_view(),
        }
    }
}

impl Record for TestSet {
    open spec fn spec_known_field(name: Seq<char>) -> bool {
        name == "algorithm"@
            || name == "generatorVersion"@
            || name == "numberOfTests"@
            || name == "header"@
            || name == "notes"@
            || name == "schema"@
            || name == "testGroups"@
    }

    fn known_field(name: &str) -> (r: bool) {
        str_eq(name, "algorithm")
            || str_eq(name, "generatorVersion")
            || str_eq(name, "numberOfTests")
            || str_eq(name, "header")
            || str_eq(name, "notes")
            || str_eq(name, "schema")
            || str_eq(name, "testGroups")
    }

    open spec fn spec_decode_fields(fields: Seq<(String, Json)>) -> Result<TestSetView, ParseFailure> {
        let algorithm = spec_named_field::<Algorithm>(fields, "algorithm"@);
        let generator_version = spec_field::<String>(fields, "generatorVersion"@);
        let number_of_tests = spec_field::<usize>(fields, "numberOfTests"@);
        let header = spec_header_field(fields, "header"@);
        let notes = spec_map_field::<TestFlag, TestFlagInfo>(fields, "notes"@);
        let schema = spec_named_field::<TestSchema>(fields, "schema"@);
        let test_groups = spec_field::<Vec<TestGroup>>(fields, "testGroups"@);
        if algorithm is Err { Err(algorithm->Err_0) }
        else if generator_version is Err { Err(generator_version->Err_0) }
        else if number_of_tests is Err { Err(number_of_tests->Err_0) }
        else if header is Err { Err(header->Err_0) }
        else if notes is Err { Err(notes->Err_0) }
        else if schema is Err { Err(schema->Err_0) }
        else if test_groups is Err { Err(test_groups->Err_0) }
        else {
            Ok(TestSetView {
                algorithm: algorithm->Ok_0,
                generator_version: generator_version->Ok_0,
                number_of_tests: number_of_tests->Ok_0,
                header: header->Ok_0,
                notes: notes->Ok_0,
                schema: schema->Ok_0,
                test_groups: test_groups->Ok_0,
            })
        }
    }

    fn decode_fields(fields: &Vec<(String, Json)>) -> (r: Result<TestSet, ParseError>) {
        let algorithm = named_field::<Algorithm>(fields, "algorithm")?;
        let generator_version = field::<String>(fields, "generatorVersion")?;
        let number_of_tests = field::<usize>(fields, "numberOfTests")?;
        let header = header_field(fields, "header")?;
        let notes = map_field::<TestFlag, TestFlagInfo>(fields, "notes")?;
        let schema = named_field::<TestSchema>(fields, "schema")?;
        let test_groups = field::<Vec<TestGroup>>(fields, "testGroups")?;
        Ok(TestSet { algorithm, generator_version, number_of_tests, header, notes, schema, test_groups })
    }
}

impl Case for Test {
    type Flag = TestFlag;

    proof fn lemma_flags_decoded(fields: Seq<(String, Json)>) {
    }
}

impl Grouped for TestGroup {
    type Test = Test;

    type Tag = TestGroupTypeId;

    open spec fn spec_test_count(&self) -> nat {
        self.tests@.len()
    }

    fn test_count(&self) -> (n: usize) {
        self.tests.len()
    }

    proof fn lemma_members_decoded(fields: Seq<(String, Json)>) {
    }
}

impl Suite for TestSet {
    type Group = TestGroup;

    type Schema = TestSchema;

    open spec fn spec_declared_tests(&self) -> nat {
        self.number_of_tests as nat
    }

    open spec fn spec_actual_tests(&self) -> nat {
        spec_total_tests(self.test_groups@)
    }

    fn counts_match(&self) -> (ok: bool) {
        count_matches(self.number_of_tests, &self.test_groups)
    }

    open spec fn spec_consistent(v: TestSetView) -> bool {
        v.number_of_tests == sum(Seq::new(v.test_groups.len(), |i: int| v.test_groups[i].tests.len()))
    }

    proof fn lemma_consistent(&self) {
        assert(test_counts(self.test_groups@) =~= Seq::new(
            self.deep_view().test_groups.len(),
            |i: int| self.deep_view().test_groups[i].tests.len(),
        ));
    }

    open spec fn spec_notes_distinct(v: TestSetView) -> bool {
        distinct_keys(v.notes)
    }

    proof fn lemma_members_decoded(fields: Seq<(String, Json)>) {
        lemma_decoded_map_distinct::<TestFlag, TestFlagInfo>(spec_find(fields, "notes"@)->Some_0);
    }
}

impl TestSet {
    /// Accepts a test set whose declared count is the number of its tests.
    pub fn check(obj: TestSet) -> (r: Result<TestSet, WycheproofError>)
        ensures
            r is Ok <==> obj.number_of_tests == spec_total_tests(obj.test_groups@),
            r is Ok ==> r->Ok_0 == obj,
            r is Err ==> r->Err_0 is InvalidData,
    {
        check(obj)
    }

    /// Reads and checks a test set from a JSON value.
    pub fn from_json(j: &Json) -> (r: Result<TestSet, WycheproofError>)
        ensures
            load_outcome(r) == spec_from_json::<TestSet>(*j),
            r is Ok ==> r->Ok_0.number_of_tests == spec_total_tests(r->Ok_0.test_groups@),
    {
        from_json::<TestSet>(j)
    }

    /// Reads and checks a test set from the text of its document.
    pub fn load_from_text(text: &str) -> (r: Result<TestSet, WycheproofError>)
        ensures
            load_post::<TestSet>(text@, r),
            r is Ok ==> r->Ok_0.number_of_tests == spec_total_tests(r->Ok_0.test_groups@),
    {
        load_from_text::<TestSet>(text)
    }

    /// What the document says of a flag, if it says anything.
    pub fn note(&self, flag: TestFlag) -> (r: Option<&TestFlagInfo>)
        ensures
            r.deep_view() == spec_lookup(self.deep_view().notes, flag),
    {
        lookup(&self.notes, &flag)
    }
}

} // verus!
