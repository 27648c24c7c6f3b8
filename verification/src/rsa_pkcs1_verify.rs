//! RSA PKCS1v1.5 verification tests.

use vstd::prelude::*;
use crate::bytes::{hex_field, spec_hex_field};
use crate::decode::{field, optional_field, spec_field, spec_optional_field};
use crate::error::{ParseError, ParseFailure, WycheproofError};
use crate::json::{spec_find, Json};
use crate::named::{Named, named_field, named_list_field, spec_named_field, spec_named_list_field};
use crate::notes::{TestFlagInfo, TestFlagInfoView};
use crate::record::Record;
use crate::suite::{
    Case, check, count_matches, distinct_keys, from_json, Grouped, header_field,
    lemma_decoded_map_distinct, load_from_text, load_outcome, load_post, lookup, map_field,
    spec_from_json, spec_header_field, spec_lookup, spec_map_field, spec_total_tests, Suite, sum,
    test_counts,
};
use crate::test_keys::{RsaPublicJwk, RsaPublicJwkView};
use crate::text::str_eq;
use crate::vocab::{HashFunction, TestResult};

verus! {

/// The schema that a document of RSA PKCS1 verify tests declares.
#[derive(Debug, Clone, Hash, PartialEq, Eq)]
pub struct TestSchema {
    pub schema: String,
}

impl DeepView for TestSchema {
    type V = Seq<char>;

    open spec fn deep_view(&self) -> Seq<char> {
        self.schema@
    }
}

impl Named for TestSchema {
    open spec fn spec_vocabulary() -> Seq<char> {
        "RSA PKCS1 verify schema"@
    }

    fn vocabulary() -> (r: &'static str) {
        "RSA PKCS1 verify schema"
    }

    open spec fn spec_from_name(name: Seq<char>) -> Option<Seq<char>> {
        if name == "rsassa_pkcs1_verify_schema.json"@ {
            Some(name)
        } else {
            None
        }
    }

    fn from_name(name: &str) -> (r: Option<TestSchema>) {
        if str_eq(name, "rsassa_pkcs1_verify_schema.json") {
            Some(TestSchema { schema: name.to_owned() })
        } else {
            None
        }
    }

    fn same(&self, other: &TestSchema) -> (r: bool) {
        str_eq(self.schema.as_str(), other.schema.as_str())
    }
}

/// The test sets of this family.
#[allow(non_camel_case_types)]
#[derive(Debug, Copy, Clone, Hash, PartialEq, Eq, Structural)]
pub enum TestName {
    Rsa2048Sha224,
    Rsa2048Sha256,
    Rsa2048Sha3_224,
    Rsa2048Sha3_256,
    Rsa2048Sha3_384,
    Rsa2048Sha3_512,
    Rsa2048Sha384,
    Rsa2048Sha512_224,
    Rsa2048Sha512_256,
    Rsa2048Sha512,
    Rsa3072Sha256,
    Rsa3072Sha3_256,
    Rsa3072Sha3_384,
    Rsa3072Sha3_512,
    Rsa3072Sha384,
    Rsa3072Sha512_256,
    Rsa3072Sha512,
    Rsa4096Sha256,
    Rsa4096Sha384,
    Rsa4096Sha512_256,
    Rsa4096Sha512,
    Rsa8192Sha256,
    Rsa8192Sha384,
    Rsa8192Sha512,
}

impl DeepView for TestName {
    type V = TestName;

    open spec fn deep_view(&self) -> TestName {
        *self
    }
}

impl Named for TestName {
    open spec fn spec_vocabulary() -> Seq<char> {
        "TestName"@
    }

    fn vocabulary() -> (r: &'static str) {
        "TestName"
    }

    open spec fn spec_from_name(name: Seq<char>) -> Option<TestName> {
        if name == "rsa_signature_2048_sha224"@ { Some(TestName::Rsa2048Sha224) }
        else if name == "rsa_signature_2048_sha256"@ { Some(TestName::Rsa2048Sha256) }
        else if name == "rsa_signature_2048_sha3_224"@ { Some(TestName::Rsa2048Sha3_224) }
        else if name == "rsa_signature_2048_sha3_256"@ { Some(TestName::Rsa2048Sha3_256) }
        else if name == "rsa_signature_2048_sha3_384"@ { Some(TestName::Rsa2048Sha3_384) }
        else if name == "rsa_signature_2048_sha3_512"@ { Some(TestName::Rsa2048Sha3_512) }
        else if name == "rsa_signature_2048_sha384"@ { Some(TestName::Rsa2048Sha384) }
        else if name == "rsa_signature_2048_sha512_224"@ { Some(TestName::Rsa2048Sha512_224) }
        else if name == "rsa_signature_2048_sha512_256"@ { Some(TestName::Rsa2048Sha512_256) }
        else if name == "rsa_signature_2048_sha512"@ { Some(TestName::Rsa2048Sha512) }
        else if name == "rsa_signature_3072_sha256"@ { Some(TestName::Rsa3072Sha256) }
        else if name == "rsa_signature_3072_sha3_256"@ { Some(TestName::Rsa3072Sha3_256) }
        else if name == "rsa_signature_3072_sha3_384"@ { Some(TestName::Rsa3072Sha3_384) }
        else if name == "rsa_signature_3072_sha3_512"@ { Some(TestName::Rsa3072Sha3_512) }
        else if name == "rsa_signature_3072_sha384"@ { Some(TestName::Rsa3072Sha384) }
        else if name == "rsa_signature_3072_sha512_256"@ { Some(TestName::Rsa3072Sha512_256) }
        else if name == "rsa_signature_3072_sha512"@ { Some(TestName::Rsa3072Sha512) }
        else if name == "rsa_signature_4096_sha256"@ { Some(TestName::Rsa4096Sha256) }
        else if name == "rsa_signature_4096_sha384"@ { Some(TestName::Rsa4096Sha384) }
        else if name == "rsa_signature_4096_sha512_256"@ { Some(TestName::Rsa4096Sha512_256) }
        else if name == "rsa_signature_4096_sha512"@ { Some(TestName::Rsa4096Sha512) }
        else if name == "rsa_signature_8192_sha256"@ { Some(TestName::Rsa8192Sha256) }
        else if name == "rsa_signature_8192_sha384"@ { Some(TestName::Rsa8192Sha384) }
        else if name == "rsa_signature_8192_sha512"@ { Some(TestName::Rsa8192Sha512) }
        else { None }
    }

    fn from_name(name: &str) -> (r: Option<TestName>) {
        if str_eq(name, "rsa_signature_2048_sha224") { Some(TestName::Rsa2048Sha224) }
        else if str_eq(name, "rsa_signature_2048_sha256") { Some(TestName::Rsa2048Sha256) }
        else if str_eq(name, "rsa_signature_2048_sha3_224") { Some(TestName::Rsa2048Sha3_224) }
        else if str_eq(name, "rsa_signature_2048_sha3_256") { Some(TestName::Rsa2048Sha3_256) }
        else if str_eq(name, "rsa_signature_2048_sha3_384") { Some(TestName::Rsa2048Sha3_384) }
        else if str_eq(name, "rsa_signature_2048_sha3_512") { Some(TestName::Rsa2048Sha3_512) }
        else if str_eq(name, "rsa_signature_2048_sha384") { Some(TestName::Rsa2048Sha384) }
        else if str_eq(name, "rsa_signature_2048_sha512_224") { Some(TestName::Rsa2048Sha512_224) }
        else if str_eq(name, "rsa_signature_2048_sha512_256") { Some(TestName::Rsa2048Sha512_256) }
        else if str_eq(name, "rsa_signature_2048_sha512") { Some(TestName::Rsa2048Sha512) }
        else if str_eq(name, "rsa_signature_3072_sha256") { Some(TestName::Rsa3072Sha256) }
        else if str_eq(name, "rsa_signature_3072_sha3_256") { Some(TestName::Rsa3072Sha3_256) }
        else if str_eq(name, "rsa_signature_3072_sha3_384") { Some(TestName::Rsa3072Sha3_384) }
        else if str_eq(name, "rsa_signature_3072_sha3_512") { Some(TestName::Rsa3072Sha3_512) }
        else if str_eq(name, "rsa_signature_3072_sha384") { Some(TestName::Rsa3072Sha384) }
        else if str_eq(name, "rsa_signature_3072_sha512_256") { Some(TestName::Rsa3072Sha512_256) }
        else if str_eq(name, "rsa_signature_3072_sha512") { Some(TestName::Rsa3072Sha512) }
        else if str_eq(name, "rsa_signature_4096_sha256") { Some(TestName::Rsa4096Sha256) }
        else if str_eq(name, "rsa_signature_4096_sha384") { Some(TestName::Rsa4096Sha384) }
        else if str_eq(name, "rsa_signature_4096_sha512_256") { Some(TestName::Rsa4096Sha512_256) }
        else if str_eq(name, "rsa_signature_4096_sha512") { Some(TestName::Rsa4096Sha512) }
        else if str_eq(name, "rsa_signature_8192_sha256") { Some(TestName::Rsa8192Sha256) }
        else if str_eq(name, "rsa_signature_8192_sha384") { Some(TestName::Rsa8192Sha384) }
        else if str_eq(name, "rsa_signature_8192_sha512") { Some(TestName::Rsa8192Sha512) }
        else { None }
    }

    fn same(&self, other: &TestName) -> (r: bool) {
        *self == *other
    }
}

impl TestName {
    /// The name under which the test set is kept.
    pub open spec fn spec_name(self) -> Seq<char> {
        match self {
            TestName::Rsa2048Sha224 => "rsa_signature_2048_sha224"@,
            TestName::Rsa2048Sha256 => "rsa_signature_2048_sha256"@,
            TestName::Rsa2048Sha3_224 => "rsa_signature_2048_sha3_224"@,
            TestName::Rsa2048Sha3_256 => "rsa_signature_2048_sha3_256"@,
            TestName::Rsa2048Sha3_384 => "rsa_signature_2048_sha3_384"@,
            TestName::Rsa2048Sha3_512 => "rsa_signature_2048_sha3_512"@,
            TestName::Rsa2048Sha384 => "rsa_signature_2048_sha384"@,
            TestName::Rsa2048Sha512_224 => "rsa_signature_2048_sha512_224"@,
            TestName::Rsa2048Sha512_256 => "rsa_signature_2048_sha512_256"@,
            TestName::Rsa2048Sha512 => "rsa_signature_2048_sha512"@,
            TestName::Rsa3072Sha256 => "rsa_signature_3072_sha256"@,
            TestName::Rsa3072Sha3_256 => "rsa_signature_3072_sha3_256"@,
            TestName::Rsa3072Sha3_384 => "rsa_signature_3072_sha3_384"@,
            TestName::Rsa3072Sha3_512 => "rsa_signature_3072_sha3_512"@,
            TestName::Rsa3072Sha384 => "rsa_signature_3072_sha384"@,
            TestName::Rsa3072Sha512_256 => "rsa_signature_3072_sha512_256"@,
            TestName::Rsa3072Sha512 => "rsa_signature_3072_sha512"@,
            TestName::Rsa4096Sha256 => "rsa_signature_4096_sha256"@,
            TestName::Rsa4096Sha384 => "rsa_signature_4096_sha384"@,
            TestName::Rsa4096Sha512_256 => "rsa_signature_4096_sha512_256"@,
            TestName::Rsa4096Sha512 => "rsa_signature_4096_sha512"@,
            TestName::Rsa8192Sha256 => "rsa_signature_8192_sha256"@,
            TestName::Rsa8192Sha384 => "rsa_signature_8192_sha384"@,
            TestName::Rsa8192Sha512 => "rsa_signature_8192_sha512"@,
        }
    }

    pub fn name(&self) -> (r: &'static str)
        ensures
            r@ == self.spec_name(),
    {
        match self {
            TestName::Rsa2048Sha224 => "rsa_signature_2048_sha224",
            TestName::Rsa2048Sha256 => "rsa_signature_2048_sha256",
            TestName::Rsa2048Sha3_224 => "rsa_signature_2048_sha3_224",
            TestName::Rsa2048Sha3_256 => "rsa_signature_2048_sha3_256",
            TestName::Rsa2048Sha3_384 => "rsa_signature_2048_sha3_384",
            TestName::Rsa2048Sha3_512 => "rsa_signature_2048_sha3_512",
            TestName::Rsa2048Sha384 => "rsa_signature_2048_sha384",
            TestName::Rsa2048Sha512_224 => "rsa_signature_2048_sha512_224",
            TestName::Rsa2048Sha512_256 => "rsa_signature_2048_sha512_256",
            TestName::Rsa2048Sha512 => "rsa_signature_2048_sha512",
            TestName::Rsa3072Sha256 => "rsa_signature_3072_sha256",
            TestName::Rsa3072Sha3_256 => "rsa_signature_3072_sha3_256",
            TestName::Rsa3072Sha3_384 => "rsa_signature_3072_sha3_384",
            TestName::Rsa3072Sha3_512 => "rsa_signature_3072_sha3_512",
            TestName::Rsa3072Sha384 => "rsa_signature_3072_sha384",
            TestName::Rsa3072Sha512_256 => "rsa_signature_3072_sha512_256",
            TestName::Rsa3072Sha512 => "rsa_signature_3072_sha512",
            TestName::Rsa4096Sha256 => "rsa_signature_4096_sha256",
            TestName::Rsa4096Sha384 => "rsa_signature_4096_sha384",
            TestName::Rsa4096Sha512_256 => "rsa_signature_4096_sha512_256",
            TestName::Rsa4096Sha512 => "rsa_signature_4096_sha512",
            TestName::Rsa8192Sha256 => "rsa_signature_8192_sha256",
            TestName::Rsa8192Sha384 => "rsa_signature_8192_sha384",
            TestName::Rsa8192Sha512 => "rsa_signature_8192_sha512",
        }
    }

    /// Every test set of the family, in a fixed order.
    pub open spec fn spec_all() -> Seq<TestName> {
        seq![
            TestName::Rsa2048Sha224,
            TestName::Rsa2048Sha256,
            TestName::Rsa2048Sha3_224,
            TestName::Rsa2048Sha3_256,
            TestName::Rsa2048Sha3_384,
            TestName::Rsa2048Sha3_512,
            TestName::Rsa2048Sha384,
            TestName::Rsa2048Sha512_224,
            TestName::Rsa2048Sha512_256,
            TestName::Rsa2048Sha512,
            TestName::Rsa3072Sha256,
            TestName::Rsa3072Sha3_256,
            TestName::Rsa3072Sha3_384,
            TestName::Rsa3072Sha3_512,
            TestName::Rsa3072Sha384,
            TestName::Rsa3072Sha512_256,
            TestName::Rsa3072Sha512,
            TestName::Rsa4096Sha256,
            TestName::Rsa4096Sha384,
            TestName::Rsa4096Sha512_256,
            TestName::Rsa4096Sha512,
            TestName::Rsa8192Sha256,
            TestName::Rsa8192Sha384,
            TestName::Rsa8192Sha512,
        ]
    }

    pub fn all() -> (r: Vec<TestName>)
        ensures
            r@ == Self::spec_all(),
    {
        let r = vec![
            TestName::Rsa2048Sha224,
            TestName::Rsa2048Sha256,
            TestName::Rsa2048Sha3_224,
            TestName::Rsa2048Sha3_256,
            TestName::Rsa2048Sha3_384,
            TestName::Rsa2048Sha3_512,
            TestName::Rsa2048Sha384,
            TestName::Rsa2048Sha512_224,
            TestName::Rsa2048Sha512_256,
            TestName::Rsa2048Sha512,
            TestName::Rsa3072Sha256,
            TestName::Rsa3072Sha3_256,
            TestName::Rsa3072Sha3_384,
            TestName::Rsa3072Sha3_512,
            TestName::Rsa3072Sha384,
            TestName::Rsa3072Sha512_256,
            TestName::Rsa3072Sha512,
            TestName::Rsa4096Sha256,
            TestName::Rsa4096Sha384,
            TestName::Rsa4096Sha512_256,
            TestName::Rsa4096Sha512,
            TestName::Rsa8192Sha256,
            TestName::Rsa8192Sha384,
            TestName::Rsa8192Sha512,
        ];
        assert(r@ =~= Self::spec_all());
        r
    }

    /// Finds a test set by its name.
    pub fn from_str(s: &str) -> (r: Result<TestName, WycheproofError>)
        ensures
            match r {
                Ok(t) => Self::spec_from_name(s@) == Some(t),
                Err(e) => Self::spec_from_name(s@) is None && e is NoDataSet,
            },
    {
        match Self::from_name(s) {
            Some(t) => Ok(t),
            None => Err(WycheproofError::NoDataSet),
        }
    }
}

impl std::str::FromStr for TestName {
    type Err = WycheproofError;

    fn from_str(s: &str) -> (r: Result<TestName, WycheproofError>)
        ensures
            match r {
                Ok(t) => TestName::spec_from_name(s@) == Some(t),
                Err(e) => TestName::spec_from_name(s@) is None && e is NoDataSet,
            },
    {
        TestName::from_str(s)
    }
}

/// Every test set is found again by its name.
pub proof fn lemma_name_round_trip(t: TestName)
    ensures
        TestName::spec_from_name(t.spec_name()) == Some(t),
{
    reveal_strlit("rsa_signature_2048_sha224");
    assert("rsa_signature_2048_sha224"@ =~= seq!['r', 's', 'a', '_', 's', 'i', 'g', 'n', 'a', 't', 'u', 'r', 'e', '_', '2', '0', '4', '8', '_', 's', 'h', 'a', '2', '2', '4']);
    reveal_strlit("rsa_signature_2048_sha256");
    assert("rsa_signature_2048_sha256"@ =~= seq!['r', 's', 'a', '_', 's', 'i', 'g', 'n', 'a', 't', 'u', 'r', 'e', '_', '2', '0', '4', '8', '_', 's', 'h', 'a', '2', '5', '6']);
    reveal_strlit("rsa_signature_2048_sha3_224");
    assert("rsa_signature_2048_sha3_224"@ =~= seq!['r', 's', 'a', '_', 's', 'i', 'g', 'n', 'a', 't', 'u', 'r', 'e', '_', '2', '0', '4', '8', '_', 's', 'h', 'a', '3', '_', '2', '2', '4']);
    reveal_strlit("rsa_signature_2048_sha3_256");
    assert("rsa_signature_2048_sha3_256"@ =~= seq!['r', 's', 'a', '_', 's', 'i', 'g', 'n', 'a', 't', 'u', 'r', 'e', '_', '2', '0', '4', '8', '_', 's', 'h', 'a', '3', '_', '2', '5', '6']);
    reveal_strlit("rsa_signature_2048_sha3_384");
    assert("rsa_signature_2048_sha3_384"@ =~= seq!['r', 's', 'a', '_', 's', 'i', 'g', 'n', 'a', 't', 'u', 'r', 'e', '_', '2', '0', '4', '8', '_', 's', 'h', 'a', '3', '_', '3', '8', '4']);
    reveal_strlit("rsa_signature_2048_sha3_512");
    assert("rsa_signature_2048_sha3_512"@ =~= seq!['r', 's', 'a', '_', 's', 'i', 'g', 'n', 'a', 't', 'u', 'r', 'e', '_', '2', '0', '4', '8', '_', 's', 'h', 'a', '3', '_', '5', '1', '2']);
    reveal_strlit("rsa_signature_2048_sha384");
    assert("rsa_signature_2048_sha384"@ =~= seq!['r', 's', 'a', '_', 's', 'i', 'g', 'n', 'a', 't', 'u', 'r', 'e', '_', '2', '0', '4', '8', '_', 's', 'h', 'a', '3', '8', '4']);
    reveal_strlit("rsa_signature_2048_sha512_224");
    assert("rsa_signature_2048_sha512_224"@ =~= seq!['r', 's', 'a', '_', 's', 'i', 'g', 'n', 'a', 't', 'u', 'r', 'e', '_', '2', '0', '4', '8', '_', 's', 'h', 'a', '5', '1', '2', '_', '2', '2', '4']);
    reveal_strlit("rsa_signature_2048_sha512_256");
    assert("rsa_signature_2048_sha512_256"@ =~= seq!['r', 's', 'a', '_', 's', 'i', 'g', 'n', 'a', 't', 'u', 'r', 'e', '_', '2', '0', '4', '8', '_', 's', 'h', 'a', '5', '1', '2', '_', '2', '5', '6']);
    reveal_strlit("rsa_signature_2048_sha512");
    assert("rsa_signature_2048_sha512"@ =~= seq!['r', 's', 'a', '_', 's', 'i', 'g', 'n', 'a', 't', 'u', 'r', 'e', '_', '2', '0', '4', '8', '_', 's', 'h', 'a', '5', '1', '2']);
    reveal_strlit("rsa_signature_3072_sha256");
    assert("rsa_signature_3072_sha256"@ =~= seq!['r', 's', 'a', '_', 's', 'i', 'g', 'n', 'a', 't', 'u', 'r', 'e', '_', '3', '0', '7', '2', '_', 's', 'h', 'a', '2', '5', '6']);
    reveal_strlit("rsa_signature_3072_sha3_256");
    assert("rsa_signature_3072_sha3_256"@ =~= seq!['r', 's', 'a', '_', 's', 'i', 'g', 'n', 'a', 't', 'u', 'r', 'e', '_', '3', '0', '7', '2', '_', 's', 'h', 'a', '3', '_', '2', '5', '6']);
    reveal_strlit("rsa_signature_3072_sha3_384");
    assert("rsa_signature_3072_sha3_384"@ =~= seq!['r', 's', 'a', '_', 's', 'i', 'g', 'n', 'a', 't', 'u', 'r', 'e', '_', '3', '0', '7', '2', '_', 's', 'h', 'a', '3', '_', '3', '8', '4']);
    reveal_strlit("rsa_signature_3072_sha3_512");
    assert("rsa_signature_3072_sha3_512"@ =~= seq!['r', 's', 'a', '_', 's', 'i', 'g', 'n', 'a', 't', 'u', 'r', 'e', '_', '3', '0', '7', '2', '_', 's', 'h', 'a', '3', '_', '5', '1', '2']);
    reveal_strlit("rsa_signature_3072_sha384");
    assert("rsa_signature_3072_sha384"@ =~= seq!['r', 's', 'a', '_', 's', 'i', 'g', 'n', 'a', 't', 'u', 'r', 'e', '_', '3', '0', '7', '2', '_', 's', 'h', 'a', '3', '8', '4']);
    reveal_strlit("rsa_signature_3072_sha512_256");
    assert("rsa_signature_3072_sha512_256"@ =~= seq!['r', 's', 'a', '_', 's', 'i', 'g', 'n', 'a', 't', 'u', 'r', 'e', '_', '3', '0', '7', '2', '_', 's', 'h', 'a', '5', '1', '2', '_', '2', '5', '6']);
    reveal_strlit("rsa_signature_3072_sha512");
    assert("rsa_signature_3072_sha512"@ =~= seq!['r', 's', 'a', '_', 's', 'i', 'g', 'n', 'a', 't', 'u', 'r', 'e', '_', '3', '0', '7', '2', '_', 's', 'h', 'a', '5', '1', '2']);
    reveal_strlit("rsa_signature_4096_sha256");
    assert("rsa_signature_4096_sha256"@ =~= seq!['r', 's', 'a', '_', 's', 'i', 'g', 'n', 'a', 't', 'u', 'r', 'e', '_', '4', '0', '9', '6', '_', 's', 'h', 'a', '2', '5', '6']);
    reveal_strlit("rsa_signature_4096_sha384");
    assert("rsa_signature_4096_sha384"@ =~= seq!['r', 's', 'a', '_', 's', 'i', 'g', 'n', 'a', 't', 'u', 'r', 'e', '_', '4', '0', '9', '6', '_', 's', 'h', 'a', '3', '8', '4']);
    reveal_strlit("rsa_signature_4096_sha512_256");
    assert("rsa_signature_4096_sha512_256"@ =~= seq!['r', 's', 'a', '_', 's', 'i', 'g', 'n', 'a', 't', 'u', 'r', 'e', '_', '4', '0', '9', '6', '_', 's', 'h', 'a', '5', '1', '2', '_', '2', '5', '6']);
    reveal_strlit("rsa_signature_4096_sha512");
    assert("rsa_signature_4096_sha512"@ =~= seq!['r', 's', 'a', '_', 's', 'i', 'g', 'n', 'a', 't', 'u', 'r', 'e', '_', '4', '0', '9', '6', '_', 's', 'h', 'a', '5', '1', '2']);
    reveal_strlit("rsa_signature_8192_sha256");
    assert("rsa_signature_8192_sha256"@ =~= seq!['r', 's', 'a', '_', 's', 'i', 'g', 'n', 'a', 't', 'u', 'r', 'e', '_', '8', '1', '9', '2', '_', 's', 'h', 'a', '2', '5', '6']);
    reveal_strlit("rsa_signature_8192_sha384");
    assert("rsa_signature_8192_sha384"@ =~= seq!['r', 's', 'a', '_', 's', 'i', 'g', 'n', 'a', 't', 'u', 'r', 'e', '_', '8', '1', '9', '2', '_', 's', 'h', 'a', '3', '8', '4']);
    reveal_strlit("rsa_signature_8192_sha512");
    assert("rsa_signature_8192_sha512"@ =~= seq!['r', 's', 'a', '_', 's', 'i', 'g', 'n', 'a', 't', 'u', 'r', 'e', '_', '8', '1', '9', '2', '_', 's', 'h', 'a', '5', '1', '2']);
}

/// Every test set is listed.
pub proof fn lemma_all_complete(t: TestName)
    ensures
        TestName::spec_all().contains(t),
{
    match t {
        TestName::Rsa2048Sha224 => assert(TestName::spec_all()[0] == t),
        TestName::Rsa2048Sha256 => assert(TestName::spec_all()[1] == t),
        TestName::Rsa2048Sha3_224 => assert(TestName::spec_all()[2] == t),
        TestName::Rsa2048Sha3_256 => assert(TestName::spec_all()[3] == t),
        TestName::Rsa2048Sha3_384 => assert(TestName::spec_all()[4] == t),
        TestName::Rsa2048Sha3_512 => assert(TestName::spec_all()[5] == t),
        TestName::Rsa2048Sha384 => assert(TestName::spec_all()[6] == t),
        TestName::Rsa2048Sha512_224 => assert(TestName::spec_all()[7] == t),
        TestName::Rsa2048Sha512_256 => assert(TestName::spec_all()[8] == t),
        TestName::Rsa2048Sha512 => assert(TestName::spec_all()[9] == t),
        TestName::Rsa3072Sha256 => assert(TestName::spec_all()[10] == t),
        TestName::Rsa3072Sha3_256 => assert(TestName::spec_all()[11] == t),
        TestName::Rsa3072Sha3_384 => assert(TestName::spec_all()[12] == t),
        TestName::Rsa3072Sha3_512 => assert(TestName::spec_all()[13] == t),
        TestName::Rsa3072Sha384 => assert(TestName::spec_all()[14] == t),
        TestName::Rsa3072Sha512_256 => assert(TestName::spec_all()[15] == t),
        TestName::Rsa3072Sha512 => assert(TestName::spec_all()[16] == t),
        TestName::Rsa4096Sha256 => assert(TestName::spec_all()[17] == t),
        TestName::Rsa4096Sha384 => assert(TestName::spec_all()[18] == t),
        TestName::Rsa4096Sha512_256 => assert(TestName::spec_all()[19] == t),
        TestName::Rsa4096Sha512 => assert(TestName::spec_all()[20] == t),
        TestName::Rsa8192Sha256 => assert(TestName::spec_all()[21] == t),
        TestName::Rsa8192Sha384 => assert(TestName::spec_all()[22] == t),
        TestName::Rsa8192Sha512 => assert(TestName::spec_all()[23] == t),
    }
}

/// The algorithms that a test set of this family is for.
#[derive(Debug, Copy, Clone, Hash, PartialEq, Eq, Structural)]
pub enum Algorithm {
    RsaPkcs1v15,
}

impl DeepView for Algorithm {
    type V = Algorithm;

    open spec fn deep_view(&self) -> Algorithm {
        *self
    }
}

impl Named for Algorithm {
    open spec fn spec_vocabulary() -> Seq<char> {
        "Algorithm"@
    }

    fn vocabulary() -> (r: &'static str) {
        "Algorithm"
    }

    open spec fn spec_from_name(name: Seq<char>) -> Option<Algorithm> {
        if name == "RSASSA-PKCS1-v1_5"@ { Some(Algorithm::RsaPkcs1v15) }
        else { None }
    }

    fn from_name(name: &str) -> (r: Option<Algorithm>) {
        if str_eq(name, "RSASSA-PKCS1-v1_5") { Some(Algorithm::RsaPkcs1v15) }
        else { None }
    }

    fn same(&self, other: &Algorithm) -> (r: bool) {
        *self == *other
    }
}

/// The edge case or bug class that a test probes.
#[derive(Debug, Copy, Clone, Hash, PartialEq, Eq, Structural)]
pub enum TestFlag {
    BerEncodedPadding,
    EdgeCaseSignature,
    InvalidAsnInPadding,
    InvalidPadding,
    InvalidSignature,
    MissingNull,
    ModifiedPadding,
    NoHash,
    ShortPadding,
    SignatureMalleability,
    SmallPublicKey,
    SmallSignature,
    WrongHash,
    WrongPrimitive,
}

impl DeepView for TestFlag {
    type V = TestFlag;

    open spec fn deep_view(&self) -> TestFlag {
        *self
    }
}

impl Named for TestFlag {
    open spec fn spec_vocabulary() -> Seq<char> {
        "TestFlag"@
    }

    fn vocabulary() -> (r: &'static str) {
        "TestFlag"
    }

    open spec fn spec_from_name(name: Seq<char>) -> Option<TestFlag> {
        if name == "BerEncodedPadding"@ { Some(TestFlag::BerEncodedPadding) }
        else if name == "EdgeCaseSignature"@ { Some(TestFlag::EdgeCaseSignature) }
        else if name == "InvalidAsnInPadding"@ { Some(TestFlag::InvalidAsnInPadding) }
        else if name == "InvalidPadding"@ { Some(TestFlag::InvalidPadding) }
        else if name == "InvalidSignature"@ { Some(TestFlag::InvalidSignature) }
        else if name == "MissingNull"@ { Some(TestFlag::MissingNull) }
        else if name == "ModifiedPadding"@ { Some(TestFlag::ModifiedPadding) }
        else if name == "NoHash"@ { Some(TestFlag::NoHash) }
        else if name == "ShortPadding"@ { Some(TestFlag::ShortPadding) }
        else if name == "SignatureMalleability"@ { Some(TestFlag::SignatureMalleability) }
        else if name == "SmallPublicKey"@ { Some(TestFlag::SmallPublicKey) }
        else if name == "SmallSignature"@ { Some(TestFlag::SmallSignature) }
        else if name == "WrongHash"@ { Some(TestFlag::WrongHash) }
        else if name == "WrongPrimitive"@ { Some(TestFlag::WrongPrimitive) }
        else { None }
    }

    fn from_name(name: &str) -> (r: Option<TestFlag>) {
        if str_eq(name, "BerEncodedPadding") { Some(TestFlag::BerEncodedPadding) }
        else if str_eq(name, "EdgeCaseSignature") { Some(TestFlag::EdgeCaseSignature) }
        else if str_eq(name, "InvalidAsnInPadding") { Some(TestFlag::InvalidAsnInPadding) }
        else if str_eq(name, "InvalidPadding") { Some(TestFlag::InvalidPadding) }
        else if str_eq(name, "InvalidSignature") { Some(TestFlag::InvalidSignature) }
        else if str_eq(name, "MissingNull") { Some(TestFlag::MissingNull) }
        else if str_eq(name, "ModifiedPadding") { Some(TestFlag::ModifiedPadding) }
        else if str_eq(name, "NoHash") { Some(TestFlag::NoHash) }
        else if str_eq(name, "ShortPadding") { Some(TestFlag::ShortPadding) }
        else if str_eq(name, "SignatureMalleability") { Some(TestFlag::SignatureMalleability) }
        else if str_eq(name, "SmallPublicKey") { Some(TestFlag::SmallPublicKey) }
        else if str_eq(name, "SmallSignature") { Some(TestFlag::SmallSignature) }
        else if str_eq(name, "WrongHash") { Some(TestFlag::WrongHash) }
        else if str_eq(name, "WrongPrimitive") { Some(TestFlag::WrongPrimitive) }
        else { None }
    }

    fn same(&self, other: &TestFlag) -> (r: bool) {
        *self == *other
    }
}

/// The tag of a test group; it holds no data.
#[derive(Debug, Copy, Clone, Hash, PartialEq, Eq, Structural)]
pub struct TestGroupTypeId {}

impl DeepView for TestGroupTypeId {
    type V = TestGroupTypeId;

    open spec fn deep_view(&self) -> TestGroupTypeId {
        *self
    }
}

impl Named for TestGroupTypeId {
    open spec fn spec_vocabulary() -> Seq<char> {
        "TestGroupTypeId"@
    }

    fn vocabulary() -> (r: &'static str) {
        "TestGroupTypeId"
    }

    open spec fn spec_from_name(name: Seq<char>) -> Option<TestGroupTypeId> {
        if name == "RsassaPkcs1Verify"@ {
            Some(TestGroupTypeId {})
        } else {
            None
        }
    }

    fn from_name(name: &str) -> (r: Option<TestGroupTypeId>) {
        if str_eq(name, "RsassaPkcs1Verify") {
            Some(TestGroupTypeId {})
        } else {
            None
        }
    }

    fn same(&self, other: &TestGroupTypeId) -> (r: bool) {
        true
    }
}

/// The key of a test group.
#[derive(Debug, Clone, Hash, PartialEq, Eq)]
pub struct TestKey {
    pub e: Vec<u8>,
    pub n: Vec<u8>,
}

/// The mathematical value of a [`TestKey`].
pub struct TestKeyView {
    pub e: Seq<u8>,
    pub n: Seq<u8>,
}

impl DeepView for TestKey {
    type V = TestKeyView;

    open spec fn deep_view(&self) -> TestKeyView {
        TestKeyView {
            e: self.e.deep_view(),
            n: self.n.deep_view(),
        }
    }
}

impl Record for TestKey {
    open spec fn spec_known_field(name: Seq<char>) -> bool {
        name == "publicExponent"@
            || name == "modulus"@
    }

    fn known_field(name: &str) -> (r: bool) {
        str_eq(name, "publicExponent")
            || str_eq(name, "modulus")
    }

    open spec fn spec_decode_fields(fields: Seq<(String, Json)>) -> Result<TestKeyView, ParseFailure> {
        let e = spec_hex_field(fields, "publicExponent"@);
        let n = spec_hex_field(fields, "modulus"@);
        if e is Err { Err(e->Err_0) }
        else if n is Err { Err(n->Err_0) }
        else {
            Ok(TestKeyView {
                e: e->Ok_0,
                n: n->Ok_0,
            })
        }
    }

    fn decode_fields(fields: &Vec<(String, Json)>) -> (r: Result<TestKey, ParseError>) {
        let e = hex_field(fields, "publicExponent")?;
        let n = hex_field(fields, "modulus")?;
        Ok(TestKey { e, n })
    }
}

/// One test case.
#[derive(Debug, Clone, Hash, PartialEq, Eq)]
pub struct Test {
    pub tc_id: usize,
    pub comment: String,
    pub msg: Vec<u8>,
    pub sig: Vec<u8>,
    pub result: TestResult,
    pub flags: Vec<TestFlag>,
}

/// The mathematical value of a [`Test`].
pub struct TestView {
    pub tc_id: usize,
    pub comment: Seq<char>,
    pub msg: Seq<u8>,
    pub sig: Seq<u8>,
    pub result: TestResult,
    pub flags: Seq<TestFlag>,
}

impl DeepView for Test {
    type V = TestView;

    open spec fn deep_view(&self) -> TestView {
        TestView {
            tc_id: self.tc_id.deep_view(),
            comment: self.comment.deep_view(),
            msg: self.msg.deep_view(),
            sig: self.sig.deep_view(),
            result: self.result.deep_view(),
            flags: self.flags.deep_view(),
        }
    }
}

impl Record for Test {
    open spec fn spec_known_field(name: Seq<char>) -> bool {
        name == "tcId"@
            || name == "comment"@
            || name == "msg"@
            || name == "sig"@
            || name == "result"@
            || name == "flags"@
    }

    fn known_field(name: &str) -> (r: bool) {
        str_eq(name, "tcId")
            || str_eq(name, "comment")
            || str_eq(name, "msg")
            || str_eq(name, "sig")
            || str_eq(name, "result")
            || str_eq(name, "flags")
    }

    open spec fn spec_decode_fields(fields: Seq<(String, Json)>) -> Result<TestView, ParseFailure> {
        let tc_id = spec_field::<usize>(fields, "tcId"@);
        let comment = spec_field::<String>(fields, "comment"@);
        let msg = spec_hex_field(fields, "msg"@);
        let sig = spec_hex_field(fields, "sig"@);
        let result = spec_named_field::<TestResult>(fields, "result"@);
        let flags = spec_named_list_field::<TestFlag>(fields, "flags"@);
        if tc_id is Err { Err(tc_id->Err_0) }
        else if comment is Err { Err(comment->Err_0) }
        else if msg is Err { Err(msg->Err_0) }
        else if sig is Err { Err(sig->Err_0) }
        else if result is Err { Err(result->Err_0) }
        else if flags is Err { Err(flags->Err_0) }
        else {
            Ok(TestView {
                tc_id: tc_id->Ok_0,
                comment: comment->Ok_0,
                msg: msg->Ok_0,
                sig: sig->Ok_0,
                result: result->Ok_0,
                flags: flags->Ok_0,
            })
        }
    }

    fn decode_fields(fields: &Vec<(String, Json)>) -> (r: Result<Test, ParseError>) {
        let tc_id = field::<usize>(fields, "tcId")?;
        let comment = field::<String>(fields, "comment")?;
        let msg = hex_field(fields, "msg")?;
        let sig = hex_field(fields, "sig")?;
        let result = named_field::<TestResult>(fields, "result")?;
        let flags = named_list_field::<TestFlag>(fields, "flags")?;
        Ok(Test { tc_id, comment, msg, sig, result, flags })
    }
}

/// Tests that share the configuration of their group.
#[derive(Debug, Clone, Hash, PartialEq, Eq)]
pub struct TestGroup {
    pub key: TestKey,
    pub asn_key: Vec<u8>,
    pub der: Vec<u8>,
    pub jwk: Option<RsaPublicJwk>,
    pub pem: String,
    pub key_size: usize,
    pub hash: HashFunction,
    pub test_type: TestGroupTypeId,
    pub tests: Vec<Test>,
}

/// The mathematical value of a [`TestGroup`].
pub struct TestGroupView {
    pub key: TestKeyView,
    pub asn_key: Seq<u8>,
    pub der: Seq<u8>,
    pub jwk: Option<RsaPublicJwkView>,
    pub pem: Seq<char>,
    pub key_size: usize,
    pub hash: HashFunction,
    pub test_type: TestGroupTypeId,
    pub tests: Seq<TestView>,
}

impl DeepView for TestGroup {
    type V = TestGroupView;

    open spec fn deep_view(&self) -> TestGroupView {
        TestGroupView {
            key: self.key.deep_view(),
            asn_key: self.asn_key.deep_view(),
            der: self.der.deep_view(),
            jwk: self.jwk.deep_view(),
            pem: self.pem.deep_view(),
            key_size: self.key_size.deep_view(),
            hash: self.hash.deep_view(),
            test_type: self.test_type.deep_view(),
            tests: self.tests.deep_view(),
        }
    }
}

impl Record for TestGroup {
    open spec fn spec_known_field(name: Seq<char>) -> bool {
        name == "publicKey"@
            || name == "publicKeyAsn"@
            || name == "publicKeyDer"@
            || name == "keyJwk"@
            || name == "publicKeyPem"@
            || name == "keySize"@
            || name == "sha"@
            || name == "type"@
            || name == "tests"@
    }

    fn known_field(name: &str) -> (r: bool) {
        str_eq(name, "publicKey")
            || str_eq(name, "publicKeyAsn")
            || str_eq(name, "publicKeyDer")
            || str_eq(name, "keyJwk")
            || str_eq(name, "publicKeyPem")
            || str_eq(name, "keySize")
            || str_eq(name, "sha")
            || str_eq(name, "type")
            || str_eq(name, "tests")
    }

    open spec fn spec_decode_fields(fields: Seq<(String, Json)>) -> Result<TestGroupView, ParseFailure> {
        let key = spec_field::<TestKey>(fields, "publicKey"@);
        let asn_key = spec_hex_field(fields, "publicKeyAsn"@);
        let der = spec_hex_field(fields, "publicKeyDer"@);
        let jwk = spec_optional_field::<RsaPublicJwk>(fields, "keyJwk"@);
        let pem = spec_field::<String>(fields, "publicKeyPem"@);
        let key_size = spec_field::<usize>(fields, "keySize"@);
        let hash = spec_named_field::<HashFunction>(fields, "sha"@);
        let test_type = spec_named_field::<TestGroupTypeId>(fields, "type"@);
        let tests = spec_field::<Vec<Test>>(fields, "tests"@);
        if key is Err { Err(key->Err_0) }
        else if asn_key is Err { Err(asn_key->Err_0) }
        else if der is Err { Err(der->Err_0) }
        else if jwk is Err { Err(jwk->Err_0) }
        else if pem is Err { Err(pem->Err_0) }
        else if key_size is Err { Err(key_size->Err_0) }
        else if hash is Err { Err(hash->Err_0) }
        else if test_type is Err { Err(test_type->Err_0) }
        else if tests is Err { Err(tests->Err_0) }
        else {
            Ok(TestGroupView {
                key: key->Ok_0,
                asn_key: asn_key->Ok_0,
                der: der->Ok_0,
                jwk: jwk->Ok_0,
                pem: pem->Ok_0,
                key_size: key_size->Ok_0,
                hash: hash->Ok_0,
                test_type: test_type->Ok_0,
                tests: tests->Ok_0,
            })
        }
    }

    fn decode_fields(fields: &Vec<(String, Json)>) -> (r: Result<TestGroup, ParseError>) {
        let key = field::<TestKey>(fields, "publicKey")?;
        let asn_key = hex_field(fields, "publicKeyAsn")?;
        let der = hex_field(fields, "publicKeyDer")?;
        let jwk = optional_field::<RsaPublicJwk>(fields, "keyJwk")?;
        let pem = field::<String>(fields, "publicKeyPem")?;
        let key_size = field::<usize>(fields, "keySize")?;
        let hash = named_field::<HashFunction>(fields, "sha")?;
        let test_type = named_field::<TestGroupTypeId>(fields, "type")?;
        let tests = field::<Vec<Test>>(fields, "tests")?;
        Ok(TestGroup { key, asn_key, der, jwk, pem, key_size, hash, test_type, tests })
    }
}

/// A set of RSA PKCS1 verify tests.
#[derive(Debug, Clone, Hash, PartialEq, Eq)]
pub struct TestSet {
    pub algorithm: Algorithm,
    pub generator_version: String,
    pub number_of_tests: usize,
    pub header: String,
    pub notes: Vec<(TestFlag, TestFlagInfo)>,
    pub schema: TestSchema,
    pub test_groups: Vec<TestGroup>,
}

/// The mathematical value of a [`TestSet`].
pub struct TestSetView {
    pub algorithm: Algorithm,
    pub generator_version: Seq<char>,
    pub number_of_tests: usize,
    pub header: Seq<char>,
    pub notes: Seq<(TestFlag, TestFlagInfoView)>,
    pub schema: Seq<char>,
    pub test_groups: Seq<TestGroupView>,
}

impl DeepView for TestSet {
    type V = TestSetView;

    open spec fn deep_view(&self) -> TestSetView {
        TestSetView {
            algorithm: self.algorithm.deep_view(),
            generator_version: self.generator_version.deep_view(),
            number_of_tests: self.number_of_tests.deep_view(),
            header: self.header.deep_view(),
            notes: self.notes.deep_view(),
            schema: self.schema.deep_view(),
            test_groups: self.test_groups.deep_view(),
        }
    }
}

impl Record for TestSet {
    open spec fn spec_known_field(name: Seq<char>) -> bool {
        name == "algorithm"@
            || name == "generatorVersion"@
            || name == "numberOfTests"@
            || name == "header"@
            || name == "notes"@
            || name == "schema"@
            || name == "testGroups"@
    }

    fn known_field(name: &str) -> (r: bool) {
        str_eq(name, "algorithm")
            || str_eq(name, "generatorVersion")
            || str_eq(name, "numberOfTests")
            || str_eq(name, "header")
            || str_eq(name, "notes")
            || str_eq(name, "schema")
            || str_eq(name, "testGroups")
    }

    open spec fn spec_decode_fields(fields: Seq<(String, Json)>) -> Result<TestSetView, ParseFailure> {
        let algorithm = spec_named_field::<Algorithm>(fields, "algorithm"@);
        let generator_version = spec_field::<String>(fields, "generatorVersion"@);
        let number_of_tests = spec_field::<usize>(fields, "numberOfTests"@);
        let header = spec_header_field(fields, "header"@);
        let notes = spec_map_field::<TestFlag, TestFlagInfo>(fields, "notes"@);
        let schema = spec_named_field::<TestSchema>(fields, "schema"@);
        let test_groups = spec_field::<Vec<TestGroup>>(fields, "testGroups"@);
        if algorithm is Err { Err(algorithm->Err_0) }
        else if generator_version is Err { Err(generator_version->Err_0) }
        else if number_of_tests is Err { Err(number_of_tests->Err_0) }
        else if header is Err { Err(header->Err_0) }
        else if notes is Err { Err(notes->Err_0) }
        else if schema is Err { Err(schema->Err_0) }
        else if test_groups is Err { Err(test_groups->Err_0) }
        else {
            Ok(TestSetView {
                algorithm: algorithm->Ok_0,
                generator_version: generator_version->Ok_0,
                number_of_tests: number_of_tests->Ok_0,
                header: header->Ok_0,
                notes: notes->Ok_0,
                schema: schema->Ok_0,
                test_groups: test_groups->Ok_0,
            })
        }
    }

    fn decode_fields(fields: &Vec<(String, Json)>) -> (r: Result<TestSet, ParseError>) {
        let algorithm = named_field::<Algorithm>(fields, "algorithm")?;
        let generator_version = field::<String>(fields, "generatorVersion")?;
        let number_of_tests = field::<usize>(fields, "numberOfTests")?;
        let header = header_field(fields, "header")?;
        let notes = map_field::<TestFlag, TestFlagInfo>(fields, "notes")?;
        let schema = named_field::<TestSchema>(fields, "schema")?;
        let test_groups = field::<Vec<TestGroup>>(fields, "testGroups")?;
        Ok(TestSet { algorithm, generator_version, number_of_tests, header, notes, schema, test_groups })
    }
}

impl Case for Test {
    type Flag = TestFlag;

    proof fn lemma_flags_decoded(fields: Seq<(String, Json)>) {
    }
}

impl Grouped for TestGroup {
    type Test = Test;

    type Tag = TestGroupTypeId;

    open spec fn spec_test_count(&self) -> nat {
        self.tests@.len()
    }

    fn test_count(&self) -> (n: usize) {
        self.tests.len()
    }

    proof fn lemma_members_decoded(fields: Seq<(String, Json)>) {
    }
}

impl Suite for TestSet {
    type Group = TestGroup;

    type Schema = TestSchema;

    open spec fn spec_declared_tests(&self) -> nat {
        self.number_of_tests as nat
    }

    open spec fn spec_actual_tests(&self) -> nat {
        spec_total_tests(self.test_groups@)
    }

    fn counts_match(&self) -> (ok: bool) {
        count_matches(self.number_of_tests, &self.test_groups)
    }

    open spec fn spec_consistent(v: TestSetView) -> bool {
        v.number_of_tests == sum(Seq::new(v.test_groups.len(), |i: int| v.test_groups[i].tests.len()))
    }

    proof fn lemma_consistent(&self) {
        assert(test_counts(self.test_groups@) =~= Seq::new(
            self.deep_view().test_groups.len(),
            |i: int| self.deep_view().test_groups[i].tests.len(),
        ));
    }

    open spec fn spec_notes_distinct(v: TestSetView) -> bool {
        distinct_keys(v.notes)
    }

    proof fn lemma_members_decoded(fields: Seq<(String, Json)>) {
        lemma_decoded_map_distinct::<TestFlag, TestFlagInfo>(spec_find(fields, "notes"@)->Some_0);
    }
}

impl TestSet {
    /// Accepts a test set whose declared count is the number of its tests.
    pub fn check(obj: TestSet) -> (r: Result<TestSet, WycheproofError>)
        ensures
            r is Ok <==> obj.number_of_tests == spec_total_tests(obj.test_groups@),
            r is Ok ==> r->Ok_0 == obj,
            r is Err ==> r->Err_0 is InvalidData,
    {
        check(obj)
    }

    /// Reads and checks a test set from a JSON value.
    pub fn from_json(j: &Json) -> (r: Result<TestSet, WycheproofError>)
        ensures
            load_outcome(r) == spec_from_json::<TestSet>(*j),
            r is Ok ==> r->Ok_0.number_of_tests == spec_total_tests(r->Ok_0.test_groups@),
    {
        from_json::<TestSet>(j)
    }

    /// Reads and checks a test set from the text of its document.
    pub fn load_from_text(text: &str) -> (r: Result<TestSet, WycheproofError>)
        ensures
            load_post::<TestSet>(text@, r),
            r is Ok ==> r->Ok_0.number_of_tests == spec_total_tests(r->Ok_0.test_groups@),
    {
        load_from_text::<TestSet>(text)
    }

    /// What the document says of a flag, if it says anything.
    pub fn note(&self, flag: TestFlag) -> (r: Option<&TestFlagInfo>)
        ensures
            r.deep_view() == spec_lookup(self.deep_view().notes, flag),
    {
        lookup(&self.notes, &flag)
    }
}

} // verus!
