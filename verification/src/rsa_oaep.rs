//! RSA OAEP decryption tests.

use vstd::prelude::*;
use crate::bytes::{hex_field, spec_hex_field};
use crate::decode::{field, optional_field, spec_field, spec_optional_field};
use crate::error::{ParseError, ParseFailure, WycheproofError};
use crate::json::{spec_find, Json};
use crate::named::{Named, named_field, named_list_field, spec_named_field, spec_named_list_field};
use crate::notes::{TestFlagInfo, TestFlagInfoView};
use crate::record::Record;
use crate::suite::{
    Case, check, count_matches, distinct_keys, from_json, Grouped, header_field,
    lemma_decoded_map_distinct, load_from_text, load_outcome, load_post, lookup, map_field,
    spec_from_json, spec_header_field, spec_lookup, spec_map_field, spec_total_tests, Suite, sum,
    test_counts,
};
use crate::test_keys::{RsaPrivateJwk, RsaPrivateJwkView};
use crate::text::str_eq;
use crate::vocab::{HashFunction, Mgf, TestResult};

verus! {

/// The schema that a document of RSA OAEP decrypt tests declares.
#[derive(Debug, Clone, Hash, PartialEq, Eq)]
pub struct TestSchema {
    pub schema: String,
}

impl DeepView for TestSchema {
    type V = Seq<char>;

    open spec fn deep_view(&self) -> Seq<char> {
        self.schema@
    }
}

impl Named for TestSchema {
    open spec fn spec_vocabulary() -> Seq<char> {
        "RSA OAEP decrypt schema"@
    }

    fn vocabulary() -> (r: &'static str) {
        "RSA OAEP decrypt schema"
    }

    open spec fn spec_from_name(name: Seq<char>) -> Option<Seq<char>> {
        if name == "rsaes_oaep_decrypt_schema.json"@ {
            Some(name)
        } else {
            None
        }
    }

    fn from_name(name: &str) -> (r: Option<TestSchema>) {
        if str_eq(name, "rsaes_oaep_decrypt_schema.json") {
            Some(TestSchema { schema: name.to_owned() })
        } else {
            None
        }
    }

    fn same(&self, other: &TestSchema) -> (r: bool) {
        str_eq(self.schema.as_str(), other.schema.as_str())
    }
}

/// The test sets of this family.
#[allow(non_camel_case_types)]
#[derive(Debug, Copy, Clone, Hash, PartialEq, Eq, Structural)]
pub enum TestName {
    Rsa2048Sha1Mgf1Sha1,
    Rsa2048Sha224Mgf1Sha1,
    Rsa2048Sha224Mgf1Sha224,
    Rsa2048Sha256Mgf1Sha1,
    Rsa2048Sha256Mgf1Sha256,
    Rsa2048Sha384Mgf1Sha1,
    Rsa2048Sha384Mgf1Sha384,
    Rsa2048Sha512Mgf1Sha1,
    Rsa2048Sha512Mgf1Sha512,
    Rsa2048Sha512_224Mgf1Sha1,
    Rsa2048Sha512_224Mgf1Sha512_224,
    Rsa3072Sha256Mgf1Sha1,
    Rsa3072Sha256Mgf1Sha256,
    Rsa3072Sha512Mgf1Sha1,
    Rsa3072Sha512Mgf1Sha512,
    Rsa3072Sha512_256Mgf1Sha1,
    Rsa3072Sha512_256Mgf1Sha512_256,
    Rsa4096Sha256Mgf1Sha1,
    Rsa4096Sha256Mgf1Sha256,
    Rsa4096Sha512Mgf1Sha1,
    Rsa4096Sha512Mgf1Sha512,
    RsaMisc,
}

impl DeepView for TestName {
    type V = TestName;

    open spec fn deep_view(&self) -> TestName {
        *self
    }
}

impl Named for TestName {
    open spec fn spec_vocabulary() -> Seq<char> {
        "TestName"@
    }

    fn vocabulary() -> (r: &'static str) {
        "TestName"
    }

    open spec fn spec_from_name(name: Seq<char>) -> Option<TestName> {
        if name == "rsa_oaep_2048_sha1_mgf1sha1"@ { Some(TestName::Rsa2048Sha1Mgf1Sha1) }
        else if name == "rsa_oaep_2048_sha224_mgf1sha1"@ { Some(TestName::Rsa2048Sha224Mgf1Sha1) }
        else if name == "rsa_oaep_2048_sha224_mgf1sha224"@ { Some(TestName::Rsa2048Sha224Mgf1Sha224) }
        else if name == "rsa_oaep_2048_sha256_mgf1sha1"@ { Some(TestName::Rsa2048Sha256Mgf1Sha1) }
        else if name == "rsa_oaep_2048_sha256_mgf1sha256"@ { Some(TestName::Rsa2048Sha256Mgf1Sha256) }
        else if name == "rsa_oaep_2048_sha384_mgf1sha1"@ { Some(TestName::Rsa2048Sha384Mgf1Sha1) }
        else if name == "rsa_oaep_2048_sha384_mgf1sha384"@ { Some(TestName::Rsa2048Sha384Mgf1Sha384) }
        else if name == "rsa_oaep_2048_sha512_mgf1sha1"@ { Some(TestName::Rsa2048Sha512Mgf1Sha1) }
        else if name == "rsa_oaep_2048_sha512_mgf1sha512"@ { Some(TestName::Rsa2048Sha512Mgf1Sha512) }
        else if name == "rsa_oaep_2048_sha512_224_mgf1sha1"@ { Some(TestName::Rsa2048Sha512_224Mgf1Sha1) }
        else if name == "rsa_oaep_2048_sha512_224_mgf1sha512_224"@ { Some(TestName::Rsa2048Sha512_224Mgf1Sha512_224) }
        else if name == "rsa_oaep_3072_sha256_mgf1sha1"@ { Some(TestName::Rsa3072Sha256Mgf1Sha1) }
        else if name == "rsa_oaep_3072_sha256_mgf1sha256"@ { Some(TestName::Rsa3072Sha256Mgf1Sha256) }
        else if name == "rsa_oaep_3072_sha512_mgf1sha1"@ { Some(TestName::Rsa3072Sha512Mgf1Sha1) }
        else if name == "rsa_oaep_3072_sha512_mgf1sha512"@ { Some(TestName::Rsa3072Sha512Mgf1Sha512) }
        else if name == "rsa_oaep_3072_sha512_256_mgf1sha1"@ { Some(TestName::Rsa3072Sha512_256Mgf1Sha1) }
        else if name == "rsa_oaep_3072_sha512_256_mgf1sha512_256"@ { Some(TestName::Rsa3072Sha512_256Mgf1Sha512_256) }
        else if name == "rsa_oaep_4096_sha256_mgf1sha1"@ { Some(TestName::Rsa4096Sha256Mgf1Sha1) }
        else if name == "rsa_oaep_4096_sha256_mgf1sha256"@ { Some(TestName::Rsa4096Sha256Mgf1Sha256) }
        else if name == "rsa_oaep_4096_sha512_mgf1sha1"@ { Some(TestName::Rsa4096Sha512Mgf1Sha1) }
        else if name == "rsa_oaep_4096_sha512_mgf1sha512"@ { Some(TestName::Rsa4096Sha512Mgf1Sha512) }
        else if name == "rsa_oaep_misc"@ { Some(TestName::RsaMisc) }
        else { None }
    }

    fn from_name(name: &str) -> (r: Option<TestName>) {
        if str_eq(name, "rsa_oaep_2048_sha1_mgf1sha1") { Some(TestName::Rsa2048Sha1Mgf1Sha1) }
        else if str_eq(name, "rsa_oaep_2048_sha224_mgf1sha1") { Some(TestName::Rsa2048Sha224Mgf1Sha1) }
        else if str_eq(name, "rsa_oaep_2048_sha224_mgf1sha224") { Some(TestName::Rsa2048Sha224Mgf1Sha224) }
        else if str_eq(name, "rsa_oaep_2048_sha256_mgf1sha1") { Some(TestName::Rsa2048Sha256Mgf1Sha1) }
        else if str_eq(name, "rsa_oaep_2048_sha256_mgf1sha256") { Some(TestName::Rsa2048Sha256Mgf1Sha256) }
        else if str_eq(name, "rsa_oaep_2048_sha384_mgf1sha1") { Some(TestName::Rsa2048Sha384Mgf1Sha1) }
        else if str_eq(name, "rsa_oaep_2048_sha384_mgf1sha384") { Some(TestName::Rsa2048Sha384Mgf1Sha384) }
        else if str_eq(name, "rsa_oaep_2048_sha512_mgf1sha1") { Some(TestName::Rsa2048Sha512Mgf1Sha1) }
        else if str_eq(name, "rsa_oaep_2048_sha512_mgf1sha512") { Some(TestName::Rsa2048Sha512Mgf1Sha512) }
        else if str_eq(name, "rsa_oaep_2048_sha512_224_mgf1sha1") { Some(TestName::Rsa2048Sha512_224Mgf1Sha1) }
        else if str_eq(name, "rsa_oaep_2048_sha512_224_mgf1sha512_224") { Some(TestName::Rsa2048Sha512_224Mgf1Sha512_224) }
        else if str_eq(name, "rsa_oaep_3072_sha256_mgf1sha1") { Some(TestName::Rsa3072Sha256Mgf1Sha1) }
        else if str_eq(name, "rsa_oaep_3072_sha256_mgf1sha256") { Some(TestName::Rsa3072Sha256Mgf1Sha256) }
        else if str_eq(name, "rsa_oaep_3072_sha512_mgf1sha1") { Some(TestName::Rsa3072Sha512Mgf1Sha1) }
        else if str_eq(name, "rsa_oaep_3072_sha512_mgf1sha512") { Some(TestName::Rsa3072Sha512Mgf1Sha512) }
        else if str_eq(name, "rsa_oaep_3072_sha512_256_mgf1sha1") { Some(TestName::Rsa3072Sha512_256Mgf1Sha1) }
        else if str_eq(name, "rsa_oaep_3072_sha512_256_mgf1sha512_256") { Some(TestName::Rsa3072Sha512_256Mgf1Sha512_256) }
        else if str_eq(name, "rsa_oaep_4096_sha256_mgf1sha1") { Some(TestName::Rsa4096Sha256Mgf1Sha1) }
        else if str_eq(name, "rsa_oaep_4096_sha256_mgf1sha256") { Some(TestName::Rsa4096Sha256Mgf1Sha256) }
        else if str_eq(name, "rsa_oaep_4096_sha512_mgf1sha1") { Some(TestName::Rsa4096Sha512Mgf1Sha1) }
        else if str_eq(name, "rsa_oaep_4096_sha512_mgf1sha512") { Some(TestName::Rsa4096Sha512Mgf1Sha512) }
        else if str_eq(name, "rsa_oaep_misc") { Some(TestName::RsaMisc) }
        else { None }
    }

    fn same(&self, other: &TestName) -> (r: bool) {
        *self == *other
    }
}

impl TestName {
    /// The name under which the test set is kept.
    pub open spec fn spec_name(self) -> Seq<char> {
        match self {
            TestName::Rsa2048Sha1Mgf1Sha1 => "rsa_oaep_2048_sha1_mgf1sha1"@,
            TestName::Rsa2048Sha224Mgf1Sha1 => "rsa_oaep_2048_sha224_mgf1sha1"@,
            TestName::Rsa2048Sha224Mgf1Sha224 => "rsa_oaep_2048_sha224_mgf1sha224"@,
            TestName::Rsa2048Sha256Mgf1Sha1 => "rsa_oaep_2048_sha256_mgf1sha1"@,
            TestName::Rsa2048Sha256Mgf1Sha256 => "rsa_oaep_2048_sha256_mgf1sha256"@,
            TestName::Rsa2048Sha384Mgf1Sha1 => "rsa_oaep_2048_sha384_mgf1sha1"@,
            TestName::Rsa2048Sha384Mgf1Sha384 => "rsa_oaep_2048_sha384_mgf1sha384"@,
            TestName::Rsa2048Sha512Mgf1Sha1 => "rsa_oaep_2048_sha512_mgf1sha1"@,
            TestName::Rsa2048Sha512Mgf1Sha512 => "rsa_oaep_2048_sha512_mgf1sha512"@,
            TestName::Rsa2048Sha512_224Mgf1Sha1 => "rsa_oaep_2048_sha512_224_mgf1sha1"@,
            TestName::Rsa2048Sha512_224Mgf1Sha512_224 => "rsa_oaep_2048_sha512_224_mgf1sha512_224"@,
            TestName::Rsa3072Sha256Mgf1Sha1 => "rsa_oaep_3072_sha256_mgf1sha1"@,
            TestName::Rsa3072Sha256Mgf1Sha256 => "rsa_oaep_3072_sha256_mgf1sha256"@,
            TestName::Rsa3072Sha512Mgf1Sha1 => "rsa_oaep_3072_sha512_mgf1sha1"@,
            TestName::Rsa3072Sha512Mgf1Sha512 => "rsa_oaep_3072_sha512_mgf1sha512"@,
            TestName::Rsa3072Sha512_256Mgf1Sha1 => "rsa_oaep_3072_sha512_256_mgf1sha1"@,
            TestName::Rsa3072Sha512_256Mgf1Sha512_256 => "rsa_oaep_3072_sha512_256_mgf1sha512_256"@,
            TestName::Rsa4096Sha256Mgf1Sha1 => "rsa_oaep_4096_sha256_mgf1sha1"@,
            TestName::Rsa4096Sha256Mgf1Sha256 => "rsa_oaep_4096_sha256_mgf1sha256"@,
            TestName::Rsa4096Sha512Mgf1Sha1 => "rsa_oaep_4096_sha512_mgf1sha1"@,
            TestName::Rsa4096Sha512Mgf1Sha512 => "rsa_oaep_4096_sha512_mgf1sha512"@,
            TestName::RsaMisc => "rsa_oaep_misc"@,
        }
    }

    pub fn name(&self) -> (r: &'static str)
        ensures
            r@ == self.spec_name(),
    {
        match self {
            TestName::Rsa2048Sha1Mgf1Sha1 => "rsa_oaep_2048_sha1_mgf1sha1",
            TestName::Rsa2048Sha224Mgf1Sha1 => "rsa_oaep_2048_sha224_mgf1sha1",
            TestName::Rsa2048Sha224Mgf1Sha224 => "rsa_oaep_2048_sha224_mgf1sha224",
            TestName::Rsa2048Sha256Mgf1Sha1 => "rsa_oaep_2048_sha256_mgf1sha1",
            TestName::Rsa2048Sha256Mgf1Sha256 => "rsa_oaep_2048_sha256_mgf1sha256",
            TestName::Rsa2048Sha384Mgf1Sha1 => "rsa_oaep_2048_sha384_mgf1sha1",
            TestName::Rsa2048Sha384Mgf1Sha384 => "rsa_oaep_2048_sha384_mgf1sha384",
            TestName::Rsa2048Sha512Mgf1Sha1 => "rsa_oaep_2048_sha512_mgf1sha1",
            TestName::Rsa2048Sha512Mgf1Sha512 => "rsa_oaep_2048_sha512_mgf1sha512",
            TestName::Rsa2048Sha512_224Mgf1Sha1 => "rsa_oaep_2048_sha512_224_mgf1sha1",
            TestName::Rsa2048Sha512_224Mgf1Sha512_224 => "rsa_oaep_2048_sha512_224_mgf1sha512_224",
            TestName::Rsa3072Sha256Mgf1Sha1 => "rsa_oaep_3072_sha256_mgf1sha1",
            TestName::Rsa3072Sha256Mgf1Sha256 => "rsa_oaep_3072_sha256_mgf1sha256",
            TestName::Rsa3072Sha512Mgf1Sha1 => "rsa_oaep_3072_sha512_mgf1sha1",
            TestName::Rsa3072Sha512Mgf1Sha512 => "rsa_oaep_3072_sha512_mgf1sha512",
            TestName::Rsa3072Sha512_256Mgf1Sha1 => "rsa_oaep_3072_sha512_256_mgf1sha1",
            TestName::Rsa3072Sha512_256Mgf1Sha512_256 => "rsa_oaep_3072_sha512_256_mgf1sha512_256",
            TestName::Rsa4096Sha256Mgf1Sha1 => "rsa_oaep_4096_sha256_mgf1sha1",
            TestName::Rsa4096Sha256Mgf1Sha256 => "rsa_oaep_4096_sha256_mgf1sha256",
            TestName::Rsa4096Sha512Mgf1Sha1 => "rsa_oaep_4096_sha512_mgf1sha1",
            TestName::Rsa4096Sha512Mgf1Sha512 => "rsa_oaep_4096_sha512_mgf1sha512",
            TestName::RsaMisc => "rsa_oaep_misc",
        }
    }

    /// Every test set of the family, in a fixed order.
    pub open spec fn spec_all() -> Seq<TestName> {
        seq![
            TestName::Rsa2048Sha1Mgf1Sha1,
            TestName::Rsa2048Sha224Mgf1Sha1,
            TestName::Rsa2048Sha224Mgf1Sha224,
            TestName::Rsa2048Sha256Mgf1Sha1,
            TestName::Rsa2048Sha256Mgf1Sha256,
            TestName::Rsa2048Sha384Mgf1Sha1,
            TestName::Rsa2048Sha384Mgf1Sha384,
            TestName::Rsa2048Sha512Mgf1Sha1,
            TestName::Rsa2048Sha512Mgf1Sha512,
            TestName::Rsa2048Sha512_224Mgf1Sha1,
            TestName::Rsa2048Sha512_224Mgf1Sha512_224,
            TestName::Rsa3072Sha256Mgf1Sha1,
            TestName::Rsa3072Sha256Mgf1Sha256,
            TestName::Rsa3072Sha512Mgf1Sha1,
            TestName::Rsa3072Sha512Mgf1Sha512,
            TestName::Rsa3072Sha512_256Mgf1Sha1,
            TestName::Rsa3072Sha512_256Mgf1Sha512_256,
            TestName::Rsa4096Sha256Mgf1Sha1,
            TestName::Rsa4096Sha256Mgf1Sha256,
            TestName::Rsa4096Sha512Mgf1Sha1,
            TestName::Rsa4096Sha512Mgf1Sha512,
            TestName::RsaMisc,
        ]
    }

    pub fn all() -> (r: Vec<TestName>)
        ensures
            r@ == Self::spec_all(),
    {
        let r = vec![
            TestName::Rsa2048Sha1Mgf1Sha1,
            TestName::Rsa2048Sha224Mgf1Sha1,
            TestName::Rsa2048Sha224Mgf1Sha224,
            TestName::Rsa2048Sha256Mgf1Sha1,
            TestName::Rsa2048Sha256Mgf1Sha256,
            TestName::Rsa2048Sha384Mgf1Sha1,
            TestName::Rsa2048Sha384Mgf1Sha384,
            TestName::Rsa2048Sha512Mgf1Sha1,
            TestName::Rsa2048Sha512Mgf1Sha512,
            TestName::Rsa2048Sha512_224Mgf1Sha1,
            TestName::Rsa2048Sha512_224Mgf1Sha512_224,
            TestName::Rsa3072Sha256Mgf1Sha1,
            TestName::Rsa3072Sha256Mgf1Sha256,
            TestName::Rsa3072Sha512Mgf1Sha1,
            TestName::Rsa3072Sha512Mgf1Sha512,
            TestName::Rsa3072Sha512_256Mgf1Sha1,
            TestName::Rsa3072Sha512_256Mgf1Sha512_256,
            TestName::Rsa4096Sha256Mgf1Sha1,
            TestName::Rsa4096Sha256Mgf1Sha256,
            TestName::Rsa4096Sha512Mgf1Sha1,
            TestName::Rsa4096Sha512Mgf1Sha512,
            TestName::RsaMisc,
        ];
        assert(r@ =~= Self::spec_all());
        r
    }

    /// Finds a test set by its name.
    pub fn from_str(s: &str) -> (r: Result<TestName, WycheproofError>)
        ensures
            match r {
                Ok(t) => Self::spec_from_name(s@) == Some(t),
                Err(e) => Self::spec_from_name(s@) is None && e is NoDataSet,
            },
    {
        match Self::from_name(s) {
            Some(t) => Ok(t),
            None => Err(WycheproofError::NoDataSet),
        }
    }
}

impl std::str::FromStr for TestName {
    type Err = WycheproofError;

    fn from_str(s: &str) -> (r: Result<TestName, WycheproofError>)
        ensures
            match r {
                Ok(t) => TestName::spec_from_name(s@) == Some(t),
                Err(e) => TestName::spec_from_name(s@) is None && e is NoDataSet,
            },
    {
        TestName::from_str(s)
    }
}

/// Every test set is found again by its name.
pub proof fn lemma_name_round_trip(t: TestName)
    ensures
        TestName::spec_from_name(t.spec_name()) == Some(t),
{
    reveal_strlit("rsa_oaep_2048_sha1_mgf1sha1");
    assert("rsa_oaep_2048_sha1_mgf1sha1"@ =~= seq!['r', 's', 'a', '_', 'o', 'a', 'e', 'p', '_', '2', '0', '4', '8', '_', 's', 'h', 'a', '1', '_', 'm', 'g', 'f', '1', 's', 'h', 'a', '1']);
    reveal_strlit("rsa_oaep_2048_sha224_mgf1sha1");
    assert("rsa_oaep_2048_sha224_mgf1sha1"@ =~= seq!['r', 's', 'a', '_', 'o', 'a', 'e', 'p', '_', '2', '0', '4', '8', '_', 's', 'h', 'a', '2', '2', '4', '_', 'm', 'g', 'f', '1', 's', 'h', 'a', '1']);
    reveal_strlit("rsa_oaep_2048_sha224_mgf1sha224");
    assert("rsa_oaep_2048_sha224_mgf1sha224"@ =~= seq!['r', 's', 'a', '_', 'o', 'a', 'e', 'p', '_', '2', '0', '4', '8', '_', 's', 'h', 'a', '2', '2', '4', '_', 'm', 'g', 'f', '1', 's', 'h', 'a', '2', '2', '4']);
    reveal_strlit("rsa_oaep_2048_sha256_mgf1sha1");
    assert("rsa_oaep_2048_sha256_mgf1sha1"@ =~= seq!['r', 's', 'a', '_', 'o', 'a', 'e', 'p', '_', '2', '0', '4', '8', '_', 's', 'h', 'a', '2', '5', '6', '_', 'm', 'g', 'f', '1', 's', 'h', 'a', '1']);
    reveal_strlit("rsa_oaep_2048_sha256_mgf1sha256");
    assert("rsa_oaep_2048_sha256_mgf1sha256"@ =~= seq!['r', 's', 'a', '_', 'o', 'a', 'e', 'p', '_', '2', '0', '4', '8', '_', 's', 'h', 'a', '2', '5', '6', '_', 'm', 'g', 'f', '1', 's', 'h', 'a', '2', '5', '6']);
    reveal_strlit("rsa_oaep_2048_sha384_mgf1sha1");
    assert("rsa_oaep_2048_sha384_mgf1sha1"@ =~= seq!['r', 's', 'a', '_', 'o', 'a', 'e', 'p', '_', '2', '0', '4', '8', '_', 's', 'h', 'a', '3', '8', '4', '_', 'm', 'g', 'f', '1', 's', 'h', 'a', '1']);
    reveal_strlit("rsa_oaep_2048_sha384_mgf1sha384");
    assert("rsa_oaep_2048_sha384_mgf1sha384"@ =~= seq!['r', 's', 'a', '_', 'o', 'a', 'e', 'p', '_', '2', '0', '4', '8', '_', 's', 'h', 'a', '3', '8', '4', '_', 'm', 'g', 'f', '1', 's', 'h', 'a', '3', '8', '4']);
    reveal_strlit("rsa_oaep_2048_sha512_mgf1sha1");
    assert("rsa_oaep_2048_sha512_mgf1sha1"@ =~= seq!['r', 's', 'a', '_', 'o', 'a', 'e', 'p', '_', '2', '0', '4', '8', '_', 's', 'h', 'a', '5', '1', '2', '_', 'm', 'g', 'f', '1', 's', 'h', 'a', '1']);
    reveal_strlit("rsa_oaep_2048_sha512_mgf1sha512");
    assert("rsa_oaep_2048_sha512_mgf1sha512"@ =~= seq!['r', 's', 'a', '_', 'o', 'a', 'e', 'p', '_', '2', '0', '4', '8', '_', 's', 'h', 'a', '5', '1', '2', '_', 'm', 'g', 'f', '1', 's', 'h', 'a', '5', '1', '2']);
    reveal_strlit("rsa_oaep_2048_sha512_224_mgf1sha1");
    assert("rsa_oaep_2048_sha512_224_mgf1sha1"@ =~= seq!['r', 's', 'a', '_', 'o', 'a', 'e', 'p', '_', '2', '0', '4', '8', '_', 's', 'h', 'a', '5', '1', '2', '_', '2', '2', '4', '_', 'm', 'g', 'f', '1', 's', 'h', 'a', '1']);
    reveal_strlit("rsa_oaep_2048_sha512_224_mgf1sha512_224");
    assert("rsa_oaep_2048_sha512_224_mgf1sha512_224"@ =~= seq!['r', 's', 'a', '_', 'o', 'a', 'e', 'p', '_', '2', '0', '4', '8', '_', 's', 'h', 'a', '5', '1', '2', '_', '2', '2', '4', '_', 'm', 'g', 'f', '1', 's', 'h', 'a', '5', '1', '2', '_', '2', '2', '4']);
    reveal_strlit("rsa_oaep_3072_sha256_mgf1sha1");
    assert("rsa_oaep_3072_sha256_mgf1sha1"@ =~= seq!['r', 's', 'a', '_', 'o', 'a', 'e', 'p', '_', '3', '0', '7', '2', '_', 's', 'h', 'a', '2', '5', '6', '_', 'm', 'g', 'f', '1', 's', 'h', 'a', '1']);
    reveal_strlit("rsa_oaep_3072_sha256_mgf1sha256");
    assert("rsa_oaep_3072_sha256_mgf1sha256"@ =~= seq!['r', 's', 'a', '_', 'o', 'a', 'e', 'p', '_', '3', '0', '7', '2', '_', 's', 'h', 'a', '2', '5', '6', '_', 'm', 'g', 'f', '1', 's', 'h', 'a', '2', '5', '6']);
    reveal_strlit("rsa_oaep_3072_sha512_mgf1sha1");
    assert("rsa_oaep_3072_sha512_mgf1sha1"@ =~= seq!['r', 's', 'a', '_', 'o', 'a', 'e', 'p', '_', '3', '0', '7', '2', '_', 's', 'h', 'a', '5', '1', '2', '_', 'm', 'g', 'f', '1', 's', 'h', 'a', '1']);
    reveal_strlit("rsa_oaep_3072_sha512_mgf1sha512");
    assert("rsa_oaep_3072_sha512_mgf1sha512"@ =~= seq!['r', 's', 'a', '_', 'o', 'a', 'e', 'p', '_', '3', '0', '7', '2', '_', 's', 'h', 'a', '5', '1', '2', '_', 'm', 'g', 'f', '1', 's', 'h', 'a', '5', '1', '2']);
    reveal_strlit("rsa_oaep_3072_sha512_256_mgf1sha1");
    assert("rsa_oaep_3072_sha512_256_mgf1sha1"@ =~= seq!['r', 's', 'a', '_', 'o', 'a', 'e', 'p', '_', '3', '0', '7', '2', '_', 's', 'h', 'a', '5', '1', '2', '_', '2', '5', '6', '_', 'm', 'g', 'f', '1', 's', 'h', 'a', '1']);
    reveal_strlit("rsa_oaep_3072_sha512_256_mgf1sha512_256");
    assert("rsa_oaep_3072_sha512_256_mgf1sha512_256"@ =~= seq!['r', 's', 'a', '_', 'o', 'a', 'e', 'p', '_', '3', '0', '7', '2', '_', 's', 'h', 'a', '5', '1', '2', '_', '2', '5', '6', '_', 'm', 'g', 'f', '1', 's', 'h', 'a', '5', '1', '2', '_', '2', '5', '6']);
    reveal_strlit("rsa_oaep_4096_sha256_mgf1sha1");
    assert("rsa_oaep_4096_sha256_mgf1sha1"@ =~= seq!['r', 's', 'a', '_', 'o', 'a', 'e', 'p', '_', '4', '0', '9', '6', '_', 's', 'h', 'a', '2', '5', '6', '_', 'm', 'g', 'f', '1', 's', 'h', 'a', '1']);
    reveal_strlit("rsa_oaep_4096_sha256_mgf1sha256");
    assert("rsa_oaep_4096_sha256_mgf1sha256"@ =~= seq!['r', 's', 'a', '_', 'o', 'a', 'e', 'p', '_', '4', '0', '9', '6', '_', 's', 'h', 'a', '2', '5', '6', '_', 'm', 'g', 'f', '1', 's', 'h', 'a', '2', '5', '6']);
    reveal_strlit("rsa_oaep_4096_sha512_mgf1sha1");
    assert("rsa_oaep_4096_sha512_mgf1sha1"@ =~= seq!['r', 's', 'a', '_', 'o', 'a', 'e', 'p', '_', '4', '0', '9', '6', '_', 's', 'h', 'a', '5', '1', '2', '_', 'm', 'g', 'f', '1', 's', 'h', 'a', '1']);
    reveal_strlit("rsa_oaep_4096_sha512_mgf1sha512");
    assert("rsa_oaep_4096_sha512_mgf1sha512"@ =~= seq!['r', 's', 'a', '_', 'o', 'a', 'e', 'p', '_', '4', '0', '9', '6', '_', 's', 'h', 'a', '5', '1', '2', '_', 'm', 'g', 'f', '1', 's', 'h', 'a', '5', '1', '2']);
    reveal_strlit("rsa_oaep_misc");
    assert("rsa_oaep_misc"@ =~= seq!['r', 's', 'a', '_', 'o', 'a', 'e', 'p', '_', 'm', 'i', 's', 'c']);
}

/// Every test set is listed.
pub proof fn lemma_all_complete(t: TestName)
    ensures
        TestName::spec_all().contains(t),
{
    match t {
        TestName::Rsa2048Sha1Mgf1Sha1 => assert(TestName::spec_all()[0] == t),
        TestName::Rsa2048Sha224Mgf1Sha1 => assert(TestName::spec_all()[1] == t),
        TestName::Rsa2048Sha224Mgf1Sha224 => assert(TestName::spec_all()[2] == t),
        TestName::Rsa2048Sha256Mgf1Sha1 => assert(TestName::spec_all()[3] == t),
        TestName::Rsa2048Sha256Mgf1Sha256 => assert(TestName::spec_all()[4] == t),
        TestName::Rsa2048Sha384Mgf1Sha1 => assert(TestName::spec_all()[5] == t),
        TestName::Rsa2048Sha384Mgf1Sha384 => assert(TestName::spec_all()[6] == t),
        TestName::Rsa2048Sha512Mgf1Sha1 => assert(TestName::spec_all()[7] == t),
        TestName::Rsa2048Sha512Mgf1Sha512 => assert(TestName::spec_all()[8] == t),
        TestName::Rsa2048Sha512_224Mgf1Sha1 => assert(TestName::spec_all()[9] == t),
        TestName::Rsa2048Sha512_224Mgf1Sha512_224 => assert(TestName::spec_all()[10] == t),
        TestName::Rsa3072Sha256Mgf1Sha1 => assert(TestName::spec_all()[11] == t),
        TestName::Rsa3072Sha256Mgf1Sha256 => assert(TestName::spec_all()[12] == t),
        TestName::Rsa3072Sha512Mgf1Sha1 => assert(TestName::spec_all()[13] == t),
        TestName::Rsa3072Sha512Mgf1Sha512 => assert(TestName::spec_all()[14] == t),
        TestName::Rsa3072Sha512_256Mgf1Sha1 => assert(TestName::spec_all()[15] == t),
        TestName::Rsa3072Sha512_256Mgf1Sha512_256 => assert(TestName::spec_all()[16] == t),
        TestName::Rsa4096Sha256Mgf1Sha1 => assert(TestName::spec_all()[17] == t),
        TestName::Rsa4096Sha256Mgf1Sha256 => assert(TestName::spec_all()[18] == t),
        TestName::Rsa4096Sha512Mgf1Sha1 => assert(TestName::spec_all()[19] == t),
        TestName::Rsa4096Sha512Mgf1Sha512 => assert(TestName::spec_all()[20] == t),
        TestName::RsaMisc => assert(TestName::spec_all()[21] == t),
    }
}

/// The algorithms that a test set of this family is for.
#[derive(Debug, Copy, Clone, Hash, PartialEq, Eq, Structural)]
pub enum Algorithm {
    RsaOaep,
}

impl DeepView for Algorithm {
    type V = Algorithm;

    open spec fn deep_view(&self) -> Algorithm {
        *self
    }
}

impl Named for Algorithm {
    open spec fn spec_vocabulary() -> Seq<char> {
        "Algorithm"@
    }

    fn vocabulary() -> (r: &'static str) {
        "Algorithm"
    }

    open spec fn spec_from_name(name: Seq<char>) -> Option<Algorithm> {
        if name == "RSAES-OAEP"@ { Some(Algorithm::RsaOaep) }
        else { None }
    }

    fn from_name(name: &str) -> (r: Option<Algorithm>) {
        if str_eq(name, "RSAES-OAEP") { Some(Algorithm::RsaOaep) }
        else { None }
    }

    fn same(&self, other: &Algorithm) -> (r: bool) {
        *self == *other
    }
}

/// The edge case or bug class that a test probes.
#[derive(Debug, Copy, Clone, Hash, PartialEq, Eq, Structural)]
pub enum TestFlag {
    Constructed,
    EncryptionWithLabel,
    InvalidCiphertext,
    InvalidOaepPadding,
    Normal,
    SmallModulus,
}

impl DeepView for TestFlag {
    type V = TestFlag;

    open spec fn deep_view(&self) -> TestFlag {
        *self
    }
}

impl Named for TestFlag {
    open spec fn spec_vocabulary() -> Seq<char> {
        "TestFlag"@
    }

    fn vocabulary() -> (r: &'static str) {
        "TestFlag"
    }

    open spec fn spec_from_name(name: Seq<char>) -> Option<TestFlag> {
        if name == "Constructed"@ { Some(TestFlag::Constructed) }
        else if name == "EncryptionWithLabel"@ { Some(TestFlag::EncryptionWithLabel) }
        else if name == "InvalidCiphertext"@ { Some(TestFlag::InvalidCiphertext) }
        else if name == "InvalidOaepPadding"@ { Some(TestFlag::InvalidOaepPadding) }
        else if name == "Normal"@ { Some(TestFlag::Normal) }
        else if name == "SmallModulus"@ { Some(TestFlag::SmallModulus) }
        else { None }
    }

    fn from_name(name: &str) -> (r: Option<TestFlag>) {
        if str_eq(name, "Constructed") { Some(TestFlag::Constructed) }
        else if str_eq(name, "EncryptionWithLabel") { Some(TestFlag::EncryptionWithLabel) }
        else if str_eq(name, "InvalidCiphertext") { Some(TestFlag::InvalidCiphertext) }
        else if str_eq(name, "InvalidOaepPadding") { Some(TestFlag::InvalidOaepPadding) }
        else if str_eq(name, "Normal") { Some(TestFlag::Normal) }
        else if str_eq(name, "SmallModulus") { Some(TestFlag::SmallModulus) }
        else { None }
    }

    fn same(&self, other: &TestFlag) -> (r: bool) {
        *self == *other
    }
}

/// The tag of a test group; it holds no data.
#[derive(Debug, Copy, Clone, Hash, PartialEq, Eq, Structural)]
pub struct TestGroupTypeId {}

impl DeepView for TestGroupTypeId {
    type V = TestGroupTypeId;

    open spec fn deep_view(&self) -> TestGroupTypeId {
        *self
    }
}

impl Named for TestGroupTypeId {
    open spec fn spec_vocabulary() -> Seq<char> {
        "TestGroupTypeId"@
    }

    fn vocabulary() -> (r: &'static str) {
        "TestGroupTypeId"
    }

    open spec fn spec_from_name(name: Seq<char>) -> Option<TestGroupTypeId> {
        if name == "RsaesOaepDecrypt"@ {
            Some(TestGroupTypeId {})
        } else {
            None
        }
    }

    fn from_name(name: &str) -> (r: Option<TestGroupTypeId>) {
        if str_eq(name, "RsaesOaepDecrypt") {
            Some(TestGroupTypeId {})
        } else {
            None
        }
    }

    fn same(&self, other: &TestGroupTypeId) -> (r: bool) {
        true
    }
}

/// The key of a test group.
#[derive(Debug, Clone, Hash, PartialEq, Eq)]
pub struct TestKey {
    pub e: Vec<u8>,
    pub d: Vec<u8>,
    pub n: Vec<u8>,
    pub p: Vec<u8>,
    pub q: Vec<u8>,
    pub d1: Vec<u8>,
    pub d2: Vec<u8>,
    pub c: Vec<u8>,
}

/// The mathematical value of a [`TestKey`].
pub struct TestKeyView {
    pub e: Seq<u8>,
    pub d: Seq<u8>,
    pub n: Seq<u8>,
    pub p: Seq<u8>,
    pub q: Seq<u8>,
    pub d1: Seq<u8>,
    pub d2: Seq<u8>,
    pub c: Seq<u8>,
}

impl DeepView for TestKey {
    type V = TestKeyView;

    open spec fn deep_view(&self) -> TestKeyView {
        TestKeyView {
            e: self.e.deep_view(),
            d: self.d.deep_view(),
            n: self.n.deep_view(),
            p: self.p.deep_view(),
            q: self.q.deep_view(),
            d1: self.d1.deep_view(),
            d2: self.d2.deep_view(),
            c: self.c.deep_view(),
        }
    }
}

impl Record for TestKey {
    open spec fn spec_known_field(name: Seq<char>) -> bool {
        name == "publicExponent"@
            || name == "privateExponent"@
            || name == "modulus"@
            || name == "prime1"@
            || name == "prime2"@
            || name == "exponent1"@
            || name == "exponent2"@
            || name == "coefficient"@
    }

    fn known_field(name: &str) -> (r: bool) {
        str_eq(name, "publicExponent")
            || str_eq(name, "privateExponent")
            || str_eq(name, "modulus")
            || str_eq(name, "prime1")
            || str_eq(name, "prime2")
            || str_eq(name, "exponent1")
            || str_eq(name, "exponent2")
            || str_eq(name, "coefficient")
    }

    open spec fn spec_decode_fields(fields: Seq<(String, Json)>) -> Result<TestKeyView, ParseFailure> {
        let e = spec_hex_field(fields, "publicExponent"@);
        let d = spec_hex_field(fields, "privateExponent"@);
        let n = spec_hex_field(fields, "modulus"@);
        let p = spec_hex_field(fields, "prime1"@);
        let q = spec_hex_field(fields, "prime2"@);
        let d1 = spec_hex_field(fields, "exponent1"@);
        let d2 = spec_hex_field(fields, "exponent2"@);
        let c = spec_hex_field(fields, "coefficient"@);
        if e is Err { Err(e->Err_0) }
        else if d is Err { Err(d->Err_0) }
        else if n is Err { Err(n->Err_0) }
        else if p is Err { Err(p->Err_0) }
        else if q is Err { Err(q->Err_0) }
        else if d1 is Err { Err(d1->Err_0) }
        else if d2 is Err { Err(d2->Err_0) }
        else if c is Err { Err(c->Err_0) }
        else {
            Ok(TestKeyView {
                e: e->Ok_0,
                d: d->Ok_0,
                n: n->Ok_0,
                p: p->Ok_0,
                q: q->Ok_0,
                d1: d1->Ok_0,
                d2: d2->Ok_0,
                c: c->Ok_0,
            })
        }
    }

    fn decode_fields(fields: &Vec<(String, Json)>) -> (r: Result<TestKey, ParseError>) {
        let e = hex_field(fields, "publicExponent")?;
        let d = hex_field(fields, "privateExponent")?;
        let n = hex_field(fields, "modulus")?;
        let p = hex_field(fields, "prime1")?;
        let q = hex_field(fields, "prime2")?;
        let d1 = hex_field(fields, "exponent1")?;
        let d2 = hex_field(fields, "exponent2")?;
        let c = hex_field(fields, "coefficient")?;
        Ok(TestKey { e, d, n, p, q, d1, d2, c })
    }
}

/// One test case.
#[derive(Debug, Clone, Hash, PartialEq, Eq)]
pub struct Test {
    pub tc_id: usize,
    pub comment: String,
    pub msg: Vec<u8>,
    pub ct: Vec<u8>,
    pub label: Vec<u8>,
    pub result: TestResult,
    pub flags: Vec<TestFlag>,
}

/// The mathematical value of a [`Test`].
pub struct TestView {
    pub tc_id: usize,
    pub comment: Seq<char>,
    pub msg: Seq<u8>,
    pub ct: Seq<u8>,
    pub label: Seq<u8>,
    pub result: TestResult,
    pub flags: Seq<TestFlag>,
}

impl DeepView for Test {
    type V = TestView;

    open spec fn deep_view(&self) -> TestView {
        TestView {
            tc_id: self.tc_id.deep_view(),
            comment: self.comment.deep_view(),
            msg: self.msg.deep_view(),
            ct: self.ct.deep_view(),
            label: self.label.deep_view(),
            result: self.result.deep_view(),
            flags: self.flags.deep_view(),
        }
    }
}

impl Record for Test {
    open spec fn spec_known_field(name: Seq<char>) -> bool {
        name == "tcId"@
            || name == "comment"@
            || name == "msg"@
            || name == "ct"@
            || name == "label"@
            || name == "result"@
            || name == "flags"@
    }

    fn known_field(name: &str) -> (r: bool) {
        str_eq(name, "tcId")
            || str_eq(name, "comment")
            || str_eq(name, "msg")
            || str_eq(name, "ct")
            || str_eq(name, "label")
            || str_eq(name, "result")
            || str_eq(name, "flags")
    }

    open spec fn spec_decode_fields(fields: Seq<(String, Json)>) -> Result<TestView, ParseFailure> {
        let tc_id = spec_field::<usize>(fields, "tcId"@);
        let comment = spec_field::<String>(fields, "comment"@);
        let msg = spec_hex_field(fields, "msg"@);
        let ct = spec_hex_field(fields, "ct"@);
        let label = spec_hex_field(fields, "label"@);
        let result = spec_named_field::<TestResult>(fields, "result"@);
        let flags = spec_named_list_field::<TestFlag>(fields, "flags"@);
        if tc_id is Err { Err(tc_id->Err_0) }
        else if comment is Err { Err(comment->Err_0) }
        else if msg is Err { Err(msg->Err_0) }
        else if ct is Err { Err(ct->Err_0) }
        else if label is Err { Err(label->Err_0) }
        else if result is Err { Err(result->Err_0) }
        else if flags is Err { Err(flags->Err_0) }
        else {
            Ok(TestView {
                tc_id: tc_id->Ok_0,
                comment: comment->Ok_0,
                msg: msg->Ok_0,
                ct: ct->Ok_0,
                label: label->Ok_0,
                result: result->Ok_0,
                flags: flags->Ok_0,
            })
        }
    }

    fn decode_fields(fields: &Vec<(String, Json)>) -> (r: Result<Test, ParseError>) {
        let tc_id = field::<usize>(fields, "tcId")?;
        let comment = field::<String>(fields, "comment")?;
        let msg = hex_field(fields, "msg")?;
        let ct = hex_field(fields, "ct")?;
        let label = hex_field(fields, "label")?;
        let result = named_field::<TestResult>(fields, "result")?;
        let flags = named_list_field::<TestFlag>(fields, "flags")?;
        Ok(Test { tc_id, comment, msg, ct, label, result, flags })
    }
}

/// Tests that share the configuration of their group.
#[derive(Debug, Clone, Hash, PartialEq, Eq)]
pub struct TestGroup {
    pub key: TestKey,
    pub key_size: usize,
    pub mgf: Mgf,
    pub mgf_hash: HashFunction,
    pub jwk: Option<RsaPrivateJwk>,
    pub pkcs8: Vec<u8>,
    pub pem: String,
    pub hash: HashFunction,
    pub test_type: TestGroupTypeId,
    pub tests: Vec<Test>,
}

/// The mathematical value of a [`TestGroup`].
pub struct TestGroupView {
    pub key: TestKeyView,
    pub key_size: usize,
    pub mgf: Mgf,
    pub mgf_hash: HashFunction,
    pub jwk: Option<RsaPrivateJwkView>,
    pub pkcs8: Seq<u8>,
    pub pem: Seq<char>,
    pub hash: HashFunction,
    pub test_type: TestGroupTypeId,
    pub tests: Seq<TestView>,
}

impl DeepView for TestGroup {
    type V = TestGroupView;

    open spec fn deep_view(&self) -> TestGroupView {
        TestGroupView {
            key: self.key.deep_view(),
            key_size: self.key_size.deep_view(),
            mgf: self.mgf.deep_view(),
            mgf_hash: self.mgf_hash.deep_view(),
            jwk: self.jwk.deep_view(),
            pkcs8: self.pkcs8.deep_view(),
            pem: self.pem.deep_view(),
            hash: self.hash.deep_view(),
            test_type: self.test_type.deep_view(),
            tests: self.tests.deep_view(),
        }
    }
}

impl Record for TestGroup {
    open spec fn spec_known_field(name: Seq<char>) -> bool {
        name == "privateKey"@
            || name == "keySize"@
            || name == "mgf"@
            || name == "mgfSha"@
            || name == "privateKeyJwk"@
            || name == "privateKeyPkcs8"@
            || name == "privateKeyPem"@
            || name == "sha"@
            || name == "type"@
            || name == "tests"@
    }

    fn known_field(name: &str) -> (r: bool) {
        str_eq(name, "privateKey")
            || str_eq(name, "keySize")
            || str_eq(name, "mgf")
            || str_eq(name, "mgfSha")
            || str_eq(name, "privateKeyJwk")
            || str_eq(name, "privateKeyPkcs8")
            || str_eq(name, "privateKeyPem")
            || str_eq(name, "sha")
            || str_eq(name, "type")
            || str_eq(name, "tests")
    }

    open spec fn spec_decode_fields(fields: Seq<(String, Json)>) -> Result<TestGroupView, ParseFailure> {
        let key = spec_field::<TestKey>(fields, "privateKey"@);
        let key_size = spec_field::<usize>(fields, "keySize"@);
        let mgf = spec_named_field::<Mgf>(fields, "mgf"@);
        let mgf_hash = spec_named_field::<HashFunction>(fields, "mgfSha"@);
        let jwk = spec_optional_field::<RsaPrivateJwk>(fields, "privateKeyJwk"@);
        let pkcs8 = spec_hex_field(fields, "privateKeyPkcs8"@);
        let pem = spec_field::<String>(fields, "privateKeyPem"@);
        let hash = spec_named_field::<HashFunction>(fields, "sha"@);
        let test_type = spec_named_field::<TestGroupTypeId>(fields, "type"@);
        let tests = spec_field::<Vec<Test>>(fields, "tests"@);
        if key is Err { Err(key->Err_0) }
        else if key_size is Err { Err(key_size->Err_0) }
        else if mgf is Err { Err(mgf->Err_0) }
        else if mgf_hash is Err { Err(mgf_hash->Err_0) }
        else if jwk is Err { Err(jwk->Err_0) }
        else if pkcs8 is Err { Err(pkcs8->Err_0) }
        else if pem is Err { Err(pem->Err_0) }
        else if hash is Err { Err(hash->Err_0) }
        else if test_type is Err { Err(test_type->Err_0) }
        else if tests is Err { Err(tests->Err_0) }
        else {
            Ok(TestGroupView {
                key: key->Ok_0,
                key_size: key_size->Ok_0,
                mgf: mgf->Ok_0,
                mgf_hash: mgf_hash->Ok_0,
                jwk: jwk->Ok_0,
                pkcs8: pkcs8->Ok_0,
                pem: pem->Ok_0,
                hash: hash->Ok_0,
                test_type: test_type->Ok_0,
                tests: tests->Ok_0,
            })
        }
    }

    fn decode_fields(fields: &Vec<(String, Json)>) -> (r: Result<TestGroup, ParseError>) {
        let key = field::<TestKey>(fields, "privateKey")?;
        let key_size = field::<usize>(fields, "keySize")?;
        let mgf = named_field::<Mgf>(fields, "mgf")?;
        let mgf_hash = named_field::<HashFunction>(fields, "mgfSha")?;
        let jwk = optional_field::<RsaPrivateJwk>(fields, "privateKeyJwk")?;
        let pkcs8 = hex_field(fields, "privateKeyPkcs8")?;
        let pem = field::<String>(fields, "privateKeyPem")?;
        let hash = named_field::<HashFunction>(fields, "sha")?;
        let test_type = named_field::<TestGroupTypeId>(fields, "type")?;
        let tests = field::<Vec<Test>>(fields, "tests")?;
        Ok(TestGroup { key, key_size, mgf, mgf_hash, jwk, pkcs8, pem, hash, test_type, tests })
    }
}

/// A set of RSA OAEP decrypt tests.
#[derive(Debug, Clone, Hash, PartialEq, Eq)]
pub struct TestSet {
    pub algorithm: Algorithm,
    pub generator_version: String,
    pub number_of_tests: usize,
    pub header: String,
    pub notes: Vec<(TestFlag, TestFlagInfo)>,
    pub schema: TestSchema,
    pub test_groups: Vec<TestGroup>,
}

/// The mathematical value of a [`TestSet`].
pub struct TestSetView {
    pub algorithm: Algorithm,
    pub generator_version: Seq<char>,
    pub number_of_tests: usize,
    pub header: Seq<char>,
    pub notes: Seq<(TestFlag, TestFlagInfoView)>,
    pub schema: Seq<char>,
    pub test_groups: Seq<TestGroupView>,
}

impl DeepView for TestSet {
    type V = TestSetView;

    open spec fn deep_view(&self) -> TestSetView {
        TestSetView {
            algorithm: self.algorithm.deep_view(),
            generator_version: self.generator_version.deep_view(),
            number_of_tests: self.number_of_tests.deep_view(),
            header: self.header.deep_view(),
            notes: self.notes.deep_view(),
            schema: self.schema.deep_view(),
            test_groups: self.test_groups.deep_view(),
        }
    }
}

impl Record for TestSet {
    open spec fn spec_known_field(name: Seq<char>) -> bool {
        name == "algorithm"@
            || name == "generatorVersion"@
            || name == "numberOfTests"@
            || name == "header"@
            || name == "notes"@
            || name == "schema"@
            || name == "testGroups"@
    }

    fn known_field(name: &str) -> (r: bool) {
        str_eq(name, "algorithm")
            || str_eq(name, "generatorVersion")
            || str_eq(name, "numberOfTests")
            || str_eq(name, "header")
            || str_eq(name, "notes")
            || str_eq(name, "schema")
            || str_eq(name, "testGroups")
    }

    open spec fn spec_decode_fields(fields: Seq<(String, Json)>) -> Result<TestSetView, ParseFailure> {
        let algorithm = spec_named_field::<Algorithm>(fields, "algorithm"@);
        let generator_version = spec_field::<String>(fields, "generatorVersion"@);
        let number_of_tests = spec_field::<usize>(fields, "numberOfTests"@);
        let header = spec_header_field(fields, "header"@);
        let notes = spec_map_field::<TestFlag, TestFlagInfo>(fields, "notes"@);
        let schema = spec_named_field::<TestSchema>(fields, "schema"@);
        let test_groups = spec_field::<Vec<TestGroup>>(fields, "testGroups"@);
        if algorithm is Err { Err(algorithm->Err_0) }
        else if generator_version is Err { Err(generator_version->Err_0) }
        else if number_of_tests is Err { Err(number_of_tests->Err_0) }
        else if header is Err { Err(header->Err_0) }
        else if notes is Err { Err(notes->Err_0) }
        else if schema is Err { Err(schema->Err_0) }
        else if test_groups is Err { Err(test_groups->Err_0) }
        else {
            Ok(TestSetView {
                algorithm: algorithm->Ok_0,
                generator_version: generator_version->Ok_0,
                number_of_tests: number_of_tests->Ok_0,
                header: header->Ok_0,
                notes: notes->Ok_0,
                schema: schema->Ok_0,
                test_groups: test_groups->Ok_0,
            })
        }
    }

    fn decode_fields(fields: &Vec<(String, Json)>) -> (r: Result<TestSet, ParseError>) {
        let algorithm = named_field::<Algorithm>(fields, "algorithm")?;
        let generator_version = field::<String>(fields, "generatorVersion")?;
        let number_of_tests = field::<usize>(fields, "numberOfTests")?;
        let header = header_field(fields, "header")?;
        let notes = map_field::<TestFlag, TestFlagInfo>(fields, "notes")?;
        let schema = named_field::<TestSchema>(fields, "schema")?;
        let test_groups = field::<Vec<TestGroup>>(fields, "testGroups")?;
        Ok(TestSet { algorithm, generator_version, number_of_tests, header, notes, schema, test_groups })
    }
}

impl Case for Test {
    type Flag = TestFlag;

    proof fn lemma_flags_decoded(fields: Seq<(String, Json)>) {
    }
}

impl Grouped for TestGroup {
    type Test = Test;

    type Tag = TestGroupTypeId;

    open spec fn spec_test_count(&self) -> nat {
        self.tests@.len()
    }

    fn test_count(&self) -> (n: usize) {
        self.tests.len()
    }

    proof fn lemma_members_decoded(fields: Seq<(String, Json)>) {
    }
}

impl Suite for TestSet {
    type Group = TestGroup;

    type Schema = TestSchema;

    open spec fn spec_declared_tests(&self) -> nat {
        self.number_of_tests as nat
    }

    open spec fn spec_actual_tests(&self) -> nat {
        spec_total_tests(self.test_groups@)
    }

    fn counts_match(&self) -> (ok: bool) {
        count_matches(self.number_of_tests, &self.test_groups)
    }

    open spec fn spec_consistent(v: TestSetView) -> bool {
        v.number_of_tests == sum(Seq::new(v.test_groups.len(), |i: int| v.test_groups[i].tests.len()))
    }

    proof fn lemma_consistent(&self) {
        assert(test_counts(self.test_groups@) =~= Seq::new(
            self.deep_view().test_groups.len(),
            |i: int| self.deep_view().test_groups[i].tests.len(),
        ));
    }

    open spec fn spec_notes_distinct(v: TestSetView) -> bool {
        distinct_keys(v.notes)
    }

    proof fn lemma_members_decoded(fields: Seq<(String, Json)>) {
        lemma_decoded_map_distinct::<TestFlag, TestFlagInfo>(spec_find(fields, "notes"@)->Some_0);
    }
}

impl TestSet {
    /// Accepts a test set whose declared count is the number of its tests.
    pub fn check(obj: TestSet) -> (r: Result<TestSet, WycheproofError>)
        ensures
            r is Ok <==> obj.number_of_tests == spec_total_tests(obj.test_groups@),
            r is Ok ==> r->Ok_0 == obj,
            r is Err ==> r->Err_0 is InvalidData,
    {
        check(obj)
    }

    /// Reads and checks a test set from a JSON value.
    pub fn from_json(j: &Json) -> (r: Result<TestSet, WycheproofError>)
        ensures
            load_outcome(r) == spec_from_json::<TestSet>(*j),
            r is Ok ==> r->Ok_0.number_of_tests == spec_total_tests(r->Ok_0.test_groups@),
    {
        from_json::<TestSet>(j)
    }

    /// Reads and checks a test set from the text of its document.
    pub fn load_from_text(text: &str) -> (r: Result<TestSet, WycheproofError>)
        ensures
            load_post::<TestSet>(text@, r),
            r is Ok ==> r->Ok_0.number_of_tests == spec_total_tests(r->Ok_0.test_groups@),
    {
        load_from_text::<TestSet>(text)
    }

    /// What the document says of a flag, if it says anything.
    pub fn note(&self, flag: TestFlag) -> (r: Option<&TestFlagInfo>)
        ensures
            r.deep_view() == spec_lookup(self.deep_view().notes, flag),
    {
        lookup(&self.notes, &flag)
    }
}

} // verus!
