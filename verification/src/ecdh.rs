//! ECDH key agreement tests.

use vstd::prelude::*;
use crate::bytes::ByteString;
use crate::decode::{field, spec_field};
use crate::error::{ParseError, ParseFailure, WycheproofError};
use crate::json::{spec_find, Json};
use crate::named::{Named, named_field, named_list_field, spec_named_field, spec_named_list_field};
use crate::notes::{CVE, TestFlagInfo, TestFlagInfoView};
use crate::record::Record;
use crate::suite::{
    Case, check, count_matches, distinct_keys, from_json, Grouped, header_field,
    lemma_decoded_map_distinct, load_from_text, load_outcome, load_post, lookup, map_field,
    spec_from_json, spec_header_field, spec_lookup, spec_map_field, spec_total_tests, Suite, sum,
    test_counts,
};
use crate::text::str_eq;
use crate::vocab::{EllipticCurve, TestResult};

verus! {

/// The schema that a document of ECDH tests declares.
#[derive(Debug, Clone, Hash, PartialEq, Eq)]
pub struct TestSchema {
    pub schema: String,
}

impl DeepView for TestSchema {
    type V = Seq<char>;

    open spec fn deep_view(&self) -> Seq<char> {
        self.schema@
    }
}

impl Named for TestSchema {
    open spec fn spec_vocabulary() -> Seq<char> {
        "ECDH schema"@
    }

    fn vocabulary() -> (r: &'static str) {
        "ECDH schema"
    }

    open spec fn spec_from_name(name: Seq<char>) -> Option<Seq<char>> {
        if name == "ecdh_test_schema.json"@ || name == "ecdh_ecpoint_test_schema.json"@ {
            Some(name)
        } else {
            None
        }
    }

    fn from_name(name: &str) -> (r: Option<TestSchema>) {
        if str_eq(name, "ecdh_test_schema.json") || str_eq(name, "ecdh_ecpoint_test_schema.json") {
            Some(TestSchema { schema: name.to_owned() })
        } else {
            None
        }
    }

    fn same(&self, other: &TestSchema) -> (r: bool) {
        str_eq(self.schema.as_str(), other.schema.as_str())
    }
}

/// The test sets of this family.
#[derive(Debug, Copy, Clone, Hash, PartialEq, Eq, Structural)]
pub enum TestName {
    EcdhBrainpool224r1,
    EcdhBrainpool256r1,
    EcdhBrainpool320r1,
    EcdhBrainpool384r1,
    EcdhBrainpool512r1,
    EcdhSecp224r1,
    EcdhSecp256k1,
    EcdhSecp256r1,
    EcdhSecp384r1,
    EcdhSecp521r1,
    EcdhSecp224r1Ecpoint,
    EcdhSecp256r1Ecpoint,
    EcdhSecp384r1Ecpoint,
    EcdhSecp521r1Ecpoint,
}

impl DeepView for TestName {
    type V = TestName;

    open spec fn deep_view(&self) -> TestName {
        *self
    }
}

impl Named for TestName {
    open spec fn spec_vocabulary() -> Seq<char> {
        "TestName"@
    }

    fn vocabulary() -> (r: &'static str) {
        "TestName"
    }

    open spec fn spec_from_name(name: Seq<char>) -> Option<TestName> {
        if name == "ecdh_brainpoolP224r1"@ { Some(TestName::EcdhBrainpool224r1) }
        else if name == "ecdh_brainpoolP256r1"@ { Some(TestName::EcdhBrainpool256r1) }
        else if name == "ecdh_brainpoolP320r1"@ { Some(TestName::EcdhBrainpool320r1) }
        else if name == "ecdh_brainpoolP384r1"@ { Some(TestName::EcdhBrainpool384r1) }
        else if name == "ecdh_brainpoolP512r1"@ { Some(TestName::EcdhBrainpool512r1) }
        else if name == "ecdh_secp224r1"@ { Some(TestName::EcdhSecp224r1) }
        else if name == "ecdh_secp256k1"@ { Some(TestName::EcdhSecp256k1) }
        else if name == "ecdh_secp256r1"@ { Some(TestName::EcdhSecp256r1) }
        else if name == "ecdh_secp384r1"@ { Some(TestName::EcdhSecp384r1) }
        else if name == "ecdh_secp521r1"@ { Some(TestName::EcdhSecp521r1) }
        else if name == "ecdh_secp224r1_ecpoint"@ { Some(TestName::EcdhSecp224r1Ecpoint) }
        else if name == "ecdh_secp256r1_ecpoint"@ { Some(TestName::EcdhSecp256r1Ecpoint) }
        else if name == "ecdh_secp384r1_ecpoint"@ { Some(TestName::EcdhSecp384r1Ecpoint) }
        else if name == "ecdh_secp521r1_ecpoint"@ { Some(TestName::EcdhSecp521r1Ecpoint) }
        else { None }
    }

    fn from_name(name: &str) -> (r: Option<TestName>) {
        if str_eq(name, "ecdh_brainpoolP224r1") { Some(TestName::EcdhBrainpool224r1) }
        else if str_eq(name, "ecdh_brainpoolP256r1") { Some(TestName::EcdhBrainpool256r1) }
        else if str_eq(name, "ecdh_brainpoolP320r1") { Some(TestName::EcdhBrainpool320r1) }
        else if str_eq(name, "ecdh_brainpoolP384r1") { Some(TestName::EcdhBrainpool384r1) }
        else if str_eq(name, "ecdh_brainpoolP512r1") { Some(TestName::EcdhBrainpool512r1) }
        else if str_eq(name, "ecdh_secp224r1") { Some(TestName::EcdhSecp224r1) }
        else if str_eq(name, "ecdh_secp256k1") { Some(TestName::EcdhSecp256k1) }
        else if str_eq(name, "ecdh_secp256r1") { Some(TestName::EcdhSecp256r1) }
        else if str_eq(name, "ecdh_secp384r1") { Some(TestName::EcdhSecp384r1) }
        else if str_eq(name, "ecdh_secp521r1") { Some(TestName::EcdhSecp521r1) }
        else if str_eq(name, "ecdh_secp224r1_ecpoint") { Some(TestName::EcdhSecp224r1Ecpoint) }
        else if str_eq(name, "ecdh_secp256r1_ecpoint") { Some(TestName::EcdhSecp256r1Ecpoint) }
        else if str_eq(name, "ecdh_secp384r1_ecpoint") { Some(TestName::EcdhSecp384r1Ecpoint) }
        else if str_eq(name, "ecdh_secp521r1_ecpoint") { Some(TestName::EcdhSecp521r1Ecpoint) }
        else { None }
    }

    fn same(&self, other: &TestName) -> (r: bool) {
        *self == *other
    }
}

impl TestName {
    /// The name under which the test set is kept.
    pub open spec fn spec_name(self) -> Seq<char> {
        match self {
            TestName::EcdhBrainpool224r1 => "ecdh_brainpoolP224r1"@,
            TestName::EcdhBrainpool256r1 => "ecdh_brainpoolP256r1"@,
            TestName::EcdhBrainpool320r1 => "ecdh_brainpoolP320r1"@,
            TestName::EcdhBrainpool384r1 => "ecdh_brainpoolP384r1"@,
            TestName::EcdhBrainpool512r1 => "ecdh_brainpoolP512r1"@,
            TestName::EcdhSecp224r1 => "ecdh_secp224r1"@,
            TestName::EcdhSecp256k1 => "ecdh_secp256k1"@,
            TestName::EcdhSecp256r1 => "ecdh_secp256r1"@,
            TestName::EcdhSecp384r1 => "ecdh_secp384r1"@,
            TestName::EcdhSecp521r1 => "ecdh_secp521r1"@,
            TestName::EcdhSecp224r1Ecpoint => "ecdh_secp224r1_ecpoint"@,
            TestName::EcdhSecp256r1Ecpoint => "ecdh_secp256r1_ecpoint"@,
            TestName::EcdhSecp384r1Ecpoint => "ecdh_secp384r1_ecpoint"@,
            TestName::EcdhSecp521r1Ecpoint => "ecdh_secp521r1_ecpoint"@,
        }
    }

    pub fn name(&self) -> (r: &'static str)
        ensures
            r@ == self.spec_name(),
    {
        match self {
            TestName::EcdhBrainpool224r1 => "ecdh_brainpoolP224r1",
            TestName::EcdhBrainpool256r1 => "ecdh_brainpoolP256r1",
            TestName::EcdhBrainpool320r1 => "ecdh_brainpoolP320r1",
            TestName::EcdhBrainpool384r1 => "ecdh_brainpoolP384r1",
            TestName::EcdhBrainpool512r1 => "ecdh_brainpoolP512r1",
            TestName::EcdhSecp224r1 => "ecdh_secp224r1",
            TestName::EcdhSecp256k1 => "ecdh_secp256k1",
            TestName::EcdhSecp256r1 => "ecdh_secp256r1",
            TestName::EcdhSecp384r1 => "ecdh_secp384r1",
            TestName::EcdhSecp521r1 => "ecdh_secp521r1",
            TestName::EcdhSecp224r1Ecpoint => "ecdh_secp224r1_ecpoint",
            TestName::EcdhSecp256r1Ecpoint => "ecdh_secp256r1_ecpoint",
            TestName::EcdhSecp384r1Ecpoint => "ecdh_secp384r1_ecpoint",
            TestName::EcdhSecp521r1Ecpoint => "ecdh_secp521r1_ecpoint",
        }
    }

    /// Every test set of the family, in a fixed order.
    pub open spec fn spec_all() -> Seq<TestName> {
        seq![
            TestName::EcdhBrainpool224r1,
            TestName::EcdhBrainpool256r1,
            TestName::EcdhBrainpool320r1,
            TestName::EcdhBrainpool384r1,
            TestName::EcdhBrainpool512r1,
            TestName::EcdhSecp224r1,
            TestName::EcdhSecp256k1,
            TestName::EcdhSecp256r1,
            TestName::EcdhSecp384r1,
            TestName::EcdhSecp521r1,
            TestName::EcdhSecp224r1Ecpoint,
            TestName::EcdhSecp256r1Ecpoint,
            TestName::EcdhSecp384r1Ecpoint,
            TestName::EcdhSecp521r1Ecpoint,
        ]
    }

    pub fn all() -> (r: Vec<TestName>)
        ensures
            r@ == Self::spec_all(),
    {
        let r = vec![
            TestName::EcdhBrainpool224r1,
            TestName::EcdhBrainpool256r1,
            TestName::EcdhBrainpool320r1,
            TestName::EcdhBrainpool384r1,
            TestName::EcdhBrainpool512r1,
            TestName::EcdhSecp224r1,
            TestName::EcdhSecp256k1,
            TestName::EcdhSecp256r1,
            TestName::EcdhSecp384r1,
            TestName::EcdhSecp521r1,
            TestName::EcdhSecp224r1Ecpoint,
            TestName::EcdhSecp256r1Ecpoint,
            TestName::EcdhSecp384r1Ecpoint,
            TestName::EcdhSecp521r1Ecpoint,
        ];
        assert(r@ =~= Self::spec_all());
        r
    }

    /// Finds a test set by its name.
    pub fn from_str(s: &str) -> (r: Result<TestName, WycheproofError>)
        ensures
            match r {
                Ok(t) => Self::spec_from_name(s@) == Some(t),
                Err(e) => Self::spec_from_name(s@) is None && e is NoDataSet,
            },
    {
        match Self::from_name(s) {
            Some(t) => Ok(t),
            None => Err(WycheproofError::NoDataSet),
        }
    }
}

impl std::str::FromStr for TestName {
    type Err = WycheproofError;

    fn from_str(s: &str) -> (r: Result<TestName, WycheproofError>)
        ensures
            match r {
                Ok(t) => TestName::spec_from_name(s@) == Some(t),
                Err(e) => TestName::spec_from_name(s@) is None && e is NoDataSet,
            },
    {
        TestName::from_str(s)
    }
}

/// Every test set is found again by its name.
pub proof fn lemma_name_round_trip(t: TestName)
    ensures
        TestName::spec_from_name(t.spec_name()) == Some(t),
{
    reveal_strlit("ecdh_brainpoolP224r1");
    assert("ecdh_brainpoolP224r1"@ =~= seq!['e', 'c', 'd', 'h', '_', 'b', 'r', 'a', 'i', 'n', 'p', 'o', 'o', 'l', 'P', '2', '2', '4', 'r', '1']);
    reveal_strlit("ecdh_brainpoolP256r1");
    assert("ecdh_brainpoolP256r1"@ =~= seq!['e', 'c', 'd', 'h', '_', 'b', 'r', 'a', 'i', 'n', 'p', 'o', 'o', 'l', 'P', '2', '5', '6', 'r', '1']);
    reveal_strlit("ecdh_brainpoolP320r1");
    assert("ecdh_brainpoolP320r1"@ =~= seq!['e', 'c', 'd', 'h', '_', 'b', 'r', 'a', 'i', 'n', 'p', 'o', 'o', 'l', 'P', '3', '2', '0', 'r', '1']);
    reveal_strlit("ecdh_brainpoolP384r1");
    assert("ecdh_brainpoolP384r1"@ =~= seq!['e', 'c', 'd', 'h', '_', 'b', 'r', 'a', 'i', 'n', 'p', 'o', 'o', 'l', 'P', '3', '8', '4', 'r', '1']);
    reveal_strlit("ecdh_brainpoolP512r1");
    assert("ecdh_brainpoolP512r1"@ =~= seq!['e', 'c', 'd', 'h', '_', 'b', 'r', 'a', 'i', 'n', 'p', 'o', 'o', 'l', 'P', '5', '1', '2', 'r', '1']);
    reveal_strlit("ecdh_secp224r1");
    assert("ecdh_secp224r1"@ =~= seq!['e', 'c', 'd', 'h', '_', 's', 'e', 'c', 'p', '2', '2', '4', 'r', '1']);
    reveal_strlit("ecdh_secp256k1");
    assert("ecdh_secp256k1"@ =~= seq!['e', 'c', 'd', 'h', '_', 's', 'e', 'c', 'p', '2', '5', '6', 'k', '1']);
    reveal_strlit("ecdh_secp256r1");
    assert("ecdh_secp256r1"@ =~= seq!['e', 'c', 'd', 'h', '_', 's', 'e', 'c', 'p', '2', '5', '6', 'r', '1']);
    reveal_strlit("ecdh_secp384r1");
    assert("ecdh_secp384r1"@ =~= seq!['e', 'c', 'd', 'h', '_', 's', 'e', 'c', 'p', '3', '8', '4', 'r', '1']);
    reveal_strlit("ecdh_secp521r1");
    assert("ecdh_secp521r1"@ =~= seq!['e', 'c', 'd', 'h', '_', 's', 'e', 'c', 'p', '5', '2', '1', 'r', '1']);
    reveal_strlit("ecdh_secp224r1_ecpoint");
    assert("ecdh_secp224r1_ecpoint"@ =~= seq!['e', 'c', 'd', 'h', '_', 's', 'e', 'c', 'p', '2', '2', '4', 'r', '1', '_', 'e', 'c', 'p', 'o', 'i', 'n', 't']);
    reveal_strlit("ecdh_secp256r1_ecpoint");
    assert("ecdh_secp256r1_ecpoint"@ =~= seq!['e', 'c', 'd', 'h', '_', 's', 'e', 'c', 'p', '2', '5', '6', 'r', '1', '_', 'e', 'c', 'p', 'o', 'i', 'n', 't']);
    reveal_strlit("ecdh_secp384r1_ecpoint");
    assert("ecdh_secp384r1_ecpoint"@ =~= seq!['e', 'c', 'd', 'h', '_', 's', 'e', 'c', 'p', '3', '8', '4', 'r', '1', '_', 'e', 'c', 'p', 'o', 'i', 'n', 't']);
    reveal_strlit("ecdh_secp521r1_ecpoint");
    assert("ecdh_secp521r1_ecpoint"@ =~= seq!['e', 'c', 'd', 'h', '_', 's', 'e', 'c', 'p', '5', '2', '1', 'r', '1', '_', 'e', 'c', 'p', 'o', 'i', 'n', 't']);
}

/// Every test set is listed.
pub proof fn lemma_all_complete(t: TestName)
    ensures
        TestName::spec_all().contains(t),
{
    match t {
        TestName::EcdhBrainpool224r1 => assert(TestName::spec_all()[0] == t),
        TestName::EcdhBrainpool256r1 => assert(TestName::spec_all()[1] == t),
        TestName::EcdhBrainpool320r1 => assert(TestName::spec_all()[2] == t),
        TestName::EcdhBrainpool384r1 => assert(TestName::spec_all()[3] == t),
        TestName::EcdhBrainpool512r1 => assert(TestName::spec_all()[4] == t),
        TestName::EcdhSecp224r1 => assert(TestName::spec_all()[5] == t),
        TestName::EcdhSecp256k1 => assert(TestName::spec_all()[6] == t),
        TestName::EcdhSecp256r1 => assert(TestName::spec_all()[7] == t),
        TestName::EcdhSecp384r1 => assert(TestName::spec_all()[8] == t),
        TestName::EcdhSecp521r1 => assert(TestName::spec_all()[9] == t),
        TestName::EcdhSecp224r1Ecpoint => assert(TestName::spec_all()[10] == t),
        TestName::EcdhSecp256r1Ecpoint => assert(TestName::spec_all()[11] == t),
        TestName::EcdhSecp384r1Ecpoint => assert(TestName::spec_all()[12] == t),
        TestName::EcdhSecp521r1Ecpoint => assert(TestName::spec_all()[13] == t),
    }
}

/// The algorithms that a test set of this family is for.
#[derive(Debug, Copy, Clone, Hash, PartialEq, Eq, Structural)]
pub enum Algorithm {
    Ecdh,
}

impl DeepView for Algorithm {
    type V = Algorithm;

    open spec fn deep_view(&self) -> Algorithm {
        *self
    }
}

impl Named for Algorithm {
    open spec fn spec_vocabulary() -> Seq<char> {
        "Algorithm"@
    }

    fn vocabulary() -> (r: &'static str) {
        "Algorithm"
    }

    open spec fn spec_from_name(name: Seq<char>) -> Option<Algorithm> {
        if name == "ECDH"@ { Some(Algorithm::Ecdh) }
        else { None }
    }

    fn from_name(name: &str) -> (r: Option<Algorithm>) {
        if str_eq(name, "ECDH") { Some(Algorithm::Ecdh) }
        else { None }
    }

    fn same(&self, other: &Algorithm) -> (r: bool) {
        *self == *other
    }
}

/// The edge case or bug class that a test probes.
#[derive(Debug, Copy, Clone, Hash, PartialEq, Eq, Structural)]
pub enum TestFlag {
    AdditionChain,
    GolangScalarmulBug,
    JavaAdditionChainBug,
    CompressedPoint,
    CompressedPublic,
    EdgeCaseDoubling,
    EdgeCaseEphemeralKey,
    EdgeCaseSharedSecret,
    InvalidAsn,
    InvalidCompressedPublic,
    InvalidCurveAttack,
    InvalidEncoding,
    InvalidPublic,
    InvalidPem,
    IsomorphicPublicKey,
    GroupIsomorphism,
    LargeCofactor,
    ModifiedCurveParameter,
    ModifiedCofactor,
    ModifiedGenerator,
    ModifiedGroup,
    ModifiedPrime,
    ModifiedPublicPoint,
    NegativeCofactor,
    Normal,
    UnnamedCurve,
    UnusedParam,
    WeakPublicKey,
    WrongCurve,
    WrongOrder,
}

impl DeepView for TestFlag {
    type V = TestFlag;

    open spec fn deep_view(&self) -> TestFlag {
        *self
    }
}

impl Named for TestFlag {
    open spec fn spec_vocabulary() -> Seq<char> {
        "TestFlag"@
    }

    fn vocabulary() -> (r: &'static str) {
        "TestFlag"
    }

    open spec fn spec_from_name(name: Seq<char>) -> Option<TestFlag> {
        if name == "AdditionChain"@ { Some(TestFlag::AdditionChain) }
        else if name == "CVE-2017-8932"@ { Some(TestFlag::GolangScalarmulBug) }
        else if name == "CVE_2017_10176"@ { Some(TestFlag::JavaAdditionChainBug) }
        else if name == "CompressedPoint"@ { Some(TestFlag::CompressedPoint) }
        else if name == "CompressedPublic"@ { Some(TestFlag::CompressedPublic) }
        else if name == "EdgeCaseDoubling"@ { Some(TestFlag::EdgeCaseDoubling) }
        else if name == "EdgeCaseEphemeralKey"@ { Some(TestFlag::EdgeCaseEphemeralKey) }
        else if name == "EdgeCaseSharedSecret"@ { Some(TestFlag::EdgeCaseSharedSecret) }
        else if name == "InvalidAsn"@ { Some(TestFlag::InvalidAsn) }
        else if name == "InvalidCompressedPublic"@ { Some(TestFlag::InvalidCompressedPublic) }
        else if name == "InvalidCurveAttack"@ { Some(TestFlag::InvalidCurveAttack) }
        else if name == "InvalidEncoding"@ { Some(TestFlag::InvalidEncoding) }
        else if name == "InvalidPublic"@ { Some(TestFlag::InvalidPublic) }
        else if name == "InvalidPem"@ { Some(TestFlag::InvalidPem) }
        else if name == "IsomorphicPublicKey"@ { Some(TestFlag::IsomorphicPublicKey) }
        else if name == "GroupIsomorphism"@ { Some(TestFlag::GroupIsomorphism) }
        else if name == "LargeCofactor"@ { Some(TestFlag::LargeCofactor) }
        else if name == "Modified curve parameter"@ { Some(TestFlag::ModifiedCurveParameter) }
        else if name == "ModifiedCofactor"@ { Some(TestFlag::ModifiedCofactor) }
        else if name == "ModifiedGenerator"@ { Some(TestFlag::ModifiedGenerator) }
        else if name == "ModifiedGroup"@ { Some(TestFlag::ModifiedGroup) }
        else if name == "ModifiedPrime"@ { Some(TestFlag::ModifiedPrime) }
        else if name == "ModifiedPublicPoint"@ { Some(TestFlag::ModifiedPublicPoint) }
        else if name == "NegativeCofactor"@ { Some(TestFlag::NegativeCofactor) }
        else if name == "Normal"@ { Some(TestFlag::Normal) }
        else if name == "UnnamedCurve"@ { Some(TestFlag::UnnamedCurve) }
        else if name == "UnusedParam"@ { Some(TestFlag::UnusedParam) }
        else if name == "WeakPublicKey"@ { Some(TestFlag::WeakPublicKey) }
        else if name == "WrongCurve"@ { Some(TestFlag::WrongCurve) }
        else if name == "WrongOrder"@ { Some(TestFlag::WrongOrder) }
        else { None }
    }

    fn from_name(name: &str) -> (r: Option<TestFlag>) {
        if str_eq(name, "AdditionChain") { Some(TestFlag::AdditionChain) }
        else if str_eq(name, "CVE-2017-8932") { Some(TestFlag::GolangScalarmulBug) }
        else if str_eq(name, "CVE_2017_10176") { Some(TestFlag::JavaAdditionChainBug) }
        else if str_eq(name, "CompressedPoint") { Some(TestFlag::CompressedPoint) }
        else if str_eq(name, "CompressedPublic") { Some(TestFlag::CompressedPublic) }
        else if str_eq(name, "EdgeCaseDoubling") { Some(TestFlag::EdgeCaseDoubling) }
        else if str_eq(name, "EdgeCaseEphemeralKey") { Some(TestFlag::EdgeCaseEphemeralKey) }
        else if str_eq(name, "EdgeCaseSharedSecret") { Some(TestFlag::EdgeCaseSharedSecret) }
        else if str_eq(name, "InvalidAsn") { Some(TestFlag::InvalidAsn) }
        else if str_eq(name, "InvalidCompressedPublic") { Some(TestFlag::InvalidCompressedPublic) }
        else if str_eq(name, "InvalidCurveAttack") { Some(TestFlag::InvalidCurveAttack) }
        else if str_eq(name, "InvalidEncoding") { Some(TestFlag::InvalidEncoding) }
        else if str_eq(name, "InvalidPublic") { Some(TestFlag::InvalidPublic) }
        else if str_eq(name, "InvalidPem") { Some(TestFlag::InvalidPem) }
        else if str_eq(name, "IsomorphicPublicKey") { Some(TestFlag::IsomorphicPublicKey) }
        else if str_eq(name, "GroupIsomorphism") { Some(TestFlag::GroupIsomorphism) }
        else if str_eq(name, "LargeCofactor") { Some(TestFlag::LargeCofactor) }
        else if str_eq(name, "Modified curve parameter") { Some(TestFlag::ModifiedCurveParameter) }
        else if str_eq(name, "ModifiedCofactor") { Some(TestFlag::ModifiedCofactor) }
        else if str_eq(name, "ModifiedGenerator") { Some(TestFlag::ModifiedGenerator) }
        else if str_eq(name, "ModifiedGroup") { Some(TestFlag::ModifiedGroup) }
        else if str_eq(name, "ModifiedPrime") { Some(TestFlag::ModifiedPrime) }
        else if str_eq(name, "ModifiedPublicPoint") { Some(TestFlag::ModifiedPublicPoint) }
        else if str_eq(name, "NegativeCofactor") { Some(TestFlag::NegativeCofactor) }
        else if str_eq(name, "Normal") { Some(TestFlag::Normal) }
        else if str_eq(name, "UnnamedCurve") { Some(TestFlag::UnnamedCurve) }
        else if str_eq(name, "UnusedParam") { Some(TestFlag::UnusedParam) }
        else if str_eq(name, "WeakPublicKey") { Some(TestFlag::WeakPublicKey) }
        else if str_eq(name, "WrongCurve") { Some(TestFlag::WrongCurve) }
        else if str_eq(name, "WrongOrder") { Some(TestFlag::WrongOrder) }
        else { None }
    }

    fn same(&self, other: &TestFlag) -> (r: bool) {
        *self == *other
    }
}

/// How the public key of an ECDH test is encoded.
#[derive(Debug, Copy, Clone, Hash, PartialEq, Eq, Structural)]
pub enum EcdhEncoding {
    Asn1,
    EcPoint,
}

impl DeepView for EcdhEncoding {
    type V = EcdhEncoding;

    open spec fn deep_view(&self) -> EcdhEncoding {
        *self
    }
}

impl Named for EcdhEncoding {
    open spec fn spec_vocabulary() -> Seq<char> {
        "EcdhEncoding"@
    }

    fn vocabulary() -> (r: &'static str) {
        "EcdhEncoding"
    }

    open spec fn spec_from_name(name: Seq<char>) -> Option<EcdhEncoding> {
        if name == "asn"@ { Some(EcdhEncoding::Asn1) }
        else if name == "ecpoint"@ { Some(EcdhEncoding::EcPoint) }
        else { None }
    }

    fn from_name(name: &str) -> (r: Option<EcdhEncoding>) {
        if str_eq(name, "asn") { Some(EcdhEncoding::Asn1) }
        else if str_eq(name, "ecpoint") { Some(EcdhEncoding::EcPoint) }
        else { None }
    }

    fn same(&self, other: &EcdhEncoding) -> (r: bool) {
        *self == *other
    }
}

/// The tag of a test group: which shape the group follows.
#[derive(Debug, Copy, Clone, Hash, PartialEq, Eq, Structural)]
pub enum TestGroupTypeId {
    Ecdh,
    EcdhEcpoint,
}

impl DeepView for TestGroupTypeId {
    type V = TestGroupTypeId;

    open spec fn deep_view(&self) -> TestGroupTypeId {
        *self
    }
}

impl Named for TestGroupTypeId {
    open spec fn spec_vocabulary() -> Seq<char> {
        "TestGroupTypeId"@
    }

    fn vocabulary() -> (r: &'static str) {
        "TestGroupTypeId"
    }

    open spec fn spec_from_name(name: Seq<char>) -> Option<TestGroupTypeId> {
        if name == "EcdhTest"@ { Some(TestGroupTypeId::Ecdh) }
        else if name == "EcdhEcpointTest"@ { Some(TestGroupTypeId::EcdhEcpoint) }
        else { None }
    }

    fn from_name(name: &str) -> (r: Option<TestGroupTypeId>) {
        if str_eq(name, "EcdhTest") { Some(TestGroupTypeId::Ecdh) }
        else if str_eq(name, "EcdhEcpointTest") { Some(TestGroupTypeId::EcdhEcpoint) }
        else { None }
    }

    fn same(&self, other: &TestGroupTypeId) -> (r: bool) {
        *self == *other
    }
}

/// One test case.
#[derive(Debug, Clone, Hash, PartialEq, Eq)]
pub struct Test {
    pub tc_id: usize,
    pub comment: String,
    pub public_key: ByteString,
    pub private_key: ByteString,
    pub shared_secret: ByteString,
    pub result: TestResult,
    pub flags: Vec<TestFlag>,
}

/// The mathematical value of a [`Test`].
pub struct TestView {
    pub tc_id: usize,
    pub comment: Seq<char>,
    pub public_key: Seq<u8>,
    pub private_key: Seq<u8>,
    pub shared_secret: Seq<u8>,
    pub result: TestResult,
    pub flags: Seq<TestFlag>,
}

impl DeepView for Test {
    type V = TestView;

    open spec fn deep_view(&self) -> TestView {
        TestView {
            tc_id: self.tc_id.deep_view(),
            comment: self.comment.deep_view(),
            public_key: self.public_key.deep_view(),
            private_key: self.private_key.deep_view(),
            shared_secret: self.shared_secret.deep_view(),
            result: self.result.deep_view(),
            flags: self.flags.deep_view(),
        }
    }
}

impl Record for Test {
    open spec fn spec_known_field(name: Seq<char>) -> bool {
        name == "tcId"@
            || name == "comment"@
            || name == "public"@
            || name == "private"@
            || name == "shared"@
            || name == "result"@
            || name == "flags"@
    }

    fn known_field(name: &str) -> (r: bool) {
        str_eq(name, "tcId")
            || str_eq(name, "comment")
            || str_eq(name, "public")
            || str_eq(name, "private")
            || str_eq(name, "shared")
            || str_eq(name, "result")
            || str_eq(name, "flags")
    }

    open spec fn spec_decode_fields(fields: Seq<(String, Json)>) -> Result<TestView, ParseFailure> {
        let tc_id = spec_field::<usize>(fields, "tcId"@);
        let comment = spec_field::<String>(fields, "comment"@);
        let public_key = spec_field::<ByteString>(fields, "public"@);
        let private_key = spec_field::<ByteString>(fields, "private"@);
        let shared_secret = spec_field::<ByteString>(fields, "shared"@);
        let result = spec_named_field::<TestResult>(fields, "result"@);
        let flags = spec_named_list_field::<TestFlag>(fields, "flags"@);
        if tc_id is Err { Err(tc_id->Err_0) }
        else if comment is Err { Err(comment->Err_0) }
        else if public_key is Err { Err(public_key->Err_0) }
        else if private_key is Err { Err(private_key->Err_0) }
        else if shared_secret is Err { Err(shared_secret->Err_0) }
        else if result is Err { Err(result->Err_0) }
        else if flags is Err { Err(flags->Err_0) }
        else {
            Ok(TestView {
                tc_id: tc_id->Ok_0,
                comment: comment->Ok_0,
                public_key: public_key->Ok_0,
                private_key: private_key->Ok_0,
                shared_secret: shared_secret->Ok_0,
                result: result->Ok_0,
                flags: flags->Ok_0,
            })
        }
    }

    fn decode_fields(fields: &Vec<(String, Json)>) -> (r: Result<Test, ParseError>) {
        let tc_id = field::<usize>(fields, "tcId")?;
        let comment = field::<String>(fields, "comment")?;
        let public_key = field::<ByteString>(fields, "public")?;
        let private_key = field::<ByteString>(fields, "private")?;
        let shared_secret = field::<ByteString>(fields, "shared")?;
        let result = named_field::<TestResult>(fields, "result")?;
        let flags = named_list_field::<TestFlag>(fields, "flags")?;
        Ok(Test { tc_id, comment, public_key, private_key, shared_secret, result, flags })
    }
}

/// Tests that share the configuration of their group.
#[derive(Debug, Clone, Hash, PartialEq, Eq)]
pub struct TestGroup {
    pub curve: EllipticCurve,
    pub encoding: EcdhEncoding,
    pub test_type: TestGroupTypeId,
    pub tests: Vec<Test>,
}

/// The mathematical value of a [`TestGroup`].
pub struct TestGroupView {
    pub curve: EllipticCurve,
    pub encoding: EcdhEncoding,
    pub test_type: TestGroupTypeId,
    pub tests: Seq<TestView>,
}

impl DeepView for TestGroup {
    type V = TestGroupView;

    open spec fn deep_view(&self) -> TestGroupView {
        TestGroupView {
            curve: self.curve.deep_view(),
            encoding: self.encoding.deep_view(),
            test_type: self.test_type.deep_view(),
            tests: self.tests.deep_view(),
        }
    }
}

impl Record for TestGroup {
    open spec fn spec_known_field(name: Seq<char>) -> bool {
        name == "curve"@
            || name == "encoding"@
            || name == "type"@
            || name == "tests"@
    }

    fn known_field(name: &str) -> (r: bool) {
        str_eq(name, "curve")
            || str_eq(name, "encoding")
            || str_eq(name, "type")
            || str_eq(name, "tests")
    }

    open spec fn spec_decode_fields(fields: Seq<(String, Json)>) -> Result<TestGroupView, ParseFailure> {
        let curve = spec_named_field::<EllipticCurve>(fields, "curve"@);
        let encoding = spec_named_field::<EcdhEncoding>(fields, "encoding"@);
        let test_type = spec_named_field::<TestGroupTypeId>(fields, "type"@);
        let tests = spec_field::<Vec<Test>>(fields, "tests"@);
        if curve is Err { Err(curve->Err_0) }
        else if encoding is Err { Err(encoding->Err_0) }
        else if test_type is Err { Err(test_type->Err_0) }
        else if tests is Err { Err(tests->Err_0) }
        else {
            Ok(TestGroupView {
                curve: curve->Ok_0,
                encoding: encoding->Ok_0,
                test_type: test_type->Ok_0,
                tests: tests->Ok_0,
            })
        }
    }

    fn decode_fields(fields: &Vec<(String, Json)>) -> (r: Result<TestGroup, ParseError>) {
        let curve = named_field::<EllipticCurve>(fields, "curve")?;
        let encoding = named_field::<EcdhEncoding>(fields, "encoding")?;
        let test_type = named_field::<TestGroupTypeId>(fields, "type")?;
        let tests = field::<Vec<Test>>(fields, "tests")?;
        Ok(TestGroup { curve, encoding, test_type, tests })
    }
}

/// A set of ECDH tests.
#[derive(Debug, Clone, Hash, PartialEq, Eq)]
pub struct TestSet {
    pub algorithm: Algorithm,
    pub generator_version: String,
    pub number_of_tests: usize,
    pub header: String,
    pub notes: Vec<(TestFlag, TestFlagInfo)>,
    pub schema: TestSchema,
    pub test_groups: Vec<TestGroup>,
}

/// The mathematical value of a [`TestSet`].
pub struct TestSetView {
    pub algorithm: Algorithm,
    pub generator_version: Seq<char>,
    pub number_of_tests: usize,
    pub header: Seq<char>,
    pub notes: Seq<(TestFlag, TestFlagInfoView)>,
    pub schema: Seq<char>,
    pub test_groups: Seq<TestGroupView>,
}

impl DeepView for TestSet {
    type V = TestSetView;

    open spec fn deep_view(&self) -> TestSetView {
        TestSetView {
            algorithm: self.algorithm.deep_view(),
            generator_version: self.generator_version.deep_view(),
            number_of_tests: self.number_of_tests.deep_view(),
            header: self.header.deep_view(),
            notes: self.notes.deep_view(),
            schema: self.schema.deep_view(),
            test_groups: self.test_groups.deep_view(),
        }
    }
}

impl Record for TestSet {
    open spec fn spec_known_field(name: Seq<char>) -> bool {
        name == "algorithm"@
            || name == "generatorVersion"@
            || name == "numberOfTests"@
            || name == "header"@
            || name == "notes"@
            || name == "schema"@
            || name == "testGroups"@
    }

    fn known_field(name: &str) -> (r: bool) {
        str_eq(name, "algorithm")
            || str_eq(name, "generatorVersion")
            || str_eq(name, "numberOfTests")
            || str_eq(name, "header")
            || str_eq(name, "notes")
            || str_eq(name, "schema")
            || str_eq(name, "testGroups")
    }

    open spec fn spec_decode_fields(fields: Seq<(String, Json)>) -> Result<TestSetView, ParseFailure> {
        let algorithm = spec_named_field::<Algorithm>(fields, "algorithm"@);
        let generator_version = spec_field::<String>(fields, "generatorVersion"@);
        let number_of_tests = spec_field::<usize>(fields, "numberOfTests"@);
        let header = spec_header_field(fields, "header"@);
        let notes = spec_map_field::<TestFlag, TestFlagInfo>(fields, "notes"@);
        let schema = spec_named_field::<TestSchema>(fields, "schema"@);
        let test_groups = spec_field::<Vec<TestGroup>>(fields, "testGroups"@);
        if algorithm is Err { Err(algorithm->Err_0) }
        else if generator_version is Err { Err(generator_version->Err_0) }
        else if number_of_tests is Err { Err(number_of_tests->Err_0) }
        else if header is Err { Err(header->Err_0) }
        else if notes is Err { Err(notes->Err_0) }
        else if schema is Err { Err(schema->Err_0) }
        else if test_groups is Err { Err(test_groups->Err_0) }
        else {
            Ok(TestSetView {
                algorithm: algorithm->Ok_0,
                generator_version: generator_version->Ok_0,
                number_of_tests: number_of_tests->Ok_0,
                header: header->Ok_0,
                notes: notes->Ok_0,
                schema: schema->Ok_0,
                test_groups: test_groups->Ok_0,
            })
        }
    }

    fn decode_fields(fields: &Vec<(String, Json)>) -> (r: Result<TestSet, ParseError>) {
        let algorithm = named_field::<Algorithm>(fields, "algorithm")?;
        let generator_version = field::<String>(fields, "generatorVersion")?;
        let number_of_tests = field::<usize>(fields, "numberOfTests")?;
        let header = header_field(fields, "header")?;
        let notes = map_field::<TestFlag, TestFlagInfo>(fields, "notes")?;
        let schema = named_field::<TestSchema>(fields, "schema")?;
        let test_groups = field::<Vec<TestGroup>>(fields, "testGroups")?;
        Ok(TestSet { algorithm, generator_version, number_of_tests, header, notes, schema, test_groups })
    }
}

impl Case for Test {
    type Flag = TestFlag;

    proof fn lemma_flags_decoded(fields: Seq<(String, Json)>) {
    }
}

impl Grouped for TestGroup {
    type Test = Test;

    type Tag = TestGroupTypeId;

    open spec fn spec_test_count(&self) -> nat {
        self.tests@.len()
    }

    fn test_count(&self) -> (n: usize) {
        self.tests.len()
    }

    proof fn lemma_members_decoded(fields: Seq<(String, Json)>) {
    }
}

impl Suite for TestSet {
    type Group = TestGroup;

    type Schema = TestSchema;

    open spec fn spec_declared_tests(&self) -> nat {
        self.number_of_tests as nat
    }

    open spec fn spec_actual_tests(&self) -> nat {
        spec_total_tests(self.test_groups@)
    }

    fn counts_match(&self) -> (ok: bool) {
        count_matches(self.number_of_tests, &self.test_groups)
    }

    open spec fn spec_consistent(v: TestSetView) -> bool {
        v.number_of_tests == sum(Seq::new(v.test_groups.len(), |i: int| v.test_groups[i].tests.len()))
    }

    proof fn lemma_consistent(&self) {
        assert(test_counts(self.test_groups@) =~= Seq::new(
            self.deep_view().test_groups.len(),
            |i: int| self.deep_view().test_groups[i].tests.len(),
        ));
    }

    open spec fn spec_notes_distinct(v: TestSetView) -> bool {
        distinct_keys(v.notes)
    }

    proof fn lemma_members_decoded(fields: Seq<(String, Json)>) {
        lemma_decoded_map_distinct::<TestFlag, TestFlagInfo>(spec_find(fields, "notes"@)->Some_0);
    }
}

impl TestSet {
    /// Accepts a test set whose declared count is the number of its tests.
    pub fn check(obj: TestSet) -> (r: Result<TestSet, WycheproofError>)
        ensures
            r is Ok <==> obj.number_of_tests == spec_total_tests(obj.test_groups@),
            r is Ok ==> r->Ok_0 == obj,
            r is Err ==> r->Err_0 is InvalidData,
    {
        check(obj)
    }

    /// Reads and checks a test set from a JSON value.
    pub fn from_json(j: &Json) -> (r: Result<TestSet, WycheproofError>)
        ensures
            load_outcome(r) == spec_from_json::<TestSet>(*j),
            r is Ok ==> r->Ok_0.number_of_tests == spec_total_tests(r->Ok_0.test_groups@),
    {
        from_json::<TestSet>(j)
    }

    /// Reads and checks a test set from the text of its document.
    pub fn load_from_text(text: &str) -> (r: Result<TestSet, WycheproofError>)
        ensures
            load_post::<TestSet>(text@, r),
            r is Ok ==> r->Ok_0.number_of_tests == spec_total_tests(r->Ok_0.test_groups@),
    {
        load_from_text::<TestSet>(text)
    }

    /// What the document says of a flag, if it says anything.
    pub fn note(&self, flag: TestFlag) -> (r: Option<&TestFlagInfo>)
        ensures
            r.deep_view() == spec_lookup(self.deep_view().notes, flag),
    {
        lookup(&self.notes, &flag)
    }
}

} // verus!
