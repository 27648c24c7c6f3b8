//! The closed vocabularies that all test families share.

use vstd::prelude::*;
use crate::named::Named;
use crate::text::str_eq;

verus! {

/// The expected result of a test.
#[derive(Debug, Copy, Clone, Hash, PartialEq, Eq, Structural)]
pub enum TestResult {
    /// The test is expected to pass.
    Valid,
    /// The test is expected to fail.
    Invalid,
    /// The test may pass, and may reasonably fail for policy reasons
    /// (a valid signature made with a hash function that is too weak).
    Acceptable,
}

impl DeepView for TestResult {
    type V = TestResult;

    open spec fn deep_view(&self) -> TestResult {
        *self
    }
}

impl Named for TestResult {
    open spec fn spec_vocabulary() -> Seq<char> {
        "TestResult"@
    }

    fn vocabulary() -> (r: &'static str) {
        "TestResult"
    }

    open spec fn spec_from_name(name: Seq<char>) -> Option<TestResult> {
        if name == "valid"@ { Some(TestResult::Valid) }
        else if name == "invalid"@ { Some(TestResult::Invalid) }
        else if name == "acceptable"@ { Some(TestResult::Acceptable) }
        else { None }
    }

    fn from_name(name: &str) -> (r: Option<TestResult>) {
        if str_eq(name, "valid") { Some(TestResult::Valid) }
        else if str_eq(name, "invalid") { Some(TestResult::Invalid) }
        else if str_eq(name, "acceptable") { Some(TestResult::Acceptable) }
        else { None }
    }

    fn same(&self, other: &TestResult) -> (r: bool) {
        *self == *other
    }
}

impl TestResult {
    /// Whether the test must fail.
    pub fn must_fail(&self) -> (r: bool)
        ensures
            r <==> *self == TestResult::Invalid,
    {
        match self {
            TestResult::Valid => false,
            TestResult::Acceptable => false,
            TestResult::Invalid => true,
        }
    }
}

/// Prime order elliptic curves.
#[derive(Debug, Copy, Clone, Hash, PartialEq, Eq, Structural)]
pub enum EllipticCurve {
    Secp160r1,
    Secp160r2,
    Secp160k1,
    Secp192r1,
    Secp192k1,
    Secp224r1,
    Secp256r1,
    Secp384r1,
    Secp521r1,
    Secp224k1,
    Secp256k1,
    Brainpool224r1,
    Brainpool256r1,
    Brainpool320r1,
    Brainpool384r1,
    Brainpool512r1,
    Brainpool224t1,
    Brainpool256t1,
    Brainpool320t1,
    Brainpool384t1,
    Brainpool512t1,
}

impl DeepView for EllipticCurve {
    type V = EllipticCurve;

    open spec fn deep_view(&self) -> EllipticCurve {
        *self
    }
}

impl Named for EllipticCurve {
    open spec fn spec_vocabulary() -> Seq<char> {
        "EllipticCurve"@
    }

    fn vocabulary() -> (r: &'static str) {
        "EllipticCurve"
    }

    open spec fn spec_from_name(name: Seq<char>) -> Option<EllipticCurve> {
        if name == "secp160r1"@ { Some(EllipticCurve::Secp160r1) }
        else if name == "secp160r2"@ { Some(EllipticCurve::Secp160r2) }
        else if name == "secp160k1"@ { Some(EllipticCurve::Secp160k1) }
        else if name == "secp192r1"@ { Some(EllipticCurve::Secp192r1) }
        else if name == "secp192k1"@ { Some(EllipticCurve::Secp192k1) }
        else if name == "secp224r1"@ { Some(EllipticCurve::Secp224r1) }
        else if name == "secp256r1"@ { Some(EllipticCurve::Secp256r1) }
        else if name == "P-256"@ { Some(EllipticCurve::Secp256r1) }
        else if name == "secp384r1"@ { Some(EllipticCurve::Secp384r1) }
        else if name == "P-384"@ { Some(EllipticCurve::Secp384r1) }
        else if name == "secp521r1"@ { Some(EllipticCurve::Secp521r1) }
        else if name == "P-521"@ { Some(EllipticCurve::Secp521r1) }
        else if name == "secp224k1"@ { Some(EllipticCurve::Secp224k1) }
        else if name == "secp256k1"@ { Some(EllipticCurve::Secp256k1) }
        else if name == "P-256K"@ { Some(EllipticCurve::Secp256k1) }
        else if name == "brainpoolP224r1"@ { Some(EllipticCurve::Brainpool224r1) }
        else if name == "brainpoolP256r1"@ { Some(EllipticCurve::Brainpool256r1) }
        else if name == "brainpoolP320r1"@ { Some(EllipticCurve::Brainpool320r1) }
        else if name == "brainpoolP384r1"@ { Some(EllipticCurve::Brainpool384r1) }
        else if name == "brainpoolP512r1"@ { Some(EllipticCurve::Brainpool512r1) }
        else if name == "brainpoolP224t1"@ { Some(EllipticCurve::Brainpool224t1) }
        else if name == "brainpoolP256t1"@ { Some(EllipticCurve::Brainpool256t1) }
        else if name == "brainpoolP320t1"@ { Some(EllipticCurve::Brainpool320t1) }
        else if name == "brainpoolP384t1"@ { Some(EllipticCurve::Brainpool384t1) }
        else if name == "brainpoolP512t1"@ { Some(EllipticCurve::Brainpool512t1) }
        else { None }
    }

    fn from_name(name: &str) -> (r: Option<EllipticCurve>) {
        if str_eq(name, "secp160r1") { Some(EllipticCurve::Secp160r1) }
        else if str_eq(name, "secp160r2") { Some(EllipticCurve::Secp160r2) }
        else if str_eq(name, "secp160k1") { Some(EllipticCurve::Secp160k1) }
        else if str_eq(name, "secp192r1") { Some(EllipticCurve::Secp192r1) }
        else if str_eq(name, "secp192k1") { Some(EllipticCurve::Secp192k1) }
        else if str_eq(name, "secp224r1") { Some(EllipticCurve::Secp224r1) }
        else if str_eq(name, "secp256r1") { Some(EllipticCurve::Secp256r1) }
        else if str_eq(name, "P-256") { Some(EllipticCurve::Secp256r1) }
        else if str_eq(name, "secp384r1") { Some(EllipticCurve::Secp384r1) }
        else if str_eq(name, "P-384") { Some(EllipticCurve::Secp384r1) }
        else if str_eq(name, "secp521r1") { Some(EllipticCurve::Secp521r1) }
        else if str_eq(name, "P-521") { Some(EllipticCurve::Secp521r1) }
        else if str_eq(name, "secp224k1") { Some(EllipticCurve::Secp224k1) }
        else if str_eq(name, "secp256k1") { Some(EllipticCurve::Secp256k1) }
        else if str_eq(name, "P-256K") { Some(EllipticCurve::Secp256k1) }
        else if str_eq(name, "brainpoolP224r1") { Some(EllipticCurve::Brainpool224r1) }
        else if str_eq(name, "brainpoolP256r1") { Some(EllipticCurve::Brainpool256r1) }
        else if str_eq(name, "brainpoolP320r1") { Some(EllipticCurve::Brainpool320r1) }
        else if str_eq(name, "brainpoolP384r1") { Some(EllipticCurve::Brainpool384r1) }
        else if str_eq(name, "brainpoolP512r1") { Some(EllipticCurve::Brainpool512r1) }
        else if str_eq(name, "brainpoolP224t1") { Some(EllipticCurve::Brainpool224t1) }
        else if str_eq(name, "brainpoolP256t1") { Some(EllipticCurve::Brainpool256t1) }
        else if str_eq(name, "brainpoolP320t1") { Some(EllipticCurve::Brainpool320t1) }
        else if str_eq(name, "brainpoolP384t1") { Some(EllipticCurve::Brainpool384t1) }
        else if str_eq(name, "brainpoolP512t1") { Some(EllipticCurve::Brainpool512t1) }
        else { None }
    }

    fn same(&self, other: &EllipticCurve) -> (r: bool) {
        *self == *other
    }
}

/// Hash function identifiers.
#[allow(non_camel_case_types)]
#[derive(Debug, Copy, Clone, Hash, PartialEq, Eq, Structural)]
pub enum HashFunction {
    Sha1,
    Sha2_224,
    Sha2_256,
    Sha2_384,
    Sha2_512,
    Sha2_512_224,
    Sha2_512_256,
    Sha3_224,
    Sha3_256,
    Sha3_384,
    Sha3_512,
    Shake128,
    Shake256,
}

impl DeepView for HashFunction {
    type V = HashFunction;

    open spec fn deep_view(&self) -> HashFunction {
        *self
    }
}

impl Named for HashFunction {
    open spec fn spec_vocabulary() -> Seq<char> {
        "HashFunction"@
    }

    fn vocabulary() -> (r: &'static str) {
        "HashFunction"
    }

    open spec fn spec_from_name(name: Seq<char>) -> Option<HashFunction> {
        if name == "SHA-1"@ { Some(HashFunction::Sha1) }
        else if name == "SHA-224"@ { Some(HashFunction::Sha2_224) }
        else if name == "SHA-256"@ { Some(HashFunction::Sha2_256) }
        else if name == "SHA-384"@ { Some(HashFunction::Sha2_384) }
        else if name == "SHA-512"@ { Some(HashFunction::Sha2_512) }
        else if name == "SHA-512/224"@ { Some(HashFunction::Sha2_512_224) }
        else if name == "SHA-512/256"@ { Some(HashFunction::Sha2_512_256) }
        else if name == "SHA3-224"@ { Some(HashFunction::Sha3_224) }
        else if name == "SHA3-256"@ { Some(HashFunction::Sha3_256) }
        else if name == "SHA3-384"@ { Some(HashFunction::Sha3_384) }
        else if name == "SHA3-512"@ { Some(HashFunction::Sha3_512) }
        else if name == "SHAKE128"@ { Some(HashFunction::Shake128) }
        else if name == "SHAKE256"@ { Some(HashFunction::Shake256) }
        else { None }
    }

    fn from_name(name: &str) -> (r: Option<HashFunction>) {
        if str_eq(name, "SHA-1") { Some(HashFunction::Sha1) }
        else if str_eq(name, "SHA-224") { Some(HashFunction::Sha2_224) }
        else if str_eq(name, "SHA-256") { Some(HashFunction::Sha2_256) }
        else if str_eq(name, "SHA-384") { Some(HashFunction::Sha2_384) }
        else if str_eq(name, "SHA-512") { Some(HashFunction::Sha2_512) }
        else if str_eq(name, "SHA-512/224") { Some(HashFunction::Sha2_512_224) }
        else if str_eq(name, "SHA-512/256") { Some(HashFunction::Sha2_512_256) }
        else if str_eq(name, "SHA3-224") { Some(HashFunction::Sha3_224) }
        else if str_eq(name, "SHA3-256") { Some(HashFunction::Sha3_256) }
        else if str_eq(name, "SHA3-384") { Some(HashFunction::Sha3_384) }
        else if str_eq(name, "SHA3-512") { Some(HashFunction::Sha3_512) }
        else if str_eq(name, "SHAKE128") { Some(HashFunction::Shake128) }
        else if str_eq(name, "SHAKE256") { Some(HashFunction::Shake256) }
        else { None }
    }

    fn same(&self, other: &HashFunction) -> (r: bool) {
        *self == *other
    }
}

/// Mask generation function identifiers.
#[derive(Debug, Copy, Clone, Hash, PartialEq, Eq, Structural)]
pub enum Mgf {
    Mgf1,
    Shake128,
    Shake256,
}

impl DeepView for Mgf {
    type V = Mgf;

    open spec fn deep_view(&self) -> Mgf {
        *self
    }
}

impl Named for Mgf {
    open spec fn spec_vocabulary() -> Seq<char> {
        "Mgf"@
    }

    fn vocabulary() -> (r: &'static str) {
        "Mgf"
    }

    open spec fn spec_from_name(name: Seq<char>) -> Option<Mgf> {
        if name == "MGF1"@ { Some(Mgf::Mgf1) }
        else if name == "SHAKE128"@ { Some(Mgf::Shake128) }
        else if name == "SHAKE256"@ { Some(Mgf::Shake256) }
        else { None }
    }

    fn from_name(name: &str) -> (r: Option<Mgf>) {
        if str_eq(name, "MGF1") { Some(Mgf::Mgf1) }
        else if str_eq(name, "SHAKE128") { Some(Mgf::Shake128) }
        else if str_eq(name, "SHAKE256") { Some(Mgf::Shake256) }
        else { None }
    }

    fn same(&self, other: &Mgf) -> (r: bool) {
        *self == *other
    }
}

/// Edwards curves.
#[derive(Debug, Copy, Clone, Hash, PartialEq, Eq, Structural)]
pub enum EdwardsCurve {
    Ed25519,
    Ed448,
}

impl DeepView for EdwardsCurve {
    type V = EdwardsCurve;

    open spec fn deep_view(&self) -> EdwardsCurve {
        *self
    }
}

impl Named for EdwardsCurve {
    open spec fn spec_vocabulary() -> Seq<char> {
        "EdwardsCurve"@
    }

    fn vocabulary() -> (r: &'static str) {
        "EdwardsCurve"
    }

    open spec fn spec_from_name(name: Seq<char>) -> Option<EdwardsCurve> {
        if name == "Ed25519"@ { Some(EdwardsCurve::Ed25519) }
        else if name == "edwards25519"@ { Some(EdwardsCurve::Ed25519) }
        else if name == "Ed448"@ { Some(EdwardsCurve::Ed448) }
        else if name == "edwards448"@ { Some(EdwardsCurve::Ed448) }
        else { None }
    }

    fn from_name(name: &str) -> (r: Option<EdwardsCurve>) {
        if str_eq(name, "Ed25519") { Some(EdwardsCurve::Ed25519) }
        else if str_eq(name, "edwards25519") { Some(EdwardsCurve::Ed25519) }
        else if str_eq(name, "Ed448") { Some(EdwardsCurve::Ed448) }
        else if str_eq(name, "edwards448") { Some(EdwardsCurve::Ed448) }
        else { None }
    }

    fn same(&self, other: &EdwardsCurve) -> (r: bool) {
        *self == *other
    }
}

/// Montgomery curves.
#[derive(Debug, Copy, Clone, Hash, PartialEq, Eq, Structural)]
pub enum MontgomeryCurve {
    X25519,
    X448,
}

impl DeepView for MontgomeryCurve {
    type V = MontgomeryCurve;

    open spec fn deep_view(&self) -> MontgomeryCurve {
        *self
    }
}

impl Named for MontgomeryCurve {
    open spec fn spec_vocabulary() -> Seq<char> {
        "MontgomeryCurve"@
    }

    fn vocabulary() -> (r: &'static str) {
        "MontgomeryCurve"
    }

    open spec fn spec_from_name(name: Seq<char>) -> Option<MontgomeryCurve> {
        if name == "X25519"@ { Some(MontgomeryCurve::X25519) }
        else if name == "curve25519"@ { Some(MontgomeryCurve::X25519) }
        else if name == "X448"@ { Some(MontgomeryCurve::X448) }
        else if name == "curve448"@ { Some(MontgomeryCurve::X448) }
        else { None }
    }

    fn from_name(name: &str) -> (r: Option<MontgomeryCurve>) {
        if str_eq(name, "X25519") { Some(MontgomeryCurve::X25519) }
        else if str_eq(name, "curve25519") { Some(MontgomeryCurve::X25519) }
        else if str_eq(name, "X448") { Some(MontgomeryCurve::X448) }
        else if str_eq(name, "curve448") { Some(MontgomeryCurve::X448) }
        else { None }
    }

    fn same(&self, other: &MontgomeryCurve) -> (r: bool) {
        *self == *other
    }
}

} // verus!
