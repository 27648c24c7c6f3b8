//! AEAD tests.

use vstd::prelude::*;
use crate::bytes::{hex_field, spec_hex_field};
use crate::decode::{field, spec_field};
use crate::error::{ParseError, ParseFailure, WycheproofError};
use crate::json::{spec_find, Json};
use crate::named::{Named, named_field, named_list_field, spec_named_field, spec_named_list_field};
use crate::notes::{CVE, TestFlagInfo, TestFlagInfoView};
use crate::record::Record;
use crate::suite::{
    Case, check, count_matches, distinct_keys, from_json, Grouped, header_field,
    lemma_decoded_map_distinct, load_from_text, load_outcome, load_post, lookup, map_field,
    spec_from_json, spec_header_field, spec_lookup, spec_map_field, spec_total_tests, Suite, sum,
    test_counts,
};
use crate::text::str_eq;
use crate::vocab::TestResult;

verus! {

/// The schema that a document of AEAD tests declares.
#[derive(Debug, Clone, Hash, PartialEq, Eq)]
pub struct TestSchema {
    pub schema: String,
}

impl DeepView for TestSchema {
    type V = Seq<char>;

    open spec fn deep_view(&self) -> Seq<char> {
        self.schema@
    }
}

impl Named for TestSchema {
    open spec fn spec_vocabulary() -> Seq<char> {
        "AEAD schema"@
    }

    fn vocabulary() -> (r: &'static str) {
        "AEAD schema"
    }

    open spec fn spec_from_name(name: Seq<char>) -> Option<Seq<char>> {
        if name == "aead_test_schema.json"@ {
            Some(name)
        } else {
            None
        }
    }

    fn from_name(name: &str) -> (r: Option<TestSchema>) {
        if str_eq(name, "aead_test_schema.json") {
            Some(TestSchema { schema: name.to_owned() })
        } else {
            None
        }
    }

    fn same(&self, other: &TestSchema) -> (r: bool) {
        str_eq(self.schema.as_str(), other.schema.as_str())
    }
}

/// The test sets of this family.
#[derive(Debug, Copy, Clone, Hash, PartialEq, Eq, Structural)]
pub enum TestName {
    Aegis128,
    Aegis128L,
    Aegis256,
    Aes128CbcHmacSha256,
    Aes192CbcHmacSha384,
    Aes256CbcHmacSha512,
    AesCcm,
    AesEax,
    AesGcm,
    AesGcmSiv,
    AesSivCmac,
    AriaCcm,
    AriaGcm,
    Ascon128,
    Ascon128a,
    Ascon80pq,
    CamelliaCcm,
    ChaCha20Poly1305,
    Morus1280,
    Morus640,
    SeedCcm,
    SeedGcm,
    Sm4Ccm,
    Sm4Gcm,
    XChaCha20Poly1305,
}

impl DeepView for TestName {
    type V = TestName;

    open spec fn deep_view(&self) -> TestName {
        *self
    }
}

impl Named for TestName {
    open spec fn spec_vocabulary() -> Seq<char> {
        "TestName"@
    }

    fn vocabulary() -> (r: &'static str) {
        "TestName"
    }

    open spec fn spec_from_name(name: Seq<char>) -> Option<TestName> {
        if name == "aegis128"@ { Some(TestName::Aegis128) }
        else if name == "aegis128L"@ { Some(TestName::Aegis128L) }
        else if name == "aegis256"@ { Some(TestName::Aegis256) }
        else if name == "a128cbc_hs256"@ { Some(TestName::Aes128CbcHmacSha256) }
        else if name == "a192cbc_hs384"@ { Some(TestName::Aes192CbcHmacSha384) }
        else if name == "a256cbc_hs512"@ { Some(TestName::Aes256CbcHmacSha512) }
        else if name == "aes_ccm"@ { Some(TestName::AesCcm) }
        else if name == "aes_eax"@ { Some(TestName::AesEax) }
        else if name == "aes_gcm"@ { Some(TestName::AesGcm) }
        else if name == "aes_gcm_siv"@ { Some(TestName::AesGcmSiv) }
        else if name == "aead_aes_siv_cmac"@ { Some(TestName::AesSivCmac) }
        else if name == "aria_ccm"@ { Some(TestName::AriaCcm) }
        else if name == "aria_gcm"@ { Some(TestName::AriaGcm) }
        else if name == "ascon128"@ { Some(TestName::Ascon128) }
        else if name == "ascon128a"@ { Some(TestName::Ascon128a) }
        else if name == "ascon80pq"@ { Some(TestName::Ascon80pq) }
        else if name == "camellia_ccm"@ { Some(TestName::CamelliaCcm) }
        else if name == "chacha20_poly1305"@ { Some(TestName::ChaCha20Poly1305) }
        else if name == "morus1280"@ { Some(TestName::Morus1280) }
        else if name == "morus640"@ { Some(TestName::Morus640) }
        else if name == "seed_ccm"@ { Some(TestName::SeedCcm) }
        else if name == "seed_gcm"@ { Some(TestName::SeedGcm) }
        else if name == "sm4_ccm"@ { Some(TestName::Sm4Ccm) }
        else if name == "sm4_gcm"@ { Some(TestName::Sm4Gcm) }
        else if name == "xchacha20_poly1305"@ { Some(TestName::XChaCha20Poly1305) }
        else { None }
    }

    fn from_name(name: &str) -> (r: Option<TestName>) {
        if str_eq(name, "aegis128") { Some(TestName::Aegis128) }
        else if str_eq(name, "aegis128L") { Some(TestName::Aegis128L) }
        else if str_eq(name, "aegis256") { Some(TestName::Aegis256) }
        else if str_eq(name, "a128cbc_hs256") { Some(TestName::Aes128CbcHmacSha256) }
        else if str_eq(name, "a192cbc_hs384") { Some(TestName::Aes192CbcHmacSha384) }
        else if str_eq(name, "a256cbc_hs512") { Some(TestName::Aes256CbcHmacSha512) }
        else if str_eq(name, "aes_ccm") { Some(TestName::AesCcm) }
        else if str_eq(name, "aes_eax") { Some(TestName::AesEax) }
        else if str_eq(name, "aes_gcm") { Some(TestName::AesGcm) }
        else if str_eq(name, "aes_gcm_siv") { Some(TestName::AesGcmSiv) }
        else if str_eq(name, "aead_aes_siv_cmac") { Some(TestName::AesSivCmac) }
        else if str_eq(name, "aria_ccm") { Some(TestName::AriaCcm) }
        else if str_eq(name, "aria_gcm") { Some(TestName::AriaGcm) }
        else if str_eq(name, "ascon128") { Some(TestName::Ascon128) }
        else if str_eq(name, "ascon128a") { Some(TestName::Ascon128a) }
        else if str_eq(name, "ascon80pq") { Some(TestName::Ascon80pq) }
        else if str_eq(name, "camellia_ccm") { Some(TestName::CamelliaCcm) }
        else if str_eq(name, "chacha20_poly1305") { Some(TestName::ChaCha20Poly1305) }
        else if str_eq(name, "morus1280") { Some(TestName::Morus1280) }
        else if str_eq(name, "morus640") { Some(TestName::Morus640) }
        else if str_eq(name, "seed_ccm") { Some(TestName::SeedCcm) }
        else if str_eq(name, "seed_gcm") { Some(TestName::SeedGcm) }
        else if str_eq(name, "sm4_ccm") { Some(TestName::Sm4Ccm) }
        else if str_eq(name, "sm4_gcm") { Some(TestName::Sm4Gcm) }
        else if str_eq(name, "xchacha20_poly1305") { Some(TestName::XChaCha20Poly1305) }
        else { None }
    }

    fn same(&self, other: &TestName) -> (r: bool) {
        *self == *other
    }
}

impl TestName {
    /// The name under which the test set is kept.
    pub open spec fn spec_name(self) -> Seq<char> {
        match self {
            TestName::Aegis128 => "aegis128"@,
            TestName::Aegis128L => "aegis128L"@,
            TestName::Aegis256 => "aegis256"@,
            TestName::Aes128CbcHmacSha256 => "a128cbc_hs256"@,
            TestName::Aes192CbcHmacSha384 => "a192cbc_hs384"@,
            TestName::Aes256CbcHmacSha512 => "a256cbc_hs512"@,
            TestName::AesCcm => "aes_ccm"@,
            TestName::AesEax => "aes_eax"@,
            TestName::AesGcm => "aes_gcm"@,
            TestName::AesGcmSiv => "aes_gcm_siv"@,
            TestName::AesSivCmac => "aead_aes_siv_cmac"@,
            TestName::AriaCcm => "aria_ccm"@,
            TestName::AriaGcm => "aria_gcm"@,
            TestName::Ascon128 => "ascon128"@,
            TestName::Ascon128a => "ascon128a"@,
            TestName::Ascon80pq => "ascon80pq"@,
            TestName::CamelliaCcm => "camellia_ccm"@,
            TestName::ChaCha20Poly1305 => "chacha20_poly1305"@,
            TestName::Morus1280 => "morus1280"@,
            TestName::Morus640 => "morus640"@,
            TestName::SeedCcm => "seed_ccm"@,
            TestName::SeedGcm => "seed_gcm"@,
            TestName::Sm4Ccm => "sm4_ccm"@,
            TestName::Sm4Gcm => "sm4_gcm"@,
            TestName::XChaCha20Poly1305 => "xchacha20_poly1305"@,
        }
    }

    pub fn name(&self) -> (r: &'static str)
        ensures
            r@ == self.spec_name(),
    {
        match self {
            TestName::Aegis128 => "aegis128",
            TestName::Aegis128L => "aegis128L",
            TestName::Aegis256 => "aegis256",
            TestName::Aes128CbcHmacSha256 => "a128cbc_hs256",
            TestName::Aes192CbcHmacSha384 => "a192cbc_hs384",
            TestName::Aes256CbcHmacSha512 => "a256cbc_hs512",
            TestName::AesCcm => "aes_ccm",
            TestName::AesEax => "aes_eax",
            TestName::AesGcm => "aes_gcm",
            TestName::AesGcmSiv => "aes_gcm_siv",
            TestName::AesSivCmac => "aead_aes_siv_cmac",
            TestName::AriaCcm => "aria_ccm",
            TestName::AriaGcm => "aria_gcm",
            TestName::Ascon128 => "ascon128",
            TestName::Ascon128a => "ascon128a",
            TestName::Ascon80pq => "ascon80pq",
            TestName::CamelliaCcm => "camellia_ccm",
            TestName::ChaCha20Poly1305 => "chacha20_poly1305",
            TestName::Morus1280 => "morus1280",
            TestName::Morus640 => "morus640",
            TestName::SeedCcm => "seed_ccm",
            TestName::SeedGcm => "seed_gcm",
            TestName::Sm4Ccm => "sm4_ccm",
            TestName::Sm4Gcm => "sm4_gcm",
            TestName::XChaCha20Poly1305 => "xchacha20_poly1305",
        }
    }

    /// Every test set of the family, in a fixed order.
    pub open spec fn spec_all() -> Seq<TestName> {
        seq![
            TestName::Aegis128,
            TestName::Aegis128L,
            TestName::Aegis256,
            TestName::Aes128CbcHmacSha256,
            TestName::Aes192CbcHmacSha384,
            TestName::Aes256CbcHmacSha512,
            TestName::AesCcm,
            TestName::AesEax,
            TestName::AesGcm,
            TestName::AesGcmSiv,
            TestName::AesSivCmac,
            TestName::AriaCcm,
            TestName::AriaGcm,
            TestName::Ascon128,
            TestName::Ascon128a,
            TestName::Ascon80pq,
            TestName::CamelliaCcm,
            TestName::ChaCha20Poly1305,
            TestName::Morus1280,
            TestName::Morus640,
            TestName::SeedCcm,
            TestName::SeedGcm,
            TestName::Sm4Ccm,
            TestName::Sm4Gcm,
            TestName::XChaCha20Poly1305,
        ]
    }

    pub fn all() -> (r: Vec<TestName>)
        ensures
            r@ == Self::spec_all(),
    {
        let r = vec![
            TestName::Aegis128,
            TestName::Aegis128L,
            TestName::Aegis256,
            TestName::Aes128CbcHmacSha256,
            TestName::Aes192CbcHmacSha384,
            TestName::Aes256CbcHmacSha512,
            TestName::AesCcm,
            TestName::AesEax,
            TestName::AesGcm,
            TestName::AesGcmSiv,
            TestName::AesSivCmac,
            TestName::AriaCcm,
            TestName::AriaGcm,
            TestName::Ascon128,
            TestName::Ascon128a,
            TestName::Ascon80pq,
            TestName::CamelliaCcm,
            TestName::ChaCha20Poly1305,
            TestName::Morus1280,
            TestName::Morus640,
            TestName::SeedCcm,
            TestName::SeedGcm,
            TestName::Sm4Ccm,
            TestName::Sm4Gcm,
            TestName::XChaCha20Poly1305,
        ];
        assert(r@ =~= Self::spec_all());
        r
    }

    /// Finds a test set by its name.
    pub fn from_str(s: &str) -> (r: Result<TestName, WycheproofError>)
        ensures
            match r {
                Ok(t) => Self::spec_from_name(s@) == Some(t),
                Err(e) => Self::spec_from_name(s@) is None && e is NoDataSet,
            },
    {
        match Self::from_name(s) {
            Some(t) => Ok(t),
            None => Err(WycheproofError::NoDataSet),
        }
    }
}

impl std::str::FromStr for TestName {
    type Err = WycheproofError;

    fn from_str(s: &str) -> (r: Result<TestName, WycheproofError>)
        ensures
            match r {
                Ok(t) => TestName::spec_from_name(s@) == Some(t),
                Err(e) => TestName::spec_from_name(s@) is None && e is NoDataSet,
            },
    {
        TestName::from_str(s)
    }
}

/// Every test set is found again by its name.
pub proof fn lemma_name_round_trip(t: TestName)
    ensures
        TestName::spec_from_name(t.spec_name()) == Some(t),
{
    reveal_strlit("aegis128");
    assert("aegis128"@ =~= seq!['a', 'e', 'g', 'i', 's', '1', '2', '8']);
    reveal_strlit("aegis128L");
    assert("aegis128L"@ =~= seq!['a', 'e', 'g', 'i', 's', '1', '2', '8', 'L']);
    reveal_strlit("aegis256");
    assert("aegis256"@ =~= seq!['a', 'e', 'g', 'i', 's', '2', '5', '6']);
    reveal_strlit("a128cbc_hs256");
    assert("a128cbc_hs256"@ =~= seq!['a', '1', '2', '8', 'c', 'b', 'c', '_', 'h', 's', '2', '5', '6']);
    reveal_strlit("a192cbc_hs384");
    assert("a192cbc_hs384"@ =~= seq!['a', '1', '9', '2', 'c', 'b', 'c', '_', 'h', 's', '3', '8', '4']);
    reveal_strlit("a256cbc_hs512");
    assert("a256cbc_hs512"@ =~= seq!['a', '2', '5', '6', 'c', 'b', 'c', '_', 'h', 's', '5', '1', '2']);
    reveal_strlit("aes_ccm");
    assert("aes_ccm"@ =~= seq!['a', 'e', 's', '_', 'c', 'c', 'm']);
    reveal_strlit("aes_eax");
    assert("aes_eax"@ =~= seq!['a', 'e', 's', '_', 'e', 'a', 'x']);
    reveal_strlit("aes_gcm");
    assert("aes_gcm"@ =~= seq!['a', 'e', 's', '_', 'g', 'c', 'm']);
    reveal_strlit("aes_gcm_siv");
    assert("aes_gcm_siv"@ =~= seq!['a', 'e', 's', '_', 'g', 'c', 'm', '_', 's', 'i', 'v']);
    reveal_strlit("aead_aes_siv_cmac");
    assert("aead_aes_siv_cmac"@ =~= seq!['a', 'e', 'a', 'd', '_', 'a', 'e', 's', '_', 's', 'i', 'v', '_', 'c', 'm', 'a', 'c']);
    reveal_strlit("aria_ccm");
    assert("aria_ccm"@ =~= seq!['a', 'r', 'i', 'a', '_', 'c', 'c', 'm']);
    reveal_strlit("aria_gcm");
    assert("aria_gcm"@ =~= seq!['a', 'r', 'i', 'a', '_', 'g', 'c', 'm']);
    reveal_strlit("ascon128");
    assert("ascon128"@ =~= seq!['a', 's', 'c', 'o', 'n', '1', '2', '8']);
    reveal_strlit("ascon128a");
    assert("ascon128a"@ =~= seq!['a', 's', 'c', 'o', 'n', '1', '2', '8', 'a']);
    reveal_strlit("ascon80pq");
    assert("ascon80pq"@ =~= seq!['a', 's', 'c', 'o', 'n', '8', '0', 'p', 'q']);
    reveal_strlit("camellia_ccm");
    assert("camellia_ccm"@ =~= seq!['c', 'a', 'm', 'e', 'l', 'l', 'i', 'a', '_', 'c', 'c', 'm']);
    reveal_strlit("chacha20_poly1305");
    assert("chacha20_poly1305"@ =~= seq!['c', 'h', 'a', 'c', 'h', 'a', '2', '0', '_', 'p', 'o', 'l', 'y', '1', '3', '0', '5']);
    reveal_strlit("morus1280");
    assert("morus1280"@ =~= seq!['m', 'o', 'r', 'u', 's', '1', '2', '8', '0']);
    reveal_strlit("morus640");
    assert("morus640"@ =~= seq!['m', 'o', 'r', 'u', 's', '6', '4', '0']);
    reveal_strlit("seed_ccm");
    assert("seed_ccm"@ =~= seq!['s', 'e', 'e', 'd', '_', 'c', 'c', 'm']);
    reveal_strlit("seed_gcm");
    assert("seed_gcm"@ =~= seq!['s', 'e', 'e', 'd', '_', 'g', 'c', 'm']);
    reveal_strlit("sm4_ccm");
    assert("sm4_ccm"@ =~= seq!['s', 'm', '4', '_', 'c', 'c', 'm']);
    reveal_strlit("sm4_gcm");
    assert("sm4_gcm"@ =~= seq!['s', 'm', '4', '_', 'g', 'c', 'm']);
    reveal_strlit("xchacha20_poly1305");
    assert("xchacha20_poly1305"@ =~= seq!['x', 'c', 'h', 'a', 'c', 'h', 'a', '2', '0', '_', 'p', 'o', 'l', 'y', '1', '3', '0', '5']);
}

/// Every test set is listed.
pub proof fn lemma_all_complete(t: TestName)
    ensures
        TestName::spec_all().contains(t),
{
    match t {
        TestName::Aegis128 => assert(TestName::spec_all()[0] == t),
        TestName::Aegis128L => assert(TestName::spec_all()[1] == t),
        TestName::Aegis256 => assert(TestName::spec_all()[2] == t),
        TestName::Aes128CbcHmacSha256 => assert(TestName::spec_all()[3] == t),
        TestName::Aes192CbcHmacSha384 => assert(TestName::spec_all()[4] == t),
        TestName::Aes256CbcHmacSha512 => assert(TestName::spec_all()[5] == t),
        TestName::AesCcm => assert(TestName::spec_all()[6] == t),
        TestName::AesEax => assert(TestName::spec_all()[7] == t),
        TestName::AesGcm => assert(TestName::spec_all()[8] == t),
        TestName::AesGcmSiv => assert(TestName::spec_all()[9] == t),
        TestName::AesSivCmac => assert(TestName::spec_all()[10] == t),
        TestName::AriaCcm => assert(TestName::spec_all()[11] == t),
        TestName::AriaGcm => assert(TestName::spec_all()[12] == t),
        TestName::Ascon128 => assert(TestName::spec_all()[13] == t),
        TestName::Ascon128a => assert(TestName::spec_all()[14] == t),
        TestName::Ascon80pq => assert(TestName::spec_all()[15] == t),
        TestName::CamelliaCcm => assert(TestName::spec_all()[16] == t),
        TestName::ChaCha20Poly1305 => assert(TestName::spec_all()[17] == t),
        TestName::Morus1280 => assert(TestName::spec_all()[18] == t),
        TestName::Morus640 => assert(TestName::spec_all()[19] == t),
        TestName::SeedCcm => assert(TestName::spec_all()[20] == t),
        TestName::SeedGcm => assert(TestName::spec_all()[21] == t),
        TestName::Sm4Ccm => assert(TestName::spec_all()[22] == t),
        TestName::Sm4Gcm => assert(TestName::spec_all()[23] == t),
        TestName::XChaCha20Poly1305 => assert(TestName::spec_all()[24] == t),
    }
}

/// The algorithms that a test set of this family is for.
#[derive(Debug, Copy, Clone, Hash, PartialEq, Eq, Structural)]
pub enum Algorithm {
    Aes128CbcHmacSha256,
    Aes192CbcHmacSha384,
    Aes256CbcHmacSha512,
    AesSivCmac,
    Aegis128,
    Aegis128L,
    Aegis256,
    AesCcm,
    AesEax,
    AesGcm,
    AesGcmSiv,
    AriaCcm,
    AriaGcm,
    Ascon128,
    Ascon128a,
    Ascon80pq,
    CamelliaCcm,
    CamelliaGcm,
    ChaCha20Poly1305,
    Morus1280,
    Morus640,
    SeedCcm,
    SeedGcm,
    Sm4Ccm,
    Sm4Gcm,
    XChaCha20Poly1305,
}

impl DeepView for Algorithm {
    type V = Algorithm;

    open spec fn deep_view(&self) -> Algorithm {
        *self
    }
}

impl Named for Algorithm {
    open spec fn spec_vocabulary() -> Seq<char> {
        "Algorithm"@
    }

    fn vocabulary() -> (r: &'static str) {
        "Algorithm"
    }

    open spec fn spec_from_name(name: Seq<char>) -> Option<Algorithm> {
        if name == "A128CBC-HS256"@ { Some(Algorithm::Aes128CbcHmacSha256) }
        else if name == "A192CBC-HS384"@ { Some(Algorithm::Aes192CbcHmacSha384) }
        else if name == "A256CBC-HS512"@ { Some(Algorithm::Aes256CbcHmacSha512) }
        else if name == "AEAD-AES-SIV-CMAC"@ { Some(Algorithm::AesSivCmac) }
        else if name == "AEGIS128"@ { Some(Algorithm::Aegis128) }
        else if name == "AEGIS128L"@ { Some(Algorithm::Aegis128L) }
        else if name == "AEGIS256"@ { Some(Algorithm::Aegis256) }
        else if name == "AES-CCM"@ { Some(Algorithm::AesCcm) }
        else if name == "AES-EAX"@ { Some(Algorithm::AesEax) }
        else if name == "AES-GCM"@ { Some(Algorithm::AesGcm) }
        else if name == "AES-GCM-SIV"@ { Some(Algorithm::AesGcmSiv) }
        else if name == "ARIA-CCM"@ { Some(Algorithm::AriaCcm) }
        else if name == "ARIA-GCM"@ { Some(Algorithm::AriaGcm) }
        else if name == "ASCON128"@ { Some(Algorithm::Ascon128) }
        else if name == "ASCON128A"@ { Some(Algorithm::Ascon128a) }
        else if name == "ASCON80PQ"@ { Some(Algorithm::Ascon80pq) }
        else if name == "CAMELLIA-CCM"@ { Some(Algorithm::CamelliaCcm) }
        else if name == "CAMELLIA-GCM"@ { Some(Algorithm::CamelliaGcm) }
        else if name == "CHACHA20-POLY1305"@ { Some(Algorithm::ChaCha20Poly1305) }
        else if name == "MORUS1280"@ { Some(Algorithm::Morus1280) }
        else if name == "MORUS640"@ { Some(Algorithm::Morus640) }
        else if name == "SEED-CCM"@ { Some(Algorithm::SeedCcm) }
        else if name == "SEED-GCM"@ { Some(Algorithm::SeedGcm) }
        else if name == "SM4-CCM"@ { Some(Algorithm::Sm4Ccm) }
        else if name == "SM4-GCM"@ { Some(Algorithm::Sm4Gcm) }
        else if name == "XCHACHA20-POLY1305"@ { Some(Algorithm::XChaCha20Poly1305) }
        else { None }
    }

    fn from_name(name: &str) -> (r: Option<Algorithm>) {
        if str_eq(name, "A128CBC-HS256") { Some(Algorithm::Aes128CbcHmacSha256) }
        else if str_eq(name, "A192CBC-HS384") { Some(Algorithm::Aes192CbcHmacSha384) }
        else if str_eq(name, "A256CBC-HS512") { Some(Algorithm::Aes256CbcHmacSha512) }
        else if str_eq(name, "AEAD-AES-SIV-CMAC") { Some(Algorithm::AesSivCmac) }
        else if str_eq(name, "AEGIS128") { Some(Algorithm::Aegis128) }
        else if str_eq(name, "AEGIS128L") { Some(Algorithm::Aegis128L) }
        else if str_eq(name, "AEGIS256") { Some(Algorithm::Aegis256) }
        else if str_eq(name, "AES-CCM") { Some(Algorithm::AesCcm) }
        else if str_eq(name, "AES-EAX") { Some(Algorithm::AesEax) }
        else if str_eq(name, "AES-GCM") { Some(Algorithm::AesGcm) }
        else if str_eq(name, "AES-GCM-SIV") { Some(Algorithm::AesGcmSiv) }
        else if str_eq(name, "ARIA-CCM") { Some(Algorithm::AriaCcm) }
        else if str_eq(name, "ARIA-GCM") { Some(Algorithm::AriaGcm) }
        else if str_eq(name, "ASCON128") { Some(Algorithm::Ascon128) }
        else if str_eq(name, "ASCON128A") { Some(Algorithm::Ascon128a) }
        else if str_eq(name, "ASCON80PQ") { Some(Algorithm::Ascon80pq) }
        else if str_eq(name, "CAMELLIA-CCM") { Some(Algorithm::CamelliaCcm) }
        else if str_eq(name, "CAMELLIA-GCM") { Some(Algorithm::CamelliaGcm) }
        else if str_eq(name, "CHACHA20-POLY1305") { Some(Algorithm::ChaCha20Poly1305) }
        else if str_eq(name, "MORUS1280") { Some(Algorithm::Morus1280) }
        else if str_eq(name, "MORUS640") { Some(Algorithm::Morus640) }
        else if str_eq(name, "SEED-CCM") { Some(Algorithm::SeedCcm) }
        else if str_eq(name, "SEED-GCM") { Some(Algorithm::SeedGcm) }
        else if str_eq(name, "SM4-CCM") { Some(Algorithm::Sm4Ccm) }
        else if str_eq(name, "SM4-GCM") { Some(Algorithm::Sm4Gcm) }
        else if str_eq(name, "XCHACHA20-POLY1305") { Some(Algorithm::XChaCha20Poly1305) }
        else { None }
    }

    fn same(&self, other: &Algorithm) -> (r: bool) {
        *self == *other
    }
}

/// The edge case or bug class that a test probes.
#[derive(Debug, Copy, Clone, Hash, PartialEq, Eq, Structural)]
pub enum TestFlag {
    KnownTestVector,
    TagCollisionPtext,
    TagCollisionAad,
    LongNonce,
    CounterWrap,
    EdgeCaseCiphertext,
    EdgeCasePoly1305,
    EdgeCasePolyKey,
    EdgeCaseSiv,
    EdgeCaseTag,
    InsecureTagSize,
    InvalidNonceSize,
    InvalidTagSize,
    LongIv,
    ModifiedTag,
    OldVersion,
    Pseudorandom,
    SmallIv,
    SpecialCase,
    SpecialCaseIv,
    WrappedIv,
    ZeroLengthIv,
}

impl DeepView for TestFlag {
    type V = TestFlag;

    open spec fn deep_view(&self) -> TestFlag {
        *self
    }
}

impl Named for TestFlag {
    open spec fn spec_vocabulary() -> Seq<char> {
        "TestFlag"@
    }

    fn vocabulary() -> (r: &'static str) {
        "TestFlag"
    }

    open spec fn spec_from_name(name: Seq<char>) -> Option<TestFlag> {
        if name == "Ktv"@ { Some(TestFlag::KnownTestVector) }
        else if name == "TagCollision_1"@ { Some(TestFlag::TagCollisionPtext) }
        else if name == "TagCollision_2"@ { Some(TestFlag::TagCollisionAad) }
        else if name == "CVE-2017-18330"@ { Some(TestFlag::LongNonce) }
        else if name == "CounterWrap"@ { Some(TestFlag::CounterWrap) }
        else if name == "EdgeCaseCiphertext"@ { Some(TestFlag::EdgeCaseCiphertext) }
        else if name == "EdgeCasePoly1305"@ { Some(TestFlag::EdgeCasePoly1305) }
        else if name == "EdgeCasePolyKey"@ { Some(TestFlag::EdgeCasePolyKey) }
        else if name == "EdgeCaseSiv"@ { Some(TestFlag::EdgeCaseSiv) }
        else if name == "EdgeCaseTag"@ { Some(TestFlag::EdgeCaseTag) }
        else if name == "InsecureTagSize"@ { Some(TestFlag::InsecureTagSize) }
        else if name == "InvalidNonceSize"@ { Some(TestFlag::InvalidNonceSize) }
        else if name == "InvalidTagSize"@ { Some(TestFlag::InvalidTagSize) }
        else if name == "LongIv"@ { Some(TestFlag::LongIv) }
        else if name == "ModifiedTag"@ { Some(TestFlag::ModifiedTag) }
        else if name == "OldVersion"@ { Some(TestFlag::OldVersion) }
        else if name == "Pseudorandom"@ { Some(TestFlag::Pseudorandom) }
        else if name == "SmallIv"@ { Some(TestFlag::SmallIv) }
        else if name == "SpecialCase"@ { Some(TestFlag::SpecialCase) }
        else if name == "SpecialCaseIv"@ { Some(TestFlag::SpecialCaseIv) }
        else if name == "WrappedIv"@ { Some(TestFlag::WrappedIv) }
        else if name == "ZeroLengthIv"@ { Some(TestFlag::ZeroLengthIv) }
        else { None }
    }

    fn from_name(name: &str) -> (r: Option<TestFlag>) {
        if str_eq(name, "Ktv") { Some(TestFlag::KnownTestVector) }
        else if str_eq(name, "TagCollision_1") { Some(TestFlag::TagCollisionPtext) }
        else if str_eq(name, "TagCollision_2") { Some(TestFlag::TagCollisionAad) }
        else if str_eq(name, "CVE-2017-18330") { Some(TestFlag::LongNonce) }
        else if str_eq(name, "CounterWrap") { Some(TestFlag::CounterWrap) }
        else if str_eq(name, "EdgeCaseCiphertext") { Some(TestFlag::EdgeCaseCiphertext) }
        else if str_eq(name, "EdgeCasePoly1305") { Some(TestFlag::EdgeCasePoly1305) }
        else if str_eq(name, "EdgeCasePolyKey") { Some(TestFlag::EdgeCasePolyKey) }
        else if str_eq(name, "EdgeCaseSiv") { Some(TestFlag::EdgeCaseSiv) }
        else if str_eq(name, "EdgeCaseTag") { Some(TestFlag::EdgeCaseTag) }
        else if str_eq(name, "InsecureTagSize") { Some(TestFlag::InsecureTagSize) }
        else if str_eq(name, "InvalidNonceSize") { Some(TestFlag::InvalidNonceSize) }
        else if str_eq(name, "InvalidTagSize") { Some(TestFlag::InvalidTagSize) }
        else if str_eq(name, "LongIv") { Some(TestFlag::LongIv) }
        else if str_eq(name, "ModifiedTag") { Some(TestFlag::ModifiedTag) }
        else if str_eq(name, "OldVersion") { Some(TestFlag::OldVersion) }
        else if str_eq(name, "Pseudorandom") { Some(TestFlag::Pseudorandom) }
        else if str_eq(name, "SmallIv") { Some(TestFlag::SmallIv) }
        else if str_eq(name, "SpecialCase") { Some(TestFlag::SpecialCase) }
        else if str_eq(name, "SpecialCaseIv") { Some(TestFlag::SpecialCaseIv) }
        else if str_eq(name, "WrappedIv") { Some(TestFlag::WrappedIv) }
        else if str_eq(name, "ZeroLengthIv") { Some(TestFlag::ZeroLengthIv) }
        else { None }
    }

    fn same(&self, other: &TestFlag) -> (r: bool) {
        *self == *other
    }
}

/// The tag of a test group; it holds no data.
#[derive(Debug, Copy, Clone, Hash, PartialEq, Eq, Structural)]
pub struct TestGroupTypeId {}

impl DeepView for TestGroupTypeId {
    type V = TestGroupTypeId;

    open spec fn deep_view(&self) -> TestGroupTypeId {
        *self
    }
}

impl Named for TestGroupTypeId {
    open spec fn spec_vocabulary() -> Seq<char> {
        "TestGroupTypeId"@
    }

    fn vocabulary() -> (r: &'static str) {
        "TestGroupTypeId"
    }

    open spec fn spec_from_name(name: Seq<char>) -> Option<TestGroupTypeId> {
        if name == "AeadTest"@ {
            Some(TestGroupTypeId {})
        } else {
            None
        }
    }

    fn from_name(name: &str) -> (r: Option<TestGroupTypeId>) {
        if str_eq(name, "AeadTest") {
            Some(TestGroupTypeId {})
        } else {
            None
        }
    }

    fn same(&self, other: &TestGroupTypeId) -> (r: bool) {
        true
    }
}

/// One test case.
#[derive(Debug, Clone, Hash, PartialEq, Eq)]
pub struct Test {
    pub tc_id: usize,
    pub comment: String,
    pub key: Vec<u8>,
    pub nonce: Vec<u8>,
    pub aad: Vec<u8>,
    pub pt: Vec<u8>,
    pub ct: Vec<u8>,
    pub tag: Vec<u8>,
    pub result: TestResult,
    pub flags: Vec<TestFlag>,
}

/// The mathematical value of a [`Test`].
pub struct TestView {
    pub tc_id: usize,
    pub comment: Seq<char>,
    pub key: Seq<u8>,
    pub nonce: Seq<u8>,
    pub aad: Seq<u8>,
    pub pt: Seq<u8>,
    pub ct: Seq<u8>,
    pub tag: Seq<u8>,
    pub result: TestResult,
    pub flags: Seq<TestFlag>,
}

impl DeepView for Test {
    type V = TestView;

    open spec fn deep_view(&self) -> TestView {
        TestView {
            tc_id: self.tc_id.deep_view(),
            comment: self.comment.deep_view(),
            key: self.key.deep_view(),
            nonce: self.nonce.deep_view(),
            aad: self.aad.deep_view(),
            pt: self.pt.deep_view(),
            ct: self.ct.deep_view(),
            tag: self.tag.deep_view(),
            result: self.result.deep_view(),
            flags: self.flags.deep_view(),
        }
    }
}

impl Record for Test {
    open spec fn spec_known_field(name: Seq<char>) -> bool {
        name == "tcId"@
            || name == "comment"@
            || name == "key"@
            || name == "iv"@
            || name == "aad"@
            || name == "msg"@
            || name == "ct"@
            || name == "tag"@
            || name == "result"@
            || name == "flags"@
    }

    fn known_field(name: &str) -> (r: bool) {
        str_eq(name, "tcId")
            || str_eq(name, "comment")
            || str_eq(name, "key")
            || str_eq(name, "iv")
            || str_eq(name, "aad")
            || str_eq(name, "msg")
            || str_eq(name, "ct")
            || str_eq(name, "tag")
            || str_eq(name, "result")
            || str_eq(name, "flags")
    }

    open spec fn spec_decode_fields(fields: Seq<(String, Json)>) -> Result<TestView, ParseFailure> {
        let tc_id = spec_field::<usize>(fields, "tcId"@);
        let comment = spec_field::<String>(fields, "comment"@);
        let key = spec_hex_field(fields, "key"@);
        let nonce = spec_hex_field(fields, "iv"@);
        let aad = spec_hex_field(fields, "aad"@);
        let pt = spec_hex_field(fields, "msg"@);
        let ct = spec_hex_field(fields, "ct"@);
        let tag = spec_hex_field(fields, "tag"@);
        let result = spec_named_field::<TestResult>(fields, "result"@);
        let flags = spec_named_list_field::<TestFlag>(fields, "flags"@);
        if tc_id is Err { Err(tc_id->Err_0) }
        else if comment is Err { Err(comment->Err_0) }
        else if key is Err { Err(key->Err_0) }
        else if nonce is Err { Err(nonce->Err_0) }
        else if aad is Err { Err(aad->Err_0) }
        else if pt is Err { Err(pt->Err_0) }
        else if ct is Err { Err(ct->Err_0) }
        else if tag is Err { Err(tag->Err_0) }
        else if result is Err { Err(result->Err_0) }
        else if flags is Err { Err(flags->Err_0) }
        else {
            Ok(TestView {
                tc_id: tc_id->Ok_0,
                comment: comment->Ok_0,
                key: key->Ok_0,
                nonce: nonce->Ok_0,
                aad: aad->Ok_0,
                pt: pt->Ok_0,
                ct: ct->Ok_0,
                tag: tag->Ok_0,
                result: result->Ok_0,
                flags: flags->Ok_0,
            })
        }
    }

    fn decode_fields(fields: &Vec<(String, Json)>) -> (r: Result<Test, ParseError>) {
        let tc_id = field::<usize>(fields, "tcId")?;
        let comment = field::<String>(fields, "comment")?;
        let key = hex_field(fields, "key")?;
        let nonce = hex_field(fields, "iv")?;
        let aad = hex_field(fields, "aad")?;
        let pt = hex_field(fields, "msg")?;
        let ct = hex_field(fields, "ct")?;
        let tag = hex_field(fields, "tag")?;
        let result = named_field::<TestResult>(fields, "result")?;
        let flags = named_list_field::<TestFlag>(fields, "flags")?;
        Ok(Test { tc_id, comment, key, nonce, aad, pt, ct, tag, result, flags })
    }
}

/// Tests that share the configuration of their group.
#[derive(Debug, Clone, Hash, PartialEq, Eq)]
pub struct TestGroup {
    pub nonce_size: usize,
    pub key_size: usize,
    pub tag_size: usize,
    pub test_type: TestGroupTypeId,
    pub tests: Vec<Test>,
}

/// The mathematical value of a [`TestGroup`].
pub struct TestGroupView {
    pub nonce_size: usize,
    pub key_size: usize,
    pub tag_size: usize,
    pub test_type: TestGroupTypeId,
    pub tests: Seq<TestView>,
}

impl DeepView for TestGroup {
    type V = TestGroupView;

    open spec fn deep_view(&self) -> TestGroupView {
        TestGroupView {
            nonce_size: self.nonce_size.deep_view(),
            key_size: self.key_size.deep_view(),
            tag_size: self.tag_size.deep_view(),
            test_type: self.test_type.deep_view(),
            tests: self.tests.deep_view(),
        }
    }
}

impl Record for TestGroup {
    open spec fn spec_known_field(name: Seq<char>) -> bool {
        name == "ivSize"@
            || name == "keySize"@
            || name == "tagSize"@
            || name == "type"@
            || name == "tests"@
    }

    fn known_field(name: &str) -> (r: bool) {
        str_eq(name, "ivSize")
            || str_eq(name, "keySize")
            || str_eq(name, "tagSize")
            || str_eq(name, "type")
            || str_eq(name, "tests")
    }

    open spec fn spec_decode_fields(fields: Seq<(String, Json)>) -> Result<TestGroupView, ParseFailure> {
        let nonce_size = spec_field::<usize>(fields, "ivSize"@);
        let key_size = spec_field::<usize>(fields, "keySize"@);
        let tag_size = spec_field::<usize>(fields, "tagSize"@);
        let test_type = spec_named_field::<TestGroupTypeId>(fields, "type"@);
        let tests = spec_field::<Vec<Test>>(fields, "tests"@);
        if nonce_size is Err { Err(nonce_size->Err_0) }
        else if key_size is Err { Err(key_size->Err_0) }
        else if tag_size is Err { Err(tag_size->Err_0) }
        else if test_type is Err { Err(test_type->Err_0) }
        else if tests is Err { Err(tests->Err_0) }
        else {
            Ok(TestGroupView {
                nonce_size: nonce_size->Ok_0,
                key_size: key_size->Ok_0,
                tag_size: tag_size->Ok_0,
                test_type: test_type->Ok_0,
                tests: tests->Ok_0,
            })
        }
    }

    fn decode_fields(fields: &Vec<(String, Json)>) -> (r: Result<TestGroup, ParseError>) {
        let nonce_size = field::<usize>(fields, "ivSize")?;
        let key_size = field::<usize>(fields, "keySize")?;
        let tag_size = field::<usize>(fields, "tagSize")?;
        let test_type = named_field::<TestGroupTypeId>(fields, "type")?;
        let tests = field::<Vec<Test>>(fields, "tests")?;
        Ok(TestGroup { nonce_size, key_size, tag_size, test_type, tests })
    }
}

/// A set of AEAD tests.
#[derive(Debug, Clone, Hash, PartialEq, Eq)]
pub struct TestSet {
    pub algorithm: Algorithm,
    pub generator_version: String,
    pub number_of_tests: usize,
    pub header: String,
    pub notes: Vec<(TestFlag, TestFlagInfo)>,
    pub schema: TestSchema,
    pub test_groups: Vec<TestGroup>,
}

/// The mathematical value of a [`TestSet`].
pub struct TestSetView {
    pub algorithm: Algorithm,
    pub generator_version: Seq<char>,
    pub number_of_tests: usize,
    pub header: Seq<char>,
    pub notes: Seq<(TestFlag, TestFlagInfoView)>,
    pub schema: Seq<char>,
    pub test_groups: Seq<TestGroupView>,
}

impl DeepView for TestSet {
    type V = TestSetView;

    open spec fn deep_view(&self) -> TestSetView {
        TestSetView {
            algorithm: self.algorithm.deep_view(),
            generator_version: self.generator_version.deep_view(),
            number_of_tests: self.number_of_tests.deep_view(),
            header: self.header.deep_view(),
            notes: self.notes.deep_view(),
            schema: self.schema.deep_view(),
            test_groups: self.test_groups.deep_view(),
        }
    }
}

impl Record for TestSet {
    open spec fn spec_known_field(name: Seq<char>) -> bool {
        name == "algorithm"@
            || name == "generatorVersion"@
            || name == "numberOfTests"@
            || name == "header"@
            || name == "notes"@
            || name == "schema"@
            || name == "testGroups"@
    }

    fn known_field(name: &str) -> (r: bool) {
        str_eq(name, "algorithm")
            || str_eq(name, "generatorVersion")
            || str_eq(name, "numberOfTests")
            || str_eq(name, "header")
            || str_eq(name, "notes")
            || str_eq(name, "schema")
            || str_eq(name, "testGroups")
    }

    open spec fn spec_decode_fields(fields: Seq<(String, Json)>) -> Result<TestSetView, ParseFailure> {
        let algorithm = spec_named_field::<Algorithm>(fields, "algorithm"@);
        let generator_version = spec_field::<String>(fields, "generatorVersion"@);
        let number_of_tests = spec_field::<usize>(fields, "numberOfTests"@);
        let header = spec_header_field(fields, "header"@);
        let notes = spec_map_field::<TestFlag, TestFlagInfo>(fields, "notes"@);
        let schema = spec_named_field::<TestSchema>(fields, "schema"@);
        let test_groups = spec_field::<Vec<TestGroup>>(fields, "testGroups"@);
        if algorithm is Err { Err(algorithm->Err_0) }
        else if generator_version is Err { Err(generator_version->Err_0) }
        else if number_of_tests is Err { Err(number_of_tests->Err_0) }
        else if header is Err { Err(header->Err_0) }
        else if notes is Err { Err(notes->Err_0) }
        else if schema is Err { Err(schema->Err_0) }
        else if test_groups is Err { Err(test_groups->Err_0) }
        else {
            Ok(TestSetView {
                algorithm: algorithm->Ok_0,
                generator_version: generator_version->Ok_0,
                number_of_tests: number_of_tests->Ok_0,
                header: header->Ok_0,
                notes: notes->Ok_0,
                schema: schema->Ok_0,
                test_groups: test_groups->Ok_0,
            })
        }
    }

    fn decode_fields(fields: &Vec<(String, Json)>) -> (r: Result<TestSet, ParseError>) {
        let algorithm = named_field::<Algorithm>(fields, "algorithm")?;
        let generator_version = field::<String>(fields, "generatorVersion")?;
        let number_of_tests = field::<usize>(fields, "numberOfTests")?;
        let header = header_field(fields, "header")?;
        let notes = map_field::<TestFlag, TestFlagInfo>(fields, "notes")?;
        let schema = named_field::<TestSchema>(fields, "schema")?;
        let test_groups = field::<Vec<TestGroup>>(fields, "testGroups")?;
        Ok(TestSet { algorithm, generator_version, number_of_tests, header, notes, schema, test_groups })
    }
}

impl Case for Test {
    type Flag = TestFlag;

    proof fn lemma_flags_decoded(fields: Seq<(String, Json)>) {
    }
}

impl Grouped for TestGroup {
    type Test = Test;

    type Tag = TestGroupTypeId;

    open spec fn spec_test_count(&self) -> nat {
        self.tests@.len()
    }

    fn test_count(&self) -> (n: usize) {
        self.tests.len()
    }

    proof fn lemma_members_decoded(fields: Seq<(String, Json)>) {
    }
}

impl Suite for TestSet {
    type Group = TestGroup;

    type Schema = TestSchema;

    open spec fn spec_declared_tests(&self) -> nat {
        self.number_of_tests as nat
    }

    open spec fn spec_actual_tests(&self) -> nat {
        spec_total_tests(self.test_groups@)
    }

    fn counts_match(&self) -> (ok: bool) {
        count_matches(self.number_of_tests, &self.test_groups)
    }

    open spec fn spec_consistent(v: TestSetView) -> bool {
        v.number_of_tests == sum(Seq::new(v.test_groups.len(), |i: int| v.test_groups[i].tests.len()))
    }

    proof fn lemma_consistent(&self) {
        assert(test_counts(self.test_groups@) =~= Seq::new(
            self.deep_view().test_groups.len(),
            |i: int| self.deep_view().test_groups[i].tests.len(),
        ));
    }

    open spec fn spec_notes_distinct(v: TestSetView) -> bool {
        distinct_keys(v.notes)
    }

    proof fn lemma_members_decoded(fields: Seq<(String, Json)>) {
        lemma_decoded_map_distinct::<TestFlag, TestFlagInfo>(spec_find(fields, "notes"@)->Some_0);
    }
}

impl TestSet {
    /// Accepts a test set whose declared count is the number of its tests.
    pub fn check(obj: TestSet) -> (r: Result<TestSet, WycheproofError>)
        ensures
            r is Ok <==> obj.number_of_tests == spec_total_tests(obj.test_groups@),
            r is Ok ==> r->Ok_0 == obj,
            r is Err ==> r->Err_0 is InvalidData,
    {
        check(obj)
    }

    /// Reads and checks a test set from a JSON value.
    pub fn from_json(j: &Json) -> (r: Result<TestSet, WycheproofError>)
        ensures
            load_outcome(r) == spec_from_json::<TestSet>(*j),
            r is Ok ==> r->Ok_0.number_of_tests == spec_total_tests(r->Ok_0.test_groups@),
    {
        from_json::<TestSet>(j)
    }

    /// Reads and checks a test set from the text of its document.
    pub fn load_from_text(text: &str) -> (r: Result<TestSet, WycheproofError>)
        ensures
            load_post::<TestSet>(text@, r),
            r is Ok ==> r->Ok_0.number_of_tests == spec_total_tests(r->Ok_0.test_groups@),
    {
        load_from_text::<TestSet>(text)
    }

    /// What the document says of a flag, if it says anything.
    pub fn note(&self, flag: TestFlag) -> (r: Option<&TestFlagInfo>)
        ensures
            r.deep_view() == spec_lookup(self.deep_view().notes, flag),
    {
        lookup(&self.notes, &flag)
    }
}

} // verus!
