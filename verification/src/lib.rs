//! Typed access to Wycheproof test vectors.
//!
//! Wycheproof is a corpus of test vectors for cryptographic algorithms. Each
//! document of the corpus is a JSON text that holds one test set: groups of
//! tests, each test with its inputs, its expected result and the flags that
//! say which edge case it probes.
//!
//! A document is read into a [`json::Json`] value and then decoded, member by
//! member, into the typed test set of its family. Every decoder is closed: an
//! unknown member or an unknown name is an error, never ignored. A set that
//! decodes is accepted only if it declares as many tests as its groups hold.
//!
//! Each family has a module of its own, with a `TestName` for every test set,
//! a `TestSet`, its `TestGroup`s and their `Test`s:
//!
//! ```text
//! let set = wycheproof::aead::TestSet::load_from_text(text)?;
//! for group in &set.test_groups {
//!     for test in &group.tests {
//!         // test.key, test.nonce, test.aad, test.pt, test.ct, test.tag
//!     }
//! }
//! ```
//!
//! The modules [`decode`], [`record`], [`named`] and [`suite`] hold what the
//! families share, and [`laws`] states what holds of all of them.

pub use bytes::{ByteString, LargeInteger};
pub use error::{ParseError, WycheproofError};
pub use json::Json;
pub use notes::{BugType, TestFlagInfo, CVE, URL};
pub use test_keys::{
    DsaPublic, EcdsaPublic, EcdsaPublicJwk, EddsaPublic, EddsaPublicJwk, RsaPrivate,
    RsaPrivateJwk, RsaPublic, RsaPublicJwk,
};
pub use vocab::{EdwardsCurve, EllipticCurve, HashFunction, Mgf, MontgomeryCurve, TestResult};

pub mod text;
pub mod json;
pub mod error;
pub mod decode;
pub mod encoding;
pub mod record;
pub mod named;
pub mod bytes;
pub mod suite;
pub mod laws;
pub mod vocab;
pub mod notes;
pub mod test_keys;

pub mod aead;
pub mod cipher;
pub mod daead;
pub mod dsa;
pub mod ec_curve;
pub mod ecdh;
pub mod ecdsa;
pub mod eddsa;
pub mod fpe_list;
pub mod fpe_str;
pub mod hkdf;
pub mod keywrap;
pub mod mac;
pub mod mac_with_nonce;
pub mod mldsa_sign;
pub mod mldsa_verify;
pub mod primality;
pub mod rsa_oaep;
pub mod rsa_pkcs1_decrypt;
pub mod rsa_pkcs1_sign;
pub mod rsa_pkcs1_verify;
pub mod rsa_pss_verify;
pub mod xdh;
