//! Byte strings and large integers.

use vstd::prelude::*;
use crate::decode::{outcome, Decode};
use crate::encoding::{encode_hex, hex_encoded, spec_vec_from_base64, spec_vec_from_hex, vec_from_base64, vec_from_hex};
use crate::error::{ParseError, ParseFailure};
use crate::json::{find, spec_find, Json};

verus! {

/// An opaque sequence of bytes, written in documents as hexadecimal text.
#[derive(Debug, Clone, Hash, PartialEq, Eq)]
pub struct ByteString {
    value: Vec<u8>,
}

impl View for ByteString {
    type V = Seq<u8>;

    closed spec fn view(&self) -> Seq<u8> {
        self.value@
    }
}

impl DeepView for ByteString {
    type V = Seq<u8>;

    open spec fn deep_view(&self) -> Seq<u8> {
        self@
    }
}

impl ByteString {
    pub fn new(value: Vec<u8>) -> (r: Self)
        ensures
            r@ == value@,
    {
        ByteString { value }
    }

    pub fn len(&self) -> (n: usize)
        ensures
            n == self@.len(),
    {
        self.value.len()
    }

    pub fn is_empty(&self) -> (b: bool)
        ensures
            b <==> self@.len() == 0,
    {
        self.value.len() == 0
    }

    /// The bytes.
    pub fn as_bytes(&self) -> (r: &Vec<u8>)
        ensures
            r@ == self@,
    {
        &self.value
    }

    /// The bytes as lowercase hexadecimal text.
    pub fn to_hex(&self) -> (r: String)
        requires
            self@.len() <= usize::MAX / 512,
        ensures
            r@ == hex_encoded(self@),
    {
        encode_hex(self.value.as_slice())
    }
}

impl std::ops::Deref for ByteString {
    type Target = Vec<u8>;

    fn deref(&self) -> (r: &Vec<u8>)
        ensures
            r@ == self@,
    {
        &self.value
    }
}

impl AsRef<[u8]> for ByteString {
    fn as_ref(&self) -> (r: &[u8])
        ensures
            r@ == self@,
    {
        self.value.as_slice()
    }
}

/// The bytes of a JSON string of hexadecimal text.
pub open spec fn spec_decode_hex(j: Json) -> Result<Seq<u8>, ParseFailure> {
    match j {
        Json::Str(s) => spec_vec_from_hex(s@),
        _ => Err(ParseFailure::Unexpected { expected: "a string"@ }),
    }
}

/// The bytes of a JSON string of base64 text.
pub open spec fn spec_decode_base64(j: Json) -> Result<Seq<u8>, ParseFailure> {
    match j {
        Json::Str(s) => spec_vec_from_base64(s@),
        _ => Err(ParseFailure::Unexpected { expected: "a string"@ }),
    }
}

impl Decode for ByteString {
    open spec fn spec_decode(j: Json) -> Result<Seq<u8>, ParseFailure> {
        spec_decode_hex(j)
    }

    fn decode(j: &Json) -> (r: Result<ByteString, ParseError>) {
        match j {
            Json::Str(s) => match vec_from_hex(s.as_str()) {
                Ok(value) => Ok(ByteString { value }),
                Err(e) => Err(e),
            },
            _ => Err(ParseError::Unexpected { expected: "a string".to_owned() }),
        }
    }
}

/// Bytes that are an unsigned integer, the most significant byte first.
#[derive(Debug, Clone, Hash, PartialEq, Eq)]
pub struct LargeInteger {
    value: Vec<u8>,
}

impl View for LargeInteger {
    type V = Seq<u8>;

    closed spec fn view(&self) -> Seq<u8> {
        self.value@
    }
}

impl DeepView for LargeInteger {
    type V = Seq<u8>;

    open spec fn deep_view(&self) -> Seq<u8> {
        self@
    }
}

impl std::ops::Deref for LargeInteger {
    type Target = Vec<u8>;

    fn deref(&self) -> (r: &Vec<u8>)
        ensures
            r@ == self@,
    {
        &self.value
    }
}

impl AsRef<[u8]> for LargeInteger {
    fn as_ref(&self) -> (r: &[u8])
        ensures
            r@ == self@,
    {
        self.value.as_slice()
    }
}

/// The number that bytes stand for, the most significant byte first.
pub open spec fn big_endian(bytes: Seq<u8>) -> nat
    decreases bytes.len(),
{
    if bytes.len() == 0 {
        0
    } else {
        256 * big_endian(bytes.drop_last()) + bytes.last() as nat
    }
}

impl LargeInteger {
    pub fn new(value: Vec<u8>) -> (r: Self)
        ensures
            r@ == value@,
    {
        LargeInteger { value }
    }

    /// The bytes, the most significant first.
    pub fn as_bytes(&self) -> (r: &Vec<u8>)
        ensures
            r@ == self@,
    {
        &self.value
    }

    /// The number that the bytes stand for.
    pub open spec fn value(&self) -> nat {
        big_endian(self@)
    }

    /// The integer as a `BigUint`.
    pub fn as_num_bigint(&self) -> (n: num_bigint::BigUint)
        ensures
            biguint_value(n) == self.value(),
    {
        biguint_from_bytes_be(self.value.as_slice())
    }
}

/// `num_bigint::BigUint`: an unsigned integer of any size.
#[verifier::external_type_specification]
#[verifier::external_body]
pub struct ExBigUint(num_bigint::BigUint);

/// The number that a `BigUint` holds.
pub uninterp spec fn biguint_value(n: num_bigint::BigUint) -> nat;

/// `num_bigint::BigUint::from_bytes_be`.
///
/// Trusted: the call gives the number whose digits to the base 256 are the
/// bytes, the most significant first; no bytes give zero.
#[verifier::external_body]
fn biguint_from_bytes_be(bytes: &[u8]) -> (n: num_bigint::BigUint)
    ensures
        biguint_value(n) == big_endian(bytes@),
{
    num_bigint::BigUint::from_bytes_be(bytes)
}

impl Decode for LargeInteger {
    open spec fn spec_decode(j: Json) -> Result<Seq<u8>, ParseFailure> {
        spec_decode_hex(j)
    }

    fn decode(j: &Json) -> (r: Result<LargeInteger, ParseError>) {
        match j {
            Json::Str(s) => match vec_from_hex(s.as_str()) {
                Ok(value) => Ok(LargeInteger { value }),
                Err(e) => Err(e),
            },
            _ => Err(ParseError::Unexpected { expected: "a string".to_owned() }),
        }
    }
}

/// Reads a large integer from a JSON string of base64 text.
pub fn int_from_base64(j: &Json) -> (r: Result<LargeInteger, ParseError>)
    ensures
        outcome(r) == spec_decode_base64(*j),
{
    match j {
        Json::Str(s) => match vec_from_base64(s.as_str()) {
            Ok(value) => Ok(LargeInteger::new(value)),
            Err(e) => Err(e),
        },
        _ => Err(ParseError::Unexpected { expected: "a string".to_owned() }),
    }
}

/// The bytes of the member `name`, which must be there, from hexadecimal.
pub open spec fn spec_hex_field(fields: Seq<(String, Json)>, name: Seq<char>) -> Result<Seq<u8>, ParseFailure> {
    match spec_find(fields, name) {
        Some(j) => spec_decode_hex(j),
        None => Err(ParseFailure::MissingField(name)),
    }
}

pub fn hex_field(fields: &Vec<(String, Json)>, name: &str) -> (r: Result<Vec<u8>, ParseError>)
    ensures
        outcome(r) == spec_hex_field(fields@, name@),
{
    match find(fields, name) {
        Some(j) => match j {
            Json::Str(s) => {
                let r = vec_from_hex(s.as_str());
                proof {
                    if r is Ok {
                        assert(r->Ok_0.deep_view() =~= r->Ok_0@);
                    }
                }
                r
            },
            _ => Err(ParseError::Unexpected { expected: "a string".to_owned() }),
        },
        None => Err(ParseError::MissingField(name.to_owned())),
    }
}

/// The integer of the member `name`, which must be there, from base64.
pub open spec fn spec_base64_field(fields: Seq<(String, Json)>, name: Seq<char>) -> Result<Seq<u8>, ParseFailure> {
    match spec_find(fields, name) {
        Some(j) => spec_decode_base64(j),
        None => Err(ParseFailure::MissingField(name)),
    }
}

pub fn base64_field(fields: &Vec<(String, Json)>, name: &str) -> (r: Result<LargeInteger, ParseError>)
    ensures
        outcome(r) == spec_base64_field(fields@, name@),
{
    match find(fields, name) {
        Some(j) => int_from_base64(j),
        None => Err(ParseError::MissingField(name.to_owned())),
    }
}

} // verus!
