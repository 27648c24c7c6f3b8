//! Hexadecimal and base64 texts, and the bytes that they stand for.

use vstd::prelude::*;
use vstd::utf8::{encode_utf8, is_ascii_chars_encode_utf8};
use crate::error::{ParseError, ParseFailure};

verus! {

/// The value of a lowercase hexadecimal digit.
pub open spec fn hex_digit_value(c: char) -> Option<int> {
    if '0' <= c && c <= '9' {
        Some(c as int - '0' as int)
    } else if 'a' <= c && c <= 'f' {
        Some(c as int - 'a' as int + 10)
    } else {
        None
    }
}

/// The lowercase hexadecimal digit of a value below sixteen.
pub open spec fn hex_digit(v: int) -> char {
    if v < 10 {
        (v + '0' as int) as char
    } else {
        (v - 10 + 'a' as int) as char
    }
}

/// A text of an even number of lowercase hexadecimal digits.
pub open spec fn is_hex(s: Seq<char>) -> bool {
    &&& s.len() % 2 == 0
    &&& forall|i: int| 0 <= i < s.len() ==> (#[trigger] hex_digit_value(s[i])) is Some
}

/// The bytes that a hexadecimal text stands for: two digits a byte, the
/// high digit first.
pub open spec fn hex_decoded(s: Seq<char>) -> Seq<u8> {
    Seq::new(
        s.len() / 2,
        |i: int| (16 * hex_digit_value(s[2 * i])->Some_0 + hex_digit_value(s[2 * i + 1])->Some_0) as u8,
    )
}

/// The hexadecimal text of some bytes.
pub open spec fn hex_encoded(b: Seq<u8>) -> Seq<char> {
    Seq::new(
        2 * b.len(),
        |i: int|
            if i % 2 == 0 {
                hex_digit(b[i / 2] as int / 16)
            } else {
                hex_digit(b[i / 2] as int % 16)
            },
    )
}

/// A text in which every capital ASCII letter is replaced by its small one.
pub open spec fn lowercase(s: Seq<char>) -> Seq<char> {
    Seq::new(
        s.len(),
        |i: int|
            if 'A' <= s[i] && s[i] <= 'Z' {
                (s[i] as int + 32) as char
            } else {
                s[i]
            },
    )
}

/// Encoding what a hexadecimal text decodes to gives the text back, and the
/// text has no capital letter to begin with.
pub proof fn lemma_hex_round_trip(s: Seq<char>)
    requires
        is_hex(s),
    ensures
        hex_encoded(hex_decoded(s)) == s,
        hex_encoded(hex_decoded(s)) == lowercase(s),
{
    let b = hex_decoded(s);
    let t = hex_encoded(b);
    assert(t.len() == s.len());
    assert forall|i: int| 0 <= i < s.len() implies t[i] == s[i] && lowercase(s)[i] == s[i] by {
        let k = i / 2;
        let hi = hex_digit_value(s[2 * k]);
        let lo = hex_digit_value(s[2 * k + 1]);
        assert(hi is Some && lo is Some);
        assert(b[k] as int == 16 * hi->Some_0 + lo->Some_0);
        assert(hex_digit_value(s[i]) is Some);
    }
    assert(t =~= s);
    assert(lowercase(s) =~= s);
}

/// Decoding what some bytes encode to gives the bytes back.
pub proof fn lemma_hex_encoded_decodes(b: Seq<u8>)
    ensures
        is_hex(hex_encoded(b)),
        hex_decoded(hex_encoded(b)) == b,
{
    let t = hex_encoded(b);
    assert forall|i: int| 0 <= i < t.len() implies (#[trigger] hex_digit_value(t[i])) is Some by {
        let k = i / 2;
        assert(0 <= b[k] as int / 16 < 16);
        assert(0 <= b[k] as int % 16 < 16);
    }
    assert forall|k: int| 0 <= k < b.len() implies hex_decoded(t)[k] == b[k] by {
        assert(t[2 * k] == hex_digit(b[k] as int / 16));
        assert(t[2 * k + 1] == hex_digit(b[k] as int % 16));
    }
    assert(hex_decoded(t) =~= b);
}

/// A text short enough for the decoders to take.
pub open spec fn text_fits(s: Seq<char>) -> bool {
    s.len() <= usize::MAX / 8
}

/// What a hexadecimal text decodes to: its bytes, or the refusal of the text.
pub open spec fn spec_vec_from_hex(s: Seq<char>) -> Result<Seq<u8>, ParseFailure> {
    if is_hex(s) && text_fits(s) {
        Ok(hex_decoded(s))
    } else {
        Err(ParseFailure::Encoding(s))
    }
}

/// The bytes that an unpadded URL-safe base64 text stands for, if it is one.
pub uninterp spec fn base64url_decoded(s: Seq<char>) -> Option<Seq<u8>>;

/// What a base64 text decodes to: its bytes, or the refusal of the text.
pub open spec fn spec_vec_from_base64(s: Seq<char>) -> Result<Seq<u8>, ParseFailure> {
    match base64url_decoded(s) {
        Some(b) if utf8_len(s) <= usize::MAX / 8 => Ok(b),
        _ => Err(ParseFailure::Encoding(s)),
    }
}

/// The number of bytes that a text takes.
pub open spec fn utf8_len(s: Seq<char>) -> nat {
    encode_utf8(s).len()
}

/// `data_encoding::DecodeError`: why a text was refused. Nothing is read
/// from it.
#[verifier::external_type_specification]
#[verifier::external_body]
pub struct ExDecodeError(data_encoding::DecodeError);

/// `data_encoding::HEXLOWER.decode` on the bytes of a text.
///
/// Trusted: the call succeeds exactly on an even number of the digits
/// `0123456789abcdef`, and then gives one byte for every two digits, the
/// first digit being the high half. Texts above an eighth of the address
/// range are left out, since the call may panic on them.
#[verifier::external_body]
fn hexlower_decode(s: &str) -> (r: Result<Vec<u8>, data_encoding::DecodeError>)
    requires
        utf8_len(s@) <= usize::MAX / 8,
    ensures
        r is Ok <==> is_hex(s@),
        r is Ok ==> r->Ok_0@ == hex_decoded(s@),
{
    data_encoding::HEXLOWER.decode(s.as_bytes())
}

/// `data_encoding::HEXLOWER.encode`.
///
/// Trusted: the call gives two digits of `0123456789abcdef` for every byte,
/// the high half first. Inputs above a 512th of the address range are left
/// out, since the call may panic on them.
#[verifier::external_body]
fn hexlower_encode(bytes: &[u8]) -> (r: String)
    requires
        bytes@.len() <= usize::MAX / 512,
    ensures
        r@ == hex_encoded(bytes@),
{
    data_encoding::HEXLOWER.encode(bytes)
}

/// `data_encoding::BASE64URL_NOPAD.decode` on the bytes of a text.
///
/// Trusted: the result depends on the text alone; it is named, not spelled
/// out. Texts above an eighth of the address range are left out, since the
/// call may panic on them.
#[verifier::external_body]
fn base64url_nopad_decode(s: &str) -> (r: Result<Vec<u8>, data_encoding::DecodeError>)
    requires
        utf8_len(s@) <= usize::MAX / 8,
    ensures
        r is Ok <==> base64url_decoded(s@) is Some,
        r is Ok ==> r->Ok_0@ == base64url_decoded(s@)->Some_0,
{
    data_encoding::BASE64URL_NOPAD.decode(s.as_bytes())
}

/// A hexadecimal text is made of ASCII, so it takes one byte a character.
proof fn lemma_hex_is_ascii(s: Seq<char>)
    requires
        forall|i: int| 0 <= i < s.len() ==> (#[trigger] hex_digit_value(s[i])) is Some,
    ensures
        utf8_len(s) == s.len(),
{
    assert forall|i: int| 0 <= i < s.len() implies '\0' <= #[trigger] s[i] <= '\u{7f}' by {
        assert(hex_digit_value(s[i]) is Some);
    }
    is_ascii_chars_encode_utf8(s);
}

/// Decodes a lowercase hexadecimal text into its bytes.
pub fn vec_from_hex(s: &str) -> (r: Result<Vec<u8>, ParseError>)
    ensures
        outcome_bytes(r) == spec_vec_from_hex(s@),
{
    if s.as_bytes().len() > usize::MAX / 8 {
        proof {
            if is_hex(s@) {
                lemma_hex_is_ascii(s@);
            }
        }
        return Err(ParseError::Encoding(s.to_owned()));
    }
    match hexlower_decode(s) {
        Ok(bytes) => {
            proof {
                lemma_hex_is_ascii(s@);
            }
            Ok(bytes)
        },
        Err(_) => Err(ParseError::Encoding(s.to_owned())),
    }
}

/// Decodes an unpadded URL-safe base64 text into its bytes.
pub fn vec_from_base64(s: &str) -> (r: Result<Vec<u8>, ParseError>)
    ensures
        outcome_bytes(r) == spec_vec_from_base64(s@),
{
    if s.as_bytes().len() > usize::MAX / 8 {
        return Err(ParseError::Encoding(s.to_owned()));
    }
    match base64url_nopad_decode(s) {
        Ok(bytes) => Ok(bytes),
        Err(_) => Err(ParseError::Encoding(s.to_owned())),
    }
}

/// Encodes bytes as a lowercase hexadecimal text.
pub fn encode_hex(bytes: &[u8]) -> (r: String)
    requires
        bytes@.len() <= usize::MAX / 512,
    ensures
        r@ == hex_encoded(bytes@),
{
    hexlower_encode(bytes)
}

/// What a byte decoder returned, as mathematical values.
pub open spec fn outcome_bytes(r: Result<Vec<u8>, ParseError>) -> Result<Seq<u8>, ParseFailure> {
    match r {
        Ok(v) => Ok(v@),
        Err(e) => Err(e.deep_view()),
    }
}

} // verus!
