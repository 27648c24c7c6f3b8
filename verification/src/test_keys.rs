//! Keys that test groups are verified or decrypted against.

use vstd::prelude::*;
use crate::bytes::{ByteString, LargeInteger, base64_field, spec_base64_field};
use crate::decode::{field, spec_field};
use crate::error::{ParseError, ParseFailure};
use crate::json::Json;
use crate::named::{Named, named_field, spec_named_field};
use crate::record::Record;
use crate::text::str_eq;
use crate::vocab::{EdwardsCurve, EllipticCurve};

verus! {

/// The tag of a key; it holds no data.
#[derive(Debug, Copy, Clone, Hash, PartialEq, Eq, Structural)]
pub struct EcPublicKeyTypeId {}

impl DeepView for EcPublicKeyTypeId {
    type V = EcPublicKeyTypeId;

    open spec fn deep_view(&self) -> EcPublicKeyTypeId {
        *self
    }
}

impl Named for EcPublicKeyTypeId {
    open spec fn spec_vocabulary() -> Seq<char> {
        "EcPublicKeyTypeId"@
    }

    fn vocabulary() -> (r: &'static str) {
        "EcPublicKeyTypeId"
    }

    open spec fn spec_from_name(name: Seq<char>) -> Option<EcPublicKeyTypeId> {
        if name == "EcPublicKey"@ {
            Some(EcPublicKeyTypeId {})
        } else {
            None
        }
    }

    fn from_name(name: &str) -> (r: Option<EcPublicKeyTypeId>) {
        if str_eq(name, "EcPublicKey") {
            Some(EcPublicKeyTypeId {})
        } else {
            None
        }
    }

    fn same(&self, other: &EcPublicKeyTypeId) -> (r: bool) {
        true
    }
}

/// The tag of a key; it holds no data.
#[derive(Debug, Copy, Clone, Hash, PartialEq, Eq, Structural)]
pub struct DsaPublicKeyTypeId {}

impl DeepView for DsaPublicKeyTypeId {
    type V = DsaPublicKeyTypeId;

    open spec fn deep_view(&self) -> DsaPublicKeyTypeId {
        *self
    }
}

impl Named for DsaPublicKeyTypeId {
    open spec fn spec_vocabulary() -> Seq<char> {
        "DsaPublicKeyTypeId"@
    }

    fn vocabulary() -> (r: &'static str) {
        "DsaPublicKeyTypeId"
    }

    open spec fn spec_from_name(name: Seq<char>) -> Option<DsaPublicKeyTypeId> {
        if name == "DsaPublicKey"@ {
            Some(DsaPublicKeyTypeId {})
        } else {
            None
        }
    }

    fn from_name(name: &str) -> (r: Option<DsaPublicKeyTypeId>) {
        if str_eq(name, "DsaPublicKey") {
            Some(DsaPublicKeyTypeId {})
        } else {
            None
        }
    }

    fn same(&self, other: &DsaPublicKeyTypeId) -> (r: bool) {
        true
    }
}

/// The tag of a key; it holds no data.
#[derive(Debug, Copy, Clone, Hash, PartialEq, Eq, Structural)]
pub struct EddsaPublicKeyTypeId {}

impl DeepView for EddsaPublicKeyTypeId {
    type V = EddsaPublicKeyTypeId;

    open spec fn deep_view(&self) -> EddsaPublicKeyTypeId {
        *self
    }
}

impl Named for EddsaPublicKeyTypeId {
    open spec fn spec_vocabulary() -> Seq<char> {
        "EddsaPublicKeyTypeId"@
    }

    fn vocabulary() -> (r: &'static str) {
        "EddsaPublicKeyTypeId"
    }

    open spec fn spec_from_name(name: Seq<char>) -> Option<EddsaPublicKeyTypeId> {
        if name == "EDDSAPublicKey"@ {
            Some(EddsaPublicKeyTypeId {})
        } else {
            None
        }
    }

    fn from_name(name: &str) -> (r: Option<EddsaPublicKeyTypeId>) {
        if str_eq(name, "EDDSAPublicKey") {
            Some(EddsaPublicKeyTypeId {})
        } else {
            None
        }
    }

    fn same(&self, other: &EddsaPublicKeyTypeId) -> (r: bool) {
        true
    }
}

/// An ECDSA public key as a JSON Web Key.
#[derive(Debug, Clone, Hash, PartialEq, Eq)]
pub struct EcdsaPublicJwk {
    pub curve: EllipticCurve,
    pub kid: String,
    pub kty: String,
    pub affine_x: LargeInteger,
    pub affine_y: LargeInteger,
}

/// The mathematical value of a [`EcdsaPublicJwk`].
pub struct EcdsaPublicJwkView {
    pub curve: EllipticCurve,
    pub kid: Seq<char>,
    pub kty: Seq<char>,
    pub affine_x: Seq<u8>,
    pub affine_y: Seq<u8>,
}

impl DeepView for EcdsaPublicJwk {
    type V = EcdsaPublicJwkView;

    open spec fn deep_view(&self) -> EcdsaPublicJwkView {
        EcdsaPublicJwkView {
            curve: self.curve.deep_view(),
            kid: self.kid.deep_view(),
            kty: self.kty.deep_view(),
            affine_x: self.affine_x.deep_view(),
            affine_y: self.affine_y.deep_view(),
        }
    }
}

impl Record for EcdsaPublicJwk {
    open spec fn spec_known_field(name: Seq<char>) -> bool {
        name == "crv"@
            || name == "kid"@
            || name == "kty"@
            || name == "x"@
            || name == "y"@
    }

    fn known_field(name: &str) -> (r: bool) {
        str_eq(name, "crv")
            || str_eq(name, "kid")
            || str_eq(name, "kty")
            || str_eq(name, "x")
            || str_eq(name, "y")
    }

    open spec fn spec_decode_fields(fields: Seq<(String, Json)>) -> Result<EcdsaPublicJwkView, ParseFailure> {
        let curve = spec_named_field::<EllipticCurve>(fields, "crv"@);
        let kid = spec_field::<String>(fields, "kid"@);
        let kty = spec_field::<String>(fields, "kty"@);
        let affine_x = spec_base64_field(fields, "x"@);
        let affine_y = spec_base64_field(fields, "y"@);
        if curve is Err { Err(curve->Err_0) }
        else if kid is Err { Err(kid->Err_0) }
        else if kty is Err { Err(kty->Err_0) }
        else if affine_x is Err { Err(affine_x->Err_0) }
        else if affine_y is Err { Err(affine_y->Err_0) }
        else {
            Ok(EcdsaPublicJwkView {
                curve: curve->Ok_0,
                kid: kid->Ok_0,
                kty: kty->Ok_0,
                affine_x: affine_x->Ok_0,
                affine_y: affine_y->Ok_0,
            })
        }
    }

    fn decode_fields(fields: &Vec<(String, Json)>) -> (r: Result<EcdsaPublicJwk, ParseError>) {
        let curve = named_field::<EllipticCurve>(fields, "crv")?;
        let kid = field::<String>(fields, "kid")?;
        let kty = field::<String>(fields, "kty")?;
        let affine_x = base64_field(fields, "x")?;
        let affine_y = base64_field(fields, "y")?;
        Ok(EcdsaPublicJwk { curve, kid, kty, affine_x, affine_y })
    }
}

/// An RSA public key as a JSON Web Key.
#[derive(Debug, Clone, Hash, PartialEq, Eq)]
pub struct RsaPublicJwk {
    pub alg: String,
    pub e: LargeInteger,
    pub kid: String,
    pub kty: String,
    pub n: LargeInteger,
}

/// The mathematical value of a [`RsaPublicJwk`].
pub struct RsaPublicJwkView {
    pub alg: Seq<char>,
    pub e: Seq<u8>,
    pub kid: Seq<char>,
    pub kty: Seq<char>,
    pub n: Seq<u8>,
}

impl DeepView for RsaPublicJwk {
    type V = RsaPublicJwkView;

    open spec fn deep_view(&self) -> RsaPublicJwkView {
        RsaPublicJwkView {
            alg: self.alg.deep_view(),
            e: self.e.deep_view(),
            kid: self.kid.deep_view(),
            kty: self.kty.deep_view(),
            n: self.n.deep_view(),
        }
    }
}

impl Record for RsaPublicJwk {
    open spec fn spec_known_field(name: Seq<char>) -> bool {
        name == "alg"@
            || name == "e"@
            || name == "kid"@
            || name == "kty"@
            || name == "n"@
    }

    fn known_field(name: &str) -> (r: bool) {
        str_eq(name, "alg")
            || str_eq(name, "e")
            || str_eq(name, "kid")
            || str_eq(name, "kty")
            || str_eq(name, "n")
    }

    open spec fn spec_decode_fields(fields: Seq<(String, Json)>) -> Result<RsaPublicJwkView, ParseFailure> {
        let alg = spec_field::<String>(fields, "alg"@);
        let e = spec_base64_field(fields, "e"@);
        let kid = spec_field::<String>(fields, "kid"@);
        let kty = spec_field::<String>(fields, "kty"@);
        let n = spec_base64_field(fields, "n"@);
        if alg is Err { Err(alg->Err_0) }
        else if e is Err { Err(e->Err_0) }
        else if kid is Err { Err(kid->Err_0) }
        else if kty is Err { Err(kty->Err_0) }
        else if n is Err { Err(n->Err_0) }
        else {
            Ok(RsaPublicJwkView {
                alg: alg->Ok_0,
                e: e->Ok_0,
                kid: kid->Ok_0,
                kty: kty->Ok_0,
                n: n->Ok_0,
            })
        }
    }

    fn decode_fields(fields: &Vec<(String, Json)>) -> (r: Result<RsaPublicJwk, ParseError>) {
        let alg = field::<String>(fields, "alg")?;
        let e = base64_field(fields, "e")?;
        let kid = field::<String>(fields, "kid")?;
        let kty = field::<String>(fields, "kty")?;
        let n = base64_field(fields, "n")?;
        Ok(RsaPublicJwk { alg, e, kid, kty, n })
    }
}

/// An RSA private key as a JSON Web Key.
#[derive(Debug, Clone, Hash, PartialEq, Eq)]
pub struct RsaPrivateJwk {
    pub alg: String,
    pub d: LargeInteger,
    pub dp: LargeInteger,
    pub dq: LargeInteger,
    pub e: LargeInteger,
    pub kid: String,
    pub kty: String,
    pub n: LargeInteger,
    pub p: LargeInteger,
    pub q: LargeInteger,
    pub qi: LargeInteger,
}

/// The mathematical value of a [`RsaPrivateJwk`].
pub struct RsaPrivateJwkView {
    pub alg: Seq<char>,
    pub d: Seq<u8>,
    pub dp: Seq<u8>,
    pub dq: Seq<u8>,
    pub e: Seq<u8>,
    pub kid: Seq<char>,
    pub kty: Seq<char>,
    pub n: Seq<u8>,
    pub p: Seq<u8>,
    pub q: Seq<u8>,
    pub qi: Seq<u8>,
}

impl DeepView for RsaPrivateJwk {
    type V = RsaPrivateJwkView;

    open spec fn deep_view(&self) -> RsaPrivateJwkView {
        RsaPrivateJwkView {
            alg: self.alg.deep_view(),
            d: self.d.deep_view(),
            dp: self.dp.deep_view(),
            dq: self.dq.deep_view(),
            e: self.e.deep_view(),
            kid: self.kid.deep_view(),
            kty: self.kty.deep_view(),
            n: self.n.deep_view(),
            p: self.p.deep_view(),
            q: self.q.deep_view(),
            qi: self.qi.deep_view(),
        }
    }
}

impl Record for RsaPrivateJwk {
    open spec fn spec_known_field(name: Seq<char>) -> bool {
        name == "alg"@
            || name == "d"@
            || name == "dp"@
            || name == "dq"@
            || name == "e"@
            || name == "kid"@
            || name == "kty"@
            || name == "n"@
            || name == "p"@
            || name == "q"@
            || name == "qi"@
    }

    fn known_field(name: &str) -> (r: bool) {
        str_eq(name, "alg")
            || str_eq(name, "d")
            || str_eq(name, "dp")
            || str_eq(name, "dq")
            || str_eq(name, "e")
            || str_eq(name, "kid")
            || str_eq(name, "kty")
            || str_eq(name, "n")
            || str_eq(name, "p")
            || str_eq(name, "q")
            || str_eq(name, "qi")
    }

    open spec fn spec_decode_fields(fields: Seq<(String, Json)>) -> Result<RsaPrivateJwkView, ParseFailure> {
        let alg = spec_field::<String>(fields, "alg"@);
        let d = spec_base64_field(fields, "d"@);
        let dp = spec_base64_field(fields, "dp"@);
        let dq = spec_base64_field(fields, "dq"@);
        let e = spec_base64_field(fields, "e"@);
        let kid = spec_field::<String>(fields, "kid"@);
        let kty = spec_field::<String>(fields, "kty"@);
        let n = spec_base64_field(fields, "n"@);
        let p = spec_base64_field(fields, "p"@);
        let q = spec_base64_field(fields, "q"@);
        let qi = spec_base64_field(fields, "qi"@);
        if alg is Err { Err(alg->Err_0) }
        else if d is Err { Err(d->Err_0) }
        else if dp is Err { Err(dp->Err_0) }
        else if dq is Err { Err(dq->Err_0) }
        else if e is Err { Err(e->Err_0) }
        else if kid is Err { Err(kid->Err_0) }
        else if kty is Err { Err(kty->Err_0) }
        else if n is Err { Err(n->Err_0) }
        else if p is Err { Err(p->Err_0) }
        else if q is Err { Err(q->Err_0) }
        else if qi is Err { Err(qi->Err_0) }
        else {
            Ok(RsaPrivateJwkView {
                alg: alg->Ok_0,
                d: d->Ok_0,
                dp: dp->Ok_0,
                dq: dq->Ok_0,
                e: e->Ok_0,
                kid: kid->Ok_0,
                kty: kty->Ok_0,
                n: n->Ok_0,
                p: p->Ok_0,
                q: q->Ok_0,
                qi: qi->Ok_0,
            })
        }
    }

    fn decode_fields(fields: &Vec<(String, Json)>) -> (r: Result<RsaPrivateJwk, ParseError>) {
        let alg = field::<String>(fields, "alg")?;
        let d = base64_field(fields, "d")?;
        let dp = base64_field(fields, "dp")?;
        let dq = base64_field(fields, "dq")?;
        let e = base64_field(fields, "e")?;
        let kid = field::<String>(fields, "kid")?;
        let kty = field::<String>(fields, "kty")?;
        let n = base64_field(fields, "n")?;
        let p = base64_field(fields, "p")?;
        let q = base64_field(fields, "q")?;
        let qi = base64_field(fields, "qi")?;
        Ok(RsaPrivateJwk { alg, d, dp, dq, e, kid, kty, n, p, q, qi })
    }
}

/// An EdDSA public key as a JSON Web Key.
#[derive(Debug, Clone, Hash, PartialEq, Eq)]
pub struct EddsaPublicJwk {
    pub curve: EdwardsCurve,
    pub kid: String,
    pub kty: String,
    pub x: LargeInteger,
}

/// The mathematical value of a [`EddsaPublicJwk`].
pub struct EddsaPublicJwkView {
    pub curve: EdwardsCurve,
    pub kid: Seq<char>,
    pub kty: Seq<char>,
    pub x: Seq<u8>,
}

impl DeepView for EddsaPublicJwk {
    type V = EddsaPublicJwkView;

    open spec fn deep_view(&self) -> EddsaPublicJwkView {
        EddsaPublicJwkView {
            curve: self.curve.deep_view(),
            kid: self.kid.deep_view(),
            kty: self.kty.deep_view(),
            x: self.x.deep_view(),
        }
    }
}

impl Record for EddsaPublicJwk {
    open spec fn spec_known_field(name: Seq<char>) -> bool {
        name == "crv"@
            || name == "kid"@
            || name == "kty"@
            || name == "x"@
    }

    fn known_field(name: &str) -> (r: bool) {
        str_eq(name, "crv")
            || str_eq(name, "kid")
            || str_eq(name, "kty")
            || str_eq(name, "x")
    }

    open spec fn spec_decode_fields(fields: Seq<(String, Json)>) -> Result<EddsaPublicJwkView, ParseFailure> {
        let curve = spec_named_field::<EdwardsCurve>(fields, "crv"@);
        let kid = spec_field::<String>(fields, "kid"@);
        let kty = spec_field::<String>(fields, "kty"@);
        let x = spec_base64_field(fields, "x"@);
        if curve is Err { Err(curve->Err_0) }
        else if kid is Err { Err(kid->Err_0) }
        else if kty is Err { Err(kty->Err_0) }
        else if x is Err { Err(x->Err_0) }
        else {
            Ok(EddsaPublicJwkView {
                curve: curve->Ok_0,
                kid: kid->Ok_0,
                kty: kty->Ok_0,
                x: x->Ok_0,
            })
        }
    }

    fn decode_fields(fields: &Vec<(String, Json)>) -> (r: Result<EddsaPublicJwk, ParseError>) {
        let curve = named_field::<EdwardsCurve>(fields, "crv")?;
        let kid = field::<String>(fields, "kid")?;
        let kty = field::<String>(fields, "kty")?;
        let x = base64_field(fields, "x")?;
        Ok(EddsaPublicJwk { curve, kid, kty, x })
    }
}

/// An RSA private key.
#[derive(Debug, Clone, Hash, PartialEq, Eq)]
pub struct RsaPrivate {
    pub e: LargeInteger,
    pub d: LargeInteger,
    pub n: LargeInteger,
    pub p: LargeInteger,
    pub q: LargeInteger,
    pub d1: LargeInteger,
    pub d2: LargeInteger,
    pub c: LargeInteger,
}

/// The mathematical value of a [`RsaPrivate`].
pub struct RsaPrivateView {
    pub e: Seq<u8>,
    pub d: Seq<u8>,
    pub n: Seq<u8>,
    pub p: Seq<u8>,
    pub q: Seq<u8>,
    pub d1: Seq<u8>,
    pub d2: Seq<u8>,
    pub c: Seq<u8>,
}

impl DeepView for RsaPrivate {
    type V = RsaPrivateView;

    open spec fn deep_view(&self) -> RsaPrivateView {
        RsaPrivateView {
            e: self.e.deep_view(),
            d: self.d.deep_view(),
            n: self.n.deep_view(),
            p: self.p.deep_view(),
            q: self.q.deep_view(),
            d1: self.d1.deep_view(),
            d2: self.d2.deep_view(),
            c: self.c.deep_view(),
        }
    }
}

impl Record for RsaPrivate {
    open spec fn spec_known_field(name: Seq<char>) -> bool {
        name == "publicExponent"@
            || name == "privateExponent"@
            || name == "modulus"@
            || name == "prime1"@
            || name == "prime2"@
            || name == "exponent1"@
            || name == "exponent2"@
            || name == "coefficient"@
    }

    fn known_field(name: &str) -> (r: bool) {
        str_eq(name, "publicExponent")
            || str_eq(name, "privateExponent")
            || str_eq(name, "modulus")
            || str_eq(name, "prime1")
            || str_eq(name, "prime2")
            || str_eq(name, "exponent1")
            || str_eq(name, "exponent2")
            || str_eq(name, "coefficient")
    }

    open spec fn spec_decode_fields(fields: Seq<(String, Json)>) -> Result<RsaPrivateView, ParseFailure> {
        let e = spec_field::<LargeInteger>(fields, "publicExponent"@);
        let d = spec_field::<LargeInteger>(fields, "privateExponent"@);
        let n = spec_field::<LargeInteger>(fields, "modulus"@);
        let p = spec_field::<LargeInteger>(fields, "prime1"@);
        let q = spec_field::<LargeInteger>(fields, "prime2"@);
        let d1 = spec_field::<LargeInteger>(fields, "exponent1"@);
        let d2 = spec_field::<LargeInteger>(fields, "exponent2"@);
        let c = spec_field::<LargeInteger>(fields, "coefficient"@);
        if e is Err { Err(e->Err_0) }
        else if d is Err { Err(d->Err_0) }
        else if n is Err { Err(n->Err_0) }
        else if p is Err { Err(p->Err_0) }
        else if q is Err { Err(q->Err_0) }
        else if d1 is Err { Err(d1->Err_0) }
        else if d2 is Err { Err(d2->Err_0) }
        else if c is Err { Err(c->Err_0) }
        else {
            Ok(RsaPrivateView {
                e: e->Ok_0,
                d: d->Ok_0,
                n: n->Ok_0,
                p: p->Ok_0,
                q: q->Ok_0,
                d1: d1->Ok_0,
                d2: d2->Ok_0,
                c: c->Ok_0,
            })
        }
    }

    fn decode_fields(fields: &Vec<(String, Json)>) -> (r: Result<RsaPrivate, ParseError>) {
        let e = field::<LargeInteger>(fields, "publicExponent")?;
        let d = field::<LargeInteger>(fields, "privateExponent")?;
        let n = field::<LargeInteger>(fields, "modulus")?;
        let p = field::<LargeInteger>(fields, "prime1")?;
        let q = field::<LargeInteger>(fields, "prime2")?;
        let d1 = field::<LargeInteger>(fields, "exponent1")?;
        let d2 = field::<LargeInteger>(fields, "exponent2")?;
        let c = field::<LargeInteger>(fields, "coefficient")?;
        Ok(RsaPrivate { e, d, n, p, q, d1, d2, c })
    }
}

/// An RSA public key.
#[derive(Debug, Clone, Hash, PartialEq, Eq)]
pub struct RsaPublic {
    pub e: LargeInteger,
    pub n: LargeInteger,
}

/// The mathematical value of a [`RsaPublic`].
pub struct RsaPublicView {
    pub e: Seq<u8>,
    pub n: Seq<u8>,
}

impl DeepView for RsaPublic {
    type V = RsaPublicView;

    open spec fn deep_view(&self) -> RsaPublicView {
        RsaPublicView {
            e: self.e.deep_view(),
            n: self.n.deep_view(),
        }
    }
}

impl Record for RsaPublic {
    open spec fn spec_known_field(name: Seq<char>) -> bool {
        name == "publicExponent"@
            || name == "modulus"@
    }

    fn known_field(name: &str) -> (r: bool) {
        str_eq(name, "publicExponent")
            || str_eq(name, "modulus")
    }

    open spec fn spec_decode_fields(fields: Seq<(String, Json)>) -> Result<RsaPublicView, ParseFailure> {
        let e = spec_field::<LargeInteger>(fields, "publicExponent"@);
        let n = spec_field::<LargeInteger>(fields, "modulus"@);
        if e is Err { Err(e->Err_0) }
        else if n is Err { Err(n->Err_0) }
        else {
            Ok(RsaPublicView {
                e: e->Ok_0,
                n: n->Ok_0,
            })
        }
    }

    fn decode_fields(fields: &Vec<(String, Json)>) -> (r: Result<RsaPublic, ParseError>) {
        let e = field::<LargeInteger>(fields, "publicExponent")?;
        let n = field::<LargeInteger>(fields, "modulus")?;
        Ok(RsaPublic { e, n })
    }
}

/// An ECDSA public key.
#[derive(Debug, Clone, Hash, PartialEq, Eq)]
pub struct EcdsaPublic {
    pub curve: EllipticCurve,
    pub key_size: usize,
    pub typ: EcPublicKeyTypeId,
    pub key: ByteString,
    pub affine_x: LargeInteger,
    pub affine_y: LargeInteger,
}

/// The mathematical value of a [`EcdsaPublic`].
pub struct EcdsaPublicView {
    pub curve: EllipticCurve,
    pub key_size: usize,
    pub typ: EcPublicKeyTypeId,
    pub key: Seq<u8>,
    pub affine_x: Seq<u8>,
    pub affine_y: Seq<u8>,
}

impl DeepView for EcdsaPublic {
    type V = EcdsaPublicView;

    open spec fn deep_view(&self) -> EcdsaPublicView {
        EcdsaPublicView {
            curve: self.curve.deep_view(),
            key_size: self.key_size.deep_view(),
            typ: self.typ.deep_view(),
            key: self.key.deep_view(),
            affine_x: self.affine_x.deep_view(),
            affine_y: self.affine_y.deep_view(),
        }
    }
}

impl Record for EcdsaPublic {
    open spec fn spec_known_field(name: Seq<char>) -> bool {
        name == "curve"@
            || name == "keySize"@
            || name == "type"@
            || name == "uncompressed"@
            || name == "wx"@
            || name == "wy"@
    }

    fn known_field(name: &str) -> (r: bool) {
        str_eq(name, "curve")
            || str_eq(name, "keySize")
            || str_eq(name, "type")
            || str_eq(name, "uncompressed")
            || str_eq(name, "wx")
            || str_eq(name, "wy")
    }

    open spec fn spec_decode_fields(fields: Seq<(String, Json)>) -> Result<EcdsaPublicView, ParseFailure> {
        let curve = spec_named_field::<EllipticCurve>(fields, "curve"@);
        let key_size = spec_field::<usize>(fields, "keySize"@);
        let typ = spec_named_field::<EcPublicKeyTypeId>(fields, "type"@);
        let key = spec_field::<ByteString>(fields, "uncompressed"@);
        let affine_x = spec_field::<LargeInteger>(fields, "wx"@);
        let affine_y = spec_field::<LargeInteger>(fields, "wy"@);
        if curve is Err { Err(curve->Err_0) }
        else if key_size is Err { Err(key_size->Err_0) }
        else if typ is Err { Err(typ->Err_0) }
        else if key is Err { Err(key->Err_0) }
        else if affine_x is Err { Err(affine_x->Err_0) }
        else if affine_y is Err { Err(affine_y->Err_0) }
        else {
            Ok(EcdsaPublicView {
                curve: curve->Ok_0,
                key_size: key_size->Ok_0,
                typ: typ->Ok_0,
                key: key->Ok_0,
                affine_x: affine_x->Ok_0,
                affine_y: affine_y->Ok_0,
            })
        }
    }

    fn decode_fields(fields: &Vec<(String, Json)>) -> (r: Result<EcdsaPublic, ParseError>) {
        let curve = named_field::<EllipticCurve>(fields, "curve")?;
        let key_size = field::<usize>(fields, "keySize")?;
        let typ = named_field::<EcPublicKeyTypeId>(fields, "type")?;
        let key = field::<ByteString>(fields, "uncompressed")?;
        let affine_x = field::<LargeInteger>(fields, "wx")?;
        let affine_y = field::<LargeInteger>(fields, "wy")?;
        Ok(EcdsaPublic { curve, key_size, typ, key, affine_x, affine_y })
    }
}

/// A DSA public key.
#[derive(Debug, Clone, Hash, PartialEq, Eq)]
pub struct DsaPublic {
    pub g: LargeInteger,
    pub key_size: usize,
    pub p: LargeInteger,
    pub q: LargeInteger,
    pub typ: DsaPublicKeyTypeId,
    pub y: LargeInteger,
}

/// The mathematical value of a [`DsaPublic`].
pub struct DsaPublicView {
    pub g: Seq<u8>,
    pub key_size: usize,
    pub p: Seq<u8>,
    pub q: Seq<u8>,
    pub typ: DsaPublicKeyTypeId,
    pub y: Seq<u8>,
}

impl DeepView for DsaPublic {
    type V = DsaPublicView;

    open spec fn deep_view(&self) -> DsaPublicView {
        DsaPublicView {
            g: self.g.deep_view(),
            key_size: self.key_size.deep_view(),
            p: self.p.deep_view(),
            q: self.q.deep_view(),
            typ: self.typ.deep_view(),
            y: self.y.deep_view(),
        }
    }
}

impl Record for DsaPublic {
    open spec fn spec_known_field(name: Seq<char>) -> bool {
        name == "g"@
            || name == "keySize"@
            || name == "p"@
            || name == "q"@
            || name == "type"@
            || name == "y"@
    }

    fn known_field(name: &str) -> (r: bool) {
        str_eq(name, "g")
            || str_eq(name, "keySize")
            || str_eq(name, "p")
            || str_eq(name, "q")
            || str_eq(name, "type")
            || str_eq(name, "y")
    }

    open spec fn spec_decode_fields(fields: Seq<(String, Json)>) -> Result<DsaPublicView, ParseFailure> {
        let g = spec_field::<LargeInteger>(fields, "g"@);
        let key_size = spec_field::<usize>(fields, "keySize"@);
        let p = spec_field::<LargeInteger>(fields, "p"@);
        let q = spec_field::<LargeInteger>(fields, "q"@);
        let typ = spec_named_field::<DsaPublicKeyTypeId>(fields, "type"@);
        let y = spec_field::<LargeInteger>(fields, "y"@);
        if g is Err { Err(g->Err_0) }
        else if key_size is Err { Err(key_size->Err_0) }
        else if p is Err { Err(p->Err_0) }
        else if q is Err { Err(q->Err_0) }
        else if typ is Err { Err(typ->Err_0) }
        else if y is Err { Err(y->Err_0) }
        else {
            Ok(DsaPublicView {
                g: g->Ok_0,
                key_size: key_size->Ok_0,
                p: p->Ok_0,
                q: q->Ok_0,
                typ: typ->Ok_0,
                y: y->Ok_0,
            })
        }
    }

    fn decode_fields(fields: &Vec<(String, Json)>) -> (r: Result<DsaPublic, ParseError>) {
        let g = field::<LargeInteger>(fields, "g")?;
        let key_size = field::<usize>(fields, "keySize")?;
        let p = field::<LargeInteger>(fields, "p")?;
        let q = field::<LargeInteger>(fields, "q")?;
        let typ = named_field::<DsaPublicKeyTypeId>(fields, "type")?;
        let y = field::<LargeInteger>(fields, "y")?;
        Ok(DsaPublic { g, key_size, p, q, typ, y })
    }
}

/// An EdDSA public key.
#[derive(Debug, Clone, Hash, PartialEq, Eq)]
pub struct EddsaPublic {
    pub curve: EdwardsCurve,
    pub key_size: usize,
    pub pk: ByteString,
    pub typ: EddsaPublicKeyTypeId,
}

/// The mathematical value of a [`EddsaPublic`].
pub struct EddsaPublicView {
    pub curve: EdwardsCurve,
    pub key_size: usize,
    pub pk: Seq<u8>,
    pub typ: EddsaPublicKeyTypeId,
}

impl DeepView for EddsaPublic {
    type V = EddsaPublicView;

    open spec fn deep_view(&self) -> EddsaPublicView {
        EddsaPublicView {
            curve: self.curve.deep_view(),
            key_size: self.key_size.deep_view(),
            pk: self.pk.deep_view(),
            typ: self.typ.deep_view(),
        }
    }
}

impl Record for EddsaPublic {
    open spec fn spec_known_field(name: Seq<char>) -> bool {
        name == "curve"@
            || name == "keySize"@
            || name == "pk"@
            || name == "type"@
    }

    fn known_field(name: &str) -> (r: bool) {
        str_eq(name, "curve")
            || str_eq(name, "keySize")
            || str_eq(name, "pk")
            || str_eq(name, "type")
    }

    open spec fn spec_decode_fields(fields: Seq<(String, Json)>) -> Result<EddsaPublicView, ParseFailure> {
        let curve = spec_named_field::<EdwardsCurve>(fields, "curve"@);
        let key_size = spec_field::<usize>(fields, "keySize"@);
        let pk = spec_field::<ByteString>(fields, "pk"@);
        let typ = spec_named_field::<EddsaPublicKeyTypeId>(fields, "type"@);
        if curve is Err { Err(curve->Err_0) }
        else if key_size is Err { Err(key_size->Err_0) }
        else if pk is Err { Err(pk->Err_0) }
        else if typ is Err { Err(typ->Err_0) }
        else {
            Ok(EddsaPublicView {
                curve: curve->Ok_0,
                key_size: key_size->Ok_0,
                pk: pk->Ok_0,
                typ: typ->Ok_0,
            })
        }
    }

    fn decode_fields(fields: &Vec<(String, Json)>) -> (r: Result<EddsaPublic, ParseError>) {
        let curve = named_field::<EdwardsCurve>(fields, "curve")?;
        let key_size = field::<usize>(fields, "keySize")?;
        let pk = field::<ByteString>(fields, "pk")?;
        let typ = named_field::<EddsaPublicKeyTypeId>(fields, "type")?;
        Ok(EddsaPublic { curve, key_size, pk, typ })
    }
}

} // verus!
