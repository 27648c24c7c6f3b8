//! The notes of a document on its flags.

use vstd::prelude::*;
use crate::decode::{Decode, optional_field, spec_optional_field};
use crate::error::{ParseError, ParseFailure};
use crate::json::Json;
use crate::named::{Named, named_field, spec_named_field};
use crate::record::Record;
use crate::text::str_eq;

verus! {

/// The class of bug that a flag marks.
#[derive(Debug, Copy, Clone, Hash, PartialEq, Eq, Structural)]
pub enum BugType {
    AuthBypass,
    Basic,
    BerEncoding,
    CanOfWorms,
    Confidentiality,
    Defined,
    EdgeCase,
    Functionality,
    KnownBug,
    Legacy,
    Malleability,
    MissingStep,
    ModifiedParameter,
    SignatureMalleability,
    Unknown,
    WeakParams,
    WrongPrimitive,
}

impl DeepView for BugType {
    type V = BugType;

    open spec fn deep_view(&self) -> BugType {
        *self
    }
}

impl Named for BugType {
    open spec fn spec_vocabulary() -> Seq<char> {
        "BugType"@
    }

    fn vocabulary() -> (r: &'static str) {
        "BugType"
    }

    open spec fn spec_from_name(name: Seq<char>) -> Option<BugType> {
        if name == "AUTH_BYPASS"@ { Some(BugType::AuthBypass) }
        else if name == "BASIC"@ { Some(BugType::Basic) }
        else if name == "BER_ENCODING"@ { Some(BugType::BerEncoding) }
        else if name == "CAN_OF_WORMS"@ { Some(BugType::CanOfWorms) }
        else if name == "CONFIDENTIALITY"@ { Some(BugType::Confidentiality) }
        else if name == "DEFINED"@ { Some(BugType::Defined) }
        else if name == "EDGE_CASE"@ { Some(BugType::EdgeCase) }
        else if name == "FUNCTIONALITY"@ { Some(BugType::Functionality) }
        else if name == "KNOWN_BUG"@ { Some(BugType::KnownBug) }
        else if name == "LEGACY"@ { Some(BugType::Legacy) }
        else if name == "MALLEABILITY"@ { Some(BugType::Malleability) }
        else if name == "MISSING_STEP"@ { Some(BugType::MissingStep) }
        else if name == "MODIFIED_PARAMETER"@ { Some(BugType::ModifiedParameter) }
        else if name == "SIGNATURE_MALLEABILITY"@ { Some(BugType::SignatureMalleability) }
        else if name == "UNKNOWN"@ { Some(BugType::Unknown) }
        else if name == "WEAK_PARAMS"@ { Some(BugType::WeakParams) }
        else if name == "WRONG_PRIMITIVE"@ { Some(BugType::WrongPrimitive) }
        else { None }
    }

    fn from_name(name: &str) -> (r: Option<BugType>) {
        if str_eq(name, "AUTH_BYPASS") { Some(BugType::AuthBypass) }
        else if str_eq(name, "BASIC") { Some(BugType::Basic) }
        else if str_eq(name, "BER_ENCODING") { Some(BugType::BerEncoding) }
        else if str_eq(name, "CAN_OF_WORMS") { Some(BugType::CanOfWorms) }
        else if str_eq(name, "CONFIDENTIALITY") { Some(BugType::Confidentiality) }
        else if str_eq(name, "DEFINED") { Some(BugType::Defined) }
        else if str_eq(name, "EDGE_CASE") { Some(BugType::EdgeCase) }
        else if str_eq(name, "FUNCTIONALITY") { Some(BugType::Functionality) }
        else if str_eq(name, "KNOWN_BUG") { Some(BugType::KnownBug) }
        else if str_eq(name, "LEGACY") { Some(BugType::Legacy) }
        else if str_eq(name, "MALLEABILITY") { Some(BugType::Malleability) }
        else if str_eq(name, "MISSING_STEP") { Some(BugType::MissingStep) }
        else if str_eq(name, "MODIFIED_PARAMETER") { Some(BugType::ModifiedParameter) }
        else if str_eq(name, "SIGNATURE_MALLEABILITY") { Some(BugType::SignatureMalleability) }
        else if str_eq(name, "UNKNOWN") { Some(BugType::Unknown) }
        else if str_eq(name, "WEAK_PARAMS") { Some(BugType::WeakParams) }
        else if str_eq(name, "WRONG_PRIMITIVE") { Some(BugType::WrongPrimitive) }
        else { None }
    }

    fn same(&self, other: &BugType) -> (r: bool) {
        *self == *other
    }
}

/// The identifier of a known vulnerability.
#[derive(Debug, Clone, Hash, PartialEq, Eq)]
pub struct CVE(pub String);

impl DeepView for CVE {
    type V = Seq<char>;

    open spec fn deep_view(&self) -> Seq<char> {
        self.0@
    }
}

impl Decode for CVE {
    open spec fn spec_decode(j: Json) -> Result<Seq<char>, ParseFailure> {
        String::spec_decode(j)
    }

    fn decode(j: &Json) -> (r: Result<CVE, ParseError>) {
        match String::decode(j) {
            Ok(s) => Ok(CVE(s)),
            Err(e) => Err(e),
        }
    }
}

/// A link to further reading.
#[derive(Debug, Clone, Hash, PartialEq, Eq)]
pub struct URL(pub String);

impl DeepView for URL {
    type V = Seq<char>;

    open spec fn deep_view(&self) -> Seq<char> {
        self.0@
    }
}

impl Decode for URL {
    open spec fn spec_decode(j: Json) -> Result<Seq<char>, ParseFailure> {
        String::spec_decode(j)
    }

    fn decode(j: &Json) -> (r: Result<URL, ParseError>) {
        match String::decode(j) {
            Ok(s) => Ok(URL(s)),
            Err(e) => Err(e),
        }
    }
}

/// What a document says of one of its flags.
#[derive(Debug, Clone, Hash, PartialEq, Eq)]
pub struct TestFlagInfo {
    pub bug_type: BugType,
    pub description: Option<String>,
    pub effect: Option<String>,
    pub cves: Option<Vec<CVE>>,
    pub links: Option<Vec<URL>>,
}

/// The mathematical value of a [`TestFlagInfo`].
pub struct TestFlagInfoView {
    pub bug_type: BugType,
    pub description: Option<Seq<char>>,
    pub effect: Option<Seq<char>>,
    pub cves: Option<Seq<Seq<char>>>,
    pub links: Option<Seq<Seq<char>>>,
}

impl DeepView for TestFlagInfo {
    type V = TestFlagInfoView;

    open spec fn deep_view(&self) -> TestFlagInfoView {
        TestFlagInfoView {
            bug_type: self.bug_type.deep_view(),
            description: self.description.deep_view(),
            effect: self.effect.deep_view(),
            cves: self.cves.deep_view(),
            links: self.links.deep_view(),
        }
    }
}

impl Record for TestFlagInfo {
    open spec fn spec_known_field(name: Seq<char>) -> bool {
        name == "bugType"@
            || name == "description"@
            || name == "effect"@
            || name == "cves"@
            || name == "links"@
    }

    fn known_field(name: &str) -> (r: bool) {
        str_eq(name, "bugType")
            || str_eq(name, "description")
            || str_eq(name, "effect")
            || str_eq(name, "cves")
            || str_eq(name, "links")
    }

    open spec fn spec_decode_fields(fields: Seq<(String, Json)>) -> Result<TestFlagInfoView, ParseFailure> {
        let bug_type = spec_named_field::<BugType>(fields, "bugType"@);
        let description = spec_optional_field::<String>(fields, "description"@);
        let effect = spec_optional_field::<String>(fields, "effect"@);
        let cves = spec_optional_field::<Vec<CVE>>(fields, "cves"@);
        let links = spec_optional_field::<Vec<URL>>(fields, "links"@);
        if bug_type is Err { Err(bug_type->Err_0) }
        else if description is Err { Err(description->Err_0) }
        else if effect is Err { Err(effect->Err_0) }
        else if cves is Err { Err(cves->Err_0) }
        else if links is Err { Err(links->Err_0) }
        else {
            Ok(TestFlagInfoView {
                bug_type: bug_type->Ok_0,
                description: description->Ok_0,
                effect: effect->Ok_0,
                cves: cves->Ok_0,
                links: links->Ok_0,
            })
        }
    }

    fn decode_fields(fields: &Vec<(String, Json)>) -> (r: Result<TestFlagInfo, ParseError>) {
        let bug_type = named_field::<BugType>(fields, "bugType")?;
        let description = optional_field::<String>(fields, "description")?;
        let effect = optional_field::<String>(fields, "effect")?;
        let cves = optional_field::<Vec<CVE>>(fields, "cves")?;
        let links = optional_field::<Vec<URL>>(fields, "links")?;
        Ok(TestFlagInfo { bug_type, description, effect, cves, links })
    }
}

} // verus!
