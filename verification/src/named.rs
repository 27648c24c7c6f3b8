//! Closed vocabularies: values that a document gives by name.

use vstd::prelude::*;
use crate::decode::{first_failure, lemma_first_failure_step, outcome, spec_decode_all};
use crate::error::{ParseError, ParseFailure};
use crate::json::{find, spec_find, Json};

verus! {

/// A type whose values have names, each name being one exact text.
pub trait Named: Sized + DeepView {
    /// What the vocabulary is called in errors.
    spec fn spec_vocabulary() -> Seq<char>;

    fn vocabulary() -> (r: &'static str)
        ensures
            r@ == Self::spec_vocabulary(),
    ;

    /// The value of that name, if the vocabulary has the name.
    spec fn spec_from_name(name: Seq<char>) -> Option<Self::V>;

    fn from_name(name: &str) -> (r: Option<Self>)
        ensures
            r.deep_view() == Self::spec_from_name(name@),
    ;

    /// Whether two values are the same.
    fn same(&self, other: &Self) -> (r: bool)
        ensures
            r <==> self.deep_view() == other.deep_view(),
    ;
}

/// The value that a name stands for, or the refusal that quotes the name.
pub open spec fn spec_parse<E: Named>(name: Seq<char>) -> Result<E::V, ParseFailure> {
    match E::spec_from_name(name) {
        Some(v) => Ok(v),
        None => Err(ParseFailure::UnknownValue { vocabulary: E::spec_vocabulary(), value: name }),
    }
}

/// Reads a value from its name.
pub fn parse<E: Named>(name: &str) -> (r: Result<E, ParseError>)
    ensures
        outcome(r) == spec_parse::<E>(name@),
{
    match E::from_name(name) {
        Some(v) => Ok(v),
        None => Err(ParseError::UnknownValue {
            vocabulary: E::vocabulary().to_owned(),
            value: name.to_owned(),
        }),
    }
}

/// The value that a JSON value names: the value is a string, and the
/// vocabulary has it.
pub open spec fn spec_decode_named<E: Named>(j: Json) -> Result<E::V, ParseFailure> {
    match j {
        Json::Str(s) => spec_parse::<E>(s@),
        _ => Err(ParseFailure::Unexpected { expected: "a string"@ }),
    }
}

/// Reads a named value from a JSON value.
pub fn decode_named<E: Named>(j: &Json) -> (r: Result<E, ParseError>)
    ensures
        outcome(r) == spec_decode_named::<E>(*j),
{
    match j {
        Json::Str(s) => parse::<E>(s.as_str()),
        _ => Err(ParseError::Unexpected { expected: "a string".to_owned() }),
    }
}

/// Closed vocabularies: a name that the vocabulary lacks is refused, and
/// the refusal quotes it.
pub proof fn lemma_unknown_name_refused<E: Named>(j: Json)
    requires
        j is Str,
        E::spec_from_name(j->Str_0@) is None,
    ensures
        spec_decode_named::<E>(j) == Err::<E::V, ParseFailure>(
            ParseFailure::UnknownValue { vocabulary: E::spec_vocabulary(), value: j->Str_0@ },
        ),
{
}

/// The decoder of a vocabulary, as a function.
pub open spec fn name_decoder<E: Named>() -> spec_fn(Json) -> Result<E::V, ParseFailure> {
    |j: Json| spec_decode_named::<E>(j)
}

/// The values that a JSON array names, in order; or the failure of the
/// first item that names none.
pub open spec fn spec_decode_names<E: Named>(j: Json) -> Result<Seq<E::V>, ParseFailure> {
    match j {
        Json::Array(items) => spec_decode_all(items@, name_decoder::<E>()),
        _ => Err(ParseFailure::Unexpected { expected: "an array"@ }),
    }
}

/// Reads a list of named values from a JSON array.
pub fn decode_names<E: Named>(j: &Json) -> (r: Result<Vec<E>, ParseError>)
    ensures
        outcome(r) == spec_decode_names::<E>(*j),
{
    match j {
        Json::Array(items) => {
            let mut out: Vec<E> = Vec::new();
            let mut i: usize = 0;
            while i < items.len()
                invariant
                    *j == Json::Array(*items),
                    i <= items.len(),
                    out.len() == i,
                    first_failure(items@, name_decoder::<E>(), i as nat) is None,
                    forall|k: int| 0 <= k < i ==> spec_decode_named::<E>(items@[k]) == Ok::<E::V, ParseFailure>(#[trigger] out@[k].deep_view()),
                decreases items.len() - i,
            {
                proof {
                    lemma_first_failure_step(items@, name_decoder::<E>(), i as nat);
                }
                match decode_named::<E>(&items[i]) {
                    Ok(v) => {
                        out.push(v);
                    },
                    Err(e) => {
                        return Err(e);
                    },
                }
                i = i + 1;
            }
            assert(out.deep_view() =~= spec_decode_names::<E>(*j)->Ok_0);
            Ok(out)
        },
        _ => Err(ParseError::Unexpected { expected: "an array".to_owned() }),
    }
}

/// The named value of the member `name`, which must be there.
pub open spec fn spec_named_field<E: Named>(fields: Seq<(String, Json)>, name: Seq<char>) -> Result<E::V, ParseFailure> {
    match spec_find(fields, name) {
        Some(j) => spec_decode_named::<E>(j),
        None => Err(ParseFailure::MissingField(name)),
    }
}

pub fn named_field<E: Named>(fields: &Vec<(String, Json)>, name: &str) -> (r: Result<E, ParseError>)
    ensures
        outcome(r) == spec_named_field::<E>(fields@, name@),
{
    match find(fields, name) {
        Some(j) => decode_named::<E>(j),
        None => Err(ParseError::MissingField(name.to_owned())),
    }
}

/// The named values of the member `name`; a missing member is an empty
/// list.
pub open spec fn spec_named_list_field<E: Named>(fields: Seq<(String, Json)>, name: Seq<char>) -> Result<Seq<E::V>, ParseFailure> {
    match spec_find(fields, name) {
        Some(j) => spec_decode_names::<E>(j),
        None => Ok(Seq::empty()),
    }
}

pub fn named_list_field<E: Named>(fields: &Vec<(String, Json)>, name: &str) -> (r: Result<Vec<E>, ParseError>)
    ensures
        outcome(r) == spec_named_list_field::<E>(fields@, name@),
{
    match find(fields, name) {
        Some(j) => decode_names::<E>(j),
        None => {
            let empty: Vec<E> = Vec::new();
            assert(empty.deep_view() =~= Seq::<E::V>::empty());
            Ok(empty)
        },
    }
}

} // verus!
