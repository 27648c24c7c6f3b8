//! Records: JSON objects with a closed set of members.

use vstd::prelude::*;
use crate::decode::{outcome, Decode};
use crate::error::{ParseError, ParseFailure};
use crate::json::Json;

verus! {

/// A type that is read from the members of a JSON object and that knows
/// every member name it takes.
pub trait Record: Sized + DeepView {
    /// Whether the record has a member of that name.
    spec fn spec_known_field(name: Seq<char>) -> bool;

    fn known_field(name: &str) -> (r: bool)
        ensures
            r == Self::spec_known_field(name@),
    ;

    /// The record that the members stand for, all of them being known.
    spec fn spec_decode_fields(fields: Seq<(String, Json)>) -> Result<Self::V, ParseFailure>;

    fn decode_fields(fields: &Vec<(String, Json)>) -> (r: Result<Self, ParseError>)
        ensures
            outcome(r) == Self::spec_decode_fields(fields@),
    ;
}

/// The name of the first of the first `n` members that the record does not
/// know.
pub open spec fn first_unknown<R: Record>(fields: Seq<(String, Json)>, n: nat) -> Option<Seq<char>>
    decreases n,
{
    if n == 0 {
        None
    } else {
        match first_unknown::<R>(fields, (n - 1) as nat) {
            Some(name) => Some(name),
            None => if R::spec_known_field(fields[n - 1].0@) {
                None
            } else {
                Some(fields[n - 1].0@)
            },
        }
    }
}

/// The record that a JSON value stands for: the value is an object, the
/// record knows each of its members, and the members decode.
pub open spec fn spec_decode_record<R: Record>(j: Json) -> Result<R::V, ParseFailure> {
    match j {
        Json::Object(fields) => match first_unknown::<R>(fields@, fields@.len()) {
            Some(name) => Err(ParseFailure::UnknownField(name)),
            None => R::spec_decode_fields(fields@),
        },
        _ => Err(ParseFailure::Unexpected { expected: "an object"@ }),
    }
}

/// An unknown name among the first `n` members is the first unknown name of
/// any longer prefix.
pub proof fn lemma_first_unknown_stays<R: Record>(fields: Seq<(String, Json)>, n: nat, m: nat)
    requires
        n <= m,
        first_unknown::<R>(fields, n) is Some,
    ensures
        first_unknown::<R>(fields, m) == first_unknown::<R>(fields, n),
    decreases m,
{
    if n < m {
        lemma_first_unknown_stays::<R>(fields, n, (m - 1) as nat);
    }
}

/// No unknown name among the first `n` members: each of them is known.
pub proof fn lemma_all_known<R: Record>(fields: Seq<(String, Json)>, n: nat, i: int)
    requires
        first_unknown::<R>(fields, n) is None,
        0 <= i < n,
    ensures
        R::spec_known_field(fields[i].0@),
    decreases n,
{
    if i < n - 1 {
        lemma_all_known::<R>(fields, (n - 1) as nat, i);
    }
}

/// Closed records: an object with a member that the record does not know
/// stands for no record, whatever its other members hold.
pub proof fn lemma_unknown_field_refused<R: Record>(j: Json, i: int)
    requires
        j is Object,
        0 <= i < j->Object_0@.len(),
        !R::spec_known_field(j->Object_0@[i].0@),
    ensures
        spec_decode_record::<R>(j) is Err,
        spec_decode_record::<R>(j)->Err_0 is UnknownField,
{
    let fields = j->Object_0@;
    if first_unknown::<R>(fields, fields.len()) is None {
        lemma_all_known::<R>(fields, fields.len(), i);
    }
}

/// Reads a record from a JSON value.
pub fn decode_record<R: Record>(j: &Json) -> (r: Result<R, ParseError>)
    ensures
        outcome(r) == spec_decode_record::<R>(*j),
{
    match j {
        Json::Object(fields) => {
            let mut i: usize = 0;
            while i < fields.len()
                invariant
                    *j == Json::Object(*fields),
                    i <= fields.len(),
                    first_unknown::<R>(fields@, i as nat) is None,
                decreases fields.len() - i,
            {
                if !R::known_field(fields[i].0.as_str()) {
                    proof {
                        assert(first_unknown::<R>(fields@, ((i + 1) - 1) as nat) is None);
                        assert(first_unknown::<R>(fields@, (i + 1) as nat) == Some(fields@[i as int].0@));
                        lemma_first_unknown_stays::<R>(fields@, (i + 1) as nat, fields@.len());
                    }
                    return Err(ParseError::UnknownField(fields[i].0.clone()));
                }
                i = i + 1;
            }
            R::decode_fields(fields)
        },
        _ => Err(ParseError::Unexpected { expected: "an object".to_owned() }),
    }
}

impl<R: Record> Decode for R {
    open spec fn spec_decode(j: Json) -> Result<R::V, ParseFailure> {
        spec_decode_record::<R>(j)
    }

    fn decode(j: &Json) -> (r: Result<R, ParseError>) {
        decode_record::<R>(j)
    }
}

} // verus!
