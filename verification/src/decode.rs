//! Decoding of JSON values into typed values.
//!
//! Every decoder comes as a pair: a spec function that says which value a
//! JSON value stands for, or why it stands for none, and an executable
//! function that is proved to compute it.

use vstd::prelude::*;
use crate::error::{ParseError, ParseFailure};
use crate::json::{Json, spec_find, find};

verus! {

/// What a decoder returned, as mathematical values.
pub open spec fn outcome<T: DeepView>(r: Result<T, ParseError>) -> Result<T::V, ParseFailure> {
    match r {
        Ok(t) => Ok(t.deep_view()),
        Err(e) => Err(e.deep_view()),
    }
}

/// A type with one way to be read from a JSON value.
pub trait Decode: Sized + DeepView {
    /// The value that a JSON value stands for, or why it stands for none.
    spec fn spec_decode(j: Json) -> Result<Self::V, ParseFailure>;

    fn decode(j: &Json) -> (r: Result<Self, ParseError>)
        ensures
            outcome(r) == Self::spec_decode(*j),
    ;
}

impl Decode for String {
    open spec fn spec_decode(j: Json) -> Result<Seq<char>, ParseFailure> {
        match j {
            Json::Str(s) => Ok(s@),
            _ => Err(ParseFailure::Unexpected { expected: "a string"@ }),
        }
    }

    fn decode(j: &Json) -> (r: Result<String, ParseError>) {
        match j {
            Json::Str(s) => Ok(s.clone()),
            _ => Err(ParseError::Unexpected { expected: "a string".to_owned() }),
        }
    }
}

impl Decode for usize {
    open spec fn spec_decode(j: Json) -> Result<usize, ParseFailure> {
        match j {
            Json::UInt(v) if v <= usize::MAX => Ok(v as usize),
            _ => Err(ParseFailure::Unexpected { expected: "an unsigned integer"@ }),
        }
    }

    fn decode(j: &Json) -> (r: Result<usize, ParseError>) {
        match j {
            Json::UInt(v) if *v <= usize::MAX as u64 => Ok(*v as usize),
            _ => Err(ParseError::Unexpected { expected: "an unsigned integer".to_owned() }),
        }
    }
}

impl Decode for isize {
    open spec fn spec_decode(j: Json) -> Result<isize, ParseFailure> {
        match j {
            Json::UInt(v) if v <= isize::MAX => Ok(v as isize),
            Json::NegInt(v) if isize::MIN <= v => Ok(v as isize),
            _ => Err(ParseFailure::Unexpected { expected: "an integer"@ }),
        }
    }

    fn decode(j: &Json) -> (r: Result<isize, ParseError>) {
        match j {
            Json::UInt(v) if *v <= isize::MAX as u64 => Ok(*v as isize),
            Json::NegInt(v) if isize::MIN as i64 <= *v => Ok(*v as isize),
            _ => Err(ParseError::Unexpected { expected: "an integer".to_owned() }),
        }
    }
}

/// The failure of the first of the first `n` items that `f` refuses.
pub open spec fn first_failure<A, V>(
    items: Seq<A>,
    f: spec_fn(A) -> Result<V, ParseFailure>,
    n: nat,
) -> Option<ParseFailure>
    decreases n,
{
    if n == 0 {
        None
    } else {
        match first_failure(items, f, (n - 1) as nat) {
            Some(e) => Some(e),
            None => match f(items[n - 1]) {
                Err(e) => Some(e),
                Ok(_) => None,
            },
        }
    }
}

/// What `f` makes of the items, in order; or the failure of the first item
/// that it refuses.
pub open spec fn spec_decode_all<A, V>(
    items: Seq<A>,
    f: spec_fn(A) -> Result<V, ParseFailure>,
) -> Result<Seq<V>, ParseFailure> {
    match first_failure(items, f, items.len()) {
        Some(e) => Err(e),
        None => Ok(Seq::new(items.len(), |i: int| f(items[i])->Ok_0)),
    }
}

/// A failure among the first `n` items is the failure of any longer prefix.
pub proof fn lemma_first_failure_stays<A, V>(
    items: Seq<A>,
    f: spec_fn(A) -> Result<V, ParseFailure>,
    n: nat,
    m: nat,
)
    requires
        n <= m,
        first_failure(items, f, n) is Some,
    ensures
        first_failure(items, f, m) == first_failure(items, f, n),
    decreases m,
{
    if n < m {
        lemma_first_failure_stays(items, f, n, (m - 1) as nat);
    }
}

/// The step of a decoding loop: with no failure before item `i`, the
/// failure of item `i` is the failure of the whole, and its success leaves
/// the longer prefix without failure.
pub proof fn lemma_first_failure_step<A, V>(
    items: Seq<A>,
    f: spec_fn(A) -> Result<V, ParseFailure>,
    i: nat,
)
    requires
        i < items.len(),
        first_failure(items, f, i) is None,
    ensures
        f(items[i as int]) is Err ==> first_failure(items, f, items.len()) == Some(
            f(items[i as int])->Err_0,
        ),
        f(items[i as int]) is Ok ==> first_failure(items, f, i + 1) is None,
{
    assert(first_failure(items, f, ((i + 1) - 1) as nat) is None);
    if f(items[i as int]) is Err {
        lemma_first_failure_stays(items, f, i + 1, items.len());
    }
}

/// No failure among the first `n` items: `f` accepts each of them.
pub proof fn lemma_no_failure<A, V>(
    items: Seq<A>,
    f: spec_fn(A) -> Result<V, ParseFailure>,
    n: nat,
    i: int,
)
    requires
        first_failure(items, f, n) is None,
        0 <= i < n,
    ensures
        f(items[i]) is Ok,
    decreases n,
{
    if i < n - 1 {
        lemma_no_failure(items, f, (n - 1) as nat, i);
    }
}

/// One refused item is enough for the whole to be refused.
pub proof fn lemma_refused_item<A, V>(items: Seq<A>, f: spec_fn(A) -> Result<V, ParseFailure>, i: int)
    requires
        0 <= i < items.len(),
        f(items[i]) is Err,
    ensures
        spec_decode_all(items, f) is Err,
{
    if first_failure(items, f, items.len()) is None {
        lemma_no_failure(items, f, items.len(), i);
    }
}

/// The decoder of a type, as a function.
pub open spec fn decoder<T: Decode>() -> spec_fn(Json) -> Result<T::V, ParseFailure> {
    |j: Json| T::spec_decode(j)
}

impl<T: Decode> Decode for Vec<T> {
    open spec fn spec_decode(j: Json) -> Result<Seq<T::V>, ParseFailure> {
        match j {
            Json::Array(items) => spec_decode_all(items@, decoder::<T>()),
            _ => Err(ParseFailure::Unexpected { expected: "an array"@ }),
        }
    }

    fn decode(j: &Json) -> (r: Result<Vec<T>, ParseError>) {
        match j {
            Json::Array(items) => {
                let mut out: Vec<T> = Vec::new();
                let mut i: usize = 0;
                while i < items.len()
                    invariant
                        *j == Json::Array(*items),
                        i <= items.len(),
                        out.len() == i,
                        first_failure(items@, decoder::<T>(), i as nat) is None,
                        forall|k: int| 0 <= k < i ==> T::spec_decode(items@[k]) == Ok::<T::V, ParseFailure>(#[trigger] out@[k].deep_view()),
                    decreases items.len() - i,
                {
                    proof {
                        lemma_first_failure_step(items@, decoder::<T>(), i as nat);
                    }
                    match T::decode(&items[i]) {
                        Ok(t) => {
                            out.push(t);
                        },
                        Err(e) => {
                            return Err(e);
                        },
                    }
                    i = i + 1;
                }
                assert(out.deep_view() =~= spec_decode_all(items@, decoder::<T>())->Ok_0);
                Ok(out)
            },
            _ => Err(ParseError::Unexpected { expected: "an array".to_owned() }),
        }
    }
}

impl<T: Decode> Decode for Option<T> {
    open spec fn spec_decode(j: Json) -> Result<Option<T::V>, ParseFailure> {
        match j {
            Json::Null => Ok(None),
            _ => match T::spec_decode(j) {
                Ok(v) => Ok(Some(v)),
                Err(e) => Err(e),
            },
        }
    }

    fn decode(j: &Json) -> (r: Result<Option<T>, ParseError>) {
        match j {
            Json::Null => Ok(None),
            _ => match T::decode(j) {
                Ok(v) => Ok(Some(v)),
                Err(e) => Err(e),
            },
        }
    }
}

/// The value of the member `name`, which must be there.
pub open spec fn spec_field<T: Decode>(fields: Seq<(String, Json)>, name: Seq<char>) -> Result<T::V, ParseFailure> {
    match spec_find(fields, name) {
        Some(j) => T::spec_decode(j),
        None => Err(ParseFailure::MissingField(name)),
    }
}

pub fn field<T: Decode>(fields: &Vec<(String, Json)>, name: &str) -> (r: Result<T, ParseError>)
    ensures
        outcome(r) == spec_field::<T>(fields@, name@),
{
    match find(fields, name) {
        Some(j) => T::decode(j),
        None => Err(ParseError::MissingField(name.to_owned())),
    }
}

/// The value of the member `name`; a missing member and `null` are both
/// an absent value.
pub open spec fn spec_optional_field<T: Decode>(fields: Seq<(String, Json)>, name: Seq<char>) -> Result<Option<T::V>, ParseFailure> {
    match spec_find(fields, name) {
        Some(j) => Option::<T>::spec_decode(j),
        None => Ok(None),
    }
}

pub fn optional_field<T: Decode>(fields: &Vec<(String, Json)>, name: &str) -> (r: Result<Option<T>, ParseError>)
    ensures
        outcome(r) == spec_optional_field::<T>(fields@, name@),
{
    match find(fields, name) {
        Some(j) => Option::<T>::decode(j),
        None => Ok(None),
    }
}

} // verus!
