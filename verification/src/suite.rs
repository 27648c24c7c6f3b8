//! What all test sets share: the notes on flags, the count of tests, and
//! the loading of a set from a JSON value or from the text of a document.

use vstd::prelude::*;
use crate::decode::{field, first_failure, lemma_first_failure_step, outcome, spec_decode_all, spec_field, Decode};
use crate::error::{LoadFailure, ParseError, ParseFailure, WycheproofError};
use crate::json::{find, parse_json, parsed_json, spec_find, Json};
use crate::named::{parse, spec_named_field, spec_named_list_field, spec_parse, Named};
use crate::record::{decode_record, spec_decode_record, Record};
use crate::text::{combine_header, spec_join};

verus! {

/// What one member of a JSON object stands for, its name being a value of
/// a closed vocabulary.
pub open spec fn spec_decode_entry<K: Named, T: Decode>(entry: (String, Json)) -> Result<(K::V, T::V), ParseFailure> {
    match spec_parse::<K>(entry.0@) {
        Err(e) => Err(e),
        Ok(k) => match T::spec_decode(entry.1) {
            Err(e) => Err(e),
            Ok(t) => Ok((k, t)),
        },
    }
}

/// The decoder of the members of such an object, as a function.
pub open spec fn entry_decoder<K: Named, T: Decode>() -> spec_fn((String, Json)) -> Result<(K::V, T::V), ParseFailure> {
    |entry: (String, Json)| spec_decode_entry::<K, T>(entry)
}

/// Whether the key of pair `j` is the key of an earlier pair.
pub open spec fn repeats<K, V>(pairs: Seq<(K, V)>, j: int) -> bool {
    exists|i: int| 0 <= i < j && (#[trigger] pairs[i]).0 == pairs[j].0
}

/// The place of the first of the first `n` pairs whose key is the key of
/// an earlier pair.
pub open spec fn first_repeat<K, V>(pairs: Seq<(K, V)>, n: nat) -> Option<int>
    decreases n,
{
    if n == 0 {
        None
    } else {
        match first_repeat(pairs, (n - 1) as nat) {
            Some(j) => Some(j),
            None => if repeats(pairs, n - 1) {
                Some(n - 1)
            } else {
                None
            },
        }
    }
}

/// No key occurs twice.
pub open spec fn distinct_keys<K, V>(pairs: Seq<(K, V)>) -> bool {
    forall|i: int, j: int| 0 <= i < j < pairs.len() ==> (#[trigger] pairs[i]).0 != (#[trigger] pairs[j]).0
}

/// A repeat among the first `n` pairs is the first repeat of any longer
/// prefix.
pub proof fn lemma_first_repeat_stays<K, V>(pairs: Seq<(K, V)>, n: nat, m: nat)
    requires
        n <= m,
        first_repeat(pairs, n) is Some,
    ensures
        first_repeat(pairs, m) == first_repeat(pairs, n),
    decreases m,
{
    if n < m {
        lemma_first_repeat_stays(pairs, n, (m - 1) as nat);
    }
}

/// Without a repeat among the first `n` pairs, none of them repeats a key.
pub proof fn lemma_no_repeat<K, V>(pairs: Seq<(K, V)>, n: nat, j: int)
    requires
        first_repeat(pairs, n) is None,
        0 <= j < n,
    ensures
        !repeats(pairs, j),
    decreases n,
{
    if j < n - 1 {
        lemma_no_repeat(pairs, (n - 1) as nat, j);
    }
}

/// Pairs without a repeat have distinct keys.
pub proof fn lemma_distinct_keys<K, V>(pairs: Seq<(K, V)>)
    requires
        first_repeat(pairs, pairs.len()) is None,
    ensures
        distinct_keys(pairs),
{
    assert forall|i: int, j: int| 0 <= i < j < pairs.len() implies (#[trigger] pairs[i]).0 != (#[trigger] pairs[j]).0 by {
        lemma_no_repeat(pairs, pairs.len(), j);
    }
}

/// The map that a JSON object stands for, as pairs in the order of the
/// members: every member decodes, and no key occurs twice. Else the failure
/// of the first member that does not decode, or the name of the first
/// member that repeats a key.
pub open spec fn spec_decode_map<K: Named, T: Decode>(j: Json) -> Result<Seq<(K::V, T::V)>, ParseFailure> {
    match j {
        Json::Object(fields) => match spec_decode_all(fields@, entry_decoder::<K, T>()) {
            Err(e) => Err(e),
            Ok(pairs) => match first_repeat(pairs, pairs.len()) {
                Some(k) => Err(ParseFailure::DuplicateKey(fields@[k].0@)),
                None => Ok(pairs),
            },
        },
        _ => Err(ParseFailure::Unexpected { expected: "an object"@ }),
    }
}

/// A map that decodes has distinct keys.
pub proof fn lemma_decoded_map_distinct<K: Named, T: Decode>(j: Json)
    requires
        spec_decode_map::<K, T>(j) is Ok,
    ensures
        distinct_keys(spec_decode_map::<K, T>(j)->Ok_0),
{
    lemma_distinct_keys(spec_decode_map::<K, T>(j)->Ok_0);
}

/// Whether the key of pair `j` is the key of an earlier pair.
fn key_repeats<K: Named, T: DeepView>(pairs: &Vec<(K, T)>, j: usize) -> (r: bool)
    requires
        j < pairs.len(),
    ensures
        r == repeats(pairs.deep_view(), j as int),
{
    let mut i: usize = 0;
    while i < j
        invariant
            i <= j < pairs.len(),
            forall|k: int| 0 <= k < i ==> (#[trigger] pairs.deep_view()[k]).0 != pairs.deep_view()[j as int].0,
        decreases j - i,
    {
        if pairs[i].0.same(&pairs[j].0) {
            assert(pairs.deep_view()[i as int].0 == pairs.deep_view()[j as int].0);
            return true;
        }
        i = i + 1;
    }
    false
}

/// Reads a JSON object as a map whose keys are values of a closed
/// vocabulary.
pub fn decode_map<K: Named, T: Decode>(j: &Json) -> (r: Result<Vec<(K, T)>, ParseError>)
    ensures
        outcome(r) == spec_decode_map::<K, T>(*j),
{
    match j {
        Json::Object(fields) => {
            let mut out: Vec<(K, T)> = Vec::new();
            let mut i: usize = 0;
            while i < fields.len()
                invariant
                    *j == Json::Object(*fields),
                    i <= fields.len(),
                    out.len() == i,
                    first_failure(fields@, entry_decoder::<K, T>(), i as nat) is None,
                    forall|k: int| 0 <= k < i ==> spec_decode_entry::<K, T>(fields@[k]) == Ok::<(K::V, T::V), ParseFailure>(#[trigger] out@[k].deep_view()),
                decreases fields.len() - i,
            {
                proof {
                    lemma_first_failure_step(fields@, entry_decoder::<K, T>(), i as nat);
                }
                let key = match parse::<K>(fields[i].0.as_str()) {
                    Ok(key) => key,
                    Err(e) => {
                        return Err(e);
                    },
                };
                let value = match T::decode(&fields[i].1) {
                    Ok(value) => value,
                    Err(e) => {
                        return Err(e);
                    },
                };
                out.push((key, value));
                i = i + 1;
            }
            let ghost pairs = spec_decode_all(fields@, entry_decoder::<K, T>())->Ok_0;
            assert(out.deep_view() =~= pairs);
            let mut k: usize = 0;
            while k < out.len()
                invariant
                    *j == Json::Object(*fields),
                    out.len() == fields.len(),
                    k <= out.len(),
                    out.deep_view() == pairs,
                    spec_decode_all(fields@, entry_decoder::<K, T>()) == Ok::<Seq<(K::V, T::V)>, ParseFailure>(pairs),
                    first_repeat(pairs, k as nat) is None,
                decreases out.len() - k,
            {
                assert(first_repeat(pairs, ((k + 1) - 1) as nat) is None);
                if key_repeats(&out, k) {
                    proof {
                        lemma_first_repeat_stays(pairs, (k + 1) as nat, pairs.len());
                    }
                    return Err(ParseError::DuplicateKey(fields[k].0.clone()));
                }
                k = k + 1;
            }
            Ok(out)
        },
        _ => Err(ParseError::Unexpected { expected: "an object".to_owned() }),
    }
}

/// The value that a map gives to a key: that of the first pair with the
/// key.
pub open spec fn spec_lookup<K, V>(pairs: Seq<(K, V)>, key: K) -> Option<V>
    decreases pairs.len(),
{
    if pairs.len() == 0 {
        None
    } else if pairs[0].0 == key {
        Some(pairs[0].1)
    } else {
        spec_lookup(pairs.drop_first(), key)
    }
}

/// Looks a key up in a map.
pub fn lookup<'a, K: Named, T: DeepView>(pairs: &'a Vec<(K, T)>, key: &K) -> (r: Option<&'a T>)
    ensures
        r.deep_view() == spec_lookup(pairs.deep_view(), key.deep_view()),
{
    let mut i: usize = 0;
    assert(pairs.deep_view().skip(0) =~= pairs.deep_view());
    while i < pairs.len()
        invariant
            i <= pairs.len(),
            spec_lookup(pairs.deep_view(), key.deep_view()) == spec_lookup(
                pairs.deep_view().skip(i as int),
                key.deep_view(),
            ),
        decreases pairs.len() - i,
    {
        let ghost rest = pairs.deep_view().skip(i as int);
        assert(rest[0] == pairs.deep_view()[i as int]);
        assert(rest.drop_first() =~= pairs.deep_view().skip(i + 1));
        if pairs[i].0.same(key) {
            return Some(&pairs[i].1);
        }
        i = i + 1;
    }
    None
}

/// The pairs of the member `name`, which must be there.
pub open spec fn spec_map_field<K: Named, T: Decode>(fields: Seq<(String, Json)>, name: Seq<char>) -> Result<Seq<(K::V, T::V)>, ParseFailure> {
    match spec_find(fields, name) {
        Some(j) => spec_decode_map::<K, T>(j),
        None => Err(ParseFailure::MissingField(name)),
    }
}

pub fn map_field<K: Named, T: Decode>(fields: &Vec<(String, Json)>, name: &str) -> (r: Result<Vec<(K, T)>, ParseError>)
    ensures
        outcome(r) == spec_map_field::<K, T>(fields@, name@),
{
    match find(fields, name) {
        Some(j) => decode_map::<K, T>(j),
        None => Err(ParseError::MissingField(name.to_owned())),
    }
}

/// The sum of some counts.
pub open spec fn sum(counts: Seq<nat>) -> nat
    decreases counts.len(),
{
    if counts.len() == 0 {
        0
    } else {
        sum(counts.drop_last()) + counts.last()
    }
}

/// The sum of a prefix is at most the sum of the whole.
pub proof fn lemma_sum_prefix(counts: Seq<nat>, n: int)
    requires
        0 <= n <= counts.len(),
    ensures
        sum(counts.take(n)) <= sum(counts),
    decreases counts.len(),
{
    if n == counts.len() {
        assert(counts.take(n) =~= counts);
    } else {
        lemma_sum_prefix(counts.drop_last(), n);
        assert(counts.drop_last().take(n) =~= counts.take(n));
    }
}

/// A test case: a record that carries flags of a closed vocabulary.
pub trait Case: Record {
    /// The flags of the family.
    type Flag: Named;

    /// A test case decodes only if its flags do.
    proof fn lemma_flags_decoded(fields: Seq<(String, Json)>)
        requires
            Self::spec_decode_fields(fields) is Ok,
        ensures
            spec_named_list_field::<Self::Flag>(fields, "flags"@) is Ok,
    ;
}

/// A group of tests: a record that carries a tag and a list of test cases.
pub trait Grouped: Record {
    /// The test cases of the family.
    type Test: Case;

    /// The tags that a group of the family may carry.
    type Tag: Named;

    /// How many tests the group holds.
    spec fn spec_test_count(&self) -> nat;

    fn test_count(&self) -> (n: usize)
        ensures
            n == self.spec_test_count(),
    ;

    /// A group decodes only if its tag and its tests do.
    proof fn lemma_members_decoded(fields: Seq<(String, Json)>)
        requires
            Self::spec_decode_fields(fields) is Ok,
        ensures
            spec_named_field::<Self::Tag>(fields, "type"@) is Ok,
            spec_field::<Vec<Self::Test>>(fields, "tests"@) is Ok,
    ;
}

/// How many tests each group holds.
pub open spec fn test_counts<G: Grouped>(groups: Seq<G>) -> Seq<nat> {
    Seq::new(groups.len(), |i: int| groups[i].spec_test_count())
}

/// How many tests the groups hold together.
pub open spec fn spec_total_tests<G: Grouped>(groups: Seq<G>) -> nat {
    sum(test_counts(groups))
}

/// Whether the groups hold as many tests as were declared.
pub fn count_matches<G: Grouped>(declared: usize, groups: &Vec<G>) -> (ok: bool)
    ensures
        ok <==> declared == spec_total_tests(groups@),
{
    let ghost counts = test_counts(groups@);
    let mut total: usize = 0;
    let mut i: usize = 0;
    while i < groups.len()
        invariant
            i <= groups.len(),
            counts == test_counts(groups@),
            total == sum(counts.take(i as int)),
            total <= declared,
        decreases groups.len() - i,
    {
        let n = groups[i].test_count();
        proof {
            assert(counts.take(i + 1).drop_last() =~= counts.take(i as int));
            assert(counts.take(i + 1).last() == n);
            lemma_sum_prefix(counts, i + 1);
        }
        if n > declared - total {
            return false;
        }
        total = total + n;
        i = i + 1;
    }
    assert(counts.take(groups.len() as int) =~= counts);
    total == declared
}

/// The header of the member `name`, which must be there: its lines joined
/// by single spaces.
pub open spec fn spec_header_field(fields: Seq<(String, Json)>, name: Seq<char>) -> Result<Seq<char>, ParseFailure> {
    match spec_field::<Vec<String>>(fields, name) {
        Ok(lines) => Ok(spec_join(lines, " "@)),
        Err(e) => Err(e),
    }
}

pub fn header_field(fields: &Vec<(String, Json)>, name: &str) -> (r: Result<String, ParseError>)
    ensures
        outcome(r) == spec_header_field(fields@, name@),
{
    match field::<Vec<String>>(fields, name) {
        Ok(lines) => Ok(combine_header(&lines)),
        Err(e) => Err(e),
    }
}

/// A test set: a record that carries a schema and a list of groups, and
/// that declares how many tests its groups hold.
pub trait Suite: Record {
    /// The groups of the family.
    type Group: Grouped;

    /// The schemas that a document of the family may declare.
    type Schema: Named;

    /// How many tests the set declares.
    spec fn spec_declared_tests(&self) -> nat;

    /// How many tests the groups of the set hold.
    spec fn spec_actual_tests(&self) -> nat;

    fn counts_match(&self) -> (ok: bool)
        ensures
            ok <==> self.spec_declared_tests() == self.spec_actual_tests(),
    ;

    /// Whether a set declares as many tests as its groups hold.
    spec fn spec_consistent(v: Self::V) -> bool;

    proof fn lemma_consistent(&self)
        ensures
            Self::spec_consistent(self.deep_view()) <==> self.spec_declared_tests()
                == self.spec_actual_tests(),
    ;

    /// Whether no flag has two notes.
    spec fn spec_notes_distinct(v: Self::V) -> bool;

    /// A test set decodes only if its schema and its groups do, and then
    /// no flag has two notes.
    proof fn lemma_members_decoded(fields: Seq<(String, Json)>)
        requires
            Self::spec_decode_fields(fields) is Ok,
        ensures
            spec_named_field::<Self::Schema>(fields, "schema"@) is Ok,
            spec_field::<Vec<Self::Group>>(fields, "testGroups"@) is Ok,
            Self::spec_notes_distinct(Self::spec_decode_fields(fields)->Ok_0),
    ;
}

/// What loading returned, as mathematical values.
pub open spec fn load_outcome<S: DeepView>(r: Result<S, WycheproofError>) -> Result<S::V, LoadFailure> {
    match r {
        Ok(s) => Ok(s.deep_view()),
        Err(e) => Err(e.deep_view()),
    }
}

/// Accepts a test set whose declared count is the number of its tests.
pub fn check<S: Suite>(obj: S) -> (r: Result<S, WycheproofError>)
    ensures
        r is Ok <==> obj.spec_declared_tests() == obj.spec_actual_tests(),
        r is Ok ==> r->Ok_0 == obj,
        r is Err ==> r->Err_0 is InvalidData,
{
    if obj.counts_match() {
        Ok(obj)
    } else {
        Err(WycheproofError::InvalidData)
    }
}

/// The test set that a JSON value stands for: the value decodes, and the
/// set is consistent.
pub open spec fn spec_from_json<S: Suite>(j: Json) -> Result<S::V, LoadFailure> {
    match spec_decode_record::<S>(j) {
        Err(e) => Err(LoadFailure::ParsingFailed(e)),
        Ok(v) => if S::spec_consistent(v) {
            Ok(v)
        } else {
            Err(LoadFailure::InvalidData)
        },
    }
}

/// Reads and checks a test set from a JSON value.
pub fn from_json<S: Suite>(j: &Json) -> (r: Result<S, WycheproofError>)
    ensures
        load_outcome(r) == spec_from_json::<S>(*j),
        r is Ok ==> r->Ok_0.spec_declared_tests() == r->Ok_0.spec_actual_tests(),
{
    match decode_record::<S>(j) {
        Ok(set) => {
            proof {
                set.lemma_consistent();
            }
            check(set)
        },
        Err(e) => Err(WycheproofError::ParsingFailed(e)),
    }
}

/// What loading a text gives: what its JSON value stands for, or a syntax
/// error where the text is no JSON document.
pub open spec fn load_post<S: Suite>(text: Seq<char>, r: Result<S, WycheproofError>) -> bool {
    match parsed_json(text) {
        Some(j) => load_outcome(r) == spec_from_json::<S>(j),
        None => r is Err && r->Err_0 is ParsingFailed && r->Err_0->ParsingFailed_0 is Syntax,
    }
}

/// Reads and checks a test set from the text of a document.
pub fn load_from_text<S: Suite>(text: &str) -> (r: Result<S, WycheproofError>)
    ensures
        load_post::<S>(text@, r),
        r is Ok ==> r->Ok_0.spec_declared_tests() == r->Ok_0.spec_actual_tests(),
{
    match parse_json(text) {
        Ok(j) => from_json::<S>(&j),
        Err(e) => Err(WycheproofError::ParsingFailed(e)),
    }
}

/// Count invariant: a test set that loads declares as many tests as its
/// groups hold, and a set that decodes but declares another number is
/// refused as invalid data.
pub proof fn lemma_loaded_count<S: Suite>(j: Json)
    ensures
        spec_from_json::<S>(j) is Ok ==> S::spec_consistent(spec_from_json::<S>(j)->Ok_0),
        spec_decode_record::<S>(j) is Ok && !S::spec_consistent(spec_decode_record::<S>(j)->Ok_0)
            ==> spec_from_json::<S>(j) == Err::<S::V, LoadFailure>(LoadFailure::InvalidData),
{
}

/// Notes are a map: in a test set that loads no flag has two notes.
pub proof fn lemma_loaded_notes<S: Suite>(j: Json)
    requires
        spec_from_json::<S>(j) is Ok,
    ensures
        S::spec_notes_distinct(spec_from_json::<S>(j)->Ok_0),
{
    S::lemma_members_decoded(j->Object_0@);
}

/// Loading is a function of the text: two loads of one text both succeed
/// with equal values, or both fail in the same way.
pub proof fn lemma_load_deterministic<S: Suite>(
    text: Seq<char>,
    first: Result<S, WycheproofError>,
    second: Result<S, WycheproofError>,
)
    requires
        load_post::<S>(text, first),
        load_post::<S>(text, second),
    ensures
        first is Ok <==> second is Ok,
        first is Ok ==> first->Ok_0.deep_view() == second->Ok_0.deep_view(),
        first is Err && parsed_json(text) is Some ==> first->Err_0.deep_view()
            == second->Err_0.deep_view(),
        first is Err && parsed_json(text) is None ==> second->Err_0->ParsingFailed_0 is Syntax,
{
}

} // verus!
