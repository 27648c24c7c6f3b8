//! What holds of every test family: documents are closed at every level.
//!
//! The laws speak of a document as a JSON value. Its groups are the items
//! of its member `testGroups`, and the tests of a group are the items of the
//! group's member `tests`.

use vstd::prelude::*;
use crate::decode::{decoder, lemma_refused_item};
use crate::json::{spec_find, Json};
use crate::named::{name_decoder, Named};
use crate::record::{lemma_unknown_field_refused, spec_decode_record, Record};
use crate::suite::{spec_from_json, Case, Grouped, Suite};

verus! {

/// The members of a JSON value; none where it is no object.
pub open spec fn members(j: Json) -> Seq<(String, Json)> {
    match j {
        Json::Object(fields) => fields@,
        _ => Seq::empty(),
    }
}

/// The items of the member `name` of a JSON value; none where the value
/// has no such member or the member is no array.
pub open spec fn items_of(j: Json, name: Seq<char>) -> Seq<Json> {
    match spec_find(members(j), name) {
        Some(Json::Array(items)) => items@,
        _ => Seq::empty(),
    }
}

/// The groups of a document.
pub open spec fn groups_of(doc: Json) -> Seq<Json> {
    items_of(doc, "testGroups"@)
}

/// The tests of a group.
pub open spec fn tests_of(group: Json) -> Seq<Json> {
    items_of(group, "tests"@)
}

/// Whether a JSON value has a member that the record `R` does not know.
pub open spec fn has_unknown_member<R: Record>(j: Json) -> bool {
    exists|k: int| 0 <= k < members(j).len() && !R::spec_known_field(#[trigger] members(j)[k].0@)
}

/// Whether the member `name` of a JSON value is a string that the
/// vocabulary `E` lacks.
pub open spec fn has_unknown_name<E: Named>(j: Json, name: Seq<char>) -> bool {
    match spec_find(members(j), name) {
        Some(Json::Str(s)) => E::spec_from_name(s@) is None,
        _ => false,
    }
}

/// Whether a document is refused before its count is looked at.
pub open spec fn refused<S: Suite>(doc: Json) -> bool {
    spec_from_json::<S>(doc) is Err && spec_from_json::<S>(doc)->Err_0 is ParsingFailed
}

/// Whatever refuses a group refuses the document that holds it.
pub proof fn lemma_refused_group<S: Suite>(doc: Json, g: int)
    requires
        0 <= g < groups_of(doc).len(),
        spec_decode_record::<S::Group>(groups_of(doc)[g]) is Err,
    ensures
        refused::<S>(doc),
{
    if spec_decode_record::<S>(doc) is Ok {
        S::lemma_members_decoded(members(doc));
        assert(decoder::<S::Group>()(groups_of(doc)[g]) is Err);
        lemma_refused_item(groups_of(doc), decoder::<S::Group>(), g);
    }
}

/// Whatever refuses a test refuses the group that holds it.
pub proof fn lemma_refused_test<G: Grouped>(group: Json, t: int)
    requires
        0 <= t < tests_of(group).len(),
        spec_decode_record::<G::Test>(tests_of(group)[t]) is Err,
    ensures
        spec_decode_record::<G>(group) is Err,
{
    if spec_decode_record::<G>(group) is Ok {
        G::lemma_members_decoded(members(group));
        assert(decoder::<G::Test>()(tests_of(group)[t]) is Err);
        lemma_refused_item(tests_of(group), decoder::<G::Test>(), t);
    }
}

/// Closed fields, top level: a document with a member that the test set
/// does not know is refused.
pub proof fn lemma_unknown_document_member<S: Suite>(doc: Json)
    requires
        has_unknown_member::<S>(doc),
    ensures
        refused::<S>(doc),
{
    let k = choose|k: int| 0 <= k < members(doc).len() && !S::spec_known_field(#[trigger] members(doc)[k].0@);
    lemma_unknown_field_refused::<S>(doc, k);
}

/// Closed fields, group level: a document with a group that has a member
/// which the group record does not know is refused.
pub proof fn lemma_unknown_group_member<S: Suite>(doc: Json, g: int)
    requires
        0 <= g < groups_of(doc).len(),
        has_unknown_member::<S::Group>(groups_of(doc)[g]),
    ensures
        refused::<S>(doc),
{
    let group = groups_of(doc)[g];
    let k = choose|k: int| 0 <= k < members(group).len() && !<S::Group as Record>::spec_known_field(#[trigger] members(group)[k].0@);
    lemma_unknown_field_refused::<S::Group>(group, k);
    lemma_refused_group::<S>(doc, g);
}

/// Closed fields, test level: a document with a test that has a member
/// which the test record does not know is refused.
pub proof fn lemma_unknown_test_member<S: Suite>(doc: Json, g: int, t: int)
    requires
        0 <= g < groups_of(doc).len(),
        0 <= t < tests_of(groups_of(doc)[g]).len(),
        has_unknown_member::<<S::Group as Grouped>::Test>(tests_of(groups_of(doc)[g])[t]),
    ensures
        refused::<S>(doc),
{
    let group = groups_of(doc)[g];
    let test = tests_of(group)[t];
    let k = choose|k: int| 0 <= k < members(test).len() && !<<S::Group as Grouped>::Test as Record>::spec_known_field(#[trigger] members(test)[k].0@);
    lemma_unknown_field_refused::<<S::Group as Grouped>::Test>(test, k);
    lemma_refused_test::<S::Group>(group, t);
    lemma_refused_group::<S>(doc, g);
}

/// Closed vocabularies, schema: a document whose schema is a name that the
/// family lacks is refused.
pub proof fn lemma_unknown_schema<S: Suite>(doc: Json)
    requires
        has_unknown_name::<S::Schema>(doc, "schema"@),
    ensures
        refused::<S>(doc),
{
    if spec_decode_record::<S>(doc) is Ok {
        S::lemma_members_decoded(members(doc));
    }
}

/// Closed vocabularies, group tag: a document with a group whose `type` is
/// a name that the family lacks is refused.
pub proof fn lemma_unknown_group_type<S: Suite>(doc: Json, g: int)
    requires
        0 <= g < groups_of(doc).len(),
        has_unknown_name::<<S::Group as Grouped>::Tag>(groups_of(doc)[g], "type"@),
    ensures
        refused::<S>(doc),
{
    let group = groups_of(doc)[g];
    if spec_decode_record::<S::Group>(group) is Ok {
        <S::Group as Grouped>::lemma_members_decoded(members(group));
    }
    lemma_refused_group::<S>(doc, g);
}

/// Closed vocabularies, flags: a document with a test one of whose flags is
/// a name that the family lacks is refused.
pub proof fn lemma_unknown_flag<S: Suite>(doc: Json, g: int, t: int, f: int)
    requires
        0 <= g < groups_of(doc).len(),
        0 <= t < tests_of(groups_of(doc)[g]).len(),
        0 <= f < items_of(tests_of(groups_of(doc)[g])[t], "flags"@).len(),
        items_of(tests_of(groups_of(doc)[g])[t], "flags"@)[f] is Str,
        <<<S::Group as Grouped>::Test as Case>::Flag as Named>::spec_from_name(
            items_of(tests_of(groups_of(doc)[g])[t], "flags"@)[f]->Str_0@,
        ) is None,
    ensures
        refused::<S>(doc),
{
    let group = groups_of(doc)[g];
    let test = tests_of(group)[t];
    let flags = items_of(test, "flags"@);
    if spec_decode_record::<<S::Group as Grouped>::Test>(test) is Ok {
        <<S::Group as Grouped>::Test as Case>::lemma_flags_decoded(members(test));
        assert(name_decoder::<<<S::Group as Grouped>::Test as Case>::Flag>()(flags[f]) is Err);
        lemma_refused_item(flags, name_decoder::<<<S::Group as Grouped>::Test as Case>::Flag>(), f);
    }
    lemma_refused_test::<S::Group>(group, t);
    lemma_refused_group::<S>(doc, g);
}

} // verus!
