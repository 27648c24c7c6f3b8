//! IND-CPA cipher tests.

use vstd::prelude::*;
use crate::bytes::ByteString;
use crate::decode::{field, spec_field};
use crate::error::{ParseError, ParseFailure, WycheproofError};
use crate::json::{spec_find, Json};
use crate::named::{Named, named_field, named_list_field, spec_named_field, spec_named_list_field};
use crate::notes::{TestFlagInfo, TestFlagInfoView};
use crate::record::Record;
use crate::suite::{
    Case, check, count_matches, distinct_keys, from_json, Grouped, header_field,
    lemma_decoded_map_distinct, load_from_text, load_outcome, load_post, lookup, map_field,
    spec_from_json, spec_header_field, spec_lookup, spec_map_field, spec_total_tests, Suite, sum,
    test_counts,
};
use crate::text::str_eq;
use crate::vocab::TestResult;

verus! {

/// The schema that a document of Cipher tests declares.
#[derive(Debug, Clone, Hash, PartialEq, Eq)]
pub struct TestSchema {
    pub schema: String,
}

impl DeepView for TestSchema {
    type V = Seq<char>;

    open spec fn deep_view(&self) -> Seq<char> {
        self.schema@
    }
}

impl Named for TestSchema {
    open spec fn spec_vocabulary() -> Seq<char> {
        "Cipher schema"@
    }

    fn vocabulary() -> (r: &'static str) {
        "Cipher schema"
    }

    open spec fn spec_from_name(name: Seq<char>) -> Option<Seq<char>> {
        if name == "ind_cpa_test_schema.json"@ {
            Some(name)
        } else {
            None
        }
    }

    fn from_name(name: &str) -> (r: Option<TestSchema>) {
        if str_eq(name, "ind_cpa_test_schema.json") {
            Some(TestSchema { schema: name.to_owned() })
        } else {
            None
        }
    }

    fn same(&self, other: &TestSchema) -> (r: bool) {
        str_eq(self.schema.as_str(), other.schema.as_str())
    }
}

/// The test sets of this family.
#[derive(Debug, Copy, Clone, Hash, PartialEq, Eq, Structural)]
pub enum TestName {
    AesCbcPkcs5,
    AesXts,
    AriaCbcPkcs5,
    CamelliaCbcPkcs5,
}

impl DeepView for TestName {
    type V = TestName;

    open spec fn deep_view(&self) -> TestName {
        *self
    }
}

impl Named for TestName {
    open spec fn spec_vocabulary() -> Seq<char> {
        "TestName"@
    }

    fn vocabulary() -> (r: &'static str) {
        "TestName"
    }

    open spec fn spec_from_name(name: Seq<char>) -> Option<TestName> {
        if name == "aes_cbc_pkcs5"@ { Some(TestName::AesCbcPkcs5) }
        else if name == "aes_xts"@ { Some(TestName::AesXts) }
        else if name == "aria_cbc_pkcs5"@ { Some(TestName::AriaCbcPkcs5) }
        else if name == "camellia_cbc_pkcs5"@ { Some(TestName::CamelliaCbcPkcs5) }
        else { None }
    }

    fn from_name(name: &str) -> (r: Option<TestName>) {
        if str_eq(name, "aes_cbc_pkcs5") { Some(TestName::AesCbcPkcs5) }
        else if str_eq(name, "aes_xts") { Some(TestName::AesXts) }
        else if str_eq(name, "aria_cbc_pkcs5") { Some(TestName::AriaCbcPkcs5) }
        else if str_eq(name, "camellia_cbc_pkcs5") { Some(TestName::CamelliaCbcPkcs5) }
        else { None }
    }

    fn same(&self, other: &TestName) -> (r: bool) {
        *self == *other
    }
}

impl TestName {
    /// The name under which the test set is kept.
    pub open spec fn spec_name(self) -> Seq<char> {
        match self {
            TestName::AesCbcPkcs5 => "aes_cbc_pkcs5"@,
            TestName::AesXts => "aes_xts"@,
            TestName::AriaCbcPkcs5 => "aria_cbc_pkcs5"@,
            TestName::CamelliaCbcPkcs5 => "camellia_cbc_pkcs5"@,
        }
    }

    pub fn name(&self) -> (r: &'static str)
        ensures
            r@ == self.spec_name(),
    {
        match self {
            TestName::AesCbcPkcs5 => "aes_cbc_pkcs5",
            TestName::AesXts => "aes_xts",
            TestName::AriaCbcPkcs5 => "aria_cbc_pkcs5",
            TestName::CamelliaCbcPkcs5 => "camellia_cbc_pkcs5",
        }
    }

    /// Every test set of the family, in a fixed order.
    pub open spec fn spec_all() -> Seq<TestName> {
        seq![
            TestName::AesCbcPkcs5,
            TestName::AesXts,
            TestName::AriaCbcPkcs5,
            TestName::CamelliaCbcPkcs5,
        ]
    }

    pub fn all() -> (r: Vec<TestName>)
        ensures
            r@ == Self::spec_all(),
    {
        let r = vec![
            TestName::AesCbcPkcs5,
            TestName::AesXts,
            TestName::AriaCbcPkcs5,
            TestName::CamelliaCbcPkcs5,
        ];
        assert(r@ =~= Self::spec_all());
        r
    }

    /// Finds a test set by its name.
    pub fn from_str(s: &str) -> (r: Result<TestName, WycheproofError>)
        ensures
            match r {
                Ok(t) => Self::spec_from_name(s@) == Some(t),
                Err(e) => Self::spec_from_name(s@) is None && e is NoDataSet,
            },
    {
        match Self::from_name(s) {
            Some(t) => Ok(t),
            None => Err(WycheproofError::NoDataSet),
        }
    }
}

impl std::str::FromStr for TestName {
    type Err = WycheproofError;

    fn from_str(s: &str) -> (r: Result<TestName, WycheproofError>)
        ensures
            match r {
                Ok(t) => TestName::spec_from_name(s@) == Some(t),
                Err(e) => TestName::spec_from_name(s@) is None && e is NoDataSet,
            },
    {
        TestName::from_str(s)
    }
}

/// Every test set is found again by its name.
pub proof fn lemma_name_round_trip(t: TestName)
    ensures
        TestName::spec_from_name(t.spec_name()) == Some(t),
{
    reveal_strlit("aes_cbc_pkcs5");
    assert("aes_cbc_pkcs5"@ =~= seq!['a', 'e', 's', '_', 'c', 'b', 'c', '_', 'p', 'k', 'c', 's', '5']);
    reveal_strlit("aes_xts");
    assert("aes_xts"@ =~= seq!['a', 'e', 's', '_', 'x', 't', 's']);
    reveal_strlit("aria_cbc_pkcs5");
    assert("aria_cbc_pkcs5"@ =~= seq!['a', 'r', 'i', 'a', '_', 'c', 'b', 'c', '_', 'p', 'k', 'c', 's', '5']);
    reveal_strlit("camellia_cbc_pkcs5");
    assert("camellia_cbc_pkcs5"@ =~= seq!['c', 'a', 'm', 'e', 'l', 'l', 'i', 'a', '_', 'c', 'b', 'c', '_', 'p', 'k', 'c', 's', '5']);
}

/// Every test set is listed.
pub proof fn lemma_all_complete(t: TestName)
    ensures
        TestName::spec_all().contains(t),
{
    match t {
        TestName::AesCbcPkcs5 => assert(TestName::spec_all()[0] == t),
        TestName::AesXts => assert(TestName::spec_all()[1] == t),
        TestName::AriaCbcPkcs5 => assert(TestName::spec_all()[2] == t),
        TestName::CamelliaCbcPkcs5 => assert(TestName::spec_all()[3] == t),
    }
}

/// The algorithms that a test set of this family is for.
#[derive(Debug, Copy, Clone, Hash, PartialEq, Eq, Structural)]
pub enum Algorithm {
    AesCbcPkcs5,
    AesXts,
    AriaCbcPkcs5,
    CamelliaCbcPkcs5,
}

impl DeepView for Algorithm {
    type V = Algorithm;

    open spec fn deep_view(&self) -> Algorithm {
        *self
    }
}

impl Named for Algorithm {
    open spec fn spec_vocabulary() -> Seq<char> {
        "Algorithm"@
    }

    fn vocabulary() -> (r: &'static str) {
        "Algorithm"
    }

    open spec fn spec_from_name(name: Seq<char>) -> Option<Algorithm> {
        if name == "AES-CBC-PKCS5"@ { Some(Algorithm::AesCbcPkcs5) }
        else if name == "AES-XTS"@ { Some(Algorithm::AesXts) }
        else if name == "ARIA-CBC-PKCS5"@ { Some(Algorithm::AriaCbcPkcs5) }
        else if name == "CAMELLIA-CBC-PKCS5"@ { Some(Algorithm::CamelliaCbcPkcs5) }
        else { None }
    }

    fn from_name(name: &str) -> (r: Option<Algorithm>) {
        if str_eq(name, "AES-CBC-PKCS5") { Some(Algorithm::AesCbcPkcs5) }
        else if str_eq(name, "AES-XTS") { Some(Algorithm::AesXts) }
        else if str_eq(name, "ARIA-CBC-PKCS5") { Some(Algorithm::AriaCbcPkcs5) }
        else if str_eq(name, "CAMELLIA-CBC-PKCS5") { Some(Algorithm::CamelliaCbcPkcs5) }
        else { None }
    }

    fn same(&self, other: &Algorithm) -> (r: bool) {
        *self == *other
    }
}

/// The edge case or bug class that a test probes.
#[derive(Debug, Copy, Clone, Hash, PartialEq, Eq, Structural)]
pub enum TestFlag {
    BadPadding,
    NoPadding,
    Pseudorandom,
}

impl DeepView for TestFlag {
    type V = TestFlag;

    open spec fn deep_view(&self) -> TestFlag {
        *self
    }
}

impl Named for TestFlag {
    open spec fn spec_vocabulary() -> Seq<char> {
        "TestFlag"@
    }

    fn vocabulary() -> (r: &'static str) {
        "TestFlag"
    }

    open spec fn spec_from_name(name: Seq<char>) -> Option<TestFlag> {
        if name == "BadPadding"@ { Some(TestFlag::BadPadding) }
        else if name == "NoPadding"@ { Some(TestFlag::NoPadding) }
        else if name == "Pseudorandom"@ { Some(TestFlag::Pseudorandom) }
        else { None }
    }

    fn from_name(name: &str) -> (r: Option<TestFlag>) {
        if str_eq(name, "BadPadding") { Some(TestFlag::BadPadding) }
        else if str_eq(name, "NoPadding") { Some(TestFlag::NoPadding) }
        else if str_eq(name, "Pseudorandom") { Some(TestFlag::Pseudorandom) }
        else { None }
    }

    fn same(&self, other: &TestFlag) -> (r: bool) {
        *self == *other
    }
}

/// The tag of a test group; it holds no data.
#[derive(Debug, Copy, Clone, Hash, PartialEq, Eq, Structural)]
pub struct TestGroupTypeId {}

impl DeepView for TestGroupTypeId {
    type V = TestGroupTypeId;

    open spec fn deep_view(&self) -> TestGroupTypeId {
        *self
    }
}

impl Named for TestGroupTypeId {
    open spec fn spec_vocabulary() -> Seq<char> {
        "TestGroupTypeId"@
    }

    fn vocabulary() -> (r: &'static str) {
        "TestGroupTypeId"
    }

    open spec fn spec_from_name(name: Seq<char>) -> Option<TestGroupTypeId> {
        if name == "IndCpaTest"@ {
            Some(TestGroupTypeId {})
        } else {
            None
        }
    }

    fn from_name(name: &str) -> (r: Option<TestGroupTypeId>) {
        if str_eq(name, "IndCpaTest") {
            Some(TestGroupTypeId {})
        } else {
            None
        }
    }

    fn same(&self, other: &TestGroupTypeId) -> (r: bool) {
        true
    }
}

/// One test case.
#[derive(Debug, Clone, Hash, PartialEq, Eq)]
pub struct Test {
    pub tc_id: usize,
    pub comment: String,
    pub iv: ByteString,
    pub key: ByteString,
    pub pt: ByteString,
    pub ct: ByteString,
    pub result: TestResult,
    pub flags: Vec<TestFlag>,
}

/// The mathematical value of a [`Test`].
pub struct TestView {
    pub tc_id: usize,
    pub comment: Seq<char>,
    pub iv: Seq<u8>,
    pub key: Seq<u8>,
    pub pt: Seq<u8>,
    pub ct: Seq<u8>,
    pub result: TestResult,
    pub flags: Seq<TestFlag>,
}

impl DeepView for Test {
    type V = TestView;

    open spec fn deep_view(&self) -> TestView {
        TestView {
            tc_id: self.tc_id.deep_view(),
            comment: self.comment.deep_view(),
            iv: self.iv.deep_view(),
            key: self.key.deep_view(),
            pt: self.pt.deep_view(),
            ct: self.ct.deep_view(),
            result: self.result.deep_view(),
            flags: self.flags.deep_view(),
        }
    }
}

impl Record for Test {
    open spec fn spec_known_field(name: Seq<char>) -> bool {
        name == "tcId"@
            || name == "comment"@
            || name == "iv"@
            || name == "key"@
            || name == "msg"@
            || name == "ct"@
            || name == "result"@
            || name == "flags"@
    }

    fn known_field(name: &str) -> (r: bool) {
        str_eq(name, "tcId")
            || str_eq(name, "comment")
            || str_eq(name, "iv")
            || str_eq(name, "key")
            || str_eq(name, "msg")
            || str_eq(name, "ct")
            || str_eq(name, "result")
            || str_eq(name, "flags")
    }

    open spec fn spec_decode_fields(fields: Seq<(String, Json)>) -> Result<TestView, ParseFailure> {
        let tc_id = spec_field::<usize>(fields, "tcId"@);
        let comment = spec_field::<String>(fields, "comment"@);
        let iv = spec_field::<ByteString>(fields, "iv"@);
        let key = spec_field::<ByteString>(fields, "key"@);
        let pt = spec_field::<ByteString>(fields, "msg"@);
        let ct = spec_field::<ByteString>(fields, "ct"@);
        let result = spec_named_field::<TestResult>(fields, "result"@);
        let flags = spec_named_list_field::<TestFlag>(fields, "flags"@);
        if tc_id is Err { Err(tc_id->Err_0) }
        else if comment is Err { Err(comment->Err_0) }
        else if iv is Err { Err(iv->Err_0) }
        else if key is Err { Err(key->Err_0) }
        else if pt is Err { Err(pt->Err_0) }
        else if ct is Err { Err(ct->Err_0) }
        else if result is Err { Err(result->Err_0) }
        else if flags is Err { Err(flags->Err_0) }
        else {
            Ok(TestView {
                tc_id: tc_id->Ok_0,
                comment: comment->Ok_0,
                iv: iv->Ok_0,
                key: key->Ok_0,
                pt: pt->Ok_0,
                ct: ct->Ok_0,
                result: result->Ok_0,
                flags: flags->Ok_0,
            })
        }
    }

    fn decode_fields(fields: &Vec<(String, Json)>) -> (r: Result<Test, ParseError>) {
        let tc_id = field::<usize>(fields, "tcId")?;
        let comment = field::<String>(fields, "comment")?;
        let iv = field::<ByteString>(fields, "iv")?;
        let key = field::<ByteString>(fields, "key")?;
        let pt = field::<ByteString>(fields, "msg")?;
        let ct = field::<ByteString>(fields, "ct")?;
        let result = named_field::<TestResult>(fields, "result")?;
        let flags = named_list_field::<TestFlag>(fields, "flags")?;
        Ok(Test { tc_id, comment, iv, key, pt, ct, result, flags })
    }
}

/// Tests that share the configuration of their group.
#[derive(Debug, Clone, Hash, PartialEq, Eq)]
pub struct TestGroup {
    pub nonce_size: usize,
    pub key_size: usize,
    pub test_type: TestGroupTypeId,
    pub tests: Vec<Test>,
}

/// The mathematical value of a [`TestGroup`].
pub struct TestGroupView {
    pub nonce_size: usize,
    pub key_size: usize,
    pub test_type: TestGroupTypeId,
    pub tests: Seq<TestView>,
}

impl DeepView for TestGroup {
    type V = TestGroupView;

    open spec fn deep_view(&self) -> TestGroupView {
        TestGroupView {
            nonce_size: self.nonce_size.deep_view(),
            key_size: self.key_size.deep_view(),
            test_type: self.test_type.deep_view(),
            tests: self.tests.deep_view(),
        }
    }
}

impl Record for TestGroup {
    open spec fn spec_known_field(name: Seq<char>) -> bool {
        name == "ivSize"@
            || name == "keySize"@
            || name == "type"@
            || name == "tests"@
    }

    fn known_field(name: &str) -> (r: bool) {
        str_eq(name, "ivSize")
            || str_eq(name, "keySize")
            || str_eq(name, "type")
            || str_eq(name, "tests")
    }

    open spec fn spec_decode_fields(fields: Seq<(String, Json)>) -> Result<TestGroupView, ParseFailure> {
        let nonce_size = spec_field::<usize>(fields, "ivSize"@);
        let key_size = spec_field::<usize>(fields, "keySize"@);
        let test_type = spec_named_field::<TestGroupTypeId>(fields, "type"@);
        let tests = spec_field::<Vec<Test>>(fields, "tests"@);
        if nonce_size is Err { Err(nonce_size->Err_0) }
        else if key_size is Err { Err(key_size->Err_0) }
        else if test_type is Err { Err(test_type->Err_0) }
        else if tests is Err { Err(tests->Err_0) }
        else {
            Ok(TestGroupView {
                nonce_size: nonce_size->Ok_0,
                key_size: key_size->Ok_0,
                test_type: test_type->Ok_0,
                tests: tests->Ok_0,
            })
        }
    }

    fn decode_fields(fields: &Vec<(String, Json)>) -> (r: Result<TestGroup, ParseError>) {
        let nonce_size = field::<usize>(fields, "ivSize")?;
        let key_size = field::<usize>(fields, "keySize")?;
        let test_type = named_field::<TestGroupTypeId>(fields, "type")?;
        let tests = field::<Vec<Test>>(fields, "tests")?;
        Ok(TestGroup { nonce_size, key_size, test_type, tests })
    }
}

/// A set of Cipher tests.
#[derive(Debug, Clone, Hash, PartialEq, Eq)]
pub struct TestSet {
    pub algorithm: Algorithm,
    pub generator_version: String,
    pub number_of_tests: usize,
    pub header: String,
    pub notes: Vec<(TestFlag, TestFlagInfo)>,
    pub schema: TestSchema,
    pub test_groups: Vec<TestGroup>,
}

/// The mathematical value of a [`TestSet`].
pub struct TestSetView {
    pub algorithm: Algorithm,
    pub generator_version: Seq<char>,
    pub number_of_tests: usize,
    pub header: Seq<char>,
    pub notes: Seq<(TestFlag, TestFlagInfoView)>,
    pub schema: Seq<char>,
    pub test_groups: Seq<TestGroupView>,
}

impl DeepView for TestSet {
    type V = TestSetView;

    open spec fn deep_view(&self) -> TestSetView {
        TestSetView {
            algorithm: self.algorithm.deep_view(),
            generator_version: self.generator_version.deep_view(),
            number_of_tests: self.number_of_tests.deep_view(),
            header: self.header.deep_view(),
            notes: self.notes.deep_view(),
            schema: self.schema.deep_view(),
            test_groups: self.test_groups.deep_view(),
        }
    }
}

impl Record for TestSet {
    open spec fn spec_known_field(name: Seq<char>) -> bool {
        name == "algorithm"@
            || name == "generatorVersion"@
            || name == "numberOfTests"@
            || name == "header"@
            || name == "notes"@
            || name == "schema"@
            || name == "testGroups"@
    }

    fn known_field(name: &str) -> (r: bool) {
        str_eq(name, "algorithm")
            || str_eq(name, "generatorVersion")
            || str_eq(name, "numberOfTests")
            || str_eq(name, "header")
            || str_eq(name, "notes")
            || str_eq(name, "schema")
            || str_eq(name, "testGroups")
    }

    open spec fn spec_decode_fields(fields: Seq<(String, Json)>) -> Result<TestSetView, ParseFailure> {
        let algorithm = spec_named_field::<Algorithm>(fields, "algorithm"@);
        let generator_version = spec_field::<String>(fields, "generatorVersion"@);
        let number_of_tests = spec_field::<usize>(fields, "numberOfTests"@);
        let header = spec_header_field(fields, "header"@);
        let notes = spec_map_field::<TestFlag, TestFlagInfo>(fields, "notes"@);
        let schema = spec_named_field::<TestSchema>(fields, "schema"@);
        let test_groups = spec_field::<Vec<TestGroup>>(fields, "testGroups"@);
        if algorithm is Err { Err(algorithm->Err_0) }
        else if generator_version is Err { Err(generator_version->Err_0) }
        else if number_of_tests is Err { Err(number_of_tests->Err_0) }
        else if header is Err { Err(header->Err_0) }
        else if notes is Err { Err(notes->Err_0) }
        else if schema is Err { Err(schema->Err_0) }
        else if test_groups is Err { Err(test_groups->Err_0) }
        else {
            Ok(TestSetView {
                algorithm: algorithm->Ok_0,
                generator_version: generator_version->Ok_0,
                number_of_tests: number_of_tests->Ok_0,
                header: header->Ok_0,
                notes: notes->Ok_0,
                schema: schema->Ok_0,
                test_groups: test_groups->Ok_0,
            })
        }
    }

    fn decode_fields(fields: &Vec<(String, Json)>) -> (r: Result<TestSet, ParseError>) {
        let algorithm = named_field::<Algorithm>(fields, "algorithm")?;
        let generator_version = field::<String>(fields, "generatorVersion")?;
        let number_of_tests = field::<usize>(fields, "numberOfTests")?;
        let header = header_field(fields, "header")?;
        let notes = map_field::<TestFlag, TestFlagInfo>(fields, "notes")?;
        let schema = named_field::<TestSchema>(fields, "schema")?;
        let test_groups = field::<Vec<TestGroup>>(fields, "testGroups")?;
        Ok(TestSet { algorithm, generator_version, number_of_tests, header, notes, schema, test_groups })
    }
}

impl Case for Test {
    type Flag = TestFlag;

    proof fn lemma_flags_decoded(fields: Seq<(String, Json)>) {
    }
}

impl Grouped for TestGroup {
    type Test = Test;

    type Tag = TestGroupTypeId;

    open spec fn spec_test_count(&self) -> nat {
        self.tests@.len()
    }

    fn test_count(&self) -> (n: usize) {
        self.tests.len()
    }

    proof fn lemma_members_decoded(fields: Seq<(String, Json)>) {
    }
}

impl Suite for TestSet {
    type Group = TestGroup;

    type Schema = TestSchema;

    open spec fn spec_declared_tests(&self) -> nat {
        self.number_of_tests as nat
    }

    open spec fn spec_actual_tests(&self) -> nat {
        spec_total_tests(self.test_groups@)
    }

    fn counts_match(&self) -> (ok: bool) {
        count_matches(self.number_of_tests, &self.test_groups)
    }

    open spec fn spec_consistent(v: TestSetView) -> bool {
        v.number_of_tests == sum(Seq::new(v.test_groups.len(), |i: int| v.test_groups[i].tests.len()))
    }

    proof fn lemma_consistent(&self) {
        assert(test_counts(self.test_groups@) =~= Seq::new(
            self.deep_view().test_groups.len(),
            |i: int| self.deep_view().test_groups[i].tests.len(),
        ));
    }

    open spec fn spec_notes_distinct(v: TestSetView) -> bool {
        distinct_keys(v.notes)
    }

    proof fn lemma_members_decoded(fields: Seq<(String, Json)>) {
        lemma_decoded_map_distinct::<TestFlag, TestFlagInfo>(spec_find(fields, "notes"@)->Some_0);
    }
}

impl TestSet {
    /// Accepts a test set whose declared count is the number of its tests.
    pub fn check(obj: TestSet) -> (r: Result<TestSet, WycheproofError>)
        ensures
            r is Ok <==> obj.number_of_tests == spec_total_tests(obj.test_groups@),
            r is Ok ==> r->Ok_0 == obj,
            r is Err ==> r->Err_0 is InvalidData,
    {
        check(obj)
    }

    /// Reads and checks a test set from a JSON value.
    pub fn from_json(j: &Json) -> (r: Result<TestSet, WycheproofError>)
        ensures
            load_outcome(r) == spec_from_json::<TestSet>(*j),
            r is Ok ==> r->Ok_0.number_of_tests == spec_total_tests(r->Ok_0.test_groups@),
    {
        from_json::<TestSet>(j)
    }

    /// Reads and checks a test set from the text of its document.
    pub fn load_from_text(text: &str) -> (r: Result<TestSet, WycheproofError>)
        ensures
            load_post::<TestSet>(text@, r),
            r is Ok ==> r->Ok_0.number_of_tests == spec_total_tests(r->Ok_0.test_groups@),
    {
        load_from_text::<TestSet>(text)
    }

    /// What the document says of a flag, if it says anything.
    pub fn note(&self, flag: TestFlag) -> (r: Option<&TestFlagInfo>)
        ensures
            r.deep_view() == spec_lookup(self.deep_view().notes, flag),
    {
        lookup(&self.notes, &flag)
    }
}

} // verus!
