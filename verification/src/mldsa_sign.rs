//! ML-DSA signing tests.

use vstd::prelude::*;
use crate::bytes::ByteString;
use crate::decode::{field, optional_field, spec_field, spec_optional_field};
use crate::error::{ParseError, ParseFailure, WycheproofError};
use crate::json::{spec_find, Json};
use crate::named::{Named, named_field, named_list_field, spec_named_field, spec_named_list_field};
use crate::notes::{TestFlagInfo, TestFlagInfoView};
use crate::record::Record;
use crate::suite::{
    Case, check, count_matches, distinct_keys, from_json, Grouped, header_field,
    lemma_decoded_map_distinct, load_from_text, load_outcome, load_post, lookup, map_field,
    spec_from_json, spec_header_field, spec_lookup, spec_map_field, spec_total_tests, Suite, sum,
    test_counts,
};
use crate::text::str_eq;
use crate::vocab::TestResult;

verus! {

/// The schema that a document of MLDSA Sign tests declares.
#[derive(Debug, Clone, Hash, PartialEq, Eq)]
pub struct TestSchema {
    pub schema: String,
}

impl DeepView for TestSchema {
    type V = Seq<char>;

    open spec fn deep_view(&self) -> Seq<char> {
        self.schema@
    }
}

impl Named for TestSchema {
    open spec fn spec_vocabulary() -> Seq<char> {
        "MLDSA Sign schema"@
    }

    fn vocabulary() -> (r: &'static str) {
        "MLDSA Sign schema"
    }

    open spec fn spec_from_name(name: Seq<char>) -> Option<Seq<char>> {
        if name == "mldsa_sign_noseed_schema.json"@ || name == "mldsa_sign_seed_schema.json"@ {
            Some(name)
        } else {
            None
        }
    }

    fn from_name(name: &str) -> (r: Option<TestSchema>) {
        if str_eq(name, "mldsa_sign_noseed_schema.json") || str_eq(name, "mldsa_sign_seed_schema.json") {
            Some(TestSchema { schema: name.to_owned() })
        } else {
            None
        }
    }

    fn same(&self, other: &TestSchema) -> (r: bool) {
        str_eq(self.schema.as_str(), other.schema.as_str())
    }
}

/// The test sets of this family.
#[derive(Debug, Copy, Clone, Hash, PartialEq, Eq, Structural)]
pub enum TestName {
    MlDsa44SignNoSeed,
    MlDsa44SignSeed,
    MlDsa65SignNoSeed,
    MlDsa65SignSeed,
    MlDsa87SignNoSeed,
    MlDsa87SignSeed,
}

impl DeepView for TestName {
    type V = TestName;

    open spec fn deep_view(&self) -> TestName {
        *self
    }
}

impl Named for TestName {
    open spec fn spec_vocabulary() -> Seq<char> {
        "TestName"@
    }

    fn vocabulary() -> (r: &'static str) {
        "TestName"
    }

    open spec fn spec_from_name(name: Seq<char>) -> Option<TestName> {
        if name == "mldsa_44_sign_noseed"@ { Some(TestName::MlDsa44SignNoSeed) }
        else if name == "mldsa_44_sign_seed"@ { Some(TestName::MlDsa44SignSeed) }
        else if name == "mldsa_65_sign_noseed"@ { Some(TestName::MlDsa65SignNoSeed) }
        else if name == "mldsa_65_sign_seed"@ { Some(TestName::MlDsa65SignSeed) }
        else if name == "mldsa_87_sign_noseed"@ { Some(TestName::MlDsa87SignNoSeed) }
        else if name == "mldsa_87_sign_seed"@ { Some(TestName::MlDsa87SignSeed) }
        else { None }
    }

    fn from_name(name: &str) -> (r: Option<TestName>) {
        if str_eq(name, "mldsa_44_sign_noseed") { Some(TestName::MlDsa44SignNoSeed) }
        else if str_eq(name, "mldsa_44_sign_seed") { Some(TestName::MlDsa44SignSeed) }
        else if str_eq(name, "mldsa_65_sign_noseed") { Some(TestName::MlDsa65SignNoSeed) }
        else if str_eq(name, "mldsa_65_sign_seed") { Some(TestName::MlDsa65SignSeed) }
        else if str_eq(name, "mldsa_87_sign_noseed") { Some(TestName::MlDsa87SignNoSeed) }
        else if str_eq(name, "mldsa_87_sign_seed") { Some(TestName::MlDsa87SignSeed) }
        else { None }
    }

    fn same(&self, other: &TestName) -> (r: bool) {
        *self == *other
    }
}

impl TestName {
    /// The name under which the test set is kept.
    pub open spec fn spec_name(self) -> Seq<char> {
        match self {
            TestName::MlDsa44SignNoSeed => "mldsa_44_sign_noseed"@,
            TestName::MlDsa44SignSeed => "mldsa_44_sign_seed"@,
            TestName::MlDsa65SignNoSeed => "mldsa_65_sign_noseed"@,
            TestName::MlDsa65SignSeed => "mldsa_65_sign_seed"@,
            TestName::MlDsa87SignNoSeed => "mldsa_87_sign_noseed"@,
            TestName::MlDsa87SignSeed => "mldsa_87_sign_seed"@,
        }
    }

    pub fn name(&self) -> (r: &'static str)
        ensures
            r@ == self.spec_name(),
    {
        match self {
            TestName::MlDsa44SignNoSeed => "mldsa_44_sign_noseed",
            TestName::MlDsa44SignSeed => "mldsa_44_sign_seed",
            TestName::MlDsa65SignNoSeed => "mldsa_65_sign_noseed",
            TestName::MlDsa65SignSeed => "mldsa_65_sign_seed",
            TestName::MlDsa87SignNoSeed => "mldsa_87_sign_noseed",
            TestName::MlDsa87SignSeed => "mldsa_87_sign_seed",
        }
    }

    /// Every test set of the family, in a fixed order.
    pub open spec fn spec_all() -> Seq<TestName> {
        seq![
            TestName::MlDsa44SignNoSeed,
            TestName::MlDsa44SignSeed,
            TestName::MlDsa65SignNoSeed,
            TestName::MlDsa65SignSeed,
            TestName::MlDsa87SignNoSeed,
            TestName::MlDsa87SignSeed,
        ]
    }

    pub fn all() -> (r: Vec<TestName>)
        ensures
            r@ == Self::spec_all(),
    {
        let r = vec![
            TestName::MlDsa44SignNoSeed,
            TestName::MlDsa44SignSeed,
            TestName::MlDsa65SignNoSeed,
            TestName::MlDsa65SignSeed,
            TestName::MlDsa87SignNoSeed,
            TestName::MlDsa87SignSeed,
        ];
        assert(r@ =~= Self::spec_all());
        r
    }

    /// Finds a test set by its name.
    pub fn from_str(s: &str) -> (r: Result<TestName, WycheproofError>)
        ensures
            match r {
                Ok(t) => Self::spec_from_name(s@) == Some(t),
                Err(e) => Self::spec_from_name(s@) is None && e is NoDataSet,
            },
    {
        match Self::from_name(s) {
            Some(t) => Ok(t),
            None => Err(WycheproofError::NoDataSet),
        }
    }
}

impl std::str::FromStr for TestName {
    type Err = WycheproofError;

    fn from_str(s: &str) -> (r: Result<TestName, WycheproofError>)
        ensures
            match r {
                Ok(t) => TestName::spec_from_name(s@) == Some(t),
                Err(e) => TestName::spec_from_name(s@) is None && e is NoDataSet,
            },
    {
        TestName::from_str(s)
    }
}

/// Every test set is found again by its name.
pub proof fn lemma_name_round_trip(t: TestName)
    ensures
        TestName::spec_from_name(t.spec_name()) == Some(t),
{
    reveal_strlit("mldsa_44_sign_noseed");
    assert("mldsa_44_sign_noseed"@ =~= seq!['m', 'l', 'd', 's', 'a', '_', '4', '4', '_', 's', 'i', 'g', 'n', '_', 'n', 'o', 's', 'e', 'e', 'd']);
    reveal_strlit("mldsa_44_sign_seed");
    assert("mldsa_44_sign_seed"@ =~= seq!['m', 'l', 'd', 's', 'a', '_', '4', '4', '_', 's', 'i', 'g', 'n', '_', 's', 'e', 'e', 'd']);
    reveal_strlit("mldsa_65_sign_noseed");
    assert("mldsa_65_sign_noseed"@ =~= seq!['m', 'l', 'd', 's', 'a', '_', '6', '5', '_', 's', 'i', 'g', 'n', '_', 'n', 'o', 's', 'e', 'e', 'd']);
    reveal_strlit("mldsa_65_sign_seed");
    assert("mldsa_65_sign_seed"@ =~= seq!['m', 'l', 'd', 's', 'a', '_', '6', '5', '_', 's', 'i', 'g', 'n', '_', 's', 'e', 'e', 'd']);
    reveal_strlit("mldsa_87_sign_noseed");
    assert("mldsa_87_sign_noseed"@ =~= seq!['m', 'l', 'd', 's', 'a', '_', '8', '7', '_', 's', 'i', 'g', 'n', '_', 'n', 'o', 's', 'e', 'e', 'd']);
    reveal_strlit("mldsa_87_sign_seed");
    assert("mldsa_87_sign_seed"@ =~= seq!['m', 'l', 'd', 's', 'a', '_', '8', '7', '_', 's', 'i', 'g', 'n', '_', 's', 'e', 'e', 'd']);
}

/// Every test set is listed.
pub proof fn lemma_all_complete(t: TestName)
    ensures
        TestName::spec_all().contains(t),
{
    match t {
        TestName::MlDsa44SignNoSeed => assert(TestName::spec_all()[0] == t),
        TestName::MlDsa44SignSeed => assert(TestName::spec_all()[1] == t),
        TestName::MlDsa65SignNoSeed => assert(TestName::spec_all()[2] == t),
        TestName::MlDsa65SignSeed => assert(TestName::spec_all()[3] == t),
        TestName::MlDsa87SignNoSeed => assert(TestName::spec_all()[4] == t),
        TestName::MlDsa87SignSeed => assert(TestName::spec_all()[5] == t),
    }
}

/// The algorithms that a test set of this family is for.
#[derive(Debug, Copy, Clone, Hash, PartialEq, Eq, Structural)]
pub enum Algorithm {
    MlDsa44,
    MlDsa65,
    MlDsa87,
}

impl DeepView for Algorithm {
    type V = Algorithm;

    open spec fn deep_view(&self) -> Algorithm {
        *self
    }
}

impl Named for Algorithm {
    open spec fn spec_vocabulary() -> Seq<char> {
        "Algorithm"@
    }

    fn vocabulary() -> (r: &'static str) {
        "Algorithm"
    }

    open spec fn spec_from_name(name: Seq<char>) -> Option<Algorithm> {
        if name == "ML-DSA-44"@ { Some(Algorithm::MlDsa44) }
        else if name == "ML-DSA-65"@ { Some(Algorithm::MlDsa65) }
        else if name == "ML-DSA-87"@ { Some(Algorithm::MlDsa87) }
        else { None }
    }

    fn from_name(name: &str) -> (r: Option<Algorithm>) {
        if str_eq(name, "ML-DSA-44") { Some(Algorithm::MlDsa44) }
        else if str_eq(name, "ML-DSA-65") { Some(Algorithm::MlDsa65) }
        else if str_eq(name, "ML-DSA-87") { Some(Algorithm::MlDsa87) }
        else { None }
    }

    fn same(&self, other: &Algorithm) -> (r: bool) {
        *self == *other
    }
}

/// The edge case or bug class that a test probes.
#[derive(Debug, Copy, Clone, Hash, PartialEq, Eq, Structural)]
pub enum TestFlag {
    BoundaryCondition,
    IncorrectPrivateKeyLength,
    InvalidPrivateKey,
    InvalidContext,
    ManySteps,
    ValidSignature,
}

impl DeepView for TestFlag {
    type V = TestFlag;

    open spec fn deep_view(&self) -> TestFlag {
        *self
    }
}

impl Named for TestFlag {
    open spec fn spec_vocabulary() -> Seq<char> {
        "TestFlag"@
    }

    fn vocabulary() -> (r: &'static str) {
        "TestFlag"
    }

    open spec fn spec_from_name(name: Seq<char>) -> Option<TestFlag> {
        if name == "BoundaryCondition"@ { Some(TestFlag::BoundaryCondition) }
        else if name == "IncorrectPrivateKeyLength"@ { Some(TestFlag::IncorrectPrivateKeyLength) }
        else if name == "InvalidPrivateKey"@ { Some(TestFlag::InvalidPrivateKey) }
        else if name == "InvalidContext"@ { Some(TestFlag::InvalidContext) }
        else if name == "ManySteps"@ { Some(TestFlag::ManySteps) }
        else if name == "ValidSignature"@ { Some(TestFlag::ValidSignature) }
        else { None }
    }

    fn from_name(name: &str) -> (r: Option<TestFlag>) {
        if str_eq(name, "BoundaryCondition") { Some(TestFlag::BoundaryCondition) }
        else if str_eq(name, "IncorrectPrivateKeyLength") { Some(TestFlag::IncorrectPrivateKeyLength) }
        else if str_eq(name, "InvalidPrivateKey") { Some(TestFlag::InvalidPrivateKey) }
        else if str_eq(name, "InvalidContext") { Some(TestFlag::InvalidContext) }
        else if str_eq(name, "ManySteps") { Some(TestFlag::ManySteps) }
        else if str_eq(name, "ValidSignature") { Some(TestFlag::ValidSignature) }
        else { None }
    }

    fn same(&self, other: &TestFlag) -> (r: bool) {
        *self == *other
    }
}

/// The tag of a test group: which shape the group follows.
#[derive(Debug, Copy, Clone, Hash, PartialEq, Eq, Structural)]
pub enum TestGroupTypeId {
    MlDsaSign,
}

impl DeepView for TestGroupTypeId {
    type V = TestGroupTypeId;

    open spec fn deep_view(&self) -> TestGroupTypeId {
        *self
    }
}

impl Named for TestGroupTypeId {
    open spec fn spec_vocabulary() -> Seq<char> {
        "TestGroupTypeId"@
    }

    fn vocabulary() -> (r: &'static str) {
        "TestGroupTypeId"
    }

    open spec fn spec_from_name(name: Seq<char>) -> Option<TestGroupTypeId> {
        if name == "MlDsaSign"@ { Some(TestGroupTypeId::MlDsaSign) }
        else { None }
    }

    fn from_name(name: &str) -> (r: Option<TestGroupTypeId>) {
        if str_eq(name, "MlDsaSign") { Some(TestGroupTypeId::MlDsaSign) }
        else { None }
    }

    fn same(&self, other: &TestGroupTypeId) -> (r: bool) {
        *self == *other
    }
}

/// Where the tests of a group come from.
#[derive(Debug, Clone, Hash, PartialEq, Eq)]
pub struct Source {
    pub name: String,
    pub version: String,
}

/// The mathematical value of a [`Source`].
pub struct SourceView {
    pub name: Seq<char>,
    pub version: Seq<char>,
}

impl DeepView for Source {
    type V = SourceView;

    open spec fn deep_view(&self) -> SourceView {
        SourceView {
            name: self.name.deep_view(),
            version: self.version.deep_view(),
        }
    }
}

impl Record for Source {
    open spec fn spec_known_field(name: Seq<char>) -> bool {
        name == "name"@
            || name == "version"@
    }

    fn known_field(name: &str) -> (r: bool) {
        str_eq(name, "name")
            || str_eq(name, "version")
    }

    open spec fn spec_decode_fields(fields: Seq<(String, Json)>) -> Result<SourceView, ParseFailure> {
        let name = spec_field::<String>(fields, "name"@);
        let version = spec_field::<String>(fields, "version"@);
        if name is Err { Err(name->Err_0) }
        else if version is Err { Err(version->Err_0) }
        else {
            Ok(SourceView {
                name: name->Ok_0,
                version: version->Ok_0,
            })
        }
    }

    fn decode_fields(fields: &Vec<(String, Json)>) -> (r: Result<Source, ParseError>) {
        let name = field::<String>(fields, "name")?;
        let version = field::<String>(fields, "version")?;
        Ok(Source { name, version })
    }
}

/// One test case.
#[derive(Debug, Clone, Hash, PartialEq, Eq)]
pub struct Test {
    pub tc_id: usize,
    pub comment: String,
    pub msg: ByteString,
    pub sig: ByteString,
    pub ctx: Option<ByteString>,
    pub result: TestResult,
    pub flags: Vec<TestFlag>,
}

/// The mathematical value of a [`Test`].
pub struct TestView {
    pub tc_id: usize,
    pub comment: Seq<char>,
    pub msg: Seq<u8>,
    pub sig: Seq<u8>,
    pub ctx: Option<Seq<u8>>,
    pub result: TestResult,
    pub flags: Seq<TestFlag>,
}

impl DeepView for Test {
    type V = TestView;

    open spec fn deep_view(&self) -> TestView {
        TestView {
            tc_id: self.tc_id.deep_view(),
            comment: self.comment.deep_view(),
            msg: self.msg.deep_view(),
            sig: self.sig.deep_view(),
            ctx: self.ctx.deep_view(),
            result: self.result.deep_view(),
            flags: self.flags.deep_view(),
        }
    }
}

impl Record for Test {
    open spec fn spec_known_field(name: Seq<char>) -> bool {
        name == "tcId"@
            || name == "comment"@
            || name == "msg"@
            || name == "sig"@
            || name == "ctx"@
            || name == "result"@
            || name == "flags"@
    }

    fn known_field(name: &str) -> (r: bool) {
        str_eq(name, "tcId")
            || str_eq(name, "comment")
            || str_eq(name, "msg")
            || str_eq(name, "sig")
            || str_eq(name, "ctx")
            || str_eq(name, "result")
            || str_eq(name, "flags")
    }

    open spec fn spec_decode_fields(fields: Seq<(String, Json)>) -> Result<TestView, ParseFailure> {
        let tc_id = spec_field::<usize>(fields, "tcId"@);
        let comment = spec_field::<String>(fields, "comment"@);
        let msg = spec_field::<ByteString>(fields, "msg"@);
        let sig = spec_field::<ByteString>(fields, "sig"@);
        let ctx = spec_optional_field::<ByteString>(fields, "ctx"@);
        let result = spec_named_field::<TestResult>(fields, "result"@);
        let flags = spec_named_list_field::<TestFlag>(fields, "flags"@);
        if tc_id is Err { Err(tc_id->Err_0) }
        else if comment is Err { Err(comment->Err_0) }
        else if msg is Err { Err(msg->Err_0) }
        else if sig is Err { Err(sig->Err_0) }
        else if ctx is Err { Err(ctx->Err_0) }
        else if result is Err { Err(result->Err_0) }
        else if flags is Err { Err(flags->Err_0) }
        else {
            Ok(TestView {
                tc_id: tc_id->Ok_0,
                comment: comment->Ok_0,
                msg: msg->Ok_0,
                sig: sig->Ok_0,
                ctx: ctx->Ok_0,
                result: result->Ok_0,
                flags: flags->Ok_0,
            })
        }
    }

    fn decode_fields(fields: &Vec<(String, Json)>) -> (r: Result<Test, ParseError>) {
        let tc_id = field::<usize>(fields, "tcId")?;
        let comment = field::<String>(fields, "comment")?;
        let msg = field::<ByteString>(fields, "msg")?;
        let sig = field::<ByteString>(fields, "sig")?;
        let ctx = optional_field::<ByteString>(fields, "ctx")?;
        let result = named_field::<TestResult>(fields, "result")?;
        let flags = named_list_field::<TestFlag>(fields, "flags")?;
        Ok(Test { tc_id, comment, msg, sig, ctx, result, flags })
    }
}

/// Tests that share the configuration of their group.
#[derive(Debug, Clone, Hash, PartialEq, Eq)]
pub struct TestGroup {
    pub privkey: Option<ByteString>,
    pub privseed: Option<ByteString>,
    pub source: Source,
    pub test_type: TestGroupTypeId,
    pub tests: Vec<Test>,
}

/// The mathematical value of a [`TestGroup`].
pub struct TestGroupView {
    pub privkey: Option<Seq<u8>>,
    pub privseed: Option<Seq<u8>>,
    pub source: SourceView,
    pub test_type: TestGroupTypeId,
    pub tests: Seq<TestView>,
}

impl DeepView for TestGroup {
    type V = TestGroupView;

    open spec fn deep_view(&self) -> TestGroupView {
        TestGroupView {
            privkey: self.privkey.deep_view(),
            privseed: self.privseed.deep_view(),
            source: self.source.deep_view(),
            test_type: self.test_type.deep_view(),
            tests: self.tests.deep_view(),
        }
    }
}

impl Record for TestGroup {
    open spec fn spec_known_field(name: Seq<char>) -> bool {
        name == "privateKey"@
            || name == "privateSeed"@
            || name == "source"@
            || name == "type"@
            || name == "tests"@
    }

    fn known_field(name: &str) -> (r: bool) {
        str_eq(name, "privateKey")
            || str_eq(name, "privateSeed")
            || str_eq(name, "source")
            || str_eq(name, "type")
            || str_eq(name, "tests")
    }

    open spec fn spec_decode_fields(fields: Seq<(String, Json)>) -> Result<TestGroupView, ParseFailure> {
        let privkey = spec_optional_field::<ByteString>(fields, "privateKey"@);
        let privseed = spec_optional_field::<ByteString>(fields, "privateSeed"@);
        let source = spec_field::<Source>(fields, "source"@);
        let test_type = spec_named_field::<TestGroupTypeId>(fields, "type"@);
        let tests = spec_field::<Vec<Test>>(fields, "tests"@);
        if privkey is Err { Err(privkey->Err_0) }
        else if privseed is Err { Err(privseed->Err_0) }
        else if source is Err { Err(source->Err_0) }
        else if test_type is Err { Err(test_type->Err_0) }
        else if tests is Err { Err(tests->Err_0) }
        else {
            Ok(TestGroupView {
                privkey: privkey->Ok_0,
                privseed: privseed->Ok_0,
                source: source->Ok_0,
                test_type: test_type->Ok_0,
                tests: tests->Ok_0,
            })
        }
    }

    fn decode_fields(fields: &Vec<(String, Json)>) -> (r: Result<TestGroup, ParseError>) {
        let privkey = optional_field::<ByteString>(fields, "privateKey")?;
        let privseed = optional_field::<ByteString>(fields, "privateSeed")?;
        let source = field::<Source>(fields, "source")?;
        let test_type = named_field::<TestGroupTypeId>(fields, "type")?;
        let tests = field::<Vec<Test>>(fields, "tests")?;
        Ok(TestGroup { privkey, privseed, source, test_type, tests })
    }
}

/// A set of MLDSA Sign tests.
#[derive(Debug, Clone, Hash, PartialEq, Eq)]
pub struct TestSet {
    pub algorithm: Algorithm,
    pub generator_version: String,
    pub number_of_tests: usize,
    pub header: String,
    pub notes: Vec<(TestFlag, TestFlagInfo)>,
    pub schema: TestSchema,
    pub test_groups: Vec<TestGroup>,
}

/// The mathematical value of a [`TestSet`].
pub struct TestSetView {
    pub algorithm: Algorithm,
    pub generator_version: Seq<char>,
    pub number_of_tests: usize,
    pub header: Seq<char>,
    pub notes: Seq<(TestFlag, TestFlagInfoView)>,
    pub schema: Seq<char>,
    pub test_groups: Seq<TestGroupView>,
}

impl DeepView for TestSet {
    type V = TestSetView;

    open spec fn deep_view(&self) -> TestSetView {
        TestSetView {
            algorithm: self.algorithm.deep_view(),
            generator_version: self.generator_version.deep_view(),
            number_of_tests: self.number_of_tests.deep_view(),
            header: self.header.deep_view(),
            notes: self.notes.deep_view(),
            schema: self.schema.deep_view(),
            test_groups: self.test_groups.deep_view(),
        }
    }
}

impl Record for TestSet {
    open spec fn spec_known_field(name: Seq<char>) -> bool {
        name == "algorithm"@
            || name == "generatorVersion"@
            || name == "numberOfTests"@
            || name == "header"@
            || name == "notes"@
            || name == "schema"@
            || name == "testGroups"@
    }

    fn known_field(name: &str) -> (r: bool) {
        str_eq(name, "algorithm")
            || str_eq(name, "generatorVersion")
            || str_eq(name, "numberOfTests")
            || str_eq(name, "header")
            || str_eq(name, "notes")
            || str_eq(name, "schema")
            || str_eq(name, "testGroups")
    }

    open spec fn spec_decode_fields(fields: Seq<(String, Json)>) -> Result<TestSetView, ParseFailure> {
        let algorithm = spec_named_field::<Algorithm>(fields, "algorithm"@);
        let generator_version = spec_field::<String>(fields, "generatorVersion"@);
        let number_of_tests = spec_field::<usize>(fields, "numberOfTests"@);
        let header = spec_header_field(fields, "header"@);
        let notes = spec_map_field::<TestFlag, TestFlagInfo>(fields, "notes"@);
        let schema = spec_named_field::<TestSchema>(fields, "schema"@);
        let test_groups = spec_field::<Vec<TestGroup>>(fields, "testGroups"@);
        if algorithm is Err { Err(algorithm->Err_0) }
        else if generator_version is Err { Err(generator_version->Err_0) }
        else if number_of_tests is Err { Err(number_of_tests->Err_0) }
        else if header is Err { Err(header->Err_0) }
        else if notes is Err { Err(notes->Err_0) }
        else if schema is Err { Err(schema->Err_0) }
        else if test_groups is Err { Err(test_groups->Err_0) }
        else {
            Ok(TestSetView {
                algorithm: algorithm->Ok_0,
                generator_version: generator_version->Ok_0,
                number_of_tests: number_of_tests->Ok_0,
                header: header->Ok_0,
                notes: notes->Ok_0,
                schema: schema->Ok_0,
                test_groups: test_groups->Ok_0,
            })
        }
    }

    fn decode_fields(fields: &Vec<(String, Json)>) -> (r: Result<TestSet, ParseError>) {
        let algorithm = named_field::<Algorithm>(fields, "algorithm")?;
        let generator_version = field::<String>(fields, "generatorVersion")?;
        let number_of_tests = field::<usize>(fields, "numberOfTests")?;
        let header = header_field(fields, "header")?;
        let notes = map_field::<TestFlag, TestFlagInfo>(fields, "notes")?;
        let schema = named_field::<TestSchema>(fields, "schema")?;
        let test_groups = field::<Vec<TestGroup>>(fields, "testGroups")?;
        Ok(TestSet { algorithm, generator_version, number_of_tests, header, notes, schema, test_groups })
    }
}

impl Case for Test {
    type Flag = TestFlag;

    proof fn lemma_flags_decoded(fields: Seq<(String, Json)>) {
    }
}

impl Grouped for TestGroup {
    type Test = Test;

    type Tag = TestGroupTypeId;

    open spec fn spec_test_count(&self) -> nat {
        self.tests@.len()
    }

    fn test_count(&self) -> (n: usize) {
        self.tests.len()
    }

    proof fn lemma_members_decoded(fields: Seq<(String, Json)>) {
    }
}

impl Suite for TestSet {
    type Group = TestGroup;

    type Schema = TestSchema;

    open spec fn spec_declared_tests(&self) -> nat {
        self.number_of_tests as nat
    }

    open spec fn spec_actual_tests(&self) -> nat {
        spec_total_tests(self.test_groups@)
    }

    fn counts_match(&self) -> (ok: bool) {
        count_matches(self.number_of_tests, &self.test_groups)
    }

    open spec fn spec_consistent(v: TestSetView) -> bool {
        v.number_of_tests == sum(Seq::new(v.test_groups.len(), |i: int| v.test_groups[i].tests.len()))
    }

    proof fn lemma_consistent(&self) {
        assert(test_counts(self.test_groups@) =~= Seq::new(
            self.deep_view().test_groups.len(),
            |i: int| self.deep_view().test_groups[i].tests.len(),
        ));
    }

    open spec fn spec_notes_distinct(v: TestSetView) -> bool {
        distinct_keys(v.notes)
    }

    proof fn lemma_members_decoded(fields: Seq<(String, Json)>) {
        lemma_decoded_map_distinct::<TestFlag, TestFlagInfo>(spec_find(fields, "notes"@)->Some_0);
    }
}

impl TestSet {
    /// Accepts a test set whose declared count is the number of its tests.
    pub fn check(obj: TestSet) -> (r: Result<TestSet, WycheproofError>)
        ensures
            r is Ok <==> obj.number_of_tests == spec_total_tests(obj.test_groups@),
            r is Ok ==> r->Ok_0 == obj,
            r is Err ==> r->Err_0 is InvalidData,
    {
        check(obj)
    }

    /// Reads and checks a test set from a JSON value.
    pub fn from_json(j: &Json) -> (r: Result<TestSet, WycheproofError>)
        ensures
            load_outcome(r) == spec_from_json::<TestSet>(*j),
            r is Ok ==> r->Ok_0.number_of_tests == spec_total_tests(r->Ok_0.test_groups@),
    {
        from_json::<TestSet>(j)
    }

    /// Reads and checks a test set from the text of its document.
    pub fn load_from_text(text: &str) -> (r: Result<TestSet, WycheproofError>)
        ensures
            load_post::<TestSet>(text@, r),
            r is Ok ==> r->Ok_0.number_of_tests == spec_total_tests(r->Ok_0.test_groups@),
    {
        load_from_text::<TestSet>(text)
    }

    /// What the document says of a flag, if it says anything.
    pub fn note(&self, flag: TestFlag) -> (r: Option<&TestFlagInfo>)
        ensures
            r.deep_view() == spec_lookup(self.deep_view().notes, flag),
    {
        lookup(&self.notes, &flag)
    }
}

} // verus!
