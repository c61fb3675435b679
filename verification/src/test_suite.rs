pub mod config;
pub mod registry;
pub mod status;
pub mod visitor;

use vstd::prelude::*;

use crate::test_suite::config::{TestSuiteConfig, TestSuiteConfigView};

verus! {

/// One named, runnable unit of a test suite, identified by the pair of its
/// file path (relative to the suite directory) and its function name.
#[derive(Debug, PartialEq, Eq, Hash)]
pub struct TestCase {
    path: String,
    name: String,
}

/// The mathematical value of a `TestCase`: both components of its identity.
pub ghost struct TestCaseView {
    pub path: Seq<char>,
    pub name: Seq<char>,
}

impl View for TestCase {
    type V = TestCaseView;

    closed spec fn view(&self) -> TestCaseView {
        TestCaseView { path: self.path@, name: self.name@ }
    }
}

impl DeepView for TestCase {
    type V = TestCaseView;

    open spec fn deep_view(&self) -> TestCaseView {
        self.view()
    }
}

impl Clone for TestCase {
    fn clone(&self) -> (res: Self)
        ensures
            res@ == self@,
    {
        TestCase { path: self.path.clone(), name: self.name.clone() }
    }
}

impl TestCase {
    pub fn new(path: &str, name: &str) -> (res: Self)
        ensures
            res@.path == path@,
            res@.name == name@,
    {
        TestCase { path: path.to_owned(), name: name.to_owned() }
    }

    pub fn path(&self) -> (res: &str)
        ensures
            res@ == self@.path,
    {
        self.path.as_str()
    }

    pub fn name(&self) -> (res: &str)
        ensures
            res@ == self@.name,
    {
        self.name.as_str()
    }

    /// The display identity of a test case: `<path>::<name>`.
    pub fn id(&self) -> (res: String)
        ensures
            res@ == self@.path + "::"@ + self@.name,
    {
        let mut id = self.path.clone();
        id.append("::");
        id.append(self.name.as_str());
        id
    }
}

/// An ordered test file: an optional setup case, the test cases in their
/// discovery order, and an optional teardown case.
#[derive(Debug)]
pub struct TestFile {
    pub setup_test_case: Option<TestCase>,
    pub teardown_test_case: Option<TestCase>,
    pub test_cases: Vec<TestCase>,
}

/// The mathematical value of a `TestFile`.
pub ghost struct TestFileView {
    pub setup_test_case: Option<TestCaseView>,
    pub teardown_test_case: Option<TestCaseView>,
    pub test_cases: Seq<TestCaseView>,
}

impl View for TestFile {
    type V = TestFileView;

    open spec fn view(&self) -> TestFileView {
        TestFileView {
            setup_test_case: self.setup_test_case.deep_view(),
            teardown_test_case: self.teardown_test_case.deep_view(),
            test_cases: self.test_cases.deep_view(),
        }
    }
}

impl DeepView for TestFile {
    type V = TestFileView;

    open spec fn deep_view(&self) -> TestFileView {
        self.view()
    }
}

/// An optional setup case and an optional teardown case, scoped either to the
/// whole suite or to one file. Absence of either is valid.
#[derive(Debug)]
pub struct TestSuiteFixture {
    pub setup_test_case: Option<TestCase>,
    pub teardown_test_case: Option<TestCase>,
}

/// The mathematical value of a `TestSuiteFixture`.
pub ghost struct TestSuiteFixtureView {
    pub setup_test_case: Option<TestCaseView>,
    pub teardown_test_case: Option<TestCaseView>,
}

impl View for TestSuiteFixture {
    type V = TestSuiteFixtureView;

    open spec fn view(&self) -> TestSuiteFixtureView {
        TestSuiteFixtureView {
            setup_test_case: self.setup_test_case.deep_view(),
            teardown_test_case: self.teardown_test_case.deep_view(),
        }
    }
}

impl Default for TestSuiteFixture {
    fn default() -> (res: Self)
        ensures
            res@.setup_test_case is None,
            res@.teardown_test_case is None,
    {
        TestSuiteFixture { setup_test_case: None, teardown_test_case: None }
    }
}

/// The root entity of a suite: its directory path, its parsed configuration,
/// its suite-level fixture and its ordered test files. Immutable after load.
#[derive(Debug)]
pub struct TestSuite {
    path: String,
    config: TestSuiteConfig,
    fixture: TestSuiteFixture,
    test_files: Vec<TestFile>,
}

/// The mathematical value of a `TestSuite`.
pub ghost struct TestSuiteView {
    pub path: Seq<char>,
    pub config: TestSuiteConfigView,
    pub fixture: TestSuiteFixtureView,
    pub test_files: Seq<TestFileView>,
}

impl View for TestSuite {
    type V = TestSuiteView;

    closed spec fn view(&self) -> TestSuiteView {
        TestSuiteView {
            path: self.path@,
            config: self.config@,
            fixture: self.fixture@,
            test_files: self.test_files.deep_view(),
        }
    }
}

/// The case sequence contributed by one optional fixture slot.
pub open spec fn opt_case_seq(slot: Option<TestCaseView>) -> Seq<TestCaseView> {
    match slot {
        Some(tc) => seq![tc],
        None => Seq::empty(),
    }
}

impl TestFileView {
    /// The canonical visit order within one file: setup (if any), then the
    /// test cases in order, then teardown (if any).
    pub open spec fn cases_in_order(self) -> Seq<TestCaseView> {
        opt_case_seq(self.setup_test_case) + self.test_cases + opt_case_seq(
            self.teardown_test_case,
        )
    }
}

/// The concatenation of the canonical case sequences of a run of files.
pub open spec fn files_cases(files: Seq<TestFileView>) -> Seq<TestCaseView>
    decreases files.len(),
{
    if files.len() == 0 {
        Seq::empty()
    } else {
        files[0].cases_in_order() + files_cases(files.drop_first())
    }
}

/// Appending one file to a run of files appends its cases to the run's cases.
pub proof fn lemma_files_cases_push(files: Seq<TestFileView>, file: TestFileView)
    ensures
        files_cases(files.push(file)) == files_cases(files) + file.cases_in_order(),
    decreases files.len(),
{
    if files.len() == 0 {
        assert(files.push(file)[0] == file);
        assert(files.push(file).drop_first() =~= Seq::<TestFileView>::empty());
        assert(files_cases(Seq::<TestFileView>::empty()) == Seq::<TestCaseView>::empty());
        assert(files_cases(files.push(file)) == file.cases_in_order()
            + Seq::<TestCaseView>::empty());
        assert(file.cases_in_order() + Seq::<TestCaseView>::empty() =~= file.cases_in_order());
        assert(files_cases(files) + file.cases_in_order() =~= file.cases_in_order());
    } else {
        assert(files.push(file).drop_first() =~= files.drop_first().push(file));
        assert(files.push(file)[0] == files[0]);
        lemma_files_cases_push(files.drop_first(), file);
        assert(files_cases(files.push(file)) == files[0].cases_in_order() + (files_cases(
            files.drop_first(),
        ) + file.cases_in_order()));
        assert(files[0].cases_in_order() + (files_cases(files.drop_first())
            + file.cases_in_order()) =~= (files[0].cases_in_order() + files_cases(
            files.drop_first(),
        )) + file.cases_in_order());
    }
}

/// Taking one more file from the front of a run extends the taken cases by
/// exactly that file's cases.
pub proof fn lemma_files_cases_take_succ(files: Seq<TestFileView>, i: int)
    requires
        0 <= i < files.len(),
    ensures
        files_cases(files.take(i + 1)) == files_cases(files.take(i)) + files[i].cases_in_order(),
{
    assert(files.take(i + 1) =~= files.take(i).push(files[i]));
    lemma_files_cases_push(files.take(i), files[i]);
}

/// A run of files splits at any boundary: the cases of the first `i` files
/// followed by the cases of the rest are the cases of the whole run.
pub proof fn lemma_files_cases_split(files: Seq<TestFileView>, i: int)
    requires
        0 <= i <= files.len(),
    ensures
        files_cases(files) == files_cases(files.take(i)) + files_cases(files.skip(i)),
    decreases i,
{
    if i == 0 {
        assert(files.take(0) =~= Seq::<TestFileView>::empty());
        assert(files.skip(0) =~= files);
        assert(files_cases(Seq::<TestFileView>::empty()) == Seq::<TestCaseView>::empty());
        assert(Seq::<TestCaseView>::empty() + files_cases(files) =~= files_cases(files));
    } else {
        lemma_files_cases_split(files, i - 1);
        lemma_files_cases_take_succ(files, i - 1);
        lemma_files_cases_suffix(files, i - 1);
        assert((files_cases(files.take(i - 1)) + files[i - 1].cases_in_order()) + files_cases(
            files.skip(i),
        ) =~= files_cases(files.take(i - 1)) + (files[i - 1].cases_in_order() + files_cases(
            files.skip(i),
        )));
    }
}

/// Peeling one file off the front of a suffix of a run.
pub proof fn lemma_files_cases_suffix(files: Seq<TestFileView>, i: int)
    requires
        0 <= i < files.len(),
    ensures
        files_cases(files.skip(i)) == files[i].cases_in_order() + files_cases(files.skip(i + 1)),
{
    assert(files.skip(i)[0] == files[i]);
    assert(files.skip(i).drop_first() =~= files.skip(i + 1));
    assert(files_cases(files.skip(i)) == files.skip(i)[0].cases_in_order() + files_cases(
        files.skip(i).drop_first(),
    ));
}

impl TestSuiteView {
    /// The canonical visit order of a whole suite: the suite setup case (if
    /// any), then every file's setup, cases and teardown in file order, then
    /// the suite teardown case (if any).
    pub open spec fn cases_in_order(self) -> Seq<TestCaseView> {
        opt_case_seq(self.fixture.setup_test_case) + files_cases(self.test_files) + opt_case_seq(
            self.fixture.teardown_test_case,
        )
    }
}

impl TestSuite {
    pub fn new(
        path: &str,
        config: TestSuiteConfig,
        test_files: Vec<TestFile>,
        fixture: TestSuiteFixture,
    ) -> (res: Self)
        ensures
            res@.path == path@,
            res@.config == config@,
            res@.fixture == fixture@,
            res@.test_files == test_files.deep_view(),
    {
        TestSuite { path: path.to_owned(), config, fixture, test_files }
    }

    pub fn path(&self) -> (res: &str)
        ensures
            res@ == self@.path,
    {
        self.path.as_str()
    }

    pub fn config(&self) -> (res: &TestSuiteConfig)
        ensures
            res@ == self@.config,
    {
        &self.config
    }

    pub fn fixture(&self) -> (res: &TestSuiteFixture)
        ensures
            res@ == self@.fixture,
    {
        &self.fixture
    }

    pub fn fixture_mut(&mut self) -> (res: &mut TestSuiteFixture)
        ensures
            res@ == old(self)@.fixture,
            final(self)@ == (TestSuiteView { fixture: final(res)@, ..old(self)@ }),
    {
        &mut self.fixture
    }

    pub fn test_files(&self) -> (res: &Vec<TestFile>)
        ensures
            res.deep_view() == self@.test_files,
    {
        &self.test_files
    }

    pub fn test_files_mut(&mut self) -> (res: &mut Vec<TestFile>)
        ensures
            res.deep_view() == old(self)@.test_files,
            final(self)@ == (TestSuiteView { test_files: final(res).deep_view(), ..old(self)@ }),
    {
        &mut self.test_files
    }
}

} // verus!
