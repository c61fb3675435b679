use vstd::prelude::*;

use crate::test_suite::status::{SkipReason, SkipReasonView};
use crate::test_suite::{
    files_cases, lemma_files_cases_split, lemma_files_cases_suffix, lemma_files_cases_take_succ,
    opt_case_seq, TestCase, TestCaseView, TestFileView, TestSuite, TestSuiteView,
};

verus! {

/// Whether the current test case is advised to be skipped. The advice is not
/// coercive: the traversal only recommends skipping, the caller decides
/// whether to invoke the driver.
#[derive(Debug, PartialEq, Eq, PartialOrd, Ord)]
pub enum ShouldSkip {
    No,
    Yes(SkipReason),
}

/// The mathematical value of a `ShouldSkip`.
pub ghost enum ShouldSkipView {
    No,
    Yes(SkipReasonView),
}

impl View for ShouldSkip {
    type V = ShouldSkipView;

    open spec fn view(&self) -> ShouldSkipView {
        match self {
            ShouldSkip::No => ShouldSkipView::No,
            ShouldSkip::Yes(reason) => ShouldSkipView::Yes(reason@),
        }
    }
}

impl Clone for ShouldSkip {
    fn clone(&self) -> (res: Self)
        ensures
            res@ == self@,
    {
        match self {
            ShouldSkip::No => ShouldSkip::No,
            ShouldSkip::Yes(reason) => ShouldSkip::Yes(reason.clone()),
        }
    }
}

impl ShouldSkipView {
    /// The advice after one more reason is reported: the higher-ranked
    /// reason wins; on equal rank the newly reported reason is kept.
    pub open spec fn with_reason(self, reason: SkipReasonView) -> ShouldSkipView {
        match self {
            ShouldSkipView::No => ShouldSkipView::Yes(reason),
            ShouldSkipView::Yes(current) => if reason.rank() >= current.rank() {
                ShouldSkipView::Yes(reason)
            } else {
                self
            },
        }
    }
}

impl ShouldSkip {
    /// Raise the advice so that the higher-ranked of the current and the
    /// newly reported reason is kept.
    pub fn skip_with_reason(&mut self, reason: SkipReason)
        ensures
            final(self)@ == old(self)@.with_reason(reason@),
    {
        let raise = match self {
            ShouldSkip::No => true,
            ShouldSkip::Yes(current) => reason.rank() >= current.rank(),
        };
        if raise {
            *self = ShouldSkip::Yes(reason);
        }
    }
}

/// The control state of the traversal's state machine. The linear order is
/// `TestSuiteSetup -> TestCaseSetup -> TestCase* -> TestCaseTeardown`, looping
/// back to `TestCaseSetup` for the next file, then `TestSuiteTeardown -> Done`.
/// `Aborted` is reserved for fatal-abort handling; the engine itself never
/// enters it.
#[derive(Debug, Clone, Copy)]
pub enum State {
    TestSuiteSetup,
    TestCaseSetup,
    TestCase,
    TestCaseTeardown,
    TestSuiteTeardown,
    Done,
    Aborted,
}

/// What kind of case the immediately preceding step yielded; decides which
/// skip flag a reported failure raises.
#[derive(Debug, Clone, Copy)]
pub enum LastVisited {
    Nothing,
    SuiteSetup,
    FileSetup,
    Other,
}

/// The outcome of one traversal step.
#[derive(Debug)]
pub enum VisitStep<'ts> {
    /// A case was yielded, together with the advice whether to skip it.
    Visited(&'ts TestCase, ShouldSkip),
    /// The state machine advanced without yielding a case.
    Advanced,
    /// The traversal is complete; every further step reports the same.
    Finished,
}

/// Walks a test suite one step at a time, yielding `(test case, skip advice)`
/// pairs in canonical order and propagating skip state when a setup case is
/// reported to have failed.
pub struct Visitor<'ts> {
    test_suite: &'ts TestSuite,
    state: State,
    test_file_idx: usize,
    test_case_idx: usize,
    should_skip: ShouldSkip,
    last_visited: LastVisited,
}

/// The mathematical value of a `Visitor`.
pub ghost struct VisitorView {
    pub suite: TestSuiteView,
    pub state: State,
    pub test_file_idx: int,
    pub test_case_idx: int,
    pub should_skip: ShouldSkipView,
    pub last_visited: LastVisited,
}

impl View for Visitor<'_> {
    type V = VisitorView;

    closed spec fn view(&self) -> VisitorView {
        VisitorView {
            suite: self.test_suite@,
            state: self.state,
            test_file_idx: self.test_file_idx as int,
            test_case_idx: self.test_case_idx as int,
            should_skip: self.should_skip@,
            last_visited: self.last_visited,
        }
    }
}

/// The advice after the file-scoped flag is cleared at the entry of a new
/// file: exactly a test-case-setup-error advice is reset, the suite-scoped
/// advice is sticky.
pub open spec fn reset_file_flag(flag: ShouldSkipView) -> ShouldSkipView {
    if flag == ShouldSkipView::Yes(SkipReasonView::TestCaseSetupError) {
        ShouldSkipView::No
    } else {
        flag
    }
}

impl VisitorView {
    pub open spec fn files(self) -> Seq<TestFileView> {
        self.suite.test_files
    }

    /// The traversal's advice only ever records setup failures.
    pub open spec fn flag_wf(self) -> bool {
        match self.should_skip {
            ShouldSkipView::No => true,
            ShouldSkipView::Yes(reason) => reason is TestCaseSetupError
                || reason is TestSuiteSetupError,
        }
    }

    /// Well-formedness: the cursor indices are in bounds for the state the
    /// machine is in, and the reserved `Aborted` state is never entered.
    pub open spec fn wf(self) -> bool {
        &&& !(self.state is Aborted)
        &&& self.flag_wf()
        &&& match self.state {
            State::TestSuiteSetup => self.test_file_idx == 0 && self.test_case_idx == 0,
            State::TestCaseSetup => 0 <= self.test_file_idx <= self.files().len(),
            State::TestCase => {
                &&& 0 <= self.test_file_idx <= self.files().len()
                &&& (self.test_file_idx < self.files().len() ==> 0 <= self.test_case_idx
                    <= self.files()[self.test_file_idx].test_cases.len())
            },
            State::TestCaseTeardown => 0 <= self.test_file_idx <= self.files().len(),
            _ => true,
        }
    }

    /// How many cases of the canonical order have been yielded so far.
    pub open spec fn visited_count(self) -> int {
        let suite_setup = opt_case_seq(self.suite.fixture.setup_test_case).len() as int;
        let before_files = suite_setup + files_cases(
            self.files().take(self.test_file_idx),
        ).len();
        match self.state {
            State::TestSuiteSetup => 0,
            State::TestCaseSetup => before_files,
            State::TestCase => before_files + if self.test_file_idx < self.files().len() {
                opt_case_seq(self.files()[self.test_file_idx].setup_test_case).len()
                    + self.test_case_idx
            } else {
                0
            },
            State::TestCaseTeardown => before_files + if self.test_file_idx
                < self.files().len() {
                opt_case_seq(self.files()[self.test_file_idx].setup_test_case).len()
                    + self.files()[self.test_file_idx].test_cases.len() as int
            } else {
                0
            },
            State::TestSuiteTeardown => suite_setup + files_cases(self.files()).len(),
            State::Done => self.suite.cases_in_order().len() as int,
            State::Aborted => self.suite.cases_in_order().len() as int,
        }
    }

    /// The case the next step yields, if any, with the advice it carries.
    pub open spec fn step_yield(self) -> Option<(TestCaseView, ShouldSkipView)> {
        match self.state {
            State::TestSuiteSetup => match self.suite.fixture.setup_test_case {
                Some(tc) => Some((tc, self.should_skip)),
                None => None,
            },
            State::TestCaseSetup => if self.test_file_idx < self.files().len() {
                match self.files()[self.test_file_idx].setup_test_case {
                    Some(tc) => Some((tc, reset_file_flag(self.should_skip))),
                    None => None,
                }
            } else {
                None
            },
            State::TestCase => if self.test_file_idx < self.files().len() && self.test_case_idx
                < self.files()[self.test_file_idx].test_cases.len() {
                Some(
                    (
                        self.files()[self.test_file_idx].test_cases[self.test_case_idx],
                        self.should_skip,
                    ),
                )
            } else {
                None
            },
            State::TestCaseTeardown => if self.test_file_idx < self.files().len() {
                match self.files()[self.test_file_idx].teardown_test_case {
                    Some(tc) => Some((tc, self.should_skip)),
                    None => None,
                }
            } else {
                None
            },
            State::TestSuiteTeardown => match self.suite.fixture.teardown_test_case {
                Some(tc) => Some((tc, self.should_skip)),
                None => None,
            },
            State::Done => None,
            State::Aborted => None,
        }
    }

    /// The machine after one step.
    pub open spec fn step_state(self) -> VisitorView {
        match self.state {
            State::TestSuiteSetup => VisitorView {
                state: State::TestCaseSetup,
                last_visited: if self.suite.fixture.setup_test_case is Some {
                    LastVisited::SuiteSetup
                } else {
                    LastVisited::Nothing
                },
                ..self
            },
            State::TestCaseSetup => {
                let flag = reset_file_flag(self.should_skip);
                if self.test_file_idx < self.files().len() {
                    VisitorView {
                        state: State::TestCase,
                        test_case_idx: 0,
                        should_skip: flag,
                        last_visited: if self.files()[self.test_file_idx].setup_test_case
                            is Some {
                            LastVisited::FileSetup
                        } else {
                            LastVisited::Nothing
                        },
                        ..self
                    }
                } else {
                    VisitorView {
                        state: State::TestCase,
                        should_skip: flag,
                        last_visited: LastVisited::Nothing,
                        ..self
                    }
                }
            },
            State::TestCase => if self.test_file_idx < self.files().len() && self.test_case_idx
                < self.files()[self.test_file_idx].test_cases.len() {
                VisitorView {
                    test_case_idx: self.test_case_idx + 1,
                    last_visited: LastVisited::Other,
                    ..self
                }
            } else {
                VisitorView {
                    state: State::TestCaseTeardown,
                    last_visited: LastVisited::Nothing,
                    ..self
                }
            },
            State::TestCaseTeardown => if self.test_file_idx < self.files().len() {
                VisitorView {
                    state: State::TestCaseSetup,
                    test_file_idx: self.test_file_idx + 1,
                    last_visited: if self.files()[self.test_file_idx].teardown_test_case
                        is Some {
                        LastVisited::Other
                    } else {
                        LastVisited::Nothing
                    },
                    ..self
                }
            } else {
                VisitorView {
                    state: State::TestSuiteTeardown,
                    last_visited: LastVisited::Nothing,
                    ..self
                }
            },
            State::TestSuiteTeardown => VisitorView {
                state: State::Done,
                last_visited: if self.suite.fixture.teardown_test_case is Some {
                    LastVisited::Other
                } else {
                    LastVisited::Nothing
                },
                ..self
            },
            State::Done => VisitorView { last_visited: LastVisited::Nothing, ..self },
            State::Aborted => VisitorView { last_visited: LastVisited::Nothing, ..self },
        }
    }

    /// The machine after the caller reports that the case yielded by the
    /// preceding step failed: a suite setup failure raises the suite-scoped
    /// flag, a file setup failure the file-scoped flag, and the failure of
    /// any other case raises nothing.
    pub open spec fn fail_state(self) -> VisitorView {
        match self.last_visited {
            LastVisited::SuiteSetup => VisitorView {
                should_skip: self.should_skip.with_reason(SkipReasonView::TestSuiteSetupError),
                ..self
            },
            LastVisited::FileSetup => VisitorView {
                should_skip: self.should_skip.with_reason(SkipReasonView::TestCaseSetupError),
                ..self
            },
            LastVisited::Other => self,
            LastVisited::Nothing => self,
        }
    }

    pub open spec fn is_done(self) -> bool {
        self.state is Done || self.state is Aborted
    }

    /// How many further steps the traversal takes until it reports
    /// completion; visit_next decreases this measure while it is not done.
    pub open spec fn steps_remaining(self) -> int {
        match self.state {
            State::TestSuiteSetup => 1 + steps_from_file(self.files(), 0),
            State::TestCaseSetup => steps_from_file(self.files(), self.test_file_idx),
            State::TestCase => if self.test_file_idx < self.files().len() {
                (self.files()[self.test_file_idx].test_cases.len() - self.test_case_idx) + 2
                    + steps_from_file(self.files(), self.test_file_idx + 1)
            } else {
                3
            },
            State::TestCaseTeardown => if self.test_file_idx < self.files().len() {
                1 + steps_from_file(self.files(), self.test_file_idx + 1)
            } else {
                2
            },
            State::TestSuiteTeardown => 1,
            State::Done => 0,
            State::Aborted => 0,
        }
    }
}

/// Steps taken from the setup of file `i` (inclusive) until completion.
pub open spec fn steps_from_file(files: Seq<TestFileView>, i: int) -> int
    decreases files.len() - i,
{
    if i >= files.len() || i < 0 {
        4
    } else {
        3 + files[i].test_cases.len() + steps_from_file(files, i + 1)
    }
}

pub proof fn lemma_steps_from_file_nonneg(files: Seq<TestFileView>, i: int)
    ensures
        steps_from_file(files, i) >= 4,
    decreases files.len() - i,
{
    if 0 <= i < files.len() {
        lemma_steps_from_file_nonneg(files, i + 1);
    }
}

impl<'ts> Visitor<'ts> {
    pub fn new(test_suite: &'ts TestSuite) -> (res: Self)
        ensures
            res@.suite == test_suite@,
            res@.state is TestSuiteSetup,
            res@.should_skip is No,
            res@.last_visited is Nothing,
            res@.wf(),
            res@.visited_count() == 0,
    {
        Visitor {
            test_suite,
            state: State::TestSuiteSetup,
            test_file_idx: 0,
            test_case_idx: 0,
            should_skip: ShouldSkip::No,
            last_visited: LastVisited::Nothing,
        }
    }

    /// Whether the traversal has reported completion.
    pub fn done(&self) -> (res: bool)
        ensures
            res == self@.is_done(),
    {
        match self.state {
            State::Done => true,
            State::Aborted => true,
            _ => false,
        }
    }

    /// Advance the state machine by one step, yielding the next case of the
    /// canonical order if this step visits one.
    pub fn visit_next(&mut self) -> (res: VisitStep<'ts>)
        requires
            old(self)@.wf(),
        ensures
            final(self)@ == old(self)@.step_state(),
            final(self)@.wf(),
            match res {
                VisitStep::Visited(tc, skip) => old(self)@.step_yield() == Some((tc@, skip@)),
                VisitStep::Advanced => old(self)@.step_yield() is None && !old(self)@.is_done(),
                VisitStep::Finished => old(self)@.is_done(),
            },
    {
        match self.state {
            State::TestSuiteSetup => self.visit_test_suite_setup(),
            State::TestCaseSetup => self.visit_test_case_setup(),
            State::TestCase => self.visit_test_case(),
            State::TestCaseTeardown => self.visit_test_case_teardown(),
            State::TestSuiteTeardown => self.visit_test_suite_teardown(),
            State::Done => {
                self.last_visited = LastVisited::Nothing;
                VisitStep::Finished
            },
            State::Aborted => {
                self.last_visited = LastVisited::Nothing;
                VisitStep::Finished
            },
        }
    }

    /// Record that the case yielded by the immediately preceding step
    /// failed. After a suite setup case this raises the suite-scoped skip
    /// flag, after a file setup case the file-scoped one; failures of test
    /// cases and teardown cases raise nothing.
    pub fn report_failure(&mut self)
        ensures
            final(self)@ == old(self)@.fail_state(),
            old(self)@.wf() ==> final(self)@.wf(),
    {
        match self.last_visited {
            LastVisited::SuiteSetup => self.should_skip.skip_with_reason(
                SkipReason::TestSuiteSetupError,
            ),
            LastVisited::FileSetup => self.should_skip.skip_with_reason(
                SkipReason::TestCaseSetupError,
            ),
            LastVisited::Other => (),
            LastVisited::Nothing => (),
        }
    }

    /// Like `visit_next`, for walks whose per-case work cannot fail: the
    /// pending-feedback marker is cleared, so a later `report_failure`
    /// cannot raise a flag for the case yielded here.
    pub fn visit_next_ok(&mut self) -> (res: VisitStep<'ts>)
        requires
            old(self)@.wf(),
        ensures
            final(self)@ == (VisitorView { last_visited: LastVisited::Nothing, ..old(self)@.step_state() }),
            final(self)@.wf(),
            match res {
                VisitStep::Visited(tc, skip) => old(self)@.step_yield() == Some((tc@, skip@)),
                VisitStep::Advanced => old(self)@.step_yield() is None && !old(self)@.is_done(),
                VisitStep::Finished => old(self)@.is_done(),
            },
    {
        let step = self.visit_next();
        self.last_visited = LastVisited::Nothing;
        step
    }

    fn visit_test_suite_setup(&mut self) -> (res: VisitStep<'ts>)
        requires
            old(self)@.wf(),
            old(self)@.state is TestSuiteSetup,
        ensures
            final(self)@ == old(self)@.step_state(),
            final(self)@.wf(),
            match res {
                VisitStep::Visited(tc, skip) => old(self)@.step_yield() == Some((tc@, skip@)),
                VisitStep::Advanced => old(self)@.step_yield() is None,
                VisitStep::Finished => false,
            },
    {
        let suite = self.test_suite;
        let step = match &suite.fixture().setup_test_case {
            Some(tc) => {
                self.last_visited = LastVisited::SuiteSetup;
                VisitStep::Visited(tc, self.should_skip.clone())
            },
            None => {
                self.last_visited = LastVisited::Nothing;
                VisitStep::Advanced
            },
        };
        self.state = State::TestCaseSetup;
        step
    }

    fn visit_test_case_setup(&mut self) -> (res: VisitStep<'ts>)
        requires
            old(self)@.wf(),
            old(self)@.state is TestCaseSetup,
        ensures
            final(self)@ == old(self)@.step_state(),
            final(self)@.wf(),
            match res {
                VisitStep::Visited(tc, skip) => old(self)@.step_yield() == Some((tc@, skip@)),
                VisitStep::Advanced => old(self)@.step_yield() is None,
                VisitStep::Finished => false,
            },
    {
        // Clear a file-scoped advice left over from the previous file's
        // setup failure; the suite-scoped advice is sticky.
        let reset = match &self.should_skip {
            ShouldSkip::Yes(SkipReason::TestCaseSetupError) => true,
            _ => false,
        };
        if reset {
            self.should_skip = ShouldSkip::No;
        }
        let suite = self.test_suite;
        let files = suite.test_files();
        let step = if self.test_file_idx < files.len() {
            self.test_case_idx = 0;
            match &files[self.test_file_idx].setup_test_case {
                Some(tc) => {
                    self.last_visited = LastVisited::FileSetup;
                    VisitStep::Visited(tc, self.should_skip.clone())
                },
                None => {
                    self.last_visited = LastVisited::Nothing;
                    VisitStep::Advanced
                },
            }
        } else {
            self.last_visited = LastVisited::Nothing;
            VisitStep::Advanced
        };
        self.state = State::TestCase;
        step
    }

    fn visit_test_case(&mut self) -> (res: VisitStep<'ts>)
        requires
            old(self)@.wf(),
            old(self)@.state is TestCase,
        ensures
            final(self)@ == old(self)@.step_state(),
            final(self)@.wf(),
            match res {
                VisitStep::Visited(tc, skip) => old(self)@.step_yield() == Some((tc@, skip@)),
                VisitStep::Advanced => old(self)@.step_yield() is None,
                VisitStep::Finished => false,
            },
    {
        let suite = self.test_suite;
        let files = suite.test_files();
        if self.test_file_idx < files.len() {
            let file = &files[self.test_file_idx];
            if self.test_case_idx < file.test_cases.len() {
                let tc = &file.test_cases[self.test_case_idx];
                self.test_case_idx += 1;
                self.last_visited = LastVisited::Other;
                return VisitStep::Visited(tc, self.should_skip.clone());
            }
        }
        self.state = State::TestCaseTeardown;
        self.last_visited = LastVisited::Nothing;
        VisitStep::Advanced
    }

    fn visit_test_case_teardown(&mut self) -> (res: VisitStep<'ts>)
        requires
            old(self)@.wf(),
            old(self)@.state is TestCaseTeardown,
        ensures
            final(self)@ == old(self)@.step_state(),
            final(self)@.wf(),
            match res {
                VisitStep::Visited(tc, skip) => old(self)@.step_yield() == Some((tc@, skip@)),
                VisitStep::Advanced => old(self)@.step_yield() is None,
                VisitStep::Finished => false,
            },
    {
        let suite = self.test_suite;
        let files = suite.test_files();
        if self.test_file_idx < files.len() {
            let file = &files[self.test_file_idx];
            self.test_file_idx += 1;
            self.state = State::TestCaseSetup;
            match &file.teardown_test_case {
                Some(tc) => {
                    self.last_visited = LastVisited::Other;
                    VisitStep::Visited(tc, self.should_skip.clone())
                },
                None => {
                    self.last_visited = LastVisited::Nothing;
                    VisitStep::Advanced
                },
            }
        } else {
            self.state = State::TestSuiteTeardown;
            self.last_visited = LastVisited::Nothing;
            VisitStep::Advanced
        }
    }

    fn visit_test_suite_teardown(&mut self) -> (res: VisitStep<'ts>)
        requires
            old(self)@.wf(),
            old(self)@.state is TestSuiteTeardown,
        ensures
            final(self)@ == old(self)@.step_state(),
            final(self)@.wf(),
            match res {
                VisitStep::Visited(tc, skip) => old(self)@.step_yield() == Some((tc@, skip@)),
                VisitStep::Advanced => old(self)@.step_yield() is None,
                VisitStep::Finished => false,
            },
    {
        let suite = self.test_suite;
        let step = match &suite.fixture().teardown_test_case {
            Some(tc) => {
                self.last_visited = LastVisited::Other;
                VisitStep::Visited(tc, self.should_skip.clone())
            },
            None => {
                self.last_visited = LastVisited::Nothing;
                VisitStep::Advanced
            },
        };
        self.state = State::Done;
        step
    }
}

/// The visited count of a well-formed visitor never leaves the canonical
/// order's index range.
pub proof fn lemma_visited_count_in_range(v: VisitorView)
    requires
        v.wf(),
    ensures
        0 <= v.visited_count() <= v.suite.cases_in_order().len(),
{
    let files = v.files();
    let total = v.suite.cases_in_order().len() as int;
    match v.state {
        State::TestSuiteSetup => {},
        State::TestCaseSetup => {
            lemma_files_cases_split(files, v.test_file_idx);
        },
        State::TestCase => {
            lemma_files_cases_split(files, v.test_file_idx);
            if v.test_file_idx < files.len() {
                lemma_files_cases_suffix(files, v.test_file_idx);
            }
        },
        State::TestCaseTeardown => {
            lemma_files_cases_split(files, v.test_file_idx);
            if v.test_file_idx < files.len() {
                lemma_files_cases_suffix(files, v.test_file_idx);
            }
        },
        State::TestSuiteTeardown => {},
        State::Done => {},
        State::Aborted => {},
    }
}

/// One step visits the canonical order in order: a yielded case is exactly
/// the next unvisited element, and the visited count advances by one per
/// yielded case. A completed traversal has visited the whole order.
pub proof fn lemma_step_visits_in_order(v: VisitorView)
    requires
        v.wf(),
    ensures
        v.step_state().visited_count() == v.visited_count() + (match v.step_yield() {
            Some(_) => 1int,
            None => 0int,
        }),
        match v.step_yield() {
            Some((tc, skip)) => {
                &&& 0 <= v.visited_count() < v.suite.cases_in_order().len()
                &&& tc == v.suite.cases_in_order()[v.visited_count()]
            },
            None => true,
        },
        v.is_done() ==> v.visited_count() == v.suite.cases_in_order().len(),
{
    let files = v.files();
    let i = v.test_file_idx;
    let cases = v.suite.cases_in_order();
    let suite_setup = opt_case_seq(v.suite.fixture.setup_test_case);
    let suite_teardown = opt_case_seq(v.suite.fixture.teardown_test_case);
    match v.state {
        State::TestSuiteSetup => {
            assert(files.take(0) =~= Seq::<TestFileView>::empty());
            assert(files_cases(Seq::<TestFileView>::empty()) == Seq::<TestCaseView>::empty());
            assert(v.step_state().visited_count() == suite_setup.len());
        },
        State::TestCaseSetup => {
            lemma_files_cases_split(files, i);
            if i < files.len() {
                lemma_files_cases_suffix(files, i);
            } else {
                assert(files.take(i) =~= files);
            }
        },
        State::TestCase => {
            lemma_files_cases_split(files, i);
            if i < files.len() {
                lemma_files_cases_suffix(files, i);
            } else {
                assert(files.take(i) =~= files);
            }
        },
        State::TestCaseTeardown => {
            lemma_files_cases_split(files, i);
            if i < files.len() {
                lemma_files_cases_suffix(files, i);
                lemma_files_cases_take_succ(files, i);
            } else {
                assert(files.take(i) =~= files);
            }
        },
        State::TestSuiteTeardown => {},
        State::Done => {},
        State::Aborted => {},
    }
}

/// While the traversal is not done, each step strictly decreases the number
/// of remaining steps.
pub proof fn lemma_step_decreases(v: VisitorView)
    requires
        v.wf(),
    ensures
        v.steps_remaining() >= 0,
        !v.is_done() ==> v.step_state().steps_remaining() < v.steps_remaining(),
{
    let files = v.files();
    match v.state {
        State::TestSuiteSetup => {
            lemma_steps_from_file_nonneg(files, 0);
        },
        State::TestCaseSetup => {
            lemma_steps_from_file_nonneg(files, v.test_file_idx);
            if v.test_file_idx < files.len() {
                lemma_steps_from_file_nonneg(files, v.test_file_idx + 1);
            }
        },
        State::TestCase => {
            if v.test_file_idx < files.len() {
                lemma_steps_from_file_nonneg(files, v.test_file_idx + 1);
            }
        },
        State::TestCaseTeardown => {
            if v.test_file_idx < files.len() {
                lemma_steps_from_file_nonneg(files, v.test_file_idx + 1);
            }
        },
        State::TestSuiteTeardown => {},
        State::Done => {},
        State::Aborted => {},
    }
}

/// Two traversal machines at the same position: they agree on everything
/// that determines which case a step yields and where the machine goes
/// next; only their skip advice and feedback marker may differ.
pub open spec fn same_position(a: VisitorView, b: VisitorView) -> bool {
    &&& a.suite == b.suite
    &&& a.state == b.state
    &&& a.test_file_idx == b.test_file_idx
    &&& a.test_case_idx == b.test_case_idx
}

/// Machines at the same position move in lockstep: they stay at the same
/// position after a step, yield at the same steps, yield the same case,
/// and agree on progress and completion.
pub proof fn lemma_same_position_step(a: VisitorView, b: VisitorView)
    requires
        same_position(a, b),
    ensures
        same_position(a.step_state(), b.step_state()),
        (a.step_yield() is Some) == (b.step_yield() is Some),
        match (a.step_yield(), b.step_yield()) {
            (Some(x), Some(y)) => x.0 == y.0,
            _ => true,
        },
        a.visited_count() == b.visited_count(),
        a.steps_remaining() == b.steps_remaining(),
        a.is_done() == b.is_done(),
{
}

/// A failure report leaves the machine's position unchanged.
pub proof fn lemma_fail_keeps_position(v: VisitorView)
    ensures
        same_position(v.fail_state(), v),
        v.wf() ==> v.fail_state().wf(),
{
}

/// One caller-visible operation on a traversal: one step of `visit_next`, or
/// one `report_failure`.
pub ghost enum TraversalOp {
    Step,
    Report,
}

/// The machine after one operation.
pub open spec fn apply_op(v: VisitorView, op: TraversalOp) -> VisitorView {
    match op {
        TraversalOp::Step => v.step_state(),
        TraversalOp::Report => v.fail_state(),
    }
}

/// The machine after a sequence of operations.
pub open spec fn apply_ops(v: VisitorView, ops: Seq<TraversalOp>) -> VisitorView
    decreases ops.len(),
{
    if ops.len() == 0 {
        v
    } else {
        apply_ops(apply_op(v, ops[0]), ops.drop_first())
    }
}

pub proof fn lemma_apply_ops_snoc(v: VisitorView, ops: Seq<TraversalOp>, op: TraversalOp)
    ensures
        apply_ops(v, ops.push(op)) == apply_op(apply_ops(v, ops), op),
    decreases ops.len(),
{
    if ops.len() == 0 {
        assert(ops.push(op).drop_first() =~= Seq::<TraversalOp>::empty());
        assert(ops.push(op)[0] == op);
        assert(apply_ops(apply_op(v, op), Seq::<TraversalOp>::empty()) == apply_op(v, op));
        assert(apply_ops(v, Seq::<TraversalOp>::empty()) == v);
    } else {
        assert(ops.push(op)[0] == ops[0]);
        assert(ops.push(op).drop_first() =~= ops.drop_first().push(op));
        lemma_apply_ops_snoc(apply_op(v, ops[0]), ops.drop_first(), op);
    }
}

/// Reporting a failure right after the suite's setup case was yielded raises
/// the advice to yes(test-suite-setup-error), whatever it was before.
pub proof fn lemma_suite_setup_failure_raises_flag(v: VisitorView)
    requires
        v.last_visited is SuiteSetup,
    ensures
        v.fail_state().should_skip == ShouldSkipView::Yes(SkipReasonView::TestSuiteSetupError),
{
}

/// A suite setup failure skips the rest of the traversal: once the advice is
/// yes(test-suite-setup-error) it is sticky under any further sequence of
/// steps and failure reports, and every case such a machine ever yields --
/// every file's setup, every test case, every teardown and the suite
/// teardown -- carries exactly that advice.
pub proof fn lemma_suite_setup_failure_skips_rest(v: VisitorView, ops: Seq<TraversalOp>)
    requires
        v.should_skip == ShouldSkipView::Yes(SkipReasonView::TestSuiteSetupError),
    ensures
        apply_ops(v, ops).should_skip == ShouldSkipView::Yes(SkipReasonView::TestSuiteSetupError),
        match apply_ops(v, ops).step_yield() {
            Some(yielded) => yielded.1 == ShouldSkipView::Yes(SkipReasonView::TestSuiteSetupError),
            None => true,
        },
    decreases ops.len(),
{
    if ops.len() > 0 {
        lemma_suite_setup_failure_skips_rest(apply_op(v, ops[0]), ops.drop_first());
    }
}

/// Failures of ordinary test cases and of teardown cases raise no skip flag.
pub proof fn lemma_case_failure_raises_nothing(v: VisitorView)
    requires
        v.last_visited is Other || v.last_visited is Nothing,
    ensures
        v.fail_state() == v,
{
}

/// Reporting a failure right after a file's setup case was yielded raises
/// the file-scoped advice yes(test-case-setup-error), provided the sticky
/// suite-scoped advice does not already stand.
pub proof fn lemma_file_setup_failure_raises_flag(v: VisitorView)
    requires
        v.last_visited is FileSetup,
        v.should_skip is No || v.should_skip == ShouldSkipView::Yes(
            SkipReasonView::TestCaseSetupError,
        ),
    ensures
        v.fail_state().should_skip == ShouldSkipView::Yes(SkipReasonView::TestCaseSetupError),
{
}

/// A sequence of `j` plain steps.
pub open spec fn step_ops(j: int) -> Seq<TraversalOp> {
    Seq::new(j as nat, |k: int| TraversalOp::Step)
}

/// The yield visits exactly the case of an optional fixture slot -- none if
/// the slot is empty -- carrying the given advice.
pub open spec fn yields_slot_with(
    yielded: Option<(TestCaseView, ShouldSkipView)>,
    slot: Option<TestCaseView>,
    advice: ShouldSkipView,
) -> bool {
    match slot {
        Some(tc) => yielded == Some((tc, advice)),
        None => yielded is None,
    }
}

/// Stepping through the test cases of the current file leaves the machine in
/// the same file with the same advice.
proof fn lemma_steps_stay_in_file(v: VisitorView, j: int)
    requires
        v.wf(),
        v.state is TestCase,
        0 <= v.test_file_idx < v.files().len(),
        0 <= j <= v.files()[v.test_file_idx].test_cases.len() - v.test_case_idx,
    ensures
        ({
            let w = apply_ops(v, step_ops(j));
            &&& w.wf()
            &&& w.state is TestCase
            &&& w.suite == v.suite
            &&& w.test_file_idx == v.test_file_idx
            &&& w.test_case_idx == v.test_case_idx + j
            &&& w.should_skip == v.should_skip
        }),
    decreases j,
{
    if j == 0 {
        assert(step_ops(0) =~= Seq::<TraversalOp>::empty());
    } else {
        assert(step_ops(j)[0] == TraversalOp::Step);
        assert(step_ops(j).drop_first() =~= step_ops(j - 1));
        lemma_steps_stay_in_file(v.step_state(), j - 1);
    }
}

/// A file setup failure is contained to its own file: from the machine state
/// right after file `i`'s setup failure was reported -- advice
/// yes(test-case-setup-error), the suite setup not having failed -- each of
/// file `i`'s own test cases and its teardown case is yielded with
/// yes(test-case-setup-error), while the next file's setup case is yielded
/// with advice `no`.
pub proof fn lemma_file_setup_failure_contained(v: VisitorView, j: int)
    requires
        v.wf(),
        v.state is TestCase,
        0 <= v.test_file_idx < v.files().len(),
        v.test_case_idx == 0,
        v.should_skip == ShouldSkipView::Yes(SkipReasonView::TestCaseSetupError),
        0 <= j,
    ensures
        ({
            let file = v.files()[v.test_file_idx];
            let w = apply_ops(v, step_ops(j));
            &&& (j < file.test_cases.len() ==> w.step_yield() == Some(
                ((file.test_cases[j], ShouldSkipView::Yes(SkipReasonView::TestCaseSetupError))),
            ))
            &&& (j == file.test_cases.len() ==> w.step_yield() is None)
            &&& (j == file.test_cases.len() + 1 ==> yields_slot_with(
                w.step_yield(),
                file.teardown_test_case,
                ShouldSkipView::Yes(SkipReasonView::TestCaseSetupError),
            ))
            &&& (j == file.test_cases.len() + 2 && v.test_file_idx + 1 < v.files().len()
                ==> yields_slot_with(
                w.step_yield(),
                v.files()[v.test_file_idx + 1].setup_test_case,
                ShouldSkipView::No,
            ))
            &&& (j == file.test_cases.len() + 2 && v.test_file_idx + 1 == v.files().len()
                ==> w.step_yield() is None)
        }),
{
    let file = v.files()[v.test_file_idx];
    let n = file.test_cases.len() as int;
    if j < n {
        lemma_steps_stay_in_file(v, j);
    } else if j == n {
        lemma_steps_stay_in_file(v, n);
    } else if j == n + 1 {
        lemma_steps_stay_in_file(v, n);
        assert(step_ops(n + 1) =~= step_ops(n).push(TraversalOp::Step));
        lemma_apply_ops_snoc(v, step_ops(n), TraversalOp::Step);
    } else if j == n + 2 {
        lemma_steps_stay_in_file(v, n);
        assert(step_ops(n + 1) =~= step_ops(n).push(TraversalOp::Step));
        lemma_apply_ops_snoc(v, step_ops(n), TraversalOp::Step);
        assert(step_ops(n + 2) =~= step_ops(n + 1).push(TraversalOp::Step));
        lemma_apply_ops_snoc(v, step_ops(n + 1), TraversalOp::Step);
    }
}

impl<'ts> Visitor<'ts> {
    /// Visit every case the traversal has not yielded yet, in canonical
    /// order, without running anything and without reporting any failure.
    /// Started on a fresh visitor this enumerates exactly the suite's
    /// canonical case order: the suite setup case, then every file's setup,
    /// cases and teardown in file order, then the suite teardown case.
    pub fn visit_all_ok(&mut self) -> (res: Vec<&'ts TestCase>)
        requires
            old(self)@.wf(),
        ensures
            final(self)@.wf(),
            final(self)@.is_done(),
            final(self)@.suite == old(self)@.suite,
            res.deep_view() == old(self)@.suite.cases_in_order().skip(
                old(self)@.visited_count(),
            ),
            old(self)@.state is TestSuiteSetup ==> res.deep_view()
                == old(self)@.suite.cases_in_order(),
    {
        let ghost start = self@;
        let ghost cases = start.suite.cases_in_order();
        let mut res: Vec<&'ts TestCase> = Vec::new();
        proof {
            lemma_visited_count_in_range(start);
        }
        loop
            invariant
                self@.wf(),
                self@.suite == start.suite,
                cases == start.suite.cases_in_order(),
                0 <= start.visited_count() <= self@.visited_count() <= cases.len(),
                start.visited_count() + res@.len() == self@.visited_count(),
                res.deep_view() =~= cases.subrange(start.visited_count(), self@.visited_count()),
            ensures
                self@.wf(),
                self@.suite == start.suite,
                self@.is_done(),
                start.visited_count() + res@.len() == self@.visited_count(),
                res.deep_view() =~= cases.subrange(start.visited_count(), self@.visited_count()),
            decreases self@.steps_remaining(),
        {
            let ghost prev = self@;
            proof {
                lemma_step_visits_in_order(prev);
                lemma_step_decreases(prev);
                lemma_visited_count_in_range(prev);
            }
            match self.visit_next() {
                VisitStep::Visited(tc, _skip) => {
                    proof {
                        lemma_visited_count_in_range(self@);
                    }
                    res.push(tc);
                    assert(res.deep_view() =~= cases.subrange(
                        start.visited_count(),
                        self@.visited_count(),
                    ));
                },
                VisitStep::Advanced => {},
                VisitStep::Finished => {
                    break;
                },
            }
            proof {
                lemma_step_decreases(self@);
            }
        }
        proof {
            lemma_step_visits_in_order(self@);
            assert(self@.visited_count() == cases.len());
            assert(res.deep_view() =~= cases.skip(start.visited_count()));
            if start.state is TestSuiteSetup {
                assert(res.deep_view() =~= cases);
            }
        }
        res
    }
}

} // verus!
