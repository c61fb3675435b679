use vstd::prelude::*;

verus! {

/// Derived counts of terminal test-case outcomes, computed on demand from an
/// execution context's records and never stored redundantly.
#[derive(Debug, Clone, Copy, PartialEq, Eq, Structural)]
pub struct Statistics {
    pub passed: usize,
    pub failed: usize,
    pub runner_failed: usize,
    pub skipped: usize,
}

impl Statistics {
    pub fn total(&self) -> (res: usize)
        requires
            self.passed + self.failed + self.runner_failed + self.skipped <= usize::MAX,
        ensures
            res == self.passed + self.failed + self.runner_failed + self.skipped,
    {
        self.passed + self.failed + self.runner_failed + self.skipped
    }

    /// The largest of the four counts.
    pub fn max(&self) -> (res: usize)
        ensures
            res >= self.passed && res >= self.failed && res >= self.runner_failed
                && res >= self.skipped,
            res == self.passed || res == self.failed || res == self.runner_failed
                || res == self.skipped,
    {
        let mut res = self.passed;
        if self.failed > res {
            res = self.failed;
        }
        if self.runner_failed > res {
            res = self.runner_failed;
        }
        if self.skipped > res {
            res = self.skipped;
        }
        res
    }
}

/// Why a test case is advised to be skipped. Variants are ordered from the
/// lowest precedence to the highest: when two reasons could apply to the same
/// case, the higher-ranked one wins and is the one reported.
#[derive(Debug, PartialEq, Eq, PartialOrd, Ord)]
pub enum SkipReason {
    /// An explicit, driver-supplied message attached to one test case.
    TestCaseSpecificReason(String),
    /// The setup case of the enclosing test file failed.
    TestCaseSetupError,
    /// The setup case of the whole suite failed.
    TestSuiteSetupError,
}

/// The mathematical value of a `SkipReason`.
pub ghost enum SkipReasonView {
    TestCaseSpecificReason(Seq<char>),
    TestCaseSetupError,
    TestSuiteSetupError,
}

impl SkipReasonView {
    /// Precedence of a reason; a higher rank wins.
    pub open spec fn rank(self) -> int {
        match self {
            SkipReasonView::TestCaseSpecificReason(_) => 0,
            SkipReasonView::TestCaseSetupError => 1,
            SkipReasonView::TestSuiteSetupError => 2,
        }
    }
}

impl View for SkipReason {
    type V = SkipReasonView;

    open spec fn view(&self) -> SkipReasonView {
        match self {
            SkipReason::TestCaseSpecificReason(msg) => SkipReasonView::TestCaseSpecificReason(
                msg@,
            ),
            SkipReason::TestCaseSetupError => SkipReasonView::TestCaseSetupError,
            SkipReason::TestSuiteSetupError => SkipReasonView::TestSuiteSetupError,
        }
    }
}

impl SkipReason {
    /// Precedence of a reason; a higher rank wins.
    pub fn rank(&self) -> (res: u8)
        ensures
            res as int == self@.rank(),
    {
        match self {
            SkipReason::TestCaseSpecificReason(_) => 0,
            SkipReason::TestCaseSetupError => 1,
            SkipReason::TestSuiteSetupError => 2,
        }
    }
}

/// The status of one test case inside one execution context.
#[derive(Debug, PartialEq, Eq)]
pub enum TestCaseStatus {
    /// Not attempted yet; every record starts here and never returns here.
    NotRun,
    /// Being attempted; carries no payload, the fresh start time lives in the
    /// record's duration interval.
    Running,
    /// The driver ran the case and the case reported failure.
    Failed,
    /// The driver ran the case and the case passed.
    Passed,
    /// The case was not handed to the driver, for the recorded reason.
    Skipped(SkipReason),
    /// Listed but deliberately not executed.
    DryRun,
}

/// The mathematical value of a `TestCaseStatus`.
pub ghost enum TestCaseStatusView {
    NotRun,
    Running,
    Failed,
    Passed,
    Skipped(SkipReasonView),
    DryRun,
}

impl View for TestCaseStatus {
    type V = TestCaseStatusView;

    open spec fn view(&self) -> TestCaseStatusView {
        match self {
            TestCaseStatus::NotRun => TestCaseStatusView::NotRun,
            TestCaseStatus::Running => TestCaseStatusView::Running,
            TestCaseStatus::Failed => TestCaseStatusView::Failed,
            TestCaseStatus::Passed => TestCaseStatusView::Passed,
            TestCaseStatus::Skipped(reason) => TestCaseStatusView::Skipped(reason@),
            TestCaseStatus::DryRun => TestCaseStatusView::DryRun,
        }
    }
}

/// The overall status of one suite's run within one execution context.
#[derive(Debug, PartialEq, Eq)]
pub enum TestSuiteStatus {
    NotRun,
    Running,
    Aborted(String),
    Finished,
}

/// The mathematical value of a `TestSuiteStatus`.
pub ghost enum TestSuiteStatusView {
    NotRun,
    Running,
    Aborted(Seq<char>),
    Finished,
}

impl View for TestSuiteStatus {
    type V = TestSuiteStatusView;

    open spec fn view(&self) -> TestSuiteStatusView {
        match self {
            TestSuiteStatus::NotRun => TestSuiteStatusView::NotRun,
            TestSuiteStatus::Running => TestSuiteStatusView::Running,
            TestSuiteStatus::Aborted(reason) => TestSuiteStatusView::Aborted(reason@),
            TestSuiteStatus::Finished => TestSuiteStatusView::Finished,
        }
    }
}

impl Clone for SkipReason {
    fn clone(&self) -> (res: Self)
        ensures
            res@ == self@,
    {
        match self {
            SkipReason::TestCaseSpecificReason(msg) => SkipReason::TestCaseSpecificReason(
                msg.clone(),
            ),
            SkipReason::TestCaseSetupError => SkipReason::TestCaseSetupError,
            SkipReason::TestSuiteSetupError => SkipReason::TestSuiteSetupError,
        }
    }
}

impl Clone for TestCaseStatus {
    fn clone(&self) -> (res: Self)
        ensures
            res@ == self@,
    {
        match self {
            TestCaseStatus::NotRun => TestCaseStatus::NotRun,
            TestCaseStatus::Running => TestCaseStatus::Running,
            TestCaseStatus::Failed => TestCaseStatus::Failed,
            TestCaseStatus::Passed => TestCaseStatus::Passed,
            TestCaseStatus::Skipped(reason) => TestCaseStatus::Skipped(reason.clone()),
            TestCaseStatus::DryRun => TestCaseStatus::DryRun,
        }
    }
}

impl Clone for TestSuiteStatus {
    fn clone(&self) -> (res: Self)
        ensures
            res@ == self@,
    {
        match self {
            TestSuiteStatus::NotRun => TestSuiteStatus::NotRun,
            TestSuiteStatus::Running => TestSuiteStatus::Running,
            TestSuiteStatus::Aborted(reason) => TestSuiteStatus::Aborted(reason.clone()),
            TestSuiteStatus::Finished => TestSuiteStatus::Finished,
        }
    }
}

} // verus!
