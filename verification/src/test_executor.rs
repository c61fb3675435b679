pub mod round_robin;
pub mod sequential;

use vstd::prelude::*;

use crate::error::{Error, ErrorView};
use crate::reporter::Reporter;
use crate::test_driver::TestDriver;
use crate::test_suite::status::{
    Statistics, TestCaseStatus, TestCaseStatusView, TestSuiteStatus, TestSuiteStatusView,
};
use crate::test_suite::visitor::{ShouldSkip, ShouldSkipView, Visitor};
use crate::test_suite::{TestCase, TestSuite};
use crate::time::TimeInterval;

verus! {

/// The mathematical value of a `Result<TestCaseStatus, Error>`.
pub open spec fn result_view(result: Result<TestCaseStatus, Error>) -> Result<
    TestCaseStatusView,
    ErrorView,
> {
    match result {
        Ok(status) => Ok(status@),
        Err(err) => Err(err@),
    }
}

/// Per-case execution record: the outcome so far, the measured span, and
/// the output directory assigned to the case.
#[derive(Debug)]
pub struct TestCaseExecInfo {
    result: Result<TestCaseStatus, Error>,
    duration: TimeInterval,
    out_dir: String,
}

/// The mathematical value of a `TestCaseExecInfo`.
pub ghost struct TestCaseExecInfoView {
    pub result: Result<TestCaseStatusView, ErrorView>,
    pub stopped: bool,
    pub out_dir: Seq<char>,
}

impl TestCaseExecInfoView {
    /// The record holds a terminal outcome: the case was run, skipped, or
    /// its runner failed.
    pub open spec fn is_terminal(self) -> bool {
        match self.result {
            Ok(status) => !(status is NotRun || status is Running),
            Err(_) => true,
        }
    }
}

impl View for TestCaseExecInfo {
    type V = TestCaseExecInfoView;

    closed spec fn view(&self) -> TestCaseExecInfoView {
        TestCaseExecInfoView {
            result: result_view(self.result),
            stopped: self.duration.spec_stopped(),
            out_dir: self.out_dir@,
        }
    }
}

impl DeepView for TestCaseExecInfo {
    type V = TestCaseExecInfoView;

    open spec fn deep_view(&self) -> TestCaseExecInfoView {
        self.view()
    }
}

impl TestCaseExecInfo {
    /// A fresh record: not run, interval open.
    pub fn new(out_dir: String) -> (res: Self)
        ensures
            res@.result == Result::<TestCaseStatusView, ErrorView>::Ok(TestCaseStatusView::NotRun),
            !res@.stopped,
            res@.out_dir == out_dir@,
    {
        TestCaseExecInfo {
            result: Ok(TestCaseStatus::NotRun),
            duration: TimeInterval::new(),
            out_dir,
        }
    }

    /// Record a new outcome. A record never returns to not-run once it has
    /// left it; recording `Running` restarts the record's interval, any
    /// other outcome closes it.
    pub fn set_result(&mut self, result: Result<TestCaseStatus, Error>)
        requires
            result_view(result) != Result::<TestCaseStatusView, ErrorView>::Ok(
                TestCaseStatusView::NotRun,
            ),
        ensures
            final(self)@.result == result_view(result),
            final(self)@.out_dir == old(self)@.out_dir,
            final(self)@.stopped == !(result_view(result) == Result::<
                TestCaseStatusView,
                ErrorView,
            >::Ok(TestCaseStatusView::Running)),
    {
        let restart = matches!(result, Ok(TestCaseStatus::Running));
        self.result = result;
        if restart {
            self.duration = TimeInterval::new();
        } else {
            let _span = self.duration.stop();
        }
    }

    /// The recorded outcome.
    pub fn result(&self) -> (res: &Result<TestCaseStatus, Error>)
        ensures
            result_view(*res) == self@.result,
    {
        &self.result
    }

    /// Where the case's logs are to be written.
    pub fn out_dir(&self) -> (res: &str)
        ensures
            res@ == self@.out_dir,
    {
        self.out_dir.as_str()
    }

    /// The measured span, present once the outcome is terminal.
    pub fn elapsed(&self) -> (res: Option<core::time::Duration>)
        ensures
            res is Some <==> self@.stopped,
    {
        self.duration.elapsed()
    }
}

/// The output directory assigned to one case: the global output root, then
/// the target, then the case's file path.
pub fn test_case_out_dir(global_out_dir: &str, target: &str, test_case: &TestCase) -> (res:
    String)
    ensures
        res@ == global_out_dir@ + "/"@ + target@ + "/"@ + test_case@.path,
{
    let mut dir = global_out_dir.to_owned();
    dir.append("/");
    dir.append(target);
    dir.append("/");
    dir.append(test_case.path());
    dir
}

/// How many records hold a passed outcome.
pub open spec fn count_passed(recs: Seq<TestCaseExecInfoView>) -> int
    decreases recs.len(),
{
    if recs.len() == 0 {
        0
    } else {
        count_passed(recs.drop_last()) + if recs.last().result == Result::<
            TestCaseStatusView,
            ErrorView,
        >::Ok(TestCaseStatusView::Passed) {
            1int
        } else {
            0int
        }
    }
}

/// How many records hold a failed outcome.
pub open spec fn count_failed(recs: Seq<TestCaseExecInfoView>) -> int
    decreases recs.len(),
{
    if recs.len() == 0 {
        0
    } else {
        count_failed(recs.drop_last()) + if recs.last().result == Result::<
            TestCaseStatusView,
            ErrorView,
        >::Ok(TestCaseStatusView::Failed) {
            1int
        } else {
            0int
        }
    }
}

/// How many records hold a runner failure.
pub open spec fn count_runner_failed(recs: Seq<TestCaseExecInfoView>) -> int
    decreases recs.len(),
{
    if recs.len() == 0 {
        0
    } else {
        count_runner_failed(recs.drop_last()) + if recs.last().result is Err {
            1int
        } else {
            0int
        }
    }
}

/// Whether a record's outcome counts as skipped: advised or driver-reported
/// skips, and dry runs.
pub open spec fn is_skipped_outcome(rec: TestCaseExecInfoView) -> bool {
    match rec.result {
        Ok(status) => status is Skipped || status is DryRun,
        Err(_) => false,
    }
}

/// How many records hold a skipped outcome.
pub open spec fn count_skipped(recs: Seq<TestCaseExecInfoView>) -> int
    decreases recs.len(),
{
    if recs.len() == 0 {
        0
    } else {
        count_skipped(recs.drop_last()) + if is_skipped_outcome(recs.last()) {
            1int
        } else {
            0int
        }
    }
}

/// Per-(suite, target) execution bookkeeping: the target's name, the
/// overall suite-level status, and one record per case of the suite's
/// canonical order, indexed by the case's position in that order. A ghost
/// counter tracks how often `run` has been invoked on this context, so a
/// strategy's contract can count its case executions.
pub struct ExecutionContext {
    target: String,
    status: TestSuiteStatus,
    exec_info: Vec<TestCaseExecInfo>,
    runs: Ghost<int>,
}

/// The mathematical value of an `ExecutionContext`.
pub ghost struct ExecutionContextView {
    pub target: Seq<char>,
    pub status: TestSuiteStatusView,
    pub exec_info: Seq<TestCaseExecInfoView>,
    pub runs: int,
}

impl View for ExecutionContext {
    type V = ExecutionContextView;

    closed spec fn view(&self) -> ExecutionContextView {
        ExecutionContextView {
            target: self.target@,
            status: self.status@,
            exec_info: self.exec_info.deep_view(),
            runs: self.runs@,
        }
    }
}

impl ExecutionContext {
    /// A fresh context for one target: one not-run record per case of the
    /// suite's canonical order, each with its interval still open and its
    /// output directory `<out_dir>/<target>/<case's file path>`; no case
    /// has been run yet.
    pub fn new(test_suite: &TestSuite, target: String, out_dir: &str) -> (res: Self)
        ensures
            res@.target == target@,
            res@.status is NotRun,
            res@.runs == 0,
            res@.exec_info.len() == test_suite@.cases_in_order().len(),
            forall|k: int|
                0 <= k < res@.exec_info.len() ==> {
                    let rec = #[trigger] res@.exec_info[k];
                    &&& rec.result == Result::<TestCaseStatusView, ErrorView>::Ok(
                        TestCaseStatusView::NotRun,
                    )
                    &&& !rec.stopped
                    &&& rec.out_dir == out_dir@ + "/"@ + target@ + "/"@
                        + test_suite@.cases_in_order()[k].path
                },
    {
        let mut visitor = Visitor::new(test_suite);
        let cases = visitor.visit_all_ok();
        let mut exec_info: Vec<TestCaseExecInfo> = Vec::new();
        let mut k: usize = 0;
        while k < cases.len()
            invariant
                cases.deep_view() == test_suite@.cases_in_order(),
                k <= cases@.len(),
                exec_info@.len() == k,
                forall|j: int|
                    0 <= j < k ==> {
                        let rec = (#[trigger] exec_info@[j])@;
                        &&& rec.result == Result::<TestCaseStatusView, ErrorView>::Ok(
                            TestCaseStatusView::NotRun,
                        )
                        &&& !rec.stopped
                        &&& rec.out_dir == out_dir@ + "/"@ + target@ + "/"@
                            + test_suite@.cases_in_order()[j].path
                    },
            decreases cases@.len() - k,
        {
            let case_dir = test_case_out_dir(out_dir, target.as_str(), cases[k]);
            exec_info.push(TestCaseExecInfo::new(case_dir));
            k += 1;
        }
        ExecutionContext {
            target,
            status: TestSuiteStatus::NotRun,
            exec_info,
            runs: Ghost(0int),
        }
    }

    /// The target this context belongs to.
    pub fn target(&self) -> (res: &str)
        ensures
            res@ == self@.target,
    {
        self.target.as_str()
    }

    /// The overall suite-level status for this target.
    pub fn status(&self) -> (res: TestSuiteStatus)
        ensures
            res@ == self@.status,
    {
        self.status.clone()
    }

    pub fn set_test_suite_status(&mut self, status: TestSuiteStatus)
        ensures
            final(self)@.status == status@,
            final(self)@.target == old(self)@.target,
            final(self)@.exec_info == old(self)@.exec_info,
            final(self)@.runs == old(self)@.runs,
    {
        self.status = status;
    }

    /// The per-case records, in the canonical case order of the suite the
    /// context was created for.
    pub fn exec_info(&self) -> (res: &Vec<TestCaseExecInfo>)
        ensures
            res.deep_view() == self@.exec_info,
    {
        &self.exec_info
    }

    /// Run one case: mark its record running, notify the reporter, then
    /// either record the advised skip without invoking the driver, or
    /// invoke the driver and record what it reported -- a runner failure as
    /// its own outcome, never conflated with a test failure. Returns `Err`
    /// exactly when the case failed or the runner failed; the default
    /// strategies use that signal only to report setup failures back to
    /// their traversal, never to short-circuit. Each call counts as one
    /// case execution of this context.
    pub fn run<D: TestDriver, R: Reporter>(
        &mut self,
        reporter: &R,
        test_driver: &D,
        test_suite: &TestSuite,
        test_case: &TestCase,
        case_idx: usize,
        should_skip: ShouldSkip,
    ) -> (res: Result<(), ()>)
        requires
            case_idx < old(self)@.exec_info.len(),
        ensures
            final(self)@.target == old(self)@.target,
            final(self)@.status == old(self)@.status,
            final(self)@.runs == old(self)@.runs + 1,
            final(self)@.exec_info.len() == old(self)@.exec_info.len(),
            forall|j: int|
                0 <= j < old(self)@.exec_info.len() && j != case_idx
                    ==> final(self)@.exec_info[j] == old(self)@.exec_info[j],
            ({
                let rec = final(self)@.exec_info[case_idx as int];
                &&& rec.out_dir == old(self)@.exec_info[case_idx as int].out_dir
                &&& rec.stopped
                &&& rec.is_terminal()
                &&& match should_skip@ {
                    ShouldSkipView::Yes(reason) => rec.result == Result::<
                        TestCaseStatusView,
                        ErrorView,
                    >::Ok(TestCaseStatusView::Skipped(reason)),
                    ShouldSkipView::No => rec.result is Err || (match rec.result {
                        Ok(status) => status is Passed || status is Failed || status is Skipped,
                        Err(_) => true,
                    }),
                }
                &&& (res is Err <==> (rec.result is Err || rec.result == Result::<
                    TestCaseStatusView,
                    ErrorView,
                >::Ok(TestCaseStatusView::Failed)))
            }),
    {
        self.runs = Ghost(self.runs@ + 1);
        let record = &mut self.exec_info[case_idx];
        record.set_result(Ok(TestCaseStatus::Running));
        reporter.report_test_case_execution_started(
            test_case,
            self.target.as_str(),
            &self.exec_info[case_idx],
        );
        let result: Result<TestCaseStatus, Error> = match should_skip {
            ShouldSkip::Yes(reason) => Ok(TestCaseStatus::Skipped(reason)),
            ShouldSkip::No => {
                match test_driver.run_test(
                    test_suite.path(),
                    test_suite.config(),
                    self.target.as_str(),
                    test_case,
                    self.exec_info[case_idx].out_dir(),
                ) {
                    Ok(output) => Ok(output.test_case_status),
                    Err(err) => Err(err),
                }
            },
        };
        let record = &mut self.exec_info[case_idx];
        record.set_result(result);
        reporter.report_test_case_execution_result(
            test_case,
            self.target.as_str(),
            &self.exec_info[case_idx],
        );
        match &self.exec_info[case_idx].result {
            Err(_) => Err(()),
            Ok(TestCaseStatus::Failed) => Err(()),
            _ => Ok(()),
        }
    }

    /// Recompute the statistics from the current records: how many cases
    /// passed, failed, had their runner fail, and were skipped. Safe to
    /// call at any time; records that are not yet terminal count nowhere,
    /// so the four counts never exceed the number of cases.
    pub fn get_statistics(&self) -> (res: Statistics)
        ensures
            res.passed == count_passed(self@.exec_info),
            res.failed == count_failed(self@.exec_info),
            res.runner_failed == count_runner_failed(self@.exec_info),
            res.skipped == count_skipped(self@.exec_info),
            res.passed + res.failed + res.runner_failed + res.skipped <= self@.exec_info.len(),
    {
        let mut stats = Statistics { passed: 0, failed: 0, runner_failed: 0, skipped: 0 };
        let mut k: usize = 0;
        while k < self.exec_info.len()
            invariant
                k <= self@.exec_info.len(),
                stats.passed == count_passed(self@.exec_info.take(k as int)),
                stats.failed == count_failed(self@.exec_info.take(k as int)),
                stats.runner_failed == count_runner_failed(self@.exec_info.take(k as int)),
                stats.skipped == count_skipped(self@.exec_info.take(k as int)),
                stats.passed + stats.failed + stats.runner_failed + stats.skipped <= k,
            decreases self@.exec_info.len() - k,
        {
            proof {
                assert(self@.exec_info.take(k + 1).drop_last() =~= self@.exec_info.take(
                    k as int,
                ));
                assert(self@.exec_info.take(k + 1).last() == self@.exec_info[k as int]);
            }
            match &self.exec_info[k].result {
                Ok(TestCaseStatus::Passed) => {
                    stats.passed += 1;
                },
                Ok(TestCaseStatus::Failed) => {
                    stats.failed += 1;
                },
                Ok(TestCaseStatus::Skipped(_)) => {
                    stats.skipped += 1;
                },
                Ok(TestCaseStatus::DryRun) => {
                    stats.skipped += 1;
                },
                Err(_) => {
                    stats.runner_failed += 1;
                },
                _ => {},
            }
            k += 1;
        }
        proof {
            assert(self@.exec_info.take(self@.exec_info.len() as int) =~= self@.exec_info);
        }
        stats
    }
}

/// A context is fully executed against its initial state: the target, the
/// suite-level status and every record's output directory are kept, every
/// record holds a terminal outcome with a closed interval -- no case is
/// left not-run -- and `run` was invoked exactly once per case of the
/// canonical order.
pub open spec fn fully_executed(post: ExecutionContextView, pre: ExecutionContextView) -> bool {
    &&& post.target == pre.target
    &&& post.status == pre.status
    &&& post.exec_info.len() == pre.exec_info.len()
    &&& post.runs == pre.runs + post.exec_info.len()
    &&& forall|k: int|
        0 <= k < post.exec_info.len() ==> {
            let rec = #[trigger] post.exec_info[k];
            &&& rec.is_terminal()
            &&& rec.stopped
            &&& rec.out_dir == pre.exec_info[k].out_dir
        }
}

/// A context executed up to the first `bound` cases of the canonical
/// order: those records are terminal, the later ones untouched, and `run`
/// was invoked exactly once per executed case.
pub open spec fn executed_up_to(
    post: ExecutionContextView,
    pre: ExecutionContextView,
    bound: int,
) -> bool {
    &&& post.target == pre.target
    &&& post.status == pre.status
    &&& post.exec_info.len() == pre.exec_info.len()
    &&& post.runs == pre.runs + bound
    &&& forall|k: int|
        0 <= k < bound && k < post.exec_info.len() ==> {
            let rec = #[trigger] post.exec_info[k];
            &&& rec.is_terminal()
            &&& rec.stopped
            &&& rec.out_dir == pre.exec_info[k].out_dir
        }
    &&& forall|k: int|
        bound <= k < post.exec_info.len() ==> #[trigger] post.exec_info[k] == pre.exec_info[k]
}

/// Dispatch to the chosen strategy's executor and drive every context to
/// completion. The parallel strategy is not provided by this engine; its
/// callers must not select it here.
pub fn run_executor<D: TestDriver, R: Reporter>(
    test_suite: &TestSuite,
    test_driver: &D,
    reporter: &R,
    exec_contexts: &mut Vec<ExecutionContext>,
    exec_strategy: crate::execution_strategy::ExecutionStrategy,
)
    requires
        !(exec_strategy is Parallel),
        forall|t: int|
            0 <= t < old(exec_contexts)@.len() ==> (#[trigger] old(
                exec_contexts,
            )@[t])@.exec_info.len() == test_suite@.cases_in_order().len(),
    ensures
        final(exec_contexts)@.len() == old(exec_contexts)@.len(),
        forall|t: int|
            0 <= t < old(exec_contexts)@.len() ==> fully_executed(
                (#[trigger] final(exec_contexts)@[t])@,
                old(exec_contexts)@[t]@,
            ),
{
    match exec_strategy {
        crate::execution_strategy::ExecutionStrategy::Sequential => {
            let executor = crate::test_executor::sequential::SequentialExecutor {};
            executor.execute(reporter, test_driver, test_suite, exec_contexts);
        },
        crate::execution_strategy::ExecutionStrategy::RoundRobin => {
            let executor = crate::test_executor::round_robin::RoundRobinExecutor {};
            executor.execute(reporter, test_driver, test_suite, exec_contexts);
        },
        crate::execution_strategy::ExecutionStrategy::Parallel => {
            vstd::pervasive::unreached::<()>();
        },
    }
}

/// Statistics are a pure function of the recorded outcomes: two
/// computations with no intervening `run` yield identical counts.
pub proof fn lemma_statistics_idempotent(
    recs: Seq<TestCaseExecInfoView>,
    first: Statistics,
    second: Statistics,
)
    requires
        first.passed == count_passed(recs),
        first.failed == count_failed(recs),
        first.runner_failed == count_runner_failed(recs),
        first.skipped == count_skipped(recs),
        second.passed == count_passed(recs),
        second.failed == count_failed(recs),
        second.runner_failed == count_runner_failed(recs),
        second.skipped == count_skipped(recs),
    ensures
        first == second,
{
}

} // verus!
