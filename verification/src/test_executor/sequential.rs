use vstd::prelude::*;

use crate::reporter::Reporter;
use crate::test_driver::TestDriver;
use crate::test_executor::{fully_executed, ExecutionContext};
use crate::test_suite::visitor::{
    lemma_step_decreases, lemma_step_visits_in_order, lemma_visited_count_in_range, VisitStep,
    Visitor,
};
use crate::test_suite::TestSuite;

verus! {

/// Drive one fresh traversal of the suite to completion against one
/// context: run every yielded case, and report failures back to the
/// traversal so that setup failures raise the proper skip flags.
pub(crate) fn run_traversal<D: TestDriver, R: Reporter>(
    reporter: &R,
    test_driver: &D,
    test_suite: &TestSuite,
    exec_context: &mut ExecutionContext,
)
    requires
        old(exec_context)@.exec_info.len() == test_suite@.cases_in_order().len(),
    ensures
        fully_executed(final(exec_context)@, old(exec_context)@),
{
    let ghost pre = exec_context@;
    let ghost total = test_suite@.cases_in_order().len() as int;
    let total_cases = exec_context.exec_info().len();
    let mut visitor = Visitor::new(test_suite);
    let mut case_idx: usize = 0;
    loop
        invariant
            visitor@.wf(),
            visitor@.suite == test_suite@,
            case_idx == visitor@.visited_count(),
            pre.exec_info.len() == total,
            total == test_suite@.cases_in_order().len(),
            total_cases as int == total,
            exec_context@.target == pre.target,
            exec_context@.status == pre.status,
            exec_context@.runs == pre.runs + case_idx,
            exec_context@.exec_info.len() == pre.exec_info.len(),
            forall|k: int|
                0 <= k < case_idx ==> {
                    let rec = #[trigger] exec_context@.exec_info[k];
                    &&& rec.is_terminal()
                    &&& rec.stopped
                    &&& rec.out_dir == pre.exec_info[k].out_dir
                },
            forall|k: int|
                case_idx <= k < total ==> #[trigger] exec_context@.exec_info[k]
                    == pre.exec_info[k],
        ensures
            visitor@.is_done(),
            case_idx == visitor@.visited_count(),
            visitor@.suite == test_suite@,
            pre.exec_info.len() == total,
            exec_context@.target == pre.target,
            exec_context@.status == pre.status,
            exec_context@.runs == pre.runs + case_idx,
            exec_context@.exec_info.len() == pre.exec_info.len(),
            forall|k: int|
                0 <= k < case_idx ==> {
                    let rec = #[trigger] exec_context@.exec_info[k];
                    &&& rec.is_terminal()
                    &&& rec.stopped
                    &&& rec.out_dir == pre.exec_info[k].out_dir
                },
        decreases visitor@.steps_remaining(),
    {
        let ghost prev = visitor@;
        proof {
            lemma_step_visits_in_order(prev);
            lemma_step_decreases(prev);
            lemma_visited_count_in_range(prev);
        }
        match visitor.visit_next() {
            VisitStep::Visited(tc, skip) => {
                let run_result = exec_context.run(
                    reporter,
                    test_driver,
                    test_suite,
                    tc,
                    case_idx,
                    skip,
                );
                if run_result.is_err() {
                    visitor.report_failure();
                }
                case_idx += 1;
            },
            VisitStep::Advanced => {},
            VisitStep::Finished => {
                break;
            },
        }
        proof {
            lemma_step_decreases(visitor@);
        }
    }
    proof {
        lemma_step_visits_in_order(visitor@);
    }
}

/// Runs all test cases of one target before passing to the next target:
/// the total order of case executions is fully deterministic and matches
/// the canonical order within each target.
pub struct SequentialExecutor;

impl SequentialExecutor {
    /// Drive every context's traversal to completion, in list order. Every
    /// declared case of every target ends in a terminal outcome: run,
    /// skipped with its reason, or recorded as a runner failure.
    pub fn execute<D: TestDriver, R: Reporter>(
        &self,
        reporter: &R,
        test_driver: &D,
        test_suite: &TestSuite,
        exec_contexts: &mut Vec<ExecutionContext>,
    )
        requires
            forall|t: int|
                0 <= t < old(exec_contexts)@.len() ==> (#[trigger] old(
                    exec_contexts,
                )@[t])@.exec_info.len() == test_suite@.cases_in_order().len(),
        ensures
            final(exec_contexts)@.len() == old(exec_contexts)@.len(),
            forall|t: int|
                0 <= t < old(exec_contexts)@.len() ==> fully_executed(
                    (#[trigger] final(exec_contexts)@[t])@,
                    old(exec_contexts)@[t]@,
                ),
    {
        let ghost pre = exec_contexts@;
        let mut t: usize = 0;
        while t < exec_contexts.len()
            invariant
                exec_contexts@.len() == pre.len(),
                forall|s: int|
                    0 <= s < pre.len() ==> (#[trigger] pre[s])@.exec_info.len()
                        == test_suite@.cases_in_order().len(),
                forall|s: int| t <= s < pre.len() ==> #[trigger] exec_contexts@[s] == pre[s],
                forall|s: int|
                    0 <= s < t ==> fully_executed((#[trigger] exec_contexts@[s])@, pre[s]@),
            decreases pre.len() - t,
        {
            let exec_context = &mut exec_contexts[t];
            run_traversal(reporter, test_driver, test_suite, exec_context);
            t += 1;
        }
    }
}

} // verus!
