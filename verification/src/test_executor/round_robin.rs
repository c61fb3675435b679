use vstd::prelude::*;

use vstd::arithmetic::div_mod::{
    lemma_fundamental_div_mod, lemma_fundamental_div_mod_converse, lemma_mod_bound,
};

use crate::reporter::Reporter;
use crate::test_driver::TestDriver;
use crate::test_executor::{executed_up_to, fully_executed, ExecutionContext};
use crate::test_suite::visitor::{
    lemma_same_position_step, lemma_step_decreases, lemma_step_visits_in_order,
    lemma_visited_count_in_range, same_position, VisitStep, Visitor,
};
use crate::test_suite::TestSuite;

verus! {

/// Runs one case per target per round: every target's traversal is
/// advanced by exactly one step before any traversal takes its next one,
/// so no target falls more than one executed case behind another.
pub struct RoundRobinExecutor;

impl RoundRobinExecutor {
    /// Drive every context's traversal to completion, one step per target
    /// per round, in original target order. All traversals walk the same
    /// suite, so they advance in lockstep; a case execution in round `r`
    /// happens for every target, target 0 first. Every declared case of
    /// every target ends in a terminal outcome.
    pub fn execute<D: TestDriver, R: Reporter>(
        &self,
        reporter: &R,
        test_driver: &D,
        test_suite: &TestSuite,
        exec_contexts: &mut Vec<ExecutionContext>,
    )
        requires
            forall|t: int|
                0 <= t < old(exec_contexts)@.len() ==> (#[trigger] old(
                    exec_contexts,
                )@[t])@.exec_info.len() == test_suite@.cases_in_order().len(),
        ensures
            final(exec_contexts)@.len() == old(exec_contexts)@.len(),
            forall|t: int|
                0 <= t < old(exec_contexts)@.len() ==> fully_executed(
                    (#[trigger] final(exec_contexts)@[t])@,
                    old(exec_contexts)@[t]@,
                ),
    {
        let ghost pre = exec_contexts@;
        let ghost total = test_suite@.cases_in_order().len() as int;
        let n = exec_contexts.len();
        if n == 0 {
            return ;
        }
        let total_cases = exec_contexts[0].exec_info().len();
        let mut visitors: Vec<Visitor> = Vec::new();
        let mut i: usize = 0;
        while i < n
            invariant
                i <= n,
                visitors@.len() == i,
                forall|s: int|
                    0 <= s < i ==> {
                        let v = (#[trigger] visitors@[s])@;
                        &&& v.wf()
                        &&& v.state is TestSuiteSetup
                        &&& v.suite == test_suite@
                    },
            decreases n - i,
        {
            visitors.push(Visitor::new(test_suite));
            i += 1;
        }
        let mut case_idx: usize = 0;
        loop
            invariant
                n >= 1,
                n == pre.len(),
                exec_contexts@.len() == n,
                visitors@.len() == n,
                total == test_suite@.cases_in_order().len(),
                total_cases as int == total,
                forall|s: int| 0 <= s < n ==> (#[trigger] pre[s])@.exec_info.len() == total,
                forall|s: int|
                    0 <= s < n ==> {
                        let v = (#[trigger] visitors@[s])@;
                        &&& v.wf()
                        &&& v.suite == test_suite@
                        &&& same_position(v, visitors@[0]@)
                    },
                case_idx == visitors@[0]@.visited_count(),
                forall|s: int|
                    0 <= s < n ==> executed_up_to(
                        (#[trigger] exec_contexts@[s])@,
                        pre[s]@,
                        case_idx as int,
                    ),
            ensures
                n == pre.len(),
                exec_contexts@.len() == n,
                visitors@[0]@.is_done(),
                visitors@[0]@.suite == test_suite@,
                visitors@[0]@.wf(),
                case_idx == visitors@[0]@.visited_count(),
                total == test_suite@.cases_in_order().len(),
                forall|s: int| 0 <= s < n ==> (#[trigger] pre[s])@.exec_info.len() == total,
                forall|s: int|
                    0 <= s < n ==> executed_up_to(
                        (#[trigger] exec_contexts@[s])@,
                        pre[s]@,
                        case_idx as int,
                    ),
            decreases visitors@[0]@.steps_remaining(),
        {
            if visitors[0].done() {
                break ;
            }
            let ghost p = visitors@[0]@;
            let ghost round_vis = visitors@;
            let ghost round_ctx = exec_contexts@;
            proof {
                lemma_step_visits_in_order(p);
                lemma_step_decreases(p);
                lemma_visited_count_in_range(p);
            }
            let mut advanced = false;
            let mut t: usize = 0;
            while t < n
                invariant
                    n >= 1,
                    t <= n,
                    n == pre.len(),
                    exec_contexts@.len() == n,
                    visitors@.len() == n,
                    round_vis.len() == n,
                    round_ctx.len() == n,
                    total == test_suite@.cases_in_order().len(),
                    forall|s: int| 0 <= s < n ==> (#[trigger] pre[s])@.exec_info.len() == total,
                    p.wf(),
                    p.suite == test_suite@,
                    !p.is_done(),
                    case_idx == p.visited_count(),
                    p.step_yield() is Some ==> case_idx < total,
                    forall|s: int|
                        0 <= s < n ==> {
                            let v = (#[trigger] round_vis[s])@;
                            &&& v.wf()
                            &&& v.suite == test_suite@
                            &&& same_position(v, p)
                        },
                    forall|s: int| t <= s < n ==> #[trigger] visitors@[s] == round_vis[s],
                    forall|s: int|
                        0 <= s < t ==> {
                            let v = (#[trigger] visitors@[s])@;
                            &&& v.wf()
                            &&& v.suite == test_suite@
                            &&& same_position(v, p.step_state())
                        },
                    forall|s: int|
                        0 <= s < n ==> executed_up_to(
                            (#[trigger] round_ctx[s])@,
                            pre[s]@,
                            case_idx as int,
                        ),
                    forall|s: int| t <= s < n ==> #[trigger] exec_contexts@[s] == round_ctx[s],
                    forall|s: int|
                        0 <= s < t ==> executed_up_to(
                            (#[trigger] exec_contexts@[s])@,
                            pre[s]@,
                            case_idx + (if p.step_yield() is Some {
                                1int
                            } else {
                                0int
                            }),
                        ),
                    advanced == (t > 0 && p.step_yield() is Some),
                decreases n - t,
            {
                let ghost prev = visitors@[t as int]@;
                proof {
                    lemma_same_position_step(p, prev);
                    lemma_step_visits_in_order(prev);
                    lemma_visited_count_in_range(prev);
                }
                let visitor = &mut visitors[t];
                match visitor.visit_next() {
                    VisitStep::Visited(tc, skip) => {
                        let run_result = {
                            let exec_context = &mut exec_contexts[t];
                            exec_context.run(
                                reporter,
                                test_driver,
                                test_suite,
                                tc,
                                case_idx,
                                skip,
                            )
                        };
                        if run_result.is_err() {
                            let visitor_again = &mut visitors[t];
                            visitor_again.report_failure();
                        }
                        advanced = true;
                    },
                    VisitStep::Advanced => {},
                    VisitStep::Finished => {
                        // Unreachable: a round only starts while the shared
                        // position is not done, and all traversals share it.
                        proof {
                            assert(false);
                        }
                    },
                }
                t += 1;
            }
            if advanced {
                case_idx += 1;
            }
            proof {
                lemma_same_position_step(p.step_state(), visitors@[0]@);
                lemma_step_decreases(visitors@[0]@);
            }
        }
        proof {
            assert(case_idx == total);
        }
    }
}

/// How many of the first `k` case executions of the round-robin order
/// belong to target `t`: execution `j` belongs to target `j % n`, target 0
/// first within each round.
pub open spec fn count_target(n: int, k: int, t: int) -> int
    decreases k,
{
    if k <= 0 {
        0
    } else {
        count_target(n, k - 1, t) + if (k - 1) % n == t {
            1int
        } else {
            0int
        }
    }
}

proof fn lemma_count_target_closed(n: int, k: int, t: int)
    requires
        1 <= n,
        0 <= k,
        0 <= t < n,
    ensures
        count_target(n, k, t) == k / n + if t < k % n {
            1int
        } else {
            0int
        },
    decreases k,
{
    if k == 0 {
        lemma_fundamental_div_mod_converse(0, n, 0, 0);
    } else {
        lemma_count_target_closed(n, k - 1, t);
        let q = (k - 1) / n;
        let r = (k - 1) % n;
        lemma_fundamental_div_mod(k - 1, n);
        lemma_mod_bound(k - 1, n);
        assert(k - 1 == n * q + r);
        if r + 1 == n {
            assert(k == (q + 1) * n + 0) by (nonlinear_arith)
                requires
                    k - 1 == n * q + r,
                    r + 1 == n,
            ;
            lemma_fundamental_div_mod_converse(k, n, q + 1, 0);
        } else {
            assert(k == q * n + (r + 1)) by (nonlinear_arith)
                requires
                    k - 1 == n * q + r,
            ;
            lemma_fundamental_div_mod_converse(k, n, q, r + 1);
        }
    }
}

/// Round-robin fairness: over `n` targets whose suites hold `m` cases
/// each, the schedule performs exactly `n * m` case executions, each
/// target executes exactly `m` cases, and after any prefix of the schedule
/// the executed-case counts of two targets differ by at most one.
pub proof fn lemma_round_robin_fair(n: int, m: int, k: int, first: int, second: int)
    requires
        1 <= n,
        0 <= m,
        0 <= k <= n * m,
        0 <= first < n,
        0 <= second < n,
    ensures
        count_target(n, k, first) - count_target(n, k, second) <= 1,
        count_target(n, n * m, first) == m,
{
    lemma_count_target_closed(n, k, first);
    lemma_count_target_closed(n, k, second);
    lemma_count_target_closed(n, n * m, first);
    lemma_mod_bound(k, n);
    assert(n * m == m * n + 0) by (nonlinear_arith);
    lemma_fundamental_div_mod_converse(n * m, n, m, 0);
}

} // verus!
