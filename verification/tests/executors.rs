use std::cell::RefCell;

use batrun::error::Error;
use batrun::execution_strategy::ExecutionStrategy;
use batrun::reporter::Reporter;
use batrun::test_driver::{RunTestOutput, TestDriver};
use batrun::test_executor::{run_executor, ExecutionContext, TestCaseExecInfo};
use batrun::test_executor::round_robin::RoundRobinExecutor;
use batrun::test_executor::sequential::SequentialExecutor;
use batrun::test_suite::config::TestSuiteConfig;
use batrun::test_suite::status::{SkipReason, TestCaseStatus, TestSuiteStatus};
use batrun::test_suite::{TestCase, TestFile, TestSuite, TestSuiteFixture};

fn config() -> TestSuiteConfig {
    TestSuiteConfig {
        name: "demo".to_string(),
        description: "a demo suite".to_string(),
        version: "1".to_string(),
        driver: "bash".to_string(),
        test_file_patterns: Vec::new(),
        global_fixture: None,
        targets: vec!["t1".to_string(), "t2".to_string()],
    }
}

/// A driver double: scripted failures, a log of every invocation.
struct ScriptedDriver {
    failing: Vec<String>,
    runner_failing: Vec<String>,
    invocations: RefCell<Vec<(String, String)>>,
}

impl ScriptedDriver {
    fn new(failing: &[&str], runner_failing: &[&str]) -> Self {
        ScriptedDriver {
            failing: failing.iter().map(|s| s.to_string()).collect(),
            runner_failing: runner_failing.iter().map(|s| s.to_string()).collect(),
            invocations: RefCell::new(Vec::new()),
        }
    }
}

impl TestDriver for ScriptedDriver {
    fn test_file_patterns_default(&self) -> Vec<String> {
        vec!["*.sh".to_string()]
    }

    fn discover_tests(
        &self,
        test_suite_dir: &str,
        _test_suite_config: &TestSuiteConfig,
    ) -> Result<TestSuite, Error> {
        Err(Error::UnknownTestSuite(test_suite_dir.to_string()))
    }

    fn run_test(
        &self,
        _test_suite_dir: &str,
        _test_suite_config: &TestSuiteConfig,
        target: &str,
        test_case: &TestCase,
        _test_case_out_dir: &str,
    ) -> Result<RunTestOutput, Error> {
        let id = test_case.id();
        self.invocations.borrow_mut().push((id.clone(), target.to_string()));
        if self.runner_failing.contains(&id) {
            return Err(Error::Unknown);
        }
        let status = if self.failing.contains(&id) {
            TestCaseStatus::Failed
        } else {
            TestCaseStatus::Passed
        };
        Ok(RunTestOutput { test_case_status: status, driver_output: None })
    }
}

/// A reporter double that records the start hook's order of (case, target).
struct RecordingReporter {
    started: RefCell<Vec<(String, String)>>,
    results: RefCell<Vec<(String, String)>>,
}

impl RecordingReporter {
    fn new() -> Self {
        RecordingReporter { started: RefCell::new(Vec::new()), results: RefCell::new(Vec::new()) }
    }
}

impl Reporter for RecordingReporter {
    fn notice_detailed(&self, _message: &str, _details: &str) {}
    fn info_detailed(&self, _message: &str, _details: &str) {}
    fn warning_detailed(&self, _message: &str, _details: &str) {}
    fn error_detailed(&self, _message: &str, _details: &str) {}
    fn error_from(&self, _error: &Error) {}
    fn report_target_list(&self, _test_suite: &TestSuite) {}
    fn report_test_list(&self, _test_suite: &TestSuite) {}
    fn report_test_suite_time(&self) {}
    fn report_test_suite_execution_summary(
        &self,
        _test_suite: &TestSuite,
        _exec_context: &ExecutionContext,
    ) {
    }
    fn report_total_time(&self) {}
    fn report_test_case_execution_started(
        &self,
        test_case: &TestCase,
        target: &str,
        _exec_info: &TestCaseExecInfo,
    ) {
        self.started.borrow_mut().push((test_case.id(), target.to_string()));
    }
    fn report_test_case_execution_result(
        &self,
        test_case: &TestCase,
        target: &str,
        _exec_info: &TestCaseExecInfo,
    ) {
        self.results.borrow_mut().push((test_case.id(), target.to_string()));
    }
}

fn two_case_suite() -> TestSuite {
    let file = TestFile {
        setup_test_case: None,
        teardown_test_case: None,
        test_cases: vec![TestCase::new("file.sh", "x"), TestCase::new("file.sh", "y")],
    };
    TestSuite::new("suite", config(), vec![file], TestSuiteFixture::default())
}

fn contexts_for(suite: &TestSuite, targets: &[&str]) -> Vec<ExecutionContext> {
    targets
        .iter()
        .map(|target| ExecutionContext::new(suite, target.to_string(), "out"))
        .collect()
}

fn pair(case: &str, target: &str) -> (String, String) {
    (case.to_string(), target.to_string())
}

#[test]
fn sequential_order_is_per_target() {
    let suite = two_case_suite();
    let driver = ScriptedDriver::new(&[], &[]);
    let reporter = RecordingReporter::new();
    let mut contexts = contexts_for(&suite, &["t1", "t2"]);
    SequentialExecutor.execute(&reporter, &driver, &suite, &mut contexts);
    assert_eq!(
        *reporter.started.borrow(),
        vec![
            pair("file.sh::x", "t1"),
            pair("file.sh::y", "t1"),
            pair("file.sh::x", "t2"),
            pair("file.sh::y", "t2"),
        ]
    );
}

#[test]
fn round_robin_order_interleaves_targets() {
    let suite = two_case_suite();
    let driver = ScriptedDriver::new(&[], &[]);
    let reporter = RecordingReporter::new();
    let mut contexts = contexts_for(&suite, &["t1", "t2"]);
    RoundRobinExecutor.execute(&reporter, &driver, &suite, &mut contexts);
    assert_eq!(
        *reporter.started.borrow(),
        vec![
            pair("file.sh::x", "t1"),
            pair("file.sh::x", "t2"),
            pair("file.sh::y", "t1"),
            pair("file.sh::y", "t2"),
        ]
    );
}

#[test]
fn round_robin_is_fair_and_complete() {
    let suite = two_case_suite();
    let driver = ScriptedDriver::new(&[], &[]);
    let reporter = RecordingReporter::new();
    let targets = ["t1", "t2", "t3"];
    let mut contexts = contexts_for(&suite, &targets);
    RoundRobinExecutor.execute(&reporter, &driver, &suite, &mut contexts);
    let started = reporter.started.borrow();
    // N * M case executions in all.
    assert_eq!(started.len(), targets.len() * 2);
    // At no point do two targets' executed counts differ by more than one.
    let mut counts = [0usize; 3];
    for (_, target) in started.iter() {
        let t = targets.iter().position(|name| name == target).unwrap();
        counts[t] += 1;
        let max = counts.iter().max().unwrap();
        let min = counts.iter().min().unwrap();
        assert!(max - min <= 1);
    }
    // Every context ends fully populated.
    for context in &contexts {
        let stats = context.get_statistics();
        assert_eq!(stats.passed, 2);
        assert_eq!(stats.total(), 2);
    }
}

#[test]
fn statistics_are_idempotent() {
    let suite = two_case_suite();
    let driver = ScriptedDriver::new(&["file.sh::y"], &[]);
    let reporter = RecordingReporter::new();
    let mut contexts = contexts_for(&suite, &["t1"]);
    let before_first = contexts[0].get_statistics();
    let before_second = contexts[0].get_statistics();
    assert_eq!(before_first, before_second);
    assert_eq!(before_first.total(), 0);
    SequentialExecutor.execute(&reporter, &driver, &suite, &mut contexts);
    let first = contexts[0].get_statistics();
    let second = contexts[0].get_statistics();
    assert_eq!(first, second);
    assert_eq!(first.passed, 1);
    assert_eq!(first.failed, 1);
}

#[test]
fn suite_setup_failure_skips_and_never_invokes_the_driver() {
    let fixture = TestSuiteFixture {
        setup_test_case: Some(TestCase::new("fixture.sh", "setup")),
        teardown_test_case: Some(TestCase::new("fixture.sh", "teardown")),
    };
    let file = TestFile {
        setup_test_case: None,
        teardown_test_case: None,
        test_cases: vec![TestCase::new("file.sh", "a"), TestCase::new("file.sh", "b")],
    };
    let suite = TestSuite::new("suite", config(), vec![file], fixture);
    let driver = ScriptedDriver::new(&["fixture.sh::setup"], &[]);
    let reporter = RecordingReporter::new();
    let mut contexts = contexts_for(&suite, &["t1"]);
    SequentialExecutor.execute(&reporter, &driver, &suite, &mut contexts);
    // Only the failing setup reached the driver.
    assert_eq!(
        *driver.invocations.borrow(),
        vec![pair("fixture.sh::setup", "t1")]
    );
    // The result hook still fired for every case, the skips recorded.
    assert_eq!(reporter.results.borrow().len(), 4);
    let stats = contexts[0].get_statistics();
    assert_eq!(stats.failed, 1);
    assert_eq!(stats.skipped, 3);
    assert_eq!(stats.passed, 0);
    // The skip reason is the suite-scoped one.
    let infos = contexts[0].exec_info();
    match infos[1].result() {
        Ok(TestCaseStatus::Skipped(reason)) => {
            assert_eq!(reason, &SkipReason::TestSuiteSetupError)
        }
        other => panic!("unexpected outcome: {:?}", other),
    }
}

#[test]
fn runner_failure_is_recorded_and_does_not_spread() {
    let suite = two_case_suite();
    let driver = ScriptedDriver::new(&[], &["file.sh::x"]);
    let reporter = RecordingReporter::new();
    let mut contexts = contexts_for(&suite, &["t1"]);
    SequentialExecutor.execute(&reporter, &driver, &suite, &mut contexts);
    let stats = contexts[0].get_statistics();
    assert_eq!(stats.runner_failed, 1);
    assert_eq!(stats.passed, 1);
    assert_eq!(stats.skipped, 0);
}

#[test]
fn run_executor_dispatches_both_strategies() {
    let suite = two_case_suite();
    let driver = ScriptedDriver::new(&[], &[]);
    let reporter = RecordingReporter::new();
    let mut contexts = contexts_for(&suite, &["t1", "t2"]);
    run_executor(&suite, &driver, &reporter, &mut contexts, ExecutionStrategy::Sequential);
    assert_eq!(reporter.started.borrow().len(), 4);
    let mut contexts = contexts_for(&suite, &["t1", "t2"]);
    run_executor(&suite, &driver, &reporter, &mut contexts, ExecutionStrategy::RoundRobin);
    assert_eq!(reporter.started.borrow().len(), 8);
}

#[test]
fn context_status_and_timing() {
    let suite = two_case_suite();
    let driver = ScriptedDriver::new(&[], &[]);
    let reporter = RecordingReporter::new();
    let mut contexts = contexts_for(&suite, &["t1"]);
    assert_eq!(contexts[0].status(), TestSuiteStatus::NotRun);
    assert_eq!(contexts[0].target(), "t1");
    assert!(contexts[0].exec_info()[0].elapsed().is_none());
    contexts[0].set_test_suite_status(TestSuiteStatus::Running);
    SequentialExecutor.execute(&reporter, &driver, &suite, &mut contexts);
    contexts[0].set_test_suite_status(TestSuiteStatus::Finished);
    assert_eq!(contexts[0].status(), TestSuiteStatus::Finished);
    // Every terminal record closed its duration interval.
    for info in contexts[0].exec_info() {
        assert!(info.elapsed().is_some());
    }
}

#[test]
fn out_dirs_follow_target_and_file_path() {
    let suite = two_case_suite();
    let contexts = contexts_for(&suite, &["t1"]);
    let infos = contexts[0].exec_info();
    assert_eq!(infos[0].out_dir(), "out/t1/file.sh");
    assert_eq!(infos[1].out_dir(), "out/t1/file.sh");
}
