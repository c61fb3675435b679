use vstd::prelude::*;

use crate::error::Error;
use crate::test_executor::{ExecutionContext, TestCaseExecInfo};
use crate::test_suite::{TestCase, TestSuite};

verus! {

/// Receives everything the engine wants shown: messages, the target and
/// test lists, per-case start and result notifications, and per-target
/// summaries. Side-effecting, promises nothing; a console implementation is
/// the usual production reporter, a recording double the usual test one.
pub trait Reporter {
    fn notice_detailed(&self, message: &str, details: &str);

    fn info_detailed(&self, message: &str, details: &str);

    fn warning_detailed(&self, message: &str, details: &str);

    fn error_detailed(&self, message: &str, details: &str);

    fn error_from(&self, error: &Error);

    fn report_target_list(&self, test_suite: &TestSuite);

    fn report_test_list(&self, test_suite: &TestSuite);

    fn report_test_suite_time(&self);

    fn report_test_suite_execution_summary(
        &self,
        test_suite: &TestSuite,
        exec_context: &ExecutionContext,
    );

    fn report_total_time(&self);

    /// Called before a case is attempted, once its record is marked running.
    fn report_test_case_execution_started(
        &self,
        test_case: &TestCase,
        target: &str,
        exec_info: &TestCaseExecInfo,
    );

    /// Called exactly once per case after its outcome is finalized,
    /// including when the case was skipped.
    fn report_test_case_execution_result(
        &self,
        test_case: &TestCase,
        target: &str,
        exec_info: &TestCaseExecInfo,
    );

    fn notice(&self, message: &str) {
        self.notice_detailed(message, "");
    }

    fn info(&self, message: &str) {
        self.info_detailed(message, "");
    }

    fn warning(&self, message: &str) {
        self.warning_detailed(message, "");
    }

    fn error(&self, message: &str) {
        self.error_detailed(message, "");
    }
}

} // verus!
