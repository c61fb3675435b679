pub mod bash;

use vstd::prelude::*;

use crate::error::Error;
use crate::test_suite::config::{clone_string_vec, TestSuiteConfig};
use crate::test_suite::status::TestCaseStatus;
use crate::test_suite::{TestCase, TestSuite};

verus! {

/// What one driver run reports back: the case's terminal status and, when
/// the driver produced any, its rendered output.
pub struct RunTestOutput {
    pub test_case_status: TestCaseStatus,
    pub driver_output: Option<String>,
}

/// The mechanism that discovers test cases in a suite directory and runs a
/// single test case. The engine treats both operations as opaque,
/// potentially slow calls; drivers are substitutable.
pub trait TestDriver {
    /// The test-file glob patterns used when the suite's configuration
    /// names none.
    fn test_file_patterns_default(&self) -> Vec<String>;

    /// Walk the suite directory and build the suite model. Files must come
    /// sorted by path and, within a file, the setup case (if present) first,
    /// then the test cases in a stable order, then the teardown case (if
    /// present) last; duplicate case names within one scope are an error.
    fn discover_tests(
        &self,
        test_suite_dir: &str,
        test_suite_config: &TestSuiteConfig,
    ) -> Result<TestSuite, Error>;

    /// Run one test case. An `Err` is a runner failure: the driver could
    /// not execute the case at all, as opposed to a reported `Failed`
    /// status, which means the case ran and reported failure. A driver
    /// reports only terminal driver statuses: passed, failed or skipped.
    fn run_test(
        &self,
        test_suite_dir: &str,
        test_suite_config: &TestSuiteConfig,
        target: &str,
        test_case: &TestCase,
        test_case_out_dir: &str,
    ) -> (res: Result<RunTestOutput, Error>)
        ensures
            match res {
                Ok(output) => output.test_case_status@ is Passed || output.test_case_status@
                    is Failed || output.test_case_status@ is Skipped,
                Err(_) => true,
            },
    ;

    /// The configured test-file patterns, or the driver's defaults when the
    /// configuration names none.
    fn test_file_pattern_or_default(&self, test_suite_config: &TestSuiteConfig) -> (res: Vec<
        String,
    >)
        ensures
            test_suite_config@.test_file_patterns.len() > 0 ==> res.deep_view()
                == test_suite_config@.test_file_patterns,
    {
        if test_suite_config.test_file_patterns.len() == 0 {
            self.test_file_patterns_default()
        } else {
            clone_string_vec(&test_suite_config.test_file_patterns)
        }
    }
}

/// The result of matching one glob pattern against one path: whether it
/// matches, or nothing when the pattern is not a valid glob. A function of
/// the two strings alone.
pub uninterp spec fn glob_match_of(pattern: Seq<char>, path: Seq<char>) -> Option<bool>;

/// Relies on glob::Pattern::new and glob::Pattern::matches: compiles
/// `pattern` and tests whether it matches `path`, `None` when the pattern
/// is not a valid glob. The outcome depends on the two strings alone.
#[verifier::external_body]
fn glob_match(pattern: &str, path: &str) -> (res: Option<bool>)
    ensures
        res == glob_match_of(pattern@, path@),
{
    match glob::Pattern::new(pattern) {
        Ok(compiled) => Some(compiled.matches(path)),
        Err(_) => None,
    }
}

/// Whether the file name matches at least one of the given test-file
/// patterns; a pattern that is not a valid glob matches nothing.
pub fn matches_file_pattern(filename: &str, patterns: &Vec<String>) -> (res: bool)
    ensures
        res == exists|i: int|
            0 <= i < patterns@.len() && glob_match_of(patterns@[i]@, filename@) == Some(true),
{
    let mut i: usize = 0;
    while i < patterns.len()
        invariant
            i <= patterns@.len(),
            forall|j: int| 0 <= j < i ==> glob_match_of(patterns@[j]@, filename@) != Some(true),
        decreases patterns@.len() - i,
    {
        match glob_match(patterns[i].as_str(), filename) {
            Some(matched) => {
                if matched {
                    return true;
                }
            },
            None => {},
        }
        i += 1;
    }
    false
}

/// Whether the file name is the suite's configured global fixture file:
/// the fixture path joined to the suite directory, if one is configured.
pub fn matches_global_fixture_file(
    filename: &str,
    test_suite_dir: &str,
    test_suite_config: &TestSuiteConfig,
) -> (res: bool)
    ensures
        res == match test_suite_config@.global_fixture {
            Some(fixture) => filename@ == test_suite_dir@ + "/"@ + fixture,
            None => false,
        },
{
    match &test_suite_config.global_fixture {
        Some(fixture) => {
            let mut joined = test_suite_dir.to_owned();
            joined.append("/");
            joined.append(fixture.as_str());
            let filename_owned = filename.to_owned();
            filename_owned == joined
        },
        None => false,
    }
}

} // verus!
