use vstd::prelude::*;

use crate::execution_strategy::ExecutionStrategy;
use crate::test_suite::config::{clone_string_vec, TestSuiteConfig};

verus! {

/// Everything the host passes the runner for one invocation.
#[derive(Debug)]
pub struct Settings {
    pub test_suite_dirs: Vec<String>,
    pub out_dir: String,
    pub targets: Vec<String>,
    pub exec_strategy: ExecutionStrategy,
    pub dry_run: bool,
    pub test_filter: Option<String>,
    pub debug: bool,
    pub matrix_summary: bool,
}

impl Settings {
    /// The targets one run is executed against: the requested targets, or
    /// every target the suite's configuration names when none was
    /// requested.
    pub fn targets_or_default(&self, test_suite_config: &TestSuiteConfig) -> (res: Vec<String>)
        ensures
            res.deep_view() == (if self.targets@.len() == 0 {
                test_suite_config@.targets
            } else {
                self.targets.deep_view()
            }),
    {
        if self.targets.len() == 0 {
            clone_string_vec(&test_suite_config.targets)
        } else {
            clone_string_vec(&self.targets)
        }
    }
}

} // verus!
