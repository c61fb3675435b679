use batrun::error::Error;
use batrun::execution_strategy::ExecutionStrategy;
use batrun::settings::Settings;
use batrun::test_driver::bash::{
    parse_output_env_vars, run_status_from_output, select_named_function, split_env_line,
    LogFiles, RunFnCommandBuilder,
};
use batrun::test_driver::{matches_file_pattern, matches_global_fixture_file};
use batrun::test_suite::status::{SkipReason, TestCaseStatus};
use batrun::test_executor::test_case_out_dir;
use batrun::test_suite::config::TestSuiteConfig;
use batrun::test_suite::registry::TestSuiteRegistry;
use batrun::test_suite::status::Statistics;
use batrun::test_suite::{TestCase, TestSuite, TestSuiteFixture};

fn config(global_fixture: Option<&str>) -> TestSuiteConfig {
    TestSuiteConfig {
        name: "demo".to_string(),
        description: "a demo suite".to_string(),
        version: "1".to_string(),
        driver: "bash".to_string(),
        test_file_patterns: vec!["*.sh".to_string(), "*.bash".to_string()],
        global_fixture: global_fixture.map(|s| s.to_string()),
        targets: vec!["t1".to_string()],
    }
}

fn empty_suite(path: &str) -> TestSuite {
    TestSuite::new(path, config(None), Vec::new(), TestSuiteFixture::default())
}

#[test]
fn test_case_identity() {
    let tc = TestCase::new("dir/file.sh", "test_works");
    assert_eq!(tc.path(), "dir/file.sh");
    assert_eq!(tc.name(), "test_works");
    assert_eq!(tc.id(), "dir/file.sh::test_works");
}

#[test]
fn test_case_out_dir_layout() {
    let tc = TestCase::new("dir/file.sh", "test_works");
    assert_eq!(test_case_out_dir("out", "devboard", &tc), "out/devboard/dir/file.sh");
}

#[test]
fn file_patterns_match_through_glob() {
    let patterns = vec!["*.sh".to_string(), "*.bash".to_string()];
    assert!(matches_file_pattern("setup.sh", &patterns));
    assert!(matches_file_pattern("lib.bash", &patterns));
    assert!(!matches_file_pattern("readme.md", &patterns));
    assert!(matches_file_pattern("deep/nested/file.sh", &vec!["**/*.sh".to_string()]));
    // An invalid pattern matches nothing instead of matching everything.
    assert!(!matches_file_pattern("anything.sh", &vec!["[".to_string()]));
}

#[test]
fn global_fixture_file_is_recognized() {
    let with_fixture = config(Some("fixture.sh"));
    assert!(matches_global_fixture_file("suite/fixture.sh", "suite", &with_fixture));
    assert!(!matches_global_fixture_file("suite/other.sh", "suite", &with_fixture));
    let without = config(None);
    assert!(!matches_global_fixture_file("suite/fixture.sh", "suite", &without));
}

#[test]
fn registry_lookup_and_replacement() {
    let mut registry = TestSuiteRegistry::new();
    match registry.get("nowhere") {
        Err(Error::UnknownTestSuite(dir)) => assert_eq!(dir, "nowhere"),
        other => panic!("unexpected lookup result: {:?}", other.map(|_| ())),
    }
    registry.insert("alpha", empty_suite("alpha"));
    registry.insert("beta", empty_suite("beta"));
    assert_eq!(registry.get("alpha").unwrap().path(), "alpha");
    assert_eq!(registry.get("beta").unwrap().path(), "beta");
    // Re-inserting under the same directory replaces the binding.
    registry.insert("alpha", empty_suite("alpha-reloaded"));
    assert_eq!(registry.get("alpha").unwrap().path(), "alpha-reloaded");
    assert_eq!(registry.get("beta").unwrap().path(), "beta");
}

#[test]
fn named_function_selection() {
    assert!(matches!(select_named_function(vec![], "setup"), Ok(None)));
    let unique = select_named_function(vec!["setup".to_string()], "setup").unwrap();
    assert_eq!(unique, Some("setup".to_string()));
    match select_named_function(vec!["setup".to_string(), "setup".to_string()], "setup") {
        Err(Error::DuplicatedTestFn(name)) => assert_eq!(name, "setup"),
        other => panic!("unexpected selection: {:?}", other),
    }
}

#[test]
fn run_fn_command_shape() {
    let command = RunFnCommandBuilder::new()
        .source_fixture_if_necessary(Some(&"fixture.sh".to_string()), "suite/file.sh", "suite")
        .source_test_file("suite/file.sh")
        .execute_fn("test_one", "devboard", "out/devboard/file.sh")
        .build();
    assert_eq!(
        command,
        "echo Sourcing global fixture 'suite/fixture.sh'; source 'suite/fixture.sh'; \
         echo Sourcing test file 'suite/file.sh'; source 'suite/file.sh'; \
         \"test_one\" \"devboard\" \"out/devboard/file.sh\";"
    );
    // Running a function of the fixture itself does not source the fixture
    // a second time.
    let command = RunFnCommandBuilder::new()
        .source_fixture_if_necessary(Some(&"fixture.sh".to_string()), "suite/fixture.sh", "suite")
        .source_test_file("suite/fixture.sh")
        .execute_fn("setup", "devboard", "out")
        .build();
    assert!(command.starts_with("echo Sourcing test file"));
}

#[test]
fn log_file_names_follow_the_case() {
    let log_files = LogFiles::new("out/devboard/dir/file.sh", "test_works");
    assert_eq!(log_files.test_case, "out/devboard/dir/file.sh/test_works.test.log");
    assert_eq!(log_files.envout, "out/devboard/dir/file.sh/test_works.envout.log");
}

#[test]
fn requested_targets_fall_back_to_the_configured_ones() {
    let settings = |targets: Vec<String>| Settings {
        test_suite_dirs: vec!["suite".to_string()],
        out_dir: "out".to_string(),
        targets,
        exec_strategy: ExecutionStrategy::Sequential,
        dry_run: false,
        test_filter: None,
        debug: false,
        matrix_summary: false,
    };
    let suite_config = config(None);
    let defaulted = settings(Vec::new()).targets_or_default(&suite_config);
    assert_eq!(defaulted, vec!["t1".to_string()]);
    let explicit = settings(vec!["other".to_string()]).targets_or_default(&suite_config);
    assert_eq!(explicit, vec!["other".to_string()]);
}

#[test]
fn env_line_splitting() {
    assert_eq!(
        split_env_line("BATRUN_SKIPPED=missing device"),
        Some(("BATRUN_SKIPPED".to_string(), "missing device".to_string()))
    );
    // Splitting happens at the first `=`; the rest belongs to the value.
    assert_eq!(
        split_env_line("KEY=a=b"),
        Some(("KEY".to_string(), "a=b".to_string()))
    );
    assert_eq!(split_env_line("no separator here"), None);
    assert_eq!(split_env_line("=leading"), Some(("".to_string(), "leading".to_string())));
}

#[test]
fn env_output_classification() {
    let lines = vec![
        "BATRUN_SKIPPED=flaky hardware".to_string(),
        "BATRUN_SURPRISE=1".to_string(),
        "not an assignment".to_string(),
        "PATH=/usr/bin".to_string(),
    ];
    let known = vec!["BATRUN_SKIPPED".to_string()];
    let (pairs, unknown) = parse_output_env_vars(&lines, &known);
    assert_eq!(
        pairs,
        vec![("BATRUN_SKIPPED".to_string(), "flaky hardware".to_string())]
    );
    assert_eq!(unknown, vec!["BATRUN_SURPRISE".to_string(), "PATH".to_string()]);
}

#[test]
fn run_status_classification() {
    assert_eq!(run_status_from_output(false, None), TestCaseStatus::Failed);
    // A failing exit wins over a skip marker.
    assert_eq!(
        run_status_from_output(false, Some("why".to_string())),
        TestCaseStatus::Failed
    );
    assert_eq!(run_status_from_output(true, None), TestCaseStatus::Passed);
    assert_eq!(
        run_status_from_output(true, Some("why".to_string())),
        TestCaseStatus::Skipped(SkipReason::TestCaseSpecificReason("why".to_string()))
    );
}

#[test]
fn registry_get_mut_changes_the_binding() {
    let mut registry = TestSuiteRegistry::new();
    registry.insert("alpha", empty_suite("alpha"));
    {
        let suite = registry.get_mut("alpha").unwrap();
        suite.fixture_mut().setup_test_case = Some(TestCase::new("fixture.sh", "setup"));
    }
    assert!(registry.get("alpha").unwrap().fixture().setup_test_case.is_some());
    assert!(registry.get_mut("missing").is_err());
}

#[test]
fn statistics_total_and_max() {
    let stats = Statistics { passed: 3, failed: 1, runner_failed: 0, skipped: 2 };
    assert_eq!(stats.total(), 6);
    assert_eq!(stats.max(), 3);
    let zero = Statistics { passed: 0, failed: 0, runner_failed: 0, skipped: 0 };
    assert_eq!(zero.total(), 0);
    assert_eq!(zero.max(), 0);
}

#[test]
fn suite_files_can_be_amended_in_place() {
    let mut suite = empty_suite("suite");
    suite.test_files_mut().push(batrun::test_suite::TestFile {
        setup_test_case: None,
        teardown_test_case: None,
        test_cases: vec![TestCase::new("late.sh", "test_added")],
    });
    assert_eq!(suite.test_files().len(), 1);
    assert_eq!(suite.test_files()[0].test_cases[0].id(), "late.sh::test_added");
}

#[test]
fn suite_accessors_expose_the_model() {
    let fixture = TestSuiteFixture {
        setup_test_case: Some(TestCase::new("fixture.sh", "setup")),
        teardown_test_case: None,
    };
    let suite = TestSuite::new("the/dir", config(None), Vec::new(), fixture);
    assert_eq!(suite.path(), "the/dir");
    assert_eq!(suite.config().driver, "bash");
    assert_eq!(
        suite.fixture().setup_test_case.as_ref().map(|tc| tc.id()),
        Some("fixture.sh::setup".to_string())
    );
    assert!(suite.fixture().teardown_test_case.is_none());
    assert!(suite.test_files().is_empty());
}
