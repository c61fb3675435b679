use batrun::test_suite::config::TestSuiteConfig;
use batrun::test_suite::status::SkipReason;
use batrun::test_suite::visitor::{ShouldSkip, VisitStep, Visitor};
use batrun::test_suite::{TestCase, TestFile, TestSuite, TestSuiteFixture};

fn config() -> TestSuiteConfig {
    TestSuiteConfig {
        name: "demo".to_string(),
        description: "a demo suite".to_string(),
        version: "1".to_string(),
        driver: "bash".to_string(),
        test_file_patterns: Vec::new(),
        global_fixture: None,
        targets: vec!["t1".to_string()],
    }
}

fn case(path: &str, name: &str) -> TestCase {
    TestCase::new(path, name)
}

/// Walk the whole suite, reporting a failure after every case whose id is
/// in `failing`, and collect the yielded (id, advice) pairs.
fn walk(suite: &TestSuite, failing: &[&str]) -> Vec<(String, ShouldSkip)> {
    let mut visitor = Visitor::new(suite);
    let mut visits = Vec::new();
    loop {
        match visitor.visit_next() {
            VisitStep::Visited(tc, skip) => {
                let id = tc.id();
                let failed = failing.contains(&id.as_str());
                visits.push((id, skip));
                if failed {
                    visitor.report_failure();
                }
            }
            VisitStep::Advanced => {}
            VisitStep::Finished => break,
        }
    }
    visits
}

fn fixture_suite() -> TestSuite {
    // Suite fixture with setup and teardown, one file without file-level
    // fixtures holding the cases `a` and `b`.
    let fixture = TestSuiteFixture {
        setup_test_case: Some(case("fixture.sh", "setup")),
        teardown_test_case: Some(case("fixture.sh", "teardown")),
    };
    let file = TestFile {
        setup_test_case: None,
        teardown_test_case: None,
        test_cases: vec![case("file1.sh", "a"), case("file1.sh", "b")],
    };
    TestSuite::new("suite", config(), vec![file], fixture)
}

#[test]
fn suite_setup_passes_nothing_skipped() {
    let suite = fixture_suite();
    let visits = walk(&suite, &[]);
    let expected = [
        ("fixture.sh::setup", ShouldSkip::No),
        ("file1.sh::a", ShouldSkip::No),
        ("file1.sh::b", ShouldSkip::No),
        ("fixture.sh::teardown", ShouldSkip::No),
    ];
    assert_eq!(visits.len(), expected.len());
    for ((id, skip), (expected_id, expected_skip)) in visits.iter().zip(expected.iter()) {
        assert_eq!(id, expected_id);
        assert_eq!(skip, expected_skip);
    }
}

#[test]
fn suite_setup_failure_skips_everything_after() {
    let suite = fixture_suite();
    let visits = walk(&suite, &["fixture.sh::setup"]);
    let yes = ShouldSkip::Yes(SkipReason::TestSuiteSetupError);
    let expected = [
        ("fixture.sh::setup", ShouldSkip::No),
        ("file1.sh::a", yes.clone()),
        ("file1.sh::b", yes.clone()),
        ("fixture.sh::teardown", yes.clone()),
    ];
    assert_eq!(visits.len(), expected.len());
    for ((id, skip), (expected_id, expected_skip)) in visits.iter().zip(expected.iter()) {
        assert_eq!(id, expected_id);
        assert_eq!(skip, expected_skip);
    }
}

#[test]
fn file_setup_failure_skips_only_that_file() {
    // file1 has a failing setup, its own cases and teardown; file2 has no
    // setup of its own.
    let file1 = TestFile {
        setup_test_case: Some(case("file1.sh", "setup")),
        teardown_test_case: Some(case("file1.sh", "teardown")),
        test_cases: vec![case("file1.sh", "case1"), case("file1.sh", "case2")],
    };
    let file2 = TestFile {
        setup_test_case: None,
        teardown_test_case: None,
        test_cases: vec![case("file2.sh", "case1")],
    };
    let suite = TestSuite::new(
        "suite",
        config(),
        vec![file1, file2],
        TestSuiteFixture::default(),
    );
    let visits = walk(&suite, &["file1.sh::setup"]);
    let yes = ShouldSkip::Yes(SkipReason::TestCaseSetupError);
    let expected = [
        ("file1.sh::setup", ShouldSkip::No),
        ("file1.sh::case1", yes.clone()),
        ("file1.sh::case2", yes.clone()),
        ("file1.sh::teardown", yes.clone()),
        ("file2.sh::case1", ShouldSkip::No),
    ];
    assert_eq!(visits.len(), expected.len());
    for ((id, skip), (expected_id, expected_skip)) in visits.iter().zip(expected.iter()) {
        assert_eq!(id, expected_id);
        assert_eq!(skip, expected_skip);
    }
}

#[test]
fn test_case_failures_raise_no_flag() {
    let suite = fixture_suite();
    // `a` fails: `b` and the teardown are still offered without skipping.
    let visits = walk(&suite, &["file1.sh::a"]);
    for (_, skip) in &visits {
        assert_eq!(skip, &ShouldSkip::No);
    }
}

#[test]
fn full_traversal_yields_canonical_order() {
    let file1 = TestFile {
        setup_test_case: Some(case("file1.sh", "setup")),
        teardown_test_case: Some(case("file1.sh", "teardown")),
        test_cases: vec![case("file1.sh", "test_one"), case("file1.sh", "test_two")],
    };
    let file2 = TestFile {
        setup_test_case: None,
        teardown_test_case: Some(case("file2.sh", "teardown")),
        test_cases: vec![case("file2.sh", "test_three")],
    };
    let fixture = TestSuiteFixture {
        setup_test_case: Some(case("fixture.sh", "setup")),
        teardown_test_case: Some(case("fixture.sh", "teardown")),
    };
    let suite = TestSuite::new("suite", config(), vec![file1, file2], fixture);
    let mut visitor = Visitor::new(&suite);
    let ids: Vec<String> = visitor.visit_all_ok().iter().map(|tc| tc.id()).collect();
    assert_eq!(
        ids,
        vec![
            "fixture.sh::setup",
            "file1.sh::setup",
            "file1.sh::test_one",
            "file1.sh::test_two",
            "file1.sh::teardown",
            "file2.sh::test_three",
            "file2.sh::teardown",
            "fixture.sh::teardown",
        ]
    );
    // A completed traversal stays completed.
    assert!(visitor.done());
    assert!(matches!(visitor.visit_next(), VisitStep::Finished));
}

#[test]
fn empty_suite_traversal_is_empty() {
    let suite = TestSuite::new("suite", config(), Vec::new(), TestSuiteFixture::default());
    let mut visitor = Visitor::new(&suite);
    assert!(visitor.visit_all_ok().is_empty());
    assert!(visitor.done());
}

#[test]
fn skip_with_reason_keeps_the_higher_rank() {
    let mut advice = ShouldSkip::No;
    advice.skip_with_reason(SkipReason::TestCaseSetupError);
    assert_eq!(advice, ShouldSkip::Yes(SkipReason::TestCaseSetupError));
    // A suite-scoped reason outranks a file-scoped one.
    advice.skip_with_reason(SkipReason::TestSuiteSetupError);
    assert_eq!(advice, ShouldSkip::Yes(SkipReason::TestSuiteSetupError));
    // ... and is never downgraded.
    advice.skip_with_reason(SkipReason::TestCaseSetupError);
    assert_eq!(advice, ShouldSkip::Yes(SkipReason::TestSuiteSetupError));
    advice.skip_with_reason(SkipReason::TestCaseSpecificReason("flaky".to_string()));
    assert_eq!(advice, ShouldSkip::Yes(SkipReason::TestSuiteSetupError));
}
