use cellscript::test::{PropertyTester, TestCase, TestExpectation, TestParser, TestRunner, TestSuite, TestType};

#[test]
fn test_test_runner() {
    let mut runner = TestRunner::new();

    runner.add_test(TestCase {
        name: "test_pass".to_string(),
        ty: TestType::Unit,
        code: String::new(),
        expectation: TestExpectation::Success,
        source_file: String::new(),
        line: 0,
    });

    let summary = runner.run();
    assert_eq!(summary.total, 1);
    assert_eq!(summary.failed, 1);
    assert!(!summary.all_passed());
    assert!(summary.results[0].error.as_deref().unwrap_or_default().contains("still experimental"));
}

#[test]
fn test_property_tester() {
    let result = PropertyTester::verify("always_true", || true, 100);
    assert!(result.passed);

    let result = PropertyTester::verify("always_false", || false, 100);
    assert!(!result.passed);
}

#[test]
fn test_doc_test_extraction() {
    let source = r#"
/// Some documentation
/// ```cellscript
/// let x = 42;
/// assert!(x == 42);
/// ```
resource Test {}
"#;

    let tests = TestParser::extract_doc_tests(source);
    assert_eq!(tests.len(), 1);
    assert!(tests[0].code.contains("let x = 42"));
}

#[test]
fn property_tester_reports_iteration_counts() {
    let passed = PropertyTester::verify("always_true", || true, 3);
    assert_eq!(passed.output, "Verified 3 iterations");
    assert_eq!(passed.error, None);
    let failed = PropertyTester::verify("always_false", || false, 3);
    assert_eq!(failed.error.as_deref(), Some("Property failed at iteration 0"));
    assert_eq!(failed.output, "");
    assert!(PropertyTester::verify("vacuous", || false, 0).passed);
}

#[test]
fn empty_runner_passes_and_suites_add_their_tests() {
    let mut empty = TestRunner::new();
    let summary = empty.run();
    assert_eq!(summary.total, 0);
    assert!(summary.all_passed());

    let case = |name: &str| TestCase {
        name: name.to_string(),
        ty: TestType::Integration,
        code: String::new(),
        expectation: TestExpectation::Success,
        source_file: String::new(),
        line: 1,
    };
    let mut runner = TestRunner::new();
    runner.add_suite(TestSuite { name: "suite".to_string(), tests: vec![case("a"), case("b")], setup: None, teardown: None });
    let summary = runner.run();
    assert_eq!(summary.total, 2);
    assert_eq!(summary.failed, 2);
    assert_eq!(summary.results[1].name, "b");
}

#[test]
fn doc_tests_without_a_cellscript_fence_are_ignored() {
    let source = "/// plain docs\n/// ```rust\n/// let y = 1;\n/// ```\nresource R {}\n";
    assert!(TestParser::extract_doc_tests(source).is_empty());
}

#[test]
fn property_tester_reports_the_first_failing_iteration() {
    let calls = std::cell::Cell::new(0u32);
    let result = PropertyTester::verify(
        "fails_third",
        || {
            let n = calls.get();
            calls.set(n + 1);
            n < 2
        },
        10,
    );
    assert!(!result.passed);
    assert_eq!(result.error.as_deref(), Some("Property failed at iteration 2"));
    assert_eq!(calls.get(), 3);
}
