//! The test harness: test cases, a runner that refuses to report unexecuted tests as passed,
//! doc-test extraction and a property checker.

use crate::ast::{Item, Module};
use crate::text::{concat2, concat3, decimal, decimal_string, has_prefix, lines_of, str_eq, str_starts_with,
    substring_from, text_lines, trim, trimmed};
use std::collections::HashMap;
use std::hash::{Hash, Hasher};
use std::collections::hash_map::DefaultHasher;
use std::time::{Duration, Instant, SystemTime};
use vstd::prelude::*;
use vstd::string::StringExecFns;

verus! {

#[verifier::external_type_specification]
#[verifier::external_body]
pub struct ExInstant(Instant);

/// Reads the monotonic clock (std's `Instant::now`); nothing is claimed of the reading.
#[verifier::external_body]
fn clock_now() -> Instant {
    Instant::now()
}

/// The time since `start` (std's `Instant::elapsed`); nothing is claimed of it.
#[verifier::external_body]
fn elapsed_since(start: &Instant) -> Duration {
    start.elapsed()
}

/// Whole microseconds of a duration, cut to 64 bits (std's `Duration::as_micros`).
#[verifier::external_body]
fn duration_micros(d: &Duration) -> u64 {
    d.as_micros() as u64
}

#[verifier::external_type_specification]
#[verifier::external_body]
pub struct ExSystemTime(SystemTime);

/// Reads the wall clock (std's `SystemTime::now`); nothing is claimed of the reading.
#[verifier::external_body]
fn wall_clock_now() -> SystemTime {
    SystemTime::now()
}

/// Feeds a wall-clock reading to a hasher (std's `Hash::hash` for `SystemTime`); nothing is
/// claimed of the hasher's state.
#[verifier::external_body]
fn hash_time(t: &SystemTime, hasher: &mut DefaultHasher) {
    t.hash(hasher)
}

/// A number derived from the wall clock: its reading hashed. It varies from call to call.
fn clock_seed() -> u64 {
    let mut hasher = DefaultHasher::new();
    let now = wall_clock_now();
    hash_time(&now, &mut hasher);
    hasher.finish()
}

/// Runs test cases and collects their results.
pub struct TestRunner {
    tests: Vec<TestCase>,
    results: Vec<TestResult>,
    fail_fast: bool,
}

/// One test: its name, kind, code, expectation and where it was declared.
#[derive(Debug, Clone)]
pub struct TestCase {
    pub name: String,
    pub ty: TestType,
    pub code: String,
    pub expectation: TestExpectation,
    pub source_file: String,
    pub line: u32,
}

/// The kind of a test.
#[derive(Debug, Clone, Copy, PartialEq, Eq, Structural)]
pub enum TestType {
    Unit,
    Integration,
    Doc,
    Property,
}

/// What a test expects of its run.
#[derive(Debug, Clone)]
pub enum TestExpectation {
    Success,
    Failure(String),
    CompileError(String),
    RuntimeError(String),
    Output(String),
}

/// The outcome of one test.
#[derive(Debug, Clone)]
pub struct TestResult {
    pub name: String,
    pub passed: bool,
    pub duration_us: u64,
    pub output: String,
    pub error: Option<String>,
}

/// A named group of tests with optional set-up and tear-down code.
pub struct TestSuite {
    pub name: String,
    pub tests: Vec<TestCase>,
    pub setup: Option<String>,
    pub teardown: Option<String>,
}

/// The state a test runs in.
pub struct TestContext {
    pub globals: HashMap<String, Value>,
    pub module: Option<Module>,
    pub output: Vec<String>,
}

/// A value a test observes.
#[derive(Debug)]
pub enum Value {
    U64(u64),
    U128(u128),
    Bool(bool),
    String(String),
    Address([u8; 32]),
    Hash([u8; 32]),
    Resource(String, HashMap<String, Value>),
    Receipt(String, HashMap<String, Value>),
    Unit,
}

/// The totals of a run, with every result.
#[derive(Debug)]
pub struct TestSummary {
    pub total: usize,
    pub passed: usize,
    pub failed: usize,
    pub duration: Duration,
    pub results: Vec<TestResult>,
}

/// The word that names a kind of test in messages.
pub open spec fn kind_word(ty: TestType) -> Seq<char> {
    match ty {
        TestType::Unit => "unit"@,
        TestType::Integration => "integration"@,
        TestType::Doc => "doc"@,
        TestType::Property => "property"@,
    }
}

/// Why a test of the given kind and name is not reported as passed.
pub open spec fn refusal_message(ty: TestType, name: Seq<char>) -> Seq<char> {
    "cellscript "@ + kind_word(ty)
        + " test execution is still experimental and has no trusted runtime backend; refusing to report '"@ + name
        + "' as passed"@
}

/// The result the runner gives `test`: failed, with the refusal message.
pub open spec fn is_refusal_of(result: TestResult, test: TestCase) -> bool {
    &&& result.name@ == test.name@
    &&& !result.passed
    &&& result.output@ == Seq::<char>::empty()
    &&& result.error matches Some(e) && e@ == refusal_message(test.ty, test.name@)
}

/// How many of the results passed.
pub open spec fn count_passed(results: Seq<TestResult>) -> nat
    decreases results.len(),
{
    if results.len() == 0 {
        0
    } else {
        count_passed(results.drop_last()) + if results.last().passed {
            1nat
        } else {
            0nat
        }
    }
}

proof fn lemma_count_passed_bound(results: Seq<TestResult>)
    ensures
        count_passed(results) <= results.len(),
    decreases results.len(),
{
    if results.len() > 0 {
        lemma_count_passed_bound(results.drop_last());
    }
}

fn copy_result(r: &TestResult) -> (c: TestResult)
    ensures
        c.name@ == r.name@,
        c.passed == r.passed,
        c.duration_us == r.duration_us,
        c.output@ == r.output@,
        c.error == r.error,
{
    TestResult {
        name: r.name.clone(),
        passed: r.passed,
        duration_us: r.duration_us,
        output: r.output.clone(),
        error: match &r.error {
            Some(e) => Some(e.clone()),
            None => None,
        },
    }
}

impl TestRunner {
    /// The tests added so far.
    pub closed spec fn spec_tests(&self) -> Seq<TestCase> {
        self.tests@
    }

    /// The results of the runs so far.
    pub closed spec fn spec_results(&self) -> Seq<TestResult> {
        self.results@
    }

    /// Whether a run stops at the first failure.
    pub closed spec fn spec_fail_fast(&self) -> bool {
        self.fail_fast
    }

    /// A runner with no tests that runs every test.
    pub fn new() -> (r: Self)
        ensures
            r.spec_tests().len() == 0,
            r.spec_results().len() == 0,
            !r.spec_fail_fast(),
    {
        TestRunner { tests: Vec::new(), results: Vec::new(), fail_fast: false }
    }

    /// The same runner, stopping at the first failure or not.
    pub fn fail_fast(self, enabled: bool) -> (r: Self)
        ensures
            r.spec_fail_fast() == enabled,
            r.spec_tests() == self.spec_tests(),
            r.spec_results() == self.spec_results(),
    {
        let mut runner = self;
        runner.fail_fast = enabled;
        runner
    }

    /// Adds one test.
    pub fn add_test(&mut self, test: TestCase)
        ensures
            final(self).spec_tests() == old(self).spec_tests().push(test),
            final(self).spec_results() == old(self).spec_results(),
            final(self).spec_fail_fast() == old(self).spec_fail_fast(),
    {
        self.tests.push(test);
    }

    /// Adds the tests of a suite, in order.
    pub fn add_suite(&mut self, suite: TestSuite)
        ensures
            final(self).spec_tests() == old(self).spec_tests() + suite.tests@,
            final(self).spec_results() == old(self).spec_results(),
            final(self).spec_fail_fast() == old(self).spec_fail_fast(),
    {
        let mut tests = suite.tests;
        self.tests.append(&mut tests);
    }

    /// The message for a test that this harness cannot execute.
    fn unsupported_test_execution(test: &TestCase, kind: &str) -> (r: (bool, Option<String>, Option<String>))
        ensures
            !r.0,
            r.1 is None,
            r.2 matches Some(m) && m@ == "cellscript "@ + kind@
                + " test execution is still experimental and has no trusted runtime backend; refusing to report '"@
                + test.name@ + "' as passed"@,
    {
        let mut message = concat3(
            "cellscript ",
            kind,
            " test execution is still experimental and has no trusted runtime backend; refusing to report '",
        );
        message.append(test.name.as_str());
        message.append("' as passed");
        (false, None, Some(message))
    }

    fn run_test(test: &TestCase) -> (r: TestResult)
        ensures
            is_refusal_of(r, *test),
    {
        let start = clock_now();
        let (passed, output, error) = match test.ty {
            TestType::Unit => Self::unsupported_test_execution(test, "unit"),
            TestType::Integration => Self::unsupported_test_execution(test, "integration"),
            TestType::Doc => Self::unsupported_test_execution(test, "doc"),
            TestType::Property => Self::unsupported_test_execution(test, "property"),
        };
        let duration = elapsed_since(&start);
        TestResult {
            name: test.name.clone(),
            passed,
            duration_us: duration_micros(&duration),
            output: match output {
                Some(o) => o,
                None => String::new(),
            },
            error,
        }
    }

    /// Runs the tests in order, stopping after the first failure when asked to, and sums up all
    /// results so far. No test is executed yet: each is reported failed with the reason.
    pub fn run(&mut self) -> (r: TestSummary)
        ensures
            final(self).spec_tests() == old(self).spec_tests(),
            final(self).spec_fail_fast() == old(self).spec_fail_fast(),
            final(self).spec_results().len() == old(self).spec_results().len() + (if old(self).spec_fail_fast()
                && old(self).spec_tests().len() > 0 {
                1
            } else {
                old(self).spec_tests().len()
            }),
            forall|k: int| 0 <= k < old(self).spec_results().len() ==> final(self).spec_results()[k] == old(
                self,
            ).spec_results()[k],
            forall|k: int|
                0 <= k < final(self).spec_results().len() - old(self).spec_results().len() ==> is_refusal_of(
                    #[trigger] final(self).spec_results()[old(self).spec_results().len() + k],
                    old(self).spec_tests()[k],
                ),
            r.total == final(self).spec_results().len(),
            r.passed == count_passed(final(self).spec_results()),
            r.failed == r.total - r.passed,
            r.results@.len() == r.total,
            forall|k: int|
                0 <= k < r.results@.len() ==> {
                    &&& (#[trigger] r.results@[k]).name@ == final(self).spec_results()[k].name@
                    &&& r.results@[k].passed == final(self).spec_results()[k].passed
                    &&& r.results@[k].output@ == final(self).spec_results()[k].output@
                    &&& r.results@[k].error == final(self).spec_results()[k].error
                },
    {
        let start = clock_now();
        let ghost before = self.results@;
        let mut i: usize = 0;
        while i < self.tests.len()
            invariant_except_break
                self.fail_fast ==> i == 0,
            invariant
                i <= self.tests@.len(),
                self.tests == old(self).tests,
                self.fail_fast == old(self).fail_fast,
                before == old(self).results@,
                self.results@.len() == before.len() + i,
                forall|k: int| 0 <= k < before.len() ==> self.results@[k] == before[k],
                forall|k: int| 0 <= k < i ==> is_refusal_of(#[trigger] self.results@[before.len() + k], self.tests@[k]),
            ensures
                self.fail_fast ==> i == (if self.tests@.len() > 0 { 1int } else { 0int }),
                !self.fail_fast ==> i == self.tests@.len(),
            decreases self.tests@.len() - i,
        {
            let result = Self::run_test(&self.tests[i]);
            let passed = result.passed;
            self.results.push(result);
            i += 1;
            if !passed && self.fail_fast {
                break;
            }
        }
        let duration = elapsed_since(&start);
        let mut passed: usize = 0;
        let mut failed: usize = 0;
        let mut results: Vec<TestResult> = Vec::new();
        let mut k: usize = 0;
        while k < self.results.len()
            invariant
                k <= self.results@.len(),
                passed == count_passed(self.results@.take(k as int)),
                passed + failed == k,
                results@.len() == k,
                forall|j: int|
                    0 <= j < k ==> {
                        &&& (#[trigger] results@[j]).name@ == self.results@[j].name@
                        &&& results@[j].passed == self.results@[j].passed
                        &&& results@[j].output@ == self.results@[j].output@
                        &&& results@[j].error == self.results@[j].error
                    },
            decreases self.results@.len() - k,
        {
            proof {
                assert(self.results@.take(k + 1).drop_last() =~= self.results@.take(k as int));
            }
            if self.results[k].passed {
                passed += 1;
            } else {
                failed += 1;
            }
            results.push(copy_result(&self.results[k]));
            k += 1;
        }
        proof {
            assert(self.results@.take(self.results@.len() as int) =~= self.results@);
        }
        TestSummary { total: self.results.len(), passed, failed, duration, results }
    }
}

impl TestSummary {
    /// Whether no test failed.
    pub fn all_passed(&self) -> (r: bool)
        ensures
            r == (self.failed == 0),
    {
        self.failed == 0
    }
}

/// The names of the actions whose name starts with `test_`, in order.
pub open spec fn test_action_names(items: Seq<Item>) -> Seq<Seq<char>>
    decreases items.len(),
{
    if items.len() == 0 {
        Seq::empty()
    } else {
        let rest = test_action_names(items.drop_last());
        match items.last() {
            Item::Action(a) => if has_prefix(a.name@, "test_"@) {
                rest.push(a.name@)
            } else {
                rest
            },
            _ => rest,
        }
    }
}

/// A test case found in source: a unit test of the given name with no code or location.
pub open spec fn is_found_unit_test(t: TestCase, name: Seq<char>) -> bool {
    &&& t.name@ == name
    &&& t.ty == TestType::Unit
    &&& t.code@ == Seq::<char>::empty()
    &&& t.expectation is Success
    &&& t.source_file@ == Seq::<char>::empty()
    &&& t.line == 0
}

/// What a doc-test scan has seen so far: whether it is inside a test block, the code lines of
/// that block, the line number where it opened, and the tests it closed, each with its line
/// number and code lines.
pub struct DocScan {
    pub in_test: bool,
    pub code: Seq<Seq<char>>,
    pub line_num: nat,
    pub tests: Seq<(nat, Seq<Seq<char>>)>,
}

/// The doc-test scan over the first `k` lines.
pub open spec fn doc_scan(lines: Seq<Seq<char>>, k: int) -> DocScan
    decreases k,
{
    if k <= 0 || k > lines.len() {
        DocScan { in_test: false, code: Seq::empty(), line_num: 0, tests: Seq::empty() }
    } else {
        let s = doc_scan(lines, k - 1);
        let t = trimmed(lines[k - 1]);
        if has_prefix(t, "/// ```cellscript"@) {
            DocScan { in_test: true, code: Seq::empty(), line_num: k as nat, tests: s.tests }
        } else if t == "/// ```"@ && s.in_test {
            DocScan { in_test: false, code: s.code, line_num: s.line_num, tests: s.tests.push((s.line_num, s.code)) }
        } else if s.in_test && has_prefix(t, "/// "@) {
            DocScan { in_test: s.in_test, code: s.code.push(t.skip(4)), line_num: s.line_num, tests: s.tests }
        } else {
            s
        }
    }
}

/// Lines joined by newlines.
pub open spec fn join_lines(lines: Seq<Seq<char>>) -> Seq<char>
    decreases lines.len(),
{
    if lines.len() == 0 {
        Seq::empty()
    } else if lines.len() == 1 {
        lines[0]
    } else {
        join_lines(lines.drop_last()) + "\n"@ + lines.last()
    }
}

/// The doc test found at `line_num` with the given code lines.
pub open spec fn is_found_doc_test(t: TestCase, line_num: nat, code: Seq<Seq<char>>) -> bool {
    &&& t.name@ == "doc_test_"@ + decimal(line_num)
    &&& t.ty == TestType::Doc
    &&& t.code@ == join_lines(code)
    &&& t.expectation is Success
    &&& t.source_file@ == Seq::<char>::empty()
    &&& t.line == line_num as u32
}

fn join_code_lines(lines: &Vec<String>) -> (r: String)
    ensures
        r@ == join_lines(lines@.map_values(|l: String| l@)),
{
    let ghost ls = lines@.map_values(|l: String| l@);
    let mut r = String::new();
    let mut i: usize = 0;
    while i < lines.len()
        invariant
            ls == lines@.map_values(|l: String| l@),
            i <= lines@.len(),
            r@ == join_lines(ls.take(i as int)),
        decreases lines@.len() - i,
    {
        if i > 0 {
            r.append("\n");
        }
        r.append(lines[i].as_str());
        proof {
            assert(ls.take(i + 1).drop_last() =~= ls.take(i as int));
            if i == 0 {
                assert(r@ =~= ls.take(1)[0]);
            }
        }
        i += 1;
    }
    assert(ls.take(lines@.len() as int) =~= ls);
    r
}

/// Extracts test cases from source.
pub struct TestParser;

impl TestParser {
    /// The actions of a module whose name starts with `test_`, as unit tests.
    pub fn extract_tests(module: &Module) -> (r: Vec<TestCase>)
        ensures
            r@.len() == test_action_names(module.items@).len(),
            forall|k: int| 0 <= k < r@.len() ==> is_found_unit_test(#[trigger] r@[k], test_action_names(module.items@)[k]),
    {
        let mut tests: Vec<TestCase> = Vec::new();
        let mut i: usize = 0;
        while i < module.items.len()
            invariant
                i <= module.items@.len(),
                tests@.len() == test_action_names(module.items@.take(i as int)).len(),
                forall|k: int| 0 <= k < tests@.len() ==> is_found_unit_test(
                    #[trigger] tests@[k],
                    test_action_names(module.items@.take(i as int))[k],
                ),
            decreases module.items@.len() - i,
        {
            proof {
                assert(module.items@.take(i + 1).drop_last() =~= module.items@.take(i as int));
            }
            if let Item::Action(action) = &module.items[i] {
                if str_starts_with(action.name.as_str(), "test_") {
                    tests.push(TestCase {
                        name: action.name.clone(),
                        ty: TestType::Unit,
                        code: String::new(),
                        expectation: TestExpectation::Success,
                        source_file: String::new(),
                        line: 0,
                    });
                }
            }
            i += 1;
        }
        assert(module.items@.take(module.items@.len() as int) =~= module.items@);
        tests
    }

    /// The code blocks of doc comments fenced by `/// ```cellscript` and `/// ````, as doc tests
    /// named by the line where they open.
    pub fn extract_doc_tests(source: &str) -> (r: Vec<TestCase>)
        ensures
            r@.len() == doc_scan(text_lines(source@), text_lines(source@).len() as int).tests.len(),
            forall|k: int|
                0 <= k < r@.len() ==> {
                    let found = doc_scan(text_lines(source@), text_lines(source@).len() as int).tests[k];
                    is_found_doc_test(#[trigger] r@[k], found.0, found.1)
                },
    {
        let lines = lines_of(source);
        let ghost ls = text_lines(source@);
        let mut tests: Vec<TestCase> = Vec::new();
        let mut in_test = false;
        let mut test_code: Vec<String> = Vec::new();
        let mut line_num: usize = 0;
        let mut i: usize = 0;
        while i < lines.len()
            invariant
                ls == text_lines(source@),
                lines@.len() == ls.len(),
                forall|k: int| 0 <= k < lines@.len() ==> (#[trigger] lines@[k])@ == ls[k],
                i <= lines@.len(),
                in_test == doc_scan(ls, i as int).in_test,
                test_code@.map_values(|l: String| l@) == doc_scan(ls, i as int).code,
                line_num as nat == doc_scan(ls, i as int).line_num,
                line_num <= i,
                tests@.len() == doc_scan(ls, i as int).tests.len(),
                forall|k: int|
                    0 <= k < tests@.len() ==> {
                        let found = doc_scan(ls, i as int).tests[k];
                        is_found_doc_test(#[trigger] tests@[k], found.0, found.1)
                    },
            decreases lines@.len() - i,
        {
            let t = trim(lines[i].as_str());
            let ghost before = doc_scan(ls, i as int);
            if str_starts_with(t.as_str(), "/// ```cellscript") {
                in_test = true;
                test_code = Vec::new();
                line_num = i + 1;
                proof {
                    assert(test_code@.map_values(|l: String| l@) =~= Seq::<Seq<char>>::empty());
                }
            } else if str_eq(t.as_str(), "/// ```") && in_test {
                in_test = false;
                let digits = decimal_string(line_num as u128);
                let code = join_code_lines(&test_code);
                tests.push(TestCase {
                    name: concat2("doc_test_", digits.as_str()),
                    ty: TestType::Doc,
                    code,
                    expectation: TestExpectation::Success,
                    source_file: String::new(),
                    line: line_num as u32,
                });
            } else if in_test && str_starts_with(t.as_str(), "/// ") {
                proof {
                    reveal_strlit("/// ");
                }
                let rest = substring_from(t.as_str(), 4);
                test_code.push(rest);
                proof {
                    assert(test_code@.map_values(|l: String| l@) =~= before.code.push(trimmed(ls[i as int]).skip(4)));
                }
            }
            i += 1;
        }
        tests
    }
}

/// Checks properties by running them repeatedly.
pub struct PropertyTester;

/// `r` reports the calls of `property` that gave `outcomes`, in order: every call but the last
/// held, the calls stopped at the first that failed or after `iterations` of them, and a failure
/// names the iteration at which it came.
pub open spec fn reports_outcomes<F: Fn() -> bool>(property: F, outcomes: Seq<bool>, iterations: usize, r: TestResult) -> bool {
    &&& outcomes.len() <= iterations
    &&& forall|k: int| 0 <= k < outcomes.len() ==> call_ensures(property, (), #[trigger] outcomes[k])
    &&& forall|k: int| 0 <= k < outcomes.len() - 1 ==> #[trigger] outcomes[k]
    &&& r.passed <==> outcomes.len() == iterations && (forall|k: int| 0 <= k < outcomes.len() ==> #[trigger] outcomes[k])
    &&& !r.passed ==> !outcomes.last() && (r.error matches Some(e) && e@ == "Property failed at iteration "@ + decimal(
        (outcomes.len() - 1) as nat,
    ))
}

impl PropertyTester {
    /// A number derived from the wall clock; it varies from call to call.
    pub fn random_u64() -> u64 {
        clock_seed()
    }

    /// Thirty-two bytes, byte `i` taken from a fresh clock-derived number shifted right by `2i`.
    pub fn random_address() -> [u8; 32] {
        let mut addr = [0u8; 32];
        let mut i: usize = 0;
        while i < 32
            invariant
                i <= 32,
            decreases 32 - i,
        {
            let shift = (i * 2) as u64;
            let value = Self::random_u64() >> shift;
            addr.set(i, (value % 256) as u8);
            i += 1;
        }
        addr
    }

    /// Calls `property` up to `iterations` times and reports the first iteration at which it
    /// returned false, or success after all of them.
    pub fn verify<F: Fn() -> bool>(name: &str, property: F, iterations: usize) -> (r: TestResult)
        requires
            call_requires(property, ()),
            forall|b: bool| call_ensures(property, (), b) ==> call_requires(property, ()),
        ensures
            r.name@ == name@,
            r.passed ==> r.error is None && r.output@ == "Verified "@ + decimal(iterations as nat) + " iterations"@,
            !r.passed ==> r.output@ == Seq::<char>::empty() && exists|i: nat|
                i < iterations && (r.error matches Some(e) && e@ == "Property failed at iteration "@ + #[trigger] decimal(
                    i,
                )),
            iterations == 0 ==> r.passed,
            !r.passed ==> call_ensures(property, (), false),
            r.passed && iterations > 0 ==> call_ensures(property, (), true),
            (forall|b: bool| call_ensures(property, (), b) ==> b) ==> r.passed,
            iterations > 0 && (forall|b: bool| call_ensures(property, (), b) ==> !b) ==> !r.passed && (r.error matches Some(
                e) && e@ == "Property failed at iteration "@ + decimal(0)),
            exists|outcomes: Seq<bool>| #[trigger] reports_outcomes(property, outcomes, iterations, r),
    {
        let start = clock_now();
        let mut i: usize = 0;
        let ghost mut seen: Seq<bool> = Seq::empty();
        while i < iterations
            invariant
                i <= iterations,
                seen.len() == i,
                forall|k: int| 0 <= k < seen.len() ==> call_ensures(property, (), #[trigger] seen[k]),
                forall|k: int| 0 <= k < seen.len() ==> #[trigger] seen[k],
                i > 0 ==> call_ensures(property, (), true),
                i > 0 ==> !(forall|b: bool| call_ensures(property, (), b) ==> !b),
                call_requires(property, ()),
                forall|b: bool| call_ensures(property, (), b) ==> call_requires(property, ()),
            decreases iterations - i,
        {
            let ok = property();
            proof {
                seen = seen.push(ok);
            }
            if !ok {
                let digits = decimal_string(i as u128);
                let elapsed = elapsed_since(&start);
                let r = TestResult {
                    name: name.to_owned(),
                    passed: false,
                    duration_us: duration_micros(&elapsed),
                    output: String::new(),
                    error: Some(concat2("Property failed at iteration ", digits.as_str())),
                };
                assert(!seen[i as int]);
                assert(seen.last() == seen[i as int]);
                assert(((seen.len() - 1) as nat) == i as nat);
                assert(reports_outcomes(property, seen, iterations, r));
                return r;
            }
            i += 1;
        }
        let digits = decimal_string(iterations as u128);
        let elapsed = elapsed_since(&start);
        let r = TestResult {
            name: name.to_owned(),
            passed: true,
            duration_us: duration_micros(&elapsed),
            output: concat3("Verified ", digits.as_str(), " iterations"),
            error: None,
        };
        assert(reports_outcomes(property, seen, iterations, r));
        r
    }
}

} // verus!
