//! Test runs: which languages a project uses, which commands test them,
//! and how failures are read from the runners' output.
use crate::messages::opt_str;
use crate::text::{
    bufs_view, chars_of, contains_seq, is_white_space, lines_of, lines_spec, parse_u32,
    parse_u32_spec, push_str, starts_with, str_contains, str_eq, string_from,
};
use vstd::prelude::*;
use vstd::string::*;

verus! {

// ---------------------------------------------------------------------------
// Results
// ---------------------------------------------------------------------------
/// One frame of a stack trace.
#[derive(Debug, Clone)]
pub struct StackFrame {
    pub function_name: Option<String>,
    pub file_path: Option<String>,
    pub line_number: Option<u32>,
    pub column: Option<u32>,
}

/// A failed test as read from a runner's output.
#[derive(Debug, Clone)]
pub struct FailedTest {
    pub name: String,
    pub file_path: Option<String>,
    pub line_number: Option<u32>,
    pub message: String,
    pub expected: Option<String>,
    pub actual: Option<String>,
    /// Stack frames of this failure.
    pub stack_trace: Option<Vec<StackFrame>>,
    /// Source files that may be relevant to this failure.
    pub related_files: Vec<String>,
}

/// Outcome of one test command.
#[derive(Debug, Clone)]
pub struct TestResult {
    pub command: String,
    pub stdout: String,
    pub stderr: String,
    pub success: bool,
    pub exit_code: Option<i32>,
    pub failed_tests: Vec<FailedTest>,
}

/// Commands that test one language.
#[derive(Debug, Clone)]
pub struct TestConfig {
    pub commands: Vec<TestCommand>,
}

/// A program and its arguments.
#[derive(Debug, Clone)]
pub struct TestCommand {
    pub command: String,
    pub args: Vec<String>,
}

/// Value of a [`StackFrame`].
pub struct StackFrameView {
    pub function_name: Option<Seq<char>>,
    pub file_path: Option<Seq<char>>,
    pub line_number: Option<u32>,
    pub column: Option<u32>,
}

impl View for StackFrame {
    type V = StackFrameView;

    open spec fn view(&self) -> StackFrameView {
        StackFrameView {
            function_name: opt_str(self.function_name),
            file_path: opt_str(self.file_path),
            line_number: self.line_number,
            column: self.column,
        }
    }
}

/// Views of stack frames.
pub open spec fn frames_view(v: Seq<StackFrame>) -> Seq<StackFrameView> {
    v.map_values(|f: StackFrame| f@)
}

/// Views of strings.
pub open spec fn strs_view(v: Seq<String>) -> Seq<Seq<char>> {
    v.map_values(|s: String| s@)
}

/// Value of a [`FailedTest`].
pub struct FailedTestView {
    pub name: Seq<char>,
    pub file_path: Option<Seq<char>>,
    pub line_number: Option<u32>,
    pub message: Seq<char>,
    pub expected: Option<Seq<char>>,
    pub actual: Option<Seq<char>>,
    pub stack_trace: Option<Seq<StackFrameView>>,
    pub related_files: Seq<Seq<char>>,
}

impl View for FailedTest {
    type V = FailedTestView;

    open spec fn view(&self) -> FailedTestView {
        FailedTestView {
            name: self.name@,
            file_path: opt_str(self.file_path),
            line_number: self.line_number,
            message: self.message@,
            expected: opt_str(self.expected),
            actual: opt_str(self.actual),
            stack_trace: match self.stack_trace {
                Some(v) => Some(frames_view(v@)),
                None => None,
            },
            related_files: strs_view(self.related_files@),
        }
    }
}

/// Views of failed tests.
pub open spec fn tests_view(v: Seq<FailedTest>) -> Seq<FailedTestView> {
    v.map_values(|t: FailedTest| t@)
}

/// A failure with a name, a location and a message, and nothing else.
pub open spec fn plain_failure(
    name: Seq<char>,
    file: Option<Seq<char>>,
    line: Option<u32>,
    message: Seq<char>,
) -> FailedTestView {
    FailedTestView {
        name,
        file_path: file,
        line_number: line,
        message,
        expected: None,
        actual: None,
        stack_trace: None,
        related_files: Seq::empty(),
    }
}

fn new_failure(name: String, file: Option<String>, line: Option<u32>, message: String) -> (t: FailedTest)
    ensures
        t@ == plain_failure(name@, opt_str(file), line, message@),
{
    let frames: Vec<String> = Vec::new();
    assert(strs_view(frames@) =~= Seq::<Seq<char>>::empty());
    FailedTest {
        name,
        file_path: file,
        line_number: line,
        message,
        expected: None,
        actual: None,
        stack_trace: None,
        related_files: frames,
    }
}

// ---------------------------------------------------------------------------
// Regular expressions
// ---------------------------------------------------------------------------
/// The capture groups (group 0 first) of the first match of the regular
/// expression `pattern` in `text`, as `regex::Regex::captures` finds it;
/// `None` when there is no match.
pub uninterp spec fn regex_captures(pattern: Seq<char>, text: Seq<char>) -> Option<Seq<Option<Seq<char>>>>;

/// Views of capture groups.
pub open spec fn groups_view(r: Option<Vec<Option<String>>>) -> Option<Seq<Option<Seq<char>>>> {
    match r {
        Some(v) => Some(v@.map_values(|g: Option<String>| opt_str(g))),
        None => None,
    }
}

/// Compiles `pattern` (`regex::Regex::new`) and returns the groups of its
/// first match in `text` (`Regex::captures`); the result is named by
/// [`regex_captures`]. The patterns handed in are the constants of this
/// module, which compile.
#[verifier::external_body]
fn captures(pattern: &str, text: &str) -> (r: Option<Vec<Option<String>>>)
    ensures
        groups_view(r) == regex_captures(pattern@, text@),
{
    let re = regex::Regex::new(pattern).ok()?;
    re.captures(text).map(|c| c.iter().map(|g| g.map(|m| m.as_str().to_string())).collect())
}

/// Group `i` of a match, when it took part.
pub open spec fn group(c: Seq<Option<Seq<char>>>, i: int) -> Option<Seq<char>> {
    if 0 <= i < c.len() {
        c[i]
    } else {
        None
    }
}

fn take_group(c: &Vec<Option<String>>, i: usize) -> (g: Option<String>)
    ensures
        opt_str(g) == group(c@.map_values(|g: Option<String>| opt_str(g)), i as int),
{
    if i < c.len() {
        match &c[i] {
            Some(s) => Some(s.clone()),
            None => None,
        }
    } else {
        None
    }
}

/// A number parsed from an optional group.
pub open spec fn group_u32(g: Option<Seq<char>>) -> Option<u32> {
    match g {
        Some(s) => parse_u32_spec(s),
        None => None,
    }
}

fn parse_group(g: &Option<String>) -> (n: Option<u32>)
    ensures
        n == group_u32(opt_str(*g)),
{
    match g {
        Some(s) => parse_u32(s.as_str()),
        None => None,
    }
}

/// `test <name> ... FAILED` lines of the Rust test harness.
pub const RE_RUST_FAILED: &'static str = r"(?m)^test\s+(\S+)\s+\.\.\.\s+FAILED";

/// Panic locations of the Rust test harness.
pub const RE_RUST_PANIC: &'static str = r"thread '([^']+)' panicked at (.+):(\d+):(\d+)";

/// Failed `assert_eq!` reports.
pub const RE_RUST_ASSERT: &'static str = r"assertion `(.+)` failed\s*\n\s*left:\s*`([^`]+)`\s*\n\s*right:\s*`([^`]+)`";

/// `--- FAIL: <name> (` lines of `go test`.
pub const RE_GO_FAIL: &'static str = r"(?m)^---\s*FAIL:\s*(\S+)\s*\(";

/// `file.go:<line>: <message>` lines of `go test`.
pub const RE_GO_LOCATION: &'static str = r"(?m)^\s*(\S+\.go):(\d+):\s*(.+)$";

/// Failed-test lines of Jest and Vitest.
pub const RE_JS_FAIL: &'static str = r"(?m)[✕✗×]\s+(.+?)\s*(?:\(\d+\s*ms\))?$";

/// `at fn (path:line:col)` locations of JavaScript traces.
pub const RE_JS_LOCATION: &'static str = r"at\s+\S+\s+\((.+):(\d+):(\d+)\)";

/// `FAILED file::name - message` lines of pytest.
pub const RE_PYTEST_FAIL: &'static str = r"(?m)^FAILED\s+(\S+)::(\S+)\s*(?:-\s*(.+))?$";

/// `at file.rs:line:col` frames of a Rust backtrace.
pub const RE_RUST_FRAME: &'static str = r"at\s+(.+\.rs):(\d+):(\d+)";

/// Function lines of a Rust backtrace.
pub const RE_RUST_FUNC: &'static str = r"^\s*\d+:\s+(?:0x[a-fA-F0-9]+\s+-\s+)?(.+)$";

/// The text the parsers read: standard output, a line break, standard
/// error.
pub open spec fn combined(stdout: Seq<char>, stderr: Seq<char>) -> Seq<char> {
    stdout + "\n"@ + stderr
}

fn combine(stdout: &str, stderr: &str) -> (c: Vec<char>)
    ensures
        c@ == combined(stdout@, stderr@),
{
    let mut s = String::from_str(stdout);
    push_str(&mut s, "\n");
    push_str(&mut s, stderr);
    chars_of(s.as_str())
}

// ---------------------------------------------------------------------------
// Rust
// ---------------------------------------------------------------------------
/// State of the line-by-line reading of Rust test output: failures so far,
/// the pending test's name, and the location last seen.
pub struct LineScan {
    pub failed: Seq<FailedTestView>,
    pub test: Option<Seq<char>>,
    pub file: Option<Seq<char>>,
    pub line: Option<u32>,
    pub message: Seq<char>,
}

/// The pending test, if any, recorded as a failure.
pub open spec fn flush(st: LineScan) -> Seq<FailedTestView> {
    match st.test {
        Some(name) => st.failed.push(plain_failure(name, st.file, st.line, st.message)),
        None => st.failed,
    }
}

/// One line of Rust test output, given the groups of its `FAILED` match
/// and of its panic match: a `FAILED` line records the pending test
/// (taking its location) and starts a new one; otherwise a panic line sets
/// the location.
pub open spec fn rust_step_groups(
    st: LineScan,
    failed: Option<Seq<Option<Seq<char>>>>,
    panic: Option<Seq<Option<Seq<char>>>>,
) -> LineScan {
    match failed {
        Some(c) => LineScan {
            failed: flush(st),
            test: group(c, 1),
            file: if st.test.is_some() { None } else { st.file },
            line: if st.test.is_some() { None } else { st.line },
            message: st.message,
        },
        None => match panic {
            Some(c) => LineScan { file: group(c, 2), line: group_u32(group(c, 3)), ..st },
            None => st,
        },
    }
}

/// One line of Rust test output (see [`rust_step_groups`]).
pub open spec fn rust_step(st: LineScan, line: Seq<char>) -> LineScan {
    rust_step_groups(st, regex_captures(RE_RUST_FAILED@, line), regex_captures(RE_RUST_PANIC@, line))
}

/// Reading state after the first `n` lines.
pub open spec fn rust_scan(lines: Seq<Seq<char>>, n: nat) -> LineScan
    decreases n,
{
    if n == 0 {
        LineScan { failed: Seq::empty(), test: None, file: None, line: None, message: Seq::empty() }
    } else {
        rust_step(rust_scan(lines, (n - 1) as nat), lines[n - 1])
    }
}

/// Failures with the expected and actual values of an assertion report.
pub open spec fn with_assertion(ts: Seq<FailedTestView>, c: Seq<Option<Seq<char>>>) -> Seq<FailedTestView> {
    ts.map_values(|t: FailedTestView| FailedTestView { expected: group(c, 2), actual: group(c, 3), ..t })
}

/// Failures in Rust test output: the tests reported `FAILED`, each with the
/// panic location seen before its line; when an assertion report occurs,
/// every test but the last gets its expected and actual values.
pub open spec fn rust_failures(stdout: Seq<char>, stderr: Seq<char>) -> Seq<FailedTestView> {
    let text = combined(stdout, stderr);
    let ls = lines_spec(text);
    let st = rust_scan(ls, ls.len());
    let done = match regex_captures(RE_RUST_ASSERT@, text) {
        Some(c) => with_assertion(st.failed, c),
        None => st.failed,
    };
    flush(LineScan { failed: done, ..st })
}

fn string_of(cs: &Vec<char>) -> (s: String)
    ensures
        s@ == cs@,
{
    string_from(cs.as_slice())
}

/// The reading of Rust test output in progress.
pub struct RustScan {
    pub failed: Vec<FailedTest>,
    pub test: Option<String>,
    pub file: Option<String>,
    pub line: Option<u32>,
}

impl View for RustScan {
    type V = LineScan;

    open spec fn view(&self) -> LineScan {
        LineScan {
            failed: tests_view(self.failed@),
            test: opt_str(self.test),
            file: opt_str(self.file),
            line: self.line,
            message: Seq::empty(),
        }
    }
}

impl RustScan {
    /// Nothing read yet.
    pub fn new() -> (r: Self)
        ensures
            r@ == (LineScan { failed: Seq::empty(), test: None, file: None, line: None, message: Seq::empty() }),
    {
        let r = RustScan { failed: Vec::new(), test: None, file: None, line: None };
        assert(tests_view(r.failed@) =~= Seq::<FailedTestView>::empty());
        r
    }

    /// Reads one line, given the groups of its `FAILED` match and, when
    /// that did not match, of its panic match (see [`rust_step_groups`]).
    pub fn step(&mut self, failed: Option<Vec<Option<String>>>, panic: Option<Vec<Option<String>>>)
        ensures
            final(self)@ == rust_step_groups(old(self)@, groups_view(failed), groups_view(panic)),
    {
        match failed {
            Some(c) => {
                if self.test.is_some() {
                    let name = self.test.take().unwrap();
                    let ghost prev = tests_view(self.failed@);
                    let t = new_failure(name, self.file.take(), self.line, String::new());
                    self.failed.push(t);
                    assert(tests_view(self.failed@) =~= prev.push(t@));
                    self.line = None;
                }
                self.test = take_group(&c, 1);
            },
            None => {
                match panic {
                    Some(c) => {
                        self.file = take_group(&c, 2);
                        let g = take_group(&c, 3);
                        self.line = parse_group(&g);
                    },
                    None => {},
                }
            },
        }
    }

    /// Ends the reading: the assertion report's values (the groups of its
    /// match, when there is one) go to every failure so far, then the
    /// pending test is recorded.
    pub fn finish(self, assertion: Option<Vec<Option<String>>>) -> (out: Vec<FailedTest>)
        ensures
            tests_view(out@) == flush(
                LineScan {
                    failed: match groups_view(assertion) {
                        Some(c) => with_assertion(self@.failed, c),
                        None => self@.failed,
                    },
                    ..self@
                },
            ),
    {
        let RustScan { mut failed, test, file, line } = self;
        match assertion {
            Some(c) => {
                let ghost prev = tests_view(failed@);
                let expected = take_group(&c, 2);
                let actual = take_group(&c, 3);
                let mut j: usize = 0;
                while j < failed.len()
                    invariant
                        j <= failed.len() == prev.len(),
                        forall|k: int|
                            0 <= k < j ==> #[trigger] tests_view(failed@)[k] == (FailedTestView {
                                expected: opt_str(expected),
                                actual: opt_str(actual),
                                ..prev[k]
                            }),
                        forall|k: int| j <= k < prev.len() ==> #[trigger] tests_view(failed@)[k] == prev[k],
                    decreases prev.len() - j,
                {
                    assert(failed@[j as int]@ == tests_view(failed@)[j as int]);
                    assert(tests_view(failed@)[j as int] == prev[j as int]);
                    let t = with_values(&failed[j], &expected, &actual);
                    let ghost before = failed@;
                    failed.set(j, t);
                    assert(tests_view(failed@)[j as int] == t@);
                    assert forall|k: int| 0 <= k < prev.len() && k != j implies #[trigger] tests_view(failed@)[k]
                        == tests_view(before)[k] by {}
                    j += 1;
                }
                assert(tests_view(failed@) =~= with_assertion(
                    prev,
                    c@.map_values(|g: Option<String>| opt_str(g)),
                ));
            },
            None => {},
        }
        match test {
            Some(name) => {
                let ghost prev = tests_view(failed@);
                let t = new_failure(name, file, line, String::new());
                failed.push(t);
                assert(tests_view(failed@) =~= prev.push(t@));
            },
            None => {},
        }
        failed
    }
}

fn parse_rust_test_output(stdout: &str, stderr: &str) -> (out: Vec<FailedTest>)
    ensures
        tests_view(out@) == rust_failures(stdout@, stderr@),
{
    let text = combine(stdout, stderr);
    let ls = lines_of(text.as_slice());
    let ghost lv = bufs_view(ls@);
    let mut scan = RustScan::new();
    let mut i: usize = 0;
    while i < ls.len()
        invariant
            i <= ls.len(),
            lv == bufs_view(ls@),
            rust_scan(lv, i as nat) == scan@,
        decreases ls.len() - i,
    {
        let l = string_of(&ls[i]);
        assert(l@ == lv[i as int]);
        let failed = captures(RE_RUST_FAILED, l.as_str());
        let panic = if failed.is_some() {
            None
        } else {
            captures(RE_RUST_PANIC, l.as_str())
        };
        scan.step(failed, panic);
        i += 1;
    }
    let text_s = string_of(&text);
    let assertion = captures(RE_RUST_ASSERT, text_s.as_str());
    scan.finish(assertion)
}

fn copy_strings(v: &Vec<String>) -> (r: Vec<String>)
    ensures
        strs_view(r@) == strs_view(v@),
{
    let mut r: Vec<String> = Vec::new();
    let mut i: usize = 0;
    while i < v.len()
        invariant
            i <= v.len(),
            strs_view(r@) =~= strs_view(v@).take(i as int),
        decreases v.len() - i,
    {
        let x = v[i].clone();
        let ghost prev = r@;
        r.push(x);
        assert(strs_view(r@) =~= strs_view(prev).push(x@));
        i += 1;
    }
    r
}

fn copy_frame(f: &StackFrame) -> (r: StackFrame)
    ensures
        r@ == f@,
{
    StackFrame {
        function_name: crate::messages::copy_opt(&f.function_name),
        file_path: crate::messages::copy_opt(&f.file_path),
        line_number: f.line_number,
        column: f.column,
    }
}

fn copy_frames(v: &Vec<StackFrame>) -> (r: Vec<StackFrame>)
    ensures
        frames_view(r@) == frames_view(v@),
{
    let mut r: Vec<StackFrame> = Vec::new();
    let mut i: usize = 0;
    while i < v.len()
        invariant
            i <= v.len(),
            frames_view(r@) =~= frames_view(v@).take(i as int),
        decreases v.len() - i,
    {
        let x = copy_frame(&v[i]);
        let ghost prev = r@;
        r.push(x);
        assert(frames_view(r@) =~= frames_view(prev).push(x@));
        i += 1;
    }
    r
}

/// A copy of a failed test.
pub fn copy_failure(t: &FailedTest) -> (r: FailedTest)
    ensures
        r@ == t@,
{
    FailedTest {
        name: t.name.clone(),
        file_path: crate::messages::copy_opt(&t.file_path),
        line_number: t.line_number,
        message: t.message.clone(),
        expected: crate::messages::copy_opt(&t.expected),
        actual: crate::messages::copy_opt(&t.actual),
        stack_trace: match &t.stack_trace {
            Some(v) => Some(copy_frames(v)),
            None => None,
        },
        related_files: copy_strings(&t.related_files),
    }
}

fn with_values(t: &FailedTest, expected: &Option<String>, actual: &Option<String>) -> (r: FailedTest)
    ensures
        r@ == (FailedTestView { expected: opt_str(*expected), actual: opt_str(*actual), ..t@ }),
{
    let mut r = copy_failure(t);
    r.expected = crate::messages::copy_opt(expected);
    r.actual = crate::messages::copy_opt(actual);
    r
}

// ---------------------------------------------------------------------------
// Go
// ---------------------------------------------------------------------------
/// One line of `go test` output: a `FAIL` line records the pending test
/// (taking its location and message) and starts a new one; while a test is
/// pending, a `file.go:line: message` line sets its location and message.
pub open spec fn go_step(st: LineScan, line: Seq<char>) -> LineScan {
    match regex_captures(RE_GO_FAIL@, line) {
        Some(c) => LineScan {
            failed: flush(st),
            test: group(c, 1),
            file: if st.test.is_some() { None } else { st.file },
            line: if st.test.is_some() { None } else { st.line },
            message: if st.test.is_some() { Seq::empty() } else { st.message },
        },
        None => if st.test.is_some() {
            match regex_captures(RE_GO_LOCATION@, line) {
                Some(c) => LineScan {
                    file: group(c, 1),
                    line: group_u32(group(c, 2)),
                    message: or_empty(group(c, 3)),
                    ..st
                },
                None => st,
            }
        } else {
            st
        },
    }
}

/// A group's text, empty when it did not take part.
pub open spec fn or_empty(g: Option<Seq<char>>) -> Seq<char> {
    match g {
        Some(s) => s,
        None => Seq::empty(),
    }
}

/// Reading state after the first `n` lines of `go test` output.
pub open spec fn go_scan(lines: Seq<Seq<char>>, n: nat) -> LineScan
    decreases n,
{
    if n == 0 {
        LineScan { failed: Seq::empty(), test: None, file: None, line: None, message: Seq::empty() }
    } else {
        go_step(go_scan(lines, (n - 1) as nat), lines[n - 1])
    }
}

/// Failures in `go test` output, the pending test included.
pub open spec fn go_failures(stdout: Seq<char>, stderr: Seq<char>) -> Seq<FailedTestView> {
    let ls = lines_spec(combined(stdout, stderr));
    flush(go_scan(ls, ls.len()))
}

fn take_or_empty(g: Option<String>) -> (s: String)
    ensures
        s@ == or_empty(opt_str(g)),
{
    match g {
        Some(s) => s,
        None => String::new(),
    }
}

fn parse_go_test_output(stdout: &str, stderr: &str) -> (out: Vec<FailedTest>)
    ensures
        tests_view(out@) == go_failures(stdout@, stderr@),
{
    let text = combine(stdout, stderr);
    let ls = lines_of(text.as_slice());
    let ghost lv = bufs_view(ls@);
    let mut failed: Vec<FailedTest> = Vec::new();
    let mut test: Option<String> = None;
    let mut file: Option<String> = None;
    let mut line: Option<u32> = None;
    let mut message = String::new();
    assert(tests_view(failed@) =~= Seq::<FailedTestView>::empty());
    let mut i: usize = 0;
    while i < ls.len()
        invariant
            i <= ls.len(),
            lv == bufs_view(ls@),
            go_scan(lv, i as nat) == (LineScan {
                failed: tests_view(failed@),
                test: opt_str(test),
                file: opt_str(file),
                line: line,
                message: message@,
            }),
        decreases ls.len() - i,
    {
        let l = string_of(&ls[i]);
        assert(l@ == lv[i as int]);
        match captures(RE_GO_FAIL, l.as_str()) {
            Some(c) => {
                if test.is_some() {
                    let name = test.unwrap();
                    let ghost prev = tests_view(failed@);
                    let t = new_failure(name, file, line, message);
                    failed.push(t);
                    assert(tests_view(failed@) =~= prev.push(t@));
                    file = None;
                    line = None;
                    message = String::new();
                }
                test = take_group(&c, 1);
            },
            None => {
                if test.is_some() {
                    match captures(RE_GO_LOCATION, l.as_str()) {
                        Some(c) => {
                            file = take_group(&c, 1);
                            let g = take_group(&c, 2);
                            line = parse_group(&g);
                            message = take_or_empty(take_group(&c, 3));
                        },
                        None => {},
                    }
                }
            },
        }
        i += 1;
    }
    match test {
        Some(name) => {
            let ghost prev = tests_view(failed@);
            let t = new_failure(name, file, line, message);
            failed.push(t);
            assert(tests_view(failed@) =~= prev.push(t@));
        },
        None => {},
    }
    failed
}

// ---------------------------------------------------------------------------
// JavaScript and Python
// ---------------------------------------------------------------------------
/// A group's text, `Unknown Test` when it did not take part.
pub open spec fn or_unknown(g: Option<Seq<char>>) -> Seq<char> {
    match g {
        Some(s) => s,
        None => "Unknown Test"@,
    }
}

fn take_or_unknown(g: Option<String>) -> (s: String)
    ensures
        s@ == or_unknown(opt_str(g)),
{
    match g {
        Some(s) => s,
        None => String::from_str("Unknown Test"),
    }
}

/// Failed-test lines among the first `n` lines of Jest or Vitest output,
/// each with the given location.
pub open spec fn js_scan(lines: Seq<Seq<char>>, n: nat, file: Option<Seq<char>>, line: Option<u32>) -> Seq<FailedTestView>
    decreases n,
{
    if n == 0 {
        Seq::empty()
    } else {
        let prev = js_scan(lines, (n - 1) as nat, file, line);
        match regex_captures(RE_JS_FAIL@, lines[n - 1]) {
            Some(c) => prev.push(plain_failure(or_unknown(group(c, 1)), file, line, Seq::empty())),
            None => prev,
        }
    }
}

/// Failures in Jest or Vitest output: one per failed-test line, all with
/// the first trace location found in the whole output.
pub open spec fn js_failures(stdout: Seq<char>, stderr: Seq<char>) -> Seq<FailedTestView> {
    let text = combined(stdout, stderr);
    let ls = lines_spec(text);
    match regex_captures(RE_JS_LOCATION@, text) {
        Some(c) => js_scan(ls, ls.len(), group(c, 1), group_u32(group(c, 2))),
        None => js_scan(ls, ls.len(), None, None),
    }
}

fn parse_javascript_test_output(stdout: &str, stderr: &str) -> (out: Vec<FailedTest>)
    ensures
        tests_view(out@) == js_failures(stdout@, stderr@),
{
    let text = combine(stdout, stderr);
    let text_s = string_of(&text);
    let ls = lines_of(text.as_slice());
    let ghost lv = bufs_view(ls@);
    let (file, line): (Option<String>, Option<u32>) = match captures(RE_JS_LOCATION, text_s.as_str()) {
        Some(c) => {
            let f = take_group(&c, 1);
            let g = take_group(&c, 2);
            (f, parse_group(&g))
        },
        None => (None, None),
    };
    let mut failed: Vec<FailedTest> = Vec::new();
    assert(tests_view(failed@) =~= Seq::<FailedTestView>::empty());
    let mut i: usize = 0;
    while i < ls.len()
        invariant
            i <= ls.len(),
            lv == bufs_view(ls@),
            tests_view(failed@) == js_scan(lv, i as nat, opt_str(file), line),
        decreases ls.len() - i,
    {
        let l = string_of(&ls[i]);
        assert(l@ == lv[i as int]);
        match captures(RE_JS_FAIL, l.as_str()) {
            Some(c) => {
                let name = take_or_unknown(take_group(&c, 1));
                let ghost prev = tests_view(failed@);
                let t = new_failure(name, crate::messages::copy_opt(&file), line, String::new());
                failed.push(t);
                assert(tests_view(failed@) =~= prev.push(t@));
            },
            None => {},
        }
        i += 1;
    }
    failed
}

/// Failed-test lines among the first `n` lines of pytest output.
pub open spec fn pytest_scan(lines: Seq<Seq<char>>, n: nat) -> Seq<FailedTestView>
    decreases n,
{
    if n == 0 {
        Seq::empty()
    } else {
        let prev = pytest_scan(lines, (n - 1) as nat);
        match regex_captures(RE_PYTEST_FAIL@, lines[n - 1]) {
            Some(c) => prev.push(
                plain_failure(or_unknown(group(c, 2)), group(c, 1), None, or_empty(group(c, 3))),
            ),
            None => prev,
        }
    }
}

/// Failures in pytest output: one per `FAILED` line.
pub open spec fn pytest_failures(stdout: Seq<char>, stderr: Seq<char>) -> Seq<FailedTestView> {
    let ls = lines_spec(combined(stdout, stderr));
    pytest_scan(ls, ls.len())
}

fn parse_pytest_output(stdout: &str, stderr: &str) -> (out: Vec<FailedTest>)
    ensures
        tests_view(out@) == pytest_failures(stdout@, stderr@),
{
    let text = combine(stdout, stderr);
    let ls = lines_of(text.as_slice());
    let ghost lv = bufs_view(ls@);
    let mut failed: Vec<FailedTest> = Vec::new();
    assert(tests_view(failed@) =~= Seq::<FailedTestView>::empty());
    let mut i: usize = 0;
    while i < ls.len()
        invariant
            i <= ls.len(),
            lv == bufs_view(ls@),
            tests_view(failed@) == pytest_scan(lv, i as nat),
        decreases ls.len() - i,
    {
        let l = string_of(&ls[i]);
        assert(l@ == lv[i as int]);
        match captures(RE_PYTEST_FAIL, l.as_str()) {
            Some(c) => {
                let name = take_or_unknown(take_group(&c, 2));
                let file = take_group(&c, 1);
                let message = take_or_empty(take_group(&c, 3));
                let ghost prev = tests_view(failed@);
                let t = new_failure(name, file, None, message);
                failed.push(t);
                assert(tests_view(failed@) =~= prev.push(t@));
            },
            None => {},
        }
        i += 1;
    }
    failed
}

// ---------------------------------------------------------------------------
// Dispatch
// ---------------------------------------------------------------------------
/// End of the token starting at `i`: the next white-space character, or
/// the end.
pub open spec fn token_end(t: Seq<char>, i: nat) -> nat
    decreases t.len() - i,
{
    if i >= t.len() || is_white_space(t[i as int]) {
        i
    } else {
        token_end(t, i + 1)
    }
}

/// First white-space-separated word of `s`, empty when there is none.
pub open spec fn first_token(s: Seq<char>) -> Seq<char> {
    let t = crate::text::trim_start_spec(s);
    t.take(token_end(t, 0) as int)
}

fn first_word(s: &str) -> (w: Vec<char>)
    ensures
        w@ == first_token(s@),
{
    let cs = chars_of(s);
    let (a, _b) = crate::text::trim_bounds(cs.as_slice());
    let ghost t = crate::text::trim_start_spec(cs@);
    assert(t == cs@.subrange(a as int, cs@.len() as int));
    let mut e = a;
    while e < cs.len() && !crate::text::is_ws(cs[e])
        invariant
            a <= e <= cs.len(),
            t == cs@.subrange(a as int, cs@.len() as int),
            token_end(t, 0) == token_end(t, (e - a) as nat),
        decreases cs.len() - e,
    {
        assert(t[e - a] == cs@[e as int]);
        e += 1;
    }
    proof {
        if e < cs.len() {
            assert(t[e - a] == cs@[e as int]);
        }
        assert(t.take((e - a) as int) =~= cs@.subrange(a as int, e as int));
    }
    crate::text::slice_to_vec(cs.as_slice(), a, e)
}

/// Failures read from a test run: the parser is chosen by the command's
/// program and the language (`cargo`/`rust`, `go`/`go`, `npm` or
/// `npx`/`typescript`, `pytest` or `python`/`python`); none otherwise.
pub open spec fn parse_output_spec(command: Seq<char>, stdout: Seq<char>, stderr: Seq<char>, language: Seq<char>) -> Seq<FailedTestView> {
    let b = first_token(command);
    if b == "cargo"@ && language == "rust"@ {
        rust_failures(stdout, stderr)
    } else if b == "go"@ && language == "go"@ {
        go_failures(stdout, stderr)
    } else if (b == "npm"@ || b == "npx"@) && language == "typescript"@ {
        js_failures(stdout, stderr)
    } else if (b == "pytest"@ || b == "python"@) && language == "python"@ {
        pytest_failures(stdout, stderr)
    } else {
        Seq::empty()
    }
}

fn word_is(w: &Vec<char>, lit: &str) -> (b: bool)
    ensures
        b == (w@ == lit@),
{
    let l = chars_of(lit);
    crate::text::chars_eq(w.as_slice(), l.as_slice())
}

/// Reads the failures of a test run (see [`parse_output_spec`]).
pub fn parse_test_output(result: &TestResult, language: &str) -> (out: Vec<FailedTest>)
    ensures
        tests_view(out@) == parse_output_spec(result.command@, result.stdout@, result.stderr@, language@),
{
    let b = first_word(result.command.as_str());
    if word_is(&b, "cargo") && str_eq(language, "rust") {
        parse_rust_test_output(result.stdout.as_str(), result.stderr.as_str())
    } else if word_is(&b, "go") && str_eq(language, "go") {
        parse_go_test_output(result.stdout.as_str(), result.stderr.as_str())
    } else if (word_is(&b, "npm") || word_is(&b, "npx")) && str_eq(language, "typescript") {
        parse_javascript_test_output(result.stdout.as_str(), result.stderr.as_str())
    } else if (word_is(&b, "pytest") || word_is(&b, "python")) && str_eq(language, "python") {
        parse_pytest_output(result.stdout.as_str(), result.stderr.as_str())
    } else {
        let out: Vec<FailedTest> = Vec::new();
        assert(tests_view(out@) =~= Seq::<FailedTestView>::empty());
        out
    }
}

/// How the run of a test command ended.
#[derive(Debug)]
pub enum TestRunOutcome {
    /// The command exited: its raw output, whether it succeeded, and its
    /// exit code when it had one.
    Finished { stdout: Vec<u8>, stderr: Vec<u8>, success: bool, exit_code: Option<i32> },
    /// The command could not be started; the message says why.
    SpawnFailed(String),
    /// The command ran past its time limit.
    TimedOut,
}

/// The result of running `cmd args` with the given time limit: the command
/// line, then for a finished run its output decoded lossily, its success
/// and exit code; for a run that did not start or timed out, no output, a
/// failure, no exit code and a message on stderr. No failures are read yet.
pub open spec fn test_result_holds(
    r: TestResult,
    cmd: Seq<char>,
    args: Seq<Seq<char>>,
    timeout_ms: u64,
    outcome: TestRunOutcome,
) -> bool {
    &&& r.command@ == cmd + " "@ + crate::policy::join_with(args, " "@)
    &&& r.failed_tests@.len() == 0
    &&& match outcome {
        TestRunOutcome::Finished { stdout, stderr, success, exit_code } => {
            &&& r.stdout@ == crate::output::utf8_lossy(stdout@)
            &&& r.stderr@ == crate::output::utf8_lossy(stderr@)
            &&& r.success == success
            &&& r.exit_code == exit_code
        },
        TestRunOutcome::SpawnFailed(e) => {
            &&& r.stdout@.len() == 0
            &&& r.stderr@ == "Failed to run tests: "@ + e@
            &&& !r.success
            &&& r.exit_code.is_none()
        },
        TestRunOutcome::TimedOut => {
            &&& r.stdout@.len() == 0
            &&& r.stderr@ == "Test execution timed out after "@ + crate::text::decimal(timeout_ms as nat) + "ms"@
            &&& !r.success
            &&& r.exit_code.is_none()
        },
    }
}

/// The result of running a test command, from how its run ended (see
/// [`test_result_holds`]).
pub fn test_result_of(cmd: &str, args: &Vec<String>, timeout_ms: u64, outcome: TestRunOutcome) -> (r: TestResult)
    ensures
        test_result_holds(r, cmd@, crate::policy::str_views(args@), timeout_ms, outcome),
{
    let ghost whole = outcome;
    let mut command = String::from_str(cmd);
    push_str(&mut command, " ");
    let joined = crate::policy::join_strings(args, " ");
    push_str(&mut command, joined.as_str());
    let (stdout, stderr, success, exit_code) = match outcome {
        TestRunOutcome::Finished { stdout, stderr, success, exit_code } => (
            crate::output::lossy_text(stdout.as_slice()),
            crate::output::lossy_text(stderr.as_slice()),
            success,
            exit_code,
        ),
        TestRunOutcome::SpawnFailed(e) => {
            let mut m = String::from_str("Failed to run tests: ");
            push_str(&mut m, e.as_str());
            (String::new(), m, false, None)
        },
        TestRunOutcome::TimedOut => {
            let mut m = String::from_str("Test execution timed out after ");
            crate::text::push_decimal(&mut m, timeout_ms);
            push_str(&mut m, "ms");
            (String::new(), m, false, None)
        },
    };
    TestResult { command, stdout, stderr, success, exit_code, failed_tests: Vec::new() }
}

// ---------------------------------------------------------------------------
// Stack traces
// ---------------------------------------------------------------------------
/// A backtrace function line of the standard library or the harness.
pub open spec fn harness_function(f: Seq<char>) -> bool {
    contains_seq(f, "std::"@) || contains_seq(f, "core::"@) || contains_seq(f, "panic"@)
        || contains_seq(f, "test::"@)
}

/// A frame file of the toolchain or of a downloaded crate.
pub open spec fn harness_file(p: Seq<char>) -> bool {
    contains_seq(p, "/rustc/"@) || contains_seq(p, ".cargo/registry"@) || starts_with(p, "/usr/"@)
}

/// State of reading a backtrace: frames so far and the function name
/// waiting for its location.
pub struct FrameScan {
    pub frames: Seq<StackFrameView>,
    pub func: Option<Seq<char>>,
}

/// One backtrace line: a function line outside the harness sets the
/// pending name; a location outside the toolchain adds a frame with it (and
/// clears it).
pub open spec fn frame_step(st: FrameScan, line: Seq<char>) -> FrameScan {
    let st1 = match regex_captures(RE_RUST_FUNC@, line) {
        Some(c) => match group(c, 1) {
            Some(f) => if !harness_function(f) {
                FrameScan { func: Some(f), ..st }
            } else {
                st
            },
            None => st,
        },
        None => st,
    };
    match regex_captures(RE_RUST_FRAME@, line) {
        Some(c) => match group(c, 1) {
            Some(p) => if !harness_file(p) {
                FrameScan {
                    frames: st1.frames.push(
                        StackFrameView {
                            function_name: st1.func,
                            file_path: Some(p),
                            line_number: group_u32(group(c, 2)),
                            column: group_u32(group(c, 3)),
                        },
                    ),
                    func: None,
                }
            } else {
                st1
            },
            None => st1,
        },
        None => st1,
    }
}

/// Reading state after the first `n` lines.
pub open spec fn frame_scan(lines: Seq<Seq<char>>, n: nat) -> FrameScan
    decreases n,
{
    if n == 0 {
        FrameScan { frames: Seq::empty(), func: None }
    } else {
        frame_step(frame_scan(lines, (n - 1) as nat), lines[n - 1])
    }
}

/// Frames of a Rust backtrace in `output` (see [`frame_step`]).
pub open spec fn stack_frames(output: Seq<char>) -> Seq<StackFrameView> {
    let ls = lines_spec(output);
    frame_scan(ls, ls.len()).frames
}

fn contains_lit(s: &String, lit: &str) -> (b: bool)
    ensures
        b == contains_seq(s@, lit@),
{
    str_contains(s.as_str(), lit)
}

/// Reads the frames of a Rust backtrace (see [`stack_frames`]).
pub fn parse_rust_stack_trace(output: &str) -> (frames: Vec<StackFrame>)
    ensures
        frames_view(frames@) == stack_frames(output@),
{
    let cs = chars_of(output);
    let ls = lines_of(cs.as_slice());
    let ghost lv = bufs_view(ls@);
    let mut frames: Vec<StackFrame> = Vec::new();
    let mut func: Option<String> = None;
    assert(frames_view(frames@) =~= Seq::<StackFrameView>::empty());
    let mut i: usize = 0;
    while i < ls.len()
        invariant
            i <= ls.len(),
            lv == bufs_view(ls@),
            frame_scan(lv, i as nat) == (FrameScan { frames: frames_view(frames@), func: opt_str(func) }),
        decreases ls.len() - i,
    {
        let l = string_of(&ls[i]);
        assert(l@ == lv[i as int]);
        match captures(RE_RUST_FUNC, l.as_str()) {
            Some(c) => match take_group(&c, 1) {
                Some(f) => {
                    if !(contains_lit(&f, "std::") || contains_lit(&f, "core::") || contains_lit(&f, "panic")
                        || contains_lit(&f, "test::")) {
                        func = Some(f);
                    }
                },
                None => {},
            },
            None => {},
        }
        match captures(RE_RUST_FRAME, l.as_str()) {
            Some(c) => match take_group(&c, 1) {
                Some(p) => {
                    let pc = chars_of(p.as_str());
                    let usr = chars_of("/usr/");
                    if !(contains_lit(&p, "/rustc/") || contains_lit(&p, ".cargo/registry")
                        || crate::text::has_prefix(pc.as_slice(), usr.as_slice())) {
                        let g2 = take_group(&c, 2);
                        let g3 = take_group(&c, 3);
                        let f = StackFrame {
                            function_name: func,
                            file_path: Some(p),
                            line_number: parse_group(&g2),
                            column: parse_group(&g3),
                        };
                        let ghost prev = frames_view(frames@);
                        frames.push(f);
                        assert(frames_view(frames@) =~= prev.push(f@));
                        func = None;
                    }
                },
                None => {},
            },
            None => {},
        }
        i += 1;
    }
    frames
}

// ---------------------------------------------------------------------------
// Related files
// ---------------------------------------------------------------------------
/// `s` without repeats, each kept at its first occurrence.
pub open spec fn dedup(s: Seq<Seq<char>>) -> Seq<Seq<char>>
    decreases s.len(),
{
    if s.len() == 0 {
        Seq::empty()
    } else {
        let d = dedup(s.drop_last());
        if d.contains(s.last()) {
            d
        } else {
            d.push(s.last())
        }
    }
}

/// Files of stack frames that have one, in order.
pub open spec fn frame_files(fs: Seq<StackFrameView>) -> Seq<Seq<char>>
    decreases fs.len(),
{
    if fs.len() == 0 {
        Seq::empty()
    } else {
        frame_files(fs.drop_last()) + match fs.last().file_path {
            Some(p) => seq![p],
            None => Seq::empty(),
        }
    }
}

/// Files a failure points at: its own file, its frames' files, and its
/// related files.
pub open spec fn test_files(t: FailedTestView) -> Seq<Seq<char>> {
    (match t.file_path {
        Some(p) => seq![p],
        None => Seq::empty(),
    }) + (match t.stack_trace {
        Some(fs) => frame_files(fs),
        None => Seq::empty(),
    }) + t.related_files
}

/// Files all failures point at, in order.
pub open spec fn all_test_files(ts: Seq<FailedTestView>) -> Seq<Seq<char>>
    decreases ts.len(),
{
    if ts.len() == 0 {
        Seq::empty()
    } else {
        all_test_files(ts.drop_last()) + test_files(ts.last())
    }
}

fn push_str_copy(v: &mut Vec<String>, s: &String)
    ensures
        strs_view(final(v)@) == strs_view(old(v)@).push(s@),
{
    let ghost prev = strs_view(v@);
    v.push(s.clone());
    assert(strs_view(v@) =~= prev.push(s@));
}

fn strings_contain(v: &Vec<String>, s: &String) -> (b: bool)
    ensures
        b == strs_view(v@).contains(s@),
{
    let mut i: usize = 0;
    while i < v.len()
        invariant
            i <= v.len(),
            forall|j: int| 0 <= j < i ==> strs_view(v@)[j] != s@,
        decreases v.len() - i,
    {
        if str_eq(v[i].as_str(), s.as_str()) {
            assert(strs_view(v@)[i as int] == s@);
            return true;
        }
        i += 1;
    }
    false
}

/// The files the failures point at, each once, in order of first mention.
pub fn extract_related_files(failed_tests: &[FailedTest]) -> (files: Vec<String>)
    ensures
        strs_view(files@) == dedup(all_test_files(tests_view(failed_tests@))),
{
    let ghost tv = tests_view(failed_tests@);
    let mut all: Vec<String> = Vec::new();
    assert(strs_view(all@) =~= all_test_files(tv.take(0)));
    let mut i: usize = 0;
    while i < failed_tests.len()
        invariant
            i <= failed_tests.len(),
            tv == tests_view(failed_tests@),
            strs_view(all@) == all_test_files(tv.take(i as int)),
        decreases failed_tests.len() - i,
    {
        assert(tv.take(i + 1).drop_last() == tv.take(i as int));
        let t = &failed_tests[i];
        assert(tv.take(i + 1).last() == t@);
        let ghost base = strs_view(all@);
        match &t.file_path {
            Some(p) => push_str_copy(&mut all, p),
            None => {},
        }
        let ghost after_file = strs_view(all@);
        match &t.stack_trace {
            Some(fs) => {
                let mut k: usize = 0;
                while k < fs.len()
                    invariant
                        k <= fs.len(),
                        strs_view(all@) == after_file + frame_files(frames_view(fs@).take(k as int)),
                    decreases fs.len() - k,
                {
                    assert(frames_view(fs@).take(k + 1).drop_last() == frames_view(fs@).take(k as int));
                    assert(frames_view(fs@).take(k + 1).last() == fs@[k as int]@);
                    match &fs[k].file_path {
                        Some(p) => push_str_copy(&mut all, p),
                        None => {},
                    }
                    k += 1;
                }
                assert(frames_view(fs@).take(fs.len() as int) == frames_view(fs@));
            },
            None => {},
        }
        let ghost after_frames = strs_view(all@);
        let mut k: usize = 0;
        while k < t.related_files.len()
            invariant
                k <= t.related_files.len(),
                strs_view(all@) == after_frames + strs_view(t.related_files@).take(k as int),
            decreases t.related_files.len() - k,
        {
            push_str_copy(&mut all, &t.related_files[k]);
            assert(strs_view(t.related_files@).take(k + 1) == strs_view(t.related_files@).take(k as int).push(t.related_files@[k as int]@));
            k += 1;
        }
        assert(strs_view(t.related_files@).take(t.related_files.len() as int) == strs_view(t.related_files@));
        assert(strs_view(all@) =~= base + test_files(t@));
        i += 1;
    }
    assert(tv.take(failed_tests.len() as int) == tv);
    let ghost av = strs_view(all@);
    let mut files: Vec<String> = Vec::new();
    assert(strs_view(files@) =~= dedup(av.take(0)));
    let mut j: usize = 0;
    while j < all.len()
        invariant
            j <= all.len(),
            av == strs_view(all@),
            strs_view(files@) == dedup(av.take(j as int)),
        decreases all.len() - j,
    {
        assert(av.take(j + 1).drop_last() == av.take(j as int));
        assert(av.take(j + 1).last() == all@[j as int]@);
        if !strings_contain(&files, &all[j]) {
            push_str_copy(&mut files, &all[j]);
        }
        j += 1;
    }
    assert(av.take(all.len() as int) == av);
    files
}

/// A frame bears on a failure when both have files and either file name
/// contains the other, or when either lacks a file.
pub open spec fn bears_on(t: FailedTestView, f: StackFrameView) -> bool {
    match (t.file_path, f.file_path) {
        (Some(a), Some(b)) => contains_seq(b, a) || contains_seq(a, b),
        _ => true,
    }
}

/// The frames among the first `n` that bear on `t`, in order.
pub open spec fn relevant_frames(t: FailedTestView, fs: Seq<StackFrameView>, n: nat) -> Seq<StackFrameView>
    decreases n,
{
    if n == 0 {
        Seq::empty()
    } else {
        relevant_frames(t, fs, (n - 1) as nat) + if bears_on(t, fs[n - 1]) {
            seq![fs[n - 1]]
        } else {
            Seq::empty()
        }
    }
}

/// `files` extended by the frames' files not in it yet, in order.
pub open spec fn add_related(files: Seq<Seq<char>>, fs: Seq<StackFrameView>) -> Seq<Seq<char>>
    decreases fs.len(),
{
    if fs.len() == 0 {
        files
    } else {
        let prev = add_related(files, fs.drop_last());
        match fs.last().file_path {
            Some(p) => if prev.contains(p) {
                prev
            } else {
                prev.push(p)
            },
            None => prev,
        }
    }
}

/// A failure with the frames that bear on it, when there are any, as its
/// stack trace, and their files added to its related files.
pub open spec fn with_frames(t: FailedTestView, fs: Seq<StackFrameView>) -> FailedTestView {
    let r = relevant_frames(t, fs, fs.len());
    if r.len() == 0 {
        t
    } else {
        FailedTestView { stack_trace: Some(r), related_files: add_related(t.related_files, r), ..t }
    }
}

fn frame_bears(t: &FailedTest, f: &StackFrame) -> (b: bool)
    ensures
        b == bears_on(t@, f@),
{
    match (&t.file_path, &f.file_path) {
        (Some(a), Some(b)) => str_contains(b.as_str(), a.as_str()) || str_contains(a.as_str(), b.as_str()),
        _ => true,
    }
}

fn enhance_one(t: &FailedTest, frames: &Vec<StackFrame>) -> (r: FailedTest)
    ensures
        r@ == with_frames(t@, frames_view(frames@)),
{
    let ghost fv = frames_view(frames@);
    let mut rel: Vec<StackFrame> = Vec::new();
    assert(frames_view(rel@) =~= relevant_frames(t@, fv, 0));
    let mut i: usize = 0;
    while i < frames.len()
        invariant
            i <= frames.len(),
            fv == frames_view(frames@),
            frames_view(rel@) == relevant_frames(t@, fv, i as nat),
        decreases frames.len() - i,
    {
        if frame_bears(t, &frames[i]) {
            let f = copy_frame(&frames[i]);
            let ghost prev = frames_view(rel@);
            rel.push(f);
            assert(frames_view(rel@) =~= prev + seq![fv[i as int]]);
        } else {
            assert(relevant_frames(t@, fv, (i + 1) as nat) =~= relevant_frames(t@, fv, i as nat));
        }
        i += 1;
    }
    if rel.len() == 0 {
        return copy_failure(t);
    }
    let ghost rv = frames_view(rel@);
    let mut files = copy_strings(&t.related_files);
    let mut k: usize = 0;
    while k < rel.len()
        invariant
            k <= rel.len(),
            rv == frames_view(rel@),
            strs_view(files@) == add_related(strs_view(t.related_files@), rv.take(k as int)),
        decreases rel.len() - k,
    {
        assert(rv.take(k + 1).drop_last() == rv.take(k as int));
        assert(rv.take(k + 1).last() == rel@[k as int]@);
        match &rel[k].file_path {
            Some(p) => {
                if !strings_contain(&files, p) {
                    push_str_copy(&mut files, p);
                }
            },
            None => {},
        }
        k += 1;
    }
    assert(rv.take(rel.len() as int) == rv);
    let mut r = copy_failure(t);
    r.stack_trace = Some(rel);
    r.related_files = files;
    r
}

/// Attaches backtrace frames to the failures: for `rust`, each failure
/// gets the frames of the combined output that bear on it (see
/// [`with_frames`]); for other languages nothing changes.
pub fn enhance_failed_tests_with_stack_trace(
    tests: &mut Vec<FailedTest>,
    stdout: &str,
    stderr: &str,
    language: &str,
)
    ensures
        final(tests)@.len() == old(tests)@.len(),
        language@ != "rust"@ ==> final(tests)@ == old(tests)@,
        language@ == "rust"@ ==> forall|i: int|
            0 <= i < old(tests)@.len() ==> #[trigger] tests_view(final(tests)@)[i] == with_frames(
                tests_view(old(tests)@)[i],
                stack_frames(combined(stdout@, stderr@)),
            ),
{
    if !str_eq(language, "rust") {
        return;
    }
    let text = combine(stdout, stderr);
    let text_s = string_of(&text);
    let frames = parse_rust_stack_trace(text_s.as_str());
    let ghost old_tv = tests_view(tests@);
    let ghost fv = frames_view(frames@);
    let mut i: usize = 0;
    while i < tests.len()
        invariant
            i <= tests.len() == old_tv.len(),
            fv == frames_view(frames@),
            fv == stack_frames(combined(stdout@, stderr@)),
            forall|k: int| 0 <= k < i ==> #[trigger] tests_view(tests@)[k] == with_frames(old_tv[k], fv),
            forall|k: int| i <= k < old_tv.len() ==> #[trigger] tests_view(tests@)[k] == old_tv[k],
        decreases old_tv.len() - i,
    {
        assert(tests@[i as int]@ == tests_view(tests@)[i as int]);
        let t = enhance_one(&tests[i], &frames);
        let ghost before = tests@;
        tests.set(i, t);
        assert(tests_view(tests@)[i as int] == t@);
        assert forall|k: int| 0 <= k < old_tv.len() && k != i implies #[trigger] tests_view(tests@)[k]
            == tests_view(before)[k] by {}
        i += 1;
    }
}

// ---------------------------------------------------------------------------
// Languages and commands
// ---------------------------------------------------------------------------
/// Marker files found at a project's root.
#[derive(Debug, Clone, Copy)]
pub struct ProjectMarkers {
    /// `Cargo.toml`.
    pub cargo_toml: bool,
    /// `go.mod`.
    pub go_mod: bool,
    /// `package.json`.
    pub package_json: bool,
    /// `pyproject.toml`, `setup.py` or `requirements.txt`.
    pub python_project: bool,
}

/// Language of a source file extension, if it is one of the tested ones.
pub open spec fn extension_language(ext: Seq<char>) -> Option<Seq<char>> {
    if ext == "go"@ {
        Some("go"@)
    } else if ext == "rs"@ {
        Some("rust"@)
    } else if ext == "ts"@ || ext == "tsx"@ || ext == "js"@ || ext == "jsx"@ {
        Some("typescript"@)
    } else if ext == "py"@ {
        Some("python"@)
    } else {
        None
    }
}

/// Language of a source file extension (see [`extension_language`]).
pub fn language_of_extension(ext: &str) -> (l: Option<&'static str>)
    ensures
        match l {
            Some(s) => extension_language(ext@) == Some(s@),
            None => extension_language(ext@).is_none(),
        },
{
    if str_eq(ext, "go") {
        Some("go")
    } else if str_eq(ext, "rs") {
        Some("rust")
    } else if str_eq(ext, "ts") || str_eq(ext, "tsx") || str_eq(ext, "js") || str_eq(ext, "jsx") {
        Some("typescript")
    } else if str_eq(ext, "py") {
        Some("python")
    } else {
        None
    }
}

/// Directories the language scan does not enter.
pub open spec fn skipped_dir_spec(name: Seq<char>) -> bool {
    name == "target"@ || name == "node_modules"@ || name == ".git"@ || name == "vendor"@ || name
        == "__pycache__"@ || name == ".venv"@ || name == "venv"@
}

/// Whether the language scan skips a directory named `name`.
pub fn is_skipped_dir(name: &str) -> (b: bool)
    ensures
        b == skipped_dir_spec(name@),
{
    str_eq(name, "target") || str_eq(name, "node_modules") || str_eq(name, ".git") || str_eq(
        name,
        "vendor",
    ) || str_eq(name, "__pycache__") || str_eq(name, ".venv") || str_eq(name, "venv")
}

/// Deepest directory level the language scan enters (the root is level 0).
pub const SCAN_MAX_DEPTH: usize = 3;

/// Languages the marker files point at, in the order rust, go,
/// typescript, python.
pub open spec fn marker_languages(m: ProjectMarkers) -> Seq<Seq<char>> {
    (if m.cargo_toml { seq!["rust"@] } else { Seq::empty() }) + (if m.go_mod {
        seq!["go"@]
    } else {
        Seq::empty()
    }) + (if m.package_json { seq!["typescript"@] } else { Seq::empty() }) + (if m.python_project {
        seq!["python"@]
    } else {
        Seq::empty()
    })
}

/// Languages of the extensions, in order, unknown ones left out.
pub open spec fn extension_languages(exts: Seq<Seq<char>>) -> Seq<Seq<char>>
    decreases exts.len(),
{
    if exts.len() == 0 {
        Seq::empty()
    } else {
        extension_languages(exts.drop_last()) + match extension_language(exts.last()) {
            Some(l) => seq![l],
            None => Seq::empty(),
        }
    }
}

fn push_lit(v: &mut Vec<String>, lit: &str)
    ensures
        strs_view(final(v)@) == strs_view(old(v)@).push(lit@),
{
    let ghost prev = strs_view(v@);
    v.push(String::from_str(lit));
    assert(strs_view(v@) =~= prev.push(lit@));
}

/// The languages of a project, each once: those its marker files show,
/// then those of the source file extensions found by the scan.
pub fn detect_project_languages(markers: &ProjectMarkers, extensions: &[String]) -> (langs: Vec<String>)
    ensures
        strs_view(langs@) == dedup(marker_languages(*markers) + extension_languages(strs_view(extensions@))),
{
    let mut all: Vec<String> = Vec::new();
    proof {
        reveal_strlit("rust");
        reveal_strlit("go");
        reveal_strlit("typescript");
        reveal_strlit("python");
    }
    if markers.cargo_toml {
        push_lit(&mut all, "rust");
    }
    if markers.go_mod {
        push_lit(&mut all, "go");
    }
    if markers.package_json {
        push_lit(&mut all, "typescript");
    }
    if markers.python_project {
        push_lit(&mut all, "python");
    }
    assert(strs_view(all@) =~= marker_languages(*markers));
    let ghost base = strs_view(all@);
    let ghost ev = strs_view(extensions@);
    let mut i: usize = 0;
    while i < extensions.len()
        invariant
            i <= extensions.len(),
            ev == strs_view(extensions@),
            strs_view(all@) == base + extension_languages(ev.take(i as int)),
        decreases extensions.len() - i,
    {
        assert(ev.take(i + 1).drop_last() == ev.take(i as int));
        assert(ev.take(i + 1).last() == extensions@[i as int]@);
        match language_of_extension(extensions[i].as_str()) {
            Some(l) => push_lit(&mut all, l),
            None => {},
        }
        i += 1;
    }
    assert(ev.take(extensions.len() as int) == ev);
    let ghost av = strs_view(all@);
    let mut langs: Vec<String> = Vec::new();
    assert(strs_view(langs@) =~= dedup(av.take(0)));
    let mut j: usize = 0;
    while j < all.len()
        invariant
            j <= all.len(),
            av == strs_view(all@),
            strs_view(langs@) == dedup(av.take(j as int)),
        decreases all.len() - j,
    {
        assert(av.take(j + 1).drop_last() == av.take(j as int));
        assert(av.take(j + 1).last() == all@[j as int]@);
        if !strings_contain(&langs, &all[j]) {
            push_str_copy(&mut langs, &all[j]);
        }
        j += 1;
    }
    assert(av.take(all.len() as int) == av);
    langs
}

/// Language a test-fix run uses: rust, then go, then python, then
/// typescript, whichever is present first; rust when none is.
pub open spec fn preferred_language(langs: Seq<Seq<char>>) -> Seq<char> {
    if langs.contains("rust"@) {
        "rust"@
    } else if langs.contains("go"@) {
        "go"@
    } else if langs.contains("python"@) {
        "python"@
    } else if langs.contains("typescript"@) {
        "typescript"@
    } else {
        "rust"@
    }
}

/// Chooses the language to test (see [`preferred_language`]).
pub fn detect_language(languages: &Vec<String>) -> (l: String)
    ensures
        l@ == preferred_language(strs_view(languages@)),
{
    let rust = String::from_str("rust");
    let go = String::from_str("go");
    let python = String::from_str("python");
    let typescript = String::from_str("typescript");
    if strings_contain(languages, &rust) {
        rust
    } else if strings_contain(languages, &go) {
        go
    } else if strings_contain(languages, &python) {
        python
    } else if strings_contain(languages, &typescript) {
        typescript
    } else {
        rust
    }
}

/// Value of a [`TestCommand`]: program and arguments.
pub open spec fn command_view(c: TestCommand) -> (Seq<char>, Seq<Seq<char>>) {
    (c.command@, strs_view(c.args@))
}

/// Views of commands.
pub open spec fn commands_view(v: Seq<TestCommand>) -> Seq<(Seq<char>, Seq<Seq<char>>)> {
    v.map_values(|c: TestCommand| command_view(c))
}

fn command(program: &str, args: Vec<String>) -> (c: TestCommand)
    ensures
        command_view(c) == (program@, strs_view(args@)),
{
    TestCommand { command: String::from_str(program), args }
}

/// The npm script that tests a JavaScript project: the first of `test`,
/// `test:unit`, `test:all` that `package.json` defines.
pub open spec fn npm_script(scripts: Option<Seq<Seq<char>>>) -> Option<Seq<char>> {
    match scripts {
        Some(s) => if s.contains("test"@) {
            Some("test"@)
        } else if s.contains("test:unit"@) {
            Some("test:unit"@)
        } else if s.contains("test:all"@) {
            Some("test:all"@)
        } else {
            None
        },
        None => None,
    }
}

/// Commands for a JavaScript project: `npm run <script>` for the script
/// [`npm_script`] finds; none when it finds none or `package.json` has no
/// readable `scripts` object (`scripts` is then `None`).
pub fn typescript_test_commands(scripts: &Option<Vec<String>>) -> (cmds: Vec<TestCommand>)
    ensures
        commands_view(cmds@) == match npm_script(
            match scripts {
                Some(v) => Some(strs_view(v@)),
                None => None,
            },
        ) {
            Some(name) => seq![("npm"@, seq!["run"@, name])],
            None => Seq::empty(),
        },
{
    let mut cmds: Vec<TestCommand> = Vec::new();
    match scripts {
        Some(v) => {
            let t = String::from_str("test");
            let tu = String::from_str("test:unit");
            let ta = String::from_str("test:all");
            let chosen: Option<String> = if strings_contain(v, &t) {
                Some(t)
            } else if strings_contain(v, &tu) {
                Some(tu)
            } else if strings_contain(v, &ta) {
                Some(ta)
            } else {
                None
            };
            match chosen {
                Some(name) => {
                    let mut args: Vec<String> = Vec::new();
                    push_lit(&mut args, "run");
                    let ghost prev = strs_view(args@);
                    let ghost nv = name@;
                    args.push(name);
                    assert(strs_view(args@) =~= prev.push(nv));
                    assert(strs_view(args@) =~= seq!["run"@, nv]);
                    let c = command("npm", args);
                    cmds.push(c);
                    assert(commands_view(cmds@) =~~= seq![("npm"@, seq!["run"@, nv])]);
                },
                None => {},
            }
        },
        None => {},
    }
    proof {
        if cmds@.len() == 0 {
            assert(commands_view(cmds@) =~= Seq::empty());
        }
    }
    cmds
}

/// Commands for a Python project: `pytest -v` when it has pytest settings
/// (`pytest.ini`, `pyproject.toml` or `setup.cfg`), else `python -m
/// pytest -v`.
pub fn python_test_commands(has_pytest_config: bool) -> (cmds: Vec<TestCommand>)
    ensures
        commands_view(cmds@) == if has_pytest_config {
            seq![("pytest"@, seq!["-v"@])]
        } else {
            seq![("python"@, seq!["-m"@, "pytest"@, "-v"@])]
        },
{
    let mut args: Vec<String> = Vec::new();
    let mut cmds: Vec<TestCommand> = Vec::new();
    if has_pytest_config {
        push_lit(&mut args, "-v");
        assert(strs_view(args@) =~= seq!["-v"@]);
        cmds.push(command("pytest", args));
        assert(commands_view(cmds@) =~~= seq![("pytest"@, seq!["-v"@])]);
    } else {
        push_lit(&mut args, "-m");
        push_lit(&mut args, "pytest");
        push_lit(&mut args, "-v");
        assert(strs_view(args@) =~= seq!["-m"@, "pytest"@, "-v"@]);
        cmds.push(command("python", args));
        assert(commands_view(cmds@) =~~= seq![("python"@, seq!["-m"@, "pytest"@, "-v"@])]);
    }
    cmds
}

/// The names of the `scripts` object of a `package.json` text, when the
/// text is JSON and has such an object (`serde_json`).
pub uninterp spec fn package_scripts(text: Seq<char>) -> Option<Seq<Seq<char>>>;

/// Reads the script names of a `package.json` text (`serde_json::from_str`,
/// then `get("scripts")`, `as_object` and its keys); the result is named by
/// [`package_scripts`].
#[verifier::external_body]
fn script_names(text: &str) -> (r: Option<Vec<String>>)
    ensures
        match r {
            Some(v) => package_scripts(text@) == Some(strs_view(v@)),
            None => package_scripts(text@).is_none(),
        },
{
    let v: serde_json::Value = serde_json::from_str(text).ok()?;
    Some(v.get("scripts")?.as_object()?.keys().cloned().collect())
}

/// The script names of a project's `package.json`, given its text when it
/// could be read.
pub open spec fn scripts_of(package_json: Option<Seq<char>>) -> Option<Seq<Seq<char>>> {
    match package_json {
        Some(t) => package_scripts(t),
        None => None,
    }
}

/// Languages with a test configuration, in the order they are listed.
pub open spec fn config_languages() -> Seq<Seq<char>> {
    seq!["go"@, "rust"@, "typescript"@, "python"@]
}

/// Test configurations of a project, one per supported language: `go test
/// -v ./...`, `cargo test`, the JavaScript commands from the scripts of
/// `package_json` (the file's text, when it could be read) and the Python
/// commands (`pytest_config`: whether a pytest configuration exists).
pub fn get_test_configs(package_json: Option<String>, pytest_config: bool) -> (configs: Vec<(String, TestConfig)>)
    ensures
        configs@.len() == 4,
        forall|i: int| 0 <= i < 4 ==> #[trigger] configs@[i].0@ == config_languages()[i],
        commands_view(configs@[0].1.commands@) == seq![("go"@, seq!["test"@, "-v"@, "./..."@])],
        commands_view(configs@[1].1.commands@) == seq![("cargo"@, seq!["test"@])],
        commands_view(configs@[2].1.commands@) == match npm_script(scripts_of(opt_str(package_json))) {
            Some(name) => seq![("npm"@, seq!["run"@, name])],
            None => Seq::empty(),
        },
        commands_view(configs@[3].1.commands@) == if pytest_config {
            seq![("pytest"@, seq!["-v"@])]
        } else {
            seq![("python"@, seq!["-m"@, "pytest"@, "-v"@])]
        },
{
    let scripts = match &package_json {
        Some(t) => script_names(t.as_str()),
        None => None,
    };
    assert(match scripts {
        Some(v) => Some(strs_view(v@)),
        None => None::<Seq<Seq<char>>>,
    } == scripts_of(opt_str(package_json)));
    let mut go_args: Vec<String> = Vec::new();
    push_lit(&mut go_args, "test");
    push_lit(&mut go_args, "-v");
    push_lit(&mut go_args, "./...");
    assert(strs_view(go_args@) =~= seq!["test"@, "-v"@, "./..."@]);
    let mut go_cmds: Vec<TestCommand> = Vec::new();
    go_cmds.push(command("go", go_args));
    assert(commands_view(go_cmds@) =~~= seq![("go"@, seq!["test"@, "-v"@, "./..."@])]);
    let mut cargo_args: Vec<String> = Vec::new();
    push_lit(&mut cargo_args, "test");
    assert(strs_view(cargo_args@) =~= seq!["test"@]);
    let mut cargo_cmds: Vec<TestCommand> = Vec::new();
    cargo_cmds.push(command("cargo", cargo_args));
    assert(commands_view(cargo_cmds@) =~~= seq![("cargo"@, seq!["test"@])]);
    let mut configs: Vec<(String, TestConfig)> = Vec::new();
    configs.push((String::from_str("go"), TestConfig { commands: go_cmds }));
    configs.push((String::from_str("rust"), TestConfig { commands: cargo_cmds }));
    configs.push(
        (String::from_str("typescript"), TestConfig { commands: typescript_test_commands(&scripts) }),
    );
    configs.push((String::from_str("python"), TestConfig { commands: python_test_commands(pytest_config) }));
    configs
}

} // verus!
