//! The test-fix loop: the prompt that hands test failures to the model, the
//! choice of the test command, and the loop's report.
use crate::testing::{
    all_test_files, dedup, extract_related_files, strs_view, tests_view, FailedTest, FailedTestView,
    StackFrame, StackFrameView, TestCommand, TestConfig, TestResult,
};
use crate::text::{
    chars_of, decimal, push_chars, push_decimal, push_signed_decimal, push_str, signed_decimal,
    slice_to_vec, utf8_width,
};
use vstd::prelude::*;
use vstd::string::*;

verus! {

/// Outcome of a test-fix loop.
#[derive(Debug, Clone)]
pub struct TestFixResult {
    pub success: bool,
    pub iterations: usize,
    pub final_stdout: String,
    pub final_stderr: String,
    pub message: String,
}

// ---------------------------------------------------------------------------
// Output tails
// ---------------------------------------------------------------------------
/// Bytes of a test output kept in the prompt.
pub const MAX_OUTPUT_BYTES: usize = 10000;

/// UTF-8 length of a text, as the sum of its characters' widths.
pub open spec fn width_sum(s: Seq<char>) -> nat
    decreases s.len(),
{
    if s.len() == 0 {
        0
    } else {
        utf8_width(s[0]) + width_sum(s.drop_first())
    }
}

/// UTF-8 length of the suffix of `s` from character `k`.
pub open spec fn suffix_bytes(s: Seq<char>, k: int) -> nat {
    width_sum(s.subrange(k, s.len() as int))
}

/// Inputs on which cutting the last [`MAX_OUTPUT_BYTES`] bytes does not
/// split a character: short enough, or with a suffix of exactly that size.
pub open spec fn tail_fits(s: Seq<char>) -> bool {
    width_sum(s) <= MAX_OUTPUT_BYTES || exists|k: int|
        0 <= k <= s.len() && #[trigger] suffix_bytes(s, k) == MAX_OUTPUT_BYTES
}

/// Where the kept tail starts.
pub open spec fn tail_cut(s: Seq<char>) -> int {
    choose|k: int| 0 <= k <= s.len() && #[trigger] suffix_bytes(s, k) == MAX_OUTPUT_BYTES
}

/// An output cut to its tail: whole when it is at most
/// [`MAX_OUTPUT_BYTES`] bytes, else `marker` and its last
/// [`MAX_OUTPUT_BYTES`] bytes.
pub open spec fn tail_with(s: Seq<char>, marker: Seq<char>) -> Seq<char> {
    if width_sum(s) <= MAX_OUTPUT_BYTES {
        s
    } else {
        marker + s.subrange(tail_cut(s), s.len() as int)
    }
}

/// A test output as the fix prompt shows it.
pub open spec fn tail_output(s: Seq<char>) -> Seq<char> {
    tail_with(s, "...(truncated)\n"@)
}

/// Appending a character adds its width.
pub proof fn lemma_width_push(s: Seq<char>, c: char)
    ensures
        width_sum(s.push(c)) == width_sum(s) + utf8_width(c),
    decreases s.len(),
{
    if s.len() > 0 {
        assert(s.push(c).drop_first() =~= s.drop_first().push(c));
        assert(s.push(c)[0] == s[0]);
        lemma_width_push(s.drop_first(), c);
        assert(width_sum(s.push(c)) == utf8_width(s.push(c)[0]) + width_sum(s.push(c).drop_first()));
        assert(width_sum(s) == utf8_width(s[0]) + width_sum(s.drop_first()));
    } else {
        assert(s.push(c).drop_first() =~= Seq::<char>::empty());
        assert(s.push(c)[0] == c);
        assert(width_sum(s.push(c)) == utf8_width(c) + width_sum(s.push(c).drop_first()));
        assert(width_sum(Seq::<char>::empty()) == 0);
        assert(width_sum(s) == 0);
    }
}

/// Widths of prefixes grow strictly with their length.
pub proof fn lemma_prefix_strict(s: Seq<char>, j: int, k: int)
    requires
        0 <= j < k <= s.len(),
    ensures
        width_sum(s.take(j)) < width_sum(s.take(k)),
    decreases k - j,
{
    assert(s.take(k) =~= s.take(k - 1).push(s[k - 1]));
    lemma_width_push(s.take(k - 1), s[k - 1]);
    if j < k - 1 {
        lemma_prefix_strict(s, j, k - 1);
    }
}

proof fn lemma_suffix_step(s: Seq<char>, k: int)
    requires
        1 <= k <= s.len(),
    ensures
        suffix_bytes(s, k - 1) == utf8_width(s[k - 1]) + suffix_bytes(s, k),
{
    let t = s.subrange(k - 1, s.len() as int);
    assert(t.drop_first() =~= s.subrange(k, s.len() as int));
    assert(t[0] == s[k - 1]);
}

proof fn lemma_suffix_strict(s: Seq<char>, j: int, k: int)
    requires
        0 <= j < k <= s.len(),
    ensures
        suffix_bytes(s, j) > suffix_bytes(s, k),
    decreases k - j,
{
    lemma_suffix_step(s, k);
    if j < k - 1 {
        lemma_suffix_strict(s, j, k - 1);
    }
}

/// The prompt's form of a test output (see [`tail_output`]).
pub fn truncate_output(s: &str) -> (out: String)
    requires
        tail_fits(s@),
    ensures
        out@ == tail_output(s@),
{
    keep_tail(s, "...(truncated)\n")
}

/// An output cut to its last [`MAX_OUTPUT_BYTES`] bytes after `marker`
/// (see [`tail_with`]).
pub fn keep_tail(s: &str, marker: &str) -> (out: String)
    requires
        tail_fits(s@),
    ensures
        out@ == tail_with(s@, marker@),
{
    let cs = chars_of(s);
    let mut k = cs.len();
    let mut acc: usize = 0;
    proof {
        assert(cs@.subrange(cs@.len() as int, cs@.len() as int) =~= Seq::<char>::empty());
    }
    while k > 0 && acc < MAX_OUTPUT_BYTES
        invariant
            k <= cs.len(),
            cs@ == s@,
            acc == suffix_bytes(s@, k as int),
            acc < MAX_OUTPUT_BYTES + 4,
            k < cs.len() ==> suffix_bytes(s@, k + 1) < MAX_OUTPUT_BYTES,
        decreases k,
    {
        proof {
            lemma_suffix_step(s@, k as int);
        }
        acc = acc + crate::text::char_width(cs[k - 1]);
        k -= 1;
    }
    assert(s@.subrange(0, s@.len() as int) == s@);
    if k > 0 {
        proof {
            lemma_suffix_strict(s@, 0, k as int);
        }
    }
    proof {
        if acc > MAX_OUTPUT_BYTES {
            if width_sum(s@) > MAX_OUTPUT_BYTES {
                let w = tail_cut(s@);
                assert(0 <= w <= s@.len() && suffix_bytes(s@, w) == MAX_OUTPUT_BYTES);
                if w < k {
                    lemma_suffix_strict(s@, w, k as int);
                } else if w > k {
                    if w > k + 1 {
                        lemma_suffix_strict(s@, k + 1, w);
                    }
                }
            }
        }
    }
    if k == 0 && acc <= MAX_OUTPUT_BYTES {
        return String::from_str(s);
    }
    proof {
        assert(suffix_bytes(s@, k as int) == MAX_OUTPUT_BYTES);
        let w = tail_cut(s@);
        assert(0 <= w <= s@.len() && suffix_bytes(s@, w) == MAX_OUTPUT_BYTES);
        if w < k {
            lemma_suffix_strict(s@, w, k as int);
        } else if w > k {
            lemma_suffix_strict(s@, k as int, w);
        }
    }
    let mut out = String::from_str(marker);
    let tail = slice_to_vec(cs.as_slice(), k, cs.len());
    push_chars(&mut out, tail.as_slice());
    out
}

// ---------------------------------------------------------------------------
// The fix prompt
// ---------------------------------------------------------------------------
/// Opening of the fix prompt: the iteration, the command, its exit code
/// (`-1` when it has none), and both outputs in fences.
pub open spec fn prompt_header(iteration: nat, command: Seq<char>, exit: int, stdout: Seq<char>, stderr: Seq<char>) -> Seq<char> {
    "<TEST_FAILURE_ANALYSIS iteration=\""@ + decimal(iteration)
        + "\">\nThe following test(s) have failed. Please analyze the failures and provide fixes.\n\n## Test Output\n\n**Command**: "@
        + command + "\n**Exit Code**: "@ + signed_decimal(exit) + "\n**STDOUT**:\n```\n"@ + stdout
        + "\n```\n\n**STDERR**:\n```\n"@ + stderr + "\n```\n"@
}

/// Closing instructions of the fix prompt.
pub open spec fn prompt_instructions() -> Seq<char> {
    "\n## Instructions\n\n1. Analyze the test failures above carefully\n2. **Read the relevant source files listed above** using `fs_read` to understand the context\n3. Identify the root cause of each failure\n4. Apply fixes using `edit` or `apply_patch` tools\n5. Focus on fixing the actual code bugs, NOT the tests (unless tests are incorrect)\n\nIMPORTANT: After making changes, the tests will be automatically re-run. Make sure your fixes are complete.\n</TEST_FAILURE_ANALYSIS>"@
}

/// A labelled line when the value is present.
pub open spec fn opt_line(label: Seq<char>, v: Option<Seq<char>>) -> Seq<char> {
    match v {
        Some(x) => label + x + "\n"@,
        None => Seq::empty(),
    }
}

/// Line of the `n`-th frame (1-based), when it has a file: the file, its
/// line after a colon, and its function after ` in `.
pub open spec fn frame_line(n: nat, f: StackFrameView) -> Seq<char> {
    match f.file_path {
        Some(file) => "     "@ + decimal(n) + ". "@ + file + match f.line_number {
            Some(l) => ":"@ + decimal(l as nat),
            None => Seq::empty(),
        } + match f.function_name {
            Some(func) => " in "@ + func,
            None => Seq::empty(),
        } + "\n"@,
        None => Seq::empty(),
    }
}

/// Lines of the first `n` frames.
pub open spec fn frame_lines(fs: Seq<StackFrameView>, n: nat) -> Seq<char>
    decreases n,
{
    if n == 0 {
        Seq::empty()
    } else {
        frame_lines(fs, (n - 1) as nat) + frame_line(n, fs[n - 1])
    }
}

/// Lines listing files, each after `prefix` and before `suffix`.
pub open spec fn file_lines(files: Seq<Seq<char>>, prefix: Seq<char>, suffix: Seq<char>) -> Seq<char>
    decreases files.len(),
{
    if files.len() == 0 {
        Seq::empty()
    } else {
        file_lines(files.drop_last(), prefix, suffix) + prefix + files.last() + suffix
    }
}

/// Head of the block of the `n`-th failed test (1-based): name, file,
/// line, message, expected and actual values.
pub open spec fn block_head(n: nat, t: FailedTestView) -> Seq<char> {
    "\n"@ + decimal(n) + ". Test: "@ + t.name + "\n"@ + opt_line("   File: "@, t.file_path)
        + line_part(t.line_number) + "   Message: "@ + t.message + "\n"@ + opt_line(
        "   Expected: "@,
        t.expected,
    ) + opt_line("   Actual: "@, t.actual)
}

/// The line-number line of a failed test, when it has one.
pub open spec fn line_part(l: Option<u32>) -> Seq<char> {
    match l {
        Some(n) => "   Line: "@ + decimal(n as nat) + "\n"@,
        None => Seq::empty(),
    }
}

/// Up to five stack frames of a failed test, when it has any.
pub open spec fn block_stack(t: FailedTestView) -> Seq<char> {
    match t.stack_trace {
        Some(fs) => if fs.len() > 0 {
            "   Stack Trace:\n"@ + frame_lines(fs, if fs.len() < 5 { fs.len() } else { 5 })
        } else {
            Seq::empty()
        },
        None => Seq::empty(),
    }
}

/// Related files of a failed test, when it has any.
pub open spec fn block_related(t: FailedTestView) -> Seq<char> {
    if t.related_files.len() > 0 {
        "   Related Files:\n"@ + file_lines(t.related_files, "     - "@, "\n"@)
    } else {
        Seq::empty()
    }
}

/// Block of the `n`-th failed test (1-based).
pub open spec fn test_block(n: nat, t: FailedTestView) -> Seq<char> {
    block_head(n, t) + block_stack(t) + block_related(t)
}

/// Blocks of the first `n` failed tests.
pub open spec fn test_blocks(ts: Seq<FailedTestView>, n: nat) -> Seq<char>
    decreases n,
{
    if n == 0 {
        Seq::empty()
    } else {
        test_blocks(ts, (n - 1) as nat) + test_block(n, ts[n - 1])
    }
}

/// Section listing the files the failures point at, when there are any.
pub open spec fn review_section(files: Seq<Seq<char>>) -> Seq<char> {
    if files.len() > 0 {
        "\n## Files to Review\nThe following files are likely relevant to the failures. Read them using `fs_read` for context:\n"@
            + file_lines(files, "- `"@, "`\n"@)
    } else {
        Seq::empty()
    }
}

/// The fix prompt for a failed test run: header, the parsed failures (with
/// the files to review) when there are any, then the instructions.
pub open spec fn fix_prompt_spec(r: TestResult, iteration: nat) -> Seq<char> {
    let tv = tests_view(r.failed_tests@);
    prompt_header(
        iteration,
        r.command@,
        match r.exit_code {
            Some(c) => c as int,
            None => -1,
        },
        tail_output(r.stdout@),
        tail_output(r.stderr@),
    ) + if tv.len() > 0 {
        "\n## Parsed Failed Tests\n"@ + test_blocks(tv, tv.len()) + review_section(
            dedup(all_test_files(tv)),
        )
    } else {
        Seq::empty()
    } + prompt_instructions()
}

fn push_opt_line(out: &mut String, label: &str, v: &Option<String>)
    ensures
        final(out)@ == old(out)@ + opt_line(label@, crate::messages::opt_str(*v)),
{
    match v {
        Some(x) => {
            push_str(out, label);
            push_str(out, x.as_str());
            push_str(out, "\n");
        },
        None => {},
    }
}

fn push_frame_line(out: &mut String, n: usize, f: &StackFrame)
    ensures
        final(out)@ == old(out)@ + frame_line(n as nat, f@),
{
    match &f.file_path {
        Some(file) => {
            push_str(out, "     ");
            push_decimal(out, n as u64);
            push_str(out, ". ");
            push_str(out, file.as_str());
            match f.line_number {
                Some(l) => {
                    push_str(out, ":");
                    push_decimal(out, l as u64);
                },
                None => {},
            }
            match &f.function_name {
                Some(func) => {
                    push_str(out, " in ");
                    push_str(out, func.as_str());
                },
                None => {},
            }
            push_str(out, "\n");
        },
        None => {},
    }
}

fn push_file_lines(out: &mut String, files: &Vec<String>, prefix: &str, suffix: &str)
    ensures
        final(out)@ == old(out)@ + file_lines(strs_view(files@), prefix@, suffix@),
{
    let ghost start = out@;
    let ghost fv = strs_view(files@);
    let mut i: usize = 0;
    while i < files.len()
        invariant
            i <= files.len(),
            fv == strs_view(files@),
            out@ == start + file_lines(fv.take(i as int), prefix@, suffix@),
        decreases files.len() - i,
    {
        assert(fv.take(i + 1).drop_last() == fv.take(i as int));
        assert(fv.take(i + 1).last() == files@[i as int]@);
        push_str(out, prefix);
        push_str(out, files[i].as_str());
        push_str(out, suffix);
        i += 1;
    }
    assert(fv.take(files.len() as int) == fv);
}

fn push_line_part(out: &mut String, l: Option<u32>)
    ensures
        final(out)@ == old(out)@ + line_part(l),
{
    match l {
        Some(n) => {
            let ghost start = out@;
            push_str(out, "   Line: ");
            push_decimal(out, n as u64);
            push_str(out, "\n");
            assert(out@ =~= start + line_part(l));
        },
        None => {
            assert(out@ =~= out@ + line_part(l));
        },
    }
}

fn block_head_text(n: usize, t: &FailedTest) -> (h: String)
    ensures
        h@ == block_head(n as nat, t@),
{
    let mut h = String::from_str("\n");
    push_decimal(&mut h, n as u64);
    push_str(&mut h, ". Test: ");
    push_str(&mut h, t.name.as_str());
    push_str(&mut h, "\n");
    push_opt_line(&mut h, "   File: ", &t.file_path);
    push_line_part(&mut h, t.line_number);
    push_str(&mut h, "   Message: ");
    push_str(&mut h, t.message.as_str());
    push_str(&mut h, "\n");
    push_opt_line(&mut h, "   Expected: ", &t.expected);
    push_opt_line(&mut h, "   Actual: ", &t.actual);
    h
}

fn push_block_stack(out: &mut String, t: &FailedTest)
    ensures
        final(out)@ == old(out)@ + block_stack(t@),
{
    let ghost start = out@;
    match &t.stack_trace {
        Some(fs) => {
            if fs.len() > 0 {
                push_str(out, "   Stack Trace:\n");
                let ghost fv = crate::testing::frames_view(fs@);
                let ghost base = out@;
                let m: usize = if fs.len() < 5 { fs.len() } else { 5 };
                let mut j: usize = 0;
                while j < m
                    invariant
                        j <= m <= fs.len(),
                        fv == crate::testing::frames_view(fs@),
                        out@ == base + frame_lines(fv, j as nat),
                    decreases m - j,
                {
                    assert(fs@[j as int]@ == fv[j as int]);
                    push_frame_line(out, j + 1, &fs[j]);
                    j += 1;
                }
                assert(out@ =~= start + block_stack(t@));
            } else {
                assert(out@ =~= start + block_stack(t@));
            }
        },
        None => {
            assert(out@ =~= start + block_stack(t@));
        },
    }
}

fn push_test_block(out: &mut String, n: usize, t: &FailedTest)
    ensures
        final(out)@ == old(out)@ + test_block(n as nat, t@),
{
    let ghost start = out@;
    let h = block_head_text(n, t);
    push_str(out, h.as_str());
    push_block_stack(out, t);
    let ghost mid = out@;
    if t.related_files.len() > 0 {
        push_str(out, "   Related Files:\n");
        push_file_lines(out, &t.related_files, "     - ", "\n");
    }
    proof {
        assert(out@ =~= mid + block_related(t@));
        assert(out@ =~= start + test_block(n as nat, t@));
    }
}

/// Builds the prompt that hands a failed test run to the model (see
/// [`fix_prompt_spec`]); each output must be cut on a character boundary.
pub fn build_fix_prompt(test_result: &TestResult, iteration: usize) -> (prompt: String)
    requires
        tail_fits(test_result.stdout@),
        tail_fits(test_result.stderr@),
    ensures
        prompt@ == fix_prompt_spec(*test_result, iteration as nat),
{
    let stdout = truncate_output(test_result.stdout.as_str());
    let stderr = truncate_output(test_result.stderr.as_str());
    let mut prompt = String::from_str("<TEST_FAILURE_ANALYSIS iteration=\"");
    push_decimal(&mut prompt, iteration as u64);
    push_str(
        &mut prompt,
        "\">\nThe following test(s) have failed. Please analyze the failures and provide fixes.\n\n## Test Output\n\n**Command**: ",
    );
    push_str(&mut prompt, test_result.command.as_str());
    push_str(&mut prompt, "\n**Exit Code**: ");
    let code: i64 = match test_result.exit_code {
        Some(c) => c as i64,
        None => -1,
    };
    push_signed_decimal(&mut prompt, code);
    push_str(&mut prompt, "\n**STDOUT**:\n```\n");
    push_str(&mut prompt, stdout.as_str());
    push_str(&mut prompt, "\n```\n\n**STDERR**:\n```\n");
    push_str(&mut prompt, stderr.as_str());
    push_str(&mut prompt, "\n```\n");
    let ghost head = prompt@;
    let ghost tv = tests_view(test_result.failed_tests@);
    if test_result.failed_tests.len() > 0 {
        push_str(&mut prompt, "\n## Parsed Failed Tests\n");
        let ghost base = prompt@;
        let mut i: usize = 0;
        while i < test_result.failed_tests.len()
            invariant
                i <= test_result.failed_tests.len(),
                tv == tests_view(test_result.failed_tests@),
                prompt@ == base + test_blocks(tv, i as nat),
            decreases test_result.failed_tests.len() - i,
        {
            assert(test_result.failed_tests@[i as int]@ == tv[i as int]);
            push_test_block(&mut prompt, i + 1, &test_result.failed_tests[i]);
            i += 1;
        }
        let related = extract_related_files(test_result.failed_tests.as_slice());
        if related.len() > 0 {
            push_str(
                &mut prompt,
                "\n## Files to Review\nThe following files are likely relevant to the failures. Read them using `fs_read` for context:\n",
            );
            push_file_lines(&mut prompt, &related, "- `", "`\n");
        }
        assert(prompt@ =~= head + ("\n## Parsed Failed Tests\n"@ + test_blocks(tv, tv.len()) + review_section(dedup(all_test_files(tv)))));
    }
    let ghost body = prompt@;
    push_str(
        &mut prompt,
        "\n## Instructions\n\n1. Analyze the test failures above carefully\n2. **Read the relevant source files listed above** using `fs_read` to understand the context\n3. Identify the root cause of each failure\n4. Apply fixes using `edit` or `apply_patch` tools\n5. Focus on fixing the actual code bugs, NOT the tests (unless tests are incorrect)\n\nIMPORTANT: After making changes, the tests will be automatically re-run. Make sure your fixes are complete.\n</TEST_FAILURE_ANALYSIS>",
    );
    proof {
        assert(prompt@ =~= fix_prompt_spec(*test_result, iteration as nat));
    }
    prompt
}

// ---------------------------------------------------------------------------
// Running the loop
// ---------------------------------------------------------------------------
/// Why a test-fix loop cannot start.
pub open spec fn missing_config_message(language: Seq<char>) -> Seq<char> {
    "No test configuration found for language: "@ + language
}

/// Why a test-fix loop has nothing to run.
pub open spec fn no_commands_message(language: Seq<char>) -> Seq<char> {
    "No test commands configured for language: "@ + language
}

/// The command a test-fix loop runs: the first command configured for
/// `language` (the first configuration of that language counts); an error
/// when there is no configuration for it or it lists no command.
pub fn select_test_command(configs: &Vec<(String, TestConfig)>, language: &str) -> (r: Result<TestCommand, String>)
    ensures
        match r {
            Ok(c) => exists|i: int|
                0 <= i < configs@.len() && configs@[i].0@ == language@ && (forall|j: int|
                    0 <= j < i ==> configs@[j].0@ != language@) && configs@[i].1.commands@.len() > 0
                    && crate::testing::command_view(c) == crate::testing::command_view(
                    configs@[i].1.commands@[0],
                ),
            Err(e) => (forall|i: int| 0 <= i < configs@.len() ==> configs@[i].0@ != language@)
                && e@ == missing_config_message(language@) || exists|i: int|
                0 <= i < configs@.len() && configs@[i].0@ == language@ && (forall|j: int|
                    0 <= j < i ==> configs@[j].0@ != language@) && configs@[i].1.commands@.len() == 0
                    && e@ == no_commands_message(language@),
        },
{
    let mut i: usize = 0;
    while i < configs.len()
        invariant
            i <= configs.len(),
            forall|j: int| 0 <= j < i ==> configs@[j].0@ != language@,
        decreases configs.len() - i,
    {
        if crate::text::str_eq(configs[i].0.as_str(), language) {
            let cmds = &configs[i].1.commands;
            if cmds.len() == 0 {
                let mut e = String::from_str("No test commands configured for language: ");
                push_str(&mut e, language);
                return Err(e);
            }
            let c = &cmds[0];
            let args = copy_args(&c.args);
            return Ok(TestCommand { command: c.command.clone(), args });
        }
        i += 1;
    }
    let mut e = String::from_str("No test configuration found for language: ");
    push_str(&mut e, language);
    Err(e)
}

fn copy_args(v: &Vec<String>) -> (r: Vec<String>)
    ensures
        strs_view(r@) == strs_view(v@),
{
    let mut r: Vec<String> = Vec::new();
    let mut i: usize = 0;
    while i < v.len()
        invariant
            i <= v.len(),
            strs_view(r@) =~= strs_view(v@).take(i as int),
        decreases v.len() - i,
    {
        let x = v[i].clone();
        let ghost prev = r@;
        r.push(x);
        assert(strs_view(r@) =~= strs_view(prev).push(x@));
        i += 1;
    }
    r
}

/// Report of a finished test-fix loop.
pub open spec fn loop_message(success: bool, iterations: nat) -> Seq<char> {
    if success {
        "Tests passed after "@ + decimal(iterations) + " iteration(s)."@
    } else {
        "Tests still failing after "@ + decimal(iterations)
            + " iterations. Manual intervention required."@
    }
}

/// The result of a finished test-fix loop.
pub fn test_fix_result(success: bool, iterations: usize, final_stdout: String, final_stderr: String) -> (r: TestFixResult)
    ensures
        r.success == success,
        r.iterations == iterations,
        r.final_stdout == final_stdout,
        r.final_stderr == final_stderr,
        r.message@ == loop_message(success, iterations as nat),
{
    let message = if success {
        let mut m = String::from_str("Tests passed after ");
        push_decimal(&mut m, iterations as u64);
        push_str(&mut m, " iteration(s).");
        m
    } else {
        let mut m = String::from_str("Tests still failing after ");
        push_decimal(&mut m, iterations as u64);
        push_str(&mut m, " iterations. Manual intervention required.");
        m
    };
    TestFixResult { success, iterations, final_stdout, final_stderr, message }
}

} // verus!
