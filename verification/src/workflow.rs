//! Workflows: Markdown files whose lines are steps run one after another,
//! with optional front matter.
use crate::config::AppConfig;
use crate::testing::strs_view;
use crate::text::{
    bufs_view, chars_of, decimal, first_match, is_first_match_from, lemma_first_match, lines_of,
    lines_spec, push_chars, push_decimal, push_str, starts_with, string_from, trim_spec,
};
use vstd::prelude::*;
use vstd::string::*;

verus! {

/// Front matter of a workflow.
#[derive(Debug, Clone)]
pub struct WorkflowMetadata {
    pub description: Option<String>,
}

/// A loaded workflow.
#[derive(Debug, Clone)]
pub struct Workflow {
    pub name: String,
    pub metadata: WorkflowMetadata,
    pub steps: Vec<String>,
    pub file_path: String,
}

// ---------------------------------------------------------------------------
// Front matter
// ---------------------------------------------------------------------------
/// `content` split at its first two `---` markers, when it has two and
/// nothing but white space before the first: the front matter between
/// them and the body after the second.
pub open spec fn frontmatter_spec(content: Seq<char>) -> Option<(Seq<char>, Seq<char>)> {
    let m = "---"@;
    if !crate::text::contains_seq(content, m) {
        None
    } else {
        let a = first_match(content, m);
        let rest = content.subrange(a + 3, content.len() as int);
        if !crate::text::contains_seq(rest, m) || trim_spec(content.take(a)).len() != 0 {
            None
        } else {
            let b = first_match(rest, m);
            Some((rest.take(b), rest.subrange(b + 3, rest.len() as int)))
        }
    }
}

/// Splits off a workflow's front matter (see [`frontmatter_spec`]).
pub fn split_frontmatter(content: &str) -> (r: Option<(String, String)>)
    ensures
        match r {
            Some((yaml, body)) => frontmatter_spec(content@) == Some((yaml@, body@)),
            None => frontmatter_spec(content@).is_none(),
        },
{
    let cs = chars_of(content);
    let m = chars_of("---");
    proof {
        reveal_strlit("---");
    }
    let a = match crate::text::find(cs.as_slice(), m.as_slice()) {
        Some(a) => a,
        None => {
            return None;
        },
    };
    proof {
        lemma_first_match(cs@, m@, a as int);
    }
    assert(crate::text::matches_at(cs@, m@, a as int));
    assert(m@.len() == 3);
    assert(a + 3 <= cs@.len());
    assert(cs@.len() == cs.len());
    let rest = slice_to_vec_from(&cs, a + 3);
    let b = match crate::text::find(rest.as_slice(), m.as_slice()) {
        Some(b) => b,
        None => {
            return None;
        },
    };
    let before = crate::text::slice_to_vec(cs.as_slice(), 0, a);
    let t = crate::text::trim_chars(before.as_slice());
    if t.len() != 0 {
        return None;
    }
    proof {
        lemma_first_match(rest@, m@, b as int);
    }
    assert(crate::text::matches_at(rest@, m@, b as int));
    let yaml = crate::text::substring(rest.as_slice(), 0, b);
    let body = crate::text::substring(rest.as_slice(), b + 3, rest.len());
    Some((yaml, body))
}

fn slice_to_vec_from(cs: &Vec<char>, a: usize) -> (out: Vec<char>)
    requires
        a <= cs.len(),
    ensures
        out@ == cs@.subrange(a as int, cs@.len() as int),
{
    crate::text::slice_to_vec(cs.as_slice(), a, cs.len())
}

// ---------------------------------------------------------------------------
// Steps
// ---------------------------------------------------------------------------
/// Whether `c` is numeric (`char::is_numeric`: Unicode categories `Nd`,
/// `Nl` and `No`).
pub uninterp spec fn numeric_char(c: char) -> bool;

/// Tests `char::is_numeric`; the result is named by [`numeric_char`], and
/// ASCII digits are numeric, as its documentation shows.
#[verifier::external_body]
fn is_numeric(c: char) -> (b: bool)
    ensures
        b == numeric_char(c),
        '0' <= c <= '9' ==> b,
{
    c.is_numeric()
}

/// Whether every character of `s` is numeric.
pub open spec fn all_numeric(s: Seq<char>) -> bool {
    forall|i: int| 0 <= i < s.len() ==> numeric_char(#[trigger] s[i])
}

/// A step line without its list marker: `- ` is dropped; else, when the
/// text before the first `. ` is numeric, everything up to and including
/// the `. `.
pub open spec fn strip_marker(line: Seq<char>) -> Seq<char> {
    if starts_with(line, "- "@) {
        line.subrange(2, line.len() as int)
    } else if crate::text::contains_seq(line, ". "@) && all_numeric(line.take(first_match(line, ". "@))) {
        line.subrange(first_match(line, ". "@) + 2, line.len() as int)
    } else {
        line
    }
}

/// The step of a body line, if it is one: trimmed, not empty, not a
/// header (`#`), and not empty once its list marker is dropped.
pub open spec fn step_of(line: Seq<char>) -> Option<Seq<char>> {
    let t = trim_spec(line);
    if t.len() == 0 || starts_with(t, "#"@) {
        None
    } else if strip_marker(t).len() == 0 {
        None
    } else {
        Some(strip_marker(t))
    }
}

/// Steps among the first `n` lines.
pub open spec fn steps_of(lines: Seq<Seq<char>>, n: nat) -> Seq<Seq<char>>
    decreases n,
{
    if n == 0 {
        Seq::empty()
    } else {
        steps_of(lines, (n - 1) as nat) + match step_of(lines[n - 1]) {
            Some(s) => seq![s],
            None => Seq::empty(),
        }
    }
}

fn strip_list_marker(t: &Vec<char>) -> (out: Vec<char>)
    ensures
        out@ == strip_marker(t@),
{
    let dash = chars_of("- ");
    let dot = chars_of(". ");
    proof {
        reveal_strlit("- ");
        reveal_strlit(". ");
    }
    if crate::text::has_prefix(t.as_slice(), dash.as_slice()) {
        return slice_to_vec_from(t, 2);
    }
    match crate::text::find(t.as_slice(), dot.as_slice()) {
        Some(idx) => {
            proof {
                lemma_first_match(t@, dot@, idx as int);
            }
            assert(crate::text::matches_at(t@, dot@, idx as int));
            let mut k: usize = 0;
            while k < idx && is_numeric(t[k])
                invariant
                    k <= idx <= t.len(),
                    forall|j: int| 0 <= j < k ==> numeric_char(#[trigger] t@[j]),
                decreases idx - k,
            {
                k += 1;
            }
            if k == idx {
                assert(all_numeric(t@.take(idx as int))) by {
                    assert forall|j: int| 0 <= j < t@.take(idx as int).len() implies numeric_char(
                        #[trigger] t@.take(idx as int)[j],
                    ) by {
                        assert(t@.take(idx as int)[j] == t@[j]);
                    }
                }
                slice_to_vec_from(t, idx + 2)
            } else {
                assert(!all_numeric(t@.take(idx as int))) by {
                    assert(t@.take(idx as int)[k as int] == t@[k as int]);
                }
                crate::text::slice_to_vec(t.as_slice(), 0, t.len())
            }
        },
        None => {
            assert(t@.subrange(0, t@.len() as int) =~= t@);
            crate::text::slice_to_vec(t.as_slice(), 0, t.len())
        },
    }
}

/// The steps of a workflow body, in order (see [`step_of`]).
pub fn parse_steps(body: &str) -> (steps: Vec<String>)
    ensures
        strs_view(steps@) == steps_of(lines_spec(body@), lines_spec(body@).len()),
{
    let cs = chars_of(body);
    let ls = lines_of(cs.as_slice());
    let ghost lv = bufs_view(ls@);
    let hash = chars_of("#");
    let mut steps: Vec<String> = Vec::new();
    assert(strs_view(steps@) =~= steps_of(lv, 0));
    let mut i: usize = 0;
    while i < ls.len()
        invariant
            i <= ls.len(),
            lv == bufs_view(ls@),
            hash@ == "#"@,
            strs_view(steps@) == steps_of(lv, i as nat),
        decreases ls.len() - i,
    {
        assert(ls@[i as int]@ == lv[i as int]);
        let t = crate::text::trim_chars(ls[i].as_slice());
        if t.len() > 0 && !crate::text::has_prefix(t.as_slice(), hash.as_slice()) {
            let clean = strip_list_marker(&t);
            if clean.len() > 0 {
                let ghost prev = strs_view(steps@);
                let s = string_from(clean.as_slice());
                steps.push(s);
                assert(strs_view(steps@) =~= prev + seq![s@]);
            } else {
                assert(steps_of(lv, (i + 1) as nat) =~= steps_of(lv, i as nat));
            }
        } else {
            assert(steps_of(lv, (i + 1) as nat) =~= steps_of(lv, i as nat));
        }
        i += 1;
    }
    steps
}

// ---------------------------------------------------------------------------
// Loading and running
// ---------------------------------------------------------------------------
/// Where a workflow named `name` lives under `project_root`.
pub open spec fn workflow_path_spec(project_root: Seq<char>, name: Seq<char>) -> Seq<char> {
    crate::paths::join_spec(
        crate::paths::join_spec(crate::paths::join_spec(project_root, ".doge"@), "workflows"@),
        name + ".md"@,
    )
}

/// The file of workflow `name` (`.doge/workflows/<name>.md`).
pub fn workflow_path(project_root: &str, name: &str) -> (p: String)
    ensures
        p@ == workflow_path_spec(project_root@, name@),
{
    let a = crate::paths::join(project_root, ".doge");
    let b = crate::paths::join(a.as_str(), "workflows");
    let mut file = String::from_str(name);
    push_str(&mut file, ".md");
    crate::paths::join(b.as_str(), file.as_str())
}

/// Error for a missing workflow file.
pub fn workflow_not_found(name: &str, path: &str) -> (m: String)
    ensures
        m@ == "Workflow file not found: "@ + name@ + ". Expected at: "@ + path@,
{
    let mut m = String::from_str("Workflow file not found: ");
    push_str(&mut m, name);
    push_str(&mut m, ". Expected at: ");
    push_str(&mut m, path);
    m
}

impl Workflow {
    /// A workflow from its parts: the steps are read from `body` (see
    /// [`parse_steps`]).
    pub fn from_parts(name: &str, metadata: WorkflowMetadata, body: &str, file_path: String) -> (w: Workflow)
        ensures
            w.name@ == name@,
            w.metadata == metadata,
            strs_view(w.steps@) == steps_of(lines_spec(body@), lines_spec(body@).len()),
            w.file_path == file_path,
    {
        Workflow { name: String::from_str(name), metadata, steps: parse_steps(body), file_path }
    }
}

/// Runs workflows.
pub struct WorkflowExecutor {
    cfg: AppConfig,
}

/// Instruction for step `n` of `total`.
pub open spec fn step_instruction_spec(n: nat, total: nat, step: Seq<char>) -> Seq<char> {
    "Workflow Step "@ + decimal(n) + "/"@ + decimal(total) + ": "@ + step + "\n\nExecute this step."@
}

impl WorkflowExecutor {
    /// The settings runs use.
    pub closed spec fn cfg(&self) -> AppConfig {
        self.cfg
    }

    /// An executor with settings `cfg`.
    pub fn new(cfg: AppConfig) -> (e: Self)
        ensures
            e.cfg() == cfg,
    {
        WorkflowExecutor { cfg }
    }

    /// The settings runs use.
    pub fn config(&self) -> (c: &AppConfig)
        ensures
            *c == self.cfg(),
    {
        &self.cfg
    }

    /// The instruction sent for step `n` (1-based) of `total`.
    pub fn step_instruction(n: usize, total: usize, step: &str) -> (s: String)
        ensures
            s@ == step_instruction_spec(n as nat, total as nat, step@),
    {
        let mut s = String::from_str("Workflow Step ");
        push_decimal(&mut s, n as u64);
        push_str(&mut s, "/");
        push_decimal(&mut s, total as u64);
        push_str(&mut s, ": ");
        push_str(&mut s, step);
        push_str(&mut s, "\n\nExecute this step.");
        s
    }
}

} // verus!
