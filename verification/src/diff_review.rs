//! The diff shown for review after the agent changed files: which `git`
//! commands gather it and how their outputs are put together.
use crate::policy::{join_strings, join_with};
use crate::testing::{dedup, strs_view};
use crate::text::{
    bufs_view, chars_of, ends_with, lines_of, lines_spec, push_char, starts_with, str_eq,
    string_from, trim_spec,
};
use vstd::prelude::*;
use vstd::string::*;

verus! {

/// The combined diff of the agent's changes and the files it touches.
#[derive(Debug, Clone)]
pub struct DiffReviewPayload {
    pub diff: String,
    pub files: Vec<String>,
}

/// Seconds a `git` command of the review may take.
pub const GIT_DIFF_TIMEOUT_SECS: u64 = 30;

/// Arguments of `git diff` for the review: the patch (`--color=never`) or
/// the changed names (`--name-only`), limited to `filter` when it is not
/// empty.
pub open spec fn diff_args_spec(name_only: bool, filter: Seq<Seq<char>>) -> Seq<Seq<char>> {
    seq!["diff"@, if name_only { "--name-only"@ } else { "--color=never"@ }] + if filter.len() > 0 {
        seq!["--"@] + filter
    } else {
        Seq::empty()
    }
}

fn push_lit(v: &mut Vec<String>, lit: &str)
    ensures
        strs_view(final(v)@) == strs_view(old(v)@).push(lit@),
{
    let ghost prev = strs_view(v@);
    v.push(String::from_str(lit));
    assert(strs_view(v@) =~= prev.push(lit@));
}

fn push_copy(v: &mut Vec<String>, s: &String)
    ensures
        strs_view(final(v)@) == strs_view(old(v)@).push(s@),
{
    let ghost prev = strs_view(v@);
    v.push(s.clone());
    assert(strs_view(v@) =~= prev.push(s@));
}

/// Arguments of a review `git diff` (see [`diff_args_spec`]).
pub fn git_diff_args(name_only: bool, filter_paths: &Vec<String>) -> (args: Vec<String>)
    ensures
        strs_view(args@) == diff_args_spec(name_only, strs_view(filter_paths@)),
{
    let mut args: Vec<String> = Vec::new();
    push_lit(&mut args, "diff");
    if name_only {
        push_lit(&mut args, "--name-only");
    } else {
        push_lit(&mut args, "--color=never");
    }
    let ghost head = strs_view(args@);
    if filter_paths.len() > 0 {
        push_lit(&mut args, "--");
        let ghost base = strs_view(args@);
        let mut i: usize = 0;
        while i < filter_paths.len()
            invariant
                i <= filter_paths.len(),
                strs_view(args@) == base + strs_view(filter_paths@).take(i as int),
            decreases filter_paths.len() - i,
        {
            push_copy(&mut args, &filter_paths[i]);
            assert(strs_view(filter_paths@).take(i + 1) == strs_view(filter_paths@).take(i as int).push(
                filter_paths@[i as int]@,
            ));
            i += 1;
        }
        assert(strs_view(filter_paths@).take(filter_paths.len() as int) == strs_view(filter_paths@));
    }
    assert(strs_view(args@) =~= diff_args_spec(name_only, strs_view(filter_paths@)));
    args
}

/// Arguments of `git diff` showing an untracked file as new.
pub fn untracked_diff_args(path: &str) -> (args: Vec<String>)
    ensures
        strs_view(args@) == seq!["diff"@, "--color=never"@, "--no-index"@, "/dev/null"@, path@],
{
    let mut args: Vec<String> = Vec::new();
    push_lit(&mut args, "diff");
    push_lit(&mut args, "--color=never");
    push_lit(&mut args, "--no-index");
    push_lit(&mut args, "/dev/null");
    push_lit(&mut args, path);
    assert(strs_view(args@) =~= seq!["diff"@, "--color=never"@, "--no-index"@, "/dev/null"@, path@]);
    args
}

/// Whether a `git` command compares files outside the index (exit code 1
/// then means a difference, not a failure).
pub fn allows_no_index_diff(args: &Vec<String>) -> (b: bool)
    ensures
        b == strs_view(args@).contains("--no-index"@),
{
    let mut i: usize = 0;
    while i < args.len()
        invariant
            i <= args.len(),
            forall|j: int| 0 <= j < i ==> strs_view(args@)[j] != "--no-index"@,
        decreases args.len() - i,
    {
        if str_eq(args[i].as_str(), "--no-index") {
            assert(strs_view(args@)[i as int] == "--no-index"@);
            return true;
        }
        i += 1;
    }
    false
}

/// Non-empty trimmed lines among the first `n`.
pub open spec fn nonblank_lines(ls: Seq<Seq<char>>, n: nat) -> Seq<Seq<char>>
    decreases n,
{
    if n == 0 {
        Seq::empty()
    } else {
        nonblank_lines(ls, (n - 1) as nat) + if trim_spec(ls[n - 1]).len() > 0 {
            seq![trim_spec(ls[n - 1])]
        } else {
            Seq::empty()
        }
    }
}

/// The files `git diff --name-only` listed.
pub fn changed_files(names_stdout: &str) -> (files: Vec<String>)
    ensures
        strs_view(files@) == nonblank_lines(lines_spec(names_stdout@), lines_spec(names_stdout@).len()),
{
    let cs = chars_of(names_stdout);
    let ls = lines_of(cs.as_slice());
    let ghost lv = bufs_view(ls@);
    let mut files: Vec<String> = Vec::new();
    assert(strs_view(files@) =~= nonblank_lines(lv, 0));
    let mut i: usize = 0;
    while i < ls.len()
        invariant
            i <= ls.len(),
            lv == bufs_view(ls@),
            strs_view(files@) == nonblank_lines(lv, i as nat),
        decreases ls.len() - i,
    {
        assert(ls@[i as int]@ == lv[i as int]);
        let t = crate::text::trim_chars(ls[i].as_slice());
        let ghost prev = strs_view(files@);
        if t.len() > 0 {
            let s = string_from(t.as_slice());
            files.push(s);
            assert(strs_view(files@) =~= prev + seq![s@]);
        } else {
            assert(nonblank_lines(lv, (i + 1) as nat) =~= prev);
        }
        i += 1;
    }
    files
}

/// Whether an untracked path is within the agent's files: no filter, or a
/// filter entry and the path end one with the other.
pub open spec fn in_filter(path: Seq<char>, filter: Seq<Seq<char>>) -> bool {
    filter.len() == 0 || exists|i: int|
        0 <= i < filter.len() && (ends_with(#[trigger] filter[i], path) || ends_with(path, filter[i]))
}

/// The untracked file a `git status --porcelain=v1` line names, if the
/// review takes it: a `?? ` line, not blank, not a directory, within the
/// filter; trimmed.
pub open spec fn untracked_of(line: Seq<char>, filter: Seq<Seq<char>>) -> Option<Seq<char>> {
    if !starts_with(line, "?? "@) {
        None
    } else {
        let p = line.subrange(3, line.len() as int);
        if trim_spec(p).len() == 0 || ends_with(p, "/"@) || !in_filter(trim_spec(p), filter) {
            None
        } else {
            Some(trim_spec(p))
        }
    }
}

/// Untracked files among the first `n` status lines.
pub open spec fn untracked_files_spec(ls: Seq<Seq<char>>, n: nat, filter: Seq<Seq<char>>) -> Seq<Seq<char>>
    decreases n,
{
    if n == 0 {
        Seq::empty()
    } else {
        untracked_files_spec(ls, (n - 1) as nat, filter) + match untracked_of(ls[n - 1], filter) {
            Some(p) => seq![p],
            None => Seq::empty(),
        }
    }
}

fn filter_matches(path: &Vec<char>, filter_paths: &Vec<String>) -> (b: bool)
    ensures
        b == in_filter(path@, strs_view(filter_paths@)),
{
    if filter_paths.len() == 0 {
        return true;
    }
    let ghost fv = strs_view(filter_paths@);
    let mut i: usize = 0;
    while i < filter_paths.len()
        invariant
            i <= filter_paths.len(),
            fv == strs_view(filter_paths@),
            forall|j: int| 0 <= j < i ==> !(ends_with(#[trigger] fv[j], path@) || ends_with(path@, fv[j])),
        decreases filter_paths.len() - i,
    {
        let f = chars_of(filter_paths[i].as_str());
        assert(f@ == fv[i as int]);
        if crate::text::has_suffix(f.as_slice(), path.as_slice()) || crate::text::has_suffix(path.as_slice(), f.as_slice()) {
            return true;
        }
        i += 1;
    }
    false
}

/// The untracked files a status listing names for review (see
/// [`untracked_of`]).
pub fn untracked_paths(status_text: &str, filter_paths: &Vec<String>) -> (paths: Vec<String>)
    ensures
        strs_view(paths@) == untracked_files_spec(
            lines_spec(status_text@),
            lines_spec(status_text@).len(),
            strs_view(filter_paths@),
        ),
{
    let cs = chars_of(status_text);
    let ls = lines_of(cs.as_slice());
    let ghost lv = bufs_view(ls@);
    let marker = chars_of("?? ");
    let slash = vec!['/'];
    proof {
        reveal_strlit("?? ");
        reveal_strlit("/");
    }
    assert(slash@ =~= "/"@);
    let mut paths: Vec<String> = Vec::new();
    assert(strs_view(paths@) =~= untracked_files_spec(lv, 0, strs_view(filter_paths@)));
    let mut i: usize = 0;
    while i < ls.len()
        invariant
            i <= ls.len(),
            lv == bufs_view(ls@),
            marker@ == "?? "@,
            marker@.len() == 3,
            slash@ == "/"@,
            strs_view(paths@) == untracked_files_spec(lv, i as nat, strs_view(filter_paths@)),
        decreases ls.len() - i,
    {
        let l = &ls[i];
        assert(l@ == lv[i as int]);
        let ghost prev = strs_view(paths@);
        let mut taken = false;
        if crate::text::has_prefix(l.as_slice(), marker.as_slice()) {
            let p = crate::text::slice_to_vec(l.as_slice(), 3, l.len());
            let t = crate::text::trim_chars(p.as_slice());
            if t.len() > 0 && !crate::text::has_suffix(p.as_slice(), slash.as_slice()) && filter_matches(&t, filter_paths) {
                let s = string_from(t.as_slice());
                paths.push(s);
                assert(strs_view(paths@) =~= prev + seq![s@]);
                taken = true;
            }
        }
        if !taken {
            assert(strs_view(paths@) =~= untracked_files_spec(lv, (i + 1) as nat, strs_view(filter_paths@)));
        }
        i += 1;
    }
    paths
}

/// Diff sections: the diff of tracked files, then each untracked file's diff, the
/// empty ones left out.
pub open spec fn diff_sections(indexed: Seq<char>, untracked: Seq<(Seq<char>, Seq<char>)>) -> Seq<Seq<char>>
    decreases untracked.len(),
{
    if untracked.len() == 0 {
        if indexed.len() > 0 {
            seq![indexed]
        } else {
            Seq::empty()
        }
    } else {
        diff_sections(indexed, untracked.drop_last()) + if untracked.last().1.len() > 0 {
            seq![untracked.last().1]
        } else {
            Seq::empty()
        }
    }
}

/// Files of the review: those `git diff` named, then each untracked file
/// not named yet.
pub open spec fn review_files(files: Seq<Seq<char>>, untracked: Seq<(Seq<char>, Seq<char>)>) -> Seq<Seq<char>>
    decreases untracked.len(),
{
    if untracked.len() == 0 {
        files
    } else {
        let prev = review_files(files, untracked.drop_last());
        if prev.contains(untracked.last().0) {
            prev
        } else {
            prev.push(untracked.last().0)
        }
    }
}

/// The review payload, when there is any diff: the sections joined by line
/// breaks, ending in one.
pub open spec fn payload_spec(
    indexed: Seq<char>,
    files: Seq<Seq<char>>,
    untracked: Seq<(Seq<char>, Seq<char>)>,
) -> Option<(Seq<char>, Seq<Seq<char>>)> {
    let sections = diff_sections(indexed, untracked);
    if sections.len() == 0 {
        None
    } else {
        let joined = join_with(sections, "\n"@);
        Some((
            if joined.len() > 0 && joined.last() == '\n' {
                joined
            } else {
                joined.push('\n')
            },
            review_files(files, untracked),
        ))
    }
}

/// Views of (path, diff) pairs.
pub open spec fn pairs_view(v: Seq<(String, String)>) -> Seq<(Seq<char>, Seq<char>)> {
    v.map_values(|p: (String, String)| (p.0@, p.1@))
}

fn strings_contain(v: &Vec<String>, s: &String) -> (b: bool)
    ensures
        b == strs_view(v@).contains(s@),
{
    let mut i: usize = 0;
    while i < v.len()
        invariant
            i <= v.len(),
            forall|j: int| 0 <= j < i ==> strs_view(v@)[j] != s@,
        decreases v.len() - i,
    {
        if str_eq(v[i].as_str(), s.as_str()) {
            assert(strs_view(v@)[i as int] == s@);
            return true;
        }
        i += 1;
    }
    false
}

/// Puts the review together from the diff of tracked files, the files `git diff`
/// named, and each untracked file with its diff (see [`payload_spec`]).
pub fn assemble_payload(indexed_diff: String, files: Vec<String>, untracked: &Vec<(String, String)>) -> (r: Option<
    DiffReviewPayload,
>)
    ensures
        match r {
            Some(p) => payload_spec(indexed_diff@, strs_view(files@), pairs_view(untracked@)) == Some(
                (p.diff@, strs_view(p.files@)),
            ),
            None => payload_spec(indexed_diff@, strs_view(files@), pairs_view(untracked@)).is_none(),
        },
{
    let ghost uv = pairs_view(untracked@);
    let ghost fv0 = strs_view(files@);
    let mut sections: Vec<String> = Vec::new();
    let ghost tv = indexed_diff@;
    if indexed_diff.unicode_len() > 0 {
        sections.push(indexed_diff);
    }
    assert(strs_view(sections@) =~= diff_sections(tv, uv.take(0)));
    let mut files = files;
    assert(strs_view(files@) == review_files(fv0, uv.take(0)));
    let mut i: usize = 0;
    while i < untracked.len()
        invariant
            i <= untracked.len(),
            uv == pairs_view(untracked@),
            strs_view(sections@) == diff_sections(tv, uv.take(i as int)),
            strs_view(files@) == review_files(fv0, uv.take(i as int)),
        decreases untracked.len() - i,
    {
        assert(uv.take(i + 1).drop_last() == uv.take(i as int));
        assert(uv.take(i + 1).last() == (untracked@[i as int].0@, untracked@[i as int].1@));
        let (path, diff) = &untracked[i];
        let ghost ps = strs_view(sections@);
        if diff.unicode_len() > 0 {
            push_copy(&mut sections, diff);
        }
        assert(strs_view(sections@) =~= diff_sections(tv, uv.take(i + 1)));
        if !strings_contain(&files, path) {
            push_copy(&mut files, path);
        }
        i += 1;
    }
    assert(uv.take(untracked.len() as int) == uv);
    if sections.len() == 0 {
        return None;
    }
    let mut combined = join_strings(&sections, "\n");
    let cs = chars_of(combined.as_str());
    if !(cs.len() > 0 && cs[cs.len() - 1] == '\n') {
        push_char(&mut combined, '\n');
    }
    proof {
        assert(crate::policy::str_views(sections@) =~= strs_view(sections@));
    }
    Some(DiffReviewPayload { diff: combined, files })
}

} // verus!
