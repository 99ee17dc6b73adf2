//! Git worktrees: reading what `git` answered when asked whether this is a
//! repository, and when asked to add a worktree.
use crate::testing::strs_view;
use crate::text::{push_str, trim_spec};
use vstd::prelude::*;
use vstd::string::*;
use vstd::utf8::*;

verus! {

/// Failure of a worktree operation.
#[derive(Debug)]
pub enum WorktreeError {
    NotAGitRepository,
    CommandFailed { stdout: String, stderr: String },
    /// An I/O error, with its text.
    IoError(String),
    /// Output that is not UTF-8, with the error's text.
    Utf8Error(String),
}

/// Value of a [`WorktreeError`].
pub enum WorktreeErrorView {
    NotAGitRepository,
    CommandFailed(Seq<char>, Seq<char>),
    IoError(Seq<char>),
    Utf8Error(Seq<char>),
}

impl View for WorktreeError {
    type V = WorktreeErrorView;

    open spec fn view(&self) -> WorktreeErrorView {
        match self {
            WorktreeError::NotAGitRepository => WorktreeErrorView::NotAGitRepository,
            WorktreeError::CommandFailed { stdout, stderr } => WorktreeErrorView::CommandFailed(stdout@, stderr@),
            WorktreeError::IoError(e) => WorktreeErrorView::IoError(e@),
            WorktreeError::Utf8Error(e) => WorktreeErrorView::Utf8Error(e@),
        }
    }
}

/// View of an outcome.
pub open spec fn outcome_view<T>(r: Result<T, WorktreeError>) -> Result<T, WorktreeErrorView> {
    match r {
        Ok(v) => Ok(v),
        Err(e) => Err(e@),
    }
}

/// View of an outcome carrying a path.
pub open spec fn path_outcome_view(r: Result<String, WorktreeError>) -> Result<Seq<char>, WorktreeErrorView> {
    match r {
        Ok(p) => Ok(p@),
        Err(e) => Err(e@),
    }
}

impl WorktreeError {
    /// Display text of the error.
    pub fn describe(&self) -> (s: String)
        ensures
            s@ == match self {
                WorktreeError::NotAGitRepository => "The current directory is not a Git repository."@,
                WorktreeError::CommandFailed { stdout, stderr } => "Failed to create worktree: "@ + stdout@
                    + ", "@ + stderr@,
                WorktreeError::IoError(e) => "IO error: "@ + e@,
                WorktreeError::Utf8Error(e) => "UTF-8 conversion error: "@ + e@,
            },
    {
        match self {
            WorktreeError::NotAGitRepository => String::from_str("The current directory is not a Git repository."),
            WorktreeError::CommandFailed { stdout, stderr } => {
                let mut s = String::from_str("Failed to create worktree: ");
                push_str(&mut s, stdout.as_str());
                push_str(&mut s, ", ");
                push_str(&mut s, stderr.as_str());
                s
            },
            WorktreeError::IoError(e) => {
                let mut s = String::from_str("IO error: ");
                push_str(&mut s, e.as_str());
                s
            },
            WorktreeError::Utf8Error(e) => {
                let mut s = String::from_str("UTF-8 conversion error: ");
                push_str(&mut s, e.as_str());
                s
            },
        }
    }
}

/// Text of the error `String::from_utf8` reports for `bytes`.
pub uninterp spec fn utf8_error_text(bytes: Seq<u8>) -> Seq<char>;

/// Decodes bytes strictly (`String::from_utf8`): text exactly when they
/// are UTF-8; else the error's text, named by [`utf8_error_text`].
#[verifier::external_body]
fn decode_strict(bytes: Vec<u8>) -> (r: Result<String, String>)
    ensures
        r.is_ok() == valid_utf8(bytes@),
        r.is_ok() ==> r.unwrap()@ == decode_utf8(bytes@),
        r.is_err() ==> r->Err_0@ == utf8_error_text(bytes@),
{
    String::from_utf8(bytes).map_err(|e| e.to_string())
}

/// Creates Git worktrees.
pub struct WorktreeManager;

impl WorktreeManager {
    /// What `git rev-parse --is-inside-work-tree` answered: not a
    /// repository when it failed; an error when its output is not UTF-8;
    /// else whether the trimmed output is `true`.
    pub fn inside_work_tree(success: bool, stdout: Vec<u8>) -> (r: Result<bool, WorktreeError>)
        ensures
            outcome_view(r) == (if !success {
                Ok::<bool, WorktreeErrorView>(false)
            } else if valid_utf8(stdout@) {
                Ok(trim_spec(decode_utf8(stdout@)) == "true"@)
            } else {
                Err(WorktreeErrorView::Utf8Error(utf8_error_text(stdout@)))
            }),
    {
        if !success {
            return Ok(false);
        }
        match decode_strict(stdout) {
            Ok(s) => {
                let t = crate::text::trim_str(s.as_str());
                Ok(crate::text::str_eq(t.as_str(), "true"))
            },
            Err(e) => Err(WorktreeError::Utf8Error(e)),
        }
    }

    /// Path of worktree `id` under `base_path`.
    pub fn worktree_path(base_path: &str, id: &str) -> (p: String)
        ensures
            p@ == base_path@ + "/"@ + id@,
    {
        let mut p = String::from_str(base_path);
        push_str(&mut p, "/");
        push_str(&mut p, id);
        p
    }

    /// Arguments of `git` that add the worktree at `path` for
    /// `branch_name`.
    pub fn worktree_add_args(path: &str, branch_name: &str) -> (args: Vec<String>)
        ensures
            strs_view(args@) == seq!["worktree"@, "add"@, path@, branch_name@],
    {
        let mut args: Vec<String> = Vec::new();
        args.push(String::from_str("worktree"));
        args.push(String::from_str("add"));
        args.push(String::from_str(path));
        args.push(String::from_str(branch_name));
        assert(strs_view(args@) =~= seq!["worktree"@, "add"@, path@, branch_name@]);
        args
    }

    /// What `git worktree add` answered: the worktree's path on success;
    /// else its output as an error (or a decoding error when the output is
    /// not UTF-8, standard output checked first).
    pub fn worktree_result(success: bool, stdout: Vec<u8>, stderr: Vec<u8>, path: String) -> (r: Result<
        String,
        WorktreeError,
    >)
        ensures
            path_outcome_view(r) == (if success {
                Ok::<Seq<char>, WorktreeErrorView>(path@)
            } else if !valid_utf8(stdout@) {
                Err(WorktreeErrorView::Utf8Error(utf8_error_text(stdout@)))
            } else if !valid_utf8(stderr@) {
                Err(WorktreeErrorView::Utf8Error(utf8_error_text(stderr@)))
            } else {
                Err(WorktreeErrorView::CommandFailed(decode_utf8(stdout@), decode_utf8(stderr@)))
            }),
    {
        if success {
            return Ok(path);
        }
        let out = match decode_strict(stdout) {
            Ok(s) => s,
            Err(e) => {
                return Err(WorktreeError::Utf8Error(e));
            },
        };
        let err = match decode_strict(stderr) {
            Ok(s) => s,
            Err(e) => {
                return Err(WorktreeError::Utf8Error(e));
            },
        };
        Err(WorktreeError::CommandFailed { stdout: out, stderr: err })
    }
}

} // verus!
