//! Text shown in the terminal interface: width-bounded summaries and the
//! labels of tool executions.
use crate::text::{concat_all, push_str, str_eq};
use vstd::prelude::*;
use vstd::string::*;

verus! {

/// Display width of a text in terminal columns
/// (`unicode_width::UnicodeWidthStr::width`).
pub uninterp spec fn display_width(s: Seq<char>) -> nat;

/// Extended grapheme clusters of a text
/// (`unicode_segmentation::UnicodeSegmentation::graphemes(s, true)`).
pub uninterp spec fn graphemes(s: Seq<char>) -> Seq<Seq<char>>;

/// Measures a text's display width (`UnicodeWidthStr::width`); the result
/// is named by [`display_width`].
#[verifier::external_body]
fn str_width(s: &str) -> (w: usize)
    ensures
        w == display_width(s@),
{
    unicode_width::UnicodeWidthStr::width(s)
}

/// Splits a text into extended grapheme clusters (`graphemes(true)`); the
/// result is named by [`graphemes`].
#[verifier::external_body]
fn grapheme_clusters(s: &str) -> (gs: Vec<String>)
    ensures
        crate::testing::strs_view(gs@) == graphemes(s@),
{
    unicode_segmentation::UnicodeSegmentation::graphemes(s, true).map(|g| g.to_string()).collect()
}

/// Number of leading clusters from `i` on whose widths, added to `cur`,
/// stay within `target`.
pub open spec fn fitting_clusters(gs: Seq<Seq<char>>, target: nat, i: nat, cur: nat) -> nat
    decreases gs.len() - i,
{
    if i >= gs.len() || cur + display_width(gs[i as int]) > target {
        i
    } else {
        fitting_clusters(gs, target, i + 1, cur + display_width(gs[i as int]))
    }
}

/// A text cut to `max_width` columns: unchanged when it fits; else the
/// leading grapheme clusters that fit in three columns less, then `...`.
pub open spec fn truncated_spec(s: Seq<char>, max_width: nat) -> Seq<char> {
    if display_width(s) <= max_width {
        s
    } else {
        let gs = graphemes(s);
        let target: nat = if max_width >= 3 { (max_width - 3) as nat } else { 0 };
        concat_all(gs.take(fitting_clusters(gs, target, 0, 0) as int)) + "..."@
    }
}

/// Cuts a text to a display width without splitting grapheme clusters (see
/// [`truncated_spec`]).
pub fn truncate_string_with_graphemes(s: &str, max_width: usize) -> (out: String)
    ensures
        out@ == truncated_spec(s@, max_width as nat),
{
    if str_width(s) <= max_width {
        return String::from_str(s);
    }
    let gs = grapheme_clusters(s);
    let ghost gv = crate::testing::strs_view(gs@);
    let target: usize = max_width.saturating_sub(3);
    let mut cur: usize = 0;
    let mut out = String::new();
    let mut i: usize = 0;
    let mut stop = false;
    assert(gv.take(0) =~= Seq::<Seq<char>>::empty());
    while i < gs.len() && !stop
        invariant
            i <= gs.len(),
            gv == crate::testing::strs_view(gs@),
            cur <= target,
            target == (if max_width >= 3 { (max_width - 3) as nat } else { 0nat }),
            fitting_clusters(gv, target as nat, 0, 0) == fitting_clusters(gv, target as nat, i as nat, cur as nat),
            stop ==> fitting_clusters(gv, target as nat, i as nat, cur as nat) == i,
            out@ == concat_all(gv.take(i as int)),
        decreases gs.len() - i, (if stop { 0int } else { 1int }),
    {
        let w = str_width(gs[i].as_str());
        assert(gs@[i as int]@ == gv[i as int]);
        if w > target - cur {
            stop = true;
        } else {
            push_str(&mut out, gs[i].as_str());
            cur = cur + w;
            assert(gv.take(i + 1).drop_last() == gv.take(i as int));
            i += 1;
        }
    }
    push_str(&mut out, "...");
    out
}

/// Icon shown before a tool's name.
pub open spec fn tool_icon_spec(name: Seq<char>) -> Seq<char> {
    if name == "fs_list"@ {
        "🗂️"@
    } else if name == "fs_read"@ {
        "📖"@
    } else if name == "fs_read_many_files"@ {
        "📚"@
    } else if name == "fs_write"@ {
        "📝"@
    } else if name == "search_text"@ {
        "🔍"@
    } else if name == "execute_bash"@ {
        "🔧"@
    } else if name == "find_file"@ {
        "📁"@
    } else if name == "search_repomap"@ {
        "🗺️"@
    } else if name == "edit"@ {
        "✏️"@
    } else if name == "apply_patch"@ {
        "🧩"@
    } else if name == "plan_write"@ || name == "plan_read"@ {
        "🗂️"@
    } else {
        "🔧"@
    }
}

/// The icon of a tool (see [`tool_icon_spec`]).
pub fn tool_icon(name: &str) -> (icon: &'static str)
    ensures
        icon@ == tool_icon_spec(name@),
{
    if str_eq(name, "fs_list") {
        "🗂️"
    } else if str_eq(name, "fs_read") {
        "📖"
    } else if str_eq(name, "fs_read_many_files") {
        "📚"
    } else if str_eq(name, "fs_write") {
        "📝"
    } else if str_eq(name, "search_text") {
        "🔍"
    } else if str_eq(name, "execute_bash") {
        "🔧"
    } else if str_eq(name, "find_file") {
        "📁"
    } else if str_eq(name, "search_repomap") {
        "🗺️"
    } else if str_eq(name, "edit") {
        "✏️"
    } else if str_eq(name, "apply_patch") {
        "🧩"
    } else if str_eq(name, "plan_write") || str_eq(name, "plan_read") {
        "🗂️"
    } else {
        "🔧"
    }
}

/// Status label of a finished tool call.
pub fn status_text(success: bool) -> (s: &'static str)
    ensures
        s@ == (if success {
            "✅ SUCCESS"@
        } else {
            "❌ FAILED"@
        }),
{
    if success {
        "✅ SUCCESS"
    } else {
        "❌ FAILED"
    }
}

} // verus!
