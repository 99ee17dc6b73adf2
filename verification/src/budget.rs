//! Character budgets for text handed back to the model: keep the head (and
//! the tail) of an oversized text and mark the cut.
use crate::text::{chars_of, push_chars, push_str, string_from};
use vstd::prelude::*;
use vstd::string::*;

verus! {

/// Default character budget for one tool result.
pub const DEFAULT_TOOL_BUDGET_CHARS: usize = 6000;

/// Marker placed where the middle of a text was dropped.
pub open spec fn middle_marker() -> Seq<char> {
    "\n...[output truncated]...\n"@
}

/// Marker placed after a kept head.
pub open spec fn tail_marker() -> Seq<char> {
    "\n...[output truncated]"@
}

/// Text after budgeting, and whether anything was cut.
#[derive(Debug, Clone)]
pub struct Truncated {
    pub text: String,
    pub truncated: bool,
}

/// Head-and-tail budgeting of `s` to `budget` characters: unchanged when it
/// fits; otherwise the first half and the last half of the room left after
/// the marker, around the marker (only a head when the marker does not fit).
pub open spec fn head_tail_spec(s: Seq<char>, budget: nat) -> (Seq<char>, bool) {
    let m = middle_marker();
    if s.len() <= budget {
        (s, false)
    } else if budget <= m.len() {
        (s.take(budget as int), true)
    } else {
        let keep = (budget - m.len()) as nat;
        let h = (keep + 1) / 2;
        let t = keep - h;
        (s.take(h as int) + m + s.subrange(s.len() - t, s.len() as int), true)
    }
}

/// Head budgeting of `s` to `budget` characters: unchanged when it fits;
/// otherwise the head that leaves room for the marker, then the marker
/// (only a head when the marker does not fit).
pub open spec fn head_spec(s: Seq<char>, budget: nat) -> (Seq<char>, bool) {
    let m = tail_marker();
    if s.len() <= budget {
        (s, false)
    } else if budget <= m.len() {
        (s.take(budget as int), true)
    } else {
        (s.take(budget - m.len()) + m, true)
    }
}

/// Keeps the head and the tail of `text` within `budget` characters.
pub fn head_tail_truncate(text: &str, budget: usize) -> (r: Truncated)
    ensures
        (r.text@, r.truncated) == head_tail_spec(text@, budget as nat),
        r.text@.len() <= budget || !r.truncated,
{
    let cs = chars_of(text);
    let marker = "\n...[output truncated]...\n";
    proof {
        reveal_strlit("\n...[output truncated]...\n");
    }
    let mlen: usize = 26;
    assert(marker@.len() == mlen);
    if cs.len() <= budget {
        return Truncated { text: String::from_str(text), truncated: false };
    }
    if budget <= mlen {
        let t = crate::text::slice_to_vec(cs.as_slice(), 0, budget);
        return Truncated { text: string_from(t.as_slice()), truncated: true };
    }
    let keep = budget - mlen;
    let h = keep / 2 + keep % 2;
    let t = keep - h;
    assert(h == (keep + 1) / 2);
    let mut out = String::new();
    let head = crate::text::slice_to_vec(cs.as_slice(), 0, h);
    push_chars(&mut out, head.as_slice());
    push_str(&mut out, marker);
    let tail = crate::text::slice_to_vec(cs.as_slice(), cs.len() - t, cs.len());
    push_chars(&mut out, tail.as_slice());
    Truncated { text: out, truncated: true }
}

/// Keeps the head of `text` within `budget` characters.
pub fn head_truncate(text: &str, budget: usize) -> (r: Truncated)
    ensures
        (r.text@, r.truncated) == head_spec(text@, budget as nat),
        r.text@.len() <= budget || !r.truncated,
{
    let cs = chars_of(text);
    let marker = "\n...[output truncated]";
    proof {
        reveal_strlit("\n...[output truncated]");
    }
    let mlen: usize = 22;
    assert(marker@.len() == mlen);
    if cs.len() <= budget {
        return Truncated { text: String::from_str(text), truncated: false };
    }
    if budget <= mlen {
        let t = crate::text::slice_to_vec(cs.as_slice(), 0, budget);
        return Truncated { text: string_from(t.as_slice()), truncated: true };
    }
    let head = crate::text::slice_to_vec(cs.as_slice(), 0, budget - mlen);
    let mut out = string_from(head.as_slice());
    push_str(&mut out, marker);
    Truncated { text: out, truncated: true }
}

} // verus!
