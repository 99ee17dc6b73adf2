//! Bounded stdout/stderr capture for child processes, and the combined
//! output budget applied before results reach the model.
//!
//! Only the head and the tail of each stream are retained, so memory stays
//! bounded whatever the stream's size.
use crate::budget::{head_tail_spec, head_tail_truncate, DEFAULT_TOOL_BUDGET_CHARS};
use crate::text::{chars_of, decimal, lemma_decimal_len, pow10, push_decimal, push_str};
use vstd::prelude::*;
use vstd::string::*;
use vstd::utf8::*;

verus! {

/// Bytes retained from the start of a stream.
pub const CAPTURE_HEAD_BYTES: usize = 32 * 1024;

/// Bytes retained from the end of a stream.
pub const CAPTURE_TAIL_BYTES: usize = 32 * 1024;

/// Text decoded from bytes with invalid sequences replaced by U+FFFD
/// (`String::from_utf8_lossy`).
pub uninterp spec fn utf8_lossy(bytes: Seq<u8>) -> Seq<char>;

/// Decodes bytes lossily (`String::from_utf8_lossy`): the result is named by
/// [`utf8_lossy`]; valid UTF-8 is decoded unchanged, as its documentation
/// states.
#[verifier::external_body]
pub(crate) fn lossy_text(bytes: &[u8]) -> (s: String)
    ensures
        s@ == utf8_lossy(bytes@),
        valid_utf8(bytes@) ==> s@ == decode_utf8(bytes@),
{
    String::from_utf8_lossy(bytes).into_owned()
}

/// Appends `src[a..b]` to `v`.
fn append_range(v: &mut Vec<u8>, src: &[u8], a: usize, b: usize)
    requires
        a <= b <= src.len(),
    ensures
        final(v)@ == old(v)@ + src@.subrange(a as int, b as int),
{
    let ghost start = v@;
    let mut i = a;
    while i < b
        invariant
            a <= i <= b <= src.len(),
            v@ == start + src@.subrange(a as int, i as int),
        decreases b - i,
    {
        v.push(src[i]);
        i += 1;
        assert(src@.subrange(a as int, i as int) == src@.subrange(a as int, i - 1).push(src@[i - 1]));
    }
}

/// Whether a stream overflows what a capture retains.
pub open spec fn capture_overflows(s: Seq<u8>) -> bool {
    s.len() > CAPTURE_HEAD_BYTES + CAPTURE_TAIL_BYTES
}

/// The retained head of an overflowing stream.
pub open spec fn capture_head(s: Seq<u8>) -> Seq<u8> {
    s.take(CAPTURE_HEAD_BYTES as int)
}

/// The retained tail of an overflowing stream.
pub open spec fn capture_tail(s: Seq<u8>) -> Seq<u8> {
    s.subrange(s.len() - CAPTURE_TAIL_BYTES, s.len() as int)
}

/// The marker between head and tail, with the number of dropped bytes.
pub open spec fn omission_marker(s: Seq<u8>) -> Seq<char> {
    "\n...[output truncated: "@ + decimal((s.len() - CAPTURE_HEAD_BYTES - CAPTURE_TAIL_BYTES) as nat)
        + " bytes omitted]...\n"@
}

/// Decoding never yields more characters than there are bytes.
pub proof fn lemma_decode_len(b: Seq<u8>)
    requires
        valid_utf8(b),
    ensures
        decode_utf8(b).len() <= b.len(),
    decreases b.len(),
{
    if b.len() > 0 {
        let p = pop_first_scalar(b);
        assert(1 <= length_of_first_scalar(b) <= b.len());
        assert(p.len() < b.len());
        lemma_decode_len(p);
    }
}

/// Text of a captured stream: its lossy text when it fits; otherwise the
/// head's text, an omission marker with the number of dropped bytes, and
/// the tail's text.
pub open spec fn captured_text(s: Seq<u8>) -> Seq<char> {
    if !capture_overflows(s) {
        utf8_lossy(s)
    } else {
        utf8_lossy(capture_head(s)) + omission_marker(s) + utf8_lossy(capture_tail(s))
    }
}

/// Bounded byte capture with head + tail retention.
pub struct BoundedCapture {
    head: Vec<u8>,
    tail: Vec<u8>,
    total_bytes: u64,
    truncated: bool,
    stream: Ghost<Seq<u8>>,
}

impl BoundedCapture {
    /// Every byte pushed so far, in order.
    pub closed spec fn stream(&self) -> Seq<u8> {
        self.stream@
    }

    /// Retained head bytes.
    pub closed spec fn head_bytes(&self) -> Seq<u8> {
        self.head@
    }

    /// Retained tail bytes.
    pub closed spec fn tail_bytes(&self) -> Seq<u8> {
        self.tail@
    }

    /// Well-formedness: the head is a prefix and the tail a suffix of the
    /// stream, both within their limits; the tail is empty until the head
    /// is full; nothing was dropped exactly when the stream exceeds both
    /// limits together.
    pub closed spec fn wf(&self) -> bool {
        let s = self.stream@;
        &&& self.head@.len() <= CAPTURE_HEAD_BYTES
        &&& self.tail@.len() <= CAPTURE_TAIL_BYTES
        &&& s.len() == self.total_bytes
        &&& self.head@ == s.take(self.head@.len() as int)
        &&& self.tail@ == s.subrange(s.len() - self.tail@.len(), s.len() as int)
        &&& self.head@.len() < CAPTURE_HEAD_BYTES ==> self.tail@.len() == 0 && self.head@ == s
        &&& self.truncated == (s.len() > CAPTURE_HEAD_BYTES + CAPTURE_TAIL_BYTES)
        &&& !self.truncated ==> self.head@ + self.tail@ == s
        &&& self.truncated ==> self.head@.len() == CAPTURE_HEAD_BYTES && self.tail@.len()
            == CAPTURE_TAIL_BYTES
    }

    /// An empty capture.
    pub fn new() -> (c: Self)
        ensures
            c.wf(),
            c.stream() == Seq::<u8>::empty(),
    {
        let c = BoundedCapture {
            head: Vec::new(),
            tail: Vec::new(),
            total_bytes: 0,
            truncated: false,
            stream: Ghost(Seq::empty()),
        };
        assert(c.head@ =~= c.stream@.take(0));
        assert(c.tail@ =~= c.stream@.subrange(0, 0));
        assert(c.head@ + c.tail@ =~= c.stream@);
        c
    }

    /// Feeds a chunk; at most `CAPTURE_HEAD_BYTES + CAPTURE_TAIL_BYTES` bytes
    /// stay retained.
    pub fn push(&mut self, chunk: &[u8])
        requires
            old(self).wf(),
            old(self).stream().len() + chunk@.len() <= u64::MAX,
        ensures
            final(self).wf(),
            final(self).stream() == old(self).stream() + chunk@,
    {
        if chunk.len() == 0 {
            assert(self.stream@ + chunk@ =~= self.stream@);
            return;
        }
        let ghost s0 = self.stream@;
        let ghost s1 = s0 + chunk@;
        self.total_bytes = self.total_bytes + chunk.len() as u64;
        self.stream = Ghost(s1);
        if self.head.len() < CAPTURE_HEAD_BYTES {
            let room = CAPTURE_HEAD_BYTES - self.head.len();
            let take = if room < chunk.len() { room } else { chunk.len() };
            append_range(&mut self.head, chunk, 0, take);
            assert(self.head@ =~= s1.take(self.head@.len() as int));
            if take == chunk.len() {
                assert(self.head@ =~= s1);
                assert(self.tail@ =~= s1.subrange(s1.len() - 0, s1.len() as int));
                return;
            }
            assert(self.tail@.len() == 0);
            assert(self.tail@ + chunk@.subrange(take as int, chunk@.len() as int) =~= s1.subrange(
                s1.len() - 0 - (chunk@.len() - take),
                s1.len() as int,
            ));
            assert(self.head@ + self.tail@ + chunk@.subrange(take as int, chunk@.len() as int) =~= s1);
            self.push_tail(chunk, take, Ghost(s1));
        } else {
            assert(self.head@ =~= s1.take(CAPTURE_HEAD_BYTES as int));
            assert(self.tail@ + chunk@.subrange(0, chunk@.len() as int) =~= s1.subrange(
                s1.len() - self.tail@.len() - (chunk@.len() - 0),
                s1.len() as int,
            ));
            proof {
                if !self.truncated {
                    assert(self.head@ + self.tail@ + chunk@.subrange(0, chunk@.len() as int) =~= s1);
                }
            }
            self.push_tail(chunk, 0, Ghost(s1));
        }
        if self.total_bytes > (CAPTURE_HEAD_BYTES + CAPTURE_TAIL_BYTES) as u64 {
            self.truncated = true;
        }
    }

    /// Appends `chunk[from..]` to the tail window, evicting the oldest bytes
    /// past the limit.
    fn push_tail(&mut self, chunk: &[u8], from: usize, Ghost(s1): Ghost<Seq<u8>>)
        requires
            from <= chunk.len(),
            old(self).head@.len() == CAPTURE_HEAD_BYTES,
            old(self).head@ == s1.take(CAPTURE_HEAD_BYTES as int),
            old(self).stream@ == s1,
            s1.len() == old(self).total_bytes,
            old(self).tail@.len() <= CAPTURE_TAIL_BYTES,
            old(self).tail@ + chunk@.subrange(from as int, chunk@.len() as int) == s1.subrange(
                s1.len() - old(self).tail@.len() - (chunk@.len() - from),
                s1.len() as int,
            ),
            s1.len() >= CAPTURE_HEAD_BYTES + old(self).tail@.len() + (chunk@.len() - from),
            old(self).truncated ==> s1.len() > CAPTURE_HEAD_BYTES + CAPTURE_TAIL_BYTES,
            old(self).truncated ==> old(self).tail@.len() == CAPTURE_TAIL_BYTES,
            !old(self).truncated ==> old(self).head@ + old(self).tail@ + chunk@.subrange(
                from as int,
                chunk@.len() as int,
            ) == s1,
        ensures
            final(self).head@ == old(self).head@,
            final(self).stream@ == s1,
            final(self).total_bytes == old(self).total_bytes,
            final(self).tail@.len() <= CAPTURE_TAIL_BYTES,
            final(self).tail@ == s1.subrange(s1.len() - final(self).tail@.len(), s1.len() as int),
            final(self).truncated ==> s1.len() > CAPTURE_HEAD_BYTES + CAPTURE_TAIL_BYTES,
            !final(self).truncated ==> final(self).head@ + final(self).tail@ == s1,
            s1.len() > CAPTURE_HEAD_BYTES + CAPTURE_TAIL_BYTES ==> final(self).tail@.len()
                == CAPTURE_TAIL_BYTES,
    {
        append_range(&mut self.tail, chunk, from, chunk.len());
        if self.tail.len() > CAPTURE_TAIL_BYTES {
            let excess = self.tail.len() - CAPTURE_TAIL_BYTES;
            let kept = self.tail.split_off(excess);
            self.tail = kept;
            self.truncated = true;
        }
        assert(self.tail@ =~= s1.subrange(s1.len() - self.tail@.len(), s1.len() as int));
        proof {
            if !self.truncated {
                assert(self.head@ + self.tail@ =~= s1);
            }
        }
    }

    /// Bytes pushed so far.
    pub fn total_bytes(&self) -> (n: u64)
        requires
            self.wf(),
        ensures
            n == self.stream().len(),
    {
        self.total_bytes
    }

    /// Whether bytes were dropped from the middle.
    pub fn was_truncated(&self) -> (b: bool)
        requires
            self.wf(),
        ensures
            b == (self.stream().len() > CAPTURE_HEAD_BYTES + CAPTURE_TAIL_BYTES),
    {
        self.truncated
    }

    /// Finishes capture: the text of the stream (see [`captured_text`]) and
    /// whether bytes were dropped from its middle.
    pub fn finish(&self) -> (r: (String, bool))
        requires
            self.wf(),
        ensures
            r.1 == capture_overflows(self.stream()),
            r.0@ == captured_text(self.stream()),
            !capture_overflows(self.stream()) && valid_utf8(self.stream()) ==> r.0@ == decode_utf8(self.stream())
                && r.0@.len() <= self.stream().len(),
            capture_overflows(self.stream()) && valid_utf8(capture_head(self.stream())) && valid_utf8(
                capture_tail(self.stream()),
            ) ==> r.0@ == decode_utf8(capture_head(self.stream())) + omission_marker(self.stream())
                + decode_utf8(capture_tail(self.stream())) && r.0@.len() <= CAPTURE_HEAD_BYTES
                + CAPTURE_TAIL_BYTES + 64,
    {
        if !self.truncated {
            let mut all: Vec<u8> = Vec::new();
            append_range(&mut all, self.head.as_slice(), 0, self.head.len());
            append_range(&mut all, self.tail.as_slice(), 0, self.tail.len());
            assert(all@ =~= self.stream@);
            let t = lossy_text(all.as_slice());
            proof {
                if valid_utf8(self.stream@) {
                    lemma_decode_len(self.stream@);
                }
            }
            return (t, false);
        }
        let head = lossy_text(self.head.as_slice());
        let tail = lossy_text(self.tail.as_slice());
        let omitted = self.total_bytes - (self.head.len() + self.tail.len()) as u64;
        let mut text = head;
        push_str(&mut text, "\n...[output truncated: ");
        push_decimal(&mut text, omitted);
        push_str(&mut text, " bytes omitted]...\n");
        push_str(&mut text, tail.as_str());
        proof {
            let st = self.stream@;
            assert(self.head@ == capture_head(st));
            assert(self.tail@ == capture_tail(st));
            assert(text@ =~= utf8_lossy(capture_head(st)) + omission_marker(st) + utf8_lossy(capture_tail(st)));
            if valid_utf8(capture_head(st)) && valid_utf8(capture_tail(st)) {
                lemma_decode_len(capture_head(st));
                lemma_decode_len(capture_tail(st));
                assert(st.len() <= u64::MAX);
                assert(u64::MAX < pow10(20)) by {
                    reveal_with_fuel(pow10, 21);
                }
                lemma_decimal_len((st.len() - CAPTURE_HEAD_BYTES - CAPTURE_TAIL_BYTES) as nat, 20);
                reveal_strlit("\n...[output truncated: ");
                reveal_strlit(" bytes omitted]...\n");
                assert(omission_marker(st).len() <= 64);
            }
        }
        (text, true)
    }
}

/// However much is pushed, a capture retains at most
/// `CAPTURE_HEAD_BYTES + CAPTURE_TAIL_BYTES` bytes: a head of the stream and
/// a tail of it, which together are the whole stream when nothing was
/// dropped.
pub proof fn law_capture_memory_bounded(c: BoundedCapture)
    requires
        c.wf(),
    ensures
        c.head_bytes().len() + c.tail_bytes().len() <= CAPTURE_HEAD_BYTES + CAPTURE_TAIL_BYTES,
        c.head_bytes() == c.stream().take(c.head_bytes().len() as int),
        c.tail_bytes() == c.stream().subrange(
            c.stream().len() - c.tail_bytes().len(),
            c.stream().len() as int,
        ),
        c.stream().len() <= CAPTURE_HEAD_BYTES + CAPTURE_TAIL_BYTES ==> c.head_bytes() + c.tail_bytes()
            == c.stream(),
{
}

/// Warning added whenever the combined budget trims output.
pub open spec fn trim_warning() -> Seq<char> {
    "command output trimmed to ~6000 chars (head and tail preserved); refine the command to see more"@
}

/// Combined stdout + stderr budget: both kept when together within 6000
/// characters; otherwise stdout gets all of it (stderr empty) or 70% with
/// stderr 30%, each at least 200, head and tail preserved, with warnings
/// naming what was cut.
pub open spec fn budget_command_output_spec(out: Seq<char>, err: Seq<char>) -> (
    Seq<char>,
    Seq<char>,
    bool,
    Seq<Seq<char>>,
) {
    let budget = DEFAULT_TOOL_BUDGET_CHARS as nat;
    if out.len() + err.len() <= budget {
        (out, err, false, Seq::empty())
    } else {
        let ob: nat = if err.len() == 0 { budget } else { budget * 7 / 10 };
        let eb: nat = if err.len() == 0 { 0 } else { (budget - budget * 7 / 10) as nat };
        let o = head_tail_spec(out, if ob > 200 { ob } else { 200 });
        let e = head_tail_spec(err, if eb > 200 { eb } else { 200 });
        let w1 = seq![trim_warning()];
        let w2 = if o.1 { w1.push("stdout was truncated"@) } else { w1 };
        let w3 = if e.1 { w2.push("stderr was truncated"@) } else { w2 };
        (o.0, e.0, true, w3)
    }
}

/// Views of strings.
pub open spec fn string_views(v: Seq<String>) -> Seq<Seq<char>> {
    v.map_values(|x: String| x@)
}

/// Applies the combined tool-output budget to a command's stdout and stderr
/// (see [`budget_command_output_spec`]).
pub fn budget_command_output(stdout: &str, stderr: &str) -> (r: (String, String, bool, Vec<String>))
    ensures
        (r.0@, r.1@, r.2, string_views(r.3@)) == budget_command_output_spec(stdout@, stderr@),
{
    let budget = DEFAULT_TOOL_BUDGET_CHARS;
    let o = chars_of(stdout);
    let e = chars_of(stderr);
    if o.len() <= budget && e.len() <= budget - o.len() {
        let none: Vec<String> = Vec::new();
        assert(string_views(none@) =~= Seq::<Seq<char>>::empty());
        return (String::from_str(stdout), String::from_str(stderr), false, none);
    }
    let (ob, eb) = if e.len() == 0 {
        (budget, 0)
    } else {
        let out = budget * 7 / 10;
        (out, budget - out)
    };
    let out = head_tail_truncate(stdout, if ob > 200 { ob } else { 200 });
    let err = head_tail_truncate(stderr, if eb > 200 { eb } else { 200 });
    let mut warnings: Vec<String> = Vec::new();
    warnings.push(String::from_str(
        "command output trimmed to ~6000 chars (head and tail preserved); refine the command to see more",
    ));
    let ghost w1 = string_views(warnings@);
    assert(w1 =~= seq![trim_warning()]);
    if out.truncated {
        warnings.push(String::from_str("stdout was truncated"));
    }
    let ghost w2 = string_views(warnings@);
    assert(w2 =~= if out.truncated { w1.push("stdout was truncated"@) } else { w1 });
    if err.truncated {
        warnings.push(String::from_str("stderr was truncated"));
    }
    assert(string_views(warnings@) =~= if err.truncated { w2.push("stderr was truncated"@) } else { w2 });
    (out.text, err.text, true, warnings)
}

} // verus!
