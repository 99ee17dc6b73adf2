//! Character-level text helpers shared by the rest of the library.
//!
//! Text is reasoned about as `Seq<char>` (the view of `str`/`String`);
//! executable code works on `Vec<char>` buffers and converts at the edges.
use vstd::prelude::*;
use vstd::string::*;

verus! {

// ---------------------------------------------------------------------------
// Specifications
// ---------------------------------------------------------------------------
/// `pat` occurs in `hay` starting at character index `i`.
pub open spec fn matches_at(hay: Seq<char>, pat: Seq<char>, i: int) -> bool {
    &&& 0 <= i
    &&& i + pat.len() <= hay.len()
    &&& hay.subrange(i, i + pat.len()) == pat
}

/// `pat` occurs somewhere in `hay`.
pub open spec fn contains_seq(hay: Seq<char>, pat: Seq<char>) -> bool {
    exists|i: int| matches_at(hay, pat, i)
}

/// `i` is the first occurrence of `pat` in `hay` at or after `from`.
pub open spec fn is_first_match_from(hay: Seq<char>, pat: Seq<char>, from: int, i: int) -> bool {
    &&& from <= i
    &&& matches_at(hay, pat, i)
    &&& forall|j: int| from <= j < i ==> !matches_at(hay, pat, j)
}

/// `i` is the last occurrence of `pat` in `hay`.
pub open spec fn is_last_match(hay: Seq<char>, pat: Seq<char>, i: int) -> bool {
    &&& matches_at(hay, pat, i)
    &&& forall|j: int| i < j ==> !matches_at(hay, pat, j)
}

/// `hay` begins with `pat`.
pub open spec fn starts_with(hay: Seq<char>, pat: Seq<char>) -> bool {
    matches_at(hay, pat, 0)
}

/// `hay` ends with `pat`.
pub open spec fn ends_with(hay: Seq<char>, pat: Seq<char>) -> bool {
    pat.len() <= hay.len() && matches_at(hay, pat, hay.len() - pat.len())
}

/// Unicode `White_Space` property, as used by `char::is_whitespace` and
/// `str::trim`.
pub open spec fn is_white_space(c: char) -> bool {
    ||| ('\t' <= c && c <= '\r')
    ||| c == ' '
    ||| c == '\u{85}'
    ||| c == '\u{a0}'
    ||| c == '\u{1680}'
    ||| ('\u{2000}' <= c && c <= '\u{200a}')
    ||| c == '\u{2028}'
    ||| c == '\u{2029}'
    ||| c == '\u{202f}'
    ||| c == '\u{205f}'
    ||| c == '\u{3000}'
}

/// Unicode general category `Cc`, as used by `char::is_control`.
pub open spec fn is_control_char(c: char) -> bool {
    c <= '\u{1f}' || ('\u{7f}' <= c && c <= '\u{9f}')
}

/// Number of leading white-space characters of `s`.
pub open spec fn leading_ws(s: Seq<char>) -> nat
    decreases s.len(),
{
    if s.len() > 0 && is_white_space(s[0]) {
        1 + leading_ws(s.drop_first())
    } else {
        0
    }
}

/// Number of trailing white-space characters of `s`.
pub open spec fn trailing_ws(s: Seq<char>) -> nat
    decreases s.len(),
{
    if s.len() > 0 && is_white_space(s.last()) {
        1 + trailing_ws(s.drop_last())
    } else {
        0
    }
}

/// `s` without leading white space (`str::trim_start`).
pub open spec fn trim_start_spec(s: Seq<char>) -> Seq<char> {
    s.subrange(leading_ws(s) as int, s.len() as int)
}

/// `s` without trailing white space (`str::trim_end`).
pub open spec fn trim_end_spec(s: Seq<char>) -> Seq<char> {
    s.subrange(0, s.len() - trailing_ws(s))
}

/// `s` without leading and trailing white space (`str::trim`).
pub open spec fn trim_spec(s: Seq<char>) -> Seq<char> {
    trim_end_spec(trim_start_spec(s))
}

/// Decimal digit character for `d < 10`.
pub open spec fn digit_char(d: nat) -> char {
    if d == 0 { '0' }
    else if d == 1 { '1' }
    else if d == 2 { '2' }
    else if d == 3 { '3' }
    else if d == 4 { '4' }
    else if d == 5 { '5' }
    else if d == 6 { '6' }
    else if d == 7 { '7' }
    else if d == 8 { '8' }
    else { '9' }
}

/// Decimal rendering of a natural number (as `Display` prints it).
pub open spec fn decimal(n: nat) -> Seq<char>
    decreases n,
{
    if n < 10 {
        seq![digit_char(n)]
    } else {
        decimal(n / 10).push(digit_char(n % 10))
    }
}

/// `10^k`.
pub open spec fn pow10(k: nat) -> nat
    decreases k,
{
    if k == 0 {
        1
    } else {
        10 * pow10((k - 1) as nat)
    }
}

/// A number below `10^k` has at most `k` decimal digits.
pub proof fn lemma_decimal_len(n: nat, k: nat)
    requires
        k >= 1,
        n < pow10(k),
    ensures
        decimal(n).len() <= k,
    decreases k,
{
    if n >= 10 {
        assert(k >= 2) by {
            if k == 1 {
                assert(pow10(1) == 10) by {
                    reveal_with_fuel(pow10, 2);
                }
            }
        }
        assert(n / 10 < pow10((k - 1) as nat)) by (nonlinear_arith)
            requires
                n < 10 * pow10((k - 1) as nat),
                n >= 10,
        ;
        lemma_decimal_len(n / 10, (k - 1) as nat);
    }
}

/// Decimal rendering of an integer, with a leading `-` when negative.
pub open spec fn signed_decimal(n: int) -> Seq<char> {
    if n < 0 {
        seq!['-'] + decimal((-n) as nat)
    } else {
        decimal(n as nat)
    }
}

/// Number of characters of `s` equal to `c`.
pub open spec fn count_char(s: Seq<char>, c: char) -> nat
    decreases s.len(),
{
    if s.len() == 0 {
        0
    } else {
        count_char(s.drop_last(), c) + if s.last() == c { 1nat } else { 0nat }
    }
}

// ---------------------------------------------------------------------------
// Trusted edge with `String`
// ---------------------------------------------------------------------------
/// Appends one character to a `String` (`String::push`): the new view is the
/// old view followed by `c`.
#[verifier::external_body]
pub(crate) fn push_char(s: &mut String, c: char)
    ensures
        final(s)@ == old(s)@.push(c),
{
    s.push(c);
}

// ---------------------------------------------------------------------------
// Executable helpers
// ---------------------------------------------------------------------------
/// Collects the characters of a string slice into a vector.
pub fn chars_of(s: &str) -> (out: Vec<char>)
    ensures
        out@ == s@,
{
    let mut out: Vec<char> = Vec::new();
    for c in it: s.chars()
        invariant
            it.seq() == s@,
            out@ == s@.take(it.index() as int),
    {
        out.push(c);
    }
    out
}

/// Appends a character slice to a `String`.
pub fn push_chars(s: &mut String, cs: &[char])
    ensures
        final(s)@ == old(s)@ + cs@,
{
    let ghost start = s@;
    let mut i: usize = 0;
    while i < cs.len()
        invariant
            i <= cs.len(),
            s@ == start + cs@.take(i as int),
        decreases cs.len() - i,
    {
        push_char(s, cs[i]);
        i += 1;
        assert(cs@.take(i as int) == cs@.take(i - 1).push(cs@[i - 1]));
    }
    assert(cs@.take(cs.len() as int) == cs@);
}

/// Builds a `String` from a character slice.
pub fn string_from(cs: &[char]) -> (out: String)
    ensures
        out@ == cs@,
{
    let mut out = String::new();
    push_chars(&mut out, cs);
    out
}

/// Appends a string slice to a `String` (`String::push_str`).
pub fn push_str(s: &mut String, t: &str)
    ensures
        final(s)@ == old(s)@ + t@,
{
    s.append(t);
}

/// Copies a string slice into a new `String`.
pub fn owned(t: &str) -> (out: String)
    ensures
        out@ == t@,
{
    String::from_str(t)
}

/// Concatenation of a sequence of pieces.
pub open spec fn concat_all(parts: Seq<Seq<char>>) -> Seq<char>
    decreases parts.len(),
{
    if parts.len() == 0 {
        Seq::empty()
    } else {
        concat_all(parts.drop_last()) + parts.last()
    }
}

/// Whether `c` is a Unicode white-space character (`char::is_whitespace`).
pub fn is_ws(c: char) -> (b: bool)
    ensures
        b == is_white_space(c),
{
    ('\t' <= c && c <= '\r') || c == ' ' || c == '\u{85}' || c == '\u{a0}' || c == '\u{1680}'
        || ('\u{2000}' <= c && c <= '\u{200a}') || c == '\u{2028}' || c == '\u{2029}'
        || c == '\u{202f}' || c == '\u{205f}' || c == '\u{3000}'
}

/// Whether `c` is a control character (`char::is_control`).
pub fn is_control(c: char) -> (b: bool)
    ensures
        b == is_control_char(c),
{
    c <= '\u{1f}' || ('\u{7f}' <= c && c <= '\u{9f}')
}

/// Whether `pat` occurs in `hay` at index `i`.
pub fn match_at(hay: &[char], pat: &[char], i: usize) -> (b: bool)
    ensures
        b == matches_at(hay@, pat@, i as int),
{
    if i > hay.len() || pat.len() > hay.len() - i {
        return false;
    }
    let mut k: usize = 0;
    while k < pat.len()
        invariant
            k <= pat.len(),
            i + pat.len() <= hay.len(),
            forall|m: int| 0 <= m < k ==> hay@[i + m] == pat@[m],
        decreases pat.len() - k,
    {
        if hay[i + k] != pat[k] {
            assert(hay@.subrange(i as int, i + pat.len())[k as int] != pat@[k as int]);
            return false;
        }
        k += 1;
    }
    assert(hay@.subrange(i as int, i + pat.len()) =~= pat@);
    true
}

/// First occurrence of `pat` in `hay` at or after `from` (`str::find`).
pub fn find_from(hay: &[char], pat: &[char], from: usize) -> (r: Option<usize>)
    ensures
        match r {
            Some(i) => is_first_match_from(hay@, pat@, from as int, i as int),
            None => forall|j: int| from <= j ==> !matches_at(hay@, pat@, j),
        },
{
    if from > hay.len() {
        return None;
    }
    let mut i = from;
    loop
        invariant
            from <= i <= hay.len(),
            forall|j: int| from <= j < i ==> !matches_at(hay@, pat@, j),
        decreases hay.len() - i,
    {
        if match_at(hay, pat, i) {
            return Some(i);
        }
        if i == hay.len() {
            return None;
        }
        i += 1;
    }
}

/// First occurrence of `pat` in `hay` (`str::find`).
pub fn find(hay: &[char], pat: &[char]) -> (r: Option<usize>)
    ensures
        match r {
            Some(i) => is_first_match_from(hay@, pat@, 0, i as int),
            None => !contains_seq(hay@, pat@),
        },
{
    find_from(hay, pat, 0)
}

/// Index of the first occurrence of `pat` in `hay`, when there is one.
pub open spec fn first_match(hay: Seq<char>, pat: Seq<char>) -> int {
    choose|i: int| is_first_match_from(hay, pat, 0, i)
}

/// A first occurrence is [`first_match`].
pub proof fn lemma_first_match(hay: Seq<char>, pat: Seq<char>, i: int)
    requires
        is_first_match_from(hay, pat, 0, i),
    ensures
        first_match(hay, pat) == i,
{
    let c = first_match(hay, pat);
    assert(is_first_match_from(hay, pat, 0, c));
    if c < i {
        assert(!matches_at(hay, pat, c));
    } else if i < c {
        assert(!matches_at(hay, pat, i));
    }
}

/// Whether `pat` occurs in `hay` (`str::contains`).
pub fn contains(hay: &[char], pat: &[char]) -> (b: bool)
    ensures
        b == contains_seq(hay@, pat@),
{
    match find(hay, pat) {
        Some(i) => {
            assert(matches_at(hay@, pat@, i as int));
            true
        },
        None => false,
    }
}

/// Whether the string `hay` contains the string `pat`.
pub fn str_contains(hay: &str, pat: &str) -> (b: bool)
    ensures
        b == contains_seq(hay@, pat@),
{
    let h = chars_of(hay);
    let p = chars_of(pat);
    contains(h.as_slice(), p.as_slice())
}

/// Last occurrence of `pat` in `hay` (`str::rfind`).
pub fn rfind(hay: &[char], pat: &[char]) -> (r: Option<usize>)
    ensures
        match r {
            Some(i) => is_last_match(hay@, pat@, i as int),
            None => !contains_seq(hay@, pat@),
        },
{
    if pat.len() > hay.len() {
        return None;
    }
    let mut i: usize = hay.len() - pat.len();
    loop
        invariant
            i <= hay.len() - pat.len(),
            pat.len() <= hay.len(),
            forall|j: int| i < j ==> !matches_at(hay@, pat@, j),
        decreases i,
    {
        if match_at(hay, pat, i) {
            return Some(i);
        }
        if i == 0 {
            return None;
        }
        i -= 1;
    }
}

/// Whether `hay` starts with `pat`.
pub fn has_prefix(hay: &[char], pat: &[char]) -> (b: bool)
    ensures
        b == starts_with(hay@, pat@),
{
    match_at(hay, pat, 0)
}

/// Whether `hay` ends with `pat`.
pub fn has_suffix(hay: &[char], pat: &[char]) -> (b: bool)
    ensures
        b == ends_with(hay@, pat@),
{
    if pat.len() > hay.len() {
        false
    } else {
        match_at(hay, pat, hay.len() - pat.len())
    }
}

proof fn lemma_leading_ws(s: Seq<char>, i: int)
    requires
        0 <= i <= s.len(),
        forall|k: int| 0 <= k < i ==> is_white_space(s[k]),
        i == s.len() || !is_white_space(s[i]),
    ensures
        leading_ws(s) == i,
    decreases i,
{
    if i > 0 {
        lemma_leading_ws(s.drop_first(), i - 1);
    }
}

proof fn lemma_trailing_ws(s: Seq<char>, i: int)
    requires
        0 <= i <= s.len(),
        forall|k: int| s.len() - i <= k < s.len() ==> is_white_space(s[k]),
        i == s.len() || !is_white_space(s[s.len() - i - 1]),
    ensures
        trailing_ws(s) == i,
    decreases i,
{
    if i > 0 {
        lemma_trailing_ws(s.drop_last(), i - 1);
    }
}

/// Bounds `(start, end)` of `s` with surrounding white space removed.
pub fn trim_bounds(s: &[char]) -> (r: (usize, usize))
    ensures
        r.0 <= r.1 <= s.len(),
        s@.subrange(r.0 as int, r.1 as int) == trim_spec(s@),
        r.0 == leading_ws(s@),
{
    let mut a: usize = 0;
    while a < s.len() && is_ws(s[a])
        invariant
            a <= s.len(),
            forall|k: int| 0 <= k < a ==> is_white_space(s@[k]),
        decreases s.len() - a,
    {
        a += 1;
    }
    proof {
        lemma_leading_ws(s@, a as int);
    }
    let ghost t = s@.subrange(a as int, s.len() as int);
    let mut b: usize = s.len();
    while b > a && is_ws(s[b - 1])
        invariant
            a <= b <= s.len(),
            t == s@.subrange(a as int, s.len() as int),
            forall|k: int| b <= k < s.len() ==> is_white_space(s@[k]),
        decreases b,
    {
        b -= 1;
    }
    proof {
        lemma_trailing_ws(t, (s.len() - b) as int);
        assert(t.subrange(0, t.len() - trailing_ws(t)) =~= s@.subrange(a as int, b as int));
    }
    (a, b)
}

/// `str::trim` on a character buffer.
pub fn trim_chars(s: &[char]) -> (out: Vec<char>)
    ensures
        out@ == trim_spec(s@),
{
    let (a, b) = trim_bounds(s);
    slice_to_vec(s, a, b)
}

/// `str::trim` on a string slice.
pub fn trim_str(s: &str) -> (out: String)
    ensures
        out@ == trim_spec(s@),
{
    let cs = chars_of(s);
    let t = trim_chars(cs.as_slice());
    string_from(t.as_slice())
}

/// Copies `s[a..b]` into a new vector.
pub fn slice_to_vec(s: &[char], a: usize, b: usize) -> (out: Vec<char>)
    requires
        a <= b <= s.len(),
    ensures
        out@ == s@.subrange(a as int, b as int),
{
    let mut out: Vec<char> = Vec::new();
    let mut i = a;
    while i < b
        invariant
            a <= i <= b,
            b <= s.len(),
            out@ == s@.subrange(a as int, i as int),
        decreases b - i,
    {
        out.push(s[i]);
        i += 1;
    }
    out
}

/// Copies `s[a..b]` into a new `String`.
pub fn substring(s: &[char], a: usize, b: usize) -> (out: String)
    requires
        a <= b <= s.len(),
    ensures
        out@ == s@.subrange(a as int, b as int),
{
    let v = slice_to_vec(s, a, b);
    string_from(v.as_slice())
}

/// Whether two character sequences are equal.
pub fn chars_eq(a: &[char], b: &[char]) -> (r: bool)
    ensures
        r == (a@ == b@),
{
    if a.len() != b.len() {
        return false;
    }
    let r = match_at(a, b, 0);
    proof {
        if r {
            assert(a@.subrange(0, b@.len() as int) =~= a@);
        } else {
            assert(a@.subrange(0, b@.len() as int) =~= a@);
        }
    }
    r
}

/// Whether two strings are equal.
pub fn str_eq(a: &str, b: &str) -> (r: bool)
    ensures
        r == (a@ == b@),
{
    let x = chars_of(a);
    let y = chars_of(b);
    chars_eq(x.as_slice(), y.as_slice())
}

proof fn lemma_decimal_nonempty(n: nat)
    ensures
        decimal(n).len() >= 1,
    decreases n,
{
    if n >= 10 {
        lemma_decimal_nonempty(n / 10);
    }
}

/// Decimal rendering of `n` (`u64::to_string`).
pub fn decimal_chars(n: u64) -> (out: Vec<char>)
    ensures
        out@ == decimal(n as nat),
    decreases n,
{
    let d = n % 10;
    let c = if d == 0 { '0' } else if d == 1 { '1' } else if d == 2 { '2' } else if d == 3 { '3' }
        else if d == 4 { '4' } else if d == 5 { '5' } else if d == 6 { '6' } else if d == 7 { '7' }
        else if d == 8 { '8' } else { '9' };
    if n < 10 {
        let mut v = Vec::new();
        v.push(c);
        v
    } else {
        let mut v = decimal_chars(n / 10);
        v.push(c);
        v
    }
}

/// Appends the decimal rendering of `n` to `s`.
pub fn push_decimal(s: &mut String, n: u64)
    ensures
        final(s)@ == old(s)@ + decimal(n as nat),
{
    let d = decimal_chars(n);
    push_chars(s, d.as_slice());
}

/// Appends the decimal rendering of a signed `n` to `s`.
pub fn push_signed_decimal(s: &mut String, n: i64)
    ensures
        final(s)@ == old(s)@ + signed_decimal(n as int),
{
    if n < 0 {
        let ghost s0 = s@;
        push_char(s, '-');
        let m: u64 = if n == i64::MIN {
            9223372036854775808u64
        } else {
            (-n) as u64
        };
        push_decimal(s, m);
        assert(s@ =~= s0 + (seq!['-'] + decimal((-n) as nat)));
    } else {
        push_decimal(s, n as u64);
    }
}


// ---------------------------------------------------------------------------
// Lines
// ---------------------------------------------------------------------------
/// A `\n`-terminated line without its terminator and an optional `\r`
/// before it.
pub open spec fn strip_cr(l: Seq<char>) -> Seq<char> {
    if l.len() > 0 && l.last() == '\r' {
        l.drop_last()
    } else {
        l
    }
}

/// Left-to-right split at `\n`: finished lines and the open one.
pub open spec fn line_scan(s: Seq<char>) -> (Seq<Seq<char>>, Seq<char>)
    decreases s.len(),
{
    if s.len() == 0 {
        (Seq::empty(), Seq::empty())
    } else {
        let (ls, cur) = line_scan(s.drop_last());
        if s.last() == '\n' {
            (ls.push(strip_cr(cur)), Seq::empty())
        } else {
            (ls, cur.push(s.last()))
        }
    }
}

/// Lines of a text (`str::lines`): split at `\n`, a `\r` before a `\n` is
/// dropped, and a final empty piece after a trailing `\n` is not a line.
pub open spec fn lines_spec(s: Seq<char>) -> Seq<Seq<char>> {
    let (ls, cur) = line_scan(s);
    if cur.len() == 0 {
        ls
    } else {
        ls.push(cur)
    }
}

/// Views of character buffers.
pub open spec fn bufs_view(v: Seq<Vec<char>>) -> Seq<Seq<char>> {
    v.map_values(|x: Vec<char>| x@)
}

/// Splits a text into lines (see [`lines_spec`]).
pub fn lines_of(s: &[char]) -> (out: Vec<Vec<char>>)
    ensures
        bufs_view(out@) == lines_spec(s@),
{
    let mut ls: Vec<Vec<char>> = Vec::new();
    let mut cur: Vec<char> = Vec::new();
    let mut i: usize = 0;
    while i < s.len()
        invariant
            i <= s.len(),
            line_scan(s@.take(i as int)) == (bufs_view(ls@), cur@),
        decreases s.len() - i,
    {
        assert(s@.take(i + 1).drop_last() == s@.take(i as int));
        let c = s[i];
        if c == '\n' {
            let ghost prev = bufs_view(ls@);
            let ghost pc = cur@;
            let mut line = cur;
            if line.len() > 0 && line[line.len() - 1] == '\r' {
                line.pop();
                assert(line@ =~= pc.drop_last());
            }
            ls.push(line);
            assert(bufs_view(ls@) =~= prev.push(strip_cr(pc)));
            cur = Vec::new();
        } else {
            cur.push(c);
        }
        i += 1;
    }
    assert(s@.take(s.len() as int) == s@);
    if cur.len() > 0 {
        let ghost prev = bufs_view(ls@);
        let ghost pc = cur@;
        ls.push(cur);
        assert(bufs_view(ls@) =~= prev.push(pc));
    }
    ls
}

// ---------------------------------------------------------------------------
// UTF-8 widths
// ---------------------------------------------------------------------------
/// Bytes in the UTF-8 encoding of `c`.
pub open spec fn utf8_width(c: char) -> nat {
    if (c as u32) < 0x80 {
        1
    } else if (c as u32) < 0x800 {
        2
    } else if (c as u32) < 0x10000 {
        3
    } else {
        4
    }
}

/// Number of leading characters of `s` whose UTF-8 encoding fits in
/// `limit` bytes.
pub open spec fn fit_chars(s: Seq<char>, limit: nat) -> nat
    decreases s.len(),
{
    if s.len() == 0 || utf8_width(s[0]) > limit {
        0
    } else {
        1 + fit_chars(s.drop_first(), (limit - utf8_width(s[0])) as nat)
    }
}

/// Bytes in the UTF-8 encoding of `c`.
pub fn char_width(c: char) -> (w: usize)
    ensures
        w == utf8_width(c),
{
    let v = c as u32;
    if v < 0x80 {
        1
    } else if v < 0x800 {
        2
    } else if v < 0x10000 {
        3
    } else {
        4
    }
}

/// Number of leading characters of `s` that fit in `limit` bytes (see
/// [`fit_chars`]).
pub fn count_fitting(s: &[char], limit: usize) -> (k: usize)
    ensures
        k == fit_chars(s@, limit as nat),
        k <= s.len(),
{
    let mut i: usize = 0;
    let mut left = limit;
    assert(s@.subrange(0, s@.len() as int) =~= s@);
    while i < s.len() && char_width(s[i]) <= left
        invariant
            i <= s.len(),
            left <= limit,
            fit_chars(s@, limit as nat) == i + fit_chars(s@.subrange(i as int, s@.len() as int), left as nat),
        decreases s.len() - i,
    {
        let ghost rest = s@.subrange(i as int, s@.len() as int);
        assert(rest.drop_first() =~= s@.subrange(i + 1, s@.len() as int));
        left = left - char_width(s[i]);
        i += 1;
    }
    let ghost rest = s@.subrange(i as int, s@.len() as int);
    assert(i < s.len() ==> rest[0] == s@[i as int]);
    i
}


// ---------------------------------------------------------------------------
// Numbers
// ---------------------------------------------------------------------------
/// Whether every character of `s` is an ASCII digit.
pub open spec fn all_ascii_digits(s: Seq<char>) -> bool {
    forall|i: int| 0 <= i < s.len() ==> '0' <= #[trigger] s[i] <= '9'
}

/// Value of a run of ASCII digits.
pub open spec fn digits_value(s: Seq<char>) -> int
    decreases s.len(),
{
    if s.len() == 0 {
        0
    } else {
        digits_value(s.drop_last()) * 10 + (s.last() as int - '0' as int)
    }
}

/// `u32::from_str`: an optional `+`, then one or more ASCII digits whose
/// value fits in `u32`.
pub open spec fn parse_u32_spec(s: Seq<char>) -> Option<u32> {
    let d = if s.len() > 0 && s[0] == '+' {
        s.drop_first()
    } else {
        s
    };
    if d.len() > 0 && all_ascii_digits(d) && digits_value(d) <= u32::MAX {
        Some(digits_value(d) as u32)
    } else {
        None
    }
}

/// Parses a decimal `u32` (see [`parse_u32_spec`]).
pub fn parse_u32(s: &str) -> (r: Option<u32>)
    ensures
        r == parse_u32_spec(s@),
{
    let cs = chars_of(s);
    let start: usize = if cs.len() > 0 && cs[0] == '+' { 1 } else { 0 };
    let ghost d = if s@.len() > 0 && s@[0] == '+' { s@.drop_first() } else { s@ };
    assert(d == cs@.subrange(start as int, cs@.len() as int));
    if start == cs.len() {
        return None;
    }
    let mut acc: u64 = 0;
    let mut overflow = false;
    let mut i = start;
    while i < cs.len()
        invariant
            start <= i <= cs.len(),
            d == cs@.subrange(start as int, cs@.len() as int),
            cs@ == s@,
            d == (if s@.len() > 0 && s@[0] == '+' { s@.drop_first() } else { s@ }),
            all_ascii_digits(d.take(i - start)),
            !overflow ==> acc == digits_value(d.take(i - start)) && acc <= u32::MAX,
            overflow ==> digits_value(d.take(i - start)) > u32::MAX,
            digits_value(d.take(i - start)) >= 0,
        decreases cs.len() - i,
    {
        let c = cs[i];
        assert(d.take(i + 1 - start).drop_last() == d.take(i - start));
        assert(d.take(i + 1 - start).last() == c);
        if c < '0' || c > '9' {
            assert(!all_ascii_digits(d)) by {
                assert(d[i - start] == c);
            }
            return None;
        }
        let v: u64 = (c as u32 - '0' as u32) as u64;
        if !overflow {
            acc = acc * 10 + v;
            if acc > 0xffff_ffffu64 {
                overflow = true;
            }
        }
        i += 1;
        assert(all_ascii_digits(d.take(i - start))) by {
            assert forall|k: int| 0 <= k < d.take(i - start).len() implies '0' <= #[trigger] d.take(i - start)[k] <= '9' by {
                if k < i - 1 - start {
                    assert(d.take(i - start)[k] == d.take(i - 1 - start)[k]);
                }
            }
        }
    }
    assert(d.take(cs.len() - start) == d);
    if overflow {
        None
    } else {
        Some(acc as u32)
    }
}


// ---------------------------------------------------------------------------
// Replacing
// ---------------------------------------------------------------------------
/// `s[i..]` with every occurrence of the non-empty `pat` replaced by `rep`,
/// scanning left to right (`str::replace`).
pub open spec fn replace_from(s: Seq<char>, pat: Seq<char>, rep: Seq<char>, i: nat) -> Seq<char>
    decreases s.len() - i,
{
    if i >= s.len() {
        Seq::empty()
    } else if pat.len() > 0 && matches_at(s, pat, i as int) {
        rep + replace_from(s, pat, rep, i + pat.len())
    } else {
        seq![s[i as int]] + replace_from(s, pat, rep, i + 1)
    }
}

/// `s` with every occurrence of the non-empty `pat` replaced by `rep`.
pub open spec fn replace_spec(s: Seq<char>, pat: Seq<char>, rep: Seq<char>) -> Seq<char> {
    replace_from(s, pat, rep, 0)
}

/// Replaces every occurrence of a non-empty `pat` (see [`replace_spec`]).
pub fn replace_all(s: &str, pat: &str, rep: &str) -> (out: String)
    requires
        pat@.len() > 0,
    ensures
        out@ == replace_spec(s@, pat@, rep@),
{
    let cs = chars_of(s);
    let p = chars_of(pat);
    let r = chars_of(rep);
    let mut out = String::new();
    let mut i: usize = 0;
    while i < cs.len()
        invariant
            i <= cs.len(),
            cs@ == s@,
            p@ == pat@,
            r@ == rep@,
            p@.len() > 0,
            out@ + replace_from(s@, pat@, rep@, i as nat) == replace_spec(s@, pat@, rep@),
        decreases cs.len() - i,
    {
        if match_at(cs.as_slice(), p.as_slice(), i) {
            let ghost before = out@;
            push_chars(&mut out, r.as_slice());
            assert(before + (rep@ + replace_from(s@, pat@, rep@, (i + p.len()) as nat)) =~= out@
                + replace_from(s@, pat@, rep@, (i + p.len()) as nat));
            i = i + p.len();
        } else {
            let ghost before = out@;
            push_char(&mut out, cs[i]);
            assert(before + (seq![s@[i as int]] + replace_from(s@, pat@, rep@, (i + 1) as nat)) =~= out@
                + replace_from(s@, pat@, rep@, (i + 1) as nat));
            i = i + 1;
        }
    }
    assert(out@ + replace_from(s@, pat@, rep@, i as nat) =~= out@);
    out
}

} // verus!
