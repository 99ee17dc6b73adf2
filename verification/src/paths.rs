//! Unix path strings: joining, component-wise comparison, and facts about
//! the file system that the caller gathered beforehand.
use crate::text::{chars_of, push_char, push_chars, str_eq};
use vstd::prelude::*;

verus! {

/// The path starts at the root directory.
pub open spec fn is_absolute(p: Seq<char>) -> bool {
    p.len() > 0 && p[0] == '/'
}

/// `base` joined with the relative path `p` (`Path::join`): a separator is
/// inserted unless `base` is empty or already ends with one.
pub open spec fn join_spec(base: Seq<char>, p: Seq<char>) -> Seq<char> {
    if base.len() == 0 || base.last() == '/' {
        base + p
    } else {
        base.push('/') + p
    }
}

/// Appends a finished segment unless it is empty or `.`.
pub open spec fn push_segment(cs: Seq<Seq<char>>, cur: Seq<char>) -> Seq<Seq<char>> {
    if cur.len() == 0 || cur == seq!['.'] {
        cs
    } else {
        cs.push(cur)
    }
}

/// Left-to-right split of `s` at `/`: finished segments and the open one.
pub open spec fn segment_scan(s: Seq<char>) -> (Seq<Seq<char>>, Seq<char>)
    decreases s.len(),
{
    if s.len() == 0 {
        (Seq::empty(), Seq::empty())
    } else {
        let (cs, cur) = segment_scan(s.drop_last());
        if s.last() == '/' {
            (push_segment(cs, cur), Seq::empty())
        } else {
            (cs, cur.push(s.last()))
        }
    }
}

/// Components of a path: a root marker `/` for absolute paths, then the
/// non-empty segments other than `.`.
pub open spec fn path_components(s: Seq<char>) -> Seq<Seq<char>> {
    let root: Seq<Seq<char>> = if is_absolute(s) { seq![seq!['/']] } else { Seq::empty() };
    let (cs, cur) = segment_scan(s);
    root + push_segment(cs, cur)
}

/// Component-wise path equality (`PathBuf == PathBuf`).
pub open spec fn path_eq(a: Seq<char>, b: Seq<char>) -> bool {
    path_components(a) == path_components(b)
}

/// `a` starts with `b`, component by component (`Path::starts_with`).
pub open spec fn path_starts_with(a: Seq<char>, b: Seq<char>) -> bool {
    let ca = path_components(a);
    let cb = path_components(b);
    cb.len() <= ca.len() && ca.subrange(0, cb.len() as int) == cb
}

/// Whether `p` is absolute.
pub fn path_is_absolute(p: &str) -> (b: bool)
    ensures
        b == is_absolute(p@),
{
    let cs = chars_of(p);
    cs.len() > 0 && cs[0] == '/'
}

/// `base.join(p)` for a relative `p`.
pub fn join(base: &str, p: &str) -> (out: String)
    ensures
        out@ == join_spec(base@, p@),
{
    let b = chars_of(base);
    let q = chars_of(p);
    let mut out = String::new();
    push_chars(&mut out, b.as_slice());
    if b.len() > 0 && b[b.len() - 1] != '/' {
        push_char(&mut out, '/');
    }
    push_chars(&mut out, q.as_slice());
    out
}

/// Views of character buffers.
pub open spec fn seg_views(v: Seq<Vec<char>>) -> Seq<Seq<char>> {
    v.map_values(|x: Vec<char>| x@)
}

/// Components of `p` (see [`path_components`]).
pub fn components(p: &str) -> (out: Vec<Vec<char>>)
    ensures
        seg_views(out@) == path_components(p@),
{
    let s = chars_of(p);
    let mut cs: Vec<Vec<char>> = Vec::new();
    let mut cur: Vec<char> = Vec::new();
    let mut i: usize = 0;
    while i < s.len()
        invariant
            i <= s.len(),
            s@ == p@,
            segment_scan(s@.take(i as int)) == (seg_views(cs@), cur@),
        decreases s.len() - i,
    {
        assert(s@.take(i + 1).drop_last() == s@.take(i as int));
        let c = s[i];
        if c == '/' {
            let ghost prev = seg_views(cs@);
            let ghost pc = cur@;
            if cur.len() > 0 && !(cur.len() == 1 && cur[0] == '.') {
                let w = cur;
                cs.push(w);
                assert(seg_views(cs@) =~= prev.push(pc));
            } else {
                assert(pc.len() == 0 || pc =~= seq!['.']);
            }
            cur = Vec::new();
        } else {
            cur.push(c);
        }
        i += 1;
    }
    assert(s@.take(s.len() as int) == s@);
    let ghost prev = seg_views(cs@);
    let ghost pc = cur@;
    if cur.len() > 0 && !(cur.len() == 1 && cur[0] == '.') {
        cs.push(cur);
        assert(seg_views(cs@) =~= prev.push(pc));
    } else {
        assert(pc.len() == 0 || pc =~= seq!['.']);
    }
    let ghost body = seg_views(cs@);
    if s.len() > 0 && s[0] == '/' {
        let mut out: Vec<Vec<char>> = Vec::new();
        let mut r = Vec::new();
        r.push('/');
        out.push(r);
        let mut k: usize = 0;
        while k < cs.len()
            invariant
                k <= cs.len(),
                seg_views(out@) =~= seq![seq!['/']] + seg_views(cs@).take(k as int),
            decreases cs.len() - k,
        {
            let ghost prev = out@;
            let x = crate::text::slice_to_vec(cs[k].as_slice(), 0, cs[k].len());
            out.push(x);
            assert(out@ == prev.push(x));
            assert(seg_views(out@) =~= seg_views(prev).push(x@));
            assert(x@ =~= cs@[k as int]@);
            assert(seg_views(cs@).take(k + 1) =~= seg_views(cs@).take(k as int).push(cs@[k as int]@));
            k += 1;
        }
        assert(seg_views(cs@).take(cs.len() as int) =~= seg_views(cs@));
        out
    } else {
        assert(seg_views(cs@) =~= Seq::<Seq<char>>::empty() + body);
        cs
    }
}

/// Whether two character buffers are equal.
fn buf_eq(a: &Vec<char>, b: &Vec<char>) -> (r: bool)
    ensures
        r == (a@ == b@),
{
    crate::text::chars_eq(a.as_slice(), b.as_slice())
}

/// Component-wise path equality.
pub fn paths_equal(a: &str, b: &str) -> (r: bool)
    ensures
        r == path_eq(a@, b@),
{
    let ca = components(a);
    let cb = components(b);
    assert(seg_views(ca@).len() == ca@.len());
    assert(seg_views(cb@).len() == cb@.len());
    if ca.len() != cb.len() {
        return false;
    }
    let mut i: usize = 0;
    while i < ca.len()
        invariant
            i <= ca.len(),
            ca.len() == cb.len(),
            seg_views(ca@) == path_components(a@),
            seg_views(cb@) == path_components(b@),
            forall|j: int| 0 <= j < i ==> seg_views(ca@)[j] == seg_views(cb@)[j],
        decreases ca.len() - i,
    {
        if !buf_eq(&ca[i], &cb[i]) {
            assert(seg_views(ca@)[i as int] != seg_views(cb@)[i as int]);
            assert(path_components(a@)[i as int] != path_components(b@)[i as int]);
            return false;
        }
        i += 1;
    }
    assert(seg_views(ca@) =~= seg_views(cb@));
    true
}

/// Component-wise prefix test (`Path::starts_with`).
pub fn path_has_prefix(a: &str, b: &str) -> (r: bool)
    ensures
        r == path_starts_with(a@, b@),
{
    let ca = components(a);
    let cb = components(b);
    assert(seg_views(ca@).len() == ca@.len());
    assert(seg_views(cb@).len() == cb@.len());
    if cb.len() > ca.len() {
        return false;
    }
    let mut i: usize = 0;
    while i < cb.len()
        invariant
            i <= cb.len() <= ca.len(),
            seg_views(ca@) == path_components(a@),
            seg_views(cb@) == path_components(b@),
            forall|j: int| 0 <= j < i ==> seg_views(ca@)[j] == seg_views(cb@)[j],
        decreases cb.len() - i,
    {
        if !buf_eq(&ca[i], &cb[i]) {
            assert(seg_views(ca@).subrange(0, cb.len() as int)[i as int] != seg_views(cb@)[i as int]);
            assert(path_components(a@).subrange(0, cb.len() as int)[i as int] != path_components(b@)[i as int]);
            return false;
        }
        i += 1;
    }
    assert(seg_views(ca@).subrange(0, cb.len() as int) =~= seg_views(cb@));
    true
}

// ---------------------------------------------------------------------------
// File-system facts
// ---------------------------------------------------------------------------
/// What the file system says about one path: whether it exists, whether it
/// is a directory, and its canonical form when it could be canonicalized.
#[derive(Clone, Debug)]
pub struct PathFact {
    pub path: String,
    pub exists: bool,
    pub is_dir: bool,
    pub canonical: Option<String>,
}

/// The first fact recorded for `p`, if any.
pub open spec fn find_fact(facts: Seq<PathFact>, p: Seq<char>) -> Option<PathFact>
    decreases facts.len(),
{
    if facts.len() == 0 {
        None
    } else if facts[0].path@ == p {
        Some(facts[0])
    } else {
        find_fact(facts.drop_first(), p)
    }
}

/// Canonical form of `p` according to `facts` (`fs::canonicalize`): `None`
/// when nothing is recorded, the path does not exist, or it could not be
/// canonicalized.
pub open spec fn canonical_of(facts: Seq<PathFact>, p: Seq<char>) -> Option<Seq<char>> {
    match find_fact(facts, p) {
        Some(f) => if f.exists {
            match f.canonical {
                Some(c) => Some(c@),
                None => None,
            }
        } else {
            None
        },
        None => None,
    }
}

/// Looks up the first fact recorded for `p`.
pub fn lookup_fact<'a>(facts: &'a [PathFact], p: &str) -> (r: Option<&'a PathFact>)
    ensures
        match r {
            Some(f) => find_fact(facts@, p@) == Some(*f),
            None => find_fact(facts@, p@).is_none(),
        },
{
    let mut i: usize = 0;
    assert(facts@.subrange(0, facts@.len() as int) =~= facts@);
    while i < facts.len()
        invariant
            i <= facts.len(),
            find_fact(facts@, p@) == find_fact(facts@.subrange(i as int, facts@.len() as int), p@),
        decreases facts.len() - i,
    {
        let ghost rest = facts@.subrange(i as int, facts@.len() as int);
        assert(rest.drop_first() =~= facts@.subrange(i + 1, facts@.len() as int));
        if str_eq(facts[i].path.as_str(), p) {
            return Some(&facts[i]);
        }
        i += 1;
    }
    None
}

/// Canonical form of `p` according to `facts` (see [`canonical_of`]).
pub fn canonical(facts: &[PathFact], p: &str) -> (r: Option<String>)
    ensures
        match r {
            Some(c) => canonical_of(facts@, p@) == Some(c@),
            None => canonical_of(facts@, p@).is_none(),
        },
{
    match lookup_fact(facts, p) {
        Some(f) => if f.exists {
            match &f.canonical {
                Some(c) => Some(c.clone()),
                None => None,
            }
        } else {
            None
        },
        None => None,
    }
}

// ---------------------------------------------------------------------------
// File names and extensions
// ---------------------------------------------------------------------------
/// Final component of a path when it names a file or directory
/// (`Path::file_name`): none for an empty path, the root, or a path ending
/// in `..`.
pub open spec fn file_name_spec(p: Seq<char>) -> Option<Seq<char>> {
    let cs = path_components(p);
    if cs.len() == 0 || cs.last() == seq!['/'] || cs.last() == seq!['.', '.'] {
        None
    } else {
        Some(cs.last())
    }
}

/// Index of the last `.` in `s` at or before `i - 1`, or `-1`.
pub open spec fn last_dot(s: Seq<char>, i: int) -> int
    decreases i,
{
    if i <= 0 {
        -1
    } else if s[i - 1] == '.' {
        i - 1
    } else {
        last_dot(s, i - 1)
    }
}

/// Extension of a path (`Path::extension`): the part of the file name
/// after its last `.`; none without a file name, without a `.`, or when
/// the only `.` starts the name.
pub open spec fn extension_spec(p: Seq<char>) -> Option<Seq<char>> {
    match file_name_spec(p) {
        None => None,
        Some(n) => {
            let d = last_dot(n, n.len() as int);
            if d <= 0 {
                None
            } else {
                Some(n.subrange(d + 1, n.len() as int))
            }
        },
    }
}

/// The extension of `path` (see [`extension_spec`]).
pub fn path_extension(path: &str) -> (r: Option<String>)
    ensures
        match r {
            Some(e) => extension_spec(path@) == Some(e@),
            None => extension_spec(path@).is_none(),
        },
{
    let cs = components(path);
    if cs.len() == 0 {
        return None;
    }
    let last = &cs[cs.len() - 1];
    assert(seg_views(cs@).last() == last@);
    let root = vec!['/'];
    let up = vec!['.', '.'];
    assert(root@ =~= seq!['/']);
    assert(up@ =~= seq!['.', '.']);
    if crate::text::chars_eq(last.as_slice(), root.as_slice()) || crate::text::chars_eq(last.as_slice(), up.as_slice()) {
        return None;
    }
    let ghost n = last@;
    let mut i = last.len();
    while i > 0 && last[i - 1] != '.'
        invariant
            i <= last.len(),
            n == last@,
            last_dot(n, n.len() as int) == last_dot(n, i as int),
        decreases i,
    {
        i -= 1;
    }
    if i <= 1 {
        return None;
    }
    let ext = crate::text::slice_to_vec(last.as_slice(), i, last.len());
    Some(crate::text::string_from(ext.as_slice()))
}

} // verus!
