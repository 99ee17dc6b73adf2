//! JSON values held as plain data, and their compact text: what the
//! model-facing tool results are made of and measured by.
use crate::text::{chars_of, decimal, push_char, push_decimal, push_str};
use vstd::prelude::*;
use vstd::string::*;

verus! {

broadcast use {vstd::seq::axiom_seq_index_decreases, vstd::std_specs::vec::axiom_vec_index_decreases};

/// A JSON value. Numbers keep their text; object members keep their order.
#[derive(Debug)]
pub enum Json {
    Null,
    Bool(bool),
    Number(String),
    Str(String),
    Array(Vec<Json>),
    Object(Vec<(String, Json)>),
}

/// Value of a [`Json`].
pub enum JsonView {
    Null,
    Bool(bool),
    Number(Seq<char>),
    Str(Seq<char>),
    Array(Seq<JsonView>),
    Object(Seq<(Seq<char>, JsonView)>),
}

/// Value of a JSON value.
pub open spec fn jview(j: Json) -> JsonView
    decreases j, 0nat,
{
    match j {
        Json::Null => JsonView::Null,
        Json::Bool(b) => JsonView::Bool(b),
        Json::Number(n) => JsonView::Number(n@),
        Json::Str(s) => JsonView::Str(s@),
        Json::Array(v) => JsonView::Array(items_view(v, v.len() as nat)),
        Json::Object(fs) => JsonView::Object(fields_view(fs, fs.len() as nat)),
    }
}

/// Values of the first `n` items.
pub open spec fn items_view(v: Vec<Json>, n: nat) -> Seq<JsonView>
    decreases v, n,
{
    if n == 0 || n > v.len() {
        Seq::empty()
    } else {
        items_view(v, (n - 1) as nat).push(jview(v[n - 1]))
    }
}

/// Values of the first `n` members.
pub open spec fn fields_view(fs: Vec<(String, Json)>, n: nat) -> Seq<(Seq<char>, JsonView)>
    decreases fs, n,
{
    if n == 0 || n > fs.len() {
        Seq::empty()
    } else {
        fields_view(fs, (n - 1) as nat).push((fs[n - 1].0@, jview(fs[n - 1].1)))
    }
}

impl View for Json {
    type V = JsonView;

    open spec fn view(&self) -> JsonView {
        jview(*self)
    }
}

/// The items' values, one for one.
pub proof fn lemma_items_view(v: Vec<Json>, n: nat)
    requires
        n <= v.len(),
    ensures
        items_view(v, n).len() == n,
        forall|k: int| 0 <= k < n ==> #[trigger] items_view(v, n)[k] == jview(v[k]),
    decreases n,
{
    if n > 0 {
        lemma_items_view(v, (n - 1) as nat);
    }
}

/// The members' values, one for one.
pub proof fn lemma_fields_view(fs: Vec<(String, Json)>, n: nat)
    requires
        n <= fs.len(),
    ensures
        fields_view(fs, n).len() == n,
        forall|k: int| 0 <= k < n ==> #[trigger] fields_view(fs, n)[k] == (fs[k].0@, jview(fs[k].1)),
    decreases n,
{
    if n > 0 {
        lemma_fields_view(fs, (n - 1) as nat);
    }
}

// ---------------------------------------------------------------------------
// Compact text
// ---------------------------------------------------------------------------
/// Lower-case hexadecimal digit of `n` (below 16).
pub open spec fn hex_digit(n: nat) -> char {
    if n < 10 {
        (('0' as nat) + n) as char
    } else {
        (('a' as nat) + n - 10) as char
    }
}

/// A character inside a JSON string: `"`, `\` and control characters
/// escaped (the short forms where JSON has them), all others as they are.
pub open spec fn escape_char(c: char) -> Seq<char> {
    if c == '"' {
        seq!['\\', '"']
    } else if c == '\\' {
        seq!['\\', '\\']
    } else if c == '\u{8}' {
        seq!['\\', 'b']
    } else if c == '\u{c}' {
        seq!['\\', 'f']
    } else if c == '\n' {
        seq!['\\', 'n']
    } else if c == '\r' {
        seq!['\\', 'r']
    } else if c == '\t' {
        seq!['\\', 't']
    } else if (c as nat) < 0x20 {
        seq!['\\', 'u', '0', '0', hex_digit((c as nat) / 16), hex_digit((c as nat) % 16)]
    } else {
        seq![c]
    }
}

/// A text with every character escaped (see [`escape_char`]).
pub open spec fn escaped(s: Seq<char>) -> Seq<char>
    decreases s.len(),
{
    if s.len() == 0 {
        Seq::empty()
    } else {
        escaped(s.drop_last()) + escape_char(s.last())
    }
}

/// A JSON string literal.
pub open spec fn quoted(s: Seq<char>) -> Seq<char> {
    seq!['"'] + escaped(s) + seq!['"']
}

/// Compact JSON text of a value: no white space, members in order.
pub open spec fn text_of(j: JsonView) -> Seq<char>
    decreases j, 0nat,
{
    match j {
        JsonView::Null => seq!['n', 'u', 'l', 'l'],
        JsonView::Bool(b) => if b {
            seq!['t', 'r', 'u', 'e']
        } else {
            seq!['f', 'a', 'l', 's', 'e']
        },
        JsonView::Number(n) => n,
        JsonView::Str(s) => quoted(s),
        JsonView::Array(items) => seq!['['] + items_text(items, items.len()) + seq![']'],
        JsonView::Object(fs) => seq!['{'] + fields_text(fs, fs.len()) + seq!['}'],
    }
}

/// Text of the first `n` items, comma-separated.
pub open spec fn items_text(items: Seq<JsonView>, n: nat) -> Seq<char>
    decreases items, n,
{
    if n == 0 || n > items.len() {
        Seq::empty()
    } else {
        items_text(items, (n - 1) as nat) + (if n > 1 {
            seq![',']
        } else {
            Seq::empty()
        }) + text_of(items[n - 1])
    }
}

/// Text of the first `n` members (`"key":value`), comma-separated.
pub open spec fn fields_text(fs: Seq<(Seq<char>, JsonView)>, n: nat) -> Seq<char>
    decreases fs, n,
{
    if n == 0 || n > fs.len() {
        Seq::empty()
    } else {
        fields_text(fs, (n - 1) as nat) + (if n > 1 {
            seq![',']
        } else {
            Seq::empty()
        }) + quoted(fs[n - 1].0) + seq![':'] + text_of(fs[n - 1].1)
    }
}

fn hex_char(n: u32) -> (c: char)
    requires
        n < 16,
    ensures
        c == hex_digit(n as nat),
{
    let digits = chars_of("0123456789abcdef");
    proof {
        reveal_strlit("0123456789abcdef");
    }
    let c = digits[n as usize];
    assert(c == hex_digit(n as nat)) by {
        assert(digits@ == "0123456789abcdef"@);
    }
    c
}

/// Appends a character as it appears inside a JSON string.
fn push_escaped_char(out: &mut String, c: char)
    ensures
        final(out)@ == old(out)@ + escape_char(c),
{
    let ghost start = out@;
    if c == '"' {
        push_char(out, '\\');
        push_char(out, '"');
    } else if c == '\\' {
        push_char(out, '\\');
        push_char(out, '\\');
    } else if c == '\u{8}' {
        push_char(out, '\\');
        push_char(out, 'b');
    } else if c == '\u{c}' {
        push_char(out, '\\');
        push_char(out, 'f');
    } else if c == '\n' {
        push_char(out, '\\');
        push_char(out, 'n');
    } else if c == '\r' {
        push_char(out, '\\');
        push_char(out, 'r');
    } else if c == '\t' {
        push_char(out, '\\');
        push_char(out, 't');
    } else if (c as u32) < 0x20 {
        let v = c as u32;
        push_char(out, '\\');
        push_char(out, 'u');
        push_char(out, '0');
        push_char(out, '0');
        push_char(out, hex_char(v / 16));
        push_char(out, hex_char(v % 16));
    } else {
        push_char(out, c);
    }
    assert(out@ =~= start + escape_char(c));
}

/// Appends a JSON string literal for `s` (see [`quoted`]).
pub fn push_quoted(out: &mut String, s: &str)
    ensures
        final(out)@ == old(out)@ + quoted(s@),
{
    let ghost start = out@;
    let cs = chars_of(s);
    push_char(out, '"');
    let mut i: usize = 0;
    while i < cs.len()
        invariant
            i <= cs.len(),
            cs@ == s@,
            out@ == start + seq!['"'] + escaped(s@.take(i as int)),
        decreases cs.len() - i,
    {
        assert(s@.take(i + 1).drop_last() =~= s@.take(i as int));
        push_escaped_char(out, cs[i]);
        i += 1;
    }
    assert(s@.take(cs.len() as int) =~= s@);
    push_char(out, '"');
    assert(out@ =~= start + quoted(s@));
}

/// Appends the compact text of `j` (see [`text_of`]).
pub fn push_json_text(out: &mut String, j: &Json)
    ensures
        final(out)@ == old(out)@ + text_of(j@),
    decreases j, 1nat,
{
    let ghost start = out@;
    match j {
        Json::Null => {
            push_str(out, "null");
            proof {
                reveal_strlit("null");
            }
            assert(out@ =~= start + text_of(j@));
        },
        Json::Bool(b) => {
            if *b {
                push_str(out, "true");
                proof {
                    reveal_strlit("true");
                }
            } else {
                push_str(out, "false");
                proof {
                    reveal_strlit("false");
                }
            }
            assert(out@ =~= start + text_of(j@));
        },
        Json::Number(n) => {
            push_str(out, n.as_str());
        },
        Json::Str(s) => {
            push_quoted(out, s.as_str());
        },
        Json::Array(items) => {
            push_items_text(out, items);
            assert(j@ == JsonView::Array(items_view(*items, items.len() as nat)));
            proof {
                lemma_items_view(*items, items.len() as nat);
            }
            assert(out@ =~= start + text_of(j@));
        },
        Json::Object(fs) => {
            push_fields_text(out, fs);
            assert(j@ == JsonView::Object(fields_view(*fs, fs.len() as nat)));
            proof {
                lemma_fields_view(*fs, fs.len() as nat);
            }
            assert(out@ =~= start + text_of(j@));
        },
    }
}

/// Appends `[` items `]`.
pub(crate) fn push_items_text(out: &mut String, items: &Vec<Json>)
    ensures
        final(out)@ == old(out)@ + seq!['['] + items_text(
            items_view(*items, items.len() as nat),
            items.len() as nat,
        ) + seq![']'],
    decreases items, 0nat,
{
    let ghost start = out@;
    let ghost vs = items_view(*items, items.len() as nat);
    proof {
        lemma_items_view(*items, items.len() as nat);
    }
    push_char(out, '[');
    let mut i: usize = 0;
    while i < items.len()
        invariant
            i <= items.len(),
            vs == items_view(*items, items.len() as nat),
            vs.len() == items.len(),
            forall|k: int| 0 <= k < items.len() ==> #[trigger] vs[k] == jview(items[k]),
            out@ == start + seq!['['] + items_text(vs, i as nat),
        decreases items.len() - i,
    {
        if i > 0 {
            push_char(out, ',');
        }
        push_json_text(out, &items[i]);
        assert(vs[i as int] == items[i as int]@);
        assert(out@ =~= start + seq!['['] + items_text(vs, (i + 1) as nat));
        i += 1;
    }
    push_char(out, ']');
}

/// Appends `{` members `}`.
fn push_fields_text(out: &mut String, fs: &Vec<(String, Json)>)
    ensures
        final(out)@ == old(out)@ + seq!['{'] + fields_text(fields_view(*fs, fs.len() as nat), fs.len() as nat)
            + seq!['}'],
    decreases fs, 0nat,
{
    let ghost start = out@;
    let ghost vs = fields_view(*fs, fs.len() as nat);
    proof {
        lemma_fields_view(*fs, fs.len() as nat);
    }
    push_char(out, '{');
    let mut i: usize = 0;
    while i < fs.len()
        invariant
            i <= fs.len(),
            vs == fields_view(*fs, fs.len() as nat),
            vs.len() == fs.len(),
            forall|k: int| 0 <= k < fs.len() ==> #[trigger] vs[k] == (fs[k].0@, jview(fs[k].1)),
            out@ == start + seq!['{'] + fields_text(vs, i as nat),
        decreases fs.len() - i,
    {
        if i > 0 {
            push_char(out, ',');
        }
        push_quoted(out, fs[i].0.as_str());
        push_char(out, ':');
        push_json_text(out, &fs[i].1);
        assert(vs[i as int] == (fs[i as int].0@, jview(fs[i as int].1)));
        assert(out@ =~= start + seq!['{'] + fields_text(vs, (i + 1) as nat));
        i += 1;
    }
    push_char(out, '}');
}

/// The compact text of `j` (see [`text_of`]).
pub fn json_text(j: &Json) -> (t: String)
    ensures
        t@ == text_of(j@),
{
    let mut t = String::new();
    push_json_text(&mut t, j);
    assert(t@ =~= text_of(j@));
    t
}

// ---------------------------------------------------------------------------
// Building values
// ---------------------------------------------------------------------------
/// A JSON number written in decimal.
pub open spec fn jnum(n: nat) -> JsonView {
    JsonView::Number(decimal(n))
}

/// A JSON string.
pub open spec fn jstr(s: Seq<char>) -> JsonView {
    JsonView::Str(s)
}

/// An optional count: its number, or `null`.
pub open spec fn jopt(n: Option<usize>) -> JsonView {
    match n {
        Some(v) => jnum(v as nat),
        None => JsonView::Null,
    }
}

pub(crate) fn num(n: u64) -> (j: Json)
    ensures
        j@ == jnum(n as nat),
{
    let mut t = String::new();
    push_decimal(&mut t, n);
    Json::Number(t)
}

pub(crate) fn opt_num(n: Option<usize>) -> (j: Json)
    ensures
        j@ == jopt(n),
{
    match n {
        Some(v) => num(v as u64),
        None => Json::Null,
    }
}

pub(crate) fn member(key: &str, value: Json) -> (m: (String, Json))
    ensures
        m.0@ == key@,
        m.1 == value,
{
    (String::from_str(key), value)
}

pub(crate) fn object(fields: Vec<(String, Json)>) -> (j: Json)
    ensures
        j@ == JsonView::Object(Seq::new(fields@.len(), |k: int| (fields@[k].0@, jview(fields@[k].1)))),
{
    proof {
        lemma_fields_view(fields, fields.len() as nat);
        assert(fields_view(fields, fields.len() as nat) =~= Seq::new(
            fields@.len(),
            |k: int| (fields@[k].0@, jview(fields@[k].1)),
        ));
    }
    Json::Object(fields)
}

pub(crate) fn strings(v: Vec<String>) -> (j: Json)
    ensures
        j@ == JsonView::Array(v@.map_values(|s: String| jstr(s@))),
{
    let mut items: Vec<Json> = Vec::new();
    let mut i: usize = 0;
    while i < v.len()
        invariant
            i <= v.len(),
            items@.len() == i,
            forall|k: int| 0 <= k < i ==> #[trigger] jview(items@[k]) == jstr(v@[k]@),
        decreases v.len() - i,
    {
        items.push(Json::Str(v[i].clone()));
        i += 1;
    }
    proof {
        lemma_items_view(items, items.len() as nat);
        assert(items_view(items, items.len() as nat) =~= v@.map_values(|s: String| jstr(s@)));
    }
    Json::Array(items)
}

/// An optional text: the string, or `null`.
pub open spec fn jopt_str(s: Option<Seq<char>>) -> JsonView {
    match s {
        Some(t) => jstr(t),
        None => JsonView::Null,
    }
}

pub(crate) fn opt_text(s: Option<String>) -> (j: Json)
    ensures
        j@ == jopt_str(match s {
            Some(t) => Some(t@),
            None => None,
        }),
{
    match s {
        Some(t) => Json::Str(t),
        None => Json::Null,
    }
}

// ---------------------------------------------------------------------------
// Reading values
// ---------------------------------------------------------------------------
/// The value of the first member named `key`, if any.
pub open spec fn field_in(fs: Seq<(Seq<char>, JsonView)>, key: Seq<char>) -> Option<JsonView>
    decreases fs.len(),
{
    if fs.len() == 0 {
        None
    } else if fs[0].0 == key {
        Some(fs[0].1)
    } else {
        field_in(fs.drop_first(), key)
    }
}

/// The member `key` of an object; `None` for another value or a missing
/// member.
pub open spec fn member_of(j: JsonView, key: Seq<char>) -> Option<JsonView> {
    match j {
        JsonView::Object(fs) => field_in(fs, key),
        _ => None,
    }
}

/// The text of a string value; `None` for anything else.
pub open spec fn text_in(j: Option<JsonView>) -> Option<Seq<char>> {
    match j {
        Some(JsonView::Str(s)) => Some(s),
        _ => None,
    }
}

/// The member `key` of an object (see [`member_of`]).
pub fn json_get<'a>(j: &'a Json, key: &str) -> (r: Option<&'a Json>)
    ensures
        match r {
            Some(v) => member_of(j@, key@) == Some(v@),
            None => member_of(j@, key@).is_none(),
        },
{
    match j {
        Json::Object(fs) => {
            let ghost fv = fields_view(*fs, fs.len() as nat);
            proof {
                lemma_fields_view(*fs, fs.len() as nat);
                assert(fv.subrange(0, fv.len() as int) =~= fv);
                assert(j@ == JsonView::Object(fv));
            }
            let mut i: usize = 0;
            while i < fs.len()
                invariant
                    i <= fs.len(),
                    fv == fields_view(*fs, fs.len() as nat),
                    fv.len() == fs.len(),
                    j@ == JsonView::Object(fv),
                    forall|k: int| 0 <= k < fs.len() ==> #[trigger] fv[k] == (fs[k].0@, jview(fs[k].1)),
                    field_in(fv, key@) == field_in(fv.subrange(i as int, fv.len() as int), key@),
                decreases fs.len() - i,
            {
                let ghost rest = fv.subrange(i as int, fv.len() as int);
                assert(rest[0] == fv[i as int]);
                if crate::text::str_eq(fs[i].0.as_str(), key) {
                    assert(fs[i as int].1@ == jview(fs[i as int].1));
                    return Some(&fs[i].1);
                }
                assert(rest.drop_first() =~= fv.subrange(i + 1, fv.len() as int));
                i += 1;
            }
            None
        },
        _ => None,
    }
}

/// The text of a string value (see [`text_in`]).
pub fn json_text_of(j: Option<&Json>) -> (r: Option<String>)
    ensures
        opt_text_view(r) == text_in(match j {
            Some(v) => Some(v@),
            None => None,
        }),
{
    match j {
        Some(Json::Str(s)) => Some(s.clone()),
        _ => None,
    }
}

/// View of an optional text.
pub open spec fn opt_text_view(o: Option<String>) -> Option<Seq<char>> {
    match o {
        Some(s) => Some(s@),
        None => None,
    }
}

// ---------------------------------------------------------------------------
// Parsing
// ---------------------------------------------------------------------------
#[verifier::external_type_specification]
#[verifier::external_body]
pub struct ExJsonValue(serde_json::Value);

/// The value that `serde_json` reads from `text`, when it is JSON.
pub uninterp spec fn json_value(text: Seq<char>) -> Option<JsonView>;

/// Value of an optional JSON value.
pub open spec fn opt_json(o: Option<Json>) -> Option<JsonView> {
    match o {
        Some(v) => Some(v@),
        None => None,
    }
}

/// Carries a parsed `serde_json::Value` over into a [`Json`], one for one
/// (a number by its text, object members in the order the map holds them).
#[verifier::external_body]
fn value_to_json(v: &serde_json::Value) -> Json {
    match v {
        serde_json::Value::Null => Json::Null,
        serde_json::Value::Bool(b) => Json::Bool(*b),
        serde_json::Value::Number(n) => Json::Number(n.to_string()),
        serde_json::Value::String(s) => Json::Str(s.clone()),
        serde_json::Value::Array(a) => Json::Array(a.iter().map(value_to_json).collect()),
        serde_json::Value::Object(m) => Json::Object(m.iter().map(|(k, f)| (k.clone(), value_to_json(f))).collect()),
    }
}

/// Parses JSON text (`serde_json::from_str` into a `serde_json::Value`):
/// the result is named by [`json_value`].
#[verifier::external_body]
pub(crate) fn parse_json(text: &str) -> (r: Option<Json>)
    ensures
        opt_json(r) == json_value(text@),
{
    serde_json::from_str::<serde_json::Value>(text).ok().map(|v| value_to_json(&v))
}

// ---------------------------------------------------------------------------
// Copies
// ---------------------------------------------------------------------------
impl Json {
    /// A copy of the value.
    pub fn duplicate(&self) -> (r: Json)
        ensures
            r@ == self@,
        decreases self, 1nat,
    {
        match self {
            Json::Null => Json::Null,
            Json::Bool(b) => Json::Bool(*b),
            Json::Number(n) => Json::Number(n.clone()),
            Json::Str(s) => Json::Str(s.clone()),
            Json::Array(items) => {
                let copy = duplicate_items(items);
                proof {
                    lemma_items_view(*items, items.len() as nat);
                    lemma_items_view(copy, copy.len() as nat);
                    assert(items_view(copy, copy.len() as nat) =~= items_view(*items, items.len() as nat));
                }
                Json::Array(copy)
            },
            Json::Object(fs) => {
                let copy = duplicate_fields(fs);
                proof {
                    lemma_fields_view(*fs, fs.len() as nat);
                    lemma_fields_view(copy, copy.len() as nat);
                    assert(fields_view(copy, copy.len() as nat) =~= fields_view(*fs, fs.len() as nat));
                }
                Json::Object(copy)
            },
        }
    }
}

fn duplicate_items(items: &Vec<Json>) -> (r: Vec<Json>)
    ensures
        r@.len() == items@.len(),
        forall|k: int| 0 <= k < items@.len() ==> #[trigger] jview(r@[k]) == jview(items@[k]),
    decreases items, 0nat,
{
    let mut out: Vec<Json> = Vec::new();
    let mut i: usize = 0;
    while i < items.len()
        invariant
            i <= items.len(),
            out@.len() == i,
            forall|k: int| 0 <= k < i ==> #[trigger] jview(out@[k]) == jview(items@[k]),
        decreases items.len() - i,
    {
        out.push(items[i].duplicate());
        i += 1;
    }
    out
}

fn duplicate_fields(fs: &Vec<(String, Json)>) -> (r: Vec<(String, Json)>)
    ensures
        r@.len() == fs@.len(),
        forall|k: int| 0 <= k < fs@.len() ==> #[trigger] r@[k].0@ == fs@[k].0@ && jview(r@[k].1) == jview(
            fs@[k].1,
        ),
    decreases fs, 0nat,
{
    let mut out: Vec<(String, Json)> = Vec::new();
    let mut i: usize = 0;
    while i < fs.len()
        invariant
            i <= fs.len(),
            out@.len() == i,
            forall|k: int| 0 <= k < i ==> #[trigger] out@[k].0@ == fs@[k].0@ && jview(out@[k].1) == jview(
                fs@[k].1,
            ),
        decreases fs.len() - i,
    {
        let v = fs[i].1.duplicate();
        out.push((fs[i].0.clone(), v));
        i += 1;
    }
    out
}

} // verus!
