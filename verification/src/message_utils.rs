//! Budgets for tool output fed back to the model, and the clean-up of
//! fenced JSON replies.
use crate::text::{
    chars_of, count_fitting, decimal, fit_chars, is_last_match, push_chars, push_decimal,
    push_str, rfind, slice_to_vec, starts_with, str_eq, string_from, trim_chars, trim_spec,
};
use crate::json::{
    fields_view, items_view, json_value, jview, lemma_fields_view, lemma_items_view, opt_json, parse_json, text_of, Json,
    JsonView,
};
use vstd::prelude::*;
use vstd::string::*;

verus! {

/// Minimum characters kept for a truncated string field before it is
/// replaced by a bare placeholder.
pub const MIN_STRING_KEEP: usize = 200;

/// Room kept inside a string budget for the truncation marker.
pub const TRUNCATION_MARKER_RESERVE: usize = 60;

/// Budget for the output of the reading tools.
pub const READ_MAX_LEN: usize = 40000;

/// Budget for the output of every other tool.
pub const DEFAULT_MAX_LEN: usize = 8000;

/// The tools whose output gets the larger reading budget.
pub open spec fn is_read_tool(name: Seq<char>) -> bool {
    name == "fs_read"@ || name == "fs_read_many_files"@ || name == "plan_write"@ || name
        == "plan_read"@
}

/// Character budget applied to the serialized output of `tool_name`.
pub fn max_output_chars(tool_name: &str) -> (n: usize)
    ensures
        n == (if is_read_tool(tool_name@) {
            READ_MAX_LEN
        } else {
            DEFAULT_MAX_LEN
        }),
{
    if str_eq(tool_name, "fs_read") || str_eq(tool_name, "fs_read_many_files") || str_eq(
        tool_name,
        "plan_write",
    ) || str_eq(tool_name, "plan_read") {
        READ_MAX_LEN
    } else {
        DEFAULT_MAX_LEN
    }
}

/// Placeholder for a string field dropped whole.
pub open spec fn dropped_field(total: nat) -> Seq<char> {
    "[truncated "@ + decimal(total) + " chars]"@
}

/// A string field cut to `budget` characters: unchanged when it fits; a bare
/// placeholder when the budget leaves no room for a useful head; otherwise
/// the longest head whose UTF-8 encoding fits in the budget less the marker
/// reserve, followed by a marker that counts what was dropped.
pub open spec fn budget_string_spec(s: Seq<char>, budget: nat) -> Seq<char> {
    let total = s.len();
    if total <= budget {
        s
    } else if budget <= MIN_STRING_KEEP + TRUNCATION_MARKER_RESERVE {
        dropped_field(total)
    } else {
        let kept = fit_chars(s, (budget - TRUNCATION_MARKER_RESERVE) as nat);
        if kept == 0 {
            dropped_field(total)
        } else {
            s.take(kept as int) + "\n[...truncated "@ + decimal((total - kept) as nat) + " of "@
                + decimal(total) + " chars]"@
        }
    }
}

/// Cuts one string field to `budget` characters (see [`budget_string_spec`]).
pub fn budget_string_field(value: &str, budget: usize) -> (out: String)
    ensures
        out@ == budget_string_spec(value@, budget as nat),
{
    let cs = chars_of(value);
    let total = cs.len();
    if total <= budget {
        return String::from_str(value);
    }
    if budget <= MIN_STRING_KEEP + TRUNCATION_MARKER_RESERVE {
        return dropped_field_text(total);
    }
    let kept = count_fitting(cs.as_slice(), budget - TRUNCATION_MARKER_RESERVE);
    if kept == 0 {
        return dropped_field_text(total);
    }
    let head = slice_to_vec(cs.as_slice(), 0, kept);
    let mut out = string_from(head.as_slice());
    push_str(&mut out, "\n[...truncated ");
    push_decimal(&mut out, (total - kept) as u64);
    push_str(&mut out, " of ");
    push_decimal(&mut out, total as u64);
    push_str(&mut out, " chars]");
    proof {
        assert(cs@.subrange(0, kept as int) == value@.take(kept as int));
    }
    out
}

fn dropped_field_text(total: usize) -> (out: String)
    ensures
        out@ == dropped_field(total as nat),
{
    let mut out = String::from_str("[truncated ");
    push_decimal(&mut out, total as u64);
    push_str(&mut out, " chars]");
    out
}

/// Note appended to output that was cut for the model.
pub open spec fn truncation_note_spec(total: nat) -> Seq<char> {
    "... (Output truncated. Total length: "@ + decimal(total)
        + " chars. Refine your tool call to reduce output.)"@
}

/// The note for an output of `total` characters.
pub fn truncation_note(total: usize) -> (out: String)
    ensures
        out@ == truncation_note_spec(total as nat),
{
    let mut out = String::from_str("... (Output truncated. Total length: ");
    push_decimal(&mut out, total as u64);
    push_str(&mut out, " chars. Refine your tool call to reduce output.)");
    out
}

/// Room left for a JSON payload once the note (and two separators) is
/// reserved, saturating at zero.
pub fn json_budget(max_len: usize, note_chars: usize) -> (b: usize)
    ensures
        b == (if note_chars + 2 >= max_len {
            0
        } else {
            (max_len - note_chars - 2) as int
        }),
{
    if note_chars >= max_len || max_len - note_chars <= 2 {
        0
    } else {
        max_len - note_chars - 2
    }
}

// ---------------------------------------------------------------------------
// JSON values within a budget
// ---------------------------------------------------------------------------
/// Number of items an array keeps: items are dropped from its end while
/// its text is over the budget and more than one item is left.
pub open spec fn kept_items(items: Seq<JsonView>, budget: nat) -> nat
    decreases items.len(),
{
    if text_of(JsonView::Array(items)).len() <= budget || items.len() <= 1 {
        items.len()
    } else {
        kept_items(items.drop_last(), budget)
    }
}

proof fn lemma_kept_items(items: Seq<JsonView>, budget: nat)
    ensures
        kept_items(items, budget) <= items.len(),
        items.len() > 0 ==> kept_items(items, budget) >= 1,
    decreases items.len(),
{
    if !(text_of(JsonView::Array(items)).len() <= budget || items.len() <= 1) {
        lemma_kept_items(items.drop_last(), budget);
    }
}

/// Whether the budgeting descends into a member: strings, arrays and
/// objects.
pub open spec fn is_compound_or_string(v: JsonView) -> bool {
    v is Str || v is Array || v is Object
}

/// A JSON value shrunk toward `budget` characters of text: a string is cut
/// (see [`budget_string_spec`]); an array drops items from its end while
/// over the budget (keeping at least one) and then shrinks its last item;
/// an object shrinks each string, array and object member on its own;
/// other values stay.
pub open spec fn budgeted(j: JsonView, budget: nat) -> JsonView
    decreases j, 0nat,
{
    match j {
        JsonView::Str(s) => JsonView::Str(budget_string_spec(s, budget)),
        JsonView::Array(items) => {
            let k = kept_items(items, budget);
            if k == 0 || k > items.len() {
                JsonView::Array(items.take(k as int))
            } else {
                JsonView::Array(items.take(k as int).update(k - 1, budgeted(items[k - 1], budget)))
            }
        },
        JsonView::Object(fs) => JsonView::Object(budgeted_fields(fs, fs.len(), budget)),
        _ => j,
    }
}

/// The first `n` members of an object after budgeting (see [`budgeted`]).
pub open spec fn budgeted_fields(fs: Seq<(Seq<char>, JsonView)>, n: nat, budget: nat) -> Seq<
    (Seq<char>, JsonView),
>
    decreases fs, n,
{
    if n == 0 || n > fs.len() {
        Seq::empty()
    } else {
        budgeted_fields(fs, (n - 1) as nat, budget).push(
            (
                fs[n - 1].0,
                if is_compound_or_string(fs[n - 1].1) {
                    budgeted(fs[n - 1].1, budget)
                } else {
                    fs[n - 1].1
                },
            ),
        )
    }
}

/// Whether budgeting left a string, array or object within the budget;
/// other values always count as fitting.
pub open spec fn budget_fits(j: JsonView, budget: nat) -> bool {
    if is_compound_or_string(j) {
        text_of(budgeted(j, budget)).len() <= budget
    } else {
        true
    }
}

fn array_text_len(items: &Vec<Json>) -> (n: usize)
    ensures
        n == text_of(JsonView::Array(items_view(*items, items.len() as nat))).len(),
{
    let mut t = String::new();
    crate::json::push_items_text(&mut t, items);
    proof {
        crate::json::lemma_items_view(*items, items.len() as nat);
    }
    assert(t@ =~= text_of(JsonView::Array(items_view(*items, items.len() as nat))));
    t.unicode_len()
}

/// Shrinks a JSON value toward `budget` characters of text (see
/// [`budgeted`]); also tells whether the result fits (see
/// [`budget_fits`]).
pub fn budget_json_value(value: Json, budget: usize) -> (r: (Json, bool))
    ensures
        r.0@ == budgeted(value@, budget as nat),
        r.1 == budget_fits(value@, budget as nat),
    decreases value,
{
    let ghost whole = value;
    match value {
        Json::Str(s) => {
            let b = Json::Str(budget_string_field(s.as_str(), budget));
            let t = crate::json::json_text(&b);
            let fits = t.unicode_len() <= budget;
            (b, fits)
        },
        Json::Array(items) => {
            let ghost orig = items;
            let ghost ov = items_view(orig, orig.len() as nat);
            let mut items = items;
            proof {
                lemma_items_view(orig, orig.len() as nat);
                lemma_kept_items(ov, budget as nat);
                assert(ov.take(orig.len() as int) =~= ov);
                assert(orig@.take(orig.len() as int) =~= orig@);
            }
            while array_text_len(&items) > budget && items.len() > 1
                invariant
                    items.len() <= orig.len(),
                    items@ == orig@.take(items.len() as int),
                    ov == items_view(orig, orig.len() as nat),
                    ov.len() == orig.len(),
                    forall|k: int| 0 <= k < orig.len() ==> #[trigger] ov[k] == jview(orig[k]),
                    items_view(items, items.len() as nat) == ov.take(items.len() as int),
                    kept_items(ov, budget as nat) == kept_items(ov.take(items.len() as int), budget as nat),
                decreases items.len(),
            {
                let ghost cur = ov.take(items.len() as int);
                proof {
                    lemma_items_view(items, items.len() as nat);
                    assert(items_view(items, items.len() as nat) == cur);
                }
                items.pop();
                proof {
                    lemma_items_view(items, items.len() as nat);
                    assert(cur.drop_last() =~= ov.take(items.len() as int));
                    assert forall|k: int| 0 <= k < items.len() implies #[trigger] items_view(
                        items,
                        items.len() as nat,
                    )[k] == ov.take(items.len() as int)[k] by {
                        assert(items[k] == orig[k]);
                    }
                    assert(items_view(items, items.len() as nat) =~= ov.take(items.len() as int));
                }
            }
            let ghost k = items.len();
            proof {
                lemma_items_view(items, items.len() as nat);
                assert(ov.take(k as int) == items_view(items, k as nat));
                assert(kept_items(ov.take(k as int), budget as nat) == k);
                assert(kept_items(ov, budget as nat) == k);
            }
            match items.pop() {
                Some(last) => {
                    proof {
                        assert(last == orig[k - 1]);
                        assert(decreases_to!(orig => orig[k - 1]));
                    }
                    let (b, _) = budget_json_value(last, budget);
                    items.push(b);
                    proof {
                        lemma_items_view(items, items.len() as nat);
                        assert(items_view(items, items.len() as nat) =~= ov.take(k as int).update(
                            k - 1,
                            budgeted(ov[k - 1], budget as nat),
                        )) by {
                            assert forall|m: int| 0 <= m < k implies #[trigger] items_view(
                                items,
                                items.len() as nat,
                            )[m] == ov.take(k as int).update(k - 1, budgeted(ov[k - 1], budget as nat))[m] by {
                                if m < k - 1 {
                                    assert(items[m] == orig[m]);
                                }
                            }
                        }
                    }
                },
                None => {
                    proof {
                        assert(k == 0);
                        assert(items_view(items, 0) =~= ov.take(0));
                    }
                },
            }
            let out = Json::Array(items);
            let t = crate::json::json_text(&out);
            let fits = t.unicode_len() <= budget;
            (out, fits)
        },
        Json::Object(fs) => {
            let ghost orig = fs;
            let ghost ov = fields_view(orig, orig.len() as nat);
            proof {
                lemma_fields_view(orig, orig.len() as nat);
            }
            let mut rest = fs;
            let mut done: Vec<(String, Json)> = Vec::new();
            while rest.len() > 0
                invariant
                    whole == Json::Object(orig),
                    whole == value,
                    done.len() + rest.len() == orig.len(),
                    rest@ == orig@.subrange(done.len() as int, orig.len() as int),
                    ov == fields_view(orig, orig.len() as nat),
                    ov.len() == orig.len(),
                    forall|m: int| 0 <= m < orig.len() ==> #[trigger] ov[m] == (orig[m].0@, jview(orig[m].1)),
                    fields_view(done, done.len() as nat) == budgeted_fields(ov, done.len() as nat, budget as nat),
                decreases rest.len(),
            {
                let ghost i = done.len();
                let (key, field) = rest.remove(0);
                proof {
                    assert(orig@.subrange(i as int, orig.len() as int)[0] == orig[i as int]);
                    assert(rest@ =~= orig@.subrange(i + 1, orig.len() as int));
                    assert(field == orig[i as int].1);
                    assert(decreases_to!(orig => orig[i as int]));
                    assert(decreases_to!(orig[i as int] => orig[i as int].1));
                    assert(whole->Object_0 == orig);
                    assert(decreases_to!(whole => whole->Object_0));
                    assert(decreases_to!(whole => field));
                }
                let compound = match &field {
                    Json::Str(_) => true,
                    Json::Array(_) => true,
                    Json::Object(_) => true,
                    _ => false,
                };
                let nf = if compound {
                    let (b, _) = budget_json_value(field, budget);
                    b
                } else {
                    field
                };
                let ghost prev = done;
                done.push((key, nf));
                proof {
                    lemma_fields_view(done, done.len() as nat);
                    lemma_fields_view(prev, prev.len() as nat);
                    assert(fields_view(done, done.len() as nat) =~= fields_view(prev, prev.len() as nat).push(
                        (done[i as int].0@, jview(done[i as int].1)),
                    )) by {
                        assert forall|m: int| 0 <= m < i implies #[trigger] fields_view(
                            done,
                            done.len() as nat,
                        )[m] == fields_view(prev, prev.len() as nat)[m] by {
                            assert(done[m] == prev[m]);
                        }
                    }
                    assert(is_compound_or_string(ov[i as int].1) == compound);
                }
            }
            let out = Json::Object(done);
            proof {
                assert(ov.len() == done.len());
            }
            let t = crate::json::json_text(&out);
            let fits = t.unicode_len() <= budget;
            (out, fits)
        },
        Json::Null => (Json::Null, true),
        Json::Bool(b) => (Json::Bool(b), true),
        Json::Number(n) => (Json::Number(n), true),
    }
}

// ---------------------------------------------------------------------------
// Tool output for the model
// ---------------------------------------------------------------------------
/// The fallback envelope: a JSON object holding the note and the longest
/// head of the output that fits in `keep` bytes.
pub open spec fn envelope(content: Seq<char>, note: Seq<char>, keep: nat) -> Seq<char> {
    text_of(
        JsonView::Object(
            seq![
                ("note"@, JsonView::Str(note)),
                ("truncated_raw"@, JsonView::Str(content.take(fit_chars(content, keep) as int))),
            ],
        ),
    )
}

/// The first envelope, halving `keep` each time, that fits in `max`
/// characters (the one with an empty head when none does).
pub open spec fn fallback_text(content: Seq<char>, note: Seq<char>, max: nat, keep: nat) -> Seq<char>
    decreases keep,
{
    let t = envelope(content, note, keep);
    if t.len() <= max || keep == 0 {
        t
    } else {
        fallback_text(content, note, max, keep / 2)
    }
}

/// Tool output as the model receives it: unchanged within the tool's
/// budget; otherwise the budgeted JSON value when the output is JSON
/// (`parsed`) and that fits; otherwise the fallback envelope.
pub open spec fn model_output(content: Seq<char>, tool: Seq<char>, parsed: Option<JsonView>) -> Seq<char> {
    let max: nat = if is_read_tool(tool) { READ_MAX_LEN as nat } else { DEFAULT_MAX_LEN as nat };
    if content.len() <= max {
        content
    } else {
        let note = truncation_note_spec(content.len());
        let jb: nat = if note.len() + 2 >= max { 0 } else { (max - note.len() - 2) as nat };
        let budgeted_text = match parsed {
            Some(v) => text_of(budgeted(v, jb)),
            None => Seq::empty(),
        };
        if parsed.is_some() && budgeted_text.len() <= max {
            budgeted_text
        } else {
            fallback_text(content, note, max, if jb >= 80 { (jb - 80) as nat } else { 0 })
        }
    }
}


fn envelope_text(cs: &Vec<char>, note: &String, keep: usize) -> (t: String)
    ensures
        t@ == envelope(cs@, note@, keep as nat),
{
    let k = count_fitting(cs.as_slice(), keep);
    let head = string_from(slice_to_vec(cs.as_slice(), 0, k).as_slice());
    let ghost hv = head@;
    let fields = vec![
        (String::from_str("note"), Json::Str(note.clone())),
        (String::from_str("truncated_raw"), Json::Str(head)),
    ];
    let env = Json::Object(fields);
    proof {
        lemma_fields_view(fields, 2);
        assert(fields_view(fields, 2) =~= seq![
            ("note"@, JsonView::Str(note@)),
            ("truncated_raw"@, JsonView::Str(hv)),
        ]);
        assert(hv =~= cs@.take(fit_chars(cs@, keep as nat) as int));
    }
    crate::json::json_text(&env)
}

/// Budgets a tool's output for the model while keeping it valid JSON (see
/// [`model_output`]), given `parsed`, the output as `serde_json` reads it
/// (`None` when it is not JSON).
pub fn truncate_parsed_output(content: String, tool_name: &str, parsed: Option<Json>) -> (out: String)
    ensures
        out@ == model_output(content@, tool_name@, opt_json(parsed)),
{
    let ghost expected = model_output(content@, tool_name@, opt_json(parsed));
    let max_len = max_output_chars(tool_name);
    let cs = chars_of(content.as_str());
    let total = cs.len();
    if total <= max_len {
        return content;
    }
    let note = truncation_note(total);
    let jb = json_budget(max_len, note.unicode_len());
    match parsed {
        Some(v) => {
            let (b, _) = budget_json_value(v, jb);
            let t = crate::json::json_text(&b);
            assert(cs@.len() == content@.len());
            assert(note@ == truncation_note_spec(content@.len()));
            assert(t@ == text_of(budgeted(opt_json(parsed).unwrap(), jb as nat)));
            if t.unicode_len() <= max_len {
                assert(opt_json(parsed).is_some());
                assert(expected == t@);
                return t;
            }
        },
        None => {},
    }
    let mut keep: usize = if jb >= 80 { jb - 80 } else { 0 };
    assert(expected == fallback_text(content@, note@, max_len as nat, keep as nat));
    loop
        invariant
            cs@ == content@,
            expected == model_output(content@, tool_name@, opt_json(parsed)),
            expected == fallback_text(
                content@,
                note@,
                max_len as nat,
                keep as nat,
            ),
        decreases keep,
    {
        let t = envelope_text(&cs, &note, keep);
        if t.unicode_len() <= max_len || keep == 0 {
            return t;
        }
        keep = keep / 2;
    }
}

/// Budgets a tool's output for the model while keeping it valid JSON: the
/// output read as JSON (see [`json_value`]) is budgeted when it is over the
/// tool's limit (see [`model_output`]).
pub fn truncate_tool_output(content: String, tool_name: &str) -> (out: String)
    ensures
        out@ == model_output(content@, tool_name@, json_value(content@)),
{
    if content.unicode_len() <= max_output_chars(tool_name) {
        return content;
    }
    let parsed = parse_json(content.as_str());
    truncate_parsed_output(content, tool_name, parsed)
}

// ---------------------------------------------------------------------------
// Fenced JSON
// ---------------------------------------------------------------------------
/// Index of the last code fence in `t`.
pub open spec fn last_fence(t: Seq<char>) -> int {
    choose|e: int| is_last_match(t, "```"@, e)
}

/// Inputs on which stripping the fence does not slice backwards: the
/// trimmed text, if it opens a fence, has its last fence after the opener.
pub open spec fn clean_json_defined(text: Seq<char>) -> bool {
    let t = trim_spec(text);
    if starts_with(t, "```json"@) {
        last_fence(t) >= 7
    } else if starts_with(t, "```"@) {
        last_fence(t) >= 3
    } else {
        true
    }
}

/// The reply with surrounding white space and an enclosing code fence (with
/// or without a `json` tag) removed.
pub open spec fn clean_json_spec(text: Seq<char>) -> Seq<char> {
    let t = trim_spec(text);
    if starts_with(t, "```json"@) {
        trim_spec(t.subrange(7, last_fence(t)))
    } else if starts_with(t, "```"@) {
        trim_spec(t.subrange(3, last_fence(t)))
    } else {
        t
    }
}

proof fn lemma_last_match_unique(t: Seq<char>, p: Seq<char>, i: int, j: int)
    requires
        is_last_match(t, p, i),
        is_last_match(t, p, j),
    ensures
        i == j,
{
}

/// Strips white space and a surrounding code fence from a model reply.
pub fn clean_json_text(text: &str) -> (out: String)
    requires
        clean_json_defined(text@),
    ensures
        out@ == clean_json_spec(text@),
{
    let raw = chars_of(text);
    let t = trim_chars(raw.as_slice());
    let json_fence = chars_of("```json");
    let fence = chars_of("```");
    proof {
        reveal_strlit("```json");
        reveal_strlit("```");
    }
    let opens_json = crate::text::has_prefix(t.as_slice(), json_fence.as_slice());
    let opens = crate::text::has_prefix(t.as_slice(), fence.as_slice());
    if opens_json || opens {
        let start: usize = if opens_json { 7 } else { 3 };
        proof {
            if opens_json {
                assert(t@.subrange(0, 3) =~= "```json"@.subrange(0, 3));
                assert("```json"@.subrange(0, 3) =~= "```"@);
            }
            assert(crate::text::matches_at(t@, "```"@, 0));
        }
        match rfind(t.as_slice(), fence.as_slice()) {
            Some(end) => {
                proof {
                    assert(is_last_match(t@, "```"@, end as int));
                    lemma_last_match_unique(t@, "```"@, end as int, last_fence(t@));
                }
                let inner = slice_to_vec(t.as_slice(), start, end);
                let cleaned = trim_chars(inner.as_slice());
                return string_from(cleaned.as_slice());
            },
            None => {
                return string_from(t.as_slice());
            },
        }
    }
    string_from(t.as_slice())
}

} // verus!
