//! What the local tools hand back to the model: the JSON value of each
//! result, whether it counts as a success, and its summary line, built from
//! what the tool reported.
use crate::dispatch::{result_summary, summary_spec, ToolFacts};
use crate::json::{json_text, text_of, jnum, jopt, jstr, jview, lemma_items_view, items_view, member, num, object, opt_num, strings, Json, JsonView};
use crate::text::{push_signed_decimal, signed_decimal};
use crate::verification::{json_field, json_str_field};
use vstd::prelude::*;
use vstd::string::*;

verus! {

/// The outcome of a local tool call.
#[derive(Debug)]
pub struct ToolOutput {
    /// The result as the model sees it.
    pub value: Json,
    /// Whether the call succeeded.
    pub is_success: bool,
    /// One line for the user.
    pub result_summary: String,
}

/// `o` holds exactly `value`, `success` and `summary`.
pub open spec fn output_is(o: ToolOutput, value: JsonView, success: bool, summary: Seq<char>) -> bool {
    &&& o.value@ == value
    &&& o.is_success == success
    &&& o.result_summary@ == summary
}

// ---------------------------------------------------------------------------
// Arguments
// ---------------------------------------------------------------------------
/// A string argument of a call: the field of that name when the arguments
/// are a JSON object holding a string there, else empty.
pub open spec fn str_arg_spec(args: Seq<char>, key: Seq<char>) -> Seq<char> {
    match json_str_field(args, key) {
        Some(v) => v,
        None => Seq::empty(),
    }
}

/// Reads a string argument (see [`str_arg_spec`]).
pub fn str_arg(args: &str, key: &str) -> (s: String)
    ensures
        s@ == str_arg_spec(args@, key@),
{
    match json_field(args, key) {
        Some(v) => v,
        None => String::new(),
    }
}

/// The workflow a `run_workflow` call names; an error when it names none.
pub fn workflow_name_arg(args: &str) -> (r: Result<String, String>)
    ensures
        match json_str_field(args@, "workflow_name"@) {
            Some(n) => r is Ok && r->Ok_0@ == n,
            None => r is Err && r->Err_0@ == "workflow_name is required"@,
        },
{
    match json_field(args, "workflow_name") {
        Some(n) => Ok(n),
        None => Err(String::from_str("workflow_name is required")),
    }
}

// ---------------------------------------------------------------------------
// Outputs
// ---------------------------------------------------------------------------
/// Value of a finished shell command.
pub open spec fn bash_value(stdout: Seq<char>, stderr: Seq<char>, exit_code: Option<i32>, success: bool) -> JsonView {
    JsonView::Object(
        seq![
            ("exit_code"@, match exit_code {
                Some(c) => JsonView::Number(signed_decimal(c as int)),
                None => JsonView::Null,
            }),
            ("ok"@, JsonView::Bool(true)),
            ("stderr"@, jstr(stderr)),
            ("stdout"@, jstr(stdout)),
            ("success"@, JsonView::Bool(success)),
        ],
    )
}

/// Output of `execute_bash` for a command that ran: its streams and exit
/// code; it succeeds as the command did.
pub fn execute_bash_output(command: String, stdout: String, stderr: String, exit_code: Option<i32>, success: bool) -> (o:
    ToolOutput)
    ensures
        output_is(
            o,
            bash_value(stdout@, stderr@, exit_code, success),
            success,
            summary_spec(ToolFacts::Bash { command, exit_code }),
        ),
{
    let code = match exit_code {
        Some(c) => {
            let mut t = String::new();
            push_signed_decimal(&mut t, c as i64);
            Json::Number(t)
        },
        None => Json::Null,
    };
    let fields = vec![
        member("exit_code", code),
        member("ok", Json::Bool(true)),
        member("stderr", Json::Str(stderr)),
        member("stdout", Json::Str(stdout)),
        member("success", Json::Bool(success)),
    ];
    let value = object(fields);
    let summary = result_summary(&ToolFacts::Bash { command, exit_code });
    assert(value@->Object_0 =~= bash_value(stdout@, stderr@, exit_code, success)->Object_0);
    ToolOutput { value, is_success: success, result_summary: summary }
}

/// Value of a finished write: bytes written, `ok`, and the path.
pub open spec fn write_value(path: Seq<char>, bytes: nat) -> JsonView {
    JsonView::Object(
        seq![("bytesWritten"@, jnum(bytes)), ("ok"@, JsonView::Bool(true)), ("path"@, jstr(path))],
    )
}

/// Output of `fs_write` once `content` was written to `path`; the count is
/// the content's length in UTF-8 bytes.
pub fn fs_write_output(path: String, content: &str) -> (o: ToolOutput)
    ensures
        output_is(
            o,
            write_value(path@, content.len() as nat),
            true,
            summary_spec(ToolFacts::FsWrite { path, bytes: content.len() }),
        ),
{
    let bytes = content.len();
    let fields = vec![
        member("bytesWritten", num(bytes as u64)),
        member("ok", Json::Bool(true)),
        member("path", Json::Str(path.clone())),
    ];
    let value = object(fields);
    let summary = result_summary(&ToolFacts::FsWrite { path, bytes });
    assert(value@->Object_0 =~= write_value(path@, bytes as nat)->Object_0);
    ToolOutput { value, is_success: true, result_summary: summary }
}

/// A row found by `search_text`: file, line number and line.
pub open spec fn row_value(row: (String, usize, String)) -> JsonView {
    JsonView::Object(seq![("line"@, jnum(row.1 as nat)), ("path"@, jstr(row.0@)), ("text"@, jstr(row.2@))])
}

/// Value of a search: its rows, where they start, how many were asked
/// and returned, whether more remain and from where, and any warnings.
pub open spec fn search_value(
    rows: Seq<(String, usize, String)>,
    offset: usize,
    max_results: usize,
    truncated: bool,
    next_offset: Option<usize>,
    warnings: Seq<String>,
) -> JsonView {
    JsonView::Object(
        seq![
            ("meta"@, JsonView::Object(seq![
                ("max_results"@, jnum(max_results as nat)),
                ("next_offset"@, jopt(next_offset)),
                ("offset"@, jnum(offset as nat)),
                ("returned"@, jnum(rows.len())),
                ("truncated"@, JsonView::Bool(truncated)),
            ])),
            ("ok"@, JsonView::Bool(true)),
            ("results"@, JsonView::Array(rows.map_values(|r: (String, usize, String)| row_value(r)))),
            ("warnings"@, JsonView::Array(warnings.map_values(|w: String| jstr(w@)))),
        ],
    )
}

fn row_json(row: &(String, usize, String)) -> (j: Json)
    ensures
        j@ == row_value(*row),
{
    let fields = vec![
        member("line", num(row.1 as u64)),
        member("path", Json::Str(row.0.clone())),
        member("text", Json::Str(row.2.clone())),
    ];
    let j = object(fields);
    assert(j@->Object_0 =~= row_value(*row)->Object_0);
    j
}

/// Output of `search_text` for `pattern`, given what the search returned.
pub fn search_text_output(
    pattern: String,
    rows: Vec<(String, usize, String)>,
    offset: usize,
    max_results: usize,
    truncated: bool,
    next_offset: Option<usize>,
    warnings: Vec<String>,
) -> (o: ToolOutput)
    ensures
        output_is(
            o,
            search_value(rows@, offset, max_results, truncated, next_offset, warnings@),
            true,
            summary_spec(
                ToolFacts::SearchText { pattern, returned: rows@.len() as usize, truncated, next_offset },
            ),
        ),
{
    let mut items: Vec<Json> = Vec::new();
    let mut i: usize = 0;
    while i < rows.len()
        invariant
            i <= rows.len(),
            items@.len() == i,
            forall|k: int| 0 <= k < i ==> #[trigger] jview(items@[k]) == row_value(rows@[k]),
        decreases rows.len() - i,
    {
        items.push(row_json(&rows[i]));
        i += 1;
    }
    proof {
        lemma_items_view(items, items.len() as nat);
        assert(items_view(items, items.len() as nat) =~= rows@.map_values(
            |r: (String, usize, String)| row_value(r),
        ));
    }
    let returned = rows.len();
    let meta = object(
        vec![
            member("max_results", num(max_results as u64)),
            member("next_offset", opt_num(next_offset)),
            member("offset", num(offset as u64)),
            member("returned", num(returned as u64)),
            member("truncated", Json::Bool(truncated)),
        ],
    );
    let value = object(
        vec![
            member("meta", meta),
            member("ok", Json::Bool(true)),
            member("results", Json::Array(items)),
            member("warnings", strings(warnings)),
        ],
    );
    proof {
        let expect = search_value(rows@, offset, max_results, truncated, next_offset, warnings@);
        assert(meta@->Object_0 =~= expect->Object_0[0].1->Object_0);
        assert(value@->Object_0 =~= expect->Object_0);
    }
    let summary = result_summary(&ToolFacts::SearchText { pattern, returned, truncated, next_offset });
    ToolOutput { value, is_success: true, result_summary: summary }
}

/// A one-member object holding a text.
pub open spec fn text_value(key: Seq<char>, text: Seq<char>) -> JsonView {
    JsonView::Object(seq![(key, jstr(text))])
}

fn text_object(key: &str, text: String) -> (j: Json)
    ensures
        j@ == text_value(key@, text@),
{
    let j = object(vec![member(key, Json::Str(text))]);
    assert(j@->Object_0 =~= text_value(key@, text@)->Object_0);
    j
}

/// Output of `read_memory`: the memory's content.
pub fn read_memory_output(key: String, content: String) -> (o: ToolOutput)
    ensures
        output_is(o, text_value("content"@, content@), true, summary_spec(ToolFacts::ReadMemory { key })),
{
    let value = text_object("content", content);
    ToolOutput { value, is_success: true, result_summary: result_summary(&ToolFacts::ReadMemory { key }) }
}

/// Output of `write_memory`: the store's message.
pub fn write_memory_output(key: String, message: String) -> (o: ToolOutput)
    ensures
        output_is(o, text_value("message"@, message@), true, summary_spec(ToolFacts::WriteMemory { key })),
{
    let value = text_object("message", message);
    ToolOutput { value, is_success: true, result_summary: result_summary(&ToolFacts::WriteMemory { key }) }
}

/// Output of `list_memories`: the listing.
pub fn list_memories_output(listing: String) -> (o: ToolOutput)
    ensures
        output_is(o, text_value("result"@, listing@), true, summary_spec(ToolFacts::ListMemories)),
{
    let value = text_object("result", listing);
    ToolOutput { value, is_success: true, result_summary: result_summary(&ToolFacts::ListMemories) }
}

/// Output of `search_memory`: what the search found.
pub fn search_memory_output(found: String) -> (o: ToolOutput)
    ensures
        output_is(o, text_value("result"@, found@), true, summary_spec(ToolFacts::SearchMemory)),
{
    let value = text_object("result", found);
    ToolOutput { value, is_success: true, result_summary: result_summary(&ToolFacts::SearchMemory) }
}

/// Output of `run_workflow`: what the workflow printed.
pub fn run_workflow_output(name: String, output: String) -> (o: ToolOutput)
    ensures
        output_is(o, text_value("result"@, output@), true, summary_spec(ToolFacts::Workflow { name })),
{
    let value = text_object("result", output);
    ToolOutput { value, is_success: true, result_summary: result_summary(&ToolFacts::Workflow { name }) }
}

/// Value of generated documentation.
pub open spec fn doc_value(doc: Seq<char>) -> JsonView {
    JsonView::Object(seq![("doc"@, jstr(doc)), ("ok"@, JsonView::Bool(true))])
}

/// Output of `doc_generate` for `path`: the documentation.
pub fn doc_generate_output(path: String, doc: String) -> (o: ToolOutput)
    ensures
        output_is(o, doc_value(doc@), true, summary_spec(ToolFacts::DocGenerate { path })),
{
    let value = object(vec![member("doc", Json::Str(doc)), member("ok", Json::Bool(true))]);
    assert(value@->Object_0 =~= doc_value(doc@)->Object_0);
    ToolOutput { value, is_success: true, result_summary: result_summary(&ToolFacts::DocGenerate { path }) }
}

/// Text that `search_history` answers with.
pub open spec fn history_disabled() -> Seq<char> {
    "Search history is disabled (RAG functionality removed)"@
}

/// `search_history`: disabled, whatever it is asked; it says so.
pub fn search_history(_args: &str) -> (o: ToolOutput)
    ensures
        output_is(o, text_value("result"@, history_disabled()), true, summary_spec(ToolFacts::SearchHistory)),
{
    let value = text_object("result", String::from_str("Search history is disabled (RAG functionality removed)"));
    ToolOutput { value, is_success: true, result_summary: result_summary(&ToolFacts::SearchHistory) }
}

/// Output of a tool that a remote server ran: its result as the value,
/// counted a success, and a summary holding the result's JSON text.
pub fn remote_tool_output(result: Json) -> (o: ToolOutput)
    ensures
        output_is(o, result@, true, "Remote tool result: "@ + text_of(result@)),
{
    let mut summary = String::from_str("Remote tool result: ");
    let t = json_text(&result);
    crate::text::push_str(&mut summary, t.as_str());
    ToolOutput { value: result, is_success: true, result_summary: summary }
}

} // verus!
