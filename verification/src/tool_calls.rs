//! Simulated tool calling for language models without native function
//! calling: reading a JSON tool call out of model output, formatting tool
//! results for the model, and the decisions of the tool-calling loop.
use vstd::prelude::*;
use crate::json_scan::{json_object_prefix, scan_object_end};
use crate::models::Tool;
use crate::text::{views, chars_of, join, join_seq, push_str, str_eq, string_from_chars, to_owned_string};

verus! {

broadcast use vstd::string::group_string_axioms;

// ---------------------------------------------------------------------------
// Outside calls: regex and serde_json
// ---------------------------------------------------------------------------

/// What `regex::Regex::new(pattern)` followed by `captures(text)` yields for
/// capture group `group`: `None` when the pattern does not compile, does not
/// match, or the group takes no part in the match.
pub uninterp spec fn regex_capture(pattern: Seq<char>, text: Seq<char>, group: nat) -> Option<
    Seq<char>,
>;

/// What `regex::Regex::new(pattern)` followed by `find(text)` yields, given as
/// the text from the start of the leftmost match to the end of `text`.
pub uninterp spec fn regex_match_tail(pattern: Seq<char>, text: Seq<char>) -> Option<Seq<char>>;

/// Capture group `group` of the leftmost match of `pattern` in `text`.
#[verifier::external_body]
fn regex_capture_group(pattern: &str, text: &str, group: usize) -> (r: Option<String>)
    ensures
        r matches Some(g) ==> regex_capture(pattern@, text@, group as nat) == Some(g@),
        r is None ==> regex_capture(pattern@, text@, group as nat) is None,
{
    match regex::Regex::new(pattern) {
        Ok(re) => re.captures(text).and_then(|c| c.get(group)).map(|m| m.as_str().to_string()),
        Err(_) => None,
    }
}

/// The text of `text` from the start of the leftmost match of `pattern`.
/// A match lies within the haystack, so what comes back is a suffix of it.
#[verifier::external_body]
fn regex_tail_from_match(pattern: &str, text: &str) -> (r: Option<String>)
    ensures
        r matches Some(t) ==> regex_match_tail(pattern@, text@) == Some(t@),
        r matches Some(t) ==> t@.len() <= text@.len() && text@.subrange(
            text@.len() - t@.len(),
            text@.len() as int,
        ) == t@,
        r is None ==> regex_match_tail(pattern@, text@) is None,
{
    match regex::Regex::new(pattern) {
        Ok(re) => re.find(text).map(|m| text[m.start()..].to_string()),
        Err(_) => None,
    }
}

/// The message of the error `serde_json::from_str::<serde_json::Value>`
/// reports for `s` (its `Display` text), or `None` when `s` parses.
pub uninterp spec fn json_syntax_error(s: Seq<char>) -> Option<Seq<char>>;

/// The string held by the `"tool"` member of the JSON document `s`, when
/// `s` parses to an object whose `"tool"` member is a string.
pub uninterp spec fn json_tool_member(s: Seq<char>) -> Option<Seq<char>>;

/// The `"arguments"` member of the JSON document `s`, written back as
/// compact JSON text, when `s` parses to an object that has that member.
pub uninterp spec fn json_arguments_member(s: Seq<char>) -> Option<Seq<char>>;

/// The members of a parsed tool call that the logic reads.
pub struct ToolCallFields {
    pub tool: Option<String>,
    /// The JSON text of the arguments.
    pub arguments: Option<String>,
}

/// `serde_json::from_str::<serde_json::Value>(s)`, then its `"tool"` member
/// as a string and its `"arguments"` member written back as JSON text
/// (`Display` of `serde_json::Value`).
#[verifier::external_body]
fn read_tool_call_fields(s: &str) -> (r: Result<ToolCallFields, String>)
    ensures
        r matches Ok(f) ==> json_syntax_error(s@) is None && (f.tool matches Some(t)
            ==> json_tool_member(s@) == Some(t@)) && (f.tool is None ==> json_tool_member(
            s@,
        ) is None) && (f.arguments matches Some(a) ==> json_arguments_member(s@) == Some(a@))
            && (f.arguments is None ==> json_arguments_member(s@) is None),
        r matches Err(e) ==> json_syntax_error(s@) == Some(e@),
{
    match serde_json::from_str::<serde_json::Value>(s) {
        Ok(v) => Ok(
            ToolCallFields {
                tool: v.get("tool").and_then(|t| t.as_str()).map(|t| t.to_string()),
                arguments: v.get("arguments").map(|a| a.to_string()),
            },
        ),
        Err(e) => Err(e.to_string()),
    }
}

// ---------------------------------------------------------------------------
// Parsing model output
// ---------------------------------------------------------------------------

/// Result of parsing model output for tool calls.
pub enum ParsedToolCall {
    /// The model wants to call a tool, with these arguments (JSON text).
    ToolRequest { tool: String, arguments: String },
    /// The model gave its final answer (no tool call found).
    FinalAnswer(String),
    /// A tool call that could not be read.
    MalformedToolCall { raw: String, error: String },
}

/// The fenced form of a tool call: a JSON object in a ```` ```json ```` block.
pub open spec fn fenced_json_pattern() -> Seq<char> {
    "```json\\s*(\\{[\\s\\S]*?\\})\\s*```"@
}

/// The bare form of a tool call: an object starting with a `"tool"` member.
pub open spec fn bare_json_pattern() -> Seq<char> {
    "\\{\"tool\"\\s*:\\s*\"[^\"]+\""@
}

/// What reading text as a tool call comes to, as plain values.
pub enum ToolCallOutcome {
    /// A call of the named tool, with the JSON text of its arguments.
    Request(Seq<char>, Seq<char>),
    /// No tool call: the text is the final answer.
    Final,
    /// A tool call that could not be read: the raw text and the error.
    Malformed(Seq<char>, Seq<char>),
}

/// What reading the JSON text `j` as a tool call comes to.
pub open spec fn json_outcome(j: Seq<char>) -> ToolCallOutcome {
    match json_syntax_error(j) {
        Some(e) => ToolCallOutcome::Malformed(j, "Invalid JSON: "@ + e),
        None => match json_tool_member(j) {
            Some(t) => ToolCallOutcome::Request(
                t,
                match json_arguments_member(j) {
                    Some(a) => a,
                    None => "{}"@,
                },
            ),
            None => ToolCallOutcome::Malformed(j, "Missing 'tool' field"@),
        },
    }
}

/// What parsing the model output `o` comes to: a fenced JSON block first,
/// then a bare object that starts with a `"tool"` member, otherwise the
/// final answer.
pub open spec fn output_outcome(o: Seq<char>) -> ToolCallOutcome {
    match regex_capture(fenced_json_pattern(), o, 1) {
        Some(j) => json_outcome(j),
        None => match regex_match_tail(bare_json_pattern(), o) {
            Some(t) => match json_object_prefix(t) {
                Some(j) => json_outcome(j),
                None => ToolCallOutcome::Final,
            },
            None => ToolCallOutcome::Final,
        },
    }
}

/// The parsed value `r` matches the outcome `out` for the text `o`.
pub open spec fn agrees(r: ParsedToolCall, out: ToolCallOutcome, o: Seq<char>) -> bool {
    match out {
        ToolCallOutcome::Request(t, a) => r matches ParsedToolCall::ToolRequest { tool, arguments }
            && tool@ == t && arguments@ == a,
        ToolCallOutcome::Final => r matches ParsedToolCall::FinalAnswer(a) && a@ == o,
        ToolCallOutcome::Malformed(raw_text, error_text) => r matches ParsedToolCall::MalformedToolCall {
            raw,
            error,
        } && raw@ == raw_text && error@ == error_text,
    }
}

/// The first complete JSON object at the start of `s`, found by balancing
/// braces outside string literals.
pub fn extract_json_object(s: &str) -> (r: Option<String>)
    ensures
        r matches Some(x) ==> json_object_prefix(s@) == Some(x@),
        r is None ==> json_object_prefix(s@) is None,
{
    let cs = chars_of(s);
    assert(cs@.subrange(0, cs.len() as int) == cs@);
    match scan_object_end(&cs, 0) {
        Some(e) => Some(string_from_chars(&cs, 0, e)),
        None => None,
    }
}

/// Reads the JSON text `json_str` as a tool call.
pub fn parse_json_tool_call(json_str: &str) -> (r: ParsedToolCall)
    ensures
        agrees(r, json_outcome(json_str@), json_str@),
{
    match read_tool_call_fields(json_str) {
        Ok(fields) => match fields.tool {
            Some(name) => {
                let arguments = match fields.arguments {
                    Some(a) => a,
                    None => to_owned_string("{}"),
                };
                ParsedToolCall::ToolRequest { tool: name, arguments }
            },
            None => ParsedToolCall::MalformedToolCall {
                raw: to_owned_string(json_str),
                error: to_owned_string("Missing 'tool' field"),
            },
        },
        Err(e) => {
            let mut error = to_owned_string("Invalid JSON: ");
            push_str(&mut error, e.as_str());
            ParsedToolCall::MalformedToolCall { raw: to_owned_string(json_str), error }
        },
    }
}

/// Parses model output for a tool call.
pub fn parse_tool_call(output: &str) -> (r: ParsedToolCall)
    ensures
        agrees(r, output_outcome(output@), output@),
{
    let fenced = "```json\\s*(\\{[\\s\\S]*?\\})\\s*```";
    if let Some(json_str) = regex_capture_group(fenced, output, 1) {
        return parse_json_tool_call(json_str.as_str());
    }
    let bare = "\\{\"tool\"\\s*:\\s*\"[^\"]+\"";
    if let Some(tail) = regex_tail_from_match(bare, output) {
        if let Some(json_str) = extract_json_object(tail.as_str()) {
            return parse_json_tool_call(json_str.as_str());
        }
    }
    ParsedToolCall::FinalAnswer(to_owned_string(output))
}

// ---------------------------------------------------------------------------
// Messages fed back to the model
// ---------------------------------------------------------------------------

/// The text fed back to the model after a tool ran.
pub open spec fn tool_result_text(tool_name: Seq<char>, result: Seq<char>, is_error: bool) -> Seq<
    char,
> {
    (if is_error {
        "Tool error for `"@
    } else {
        "Tool result for `"@
    }) + tool_name + "`:\n"@ + result
}

/// Formats a tool result for feeding back to the model.
pub fn format_tool_result(tool_name: &str, result: &str, is_error: bool) -> (r: String)
    ensures
        r@ == tool_result_text(tool_name@, result@, is_error),
{
    let mut r = if is_error {
        to_owned_string("Tool error for `")
    } else {
        to_owned_string("Tool result for `")
    };
    push_str(&mut r, tool_name);
    push_str(&mut r, "`:\n");
    push_str(&mut r, result);
    r
}

// ---------------------------------------------------------------------------
// The tool-calling loop
// ---------------------------------------------------------------------------

/// Configuration for simulated tool calling.
#[derive(Clone, Debug)]
pub struct SimulatedToolConfig {
    pub max_iterations: usize,
}

impl Default for SimulatedToolConfig {
    fn default() -> (r: Self)
        ensures
            r.max_iterations == 10,
    {
        SimulatedToolConfig { max_iterations: 10 }
    }
}

/// Before each model request: stop when cancelled or when the iteration
/// limit is reached, otherwise count one more iteration.
pub fn loop_gate(cancelled: bool, iteration: usize, config: &SimulatedToolConfig) -> (r: Result<
    usize,
    String,
>)
    ensures
        cancelled ==> (r matches Err(e) && e@ == "Cancelled"@),
        !cancelled && iteration >= config.max_iterations ==> (r matches Err(e) && e@
            == "Max tool iterations reached"@),
        !cancelled && iteration < config.max_iterations ==> r == Ok::<usize, String>(
            (iteration + 1) as usize,
        ),
{
    if cancelled {
        return Err(to_owned_string("Cancelled"));
    }
    if iteration >= config.max_iterations {
        return Err(to_owned_string("Max tool iterations reached"));
    }
    Ok(iteration + 1)
}

/// What the loop does with a model response.
pub enum LoopAction {
    /// The response is the final answer.
    Finish(String),
    /// Record the response as the assistant's turn, then run the tool.
    CallTool { tool: String, arguments: String, assistant_message: String },
    /// Record the response, then tell the model its tool call was malformed.
    Reprompt { assistant_message: String, user_message: String },
}

/// The feedback sent after a malformed tool call.
pub open spec fn malformed_feedback_text(error: Seq<char>) -> Seq<char> {
    "Your tool call was malformed: "@ + error
        + "\nPlease use the exact format:\n```json\n{\"tool\": \"<name>\", \"arguments\": {...}}\n```"@
}

/// The feedback sent after a malformed tool call.
pub fn malformed_feedback(error: &str) -> (r: String)
    ensures
        r@ == malformed_feedback_text(error@),
{
    let mut r = to_owned_string("Your tool call was malformed: ");
    push_str(&mut r, error);
    push_str(
        &mut r,
        "\nPlease use the exact format:\n```json\n{\"tool\": \"<name>\", \"arguments\": {...}}\n```",
    );
    r
}

/// Decides what to do with the model response `content`.
pub fn decide_after_response(content: &str) -> (r: LoopAction)
    ensures
        match output_outcome(content@) {
            ToolCallOutcome::Final => r matches LoopAction::Finish(a) && a@ == content@,
            ToolCallOutcome::Request(t, a) => r matches LoopAction::CallTool {
                tool,
                arguments,
                assistant_message,
            } && tool@ == t && arguments@ == a && assistant_message@ == content@,
            ToolCallOutcome::Malformed(_, e) => r matches LoopAction::Reprompt {
                assistant_message,
                user_message,
            } && assistant_message@ == content@ && user_message@ == malformed_feedback_text(e),
        },
{
    match parse_tool_call(content) {
        ParsedToolCall::FinalAnswer(answer) => LoopAction::Finish(answer),
        ParsedToolCall::ToolRequest { tool, arguments } => {
            LoopAction::CallTool { tool, arguments, assistant_message: to_owned_string(content) }
        },
        ParsedToolCall::MalformedToolCall { raw, error } => {
            let user_message = malformed_feedback(error.as_str());
            LoopAction::Reprompt { assistant_message: to_owned_string(content), user_message }
        },
    }
}

// ---------------------------------------------------------------------------
// Routing a tool call
// ---------------------------------------------------------------------------

/// Where a requested tool runs.
pub enum ToolRoute {
    /// No tool of that name: the text to feed back.
    Missing(String),
    /// An MCP tool, by tool id.
    Mcp(String),
    /// A builtin (or custom) tool run by the backend.
    Builtin,
}

/// The index of the first tool called `name`.
pub open spec fn first_tool_named(tools: Seq<Tool>, name: Seq<char>, from: int) -> Option<int>
    decreases tools.len() - from,
{
    if from < 0 || from >= tools.len() {
        None
    } else if tools[from].name@ == name {
        Some(from)
    } else {
        first_tool_named(tools, name, from + 1)
    }
}

/// The tool found for a name is the first tool of that name; none is found
/// only when no tool has the name.
pub proof fn lemma_first_tool_named(tools: Seq<Tool>, name: Seq<char>, from: int)
    requires
        0 <= from,
    ensures
        match first_tool_named(tools, name, from) {
            Some(i) => from <= i < tools.len() && tools[i].name@ == name && forall|j: int|
                from <= j < i ==> (#[trigger] tools[j]).name@ != name,
            None => forall|j: int| from <= j < tools.len() ==> (#[trigger] tools[j]).name@ != name,
        },
    decreases tools.len() - from,
{
    if from < tools.len() && tools[from].name@ != name {
        lemma_first_tool_named(tools, name, from + 1);
    }
}

/// The names of the tools, in order.
pub open spec fn tool_names(tools: Seq<Tool>) -> Seq<Seq<char>> {
    tools.map_values(|t: Tool| t.name@)
}

/// The text fed back when the model asks for a tool that does not exist.
pub open spec fn missing_tool_text(name: Seq<char>, tools: Seq<Tool>) -> Seq<char> {
    "Tool '"@ + name + "' does not exist. Available tools are: "@ + join_seq(
        tool_names(tools),
        ", "@,
    )
        + ". If you have the information you need, provide your final answer without a JSON tool call block."@
}

/// How a tool call named `name` is routed among `tools`.
pub open spec fn tool_route_spec(r: ToolRoute, tools: Seq<Tool>, name: Seq<char>) -> bool {
    match first_tool_named(tools, name, 0) {
        None => r matches ToolRoute::Missing(m) && m@ == missing_tool_text(name, tools),
        Some(i) => if tools[i].tool_type@ == "mcp"@ {
            r matches ToolRoute::Mcp(id) && id@ == tools[i].id@
        } else {
            r is Builtin
        },
    }
}

/// Routes a tool call by name: an unknown name gets a message listing the
/// available tools; a known MCP tool goes to the MCP manager; any other
/// known tool runs as a builtin.
pub fn route_tool(tools: &Vec<Tool>, tool_name: &str) -> (r: ToolRoute)
    ensures
        tool_route_spec(r, tools@, tool_name@),
{
    let mut i: usize = 0;
    while i < tools.len()
        invariant
            i <= tools.len(),
            first_tool_named(tools@, tool_name@, 0) == first_tool_named(
                tools@,
                tool_name@,
                i as int,
            ),
        decreases tools.len() - i,
    {
        if str_eq(tools[i].name.as_str(), tool_name) {
            if str_eq(tools[i].tool_type.as_str(), "mcp") {
                return ToolRoute::Mcp(tools[i].id.clone());
            } else {
                return ToolRoute::Builtin;
            }
        }
        i = i + 1;
    }
    let mut names: Vec<String> = Vec::new();
    let mut k: usize = 0;
    while k < tools.len()
        invariant
            k <= tools.len(),
            names.len() == k,
            views(names@) == tool_names(tools@).take(k as int),
        decreases tools.len() - k,
    {
        let nm = tools[k].name.clone();
        assert(nm@ == tools@[k as int].name@);
        let ghost before = names@;
        names.push(nm);
        assert forall|j: int| 0 <= j < k + 1 implies #[trigger] views(names@)[j] == tool_names(
            tools@,
        ).take(k + 1)[j] by {
            if j < k {
                assert(names@[j] == before[j]);
                assert(views(before)[j] == tool_names(tools@).take(k as int)[j]);
            }
        }
        assert(views(names@) =~= tool_names(tools@).take(k + 1));
        k = k + 1;
    }
    assert(tool_names(tools@).take(tools.len() as int) =~= tool_names(tools@));
    let mut m = to_owned_string("Tool '");
    push_str(&mut m, tool_name);
    push_str(&mut m, "' does not exist. Available tools are: ");
    let listed = join(&names, ", ");
    push_str(&mut m, listed.as_str());
    push_str(
        &mut m,
        ". If you have the information you need, provide your final answer without a JSON tool call block.",
    );
    ToolRoute::Missing(m)
}

/// Result of running a tool.
#[derive(Clone, Debug)]
pub struct ToolExecutionResult {
    pub content: String,
    pub success: bool,
}

/// The result reported when an MCP tool fails.
pub fn mcp_tool_failure(error: &str) -> (r: ToolExecutionResult)
    ensures
        r.content@ == "MCP tool error: "@ + error@,
        !r.success,
{
    let mut content = to_owned_string("MCP tool error: ");
    push_str(&mut content, error);
    ToolExecutionResult { content, success: false }
}

/// The result reported when a builtin tool fails.
pub fn builtin_tool_failure(tool_name: &str, error: &str) -> (r: ToolExecutionResult)
    ensures
        r.content@ == "Error executing tool '"@ + tool_name@ + "': "@ + error@,
        !r.success,
{
    let mut content = to_owned_string("Error executing tool '");
    push_str(&mut content, tool_name);
    push_str(&mut content, "': ");
    push_str(&mut content, error);
    ToolExecutionResult { content, success: false }
}

} // verus!
