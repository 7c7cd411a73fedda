//! The decisions of the LLM sidecar: message preprocessing for models
//! without system messages, prompt injection of tools for models without
//! native function calling, reading tool calls back out of the model's text,
//! and JSON-RPC request dispatch.
use vstd::prelude::*;
use crate::json_scan::{json_object_prefix, scan_object_end};
use crate::outside::{is_hyphenated_uuid, new_uuid_v4};
use crate::text::{
    ascii_lower, is_ascii_seq, push_chars, chars_of, contains, contains_seq, decimal, find_chars, find_seq, lowercase, push_decimal, push_str, str_eq,
    string_from_chars, to_lowercase, to_owned_string, trim_bounds, trim_seq,
};

verus! {

broadcast use vstd::string::group_string_axioms;

/// A tool call made by the model.
#[derive(Clone, Debug)]
pub struct FunctionCall {
    pub name: String,
    /// JSON text.
    pub arguments: String,
}

/// A tool call from the LLM, as kept in message history.
#[derive(Clone, Debug)]
pub struct ToolCall {
    pub id: String,
    pub function: FunctionCall,
}

/// A chat message sent to the sidecar.
#[derive(Clone, Debug)]
pub struct Message {
    pub role: String,
    pub content: String,
    /// Tool calls made by the assistant (for message history).
    pub tool_calls: Option<Vec<ToolCall>>,
    /// Tool call id (for tool result messages).
    pub tool_call_id: Option<String>,
}

// ---------------------------------------------------------------------------
// Preprocessing: folding system messages into the first user message
// ---------------------------------------------------------------------------

/// One message of the preprocessed list.
pub enum PrepItem {
    /// Input message `i`, passed through unchanged.
    Kept(int),
    /// A fresh user message with this content (and no tool data).
    User(Seq<char>),
}

/// `a`, then a blank line, then `b`.
pub open spec fn paragraphs(a: Seq<char>, b: Seq<char>) -> Seq<char> {
    a + "\n\n"@ + b
}

/// The contents of the system messages among the first `n`, in order and
/// separated by blank lines; `None` when there is none.
pub open spec fn system_text(msgs: Seq<Message>, n: nat) -> Option<Seq<char>>
    decreases n,
{
    if n == 0 || n > msgs.len() {
        None
    } else {
        let prev = system_text(msgs, (n - 1) as nat);
        let m = msgs[n - 1];
        if m.role@ == "system"@ {
            Some(
                match prev {
                    Some(e) => paragraphs(e, m.content@),
                    None => m.content@,
                },
            )
        } else {
            prev
        }
    }
}

/// None of the first `n` messages is a user message.
pub open spec fn no_user_before(msgs: Seq<Message>, n: int) -> bool {
    forall|i: int| 0 <= i < n ==> (#[trigger] msgs[i]).role@ != "user"@
}

/// The preprocessed items of the first `n` messages, where `sys` is the
/// system text to put in front of the first user message: system messages
/// are dropped, user messages are rebuilt, the rest is kept.
pub open spec fn prep_list(msgs: Seq<Message>, n: nat, sys: Option<Seq<char>>) -> Seq<PrepItem>
    decreases n,
{
    if n == 0 || n > msgs.len() {
        Seq::empty()
    } else {
        let out = prep_list(msgs, (n - 1) as nat, sys);
        let m = msgs[n - 1];
        if m.role@ == "system"@ {
            out
        } else if m.role@ == "user"@ {
            out.push(
                PrepItem::User(
                    match sys {
                        Some(s) => if no_user_before(msgs, n - 1) {
                            paragraphs(s, m.content@)
                        } else {
                            m.content@
                        },
                        None => m.content@,
                    },
                ),
            )
        } else {
            out.push(PrepItem::Kept(n - 1))
        }
    }
}

/// The preprocessed list: all system texts, joined by blank lines, go in
/// front of the first user message; where there is system text but no user
/// message, it becomes a user message at the front.
pub open spec fn preprocess_spec(msgs: Seq<Message>) -> Seq<PrepItem> {
    let sys = system_text(msgs, msgs.len());
    let out = prep_list(msgs, msgs.len(), sys);
    match sys {
        Some(s) => if no_user_before(msgs, msgs.len() as int) {
            seq![PrepItem::User(s)] + out
        } else {
            out
        },
        None => out,
    }
}

/// Message `m` is the item `it` of the preprocessed list of `msgs`.
pub open spec fn is_prep_item(m: Message, it: PrepItem, msgs: Seq<Message>) -> bool {
    match it {
        PrepItem::Kept(i) => 0 <= i < msgs.len() && m == msgs[i],
        PrepItem::User(c) => m.role@ == "user"@ && m.content@ == c && m.tool_calls is None
            && m.tool_call_id is None,
    }
}

/// The number of messages among the first `n` that are not system messages.
pub open spec fn non_system_count(msgs: Seq<Message>, n: nat) -> nat
    decreases n,
{
    if n == 0 || n > msgs.len() {
        0
    } else if msgs[n - 1].role@ == "system"@ {
        non_system_count(msgs, (n - 1) as nat)
    } else {
        non_system_count(msgs, (n - 1) as nat) + 1
    }
}

/// Every kept item is a message whose role is neither `system` nor `user`,
/// and there is one item per non-system message.
pub proof fn lemma_prep_list_shape(msgs: Seq<Message>, n: nat, sys: Option<Seq<char>>)
    requires
        n <= msgs.len(),
    ensures
        prep_list(msgs, n, sys).len() == non_system_count(msgs, n),
        forall|k: int|
            0 <= k < prep_list(msgs, n, sys).len() ==> (#[trigger] prep_list(msgs, n, sys)[k] matches PrepItem::Kept(i)
                ==> 0 <= i < msgs.len() && msgs[i].role@ != "system"@),
    decreases n,
{
    if n > 0 {
        lemma_prep_list_shape(msgs, (n - 1) as nat, sys);
    }
}

/// Preprocessing leaves no system message behind.
pub proof fn lemma_preprocess_no_system(msgs: Seq<Message>, out: Seq<Message>)
    requires
        out.len() == preprocess_spec(msgs).len(),
        forall|k: int| 0 <= k < out.len() ==> is_prep_item(out[k], preprocess_spec(msgs)[k], msgs),
    ensures
        forall|k: int| 0 <= k < out.len() ==> (#[trigger] out[k]).role@ != "system"@,
{
    let sys = system_text(msgs, msgs.len());
    lemma_prep_list_shape(msgs, msgs.len(), sys);
    reveal_strlit("user");
    reveal_strlit("system");
    assert("user"@[0] != "system"@[0]);
    let o = prep_list(msgs, msgs.len(), sys);
    assert forall|k: int| 0 <= k < out.len() implies (#[trigger] out[k]).role@ != "system"@ by {
        if sys is Some && no_user_before(msgs, msgs.len() as int) && k > 0 {
            assert(preprocess_spec(msgs)[k] == o[k - 1]);
        }
    }
}

/// Preprocessing gives one message per non-system message, and one more
/// only where there is system text and no user message.
pub proof fn lemma_preprocess_len(msgs: Seq<Message>)
    ensures
        preprocess_spec(msgs).len() == non_system_count(msgs, msgs.len()) + (if system_text(
            msgs,
            msgs.len(),
        ) is Some && no_user_before(msgs, msgs.len() as int) {
            1nat
        } else {
            0nat
        }),
{
    lemma_prep_list_shape(msgs, msgs.len(), system_text(msgs, msgs.len()));
}

/// Reading more messages only adds items after those already there.
proof fn lemma_prep_list_prefix(msgs: Seq<Message>, m: nat, n: nat, sys: Option<Seq<char>>)
    requires
        m <= n <= msgs.len(),
    ensures
        prep_list(msgs, m, sys).len() <= prep_list(msgs, n, sys).len(),
        forall|k: int|
            0 <= k < prep_list(msgs, m, sys).len() ==> #[trigger] prep_list(msgs, n, sys)[k] == prep_list(
                msgs,
                m,
                sys,
            )[k],
    decreases n,
{
    if m < n {
        lemma_prep_list_prefix(msgs, m, (n - 1) as nat, sys);
    }
}

/// The system texts, joined by blank lines, stand in front of the first user
/// message: where message `j` is the first user message and there is system
/// text, the item for message `j` is a user message with that text, a blank
/// line and its content, and one item per earlier non-system message comes
/// before it.
pub proof fn lemma_system_text_in_first_user(msgs: Seq<Message>, j: int)
    requires
        0 <= j < msgs.len(),
        msgs[j].role@ == "user"@,
        no_user_before(msgs, j),
        system_text(msgs, msgs.len()) is Some,
    ensures
        non_system_count(msgs, j as nat) < preprocess_spec(msgs).len(),
        preprocess_spec(msgs)[non_system_count(msgs, j as nat) as int] == PrepItem::User(
            paragraphs(system_text(msgs, msgs.len())->0, msgs[j].content@),
        ),
{
    reveal_strlit("user");
    reveal_strlit("system");
    assert("user"@[0] != "system"@[0]);
    let sys = system_text(msgs, msgs.len());
    lemma_prep_list_shape(msgs, j as nat, sys);
    lemma_prep_list_prefix(msgs, (j + 1) as nat, msgs.len(), sys);
    let c = non_system_count(msgs, j as nat) as int;
    assert(prep_list(msgs, (j + 1) as nat, sys) == prep_list(msgs, j as nat, sys).push(
        PrepItem::User(paragraphs(sys->0, msgs[j].content@)),
    ));
    assert(prep_list(msgs, (j + 1) as nat, sys)[c] == PrepItem::User(paragraphs(sys->0, msgs[j].content@)));
    assert(!no_user_before(msgs, msgs.len() as int));
}

/// A user message with the given content.
fn user_message(content: String) -> (m: Message)
    ensures
        m.role@ == "user"@,
        m.content == content,
        m.tool_calls is None,
        m.tool_call_id is None,
{
    Message { role: to_owned_string("user"), content, tool_calls: None, tool_call_id: None }
}

/// `a`, a blank line, then `b`.
fn join_paragraphs(a: &str, b: &str) -> (r: String)
    ensures
        r@ == paragraphs(a@, b@),
{
    let mut r = to_owned_string(a);
    push_str(&mut r, "\n\n");
    push_str(&mut r, b);
    r
}

/// The system text of all messages: their contents joined by blank lines.
fn collect_system_text(messages: &Vec<Message>) -> (r: Option<String>)
    ensures
        match system_text(messages@, messages@.len()) {
            Some(s) => r matches Some(c) && c@ == s,
            None => r is None,
        },
{
    let mut system_content: Option<String> = None;
    let mut i: usize = 0;
    while i < messages.len()
        invariant
            i <= messages.len(),
            match system_text(messages@, i as nat) {
                Some(s) => system_content matches Some(c) && c@ == s,
                None => system_content is None,
            },
        decreases messages.len() - i,
    {
        let msg = &messages[i];
        if str_eq(msg.role.as_str(), "system") {
            system_content = Some(
                match system_content {
                    Some(existing) => join_paragraphs(existing.as_str(), msg.content.as_str()),
                    None => msg.content.clone(),
                },
            );
        }
        i = i + 1;
    }
    system_content
}

/// Folds system messages into the first user message, for models whose chat
/// template has no system role: the system texts, joined by blank lines, are
/// put in front of the first user message.  Tool results and assistant
/// messages pass through unchanged, in order.
pub fn preprocess_messages(messages: Vec<Message>) -> (r: Vec<Message>)
    ensures
        r.len() == preprocess_spec(messages@).len(),
        forall|k: int|
            0 <= k < r.len() ==> is_prep_item(#[trigger] r@[k], preprocess_spec(messages@)[k], messages@),
        forall|k: int| 0 <= k < r.len() ==> (#[trigger] r@[k]).role@ != "system"@,
{
    let ghost msgs = messages@;
    let system_content = collect_system_text(&messages);
    let ghost sys = system_text(msgs, msgs.len());
    let mut result: Vec<Message> = Vec::new();
    let mut seen_user = false;
    for msg in it: messages
        invariant
            msgs == it.seq(),
            sys == system_text(msgs, msgs.len()),
            match sys {
                Some(s) => system_content matches Some(c) && c@ == s,
                None => system_content is None,
            },
            seen_user == !no_user_before(msgs, it.index() as int),
            result.len() == prep_list(msgs, it.index() as nat, sys).len(),
            forall|k: int|
                0 <= k < result.len() ==> is_prep_item(
                    #[trigger] result@[k],
                    prep_list(msgs, it.index() as nat, sys)[k],
                    msgs,
                ),
    {
        let ghost n = it.index();
        assert(msgs[n as int] == msg);
        proof {
            reveal_strlit("user");
            reveal_strlit("system");
            assert("user"@[0] != "system"@[0]);
        }
        let ghost before = prep_list(msgs, n as nat, sys);
        assert(prep_list(msgs, (n + 1) as nat, sys) == if msg.role@ == "system"@ {
            before
        } else if msg.role@ == "user"@ {
            before.push(
                PrepItem::User(
                    match sys {
                        Some(s) => if no_user_before(msgs, n as int) {
                            paragraphs(s, msg.content@)
                        } else {
                            msg.content@
                        },
                        None => msg.content@,
                    },
                ),
            )
        } else {
            before.push(PrepItem::Kept(n as int))
        });
        if str_eq(msg.role.as_str(), "user") {
            let content = if seen_user {
                msg.content
            } else {
                match &system_content {
                    Some(s) => join_paragraphs(s.as_str(), msg.content.as_str()),
                    None => msg.content,
                }
            };
            result.push(user_message(content));
            seen_user = true;
            proof {
                assert(!no_user_before(msgs, n + 1));
            }
        } else if !str_eq(msg.role.as_str(), "system") {
            result.push(msg);
            proof {
                assert(no_user_before(msgs, n as int) ==> no_user_before(msgs, n + 1));
                assert(!no_user_before(msgs, n as int) ==> !no_user_before(msgs, n + 1));
            }
        } else {
            proof {
                assert(no_user_before(msgs, n as int) ==> no_user_before(msgs, n + 1));
                assert(!no_user_before(msgs, n as int) ==> !no_user_before(msgs, n + 1));
            }
        }
    }
    let ghost out = prep_list(msgs, msgs.len(), sys);
    if !seen_user {
        if let Some(s) = system_content {
            result.insert(0, user_message(s));
            assert forall|k: int|
                0 <= k < result.len() implies is_prep_item(
                #[trigger] result@[k],
                preprocess_spec(msgs)[k],
                msgs,
            ) by {
                if k > 0 {
                    assert(preprocess_spec(msgs)[k] == out[k - 1]);
                }
            }
        }
    }
    proof {
        lemma_preprocess_no_system(msgs, result@);
    }
    result
}

// ---------------------------------------------------------------------------
// Native tool support
// ---------------------------------------------------------------------------

/// Model families whose chat templates support function calling natively.
pub open spec fn native_tool_models() -> Seq<Seq<char>> {
    seq![
        "qwen2.5"@,
        "qwen2"@,
        "qwen"@,
        "hermes"@,
        "mistral"@,
        "mixtral"@,
        "command-r"@,
        "functionary"@,
        "gorilla"@,
        "nexusraven"@,
        "firefunction"@,
    ]
}

/// The lower-cased model name names a family with native tool support.
pub open spec fn names_native_family(lower: Seq<char>) -> bool {
    exists|i: int|
        0 <= i < native_tool_models().len() && contains_seq(lower, #[trigger] native_tool_models()[i])
}

/// The families with native tool calling: a lower-cased model name that
/// contains any of qwen2.5, qwen2, qwen, hermes, mistral, mixtral,
/// command-r, functionary, gorilla, nexusraven or firefunction names one,
/// and a name that contains none of them names none.
pub proof fn lemma_native_families(lower: Seq<char>)
    ensures
        contains_seq(lower, "qwen2.5"@) ==> names_native_family(lower),
        contains_seq(lower, "qwen2"@) ==> names_native_family(lower),
        contains_seq(lower, "qwen"@) ==> names_native_family(lower),
        contains_seq(lower, "hermes"@) ==> names_native_family(lower),
        contains_seq(lower, "mistral"@) ==> names_native_family(lower),
        contains_seq(lower, "mixtral"@) ==> names_native_family(lower),
        contains_seq(lower, "command-r"@) ==> names_native_family(lower),
        contains_seq(lower, "functionary"@) ==> names_native_family(lower),
        contains_seq(lower, "gorilla"@) ==> names_native_family(lower),
        contains_seq(lower, "nexusraven"@) ==> names_native_family(lower),
        contains_seq(lower, "firefunction"@) ==> names_native_family(lower),
        names_native_family(lower) ==> (contains_seq(lower, "qwen2.5"@) || contains_seq(lower, "qwen2"@) || contains_seq(lower, "qwen"@) || contains_seq(lower, "hermes"@) || contains_seq(lower, "mistral"@) || contains_seq(lower, "mixtral"@) || contains_seq(lower, "command-r"@) || contains_seq(lower, "functionary"@) || contains_seq(lower, "gorilla"@) || contains_seq(lower, "nexusraven"@) || contains_seq(lower, "firefunction"@)),
{
    assert(native_tool_models()[0] == "qwen2.5"@);
    assert(native_tool_models()[1] == "qwen2"@);
    assert(native_tool_models()[2] == "qwen"@);
    assert(native_tool_models()[3] == "hermes"@);
    assert(native_tool_models()[4] == "mistral"@);
    assert(native_tool_models()[5] == "mixtral"@);
    assert(native_tool_models()[6] == "command-r"@);
    assert(native_tool_models()[7] == "functionary"@);
    assert(native_tool_models()[8] == "gorilla"@);
    assert(native_tool_models()[9] == "nexusraven"@);
    assert(native_tool_models()[10] == "firefunction"@);
}

/// Entry `i` of the native tool model families.
fn native_tool_model(i: usize) -> (r: &'static str)
    requires
        i < 11,
    ensures
        r@ == native_tool_models()[i as int],
{
    match i {
        0 => "qwen2.5",
        1 => "qwen2",
        2 => "qwen",
        3 => "hermes",
        4 => "mistral",
        5 => "mixtral",
        6 => "command-r",
        7 => "functionary",
        8 => "gorilla",
        9 => "nexusraven",
        _ => "firefunction",
    }
}

/// A model has native tool calling support when its lower-cased name
/// contains one of the known family names.
pub fn has_native_tool_support(model_id: &str) -> (r: bool)
    ensures
        r == names_native_family(lowercase(model_id@)),
        is_ascii_seq(model_id@) ==> r == names_native_family(ascii_lower(model_id@)),
{
    let lower = to_lowercase(model_id);
    let mut i: usize = 0;
    while i < 11
        invariant
            i <= 11,
            lower@ == lowercase(model_id@),
            is_ascii_seq(model_id@) ==> lower@ == ascii_lower(model_id@),
            forall|j: int| 0 <= j < i ==> !contains_seq(lower@, #[trigger] native_tool_models()[j]),
        decreases 11 - i,
    {
        let m = native_tool_model(i);
        if contains(lower.as_str(), m) {
            return true;
        }
        i = i + 1;
    }
    false
}

// ---------------------------------------------------------------------------
// Reading a tool call out of the model's text
// ---------------------------------------------------------------------------

/// The JSON text the model gave for a tool call: the trimmed body of the
/// first ```` ```json ```` block that is closed; otherwise the first complete
/// object that starts with a `"tool_call"` member.
pub open spec fn complete_json_spec(s: Seq<char>) -> Option<Seq<char>> {
    let fenced = match find_seq(s, "```json"@) {
        Some(st) => {
            let after = s.subrange(st + 7, s.len() as int);
            match find_seq(after, "```"@) {
                Some(e) => Some(trim_seq(after.take(e))),
                None => None,
            }
        },
        None => None,
    };
    match fenced {
        Some(x) => Some(x),
        None => match find_seq(s, "{\"tool_call\""@) {
            Some(st) => json_object_prefix(s.subrange(st, s.len() as int)),
            None => None,
        },
    }
}

/// Finds the JSON text of a tool call in the model's response.
pub fn find_complete_json(s: &str) -> (r: Option<String>)
    ensures
        r matches Some(x) ==> complete_json_spec(s@) == Some(x@),
        r is None ==> complete_json_spec(s@) is None,
{
    let cs = chars_of(s);
    let fence = chars_of("```json");
    let close = chars_of("```");
    proof {
        reveal_strlit("```json");
    }
    if let Some(start) = find_chars(&cs, &fence) {
        proof {
            crate::text::lemma_find_from(cs@, fence@, 0);
        }
        let after = string_from_chars(&cs, start + 7, cs.len());
        let after_cs = chars_of(after.as_str());
        if let Some(end) = find_chars(&after_cs, &close) {
            proof {
                crate::text::lemma_find_from(after_cs@, close@, 0);
            }
            let (a, b) = trim_bounds_prefix(&after_cs, end);
            return Some(string_from_chars(&after_cs, a, b));
        }
    }
    let marker = chars_of("{\"tool_call\"");
    if let Some(start) = find_chars(&cs, &marker) {
        proof {
            crate::text::lemma_find_from(cs@, marker@, 0);
        }
        return match scan_object_end(&cs, start) {
            Some(e) => {
                let ghost t = cs@.subrange(start as int, cs.len() as int);
                assert(t.take(e - start) == cs@.subrange(start as int, e as int));
                Some(string_from_chars(&cs, start, e))
            },
            None => None,
        };
    }
    None
}

/// The trimmed bounds of `cs[..end]`.
fn trim_bounds_prefix(cs: &Vec<char>, end: usize) -> (r: (usize, usize))
    requires
        end <= cs.len(),
    ensures
        r.0 <= r.1 <= end,
        cs@.subrange(r.0 as int, r.1 as int) == trim_seq(cs@.take(end as int)),
{
    let mut head: Vec<char> = Vec::new();
    let mut i: usize = 0;
    while i < end
        invariant
            i <= end <= cs.len(),
            head@ == cs@.take(i as int),
        decreases end - i,
    {
        head.push(cs[i]);
        i = i + 1;
        assert(head@ =~= cs@.take(i as int));
    }
    let (a, b) = trim_bounds(&head);
    assert(cs@.subrange(a as int, b as int) =~= head@.subrange(a as int, b as int));
    (a, b)
}

// ---------------------------------------------------------------------------
// Prompt injection of tools
// ---------------------------------------------------------------------------

/// A tool definition passed to the LLM.
pub struct ToolDefinition {
    pub name: String,
    pub description: String,
    /// The parameter schema, as JSON text.
    pub parameters: String,
}

/// The text in front of the tool list.
pub open spec fn tools_prompt_head() -> Seq<char> {
    "\n\n=== IMPORTANT: AVAILABLE TOOLS ===\nYou MUST use a tool when the user asks for data or information you don't have.\n\n"@
}

/// The text after the tool list.
pub open spec fn tools_prompt_tail() -> Seq<char> {
    "=== HOW TO USE TOOLS ===\nWhen you need to use a tool, respond with ONLY this JSON (nothing else before or after):\n```json\n{\"tool_call\": {\"name\": \"tool_name\", \"arguments\": {\"arg1\": \"value1\"}}}\n```\n\nDO NOT explain. DO NOT add text around it. ONLY output the JSON block if using a tool.\nIf you don't need a tool, respond normally."@
}

/// The lines describing one tool: name, description, parameter schema text.
pub open spec fn tool_entry_text(e: (Seq<char>, Seq<char>, Seq<char>)) -> Seq<char> {
    "TOOL: "@ + e.0 + "\n"@ + "Description: "@ + e.1 + "\n"@ + "Parameters: "@ + e.2 + "\n\n"@
}

/// The lines describing the tools, in order.
pub open spec fn tool_entries_text(es: Seq<(Seq<char>, Seq<char>, Seq<char>)>) -> Seq<char>
    decreases es.len(),
{
    if es.len() == 0 {
        Seq::empty()
    } else {
        tool_entries_text(es.drop_last()) + tool_entry_text(es.last())
    }
}

/// The tool prompt for tools described by `es`.
pub open spec fn tools_prompt_text(es: Seq<(Seq<char>, Seq<char>, Seq<char>)>) -> Seq<char> {
    tools_prompt_head() + tool_entries_text(es) + tools_prompt_tail()
}

/// The descriptions of `tools`, with `params[i]` the schema text of tool `i`.
pub open spec fn tool_entries(tools: Seq<ToolDefinition>, params: Seq<Seq<char>>) -> Seq<
    (Seq<char>, Seq<char>, Seq<char>),
> {
    Seq::new(tools.len(), |i: int| (tools[i].name@, tools[i].description@, params[i]))
}

/// What `serde_json` gives for the JSON text `t`: parsed, then written back
/// indented (`serde_json::to_string_pretty`); `None` when the text does not
/// parse or cannot be written.
pub uninterp spec fn json_pretty_text(t: Seq<char>) -> Option<Seq<char>>;

/// Parses JSON text (`serde_json::from_str`) and writes it back indented
/// (`serde_json::to_string_pretty`).
#[verifier::external_body]
fn pretty_json(text: &str) -> (r: Option<String>)
    ensures
        r matches Some(p) ==> json_pretty_text(text@) == Some(p@),
        r is None ==> json_pretty_text(text@) is None,
{
    let v: serde_json::Value = serde_json::from_str(text).ok()?;
    serde_json::to_string_pretty(&v).ok()
}

/// The schema text shown for each tool: its indented JSON, or `{}`.
pub open spec fn schema_texts(tools: Seq<ToolDefinition>) -> Seq<Seq<char>> {
    Seq::new(
        tools.len(),
        |i: int|
            match json_pretty_text(tools[i].parameters@) {
                Some(t) => t,
                None => "{}"@,
            },
    )
}

/// The tool prompt for tools given as (name, description, schema text).
pub fn tools_prompt(entries: &Vec<(String, String, String)>) -> (r: String)
    ensures
        r@ == tools_prompt_text(entries@.map_values(|e: (String, String, String)| (e.0@, e.1@, e.2@))),
{
    let ghost es = entries@.map_values(|e: (String, String, String)| (e.0@, e.1@, e.2@));
    let mut r = to_owned_string(
        "\n\n=== IMPORTANT: AVAILABLE TOOLS ===\nYou MUST use a tool when the user asks for data or information you don't have.\n\n",
    );
    let mut i: usize = 0;
    while i < entries.len()
        invariant
            i <= entries.len(),
            es == entries@.map_values(|e: (String, String, String)| (e.0@, e.1@, e.2@)),
            r@ == tools_prompt_head() + tool_entries_text(es.take(i as int)),
        decreases entries.len() - i,
    {
        let ghost before = r@;
        push_str(&mut r, "TOOL: ");
        push_str(&mut r, entries[i].0.as_str());
        push_str(&mut r, "\n");
        push_str(&mut r, "Description: ");
        push_str(&mut r, entries[i].1.as_str());
        push_str(&mut r, "\n");
        push_str(&mut r, "Parameters: ");
        push_str(&mut r, entries[i].2.as_str());
        push_str(&mut r, "\n\n");
        assert(es.take(i + 1).drop_last() == es.take(i as int));
        assert(es.take(i + 1).last() == es[i as int]);
        assert(r@ =~= before + tool_entry_text(es[i as int]));
        i = i + 1;
    }
    assert(es.take(entries.len() as int) == es);
    push_str(
        &mut r,
        "=== HOW TO USE TOOLS ===\nWhen you need to use a tool, respond with ONLY this JSON (nothing else before or after):\n```json\n{\"tool_call\": {\"name\": \"tool_name\", \"arguments\": {\"arg1\": \"value1\"}}}\n```\n\nDO NOT explain. DO NOT add text around it. ONLY output the JSON block if using a tool.\nIf you don't need a tool, respond normally.",
    );
    r
}

/// Formats tools as a prompt for models without native tool support.  The
/// schema text of each tool is its pretty-printed JSON (or `{}`).
pub fn format_tools_for_prompt(tools: &Vec<ToolDefinition>) -> (r: String)
    ensures
        r@ == tools_prompt_text(tool_entries(tools@, schema_texts(tools@))),
{
    let mut entries: Vec<(String, String, String)> = Vec::new();
    let ghost mut params: Seq<Seq<char>> = Seq::empty();
    let mut i: usize = 0;
    while i < tools.len()
        invariant
            i <= tools.len(),
            entries.len() == i,
            params.len() == i,
            forall|j: int|
                0 <= j < i ==> (#[trigger] entries@[j]).0@ == tools@[j].name@ && entries@[j].1@
                    == tools@[j].description@ && entries@[j].2@ == params[j],
            forall|j: int| 0 <= j < i ==> #[trigger] params[j] == schema_texts(tools@)[j],
        decreases tools.len() - i,
    {
        let text = match pretty_json(tools[i].parameters.as_str()) {
            Some(t) => t,
            None => to_owned_string("{}"),
        };
        proof {
            params = params.push(text@);
        }
        entries.push(
            (to_owned_string(tools[i].name.as_str()), to_owned_string(tools[i].description.as_str()), text),
        );
        i = i + 1;
    }
    let r = tools_prompt(&entries);
    assert(params =~= schema_texts(tools@));
    assert(entries@.map_values(|e: (String, String, String)| (e.0@, e.1@, e.2@)) =~= tool_entries(
        tools@,
        params,
    ));
    r
}

/// The messages once `prompt` is added: appended to the first system
/// message, or as a new system message in front when there is none.
pub open spec fn injected(msgs: Seq<Message>, out: Seq<Message>, prompt: Seq<char>) -> bool {
    match first_system(msgs, 0) {
        Some(i) => out.len() == msgs.len() && (forall|j: int|
            0 <= j < msgs.len() && j != i ==> out[j] == #[trigger] msgs[j]) && out[i].role
            == msgs[i].role && out[i].content@ == msgs[i].content@ + prompt && out[i].tool_calls
            == msgs[i].tool_calls && out[i].tool_call_id == msgs[i].tool_call_id,
        None => out.len() == msgs.len() + 1 && out[0].role@ == "system"@ && out[0].content@
            == prompt && out[0].tool_calls is None && out[0].tool_call_id is None && out.drop_first()
            == msgs,
    }
}

/// The index of the first system message at or after `from`.
pub open spec fn first_system(msgs: Seq<Message>, from: int) -> Option<int>
    decreases msgs.len() - from,
{
    if from < 0 || from >= msgs.len() {
        None
    } else if msgs[from].role@ == "system"@ {
        Some(from)
    } else {
        first_system(msgs, from + 1)
    }
}

/// Adds a tool prompt to the messages: appended to the first system message
/// (after the transcript, close to the user message), or as a new system
/// message in front.
pub fn inject_tool_prompt(messages: &mut Vec<Message>, tool_prompt: String)
    ensures
        injected(old(messages)@, final(messages)@, tool_prompt@),
{
    let mut i: usize = 0;
    while i < messages.len()
        invariant
            i <= messages.len(),
            messages@ == old(messages)@,
            first_system(messages@, 0) == first_system(messages@, i as int),
        decreases messages.len() - i,
    {
        if str_eq(messages[i].role.as_str(), "system") {
            let m = messages.remove(i);
            let mut content = m.content;
            push_str(&mut content, tool_prompt.as_str());
            let updated = Message {
                role: m.role,
                content,
                tool_calls: m.tool_calls,
                tool_call_id: m.tool_call_id,
            };
            messages.insert(i, updated);
            return;
        }
        i = i + 1;
    }
    let m = Message {
        role: to_owned_string("system"),
        content: tool_prompt,
        tool_calls: None,
        tool_call_id: None,
    };
    messages.insert(0, m);
    assert(messages@.drop_first() =~= old(messages)@);
}

/// Injects tool definitions into the messages, for models without native
/// tool support; nothing changes when there are no tools.
pub fn inject_tools_into_messages(messages: &mut Vec<Message>, tools: &Vec<ToolDefinition>)
    ensures
        tools.len() == 0 ==> final(messages)@ == old(messages)@,
        tools.len() > 0 ==> injected(
            old(messages)@,
            final(messages)@,
            tools_prompt_text(tool_entries(tools@, schema_texts(tools@))),
        ),
{
    if tools.len() == 0 {
        return;
    }
    let prompt = format_tools_for_prompt(tools);
    let ghost p = prompt@;
    inject_tool_prompt(messages, prompt);
}

// ---------------------------------------------------------------------------
// Tool calls parsed from text
// ---------------------------------------------------------------------------

/// The id given to a tool call read from text: `call_` and the first 24
/// hexadecimal digits of the UUID `u` (its hyphens dropped).
pub open spec fn call_id_from_uuid(u: Seq<char>) -> Seq<char> {
    "call_"@ + u.subrange(0, 8) + u.subrange(9, 13) + u.subrange(14, 18) + u.subrange(19, 23)
        + u.subrange(24, 28)
}

/// A fresh tool call id.
fn new_call_id() -> (r: String)
    ensures
        exists|u: Seq<char>| is_hyphenated_uuid(u) && r@ == call_id_from_uuid(u),
{
    let u = new_uuid_v4();
    let cs = chars_of(u.as_str());
    let mut r = to_owned_string("call_");
    push_chars(&mut r, &cs, 0, 8);
    push_chars(&mut r, &cs, 9, 13);
    push_chars(&mut r, &cs, 14, 18);
    push_chars(&mut r, &cs, 19, 23);
    push_chars(&mut r, &cs, 24, 28);
    r
}

/// A tool call written in the model's text as
/// `{"tool_call": {"name": .., "arguments": ..}}`, with its arguments as JSON
/// text.
pub struct TextToolCall {
    pub name: String,
    pub arguments: String,
}

/// The call read from the model's text is the one tool call `c`, with a
/// fresh id.
pub open spec fn is_text_call(c: ToolCall, t: TextToolCall) -> bool {
    &&& c.function.name@ == t.name@
    &&& c.function.arguments@ == t.arguments@
    &&& exists|u: Seq<char>| is_hyphenated_uuid(u) && c.id@ == call_id_from_uuid(u)
}

/// The tool calls for what was read from the model's text, for models
/// without native tool support: none, or the one call, with a fresh id.
pub fn tool_calls_from_text(read: Option<TextToolCall>) -> (r: Vec<ToolCall>)
    ensures
        match read {
            None => r.len() == 0,
            Some(t) => r.len() == 1 && is_text_call(r@[0], t),
        },
{
    let mut tool_calls: Vec<ToolCall> = Vec::new();
    if let Some(t) = read {
        tool_calls.push(ToolCall { id: new_call_id(), function: FunctionCall { name: t.name, arguments: t.arguments } });
    }
    tool_calls
}

// ---------------------------------------------------------------------------
// Request handling
// ---------------------------------------------------------------------------

/// Default `max_tokens` of a completion request.
pub fn default_max_tokens() -> (r: u32)
    ensures
        r == 512,
{
    512
}

/// Default tool choice of a completion request.
pub fn default_tool_choice() -> (r: String)
    ensures
        r@ == "auto"@,
{
    to_owned_string("auto")
}

/// The tool choice passed to the engine.
#[derive(Clone, Copy, Debug, PartialEq, Eq, Structural)]
pub enum ToolChoiceKind {
    /// No tool calls (`"none"`).
    Off,
    /// The model decides.
    Auto,
}

/// `"none"` turns tool calling off; anything else (including `"required"`,
/// which the engine lacks) means automatic.
pub fn parse_tool_choice(choice: &str) -> (r: ToolChoiceKind)
    ensures
        r == (if choice@ == "none"@ {
            ToolChoiceKind::Off
        } else {
            ToolChoiceKind::Auto
        }),
{
    if str_eq(choice, "none") {
        ToolChoiceKind::Off
    } else {
        ToolChoiceKind::Auto
    }
}

/// How tools reach the model: natively, through the prompt, or not at all.
#[derive(Clone, Copy, Debug, PartialEq, Eq, Structural)]
pub struct ToolMode {
    pub use_native_tools: bool,
    pub use_prompt_injection: bool,
}

/// Tools go natively to models that support it, and through the prompt to
/// the others; without tools, neither.
pub fn tool_mode(tools: &Option<Vec<ToolDefinition>>, model_id: &str) -> (r: ToolMode)
    ensures
        ({
            let has_tools = tools matches Some(t) && t.len() > 0;
            let native = names_native_family(lowercase(model_id@));
            &&& r.use_native_tools == (has_tools && native)
            &&& r.use_prompt_injection == (has_tools && !native)
        }),
{
    let has_tools = match tools {
        Some(t) => t.len() > 0,
        None => false,
    };
    if !has_tools {
        return ToolMode { use_native_tools: false, use_prompt_injection: false };
    }
    let native = has_native_tool_support(model_id);
    ToolMode { use_native_tools: native, use_prompt_injection: !native }
}

/// The model a completion runs on: the loaded model's id, `unknown` when it
/// has none; a completion with no model loaded fails with `No model loaded`.
pub fn completion_model(model_loaded: bool, model_id: &Option<String>) -> (r: Result<String, String>)
    ensures
        !model_loaded ==> (r matches Err(e) && e@ == "No model loaded"@),
        model_loaded ==> (r matches Ok(m) && m@ == match model_id {
            Some(i) => i@,
            None => "unknown"@,
        }),
{
    if !model_loaded {
        return Err(to_owned_string("No model loaded"));
    }
    match model_id {
        Some(i) => Ok(to_owned_string(i.as_str())),
        None => Ok(to_owned_string("unknown")),
    }
}

/// The finish reason reported for a completion.
pub fn finish_reason(has_tool_calls: bool) -> (r: &'static str)
    ensures
        r@ == (if has_tool_calls {
            "tool_calls"@
        } else {
            "stop"@
        }),
{
    if has_tool_calls {
        "tool_calls"
    } else {
        "stop"
    }
}

/// A JSON-RPC error.
pub struct JsonRpcError {
    pub code: i32,
    pub message: String,
}

/// A JSON-RPC response.
pub struct JsonRpcResponse {
    pub jsonrpc: String,
    pub id: u64,
    /// The result, as JSON text.
    pub result: Option<String>,
    pub error: Option<JsonRpcError>,
}

impl JsonRpcResponse {
    /// A successful response carrying `result` (JSON text).
    pub fn success(id: u64, result: String) -> (r: Self)
        ensures
            r.jsonrpc@ == "2.0"@,
            r.id == id,
            r.result == Some(result),
            r.error is None,
    {
        JsonRpcResponse { jsonrpc: to_owned_string("2.0"), id, result: Some(result), error: None }
    }

    /// An error response.
    pub fn error(id: u64, code: i32, message: String) -> (r: Self)
        ensures
            r.jsonrpc@ == "2.0"@,
            r.id == id,
            r.result is None,
            r.error matches Some(e) && e.code == code && e.message == message,
    {
        JsonRpcResponse {
            jsonrpc: to_owned_string("2.0"),
            id,
            result: None,
            error: Some(JsonRpcError { code, message }),
        }
    }
}

/// The methods the sidecar answers.
#[derive(Clone, Copy, Debug, PartialEq, Eq, Structural)]
pub enum RpcMethod {
    Initialize,
    ListModels,
    Complete,
    CurrentModel,
    IsReady,
    Shutdown,
    Unknown,
}

/// The method named by `m`.
pub open spec fn rpc_method_spec(m: Seq<char>) -> RpcMethod {
    if m == "initialize"@ {
        RpcMethod::Initialize
    } else if m == "list_models"@ {
        RpcMethod::ListModels
    } else if m == "complete"@ {
        RpcMethod::Complete
    } else if m == "current_model"@ {
        RpcMethod::CurrentModel
    } else if m == "is_ready"@ {
        RpcMethod::IsReady
    } else if m == "shutdown"@ {
        RpcMethod::Shutdown
    } else {
        RpcMethod::Unknown
    }
}

/// Reads the method of a request.
pub fn parse_method(method: &str) -> (r: RpcMethod)
    ensures
        r == rpc_method_spec(method@),
{
    if str_eq(method, "initialize") {
        RpcMethod::Initialize
    } else if str_eq(method, "list_models") {
        RpcMethod::ListModels
    } else if str_eq(method, "complete") {
        RpcMethod::Complete
    } else if str_eq(method, "current_model") {
        RpcMethod::CurrentModel
    } else if str_eq(method, "is_ready") {
        RpcMethod::IsReady
    } else if str_eq(method, "shutdown") {
        RpcMethod::Shutdown
    } else {
        RpcMethod::Unknown
    }
}

/// The error text for a method the sidecar does not know.
pub fn unknown_method_message(method: &str) -> (r: String)
    ensures
        r@ == "Unknown method: "@ + method@,
{
    let mut r = to_owned_string("Unknown method: ");
    push_str(&mut r, method);
    r
}

/// The error text for request parameters that do not parse.
pub fn invalid_params_message(error: &str) -> (r: String)
    ensures
        r@ == "Invalid params: "@ + error@,
{
    let mut r = to_owned_string("Invalid params: ");
    push_str(&mut r, error);
    r
}

/// The response to a handled request: the result (JSON text), or error
/// `-32000` with the handler's message.
pub fn response_for(id: u64, outcome: Result<String, String>) -> (r: JsonRpcResponse)
    ensures
        r.id == id,
        r.jsonrpc@ == "2.0"@,
        match outcome {
            Ok(v) => r.result == Some(v) && r.error is None,
            Err(m) => r.result is None && (r.error matches Some(e) && e.code == -32000 && e.message
                == m),
        },
{
    match outcome {
        Ok(value) => JsonRpcResponse::success(id, value),
        Err(message) => JsonRpcResponse::error(id, -32000, message),
    }
}

/// The response to a request line that is not valid JSON-RPC: error
/// `-32700` with id `0`.
pub fn parse_error_response(error: &str) -> (r: JsonRpcResponse)
    ensures
        r.id == 0,
        r.result is None,
        r.error matches Some(e) && e.code == -32700 && e.message@ == "Parse error: "@ + error@,
{
    let mut message = to_owned_string("Parse error: ");
    push_str(&mut message, error);
    JsonRpcResponse::error(0, -32700, message)
}

/// The smallest file taken for a model, in bytes.
pub const MIN_MODEL_FILE_BYTES: u64 = 10_000_000;

/// A model file under 10 MB is refused as not a valid GGUF model.
pub fn check_model_file_size(size: u64) -> (r: Result<(), String>)
    ensures
        size >= MIN_MODEL_FILE_BYTES <==> r is Ok,
        r matches Err(e) ==> e@ == "Model file too small ("@ + decimal(size as nat)
            + " bytes), likely not a valid GGUF model"@,
{
    if size < MIN_MODEL_FILE_BYTES {
        let mut e = to_owned_string("Model file too small (");
        push_decimal(&mut e, size);
        push_str(&mut e, " bytes), likely not a valid GGUF model");
        return Err(e);
    }
    Ok(())
}

/// How a message is handed to the engine.
#[derive(Clone, Copy, Debug, PartialEq, Eq, Structural)]
pub enum MessageKind {
    User,
    Assistant,
    /// An assistant message with the tool calls it made.
    AssistantWithToolCalls,
    /// A tool result for the call it answers.
    ToolResult,
    /// A tool result that names no call: left out.
    Skipped,
}

/// The kind of a message by its role: `user`, `assistant` (with its tool
/// calls when it has them) and `tool` (left out without a call id); any other
/// role is sent as the user's.
pub open spec fn message_kind_spec(m: Message) -> MessageKind {
    if m.role@ == "assistant"@ {
        if m.tool_calls is Some {
            MessageKind::AssistantWithToolCalls
        } else {
            MessageKind::Assistant
        }
    } else if m.role@ == "tool"@ {
        if m.tool_call_id is Some {
            MessageKind::ToolResult
        } else {
            MessageKind::Skipped
        }
    } else {
        MessageKind::User
    }
}

pub fn message_kind(m: &Message) -> (r: MessageKind)
    ensures
        r == message_kind_spec(*m),
{
    if str_eq(m.role.as_str(), "assistant") {
        if m.tool_calls.is_some() {
            MessageKind::AssistantWithToolCalls
        } else {
            MessageKind::Assistant
        }
    } else if str_eq(m.role.as_str(), "tool") {
        if m.tool_call_id.is_some() {
            MessageKind::ToolResult
        } else {
            MessageKind::Skipped
        }
    } else {
        MessageKind::User
    }
}

/// The tool calls a streamed completion reports: those the engine gave; when
/// it gave none and tools went through the prompt, the call read from the
/// text, if any, with a fresh id.
pub fn streamed_tool_calls(
    engine_calls: Vec<ToolCall>,
    use_prompt_injection: bool,
    read: Option<TextToolCall>,
) -> (r: Vec<ToolCall>)
    ensures
        engine_calls.len() > 0 || !use_prompt_injection ==> r == engine_calls,
        engine_calls.len() == 0 && use_prompt_injection ==> match read {
            None => r.len() == 0,
            Some(t) => r.len() == 1 && is_text_call(r@[0], t),
        },
{
    if engine_calls.len() == 0 && use_prompt_injection {
        let parsed = tool_calls_from_text(read);
        if parsed.len() > 0 {
            return parsed;
        }
    }
    engine_calls
}

/// The tool calls a non-streamed completion reports: those the engine gave;
/// when it gave none and tools went through the prompt, the call read from
/// the text, if any, with a fresh id.
pub fn returned_tool_calls(
    engine_calls: Option<Vec<ToolCall>>,
    use_prompt_injection: bool,
    read: Option<TextToolCall>,
) -> (r: Option<Vec<ToolCall>>)
    ensures
        engine_calls is Some || !use_prompt_injection ==> r == engine_calls,
        engine_calls is None && use_prompt_injection ==> match read {
            None => r is None,
            Some(t) => r matches Some(v) && v.len() == 1 && is_text_call(v@[0], t),
        },
{
    if engine_calls.is_none() && use_prompt_injection {
        let parsed = tool_calls_from_text(read);
        if parsed.len() > 0 {
            return Some(parsed);
        }
    }
    engine_calls
}

/// A model file offered to the user.
pub struct ModelInfo {
    pub id: String,
    pub name: String,
    pub size_bytes: u64,
    pub is_loaded: bool,
}

/// Only `.gguf` files are models.
pub fn is_model_file_extension(extension: &Option<String>) -> (r: bool)
    ensures
        r <==> (extension matches Some(e) && e@ == "gguf"@),
{
    match extension {
        Some(e) => str_eq(e.as_str(), "gguf"),
        None => false,
    }
}

/// The entry for a model file: named by its file stem, loaded when that is
/// the id of the model in memory.
pub fn model_info(stem: &str, size_bytes: u64, loaded_id: &Option<String>) -> (r: ModelInfo)
    ensures
        r.id@ == stem@,
        r.name@ == stem@,
        r.size_bytes == size_bytes,
        r.is_loaded <==> (loaded_id matches Some(l) && l@ == stem@),
{
    let is_loaded = match loaded_id {
        Some(l) => str_eq(l.as_str(), stem),
        None => false,
    };
    ModelInfo { id: to_owned_string(stem), name: to_owned_string(stem), size_bytes, is_loaded }
}

} // verus!
