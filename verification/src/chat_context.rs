//! What a chat completion is built from and how it proceeds: the transcript
//! context and system prompt given to the model, the conversation history
//! replayed to it, the choice between native and simulated tool calling, when
//! the native tool loop goes on, and the messages a new exchange creates.
use vstd::prelude::*;
use crate::models::{ChatMessage, ChatMessageStatus, ChatMessageStatus2, ChatRole, ChatSession, Tool, holds_text};
use crate::outside::is_hyphenated_uuid;
use crate::text::{join_seq, push_str, str_eq, to_owned_string};
use crate::tool_calls::first_tool_named;

verus! {

broadcast use vstd::string::group_string_axioms;

/// One transcript segment as the chat context shows it.
#[derive(Clone, Debug)]
pub struct TranscriptLine {
    pub display_time: String,
    pub speaker_label: Option<String>,
    pub text: String,
}

/// `[time] speaker: text`, with `Unknown` for a segment without a speaker.
pub open spec fn transcript_line_text(l: TranscriptLine) -> Seq<char> {
    "["@ + l.display_time@ + "] "@ + (match l.speaker_label {
        Some(s) => s@,
        None => "Unknown"@,
    }) + ": "@ + l.text@
}

/// The transcript text given to the model: one line per segment, or a note
/// that there is no transcript.
pub open spec fn transcript_context_text(lines: Seq<TranscriptLine>) -> Seq<char> {
    if lines.len() == 0 {
        "No transcript available for this recording."@
    } else {
        join_seq(lines.map_values(|l: TranscriptLine| transcript_line_text(l)), "\n"@)
    }
}

/// The text of a transcript line.
pub fn transcript_line(l: &TranscriptLine) -> (r: String)
    ensures
        r@ == transcript_line_text(*l),
{
    let mut r = to_owned_string("[");
    push_str(&mut r, l.display_time.as_str());
    push_str(&mut r, "] ");
    match &l.speaker_label {
        Some(s) => push_str(&mut r, s.as_str()),
        None => push_str(&mut r, "Unknown"),
    }
    push_str(&mut r, ": ");
    push_str(&mut r, l.text.as_str());
    r
}

/// The transcript context of a recording.
pub fn transcript_context(lines: &Vec<TranscriptLine>) -> (r: String)
    ensures
        r@ == transcript_context_text(lines@),
{
    if lines.len() == 0 {
        return to_owned_string("No transcript available for this recording.");
    }
    let ghost parts = lines@.map_values(|l: TranscriptLine| transcript_line_text(l));
    let mut r = String::new();
    let mut i: usize = 0;
    while i < lines.len()
        invariant
            i <= lines.len(),
            parts == lines@.map_values(|l: TranscriptLine| transcript_line_text(l)),
            r@ == join_seq(parts.take(i as int), "\n"@),
        decreases lines.len() - i,
    {
        if i != 0 {
            push_str(&mut r, "\n");
        }
        let line = transcript_line(&lines[i]);
        push_str(&mut r, line.as_str());
        proof {
            assert(parts.take(i + 1).drop_last() =~= parts.take(i as int));
        }
        i = i + 1;
    }
    proof {
        assert(parts.take(lines.len() as int) =~= parts);
    }
    r
}

/// The system prompt around the transcript text.
pub open spec fn system_prompt_text(transcript: Seq<char>) -> Seq<char> {
    "You are a helpful assistant analyzing a meeting transcript. Answer questions about the meeting based on the transcript below.\n\nTRANSCRIPT:\n"@
        + transcript + "\n\nProvide clear, concise answers based on the transcript content."@
}

/// The system prompt for a transcript text.
pub fn system_prompt(transcript: &str) -> (r: String)
    ensures
        r@ == system_prompt_text(transcript@),
{
    let mut r = to_owned_string(
        "You are a helpful assistant analyzing a meeting transcript. Answer questions about the meeting based on the transcript below.\n\nTRANSCRIPT:\n",
    );
    push_str(&mut r, transcript);
    push_str(&mut r, "\n\nProvide clear, concise answers based on the transcript content.");
    r
}

/// A message handed to the model.
#[derive(Clone, Debug)]
pub struct PromptMessage {
    pub role: ChatRole,
    pub content: String,
}

/// Whether a stored message is replayed to the model: finished (neither
/// pending nor streaming) and from the user or the assistant.
pub open spec fn replayed(m: ChatMessage) -> bool {
    m.status != ChatMessageStatus::Pending && m.status != ChatMessageStatus::Streaming && m.role
        != ChatRole::System
}

/// The conversation replayed to the model from the stored messages, in order.
pub open spec fn history_spec(ms: Seq<ChatMessage>) -> Seq<(ChatRole, Seq<char>)>
    decreases ms.len(),
{
    if ms.len() == 0 {
        Seq::empty()
    } else {
        history_spec(ms.drop_last()) + (if replayed(ms.last()) {
            seq![(ms.last().role, ms.last().content@)]
        } else {
            Seq::empty()
        })
    }
}

/// The conversation replayed to the model is the stored messages, in order,
/// that are neither pending nor streaming and not system messages, each as
/// its role and content.
pub proof fn lemma_history_replays_finished_messages(ms: Seq<ChatMessage>)
    ensures
        history_spec(ms) == ms.filter_map(
            |m: ChatMessage|
                if m.status != ChatMessageStatus::Pending && m.status != ChatMessageStatus::Streaming
                    && m.role != ChatRole::System {
                    Some((m.role, m.content@))
                } else {
                    None
                },
        ),
    decreases ms.len(),
{
    if ms.len() > 0 {
        lemma_history_replays_finished_messages(ms.drop_last());
    }
}

/// The roles and texts of prompt messages.
pub open spec fn prompt_views(ps: Seq<PromptMessage>) -> Seq<(ChatRole, Seq<char>)> {
    ps.map_values(|p: PromptMessage| (p.role, p.content@))
}

/// The messages given to the model: the system prompt over the transcript,
/// then the replayed conversation.
pub fn build_prompt_messages(lines: &Vec<TranscriptLine>, history: &Vec<ChatMessage>) -> (r: Vec<
    PromptMessage,
>)
    ensures
        prompt_views(r@) == seq![(ChatRole::System, system_prompt_text(transcript_context_text(lines@)))]
            + history_spec(history@),
{
    let context = transcript_context(lines);
    let mut r: Vec<PromptMessage> = Vec::new();
    r.push(PromptMessage { role: ChatRole::System, content: system_prompt(context.as_str()) });
    let ghost head = prompt_views(r@);
    let mut i: usize = 0;
    while i < history.len()
        invariant
            i <= history.len(),
            prompt_views(r@) == head + history_spec(history@.take(i as int)),
        decreases history.len() - i,
    {
        let m = &history[i];
        let ghost before = r@;
        proof {
            assert(history@.take(i + 1).drop_last() =~= history@.take(i as int));
        }
        let keep = match m.status {
            ChatMessageStatus::Pending => false,
            ChatMessageStatus::Streaming => false,
            _ => match m.role {
                ChatRole::System => false,
                _ => true,
            },
        };
        if keep {
            r.push(PromptMessage { role: m.role, content: m.content.clone() });
            proof {
                assert(prompt_views(r@) =~= prompt_views(before).push((m.role, m.content@)));
            }
        } else {
            proof {
                assert(history_spec(history@.take(i + 1)) =~= history_spec(history@.take(i as int)));
            }
        }
        i = i + 1;
    }
    proof {
        assert(history@.take(history.len() as int) =~= history@);
    }
    r
}

/// How a completion is run.
#[derive(Clone, Copy, Debug, PartialEq, Eq, Structural)]
pub enum CompletionMode {
    /// Tools described in the prompt and called through JSON blocks in the
    /// model's text, for models without native tool calling.
    SimulatedTools,
    /// A streamed completion, with native tool calls when tools are given.
    Streaming,
}

/// Simulated tool calling is used exactly when tools are selected and the
/// model has no native tool support.
pub fn completion_mode(has_tools: bool, native_tool_support: bool) -> (r: CompletionMode)
    ensures
        r == CompletionMode::SimulatedTools <==> (has_tools && !native_tool_support),
{
    if has_tools && !native_tool_support {
        CompletionMode::SimulatedTools
    } else {
        CompletionMode::Streaming
    }
}

/// The most rounds of native tool calls in one completion.
pub const MAX_TOOL_ITERATIONS: usize = 10;

/// Whether the native tool loop runs another round: the model asked for at
/// least one tool and fewer than the maximum rounds have run.
pub fn continue_native_tool_loop(tool_call_count: usize, iteration: usize) -> (r: bool)
    ensures
        r <==> (tool_call_count > 0 && iteration < MAX_TOOL_ITERATIONS),
{
    tool_call_count > 0 && iteration < MAX_TOOL_ITERATIONS
}

/// In the native tool loop, the MCP tool id a call named `name` goes to:
/// the first tool of that name, when it is an MCP tool.  Every other call,
/// an unknown name included, runs as a builtin tool.
pub fn native_mcp_target(tools: &Vec<Tool>, name: &str) -> (r: Option<String>)
    ensures
        match first_tool_named(tools@, name@, 0) {
            Some(i) => if tools@[i].tool_type@ == "mcp"@ {
                r matches Some(id) && id@ == tools@[i].id@
            } else {
                r is None
            },
            None => r is None,
        },
{
    let mut i: usize = 0;
    while i < tools.len()
        invariant
            i <= tools.len(),
            first_tool_named(tools@, name@, 0) == first_tool_named(tools@, name@, i as int),
        decreases tools.len() - i,
    {
        if str_eq(tools[i].name.as_str(), name) {
            if str_eq(tools[i].tool_type.as_str(), "mcp") {
                return Some(tools[i].id.clone());
            } else {
                return None;
            }
        }
        i = i + 1;
    }
    None
}

/// The text a native tool call returns to the model when it failed.
pub fn native_tool_error_text(error: &str) -> (r: String)
    ensures
        r@ == "Error executing tool: "@ + error@,
{
    let mut r = to_owned_string("Error executing tool: ");
    push_str(&mut r, error);
    r
}

/// How a completion ends before the model runs.
#[derive(Clone, Debug)]
pub struct EarlyStop {
    /// The status stored on the assistant message.
    pub status: ChatMessageStatus,
    /// The error stored on the assistant message.
    pub stored_error: Option<String>,
    /// The error the completion returns.
    pub returned_error: String,
}

/// The checks before the model runs: a cancelled request stops as
/// cancelled; an engine that is not ready stops with an error that tells the
/// user to configure a provider.
pub fn completion_precheck(cancelled: bool, engine_ready: bool) -> (r: Option<EarlyStop>)
    ensures
        cancelled ==> (r matches Some(s) && s.status == ChatMessageStatus::Cancelled
            && s.stored_error is None && s.returned_error@ == "Cancelled"@),
        !cancelled && !engine_ready ==> (r matches Some(s) && s.status == ChatMessageStatus::Error
            && holds_text(
            s.stored_error,
            "LLM engine not ready. Please configure an LLM provider in settings."@,
        ) && s.returned_error@ == "LLM engine not ready"@),
        !cancelled && engine_ready ==> r is None,
{
    if cancelled {
        Some(
            EarlyStop {
                status: ChatMessageStatus::Cancelled,
                stored_error: None,
                returned_error: to_owned_string("Cancelled"),
            },
        )
    } else if !engine_ready {
        Some(
            EarlyStop {
                status: ChatMessageStatus::Error,
                stored_error: Some(
                    to_owned_string(
                        "LLM engine not ready. Please configure an LLM provider in settings.",
                    ),
                ),
                returned_error: to_owned_string("LLM engine not ready"),
            },
        )
    } else {
        None
    }
}

/// What happened last on the streamed (native) completion path.
pub enum NativeEvent {
    /// A completion came back with this content and this many tool calls.
    Response { content: String, tool_calls: usize },
    /// The first, streamed completion failed with this error.
    StreamFailed(String),
    /// The tool calls of the last response ran; `cancelled` tells whether
    /// the request was cancelled meanwhile.
    ToolsRan { cancelled: bool },
    /// A follow-up completion failed with this error.
    FollowUpFailed(String),
}

/// What the native completion path does next.
pub enum NativeAction {
    /// Record the response with its tool calls, then run each of them.
    RunTools,
    /// Ask the model again, with the tool results.
    RequestCompletion,
    /// Store this content on the assistant message and mark it complete.
    Complete(String),
    /// Store the status and error on the assistant message, and end with
    /// the returned error.
    Stop(EarlyStop),
    /// End with this error, leaving the assistant message as it stands.
    Abort(String),
}

/// One step of the native completion path, from the number of tool rounds
/// run so far: a response with tool calls starts another round while fewer
/// than the maximum have run, any other response completes the message; a
/// failed streamed completion stores the error; a cancellation after a
/// round stops as cancelled; a failed follow-up ends with its error.
pub fn native_step(iteration: usize, event: NativeEvent) -> (r: (usize, NativeAction))
    requires
        iteration <= MAX_TOOL_ITERATIONS,
    ensures
        r.0 <= MAX_TOOL_ITERATIONS,
        match event {
            NativeEvent::Response { content, tool_calls } => if tool_calls > 0 && iteration
                < MAX_TOOL_ITERATIONS {
                r.0 == iteration + 1 && r.1 is RunTools
            } else {
                r.0 == iteration && (r.1 matches NativeAction::Complete(c) && c == content)
            },
            NativeEvent::StreamFailed(e) => r.0 == iteration && (r.1 matches NativeAction::Stop(s)
                && s.status == ChatMessageStatus::Error && holds_text(s.stored_error, e@)
                && s.returned_error == e),
            NativeEvent::ToolsRan { cancelled } => r.0 == iteration && if cancelled {
                r.1 matches NativeAction::Stop(s) && s.status == ChatMessageStatus::Cancelled
                    && s.stored_error is None && s.returned_error@ == "Cancelled"@
            } else {
                r.1 is RequestCompletion
            },
            NativeEvent::FollowUpFailed(e) => r.0 == iteration && (r.1 matches NativeAction::Abort(
                a,
            ) && a == e),
        },
{
    match event {
        NativeEvent::Response { content, tool_calls } => {
            if continue_native_tool_loop(tool_calls, iteration) {
                (iteration + 1, NativeAction::RunTools)
            } else {
                (iteration, NativeAction::Complete(content))
            }
        },
        NativeEvent::StreamFailed(e) => {
            let stored = e.clone();
            (
                iteration,
                NativeAction::Stop(
                    EarlyStop { status: ChatMessageStatus::Error, stored_error: Some(stored), returned_error: e },
                ),
            )
        },
        NativeEvent::ToolsRan { cancelled } => {
            if cancelled {
                (
                    iteration,
                    NativeAction::Stop(
                        EarlyStop {
                            status: ChatMessageStatus::Cancelled,
                            stored_error: None,
                            returned_error: to_owned_string("Cancelled"),
                        },
                    ),
                )
            } else {
                (iteration, NativeAction::RequestCompletion)
            }
        },
        NativeEvent::FollowUpFailed(e) => (iteration, NativeAction::Abort(e)),
    }
}

/// The messages a sent chat message creates, and whether the session's
/// provider/model configuration is to be updated.
pub struct Exchange {
    pub user: ChatMessage,
    pub assistant: ChatMessage,
    pub update_session_config: bool,
}

/// A new exchange in a session: the user's message at the next sequence
/// number, an empty pending assistant message right after it that records
/// the provider and model, and a configuration update when either is given.
pub fn new_exchange(
    session_id: &str,
    recording_id: &str,
    content: &str,
    next_sequence_id: i64,
    provider_type: Option<String>,
    model_id: Option<String>,
) -> (r: Exchange)
    requires
        next_sequence_id < i64::MAX,
    ensures
        is_hyphenated_uuid(r.user.id@),
        r.user.recording_id@ == recording_id@,
        holds_text(r.user.session_id, session_id@),
        r.user.role == ChatRole::User,
        r.user.content@ == content@,
        r.user.sequence_id == next_sequence_id,
        r.user.status == ChatMessageStatus::Complete,
        is_hyphenated_uuid(r.assistant.id@),
        r.assistant.recording_id@ == recording_id@,
        holds_text(r.assistant.session_id, session_id@),
        r.assistant.role == ChatRole::Assistant,
        r.assistant.content@.len() == 0,
        r.assistant.sequence_id == next_sequence_id + 1,
        r.assistant.status == ChatMessageStatus::Pending,
        r.assistant.provider_type == provider_type,
        r.assistant.model_id == model_id,
        r.update_session_config <==> (provider_type is Some || model_id is Some),
{
    let update = provider_type.is_some() || model_id.is_some();
    let user = ChatMessage::user(session_id, recording_id, content, next_sequence_id);
    let assistant = ChatMessage::assistant_pending(
        session_id,
        recording_id,
        next_sequence_id + 1,
        provider_type,
        model_id,
    );
    Exchange { user, assistant, update_session_config: update }
}

/// What the frontend is told of a message's progress.
pub fn status_report(m: &ChatMessage) -> (r: ChatMessageStatus2)
    ensures
        r.message_id@ == m.id@,
        r.status@ == crate::models::chat_message_status_text(m.status),
        r.content@ == m.content@,
        r.error_message == m.error_message,
{
    ChatMessageStatus2 {
        message_id: m.id.clone(),
        status: to_owned_string(m.status.as_str()),
        content: m.content.clone(),
        error_message: m.error_message.clone(),
    }
}

/// A new chat session for a recording, titled `New Chat` unless a title is
/// given, with the provider and model it is to use.
pub fn new_chat_session(
    recording_id: &str,
    title: Option<String>,
    provider_type: Option<String>,
    model_id: Option<String>,
) -> (r: ChatSession)
    ensures
        is_hyphenated_uuid(r.id@),
        r.recording_id@ == recording_id@,
        r.title@ == (match title {
            Some(t) => t@,
            None => "New Chat"@,
        }),
        r.provider_type == provider_type,
        r.model_id == model_id,
{
    let t = match title {
        Some(t) => t,
        None => to_owned_string("New Chat"),
    };
    ChatSession::new_with_config(recording_id, t.as_str(), provider_type, model_id)
}

} // verus!
