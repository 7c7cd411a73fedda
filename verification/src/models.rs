//! Records the application stores and exchanges: chat messages and sessions,
//! tools, MCP servers, templates, settings, categories and tags.
//!
//! The text forms of the small enums (`as_str` / `from_str`) are what the
//! database stores; `from_str` reads them case-insensitively and falls back
//! to a default for unknown text.
use vstd::prelude::*;
use std::collections::HashMap;
use crate::text::{
    views, ascii_lower, is_ascii_seq, lemma_ascii_lower_idempotent, lowercase, str_eq, to_lowercase, to_owned_string,
};
use crate::outside::{
    is_hyphenated_uuid, json_of_strings, json_string_array, json_string_array_text, new_uuid_v4,
    now_rfc3339, parse_json_string_array,
};

verus! {

broadcast use vstd::string::group_string_axioms;

// ---------------------------------------------------------------------------
// ChatRole
// ---------------------------------------------------------------------------

/// Chat message role (compatible with OpenAI, Ollama, etc.).
#[derive(Clone, Copy, Debug, PartialEq, Eq, Structural)]
pub enum ChatRole {
    System,
    User,
    Assistant,
}

/// The stored text of a role.
pub open spec fn chat_role_text(r: ChatRole) -> Seq<char> {
    match r {
        ChatRole::System => "system"@,
        ChatRole::User => "user"@,
        ChatRole::Assistant => "assistant"@,
    }
}

/// The role named by lower-case text; unknown text reads as `User`.
pub open spec fn chat_role_from_lower(l: Seq<char>) -> ChatRole {
    if l == "system"@ {
        ChatRole::System
    } else if l == "user"@ {
        ChatRole::User
    } else if l == "assistant"@ {
        ChatRole::Assistant
    } else {
        ChatRole::User
    }
}

impl ChatRole {
    pub fn as_str(&self) -> (r: &'static str)
        ensures
            r@ == chat_role_text(*self),
    {
        match self {
            ChatRole::System => "system",
            ChatRole::User => "user",
            ChatRole::Assistant => "assistant",
        }
    }

    pub fn from_str(s: &str) -> (r: Self)
        ensures
            r == chat_role_from_lower(lowercase(s@)),
            is_ascii_seq(s@) ==> r == chat_role_from_lower(ascii_lower(s@)),
    {
        let l = to_lowercase(s);
        let l = l.as_str();
        if str_eq(l, "system") {
            ChatRole::System
        } else if str_eq(l, "user") {
            ChatRole::User
        } else if str_eq(l, "assistant") {
            ChatRole::Assistant
        } else {
            ChatRole::User
        }
    }
}

/// Reading back the stored text of a role gives the role.
pub proof fn lemma_chat_role_round_trip(r: ChatRole)
    ensures
        is_ascii_seq(chat_role_text(r)),
        chat_role_from_lower(ascii_lower(chat_role_text(r))) == r,
{
    reveal_strlit("system");
    reveal_strlit("user");
    reveal_strlit("assistant");
    assert(ascii_lower("system"@) =~= "system"@);
    assert(ascii_lower("user"@) =~= "user"@);
    assert(ascii_lower("assistant"@) =~= "assistant"@);
}

/// Reading a role ignores letter case: two texts with the same lower-case
/// form read alike; an ASCII text reads as its ASCII lower-case form (itself
/// ASCII) does; text whose lower-case form names no role reads as `User`.
pub proof fn lemma_chat_role_case_insensitive(s: Seq<char>, t: Seq<char>)
    ensures
        lowercase(s) == lowercase(t) ==> chat_role_from_lower(lowercase(s)) == chat_role_from_lower(lowercase(t)),
        is_ascii_seq(s) ==> is_ascii_seq(ascii_lower(s)) && chat_role_from_lower(ascii_lower(ascii_lower(s)))
            == chat_role_from_lower(ascii_lower(s)),
        is_ascii_seq(s) && is_ascii_seq(t) && ascii_lower(s) == ascii_lower(t) ==> chat_role_from_lower(
            ascii_lower(s),
        ) == chat_role_from_lower(ascii_lower(t)),
        lowercase(s) != "system"@ && lowercase(s) != "user"@ && lowercase(s) != "assistant"@ ==> chat_role_from_lower(lowercase(s)) == ChatRole::User,
{
    lemma_ascii_lower_idempotent(s);
}


// ---------------------------------------------------------------------------
// ChatMessageStatus
// ---------------------------------------------------------------------------

/// Chat message status.
#[derive(Clone, Copy, Debug, PartialEq, Eq, Structural)]
pub enum ChatMessageStatus {
    Pending,
    Streaming,
    Complete,
    Cancelled,
    Error,
}

/// The stored text of a `ChatMessageStatus`.
pub open spec fn chat_message_status_text(x: ChatMessageStatus) -> Seq<char> {
    match x {
        ChatMessageStatus::Pending => "pending"@,
        ChatMessageStatus::Streaming => "streaming"@,
        ChatMessageStatus::Complete => "complete"@,
        ChatMessageStatus::Cancelled => "cancelled"@,
        ChatMessageStatus::Error => "error"@,
    }
}

/// The `ChatMessageStatus` named by lower-case text; unknown text reads as `Complete`.
pub open spec fn chat_message_status_from_lower(l: Seq<char>) -> ChatMessageStatus {
    if l == "pending"@ {
        ChatMessageStatus::Pending
    } else if l == "streaming"@ {
        ChatMessageStatus::Streaming
    } else if l == "complete"@ {
        ChatMessageStatus::Complete
    } else if l == "cancelled"@ {
        ChatMessageStatus::Cancelled
    } else if l == "error"@ {
        ChatMessageStatus::Error
    } else {
        ChatMessageStatus::Complete
    }
}

impl ChatMessageStatus {
    pub fn as_str(&self) -> (r: &'static str)
        ensures
            r@ == chat_message_status_text(*self),
    {
        match self {
            ChatMessageStatus::Pending => "pending",
            ChatMessageStatus::Streaming => "streaming",
            ChatMessageStatus::Complete => "complete",
            ChatMessageStatus::Cancelled => "cancelled",
            ChatMessageStatus::Error => "error",
        }
    }

    pub fn from_str(s: &str) -> (r: Self)
        ensures
            r == chat_message_status_from_lower(lowercase(s@)),
            is_ascii_seq(s@) ==> r == chat_message_status_from_lower(ascii_lower(s@)),
    {
        let l = to_lowercase(s);
        let l = l.as_str();
        if str_eq(l, "pending") {
            ChatMessageStatus::Pending
        } else if str_eq(l, "streaming") {
            ChatMessageStatus::Streaming
        } else if str_eq(l, "complete") {
            ChatMessageStatus::Complete
        } else if str_eq(l, "cancelled") {
            ChatMessageStatus::Cancelled
        } else if str_eq(l, "error") {
            ChatMessageStatus::Error
        } else {
            ChatMessageStatus::Complete
        }
    }
}

/// Reading back the stored text of a `ChatMessageStatus` gives it back.
pub proof fn lemma_chat_message_status_round_trip(x: ChatMessageStatus)
    ensures
        is_ascii_seq(chat_message_status_text(x)),
        chat_message_status_from_lower(ascii_lower(chat_message_status_text(x))) == x,
{
    reveal_strlit("pending");
    reveal_strlit("streaming");
    reveal_strlit("complete");
    reveal_strlit("cancelled");
    reveal_strlit("error");
    assert(ascii_lower("pending"@) =~= "pending"@);
    assert(ascii_lower("streaming"@) =~= "streaming"@);
    assert(ascii_lower("complete"@) =~= "complete"@);
    assert(ascii_lower("cancelled"@) =~= "cancelled"@);
    assert(ascii_lower("error"@) =~= "error"@);
    assert("streaming"@.len() != "pending"@.len());
    assert("complete"@.len() != "pending"@.len());
    assert("complete"@.len() != "streaming"@.len());
    assert("cancelled"@.len() != "pending"@.len());
    assert("cancelled"@[0] != "streaming"@[0]);
    assert("cancelled"@.len() != "complete"@.len());
    assert("error"@.len() != "pending"@.len());
    assert("error"@.len() != "streaming"@.len());
    assert("error"@.len() != "complete"@.len());
    assert("error"@.len() != "cancelled"@.len());
}

/// Reading a message status ignores letter case: two texts with the same lower-case
/// form read alike; an ASCII text reads as its ASCII lower-case form (itself
/// ASCII) does; text whose lower-case form names no status reads as `Complete`.
pub proof fn lemma_chat_message_status_case_insensitive(s: Seq<char>, t: Seq<char>)
    ensures
        lowercase(s) == lowercase(t) ==> chat_message_status_from_lower(lowercase(s)) == chat_message_status_from_lower(lowercase(t)),
        is_ascii_seq(s) ==> is_ascii_seq(ascii_lower(s)) && chat_message_status_from_lower(ascii_lower(ascii_lower(s)))
            == chat_message_status_from_lower(ascii_lower(s)),
        is_ascii_seq(s) && is_ascii_seq(t) && ascii_lower(s) == ascii_lower(t) ==> chat_message_status_from_lower(
            ascii_lower(s),
        ) == chat_message_status_from_lower(ascii_lower(t)),
        lowercase(s) != "pending"@ && lowercase(s) != "streaming"@ && lowercase(s) != "complete"@ && lowercase(s) != "cancelled"@ && lowercase(s) != "error"@ ==> chat_message_status_from_lower(lowercase(s)) == ChatMessageStatus::Complete,
{
    lemma_ascii_lower_idempotent(s);
}

// ---------------------------------------------------------------------------
// McpServerStatus
// ---------------------------------------------------------------------------

/// MCP server status.
#[derive(Clone, Copy, Debug, PartialEq, Eq, Structural)]
pub enum McpServerStatus {
    Stopped,
    Starting,
    Running,
    Error,
}

/// The stored text of a `McpServerStatus`.
pub open spec fn mcp_server_status_text(x: McpServerStatus) -> Seq<char> {
    match x {
        McpServerStatus::Stopped => "stopped"@,
        McpServerStatus::Starting => "starting"@,
        McpServerStatus::Running => "running"@,
        McpServerStatus::Error => "error"@,
    }
}

/// The `McpServerStatus` named by lower-case text; unknown text reads as `Stopped`.
pub open spec fn mcp_server_status_from_lower(l: Seq<char>) -> McpServerStatus {
    if l == "stopped"@ {
        McpServerStatus::Stopped
    } else if l == "starting"@ {
        McpServerStatus::Starting
    } else if l == "running"@ {
        McpServerStatus::Running
    } else if l == "error"@ {
        McpServerStatus::Error
    } else {
        McpServerStatus::Stopped
    }
}

impl McpServerStatus {
    pub fn as_str(&self) -> (r: &'static str)
        ensures
            r@ == mcp_server_status_text(*self),
    {
        match self {
            McpServerStatus::Stopped => "stopped",
            McpServerStatus::Starting => "starting",
            McpServerStatus::Running => "running",
            McpServerStatus::Error => "error",
        }
    }

    pub fn from_str(s: &str) -> (r: Self)
        ensures
            r == mcp_server_status_from_lower(lowercase(s@)),
            is_ascii_seq(s@) ==> r == mcp_server_status_from_lower(ascii_lower(s@)),
    {
        let l = to_lowercase(s);
        let l = l.as_str();
        if str_eq(l, "stopped") {
            McpServerStatus::Stopped
        } else if str_eq(l, "starting") {
            McpServerStatus::Starting
        } else if str_eq(l, "running") {
            McpServerStatus::Running
        } else if str_eq(l, "error") {
            McpServerStatus::Error
        } else {
            McpServerStatus::Stopped
        }
    }
}

/// Reading back the stored text of a `McpServerStatus` gives it back.
pub proof fn lemma_mcp_server_status_round_trip(x: McpServerStatus)
    ensures
        is_ascii_seq(mcp_server_status_text(x)),
        mcp_server_status_from_lower(ascii_lower(mcp_server_status_text(x))) == x,
{
    reveal_strlit("stopped");
    reveal_strlit("starting");
    reveal_strlit("running");
    reveal_strlit("error");
    assert(ascii_lower("stopped"@) =~= "stopped"@);
    assert(ascii_lower("starting"@) =~= "starting"@);
    assert(ascii_lower("running"@) =~= "running"@);
    assert(ascii_lower("error"@) =~= "error"@);
    assert("starting"@.len() != "stopped"@.len());
    assert("running"@[0] != "stopped"@[0]);
    assert("running"@.len() != "starting"@.len());
    assert("error"@.len() != "stopped"@.len());
    assert("error"@.len() != "starting"@.len());
    assert("error"@.len() != "running"@.len());
}

/// Reading a server status ignores letter case: two texts with the same lower-case
/// form read alike; an ASCII text reads as its ASCII lower-case form (itself
/// ASCII) does; text whose lower-case form names no status reads as `Stopped`.
pub proof fn lemma_mcp_server_status_case_insensitive(s: Seq<char>, t: Seq<char>)
    ensures
        lowercase(s) == lowercase(t) ==> mcp_server_status_from_lower(lowercase(s)) == mcp_server_status_from_lower(lowercase(t)),
        is_ascii_seq(s) ==> is_ascii_seq(ascii_lower(s)) && mcp_server_status_from_lower(ascii_lower(ascii_lower(s)))
            == mcp_server_status_from_lower(ascii_lower(s)),
        is_ascii_seq(s) && is_ascii_seq(t) && ascii_lower(s) == ascii_lower(t) ==> mcp_server_status_from_lower(
            ascii_lower(s),
        ) == mcp_server_status_from_lower(ascii_lower(t)),
        lowercase(s) != "stopped"@ && lowercase(s) != "starting"@ && lowercase(s) != "running"@ && lowercase(s) != "error"@ ==> mcp_server_status_from_lower(lowercase(s)) == McpServerStatus::Stopped,
{
    lemma_ascii_lower_idempotent(s);
}

// ---------------------------------------------------------------------------
// ToolType
// ---------------------------------------------------------------------------

/// Tool type classification.
#[derive(Clone, Copy, Debug, PartialEq, Eq, Structural)]
pub enum ToolType {
    Builtin,
    Custom,
    Mcp,
}

/// The stored text of a `ToolType`.
pub open spec fn tool_type_text(x: ToolType) -> Seq<char> {
    match x {
        ToolType::Builtin => "builtin"@,
        ToolType::Custom => "custom"@,
        ToolType::Mcp => "mcp"@,
    }
}

/// The `ToolType` named by lower-case text; unknown text reads as `Custom`.
pub open spec fn tool_type_from_lower(l: Seq<char>) -> ToolType {
    if l == "builtin"@ {
        ToolType::Builtin
    } else if l == "custom"@ {
        ToolType::Custom
    } else if l == "mcp"@ {
        ToolType::Mcp
    } else {
        ToolType::Custom
    }
}

impl ToolType {
    pub fn as_str(&self) -> (r: &'static str)
        ensures
            r@ == tool_type_text(*self),
    {
        match self {
            ToolType::Builtin => "builtin",
            ToolType::Custom => "custom",
            ToolType::Mcp => "mcp",
        }
    }

    pub fn from_str(s: &str) -> (r: Self)
        ensures
            r == tool_type_from_lower(lowercase(s@)),
            is_ascii_seq(s@) ==> r == tool_type_from_lower(ascii_lower(s@)),
    {
        let l = to_lowercase(s);
        let l = l.as_str();
        if str_eq(l, "builtin") {
            ToolType::Builtin
        } else if str_eq(l, "custom") {
            ToolType::Custom
        } else if str_eq(l, "mcp") {
            ToolType::Mcp
        } else {
            ToolType::Custom
        }
    }
}

/// Reading back the stored text of a `ToolType` gives it back.
pub proof fn lemma_tool_type_round_trip(x: ToolType)
    ensures
        is_ascii_seq(tool_type_text(x)),
        tool_type_from_lower(ascii_lower(tool_type_text(x))) == x,
{
    reveal_strlit("builtin");
    reveal_strlit("custom");
    reveal_strlit("mcp");
    assert(ascii_lower("builtin"@) =~= "builtin"@);
    assert(ascii_lower("custom"@) =~= "custom"@);
    assert(ascii_lower("mcp"@) =~= "mcp"@);
    assert("custom"@.len() != "builtin"@.len());
    assert("mcp"@.len() != "builtin"@.len());
    assert("mcp"@.len() != "custom"@.len());
}

/// Reading a tool type ignores letter case: two texts with the same lower-case
/// form read alike; an ASCII text reads as its ASCII lower-case form (itself
/// ASCII) does; text whose lower-case form names no type reads as `Custom`.
pub proof fn lemma_tool_type_case_insensitive(s: Seq<char>, t: Seq<char>)
    ensures
        lowercase(s) == lowercase(t) ==> tool_type_from_lower(lowercase(s)) == tool_type_from_lower(lowercase(t)),
        is_ascii_seq(s) ==> is_ascii_seq(ascii_lower(s)) && tool_type_from_lower(ascii_lower(ascii_lower(s)))
            == tool_type_from_lower(ascii_lower(s)),
        is_ascii_seq(s) && is_ascii_seq(t) && ascii_lower(s) == ascii_lower(t) ==> tool_type_from_lower(
            ascii_lower(s),
        ) == tool_type_from_lower(ascii_lower(t)),
        lowercase(s) != "builtin"@ && lowercase(s) != "custom"@ && lowercase(s) != "mcp"@ ==> tool_type_from_lower(lowercase(s)) == ToolType::Custom,
{
    lemma_ascii_lower_idempotent(s);
}

// ---------------------------------------------------------------------------
// ToolExecutionLocation
// ---------------------------------------------------------------------------

/// Where a tool runs.
#[derive(Clone, Copy, Debug, PartialEq, Eq, Structural)]
pub enum ToolExecutionLocation {
    Backend,
    Frontend,
}

/// The stored text of a `ToolExecutionLocation`.
pub open spec fn tool_execution_location_text(x: ToolExecutionLocation) -> Seq<char> {
    match x {
        ToolExecutionLocation::Backend => "backend"@,
        ToolExecutionLocation::Frontend => "frontend"@,
    }
}

/// The `ToolExecutionLocation` named by lower-case text; unknown text reads as `Backend`.
pub open spec fn tool_execution_location_from_lower(l: Seq<char>) -> ToolExecutionLocation {
    if l == "backend"@ {
        ToolExecutionLocation::Backend
    } else if l == "frontend"@ {
        ToolExecutionLocation::Frontend
    } else {
        ToolExecutionLocation::Backend
    }
}

impl ToolExecutionLocation {
    pub fn as_str(&self) -> (r: &'static str)
        ensures
            r@ == tool_execution_location_text(*self),
    {
        match self {
            ToolExecutionLocation::Backend => "backend",
            ToolExecutionLocation::Frontend => "frontend",
        }
    }

    pub fn from_str(s: &str) -> (r: Self)
        ensures
            r == tool_execution_location_from_lower(lowercase(s@)),
            is_ascii_seq(s@) ==> r == tool_execution_location_from_lower(ascii_lower(s@)),
    {
        let l = to_lowercase(s);
        let l = l.as_str();
        if str_eq(l, "backend") {
            ToolExecutionLocation::Backend
        } else if str_eq(l, "frontend") {
            ToolExecutionLocation::Frontend
        } else {
            ToolExecutionLocation::Backend
        }
    }
}

/// Reading back the stored text of a `ToolExecutionLocation` gives it back.
pub proof fn lemma_tool_execution_location_round_trip(x: ToolExecutionLocation)
    ensures
        is_ascii_seq(tool_execution_location_text(x)),
        tool_execution_location_from_lower(ascii_lower(tool_execution_location_text(x))) == x,
{
    reveal_strlit("backend");
    reveal_strlit("frontend");
    assert(ascii_lower("backend"@) =~= "backend"@);
    assert(ascii_lower("frontend"@) =~= "frontend"@);
    assert("frontend"@.len() != "backend"@.len());
}

/// Reading an execution location ignores letter case: two texts with the same lower-case
/// form read alike; an ASCII text reads as its ASCII lower-case form (itself
/// ASCII) does; text whose lower-case form names no location reads as `Backend`.
pub proof fn lemma_tool_execution_location_case_insensitive(s: Seq<char>, t: Seq<char>)
    ensures
        lowercase(s) == lowercase(t) ==> tool_execution_location_from_lower(lowercase(s)) == tool_execution_location_from_lower(lowercase(t)),
        is_ascii_seq(s) ==> is_ascii_seq(ascii_lower(s)) && tool_execution_location_from_lower(ascii_lower(ascii_lower(s)))
            == tool_execution_location_from_lower(ascii_lower(s)),
        is_ascii_seq(s) && is_ascii_seq(t) && ascii_lower(s) == ascii_lower(t) ==> tool_execution_location_from_lower(
            ascii_lower(s),
        ) == tool_execution_location_from_lower(ascii_lower(t)),
        lowercase(s) != "backend"@ && lowercase(s) != "frontend"@ ==> tool_execution_location_from_lower(lowercase(s)) == ToolExecutionLocation::Backend,
{
    lemma_ascii_lower_idempotent(s);
}

// ---------------------------------------------------------------------------
// Chat records
// ---------------------------------------------------------------------------

/// A chat message in a conversation about a recording.
#[derive(Clone, Debug)]
pub struct ChatMessage {
    pub id: String,
    pub recording_id: String,
    /// The session this message belongs to.
    pub session_id: Option<String>,
    pub role: ChatRole,
    pub content: String,
    pub created_at: String,
    pub sequence_id: i64,
    pub status: ChatMessageStatus,
    pub error_message: Option<String>,
    /// The LLM provider used (e.g. "ollama", "embedded").
    pub provider_type: Option<String>,
    /// The model id used.
    pub model_id: Option<String>,
}

/// `o` holds the text `t`.
pub open spec fn holds_text(o: Option<String>, t: Seq<char>) -> bool {
    o matches Some(x) && x@ == t
}

impl ChatMessage {
    /// A new, complete user message for a session.
    pub fn user(session_id: &str, recording_id: &str, content: &str, sequence_id: i64) -> (m: Self)
        ensures
            is_hyphenated_uuid(m.id@),
            m.recording_id@ == recording_id@,
            holds_text(m.session_id, session_id@),
            m.role == ChatRole::User,
            m.content@ == content@,
            m.sequence_id == sequence_id,
            m.status == ChatMessageStatus::Complete,
            m.error_message is None,
            m.provider_type is None,
            m.model_id is None,
    {
        ChatMessage {
            id: new_uuid_v4(),
            recording_id: to_owned_string(recording_id),
            session_id: Some(to_owned_string(session_id)),
            role: ChatRole::User,
            content: to_owned_string(content),
            created_at: now_rfc3339(),
            sequence_id,
            status: ChatMessageStatus::Complete,
            error_message: None,
            provider_type: None,
            model_id: None,
        }
    }

    /// A new assistant message waiting for its response.
    pub fn assistant_pending(
        session_id: &str,
        recording_id: &str,
        sequence_id: i64,
        provider_type: Option<String>,
        model_id: Option<String>,
    ) -> (m: Self)
        ensures
            is_hyphenated_uuid(m.id@),
            m.recording_id@ == recording_id@,
            holds_text(m.session_id, session_id@),
            m.role == ChatRole::Assistant,
            m.content@.len() == 0,
            m.sequence_id == sequence_id,
            m.status == ChatMessageStatus::Pending,
            m.error_message is None,
            m.provider_type == provider_type,
            m.model_id == model_id,
    {
        ChatMessage {
            id: new_uuid_v4(),
            recording_id: to_owned_string(recording_id),
            session_id: Some(to_owned_string(session_id)),
            role: ChatRole::Assistant,
            content: String::new(),
            created_at: now_rfc3339(),
            sequence_id,
            status: ChatMessageStatus::Pending,
            error_message: None,
            provider_type,
            model_id,
        }
    }

    /// A system message carrying transcript context.
    pub fn system(session_id: &str, recording_id: &str, content: &str) -> (m: Self)
        ensures
            is_hyphenated_uuid(m.id@),
            m.recording_id@ == recording_id@,
            holds_text(m.session_id, session_id@),
            m.role == ChatRole::System,
            m.content@ == content@,
            m.sequence_id == 0,
            m.status == ChatMessageStatus::Complete,
            m.error_message is None,
            m.provider_type is None,
            m.model_id is None,
    {
        ChatMessage {
            id: new_uuid_v4(),
            recording_id: to_owned_string(recording_id),
            session_id: Some(to_owned_string(session_id)),
            role: ChatRole::System,
            content: to_owned_string(content),
            created_at: now_rfc3339(),
            sequence_id: 0,
            status: ChatMessageStatus::Complete,
            error_message: None,
            provider_type: None,
            model_id: None,
        }
    }
}

/// Chat configuration for a recording (provider/model used).
#[derive(Clone, Debug)]
pub struct ChatConfig {
    pub provider_type: Option<String>,
    pub model_id: Option<String>,
}

/// A chat session: one conversation about a recording.
#[derive(Clone, Debug)]
pub struct ChatSession {
    pub id: String,
    pub recording_id: String,
    pub title: String,
    pub created_at: String,
    pub provider_type: Option<String>,
    pub model_id: Option<String>,
}

impl ChatSession {
    /// A new session with the given title and no provider/model.
    pub fn new(recording_id: &str, title: &str) -> (c: Self)
        ensures
            is_hyphenated_uuid(c.id@),
            c.recording_id@ == recording_id@,
            c.title@ == title@,
            c.provider_type is None,
            c.model_id is None,
    {
        ChatSession {
            id: new_uuid_v4(),
            recording_id: to_owned_string(recording_id),
            title: to_owned_string(title),
            created_at: now_rfc3339(),
            provider_type: None,
            model_id: None,
        }
    }

    /// A new session with provider/model configuration.
    pub fn new_with_config(
        recording_id: &str,
        title: &str,
        provider_type: Option<String>,
        model_id: Option<String>,
    ) -> (c: Self)
        ensures
            is_hyphenated_uuid(c.id@),
            c.recording_id@ == recording_id@,
            c.title@ == title@,
            c.provider_type == provider_type,
            c.model_id == model_id,
    {
        ChatSession {
            id: new_uuid_v4(),
            recording_id: to_owned_string(recording_id),
            title: to_owned_string(title),
            created_at: now_rfc3339(),
            provider_type,
            model_id,
        }
    }
}

/// Default LLM model configuration (stored in settings).
#[derive(Clone, Debug)]
pub struct DefaultLlmConfig {
    pub provider_type: Option<String>,
    pub model_id: Option<String>,
}

/// Response when sending a chat message.
#[derive(Clone, Debug)]
pub struct SendMessageResponse {
    pub user_message_id: String,
    pub assistant_message_id: String,
}

/// Chat message status as the frontend sees it.
#[derive(Clone, Debug)]
pub struct ChatMessageStatus2 {
    pub message_id: String,
    pub status: String,
    pub content: String,
    pub error_message: Option<String>,
}

// ---------------------------------------------------------------------------
// Tools
// ---------------------------------------------------------------------------

/// An AI tool that can be called during chat conversations.
#[derive(Clone, Debug)]
pub struct Tool {
    pub id: String,
    pub name: String,
    pub description: Option<String>,
    pub tool_type: String,
    /// JSON text holding the function schema.
    pub function_schema: String,
    pub execution_location: String,
    pub enabled: bool,
    pub is_default: bool,
    pub icon: Option<String>,
    pub sort_order: i32,
    pub created_at: String,
    /// MCP server id (MCP tools only).
    pub mcp_server_id: Option<String>,
    /// MCP server name (MCP tools only).
    pub mcp_server_name: Option<String>,
}

impl Tool {
    /// A new, enabled custom tool running in the backend.
    pub fn new_custom(
        name: &str,
        description: Option<String>,
        function_schema: &str,
        icon: Option<String>,
    ) -> (t: Self)
        ensures
            is_hyphenated_uuid(t.id@),
            t.name@ == name@,
            t.description == description,
            t.tool_type@ == tool_type_text(ToolType::Custom),
            t.function_schema@ == function_schema@,
            t.execution_location@ == tool_execution_location_text(ToolExecutionLocation::Backend),
            t.enabled,
            !t.is_default,
            t.icon == icon,
            t.sort_order == 0,
            t.mcp_server_id is None,
            t.mcp_server_name is None,
    {
        Tool {
            id: new_uuid_v4(),
            name: to_owned_string(name),
            description,
            tool_type: to_owned_string(ToolType::Custom.as_str()),
            function_schema: to_owned_string(function_schema),
            execution_location: to_owned_string(ToolExecutionLocation::Backend.as_str()),
            enabled: true,
            is_default: false,
            icon,
            sort_order: 0,
            created_at: now_rfc3339(),
            mcp_server_id: None,
            mcp_server_name: None,
        }
    }
}

/// Input for creating a new tool.
#[derive(Clone, Debug)]
pub struct CreateTool {
    pub name: String,
    pub description: Option<String>,
    pub function_schema: String,
    pub execution_location: Option<String>,
    pub icon: Option<String>,
}

/// Input for updating a tool.
#[derive(Clone, Debug)]
pub struct UpdateTool {
    pub name: Option<String>,
    pub description: Option<String>,
    pub function_schema: Option<String>,
    pub execution_location: Option<String>,
    pub enabled: Option<bool>,
    pub is_default: Option<bool>,
    pub icon: Option<String>,
    pub sort_order: Option<i32>,
}

/// Association between a chat session and a tool.
#[derive(Clone, Debug)]
pub struct ChatSessionTool {
    pub session_id: String,
    pub tool_id: String,
    pub enabled: bool,
}

/// Tool call request from the LLM.
#[derive(Clone, Debug)]
pub struct ToolCall {
    pub id: String,
    pub name: String,
    /// JSON text.
    pub arguments: String,
}

/// Tool execution result.
#[derive(Clone, Debug)]
pub struct ToolResult {
    pub tool_call_id: String,
    pub content: String,
    pub success: bool,
    pub error: Option<String>,
}

// ---------------------------------------------------------------------------
// MCP servers
// ---------------------------------------------------------------------------

/// An MCP (Model Context Protocol) server configuration.
#[derive(Clone, Debug)]
pub struct McpServer {
    pub id: String,
    pub name: String,
    pub command: String,
    /// JSON array of command arguments.
    pub args: String,
    /// JSON object of environment variables.
    pub env: String,
    pub working_directory: Option<String>,
    pub auto_start: bool,
    pub enabled: bool,
    pub status: String,
    pub last_error: Option<String>,
    pub created_at: String,
}

/// The JSON text stored for the arguments: their serialisation, or `[]`.
pub open spec fn args_json_text(args: Seq<Seq<char>>) -> Seq<char> {
    match json_of_strings(args) {
        Some(t) => t,
        None => "[]"@,
    }
}

/// The arguments read back from stored JSON text: empty when it does not parse.
pub open spec fn args_from_json_text(t: Seq<char>) -> Seq<Seq<char>> {
    match json_string_array(t) {
        Some(a) => a,
        None => Seq::empty(),
    }
}

/// `serde_json::to_string(&env).ok()` for the environment map.  A `HashMap`
/// is walked in an order each process seeds, so nothing is stated of the text.
#[verifier::external_body]
pub(crate) fn env_json_text(env: &HashMap<String, String>) -> (r: Option<String>) {
    serde_json::to_string(env).ok()
}

impl McpServer {
    /// A new, enabled, stopped MCP server.
    pub fn new(
        name: &str,
        command: &str,
        args: Vec<String>,
        env: HashMap<String, String>,
        working_directory: Option<String>,
        auto_start: bool,
    ) -> (m: Self)
        ensures
            is_hyphenated_uuid(m.id@),
            m.name@ == name@,
            m.command@ == command@,
            m.args@ == args_json_text(views(args@)),
            args_from_json_text(m.args@) == views(args@),
            m.working_directory == working_directory,
            m.auto_start == auto_start,
            m.enabled,
            m.status@ == mcp_server_status_text(McpServerStatus::Stopped),
            m.last_error is None,
    {
        let args_text = match json_string_array_text(&args) {
            Some(t) => t,
            None => to_owned_string("[]"),
        };
        McpServer {
            id: new_uuid_v4(),
            name: to_owned_string(name),
            command: to_owned_string(command),
            args: args_text,
            env: match env_json_text(&env) {
                Some(t) => t,
                None => to_owned_string("{}"),
            },
            working_directory,
            auto_start,
            enabled: true,
            status: to_owned_string(McpServerStatus::Stopped.as_str()),
            last_error: None,
            created_at: now_rfc3339(),
        }
    }

    /// The command arguments stored as JSON; empty when they do not parse.
    pub fn get_args(&self) -> (r: Vec<String>)
        ensures
            views(r@) == args_from_json_text(self.args@),
    {
        match parse_json_string_array(self.args.as_str()) {
            Some(v) => v,
            None => {
                let v: Vec<String> = Vec::new();
                assert(views(v@) =~= Seq::<Seq<char>>::empty());
                v
            },
        }
    }
}

/// Input for creating a new MCP server.
#[derive(Clone, Debug)]
pub struct CreateMcpServer {
    pub name: String,
    pub command: String,
    pub args: Vec<String>,
    pub env: HashMap<String, String>,
    pub working_directory: Option<String>,
    pub auto_start: bool,
}

/// Input for updating an MCP server.
#[derive(Clone, Debug)]
pub struct UpdateMcpServer {
    pub name: Option<String>,
    pub command: Option<String>,
    pub args: Option<Vec<String>>,
    pub env: Option<HashMap<String, String>>,
    pub working_directory: Option<String>,
    pub auto_start: Option<bool>,
    pub enabled: Option<bool>,
}

/// Standard MCP server config format for import.
#[derive(Clone, Debug)]
pub struct McpServerConfig {
    pub command: String,
    pub args: Option<Vec<String>>,
    pub env: Option<HashMap<String, String>>,
    pub working_directory: Option<String>,
}

/// MCP server with its discovered tools count.
#[derive(Clone, Debug)]
pub struct McpServerWithTools {
    pub server: McpServer,
    pub tool_count: i32,
}

// ---------------------------------------------------------------------------
// Model configuration, settings, templates
// ---------------------------------------------------------------------------

/// User-defined configuration for a specific LLM model.
#[derive(Clone, Debug)]
pub struct ModelConfig {
    pub model_id: String,
    /// Whether this model has native function calling support.
    pub has_native_tool_support: bool,
    pub created_at: String,
    pub updated_at: String,
}

/// Input for creating/updating a model config.
#[derive(Clone, Debug)]
pub struct UpsertModelConfig {
    pub model_id: String,
    pub has_native_tool_support: bool,
}

/// A single setting stored in the database.
#[derive(Clone, Debug)]
pub struct Setting {
    pub key: String,
    pub value: String,
    pub value_type: String,
    pub updated_at: String,
}

/// A prompt template for quick chat actions.
#[derive(Clone, Debug)]
pub struct PromptTemplate {
    pub id: String,
    pub name: String,
    pub description: Option<String>,
    pub prompt: String,
    pub icon: Option<String>,
    pub is_builtin: bool,
    pub sort_order: i32,
    pub created_at: String,
}

/// Input for creating a new prompt template.
#[derive(Clone, Debug)]
pub struct CreatePromptTemplate {
    pub name: String,
    pub description: Option<String>,
    pub prompt: String,
    pub icon: Option<String>,
    pub sort_order: Option<i32>,
}

/// Input for updating a prompt template.
#[derive(Clone, Debug)]
pub struct UpdatePromptTemplate {
    pub name: Option<String>,
    pub description: Option<String>,
    pub prompt: Option<String>,
    pub icon: Option<String>,
    pub sort_order: Option<i32>,
}

// ---------------------------------------------------------------------------
// Categories, tags, speakers
// ---------------------------------------------------------------------------

/// A category (predefined or user-created).
#[derive(Clone, Debug)]
pub struct Category {
    pub id: String,
    pub name: String,
    pub color: Option<String>,
    pub is_system: bool,
}

/// The predefined categories every database starts with: id, name, color.
pub open spec fn predefined_category_rows() -> Seq<(Seq<char>, Seq<char>, Seq<char>)> {
    seq![
        ("cat_daily"@, "Daily"@, "#3B82F6"@),
        ("cat_sales"@, "Sales"@, "#10B981"@),
        ("cat_strategy"@, "Strategy"@, "#8B5CF6"@),
        ("cat_product"@, "Product"@, "#F59E0B"@),
        ("cat_weekly"@, "Weekly"@, "#EC4899"@),
        ("cat_hr"@, "HR"@, "#6366F1"@),
        ("cat_engineering"@, "Engineering"@, "#14B8A6"@),
        ("cat_design"@, "Design"@, "#F97316"@),
    ]
}

/// A system category.
fn system_category(id: &str, name: &str, color: &str) -> (r: Category)
    ensures
        r.id@ == id@,
        r.name@ == name@,
        r.color matches Some(c) && c@ == color@,
        r.is_system,
{
    Category {
        id: to_owned_string(id),
        name: to_owned_string(name),
        color: Some(to_owned_string(color)),
        is_system: true,
    }
}

/// The eight predefined categories, in order, each a system category.
pub fn predefined_categories() -> (r: Vec<Category>)
    ensures
        r.len() == 8,
        r.len() == predefined_category_rows().len(),
        forall|i: int|
            0 <= i < r.len() ==> (#[trigger] r@[i]).id@ == predefined_category_rows()[i].0
                && r@[i].name@ == predefined_category_rows()[i].1 && (r@[i].color matches Some(c)
                && c@ == predefined_category_rows()[i].2) && r@[i].is_system,
{
    let mut v: Vec<Category> = Vec::new();
    v.push(system_category("cat_daily", "Daily", "#3B82F6"));
    v.push(system_category("cat_sales", "Sales", "#10B981"));
    v.push(system_category("cat_strategy", "Strategy", "#8B5CF6"));
    v.push(system_category("cat_product", "Product", "#F59E0B"));
    v.push(system_category("cat_weekly", "Weekly", "#EC4899"));
    v.push(system_category("cat_hr", "HR", "#6366F1"));
    v.push(system_category("cat_engineering", "Engineering", "#14B8A6"));
    v.push(system_category("cat_design", "Design", "#F97316"));
    v
}

/// A user-defined tag.
#[derive(Clone, Debug)]
pub struct Tag {
    pub id: String,
    pub name: String,
    pub color: Option<String>,
    pub usage_count: i32,
}

/// Search filters.
#[derive(Clone, Debug)]
pub struct SearchFilters {
    pub category_ids: Option<Vec<String>>,
    pub tag_ids: Option<Vec<String>>,
    pub date_from: Option<String>,
    pub date_to: Option<String>,
    pub search_transcripts: bool,
}

/// A registered speaker with a voice profile.
#[derive(Clone, Debug)]
pub struct RegisteredSpeakerDb {
    pub id: String,
    pub name: String,
    pub created_at: String,
    pub sample_count: i32,
    pub last_seen: Option<String>,
}

/// Speaker label override for a specific recording.
#[derive(Clone, Debug)]
pub struct SpeakerLabel {
    pub recording_id: String,
    pub speaker_id: String,
    pub custom_label: String,
}

/// Progress information for a retranscription job.
#[derive(Clone, Debug)]
pub struct RetranscriptionProgress {
    pub recording_id: String,
    /// "loading" | "processing" | "completed" | "failed"
    pub status: String,
    pub progress_percent: u32,
    pub current_chunk: u32,
    pub total_chunks: u32,
    pub message: String,
}

} // verus!
