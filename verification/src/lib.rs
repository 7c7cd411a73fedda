//! Verified core logic of a local meeting-transcription application.
pub mod text;
pub mod outside;
pub mod json_scan;
pub mod models;
pub mod tool_calls;
pub mod sidecar;
pub mod hardware;
pub mod recommendations;
pub mod transcript_text;
pub mod templates;
pub mod settings;
pub mod search;
pub mod runtime_state;
pub mod task_registry;
pub mod mixer_buffer;
pub mod update_plan;
pub mod chat_context;
pub mod speaker_merge;
pub mod retranscription;
pub mod transcription_flow;
pub mod migrations;
pub mod tool_prompt;
pub mod naming;
pub mod tool_loop;
pub mod chunk_buffer;
pub mod stream_errors;
