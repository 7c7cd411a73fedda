use meeting_local::stream_errors::{classify_stream_error, AudioErrorKind};
use meeting_local::chunk_buffer::ChunkBuffer;
use meeting_local::mixer_buffer::{AudioMixerRingBuffer, DeviceType};
use meeting_local::runtime_state::{
    clear_cancelled, is_cancelled, is_live_diarization_enabled, is_recording, mark_cancelled,
    mark_speech_detected, next_sequence_id, pause_resume_gate, reset_speech_detected_flag,
    set_live_diarization_enabled, set_recording, set_recording_manager, take_recording_manager,
    was_speech_detected, with_recording_manager, with_recording_manager_mut, CancelledRecordings,
    RecordingState, TranscriptionState,
};
use meeting_local::sidecar::{
    check_model_file_size, completion_model, finish_reason, find_complete_json, has_native_tool_support,
    inject_tools_into_messages, is_model_file_extension, message_kind, model_info,
    parse_error_response, parse_method, parse_tool_choice, tool_calls_from_text, FunctionCall, TextToolCall, ToolCall,
    preprocess_messages, response_for, returned_tool_calls, streamed_tool_calls, tool_mode,
    unknown_method_message, Message, MessageKind, RpcMethod, ToolChoiceKind, ToolDefinition,
};
use meeting_local::task_registry::{
    cancel_session_tasks, cancel_task, is_session_processing, register_task, remove_task, ChatTaskRegistry,
};
use meeting_local::chat_context::{native_step, NativeAction, NativeEvent};
use meeting_local::models::ChatMessageStatus;
use meeting_local::retranscription::{ChunkAction, ChunkEvent, ChunkRun};
use meeting_local::transcription_flow::{
    transcription_error_handling, ErrorHandling, SegmentDecision, SegmentNumbering, TranscriptionErrorKind,
};
use tokio_util::sync::CancellationToken;

fn msg(role: &str, content: &str) -> Message {
    Message { role: role.to_string(), content: content.to_string(), tool_calls: None, tool_call_id: None }
}

#[test]
fn system_messages_fold_into_user_messages() {
    let out = preprocess_messages(vec![msg("system", "S"), msg("user", "U"), msg("assistant", "A")]);
    assert_eq!(out.len(), 2);
    assert_eq!(out[0].role, "user");
    assert_eq!(out[0].content, "S\n\nU");
    assert_eq!(out[1].role, "assistant");
    let trailing = preprocess_messages(vec![msg("user", "U"), msg("system", "S")]);
    assert_eq!(trailing.len(), 1);
    assert_eq!(trailing[0].content, "S\n\nU");
    assert!(trailing.iter().all(|m| m.role != "system"));
    let only_system = preprocess_messages(vec![msg("system", "S"), msg("assistant", "A")]);
    assert_eq!(only_system.len(), 2);
    assert_eq!(only_system[0].role, "user");
    assert_eq!(only_system[0].content, "S");
    assert_eq!(only_system[1].content, "A");
}

#[test]
fn system_text_goes_to_first_user_message() {
    let out = preprocess_messages(vec![
        msg("system", "s1"),
        msg("user", "a"),
        msg("system", "s2"),
        msg("tool", "t"),
        msg("user", "b"),
    ]);
    assert_eq!(out.len(), 3);
    assert_eq!(out[0].content, "s1\n\ns2\n\na");
    assert_eq!(out[1].role, "tool");
    assert_eq!(out[1].content, "t");
    assert_eq!(out[2].role, "user");
    assert_eq!(out[2].content, "b");
}

#[test]
fn native_tool_families() {
    assert!(has_native_tool_support("Qwen2.5-7B-Instruct"));
    assert!(has_native_tool_support("mistral-7b"));
    assert!(!has_native_tool_support("llama-3.2-1b"));
    let tools = Some(vec![ToolDefinition {
        name: "t".to_string(),
        description: "d".to_string(),
        parameters: "null".to_string(),
    }]);
    let m = tool_mode(&tools, "llama");
    assert!(m.use_prompt_injection && !m.use_native_tools);
    let n = tool_mode(&None, "qwen");
    assert!(!n.use_prompt_injection && !n.use_native_tools);
    assert_eq!(parse_tool_choice("none"), ToolChoiceKind::Off);
    assert_eq!(parse_tool_choice("required"), ToolChoiceKind::Auto);
}

#[test]
fn tool_calls_read_from_text() {
    let text = "Sure. {\"tool_call\": {\"name\": \"clock\", \"arguments\": {\"tz\": \"UTC\"}}} done";
    assert_eq!(
        find_complete_json(text),
        Some("{\"tool_call\": {\"name\": \"clock\", \"arguments\": {\"tz\": \"UTC\"}}}".to_string())
    );
    let clock = || TextToolCall { name: "clock".to_string(), arguments: "{\"tz\":\"UTC\"}".to_string() };
    let calls = tool_calls_from_text(Some(clock()));
    assert_eq!(calls.len(), 1);
    assert_eq!(calls[0].function.name, "clock");
    assert_eq!(calls[0].function.arguments, "{\"tz\":\"UTC\"}");
    assert!(calls[0].id.starts_with("call_"));
    assert_eq!(calls[0].id.len(), 29);
    assert!(calls[0].id[5..].chars().all(|c| c.is_ascii_hexdigit() && !c.is_ascii_uppercase()));
    assert!(tool_calls_from_text(None).is_empty());
    let streamed = streamed_tool_calls(vec![], true, Some(clock()));
    assert_eq!(streamed.len(), 1);
    assert_eq!(streamed[0].function.name, "clock");
    assert_eq!(streamed[0].id.len(), 29);
    assert!(streamed_tool_calls(vec![], false, Some(clock())).is_empty());
    let engine = vec![ToolCall {
        id: "e1".to_string(),
        function: FunctionCall { name: "x".to_string(), arguments: "{}".to_string() },
    }];
    assert_eq!(streamed_tool_calls(engine, true, Some(clock()))[0].id, "e1");
    assert!(returned_tool_calls(None, true, None).is_none());
    let returned = returned_tool_calls(None, true, Some(clock())).unwrap();
    assert_eq!(returned[0].function.arguments, "{\"tz\":\"UTC\"}");
}

#[test]
fn message_kinds() {
    assert_eq!(message_kind(&msg("user", "x")), MessageKind::User);
    assert_eq!(message_kind(&msg("assistant", "x")), MessageKind::Assistant);
    assert_eq!(message_kind(&msg("tool", "x")), MessageKind::Skipped);
    let mut t = msg("tool", "x");
    t.tool_call_id = Some("c".to_string());
    assert_eq!(message_kind(&t), MessageKind::ToolResult);
    assert_eq!(message_kind(&msg("other", "x")), MessageKind::User);
}

#[test]
fn json_rpc_answers() {
    assert_eq!(parse_method("complete"), RpcMethod::Complete);
    assert_eq!(unknown_method_message("x"), "Unknown method: x");
    let ok = response_for(7, Ok("true".to_string()));
    assert_eq!(ok.id, 7);
    assert_eq!(ok.result, Some("true".to_string()));
    assert_eq!(ok.jsonrpc, "2.0");
    assert!(ok.error.is_none());
    let err = response_for(8, Err("bad".to_string()));
    let e = err.error.unwrap();
    assert_eq!(e.code, -32000);
    assert_eq!(e.message, "bad");
    let p = parse_error_response("eof");
    assert_eq!(p.id, 0);
    assert_eq!(p.error.unwrap().message, "Parse error: eof");
    assert_eq!(
        check_model_file_size(1234),
        Err("Model file too small (1234 bytes), likely not a valid GGUF model".to_string())
    );
    assert_eq!(check_model_file_size(10_000_000), Ok(()));
}

#[test]
fn recording_state_and_pause_gate() {
    let mut state: RecordingState<u32, u32> = RecordingState::new();
    assert!(!is_recording(&state));
    assert_eq!(pause_resume_gate(&state), Err("No recording is currently active".to_string()));
    set_recording(&mut state, true);
    assert_eq!(pause_resume_gate(&state), Err("No recording manager found".to_string()));
    set_recording_manager(&mut state, Some(5));
    assert_eq!(pause_resume_gate(&state), Ok(()));
    assert_eq!(with_recording_manager(&state, |m: Option<&u32>| m.copied()), Some(5));
    with_recording_manager_mut(&mut state, |m: Option<&mut u32>| {
        if let Some(v) = m {
            *v += 1;
        }
    });
    assert_eq!(take_recording_manager(&mut state), Some(6));
    assert_eq!(take_recording_manager(&mut state), None);
}

#[test]
fn transcription_counters_and_flags() {
    let mut t = TranscriptionState::new();
    let a = next_sequence_id(&mut t);
    let b = next_sequence_id(&mut t);
    assert_eq!(b, a + 1);
    assert!(!was_speech_detected(&t));
    assert!(mark_speech_detected(&mut t));
    assert!(was_speech_detected(&t));
    assert!(!mark_speech_detected(&mut t));
    assert!(!is_live_diarization_enabled(&t));
    set_live_diarization_enabled(&mut t, true);
    assert!(is_live_diarization_enabled(&t));
    reset_speech_detected_flag(&mut t);
    assert!(mark_speech_detected(&mut t));
}

#[test]
fn cancelled_recordings() {
    let mut c = CancelledRecordings::new();
    assert!(!is_cancelled(&c, "r1"));
    mark_cancelled(&mut c, "r1");
    mark_cancelled(&mut c, "r1");
    assert!(is_cancelled(&c, "r1"));
    assert!(!is_cancelled(&c, "r2"));
    clear_cancelled(&mut c, "r1");
    assert!(!is_cancelled(&c, "r1"));
}

#[test]
fn task_registry_tracks_sessions() {
    let mut reg = ChatTaskRegistry::new();
    let t1 = CancellationToken::new();
    let t2 = CancellationToken::new();
    register_task(&mut reg, "m1".to_string(), "s1".to_string(), t1.clone());
    register_task(&mut reg, "m2".to_string(), "s2".to_string(), t2.clone());
    assert!(is_session_processing(&reg, "s1"));
    cancel_session_tasks(&mut reg, "s1");
    assert!(t1.is_cancelled());
    assert!(!is_session_processing(&reg, "s1"));
    assert!(is_session_processing(&reg, "s2"));
    assert!(cancel_task(&mut reg, "m2").is_some());
    assert!(t2.is_cancelled());
    assert!(cancel_task(&mut reg, "m2").is_none());
    register_task(&mut reg, "m3".to_string(), "s3".to_string(), CancellationToken::new());
    remove_task(&mut reg, "m3");
    assert!(!is_session_processing(&reg, "s3"));
}

#[test]
fn ring_buffer_windows() {
    let mut b: AudioMixerRingBuffer<i32> = AudioMixerRingBuffer::with_window(2, 0);
    assert!(!b.can_mix());
    assert!(b.extract_window().is_none());
    b.add_samples(DeviceType::Microphone, vec![1, 2, 3]);
    assert!(b.can_mix());
    assert_eq!(b.extract_window(), Some((vec![1, 2], vec![0, 0])));
    assert!(!b.can_mix());
    b.add_samples(DeviceType::System, (0..100).collect());
    let (m, s) = b.extract_window().unwrap();
    assert_eq!(m, vec![3, 0]);
    assert_eq!(s, vec![84, 85]);
}

#[test]
fn tools_injected_into_system_message() {
    let tools = vec![ToolDefinition {
        name: "clock".to_string(),
        description: "time".to_string(),
        parameters: r#"{"type": "object", "properties": {}}"#.to_string(),
    }];
    let mut with_system = vec![msg("system", "S"), msg("user", "U")];
    inject_tools_into_messages(&mut with_system, &tools);
    assert_eq!(with_system.len(), 2);
    assert!(with_system[0].content.starts_with("S\n\n=== IMPORTANT: AVAILABLE TOOLS ===\n"));
    assert!(with_system[0].content.contains(
        "TOOL: clock\nDescription: time\nParameters: {\n  \"properties\": {},\n  \"type\": \"object\"\n}\n\n"
    ));
    let mut unparsable = vec![msg("user", "U")];
    let broken = vec![ToolDefinition {
        name: "x".to_string(),
        description: "y".to_string(),
        parameters: "{oops".to_string(),
    }];
    inject_tools_into_messages(&mut unparsable, &broken);
    assert!(unparsable[0].content.contains("TOOL: x\nDescription: y\nParameters: {}\n\n"));
    let mut without = vec![msg("user", "U")];
    inject_tools_into_messages(&mut without, &tools);
    assert_eq!(without.len(), 2);
    assert_eq!(without[0].role, "system");
    assert!(without[0].content.starts_with("\n\n=== IMPORTANT"));
    assert_eq!(finish_reason(true), "tool_calls");
    assert_eq!(finish_reason(false), "stop");
}

#[test]
fn model_files_listed() {
    assert!(is_model_file_extension(&Some("gguf".to_string())));
    assert!(!is_model_file_extension(&Some("bin".to_string())));
    assert!(!is_model_file_extension(&None));
    let loaded = Some("phi".to_string());
    let a = model_info("phi", 12, &loaded);
    assert!(a.is_loaded);
    assert_eq!(a.name, "phi");
    assert_eq!(a.size_bytes, 12);
    assert!(!model_info("qwen", 1, &loaded).is_loaded);
}

#[test]
fn chunk_buffer_fills_chunks_in_order() {
    let mut b: ChunkBuffer<i32> = ChunkBuffer::new(3);
    b.extend(&vec![1, 2]);
    assert!(b.take_chunk().is_none());
    assert_eq!(b.len(), 2);
    b.extend(&vec![3, 4, 5, 6, 7]);
    assert_eq!(b.take_chunk(), Some(vec![1, 2, 3]));
    assert_eq!(b.take_chunk(), Some(vec![4, 5, 6]));
    assert!(b.take_chunk().is_none());
    assert_eq!(b.len(), 1);
}

#[test]
fn stream_errors_classified() {
    assert_eq!(classify_stream_error("The Device Is No Longer Available"), AudioErrorKind::DeviceDisconnected);
    assert_eq!(classify_stream_error("Access denied by system"), AudioErrorKind::PermissionDenied);
    assert_eq!(classify_stream_error("channel closed"), AudioErrorKind::ChannelClosed);
    assert_eq!(classify_stream_error("backend hiccup"), AudioErrorKind::StreamFailed);
}

#[test]
fn native_completion_steps() {
    let (i, a) = native_step(0, NativeEvent::Response { content: "c".to_string(), tool_calls: 2 });
    assert_eq!(i, 1);
    assert!(matches!(a, NativeAction::RunTools));
    let (i, a) = native_step(10, NativeEvent::Response { content: "last".to_string(), tool_calls: 1 });
    assert_eq!(i, 10);
    assert!(matches!(a, NativeAction::Complete(ref c) if c == "last"));
    let (_, a) = native_step(3, NativeEvent::Response { content: "done".to_string(), tool_calls: 0 });
    assert!(matches!(a, NativeAction::Complete(ref c) if c == "done"));
    match native_step(1, NativeEvent::ToolsRan { cancelled: true }).1 {
        NativeAction::Stop(s) => {
            assert_eq!(s.status, ChatMessageStatus::Cancelled);
            assert_eq!(s.stored_error, None);
            assert_eq!(s.returned_error, "Cancelled");
        }
        _ => panic!("expected a stop"),
    }
    assert!(matches!(native_step(1, NativeEvent::ToolsRan { cancelled: false }).1, NativeAction::RequestCompletion));
    match native_step(0, NativeEvent::StreamFailed("boom".to_string())).1 {
        NativeAction::Stop(s) => {
            assert_eq!(s.status, ChatMessageStatus::Error);
            assert_eq!(s.stored_error, Some("boom".to_string()));
            assert_eq!(s.returned_error, "boom");
        }
        _ => panic!("expected a stop"),
    }
    assert!(matches!(native_step(2, NativeEvent::FollowUpFailed("x".to_string())).1, NativeAction::Abort(ref e) if e == "x"));
}

#[test]
fn retranscription_chunk_loop() {
    let mut run = ChunkRun::new(2);
    match run.step(ChunkEvent::Ready { cancelled: false }) {
        ChunkAction::Transcribe { progress } => assert_eq!(progress, "Transcribing chunk 1 of 2..."),
        _ => panic!("expected a chunk"),
    }
    let a = run.step(ChunkEvent::Transcribed { outcome: Ok("  hello ".to_string()), start_ms: 0, end_ms: 30000, cancelled: false });
    assert!(matches!(a, ChunkAction::Proceed));
    assert_eq!(run.segments.len(), 1);
    assert_eq!(run.segments[0].text, "hello");
    assert_eq!(run.segments[0].sequence_id, 0);
    assert_eq!(run.segments[0].end_ms, 30000);
    assert!(matches!(run.step(ChunkEvent::Ready { cancelled: false }), ChunkAction::Transcribe { .. }));
    let a = run.step(ChunkEvent::Transcribed { outcome: Err("bad".to_string()), start_ms: 30000, end_ms: 45000, cancelled: false });
    assert!(matches!(a, ChunkAction::Proceed));
    assert_eq!(run.segments.len(), 1);
    assert!(matches!(run.step(ChunkEvent::Ready { cancelled: false }), ChunkAction::Done));
    let mut cancelled = ChunkRun::new(3);
    assert!(matches!(cancelled.step(ChunkEvent::Ready { cancelled: true }), ChunkAction::Cancel));
    let a = cancelled.step(ChunkEvent::Transcribed { outcome: Ok("   ".to_string()), start_ms: 0, end_ms: 1, cancelled: true });
    assert!(matches!(a, ChunkAction::Cancel));
    assert_eq!(cancelled.segments.len(), 0);
    assert_eq!(cancelled.next, 1);
}

#[test]
fn speech_segments_numbered_in_send_order() {
    let mut n = SegmentNumbering::new();
    assert_eq!(n.decide(799, true), SegmentDecision::TooShort);
    assert_eq!(n.decide(800, false), SegmentDecision::WarmUpDiscard);
    assert_eq!(n.decide(800, true), SegmentDecision::Send { chunk_id: 0, sample_rate: 16000 });
    n.record_send(true);
    assert_eq!(n.decide(4000, true), SegmentDecision::Send { chunk_id: 1, sample_rate: 16000 });
    n.record_send(false);
    assert_eq!(n.decide(4000, true), SegmentDecision::Send { chunk_id: 1, sample_rate: 16000 });
    n.record_send(true);
    assert_eq!(n.next_id, 2);
}

#[test]
fn completion_needs_a_loaded_model() {
    assert_eq!(completion_model(false, &Some("phi".to_string())), Err("No model loaded".to_string()));
    assert_eq!(completion_model(true, &Some("phi".to_string())), Ok("phi".to_string()));
    assert_eq!(completion_model(true, &None), Ok("unknown".to_string()));
}

#[test]
fn failed_transcriptions_counted() {
    assert_eq!(transcription_error_handling(TranscriptionErrorKind::AudioTooShort), ErrorHandling::CountCompleted);
    assert_eq!(transcription_error_handling(TranscriptionErrorKind::ModelNotLoaded), ErrorHandling::CountCompleted);
    assert_eq!(transcription_error_handling(TranscriptionErrorKind::Other), ErrorHandling::Warn);
}
