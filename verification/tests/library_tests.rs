use meeting_local::naming::{
    copy_name, imported_chat_title, new_category_id, new_custom_template_id, new_mcp_server_id,
    new_mcp_tool_id, new_tag_id, next_sequence_number, next_sort_order, recordings_list_query,
};
use meeting_local::chat_context::{
    build_prompt_messages, completion_mode, completion_precheck, continue_native_tool_loop,
    native_mcp_target, native_tool_error_text, new_exchange, status_report, system_prompt,
    transcript_context, CompletionMode, TranscriptLine,
};
use meeting_local::migrations::pending_migrations;
use meeting_local::models::{
    ChatMessage, ChatMessageStatus, ChatRole, McpServer, McpServerStatus, SearchFilters, Tool,
    ToolExecutionLocation, ToolType, UpdateMcpServer, UpdatePromptTemplate, UpdateTool,
};
use meeting_local::retranscription::{
    chunk_progress_message, chunk_segment, decode_failure_message, model_load_failure_message,
    needs_model_load, processing_message, provider_display_name, resolve_options, sortformer_speaker,
};
use meeting_local::search::{build_search_query, fts_query, merge_results, search_plan, SearchKind};
use meeting_local::settings::{has_key, settings_from_rows, AllSettings};
use meeting_local::speaker_merge::{
    align_speakers_with_transcripts, assign_and_merge_speakers, find_best_speaker_segment, merge_consecutive,
    SpeakerSegment, TimedSegment,
};
use meeting_local::templates::{
    builtin_template_id, convert_template_to_prompt, get_icon_for_template, JsonTemplate, TemplateSection,
};
use meeting_local::transcript_text::{
    chunk_bounds, device_audio_file_name, extract_text_portion, meeting_folder_name, sanitize_filename,
};
use meeting_local::transcription_flow::{
    idle_worker_action, is_flush_signal, route_speech_segment, verify_step, IdleAction, SegmentRoute,
    VerifyAction,
};
use meeting_local::update_plan::{
    check_mcp_server_update, check_template_deletion, check_tool_deletion, mcp_server_update_statement,
    template_update_statement, tool_update_statement, tools_by_ids_query, SqlValue,
};
use meeting_local::settings::bool_setting;
use std::collections::HashMap;

fn line(t: &str, s: Option<&str>, x: &str) -> TranscriptLine {
    TranscriptLine { display_time: t.to_string(), speaker_label: s.map(|v| v.to_string()), text: x.to_string() }
}

#[test]
fn transcript_context_lines() {
    let lines = vec![line("00:01", Some("Ann"), "Hello"), line("00:05", None, "Hi")];
    assert_eq!(transcript_context(&lines), "[00:01] Ann: Hello\n[00:05] Unknown: Hi");
    assert_eq!(transcript_context(&vec![]), "No transcript available for this recording.");
    assert_eq!(
        system_prompt("T"),
        "You are a helpful assistant analyzing a meeting transcript. Answer questions about the meeting based on the transcript below.\n\nTRANSCRIPT:\nT\n\nProvide clear, concise answers based on the transcript content."
    );
}

#[test]
fn history_skips_unfinished_and_system_messages() {
    let mut done = ChatMessage::user("s", "r", "question", 1);
    done.status = ChatMessageStatus::Complete;
    let pending = ChatMessage::assistant_pending("s", "r", 2, None, None);
    let sys = ChatMessage::system("s", "r", "context");
    let mut answer = ChatMessage::assistant_pending("s", "r", 3, None, None);
    answer.status = ChatMessageStatus::Complete;
    answer.content = "answer".to_string();
    let msgs = build_prompt_messages(&vec![], &vec![done, pending, sys, answer]);
    assert_eq!(msgs.len(), 3);
    assert_eq!(msgs[0].role, ChatRole::System);
    assert!(msgs[0].content.contains("No transcript available for this recording."));
    assert_eq!(msgs[1].role, ChatRole::User);
    assert_eq!(msgs[1].content, "question");
    assert_eq!(msgs[2].role, ChatRole::Assistant);
    assert_eq!(msgs[2].content, "answer");
}

#[test]
fn completion_decisions() {
    assert_eq!(completion_mode(true, false), CompletionMode::SimulatedTools);
    assert_eq!(completion_mode(true, true), CompletionMode::Streaming);
    assert_eq!(completion_mode(false, false), CompletionMode::Streaming);
    assert!(continue_native_tool_loop(1, 9));
    assert!(!continue_native_tool_loop(1, 10));
    assert!(!continue_native_tool_loop(0, 0));
    assert_eq!(native_tool_error_text("x"), "Error executing tool: x");
    let stop = completion_precheck(true, true).unwrap();
    assert_eq!(stop.status, ChatMessageStatus::Cancelled);
    assert_eq!(stop.returned_error, "Cancelled");
    let stop = completion_precheck(false, false).unwrap();
    assert_eq!(stop.status, ChatMessageStatus::Error);
    assert_eq!(stop.returned_error, "LLM engine not ready");
    assert_eq!(
        stop.stored_error,
        Some("LLM engine not ready. Please configure an LLM provider in settings.".to_string())
    );
    assert!(completion_precheck(false, true).is_none());
}

#[test]
fn native_calls_route_to_mcp_only_for_mcp_tools() {
    let mut t = Tool::new_custom("files", None, "{}", None);
    t.tool_type = "mcp".to_string();
    t.id = "m1".to_string();
    let b = Tool::new_custom("clock", None, "{}", None);
    let tools = vec![t, b];
    assert_eq!(native_mcp_target(&tools, "files"), Some("m1".to_string()));
    assert_eq!(native_mcp_target(&tools, "clock"), None);
    assert_eq!(native_mcp_target(&tools, "other"), None);
}

#[test]
fn exchange_messages() {
    let e = new_exchange("s1", "r1", "hi", 4, Some("ollama".to_string()), None);
    assert_eq!(e.user.sequence_id, 4);
    assert_eq!(e.assistant.sequence_id, 5);
    assert_eq!(e.user.role, ChatRole::User);
    assert_eq!(e.assistant.status, ChatMessageStatus::Pending);
    assert_eq!(e.assistant.provider_type, Some("ollama".to_string()));
    assert!(e.update_session_config);
    assert_ne!(e.user.id, e.assistant.id);
    assert_eq!(e.user.id.len(), 36);
    let session = meeting_local::chat_context::new_chat_session("r1", None, None, Some("m".to_string()));
    assert_eq!(session.title, "New Chat");
    assert_eq!(session.model_id, Some("m".to_string()));
    let f = new_exchange("s1", "r1", "hi", 0, None, None);
    assert!(!f.update_session_config);
    let r = status_report(&e.assistant);
    assert_eq!(r.status, "pending");
    assert_eq!(r.message_id, e.assistant.id);
}

#[test]
fn enum_texts_round_trip() {
    for s in [ChatMessageStatus::Pending, ChatMessageStatus::Streaming, ChatMessageStatus::Complete,
              ChatMessageStatus::Error, ChatMessageStatus::Cancelled] {
        assert_eq!(ChatMessageStatus::from_str(s.as_str()), s);
    }
    for r in [ChatRole::User, ChatRole::Assistant, ChatRole::System] {
        assert_eq!(ChatRole::from_str(r.as_str()), r);
    }
    assert_eq!(ChatRole::from_str("ASSISTANT"), ChatRole::Assistant);
    assert_eq!(ChatRole::from_str("bogus"), ChatRole::User);
    assert_eq!(McpServerStatus::from_str(McpServerStatus::Running.as_str()), McpServerStatus::Running);
    assert_eq!(ToolType::from_str(ToolType::Mcp.as_str()), ToolType::Mcp);
    assert_eq!(
        ToolExecutionLocation::from_str(ToolExecutionLocation::Frontend.as_str()),
        ToolExecutionLocation::Frontend
    );
}

#[test]
fn enum_texts_ignore_case() {
    for text in ["SyStEm", "Assistant", "whatever"] {
        assert_eq!(ChatRole::from_str(text), ChatRole::from_str(&text.to_lowercase()));
    }
    assert_eq!(ChatMessageStatus::from_str("CANCELLED"), ChatMessageStatus::Cancelled);
    assert_eq!(ChatMessageStatus::from_str("done"), ChatMessageStatus::Complete);
    assert_eq!(McpServerStatus::from_str("Starting"), McpServerStatus::Starting);
    assert_eq!(McpServerStatus::from_str("crashed"), McpServerStatus::Stopped);
    assert_eq!(ToolType::from_str("BUILTIN"), ToolType::Builtin);
    assert_eq!(ToolType::from_str("plugin"), ToolType::Custom);
    assert_eq!(ToolExecutionLocation::from_str("FrontEnd"), ToolExecutionLocation::Frontend);
    assert_eq!(ToolExecutionLocation::from_str("cloud"), ToolExecutionLocation::Backend);
}

#[test]
fn mcp_server_stores_args_as_json() {
    let s = McpServer::new("fs", "npx", vec!["-y".to_string(), "pkg".to_string()], HashMap::new(), None, true);
    assert_eq!(s.args, "[\"-y\",\"pkg\"]");
    assert_eq!(s.env, "{}");
    assert_eq!(s.get_args(), vec!["-y".to_string(), "pkg".to_string()]);
    assert_eq!(s.status, "stopped");
    assert!(s.enabled);
    let mut t = s.clone();
    t.args = "not json".to_string();
    assert!(t.get_args().is_empty());
}

#[test]
fn sanitized_names() {
    assert_eq!(sanitize_filename("  a/b:c*d?  "), "a_b_c_d_");
    assert_eq!(sanitize_filename("x\ty"), "x_y");
    assert_eq!(sanitize_filename("Team <Sync> | Q3"), "Team _Sync_ _ Q3");
    assert_eq!(meeting_folder_name(" Q3: plan ", "2024-01-02_10-30"), "Q3_ plan_2024-01-02_10-30");
    assert_eq!(device_audio_file_name("usb/mic\\1", "t"), "usb_mic_1_t.mp4");
}

#[test]
fn text_portions_break_at_words() {
    let text = "hello world and more";
    assert_eq!(extract_text_portion(text, 0, 11), "hello");
    assert_eq!(extract_text_portion(text, 7, 20), "and more");
    assert_eq!(extract_text_portion(text, 30, 40), "");
}

#[test]
fn chunks_tile_the_samples() {
    assert_eq!(chunk_bounds(5, 2), vec![(0, 2), (2, 4), (4, 5)]);
    assert_eq!(chunk_bounds(16000 * 5, 16000).len(), 5);
    assert!(chunk_bounds(0, 0).is_empty());
}

#[test]
fn template_prompt_and_icons() {
    let t = JsonTemplate {
        name: "Standup".to_string(),
        description: "d".to_string(),
        sections: vec![TemplateSection {
            title: "Done".to_string(),
            instruction: "List work".to_string(),
            format: "list".to_string(),
            item_format: Some("- item".to_string()),
        }],
    };
    assert_eq!(
        convert_template_to_prompt(&t),
        "Please analyze this meeting transcript and create Standup notes.\n\nStructure your response with the following sections:\n\n## 1 Done\nList work\nUse this format:\n- item\n\nPlease be thorough but concise, focusing on actionable information."
    );
    assert_eq!(get_icon_for_template("Daily Standup"), "Users");
    assert_eq!(get_icon_for_template("Retro"), "Target");
    assert_eq!(get_icon_for_template("Other"), "FileText");
    assert_eq!(builtin_template_id("standup"), "builtin_standup");
}

#[test]
fn settings_read_last_value() {
    let rows = vec![
        ("language".to_string(), "en".to_string()),
        ("mic_rnnoise".to_string(), "false".to_string()),
        ("language".to_string(), "de".to_string()),
    ];
    let s = settings_from_rows(&rows);
    assert_eq!(s.language, Some("de".to_string()));
    assert!(!s.mic_rnnoise);
    assert!(has_key(&rows, "language"));
    assert!(!has_key(&rows, "current_model"));
    let d = AllSettings::default();
    assert!(d.language.is_none());
}

fn filters(search_transcripts: bool) -> SearchFilters {
    SearchFilters { category_ids: None, tag_ids: None, date_from: None, date_to: None, search_transcripts }
}

#[test]
fn search_queries() {
    assert_eq!(fts_query("a \"b\""), "\"a \"\"b\"\"\"");
    assert_eq!(search_plan("", &filters(true)), vec![SearchKind::FilterOnly]);
    assert_eq!(
        search_plan("x", &filters(false)),
        vec![SearchKind::Title, SearchKind::CategoryName, SearchKind::TagName]
    );
    let mut f = filters(true);
    f.date_from = Some("2024-01-01".to_string());
    f.category_ids = Some(vec!["c1".to_string(), "c2".to_string()]);
    let q = build_search_query(SearchKind::Title, "plan", &f);
    assert_eq!(q.params, vec!["%plan%", "2024-01-01", "c1", "c2"]);
    assert!(q.sql.contains("WHERE r.title LIKE ?1"));
    assert!(q.sql.ends_with(
        " AND r.created_at >= ?2 AND r.id IN (SELECT recording_id FROM recording_categories WHERE category_id IN (?3, ?4)) ORDER BY r.created_at DESC"
    ));
    let t = build_search_query(SearchKind::Transcript, "x", &filters(true));
    assert!(t.sql.ends_with(" ORDER BY r.created_at DESC LIMIT 50"));
    let mut results = vec![("a".to_string(), 0)];
    let incoming = vec![("a".to_string(), 1), ("b".to_string(), 2), ("b".to_string(), 3), ("c".to_string(), 4)];
    merge_results(&mut results, incoming);
    assert_eq!(results.iter().map(|r| r.1).collect::<Vec<_>>(), vec![0, 2, 4]);
}

#[test]
fn tool_updates() {
    let input = UpdateTool {
        name: Some("n".to_string()),
        description: None,
        function_schema: None,
        execution_location: None,
        enabled: Some(false),
        is_default: None,
        icon: None,
        sort_order: Some(3),
    };
    let s = tool_update_statement("t1", "custom", &input).unwrap();
    assert_eq!(s.sql, "UPDATE tools SET name = ?, sort_order = ?, enabled = ? WHERE id = ?");
    assert!(matches!(&s.params[0], SqlValue::Text(v) if v == "n"));
    assert!(matches!(&s.params[1], SqlValue::Integer(3)));
    assert!(matches!(&s.params[2], SqlValue::Integer(0)));
    assert!(matches!(&s.params[3], SqlValue::Text(v) if v == "t1"));
    let b = tool_update_statement("t1", "builtin", &input).unwrap();
    assert_eq!(b.sql, "UPDATE tools SET enabled = ? WHERE id = ?");
    let nothing = UpdateTool {
        name: Some("n".to_string()),
        description: None,
        function_schema: None,
        execution_location: None,
        enabled: None,
        is_default: None,
        icon: None,
        sort_order: None,
    };
    assert!(tool_update_statement("t1", "builtin", &nothing).is_none());
}

#[test]
fn template_and_mcp_updates() {
    let input = UpdatePromptTemplate {
        name: None,
        description: None,
        prompt: Some("p".to_string()),
        icon: Some("i".to_string()),
        sort_order: None,
    };
    assert_eq!(
        template_update_statement("x", true, &input).err(),
        Some("Cannot update built-in templates".to_string())
    );
    let s = template_update_statement("x", false, &input).unwrap().unwrap();
    assert_eq!(s.sql, "UPDATE prompt_templates SET prompt = ?, icon = ? WHERE id = ?");
    assert_eq!(s.params.len(), 3);

    assert_eq!(check_mcp_server_update(false, &None, &None, "a"), Err("MCP server not found".to_string()));
    assert_eq!(
        check_mcp_server_update(true, &Some("fs".to_string()), &Some("b".to_string()), "a"),
        Err("MCP server with name 'fs' already exists".to_string())
    );
    assert_eq!(check_mcp_server_update(true, &Some("fs".to_string()), &Some("a".to_string()), "a"), Ok(()));
    let m = UpdateMcpServer {
        name: None,
        command: None,
        args: Some(vec!["x".to_string()]),
        env: None,
        working_directory: None,
        auto_start: Some(true),
        enabled: None,
    };
    let st = mcp_server_update_statement("a", &m).unwrap();
    assert_eq!(st.sql, "UPDATE mcp_servers SET args = ?, auto_start = ? WHERE id = ?");
    assert!(matches!(&st.params[0], SqlValue::Text(v) if v == "[\"x\"]"));
    assert!(matches!(&st.params[1], SqlValue::Integer(1)));
}

fn seg(text: &str, start_ms: u64, end_ms: u64) -> TimedSegment {
    TimedSegment {
        text: text.to_string(),
        start_ms,
        end_ms,
        confidence_permille: 950,
        sequence_id: 0,
        speaker_id: None,
        speaker_label: None,
        is_registered_speaker: false,
    }
}

fn speaker(start_ms: u64, end_ms: u64, id: &str) -> SpeakerSegment {
    SpeakerSegment {
        start_ms,
        end_ms,
        speaker_id: id.to_string(),
        speaker_label: id.to_uppercase(),
        is_registered: false,
    }
}

#[test]
fn speakers_assigned_and_merged() {
    let segments = vec![seg("one", 0, 3000), seg("two", 3500, 6000), seg("three", 6000, 9000)];
    let speakers = vec![speaker(0, 6000, "a"), speaker(5000, 9000, "b")];
    let out = assign_and_merge_speakers(&segments, &speakers);
    assert_eq!(out.len(), 2);
    assert_eq!(out[0].text, "one two");
    assert_eq!(out[0].end_ms, 6000);
    assert_eq!(out[0].speaker_id, Some("a".to_string()));
    assert_eq!(out[0].speaker_label, Some("A".to_string()));
    assert_eq!(out[1].text, "three");
    assert_eq!(out[1].speaker_id, Some("b".to_string()));
    assert_eq!(out[0].sequence_id, 0);
    assert_eq!(out[1].sequence_id, 1);
}

#[test]
fn merging_needs_a_short_gap() {
    let out = merge_consecutive(&vec![seg("a", 0, 1000), seg("b", 3000, 4000), seg("c", 4500, 5000)]);
    assert_eq!(out.len(), 2);
    assert_eq!(out[0].text, "a");
    assert_eq!(out[1].text, "b c");
    let ties = assign_and_merge_speakers(&vec![seg("x", 0, 1000)], &vec![speaker(0, 500, "a"), speaker(500, 1000, "b")]);
    assert_eq!(ties[0].speaker_id, Some("a".to_string()));
}

#[test]
fn best_speaker_and_alignment() {
    let speakers = vec![speaker(0, 500, "a"), speaker(500, 1000, "b"), speaker(2000, 3000, "c")];
    assert_eq!(find_best_speaker_segment(&speakers, 0, 1000), Some(1));
    assert_eq!(find_best_speaker_segment(&speakers, 1000, 2000), None);
    assert_eq!(find_best_speaker_segment(&speakers, 2500, 4000), Some(2));
    let aligned = align_speakers_with_transcripts(
        &vec![seg("x", 0, 1000), seg("y", 1900, 6000), seg("z", 4000, 5000)],
        &speakers,
    );
    assert_eq!(aligned[0].speaker_id, Some("a".to_string()));
    assert_eq!(aligned[1].speaker_id, None);
    assert_eq!(aligned[2].speaker_id, None);
    assert_eq!(aligned.len(), 3);
}

#[test]
fn retranscription_options() {
    let o = resolve_options(None, None, None, None);
    assert!(!o.diarization_enabled);
    assert_eq!(o.provider, "pyannote");
    assert_eq!(o.max_speakers, 10);
    assert_eq!(o.model, "current");
    assert!(!needs_model_load("current", &None));
    assert!(needs_model_load("small", &Some("base".to_string())));
    assert!(!needs_model_load("small", &Some("small".to_string())));
    assert_eq!(provider_display_name("sortformer"), "Sortformer");
    assert_eq!(provider_display_name("pyannote"), "PyAnnote");
    assert_eq!(sortformer_speaker(0), ("speaker_0".to_string(), "Speaker 1".to_string()));
    assert_eq!(sortformer_speaker(9), ("speaker_9".to_string(), "Speaker 10".to_string()));
    assert!(chunk_segment("   ", 0, 0, 30000).is_none());
    let s = chunk_segment(" hi ", 2, 60000, 90000).unwrap();
    assert_eq!(s.text, "hi");
    assert_eq!(s.sequence_id, 2);
    assert_eq!(s.confidence_permille, 950);
    assert_eq!(decode_failure_message("e"), "Failed to decode audio: e");
    assert_eq!(model_load_failure_message("m", "e"), "Failed to load model 'm': e");
    assert_eq!(processing_message(12), "Processing 12 chunks...");
    assert_eq!(chunk_progress_message(3, 12), "Transcribing chunk 3 of 12...");
}

#[test]
fn worker_pool_decisions() {
    assert_eq!(idle_worker_action(false, 3, 1), IdleAction::Wait(1));
    assert_eq!(idle_worker_action(true, 3, 1), IdleAction::Wait(5));
    assert_eq!(idle_worker_action(true, 3, 3), IdleAction::Finish);
    assert_eq!(verify_step(0, 4, 4), VerifyAction::AllProcessed);
    assert_eq!(verify_step(3, 4, 2), VerifyAction::Retry(4));
    assert_eq!(verify_step(10, 4, 2), VerifyAction::ReportLoss(2));
    assert!(is_flush_signal(u64::MAX - 3));
    assert!(!is_flush_signal(7));
    assert_eq!(route_speech_segment(799, true), SegmentRoute::TooShort);
    assert_eq!(route_speech_segment(800, true), SegmentRoute::Transcribe);
    assert_eq!(route_speech_segment(800, false), SegmentRoute::WarmUpDiscard);
}

#[test]
fn migrations_pending() {
    assert_eq!(pending_migrations(0), (1..=10).collect::<Vec<i32>>());
    assert_eq!(pending_migrations(8), vec![9, 10]);
    assert!(pending_migrations(10).is_empty());
    assert_eq!(pending_migrations(-3).len(), 10);
}

#[test]
fn record_names_and_numbers() {
    let c = new_category_id();
    assert!(c.starts_with("cat_") && c.len() == 16);
    assert!(c[4..].chars().all(|ch| ch.is_ascii_hexdigit()));
    assert!(new_tag_id().starts_with("tag_"));
    assert_eq!(new_mcp_server_id().len(), 40);
    assert!(new_mcp_tool_id().starts_with("mcp_tool_"));
    assert!(new_custom_template_id().starts_with("custom_"));
    assert_eq!(copy_name("Standup"), "Standup (Copy)");
    assert_eq!(next_sequence_number(None), 1);
    assert_eq!(next_sequence_number(Some(41)), 42);
    assert_eq!(next_sort_order(Some(-1)), 0);
    assert_eq!(imported_chat_title(&None), "Imported Chat");
    assert_eq!(imported_chat_title(&Some("short".to_string())), "short");
    let long = "a".repeat(60);
    assert_eq!(imported_chat_title(&Some(long)), format!("{}...", "a".repeat(50)));
    let wide = "é".repeat(30);
    assert_eq!(imported_chat_title(&Some(wide.clone())), format!("{}...", wide));
    assert!(recordings_list_query(Some(5)).ends_with("ORDER BY created_at DESC\n            LIMIT 5\n            "));
    assert!(recordings_list_query(Some(-2)).contains("LIMIT -2\n"));
    assert!(recordings_list_query(None).ends_with("ORDER BY created_at DESC\n            "));
}

#[test]
fn deletions_and_lookups() {
    assert_eq!(check_tool_deletion("custom"), Ok(()));
    assert_eq!(check_tool_deletion("builtin"), Err("Cannot delete built-in or MCP tools".to_string()));
    assert_eq!(check_tool_deletion("mcp"), Err("Cannot delete built-in or MCP tools".to_string()));
    assert_eq!(check_template_deletion(true), Err("Cannot delete built-in templates".to_string()));
    assert_eq!(check_template_deletion(false), Ok(()));
    assert!(tools_by_ids_query(0).is_none());
    let q = tools_by_ids_query(3).unwrap();
    assert!(q.contains("WHERE t.id IN (?, ?, ?) AND t.enabled = 1"));
    assert!(q.ends_with("ORDER BY t.sort_order ASC, t.created_at ASC\n        "));
    assert!(bool_setting(&Some("true".to_string()), false));
    assert!(!bool_setting(&Some("yes".to_string()), true));
    assert!(bool_setting(&None, true));
}

#[test]
fn eight_predefined_categories() {
    let cats = meeting_local::models::predefined_categories();
    assert_eq!(cats.len(), 8);
    assert!(cats.iter().all(|c| c.is_system));
    let names: Vec<&str> = cats.iter().map(|c| c.name.as_str()).collect();
    assert_eq!(names, vec!["Daily", "Sales", "Strategy", "Product", "Weekly", "HR", "Engineering", "Design"]);
    assert_eq!(cats[0].id, "cat_daily");
    assert_eq!(cats[7].color, Some("#F97316".to_string()));
}

#[test]
fn merged_search_results_hold_each_recording_once() {
    let mut results: Vec<(String, u32)> = vec![("a".to_string(), 1), ("b".to_string(), 2)];
    merge_results(
        &mut results,
        vec![("b".to_string(), 3), ("c".to_string(), 4), ("c".to_string(), 5), ("d".to_string(), 6)],
    );
    assert_eq!(
        results,
        vec![("a".to_string(), 1), ("b".to_string(), 2), ("c".to_string(), 4), ("d".to_string(), 6)]
    );
    merge_results(&mut results, vec![]);
    assert_eq!(results.len(), 4);
}
