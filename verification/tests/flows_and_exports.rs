use nofriction_meetings::startup::{env_fill, ingest_client_config, transcript_event};
use nofriction_meetings::frame_lookup::{frame_ref, parse_i64_chars, FrameRef};
use nofriction_meetings::ai_client::{prompt_test_model, prompt_test_reply, prompt_test_text};
use nofriction_meetings::attendee_intel::enrich_attendee;
use nofriction_meetings::dork_mode::check_session_content;
use nofriction_meetings::session_settings::{model_available, parse_session_mode, parse_theme, SessionMode, Theme};
use nofriction_meetings::capture_metrics::MetricsCollector;
use nofriction_meetings::export_notes::{intelligence_markdown, screenshot_paths, InsightEvent};
use nofriction_meetings::knowledge_sync::{
    analysis_prompt, context_line, ingest_summary, rag_prompt, TranscriptIndexResult,
};
use nofriction_meetings::meeting_timeline::{
    meeting_timeline, sort_by_timestamp, FrameRecord, SnapshotRecord, TimelineEntry, TranscriptRecord,
};
use nofriction_meetings::recording_flow::{
    auto_export_target, ended_meeting_id, frame_action, keyframe_written, FrameAction, FrameOutcome,
};

#[test]
fn duplicate_frames_extend_the_state() {
    let mut m = MetricsCollector::new();
    let a = frame_action(&mut m, FrameOutcome::Extended { state_id: "s1".to_string(), new_end_ms: 900 });
    match a {
        FrameAction::ExtendState { state_id, end_ms } => {
            assert_eq!(state_id, "s1");
            assert_eq!(end_ms, 900);
        }
        _ => panic!("expected an extension"),
    }
    assert_eq!(m.frames_in, 1);
    assert_eq!(m.duplicates_skipped, 1);
    assert_eq!(m.bytes_saved, 50_000);
    assert_eq!(m.states_out, 0);
}

#[test]
fn new_states_save_their_keyframe() {
    let mut m = MetricsCollector::new();
    match frame_action(&mut m, FrameOutcome::NewState { new_state_id: "abc".to_string(), has_keyframe: true }) {
        FrameAction::SaveKeyframe { state_id, file_name } => {
            assert_eq!(state_id, "abc");
            assert_eq!(file_name, "state_abc.jpg");
        }
        _ => panic!("expected a keyframe"),
    }
    assert!(matches!(
        frame_action(&mut m, FrameOutcome::NewState { new_state_id: "d".to_string(), has_keyframe: false }),
        FrameAction::Nothing
    ));
    assert_eq!(m.frames_in, 2);
    assert_eq!(m.states_out, 2);
    assert!(keyframe_written(&mut m, true));
    assert!(!keyframe_written(&mut m, false));
    assert_eq!(m.images_written, 2);
}

#[test]
fn pass_through_frames_are_saved_by_number() {
    let mut m = MetricsCollector::new();
    match frame_action(&mut m, FrameOutcome::PassThrough { frame_number: 42 }) {
        FrameAction::SaveFrame { file_name } => assert_eq!(file_name, "frame_42.jpg"),
        _ => panic!("expected a frame"),
    }
    assert_eq!(m.frames_in, 1);
    assert_eq!(m.duplicates_skipped, 0);
}

#[test]
fn auto_export_needs_setting_vault_and_meeting() {
    assert_eq!(ended_meeting_id(None), "");
    assert_eq!(ended_meeting_id(Some("m1".to_string())), "m1");
    assert_eq!(
        auto_export_target(true, true, "m1".to_string()),
        Some(("Inbox".to_string(), "m1".to_string()))
    );
    assert_eq!(auto_export_target(false, true, "m1".to_string()), None);
    assert_eq!(auto_export_target(true, false, "m1".to_string()), None);
    assert_eq!(auto_export_target(true, true, String::new()), None);
}

#[test]
fn intelligence_sections_in_order() {
    let insights = vec![
        InsightEvent::Decision { text: "ship it".to_string() },
        InsightEvent::ActionItem { text: "write docs".to_string(), assignee: Some("Ana".to_string()) },
        InsightEvent::ActionItem { text: "book room".to_string(), assignee: None },
        InsightEvent::TopicShift { from_topic: "budget".to_string(), to_topic: "hiring".to_string() },
        InsightEvent::RiskSignal { text: "deadline".to_string() },
    ];
    let md = intelligence_markdown(&insights).unwrap();
    assert_eq!(
        md,
        "### Action Items\n\n- write docs *(assigned: Ana)*\n- book room\n\n\
         ### Decisions\n\n- ship it\n\n\
         ### Risk Signals\n\n- ⚠️ deadline\n\n\
         ### Topic Shifts\n\n- 🎯 budget → hiring\n\n"
    );
    assert_eq!(intelligence_markdown(&vec![]), None);
    let one = intelligence_markdown(&vec![
        InsightEvent::Commitment { text: "follow up".to_string() },
        InsightEvent::QuestionSuggestion { text: "why?".to_string() },
    ])
    .unwrap();
    assert_eq!(one, "### Commitments\n\n- 🤝 follow up\n\n### Questions & Suggestions\n\n- ❓ why?\n\n");
}

#[test]
fn screenshot_paths_skip_missing() {
    let paths = vec![Some("a.jpg".to_string()), None, Some("b.jpg".to_string())];
    assert_eq!(screenshot_paths(&paths), vec!["a.jpg".to_string(), "b.jpg".to_string()]);
}

fn entry(ts: &str, idx: usize) -> TimelineEntry {
    TimelineEntry {
        id: format!("e{}", idx),
        entry_type: "transcript".to_string(),
        timestamp: ts.to_string(),
        text: None,
        speaker: None,
        app_name: None,
        window_title: None,
        image_path: None,
        source_index: idx,
    }
}

#[test]
fn timeline_sort_is_stable_by_timestamp() {
    let sorted = sort_by_timestamp(vec![
        entry("2024-01-01T10:00:02Z", 0),
        entry("2024-01-01T10:00:01Z", 1),
        entry("2024-01-01T10:00:02Z", 2),
        entry("2024-01-01T09:59:59Z", 3),
    ]);
    let ids: Vec<&str> = sorted.iter().map(|e| e.id.as_str()).collect();
    assert_eq!(ids, vec!["e3", "e1", "e0", "e2"]);
}

#[test]
fn meeting_timeline_merges_sources() {
    let transcripts = vec![
        TranscriptRecord { id: 1, text: "hello".to_string(), speaker: Some("A".to_string()), timestamp: "2024-01-01T10:00:05Z".to_string(), is_final: true },
        TranscriptRecord { id: 2, text: "   ".to_string(), speaker: None, timestamp: "2024-01-01T10:00:06Z".to_string(), is_final: true },
        TranscriptRecord { id: 3, text: "interim".to_string(), speaker: None, timestamp: "2024-01-01T10:00:01Z".to_string(), is_final: false },
    ];
    let snapshots = vec![SnapshotRecord {
        snapshot_id: "x9".to_string(),
        ts: "2024-01-01T10:00:03Z".to_string(),
        text: "doc".to_string(),
        app_name: Some("Notes".to_string()),
        window_title: None,
    }];
    let frames = vec![
        FrameRecord { id: 7, timestamp: "2024-01-01T10:00:04Z".to_string(), file_path: Some("f.jpg".to_string()), ocr_text: None },
        FrameRecord { id: 8, timestamp: "2024-01-01T10:00:00Z".to_string(), file_path: None, ocr_text: None },
    ];
    let t = meeting_timeline("m".to_string(), "Standup".to_string(), "start".to_string(), None, &transcripts, &snapshots, &frames);
    let ids: Vec<&str> = t.entries.iter().map(|e| e.id.as_str()).collect();
    assert_eq!(ids, vec!["a_x9", "s_7", "t_1"]);
    assert_eq!(t.entries[1].image_path.as_deref(), Some("f.jpg"));
    assert_eq!(t.entries[2].speaker.as_deref(), Some("A"));
    assert_eq!(t.entries[2].source_index, 0);
    assert_eq!(t.transcript_count, 2);
    assert_eq!(t.accessibility_count, 1);
    assert_eq!(t.screenshot_count, 1);
}

#[test]
fn analysis_prompt_falls_back() {
    assert_eq!(analysis_prompt(Ok(Some("theme".to_string())), None), Ok("theme".to_string()));
    assert_eq!(analysis_prompt(Ok(None), Some("generic".to_string())), Ok("generic".to_string()));
    let built_in = analysis_prompt(Ok(None), None).unwrap();
    assert!(built_in.starts_with("Analyze this screenshot and describe what the user is doing."));
    assert!(built_in.ends_with("Only respond with valid JSON."));
    assert_eq!(analysis_prompt(Err("db".to_string()), None), Err("Failed to retrieve prompt: db".to_string()));
}

#[test]
fn rag_prompt_with_and_without_context() {
    let line = context_line(1, None, "87", "met Ana");
    assert_eq!(line, "[1] Unknown time (relevance: 87%)\n   met Ana");
    let p = rag_prompt(&vec![line.clone(), context_line(2, Some("2024-01-01"), "60", "budget")], "What next?");
    assert!(p.starts_with("You are an intelligent assistant with access to the user's activity history"));
    assert!(p.contains("RELEVANT CONTEXT FROM USER'S HISTORY:\n[1] Unknown time (relevance: 87%)\n   met Ana\n[2] 2024-01-01 (relevance: 60%)\n   budget\n\nUSER QUESTION: What next?\n\nInstructions:"));
    assert!(p.ends_with("- Be concise and actionable"));
    let q = rag_prompt(&vec![], "Hi");
    assert_eq!(
        q,
        "You are an intelligent assistant helping with daily operations.\n\nUSER QUESTION: Hi\n\nNote: No relevant context was found in the user's history for this query. Answer based on general knowledge."
    );
}

#[test]
fn batch_index_and_ingest_reports() {
    let f = TranscriptIndexResult::fetch_failed("m2".to_string(), "locked");
    assert_eq!(f.errors, vec!["Failed to get transcripts: locked".to_string()]);
    let mut r = TranscriptIndexResult::new("m3".to_string());
    r.record_in_batch(5, Err("quota".to_string()));
    r.record_in_batch(6, Ok(()));
    assert_eq!(r.transcripts_indexed, 1);
    assert_eq!(r.errors, vec!["transcript 5 failed: quota".to_string()]);
    assert_eq!(ingest_summary(3, 12), "Ingest complete. Uploaded 3 frames and 12 transcripts.");
}

#[test]
fn themes_and_modes_are_validated() {
    assert_eq!(parse_theme("product_dev"), Ok(Theme::ProductDev));
    assert_eq!(
        parse_theme("golf"),
        Err("Invalid theme: golf. Must be one of: [\"prospecting\", \"fundraising\", \"product_dev\", \"admin\", \"personal\"]".to_string())
    );
    assert!(Theme::Prospecting.enables_microphone());
    assert!(Theme::Fundraising.enables_microphone());
    assert!(!Theme::Admin.enables_microphone());
    assert_eq!(Theme::Personal.name(), "personal");
    assert_eq!(parse_session_mode("dork"), Ok(SessionMode::Dork));
    assert_eq!(parse_session_mode("x"), Err("Invalid session mode: x. Use 'standard' or 'dork'".to_string()));
}

#[test]
fn models_are_available_by_prefix() {
    let listed = vec!["llava:13b".to_string(), "qwen2.5:7b".to_string()];
    assert!(model_available(&listed, "llava"));
    assert!(model_available(&listed, "qwen2.5:7b"));
    assert!(!model_available(&listed, "mistral"));
    assert!(!model_available(&vec![], ""));
    assert!(model_available(&listed, ""));
}

#[test]
fn dork_session_needs_content() {
    assert_eq!(check_session_content("  \n"), Err("No content captured during session".to_string()));
    assert_eq!(check_session_content("notes"), Ok(()));
}

fn chars(s: &str) -> Vec<char> {
    s.chars().collect()
}

#[test]
fn parse_i64_matches_std() {
    for text in ["0", "42", "-42", "+7", "9223372036854775807", "-9223372036854775808", "9223372036854775808",
        "-9223372036854775809", "", "-", "+", "12a", " 1", "007", "--1"] {
        assert_eq!(parse_i64_chars(&chars(text)), text.parse::<i64>().ok(), "input {:?}", text);
    }
}

#[test]
fn frame_ids_are_classified() {
    let uuid = "550e8400-e29b-41d4-a716-446655440000".to_string();
    assert!(matches!(frame_ref(uuid.clone()), FrameRef::ScreenState(s) if s == uuid));
    assert!(matches!(frame_ref("123".to_string()), FrameRef::Legacy(123)));
    assert!(matches!(frame_ref("a-b".to_string()), FrameRef::Legacy(0)));
    assert!(matches!(frame_ref("-5".to_string()), FrameRef::Legacy(-5)));
    assert!(matches!(frame_ref("frame".to_string()), FrameRef::Legacy(0)));
}

#[test]
fn attendees_are_enriched_from_their_address() {
    let a = enrich_attendee("jane.doe@acme.com");
    assert_eq!(a.email, "jane.doe@acme.com");
    assert_eq!(a.name, "Jane Doe");
    assert_eq!(a.domain, "acme.com");
    assert_eq!(a.company, "Acme");
}

#[test]
fn prompt_tests_default_and_format() {
    assert_eq!(prompt_test_model(None), "qwen2.5vl:7b");
    assert_eq!(prompt_test_model(Some("llava".to_string())), "llava");
    assert_eq!(prompt_test_text("Be brief.", "hi"), "Be brief.\n\nUser: hi");
    assert_eq!(prompt_test_reply(None), "(No response)");
    assert_eq!(prompt_test_reply(Some("ok".to_string())), "ok");
}

#[test]
fn frame_images_are_base64_encoded() {
    assert_eq!(nofriction_meetings::frame_lookup::frame_image_base64(b"hello"), "aGVsbG8=");
    assert_eq!(nofriction_meetings::frame_lookup::frame_image_base64(&[]), "");
    assert_eq!(nofriction_meetings::frame_lookup::jpeg_data_url(&[0xff, 0xd8, 0xff]), "data:image/jpeg;base64,/9j/");
}

#[test]
fn startup_and_transcript_decisions() {
    assert_eq!(env_fill(None, Some("x".to_string())), Some("x".to_string()));
    assert_eq!(env_fill(Some(""), Some("x".to_string())), Some("x".to_string()));
    assert_eq!(env_fill(Some("set"), Some("x".to_string())), None);
    assert_eq!(env_fill(None, None), None);
    assert_eq!(
        ingest_client_config(Some(true), Some("https://h".to_string()), Some("t".to_string())),
        Some(("https://h".to_string(), "t".to_string()))
    );
    assert_eq!(ingest_client_config(None, Some("https://h".to_string()), Some("t".to_string())), None);
    assert_eq!(ingest_client_config(Some(true), None, Some("t".to_string())), None);
    assert!(transcript_event(String::new(), Some(true), None).is_none());
    let e = transcript_event("hello".to_string(), None, Some(2)).unwrap();
    assert_eq!(e.text, "hello");
    assert!(!e.is_final && !e.save);
    assert_eq!(e.speaker.as_deref(), Some("Speaker 2"));
    let f = transcript_event("bye".to_string(), Some(true), None).unwrap();
    assert!(f.is_final && f.save);
    assert_eq!(f.speaker, None);
}
