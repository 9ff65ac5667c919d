use nofriction_meetings::queries::{activities_query, entities_query, entity_list_limit, transcript_dedup_text};
use nofriction_meetings::admin::{
    feature_flag, feature_flags, job_entry, queue_pause, recordings_page, storage_totals, system_health,
    toggle_flag_action, FeatureFlag, MeetingStorageUsage,
};
use nofriction_meetings::capture_engine::{MonitorInfo, RecordingStatus};
use nofriction_meetings::capture_metrics::MeetingMetrics;
use nofriction_meetings::diagnostics::{
    accessibility_test_result, capture_diagnostics, captured_snapshot_result, mic_test_result, preview_text,
    screen_test_result, test_capture_result, AccessibilityProbe, AlwaysOnSettings, MicProbe, PermissionStatus,
    ScreenProbe,
};
use nofriction_meetings::knowledge_sync::{
    activity_vector_id, activity_vector_text, analysis_prompt_key, conversation_search_text,
    conversation_summary, indexed_meeting_title, transcript_vector_id, visible_files_text, AnalysisResult,
    SyncResult, TranscriptIndexResult,
};
use nofriction_meetings::timeline::timeline_frame;

fn titles() -> Vec<String> {
    vec!["Team Sync".to_string(), "Budget review".to_string(), "SYNC with sales".to_string()]
}

#[test]
fn recordings_page_filters_case_insensitively() {
    assert_eq!(recordings_page(&titles(), Some("sync"), 0), vec![0, 2]);
    assert_eq!(recordings_page(&titles(), Some("SyNc"), 1), vec![2]);
    assert_eq!(recordings_page(&titles(), Some("planning"), 0), Vec::<usize>::new());
}

#[test]
fn recordings_page_skips_offset() {
    assert_eq!(recordings_page(&titles(), None, 1), vec![1, 2]);
    assert_eq!(recordings_page(&titles(), None, 3), Vec::<usize>::new());
    assert_eq!(recordings_page(&titles(), None, 10), Vec::<usize>::new());
    assert_eq!(recordings_page(&titles(), Some(""), 0), vec![0, 1, 2]);
}

#[test]
fn storage_totals_add_up() {
    let usage = vec![
        MeetingStorageUsage { frames_count: 10, frames_bytes: 1_000, video_bytes: 5_000, audio_bytes: 200 },
        MeetingStorageUsage { frames_count: 3, frames_bytes: 300, video_bytes: 0, audio_bytes: 50 },
    ];
    let t = storage_totals(&usage);
    assert_eq!(t.meetings_count, 2);
    assert_eq!(t.frames_count, 13);
    assert_eq!(t.frames_bytes, 1_300);
    assert_eq!(t.video_bytes, 5_000);
    assert_eq!(t.audio_bytes, 250);
    assert_eq!(t.total_bytes, 6_550);
    let empty = storage_totals(&Vec::new());
    assert_eq!(empty.meetings_count, 0);
    assert_eq!(empty.total_bytes, 0);
}

fn status(recording: bool, frames: usize) -> RecordingStatus {
    RecordingStatus { is_recording: recording, duration_seconds: 0, video_frames: frames, audio_samples: 0 }
}

#[test]
fn system_health_reports_each_service() {
    let mut m = MeetingMetrics::new("m1", 0);
    m.frames_in = 5;
    m.states_out = 3;
    let r = system_health("2024-05-01T10:00:00+00:00", &status(true, 12), &Some(m), Ok((4, 1)));
    assert_eq!(r.len(), 4);
    assert_eq!(r[0].name, "Database");
    assert_eq!(r[0].message.as_deref(), Some("SQLite connected"));
    assert_eq!(r[1].name, "Recording Engine");
    assert_eq!(r[1].message.as_deref(), Some("Recording (12 frames)"));
    assert_eq!(r[2].status, "healthy");
    assert_eq!(r[2].message.as_deref(), Some("5 frames, 3 states"));
    assert_eq!(r[3].name, "Ingest Queue");
    assert_eq!(r[3].message.as_deref(), Some("4 pending, 1 processing"));
    for s in &r {
        assert_eq!(s.last_check, "2024-05-01T10:00:00+00:00");
    }
}

#[test]
fn system_health_reports_idle_and_errors() {
    let r = system_health("now", &status(false, 0), &None, Err("db locked".to_string()));
    assert_eq!(r[1].message.as_deref(), Some("Idle"));
    assert_eq!(r[2].status, "unknown");
    assert_eq!(r[2].message.as_deref(), Some("No active session"));
    assert_eq!(r[3].status, "error");
    assert_eq!(r[3].message.as_deref(), Some("Failed to get stats: db locked"));
}

#[test]
fn job_entry_measures_duration_and_names_the_file() {
    let j = job_entry(
        42,
        "/data/frames/frame_0001.png",
        "done".to_string(),
        "2024-01-01T00:00:00Z".to_string(),
        Some("2024-01-01T00:00:01.500Z".to_string()),
        None,
    );
    assert_eq!(j.id, "42");
    assert_eq!(j.job_type, "frame_process");
    assert_eq!(j.started_at, "2024-01-01T00:00:00Z");
    assert_eq!(j.duration_ms, Some(1500));
    assert_eq!(j.details.as_deref(), Some("frame_0001.png"));
}

#[test]
fn job_entry_without_times_or_with_error() {
    let j = job_entry(
        -7,
        "frame.png",
        "failed".to_string(),
        "not a time".to_string(),
        Some("2024-01-01T00:00:01Z".to_string()),
        Some("timeout".to_string()),
    );
    assert_eq!(j.id, "-7");
    assert_eq!(j.duration_ms, None);
    assert_eq!(j.details.as_deref(), Some("frame.png - Error: timeout"));
    let k = job_entry(1, "a/b/", "queued".to_string(), "2024-01-01T00:00:00Z".to_string(), None, None);
    assert_eq!(k.duration_ms, None);
    assert_eq!(k.details.as_deref(), Some(""));
}

#[test]
fn feature_flags_parse_and_default() {
    assert_eq!(feature_flag("dedup_enabled"), Ok(FeatureFlag::DedupEnabled));
    assert_eq!(feature_flag("queue_frames_for_vlm"), Ok(FeatureFlag::QueueFramesForVlm));
    assert_eq!(feature_flag("bogus"), Err("Unknown feature flag: bogus".to_string()));
    assert_eq!(FeatureFlag::EnableIngest.name(), "enable_ingest");
    let f = feature_flags(None, true, None, false);
    assert!(f.admin_console_enabled);
    assert!(f.dedup_enabled);
    assert!(f.vlm_auto_process);
    assert!(!f.enable_ingest);
    let g = feature_flags(Some(false), false, Some(true), true);
    assert!(!g.dedup_enabled);
    assert!(g.enable_ingest);
    assert!(g.queue_frames_for_vlm);
}

#[test]
fn flag_and_queue_audit_records() {
    let a = toggle_flag_action(FeatureFlag::VlmAutoProcess, true);
    assert_eq!(a.action, "toggle_flag");
    assert_eq!(a.target_type, "feature_flag");
    assert_eq!(a.target_id, "vlm_auto_process");
    assert_eq!(a.details.as_deref(), Some("{\"value\":true}"));
    let (p, enabled) = queue_pause(true);
    assert_eq!(p.action, "pause_queue");
    assert_eq!(p.target_id, "main");
    assert!(!enabled);
    let (q, enabled) = queue_pause(false);
    assert_eq!(q.action, "resume_queue");
    assert!(enabled);
}

#[test]
fn screen_and_mic_test_results() {
    let ok = screen_test_result(ScreenProbe::Captured { width: 1920, height: 1080 });
    assert!(ok.success);
    assert_eq!(ok.frame_width, Some(1920));
    assert_eq!(ok.error, None);
    let no = screen_test_result(ScreenProbe::ListFailed("denied".to_string()));
    assert!(!no.success);
    assert_eq!(no.error.as_deref(), Some("Failed to list monitors: denied"));
    assert_eq!(
        screen_test_result(ScreenProbe::Unsupported).error.as_deref(),
        Some("Screen capture test only available on macOS")
    );
    assert_eq!(screen_test_result(ScreenProbe::NoMonitor).error.as_deref(), Some("No monitor found"));
    let mic = mic_test_result(MicProbe::Ready { device_name: "Mic".to_string(), sample_rate: 48_000, channels: 1 });
    assert!(mic.success);
    assert_eq!(mic.sample_rate, Some(48_000));
    let bad = mic_test_result(MicProbe::ConfigFailed { device_name: "Mic".to_string(), error: "busy".to_string() });
    assert!(!bad.success);
    assert_eq!(bad.device_name.as_deref(), Some("Mic"));
    assert_eq!(bad.error.as_deref(), Some("Failed to get config: busy"));
    assert_eq!(
        mic_test_result(MicProbe::PermissionDenied).error.as_deref(),
        Some("Microphone permission not granted (passive check)")
    );
}

#[test]
fn accessibility_result_previews_long_text() {
    let long = "a".repeat(250);
    let r = accessibility_test_result(AccessibilityProbe::Extracted { app_name: Some("Notes".to_string()), text: long });
    assert!(r.success && r.is_trusted);
    assert_eq!(r.text_sample, Some(format!("{}...", "a".repeat(200))));
    assert_eq!(r.text_length, Some(250));
    let short = accessibility_test_result(AccessibilityProbe::Extracted { app_name: None, text: "héllo".to_string() });
    assert_eq!(short.text_sample.as_deref(), Some("héllo"));
    assert_eq!(short.text_length, Some(6));
    let untrusted = accessibility_test_result(AccessibilityProbe::NotTrusted);
    assert!(!untrusted.is_trusted);
    assert_eq!(untrusted.error.as_deref(), Some("Accessibility permission not granted"));
    let failed = accessibility_test_result(AccessibilityProbe::Failed("no window".to_string()));
    assert!(failed.is_trusted && !failed.success);
}

#[test]
fn previews_and_snapshots() {
    assert_eq!(preview_text("short"), "short");
    let text = "é".repeat(150);
    assert_eq!(preview_text(&text), format!("{}...", "é".repeat(100)));
    let s = captured_snapshot_result("id-1".to_string(), "hello world", 2);
    assert!(s.success);
    assert_eq!(s.text_preview, "hello world");
    assert_eq!(s.word_count, 2);
    assert_eq!(s.source, "accessibility");
}

#[test]
fn test_capture_and_diagnostics() {
    let t = test_capture_result(&[1, 2, 3], 100, 50, 100, 60, "Built-in".to_string());
    assert_eq!(t.image_base64, "AQID");
    assert!(!t.dimensions_match);
    assert!(test_capture_result(&[], 10, 10, 10, 10, "x".to_string()).dimensions_match);
    let mons = vec![MonitorInfo { id: 1, name: "a".to_string(), width: 10, height: 10, is_primary: true }];
    let d = capture_diagnostics(mons, true, true, false);
    assert_eq!(d.frame_interval_ms, 1000);
    assert_eq!(d.current_monitor_id, None);
    assert_eq!(d.monitors.len(), 1);
    assert!(d.is_recording && d.screen_permission && !d.mic_permission);
    let a = AlwaysOnSettings::defaults();
    assert!(!a.enabled);
    assert_eq!((a.idle_timeout_mins, a.ambient_interval_secs, a.meeting_interval_secs, a.retention_hours), (5, 30, 2, 24));
    let p = PermissionStatus::all_granted();
    assert!(p.screen_recording && p.microphone && p.accessibility);
}

#[test]
fn conversation_texts() {
    assert_eq!(conversation_search_text("why?", "because"), "Q: why?\nA: because");
    assert_eq!(conversation_summary("hi"), "User asked about: hi...");
    let q = "x".repeat(150);
    assert_eq!(conversation_summary(&q), format!("User asked about: {}...", "x".repeat(100)));
}

#[test]
fn transcript_index_tally() {
    assert_eq!(transcript_vector_id("m1", 42), "transcript_m1_42");
    assert_eq!(indexed_meeting_title(None), "Unknown Meeting");
    let none = TranscriptIndexResult::nothing_found("m1".to_string());
    assert_eq!(none.errors, vec!["No transcripts found for this meeting".to_string()]);
    let mut r = TranscriptIndexResult::new("m1".to_string());
    r.record(1, Ok(()));
    r.record(2, Err("quota".to_string()));
    r.record(3, Ok(()));
    assert_eq!(r.transcripts_indexed, 2);
    assert_eq!(r.errors, vec!["Failed to index transcript 2: quota".to_string()]);
}

#[test]
fn analysis_tally() {
    assert_eq!(analysis_prompt_key("prospecting"), "prospecting_context_analysis");
    assert_eq!(visible_files_text(&vec![]), None);
    assert_eq!(visible_files_text(&vec!["a.rs".to_string(), "b.md".to_string()]).as_deref(), Some("a.rs, b.md"));
    let mut r = AnalysisResult::new();
    r.record("f1.png", Ok(Ok(7)));
    r.record("f2.png", Ok(Err("disk full".to_string())));
    r.record("f3.png", Err("timeout".to_string()));
    assert_eq!(r.frames_processed, 2);
    assert_eq!(r.activities_created, 1);
    assert_eq!(
        r.errors,
        vec!["Failed to store activity: disk full".to_string(), "VLM analysis failed for f3.png: timeout".to_string()]
    );
}

#[test]
fn sync_tally() {
    assert_eq!(activity_vector_id(9), "activity_9");
    assert_eq!(activity_vector_text("development", "coding", Some("verus")), "development - coding - verus");
    assert_eq!(activity_vector_text("media", "video", None), "media - video - ");
    let mut r = SyncResult::new();
    assert!(r.record(Some(Ok(())), None));
    assert!(r.record(Some(Err("down".to_string())), Some(Ok(()))));
    assert!(!r.record(Some(Err("down".to_string())), Some(Err("refused".to_string()))));
    assert!(!r.record(None, None));
    assert_eq!(r.activities_synced, 2);
    assert_eq!(r.pinecone_upserts, 1);
    assert_eq!(r.supabase_inserts, 1);
    assert_eq!(
        r.errors,
        vec![
            "Pinecone sync failed: down".to_string(),
            "Pinecone sync failed: down".to_string(),
            "Supabase sync failed: refused".to_string()
        ]
    );
}

#[test]
fn timeline_frames_start_at_zero() {
    let f = timeline_frame(5, 3, 10_500, 10_000, Some("t.jpg".to_string()));
    assert_eq!(f.id, "5");
    assert_eq!(f.timestamp_ms, 500);
    assert_eq!(f.thumbnail_path.as_deref(), Some("t.jpg"));
    assert_eq!(timeline_frame(1, 0, 9_000, 10_000, None).timestamp_ms, 0);
}

#[test]
fn activity_queries_match_their_filters() {
    assert_eq!(
        activities_query(false, false, false),
        "SELECT * FROM activity_log WHERE 1=1 ORDER BY start_time DESC LIMIT ?"
    );
    let q = activities_query(true, false, true);
    assert_eq!(
        q,
        "SELECT * FROM activity_log WHERE 1=1 AND start_time >= ? AND category = ? ORDER BY start_time DESC LIMIT ?"
    );
    assert_eq!(q.matches('?').count(), 3);
    assert_eq!(activities_query(true, true, true).matches('?').count(), 4);
}

#[test]
fn entity_queries_match_their_filters() {
    assert_eq!(
        entities_query(true, true),
        "SELECT id, activity_id, entity_type, name, metadata, confidence, theme, created_at FROM entities WHERE 1=1 AND entity_type = ? AND theme = ? ORDER BY created_at DESC LIMIT ?"
    );
    assert_eq!(entities_query(false, false).matches('?').count(), 1);
    assert_eq!(entity_list_limit(None), 100);
    assert_eq!(entity_list_limit(Some(7)), 7);
}

#[test]
fn transcript_dedup_text_normalizes_final_text() {
    assert_eq!(transcript_dedup_text(true, "  Hello World \n").as_deref(), Some("hello world"));
    assert_eq!(transcript_dedup_text(true, "   "), None);
    assert_eq!(transcript_dedup_text(false, "Hello"), None);
}
