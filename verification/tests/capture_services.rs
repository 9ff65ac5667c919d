use nofriction_meetings::accessibility_capture::{
    context_text, AccessibilityCaptureConfig, AccessibilityCaptureService, CaptureDecision,
};
use nofriction_meetings::accessibility_extractor::{
    is_private_window, skipped_result, window_step, AccessibilityConfig, AccessibilityExtractor,
    AccessibilityResult, AxNode, WindowAction,
};
use nofriction_meetings::instant::UtcInstant;
use nofriction_meetings::ambient_capture::{
    AmbientCaptureConfig, AmbientCaptureService, AmbientFrameMeta, CaptureMode, LoopStep, PowerState,
};

#[test]
fn accessibility_capture_test_default_config() {
    let config = AccessibilityCaptureConfig::default();
    assert!(!config.enabled);
    assert_eq!(config.interval_secs, 10);
    assert_eq!(config.min_word_count, 5);
    assert!(config.deduplicate);
}

#[test]
fn test_service_creation() {
    let service = AccessibilityCaptureService::new();
    assert!(!service.is_running());
    let stats = service.get_stats();
    assert!(!stats.running);
    assert_eq!(stats.capture_count, 0);
}

#[test]
fn accessibility_extractor_test_config_defaults() {
    let config = AccessibilityConfig::default();
    assert_eq!(config.max_depth, 10);
    assert!(!config.include_hidden);
    assert!(!config.text_roles.is_empty());
}

#[test]
fn capture_decisions() {
    let mut s = AccessibilityCaptureService::new();
    assert_eq!(s.start(false), Err("Accessibility permission required".to_string()));
    assert_eq!(s.start(true), Ok(()));
    assert_eq!(s.start(true), Err("Accessibility capture already running".to_string()));
    assert_eq!(s.record_capture("too few words", None, true, 10), CaptureDecision::TooShort);
    assert_eq!(s.record_capture("one two three four five", Some("Notes".to_string()), true, 20), CaptureDecision::Save(7));
    s.record_saved();
    assert_eq!(s.record_capture("one two three four five", None, true, 30), CaptureDecision::Duplicate);
    s.record_saved();
    assert_eq!(s.get_stats().saved_count, 1);
    let long = "w ".repeat(21);
    assert_eq!(s.record_capture(&long, None, true, 40), CaptureDecision::Save(9));
    let other = "v ".repeat(21);
    assert_eq!(s.record_capture(&other, None, false, 50), CaptureDecision::Save(3));
    let st = s.get_stats();
    assert_eq!(st.capture_count, 5);
    assert_eq!(st.skipped_count, 2);
    assert_eq!(st.last_capture_ms, Some(50));
    s.record_saved();
    s.record_saved();
    let st = s.get_stats();
    assert_eq!(st.saved_count, 2);
    assert!(st.saved_count + st.skipped_count <= st.capture_count);
    assert_eq!(
        context_text(&None, &Some("Doc".to_string()), "body"),
        "[App: Unknown] Doc\nbody"
    );
}

fn leaf(role: &str, value: Option<&str>, title: Option<&str>) -> AxNode {
    AxNode { role: role.to_string(), value: value.map(String::from), title: title.map(String::from), children: vec![] }
}

#[test]
fn accessibility_tree_text() {
    let ex = AccessibilityExtractor::new();
    let tree = AxNode {
        role: "AXWindow".to_string(),
        value: Some("ignored".to_string()),
        title: None,
        children: vec![
            leaf("AXStaticText", Some("Hello"), None),
            leaf("AXButton", Some(""), Some("OK")),
            leaf("AXGroup", Some("no"), None),
            AxNode { role: "AXGroup".to_string(), value: None, title: None, children: vec![leaf("AXLink", Some("a"), Some("b"))] },
        ],
    };
    let text: String = ex.element_text(&tree, 0).into_iter().collect();
    assert_eq!(text, "Hello\nOK\na\nb");
    let shallow: String = ex.element_text(&tree, 9).into_iter().collect();
    assert_eq!(shallow, "Hello\nOK");
    assert!(is_private_window("Inbox - Private Browsing"));
    assert!(is_private_window("INCOGNITO tab"));
    assert!(!is_private_window("Quarterly report"));
}

#[test]
fn test_result_default() {
    let result = AccessibilityResult::default();
    assert!(result.text.is_empty());
    assert!(!result.is_accessible);
}

#[test]
fn focused_window_steps() {
    let private = Some("Private Browsing - Safari".to_string());
    let plain = Some("Notes".to_string());
    assert_eq!(
        window_step(false, &plain),
        WindowAction::Deny("Accessibility permission not granted".to_string())
    );
    assert_eq!(
        window_step(false, &private),
        WindowAction::Deny("Accessibility permission not granted".to_string())
    );
    assert_eq!(window_step(true, &private), WindowAction::SkipPrivate);
    assert_eq!(window_step(true, &Some("my INCOGNITO tab".to_string())), WindowAction::SkipPrivate);
    assert_eq!(window_step(true, &plain), WindowAction::ReadTree);
    assert_eq!(window_step(true, &None), WindowAction::ReadTree);
}

#[test]
fn focused_window_results() {
    let at = UtcInstant { secs: 1_700_000_000, nanos: 123_456_789 };
    let skipped = skipped_result("Safari".to_string(), Some("Private Browsing".to_string()), 4, at);
    assert!(skipped.text.is_empty());
    assert!(!skipped.is_accessible);
    assert_eq!(skipped.app_name.as_deref(), Some("Safari"));
    assert_eq!(skipped.window_title.as_deref(), Some("Private Browsing"));
    assert_eq!(skipped.duration_ms, 4);
    assert_eq!(skipped.extracted_at, at);

    let ex = AccessibilityExtractor::new();
    let tree = AxNode {
        role: "AXWindow".to_string(),
        value: None,
        title: None,
        children: vec![leaf("AXStaticText", Some("Agenda"), None), leaf("AXHeading", Some("Q3"), None)],
    };
    let read = ex.read_result("Notes".to_string(), Some("Plan".to_string()), &tree, 7, at);
    assert_eq!(read.text, "Agenda\nQ3");
    assert!(read.is_accessible);
    assert_eq!(read.app_name.as_deref(), Some("Notes"));
    assert_eq!(read.window_title.as_deref(), Some("Plan"));
    assert_eq!(read.duration_ms, 7);
    assert_eq!(read.extracted_at, at);
}

#[test]
fn ambient_capture_test_default_config() {
    let config = AmbientCaptureConfig::default();
    assert!(config.enabled);
    assert_eq!(config.ambient_interval_secs, 5);
    assert_eq!(config.retention_days, 7);
}

#[test]
fn test_mode_transitions() {
    let mut service = AmbientCaptureService::new();
    assert_eq!(service.get_mode(), CaptureMode::Paused);
    service.set_mode(CaptureMode::Ambient);
    assert_eq!(service.get_mode(), CaptureMode::Ambient);
    service.enter_meeting_mode();
    assert_eq!(service.get_mode(), CaptureMode::Meeting);
    service.exit_meeting_mode();
    assert_eq!(service.get_mode(), CaptureMode::Ambient);
}

fn frame(ts: i64) -> AmbientFrameMeta {
    AmbientFrameMeta {
        id: ts.to_string(),
        timestamp_ms: ts,
        mode: CaptureMode::Ambient,
        frame_hash: String::new(),
        vlm_context: None,
        app_name: None,
        window_title: None,
        storage_path: String::new(),
    }
}

#[test]
fn ambient_lifecycle() {
    let mut s = AmbientCaptureService::new();
    assert_eq!(s.next_step(), LoopStep::Wait(1000));
    assert!(s.start(100).is_ok());
    assert_eq!(s.start(100), Err("Ambient capture already running".to_string()));
    assert_eq!(s.next_step(), LoopStep::CaptureAfter(5000));
    s.on_power_state(PowerState::Sleeping);
    assert_eq!(s.get_mode(), CaptureMode::Paused);
    s.on_power_state(PowerState::Waking);
    assert_eq!(s.get_mode(), CaptureMode::Ambient);
    s.enter_meeting_mode();
    assert_eq!(s.next_step(), LoopStep::CaptureAfter(1000));
    s.record_frame();
    assert_eq!(s.get_stats(5100).frames_captured, 1);
    assert_eq!(s.get_stats(5100).uptime_seconds, 5);
    s.stop();
    assert_eq!(s.get_mode(), CaptureMode::Paused);
    s.on_power_state(PowerState::Active);
    assert_eq!(s.get_mode(), CaptureMode::Paused);
    let mut off = AmbientCaptureService::with_config(AmbientCaptureConfig { enabled: false, ..AmbientCaptureConfig::default() });
    assert_eq!(off.start(0), Err("Ambient capture is disabled in config".to_string()));
}

#[test]
fn ambient_cleanup_and_duplicates() {
    let mut s = AmbientCaptureService::new();
    let day = 86_400_000i64;
    s.frame_history = vec![frame(0), frame(2 * day), frame(9 * day)];
    assert_eq!(s.cleanup_old_frames(9 * day), 2);
    assert_eq!(s.frame_history.len(), 1);
    assert!(!s.is_duplicate_frame("h"));
    s.last_frame_hash = Some("h".to_string());
    assert!(s.is_duplicate_frame("h"));
    assert!(!s.is_duplicate_frame("g"));
}
