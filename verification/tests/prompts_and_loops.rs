use nofriction_meetings::continue_prompt::{ContinuePromptConfig, ContinuePromptManager, PromptTick};
use nofriction_meetings::interaction_loop::{InteractionConfig, InteractionLoop, PromptResponse, PromptType};

const MIN: i64 = 60_000;

#[test]
fn continue_prompt_test_default_config() {
    let config = ContinuePromptConfig::default();
    assert_eq!(config.prompt_interval_minutes, 30);
    assert_eq!(config.max_missed_prompts, 2);
    assert!(config.enabled);
}

#[test]
fn prompts_then_auto_stop() {
    let mut m = ContinuePromptManager::new();
    assert!(m.start().is_ok());
    assert!(m.start().is_err());
    let t0 = 1_000_000_000;
    m.recording_started(t0);
    assert_eq!(m.tick(t0 + 29 * MIN), PromptTick::Nothing);
    match m.tick(t0 + 30 * MIN) {
        PromptTick::Prompt(e) => {
            assert_eq!(e.duration_minutes, 30);
            assert_eq!(e.prompt_count, 1);
            assert!(!e.is_final_warning);
        }
        other => panic!("expected a prompt, got {:?}", other),
    }
    match m.tick(t0 + 60 * MIN) {
        PromptTick::Prompt(e) => {
            assert_eq!(e.prompt_count, 2);
            assert!(e.is_final_warning);
        }
        other => panic!("expected a prompt, got {:?}", other),
    }
    assert_eq!(m.tick(t0 + 90 * MIN), PromptTick::AutoStop(2));
    assert!(!m.is_recording);
    assert_eq!(m.tick(t0 + 200 * MIN), PromptTick::Nothing);
}

#[test]
fn confirmation_resets_missed_prompts() {
    let mut m = ContinuePromptManager::new();
    let t0 = 0;
    m.recording_started(t0);
    assert!(matches!(m.tick(t0 + 30 * MIN), PromptTick::Prompt(_)));
    m.user_confirmed();
    match m.tick(t0 + 60 * MIN) {
        PromptTick::Prompt(e) => assert_eq!(e.prompt_count, 1),
        other => panic!("expected a prompt, got {:?}", other),
    }
    m.recording_stopped();
    assert_eq!(m.tick(t0 + 120 * MIN), PromptTick::Nothing);
}

#[test]
fn interaction_loop_test_default_config() {
    let config = InteractionConfig::default();
    assert!(config.check_in_enabled);
    assert_eq!(config.check_in_interval_mins, 30);
    assert!(config.meeting_end_prompt_enabled);
    assert!(!config.break_detection_enabled);
}

#[test]
fn test_interaction_loop_lifecycle() {
    let mut loop_mgr = InteractionLoop::new();
    assert!(!loop_mgr.is_running());
    loop_mgr.start(0).unwrap();
    assert!(loop_mgr.is_running());
    loop_mgr.stop();
}

#[test]
fn test_stats() {
    let loop_mgr = InteractionLoop::new();
    let stats = loop_mgr.get_stats();
    assert_eq!(stats.prompts_shown, 0);
}

#[test]
fn check_in_expiry_and_answers() {
    let mut l = InteractionLoop::new();
    l.start(0).unwrap();
    assert!(l.tick_with_id(29 * MIN, "x".to_string()).is_none());
    let p = l.tick_with_id(30 * MIN, "c1".to_string()).unwrap();
    assert_eq!(p.prompt_type, PromptType::CheckIn);
    assert_eq!(p.message, "You've been recording for 30 minutes. Continue?");
    assert_eq!(p.expires_at_ms, Some(30 * MIN + 60_000));
    assert_eq!(l.get_pending_prompts().len(), 1);
    assert!(l.tick_with_id(31 * MIN + 1, "x".to_string()).is_none());
    assert_eq!(l.get_pending_prompts().len(), 0);
    assert_eq!(l.get_stats().responses_expired, 1);
    assert_eq!(l.get_stats().prompts_shown, 1);

    let m = l.show_meeting_end_prompt_with_id("meet-1", 40 * MIN, "m1".to_string()).unwrap();
    assert_eq!(m.meeting_id.as_deref(), Some("meet-1"));
    assert!(l.show_break_prompt_with_id(240, 40 * MIN, "b1".to_string()).is_none());
    let w = l.show_storage_warning_with_id("4.5", 40 * MIN, "s1".to_string()).unwrap();
    assert_eq!(w.message, "Only 4.5 GB remaining. Consider freeing up space.");
    assert_eq!(w.expires_at_ms, Some(40 * MIN + 120_000));
    assert_eq!(l.respond("nope", PromptResponse::Continue).unwrap_err(), "Prompt not found: nope");
    let got = l.respond("m1", PromptResponse::EndRecording).unwrap();
    assert_eq!(got.id, "m1");
    assert_eq!(l.get_stats().responses_end, 1);
    assert_eq!(l.get_pending_prompts().len(), 1);
    let fresh = l.tick(60 * MIN).unwrap();
    assert_eq!(fresh.id.len(), 36);
}

#[test]
fn break_prompt_when_enabled() {
    let mut cfg = InteractionConfig::default();
    cfg.break_detection_enabled = true;
    let mut l = InteractionLoop::with_config(cfg);
    let b = l.show_break_prompt_with_id(185, 0, "b".to_string()).unwrap();
    assert_eq!(b.message, "No audio detected for 3 minutes. Pause recording?");
    assert_eq!(b.title, "On a break?");
}
