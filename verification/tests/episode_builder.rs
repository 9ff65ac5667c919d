use nofriction_meetings::episode_builder::{EpisodeBuilder, EpisodeProcessResult, ScreenState};

fn create_test_state(meeting_id: &str, app: Option<&str>, title: Option<&str>, ts: i64) -> ScreenState {
    ScreenState {
        state_id: format!("state-{}", ts),
        meeting_id: meeting_id.to_string(),
        start_ts_ms: ts,
        end_ts_ms: Some(ts),
        app_name: app.map(String::from),
        window_title: title.map(String::from),
    }
}

#[test]
fn test_first_state_creates_episode() {
    let mut builder = EpisodeBuilder::new();
    builder.start_meeting("test_meeting");
    let state = create_test_state("test_meeting", Some("VSCode"), Some("main.rs"), 1000);
    let result = builder.process_state(&state);
    match result {
        EpisodeProcessResult::NewEpisode { new_episode_id, .. } => {
            assert!(!new_episode_id.is_empty());
        }
        _ => panic!("Expected NewEpisode"),
    }
}

#[test]
fn test_same_app_extends_episode() {
    let mut builder = EpisodeBuilder::new();
    builder.start_meeting("test_meeting");
    let state1 = create_test_state("test_meeting", Some("VSCode"), Some("main.rs"), 1000);
    let state2 = create_test_state("test_meeting", Some("VSCode"), Some("main.rs"), 2000);
    builder.process_state(&state1);
    let result = builder.process_state(&state2);
    match result {
        EpisodeProcessResult::Extended { .. } => {}
        _ => panic!("Expected Extended"),
    }
}

#[test]
fn test_app_change_creates_new_episode() {
    let mut builder = EpisodeBuilder::new();
    builder.start_meeting("test_meeting");
    let state1 = create_test_state("test_meeting", Some("VSCode"), Some("main.rs"), 1000);
    let state2 = create_test_state("test_meeting", Some("Chrome"), Some("Google"), 2000);
    builder.process_state(&state1);
    let result = builder.process_state(&state2);
    match result {
        EpisodeProcessResult::NewEpisode { completed_episode, .. } => {
            assert!(completed_episode.is_some());
        }
        _ => panic!("Expected NewEpisode"),
    }
}

#[test]
fn no_meeting_means_inactive() {
    let mut builder = EpisodeBuilder::new();
    let s = create_test_state("m", Some("A"), None, 0);
    assert!(matches!(builder.process_state(&s), EpisodeProcessResult::Inactive));
}

#[test]
fn long_episode_is_cut() {
    let mut builder = EpisodeBuilder::new();
    builder.start_meeting("m");
    builder.process_state(&create_test_state("m", Some("A"), Some("t"), 0));
    let r = builder.process_state(&create_test_state("m", Some("A"), Some("t"), 300_001));
    assert!(matches!(r, EpisodeProcessResult::NewEpisode { .. }));
    let ended = builder.end_meeting().unwrap();
    assert_eq!(ended.state_ids, vec!["state-300001".to_string()]);
    assert_eq!(ended.end_ts_ms, Some(300_001));
}

#[test]
fn title_similarity_ratio() {
    let b = EpisodeBuilder::new();
    assert_eq!(b.title_similarity("a b c", "a b d"), (2, 4));
}
