use nofriction_meetings::ai_client::{chat_messages, model_entry, summarize_request, AIClient, AIPreset, ChatMessage};
use nofriction_meetings::dork_mode::{check_study_content, concepts_prompt, quiz_prompt, summary_prompt, DorkModeSession};

#[test]
fn presets() {
    let all = AIPreset::get_all_presets();
    let ids: Vec<&str> = all.iter().map(|p| p.id.as_str()).collect();
    assert_eq!(ids, vec!["summarize", "action_items", "qa"]);
    assert_eq!(AIPreset::summarize().temperature_hundredths, 30);
    assert!(AIPreset::qa().system_prompt.starts_with("You are a helpful meeting assistant"));
}

#[test]
fn chat_request_messages() {
    let preset = AIPreset::summarize();
    let msgs = chat_messages(&preset, vec![summarize_request()], Some("CONTENT"));
    assert_eq!(msgs.len(), 3);
    assert_eq!(msgs[0].role, "system");
    assert_eq!(msgs[0].content, preset.system_prompt);
    assert_eq!(msgs[1].content, "Here is the meeting content for reference:\n\nCONTENT");
    assert_eq!(msgs[2].content, "Please summarize this meeting.");
    let bare = chat_messages(&preset, vec![ChatMessage { role: "user".to_string(), content: "q".to_string() }], None);
    assert_eq!(bare.len(), 2);
    assert_eq!(bare[1].role, "user");
}

#[test]
fn client_endpoints_and_models() {
    let c = AIClient::new();
    assert_eq!(c.chat_url(), "http://localhost:11434/api/chat");
    assert_eq!(AIClient::with_url("http://h:1").tags_url(), "http://h:1/api/tags");
    let m = model_entry("llama".to_string(), 4_661_224_676, "x".to_string());
    assert_eq!(m.size, "4.3GB");
}

#[test]
fn study_sessions() {
    let mut s = DorkModeSession::new("s1".to_string(), 0);
    s.accumulate_content("  ");
    s.accumulate_content("first");
    s.accumulate_content("second");
    assert_eq!(s.get_all_content(), "first\nsecond");
    s.end_session();
    s.accumulate_content("late");
    assert!(!s.is_active());
    assert_eq!(s.get_all_content(), "first\nsecond");
    assert_eq!(check_study_content(" \n "), Err("No content to generate study materials from".to_string()));
    assert!(check_study_content("x").is_ok());
    assert!(summary_prompt("C").contains("STUDY SESSION CONTENT:\nC\n\nProvide"));
    assert!(concepts_prompt("C").contains("[{\"term\": \"Photosynthesis\""));
    assert!(quiz_prompt("C").ends_with("Return ONLY the JSON array, no other text."));
}
