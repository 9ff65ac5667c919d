use nofriction_meetings::catch_up_agent::{
    extract_json, format_timestamp, no_transcript_capsule, CatchUpAgent, CatchUpCapsule, MeetingMetadata,
    RawCapsule, RiskType, TranscriptSegment,
};

fn seg(ms: i64, speaker: Option<&str>, text: &str) -> TranscriptSegment {
    TranscriptSegment { id: ms.to_string(), timestamp_ms: ms, speaker: speaker.map(String::from), text: text.to_string() }
}

#[test]
fn timestamps_as_minutes_and_seconds() {
    assert_eq!(format_timestamp(0), "00:00");
    assert_eq!(format_timestamp(65_432), "01:05");
    assert_eq!(format_timestamp(3_600_000 + 61_000), "01:01");
    assert_eq!(format_timestamp(-5_000), "00:-5");
    assert_eq!(format_timestamp(-65_000), "-1:-5");
}

#[test]
fn transcript_text_lines() {
    let t = CatchUpAgent::build_transcript_text(&vec![seg(1_000, Some("Ann"), "hi"), seg(61_000, None, "ok")]);
    assert_eq!(t, "[00:01] Ann: hi\n[01:01] ok");
    assert_eq!(CatchUpAgent::build_transcript_text(&vec![]), "");
}

#[test]
fn catch_up_prompt_fields() {
    let m = MeetingMetadata { title: "Plan".to_string(), description: None, attendees: vec![], scheduled_duration_min: None };
    let p = CatchUpAgent::build_catch_up_prompt("T", &m, 12);
    assert!(p.starts_with("You are analyzing a meeting transcript. The user just joined 12 minutes late"));
    assert!(p.contains("MEETING: Plan\nATTENDEES: Unknown\nTRANSCRIPT SO FAR:\nT\n\nGenerate"));
    assert!(p.contains("{\n  \"what_missed\""));
    let m2 = MeetingMetadata { attendees: vec!["a".to_string(), "b".to_string()], ..m };
    assert!(CatchUpAgent::build_catch_up_prompt("T", &m2, 1).contains("ATTENDEES: a, b\n"));
}

#[test]
fn json_cut_from_replies() {
    assert_eq!(extract_json("  ```json\n{\"a\":1}\n```  "), Ok("{\"a\":1}".to_string()));
    assert_eq!(extract_json("```\n {\"b\":2} \n```"), Ok("{\"b\":2}".to_string()));
    assert_eq!(extract_json("Sure: {\"c\":3} done"), Ok("{\"c\":3}".to_string()));
    assert_eq!(extract_json("```json\n{\"d\":4}"), Ok("{\"d\":4}".to_string()));
    assert_eq!(extract_json("nothing"), Err("No JSON found in response".to_string()));
}

#[test]
fn capsules() {
    let d = CatchUpCapsule::default();
    assert_eq!(d.current_topic, "Unknown");
    assert_eq!(d.ten_second_version, "Meeting in progress. No summary available yet.");
    let n = no_transcript_capsule();
    assert_eq!(n.ten_second_version, "No transcript data available yet.");
    let raw = RawCapsule {
        what_missed: Some(vec!["x".to_string()]),
        current_topic: None,
        decisions: Some(vec!["d".to_string()]),
        open_threads: None,
        next_moves: Some(vec!["n".to_string()]),
        risks: Some(vec!["r".to_string()]),
        questions_to_ask: None,
        ten_second_version: Some("ten".to_string()),
        sixty_second_version: None,
        confidence_pct: None,
    };
    let c = CatchUpAgent::capsule_from_raw(raw, 7);
    assert_eq!(c.what_missed.len(), 1);
    assert_eq!(c.what_missed[0].importance_pct, 80);
    assert_eq!(c.current_topic, "Unknown");
    assert_eq!(c.decisions[0].text, "d");
    assert!(c.open_threads.is_empty());
    assert_eq!(c.risks[0].signal_type, RiskType::Unknown);
    assert_eq!(c.risks[0].severity_pct, 50);
    assert_eq!(c.ten_second_version, "ten");
    assert_eq!(c.sixty_second_version, "Summary not available");
    assert_eq!(c.confidence_pct, 50);
    assert_eq!(c.generated_at_minute, 7);
}
