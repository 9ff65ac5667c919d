use nofriction_meetings::audit_log::{deletion_action, edit_action, json_string};
use nofriction_meetings::data_editor::{
    activity_item, count_query, edit_result, entity_item, episode_item, learned_kind, like_pattern,
    nothing_to_restore, select_field_query, text_snapshot_item, update_field_query, version_diff,
    LearnedKind,
};
use nofriction_meetings::env_config::{EnvConfig, EnvValues};
use nofriction_meetings::frame_extractor::FrameExtractor;

#[test]
fn sql_for_known_kinds_only() {
    assert_eq!(learned_kind("entity"), Some(LearnedKind::Entity));
    assert_eq!(learned_kind("nope"), None);
    assert_eq!(count_query("episode", false).as_deref(), Some("SELECT COUNT(*) as count FROM document_episodes"));
    assert_eq!(
        count_query("text_snapshot", true).as_deref(),
        Some("SELECT COUNT(*) as count FROM text_snapshots WHERE content LIKE ?")
    );
    assert_eq!(count_query("users; drop", true), None);
    assert_eq!(like_pattern("ab"), "%ab%");
    assert_eq!(select_field_query("entity", "metadata").as_deref(), Some("SELECT metadata FROM entities WHERE id = ?"));
    assert_eq!(update_field_query("activity_log", "action").as_deref(), Some("UPDATE activity_log SET action = ? WHERE id = ?"));
    assert_eq!(select_field_query("entity", "id; drop table x"), None);
    assert_eq!(update_field_query("text_snapshot", "metadata"), None);
}

#[test]
fn version_diffs_and_results() {
    assert_eq!(version_diff(Some("old"), "new"), "-old\n+new");
    assert_eq!(version_diff(None, "new"), "+new");
    let long = "x".repeat(150);
    assert_eq!(version_diff(None, &long), format!("+{}", "x".repeat(100)));
    let r = edit_result(9, "entity", "metadata");
    assert!(r.success);
    assert_eq!(r.version_id, 9);
    assert_eq!(r.message, "Updated entity.metadata");
    let n = nothing_to_restore();
    assert!(!n.success);
    assert_eq!(n.message, "No previous value to restore");
}

#[test]
fn items_for_rows() {
    let t = text_snapshot_item("abcdefghijk".to_string(), &"y".repeat(300), "t0".to_string(), None);
    assert_eq!(t.title, "Text Snapshot abcdefgh");
    assert_eq!(t.content.len(), 200);
    let short = text_snapshot_item("ab".to_string(), "z", "t0".to_string(), None);
    assert_eq!(short.title, "Text Snapshot ab");
    let e = entity_item(-4, "person", "Ann".to_string(), "a".to_string(), "b".to_string(), None);
    assert_eq!(e.entity_id, "-4");
    assert_eq!(e.title, "[person] Ann");
    let a = activity_item(3, "opened".to_string(), "t".to_string(), None);
    assert_eq!(a.title, "opened");
    let p = episode_item(5, "/home/u/doc.txt".to_string(), "s".to_string(), None);
    assert_eq!(p.title, "doc.txt");
    assert_eq!(p.updated_at, "");
    let q = episode_item(5, "plain".to_string(), "s".to_string(), Some("e".to_string()));
    assert_eq!(q.title, "plain");
    assert_eq!(q.updated_at, "e");
}

#[test]
fn audit_records() {
    let d = deletion_action("meeting", "m1", 1000, None);
    assert_eq!(d.action, "delete");
    assert_eq!(d.bytes_affected, 1000);
    let e = edit_action("text_snapshot", "t1", "text", None, "new text");
    assert_eq!(e.action, "edit");
    assert_eq!(e.bytes_affected, 0);
    let details: serde_json::Value = serde_json::from_str(e.details.as_deref().unwrap()).unwrap();
    assert_eq!(details["field"], "text");
    assert_eq!(details["new_value"], "new text");
    assert!(details["old_value"].is_null());
}

fn empty_values() -> EnvValues {
    EnvValues {
        supabase_connection_string: None,
        pinecone_api_key: None,
        pinecone_index_host: None,
        pinecone_namespace: None,
        vlm_base_url: None,
        thebrain_email: None,
        thebrain_password: None,
        remote_intelligence_enabled: None,
        remote_intelligence_url: None,
        remote_intelligence_token: None,
        deepgram_api_key: None,
        gemini_api_key: None,
    }
}

#[test]
fn environment_defaults_and_file() {
    let c = EnvConfig::from_env(empty_values());
    assert_eq!(c.pinecone_namespace.as_deref(), Some("default"));
    assert_eq!(c.vlm_base_url.as_deref(), Some("https://7wk68vrq9achr2djw.caas.targon.com"));
    assert!(!c.remote_intelligence_enabled);
    let v = EnvValues {
        remote_intelligence_enabled: Some("true".to_string()),
        deepgram_api_key: Some(String::new()),
        gemini_api_key: Some("g".to_string()),
        pinecone_api_key: Some("p".to_string()),
        ..empty_values()
    };
    let c2 = EnvConfig::from_env(v);
    assert!(c2.remote_intelligence_enabled);
    assert_eq!(c2.deepgram_api_key, None);
    assert_eq!(c2.gemini_api_key.as_deref(), Some("g"));
    let off = EnvConfig::from_env(EnvValues { remote_intelligence_enabled: Some("TRUE".to_string()), ..empty_values() });
    assert!(!off.remote_intelligence_enabled);
    assert_eq!(
        c2.env_file_text(),
        "# noFriction Meetings - User Configuration\n# Auto-generated - Edit these values as needed\n\nPINECONE_API_KEY=p\nPINECONE_NAMESPACE=default\nVLM_BASE_URL=https://7wk68vrq9achr2djw.caas.targon.com\nREMOTE_INTELLIGENCE_ENABLED=true\n"
    );
    let d = EnvConfig::default();
    assert_eq!(d.pinecone_namespace.as_deref(), Some("default"));
}

#[test]
fn frame_extractor_settings() {
    let f = FrameExtractor::new("/tmp/cache".to_string());
    assert_eq!(f.jpeg_quality, 85);
    assert_eq!(f.ffmpeg_quality(), 6);
    assert_eq!(FrameExtractor::thumbnail_filter(320), "scale=320:-1");
}

#[test]
fn edit_details_text_is_exact() {
    let e = edit_action("text_snapshot", "t1", "text", Some("old"), "say \"hi\"\n");
    assert_eq!(
        e.details.as_deref(),
        Some("{\"field\":\"text\",\"new_value\":\"say \\\"hi\\\"\\n\",\"old_value\":\"old\"}")
    );
    let n = edit_action("entity", "e1", "name", None, "x");
    assert_eq!(n.details.as_deref(), Some("{\"field\":\"name\",\"new_value\":\"x\",\"old_value\":null}"));
}

#[test]
fn json_strings_are_written_as_serde_json_writes_them() {
    let samples = [
        "",
        "plain",
        "say \"hi\"",
        "back\\slash",
        "line\nbreak\ttab\rret",
        "\u{8}\u{c}\u{0}\u{1}\u{1f}\u{7f}",
        "caf\u{e9} \u{1f600} /slash",
    ];
    for s in samples {
        assert_eq!(json_string(s), serde_json::Value::from(s).to_string(), "{:?}", s);
    }
    assert_eq!(json_string("a\u{1}b\u{1f}"), "\"a\\u0001b\\u001f\"");
}
