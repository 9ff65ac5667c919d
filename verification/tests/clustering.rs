use chrono::{DateTime, TimeZone, Utc};
use nofriction_meetings::clustering::{ClusteringConfig, ClusteringEngine, TranscriptCluster, TranscriptEntry};
use nofriction_meetings::instant::{seconds_between, time_string, UtcInstant};

fn entry(id: i64, speaker: Option<&str>, ts_ms: i64) -> TranscriptEntry {
    let at = UtcInstant { secs: ts_ms.div_euclid(1000), nanos: (ts_ms.rem_euclid(1000) * 1_000_000) as u32 };
    TranscriptEntry { id, speaker: speaker.map(String::from), timestamp: at }
}

fn instant(d: DateTime<Utc>) -> UtcInstant {
    UtcInstant { secs: d.timestamp(), nanos: d.timestamp_subsec_nanos() }
}

fn ratio(s: &nofriction_meetings::wordset::Similarity) -> f64 {
    s.shared as f64 / s.total as f64
}

#[test]
fn test_text_similarity() {
    let sim = ClusteringEngine::text_similarity(
        "hello world this is a test",
        "hello world this is another test",
    );
    assert!(ratio(&sim) > 0.5);
    let sim2 = ClusteringEngine::text_similarity("completely different", "nothing alike");
    assert!(ratio(&sim2) < 0.2);
}

#[test]
fn text_similarity_exact() {
    let s = ClusteringEngine::text_similarity("Hello World", "hello there");
    assert_eq!((s.shared, s.total), (1, 3));
    let e = ClusteringEngine::text_similarity("", "  ");
    assert_eq!((e.shared, e.total), (1, 1));
}

#[test]
fn clusters_by_time_gaps() {
    let engine = ClusteringEngine::new(ClusteringConfig::default());
    let t: Vec<TranscriptEntry> = vec![
        entry(1, None, 0),
        entry(2, None, 10_000),
        entry(3, None, 20_000),
        entry(4, None, 500_000),
        entry(5, None, 510_000),
        entry(6, None, 520_000),
        entry(7, None, 530_000),
    ];
    assert_eq!(engine.cluster_by_time(&t), vec![vec![0, 1, 2], vec![3, 4, 5, 6]]);
    let few: Vec<TranscriptEntry> = vec![entry(1, None, 0), entry(2, None, 1_000_000)];
    assert!(engine.cluster_by_time(&few).is_empty());
}

#[test]
fn clusters_by_speaker() {
    let engine = ClusteringEngine::new(ClusteringConfig::default());
    let t = vec![entry(1, Some("A"), 0), entry(2, Some("A"), 1), entry(3, Some("B"), 2), entry(4, None, 3)];
    assert_eq!(engine.cluster_by_speaker(&t), vec![vec![0, 1], vec![2], vec![3]]);
}

fn cluster(ids: Vec<i64>, start: &str, end: &str) -> TranscriptCluster {
    TranscriptCluster {
        id: "c".to_string(),
        meeting_id: "m".to_string(),
        name: Some("Segment 1".to_string()),
        transcript_ids: ids,
        start_time: start.to_string(),
        end_time: end.to_string(),
        confidence_pct: 80,
        auto_generated: true,
    }
}

#[test]
fn merge_and_split_clusters() {
    let mut cs = vec![cluster(vec![5, 6], "b", "c"), cluster(vec![1, 2], "a", "d")];
    assert!(ClusteringEngine::merge_clusters(&mut cs, 0, 1).is_ok());
    assert_eq!(cs.len(), 1);
    assert_eq!(cs[0].transcript_ids, vec![1, 2, 5, 6]);
    assert_eq!(cs[0].start_time, "a");
    assert_eq!(cs[0].end_time, "d");
    assert!(!cs[0].auto_generated);
    assert_eq!(ClusteringEngine::merge_clusters(&mut cs, 0, 0), Err("Cannot merge cluster with itself".to_string()));

    let t = vec![entry(1, None, 0), entry(2, None, 1000), entry(5, None, 2000), entry(6, None, 3000)];
    let r = ClusteringEngine::split_cluster(&mut cs, 0, 2, &t);
    assert!(r.is_ok());
    assert_eq!(cs.len(), 2);
    assert_eq!(cs[0].transcript_ids, vec![1, 2]);
    assert_eq!(cs[1].transcript_ids, vec![5, 6]);
    assert_eq!(cs[1].name.as_deref(), Some("Segment 1 (split)"));
    assert_eq!(cs[1].confidence_pct, 70);
    assert_eq!(cs[0].end_time, "1970-01-01T00:00:01+00:00");
    assert_eq!(cs[1].start_time, "1970-01-01T00:00:02+00:00");
    assert_eq!(ClusteringEngine::split_cluster(&mut cs, 0, 0, &t), Err("Cannot split at this position".to_string()));
    assert_eq!(ClusteringEngine::split_cluster(&mut cs, 9, 0, &t), Err("Invalid cluster index".to_string()));
}

#[test]
fn cluster_meeting_groups_by_time() {
    let engine = ClusteringEngine::new(ClusteringConfig::default());
    let t: Vec<TranscriptEntry> = vec![
        entry(1, None, 0),
        entry(2, None, 10_000),
        entry(3, None, 20_000),
        entry(4, None, 900_000),
        entry(5, None, 910_000),
        entry(6, None, 920_000),
    ];
    let segments = engine.cluster_meeting("m1", &t);
    assert_eq!(segments.len(), 2);
    assert_eq!(segments[0].meeting_id, "m1");
    assert_eq!(segments[0].transcript_ids, vec![1, 2, 3]);
    assert_eq!(segments[1].transcript_ids, vec![4, 5, 6]);
    assert_eq!(segments[0].id.len(), 36);
    assert!(engine.cluster_meeting("m1", &vec![]).is_empty());
}

#[test]
fn instants_keep_chrono_precision() {
    let samples = [
        Utc.timestamp_opt(1_700_000_000, 123_456_789).unwrap(),
        Utc.timestamp_opt(1_700_000_001, 123_456_788).unwrap(),
        Utc.timestamp_opt(1_700_000_120, 999_999_999).unwrap(),
        Utc.timestamp_opt(-5, 1).unwrap(),
        Utc.timestamp_opt(0, 0).unwrap(),
        Utc.timestamp_opt(86_399, 1_500_000_000).unwrap(),
        Utc.timestamp_opt(86_400, 250_000_000).unwrap(),
        Utc.timestamp_opt(86_398, 700_000_000).unwrap(),
    ];
    for a in samples {
        assert_eq!(time_string(instant(a)), a.to_rfc3339());
        for b in samples {
            assert_eq!(seconds_between(instant(a), instant(b)), (b - a).num_seconds() as i128, "{} {}", a, b);
        }
    }
    let a = Utc.timestamp_opt(1_700_000_000, 500_000_000).unwrap();
    let b = Utc.timestamp_opt(1_700_000_121, 400_000_000).unwrap();
    assert_eq!(seconds_between(instant(a), instant(b)), 120);
}

#[test]
fn segments_keep_sub_millisecond_times() {
    let engine = ClusteringEngine::new(ClusteringConfig::default());
    let base = Utc.timestamp_opt(1_700_000_000, 123_456_789).unwrap();
    let t: Vec<TranscriptEntry> = (0..3)
        .map(|k| TranscriptEntry {
            id: k,
            speaker: None,
            timestamp: instant(base + chrono::Duration::seconds(k)),
        })
        .collect();
    let segments = engine.cluster_meeting("m1", &t);
    assert_eq!(segments.len(), 1);
    assert_eq!(segments[0].start_time, base.to_rfc3339());
    assert_eq!(segments[0].start_time, "2023-11-14T22:13:20.123456789+00:00");
}
