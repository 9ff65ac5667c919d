use nofriction_meetings::ai_client::format_size;
use nofriction_meetings::chunk_manager::{
    chunk_number, is_meeting_dir_name, Eviction, sort_meetings_by_age, ChunkManager, MeetingStorage, RetentionAction,
    RetentionPolicy,
};
use nofriction_meetings::commands::format_bytes;

fn tenth(x: f64) -> String {
    format!("{:.1}", x)
}

#[test]
fn sizes_match_float_formatting() {
    let samples: Vec<u64> = vec![
        0, 1, 1023, 1024, 1075, 1126, 1280, 1331, 1536, 10_240, 1_048_575, 1_048_576, 1_101_004,
        1_310_720, 1_363_148, 5_000_000, 1_073_741_823, 1_073_741_824, 1_181_116_006, 1_610_612_736,
        123_456_789_012, 9_007_199_254_740_991, 9_007_199_254_740_992, 9_007_199_254_740_993,
        9_007_199_254_740_995, 18_014_398_509_481_987, 12_345_678_901_234_567_891, u64::MAX - 1,
        u64::MAX,
    ];
    for &b in &samples {
        let (unit, name) = if b >= 1 << 30 {
            (1u64 << 30, "GB")
        } else if b >= 1 << 20 {
            (1 << 20, "MB")
        } else if b >= 1 << 10 {
            (1 << 10, "KB")
        } else {
            (1, "")
        };
        if name.is_empty() {
            assert_eq!(format_bytes(b), format!("{} bytes", b));
            assert_eq!(ChunkManager::format_size(b), format!("{} B", b));
            assert_eq!(format_size(b as i64), format!("{}B", b));
        } else {
            let v = tenth(b as f64 / unit as f64);
            assert_eq!(format_bytes(b), format!("{} {}", v, name), "bytes {}", b);
            assert_eq!(ChunkManager::format_size(b), format!("{} {}", v, name));
            if b <= i64::MAX as u64 {
                assert_eq!(format_size(b as i64), format!("{}{}", v, name));
            }
        }
    }
}

#[test]
fn sizes_of_counts_beyond_exact_doubles() {
    for b in [u64::MAX, 1u64 << 63, (1u64 << 60) + 12_345, 9_007_199_254_740_993] {
        let expected = format!("{:.1}", b as f64 / (1u64 << 30) as f64);
        assert_eq!(format_bytes(b), format!("{} GB", expected));
        assert_eq!(ChunkManager::format_size(b), format!("{} GB", expected));
    }
    assert_eq!(format_bytes(u64::MAX), "17179869184.0 GB");
    assert_eq!(format_size(i64::MAX), "8589934592.0GB");
}

#[test]
fn size_examples() {
    assert_eq!(format_bytes(1536), "1.5 KB");
    assert_eq!(format_bytes(1280), "1.2 KB");
    assert_eq!(format_size(-5), "-5B");
    assert_eq!(ChunkManager::format_size(3 * 1024 * 1024 * 1024), "3.0 GB");
}

#[test]
fn retention_decisions() {
    let m = ChunkManager::new("/data".to_string(), RetentionPolicy::default());
    let day = 86_400_000i64;
    let now = 100 * day;
    assert_eq!(m.retention_action(now - 8 * day, now), RetentionAction::DeleteMeeting);
    assert_eq!(m.retention_action(now - 2 * day, now), RetentionAction::DeleteFrames);
    assert_eq!(m.retention_action(now - day, now), RetentionAction::Keep);
    assert_eq!(RetentionPolicy::default().max_disk_bytes, 50 * 1024 * 1024 * 1024);
}

#[test]
fn chunk_numbers_and_names() {
    assert_eq!(chunk_number("chunk_12"), 12);
    assert_eq!(chunk_number("chunk_+7"), 7);
    assert_eq!(chunk_number("chunk_"), 0);
    assert_eq!(chunk_number("chunk_4294967296"), 0);
    assert_eq!(chunk_number("chunk_4294967295"), 4294967295);
    assert_eq!(chunk_number("video_3"), 0);
    assert_eq!(chunk_number("chunk_1a"), 0);
    assert!(is_meeting_dir_name("123e4567-e89b-12d3-a456-426614174000"));
    assert!(!is_meeting_dir_name("short"));
    assert!(is_meeting_dir_name("é23e4567-e89b-12d3-a456-42661417400"));
    assert!(!is_meeting_dir_name("é23e4567-e89b-12d3-a456-426614174000"));
}

fn meeting(id: &str, created: i64) -> MeetingStorage {
    MeetingStorage {
        meeting_id: id.to_string(),
        created_at_ms: created,
        video_bytes: 0,
        frames_bytes: 0,
        total_bytes: 0,
        chunk_count: 0,
        path: String::new(),
    }
}

#[test]
fn meetings_ordered_by_age() {
    let ms = vec![meeting("b", 20), meeting("a", 10), meeting("c", 20), meeting("d", 30)];
    let newest: Vec<String> = sort_meetings_by_age(ms.clone(), true).into_iter().map(|m| m.meeting_id).collect();
    assert_eq!(newest, vec!["d", "b", "c", "a"]);
    let oldest: Vec<String> = sort_meetings_by_age(ms, false).into_iter().map(|m| m.meeting_id).collect();
    assert_eq!(oldest, vec!["a", "b", "c", "d"]);
}

#[test]
fn eviction_deletes_oldest_until_enough_is_freed() {
    let policy = RetentionPolicy { max_disk_bytes: 1000, ..RetentionPolicy::default() };
    let m = ChunkManager::new("/data".to_string(), policy.clone());
    assert_eq!(m.start_eviction(1500, true), None);
    let off = ChunkManager::new(
        "/data".to_string(),
        RetentionPolicy { enable_lru_eviction: false, ..policy.clone() },
    );
    assert_eq!(off.start_eviction(1500, false), None);
    let mut e = m.start_eviction(1500, false).unwrap();
    assert_eq!(e, Eviction { target: 500, freed: 0, deleted: 0 });
    assert!(e.needs_more());
    e.record_deletion(None);
    assert_eq!(e, Eviction { target: 500, freed: 0, deleted: 0 });
    e.record_deletion(Some(300));
    assert!(e.needs_more());
    e.record_deletion(Some(250));
    assert_eq!(e, Eviction { target: 500, freed: 550, deleted: 2 });
    assert!(!e.needs_more());
    let exact = m.start_eviction(1000, false).unwrap();
    assert_eq!(exact.target, 0);
    assert!(!exact.needs_more());
}
