use nofriction_meetings::diff_builder::{ChangeType, DiffBuilder};

#[test]
fn test_identical_text_no_diff() {
    let builder = DiffBuilder::new();
    let text = "Hello world\nThis is a test";
    let diff = builder.compute_diff("ep1", text, text, 1_700_000_000_000);
    assert_eq!(diff.lines_added, 0);
    assert_eq!(diff.lines_removed, 0);
}

#[test]
fn test_added_lines() {
    let builder = DiffBuilder::new();
    let from = "Line 1";
    let to = "Line 1\nLine 2\nLine 3";
    let diff = builder.compute_diff("ep1", from, to, 1_700_000_000_000);
    assert_eq!(diff.lines_added, 2);
    assert_eq!(diff.lines_removed, 0);
    assert_eq!(diff.change_type, ChangeType::ContentAdded);
}

#[test]
fn test_text_hash() {
    let hash1 = DiffBuilder::compute_text_hash("Hello");
    let hash2 = DiffBuilder::compute_text_hash("Hello");
    let hash3 = DiffBuilder::compute_text_hash("World");
    assert_eq!(hash1, hash2);
    assert_ne!(hash1, hash3);
}

#[test]
fn test_scroll_detection() {
    let builder = DiffBuilder::new();
    let text1 = "A B C D E F G H I J K L M N O P Q R S T";
    let text2 = "A B C D E F G H I J K L M N O P Q R S X";
    let is_scroll = builder.is_scroll_like(text1, text2);
    assert!(is_scroll);
}

#[test]
fn text_hash_is_sha256_hex() {
    assert_eq!(
        DiffBuilder::compute_text_hash("Hello"),
        "185f8db32271fe25f561a6fc938b2e264306ec304eda518007d1764826381969"
    );
}

#[test]
fn scroll_threshold_and_symmetry() {
    let b = DiffBuilder::new();
    assert!(!b.is_scroll_like("a b c d", "a b c x"));
    assert_eq!(b.is_scroll_like("a b", "a b c"), b.is_scroll_like("a b c", "a b"));
    assert!(b.is_scroll_like("x y", "x y"));
}

#[test]
fn removed_and_changed_lines() {
    let b = DiffBuilder::new();
    let d = b.compute_diff("ep", "a\nb\nc", "a\nc", 5);
    assert_eq!(d.lines_added, 0);
    assert_eq!(d.lines_removed, 1);
    assert_eq!(d.change_type, ChangeType::ContentRemoved);
    assert_eq!(d.ts_ms, 5);
    assert_eq!(d.episode_id, "ep");
    assert_eq!(d.patch_id.len(), 36);
    assert_eq!(ChangeType::ContentAdded.as_str(), "content_added");
}

#[test]
fn format_only_change() {
    let b = DiffBuilder::new();
    assert_eq!(b.normalize_for_comparison("  Hello   World \n"), "Hello World");
    let d = b.compute_diff("ep", " ", "\n", 0);
    assert_eq!(d.change_type, ChangeType::FormatOnly);
    let s = b.compute_diff("ep", "Hello world", "Hello  world", 0);
    assert_eq!(s.change_type, ChangeType::FormatOnly);
    assert_eq!(s.change_summary.as_deref(), Some("Formatting changes only"));
    let scrolled = b.compute_diff(
        "ep",
        "A B C D E F G H I J K L M N O P Q R S T",
        "A B C D E F G H I J K L M N O P Q R S X",
        0,
    );
    assert_eq!(scrolled.change_type, ChangeType::ScrollOnly);
}

#[test]
fn patch_ids_are_v4_uuids() {
    let b = DiffBuilder::new();
    let d = b.compute_diff("ep", "a", "b", 5);
    let id: Vec<char> = d.patch_id.chars().collect();
    assert_eq!(id.len(), 36);
    for (i, c) in id.iter().enumerate() {
        if i == 8 || i == 13 || i == 18 || i == 23 {
            assert_eq!(*c, '-');
        } else {
            assert!(c.is_ascii_hexdigit() && !c.is_ascii_uppercase());
        }
    }
    assert_eq!(id[14], '4');
    assert!(matches!(id[19], '8' | '9' | 'a' | 'b'));
}
