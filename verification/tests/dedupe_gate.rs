use image::{DynamicImage, Rgb, RgbImage};
use nofriction_meetings::dedupe_gate::{AverageHash, DedupConfig, DedupGate, DedupReason, FrameImage};

fn frame(img: DynamicImage) -> FrameImage {
    let rgba = img.to_rgba8();
    FrameImage { width: rgba.width(), height: rgba.height(), rgba: rgba.into_raw() }
}

fn gradient() -> FrameImage {
    frame(DynamicImage::ImageRgb8(RgbImage::from_fn(100, 100, |x, y| {
        Rgb([(x % 256) as u8, (y % 256) as u8, 128])
    })))
}

#[test]
fn test_identical_frames_are_duplicates() {
    let mut gate = DedupGate::new();
    let img = gradient();
    let result1 = gate.check_frame(&img);
    assert!(!result1.is_duplicate);
    let result2 = gate.check_frame(&img);
    assert!(result2.is_duplicate);
}

#[test]
fn test_different_frames_not_duplicates() {
    let mut gate = DedupGate::new();
    let img1 = frame(DynamicImage::ImageRgb8(RgbImage::from_fn(100, 100, |_, _| Rgb([0, 0, 0]))));
    let img2 = frame(DynamicImage::ImageRgb8(RgbImage::from_fn(100, 100, |_, _| Rgb([255, 255, 255]))));
    gate.check_frame(&img1);
    let result = gate.check_frame(&img2);
    assert!(!result.is_duplicate);
}

#[test]
fn test_hash_serialization() {
    let img = gradient();
    let hash = AverageHash::compute(&img);
    let serialized = hash.to_base64();
    let deserialized = AverageHash::from_base64(&serialized).unwrap();
    assert_eq!(hash, deserialized);
}

#[test]
fn hash_distance_counts_differing_bits() {
    let a = AverageHash { hash: 0b1011 };
    let b = AverageHash { hash: 0b0110 };
    assert_eq!(a.distance(&b), 3);
    assert_eq!(a.distance(&a), 0);
    assert_eq!(b.distance(&a), 3);
}

#[test]
fn average_hash_of_pixels() {
    let mut px = vec![0u8; 64];
    for i in 0..32 {
        px[i] = 200;
    }
    let h = AverageHash::from_pixels(&px);
    assert_eq!(h.hash.count_ones(), 32);
    assert_eq!(AverageHash::from_base64("not base64!"), None);
    assert_eq!(AverageHash::from_base64("AAAA"), None);
}

#[test]
fn first_frame_reason_and_reset() {
    let mut gate = DedupGate::new();
    let r = gate.check_frame(&gradient());
    assert_eq!(r.reason, DedupReason::FirstFrame);
    gate.reset();
    let r = gate.check_frame(&gradient());
    assert_eq!(r.reason, DedupReason::FirstFrame);
}

#[test]
fn first_frame_result_is_tied_to_the_image() {
    let mut gate = DedupGate::new();
    let img = gradient();
    let r = gate.check_frame(&img);
    assert!(!r.is_duplicate);
    assert!(matches!(r.reason, DedupReason::FirstFrame));
    assert_eq!(r.hamming_distance, 0);
    assert_eq!(r.delta_score.diff, 0);
    assert_eq!(r.ahash, AverageHash::compute(&img));
    let black = frame(DynamicImage::ImageRgb8(RgbImage::from_fn(100, 100, |_, _| Rgb([0, 0, 0]))));
    assert_ne!(AverageHash::compute(&img), AverageHash::compute(&black));
}

#[test]
fn zero_sized_delta_thumbnail() {
    let mut gate = DedupGate::with_config(DedupConfig { hash_threshold: 8, delta_threshold_per_10k: 200, delta_size: 0 });
    let img = gradient();
    gate.check_frame(&img);
    let r = gate.check_frame(&img);
    assert!(!r.is_duplicate);
    assert!(matches!(r.reason, DedupReason::SignificantChange));
}

#[test]
fn hash_distance_triangle() {
    let a = AverageHash { hash: 0b1100 };
    let b = AverageHash { hash: 0b1010 };
    let c = AverageHash { hash: 0b0011 };
    assert!(a.distance(&c) <= a.distance(&b) + b.distance(&c));
    assert_eq!(a.distance(&c), 4);
}
