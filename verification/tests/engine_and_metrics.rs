use nofriction_meetings::capture_engine::{choose_monitor, AudioSource, CaptureEngine, CaptureMode, MonitorInfo, ScreenStart, StartWorkers};
use nofriction_meetings::capture_metrics::{MeetingMetrics, MetricsCollector, Ratio};

#[test]
fn test_metrics_collection() {
    let mut collector = MetricsCollector::new();
    collector.start_meeting("test_meeting", 0);
    for _ in 0..100 {
        collector.record_frame();
    }
    for _ in 0..5 {
        collector.record_new_state();
    }
    collector.record_duplicate_skipped(50_000);
    collector.record_duplicate_skipped(50_000);
    let metrics = collector.end_meeting(1_000).unwrap();
    assert_eq!(metrics.frames_in, 100);
    assert_eq!(metrics.states_out, 5);
    assert_eq!(metrics.duplicates_skipped, 2);
    assert_eq!(metrics.bytes_saved_estimate, 100_000);
    assert!(metrics.dedup_ratio.num as f64 / metrics.dedup_ratio.den as f64 > 0.9);
}

#[test]
fn metrics_fractions_are_exact() {
    let mut m = MeetingMetrics::new("m", 1_000);
    m.frames_in = 40;
    m.states_out = 10;
    m.finalize(5_000);
    assert_eq!(m.dedup_ratio, Ratio { num: 30, den: 40 });
    assert_eq!(m.avg_state_duration_ms, Ratio { num: 4_000, den: 10 });
    assert_eq!(m.ended_at_ms, Some(5_000));
    let mut c = MetricsCollector::new();
    assert!(c.snapshot().is_none());
    assert!(c.end_meeting(0).is_none());
    c.start_meeting("x", 0);
    c.record_cpu_time(2_500_000);
    c.record_ocr_call();
    let s = c.snapshot().unwrap();
    assert_eq!(s.cpu_time_ms, 2);
    assert_eq!(s.ocr_calls, 1);
}

#[test]
fn capture_modes_and_workers() {
    let mut e = CaptureEngine::new();
    assert_eq!(e.get_mode(), CaptureMode::Paused);
    assert_eq!(e.stop(), Err("Not recording".to_string()));
    let w = e.start_ambient(0).unwrap();
    assert_eq!(w, StartWorkers { microphone: false, screen: Some(ScreenStart { interval_ms: 30000, delay_ms: 0 }) });
    assert!(!e.audio_enabled);
    let w = e.start_meeting(10).unwrap();
    assert_eq!(w, StartWorkers { microphone: true, screen: None });
    assert_eq!(e.frame_interval_ms, 2000);
    let w = e.start_meeting(20).unwrap();
    assert_eq!(w, StartWorkers { microphone: false, screen: None });
    assert_eq!(e.start(30), Err("Already recording".to_string()));
    assert!(e.pause().is_ok());
    assert_eq!(e.get_mode(), CaptureMode::Paused);
    assert!(!e.is_running && !e.mic_running && !e.screen_running);
    assert!(e.pause().is_err());
    let w = e.start_meeting(1_000).unwrap();
    assert_eq!(w, StartWorkers { microphone: true, screen: Some(ScreenStart { interval_ms: 2000, delay_ms: 3000 }) });
    assert_eq!(e.record_frame(), 0);
    assert_eq!(e.record_frame(), 1);
    e.record_audio(AudioSource::Microphone);
    e.record_audio(AudioSource::System);
    let st = e.get_status(4_500);
    assert!(st.is_recording);
    assert_eq!(st.duration_seconds, 3);
    assert_eq!(st.video_frames, 2);
    assert_eq!(st.audio_samples, 2);
}

#[test]
fn frame_interval_is_clamped() {
    let mut e = CaptureEngine::new();
    e.set_frame_interval(5);
    assert_eq!(e.frame_interval_ms, 100);
    e.set_frame_interval(90_000);
    assert_eq!(e.frame_interval_ms, 60_000);
    e.set_frame_interval(750);
    assert_eq!(e.frame_interval_ms, 750);
}

fn mon(id: u32, primary: bool) -> MonitorInfo {
    MonitorInfo { id, name: format!("m{}", id), width: 1, height: 1, is_primary: primary }
}

#[test]
fn monitor_choice() {
    let ms = vec![mon(3, false), mon(7, true), mon(9, true)];
    assert_eq!(choose_monitor(&ms, Some(9)), Some(2));
    assert_eq!(choose_monitor(&ms, None), Some(1));
    assert_eq!(choose_monitor(&ms, Some(4)), None);
}
