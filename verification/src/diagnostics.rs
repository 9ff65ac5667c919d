//! What the setup and diagnostics screens report: permission and device
//! probes turned into test results, text previews, captured test frames,
//! capture diagnostics and the always-on defaults. The probes themselves
//! (asking the system for monitors, microphones and windows) are the
//! caller's part; these functions take what they found.
use vstd::prelude::*;
use crate::capture_engine::MonitorInfo;
use crate::chunk_manager::{utf8_len, utf8_length};
use crate::data_editor::{byte_prefix, byte_prefix_chars, cut_on_boundary};
use crate::dedupe_gate::{b64_encode, base64_encode};
use crate::episode_builder::opt_view;
use crate::text::{chars_of, extend_str, string_of};

verus! {

/// Which permissions the app holds.
pub struct PermissionStatus {
    pub screen_recording: bool,
    pub microphone: bool,
    pub accessibility: bool,
}

impl PermissionStatus {
    /// Every permission held: what platforms without permission prompts report.
    pub fn all_granted() -> (r: Self)
        ensures
            r.screen_recording && r.microphone && r.accessibility,
    {
        PermissionStatus { screen_recording: true, microphone: true, accessibility: true }
    }
}

/// At most the first 200 bytes of a text, marked with `...` when cut.
pub open spec fn text_preview(s: Seq<char>) -> Seq<char> {
    if utf8_len(s) > 200 {
        byte_prefix(s, 200) + "..."@
    } else {
        s
    }
}

/// A text can be previewed: it is short, or its 200th byte ends a character.
pub open spec fn previewable(s: Seq<char>) -> bool {
    utf8_len(s) > 200 ==> cut_on_boundary(s, 200)
}

/// The preview of a text: its first 200 bytes and `...` when it is longer.
pub fn preview_text(text: &str) -> (r: String)
    requires
        previewable(text@),
    ensures
        r@ == text_preview(text@),
{
    if utf8_length(text) > 200 {
        let mut p = byte_prefix_chars(text, 200);
        extend_str(&mut p, "...");
        string_of(&p)
    } else {
        String::from_str(text)
    }
}

/// What trying to capture one frame found.
pub enum ScreenProbe {
    /// The platform offers no screen capture test.
    Unsupported,
    /// Listing the monitors failed with this message.
    ListFailed(String),
    /// No monitor is attached.
    NoMonitor,
    /// Capturing from the monitor failed with this message.
    CaptureFailed(String),
    /// A frame of this size was captured.
    Captured { width: u32, height: u32 },
}

/// The outcome of the screen capture test.
pub struct ScreenTestResult {
    pub success: bool,
    pub frame_width: Option<u32>,
    pub frame_height: Option<u32>,
    pub error: Option<String>,
}

/// The error a failed screen probe reports.
pub open spec fn screen_error(p: ScreenProbe) -> Option<Seq<char>> {
    match p {
        ScreenProbe::Unsupported => Some("Screen capture test only available on macOS"@),
        ScreenProbe::ListFailed(e) => Some("Failed to list monitors: "@ + e@),
        ScreenProbe::NoMonitor => Some("No monitor found"@),
        ScreenProbe::CaptureFailed(e) => Some("Failed to capture frame: "@ + e@),
        ScreenProbe::Captured { .. } => None,
    }
}

fn error_text(prefix: &str, e: &str) -> (r: String)
    ensures
        r@ == prefix@ + e@,
{
    let mut v: Vec<char> = Vec::new();
    extend_str(&mut v, prefix);
    extend_str(&mut v, e);
    string_of(&v)
}

/// The screen test's result: the frame's size when one was captured, else
/// the error that stopped it.
pub fn screen_test_result(probe: ScreenProbe) -> (r: ScreenTestResult)
    ensures
        r.success == (probe is Captured),
        match probe {
            ScreenProbe::Captured { width, height } => r.frame_width == Some(width) && r.frame_height
                == Some(height) && r.error is None,
            _ => r.frame_width is None && r.frame_height is None && opt_view(r.error) == screen_error(
                probe,
            ),
        },
{
    match probe {
        ScreenProbe::Captured { width, height } => ScreenTestResult {
            success: true,
            frame_width: Some(width),
            frame_height: Some(height),
            error: None,
        },
        ScreenProbe::Unsupported => ScreenTestResult {
            success: false,
            frame_width: None,
            frame_height: None,
            error: Some(String::from_str("Screen capture test only available on macOS")),
        },
        ScreenProbe::ListFailed(e) => ScreenTestResult {
            success: false,
            frame_width: None,
            frame_height: None,
            error: Some(error_text("Failed to list monitors: ", e.as_str())),
        },
        ScreenProbe::NoMonitor => ScreenTestResult {
            success: false,
            frame_width: None,
            frame_height: None,
            error: Some(String::from_str("No monitor found")),
        },
        ScreenProbe::CaptureFailed(e) => ScreenTestResult {
            success: false,
            frame_width: None,
            frame_height: None,
            error: Some(error_text("Failed to capture frame: ", e.as_str())),
        },
    }
}

/// What trying to open the default microphone found.
pub enum MicProbe {
    /// The permission check, made without prompting, said no.
    PermissionDenied,
    /// No input device is present.
    NoDevice,
    /// The device was found but its configuration could not be read.
    ConfigFailed { device_name: String, error: String },
    /// The device and its configuration.
    Ready { device_name: String, sample_rate: u32, channels: u16 },
}

/// The outcome of the microphone test.
pub struct MicTestResult {
    pub success: bool,
    pub device_name: Option<String>,
    pub sample_rate: Option<u32>,
    pub channels: Option<u16>,
    pub error: Option<String>,
}

/// The microphone test's result.
pub fn mic_test_result(probe: MicProbe) -> (r: MicTestResult)
    ensures
        r.success == (probe is Ready),
        match probe {
            MicProbe::PermissionDenied => r.device_name is None && r.sample_rate is None
                && r.channels is None && opt_view(r.error) == Some(
                "Microphone permission not granted (passive check)"@,
            ),
            MicProbe::NoDevice => r.device_name is None && r.sample_rate is None && r.channels is None
                && opt_view(r.error) == Some("No microphone found"@),
            MicProbe::ConfigFailed { device_name, error } => r.device_name == Some(device_name)
                && r.sample_rate is None && r.channels is None && opt_view(r.error) == Some(
                "Failed to get config: "@ + error@,
            ),
            MicProbe::Ready { device_name, sample_rate, channels } => r.device_name == Some(
                device_name,
            ) && r.sample_rate == Some(sample_rate) && r.channels == Some(channels) && r.error is None,
        },
{
    match probe {
        MicProbe::PermissionDenied => MicTestResult {
            success: false,
            device_name: None,
            sample_rate: None,
            channels: None,
            error: Some(String::from_str("Microphone permission not granted (passive check)")),
        },
        MicProbe::NoDevice => MicTestResult {
            success: false,
            device_name: None,
            sample_rate: None,
            channels: None,
            error: Some(String::from_str("No microphone found")),
        },
        MicProbe::ConfigFailed { device_name, error } => MicTestResult {
            success: false,
            device_name: Some(device_name),
            sample_rate: None,
            channels: None,
            error: Some(error_text("Failed to get config: ", error.as_str())),
        },
        MicProbe::Ready { device_name, sample_rate, channels } => MicTestResult {
            success: true,
            device_name: Some(device_name),
            sample_rate: Some(sample_rate),
            channels: Some(channels),
            error: None,
        },
    }
}

/// What trying to read the focused window's text found.
pub enum AccessibilityProbe {
    /// The platform offers no accessibility test.
    Unsupported,
    /// The app is not trusted for accessibility.
    NotTrusted,
    /// Trusted, but extraction failed with this message.
    Failed(String),
    /// The focused window's app and text.
    Extracted { app_name: Option<String>, text: String },
}

/// The outcome of the accessibility test.
pub struct AccessibilityTestResult {
    pub success: bool,
    pub is_trusted: bool,
    pub app_name: Option<String>,
    pub text_sample: Option<String>,
    pub text_length: Option<usize>,
    pub error: Option<String>,
}

/// The accessibility test's result: a preview of the extracted text and its
/// length in bytes, or what went wrong.
pub fn accessibility_test_result(probe: AccessibilityProbe) -> (r: AccessibilityTestResult)
    requires
        probe matches AccessibilityProbe::Extracted { text, .. } ==> utf8_len(text@) <= usize::MAX
            && previewable(text@),
    ensures
        r.success == (probe is Extracted),
        r.is_trusted == (probe is Extracted || probe is Failed),
        match probe {
            AccessibilityProbe::Unsupported => r.app_name is None && r.text_sample is None
                && r.text_length is None && opt_view(r.error) == Some(
                "Accessibility test only available on macOS"@,
            ),
            AccessibilityProbe::NotTrusted => r.app_name is None && r.text_sample is None
                && r.text_length is None && opt_view(r.error) == Some(
                "Accessibility permission not granted"@,
            ),
            AccessibilityProbe::Failed(e) => r.app_name is None && r.text_sample is None
                && r.text_length is None && r.error == Some(e),
            AccessibilityProbe::Extracted { app_name, text } => r.app_name == app_name && opt_view(
                r.text_sample,
            ) == Some(text_preview(text@)) && r.text_length == Some(utf8_len(text@) as usize)
                && r.error is None,
        },
{
    match probe {
        AccessibilityProbe::Unsupported => AccessibilityTestResult {
            success: false,
            is_trusted: false,
            app_name: None,
            text_sample: None,
            text_length: None,
            error: Some(String::from_str("Accessibility test only available on macOS")),
        },
        AccessibilityProbe::NotTrusted => AccessibilityTestResult {
            success: false,
            is_trusted: false,
            app_name: None,
            text_sample: None,
            text_length: None,
            error: Some(String::from_str("Accessibility permission not granted")),
        },
        AccessibilityProbe::Failed(e) => AccessibilityTestResult {
            success: false,
            is_trusted: true,
            app_name: None,
            text_sample: None,
            text_length: None,
            error: Some(e),
        },
        AccessibilityProbe::Extracted { app_name, text } => {
            let sample = preview_text(text.as_str());
            let length = utf8_length(text.as_str());
            AccessibilityTestResult {
                success: true,
                is_trusted: true,
                app_name,
                text_sample: Some(sample),
                text_length: Some(length),
                error: None,
            }
        },
    }
}

/// A text snapshot taken from the focused window.
pub struct CapturedSnapshotResult {
    pub success: bool,
    pub text_preview: String,
    pub word_count: i32,
    pub source: String,
    pub snapshot_id: String,
}

/// The report of a snapshot stored under `snapshot_id`: a preview of its
/// text and its word count, taken through the accessibility API.
pub fn captured_snapshot_result(snapshot_id: String, text: &str, word_count: i32) -> (r:
    CapturedSnapshotResult)
    requires
        previewable(text@),
    ensures
        r.success,
        r.text_preview@ == text_preview(text@),
        r.word_count == word_count,
        r.source@ == "accessibility"@,
        r.snapshot_id == snapshot_id,
{
    CapturedSnapshotResult {
        success: true,
        text_preview: preview_text(text),
        word_count,
        source: String::from_str("accessibility"),
        snapshot_id,
    }
}

/// A test frame from the primary monitor, for checking the capture size.
pub struct TestCaptureResult {
    pub image_base64: String,
    pub actual_width: u32,
    pub actual_height: u32,
    pub expected_width: u32,
    pub expected_height: u32,
    pub monitor_name: String,
    pub dimensions_match: bool,
}

/// The test frame's report: the encoded image in base64, and whether the
/// frame has the monitor's size.
pub fn test_capture_result(
    image: &[u8],
    actual_width: u32,
    actual_height: u32,
    expected_width: u32,
    expected_height: u32,
    monitor_name: String,
) -> (r: TestCaptureResult)
    ensures
        r.image_base64@ == base64_encode(image@),
        r.actual_width == actual_width,
        r.actual_height == actual_height,
        r.expected_width == expected_width,
        r.expected_height == expected_height,
        r.monitor_name == monitor_name,
        r.dimensions_match == (actual_width == expected_width && actual_height == expected_height),
{
    TestCaptureResult {
        image_base64: b64_encode(image),
        actual_width,
        actual_height,
        expected_width,
        expected_height,
        monitor_name,
        dimensions_match: actual_width == expected_width && actual_height == expected_height,
    }
}

/// What the capture troubleshooting screen shows.
pub struct CaptureDiagnostics {
    pub monitors: Vec<MonitorInfo>,
    pub current_monitor_id: Option<u32>,
    pub frame_interval_ms: u32,
    pub is_recording: bool,
    pub screen_permission: bool,
    pub mic_permission: bool,
}

/// The diagnostics from the monitors found, the recording state and the
/// permissions; the frame interval reported is the default second, and no
/// monitor is reported as current.
pub fn capture_diagnostics(
    monitors: Vec<MonitorInfo>,
    is_recording: bool,
    screen_permission: bool,
    mic_permission: bool,
) -> (r: CaptureDiagnostics)
    ensures
        r.monitors == monitors,
        r.current_monitor_id is None,
        r.frame_interval_ms == 1000,
        r.is_recording == is_recording,
        r.screen_permission == screen_permission,
        r.mic_permission == mic_permission,
{
    CaptureDiagnostics {
        monitors,
        current_monitor_id: None,
        frame_interval_ms: 1000,
        is_recording,
        screen_permission,
        mic_permission,
    }
}

/// The active theme and each theme's frame interval, in milliseconds.
pub struct ThemeSettings {
    pub active_theme: String,
    pub prospecting_interval_ms: u32,
    pub fundraising_interval_ms: u32,
    pub product_dev_interval_ms: u32,
    pub admin_interval_ms: u32,
    pub personal_interval_ms: u32,
}

/// Settings of always-on capture.
pub struct AlwaysOnSettings {
    pub enabled: bool,
    pub idle_timeout_mins: u32,
    pub ambient_interval_secs: u32,
    pub meeting_interval_secs: u32,
    pub retention_hours: u32,
    pub calendar_detection: bool,
    pub app_detection: bool,
}

impl AlwaysOnSettings {
    /// The settings reported: off, five idle minutes, a frame every thirty
    /// seconds (two in meetings), a day's retention, both detections on.
    pub fn defaults() -> (r: Self)
        ensures
            !r.enabled,
            r.idle_timeout_mins == 5,
            r.ambient_interval_secs == 30,
            r.meeting_interval_secs == 2,
            r.retention_hours == 24,
            r.calendar_detection,
            r.app_detection,
    {
        AlwaysOnSettings {
            enabled: false,
            idle_timeout_mins: 5,
            ambient_interval_secs: 30,
            meeting_interval_secs: 2,
            retention_hours: 24,
            calendar_detection: true,
            app_detection: true,
        }
    }
}

} // verus!
