//! The capture engine's state machine: capture modes (ambient, meeting,
//! paused), the frame interval, the running flags of the capture workers and
//! the frame and sample counters. Starting a worker is an action the caller
//! performs; each operation says which workers to start. Times are
//! milliseconds on a monotonic clock.
use vstd::prelude::*;

verus! {

/// Where an audio buffer comes from.
#[derive(Debug, Clone, Copy, PartialEq, Eq, Structural)]
pub enum AudioSource {
    Microphone,
    System,
}

/// Capture mode of always-on recording.
#[derive(Debug, Clone, Copy, PartialEq, Eq, Structural)]
pub enum CaptureMode {
    /// Screen only, at long intervals, no audio.
    Ambient,
    /// Audio and screen, at short intervals.
    Meeting,
    /// Nothing captured.
    Paused,
}

impl Default for CaptureMode {
    fn default() -> (r: Self)
        ensures
            r == CaptureMode::Paused,
    {
        CaptureMode::Paused
    }
}

/// Recording status.
#[derive(Debug, Clone)]
pub struct RecordingStatus {
    pub is_recording: bool,
    pub duration_seconds: u64,
    pub video_frames: usize,
    pub audio_samples: usize,
}

/// An audio device.
#[derive(Debug, Clone)]
pub struct AudioDevice {
    pub id: String,
    pub name: String,
    pub is_default: bool,
    pub is_input: bool,
}

/// A monitor.
#[derive(Debug, Clone)]
pub struct MonitorInfo {
    pub id: u32,
    pub name: String,
    pub width: u32,
    pub height: u32,
    pub is_primary: bool,
}

/// Screen capture to start: every `interval_ms`, after `delay_ms`.
#[derive(Debug, Clone, Copy, PartialEq, Eq, Structural)]
pub struct ScreenStart {
    pub interval_ms: u32,
    pub delay_ms: u32,
}

/// Workers an operation asks the caller to start.
#[derive(Debug, Clone, Copy, PartialEq, Eq, Structural)]
pub struct StartWorkers {
    /// Start microphone capture.
    pub microphone: bool,
    /// Start screen capture.
    pub screen: Option<ScreenStart>,
}

/// Interval of ambient capture, in ms.
pub const AMBIENT_INTERVAL_MS: u32 = 30000;
/// Interval of meeting capture, in ms.
pub const MEETING_INTERVAL_MS: u32 = 2000;
/// Delay before screen capture starts with audio, in ms.
pub const SCREEN_START_DELAY_MS: u32 = 3000;

/// The capture engine's state.
pub struct CaptureEngine {
    pub is_running: bool,
    pub video_frame_count: usize,
    pub mic_audio_count: usize,
    pub system_audio_count: usize,
    pub frame_number: u64,
    pub start_time_ms: Option<u64>,
    pub selected_mic_id: Option<String>,
    pub selected_monitor_id: Option<u32>,
    pub frame_interval_ms: u32,
    pub capture_mode: CaptureMode,
    pub audio_enabled: bool,
    /// Microphone worker runs.
    pub mic_running: bool,
    /// System audio worker runs.
    pub system_audio_running: bool,
    /// Screen worker runs.
    pub screen_running: bool,
}

/// The interval kept for a requested one: within 100 ms and 60 s.
pub open spec fn clamped_interval(ms: u32) -> u32 {
    if ms < 100 {
        100
    } else if ms > 60000 {
        60000
    } else {
        ms
    }
}

/// No capture worker runs while the engine is not recording.
pub open spec fn workers_quiet(e: CaptureEngine) -> bool {
    !e.is_running ==> !e.mic_running && !e.system_audio_running && !e.screen_running
}

impl CaptureEngine {
    /// A stopped engine, paused, one frame per second, audio enabled.
    pub fn new() -> (r: Self)
        ensures
            !r.is_running,
            r.video_frame_count == 0,
            r.mic_audio_count == 0,
            r.system_audio_count == 0,
            r.frame_number == 0,
            r.start_time_ms is None,
            r.selected_mic_id is None,
            r.selected_monitor_id is None,
            r.frame_interval_ms == 1000,
            r.capture_mode == CaptureMode::Paused,
            r.audio_enabled,
            !r.mic_running,
            !r.system_audio_running,
            !r.screen_running,
            workers_quiet(r),
    {
        CaptureEngine {
            is_running: false,
            video_frame_count: 0,
            mic_audio_count: 0,
            system_audio_count: 0,
            frame_number: 0,
            start_time_ms: None,
            selected_mic_id: None,
            selected_monitor_id: None,
            frame_interval_ms: 1000,
            capture_mode: CaptureMode::Paused,
            audio_enabled: true,
            mic_running: false,
            system_audio_running: false,
            screen_running: false,
        }
    }

    /// Sets the frame interval, clamped to 100 ms .. 60 s.
    pub fn set_frame_interval(&mut self, interval_ms: u32)
        ensures
            *final(self) == (CaptureEngine {
                frame_interval_ms: clamped_interval(interval_ms),
                ..*old(self)
            }),
    {
        self.frame_interval_ms = if interval_ms < 100 {
            100
        } else if interval_ms > 60000 {
            60000
        } else {
            interval_ms
        };
    }

    pub fn get_mode(&self) -> (r: CaptureMode)
        ensures
            r == self.capture_mode,
    {
        self.capture_mode
    }

    pub fn set_mode(&mut self, mode: CaptureMode)
        ensures
            *final(self) == (CaptureEngine { capture_mode: mode, ..*old(self) }),
    {
        self.capture_mode = mode;
    }

    pub fn set_microphone(&mut self, mic_id: Option<String>)
        ensures
            *final(self) == (CaptureEngine { selected_mic_id: mic_id, ..*old(self) }),
    {
        self.selected_mic_id = mic_id;
    }

    pub fn set_monitor(&mut self, monitor_id: Option<u32>)
        ensures
            *final(self) == (CaptureEngine { selected_monitor_id: monitor_id, ..*old(self) }),
    {
        self.selected_monitor_id = monitor_id;
    }

    /// Starts screen capture alone. Fails when already recording.
    pub fn start_screen_only(&mut self, now_ms: u64) -> (r: Result<StartWorkers, String>)
        ensures
            old(self).is_running ==> r is Err && *final(self) == *old(self),
            !old(self).is_running ==> r == Ok::<StartWorkers, String>(
                StartWorkers { microphone: false, screen: Some(ScreenStart { interval_ms: old(self).frame_interval_ms, delay_ms: 0u32 }) },
            ) && *final(self) == (CaptureEngine {
                is_running: true,
                video_frame_count: 0,
                frame_number: 0,
                start_time_ms: Some(now_ms),
                screen_running: true,
                ..*old(self)
            }),
            workers_quiet(*old(self)) ==> workers_quiet(*final(self)),
    {
        if self.is_running {
            return Err(String::from_str("Already recording"));
        }
        self.is_running = true;
        self.video_frame_count = 0;
        self.frame_number = 0;
        self.start_time_ms = Some(now_ms);
        self.screen_running = true;
        Ok(StartWorkers { microphone: false, screen: Some(ScreenStart { interval_ms: self.frame_interval_ms, delay_ms: 0 }) })
    }

    /// Starts microphone and screen capture (the screen after a delay).
    /// Fails when already recording.
    pub fn start(&mut self, now_ms: u64) -> (r: Result<StartWorkers, String>)
        ensures
            old(self).is_running ==> r is Err && *final(self) == *old(self),
            !old(self).is_running ==> r == Ok::<StartWorkers, String>(
                StartWorkers {
                    microphone: true,
                    screen: Some(ScreenStart { interval_ms: old(self).frame_interval_ms, delay_ms: SCREEN_START_DELAY_MS }),
                },
            ) && *final(self) == (CaptureEngine {
                is_running: true,
                video_frame_count: 0,
                mic_audio_count: 0,
                system_audio_count: 0,
                frame_number: 0,
                start_time_ms: Some(now_ms),
                mic_running: true,
                screen_running: true,
                ..*old(self)
            }),
            workers_quiet(*old(self)) ==> workers_quiet(*final(self)),
    {
        if self.is_running {
            return Err(String::from_str("Already recording"));
        }
        self.is_running = true;
        self.video_frame_count = 0;
        self.mic_audio_count = 0;
        self.system_audio_count = 0;
        self.frame_number = 0;
        self.start_time_ms = Some(now_ms);
        self.mic_running = true;
        self.screen_running = true;
        Ok(StartWorkers {
            microphone: true,
            screen: Some(ScreenStart { interval_ms: self.frame_interval_ms, delay_ms: SCREEN_START_DELAY_MS }),
        })
    }

    /// Enters ambient mode (screen only, every 30 s, no audio); starts the
    /// screen worker unless already recording.
    pub fn start_ambient(&mut self, now_ms: u64) -> (r: Result<StartWorkers, String>)
        ensures
            r is Ok,
            final(self).capture_mode == CaptureMode::Ambient,
            !final(self).audio_enabled,
            final(self).frame_interval_ms == AMBIENT_INTERVAL_MS,
            final(self).is_running,
            old(self).is_running ==> r == Ok::<StartWorkers, String>(
                StartWorkers { microphone: false, screen: None },
            ) && *final(self) == (CaptureEngine {
                capture_mode: CaptureMode::Ambient,
                audio_enabled: false,
                frame_interval_ms: AMBIENT_INTERVAL_MS,
                ..*old(self)
            }),
            !old(self).is_running ==> r == Ok::<StartWorkers, String>(
                StartWorkers { microphone: false, screen: Some(ScreenStart { interval_ms: AMBIENT_INTERVAL_MS, delay_ms: 0u32 }) },
            ) && *final(self) == (CaptureEngine {
                capture_mode: CaptureMode::Ambient,
                audio_enabled: false,
                frame_interval_ms: AMBIENT_INTERVAL_MS,
                is_running: true,
                video_frame_count: 0,
                frame_number: 0,
                start_time_ms: Some(now_ms),
                screen_running: true,
                ..*old(self)
            }),
            workers_quiet(*old(self)) ==> workers_quiet(*final(self)),
    {
        self.capture_mode = CaptureMode::Ambient;
        self.audio_enabled = false;
        self.frame_interval_ms = AMBIENT_INTERVAL_MS;
        if self.is_running {
            return Ok(StartWorkers { microphone: false, screen: None });
        }
        self.start_screen_only(now_ms)
    }

    /// Enters meeting mode (audio and screen, every 2 s). When already
    /// recording, starts the microphone worker if it is not running; else
    /// starts microphone and screen workers.
    pub fn start_meeting(&mut self, now_ms: u64) -> (r: Result<StartWorkers, String>)
        ensures
            r is Ok,
            final(self).capture_mode == CaptureMode::Meeting,
            final(self).audio_enabled,
            final(self).frame_interval_ms == MEETING_INTERVAL_MS,
            final(self).is_running,
            final(self).mic_running,
            old(self).is_running ==> r == Ok::<StartWorkers, String>(
                StartWorkers { microphone: !old(self).mic_running, screen: None },
            ) && *final(self) == (CaptureEngine {
                capture_mode: CaptureMode::Meeting,
                audio_enabled: true,
                frame_interval_ms: MEETING_INTERVAL_MS,
                mic_running: true,
                ..*old(self)
            }),
            !old(self).is_running ==> r == Ok::<StartWorkers, String>(
                StartWorkers {
                    microphone: true,
                    screen: Some(ScreenStart { interval_ms: MEETING_INTERVAL_MS, delay_ms: SCREEN_START_DELAY_MS }),
                },
            ) && *final(self) == (CaptureEngine {
                capture_mode: CaptureMode::Meeting,
                audio_enabled: true,
                frame_interval_ms: MEETING_INTERVAL_MS,
                is_running: true,
                video_frame_count: 0,
                mic_audio_count: 0,
                system_audio_count: 0,
                frame_number: 0,
                start_time_ms: Some(now_ms),
                mic_running: true,
                screen_running: true,
                ..*old(self)
            }),
            workers_quiet(*old(self)) ==> workers_quiet(*final(self)),
    {
        self.capture_mode = CaptureMode::Meeting;
        self.audio_enabled = true;
        self.frame_interval_ms = MEETING_INTERVAL_MS;
        if self.is_running {
            let spawn_mic = !self.mic_running;
            self.mic_running = true;
            return Ok(StartWorkers { microphone: spawn_mic, screen: None });
        }
        self.start(now_ms)
    }

    /// Stops every worker. Fails when not recording.
    pub fn stop(&mut self) -> (r: Result<(), String>)
        ensures
            !old(self).is_running ==> r is Err && *final(self) == *old(self),
            old(self).is_running ==> r is Ok && *final(self) == (CaptureEngine {
                is_running: false,
                mic_running: false,
                system_audio_running: false,
                screen_running: false,
                ..*old(self)
            }),
            workers_quiet(*old(self)) ==> workers_quiet(*final(self)),
    {
        if !self.is_running {
            return Err(String::from_str("Not recording"));
        }
        self.is_running = false;
        self.mic_running = false;
        self.system_audio_running = false;
        self.screen_running = false;
        Ok(())
    }

    /// Pauses: the mode becomes `Paused` and capture stops (the stop fails,
    /// the mode still changing, when not recording).
    pub fn pause(&mut self) -> (r: Result<(), String>)
        ensures
            r is Ok <==> old(self).is_running,
            old(self).is_running ==> *final(self) == (CaptureEngine {
                capture_mode: CaptureMode::Paused,
                is_running: false,
                mic_running: false,
                system_audio_running: false,
                screen_running: false,
                ..*old(self)
            }),
            !old(self).is_running ==> *final(self) == (CaptureEngine {
                capture_mode: CaptureMode::Paused,
                ..*old(self)
            }),
            workers_quiet(*old(self)) ==> workers_quiet(*final(self)),
    {
        self.capture_mode = CaptureMode::Paused;
        self.stop()
    }

    /// Counts a captured frame; gives its number (counters wrap as atomic
    /// counters do).
    pub fn record_frame(&mut self) -> (r: u64)
        ensures
            r == old(self).frame_number,
            final(self).frame_number == (if old(self).frame_number == u64::MAX {
                0
            } else {
                old(self).frame_number + 1
            }),
            final(self).video_frame_count == (if old(self).video_frame_count == usize::MAX {
                0
            } else {
                old(self).video_frame_count + 1
            }),
            final(self).is_running == old(self).is_running,
            final(self).capture_mode == old(self).capture_mode,
    {
        let n = self.frame_number;
        self.frame_number = if n == u64::MAX { 0 } else { n + 1 };
        self.video_frame_count = if self.video_frame_count == usize::MAX {
            0
        } else {
            self.video_frame_count + 1
        };
        n
    }

    /// Counts audio buffers of one source (wrapping).
    pub fn record_audio(&mut self, source: AudioSource)
        ensures
            source == AudioSource::Microphone ==> final(self).mic_audio_count == (if old(
                self,
            ).mic_audio_count == usize::MAX {
                0
            } else {
                old(self).mic_audio_count + 1
            }) && final(self).system_audio_count == old(self).system_audio_count,
            source == AudioSource::System ==> final(self).system_audio_count == (if old(
                self,
            ).system_audio_count == usize::MAX {
                0
            } else {
                old(self).system_audio_count + 1
            }) && final(self).mic_audio_count == old(self).mic_audio_count,
            final(self).video_frame_count == old(self).video_frame_count,
            final(self).is_running == old(self).is_running,
    {
        match source {
            AudioSource::Microphone => {
                self.mic_audio_count = if self.mic_audio_count == usize::MAX {
                    0
                } else {
                    self.mic_audio_count + 1
                };
            },
            AudioSource::System => {
                self.system_audio_count = if self.system_audio_count == usize::MAX {
                    0
                } else {
                    self.system_audio_count + 1
                };
            },
        }
    }

    /// Status at `now_ms`: recording flag, whole seconds since the start
    /// (0 before any start), frames and audio buffers counted.
    pub fn get_status(&self, now_ms: u64) -> (r: RecordingStatus)
        requires
            self.mic_audio_count + self.system_audio_count <= usize::MAX,
        ensures
            r.is_recording == self.is_running,
            r.duration_seconds == match self.start_time_ms {
                Some(t) => if now_ms >= t { ((now_ms - t) / 1000) as u64 } else { 0u64 },
                None => 0u64,
            },
            r.video_frames == self.video_frame_count,
            r.audio_samples == self.mic_audio_count + self.system_audio_count,
    {
        let duration = match self.start_time_ms {
            Some(t) => if now_ms >= t { (now_ms - t) / 1000 } else { 0 },
            None => 0,
        };
        RecordingStatus {
            is_recording: self.is_running,
            duration_seconds: duration,
            video_frames: self.video_frame_count,
            audio_samples: self.mic_audio_count + self.system_audio_count,
        }
    }
}

/// The monitor screen capture uses: the selected one, else the primary one.
pub open spec fn chosen_monitor(monitors: Seq<MonitorInfo>, wanted: Option<u32>) -> Option<int> {
    match wanted {
        Some(id) => first_monitor_where(monitors, |m: MonitorInfo| m.id == id, 0),
        None => first_monitor_where(monitors, |m: MonitorInfo| m.is_primary, 0),
    }
}

/// First monitor from `k` on that satisfies `p`.
pub open spec fn first_monitor_where(
    monitors: Seq<MonitorInfo>,
    p: spec_fn(MonitorInfo) -> bool,
    k: int,
) -> Option<int>
    decreases monitors.len() - k,
{
    if k < 0 || k >= monitors.len() {
        None
    } else if p(monitors[k]) {
        Some(k)
    } else {
        first_monitor_where(monitors, p, k + 1)
    }
}

/// Index of the monitor to capture (the caller falls back to the last
/// monitor listed when there is none).
pub fn choose_monitor(monitors: &Vec<MonitorInfo>, wanted: Option<u32>) -> (r: Option<usize>)
    ensures
        match r {
            Some(i) => chosen_monitor(monitors@, wanted) == Some(i as int) && i < monitors@.len(),
            None => chosen_monitor(monitors@, wanted) is None,
        },
{
    let ghost p = match wanted {
        Some(id) => |m: MonitorInfo| m.id == id,
        None => |m: MonitorInfo| m.is_primary,
    };
    let mut i: usize = 0;
    while i < monitors.len()
        invariant
            i <= monitors@.len(),
            p == (match wanted {
                Some(id) => |m: MonitorInfo| m.id == id,
                None => |m: MonitorInfo| m.is_primary,
            }),
            first_monitor_where(monitors@, p, 0) == first_monitor_where(monitors@, p, i as int),
        decreases monitors.len() - i,
    {
        let hit = match wanted {
            Some(id) => monitors[i].id == id,
            None => monitors[i].is_primary,
        };
        assert(hit == p(monitors@[i as int]));
        if hit {
            return Some(i);
        }
        i += 1;
    }
    None
}

} // verus!
