//! Always-on background capture: its modes, how the power state moves them,
//! the pace of the capture loop, duplicate frames and the rolling frame
//! history. Capturing, sleeping and power events are the caller's; it asks
//! this state machine what to do. Times are milliseconds since the Unix
//! epoch.
use vstd::prelude::*;
use crate::episode_builder::opt_view;
use crate::text::str_eq;

verus! {

/// Capture mode.
#[derive(Debug, Clone, Copy, PartialEq, Eq, Structural)]
pub enum CaptureMode {
    /// Background capture, at a low rate, no audio.
    Ambient,
    /// A meeting: a higher rate, with transcription.
    Meeting,
    Paused,
}

/// Power state of the machine.
#[derive(Debug, Clone, Copy, PartialEq, Eq, Structural)]
pub enum PowerState {
    Active,
    Idle,
    Sleeping,
    Waking,
}

/// How ambient capture runs. The frame similarity threshold is kept in
/// hundredths.
#[derive(Debug, Clone)]
pub struct AmbientCaptureConfig {
    pub enabled: bool,
    /// Seconds between captures in ambient mode.
    pub ambient_interval_secs: u32,
    /// Milliseconds between captures in meeting mode.
    pub meeting_interval_ms: u32,
    /// Days ambient captures are kept.
    pub retention_days: u32,
    /// Skip frames identical to the previous one.
    pub enable_frame_diff: bool,
    pub diff_threshold_pct: u32,
    pub enable_vlm_tagging: bool,
    /// Frames between two analyses.
    pub vlm_analysis_interval: u32,
    pub storage_path: Option<String>,
}

impl Default for AmbientCaptureConfig {
    fn default() -> (r: Self)
        ensures
            r.enabled,
            r.ambient_interval_secs == 5,
            r.meeting_interval_ms == 1000,
            r.retention_days == 7,
            r.enable_frame_diff,
            r.diff_threshold_pct == 95,
            r.enable_vlm_tagging,
            r.vlm_analysis_interval == 12,
            r.storage_path is None,
    {
        AmbientCaptureConfig {
            enabled: true,
            ambient_interval_secs: 5,
            meeting_interval_ms: 1000,
            retention_days: 7,
            enable_frame_diff: true,
            diff_threshold_pct: 95,
            enable_vlm_tagging: true,
            vlm_analysis_interval: 12,
            storage_path: None,
        }
    }
}

/// Counters of the service.
#[derive(Debug, Clone, Copy, PartialEq, Eq, Structural)]
pub struct AmbientCaptureStats {
    pub mode: CaptureMode,
    pub is_running: bool,
    pub frames_captured: u64,
    pub frames_skipped: u64,
    pub frames_analyzed: u64,
    pub uptime_seconds: u64,
    pub last_capture_time_ms: Option<i64>,
}

/// A stored ambient frame.
#[derive(Debug, Clone)]
pub struct AmbientFrameMeta {
    pub id: String,
    pub timestamp_ms: i64,
    pub mode: CaptureMode,
    pub frame_hash: String,
    pub vlm_context: Option<String>,
    pub app_name: Option<String>,
    pub window_title: Option<String>,
    pub storage_path: String,
}

/// What the capture loop does next.
#[derive(Debug, Clone, Copy, PartialEq, Eq, Structural)]
pub enum LoopStep {
    /// Paused: wait this long and ask again.
    Wait(u64),
    /// Wait this long, then capture a frame.
    CaptureAfter(u64),
}

/// The service's state.
pub struct AmbientCaptureService {
    pub config: AmbientCaptureConfig,
    pub mode: CaptureMode,
    pub is_running: bool,
    pub frames_captured: u64,
    pub frames_skipped: u64,
    pub frames_analyzed: u64,
    pub start_time_ms: Option<i64>,
    pub last_frame_hash: Option<String>,
    pub frame_history: Vec<AmbientFrameMeta>,
}

/// Frames captured after `cutoff_ms` (the others are dropped).
pub open spec fn kept_frames(h: Seq<AmbientFrameMeta>, cutoff_ms: int) -> Seq<AmbientFrameMeta>
    decreases h.len(),
{
    if h.len() == 0 {
        h
    } else if h.last().timestamp_ms > cutoff_ms {
        kept_frames(h.drop_last(), cutoff_ms).push(h.last())
    } else {
        kept_frames(h.drop_last(), cutoff_ms)
    }
}

proof fn lemma_kept_frames_len(h: Seq<AmbientFrameMeta>, cutoff_ms: int)
    ensures
        kept_frames(h, cutoff_ms).len() <= h.len(),
    decreases h.len(),
{
    if h.len() > 0 {
        lemma_kept_frames_len(h.drop_last(), cutoff_ms);
    }
}

impl AmbientCaptureService {
    pub fn new() -> (r: Self)
        ensures
            r.mode == CaptureMode::Paused,
            !r.is_running,
            r.frames_captured == 0,
            r.frames_skipped == 0,
            r.frames_analyzed == 0,
            r.start_time_ms is None,
            r.last_frame_hash is None,
            r.frame_history@.len() == 0,
            r.config.enabled,
            r.config.ambient_interval_secs == 5,
            r.config.meeting_interval_ms == 1000,
            r.config.retention_days == 7,
            r.config.enable_frame_diff,
    {
        Self::with_config(AmbientCaptureConfig::default())
    }

    pub fn with_config(config: AmbientCaptureConfig) -> (r: Self)
        ensures
            r.config == config,
            r.mode == CaptureMode::Paused,
            !r.is_running,
            r.frames_captured == 0,
            r.frames_skipped == 0,
            r.frames_analyzed == 0,
            r.start_time_ms is None,
            r.last_frame_hash is None,
            r.frame_history@.len() == 0,
    {
        AmbientCaptureService {
            config,
            mode: CaptureMode::Paused,
            is_running: false,
            frames_captured: 0,
            frames_skipped: 0,
            frames_analyzed: 0,
            start_time_ms: None,
            last_frame_hash: None,
            frame_history: Vec::new(),
        }
    }

    pub fn get_mode(&self) -> (r: CaptureMode)
        ensures
            r == self.mode,
    {
        self.mode
    }

    /// Sets the mode; says whether it changed (a change is announced).
    pub fn set_mode(&mut self, mode: CaptureMode) -> (changed: bool)
        ensures
            *final(self) == (AmbientCaptureService { mode, ..*old(self) }),
            changed == (old(self).mode != mode),
    {
        let changed = self.mode != mode;
        self.mode = mode;
        changed
    }

    pub fn update_config(&mut self, config: AmbientCaptureConfig)
        ensures
            final(self).config == config,
            final(self).mode == old(self).mode,
            final(self).is_running == old(self).is_running,
            final(self).frame_history@ == old(self).frame_history@,
    {
        self.config = config;
    }

    /// Counters at `now_ms`.
    pub fn get_stats(&self, now_ms: i64) -> (r: AmbientCaptureStats)
        ensures
            r.mode == self.mode,
            r.is_running == self.is_running,
            r.frames_captured == self.frames_captured,
            r.frames_skipped == self.frames_skipped,
            r.frames_analyzed == self.frames_analyzed,
            r.uptime_seconds == match self.start_time_ms {
                Some(t) => if now_ms >= t { ((now_ms - t) / 1000) as u64 } else { 0u64 },
                None => 0u64,
            },
            r.last_capture_time_ms == if self.frame_history@.len() > 0 {
                Some(self.frame_history@.last().timestamp_ms)
            } else {
                None::<i64>
            },
    {
        let uptime: u64 = match self.start_time_ms {
            Some(t) => if now_ms >= t { ((now_ms as i128 - t as i128) / 1000) as u64 } else { 0 },
            None => 0,
        };
        let n = self.frame_history.len();
        AmbientCaptureStats {
            mode: self.mode,
            is_running: self.is_running,
            frames_captured: self.frames_captured,
            frames_skipped: self.frames_skipped,
            frames_analyzed: self.frames_analyzed,
            uptime_seconds: uptime,
            last_capture_time_ms: if n > 0 {
                Some(self.frame_history[n - 1].timestamp_ms)
            } else {
                None
            },
        }
    }

    /// Starts capture at `now_ms`, in ambient mode. Fails when disabled or
    /// already running.
    pub fn start(&mut self, now_ms: i64) -> (r: Result<(), String>)
        ensures
            !old(self).config.enabled ==> (r matches Err(e) && e@
                == "Ambient capture is disabled in config"@ && final(self).mode == old(self).mode
                && final(self).is_running == old(self).is_running),
            old(self).config.enabled && old(self).is_running ==> (r matches Err(e) && e@
                == "Ambient capture already running"@ && final(self).mode == old(self).mode
                && final(self).is_running),
            old(self).config.enabled && !old(self).is_running ==> r is Ok && final(self).is_running
                && final(self).start_time_ms == Some(now_ms) && final(self).mode
                == CaptureMode::Ambient,
            final(self).frames_captured == old(self).frames_captured,
            final(self).frame_history@ == old(self).frame_history@,
    {
        if !self.config.enabled {
            return Err(String::from_str("Ambient capture is disabled in config"));
        }
        if self.is_running {
            return Err(String::from_str("Ambient capture already running"));
        }
        self.is_running = true;
        self.start_time_ms = Some(now_ms);
        self.set_mode(CaptureMode::Ambient);
        Ok(())
    }

    /// Follows the power state: sleeping or idle pauses capture; waking or
    /// activity resumes ambient capture if the service runs.
    pub fn on_power_state(&mut self, state: PowerState)
        ensures
            final(self).mode == match state {
                PowerState::Sleeping | PowerState::Idle => CaptureMode::Paused,
                PowerState::Active | PowerState::Waking => if old(self).is_running {
                    CaptureMode::Ambient
                } else {
                    old(self).mode
                },
            },
            final(self).is_running == old(self).is_running,
            final(self).frames_captured == old(self).frames_captured,
            final(self).frame_history@ == old(self).frame_history@,
    {
        match state {
            PowerState::Sleeping | PowerState::Idle => {
                self.mode = CaptureMode::Paused;
            },
            PowerState::Active | PowerState::Waking => {
                if self.is_running {
                    self.mode = CaptureMode::Ambient;
                }
            },
        }
    }

    /// The capture loop's next step in the current mode.
    pub fn next_step(&self) -> (r: LoopStep)
        ensures
            r == match self.mode {
                CaptureMode::Paused => LoopStep::Wait(1000),
                CaptureMode::Ambient => LoopStep::CaptureAfter(
                    (self.config.ambient_interval_secs * 1000) as u64,
                ),
                CaptureMode::Meeting => LoopStep::CaptureAfter(self.config.meeting_interval_ms as u64),
            },
    {
        match self.mode {
            CaptureMode::Paused => LoopStep::Wait(1000),
            CaptureMode::Ambient => LoopStep::CaptureAfter(self.config.ambient_interval_secs as u64 * 1000),
            CaptureMode::Meeting => LoopStep::CaptureAfter(self.config.meeting_interval_ms as u64),
        }
    }

    /// Counts a captured frame (wrapping, as an atomic counter).
    pub fn record_frame(&mut self)
        ensures
            final(self).frames_captured == if old(self).frames_captured == u64::MAX {
                0
            } else {
                (old(self).frames_captured + 1) as u64
            },
            final(self).mode == old(self).mode,
            final(self).is_running == old(self).is_running,
            final(self).frame_history@ == old(self).frame_history@,
    {
        self.frames_captured = if self.frames_captured == u64::MAX {
            0
        } else {
            self.frames_captured + 1
        };
    }

    /// Stops capture; the mode becomes `Paused`.
    pub fn stop(&mut self)
        ensures
            !final(self).is_running,
            final(self).mode == CaptureMode::Paused,
            final(self).frames_captured == old(self).frames_captured,
            final(self).frame_history@ == old(self).frame_history@,
    {
        self.is_running = false;
        self.set_mode(CaptureMode::Paused);
    }

    /// Enters meeting mode.
    pub fn enter_meeting_mode(&mut self)
        ensures
            final(self).mode == CaptureMode::Meeting,
            final(self).is_running == old(self).is_running,
            final(self).frames_captured == old(self).frames_captured,
            final(self).frame_history@ == old(self).frame_history@,
    {
        self.set_mode(CaptureMode::Meeting);
    }

    /// Returns to ambient mode.
    pub fn exit_meeting_mode(&mut self)
        ensures
            final(self).mode == CaptureMode::Ambient,
            final(self).is_running == old(self).is_running,
            final(self).frames_captured == old(self).frames_captured,
            final(self).frame_history@ == old(self).frame_history@,
    {
        self.set_mode(CaptureMode::Ambient);
    }

    /// Whether a frame with hash `new_hash` repeats the previous one (only
    /// when frame comparison is on).
    pub fn is_duplicate_frame(&self, new_hash: &str) -> (r: bool)
        ensures
            r == (self.config.enable_frame_diff && match self.last_frame_hash {
                Some(h) => h@ == new_hash@,
                None => false,
            }),
    {
        if !self.config.enable_frame_diff {
            return false;
        }
        match &self.last_frame_hash {
            Some(h) => str_eq(h.as_str(), new_hash),
            None => false,
        }
    }

    /// Drops frames older than the retention period at `now_ms`; gives how
    /// many were dropped.
    pub fn cleanup_old_frames(&mut self, now_ms: i64) -> (r: usize)
        ensures
            final(self).frame_history@ == kept_frames(
                old(self).frame_history@,
                now_ms - old(self).config.retention_days * 86400000,
            ),
            r == old(self).frame_history@.len() - final(self).frame_history@.len(),
            final(self).mode == old(self).mode,
            final(self).is_running == old(self).is_running,
            final(self).frames_captured == old(self).frames_captured,
    {
        let cutoff: i128 = now_ms as i128 - self.config.retention_days as i128 * 86400000;
        let ghost orig = self.frame_history@;
        let mut src: Vec<AmbientFrameMeta> = Vec::new();
        std::mem::swap(&mut src, &mut self.frame_history);
        let n = src.len();
        let mut kept: Vec<AmbientFrameMeta> = Vec::new();
        let mut i: usize = 0;
        while i < n
            invariant
                i <= n == orig.len(),
                src@ == orig.skip(i as int),
                kept@ == kept_frames(orig.take(i as int), cutoff as int),
            decreases n - i,
        {
            let f = src.remove(0);
            assert(f == orig[i as int]);
            assert(src@ =~= orig.skip(i + 1));
            proof {
                assert(orig.take(i + 1).drop_last() =~= orig.take(i as int));
                assert(orig.take(i + 1).last() == f);
            }
            if (f.timestamp_ms as i128) > cutoff {
                kept.push(f);
            }
            i += 1;
        }
        proof {
            assert(orig.take(n as int) =~= orig);
            lemma_kept_frames_len(orig, cutoff as int);
        }
        let removed = n - kept.len();
        self.frame_history = kept;
        removed
    }
}

} // verus!
