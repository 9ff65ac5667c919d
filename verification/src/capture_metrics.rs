//! Per-meeting capture statistics: frames received, states created, images
//! written, duplicates skipped, text extraction calls, bytes saved and
//! processing time, with the derived deduplication ratio and mean state
//! duration kept as exact fractions. Times are milliseconds since the Unix
//! epoch.
use vstd::prelude::*;

verus! {

/// An exact fraction `num / den` (`den` is positive).
#[derive(Debug, Clone, Copy, PartialEq, Eq, Structural)]
pub struct Ratio {
    pub num: i128,
    pub den: u128,
}

/// Metrics of one meeting.
#[derive(Debug, Clone)]
pub struct MeetingMetrics {
    pub meeting_id: String,
    pub started_at_ms: i64,
    pub ended_at_ms: Option<i64>,
    pub frames_in: u64,
    pub states_out: u64,
    pub images_written: u64,
    pub duplicates_skipped: u64,
    pub ocr_calls: u64,
    pub snapshots_created: u64,
    pub patches_created: u64,
    pub bytes_saved_estimate: u64,
    pub cpu_time_ms: u64,
    /// Share of frames that made no new state: `1 - states / frames`.
    pub dedup_ratio: Ratio,
    /// Mean duration of a state, in milliseconds.
    pub avg_state_duration_ms: Ratio,
}

/// The zero fraction.
pub open spec fn zero_ratio() -> Ratio {
    Ratio { num: 0, den: 1 }
}

impl MeetingMetrics {
    /// Metrics of a meeting started at `now_ms`, all counts zero.
    pub fn new(meeting_id: &str, now_ms: i64) -> (r: Self)
        ensures
            r.meeting_id@ == meeting_id@,
            r.started_at_ms == now_ms,
            r.ended_at_ms is None,
            r.frames_in == 0 && r.states_out == 0 && r.images_written == 0,
            r.duplicates_skipped == 0 && r.ocr_calls == 0 && r.snapshots_created == 0,
            r.patches_created == 0 && r.bytes_saved_estimate == 0 && r.cpu_time_ms == 0,
            r.dedup_ratio == zero_ratio(),
            r.avg_state_duration_ms == zero_ratio(),
    {
        MeetingMetrics {
            meeting_id: String::from_str(meeting_id),
            started_at_ms: now_ms,
            ended_at_ms: None,
            frames_in: 0,
            states_out: 0,
            images_written: 0,
            duplicates_skipped: 0,
            ocr_calls: 0,
            snapshots_created: 0,
            patches_created: 0,
            bytes_saved_estimate: 0,
            cpu_time_ms: 0,
            dedup_ratio: Ratio { num: 0, den: 1 },
            avg_state_duration_ms: Ratio { num: 0, den: 1 },
        }
    }

    /// Closes the metrics at `now_ms`: sets the end, the deduplication
    /// ratio (when frames came in) and the mean state duration (when states
    /// were made).
    pub fn finalize(&mut self, now_ms: i64)
        ensures
            *final(self) == (MeetingMetrics {
                ended_at_ms: Some(now_ms),
                dedup_ratio: if old(self).frames_in > 0 {
                    Ratio {
                        num: (old(self).frames_in - old(self).states_out) as i128,
                        den: old(self).frames_in as u128,
                    }
                } else {
                    old(self).dedup_ratio
                },
                avg_state_duration_ms: if old(self).states_out > 0 {
                    Ratio {
                        num: (now_ms - old(self).started_at_ms) as i128,
                        den: old(self).states_out as u128,
                    }
                } else {
                    old(self).avg_state_duration_ms
                },
                ..*old(self)
            }),
    {
        self.ended_at_ms = Some(now_ms);
        if self.frames_in > 0 {
            self.dedup_ratio = Ratio {
                num: self.frames_in as i128 - self.states_out as i128,
                den: self.frames_in as u128,
            };
        }
        if self.states_out > 0 {
            self.avg_state_duration_ms = Ratio {
                num: now_ms as i128 - self.started_at_ms as i128,
                den: self.states_out as u128,
            };
        }
    }
}

/// The live counters of the meeting being recorded.
pub struct MetricsCollector {
    pub meeting_id: Option<String>,
    pub frames_in: u64,
    pub states_out: u64,
    pub images_written: u64,
    pub duplicates_skipped: u64,
    pub ocr_calls: u64,
    pub snapshots_created: u64,
    pub patches_created: u64,
    pub bytes_saved: u64,
    pub cpu_time_ns: u64,
    pub started_at_ms: Option<i64>,
}

/// Counters step as atomic counters do (wrapping).
pub open spec fn wadd(a: u64, b: u64) -> u64 {
    ((a + b) % 0x1_0000_0000_0000_0000) as u64
}

fn wadd_exec(a: u64, b: u64) -> (r: u64)
    ensures
        r == wadd(a, b),
{
    if a <= u64::MAX - b {
        a + b
    } else {
        let r = (a as u128 + b as u128 - 0x1_0000_0000_0000_0000u128) as u64;
        r
    }
}

/// The metrics a collector gives: its counters, CPU time in whole ms.
pub open spec fn metrics_of(c: MetricsCollector, m: MeetingMetrics) -> bool {
    &&& c.meeting_id matches Some(id) && m.meeting_id == id
    &&& c.started_at_ms matches Some(t) && m.started_at_ms == t
    &&& m.frames_in == c.frames_in
    &&& m.states_out == c.states_out
    &&& m.images_written == c.images_written
    &&& m.duplicates_skipped == c.duplicates_skipped
    &&& m.ocr_calls == c.ocr_calls
    &&& m.snapshots_created == c.snapshots_created
    &&& m.patches_created == c.patches_created
    &&& m.bytes_saved_estimate == c.bytes_saved
    &&& m.cpu_time_ms == c.cpu_time_ns / 1_000_000
}

impl MetricsCollector {
    pub fn new() -> (r: Self)
        ensures
            r.meeting_id is None,
            r.started_at_ms is None,
            r.frames_in == 0 && r.states_out == 0 && r.images_written == 0,
            r.duplicates_skipped == 0 && r.ocr_calls == 0 && r.snapshots_created == 0,
            r.patches_created == 0 && r.bytes_saved == 0 && r.cpu_time_ns == 0,
    {
        MetricsCollector {
            meeting_id: None,
            frames_in: 0,
            states_out: 0,
            images_written: 0,
            duplicates_skipped: 0,
            ocr_calls: 0,
            snapshots_created: 0,
            patches_created: 0,
            bytes_saved: 0,
            cpu_time_ns: 0,
            started_at_ms: None,
        }
    }

    /// Starts counting for `meeting_id` at `now_ms`, from zero.
    pub fn start_meeting(&mut self, meeting_id: &str, now_ms: i64)
        ensures
            final(self).meeting_id matches Some(id) && id@ == meeting_id@,
            final(self).started_at_ms == Some(now_ms),
            final(self).frames_in == 0 && final(self).states_out == 0,
            final(self).images_written == 0 && final(self).duplicates_skipped == 0,
            final(self).ocr_calls == 0 && final(self).snapshots_created == 0,
            final(self).patches_created == 0 && final(self).bytes_saved == 0,
            final(self).cpu_time_ns == 0,
    {
        self.frames_in = 0;
        self.states_out = 0;
        self.images_written = 0;
        self.duplicates_skipped = 0;
        self.ocr_calls = 0;
        self.snapshots_created = 0;
        self.patches_created = 0;
        self.bytes_saved = 0;
        self.cpu_time_ns = 0;
        self.meeting_id = Some(String::from_str(meeting_id));
        self.started_at_ms = Some(now_ms);
    }

    fn current(&self) -> (r: Option<MeetingMetrics>)
        ensures
            match r {
                Some(m) => metrics_of(*self, m) && m.ended_at_ms is None && m.dedup_ratio
                    == zero_ratio() && m.avg_state_duration_ms == zero_ratio(),
                None => self.meeting_id is None || self.started_at_ms is None,
            },
    {
        let id = match &self.meeting_id {
            Some(id) => id.clone(),
            None => {
                return None;
            },
        };
        let started = match self.started_at_ms {
            Some(t) => t,
            None => {
                return None;
            },
        };
        Some(
            MeetingMetrics {
                meeting_id: id,
                started_at_ms: started,
                ended_at_ms: None,
                frames_in: self.frames_in,
                states_out: self.states_out,
                images_written: self.images_written,
                duplicates_skipped: self.duplicates_skipped,
                ocr_calls: self.ocr_calls,
                snapshots_created: self.snapshots_created,
                patches_created: self.patches_created,
                bytes_saved_estimate: self.bytes_saved,
                cpu_time_ms: self.cpu_time_ns / 1_000_000,
                dedup_ratio: Ratio { num: 0, den: 1 },
                avg_state_duration_ms: Ratio { num: 0, den: 1 },
            },
        )
    }

    /// Ends the meeting at `now_ms`: its final metrics, if one was being
    /// counted. The meeting is forgotten (its start only once both were
    /// set).
    pub fn end_meeting(&mut self, now_ms: i64) -> (r: Option<MeetingMetrics>)
        ensures
            final(self).meeting_id is None,
            old(self).meeting_id is Some ==> final(self).started_at_ms is None,
            old(self).meeting_id is None ==> final(self).started_at_ms == old(self).started_at_ms,
            match r {
                Some(m) => metrics_of(*old(self), m) && m.ended_at_ms == Some(now_ms)
                    && m.dedup_ratio == if old(self).frames_in > 0 {
                    Ratio {
                        num: (old(self).frames_in - old(self).states_out) as i128,
                        den: old(self).frames_in as u128,
                    }
                } else {
                    zero_ratio()
                } && m.avg_state_duration_ms == if old(self).states_out > 0 {
                    Ratio { num: (now_ms - m.started_at_ms) as i128, den: old(self).states_out as u128 }
                } else {
                    zero_ratio()
                },
                None => old(self).meeting_id is None || old(self).started_at_ms is None,
            },
            final(self).frames_in == old(self).frames_in,
    {
        let m = self.current();
        let had_id = self.meeting_id.is_some();
        self.meeting_id = None;
        if had_id {
            self.started_at_ms = None;
        }
        match m {
            Some(mut m) => {
                m.finalize(now_ms);
                Some(m)
            },
            None => None,
        }
    }

    /// The metrics so far, if a meeting is being counted.
    pub fn snapshot(&self) -> (r: Option<MeetingMetrics>)
        ensures
            match r {
                Some(m) => metrics_of(*self, m) && m.ended_at_ms is None && m.dedup_ratio
                    == zero_ratio() && m.avg_state_duration_ms == zero_ratio(),
                None => self.meeting_id is None || self.started_at_ms is None,
            },
    {
        self.current()
    }

    pub fn record_frame(&mut self)
        ensures
            *final(self) == (MetricsCollector { frames_in: wadd(old(self).frames_in, 1), ..*old(self) }),
    {
        self.frames_in = wadd_exec(self.frames_in, 1);
    }

    pub fn record_new_state(&mut self)
        ensures
            *final(self) == (MetricsCollector { states_out: wadd(old(self).states_out, 1), ..*old(self) }),
    {
        self.states_out = wadd_exec(self.states_out, 1);
    }

    /// Counts an image written (its size is not counted).
    pub fn record_image_write(&mut self, bytes: u64)
        ensures
            *final(self) == (MetricsCollector {
                images_written: wadd(old(self).images_written, 1),
                ..*old(self)
            }),
    {
        self.images_written = wadd_exec(self.images_written, 1);
    }

    /// Counts a skipped duplicate and the bytes it saved.
    pub fn record_duplicate_skipped(&mut self, estimated_bytes: u64)
        ensures
            *final(self) == (MetricsCollector {
                duplicates_skipped: wadd(old(self).duplicates_skipped, 1),
                bytes_saved: wadd(old(self).bytes_saved, estimated_bytes),
                ..*old(self)
            }),
    {
        self.duplicates_skipped = wadd_exec(self.duplicates_skipped, 1);
        self.bytes_saved = wadd_exec(self.bytes_saved, estimated_bytes);
    }

    pub fn record_ocr_call(&mut self)
        ensures
            *final(self) == (MetricsCollector { ocr_calls: wadd(old(self).ocr_calls, 1), ..*old(self) }),
    {
        self.ocr_calls = wadd_exec(self.ocr_calls, 1);
    }

    pub fn record_snapshot(&mut self)
        ensures
            *final(self) == (MetricsCollector {
                snapshots_created: wadd(old(self).snapshots_created, 1),
                ..*old(self)
            }),
    {
        self.snapshots_created = wadd_exec(self.snapshots_created, 1);
    }

    pub fn record_patch(&mut self)
        ensures
            *final(self) == (MetricsCollector {
                patches_created: wadd(old(self).patches_created, 1),
                ..*old(self)
            }),
    {
        self.patches_created = wadd_exec(self.patches_created, 1);
    }

    /// Adds processing time, in nanoseconds.
    pub fn record_cpu_time(&mut self, nanos: u64)
        ensures
            *final(self) == (MetricsCollector {
                cpu_time_ns: wadd(old(self).cpu_time_ns, nanos),
                ..*old(self)
            }),
    {
        self.cpu_time_ns = wadd_exec(self.cpu_time_ns, nanos);
    }
}

} // verus!
