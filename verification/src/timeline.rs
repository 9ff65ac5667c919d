//! A meeting's frames placed on its timeline.
use vstd::prelude::*;
use crate::text::{dec_i64, dec_int, string_of};

verus! {

/// A frame on the timeline, timed from the start of its meeting.
pub struct TimelineFrame {
    pub id: String,
    pub frame_number: i64,
    /// Milliseconds from the start of the meeting, never negative.
    pub timestamp_ms: i64,
    pub thumbnail_path: Option<String>,
}

/// Places a frame captured at `captured_at_ms` on the timeline of a meeting
/// that started at `meeting_start_ms` (both in milliseconds since the
/// epoch); a frame from before the start is placed at the start.
pub fn timeline_frame(
    id: i64,
    frame_number: i64,
    captured_at_ms: i64,
    meeting_start_ms: i64,
    file_path: Option<String>,
) -> (r: TimelineFrame)
    requires
        i64::MIN <= captured_at_ms - meeting_start_ms <= i64::MAX,
    ensures
        r.id@ == dec_int(id as int),
        r.frame_number == frame_number,
        r.timestamp_ms == (if captured_at_ms - meeting_start_ms > 0 { captured_at_ms - meeting_start_ms } else { 0 }),
        r.thumbnail_path == file_path,
{
    let offset = captured_at_ms - meeting_start_ms;
    let idc = dec_i64(id);
    TimelineFrame {
        id: string_of(&idc),
        frame_number,
        timestamp_ms: if offset > 0 { offset } else { 0 },
        thumbnail_path: file_path,
    }
}

} // verus!
