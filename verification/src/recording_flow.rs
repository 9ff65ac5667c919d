//! The decisions of a recording session: what to do with each captured
//! frame once the state builder has judged it, and what happens to the
//! meeting when recording stops. Capturing, writing images and talking to
//! the database stay with the caller, which performs the action returned
//! and reports back.
use vstd::prelude::*;
use crate::capture_metrics::{wadd, MetricsCollector};
use crate::text::{chars_of, dec_nat, dec_u64, extend_chars, extend_str, string_of};

verus! {

/// Bytes a stored frame is estimated to take, counted as saved for each
/// duplicate frame that is not stored.
pub const ESTIMATED_FRAME_BYTES: u64 = 50_000;

/// What the state builder made of a captured frame.
pub enum FrameOutcome {
    /// The frame repeats the current screen state, which now lasts until `new_end_ms`.
    Extended { state_id: String, new_end_ms: i64 },
    /// The frame starts a new screen state; `has_keyframe` tells whether
    /// the builder holds its keyframe image to be saved.
    NewState { new_state_id: String, has_keyframe: bool },
    /// Stateful capture is off: the frame is kept as it is.
    PassThrough { frame_number: u64 },
}

/// What the caller does with the frame.
pub enum FrameAction {
    /// Extend the stored state to the new end time.
    ExtendState { state_id: String, end_ms: i64 },
    /// Save the keyframe of a new state under `file_name` and record the state.
    SaveKeyframe { state_id: String, file_name: String },
    /// Nothing to store.
    Nothing,
    /// Save the frame itself under `file_name`.
    SaveFrame { file_name: String },
}

/// Counts one received frame and decides what to do with it: a repeat is
/// counted as a skipped duplicate, a new state as a new state.
pub fn frame_action(metrics: &mut MetricsCollector, outcome: FrameOutcome) -> (r: FrameAction)
    ensures
        match outcome {
            FrameOutcome::Extended { state_id, new_end_ms } => {
                &&& *final(metrics) == (MetricsCollector {
                    frames_in: wadd(old(metrics).frames_in, 1),
                    duplicates_skipped: wadd(old(metrics).duplicates_skipped, 1),
                    bytes_saved: wadd(old(metrics).bytes_saved, ESTIMATED_FRAME_BYTES),
                    ..*old(metrics)
                })
                &&& r == (FrameAction::ExtendState { state_id, end_ms: new_end_ms })
            },
            FrameOutcome::NewState { new_state_id, has_keyframe } => {
                &&& *final(metrics) == (MetricsCollector {
                    frames_in: wadd(old(metrics).frames_in, 1),
                    states_out: wadd(old(metrics).states_out, 1),
                    ..*old(metrics)
                })
                &&& has_keyframe ==> (r matches FrameAction::SaveKeyframe { state_id, file_name }
                    && state_id == new_state_id && file_name@ == "state_"@ + new_state_id@ + ".jpg"@)
                &&& !has_keyframe ==> r is Nothing
            },
            FrameOutcome::PassThrough { frame_number } => {
                &&& *final(metrics) == (MetricsCollector {
                    frames_in: wadd(old(metrics).frames_in, 1),
                    ..*old(metrics)
                })
                &&& r matches FrameAction::SaveFrame { file_name }
                &&& r matches FrameAction::SaveFrame { file_name } ==> file_name@ == "frame_"@ + dec_nat(
                    frame_number as nat,
                ) + ".jpg"@
            },
        },
{
    metrics.record_frame();
    match outcome {
        FrameOutcome::Extended { state_id, new_end_ms } => {
            metrics.record_duplicate_skipped(ESTIMATED_FRAME_BYTES);
            FrameAction::ExtendState { state_id, end_ms: new_end_ms }
        },
        FrameOutcome::NewState { new_state_id, has_keyframe } => {
            metrics.record_new_state();
            if has_keyframe {
                let mut name: Vec<char> = Vec::new();
                extend_str(&mut name, "state_");
                extend_str(&mut name, new_state_id.as_str());
                extend_str(&mut name, ".jpg");
                FrameAction::SaveKeyframe { state_id: new_state_id, file_name: string_of(&name) }
            } else {
                FrameAction::Nothing
            }
        },
        FrameOutcome::PassThrough { frame_number } => {
            let mut name: Vec<char> = Vec::new();
            extend_str(&mut name, "frame_");
            let d = dec_u64(frame_number);
            extend_chars(&mut name, &d);
            extend_str(&mut name, ".jpg");
            FrameAction::SaveFrame { file_name: string_of(&name) }
        },
    }
}

/// A keyframe was written to disk: it is counted, and the state's frame is
/// queued for analysis when the settings ask for it.
pub fn keyframe_written(metrics: &mut MetricsCollector, queue_frames_for_vlm: bool) -> (queue: bool)
    ensures
        *final(metrics) == (MetricsCollector { images_written: wadd(old(metrics).images_written, 1), ..*old(metrics) }),
        queue == queue_frames_for_vlm,
{
    metrics.record_image_write(ESTIMATED_FRAME_BYTES);
    queue_frames_for_vlm
}

/// The meeting whose timeline just ended, named by its first event (empty
/// when it had none).
pub fn ended_meeting_id(first_event_meeting_id: Option<String>) -> (r: String)
    ensures
        r@ == match first_event_meeting_id {
            Some(m) => m@,
            None => Seq::empty(),
        },
{
    match first_event_meeting_id {
        Some(m) => m,
        None => String::new(),
    }
}

/// Where the meeting that just ended is exported when recording stops: to
/// the vault's `Inbox` folder, when auto-export is on, a vault is set and
/// the meeting is known.
pub fn auto_export_target(auto_export: bool, vault_path_set: bool, meeting_id: String) -> (r: Option<(String, String)>)
    ensures
        match r {
            Some((folder, id)) => auto_export && vault_path_set && meeting_id@.len() > 0
                && folder@ == "Inbox"@ && id == meeting_id,
            None => !(auto_export && vault_path_set && meeting_id@.len() > 0),
        },
{
    if auto_export && vault_path_set && chars_of(meeting_id.as_str()).len() > 0 {
        Some((String::from_str("Inbox"), meeting_id))
    } else {
        None
    }
}

} // verus!
