//! The management console's decisions: which recordings a library page
//! shows, storage totals, the health report of the running services, job
//! history rows, feature flags and queue pausing. Reading the database and
//! the disk is the caller's part; these functions take what was read.
use vstd::prelude::*;
use crate::audit_log::AuditAction;
use crate::capture_engine::RecordingStatus;
use crate::data_editor::last_component;
use crate::capture_metrics::MeetingMetrics;
use crate::text::{
    chars_of, contains_chars, contains_seq, dec_i64, dec_int, dec_nat, dec_u64, extend_chars,
    extend_str, lowercase, rfind_chars, lemma_rfind_range, string_of, sub_chars, to_lowercase_str,
};

verus! {

/// A recording as the library lists it, with what it occupies on disk.
pub struct RecordingWithStorage {
    pub id: String,
    pub title: String,
    pub started_at: String,
    pub ended_at: Option<String>,
    pub duration_seconds: Option<i64>,
    pub frames_count: u32,
    pub frames_bytes: u64,
    pub video_bytes: u64,
    pub audio_bytes: u64,
    pub total_bytes: u64,
    pub total_bytes_formatted: String,
}

/// A title is listed under a search when, both lowercased, the query occurs
/// in it; with no search every title is.
pub open spec fn title_matches(title: Seq<char>, search: Option<Seq<char>>) -> bool {
    match search {
        Some(q) => contains_seq(lowercase(title), lowercase(q)),
        None => true,
    }
}

/// Positions of the titles that the search keeps, in order.
pub open spec fn matching_positions(titles: Seq<Seq<char>>, search: Option<Seq<char>>) -> Seq<usize>
    decreases titles.len(),
{
    if titles.len() == 0 {
        Seq::empty()
    } else {
        let rest = matching_positions(titles.drop_last(), search);
        if title_matches(titles.last(), search) {
            rest.push((titles.len() - 1) as usize)
        } else {
            rest
        }
    }
}

/// The positions shown on a page: those the search keeps, the first
/// `offset` of them skipped.
pub open spec fn page_positions(titles: Seq<Seq<char>>, search: Option<Seq<char>>, offset: nat) -> Seq<usize> {
    let m = matching_positions(titles, search);
    if offset >= m.len() {
        Seq::empty()
    } else {
        m.skip(offset as int)
    }
}

pub open spec fn title_views(titles: Seq<String>) -> Seq<Seq<char>> {
    titles.map_values(|t: String| t@)
}

/// Which of the listed recordings (by their titles, as the database gave
/// them) a library page shows: those whose title holds the search text,
/// ignoring case, after skipping `offset` of them.
pub fn recordings_page(titles: &Vec<String>, search: Option<&str>, offset: u32) -> (r: Vec<usize>)
    ensures
        r@ == page_positions(
            title_views(titles@),
            match search {
                Some(q) => Some(q@),
                None => None,
            },
            offset as nat,
        ),
{
    let ghost sv: Option<Seq<char>> = match search {
        Some(q) => Some(q@),
        None => None,
    };
    let query: Option<Vec<char>> = match search {
        Some(q) => {
            let l = to_lowercase_str(q);
            Some(chars_of(l.as_str()))
        },
        None => None,
    };
    let mut kept: Vec<usize> = Vec::new();
    let mut i: usize = 0;
    while i < titles.len()
        invariant
            i <= titles.len(),
            kept@ == matching_positions(title_views(titles@).take(i as int), sv),
            match query {
                Some(q) => sv matches Some(s) && q@ == lowercase(s),
                None => sv is None,
            },
        decreases titles.len() - i,
    {
        let keep = match &query {
            Some(q) => {
                let l = to_lowercase_str(titles[i].as_str());
                let lc = chars_of(l.as_str());
                contains_chars(&lc, q)
            },
            None => true,
        };
        proof {
            let tv = title_views(titles@);
            assert(tv.take(i + 1).drop_last() =~= tv.take(i as int));
            assert(tv.take(i + 1).last() == titles@[i as int]@);
        }
        if keep {
            kept.push(i);
        }
        i += 1;
    }
    proof {
        assert(title_views(titles@).take(titles.len() as int) =~= title_views(titles@));
    }
    let mut page: Vec<usize> = Vec::new();
    let mut k: usize = offset as usize;
    if k >= kept.len() {
        return page;
    }
    while k < kept.len()
        invariant
            offset <= k <= kept.len(),
            page@ == kept@.subrange(offset as int, k as int),
        decreases kept.len() - k,
    {
        page.push(kept[k]);
        proof {
            assert(kept@.subrange(offset as int, k + 1) =~= kept@.subrange(offset as int, k as int).push(kept@[k as int]));
        }
        k += 1;
    }
    assert(page@ =~= kept@.skip(offset as int));
    page
}

/// What one meeting occupies on disk.
pub struct MeetingStorageUsage {
    pub frames_count: u32,
    pub frames_bytes: u64,
    pub video_bytes: u64,
    pub audio_bytes: u64,
}

/// What all meetings occupy together.
pub struct StorageTotals {
    pub meetings_count: usize,
    pub frames_count: u32,
    pub frames_bytes: u64,
    pub video_bytes: u64,
    pub audio_bytes: u64,
    pub total_bytes: u64,
}

/// One of the quantities a meeting's storage is measured by.
pub enum StorageMeasure {
    FramesCount,
    FramesBytes,
    VideoBytes,
    AudioBytes,
}

pub open spec fn measure_of(u: MeetingStorageUsage, m: StorageMeasure) -> nat {
    match m {
        StorageMeasure::FramesCount => u.frames_count as nat,
        StorageMeasure::FramesBytes => u.frames_bytes as nat,
        StorageMeasure::VideoBytes => u.video_bytes as nat,
        StorageMeasure::AudioBytes => u.audio_bytes as nat,
    }
}

/// Sum of one measure over meetings.
pub open spec fn sum_usage(s: Seq<MeetingStorageUsage>, m: StorageMeasure) -> nat
    decreases s.len(),
{
    if s.len() == 0 {
        0
    } else {
        sum_usage(s.drop_last(), m) + measure_of(s.last(), m)
    }
}

proof fn lemma_sum_prefix_le(s: Seq<MeetingStorageUsage>, m: StorageMeasure, i: int)
    requires
        0 <= i <= s.len(),
    ensures
        sum_usage(s.take(i), m) <= sum_usage(s, m),
    decreases s.len() - i,
{
    if i < s.len() {
        assert(s.take(i + 1).drop_last() =~= s.take(i));
        lemma_sum_prefix_le(s, m, i + 1);
    } else {
        assert(s.take(i) =~= s);
    }
}

/// Adds up what every meeting occupies. The sums fit their types.
pub fn storage_totals(usage: &Vec<MeetingStorageUsage>) -> (r: StorageTotals)
    requires
        sum_usage(usage@, StorageMeasure::FramesCount) <= u32::MAX,
        sum_usage(usage@, StorageMeasure::FramesBytes) + sum_usage(usage@, StorageMeasure::VideoBytes)
            + sum_usage(usage@, StorageMeasure::AudioBytes) <= u64::MAX,
    ensures
        r.meetings_count == usage.len(),
        r.frames_count == sum_usage(usage@, StorageMeasure::FramesCount),
        r.frames_bytes == sum_usage(usage@, StorageMeasure::FramesBytes),
        r.video_bytes == sum_usage(usage@, StorageMeasure::VideoBytes),
        r.audio_bytes == sum_usage(usage@, StorageMeasure::AudioBytes),
        r.total_bytes == r.frames_bytes + r.video_bytes + r.audio_bytes,
{
    let mut frames_count: u32 = 0;
    let mut frames_bytes: u64 = 0;
    let mut video_bytes: u64 = 0;
    let mut audio_bytes: u64 = 0;
    let mut i: usize = 0;
    while i < usage.len()
        invariant
            i <= usage.len(),
            frames_count == sum_usage(usage@.take(i as int), StorageMeasure::FramesCount),
            frames_bytes == sum_usage(usage@.take(i as int), StorageMeasure::FramesBytes),
            video_bytes == sum_usage(usage@.take(i as int), StorageMeasure::VideoBytes),
            audio_bytes == sum_usage(usage@.take(i as int), StorageMeasure::AudioBytes),
            sum_usage(usage@, StorageMeasure::FramesCount) <= u32::MAX,
            sum_usage(usage@, StorageMeasure::FramesBytes) + sum_usage(usage@, StorageMeasure::VideoBytes) + sum_usage(usage@, StorageMeasure::AudioBytes) <= u64::MAX,
        decreases usage.len() - i,
    {
        proof {
            assert(usage@.take(i + 1).drop_last() =~= usage@.take(i as int));
            assert(usage@.take(i + 1).last() == usage@[i as int]);
            lemma_sum_prefix_le(usage@, StorageMeasure::FramesCount, i + 1);
            lemma_sum_prefix_le(usage@, StorageMeasure::FramesBytes, i + 1);
            lemma_sum_prefix_le(usage@, StorageMeasure::VideoBytes, i + 1);
            lemma_sum_prefix_le(usage@, StorageMeasure::AudioBytes, i + 1);
        }
        frames_count = frames_count + usage[i].frames_count;
        frames_bytes = frames_bytes + usage[i].frames_bytes;
        video_bytes = video_bytes + usage[i].video_bytes;
        audio_bytes = audio_bytes + usage[i].audio_bytes;
        i += 1;
    }
    proof {
        assert(usage@.take(usage.len() as int) =~= usage@);
    }
    StorageTotals {
        meetings_count: usage.len(),
        frames_count,
        frames_bytes,
        video_bytes,
        audio_bytes,
        total_bytes: frames_bytes + video_bytes + audio_bytes,
    }
}

/// How one service is doing: `healthy`, `degraded`, `error` or `unknown`.
pub struct ServiceHealth {
    pub name: String,
    pub status: String,
    pub message: Option<String>,
    pub last_check: String,
}

/// The report line of the recording engine.
pub open spec fn engine_message(status: RecordingStatus) -> Seq<char> {
    if status.is_recording {
        "Recording ("@ + dec_nat(status.video_frames as nat) + " frames)"@
    } else {
        "Idle"@
    }
}

/// Status and report line of the metrics collector.
pub open spec fn metrics_health(metrics: Option<MeetingMetrics>) -> (Seq<char>, Seq<char>) {
    match metrics {
        Some(m) => (
            "healthy"@,
            dec_nat(m.frames_in as nat) + " frames, "@ + dec_nat(m.states_out as nat) + " states"@,
        ),
        None => ("unknown"@, "No active session"@),
    }
}

/// Status and report line of the ingest queue, from its counts or the
/// error that reading them gave.
pub open spec fn queue_health(queue: Result<(usize, usize), Seq<char>>) -> (Seq<char>, Seq<char>) {
    match queue {
        Ok((pending, processing)) => (
            "healthy"@,
            dec_nat(pending as nat) + " pending, "@ + dec_nat(processing as nat) + " processing"@,
        ),
        Err(e) => ("error"@, "Failed to get stats: "@ + e),
    }
}

/// The entry has the given name, status and report line, checked at `now`.
pub open spec fn health_is(h: ServiceHealth, name: Seq<char>, status: Seq<char>, message: Seq<char>, now: Seq<char>) -> bool {
    &&& h.name@ == name
    &&& h.status@ == status
    &&& h.message matches Some(m) && m@ == message
    &&& h.last_check@ == now
}

fn health(name: &str, status: &str, message: Vec<char>, now: &str) -> (r: ServiceHealth)
    ensures
        health_is(r, name@, status@, message@, now@),
{
    ServiceHealth {
        name: String::from_str(name),
        status: String::from_str(status),
        message: Some(string_of(&message)),
        last_check: String::from_str(now),
    }
}

/// The health report of the running services, in a fixed order: the
/// database, the recording engine, the metrics collector and the ingest
/// queue, each checked at `now`.
pub fn system_health(
    now: &str,
    recording: &RecordingStatus,
    metrics: &Option<MeetingMetrics>,
    queue: Result<(usize, usize), String>,
) -> (r: Vec<ServiceHealth>)
    ensures
        r.len() == 4,
        health_is(r[0], "Database"@, "healthy"@, "SQLite connected"@, now@),
        health_is(r[1], "Recording Engine"@, "healthy"@, engine_message(*recording), now@),
        health_is(r[2], "Metrics Collector"@, metrics_health(*metrics).0, metrics_health(*metrics).1, now@),
        health_is(
            r[3],
            "Ingest Queue"@,
            queue_health(
                match queue {
                    Ok(c) => Ok(c),
                    Err(e) => Err(e@),
                },
            ).0,
            queue_health(
                match queue {
                    Ok(c) => Ok(c),
                    Err(e) => Err(e@),
                },
            ).1,
            now@,
        ),
{
    let mut services: Vec<ServiceHealth> = Vec::new();
    services.push(health("Database", "healthy", chars_of("SQLite connected"), now));

    let mut engine: Vec<char> = Vec::new();
    if recording.is_recording {
        extend_str(&mut engine, "Recording (");
        let n = dec_u64(recording.video_frames as u64);
        extend_chars(&mut engine, &n);
        extend_str(&mut engine, " frames)");
    } else {
        extend_str(&mut engine, "Idle");
    }
    services.push(health("Recording Engine", "healthy", engine, now));

    match metrics {
        Some(m) => {
            let mut line: Vec<char> = Vec::new();
            let a = dec_u64(m.frames_in);
            extend_chars(&mut line, &a);
            extend_str(&mut line, " frames, ");
            let b = dec_u64(m.states_out);
            extend_chars(&mut line, &b);
            extend_str(&mut line, " states");
            services.push(health("Metrics Collector", "healthy", line, now));
        },
        None => {
            services.push(health("Metrics Collector", "unknown", chars_of("No active session"), now));
        },
    }

    match queue {
        Ok((pending, processing)) => {
            let mut line: Vec<char> = Vec::new();
            let a = dec_u64(pending as u64);
            extend_chars(&mut line, &a);
            extend_str(&mut line, " pending, ");
            let b = dec_u64(processing as u64);
            extend_chars(&mut line, &b);
            extend_str(&mut line, " processing");
            services.push(health("Ingest Queue", "healthy", line, now));
        },
        Err(e) => {
            let mut line: Vec<char> = Vec::new();
            extend_str(&mut line, "Failed to get stats: ");
            extend_str(&mut line, e.as_str());
            services.push(health("Ingest Queue", "error", line, now));
        },
    }
    services
}

/// A processed frame, shown as a job of the tools console.
pub struct JobEntry {
    pub id: String,
    pub job_type: String,
    pub status: String,
    pub started_at: String,
    pub completed_at: Option<String>,
    pub duration_ms: Option<i64>,
    pub details: Option<String>,
}

/// Milliseconds from `earlier` to `later`, both read as RFC 3339 times
/// (`DateTime::parse_from_rfc3339`, then the difference's
/// `num_milliseconds`), as `chrono` computes it; `None` when either does not
/// parse.
pub uninterp spec fn rfc3339_gap_millis(later: Seq<char>, earlier: Seq<char>) -> Option<int>;

/// Parses both times with `chrono` and subtracts them. Trusted: the result is
/// chrono's (named `rfc3339_gap_millis`).
#[verifier::external_body]
fn rfc3339_gap(later: &str, earlier: &str) -> (r: Option<i64>)
    ensures
        match r {
            Some(v) => rfc3339_gap_millis(later@, earlier@) == Some(v as int),
            None => rfc3339_gap_millis(later@, earlier@) is None,
        },
{
    match (chrono::DateTime::parse_from_rfc3339(later), chrono::DateTime::parse_from_rfc3339(earlier)) {
        (Ok(p), Ok(q)) => Some((p - q).num_milliseconds()),
        _ => None,
    }
}

/// The details line of a job: the frame's file name, then the error, if any.
pub open spec fn job_details(frame_path: Seq<char>, error_message: Option<Seq<char>>) -> Seq<char> {
    last_component(frame_path) + match error_message {
        Some(e) => " - Error: "@ + e,
        None => Seq::empty(),
    }
}

/// The job row of a frame-queue entry. Its duration is the time from
/// queueing to processing, when the frame was processed and both times parse.
pub fn job_entry(
    id: i64,
    frame_path: &str,
    status: String,
    queued_at: String,
    processed_at: Option<String>,
    error_message: Option<String>,
) -> (r: JobEntry)
    ensures
        r.id@ == dec_int(id as int),
        r.job_type@ == "frame_process"@,
        r.status == status,
        r.started_at == queued_at,
        r.completed_at == processed_at,
        match processed_at {
            Some(p) => match rfc3339_gap_millis(p@, queued_at@) {
                Some(g) => r.duration_ms matches Some(d) && d == g,
                None => r.duration_ms is None,
            },
            None => r.duration_ms is None,
        },
        r.details matches Some(d) && d@ == job_details(
            frame_path@,
            match error_message {
                Some(e) => Some(e@),
                None => None,
            },
        ),
{
    let duration_ms = match &processed_at {
        Some(p) => rfc3339_gap(p.as_str(), queued_at.as_str()),
        None => None,
    };
    let pc = chars_of(frame_path);
    let slash = chars_of("/");
    let n = pc.len();
    let mut details: Vec<char> = match rfind_chars(&pc, &slash) {
        Some(i) => {
            proof {
                lemma_rfind_range(pc@, slash@, pc@.len() - slash@.len());
                reveal_strlit("/");
                assert(i + 1 <= n);
            }
            let t = sub_chars(&pc, i + 1, n);
            assert(t@ =~= pc@.skip(i + 1));
            t
        },
        None => pc,
    };
    let ghost name = details@;
    match &error_message {
        Some(e) => {
            extend_str(&mut details, " - Error: ");
            extend_str(&mut details, e.as_str());
        },
        None => {},
    }
    proof {
        match &error_message {
            Some(e) => {
                assert(details@ =~= name + (" - Error: "@ + e@));
            },
            None => {
                assert(details@ =~= name + Seq::<char>::empty());
            },
        }
    }
    let idc = dec_i64(id);
    JobEntry {
        id: string_of(&idc),
        job_type: String::from_str("frame_process"),
        status,
        started_at: queued_at,
        completed_at: processed_at,
        duration_ms,
        details: Some(string_of(&details)),
    }
}

/// The switches the console can turn on and off.
#[derive(PartialEq, Eq, Structural, Clone, Copy, Debug)]
pub enum FeatureFlag {
    DedupEnabled,
    VlmAutoProcess,
    EnableIngest,
    QueueFramesForVlm,
}

/// The name of a flag, which is also the setting it is stored under.
pub open spec fn flag_name(f: FeatureFlag) -> Seq<char> {
    match f {
        FeatureFlag::DedupEnabled => "dedup_enabled"@,
        FeatureFlag::VlmAutoProcess => "vlm_auto_process"@,
        FeatureFlag::EnableIngest => "enable_ingest"@,
        FeatureFlag::QueueFramesForVlm => "queue_frames_for_vlm"@,
    }
}

impl FeatureFlag {
    /// The flag's name.
    pub fn name(&self) -> (r: &'static str)
        ensures
            r@ == flag_name(*self),
    {
        match self {
            FeatureFlag::DedupEnabled => "dedup_enabled",
            FeatureFlag::VlmAutoProcess => "vlm_auto_process",
            FeatureFlag::EnableIngest => "enable_ingest",
            FeatureFlag::QueueFramesForVlm => "queue_frames_for_vlm",
        }
    }
}

/// Distinct flags have distinct names, so a flag's name stands for that
/// flag alone.
pub proof fn lemma_flag_names_distinct(a: FeatureFlag, b: FeatureFlag)
    ensures
        flag_name(a) == flag_name(b) ==> a == b,
{
    reveal_strlit("dedup_enabled");
    reveal_strlit("vlm_auto_process");
    reveal_strlit("enable_ingest");
    reveal_strlit("queue_frames_for_vlm");
    if a != b {
        assert(flag_name(a).len() != flag_name(b).len() || flag_name(a)[0] != flag_name(b)[0]);
    }
}

/// The flag a name stands for; any other name is refused with
/// `Unknown feature flag: <name>`.
pub fn feature_flag(name: &str) -> (r: Result<FeatureFlag, String>)
    ensures
        match r {
            Ok(f) => flag_name(f) == name@,
            Err(e) => (forall|f: FeatureFlag| flag_name(f) != name@) && e@ == "Unknown feature flag: "@
                + name@,
        },
{
    proof {
        reveal_strlit("dedup_enabled");
        reveal_strlit("vlm_auto_process");
        reveal_strlit("enable_ingest");
        reveal_strlit("queue_frames_for_vlm");
    }
    if crate::text::str_eq(name, "dedup_enabled") {
        Ok(FeatureFlag::DedupEnabled)
    } else if crate::text::str_eq(name, "vlm_auto_process") {
        Ok(FeatureFlag::VlmAutoProcess)
    } else if crate::text::str_eq(name, "enable_ingest") {
        Ok(FeatureFlag::EnableIngest)
    } else if crate::text::str_eq(name, "queue_frames_for_vlm") {
        Ok(FeatureFlag::QueueFramesForVlm)
    } else {
        let mut e: Vec<char> = Vec::new();
        extend_str(&mut e, "Unknown feature flag: ");
        extend_str(&mut e, name);
        Err(string_of(&e))
    }
}

/// The flags as the console shows them.
pub struct FeatureFlags {
    pub admin_console_enabled: bool,
    pub dedup_enabled: bool,
    pub vlm_auto_process: bool,
    pub enable_ingest: bool,
    pub queue_frames_for_vlm: bool,
}

/// The flags from the stored settings: deduplication is on and ingest off
/// unless a setting says otherwise; the console itself is on.
pub fn feature_flags(
    dedup_enabled: Option<bool>,
    vlm_auto_process: bool,
    enable_ingest: Option<bool>,
    queue_frames_for_vlm: bool,
) -> (r: FeatureFlags)
    ensures
        r.admin_console_enabled,
        r.dedup_enabled == match dedup_enabled {
            Some(v) => v,
            None => true,
        },
        r.vlm_auto_process == vlm_auto_process,
        r.enable_ingest == match enable_ingest {
            Some(v) => v,
            None => false,
        },
        r.queue_frames_for_vlm == queue_frames_for_vlm,
{
    FeatureFlags {
        admin_console_enabled: true,
        dedup_enabled: match dedup_enabled {
            Some(v) => v,
            None => true,
        },
        vlm_auto_process,
        enable_ingest: match enable_ingest {
            Some(v) => v,
            None => false,
        },
        queue_frames_for_vlm,
    }
}

/// The details of setting a flag: `{"value":true}` or `{"value":false}`.
pub open spec fn flag_details_json(value: bool) -> Seq<char> {
    if value {
        "{\"value\":true}"@
    } else {
        "{\"value\":false}"@
    }
}

fn flag_details_text(value: bool) -> (r: String)
    ensures
        r@ == flag_details_json(value),
{
    if value {
        String::from_str("{\"value\":true}")
    } else {
        String::from_str("{\"value\":false}")
    }
}

/// The audit record of setting a flag.
pub fn toggle_flag_action(flag: FeatureFlag, value: bool) -> (r: AuditAction)
    ensures
        r.action@ == "toggle_flag"@,
        r.target_type@ == "feature_flag"@,
        r.target_id@ == flag_name(flag),
        r.details matches Some(d) && d@ == flag_details_json(value),
        r.bytes_affected == 0,
{
    AuditAction {
        action: String::from_str("toggle_flag"),
        target_type: String::from_str("feature_flag"),
        target_id: String::from_str(flag.name()),
        details: Some(flag_details_text(value)),
        bytes_affected: 0,
    }
}

/// Pausing or resuming the ingest queue: the audit record, and whether
/// ingest is enabled afterwards (stored as the `enable_ingest` setting).
pub fn queue_pause(paused: bool) -> (r: (AuditAction, bool))
    ensures
        r.0.action@ == (if paused { "pause_queue"@ } else { "resume_queue"@ }),
        r.0.target_type@ == "ingest_queue"@,
        r.0.target_id@ == "main"@,
        r.0.details is None,
        r.0.bytes_affected == 0,
        r.1 == !paused,
{
    let action = AuditAction {
        action: if paused {
            String::from_str("pause_queue")
        } else {
            String::from_str("resume_queue")
        },
        target_type: String::from_str("ingest_queue"),
        target_id: String::from_str("main"),
        details: None,
        bytes_affected: 0,
    };
    (action, !paused)
}

} // verus!
