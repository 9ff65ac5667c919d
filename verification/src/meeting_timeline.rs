//! The unified timeline of a meeting: its final transcripts, accessibility
//! snapshots and screenshots in one list, ordered by time. Timestamps are
//! RFC 3339 texts and are ordered as texts, character by character (which
//! is the byte order of their UTF-8 form); entries with equal timestamps
//! keep the order in which they were gathered.
use vstd::prelude::*;
use crate::catch_up_agent::{trim, trim_chars};
use crate::text::{chars_of, dec_i64, dec_int, extend_chars, extend_str, string_of};

verus! {

// ---------------------------------------------------------------------------
// Ordering texts
// ---------------------------------------------------------------------------

/// `a` comes before `b`, or equals it, in character order.
pub open spec fn text_le(a: Seq<char>, b: Seq<char>) -> bool
    decreases a.len(),
{
    if a.len() == 0 {
        true
    } else if b.len() == 0 {
        false
    } else if a[0] != b[0] {
        a[0] < b[0]
    } else {
        text_le(a.drop_first(), b.drop_first())
    }
}

proof fn lemma_text_le_total(a: Seq<char>, b: Seq<char>)
    ensures
        text_le(a, b) || text_le(b, a),
    decreases a.len(),
{
    if a.len() > 0 && b.len() > 0 && a[0] == b[0] {
        lemma_text_le_total(a.drop_first(), b.drop_first());
    }
}

proof fn lemma_text_le_trans(a: Seq<char>, b: Seq<char>, c: Seq<char>)
    requires
        text_le(a, b),
        text_le(b, c),
    ensures
        text_le(a, c),
    decreases a.len(),
{
    if a.len() > 0 && b.len() > 0 && c.len() > 0 && a[0] == b[0] && b[0] == c[0] {
        lemma_text_le_trans(a.drop_first(), b.drop_first(), c.drop_first());
    }
}

/// Compares two texts in character order.
pub fn text_le_chars(a: &Vec<char>, b: &Vec<char>) -> (r: bool)
    ensures
        r == text_le(a@, b@),
{
    let mut i: usize = 0;
    assert(a@.skip(0) =~= a@);
    assert(b@.skip(0) =~= b@);
    while i < a.len()
        invariant
            i <= a.len(),
            i <= b.len(),
            a@.take(i as int) == b@.take(i as int),
            text_le(a@, b@) == text_le(a@.skip(i as int), b@.skip(i as int)),
        decreases a.len() - i,
    {
        if i == b.len() {
            return false;
        }
        if a[i] != b[i] {
            return a[i] < b[i];
        }
        proof {
            assert(a@.skip(i as int).drop_first() =~= a@.skip(i + 1));
            assert(b@.skip(i as int).drop_first() =~= b@.skip(i + 1));
            assert(a@.take(i + 1) =~= a@.take(i as int).push(a@[i as int]));
            assert(b@.take(i + 1) =~= b@.take(i as int).push(b@[i as int]));
        }
        i += 1;
    }
    true
}

// ---------------------------------------------------------------------------
// Entries
// ---------------------------------------------------------------------------

/// A transcript line of the meeting.
pub struct TranscriptRecord {
    pub id: i64,
    pub text: String,
    pub speaker: Option<String>,
    /// RFC 3339 time of the line.
    pub timestamp: String,
    pub is_final: bool,
}

/// An accessibility snapshot taken during the meeting.
pub struct SnapshotRecord {
    pub snapshot_id: String,
    pub ts: String,
    pub text: String,
    pub app_name: Option<String>,
    pub window_title: Option<String>,
}

/// A captured frame of the meeting.
pub struct FrameRecord {
    pub id: i64,
    /// RFC 3339 time of the frame.
    pub timestamp: String,
    pub file_path: Option<String>,
    pub ocr_text: Option<String>,
}

/// One entry of the timeline. `source_index` is the entry's position in the
/// list it was gathered from (transcripts, snapshots or frames).
pub struct TimelineEntry {
    pub id: String,
    pub entry_type: String,
    pub timestamp: String,
    pub text: Option<String>,
    pub speaker: Option<String>,
    pub app_name: Option<String>,
    pub window_title: Option<String>,
    pub image_path: Option<String>,
    pub source_index: usize,
}

/// A timeline entry as plain values.
pub struct EntryView {
    pub id: Seq<char>,
    pub entry_type: Seq<char>,
    pub timestamp: Seq<char>,
    pub text: Option<Seq<char>>,
    pub speaker: Option<Seq<char>>,
    pub app_name: Option<Seq<char>>,
    pub window_title: Option<Seq<char>>,
    pub image_path: Option<Seq<char>>,
    pub source_index: nat,
}

pub open spec fn ov(o: Option<String>) -> Option<Seq<char>> {
    match o {
        Some(s) => Some(s@),
        None => None,
    }
}

impl View for TimelineEntry {
    type V = EntryView;

    open spec fn view(&self) -> EntryView {
        EntryView {
            id: self.id@,
            entry_type: self.entry_type@,
            timestamp: self.timestamp@,
            text: ov(self.text),
            speaker: ov(self.speaker),
            app_name: ov(self.app_name),
            window_title: ov(self.window_title),
            image_path: ov(self.image_path),
            source_index: self.source_index as nat,
        }
    }
}

pub open spec fn entry_views(v: Seq<TimelineEntry>) -> Seq<EntryView> {
    v.map_values(|e: TimelineEntry| e@)
}

/// A transcript line is shown when it is final and not blank.
pub open spec fn transcript_shown(t: TranscriptRecord) -> bool {
    t.is_final && trim(t.text@).len() > 0
}

pub open spec fn transcript_entry(t: TranscriptRecord, i: nat) -> EntryView {
    EntryView {
        id: "t_"@ + dec_int(t.id as int),
        entry_type: "transcript"@,
        timestamp: t.timestamp@,
        text: Some(t.text@),
        speaker: ov(t.speaker),
        app_name: None,
        window_title: None,
        image_path: None,
        source_index: i,
    }
}

pub open spec fn snapshot_entry(s: SnapshotRecord, i: nat) -> EntryView {
    EntryView {
        id: "a_"@ + s.snapshot_id@,
        entry_type: "accessibility"@,
        timestamp: s.ts@,
        text: Some(s.text@),
        speaker: None,
        app_name: ov(s.app_name),
        window_title: ov(s.window_title),
        image_path: None,
        source_index: i,
    }
}

pub open spec fn frame_entry(f: FrameRecord, path: Seq<char>, i: nat) -> EntryView {
    EntryView {
        id: "s_"@ + dec_int(f.id as int),
        entry_type: "screenshot"@,
        timestamp: f.timestamp@,
        text: ov(f.ocr_text),
        speaker: None,
        app_name: None,
        window_title: None,
        image_path: Some(path),
        source_index: i,
    }
}

/// The entries of the shown transcript lines, in order.
pub open spec fn transcript_entries(ts: Seq<TranscriptRecord>) -> Seq<EntryView>
    decreases ts.len(),
{
    if ts.len() == 0 {
        Seq::empty()
    } else {
        let rest = transcript_entries(ts.drop_last());
        if transcript_shown(ts.last()) {
            rest.push(transcript_entry(ts.last(), (ts.len() - 1) as nat))
        } else {
            rest
        }
    }
}

/// The entries of all snapshots, in order.
pub open spec fn snapshot_entries(ss: Seq<SnapshotRecord>) -> Seq<EntryView>
    decreases ss.len(),
{
    if ss.len() == 0 {
        Seq::empty()
    } else {
        snapshot_entries(ss.drop_last()).push(snapshot_entry(ss.last(), (ss.len() - 1) as nat))
    }
}

/// The entries of the frames that were stored, in order.
pub open spec fn frame_entries(fs: Seq<FrameRecord>) -> Seq<EntryView>
    decreases fs.len(),
{
    if fs.len() == 0 {
        Seq::empty()
    } else {
        let rest = frame_entries(fs.drop_last());
        match fs.last().file_path {
            Some(p) => rest.push(frame_entry(fs.last(), p@, (fs.len() - 1) as nat)),
            None => rest,
        }
    }
}

// ---------------------------------------------------------------------------
// Ordering entries
// ---------------------------------------------------------------------------

/// How many of the leading entries are at or before `key`.
pub open spec fn at_or_before(s: Seq<EntryView>, key: Seq<char>) -> nat
    decreases s.len(),
{
    if s.len() == 0 {
        0
    } else if text_le(s[0].timestamp, key) {
        1 + at_or_before(s.drop_first(), key)
    } else {
        0
    }
}

/// The entries ordered by timestamp: each is placed after every earlier
/// entry that is at or before it, so entries with equal timestamps keep
/// their order.
pub open spec fn by_timestamp(s: Seq<EntryView>) -> Seq<EntryView>
    decreases s.len(),
{
    if s.len() == 0 {
        s
    } else {
        let t = by_timestamp(s.drop_last());
        t.insert(at_or_before(t, s.last().timestamp) as int, s.last())
    }
}

/// Entries in non-decreasing order of timestamp.
pub open spec fn timestamps_sorted(s: Seq<EntryView>) -> bool {
    forall|i: int, j: int| 0 <= i < j < s.len() ==> text_le(s[i].timestamp, s[j].timestamp)
}

proof fn lemma_at_or_before_stop(s: Seq<EntryView>, key: Seq<char>, p: int)
    requires
        0 <= p <= s.len(),
        forall|k: int| 0 <= k < p ==> text_le(#[trigger] s[k].timestamp, key),
        p == s.len() || !text_le(s[p].timestamp, key),
    ensures
        at_or_before(s, key) == p,
    decreases p,
{
    if p > 0 {
        assert forall|k: int| 0 <= k < p - 1 implies text_le(#[trigger] s.drop_first()[k].timestamp, key) by {
            assert(s.drop_first()[k] == s[k + 1]);
        }
        if p < s.len() {
            assert(s.drop_first()[p - 1] == s[p]);
        }
        assert(text_le(s[0].timestamp, key));
        lemma_at_or_before_stop(s.drop_first(), key, p - 1);
    }
}

proof fn lemma_at_or_before_split(s: Seq<EntryView>, key: Seq<char>)
    requires
        timestamps_sorted(s),
    ensures
        at_or_before(s, key) <= s.len(),
        forall|k: int| 0 <= k < at_or_before(s, key) ==> text_le(#[trigger] s[k].timestamp, key),
        forall|k: int| at_or_before(s, key) <= k < s.len() ==> !text_le(#[trigger] s[k].timestamp, key),
    decreases s.len(),
{
    if s.len() > 0 {
        let t = s.drop_first();
        assert forall|i: int, j: int| 0 <= i < j < t.len() implies text_le(
            t[i].timestamp,
            t[j].timestamp,
        ) by {
            assert(t[i] == s[i + 1] && t[j] == s[j + 1]);
        }
        lemma_at_or_before_split(t, key);
        if text_le(s[0].timestamp, key) {
            assert forall|k: int| 0 <= k < at_or_before(s, key) implies text_le(
                #[trigger] s[k].timestamp,
                key,
            ) by {
                if k > 0 {
                    assert(s[k] == t[k - 1]);
                }
            }
            assert forall|k: int| at_or_before(s, key) <= k < s.len() implies !text_le(
                #[trigger] s[k].timestamp,
                key,
            ) by {
                assert(s[k] == t[k - 1]);
            }
        } else {
            assert forall|k: int| 0 <= k < s.len() implies !text_le(#[trigger] s[k].timestamp, key) by {
                if k > 0 && text_le(s[k].timestamp, key) {
                    lemma_text_le_trans(s[0].timestamp, s[k].timestamp, key);
                }
            }
        }
    }
}

proof fn lemma_insert_to_multiset<T>(s: Seq<T>, p: int, x: T)
    requires
        0 <= p <= s.len(),
    ensures
        s.insert(p, x).to_multiset() == s.to_multiset().insert(x),
{
    broadcast use vstd::seq_lib::group_to_multiset_ensures;

    let t = s.insert(p, x);
    assert(t.remove(p) =~= s);
    assert(t[p] == x);
    assert(t.contains(x));
    assert(t.to_multiset() =~= t.to_multiset().remove(x).insert(x));
}

/// Ordering entries by timestamp gives them in non-decreasing order of
/// timestamp, and the same entries (each as often).
pub proof fn lemma_by_timestamp_sorted_permutation(s: Seq<EntryView>)
    ensures
        timestamps_sorted(by_timestamp(s)),
        by_timestamp(s).to_multiset() == s.to_multiset(),
    decreases s.len(),
{
    broadcast use vstd::seq_lib::group_to_multiset_ensures;

    if s.len() > 0 {
        let t = by_timestamp(s.drop_last());
        lemma_by_timestamp_sorted_permutation(s.drop_last());
        let x = s.last();
        let key = x.timestamp;
        lemma_at_or_before_split(t, key);
        let p = at_or_before(t, key) as int;
        let u = t.insert(p, x);
        assert forall|i: int, j: int| 0 <= i < j < u.len() implies text_le(
            u[i].timestamp,
            u[j].timestamp,
        ) by {
            if j < p {
            } else if j == p {
                assert(u[i] == t[i]);
            } else if i < p {
                assert(u[j] == t[j - 1]);
                assert(u[i] == t[i]);
            } else if i == p {
                assert(u[j] == t[j - 1]);
                lemma_text_le_total(key, t[j - 1].timestamp);
            } else {
                assert(u[i] == t[i - 1] && u[j] == t[j - 1]);
            }
        }
        lemma_insert_to_multiset(t, p, x);
        assert(s.drop_last().push(x) =~= s);
        s.drop_last().to_multiset_ensures();
    }
}

// ---------------------------------------------------------------------------
// Building the timeline
// ---------------------------------------------------------------------------

fn clone_text(o: &Option<String>) -> (r: Option<String>)
    ensures
        ov(r) == ov(*o),
{
    match o {
        Some(s) => Some(s.clone()),
        None => None,
    }
}

fn prefixed(prefix: &str, rest: &Vec<char>) -> (r: String)
    ensures
        r@ == prefix@ + rest@,
{
    let mut v: Vec<char> = Vec::new();
    extend_str(&mut v, prefix);
    extend_chars(&mut v, rest);
    string_of(&v)
}

fn transcript_entry_of(t: &TranscriptRecord, i: usize) -> (r: TimelineEntry)
    ensures
        r@ == transcript_entry(*t, i as nat),
{
    let d = dec_i64(t.id);
    TimelineEntry {
        id: prefixed("t_", &d),
        entry_type: String::from_str("transcript"),
        timestamp: t.timestamp.clone(),
        text: Some(t.text.clone()),
        speaker: clone_text(&t.speaker),
        app_name: None,
        window_title: None,
        image_path: None,
        source_index: i,
    }
}

fn snapshot_entry_of(s: &SnapshotRecord, i: usize) -> (r: TimelineEntry)
    ensures
        r@ == snapshot_entry(*s, i as nat),
{
    let sid = chars_of(s.snapshot_id.as_str());
    TimelineEntry {
        id: prefixed("a_", &sid),
        entry_type: String::from_str("accessibility"),
        timestamp: s.ts.clone(),
        text: Some(s.text.clone()),
        speaker: None,
        app_name: clone_text(&s.app_name),
        window_title: clone_text(&s.window_title),
        image_path: None,
        source_index: i,
    }
}

fn frame_entry_of(f: &FrameRecord, path: &String, i: usize) -> (r: TimelineEntry)
    ensures
        r@ == frame_entry(*f, path@, i as nat),
{
    let d = dec_i64(f.id);
    TimelineEntry {
        id: prefixed("s_", &d),
        entry_type: String::from_str("screenshot"),
        timestamp: f.timestamp.clone(),
        text: clone_text(&f.ocr_text),
        speaker: None,
        app_name: None,
        window_title: None,
        image_path: Some(path.clone()),
        source_index: i,
    }
}

fn push_entry(out: &mut Vec<TimelineEntry>, e: TimelineEntry)
    ensures
        entry_views(final(out)@) == entry_views(old(out)@).push(e@),
{
    let ghost before = out@;
    out.push(e);
    assert(entry_views(out@) =~= entry_views(before).push(e@));
}

/// The entries of a meeting, unordered: its shown transcript lines, then its
/// snapshots, then its stored frames.
pub fn gather_entries(
    transcripts: &Vec<TranscriptRecord>,
    snapshots: &Vec<SnapshotRecord>,
    frames: &Vec<FrameRecord>,
) -> (r: Vec<TimelineEntry>)
    ensures
        entry_views(r@) == transcript_entries(transcripts@) + snapshot_entries(snapshots@) + frame_entries(
            frames@,
        ),
{
    let mut out: Vec<TimelineEntry> = Vec::new();
    let mut i: usize = 0;
    while i < transcripts.len()
        invariant
            i <= transcripts.len(),
            entry_views(out@) == transcript_entries(transcripts@.take(i as int)),
        decreases transcripts.len() - i,
    {
        proof {
            assert(transcripts@.take(i + 1).drop_last() =~= transcripts@.take(i as int));
            assert(transcripts@.take(i + 1).last() == transcripts@[i as int]);
        }
        let t = &transcripts[i];
        if t.is_final {
            let cs = chars_of(t.text.as_str());
            let trimmed = trim_chars(&cs);
            if trimmed.len() > 0 {
                push_entry(&mut out, transcript_entry_of(t, i));
            }
        }
        i += 1;
    }
    proof {
        assert(transcripts@.take(transcripts.len() as int) =~= transcripts@);
    }
    let ghost head = entry_views(out@);
    let mut j: usize = 0;
    while j < snapshots.len()
        invariant
            j <= snapshots.len(),
            entry_views(out@) == head + snapshot_entries(snapshots@.take(j as int)),
        decreases snapshots.len() - j,
    {
        proof {
            assert(snapshots@.take(j + 1).drop_last() =~= snapshots@.take(j as int));
            assert(snapshots@.take(j + 1).last() == snapshots@[j as int]);
        }
        push_entry(&mut out, snapshot_entry_of(&snapshots[j], j));
        proof {
            assert(entry_views(out@) =~= head + snapshot_entries(snapshots@.take(j + 1)));
        }
        j += 1;
    }
    proof {
        assert(snapshots@.take(snapshots.len() as int) =~= snapshots@);
    }
    let ghost head2 = entry_views(out@);
    let mut k: usize = 0;
    while k < frames.len()
        invariant
            k <= frames.len(),
            entry_views(out@) == head2 + frame_entries(frames@.take(k as int)),
        decreases frames.len() - k,
    {
        proof {
            assert(frames@.take(k + 1).drop_last() =~= frames@.take(k as int));
            assert(frames@.take(k + 1).last() == frames@[k as int]);
        }
        match &frames[k].file_path {
            Some(p) => {
                push_entry(&mut out, frame_entry_of(&frames[k], p, k));
                proof {
                    assert(entry_views(out@) =~= head2 + frame_entries(frames@.take(k + 1)));
                }
            },
            None => {
                proof {
                    assert(entry_views(out@) =~= head2 + frame_entries(frames@.take(k + 1)));
                }
            },
        }
        k += 1;
    }
    proof {
        assert(frames@.take(frames.len() as int) =~= frames@);
    }
    out
}

/// Orders entries by timestamp, keeping the order of entries with equal
/// timestamps.
pub fn sort_by_timestamp(entries: Vec<TimelineEntry>) -> (r: Vec<TimelineEntry>)
    ensures
        entry_views(r@) == by_timestamp(entry_views(entries@)),
{
    let ghost orig = entry_views(entries@);
    let mut src = entries;
    let mut out: Vec<TimelineEntry> = Vec::new();
    let mut i: usize = 0;
    let n = src.len();
    assert(orig.skip(0) =~= orig);
    assert(orig.take(0) =~= Seq::<EntryView>::empty());
    while i < n
        invariant
            i <= n == orig.len(),
            entry_views(src@) == orig.skip(i as int),
            src@.len() == n - i,
            entry_views(out@) == by_timestamp(orig.take(i as int)),
        decreases n - i,
    {
        let ghost before_src = src@;
        let e = src.remove(0);
        proof {
            assert(e == before_src[0]);
            assert(entry_views(before_src)[0] == before_src[0]@);
            assert(orig.skip(i as int)[0] == orig[i as int]);
            assert(e@ == orig[i as int]);
            assert(entry_views(src@) =~= entry_views(before_src).drop_first());
            assert(entry_views(src@) =~= orig.skip(i + 1));
        }
        let key = chars_of(e.timestamp.as_str());
        let mut p: usize = 0;
        while p < out.len() && text_le_chars(&chars_of(out[p].timestamp.as_str()), &key)
            invariant
                p <= out@.len(),
                key@ == e@.timestamp,
                forall|k: int| 0 <= k < p ==> text_le(#[trigger] entry_views(out@)[k].timestamp, key@),
            decreases out.len() - p,
        {
            p += 1;
        }
        proof {
            lemma_at_or_before_stop(entry_views(out@), key@, p as int);
            assert(orig.take(i + 1).drop_last() =~= orig.take(i as int));
            assert(orig.take(i + 1).last() == e@);
        }
        let ghost before_out = out@;
        out.insert(p, e);
        proof {
            assert(entry_views(out@) =~= entry_views(before_out).insert(p as int, e@));
        }
        i += 1;
    }
    proof {
        assert(orig.take(n as int) =~= orig);
    }
    out
}

/// The unified timeline of a meeting.
pub struct MeetingTimeline {
    pub meeting_id: String,
    pub title: String,
    pub started_at: String,
    pub ended_at: Option<String>,
    pub entries: Vec<TimelineEntry>,
    /// Final transcript lines (blank ones included).
    pub transcript_count: usize,
    pub accessibility_count: usize,
    /// Frames that were stored.
    pub screenshot_count: usize,
}

/// Number of final transcript lines.
pub open spec fn final_count(ts: Seq<TranscriptRecord>) -> nat
    decreases ts.len(),
{
    if ts.len() == 0 {
        0
    } else {
        final_count(ts.drop_last()) + if ts.last().is_final { 1nat } else { 0nat }
    }
}

/// Number of frames that were stored.
pub open spec fn stored_count(fs: Seq<FrameRecord>) -> nat
    decreases fs.len(),
{
    if fs.len() == 0 {
        0
    } else {
        stored_count(fs.drop_last()) + if fs.last().file_path is Some { 1nat } else { 0nat }
    }
}

/// The timeline of a meeting: its shown transcript lines, snapshots and
/// stored frames ordered by time, with how many of each it had.
pub fn meeting_timeline(
    meeting_id: String,
    title: String,
    started_at: String,
    ended_at: Option<String>,
    transcripts: &Vec<TranscriptRecord>,
    snapshots: &Vec<SnapshotRecord>,
    frames: &Vec<FrameRecord>,
) -> (r: MeetingTimeline)
    ensures
        r.meeting_id == meeting_id,
        r.title == title,
        r.started_at == started_at,
        r.ended_at == ended_at,
        entry_views(r.entries@) == by_timestamp(
            transcript_entries(transcripts@) + snapshot_entries(snapshots@) + frame_entries(frames@),
        ),
        r.transcript_count == final_count(transcripts@),
        r.accessibility_count == snapshots@.len(),
        r.screenshot_count == stored_count(frames@),
{
    let gathered = gather_entries(transcripts, snapshots, frames);
    let entries = sort_by_timestamp(gathered);
    let mut finals: usize = 0;
    let mut i: usize = 0;
    while i < transcripts.len()
        invariant
            i <= transcripts.len(),
            finals == final_count(transcripts@.take(i as int)),
            finals <= i,
        decreases transcripts.len() - i,
    {
        proof {
            assert(transcripts@.take(i + 1).drop_last() =~= transcripts@.take(i as int));
        }
        if transcripts[i].is_final {
            finals += 1;
        }
        i += 1;
    }
    proof {
        assert(transcripts@.take(transcripts.len() as int) =~= transcripts@);
    }
    let mut stored: usize = 0;
    let mut k: usize = 0;
    while k < frames.len()
        invariant
            k <= frames.len(),
            stored == stored_count(frames@.take(k as int)),
            stored <= k,
        decreases frames.len() - k,
    {
        proof {
            assert(frames@.take(k + 1).drop_last() =~= frames@.take(k as int));
        }
        if frames[k].file_path.is_some() {
            stored += 1;
        }
        k += 1;
    }
    proof {
        assert(frames@.take(frames.len() as int) =~= frames@);
    }
    MeetingTimeline {
        meeting_id,
        title,
        started_at,
        ended_at,
        entries,
        transcript_count: finals,
        accessibility_count: snapshots.len(),
        screenshot_count: stored,
    }
}

} // verus!
