//! Groups a meeting's transcripts into segments: by time gaps or by speaker
//! changes; builds segment records; merges and splits segments; and measures
//! word overlap between texts.
//!
//! Times are instants as `chrono` holds them; confidences are percentages.
use vstd::prelude::*;
use crate::episode_builder::{clone_opt, opt_eq, opt_view};
use crate::hashing::{new_uuid_v4, uuid_v4_text};
use crate::instant::{secs_between, seconds_between, time_string, time_text, UtcInstant};
use crate::text::{chars_of, dec_nat, dec_u64, extend_chars, extend_str, split_words, string_of, views, words, lowercase, to_lowercase_str};
use crate::wordset::{jaccard_words, word_set, Similarity};

verus! {

/// What clustering reads of a transcript.
#[derive(Debug, Clone)]
pub struct TranscriptEntry {
    pub id: i64,
    pub speaker: Option<String>,
    pub timestamp: UtcInstant,
}

/// A cluster of transcripts: one logical segment of a meeting.
#[derive(Debug, Clone)]
pub struct TranscriptCluster {
    pub id: String,
    pub meeting_id: String,
    pub name: Option<String>,
    pub transcript_ids: Vec<i64>,
    pub start_time: String,
    pub end_time: String,
    pub confidence_pct: u32,
    pub auto_generated: bool,
}

/// Clustering configuration.
#[derive(Debug, Clone, Copy, PartialEq, Eq, Structural)]
pub struct ClusteringConfig {
    /// Time gap in seconds that may start a new cluster
    pub gap_threshold_seconds: i64,
    /// Minimum transcripts to form a cluster
    pub min_cluster_size: usize,
    /// Whether to use topic similarity
    pub use_topic_similarity: bool,
}

impl Default for ClusteringConfig {
    fn default() -> (r: Self)
        ensures
            r.gap_threshold_seconds == 120,
            r.min_cluster_size == 3,
            !r.use_topic_similarity,
    {
        ClusteringConfig { gap_threshold_seconds: 120, min_cluster_size: 3, use_topic_similarity: false }
    }
}

pub open spec fn index_views(v: Seq<Vec<usize>>) -> Seq<Seq<usize>> {
    v.map_values(|c: Vec<usize>| c@)
}

/// Clusters of the first `n >= 1` transcripts by time: a gap above the
/// threshold starts a new cluster only once the current one is large enough.
pub open spec fn time_scan(t: Seq<TranscriptEntry>, n: int, config: ClusteringConfig) -> Seq<Seq<usize>>
    decreases n,
{
    if n <= 1 {
        seq![seq![0usize]]
    } else {
        let c = time_scan(t, n - 1, config);
        let gap = secs_between(t[n - 2].timestamp, t[n - 1].timestamp);
        if gap > config.gap_threshold_seconds && c.last().len() >= config.min_cluster_size {
            c.push(seq![(n - 1) as usize])
        } else {
            c.update(c.len() - 1, c.last().push((n - 1) as usize))
        }
    }
}

/// The clusters with at least `min` members, in order.
pub open spec fn keep_large(cs: Seq<Seq<usize>>, min: int) -> Seq<Seq<usize>>
    decreases cs.len(),
{
    if cs.len() == 0 {
        Seq::empty()
    } else {
        let r = keep_large(cs.drop_last(), min);
        if cs.last().len() >= min {
            r.push(cs.last())
        } else {
            r
        }
    }
}

/// Time clustering of all transcripts.
pub open spec fn time_clusters(t: Seq<TranscriptEntry>, config: ClusteringConfig) -> Seq<Seq<usize>> {
    if t.len() == 0 {
        Seq::empty()
    } else {
        keep_large(time_scan(t, t.len() as int, config), config.min_cluster_size as int)
    }
}

/// Clusters of the first `n >= 1` transcripts by speaker: a new cluster at
/// every change of speaker.
pub open spec fn speaker_scan(t: Seq<TranscriptEntry>, n: int) -> Seq<Seq<usize>>
    decreases n,
{
    if n <= 1 {
        seq![seq![0usize]]
    } else {
        let c = speaker_scan(t, n - 1);
        if opt_view(t[n - 1].speaker) != opt_view(t[n - 2].speaker) {
            c.push(seq![(n - 1) as usize])
        } else {
            c.update(c.len() - 1, c.last().push((n - 1) as usize))
        }
    }
}

/// Speaker clustering of all transcripts.
pub open spec fn speaker_clusters(t: Seq<TranscriptEntry>) -> Seq<Seq<usize>> {
    if t.len() == 0 {
        Seq::empty()
    } else {
        speaker_scan(t, t.len() as int)
    }
}

/// Identifiers of the transcripts at the given indices (indices out of range skipped).
pub open spec fn ids_at(t: Seq<TranscriptEntry>, idx: Seq<usize>) -> Seq<i64>
    decreases idx.len(),
{
    if idx.len() == 0 {
        Seq::empty()
    } else {
        let r = ids_at(t, idx.drop_last());
        if idx.last() < t.len() {
            r.push(t[idx.last() as int].id)
        } else {
            r
        }
    }
}

/// Time text of the transcript at `i`, empty if there is none.
pub open spec fn time_at(t: Seq<TranscriptEntry>, i: int) -> Seq<char> {
    if 0 <= i < t.len() {
        time_text(t[i].timestamp)
    } else {
        Seq::empty()
    }
}

/// The mathematical content of a cluster, apart from its identifier.
pub struct ClusterView {
    pub meeting_id: Seq<char>,
    pub name: Option<Seq<char>>,
    pub transcript_ids: Seq<i64>,
    pub start_time: Seq<char>,
    pub end_time: Seq<char>,
    pub confidence_pct: int,
    pub auto_generated: bool,
}

impl TranscriptCluster {
    pub open spec fn content(&self) -> ClusterView {
        ClusterView {
            meeting_id: self.meeting_id@,
            name: opt_view(self.name),
            transcript_ids: self.transcript_ids@,
            start_time: self.start_time@,
            end_time: self.end_time@,
            confidence_pct: self.confidence_pct as int,
            auto_generated: self.auto_generated,
        }
    }
}

/// The `k`-th (from zero) segment built from indices `idx`.
pub open spec fn segment(meeting_id: Seq<char>, t: Seq<TranscriptEntry>, idx: Seq<usize>, k: int) -> ClusterView {
    let first = if idx.len() > 0 {
        idx[0] as int
    } else {
        0
    };
    let last = if idx.len() > 0 {
        idx.last() as int
    } else {
        0
    };
    ClusterView {
        meeting_id,
        name: Some("Segment "@ + dec_nat((k + 1) as nat)),
        transcript_ids: ids_at(t, idx),
        start_time: time_at(t, first),
        end_time: time_at(t, last),
        confidence_pct: 80,
        auto_generated: true,
    }
}

/// Law: a segment built from transcripts starts at the time of the
/// transcript at its first index and ends at the time of the transcript at
/// its last index.
pub proof fn lemma_segment_spans_its_transcripts(
    meeting_id: Seq<char>,
    t: Seq<TranscriptEntry>,
    idx: Seq<usize>,
    k: int,
)
    requires
        idx.len() > 0,
        idx[0] < t.len(),
        idx[idx.len() - 1] < t.len(),
    ensures
        segment(meeting_id, t, idx, k).start_time == time_text(t[idx[0] as int].timestamp),
        segment(meeting_id, t, idx, k).end_time == time_text(t[idx[idx.len() - 1] as int].timestamp),
{
}

/// The indices of a cluster run without gaps from its first one.
pub open spec fn is_run(c: Seq<usize>) -> bool {
    c.len() >= 1 && forall|j: int| 0 <= j < c.len() ==> #[trigger] c[j] == c[0] + j
}

/// The shape of the time scan over the first `n` transcripts: runs of
/// indices, one after another, covering `0..n`; each run after the first
/// starts where the gap from the previous transcript exceeds the threshold
/// and the previous run is large enough.
pub open spec fn scan_shape(t: Seq<TranscriptEntry>, n: int, config: ClusteringConfig, cs: Seq<Seq<usize>>) -> bool {
    &&& cs.len() >= 1
    &&& forall|k: int| 0 <= k < cs.len() ==> is_run(#[trigger] cs[k])
    &&& cs[0][0] == 0
    &&& forall|k: int| 0 <= k < cs.len() - 1 ==> #[trigger] cs[k + 1][0] == cs[k][0] + cs[k].len()
    &&& cs.last()[0] + cs.last().len() == n
    &&& forall|k: int|
        1 <= k < cs.len() ==> secs_between(t[#[trigger] cs[k][0] - 1].timestamp, t[cs[k][0] as int].timestamp)
            > config.gap_threshold_seconds && cs[k - 1].len() >= config.min_cluster_size
}

proof fn lemma_time_scan_shape(t: Seq<TranscriptEntry>, n: int, config: ClusteringConfig)
    requires
        1 <= n <= t.len() <= usize::MAX,
    ensures
        scan_shape(t, n, config, time_scan(t, n, config)),
    decreases n,
{
    let cs = time_scan(t, n, config);
    if n <= 1 {
        assert(is_run(cs[0]));
    } else {
        lemma_time_scan_shape(t, n - 1, config);
        let c = time_scan(t, n - 1, config);
        let gap = secs_between(t[n - 2].timestamp, t[n - 1].timestamp);
        if gap > config.gap_threshold_seconds && c.last().len() >= config.min_cluster_size {
            assert(cs == c.push(seq![(n - 1) as usize]));
            assert(is_run(cs.last()));
            assert forall|k: int| 0 <= k < cs.len() implies is_run(#[trigger] cs[k]) by {
                if k < c.len() {
                    assert(cs[k] == c[k]);
                }
            }
            assert forall|k: int| 0 <= k < cs.len() - 1 implies #[trigger] cs[k + 1][0] == cs[k][0]
                + cs[k].len() by {
                if k < c.len() - 1 {
                    assert(cs[k + 1] == c[k + 1] && cs[k] == c[k]);
                } else {
                    assert(cs[k] == c[k]);
                    assert(cs[k + 1] == seq![(n - 1) as usize]);
                    assert(cs[k + 1][0] == n - 1);
                }
            }
            assert forall|k: int|
                1 <= k < cs.len() implies secs_between(
                t[#[trigger] cs[k][0] - 1].timestamp,
                t[cs[k][0] as int].timestamp,
            ) > config.gap_threshold_seconds && cs[k - 1].len() >= config.min_cluster_size by {
                if k < c.len() {
                    assert(cs[k] == c[k] && cs[k - 1] == c[k - 1]);
                } else {
                    assert(cs[k - 1] == c.last());
                    assert(cs[k] == seq![(n - 1) as usize]);
                    assert(cs[k][0] == n - 1);
                }
            }
        } else {
            let last = c.last().push((n - 1) as usize);
            assert(cs == c.update(c.len() - 1, last));
            assert(is_run(c.last()));
            assert(is_run(last)) by {
                assert forall|j: int| 0 <= j < last.len() implies #[trigger] last[j] == last[0] + j by {
                    if j < c.last().len() {
                        assert(last[j] == c.last()[j]);
                    }
                }
            }
            assert forall|k: int| 0 <= k < cs.len() implies is_run(#[trigger] cs[k]) by {
                if k < c.len() - 1 {
                    assert(cs[k] == c[k]);
                }
            }
            assert forall|k: int| 0 <= k < cs.len() - 1 implies #[trigger] cs[k + 1][0] == cs[k][0]
                + cs[k].len() by {
                assert(cs[k] == c[k]);
                if k + 1 < c.len() - 1 {
                    assert(cs[k + 1] == c[k + 1]);
                } else {
                    assert(cs[k + 1][0] == c[k + 1][0]);
                }
            }
            assert forall|k: int|
                1 <= k < cs.len() implies secs_between(
                t[#[trigger] cs[k][0] - 1].timestamp,
                t[cs[k][0] as int].timestamp,
            ) > config.gap_threshold_seconds && cs[k - 1].len() >= config.min_cluster_size by {
                assert(cs[k][0] == c[k][0]);
                assert(cs[k - 1] == c[k - 1]);
            }
            if c.len() == 1 {
                assert(cs[0][0] == c[0][0]);
            }
        }
    }
}

proof fn lemma_keep_large_members(cs: Seq<Seq<usize>>, min: int)
    ensures
        forall|k: int|
            0 <= k < keep_large(cs, min).len() ==> exists|m: int|
                0 <= m < cs.len() && #[trigger] keep_large(cs, min)[k] == cs[m] && cs[m].len() >= min,
        forall|k1: int, k2: int|
            0 <= k1 < k2 < keep_large(cs, min).len() ==> exists|m1: int, m2: int|
                0 <= m1 < m2 < cs.len() && #[trigger] keep_large(cs, min)[k1] == cs[m1]
                    && #[trigger] keep_large(cs, min)[k2] == cs[m2],
    decreases cs.len(),
{
    if cs.len() > 0 {
        let p = cs.drop_last();
        lemma_keep_large_members(p, min);
        let r = keep_large(p, min);
        let kr = keep_large(cs, min);
        assert forall|k: int| 0 <= k < kr.len() implies exists|m: int|
            0 <= m < cs.len() && #[trigger] kr[k] == cs[m] && cs[m].len() >= min by {
            if k < r.len() {
                let m = choose|m: int| 0 <= m < p.len() && #[trigger] r[k] == p[m] && p[m].len() >= min;
                assert(kr[k] == r[k] && p[m] == cs[m]);
            } else {
                assert(kr[k] == cs[cs.len() - 1]);
            }
        }
        assert forall|k1: int, k2: int| 0 <= k1 < k2 < kr.len() implies exists|m1: int, m2: int|
            0 <= m1 < m2 < cs.len() && #[trigger] kr[k1] == cs[m1] && #[trigger] kr[k2] == cs[m2] by {
            if k2 < r.len() {
                let (m1, m2) = choose|m1: int, m2: int|
                    0 <= m1 < m2 < p.len() && #[trigger] r[k1] == p[m1] && #[trigger] r[k2] == p[m2];
                assert(kr[k1] == r[k1] && kr[k2] == r[k2] && p[m1] == cs[m1] && p[m2] == cs[m2]);
            } else {
                let m1 = choose|m: int| 0 <= m < p.len() && #[trigger] r[k1] == p[m] && p[m].len() >= min;
                assert(kr[k1] == r[k1] && p[m1] == cs[m1]);
                assert(kr[k2] == cs[cs.len() - 1]);
            }
        }
    }
}

/// Law: every time segment of a meeting is a run of consecutive
/// transcripts (in the given order) with at least the minimum number of
/// members; a segment never starts right after a gap at or below the
/// threshold, since a gap within the threshold never splits a run; and the
/// segments come in order without overlapping.
pub proof fn lemma_time_segments_are_runs(t: Seq<TranscriptEntry>, config: ClusteringConfig)
    requires
        t.len() <= usize::MAX,
    ensures
        forall|k: int|
            0 <= k < time_clusters(t, config).len() ==> {
                let c = #[trigger] time_clusters(t, config)[k];
                &&& is_run(c)
                &&& c.len() >= config.min_cluster_size
                &&& c[c.len() - 1] < t.len()
                &&& c[0] > 0 ==> secs_between(t[c[0] - 1].timestamp, t[c[0] as int].timestamp)
                    > config.gap_threshold_seconds
            },
        forall|k1: int, k2: int|
            0 <= k1 < k2 < time_clusters(t, config).len() ==> #[trigger] time_clusters(t, config)[k1][
                time_clusters(t, config)[k1].len() - 1] < #[trigger] time_clusters(t, config)[k2][0],
{
    if t.len() > 0 {
        let n = t.len() as int;
        let cs = time_scan(t, n, config);
        lemma_time_scan_shape(t, n, config);
        lemma_keep_large_members(cs, config.min_cluster_size as int);
        let tc = time_clusters(t, config);
        assert(tc == keep_large(cs, config.min_cluster_size as int));
        // starts grow and runs end before the next starts
        assert forall|m: int| 0 <= m < cs.len() implies #[trigger] cs[m][0] + cs[m].len() <= n by {
            lemma_scan_ends(cs, n, m);
        }
        assert forall|k: int| 0 <= k < tc.len() implies {
            let c = #[trigger] tc[k];
            &&& is_run(c)
            &&& c.len() >= config.min_cluster_size
            &&& c[c.len() - 1] < t.len()
            &&& c[0] > 0 ==> secs_between(t[c[0] - 1].timestamp, t[c[0] as int].timestamp)
                > config.gap_threshold_seconds
        } by {
            let m = choose|m: int|
                0 <= m < cs.len() && #[trigger] keep_large(cs, config.min_cluster_size as int)[k] == cs[m]
                    && cs[m].len() >= config.min_cluster_size;
            assert(tc[k] == cs[m]);
            assert(is_run(cs[m]));
            assert(cs[m][cs[m].len() - 1] == cs[m][0] + cs[m].len() - 1);
            if m > 0 {
                assert(cs[m][0] == cs[m][0]);
            } else {
                assert(cs[m][0] == 0);
            }
        }
        assert forall|k1: int, k2: int| 0 <= k1 < k2 < tc.len() implies #[trigger] tc[k1][tc[k1].len() - 1]
            < #[trigger] tc[k2][0] by {
            let (m1, m2) = choose|m1: int, m2: int|
                0 <= m1 < m2 < cs.len() && #[trigger] keep_large(cs, config.min_cluster_size as int)[k1]
                    == cs[m1] && #[trigger] keep_large(cs, config.min_cluster_size as int)[k2] == cs[m2];
            assert(is_run(cs[m1]));
            assert(cs[m1][cs[m1].len() - 1] == cs[m1][0] + cs[m1].len() - 1);
            lemma_scan_starts_grow(cs, m1, m2);
        }
    }
}

/// Law: the `k`-th segment of a meeting (as `cluster_meeting` builds it)
/// starts at the time of its first transcript and ends at the time of its
/// last one.
pub proof fn lemma_meeting_segment_times(
    meeting_id: Seq<char>,
    t: Seq<TranscriptEntry>,
    config: ClusteringConfig,
    k: int,
)
    requires
        t.len() <= usize::MAX,
        0 <= k < time_clusters(t, config).len(),
    ensures
        ({
            let c = time_clusters(t, config)[k];
            &&& segment(meeting_id, t, c, k).start_time == time_text(t[c[0] as int].timestamp)
            &&& segment(meeting_id, t, c, k).end_time == time_text(t[c[c.len() - 1] as int].timestamp)
        }),
{
    lemma_time_segments_are_runs(t, config);
    let c = time_clusters(t, config)[k];
    assert(is_run(c));
    assert(c[c.len() - 1] == c[0] + c.len() - 1);
    lemma_segment_spans_its_transcripts(meeting_id, t, c, k);
}

/// The shape of speaker clustering over the first `n` transcripts: runs of
/// indices, one after another, covering `0..n`; within a run every
/// transcript has the speaker of the run's first one, and each run after
/// the first starts where the speaker changes.
pub open spec fn speaker_shape(t: Seq<TranscriptEntry>, n: int, cs: Seq<Seq<usize>>) -> bool {
    &&& cs.len() >= 1
    &&& forall|k: int| 0 <= k < cs.len() ==> is_run(#[trigger] cs[k])
    &&& cs[0][0] == 0
    &&& forall|k: int| 0 <= k < cs.len() - 1 ==> #[trigger] cs[k + 1][0] == cs[k][0] + cs[k].len()
    &&& cs.last()[0] + cs.last().len() == n
    &&& forall|k: int, j: int|
        0 <= k < cs.len() && 0 <= j < cs[k].len() ==> opt_view(t[#[trigger] cs[k][j] as int].speaker)
            == opt_view(t[cs[k][0] as int].speaker)
    &&& forall|k: int|
        1 <= k < cs.len() ==> opt_view(t[#[trigger] cs[k][0] - 1].speaker) != opt_view(
            t[cs[k][0] as int].speaker,
        )
}

proof fn lemma_speaker_scan_shape(t: Seq<TranscriptEntry>, n: int)
    requires
        1 <= n <= t.len() <= usize::MAX,
    ensures
        speaker_shape(t, n, speaker_scan(t, n)),
    decreases n,
{
    let cs = speaker_scan(t, n);
    if n <= 1 {
        assert(is_run(cs[0]));
    } else {
        lemma_speaker_scan_shape(t, n - 1);
        let c = speaker_scan(t, n - 1);
        if opt_view(t[n - 1].speaker) != opt_view(t[n - 2].speaker) {
            let fresh = seq![(n - 1) as usize];
            assert(cs == c.push(fresh));
            assert(is_run(cs.last()));
            assert forall|k: int| 0 <= k < cs.len() implies is_run(#[trigger] cs[k]) by {
                if k < c.len() {
                    assert(cs[k] == c[k]);
                }
            }
            assert forall|k: int| 0 <= k < cs.len() - 1 implies #[trigger] cs[k + 1][0] == cs[k][0]
                + cs[k].len() by {
                assert(cs[k] == c[k]);
                if k < c.len() - 1 {
                    assert(cs[k + 1] == c[k + 1]);
                } else {
                    assert(cs[k + 1] == fresh);
                }
            }
            assert forall|k: int, j: int|
                0 <= k < cs.len() && 0 <= j < cs[k].len() implies opt_view(
                t[#[trigger] cs[k][j] as int].speaker,
            ) == opt_view(t[cs[k][0] as int].speaker) by {
                if k < c.len() {
                    assert(cs[k] == c[k]);
                } else {
                    assert(cs[k] == fresh);
                }
            }
            assert forall|k: int|
                1 <= k < cs.len() implies opt_view(t[#[trigger] cs[k][0] - 1].speaker) != opt_view(
                t[cs[k][0] as int].speaker,
            ) by {
                if k < c.len() {
                    assert(cs[k] == c[k]);
                } else {
                    assert(cs[k] == fresh);
                    assert(cs[k][0] == n - 1);
                }
            }
        } else {
            let last = c.last().push((n - 1) as usize);
            assert(cs == c.update(c.len() - 1, last));
            assert(is_run(c.last()));
            assert(c.last()[c.last().len() - 1] == c.last()[0] + c.last().len() - 1);
            assert(is_run(last)) by {
                assert forall|j: int| 0 <= j < last.len() implies #[trigger] last[j] == last[0] + j by {
                    if j < c.last().len() {
                        assert(last[j] == c.last()[j]);
                    }
                }
            }
            assert forall|k: int| 0 <= k < cs.len() implies is_run(#[trigger] cs[k]) by {
                if k < c.len() - 1 {
                    assert(cs[k] == c[k]);
                }
            }
            assert forall|k: int| 0 <= k < cs.len() - 1 implies #[trigger] cs[k + 1][0] == cs[k][0]
                + cs[k].len() by {
                assert(cs[k] == c[k]);
                assert(cs[k + 1][0] == c[k + 1][0]);
            }
            assert forall|k: int, j: int|
                0 <= k < cs.len() && 0 <= j < cs[k].len() implies opt_view(
                t[#[trigger] cs[k][j] as int].speaker,
            ) == opt_view(t[cs[k][0] as int].speaker) by {
                if k < c.len() - 1 {
                    assert(cs[k] == c[k]);
                } else {
                    assert(cs[k] == last);
                    if j < c.last().len() {
                        assert(last[j] == c.last()[j]);
                    } else {
                        assert(last[j] == n - 1);
                        let p = c.last().len() - 1;
                        assert(c.last()[p] == n - 2);
                        assert(opt_view(t[c.last()[p] as int].speaker) == opt_view(t[c.last()[0] as int].speaker));
                    }
                }
            }
            assert forall|k: int|
                1 <= k < cs.len() implies opt_view(t[#[trigger] cs[k][0] - 1].speaker) != opt_view(
                t[cs[k][0] as int].speaker,
            ) by {
                assert(cs[k][0] == c[k][0]);
            }
            if c.len() == 1 {
                assert(cs[0][0] == c[0][0]);
            }
        }
    }
}

/// Law: speaker clustering splits the transcripts, in order and without
/// gaps or overlaps, into runs of consecutive transcripts with one speaker
/// each; a new run starts exactly where the speaker changes.
pub proof fn lemma_speaker_clusters_are_speaker_runs(t: Seq<TranscriptEntry>)
    requires
        1 <= t.len() <= usize::MAX,
    ensures
        speaker_shape(t, t.len() as int, speaker_clusters(t)),
        forall|i: int|
            1 <= i < t.len() && opt_view(t[i - 1].speaker) != opt_view(#[trigger] t[i].speaker)
                ==> exists|k: int| 0 <= k < speaker_clusters(t).len() && #[trigger] speaker_clusters(t)[k][0] == i,
{
    let n = t.len() as int;
    lemma_speaker_scan_shape(t, n);
    let cs = speaker_clusters(t);
    assert forall|i: int|
        1 <= i < t.len() && opt_view(t[i - 1].speaker) != opt_view(#[trigger] t[i].speaker)
            implies exists|k: int| 0 <= k < cs.len() && #[trigger] cs[k][0] == i by {
        // the run holding i - 1 ends at i - 1
        let k = choose_run(cs, n, i - 1);
        assert(is_run(cs[k]));
        let j = i - 1 - cs[k][0];
        assert(cs[k][j] == i - 1);
        if j + 1 < cs[k].len() {
            assert(cs[k][j + 1] == i);
            assert(opt_view(t[cs[k][j + 1] as int].speaker) == opt_view(t[cs[k][0] as int].speaker));
            assert(opt_view(t[cs[k][j] as int].speaker) == opt_view(t[cs[k][0] as int].speaker));
            assert(false);
        } else {
            assert(cs[k][0] + cs[k].len() == i);
            if k == cs.len() - 1 {
                assert(false);
            }
            assert(cs[k + 1][0] == i);
        }
    }
}

/// The run holding index `x` of runs placed one after another over `0..n`.
proof fn choose_run(cs: Seq<Seq<usize>>, n: int, x: int) -> (k: int)
    requires
        0 <= x < n,
        cs.len() >= 1,
        forall|k: int| 0 <= k < cs.len() ==> is_run(#[trigger] cs[k]),
        cs[0][0] == 0,
        forall|k: int| 0 <= k < cs.len() - 1 ==> #[trigger] cs[k + 1][0] == cs[k][0] + cs[k].len(),
        cs.last()[0] + cs.last().len() == n,
    ensures
        0 <= k < cs.len(),
        cs[k][0] <= x < cs[k][0] + cs[k].len(),
    decreases cs.len(),
{
    let last = cs.len() - 1;
    if cs[last][0] <= x {
        last
    } else {
        let p = cs.drop_last();
        assert(last >= 1);
        assert(p.last() == cs[last - 1]);
        let q = last - 1;
        assert(cs[q + 1][0] == cs[q][0] + cs[q].len());
        assert(p.last()[0] + p.last().len() == cs[last][0]);
        assert forall|k: int| 0 <= k < p.len() implies is_run(#[trigger] p[k]) by {
            assert(p[k] == cs[k]);
        }
        assert forall|k: int| 0 <= k < p.len() - 1 implies #[trigger] p[k + 1][0] == p[k][0] + p[k].len() by {
            assert(p[k] == cs[k] && p[k + 1] == cs[k + 1]);
        }
        let k = choose_run(p, cs[last][0] as int, x);
        assert(p[k] == cs[k]);
        k
    }
}

/// In runs placed one after another, a later run starts after an earlier one ends.
proof fn lemma_scan_starts_grow(cs: Seq<Seq<usize>>, m1: int, m2: int)
    requires
        0 <= m1 < m2 < cs.len(),
        forall|k: int| 0 <= k < cs.len() ==> is_run(#[trigger] cs[k]),
        forall|k: int| 0 <= k < cs.len() - 1 ==> #[trigger] cs[k + 1][0] == cs[k][0] + cs[k].len(),
    ensures
        cs[m1][0] + cs[m1].len() <= cs[m2][0],
    decreases m2 - m1,
{
    assert(cs[m1 + 1][0] == cs[m1][0] + cs[m1].len());
    if m2 > m1 + 1 {
        lemma_scan_starts_grow(cs, m1 + 1, m2);
        assert(is_run(cs[m1 + 1]));
    }
}

/// Runs placed one after another up to `n` each end by `n`.
proof fn lemma_scan_ends(cs: Seq<Seq<usize>>, n: int, m: int)
    requires
        0 <= m < cs.len(),
        forall|k: int| 0 <= k < cs.len() ==> is_run(#[trigger] cs[k]),
        forall|k: int| 0 <= k < cs.len() - 1 ==> #[trigger] cs[k + 1][0] == cs[k][0] + cs[k].len(),
        cs.last()[0] + cs.last().len() == n,
    ensures
        cs[m][0] + cs[m].len() <= n,
{
    if m < cs.len() - 1 {
        lemma_scan_starts_grow(cs, m, cs.len() - 1);
        assert(is_run(cs[cs.len() - 1]));
    }
}

/// Lexicographic order of texts by code point (the order of `String`).
pub open spec fn text_lt(a: Seq<char>, b: Seq<char>) -> bool
    decreases a.len(),
{
    if b.len() == 0 {
        false
    } else if a.len() == 0 {
        true
    } else if (a[0] as u32) != (b[0] as u32) {
        (a[0] as u32) < (b[0] as u32)
    } else {
        text_lt(a.drop_first(), b.drop_first())
    }
}

/// Lexicographic comparison of texts.
pub fn text_less(a: &Vec<char>, b: &Vec<char>) -> (r: bool)
    ensures
        r == text_lt(a@, b@),
{
    let mut i: usize = 0;
    proof {
        assert(a@.skip(0) =~= a@);
        assert(b@.skip(0) =~= b@);
    }
    while i < a.len() && i < b.len()
        invariant
            i <= a.len(),
            i <= b.len(),
            text_lt(a@, b@) == text_lt(a@.skip(i as int), b@.skip(i as int)),
        decreases a.len() - i,
    {
        proof {
            assert(a@.skip(i as int).drop_first() =~= a@.skip(i + 1));
            assert(b@.skip(i as int).drop_first() =~= b@.skip(i + 1));
        }
        if (a[i] as u32) != (b[i] as u32) {
            return (a[i] as u32) < (b[i] as u32);
        }
        i += 1;
    }
    i < b.len()
}

/// Ascending order.
pub open spec fn sorted(s: Seq<i64>) -> bool {
    forall|i: int, j: int| 0 <= i < j < s.len() ==> s[i] <= s[j]
}

proof fn lemma_insert_multiset(s: Seq<i64>, p: int, x: i64)
    requires
        0 <= p <= s.len(),
    ensures
        s.insert(p, x).to_multiset() == s.to_multiset().insert(x),
{
    broadcast use vstd::seq_lib::group_to_multiset_ensures;

    let t = s.insert(p, x);
    assert(t.remove(p) =~= s);
    assert(t[p] == x);
    assert(s.to_multiset() == t.to_multiset().remove(x));
    assert(t.to_multiset().contains(x)) by {
        assert(t.contains(x));
    }
    assert(t.to_multiset() =~= t.to_multiset().remove(x).insert(x));
}

/// Sort identifiers ascending (a permutation of the input).
pub fn sort_ids(v: &Vec<i64>) -> (r: Vec<i64>)
    ensures
        sorted(r@),
        r@.to_multiset() == v@.to_multiset(),
{
    broadcast use vstd::seq_lib::group_to_multiset_ensures;

    let mut out: Vec<i64> = Vec::new();
    let mut i: usize = 0;
    while i < v.len()
        invariant
            i <= v.len(),
            sorted(out@),
            out@.to_multiset() == v@.take(i as int).to_multiset(),
        decreases v.len() - i,
    {
        let x = v[i];
        let mut p: usize = 0;
        while p < out.len() && out[p] <= x
            invariant
                p <= out.len(),
                forall|k: int| 0 <= k < p ==> out@[k] <= x,
            decreases out.len() - p,
        {
            p += 1;
        }
        let ghost before = out@;
        proof {
            lemma_insert_multiset(out@, p as int, x);
            assert(v@.take(i + 1) =~= v@.take(i as int).push(x));
            v@.take(i as int).to_multiset_ensures();
            assert(v@.take(i as int).push(x).to_multiset() =~= v@.take(i as int).to_multiset().insert(x));
        }
        out.insert(p, x);
        proof {
            assert(out@ == before.insert(p as int, x));
            assert(out@.to_multiset() == v@.take(i + 1).to_multiset());
        }
        i += 1;
    }
    proof {
        assert(v@.take(v@.len() as int) =~= v@);
    }
    out
}

/// Transcript clustering engine.
pub struct ClusteringEngine {
    pub config: ClusteringConfig,
}

impl ClusteringEngine {
    pub fn new(config: ClusteringConfig) -> (r: Self)
        ensures
            r.config == config,
    {
        ClusteringEngine { config }
    }

    /// Cluster transcripts by time gaps (indices into `transcripts`).
    pub fn cluster_by_time(&self, transcripts: &Vec<TranscriptEntry>) -> (r: Vec<Vec<usize>>)
        ensures
            index_views(r@) == time_clusters(transcripts@, self.config),
    {
        if transcripts.len() == 0 {
            let e: Vec<Vec<usize>> = Vec::new();
            proof {
                assert(index_views(e@) =~= Seq::<Seq<usize>>::empty());
            }
            return e;
        }
        let mut clusters: Vec<Vec<usize>> = Vec::new();
        let mut first: Vec<usize> = Vec::new();
        first.push(0);
        clusters.push(first);
        proof {
            assert(index_views(clusters@) =~= seq![seq![0usize]]);
        }
        let mut i: usize = 1;
        while i < transcripts.len()
            invariant
                1 <= i <= transcripts.len(),
                clusters@.len() >= 1,
                index_views(clusters@) == time_scan(transcripts@, i as int, self.config),
            decreases transcripts.len() - i,
        {
            let gap: i128 = seconds_between(transcripts[i - 1].timestamp, transcripts[i].timestamp);
            let ghost c = index_views(clusters@);
            let last_len = clusters[clusters.len() - 1].len();
            if gap > self.config.gap_threshold_seconds as i128 && last_len
                >= self.config.min_cluster_size {
                let mut fresh: Vec<usize> = Vec::new();
                fresh.push(i);
                proof {
                    assert(index_views(clusters@.push(fresh)) =~= c.push(seq![i]));
                }
                clusters.push(fresh);
            } else {
                let mut last = clusters.pop().unwrap();
                last.push(i);
                proof {
                    assert(index_views(clusters@.push(last)) =~= c.update(
                        c.len() - 1,
                        c.last().push(i),
                    ));
                }
                clusters.push(last);
            }
            i += 1;
        }
        // Keep only clusters that are large enough.
        let ghost all = index_views(clusters@);
        let mut kept: Vec<Vec<usize>> = Vec::new();
        let mut k: usize = 0;
        while k < clusters.len()
            invariant
                k <= clusters.len(),
                all == index_views(clusters@),
                index_views(kept@) == keep_large(all.take(k as int), self.config.min_cluster_size as int),
            decreases clusters.len() - k,
        {
            proof {
                assert(all.take(k + 1).drop_last() =~= all.take(k as int));
                assert(all.take(k + 1).last() == clusters@[k as int]@);
            }
            if clusters[k].len() >= self.config.min_cluster_size {
                let c = copy_indices(&clusters[k]);
                proof {
                    assert(index_views(kept@.push(c)) =~= index_views(kept@).push(c@));
                }
                kept.push(c);
            }
            k += 1;
        }
        proof {
            assert(all.take(all.len() as int) =~= all);
        }
        kept
    }

    /// Cluster transcripts by speaker changes (indices into `transcripts`).
    pub fn cluster_by_speaker(&self, transcripts: &Vec<TranscriptEntry>) -> (r: Vec<Vec<usize>>)
        ensures
            index_views(r@) == speaker_clusters(transcripts@),
    {
        if transcripts.len() == 0 {
            let e: Vec<Vec<usize>> = Vec::new();
            proof {
                assert(index_views(e@) =~= Seq::<Seq<usize>>::empty());
            }
            return e;
        }
        let mut clusters: Vec<Vec<usize>> = Vec::new();
        let mut first: Vec<usize> = Vec::new();
        first.push(0);
        clusters.push(first);
        proof {
            assert(index_views(clusters@) =~= seq![seq![0usize]]);
        }
        let mut i: usize = 1;
        while i < transcripts.len()
            invariant
                1 <= i <= transcripts.len(),
                clusters@.len() >= 1,
                index_views(clusters@) == speaker_scan(transcripts@, i as int),
            decreases transcripts.len() - i,
        {
            let ghost c = index_views(clusters@);
            if !opt_eq(&transcripts[i].speaker, &transcripts[i - 1].speaker) {
                let mut fresh: Vec<usize> = Vec::new();
                fresh.push(i);
                proof {
                    assert(index_views(clusters@.push(fresh)) =~= c.push(seq![i]));
                }
                clusters.push(fresh);
            } else {
                let mut last = clusters.pop().unwrap();
                last.push(i);
                proof {
                    assert(index_views(clusters@.push(last)) =~= c.update(
                        c.len() - 1,
                        c.last().push(i),
                    ));
                }
                clusters.push(last);
            }
            i += 1;
        }
        clusters
    }

    /// The segments of a meeting: its transcripts grouped by time gaps, one
    /// record per group (none when it has no transcripts).
    pub fn cluster_meeting(&self, meeting_id: &str, transcripts: &Vec<TranscriptEntry>) -> (r: Vec<
        TranscriptCluster,
    >)
        ensures
            r@.len() == time_clusters(transcripts@, self.config).len(),
            forall|k: int|
                0 <= k < r@.len() ==> #[trigger] r@[k].content() == segment(
                    meeting_id@,
                    transcripts@,
                    time_clusters(transcripts@, self.config)[k],
                    k,
                ),
    {
        let groups = self.cluster_by_time(transcripts);
        let r = self.create_clusters(meeting_id, transcripts, &groups);
        assert forall|k: int| 0 <= k < r@.len() implies #[trigger] r@[k].content() == segment(
            meeting_id@,
            transcripts@,
            time_clusters(transcripts@, self.config)[k],
            k,
        ) by {
            assert(index_views(groups@)[k] == groups@[k]@);
        }
        r
    }

    /// Build segment records from clustered indices, each under a fresh
    /// random identifier.
    pub fn create_clusters(
        &self,
        meeting_id: &str,
        transcripts: &Vec<TranscriptEntry>,
        clustered_indices: &Vec<Vec<usize>>,
    ) -> (r: Vec<TranscriptCluster>)
        ensures
            r@.len() == clustered_indices@.len(),
            forall|k: int|
                0 <= k < r@.len() ==> {
                    &&& #[trigger] r@[k].content() == segment(
                        meeting_id@,
                        transcripts@,
                        clustered_indices@[k]@,
                        k,
                    )
                    &&& uuid_v4_text(r@[k].id@)
                },
    {
        let mut out: Vec<TranscriptCluster> = Vec::new();
        let mut k: usize = 0;
        while k < clustered_indices.len()
            invariant
                k <= clustered_indices.len(),
                out@.len() == k,
                forall|j: int|
                    0 <= j < k ==> {
                        &&& #[trigger] out@[j].content() == segment(
                            meeting_id@,
                            transcripts@,
                            clustered_indices@[j]@,
                            j,
                        )
                        &&& uuid_v4_text(out@[j].id@)
                    },
            decreases clustered_indices.len() - k,
        {
            let c = Self::segment_record(new_uuid_v4(), meeting_id, transcripts, &clustered_indices[k], k);
            out.push(c);
            k += 1;
        }
        out
    }

    /// The `k`-th segment record built from `indices`, under `id`.
    pub fn segment_record(
        id: String,
        meeting_id: &str,
        transcripts: &Vec<TranscriptEntry>,
        indices: &Vec<usize>,
        k: usize,
    ) -> (r: TranscriptCluster)
        requires
            k < usize::MAX,
        ensures
            r.id@ == id@,
            r.content() == segment(meeting_id@, transcripts@, indices@, k as int),
    {
        let first = if indices.len() > 0 {
            indices[0]
        } else {
            0
        };
        let last = if indices.len() > 0 {
            indices[indices.len() - 1]
        } else {
            0
        };
        let mut ids: Vec<i64> = Vec::new();
        let mut j: usize = 0;
        while j < indices.len()
            invariant
                j <= indices.len(),
                ids@ == ids_at(transcripts@, indices@.take(j as int)),
            decreases indices.len() - j,
        {
            proof {
                assert(indices@.take(j + 1).drop_last() =~= indices@.take(j as int));
                assert(indices@.take(j + 1).last() == indices@[j as int]);
            }
            if indices[j] < transcripts.len() {
                ids.push(transcripts[indices[j]].id);
            }
            j += 1;
        }
        proof {
            assert(indices@.take(indices@.len() as int) =~= indices@);
        }
        let start_time = if first < transcripts.len() {
            time_string(transcripts[first].timestamp)
        } else {
            String::new()
        };
        let end_time = if last < transcripts.len() {
            time_string(transcripts[last].timestamp)
        } else {
            String::new()
        };
        let mut name: Vec<char> = Vec::new();
        extend_str(&mut name, "Segment ");
        let number: u64 = k as u64 + 1;
        extend_chars(&mut name, &dec_u64(number));
        TranscriptCluster {
            id,
            meeting_id: String::from_str(meeting_id),
            name: Some(string_of(&name)),
            transcript_ids: ids,
            start_time,
            end_time,
            confidence_pct: 80,
            auto_generated: true,
        }
    }
}

/// First position of `x` in `s`.
pub open spec fn first_pos(s: Seq<i64>, x: i64) -> Option<int>
    decreases s.len(),
{
    if s.len() == 0 {
        None
    } else {
        match first_pos(s.drop_last(), x) {
            Some(p) => Some(p),
            None => if s.last() == x {
                Some(s.len() - 1)
            } else {
                None
            },
        }
    }
}

/// First index of a transcript with identifier `id`.
pub open spec fn first_with_id(t: Seq<TranscriptEntry>, id: i64) -> Option<int>
    decreases t.len(),
{
    if t.len() == 0 {
        None
    } else {
        match first_with_id(t.drop_last(), id) {
            Some(p) => Some(p),
            None => if t.last().id == id {
                Some(t.len() - 1)
            } else {
                None
            },
        }
    }
}

/// Position of `x` in a list of identifiers.
pub fn position_of(s: &Vec<i64>, x: i64) -> (r: Option<usize>)
    ensures
        match r {
            Some(p) => p < s@.len() && s@[p as int] == x && first_pos(s@, x) == Some(p as int),
            None => first_pos(s@, x) is None,
        },
{
    let mut i: usize = 0;
    while i < s.len()
        invariant
            i <= s.len(),
            first_pos(s@.take(i as int), x) is None,
        decreases s.len() - i,
    {
        proof {
            assert(s@.take(i + 1).drop_last() =~= s@.take(i as int));
        }
        if s[i] == x {
            proof {
                lemma_first_pos_prefix(s@, x, i as int + 1);
            }
            return Some(i);
        }
        i += 1;
    }
    proof {
        assert(s@.take(s@.len() as int) =~= s@);
    }
    None
}

proof fn lemma_first_pos_prefix(s: Seq<i64>, x: i64, n: int)
    requires
        0 <= n <= s.len(),
        first_pos(s.take(n), x) is Some,
    ensures
        first_pos(s, x) == first_pos(s.take(n), x),
    decreases s.len() - n,
{
    if n < s.len() {
        assert(s.take(n + 1).drop_last() =~= s.take(n));
        lemma_first_pos_prefix(s, x, n + 1);
    } else {
        assert(s.take(n) =~= s);
    }
}

proof fn lemma_first_with_id_prefix(t: Seq<TranscriptEntry>, id: i64, n: int)
    requires
        0 <= n <= t.len(),
        first_with_id(t.take(n), id) is Some,
    ensures
        first_with_id(t, id) == first_with_id(t.take(n), id),
    decreases t.len() - n,
{
    if n < t.len() {
        assert(t.take(n + 1).drop_last() =~= t.take(n));
        lemma_first_with_id_prefix(t, id, n + 1);
    } else {
        assert(t.take(n) =~= t);
    }
}

/// Index of the first transcript with the given identifier.
pub fn find_transcript(t: &Vec<TranscriptEntry>, id: i64) -> (r: Option<usize>)
    ensures
        match r {
            Some(p) => p < t@.len() && t@[p as int].id == id && first_with_id(t@, id) == Some(p as int),
            None => first_with_id(t@, id) is None,
        },
{
    let mut i: usize = 0;
    while i < t.len()
        invariant
            i <= t.len(),
            first_with_id(t@.take(i as int), id) is None,
        decreases t.len() - i,
    {
        proof {
            assert(t@.take(i + 1).drop_last() =~= t@.take(i as int));
        }
        if t[i].id == id {
            proof {
                lemma_first_with_id_prefix(t@, id, i as int + 1);
            }
            return Some(i);
        }
        i += 1;
    }
    proof {
        assert(t@.take(t@.len() as int) =~= t@);
    }
    None
}

/// The later of two end times and the earlier of two start times, by text order.
pub open spec fn later(a: Seq<char>, b: Seq<char>) -> Seq<char> {
    if text_lt(a, b) {
        b
    } else {
        a
    }
}

pub open spec fn earlier(a: Seq<char>, b: Seq<char>) -> Seq<char> {
    if text_lt(b, a) {
        b
    } else {
        a
    }
}

/// Position of cluster `a` once cluster `b` has been removed.
pub open spec fn merged_index(a: int, b: int) -> int {
    if b < a {
        a - 1
    } else {
        a
    }
}

/// A copy of an identifier list.
pub fn copy_ids(v: &Vec<i64>) -> (r: Vec<i64>)
    ensures
        r@ == v@,
{
    let mut r: Vec<i64> = Vec::new();
    let mut i: usize = 0;
    while i < v.len()
        invariant
            i <= v.len(),
            r@ == v@.take(i as int),
        decreases v.len() - i,
    {
        r.push(v[i]);
        proof {
            assert(v@.take(i + 1) =~= v@.take(i as int).push(v@[i as int]));
        }
        i += 1;
    }
    proof {
        assert(v@.take(v@.len() as int) =~= v@);
    }
    r
}

impl ClusteringEngine {
    /// Merge cluster `cluster_b_idx` into cluster `cluster_a_idx`.
    pub fn merge_clusters(clusters: &mut Vec<TranscriptCluster>, cluster_a_idx: usize, cluster_b_idx: usize) -> (r:
        Result<(), String>)
        ensures
            (cluster_a_idx >= old(clusters)@.len() || cluster_b_idx >= old(clusters)@.len()) ==> (r
                matches Err(e) && e@ == "Invalid cluster index"@ && final(clusters)@ == old(clusters)@),
            (cluster_a_idx < old(clusters)@.len() && cluster_b_idx < old(clusters)@.len()
                && cluster_a_idx == cluster_b_idx) ==> (r matches Err(e) && e@
                == "Cannot merge cluster with itself"@ && final(clusters)@ == old(clusters)@),
            (cluster_a_idx < old(clusters)@.len() && cluster_b_idx < old(clusters)@.len()
                && cluster_a_idx != cluster_b_idx) ==> {
                let rest = old(clusters)@.remove(cluster_b_idx as int);
                let ai = merged_index(cluster_a_idx as int, cluster_b_idx as int);
                let a = old(clusters)@[cluster_a_idx as int];
                let b = old(clusters)@[cluster_b_idx as int];
                let m = final(clusters)@[ai];
                &&& r is Ok
                &&& final(clusters)@.len() == rest.len()
                &&& forall|j: int| 0 <= j < rest.len() && j != ai ==> #[trigger] final(clusters)@[j] == rest[j]
                &&& m.id == a.id
                &&& m.meeting_id == a.meeting_id
                &&& m.name == a.name
                &&& m.confidence_pct == a.confidence_pct
                &&& sorted(m.transcript_ids@)
                &&& m.transcript_ids@.to_multiset() == (a.transcript_ids@ + b.transcript_ids@).to_multiset()
                &&& m.end_time@ == later(a.end_time@, b.end_time@)
                &&& m.start_time@ == earlier(a.start_time@, b.start_time@)
                &&& !m.auto_generated
            },
    {
        if cluster_a_idx >= clusters.len() || cluster_b_idx >= clusters.len() {
            return Err(String::from_str("Invalid cluster index"));
        }
        if cluster_a_idx == cluster_b_idx {
            return Err(String::from_str("Cannot merge cluster with itself"));
        }
        let cluster_b = clusters.remove(cluster_b_idx);
        let ai = if cluster_b_idx < cluster_a_idx {
            cluster_a_idx - 1
        } else {
            cluster_a_idx
        };
        let ghost rest = clusters@;
        let mut cluster_a = clusters.remove(ai);
        let mut ids = copy_ids(&cluster_a.transcript_ids);
        let mut j: usize = 0;
        while j < cluster_b.transcript_ids.len()
            invariant
                j <= cluster_b.transcript_ids.len(),
                ids@ == cluster_a.transcript_ids@ + cluster_b.transcript_ids@.take(j as int),
            decreases cluster_b.transcript_ids.len() - j,
        {
            ids.push(cluster_b.transcript_ids[j]);
            proof {
                assert(cluster_a.transcript_ids@ + cluster_b.transcript_ids@.take(j + 1) =~= (
                cluster_a.transcript_ids@ + cluster_b.transcript_ids@.take(j as int)).push(
                    cluster_b.transcript_ids@[j as int],
                ));
            }
            j += 1;
        }
        proof {
            assert(cluster_b.transcript_ids@.take(cluster_b.transcript_ids@.len() as int)
                =~= cluster_b.transcript_ids@);
        }
        cluster_a.transcript_ids = sort_ids(&ids);
        if text_less(&chars_of(cluster_a.end_time.as_str()), &chars_of(cluster_b.end_time.as_str())) {
            cluster_a.end_time = cluster_b.end_time.clone();
        }
        if text_less(&chars_of(cluster_b.start_time.as_str()), &chars_of(cluster_a.start_time.as_str())) {
            cluster_a.start_time = cluster_b.start_time.clone();
        }
        cluster_a.auto_generated = false;
        clusters.insert(ai, cluster_a);
        proof {
            assert forall|j: int| 0 <= j < rest.len() && j != ai implies #[trigger] clusters@[j]
                == rest[j] by {
                if j < ai {
                } else {
                }
            }
        }
        Ok(())
    }
}

/// The name of a split-off cluster: the cluster's name (or nothing) and " (split)".
pub open spec fn split_name(name: Option<Seq<char>>) -> Seq<char> {
    let base = match name {
        Some(n) => n,
        None => Seq::empty(),
    };
    base + " (split)"@
}

impl ClusteringEngine {
    /// Split cluster `cluster_idx` before the transcript at `at_transcript_idx`;
    /// the second half becomes a new cluster (with a fresh random identifier)
    /// right after it.
    pub fn split_cluster(
        clusters: &mut Vec<TranscriptCluster>,
        cluster_idx: usize,
        at_transcript_idx: usize,
        transcripts: &Vec<TranscriptEntry>,
    ) -> (r: Result<(), String>)
        requires
            cluster_idx < old(clusters)@.len() ==> at_transcript_idx < transcripts@.len(),
        ensures
            exists|id: Seq<char>|
                uuid_v4_text(id) && split_outcome(
                    old(clusters)@,
                    final(clusters)@,
                    r,
                    cluster_idx as int,
                    at_transcript_idx as int,
                    transcripts@,
                    id,
                ),
    {
        let id = new_uuid_v4();
        let ghost gid = id@;
        let r = Self::split_cluster_with_id(clusters, cluster_idx, at_transcript_idx, transcripts, id);
        assert(uuid_v4_text(gid) && split_outcome(
            old(clusters)@,
            clusters@,
            r,
            cluster_idx as int,
            at_transcript_idx as int,
            transcripts@,
            gid,
        ));
        r
    }

    /// Split as `split_cluster` does, the new cluster getting `new_id`.
    pub fn split_cluster_with_id(
        clusters: &mut Vec<TranscriptCluster>,
        cluster_idx: usize,
        at_transcript_idx: usize,
        transcripts: &Vec<TranscriptEntry>,
        new_id: String,
    ) -> (r: Result<(), String>)
        requires
            cluster_idx < old(clusters)@.len() ==> at_transcript_idx < transcripts@.len(),
        ensures
            split_outcome(
                old(clusters)@,
                final(clusters)@,
                r,
                cluster_idx as int,
                at_transcript_idx as int,
                transcripts@,
                new_id@,
            ),
    {
        if cluster_idx >= clusters.len() {
            return Err(String::from_str("Invalid cluster index"));
        }
        let target = transcripts[at_transcript_idx].id;
        let split_pos = match position_of(&clusters[cluster_idx].transcript_ids, target) {
            Some(p) => p,
            None => {
                return Err(String::from_str("Transcript not in cluster"));
            },
        };
        if split_pos == 0 || split_pos >= clusters[cluster_idx].transcript_ids.len() {
            return Err(String::from_str("Cannot split at this position"));
        }
        let ghost before = clusters@;
        let mut cluster = clusters.remove(cluster_idx);
        let ghost orig = cluster;
        let new_ids = cluster.transcript_ids.split_off(split_pos);
        let first_new_idx = match find_transcript(transcripts, new_ids[0]) {
            Some(i) => i,
            None => 0,
        };
        let start_time = if first_new_idx < transcripts.len() {
            time_string(transcripts[first_new_idx].timestamp)
        } else {
            String::new()
        };
        let mut name: Vec<char> = Vec::new();
        match &cluster.name {
            Some(n) => extend_str(&mut name, n.as_str()),
            None => {},
        }
        extend_str(&mut name, " (split)");
        let new_cluster = TranscriptCluster {
            id: new_id,
            meeting_id: cluster.meeting_id.clone(),
            name: Some(string_of(&name)),
            transcript_ids: new_ids,
            start_time,
            end_time: cluster.end_time.clone(),
            confidence_pct: 70,
            auto_generated: false,
        };
        cluster.auto_generated = false;
        let last_id = cluster.transcript_ids[cluster.transcript_ids.len() - 1];
        match find_transcript(transcripts, last_id) {
            Some(i) => {
                cluster.end_time = time_string(transcripts[i].timestamp);
            },
            None => {},
        }
        clusters.insert(cluster_idx, cluster);
        clusters.insert(cluster_idx + 1, new_cluster);
        proof {
            assert(clusters@.len() == before.len() + 1);
        }
        Ok(())
    }
}

/// What a split leaves behind, for the new cluster identifier `id`.
pub open spec fn split_outcome(
    before: Seq<TranscriptCluster>,
    after: Seq<TranscriptCluster>,
    r: Result<(), String>,
    ci: int,
    ti: int,
    t: Seq<TranscriptEntry>,
    id: Seq<char>,
) -> bool {
    if ci >= before.len() {
        r matches Err(e) && e@ == "Invalid cluster index"@ && after == before
    } else {
        let c = before[ci];
        let ids = c.transcript_ids@;
        match first_pos(ids, t[ti].id) {
            None => r matches Err(e) && e@ == "Transcript not in cluster"@ && after == before,
            Some(p) => if p == 0 {
                r matches Err(e) && e@ == "Cannot split at this position"@ && after == before
            } else {
                let tail = ids.skip(p);
                let first_new = match first_with_id(t, tail[0]) {
                    Some(i) => i,
                    None => 0,
                };
                let left = after[ci];
                let right = after[ci + 1];
                &&& r is Ok
                &&& after.len() == before.len() + 1
                &&& forall|j: int| 0 <= j < ci ==> #[trigger] after[j] == before[j]
                &&& forall|j: int| ci < j < before.len() ==> #[trigger] after[j + 1] == before[j]
                &&& left.id == c.id
                &&& left.meeting_id == c.meeting_id
                &&& left.name == c.name
                &&& left.transcript_ids@ == ids.take(p)
                &&& left.start_time == c.start_time
                &&& left.end_time@ == match first_with_id(t, ids[p - 1]) {
                    Some(i) => time_text(t[i].timestamp),
                    None => c.end_time@,
                }
                &&& left.confidence_pct == c.confidence_pct
                &&& !left.auto_generated
                &&& right.id@ == id
                &&& right.meeting_id@ == c.meeting_id@
                &&& opt_view(right.name) == Some(split_name(opt_view(c.name)))
                &&& right.transcript_ids@ == tail
                &&& right.start_time@ == time_at(t, first_new)
                &&& right.end_time@ == c.end_time@
                &&& right.confidence_pct == 70
                &&& !right.auto_generated
            },
        }
    }
}

proof fn lemma_first_pos_range(s: Seq<i64>, x: i64)
    ensures
        first_pos(s, x) matches Some(p) ==> 0 <= p < s.len(),
    decreases s.len(),
{
    if s.len() > 0 {
        lemma_first_pos_range(s.drop_last(), x);
    }
}

/// A split keeps the cluster's transcripts: the first part followed by the
/// new cluster's is the cluster's list, and the clusters grow by one.
pub proof fn lemma_split_keeps_transcripts(
    before: Seq<TranscriptCluster>,
    after: Seq<TranscriptCluster>,
    ci: int,
    ti: int,
    t: Seq<TranscriptEntry>,
    id: Seq<char>,
)
    requires
        0 <= ci,
        split_outcome(before, after, Ok(()), ci, ti, t, id),
    ensures
        ci < before.len(),
        after.len() == before.len() + 1,
        after[ci].transcript_ids@ + after[ci + 1].transcript_ids@ == before[ci].transcript_ids@,
{
    let ids = before[ci].transcript_ids@;
    lemma_first_pos_range(ids, t[ti].id);
    let p = first_pos(ids, t[ti].id).unwrap();
    assert(ids.take(p) + ids.skip(p) =~= ids);
}

/// Splitting a cluster and merging the two parts back gives the cluster's
/// transcripts again (as a multiset; the merge sorts them).
pub proof fn lemma_split_then_merge_keeps_transcripts(
    before: Seq<TranscriptCluster>,
    after: Seq<TranscriptCluster>,
    ci: int,
    ti: int,
    t: Seq<TranscriptEntry>,
    id: Seq<char>,
    merged: Seq<i64>,
)
    requires
        0 <= ci,
        split_outcome(before, after, Ok(()), ci, ti, t, id),
        merged.to_multiset() == (after[ci].transcript_ids@ + after[ci + 1].transcript_ids@).to_multiset(),
    ensures
        merged.to_multiset() == before[ci].transcript_ids@.to_multiset(),
{
    lemma_split_keeps_transcripts(before, after, ci, ti, t, id);
}

/// Jaccard similarity of the lowercase word sets of two texts; two texts
/// without words are fully similar.
pub open spec fn text_similarity_of(a: Seq<char>, b: Seq<char>) -> Similarity {
    let wa = words(lowercase(a));
    let wb = words(lowercase(b));
    if word_set(wa).len() == 0 && word_set(wb).len() == 0 {
        Similarity { shared: 1, total: 1 }
    } else {
        crate::wordset::jaccard(wa, wb)
    }
}

impl ClusteringEngine {
    /// Text similarity by the Jaccard index of lowercase word sets, as a ratio.
    pub fn text_similarity(text_a: &str, text_b: &str) -> (r: Similarity)
        ensures
            r == text_similarity_of(text_a@, text_b@),
            r.shared <= r.total,
            r.total > 0,
    {
        let la = to_lowercase_str(text_a);
        let lb = to_lowercase_str(text_b);
        let wa = split_words(&chars_of(la.as_str()));
        let wb = split_words(&chars_of(lb.as_str()));
        let sim = jaccard_words(&wa, &wb);
        if sim.total == 0 {
            Similarity { shared: 1, total: 1 }
        } else {
            sim
        }
    }
}

/// A copy of an index list.
pub fn copy_indices(v: &Vec<usize>) -> (r: Vec<usize>)
    ensures
        r@ == v@,
{
    let mut r: Vec<usize> = Vec::new();
    let mut i: usize = 0;
    while i < v.len()
        invariant
            i <= v.len(),
            r@ == v@.take(i as int),
        decreases v.len() - i,
    {
        r.push(v[i]);
        proof {
            assert(v@.take(i + 1) =~= v@.take(i as int).push(v@[i as int]));
        }
        i += 1;
    }
    proof {
        assert(v@.take(v@.len() as int) =~= v@);
    }
    r
}

} // verus!
