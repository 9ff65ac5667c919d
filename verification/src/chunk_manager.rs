//! Video storage bookkeeping: retention decisions, ordering of meetings by
//! age, chunk numbering and readable sizes. Walking and deleting directories
//! is left to the caller. Times are milliseconds since the Unix epoch.
use vstd::prelude::*;
use crate::sizes::{as_double, double_of, one_decimal, one_decimal_chars, GB, KB, MB};
use crate::text::{chars_of, dec_nat, dec_u64, extend_chars, extend_str, string_of};

verus! {

/// How long recordings are kept and how much disk they may use.
#[derive(Debug, Clone)]
pub struct RetentionPolicy {
    /// Days a meeting's recordings are kept.
    pub video_retention_days: u32,
    /// Days a meeting's extracted frames are kept.
    pub frames_retention_days: u32,
    /// Disk budget, in bytes.
    pub max_disk_bytes: u64,
    /// Whether the oldest meetings are deleted when over budget.
    pub enable_lru_eviction: bool,
}

impl Default for RetentionPolicy {
    fn default() -> (r: Self)
        ensures
            r.video_retention_days == 7,
            r.frames_retention_days == 1,
            r.max_disk_bytes == 50 * GB,
            r.enable_lru_eviction,
    {
        RetentionPolicy {
            video_retention_days: 7,
            frames_retention_days: 1,
            max_disk_bytes: 50 * GB,
            enable_lru_eviction: true,
        }
    }
}

/// Storage used by one meeting.
#[derive(Debug, Clone)]
pub struct MeetingStorage {
    pub meeting_id: String,
    pub created_at_ms: i64,
    pub video_bytes: u64,
    pub frames_bytes: u64,
    pub total_bytes: u64,
    pub chunk_count: u32,
    pub path: String,
}

/// Progress of evicting the oldest meetings: bytes to free, bytes freed
/// and meetings deleted so far.
#[derive(Debug, Clone, Copy, PartialEq, Eq, Structural)]
pub struct Eviction {
    pub target: u64,
    pub freed: u64,
    pub deleted: u32,
}

impl Eviction {
    /// Whether another meeting is to be deleted: not yet enough freed.
    pub fn needs_more(&self) -> (r: bool)
        ensures
            r == (self.freed < self.target),
    {
        self.freed < self.target
    }

    /// Records the attempt to delete one meeting: a deletion that freed
    /// `bytes` counts the meeting and its bytes; a failed one changes
    /// nothing.
    pub fn record_deletion(&mut self, freed_bytes: Option<u64>)
        requires
            old(self).deleted < u32::MAX,
            freed_bytes matches Some(b) ==> old(self).freed + b <= u64::MAX,
        ensures
            *final(self) == match freed_bytes {
                Some(b) => Eviction {
                    freed: (old(self).freed + b) as u64,
                    deleted: (old(self).deleted + 1) as u32,
                    ..*old(self)
                },
                None => *old(self),
            },
    {
        if let Some(b) = freed_bytes {
            self.freed = self.freed + b;
            self.deleted = self.deleted + 1;
        }
    }
}

/// What retention does with one meeting.
#[derive(Debug, Clone, Copy, PartialEq, Eq, Structural)]
pub enum RetentionAction {
    /// Delete the meeting's whole directory.
    DeleteMeeting,
    /// Delete its extracted frames, keep the recording.
    DeleteFrames,
    Keep,
}

/// Milliseconds in a day.
pub const DAY_MS: i64 = 86400000;

/// The retention decision for a meeting created at `created_ms`, at `now_ms`.
pub open spec fn retention_of(p: RetentionPolicy, created_ms: int, now_ms: int) -> RetentionAction {
    if created_ms < now_ms - p.video_retention_days * DAY_MS {
        RetentionAction::DeleteMeeting
    } else if created_ms < now_ms - p.frames_retention_days * DAY_MS {
        RetentionAction::DeleteFrames
    } else {
        RetentionAction::Keep
    }
}

/// Byte count as storage reports show it (`1.5 GB`, `512 B`).
pub open spec fn storage_size_label(bytes: nat) -> Seq<char> {
    if bytes >= GB {
        one_decimal(as_double(bytes), GB as nat) + " GB"@
    } else if bytes >= MB {
        one_decimal(bytes, MB as nat) + " MB"@
    } else if bytes >= KB {
        one_decimal(bytes, KB as nat) + " KB"@
    } else {
        dec_nat(bytes) + " B"@
    }
}

/// Bytes of one character in UTF-8.
pub open spec fn char_utf8_width(c: char) -> nat {
    let n = c as u32;
    if n < 0x80 {
        1
    } else if n < 0x800 {
        2
    } else if n < 0x10000 {
        3
    } else {
        4
    }
}

/// Length of a character sequence in UTF-8 bytes.
pub open spec fn utf8_len(s: Seq<char>) -> nat
    decreases s.len(),
{
    if s.len() == 0 {
        0
    } else {
        utf8_len(s.drop_last()) + char_utf8_width(s.last())
    }
}

/// UTF-8 length of a string, saturating at `usize::MAX`.
pub fn utf8_length(s: &str) -> (r: usize)
    ensures
        r == if utf8_len(s@) <= usize::MAX { utf8_len(s@) } else { usize::MAX as nat },
{
    let cs = chars_of(s);
    let mut n: usize = 0;
    let mut i: usize = 0;
    while i < cs.len()
        invariant
            i <= cs@.len(),
            n == if utf8_len(cs@.take(i as int)) <= usize::MAX {
                utf8_len(cs@.take(i as int))
            } else {
                usize::MAX as nat
            },
        decreases cs.len() - i,
    {
        proof {
            assert(cs@.take(i + 1).drop_last() =~= cs@.take(i as int));
        }
        let c = cs[i] as u32;
        let w: usize = if c < 0x80 {
            1
        } else if c < 0x800 {
            2
        } else if c < 0x10000 {
            3
        } else {
            4
        };
        n = if n > usize::MAX - w { usize::MAX } else { n + w };
        i += 1;
    }
    proof {
        assert(cs@.take(cs@.len() as int) =~= cs@);
    }
    n
}

/// A meeting directory is named by a 36-byte identifier.
pub fn is_meeting_dir_name(name: &str) -> (r: bool)
    ensures
        r == (utf8_len(name@) == 36),
{
    utf8_length(name) == 36
}

/// Decimal value of a digit string.
pub open spec fn digits_value(s: Seq<char>) -> nat
    decreases s.len(),
{
    if s.len() == 0 {
        0
    } else {
        digits_value(s.drop_last()) * 10 + ((s.last() as u32) - ('0' as u32)) as nat
    }
}

/// All characters are ASCII digits.
pub open spec fn all_digits(s: Seq<char>) -> bool {
    forall|i: int| 0 <= i < s.len() ==> '0' <= #[trigger] s[i] <= '9'
}

/// What parsing a `u32` accepts: an optional `+`, then at least one ASCII
/// digit, with a value that fits.
pub open spec fn parse_u32(s: Seq<char>) -> Option<u32> {
    let d = if s.len() > 0 && s[0] == '+' { s.skip(1) } else { s };
    if d.len() > 0 && all_digits(d) && digits_value(d) <= u32::MAX {
        Some(digits_value(d) as u32)
    } else {
        None
    }
}

/// The chunk number in a chunk file's stem (`chunk_<n>`); 0 where the stem
/// has another form.
pub open spec fn chunk_number_of(stem: Seq<char>) -> u32 {
    let pre = "chunk_"@;
    if stem.len() >= pre.len() && stem.take(pre.len() as int) == pre {
        match parse_u32(stem.skip(pre.len() as int)) {
            Some(n) => n,
            None => 0,
        }
    } else {
        0
    }
}

/// Parses an unsigned decimal as `u32` parsing does.
pub fn parse_u32_chars(s: &Vec<char>) -> (r: Option<u32>)
    ensures
        r == parse_u32(s@),
{
    let start: usize = if s.len() > 0 && s[0] == '+' { 1 } else { 0 };
    let ghost d = if s@.len() > 0 && s@[0] == '+' { s@.skip(1) } else { s@ };
    assert(d =~= s@.skip(start as int));
    if start >= s.len() {
        return None;
    }
    let mut v: u64 = 0;
    let mut i: usize = start;
    while i < s.len()
        invariant
            start <= i <= s@.len(),
            d == s@.skip(start as int),
            d == (if s@.len() > 0 && s@[0] == '+' { s@.skip(1) } else { s@ }),
            all_digits(s@.subrange(start as int, i as int)),
            v == digits_value(s@.subrange(start as int, i as int)),
            v <= u32::MAX,
        decreases s.len() - i,
    {
        let c = s[i];
        proof {
            assert(s@.subrange(start as int, i + 1).drop_last() =~= s@.subrange(
                start as int,
                i as int,
            ));
        }
        if c < '0' || c > '9' {
            assert(s@.subrange(start as int, s@.len() as int) =~= d);
            assert(d[i - start] == c);
            assert(!('0' <= d[i - start] <= '9'));
            return None;
        }
        let nv: u64 = v * 10 + (c as u64 - '0' as u64);
        assert(nv == digits_value(s@.subrange(start as int, i + 1)));
        if nv > u32::MAX as u64 {
            proof {
                let k = i + 1;
                assert(s@.subrange(start as int, i + 1) =~= d.take(k - start));
                lemma_prefix_value_bound(d, k - start);
            }
            return None;
        }
        v = nv;
        i += 1;
    }
    assert(s@.subrange(start as int, s@.len() as int) =~= d);
    Some(v as u32)
}

/// A digit string's value is at least that of each of its prefixes.
pub(crate) proof fn lemma_prefix_value_bound(d: Seq<char>, k: int)
    requires
        0 < k <= d.len(),
    ensures
        all_digits(d) ==> digits_value(d) >= digits_value(d.take(k)),
    decreases d.len() - k,
{
    if k < d.len() {
        lemma_prefix_value_bound(d, k + 1);
        assert(d.take(k + 1).drop_last() =~= d.take(k));
        if all_digits(d) {
            assert(all_digits(d.take(k + 1)));
        }
    } else {
        assert(d.take(k) =~= d);
    }
}

/// The chunk number of a chunk file's stem.
pub fn chunk_number(stem: &str) -> (r: u32)
    ensures
        r == chunk_number_of(stem@),
{
    let cs = chars_of(stem);
    let pre = chars_of("chunk_");
    if cs.len() < pre.len() {
        return 0;
    }
    let mut i: usize = 0;
    while i < pre.len()
        invariant
            i <= pre@.len() <= cs@.len(),
            cs@ == stem@,
            pre@ == "chunk_"@,
            forall|k: int| 0 <= k < i ==> cs@[k] == pre@[k],
        decreases pre.len() - i,
    {
        if cs[i] != pre[i] {
            assert(cs@.take(pre@.len() as int)[i as int] != pre@[i as int]);
            return 0;
        }
        i += 1;
    }
    assert(cs@.take(pre@.len() as int) =~= pre@);
    let mut rest: Vec<char> = Vec::new();
    let mut j: usize = pre.len();
    while j < cs.len()
        invariant
            pre@.len() <= j <= cs@.len(),
            rest@ == cs@.subrange(pre@.len() as int, j as int),
        decreases cs.len() - j,
    {
        rest.push(cs[j]);
        proof {
            assert(cs@.subrange(pre@.len() as int, j + 1) =~= cs@.subrange(
                pre@.len() as int,
                j as int,
            ).push(cs@[j as int]));
        }
        j += 1;
    }
    assert(rest@ =~= cs@.skip(pre@.len() as int));
    match parse_u32_chars(&rest) {
        Some(n) => n,
        None => 0,
    }
}

/// Where recordings are kept and how long.
pub struct ChunkManager {
    pub storage_dir: String,
    pub policy: RetentionPolicy,
}

impl ChunkManager {
    pub fn new(storage_dir: String, policy: RetentionPolicy) -> (r: Self)
        ensures
            r.storage_dir == storage_dir,
            r.policy == policy,
    {
        ChunkManager { storage_dir, policy }
    }

    /// The retention decision for a meeting created at `created_ms`.
    pub fn retention_action(&self, created_ms: i64, now_ms: i64) -> (r: RetentionAction)
        ensures
            r == retention_of(self.policy, created_ms as int, now_ms as int),
    {
        let video_cutoff: i128 = now_ms as i128 - self.policy.video_retention_days as i128
            * DAY_MS as i128;
        let frames_cutoff: i128 = now_ms as i128 - self.policy.frames_retention_days as i128
            * DAY_MS as i128;
        if (created_ms as i128) < video_cutoff {
            RetentionAction::DeleteMeeting
        } else if (created_ms as i128) < frames_cutoff {
            RetentionAction::DeleteFrames
        } else {
            RetentionAction::Keep
        }
    }

    /// Starts evicting the oldest meetings when storage is over budget:
    /// nothing happens when eviction is off or usage (the caller's
    /// `under_budget` test) stays under the budget; else the bytes above the
    /// budget are to be freed.
    pub fn start_eviction(&self, total_bytes: u64, under_budget: bool) -> (r: Option<Eviction>)
        ensures
            r is None <==> (!self.policy.enable_lru_eviction || under_budget),
            r matches Some(e) ==> e.target == (if total_bytes > self.policy.max_disk_bytes {
                total_bytes - self.policy.max_disk_bytes
            } else {
                0
            }) && e.freed == 0 && e.deleted == 0,
    {
        if !self.policy.enable_lru_eviction || under_budget {
            return None;
        }
        Some(Eviction { target: total_bytes.saturating_sub(self.policy.max_disk_bytes), freed: 0, deleted: 0 })
    }

    /// Formats a byte count for storage reports.
    pub fn format_size(bytes: u64) -> (r: String)
        ensures
            r@ == storage_size_label(bytes as nat),
    {
        let mut out: Vec<char> = Vec::new();
        if bytes >= GB {
            let d = one_decimal_chars(double_of(bytes), GB);
            extend_chars(&mut out, &d);
            extend_str(&mut out, " GB");
        } else if bytes >= MB {
            let d = one_decimal_chars(bytes as u128, MB);
            extend_chars(&mut out, &d);
            extend_str(&mut out, " MB");
        } else if bytes >= KB {
            let d = one_decimal_chars(bytes as u128, KB);
            extend_chars(&mut out, &d);
            extend_str(&mut out, " KB");
        } else {
            let d = dec_u64(bytes);
            extend_chars(&mut out, &d);
            extend_str(&mut out, " B");
        }
        string_of(&out)
    }
}

/// `x` comes no later than `key` in the chosen order.
pub open spec fn age_le(x: i64, key: i64, newest_first: bool) -> bool {
    if newest_first {
        x >= key
    } else {
        x <= key
    }
}

fn goes_before(x: i64, key: i64, newest_first: bool) -> (r: bool)
    ensures
        r == age_le(x, key, newest_first),
{
    if newest_first {
        x >= key
    } else {
        x <= key
    }
}

/// Number of leading meetings created no later than `key` (resp. no earlier
/// when `newest_first`).
pub open spec fn age_prefix(s: Seq<MeetingStorage>, key: i64, newest_first: bool) -> nat
    decreases s.len(),
{
    if s.len() == 0 {
        0
    } else if age_le(s[0].created_at_ms, key, newest_first) {
        1 + age_prefix(s.drop_first(), key, newest_first)
    } else {
        0
    }
}

/// Meetings ordered by creation time (oldest first, or newest first),
/// meetings created at the same time keeping their order.
pub open spec fn by_age(s: Seq<MeetingStorage>, newest_first: bool) -> Seq<MeetingStorage>
    decreases s.len(),
{
    if s.len() == 0 {
        s
    } else {
        let t = by_age(s.drop_last(), newest_first);
        t.insert(age_prefix(t, s.last().created_at_ms, newest_first) as int, s.last())
    }
}

proof fn lemma_age_prefix_stop(s: Seq<MeetingStorage>, key: i64, nf: bool, p: int)
    requires
        0 <= p <= s.len(),
        forall|k: int| 0 <= k < p ==> age_le(s[k].created_at_ms, key, nf),
        p == s.len() || !age_le(s[p].created_at_ms, key, nf),
    ensures
        age_prefix(s, key, nf) == p,
    decreases p,
{
    if p > 0 {
        lemma_age_prefix_stop(s.drop_first(), key, nf, p - 1);
    }
}

/// Meetings in the chosen order of creation time.
pub open spec fn age_sorted(s: Seq<MeetingStorage>, newest_first: bool) -> bool {
    forall|i: int, j: int|
        0 <= i < j < s.len() ==> age_le(s[i].created_at_ms, s[j].created_at_ms, newest_first)
}

proof fn lemma_age_prefix_split(s: Seq<MeetingStorage>, key: i64, nf: bool)
    requires
        age_sorted(s, nf),
    ensures
        age_prefix(s, key, nf) <= s.len(),
        forall|k: int| 0 <= k < age_prefix(s, key, nf) ==> age_le(s[k].created_at_ms, key, nf),
        forall|k: int|
            age_prefix(s, key, nf) <= k < s.len() ==> !age_le(s[k].created_at_ms, key, nf),
    decreases s.len(),
{
    if s.len() > 0 {
        let t = s.drop_first();
        assert forall|i: int, j: int| 0 <= i < j < t.len() implies age_le(
            t[i].created_at_ms,
            t[j].created_at_ms,
            nf,
        ) by {
            assert(t[i] == s[i + 1] && t[j] == s[j + 1]);
        }
        lemma_age_prefix_split(t, key, nf);
        if age_le(s[0].created_at_ms, key, nf) {
            assert forall|k: int| 0 <= k < age_prefix(s, key, nf) implies age_le(
                s[k].created_at_ms,
                key,
                nf,
            ) by {
                if k > 0 {
                    assert(s[k] == t[k - 1]);
                }
            }
            assert forall|k: int| age_prefix(s, key, nf) <= k < s.len() implies !age_le(
                s[k].created_at_ms,
                key,
                nf,
            ) by {
                assert(s[k] == t[k - 1]);
            }
        } else {
            assert forall|k: int| 0 <= k < s.len() implies !age_le(s[k].created_at_ms, key, nf) by {
                if k > 0 {
                    assert(age_le(s[0].created_at_ms, s[k].created_at_ms, nf));
                }
            }
        }
    }
}

proof fn lemma_insert_meeting_multiset(s: Seq<MeetingStorage>, p: int, x: MeetingStorage)
    requires
        0 <= p <= s.len(),
    ensures
        s.insert(p, x).to_multiset() == s.to_multiset().insert(x),
{
    broadcast use vstd::seq_lib::group_to_multiset_ensures;

    let t = s.insert(p, x);
    assert(t.remove(p) =~= s);
    assert(t[p] == x);
    assert(t.contains(x));
    assert(t.to_multiset() =~= t.to_multiset().remove(x).insert(x));
}

/// Ordering meetings by age gives them in the chosen order of creation
/// time, and the same meetings (each as often).
pub proof fn lemma_by_age_sorted_permutation(s: Seq<MeetingStorage>, newest_first: bool)
    ensures
        age_sorted(by_age(s, newest_first), newest_first),
        by_age(s, newest_first).to_multiset() == s.to_multiset(),
    decreases s.len(),
{
    broadcast use vstd::seq_lib::group_to_multiset_ensures;

    if s.len() > 0 {
        let nf = newest_first;
        let t = by_age(s.drop_last(), nf);
        lemma_by_age_sorted_permutation(s.drop_last(), nf);
        let x = s.last();
        let key = x.created_at_ms;
        lemma_age_prefix_split(t, key, nf);
        let p = age_prefix(t, key, nf) as int;
        let u = t.insert(p, x);
        assert forall|i: int, j: int| 0 <= i < j < u.len() implies age_le(
            u[i].created_at_ms,
            u[j].created_at_ms,
            nf,
        ) by {
            if j < p {
            } else if j == p {
                assert(u[i] == t[i]);
            } else if i < p {
                assert(u[j] == t[j - 1]);
                assert(age_le(t[i].created_at_ms, key, nf));
            } else if i == p {
                assert(u[j] == t[j - 1]);
            } else {
                assert(u[i] == t[i - 1] && u[j] == t[j - 1]);
            }
        }
        lemma_insert_meeting_multiset(t, p, x);
        assert(s.drop_last().push(x) =~= s);
        s.drop_last().to_multiset_ensures();
    }
}

/// Orders meetings by creation time, stably.
pub fn sort_meetings_by_age(meetings: Vec<MeetingStorage>, newest_first: bool) -> (r: Vec<
    MeetingStorage,
>)
    ensures
        r@ == by_age(meetings@, newest_first),
{
    let ghost orig = meetings@;
    let mut src = meetings;
    let mut out: Vec<MeetingStorage> = Vec::new();
    let n = src.len();
    let mut i: usize = 0;
    while i < n
        invariant
            i <= n == orig.len(),
            src@ == orig.skip(i as int),
            out@ == by_age(orig.take(i as int), newest_first),
        decreases n - i,
    {
        let m = src.remove(0);
        assert(m == orig[i as int]);
        assert(src@ =~= orig.skip(i + 1));
        let key = m.created_at_ms;
        let mut p: usize = 0;
        while p < out.len() && goes_before(out[p].created_at_ms, key, newest_first)
            invariant
                p <= out@.len(),
                forall|k: int| 0 <= k < p ==> age_le(out@[k].created_at_ms, key, newest_first),
            decreases out.len() - p,
        {
            p += 1;
        }
        proof {
            lemma_age_prefix_stop(out@, key, newest_first, p as int);
            assert(orig.take(i + 1).drop_last() =~= orig.take(i as int));
            assert(orig.take(i + 1).last() == m);
        }
        out.insert(p, m);
        i += 1;
    }
    proof {
        assert(orig.take(n as int) =~= orig);
    }
    out
}

} // verus!
