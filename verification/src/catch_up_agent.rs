//! Catch-up capsules for someone joining a meeting late: the transcript
//! text and the prompt sent to the model, the JSON cut out of its reply, and
//! the capsule built from the parsed fields. Parsing the JSON and calling
//! the model are left to the caller. Scores are kept in hundredths.
use vstd::prelude::*;
use crate::ai_client::AIClient;
use crate::episode_builder::opt_view;
use crate::text::{
    chars_of, contains_seq, dec_int, dec_i64, extend_chars, extend_str, find, find_chars,
    is_whitespace_char, is_ws, join, join_chars, lemma_find_from_range, lemma_rfind_range, lemma_views_push, rfind,
    rfind_chars, string_of, sub_chars, views,
};

verus! {

/// A pointer to a moment of the transcript.
#[derive(Debug, Clone)]
pub struct TranscriptCitation {
    pub segment_id: String,
    pub timestamp_ms: i64,
    pub speaker: Option<String>,
    pub text_excerpt: String,
}

/// One thing the latecomer missed; `importance_pct` from 0 to 100.
#[derive(Debug, Clone)]
pub struct InsightItem {
    pub text: String,
    pub importance_pct: u32,
    pub citation: Option<TranscriptCitation>,
}

/// A decision taken in the meeting.
#[derive(Debug, Clone)]
pub struct Decision {
    pub text: String,
    pub made_by: Option<String>,
    pub citation: Option<TranscriptCitation>,
}

/// Kind of risk.
#[derive(Debug, Clone, Copy, PartialEq, Eq, Structural)]
pub enum RiskType {
    Tension,
    Disagreement,
    SensitiveTopic,
    Deadline,
    Blocker,
    Unknown,
}

/// A risk noticed in the meeting; `severity_pct` from 0 to 100.
#[derive(Debug, Clone)]
pub struct RiskSignal {
    pub text: String,
    pub severity_pct: u32,
    pub signal_type: RiskType,
    pub citation: Option<TranscriptCitation>,
}

/// The catch-up capsule; `confidence_pct` from 0 to 100.
#[derive(Debug, Clone)]
pub struct CatchUpCapsule {
    pub what_missed: Vec<InsightItem>,
    pub current_topic: String,
    pub decisions: Vec<Decision>,
    pub open_threads: Vec<String>,
    pub next_moves: Vec<String>,
    pub risks: Vec<RiskSignal>,
    pub questions_to_ask: Vec<String>,
    pub ten_second_version: String,
    pub sixty_second_version: String,
    pub confidence_pct: u32,
    pub citations: Vec<TranscriptCitation>,
    pub generated_at_minute: i32,
}

/// A capsule with the given summaries and nothing else.
pub open spec fn bare_capsule(c: CatchUpCapsule, ten: Seq<char>, sixty: Seq<char>) -> bool {
    &&& c.what_missed@.len() == 0
    &&& c.current_topic@ == "Unknown"@
    &&& c.decisions@.len() == 0
    &&& c.open_threads@.len() == 0
    &&& c.next_moves@.len() == 0
    &&& c.risks@.len() == 0
    &&& c.questions_to_ask@.len() == 0
    &&& c.ten_second_version@ == ten
    &&& c.sixty_second_version@ == sixty
    &&& c.confidence_pct == 0
    &&& c.citations@.len() == 0
    &&& c.generated_at_minute == 0
}

fn bare(ten: &str, sixty: &str) -> (r: CatchUpCapsule)
    ensures
        bare_capsule(r, ten@, sixty@),
{
    CatchUpCapsule {
        what_missed: Vec::new(),
        current_topic: String::from_str("Unknown"),
        decisions: Vec::new(),
        open_threads: Vec::new(),
        next_moves: Vec::new(),
        risks: Vec::new(),
        questions_to_ask: Vec::new(),
        ten_second_version: String::from_str(ten),
        sixty_second_version: String::from_str(sixty),
        confidence_pct: 0,
        citations: Vec::new(),
        generated_at_minute: 0,
    }
}

impl Default for CatchUpCapsule {
    fn default() -> (r: Self)
        ensures
            bare_capsule(
                r,
                "Meeting in progress. No summary available yet."@,
                "Meeting in progress. Transcript data insufficient for summary."@,
            ),
    {
        bare(
            "Meeting in progress. No summary available yet.",
            "Meeting in progress. Transcript data insufficient for summary.",
        )
    }
}

/// The capsule given while no transcript has been captured.
pub fn no_transcript_capsule() -> (r: CatchUpCapsule)
    ensures
        bare_capsule(
            r,
            "No transcript data available yet."@,
            "Meeting is in progress but no transcript has been captured. Start live capture to enable catch-up summaries."@,
        ),
{
    bare(
        "No transcript data available yet.",
        "Meeting is in progress but no transcript has been captured. Start live capture to enable catch-up summaries.",
    )
}

/// What is known of the meeting.
#[derive(Debug, Clone)]
pub struct MeetingMetadata {
    pub title: String,
    pub description: Option<String>,
    pub attendees: Vec<String>,
    pub scheduled_duration_min: Option<i32>,
}

/// One transcript segment; `timestamp_ms` counts from the meeting's start.
#[derive(Debug, Clone)]
pub struct TranscriptSegment {
    pub id: String,
    pub timestamp_ms: i64,
    pub speaker: Option<String>,
    pub text: String,
}

/// Earlier interaction with the same people.
#[derive(Debug, Clone)]
pub struct HistorySnippet {
    pub date: String,
    pub context: String,
    pub summary: String,
}

/// The fields read from the model's JSON reply (each may be missing).
#[derive(Debug, Clone)]
pub struct RawCapsule {
    pub what_missed: Option<Vec<String>>,
    pub current_topic: Option<String>,
    pub decisions: Option<Vec<String>>,
    pub open_threads: Option<Vec<String>>,
    pub next_moves: Option<Vec<String>>,
    pub risks: Option<Vec<String>>,
    pub questions_to_ask: Option<Vec<String>>,
    pub ten_second_version: Option<String>,
    pub sixty_second_version: Option<String>,
    pub confidence_pct: Option<u32>,
}

/// Integer division truncated toward zero.
pub open spec fn tdiv(a: int, b: int) -> int {
    if a >= 0 {
        a / b
    } else {
        -((-a) / b)
    }
}

/// Remainder of `tdiv` (its sign is that of `a`).
pub open spec fn trem(a: int, b: int) -> int {
    a - b * tdiv(a, b)
}

/// A number written with at least two digits (zero-padded; a negative
/// number keeps its sign in front).
pub open spec fn two_digits(v: int) -> Seq<char> {
    if 0 <= v < 10 {
        seq!['0'] + dec_int(v)
    } else {
        dec_int(v)
    }
}

/// A transcript time as `MM:SS` (minutes within the hour).
pub open spec fn clock_text(ms: int) -> Seq<char> {
    let secs = tdiv(ms, 1000);
    two_digits(trem(tdiv(secs, 60), 60)) + ":"@ + two_digits(trem(secs, 60))
}

fn tdiv_i64(a: i64, b: i64) -> (r: i64)
    requires
        b > 0,
    ensures
        r == tdiv(a as int, b as int),
{
    let x: i128 = a as i128;
    let y: i128 = b as i128;
    let q: i128 = if x >= 0 {
        x / y
    } else {
        -((-x) / y)
    };
    assert(q == tdiv(x as int, y as int));
    assert(-9223372036854775808 <= tdiv(x as int, y as int) <= 9223372036854775807) by (nonlinear_arith)
        requires
            y > 0,
            -9223372036854775808 <= x <= 9223372036854775807,
    ;
    q as i64
}

fn two_digit_chars(v: i64) -> (r: Vec<char>)
    ensures
        r@ == two_digits(v as int),
{
    let d = dec_i64(v);
    if 0 <= v && v < 10 {
        let mut out: Vec<char> = Vec::new();
        out.push('0');
        extend_chars(&mut out, &d);
        assert(out@ =~= seq!['0'] + dec_int(v as int));
        out
    } else {
        d
    }
}

/// Writes a transcript time as `MM:SS`.
pub fn format_timestamp(ms: i64) -> (r: String)
    ensures
        r@ == clock_text(ms as int),
{
    let secs = tdiv_i64(ms, 1000);
    let mins = tdiv_i64(secs, 60);
    let m = mins - 60 * tdiv_i64(mins, 60);
    let s = secs - 60 * tdiv_i64(secs, 60);
    let mut out = two_digit_chars(m);
    extend_str(&mut out, ":");
    let sd = two_digit_chars(s);
    extend_chars(&mut out, &sd);
    string_of(&out)
}

/// One segment's line: `[MM:SS] speaker: text`, or `[MM:SS] text` without
/// a speaker.
pub open spec fn segment_line(s: TranscriptSegment) -> Seq<char> {
    match s.speaker {
        Some(sp) => "["@ + clock_text(s.timestamp_ms as int) + "] "@ + sp@ + ": "@ + s.text@,
        None => "["@ + clock_text(s.timestamp_ms as int) + "] "@ + s.text@,
    }
}

/// The transcript as text: the segments' lines joined by newlines.
pub open spec fn transcript_text(segs: Seq<TranscriptSegment>) -> Seq<char> {
    join(segs.map_values(|s: TranscriptSegment| segment_line(s)), "\n"@)
}

/// The attendees as the prompt lists them.
pub open spec fn attendee_list(a: Seq<String>) -> Seq<char> {
    if a.len() == 0 {
        "Unknown"@
    } else {
        join(a.map_values(|s: String| s@), ", "@)
    }
}

/// The prompt asking for a capsule.
pub open spec fn catch_up_prompt(transcript: Seq<char>, m: MeetingMetadata, minutes: int) -> Seq<char> {
    "You are analyzing a meeting transcript. The user just joined "@ + dec_int(minutes) + " minutes late and needs to quickly understand what happened.\n\nMEETING: "@ + m.title@ + "\nATTENDEES: "@ + attendee_list(m.attendees@) + "\nTRANSCRIPT SO FAR:\n"@ + transcript + "\n\nGenerate a Catch-Up Capsule in this exact JSON format:\n{\n  \"what_missed\": [\"key point 1\", \"key point 2\", \"key point 3\"],\n  \"current_topic\": \"what is being discussed right now\",\n  \"decisions\": [\"decision 1 if any\"],\n  \"open_threads\": [\"unresolved question 1\", \"unresolved question 2\"],\n  \"next_moves\": [\"suggestion 1 for what to say/do\", \"suggestion 2\"],\n  \"risks\": [\"any tension or sensitive topics detected\"],\n  \"questions_to_ask\": [\"good question to ask based on discussion\"],\n  \"ten_second_version\": \"3-4 ultra-short bullet points for quick scan\",\n  \"sixty_second_version\": \"fuller summary paragraph\",\n  \"confidence\": 0.85\n}\n\nHARD RULES:\n- Be factual. Only cite what's actually in the transcript.\n- If uncertain, use \"Possibly:\" prefix or omit entirely.\n- No hallucination. If transcript is unclear, say so.\n- Keep ten_second_version to 3-4 bullet points max.\n- Make next_moves actionable and specific.\n\nReturn ONLY valid JSON, no other text."@
}

// ---------------------------------------------------------------------------
// Reading the reply
// ---------------------------------------------------------------------------

/// `s` without leading whitespace.
pub open spec fn trim_start(s: Seq<char>) -> Seq<char>
    decreases s.len(),
{
    if s.len() > 0 && is_ws(s[0]) {
        trim_start(s.drop_first())
    } else {
        s
    }
}

/// `s` without trailing whitespace.
pub open spec fn trim_end(s: Seq<char>) -> Seq<char>
    decreases s.len(),
{
    if s.len() > 0 && is_ws(s.last()) {
        trim_end(s.drop_last())
    } else {
        s
    }
}

/// `s` without leading and trailing whitespace (what `str::trim` gives).
pub open spec fn trim(s: Seq<char>) -> Seq<char> {
    trim_end(trim_start(s))
}

/// Trims whitespace at both ends.
pub fn trim_chars(s: &Vec<char>) -> (r: Vec<char>)
    ensures
        r@ == trim(s@),
{
    let mut a: usize = 0;
    assert(s@.skip(0) =~= s@);
    while a < s.len() && is_whitespace_char(s[a])
        invariant
            a <= s@.len(),
            trim_start(s@) == trim_start(s@.skip(a as int)),
        decreases s.len() - a,
    {
        assert(s@.skip(a as int).drop_first() =~= s@.skip(a + 1));
        a += 1;
    }
    let mut b: usize = s.len();
    while b > a && is_whitespace_char(s[b - 1])
        invariant
            a <= b <= s@.len(),
            trim_start(s@) == s@.subrange(a as int, s@.len() as int),
            trim(s@) == trim_end(s@.subrange(a as int, b as int)),
        decreases b,
    {
        assert(s@.subrange(a as int, b as int).drop_last() =~= s@.subrange(a as int, b - 1));
        b -= 1;
    }
    proof {
        assert(s@.skip(a as int) =~= s@.subrange(a as int, s@.len() as int));
    }
    sub_chars(s, a, b)
}

/// Where a fenced block's body ends: at the next fence, else at the end.
pub open spec fn fence_end(t: Seq<char>, start: int) -> int {
    match find(t.skip(start), "```"@) {
        Some(i) => start + i,
        None => t.len() as int,
    }
}

/// The JSON cut out of the model's reply: the body of a ```json fence, else
/// of a plain ``` fence (both trimmed), else everything from the first `{`
/// to the last `}`.
pub open spec fn json_of_reply(reply: Seq<char>) -> Result<Seq<char>, Seq<char>> {
    let t = trim(reply);
    match find(t, "```json"@) {
        Some(p) => Ok(trim(t.subrange(p + 7, fence_end(t, p + 7)))),
        None => match find(t, "```"@) {
            Some(p) => Ok(trim(t.subrange(p + 3, fence_end(t, p + 3)))),
            None => match (find(t, "{"@), rfind(t, "}"@)) {
                (Some(a), Some(b)) => Ok(t.subrange(a, b + 1)),
                _ => Err("No JSON found in response"@),
            },
        },
    }
}

/// A reply on which cutting the JSON out is defined: one without a fence
/// whose last `}` lies before its first `{` is left out.
pub open spec fn reply_cuttable(reply: Seq<char>) -> bool {
    let t = trim(reply);
    find(t, "```"@) is None ==> match (find(t, "{"@), rfind(t, "}"@)) {
        (Some(a), Some(b)) => a <= b + 1,
        _ => true,
    }
}

proof fn lemma_fence_json_is_fence(t: Seq<char>)
    ensures
        find(t, "```json"@) is Some ==> find(t, "```"@) is Some,
{
    if find(t, "```json"@) is Some {
        lemma_find_from_range(t, "```json"@, 0);
        let p = find(t, "```json"@).unwrap();
        reveal_strlit("```json");
        reveal_strlit("```");
        assert(t.subrange(p, p + 7) == "```json"@);
        assert(t.subrange(p, p + 3) =~= "```"@);
        lemma_find_some_if_occurs(t, "```"@, p);
    }
}

proof fn lemma_find_some_if_occurs(hay: Seq<char>, pat: Seq<char>, i: int)
    requires
        crate::text::occurs_at(hay, pat, i),
    ensures
        find(hay, pat) is Some,
{
    lemma_find_from_some(hay, pat, 0, i);
}

proof fn lemma_find_from_some(hay: Seq<char>, pat: Seq<char>, k: int, i: int)
    requires
        0 <= k <= i,
        crate::text::occurs_at(hay, pat, i),
    ensures
        crate::text::find_from(hay, pat, k) is Some,
    decreases i - k,
{
    if !crate::text::occurs_at(hay, pat, k) {
        lemma_find_from_some(hay, pat, k + 1, i);
    }
}

fn fence_body(t: &Vec<char>, start: usize) -> (r: Vec<char>)
    requires
        start <= t@.len(),
    ensures
        r@ == trim(t@.subrange(start as int, fence_end(t@, start as int))),
{
    let rest = sub_chars(t, start, t.len());
    assert(rest@ =~= t@.skip(start as int));
    let fence = chars_of("```");
    let end = match find_chars(&rest, &fence) {
        Some(i) => {
            proof {
                lemma_find_from_range(rest@, fence@, 0);
            }
            start + i
        },
        None => t.len(),
    };
    let body = sub_chars(t, start, end);
    trim_chars(&body)
}

/// Cuts the JSON out of the model's reply.
pub fn extract_json(response: &str) -> (r: Result<String, String>)
    requires
        reply_cuttable(response@),
    ensures
        match json_of_reply(response@) {
            Ok(j) => r matches Ok(s) && s@ == j,
            Err(e) => r matches Err(s) && s@ == e,
        },
{
    let cs = chars_of(response);
    let t = trim_chars(&cs);
    let tn = t.len();
    let fj = chars_of("```json");
    let f = chars_of("```");
    proof {
        lemma_fence_json_is_fence(t@);
    }
    match find_chars(&t, &fj) {
        Some(p) => {
            proof {
                lemma_find_from_range(t@, fj@, 0);
                reveal_strlit("```json");
            }
            let body = fence_body(&t, p + 7);
            return Ok(string_of(&body));
        },
        None => {},
    }
    match find_chars(&t, &f) {
        Some(p) => {
            proof {
                lemma_find_from_range(t@, f@, 0);
                reveal_strlit("```");
                assert(p + 3 <= tn);
            }
            let body = fence_body(&t, p + 3);
            return Ok(string_of(&body));
        },
        None => {},
    }
    let open = chars_of("{");
    let close = chars_of("}");
    match find_chars(&t, &open) {
        Some(a) => match rfind_chars(&t, &close) {
            Some(b) => {
                proof {
                    lemma_rfind_range(t@, close@, t@.len() - close@.len());
                    reveal_strlit("}");
                    assert(b + 1 <= tn);
                }
                let j = sub_chars(&t, a, b + 1);
                Ok(string_of(&j))
            },
            None => Err(String::from_str("No JSON found in response")),
        },
        None => Err(String::from_str("No JSON found in response")),
    }
}

// ---------------------------------------------------------------------------
// Building the capsule
// ---------------------------------------------------------------------------

/// Items made from texts, each with the given importance and no citation.
pub open spec fn insights_from(texts: Seq<String>, r: Seq<InsightItem>) -> bool {
    &&& r.len() == texts.len()
    &&& forall|i: int|
        0 <= i < r.len() ==> #[trigger] r[i].text == texts[i] && r[i].importance_pct == 80
            && r[i].citation is None
}

/// Decisions made from texts, with no author and no citation.
pub open spec fn decisions_from(texts: Seq<String>, r: Seq<Decision>) -> bool {
    &&& r.len() == texts.len()
    &&& forall|i: int|
        0 <= i < r.len() ==> #[trigger] r[i].text == texts[i] && r[i].made_by is None
            && r[i].citation is None
}

/// Risks made from texts: medium severity, unknown kind, no citation.
pub open spec fn risks_from(texts: Seq<String>, r: Seq<RiskSignal>) -> bool {
    &&& r.len() == texts.len()
    &&& forall|i: int|
        0 <= i < r.len() ==> #[trigger] r[i].text == texts[i] && r[i].severity_pct == 50
            && r[i].signal_type == RiskType::Unknown && r[i].citation is None
}

/// A missing list reads as empty.
pub open spec fn list_or_empty(v: Option<Vec<String>>) -> Seq<String> {
    match v {
        Some(l) => l@,
        None => Seq::empty(),
    }
}

fn unwrap_list(v: Option<Vec<String>>) -> (r: Vec<String>)
    ensures
        r@ == list_or_empty(v),
{
    match v {
        Some(l) => l,
        None => Vec::new(),
    }
}

fn text_or(v: Option<String>, default: &str) -> (r: String)
    ensures
        r@ == match v {
            Some(s) => s@,
            None => default@,
        },
{
    match v {
        Some(s) => s,
        None => String::from_str(default),
    }
}

fn to_insights(texts: Vec<String>) -> (r: Vec<InsightItem>)
    ensures
        insights_from(texts@, r@),
{
    let ghost orig = texts@;
    let mut src = texts;
    let mut out: Vec<InsightItem> = Vec::new();
    let n = src.len();
    let mut i: usize = 0;
    while i < n
        invariant
            i <= n == orig.len(),
            src@ == orig.skip(i as int),
            insights_from(orig.take(i as int), out@),
        decreases n - i,
    {
        let t = src.remove(0);
        assert(t == orig[i as int]);
        assert(src@ =~= orig.skip(i + 1));
        out.push(InsightItem { text: t, importance_pct: 80, citation: None });
        i += 1;
    }
    assert(orig.take(n as int) =~= orig);
    out
}

fn to_decisions(texts: Vec<String>) -> (r: Vec<Decision>)
    ensures
        decisions_from(texts@, r@),
{
    let ghost orig = texts@;
    let mut src = texts;
    let mut out: Vec<Decision> = Vec::new();
    let n = src.len();
    let mut i: usize = 0;
    while i < n
        invariant
            i <= n == orig.len(),
            src@ == orig.skip(i as int),
            decisions_from(orig.take(i as int), out@),
        decreases n - i,
    {
        let t = src.remove(0);
        assert(t == orig[i as int]);
        assert(src@ =~= orig.skip(i + 1));
        out.push(Decision { text: t, made_by: None, citation: None });
        proof {
            assert forall|k: int| 0 <= k < i + 1 implies #[trigger] out@[k].text == orig.take(
                i + 1,
            )[k] && out@[k].made_by is None && out@[k].citation is None by {
                if k < i {
                    assert(orig.take(i + 1)[k] == orig.take(i as int)[k]);
                }
            }
        }
        i += 1;
    }
    assert(orig.take(n as int) =~= orig);
    out
}

fn to_risks(texts: Vec<String>) -> (r: Vec<RiskSignal>)
    ensures
        risks_from(texts@, r@),
{
    let ghost orig = texts@;
    let mut src = texts;
    let mut out: Vec<RiskSignal> = Vec::new();
    let n = src.len();
    let mut i: usize = 0;
    while i < n
        invariant
            i <= n == orig.len(),
            src@ == orig.skip(i as int),
            risks_from(orig.take(i as int), out@),
        decreases n - i,
    {
        let t = src.remove(0);
        assert(t == orig[i as int]);
        assert(src@ =~= orig.skip(i + 1));
        let ghost prev = out@;
        out.push(
            RiskSignal { text: t, severity_pct: 50, signal_type: RiskType::Unknown, citation: None },
        );
        proof {
            assert forall|k: int| 0 <= k < i + 1 implies #[trigger] out@[k].text == orig.take(
                i + 1,
            )[k] && out@[k].severity_pct == 50 && out@[k].signal_type == RiskType::Unknown
                && out@[k].citation is None by {
                if k < i {
                    assert(out@[k] == prev[k]);
                    assert(prev[k].text == orig.take(i as int)[k]);
                    assert(orig.take(i + 1)[k] == orig.take(i as int)[k]);
                }
            }
        }
        i += 1;
    }
    assert(orig.take(n as int) =~= orig);
    out
}

/// The catch-up agent.
pub struct CatchUpAgent {
    pub ai_client: AIClient,
}

impl CatchUpAgent {
    pub fn new(ai_client: AIClient) -> (r: Self)
        ensures
            r.ai_client == ai_client,
    {
        CatchUpAgent { ai_client }
    }

    /// The transcript as text, one line per segment.
    pub fn build_transcript_text(segments: &Vec<TranscriptSegment>) -> (r: String)
        ensures
            r@ == transcript_text(segments@),
    {
        let mut lines: Vec<Vec<char>> = Vec::new();
        let mut i: usize = 0;
        while i < segments.len()
            invariant
                i <= segments@.len(),
                views(lines@) == segments@.take(i as int).map_values(
                    |s: TranscriptSegment| segment_line(s),
                ),
            decreases segments.len() - i,
        {
            let s = &segments[i];
            let mut line: Vec<char> = Vec::new();
            extend_str(&mut line, "[");
            let ts = format_timestamp(s.timestamp_ms);
            extend_str(&mut line, ts.as_str());
            extend_str(&mut line, "] ");
            match &s.speaker {
                Some(sp) => {
                    extend_str(&mut line, sp.as_str());
                    extend_str(&mut line, ": ");
                },
                None => {},
            }
            extend_str(&mut line, s.text.as_str());
            proof {
                lemma_views_push(lines@, line);
                assert(segments@.take(i + 1).map_values(|s: TranscriptSegment| segment_line(s))
                    =~= segments@.take(i as int).map_values(
                    |s: TranscriptSegment| segment_line(s),
                ).push(segment_line(segments@[i as int])));
            }
            lines.push(line);
            i += 1;
        }
        proof {
            assert(segments@.take(segments@.len() as int) =~= segments@);
        }
        let nl = vec!['\n'];
        proof {
            reveal_strlit("\n");
            assert(nl@ =~= "\n"@);
        }
        let joined = join_chars(&lines, &nl);
        string_of(&joined)
    }

    /// The prompt asking the model for a capsule.
    pub fn build_catch_up_prompt(
        transcript: &str,
        metadata: &MeetingMetadata,
        minutes_since_start: i32,
    ) -> (r: String)
        ensures
            r@ == catch_up_prompt(transcript@, *metadata, minutes_since_start as int),
    {
        let mut names: Vec<Vec<char>> = Vec::new();
        let mut i: usize = 0;
        while i < metadata.attendees.len()
            invariant
                i <= metadata.attendees@.len(),
                views(names@) == metadata.attendees@.take(i as int).map_values(|s: String| s@),
            decreases metadata.attendees.len() - i,
        {
            let n = chars_of(metadata.attendees[i].as_str());
            proof {
                lemma_views_push(names@, n);
                assert(metadata.attendees@.take(i + 1).map_values(|s: String| s@)
                    =~= metadata.attendees@.take(i as int).map_values(|s: String| s@).push(
                    metadata.attendees@[i as int]@,
                ));
            }
            names.push(n);
            i += 1;
        }
        proof {
            assert(metadata.attendees@.take(metadata.attendees@.len() as int)
                =~= metadata.attendees@);
        }
        let mut out: Vec<char> = Vec::new();
        extend_str(&mut out, "You are analyzing a meeting transcript. The user just joined ");
        let m = dec_i64(minutes_since_start as i64);
        extend_chars(&mut out, &m);
        extend_str(&mut out, " minutes late and needs to quickly understand what happened.\n\nMEETING: ");
        extend_str(&mut out, metadata.title.as_str());
        extend_str(&mut out, "\nATTENDEES: ");
        if metadata.attendees.len() == 0 {
            extend_str(&mut out, "Unknown");
        } else {
            let sep = vec![',', ' '];
            proof {
                reveal_strlit(", ");
                assert(sep@ =~= ", "@);
            }
            let a = join_chars(&names, &sep);
            extend_chars(&mut out, &a);
        }
        extend_str(&mut out, "\nTRANSCRIPT SO FAR:\n");
        extend_str(&mut out, transcript);
        extend_str(&mut out, "\n\nGenerate a Catch-Up Capsule in this exact JSON format:\n{\n  \"what_missed\": [\"key point 1\", \"key point 2\", \"key point 3\"],\n  \"current_topic\": \"what is being discussed right now\",\n  \"decisions\": [\"decision 1 if any\"],\n  \"open_threads\": [\"unresolved question 1\", \"unresolved question 2\"],\n  \"next_moves\": [\"suggestion 1 for what to say/do\", \"suggestion 2\"],\n  \"risks\": [\"any tension or sensitive topics detected\"],\n  \"questions_to_ask\": [\"good question to ask based on discussion\"],\n  \"ten_second_version\": \"3-4 ultra-short bullet points for quick scan\",\n  \"sixty_second_version\": \"fuller summary paragraph\",\n  \"confidence\": 0.85\n}\n\nHARD RULES:\n- Be factual. Only cite what's actually in the transcript.\n- If uncertain, use \"Possibly:\" prefix or omit entirely.\n- No hallucination. If transcript is unclear, say so.\n- Keep ten_second_version to 3-4 bullet points max.\n- Make next_moves actionable and specific.\n\nReturn ONLY valid JSON, no other text.");
        string_of(&out)
    }

    /// The capsule from the fields read in the model's reply: missing lists
    /// are empty, missing texts are `Unknown` (topic) or `Summary not
    /// available`, a missing confidence is 50.
    pub fn capsule_from_raw(raw: RawCapsule, minutes_since_start: i32) -> (r: CatchUpCapsule)
        ensures
            insights_from(list_or_empty(raw.what_missed), r.what_missed@),
            r.current_topic@ == match raw.current_topic {
                Some(s) => s@,
                None => "Unknown"@,
            },
            decisions_from(list_or_empty(raw.decisions), r.decisions@),
            r.open_threads@ == list_or_empty(raw.open_threads),
            r.next_moves@ == list_or_empty(raw.next_moves),
            risks_from(list_or_empty(raw.risks), r.risks@),
            r.questions_to_ask@ == list_or_empty(raw.questions_to_ask),
            r.ten_second_version@ == match raw.ten_second_version {
                Some(s) => s@,
                None => "Summary not available"@,
            },
            r.sixty_second_version@ == match raw.sixty_second_version {
                Some(s) => s@,
                None => "Summary not available"@,
            },
            r.confidence_pct == match raw.confidence_pct {
                Some(c) => c,
                None => 50u32,
            },
            r.citations@.len() == 0,
            r.generated_at_minute == minutes_since_start,
    {
        CatchUpCapsule {
            what_missed: to_insights(unwrap_list(raw.what_missed)),
            current_topic: text_or(raw.current_topic, "Unknown"),
            decisions: to_decisions(unwrap_list(raw.decisions)),
            open_threads: unwrap_list(raw.open_threads),
            next_moves: unwrap_list(raw.next_moves),
            risks: to_risks(unwrap_list(raw.risks)),
            questions_to_ask: unwrap_list(raw.questions_to_ask),
            ten_second_version: text_or(raw.ten_second_version, "Summary not available"),
            sixty_second_version: text_or(raw.sixty_second_version, "Summary not available"),
            confidence_pct: match raw.confidence_pct {
                Some(c) => c,
                None => 50,
            },
            citations: Vec::new(),
            generated_at_minute: minutes_since_start,
        }
    }
}

} // verus!
