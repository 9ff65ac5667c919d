//! Prompts that keep the user in the loop during a recording: periodic
//! check-ins, meeting-end and break confirmations, storage warnings; their
//! answers and expiry, with statistics. The caller runs the clock (a tick a
//! minute) and shows the prompts. Times are milliseconds since the Unix
//! epoch, within the range of calendar times (about 260,000 years).
use vstd::prelude::*;
use crate::episode_builder::opt_view;
use crate::hashing::{new_uuid_v4, uuid_v4_text};
use crate::text::{dec_nat, dec_u64, extend_chars, extend_str, str_eq, string_of};

verus! {

/// Kinds of prompt.
#[derive(Debug, Clone, Copy, PartialEq, Eq, Structural)]
pub enum PromptType {
    /// Periodic check-in during a manual recording.
    CheckIn,
    /// The meeting seems to have ended.
    MeetingEnd,
    /// A long silence was detected.
    BreakDetected,
    /// Storage is running low.
    StorageWarning,
    /// The user seems idle.
    IdleWarning,
}

/// The user's answer to a prompt.
#[derive(Debug, Clone, Copy, PartialEq, Eq, Structural)]
pub enum PromptResponse {
    Continue,
    EndRecording,
    Snooze,
    Dismissed,
    Expired,
}

/// A prompt waiting for an answer.
#[derive(Debug, Clone)]
pub struct PendingPrompt {
    pub id: String,
    pub prompt_type: PromptType,
    pub title: String,
    pub message: String,
    pub created_at_ms: i64,
    pub expires_at_ms: Option<i64>,
    pub meeting_id: Option<String>,
}

/// Which prompts are shown and how long they wait. The storage threshold is
/// kept in tenths of a GB.
#[derive(Debug, Clone, Copy, PartialEq, Eq, Structural)]
pub struct InteractionConfig {
    pub check_in_enabled: bool,
    pub check_in_interval_mins: u32,
    pub meeting_end_prompt_enabled: bool,
    pub break_detection_enabled: bool,
    pub break_silence_threshold_secs: u32,
    pub storage_warning_enabled: bool,
    pub storage_warning_threshold_tenths_gb: u32,
    /// Seconds a prompt waits for an answer.
    pub prompt_timeout_secs: u32,
}

impl Default for InteractionConfig {
    fn default() -> (r: Self)
        ensures
            r.check_in_enabled,
            r.check_in_interval_mins == 30,
            r.meeting_end_prompt_enabled,
            !r.break_detection_enabled,
            r.break_silence_threshold_secs == 180,
            r.storage_warning_enabled,
            r.storage_warning_threshold_tenths_gb == 50,
            r.prompt_timeout_secs == 60,
    {
        InteractionConfig {
            check_in_enabled: true,
            check_in_interval_mins: 30,
            meeting_end_prompt_enabled: true,
            break_detection_enabled: false,
            break_silence_threshold_secs: 180,
            storage_warning_enabled: true,
            storage_warning_threshold_tenths_gb: 50,
            prompt_timeout_secs: 60,
        }
    }
}

/// Counts of prompts and answers.
#[derive(Debug, Clone, Copy, PartialEq, Eq, Structural)]
pub struct InteractionStats {
    pub prompts_shown: u64,
    pub responses_continue: u64,
    pub responses_end: u64,
    pub responses_snooze: u64,
    pub responses_dismissed: u64,
    pub responses_expired: u64,
}

impl Default for InteractionStats {
    fn default() -> (r: Self)
        ensures
            r == (InteractionStats {
                prompts_shown: 0,
                responses_continue: 0,
                responses_end: 0,
                responses_snooze: 0,
                responses_dismissed: 0,
                responses_expired: 0,
            }),
    {
        InteractionStats {
            prompts_shown: 0,
            responses_continue: 0,
            responses_end: 0,
            responses_snooze: 0,
            responses_dismissed: 0,
            responses_expired: 0,
        }
    }
}

/// Times handled: those of the calendar range.
pub open spec fn valid_time(ms: int) -> bool {
    -8_000_000_000_000_000 <= ms <= 8_000_000_000_000_000
}

/// The prompts still valid at `now_ms` (those expired are dropped).
pub open spec fn unexpired(s: Seq<PendingPrompt>, now_ms: int) -> Seq<PendingPrompt>
    decreases s.len(),
{
    if s.len() == 0 {
        s
    } else if expired_at(s.last(), now_ms) {
        unexpired(s.drop_last(), now_ms)
    } else {
        unexpired(s.drop_last(), now_ms).push(s.last())
    }
}

/// A prompt has expired at `now_ms`.
pub open spec fn expired_at(p: PendingPrompt, now_ms: int) -> bool {
    match p.expires_at_ms {
        Some(e) => now_ms > e,
        None => false,
    }
}

/// Number of prompts expired at `now_ms`.
pub open spec fn expired_count(s: Seq<PendingPrompt>, now_ms: int) -> nat
    decreases s.len(),
{
    if s.len() == 0 {
        0
    } else {
        expired_count(s.drop_last(), now_ms) + if expired_at(s.last(), now_ms) { 1nat } else { 0 }
    }
}

proof fn lemma_expired_count_bound(s: Seq<PendingPrompt>, now_ms: int)
    ensures
        expired_count(s, now_ms) <= s.len(),
    decreases s.len(),
{
    if s.len() > 0 {
        lemma_expired_count_bound(s.drop_last(), now_ms);
    }
}

/// Position of the first prompt with identifier `id`.
pub open spec fn prompt_position(s: Seq<PendingPrompt>, id: Seq<char>) -> Option<int>
    decreases s.len(),
{
    if s.len() == 0 {
        None
    } else {
        match prompt_position(s.drop_last(), id) {
            Some(p) => Some(p),
            None => if s.last().id@ == id {
                Some(s.len() - 1)
            } else {
                None
            },
        }
    }
}

/// The check-in message.
pub open spec fn check_in_message(mins: nat) -> Seq<char> {
    "You've been recording for "@ + dec_nat(mins) + " minutes. Continue?"@
}

/// The break message.
pub open spec fn break_message(silence_secs: nat) -> Seq<char> {
    "No audio detected for "@ + dec_nat(silence_secs / 60) + " minutes. Pause recording?"@
}

/// The storage warning message, for a remaining amount already written with
/// one decimal.
pub open spec fn storage_message(gb_text: Seq<char>) -> Seq<char> {
    "Only "@ + gb_text + " GB remaining. Consider freeing up space."@
}

/// Copies a prompt.
pub fn clone_prompt(p: &PendingPrompt) -> (r: PendingPrompt)
    ensures
        r == *p,
{
    PendingPrompt {
        id: p.id.clone(),
        prompt_type: p.prompt_type,
        title: p.title.clone(),
        message: p.message.clone(),
        created_at_ms: p.created_at_ms,
        expires_at_ms: p.expires_at_ms,
        meeting_id: match &p.meeting_id {
            Some(m) => Some(m.clone()),
            None => None,
        },
    }
}

/// The interaction loop's state.
pub struct InteractionLoop {
    pub config: InteractionConfig,
    pub is_running: bool,
    pub pending_prompts: Vec<PendingPrompt>,
    pub stats: InteractionStats,
    /// Prompts shown, as an atomic counter counts them (wrapping).
    pub prompts_shown: u64,
    pub last_check_in_ms: Option<i64>,
    pub last_audio_activity_ms: Option<i64>,
}

/// A new prompt as shown at `now_ms`.
pub open spec fn shown_prompt(
    p: PendingPrompt,
    id: Seq<char>,
    kind: PromptType,
    title: Seq<char>,
    message: Seq<char>,
    now_ms: int,
    timeout_secs: int,
    meeting: Option<Seq<char>>,
) -> bool {
    &&& p.id@ == id
    &&& p.prompt_type == kind
    &&& p.title@ == title
    &&& p.message@ == message
    &&& p.created_at_ms == now_ms
    &&& p.expires_at_ms == Some((now_ms + timeout_secs * 1000) as i64)
    &&& opt_view(p.meeting_id) == meeting
}

/// `after` is `before` with one more prompt shown: `p` queued and counted.
pub open spec fn queued(before: InteractionLoop, after: InteractionLoop, p: PendingPrompt) -> bool {
    &&& after.pending_prompts@ == before.pending_prompts@.push(p)
    &&& after.stats == (InteractionStats {
        prompts_shown: (before.stats.prompts_shown + 1) as u64,
        ..before.stats
    })
    &&& after.config == before.config
    &&& after.is_running == before.is_running
    &&& after.last_audio_activity_ms == before.last_audio_activity_ms
}

/// The counters after one more prompt shown (the atomic counter wraps).
pub open spec fn wrapping_inc(n: u64) -> u64 {
    if n == u64::MAX {
        0
    } else {
        (n + 1) as u64
    }
}

impl InteractionLoop {
    pub fn new() -> (r: Self)
        ensures
            r.config == (InteractionConfig {
                check_in_enabled: true,
                check_in_interval_mins: 30,
                meeting_end_prompt_enabled: true,
                break_detection_enabled: false,
                break_silence_threshold_secs: 180,
                storage_warning_enabled: true,
                storage_warning_threshold_tenths_gb: 50,
                prompt_timeout_secs: 60,
            }),
            !r.is_running,
            r.pending_prompts@.len() == 0,
            r.stats == (InteractionStats {
                prompts_shown: 0,
                responses_continue: 0,
                responses_end: 0,
                responses_snooze: 0,
                responses_dismissed: 0,
                responses_expired: 0,
            }),
            r.prompts_shown == 0,
            r.last_check_in_ms is None,
            r.last_audio_activity_ms is None,
    {
        InteractionLoop {
            config: InteractionConfig::default(),
            is_running: false,
            pending_prompts: Vec::new(),
            stats: InteractionStats::default(),
            prompts_shown: 0,
            last_check_in_ms: None,
            last_audio_activity_ms: None,
        }
    }

    pub fn with_config(config: InteractionConfig) -> (r: Self)
        ensures
            r.config == config,
            !r.is_running,
            r.pending_prompts@.len() == 0,
            r.stats.prompts_shown == 0,
            r.prompts_shown == 0,
            r.last_check_in_ms is None,
    {
        let mut r = Self::new();
        r.config = config;
        r
    }

    pub fn get_config(&self) -> (r: InteractionConfig)
        ensures
            r == self.config,
    {
        self.config
    }

    pub fn update_config(&mut self, config: InteractionConfig)
        ensures
            final(self).config == config,
            final(self).pending_prompts@ == old(self).pending_prompts@,
            final(self).stats == old(self).stats,
            final(self).is_running == old(self).is_running,
    {
        self.config = config;
    }

    pub fn get_stats(&self) -> (r: InteractionStats)
        ensures
            r == self.stats,
    {
        self.stats
    }

    pub fn is_running(&self) -> (r: bool)
        ensures
            r == self.is_running,
    {
        self.is_running
    }

    /// Starts the clock; the check-in interval counts from `now_ms`. Fails
    /// when it already runs.
    pub fn start(&mut self, now_ms: i64) -> (r: Result<(), String>)
        ensures
            old(self).is_running ==> (r matches Err(e) && e@ == "Interaction loop already running"@)
                && final(self).is_running && final(self).last_check_in_ms == old(self).last_check_in_ms,
            !old(self).is_running ==> r is Ok && final(self).is_running && final(self).last_check_in_ms == Some(now_ms),
            final(self).pending_prompts@ == old(self).pending_prompts@,
            final(self).prompts_shown == old(self).prompts_shown,
            final(self).last_audio_activity_ms == old(self).last_audio_activity_ms,
            final(self).stats == old(self).stats,
            final(self).config == old(self).config,
    {
        if self.is_running {
            return Err(String::from_str("Interaction loop already running"));
        }
        self.is_running = true;
        self.last_check_in_ms = Some(now_ms);
        Ok(())
    }

    /// Stops the clock.
    pub fn stop(&mut self)
        ensures
            !final(self).is_running,
            final(self).pending_prompts@ == old(self).pending_prompts@,
            final(self).stats == old(self).stats,
            final(self).config == old(self).config,
    {
        self.is_running = false;
    }

    fn queue(&mut self, p: PendingPrompt)
        requires
            old(self).stats.prompts_shown < u64::MAX,
        ensures
            queued(*old(self), *final(self), p),
            final(self).prompts_shown == old(self).prompts_shown,
            final(self).last_check_in_ms == old(self).last_check_in_ms,
    {
        self.stats.prompts_shown = self.stats.prompts_shown + 1;
        self.pending_prompts.push(p);
    }

    fn expiry(now_ms: i64, timeout_secs: u32) -> (r: Option<i64>)
        requires
            valid_time(now_ms as int),
        ensures
            r == Some((now_ms + timeout_secs * 1000) as i64),
    {
        Some(now_ms + timeout_secs as i64 * 1000)
    }

    /// Drops the prompts expired at `now_ms`, counting them as expired.
    pub fn expire_prompts(&mut self, now_ms: i64)
        requires
            old(self).stats.responses_expired + old(self).pending_prompts@.len() <= u64::MAX,
        ensures
            final(self).pending_prompts@ == unexpired(old(self).pending_prompts@, now_ms as int),
            final(self).stats == (InteractionStats {
                responses_expired: (old(self).stats.responses_expired + expired_count(
                    old(self).pending_prompts@,
                    now_ms as int,
                )) as u64,
                ..old(self).stats
            }),
            final(self).config == old(self).config,
            final(self).is_running == old(self).is_running,
            final(self).prompts_shown == old(self).prompts_shown,
            final(self).last_check_in_ms == old(self).last_check_in_ms,
            final(self).last_audio_activity_ms == old(self).last_audio_activity_ms,
    {
        let ghost orig = self.pending_prompts@;
        let mut src: Vec<PendingPrompt> = Vec::new();
        std::mem::swap(&mut src, &mut self.pending_prompts);
        let n = src.len();
        let mut kept: Vec<PendingPrompt> = Vec::new();
        let mut gone: u64 = 0;
        let mut i: usize = 0;
        while i < n
            invariant
                i <= n == orig.len(),
                src@ == orig.skip(i as int),
                kept@ == unexpired(orig.take(i as int), now_ms as int),
                gone == expired_count(orig.take(i as int), now_ms as int),
                gone <= i,
            decreases n - i,
        {
            let p = src.remove(0);
            assert(p == orig[i as int]);
            assert(src@ =~= orig.skip(i + 1));
            proof {
                assert(orig.take(i + 1).drop_last() =~= orig.take(i as int));
                assert(orig.take(i + 1).last() == p);
            }
            let expired = match p.expires_at_ms {
                Some(e) => now_ms > e,
                None => false,
            };
            if expired {
                gone = gone + 1;
            } else {
                kept.push(p);
            }
            i += 1;
        }
        proof {
            assert(orig.take(n as int) =~= orig);
        }
        self.pending_prompts = kept;
        self.stats.responses_expired = self.stats.responses_expired + gone;
    }

    /// The check-in prompt, if one is due at `now_ms`.
    fn check_in(&mut self, now_ms: i64, id: String) -> (r: Option<PendingPrompt>)
        requires
            valid_time(now_ms as int),
            old(self).stats.prompts_shown < u64::MAX,
        ensures
            ({
                let due = old(self).config.check_in_enabled && match old(self).last_check_in_ms {
                    Some(l) => now_ms - l >= old(self).config.check_in_interval_mins * 60000,
                    None => false,
                };
                if due {
                    r matches Some(p) && shown_prompt(
                        p,
                        id@,
                        PromptType::CheckIn,
                        "Still recording?"@,
                        check_in_message(old(self).config.check_in_interval_mins as nat),
                        now_ms as int,
                        old(self).config.prompt_timeout_secs as int,
                        None,
                    ) && queued(*old(self), *final(self), p) && final(self).prompts_shown
                        == wrapping_inc(old(self).prompts_shown) && final(self).last_check_in_ms
                        == Some(now_ms)
                } else {
                    r is None && *final(self) == *old(self)
                }
            }),
    {
        if !self.config.check_in_enabled {
            return None;
        }
        let last = match self.last_check_in_ms {
            Some(l) => l,
            None => {
                return None;
            },
        };
        if (now_ms as i128) - (last as i128) < self.config.check_in_interval_mins as i128 * 60000 {
            return None;
        }
        let mut msg: Vec<char> = Vec::new();
        extend_str(&mut msg, "You've been recording for ");
        let d = dec_u64(self.config.check_in_interval_mins as u64);
        extend_chars(&mut msg, &d);
        extend_str(&mut msg, " minutes. Continue?");
        let p = PendingPrompt {
            id,
            prompt_type: PromptType::CheckIn,
            title: String::from_str("Still recording?"),
            message: string_of(&msg),
            created_at_ms: now_ms,
            expires_at_ms: Self::expiry(now_ms, self.config.prompt_timeout_secs),
            meeting_id: None,
        };
        let shown = clone_prompt(&p);
        self.queue(p);
        self.prompts_shown = if self.prompts_shown == u64::MAX { 0 } else { self.prompts_shown + 1 };
        self.last_check_in_ms = Some(now_ms);
        Some(shown)
    }

    /// One tick of the clock at `now_ms`: shows a check-in prompt (with
    /// identifier `id`) when one interval has passed since the last, then
    /// drops the prompts that expired.
    pub fn tick_with_id(&mut self, now_ms: i64, id: String) -> (r: Option<PendingPrompt>)
        requires
            valid_time(now_ms as int),
            old(self).stats.prompts_shown < u64::MAX,
            old(self).stats.responses_expired + old(self).pending_prompts@.len() + 1 <= u64::MAX,
        ensures
            ({
                let due = old(self).config.check_in_enabled && match old(self).last_check_in_ms {
                    Some(l) => now_ms - l >= old(self).config.check_in_interval_mins * 60000,
                    None => false,
                };
                let queue = if due {
                    old(self).pending_prompts@.push(r.unwrap())
                } else {
                    old(self).pending_prompts@
                };
                &&& due <==> r is Some
                &&& (r matches Some(p) ==> shown_prompt(
                    p,
                    id@,
                    PromptType::CheckIn,
                    "Still recording?"@,
                    check_in_message(old(self).config.check_in_interval_mins as nat),
                    now_ms as int,
                    old(self).config.prompt_timeout_secs as int,
                    None,
                ))
                &&& final(self).pending_prompts@ == unexpired(queue, now_ms as int)
                &&& final(self).stats.prompts_shown == old(self).stats.prompts_shown + (if due {
                    1int
                } else {
                    0
                })
                &&& final(self).stats.responses_expired == old(self).stats.responses_expired
                    + expired_count(queue, now_ms as int)
                &&& final(self).last_check_in_ms == if due {
                    Some(now_ms)
                } else {
                    old(self).last_check_in_ms
                }
                &&& final(self).config == old(self).config
                &&& final(self).is_running == old(self).is_running
            }),
    {
        let r = self.check_in(now_ms, id);
        proof {
            lemma_expired_count_bound(self.pending_prompts@, now_ms as int);
        }
        self.expire_prompts(now_ms);
        r
    }

    /// One tick of the clock at `now_ms`, a check-in prompt getting a fresh
    /// random identifier.
    pub fn tick(&mut self, now_ms: i64) -> (r: Option<PendingPrompt>)
        requires
            valid_time(now_ms as int),
            old(self).stats.prompts_shown < u64::MAX,
            old(self).stats.responses_expired + old(self).pending_prompts@.len() + 1 <= u64::MAX,
        ensures
            ({
                let due = old(self).config.check_in_enabled && match old(self).last_check_in_ms {
                    Some(l) => now_ms - l >= old(self).config.check_in_interval_mins * 60000,
                    None => false,
                };
                let queue = if due {
                    old(self).pending_prompts@.push(r.unwrap())
                } else {
                    old(self).pending_prompts@
                };
                &&& due <==> r is Some
                &&& (r matches Some(p) ==> shown_prompt(
                    p,
                    r.unwrap().id@,
                    PromptType::CheckIn,
                    "Still recording?"@,
                    check_in_message(old(self).config.check_in_interval_mins as nat),
                    now_ms as int,
                    old(self).config.prompt_timeout_secs as int,
                    None,
                ))
                &&& final(self).pending_prompts@ == unexpired(queue, now_ms as int)
                &&& final(self).stats.prompts_shown == old(self).stats.prompts_shown + (if due {
                    1int
                } else {
                    0
                })
                &&& final(self).stats.responses_expired == old(self).stats.responses_expired
                    + expired_count(queue, now_ms as int)
                &&& final(self).last_check_in_ms == if due {
                    Some(now_ms)
                } else {
                    old(self).last_check_in_ms
                }
                &&& final(self).config == old(self).config
                &&& final(self).is_running == old(self).is_running
            }),
            r matches Some(p) ==> uuid_v4_text(p.id@),
    {
        let id = new_uuid_v4();
        self.tick_with_id(now_ms, id)
    }

    /// Shows a meeting-end prompt (with identifier `id`) for `meeting_id`,
    /// unless such prompts are disabled.
    pub fn show_meeting_end_prompt_with_id(&mut self, meeting_id: &str, now_ms: i64, id: String) -> (r:
        Option<PendingPrompt>)
        requires
            valid_time(now_ms as int),
            old(self).stats.prompts_shown < u64::MAX,
        ensures
            !old(self).config.meeting_end_prompt_enabled ==> r is None && *final(self) == *old(self),
            old(self).config.meeting_end_prompt_enabled ==> (r matches Some(p) && shown_prompt(
                p,
                id@,
                PromptType::MeetingEnd,
                "Meeting ended?"@,
                "It looks like your meeting has ended. Would you like to stop recording?"@,
                now_ms as int,
                old(self).config.prompt_timeout_secs as int,
                Some(meeting_id@),
            ) && queued(*old(self), *final(self), p) && final(self).prompts_shown
                == wrapping_inc(old(self).prompts_shown) && final(self).last_check_in_ms == old(self).last_check_in_ms),
    {
        if !self.config.meeting_end_prompt_enabled {
            return None;
        }
        let p = PendingPrompt {
            id,
            prompt_type: PromptType::MeetingEnd,
            title: String::from_str("Meeting ended?"),
            message: String::from_str(
                "It looks like your meeting has ended. Would you like to stop recording?",
            ),
            created_at_ms: now_ms,
            expires_at_ms: Self::expiry(now_ms, self.config.prompt_timeout_secs),
            meeting_id: Some(String::from_str(meeting_id)),
        };
        let shown = clone_prompt(&p);
        self.queue(p);
        self.prompts_shown = if self.prompts_shown == u64::MAX { 0 } else { self.prompts_shown + 1 };
        Some(shown)
    }

    /// Shows a meeting-end prompt with a fresh random identifier.
    pub fn show_meeting_end_prompt(&mut self, meeting_id: &str, now_ms: i64) -> (r: Option<PendingPrompt>)
        requires
            valid_time(now_ms as int),
            old(self).stats.prompts_shown < u64::MAX,
        ensures
            !old(self).config.meeting_end_prompt_enabled ==> r is None && *final(self) == *old(self),
            old(self).config.meeting_end_prompt_enabled ==> (r matches Some(p) && shown_prompt(
                p,
                r.unwrap().id@,
                PromptType::MeetingEnd,
                "Meeting ended?"@,
                "It looks like your meeting has ended. Would you like to stop recording?"@,
                now_ms as int,
                old(self).config.prompt_timeout_secs as int,
                Some(meeting_id@),
            ) && queued(*old(self), *final(self), p) && final(self).prompts_shown
                == wrapping_inc(old(self).prompts_shown) && final(self).last_check_in_ms == old(self).last_check_in_ms),
            r matches Some(p) ==> uuid_v4_text(p.id@),
    {
        let id = new_uuid_v4();
        self.show_meeting_end_prompt_with_id(meeting_id, now_ms, id)
    }


    /// Shows a break prompt (with identifier `id`) after `silence_secs` of
    /// silence, unless break detection is disabled.
    pub fn show_break_prompt_with_id(&mut self, silence_secs: u64, now_ms: i64, id: String) -> (r:
        Option<PendingPrompt>)
        requires
            valid_time(now_ms as int),
            old(self).stats.prompts_shown < u64::MAX,
        ensures
            !old(self).config.break_detection_enabled ==> r is None && *final(self) == *old(self),
            old(self).config.break_detection_enabled ==> (r matches Some(p) && shown_prompt(
                p,
                id@,
                PromptType::BreakDetected,
                "On a break?"@,
                break_message(silence_secs as nat),
                now_ms as int,
                old(self).config.prompt_timeout_secs as int,
                None,
            ) && queued(*old(self), *final(self), p) && final(self).prompts_shown == old(self).prompts_shown && final(self).last_check_in_ms == old(self).last_check_in_ms),
    {
        if !self.config.break_detection_enabled {
            return None;
        }
        let mut msg: Vec<char> = Vec::new();
        extend_str(&mut msg, "No audio detected for ");
        let d = dec_u64(silence_secs / 60);
        extend_chars(&mut msg, &d);
        extend_str(&mut msg, " minutes. Pause recording?");
        let p = PendingPrompt {
            id,
            prompt_type: PromptType::BreakDetected,
            title: String::from_str("On a break?"),
            message: string_of(&msg),
            created_at_ms: now_ms,
            expires_at_ms: Self::expiry(now_ms, self.config.prompt_timeout_secs),
            meeting_id: None,
        };
        let shown = clone_prompt(&p);
        self.queue(p);
        Some(shown)
    }

    /// Shows a break prompt with a fresh random identifier.
    pub fn show_break_prompt(&mut self, silence_secs: u64, now_ms: i64) -> (r: Option<PendingPrompt>)
        requires
            valid_time(now_ms as int),
            old(self).stats.prompts_shown < u64::MAX,
        ensures
            !old(self).config.break_detection_enabled ==> r is None && *final(self) == *old(self),
            old(self).config.break_detection_enabled ==> (r matches Some(p) && shown_prompt(
                p,
                r.unwrap().id@,
                PromptType::BreakDetected,
                "On a break?"@,
                break_message(silence_secs as nat),
                now_ms as int,
                old(self).config.prompt_timeout_secs as int,
                None,
            ) && queued(*old(self), *final(self), p) && final(self).prompts_shown == old(self).prompts_shown && final(self).last_check_in_ms == old(self).last_check_in_ms),
            r matches Some(p) ==> uuid_v4_text(p.id@),
    {
        let id = new_uuid_v4();
        self.show_break_prompt_with_id(silence_secs, now_ms, id)
    }


    /// Shows a storage warning (with identifier `id`; it waits two minutes),
    /// unless storage warnings are disabled. `available_gb_text` is the
    /// remaining space in GB written with one decimal.
    pub fn show_storage_warning_with_id(
        &mut self,
        available_gb_text: &str,
        now_ms: i64,
        id: String,
    ) -> (r: Option<PendingPrompt>)
        requires
            valid_time(now_ms as int),
            old(self).stats.prompts_shown < u64::MAX,
        ensures
            !old(self).config.storage_warning_enabled ==> r is None && *final(self) == *old(self),
            old(self).config.storage_warning_enabled ==> (r matches Some(p) && shown_prompt(
                p,
                id@,
                PromptType::StorageWarning,
                "Storage Running Low"@,
                storage_message(available_gb_text@),
                now_ms as int,
                120,
                None,
            ) && queued(*old(self), *final(self), p) && final(self).prompts_shown == old(self).prompts_shown && final(self).last_check_in_ms == old(self).last_check_in_ms),
    {
        if !self.config.storage_warning_enabled {
            return None;
        }
        let mut msg: Vec<char> = Vec::new();
        extend_str(&mut msg, "Only ");
        extend_str(&mut msg, available_gb_text);
        extend_str(&mut msg, " GB remaining. Consider freeing up space.");
        let p = PendingPrompt {
            id,
            prompt_type: PromptType::StorageWarning,
            title: String::from_str("Storage Running Low"),
            message: string_of(&msg),
            created_at_ms: now_ms,
            expires_at_ms: Self::expiry(now_ms, 120),
            meeting_id: None,
        };
        let shown = clone_prompt(&p);
        self.queue(p);
        Some(shown)
    }

    /// Shows a storage warning with a fresh random identifier.
    pub fn show_storage_warning(&mut self, available_gb_text: &str, now_ms: i64) -> (r: Option<PendingPrompt>)
        requires
            valid_time(now_ms as int),
            old(self).stats.prompts_shown < u64::MAX,
        ensures
            !old(self).config.storage_warning_enabled ==> r is None && *final(self) == *old(self),
            old(self).config.storage_warning_enabled ==> (r matches Some(p) && shown_prompt(
                p,
                r.unwrap().id@,
                PromptType::StorageWarning,
                "Storage Running Low"@,
                storage_message(available_gb_text@),
                now_ms as int,
                120,
                None,
            ) && queued(*old(self), *final(self), p) && final(self).prompts_shown == old(self).prompts_shown && final(self).last_check_in_ms == old(self).last_check_in_ms),
            r matches Some(p) ==> uuid_v4_text(p.id@),
    {
        let id = new_uuid_v4();
        self.show_storage_warning_with_id(available_gb_text, now_ms, id)
    }


    /// Records the answer to prompt `prompt_id` and takes the prompt out of
    /// the queue; fails when no pending prompt has that identifier.
    pub fn respond(&mut self, prompt_id: &str, response: PromptResponse) -> (r: Result<
        PendingPrompt,
        String,
    >)
        requires
            old(self).stats.responses_continue < u64::MAX,
            old(self).stats.responses_end < u64::MAX,
            old(self).stats.responses_snooze < u64::MAX,
            old(self).stats.responses_dismissed < u64::MAX,
            old(self).stats.responses_expired < u64::MAX,
        ensures
            match prompt_position(old(self).pending_prompts@, prompt_id@) {
                None => r matches Err(e) && e@ == "Prompt not found: "@ + prompt_id@ && *final(self) == *old(self),
                Some(i) => r == Ok::<PendingPrompt, String>(old(self).pending_prompts@[i])
                    && final(self).pending_prompts@ == old(self).pending_prompts@.remove(i)
                    && final(self).stats == match response {
                    PromptResponse::Continue => InteractionStats {
                        responses_continue: (old(self).stats.responses_continue + 1) as u64,
                        ..old(self).stats
                    },
                    PromptResponse::EndRecording => InteractionStats {
                        responses_end: (old(self).stats.responses_end + 1) as u64,
                        ..old(self).stats
                    },
                    PromptResponse::Snooze => InteractionStats {
                        responses_snooze: (old(self).stats.responses_snooze + 1) as u64,
                        ..old(self).stats
                    },
                    PromptResponse::Dismissed => InteractionStats {
                        responses_dismissed: (old(self).stats.responses_dismissed + 1) as u64,
                        ..old(self).stats
                    },
                    PromptResponse::Expired => InteractionStats {
                        responses_expired: (old(self).stats.responses_expired + 1) as u64,
                        ..old(self).stats
                    },
                } && final(self).config == old(self).config && final(self).is_running == old(self).is_running && final(self).prompts_shown == old(self).prompts_shown,
            },
    {
        let mut i: usize = 0;
        let n = self.pending_prompts.len();
        while i < n
            invariant
                i <= n == self.pending_prompts@.len(),
                *self == *old(self),
                old(self).stats.responses_continue < u64::MAX,
                old(self).stats.responses_end < u64::MAX,
                old(self).stats.responses_snooze < u64::MAX,
                old(self).stats.responses_dismissed < u64::MAX,
                old(self).stats.responses_expired < u64::MAX,
                prompt_position(self.pending_prompts@.take(i as int), prompt_id@) is None,
            decreases n - i,
        {
            proof {
                assert(self.pending_prompts@.take(i + 1).drop_last() =~= self.pending_prompts@.take(
                    i as int,
                ));
            }
            if str_eq(self.pending_prompts[i].id.as_str(), prompt_id) {
                proof {
                    lemma_position_prefix(self.pending_prompts@, prompt_id@, i + 1);
                }
                let p = self.pending_prompts.remove(i);
                match response {
                    PromptResponse::Continue => {
                        self.stats.responses_continue = self.stats.responses_continue + 1;
                    },
                    PromptResponse::EndRecording => {
                        self.stats.responses_end = self.stats.responses_end + 1;
                    },
                    PromptResponse::Snooze => {
                        self.stats.responses_snooze = self.stats.responses_snooze + 1;
                    },
                    PromptResponse::Dismissed => {
                        self.stats.responses_dismissed = self.stats.responses_dismissed + 1;
                    },
                    PromptResponse::Expired => {
                        self.stats.responses_expired = self.stats.responses_expired + 1;
                    },
                }
                return Ok(p);
            }
            i += 1;
        }
        proof {
            assert(self.pending_prompts@.take(n as int) =~= self.pending_prompts@);
        }
        let mut msg: Vec<char> = Vec::new();
        extend_str(&mut msg, "Prompt not found: ");
        extend_str(&mut msg, prompt_id);
        Err(string_of(&msg))
    }

    /// The prompts waiting for an answer.
    pub fn get_pending_prompts(&self) -> (r: &Vec<PendingPrompt>)
        ensures
            r@ == self.pending_prompts@,
    {
        &self.pending_prompts
    }

    /// Restarts the check-in interval at `now_ms`.
    pub fn reset_check_in(&mut self, now_ms: i64)
        ensures
            final(self).last_check_in_ms == Some(now_ms),
            final(self).pending_prompts@ == old(self).pending_prompts@,
            final(self).stats == old(self).stats,
            final(self).config == old(self).config,
            final(self).is_running == old(self).is_running,
    {
        self.last_check_in_ms = Some(now_ms);
    }

    /// Notes audio activity at `now_ms`.
    pub fn update_audio_activity(&mut self, now_ms: i64)
        ensures
            final(self).last_audio_activity_ms == Some(now_ms),
            final(self).pending_prompts@ == old(self).pending_prompts@,
            final(self).stats == old(self).stats,
            final(self).last_check_in_ms == old(self).last_check_in_ms,
    {
        self.last_audio_activity_ms = Some(now_ms);
    }
}

proof fn lemma_position_prefix(s: Seq<PendingPrompt>, id: Seq<char>, n: int)
    requires
        0 < n <= s.len(),
        prompt_position(s.take(n - 1), id) is None,
        s[n - 1].id@ == id,
    ensures
        prompt_position(s, id) == Some(n - 1),
    decreases s.len() - n,
{
    assert(s.take(n).drop_last() =~= s.take(n - 1));
    if n < s.len() {
        lemma_position_extend(s, id, n);
    } else {
        assert(s.take(n) =~= s);
    }
}

proof fn lemma_position_extend(s: Seq<PendingPrompt>, id: Seq<char>, n: int)
    requires
        0 < n <= s.len(),
        prompt_position(s.take(n), id) is Some,
    ensures
        prompt_position(s, id) == prompt_position(s.take(n), id),
    decreases s.len() - n,
{
    if n < s.len() {
        assert(s.take(n + 1).drop_last() =~= s.take(n));
        lemma_position_extend(s, id, n + 1);
    } else {
        assert(s.take(n) =~= s);
    }
}

} // verus!
