//! Prompts to continue a long recording: every interval the user is asked
//! to confirm, and recording stops after too many unanswered prompts. The
//! caller runs the clock (a tick a minute) and delivers the events; this
//! module decides. Times are milliseconds since the Unix epoch.
use vstd::prelude::*;

verus! {

/// When and how often to ask.
#[derive(Debug, Clone)]
pub struct ContinuePromptConfig {
    /// Minutes between prompts.
    pub prompt_interval_minutes: i64,
    /// Unanswered prompts after which recording stops.
    pub max_missed_prompts: u32,
    pub enabled: bool,
}

impl Default for ContinuePromptConfig {
    fn default() -> (r: Self)
        ensures
            r.prompt_interval_minutes == 30,
            r.max_missed_prompts == 2,
            r.enabled,
    {
        ContinuePromptConfig { prompt_interval_minutes: 30, max_missed_prompts: 2, enabled: true }
    }
}

/// A prompt shown to the user.
#[derive(Debug, Clone, Copy, PartialEq, Eq, Structural)]
pub struct ContinuePromptEvent {
    pub recording_started_ms: i64,
    /// Whole minutes recorded so far.
    pub duration_minutes: i64,
    /// Prompts in a row, this one included.
    pub prompt_count: u32,
    /// The next unanswered prompt stops the recording.
    pub is_final_warning: bool,
}

/// What a tick of the clock asks the caller to do.
#[derive(Debug, Clone, Copy, PartialEq, Eq, Structural)]
pub enum PromptTick {
    Nothing,
    /// Show a prompt.
    Prompt(ContinuePromptEvent),
    /// Stop recording: this many prompts went unanswered.
    AutoStop(u32),
}

/// Whole minutes from `from_ms` to `to_ms`, truncated toward zero.
pub open spec fn minutes_between(from_ms: int, to_ms: int) -> int {
    let d = to_ms - from_ms;
    if d >= 0 {
        d / 60000
    } else {
        -((-d) / 60000)
    }
}

fn minutes_from(from_ms: i64, to_ms: i64) -> (r: i64)
    ensures
        r == minutes_between(from_ms as int, to_ms as int),
{
    let d: i128 = to_ms as i128 - from_ms as i128;
    let m: i128 = if d >= 0 {
        d / 60000
    } else {
        -((-d) / 60000)
    };
    m as i64
}

/// The prompt manager's state.
pub struct ContinuePromptManager {
    pub is_recording: bool,
    pub recording_start_ms: Option<i64>,
    pub last_prompt_ms: Option<i64>,
    /// The user answered the last prompt.
    pub user_responded: bool,
    pub missed_prompts: u32,
    pub config: ContinuePromptConfig,
    /// The clock runs.
    pub is_running: bool,
}

/// The state after a tick at `now_ms`, and what the tick asks for.
pub open spec fn tick_of(m: ContinuePromptManager, now_ms: int) -> (ContinuePromptManager, PromptTick) {
    if !m.config.enabled || !m.is_recording || m.recording_start_ms is None {
        (m, PromptTick::Nothing)
    } else {
        let start = m.recording_start_ms.unwrap();
        let last = match m.last_prompt_ms {
            Some(t) => t,
            None => start,
        };
        if minutes_between(last as int, now_ms) < m.config.prompt_interval_minutes {
            (m, PromptTick::Nothing)
        } else {
            let missed: int = if m.user_responded { m.missed_prompts as int } else { m.missed_prompts + 1 };
            if !m.user_responded && missed >= m.config.max_missed_prompts {
                (
                    ContinuePromptManager { missed_prompts: 0, is_recording: false, ..m },
                    PromptTick::AutoStop(missed as u32),
                )
            } else {
                let count = missed + 1;
                (
                    ContinuePromptManager {
                        missed_prompts: missed as u32,
                        last_prompt_ms: Some(now_ms as i64),
                        user_responded: false,
                        ..m
                    },
                    PromptTick::Prompt(
                        ContinuePromptEvent {
                            recording_started_ms: start,
                            duration_minutes: minutes_between(start as int, now_ms) as i64,
                            prompt_count: count as u32,
                            is_final_warning: count >= m.config.max_missed_prompts,
                        },
                    ),
                )
            }
        }
    }
}

impl ContinuePromptManager {
    pub fn new() -> (r: Self)
        ensures
            !r.is_recording,
            r.recording_start_ms is None,
            r.last_prompt_ms is None,
            r.user_responded,
            r.missed_prompts == 0,
            r.config.prompt_interval_minutes == 30,
            r.config.max_missed_prompts == 2,
            r.config.enabled,
            !r.is_running,
    {
        ContinuePromptManager {
            is_recording: false,
            recording_start_ms: None,
            last_prompt_ms: None,
            user_responded: true,
            missed_prompts: 0,
            config: ContinuePromptConfig::default(),
            is_running: false,
        }
    }

    /// Starts the clock. Fails when it already runs.
    pub fn start(&mut self) -> (r: Result<(), String>)
        ensures
            old(self).is_running ==> r is Err && *final(self) == *old(self),
            !old(self).is_running ==> r is Ok && *final(self) == (ContinuePromptManager {
                is_running: true,
                ..*old(self)
            }),
    {
        if self.is_running {
            return Err(String::from_str("Continue prompt manager already running"));
        }
        self.is_running = true;
        Ok(())
    }

    /// Stops the clock.
    pub fn stop(&mut self)
        ensures
            *final(self) == (ContinuePromptManager { is_running: false, ..*old(self) }),
    {
        self.is_running = false;
    }

    /// A recording started at `now_ms`: the first prompt comes one interval
    /// later.
    pub fn recording_started(&mut self, now_ms: i64)
        ensures
            *final(self) == (ContinuePromptManager {
                is_recording: true,
                recording_start_ms: Some(now_ms),
                last_prompt_ms: Some(now_ms),
                missed_prompts: 0,
                user_responded: true,
                ..*old(self)
            }),
    {
        self.is_recording = true;
        self.recording_start_ms = Some(now_ms);
        self.last_prompt_ms = Some(now_ms);
        self.missed_prompts = 0;
        self.user_responded = true;
    }

    /// The recording stopped: no more prompts.
    pub fn recording_stopped(&mut self)
        ensures
            *final(self) == (ContinuePromptManager {
                is_recording: false,
                recording_start_ms: None,
                last_prompt_ms: None,
                missed_prompts: 0,
                ..*old(self)
            }),
    {
        self.is_recording = false;
        self.recording_start_ms = None;
        self.last_prompt_ms = None;
        self.missed_prompts = 0;
    }

    /// The user chose to continue.
    pub fn user_confirmed(&mut self)
        ensures
            *final(self) == (ContinuePromptManager {
                user_responded: true,
                missed_prompts: 0,
                ..*old(self)
            }),
    {
        self.user_responded = true;
        self.missed_prompts = 0;
    }

    pub fn update_config(&mut self, config: ContinuePromptConfig)
        ensures
            *final(self) == (ContinuePromptManager { config, ..*old(self) }),
    {
        self.config = config;
    }

    /// One tick of the clock at `now_ms`: prompts when an interval has
    /// passed since the last prompt (or the start), counting the last
    /// prompt as missed if unanswered; stops the recording when too many
    /// went unanswered.
    pub fn tick(&mut self, now_ms: i64) -> (r: PromptTick)
        requires
            old(self).missed_prompts < u32::MAX - 1,
        ensures
            (*final(self), r) == tick_of(*old(self), now_ms as int),
    {
        if !self.config.enabled || !self.is_recording {
            return PromptTick::Nothing;
        }
        let start = match self.recording_start_ms {
            Some(s) => s,
            None => {
                return PromptTick::Nothing;
            },
        };
        let last = match self.last_prompt_ms {
            Some(t) => t,
            None => start,
        };
        if minutes_from(last, now_ms) < self.config.prompt_interval_minutes {
            return PromptTick::Nothing;
        }
        if !self.user_responded {
            self.missed_prompts = self.missed_prompts + 1;
            if self.missed_prompts >= self.config.max_missed_prompts {
                let missed = self.missed_prompts;
                self.missed_prompts = 0;
                self.is_recording = false;
                return PromptTick::AutoStop(missed);
            }
        }
        let count = self.missed_prompts + 1;
        let event = ContinuePromptEvent {
            recording_started_ms: start,
            duration_minutes: minutes_from(start, now_ms),
            prompt_count: count,
            is_final_warning: count >= self.config.max_missed_prompts,
        };
        self.last_prompt_ms = Some(now_ms);
        self.user_responded = false;
        PromptTick::Prompt(event)
    }
}

/// Unanswered prompts stop a recording: with `max_missed_prompts` at least
/// one, a recording whose last prompt went unanswered and that already
/// missed `max - 1` prompts stops at the next due tick.
pub proof fn lemma_missed_prompts_stop_recording(m: ContinuePromptManager, now_ms: int)
    requires
        m.config.enabled,
        m.is_recording,
        m.recording_start_ms is Some,
        !m.user_responded,
        m.config.max_missed_prompts >= 1,
        m.missed_prompts + 1 == m.config.max_missed_prompts,
        minutes_between(
            match m.last_prompt_ms {
                Some(t) => t as int,
                None => m.recording_start_ms.unwrap() as int,
            },
            now_ms,
        ) >= m.config.prompt_interval_minutes,
    ensures
        tick_of(m, now_ms).1 == PromptTick::AutoStop(m.config.max_missed_prompts),
        !tick_of(m, now_ms).0.is_recording,
        tick_of(m, now_ms).0.missed_prompts == 0,
{
}

/// No prompt before an interval has passed since the recording started.
pub proof fn lemma_no_prompt_within_first_interval(m: ContinuePromptManager, start_ms: i64, now_ms: int)
    requires
        m.recording_start_ms == Some(start_ms),
        m.last_prompt_ms == Some(start_ms),
        minutes_between(start_ms as int, now_ms) < m.config.prompt_interval_minutes,
    ensures
        tick_of(m, now_ms) == (m, PromptTick::Nothing),
{
}

} // verus!
