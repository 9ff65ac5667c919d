//! Background capture of window text: what each capture decides (too
//! short, duplicate, or saved with a quality score), the text indexed with
//! its context, and the service's counters. Reading the window, hashing the
//! text, saving and indexing are left to the caller. Times are milliseconds
//! since the Unix epoch.
use vstd::prelude::*;
use vstd::std_specs::hash::DefaultHasherAdditionalSpecFns;
use std::collections::hash_map::DefaultHasher;
use std::hash::Hasher;
use crate::episode_builder::{clone_opt, opt_view};
use crate::text::{chars_of, extend_str, split_words, string_of, words};

verus! {

/// How captures are taken.
#[derive(Debug, Clone, Copy, PartialEq, Eq, Structural)]
pub struct AccessibilityCaptureConfig {
    pub enabled: bool,
    /// Seconds between captures.
    pub interval_secs: u32,
    /// Captures with fewer words are skipped.
    pub min_word_count: u32,
    /// Whether a capture identical to the last saved one is skipped.
    pub deduplicate: bool,
}

impl Default for AccessibilityCaptureConfig {
    fn default() -> (r: Self)
        ensures
            !r.enabled,
            r.interval_secs == 10,
            r.min_word_count == 5,
            r.deduplicate,
    {
        AccessibilityCaptureConfig {
            enabled: false,
            interval_secs: 10,
            min_word_count: 5,
            deduplicate: true,
        }
    }
}

/// Counters of the service.
#[derive(Debug, Clone)]
pub struct AccessibilityCaptureStats {
    pub running: bool,
    pub capture_count: u64,
    pub saved_count: u64,
    pub skipped_count: u64,
    pub last_capture_ms: Option<i64>,
    pub last_app: Option<String>,
}

/// What to do with one capture.
#[derive(Debug, Clone, Copy, PartialEq, Eq, Structural)]
pub enum CaptureDecision {
    /// Fewer words than the minimum.
    TooShort,
    /// Same text as the last one saved.
    Duplicate,
    /// Save it, with this quality (tenths).
    Save(u32),
}

/// Quality of a capture, in tenths: 9 for an accessible window with more
/// than 20 words, 7 for another accessible one, 3 otherwise.
pub open spec fn quality_of(is_accessible: bool, word_count: nat) -> u32 {
    if is_accessible && word_count > 20 {
        9
    } else if is_accessible {
        7
    } else {
        3
    }
}

/// The text indexed for a capture: `[App: name] title`, then the text.
pub open spec fn context_of(app: Option<Seq<char>>, title: Option<Seq<char>>, text: Seq<char>) -> Seq<char> {
    "[App: "@ + match app {
        Some(a) => a,
        None => "Unknown"@,
    } + "] "@ + match title {
        Some(t) => t,
        None => Seq::<char>::empty(),
    } + "\n"@ + text
}

/// Builds the indexed text of a capture.
pub fn context_text(app_name: &Option<String>, window_title: &Option<String>, text: &str) -> (r: String)
    ensures
        r@ == context_of(opt_view(*app_name), opt_view(*window_title), text@),
{
    let mut out: Vec<char> = Vec::new();
    extend_str(&mut out, "[App: ");
    match app_name {
        Some(a) => extend_str(&mut out, a.as_str()),
        None => extend_str(&mut out, "Unknown"),
    }
    extend_str(&mut out, "] ");
    match window_title {
        Some(t) => extend_str(&mut out, t.as_str()),
        None => {},
    }
    extend_str(&mut out, "\n");
    extend_str(&mut out, text);
    string_of(&out)
}

/// The service's state.
pub struct AccessibilityCaptureService {
    pub running: bool,
    pub capture_count: u64,
    pub saved_count: u64,
    pub skipped_count: u64,
    /// Hash of the last text saved while deduplicating.
    pub last_text_hash: u64,
    pub last_capture_ms: Option<i64>,
    pub last_app: Option<String>,
    pub config: AccessibilityCaptureConfig,
    /// The last capture was decided to be saved, and its save is not yet counted.
    pub awaiting_save: bool,
}

impl AccessibilityCaptureService {
    /// Saves and skips never outnumber captures: each capture is skipped,
    /// saved, or still awaiting its save.
    pub open spec fn counts_consistent(&self) -> bool {
        self.saved_count + self.skipped_count + (if self.awaiting_save {
            1int
        } else {
            0int
        }) <= self.capture_count
    }
}

/// What `<str as Hash>::hash` does to a hasher whose writes so far are
/// `writes`: the writes after hashing `text` into it.
pub uninterp spec fn str_hash_writes(writes: Seq<Seq<u8>>, text: Seq<char>) -> Seq<Seq<u8>>;

/// Calls `<str as std::hash::Hash>::hash(text, hasher)`. Trusted: the
/// hasher's writes afterwards depend on its writes before and the text
/// alone (named `str_hash_writes`).
#[verifier::external_body]
fn hash_str_into(text: &str, hasher: &mut DefaultHasher)
    ensures
        final(hasher)@ == str_hash_writes(old(hasher)@, text@),
{
    std::hash::Hash::hash(text, hasher)
}

/// The hash of a text, as a `DefaultHasher` made by `DefaultHasher::new`
/// gives it when the text is hashed into it.
pub open spec fn default_text_hash(text: Seq<char>) -> u64 {
    DefaultHasher::spec_finish(str_hash_writes(Seq::empty(), text))
}

/// Hashes a text with a fresh `DefaultHasher` (not seeded per process).
fn hash_text(text: &str) -> (r: u64)
    ensures
        r == default_text_hash(text@),
{
    let mut hasher = DefaultHasher::new();
    hash_str_into(text, &mut hasher);
    hasher.finish()
}

/// Counters step as atomic counters do (wrapping).
pub open spec fn bump(n: u64) -> u64 {
    if n == u64::MAX {
        0
    } else {
        (n + 1) as u64
    }
}

fn bump_exec(n: u64) -> (r: u64)
    ensures
        r == bump(n),
{
    if n == u64::MAX {
        0
    } else {
        n + 1
    }
}

impl AccessibilityCaptureService {
    pub fn new() -> (r: Self)
        ensures
            !r.running,
            r.capture_count == 0,
            r.saved_count == 0,
            r.skipped_count == 0,
            r.last_text_hash == 0,
            r.last_capture_ms is None,
            r.last_app is None,
            !r.awaiting_save,
            r.counts_consistent(),
            r.config == (AccessibilityCaptureConfig {
                enabled: false,
                interval_secs: 10,
                min_word_count: 5,
                deduplicate: true,
            }),
    {
        AccessibilityCaptureService {
            running: false,
            capture_count: 0,
            saved_count: 0,
            skipped_count: 0,
            last_text_hash: 0,
            last_capture_ms: None,
            last_app: None,
            config: AccessibilityCaptureConfig::default(),
            awaiting_save: false,
        }
    }

    pub fn is_running(&self) -> (r: bool)
        ensures
            r == self.running,
    {
        self.running
    }

    pub fn get_stats(&self) -> (r: AccessibilityCaptureStats)
        ensures
            r.running == self.running,
            r.capture_count == self.capture_count,
            r.saved_count == self.saved_count,
            r.skipped_count == self.skipped_count,
            r.last_capture_ms == self.last_capture_ms,
            opt_view(r.last_app) == opt_view(self.last_app),
    {
        AccessibilityCaptureStats {
            running: self.running,
            capture_count: self.capture_count,
            saved_count: self.saved_count,
            skipped_count: self.skipped_count,
            last_capture_ms: self.last_capture_ms,
            last_app: clone_opt(&self.last_app),
        }
    }

    pub fn update_config(&mut self, config: AccessibilityCaptureConfig)
        ensures
            *final(self) == (AccessibilityCaptureService { config, ..*old(self) }),
    {
        self.config = config;
    }

    /// Starts the service; `permission_granted` says whether accessibility
    /// access is granted (the caller asks for it when it is not). Fails when
    /// already running or without permission.
    pub fn start(&mut self, permission_granted: bool) -> (r: Result<(), String>)
        ensures
            old(self).running ==> (r matches Err(e) && e@ == "Accessibility capture already running"@
                && *final(self) == *old(self)),
            !old(self).running && !permission_granted ==> (r matches Err(e) && e@
                == "Accessibility permission required"@ && *final(self) == *old(self)),
            !old(self).running && permission_granted ==> r is Ok && *final(self) == (
            AccessibilityCaptureService { running: true, ..*old(self) }),
    {
        if self.running {
            return Err(String::from_str("Accessibility capture already running"));
        }
        if !permission_granted {
            return Err(String::from_str("Accessibility permission required"));
        }
        self.running = true;
        Ok(())
    }

    pub fn stop(&mut self)
        ensures
            *final(self) == (AccessibilityCaptureService { running: false, ..*old(self) }),
    {
        self.running = false;
    }

    /// Records one capture at `now_ms` of `text` from `app_name`, and
    /// decides what to do with it: too short, the same text as the last one
    /// saved (when deduplicating, compared by hash), or to be saved.
    pub fn record_capture(
        &mut self,
        text: &str,
        app_name: Option<String>,
        is_accessible: bool,
        now_ms: i64,
    ) -> (r: CaptureDecision)
        ensures
            old(self).counts_consistent() && old(self).capture_count < u64::MAX
                ==> final(self).counts_consistent(),
            final(self).awaiting_save == (r is Save),
            ({
                let text_hash = default_text_hash(text@);
                let n = words(text@).len();
                let short = n < old(self).config.min_word_count;
                let dup = !short && old(self).config.deduplicate && text_hash == old(
                    self,
                ).last_text_hash;
                &&& r == if short {
                    CaptureDecision::TooShort
                } else if dup {
                    CaptureDecision::Duplicate
                } else {
                    CaptureDecision::Save(quality_of(is_accessible, n))
                }
                &&& final(self).capture_count == bump(old(self).capture_count)
                &&& final(self).skipped_count == if short || dup {
                    bump(old(self).skipped_count)
                } else {
                    old(self).skipped_count
                }
                &&& final(self).last_text_hash == if !short && !dup && old(self).config.deduplicate {
                    text_hash
                } else {
                    old(self).last_text_hash
                }
                &&& final(self).last_capture_ms == Some(now_ms)
                &&& final(self).last_app == app_name
                &&& final(self).saved_count == old(self).saved_count
                &&& final(self).running == old(self).running
                &&& final(self).config == old(self).config
            }),
    {
        let text_hash = hash_text(text);
        self.awaiting_save = false;
        self.capture_count = bump_exec(self.capture_count);
        self.last_capture_ms = Some(now_ms);
        self.last_app = app_name;
        let ws = split_words(&chars_of(text));
        let n = ws.len();
        if n < self.config.min_word_count as usize {
            self.skipped_count = bump_exec(self.skipped_count);
            return CaptureDecision::TooShort;
        }
        if self.config.deduplicate {
            if text_hash == self.last_text_hash {
                self.skipped_count = bump_exec(self.skipped_count);
                return CaptureDecision::Duplicate;
            }
            self.last_text_hash = text_hash;
        }
        let q: u32 = if is_accessible && n > 20 {
            9
        } else if is_accessible {
            7
        } else {
            3
        };
        self.awaiting_save = true;
        CaptureDecision::Save(q)
    }

    /// Counts the save of the capture last decided to be saved; without such
    /// a capture nothing changes.
    pub fn record_saved(&mut self)
        ensures
            *final(self) == if old(self).awaiting_save {
                AccessibilityCaptureService {
                    saved_count: bump(old(self).saved_count),
                    awaiting_save: false,
                    ..*old(self)
                }
            } else {
                *old(self)
            },
            old(self).counts_consistent() ==> final(self).counts_consistent(),
    {
        if self.awaiting_save {
            self.saved_count = bump_exec(self.saved_count);
            self.awaiting_save = false;
        }
    }
}

} // verus!
