//! Groups screen states into document episodes: runs of continuous focus on
//! the same application and window. A new episode starts when the
//! application changes, when the window title changes enough, or when the
//! current episode has lasted too long.
//!
//! Times are milliseconds since the Unix epoch. The title-similarity
//! threshold is a percentage.
use vstd::prelude::*;
use crate::hashing::{new_uuid_v4, uuid_v4_text};
use crate::text::{chars_eq, chars_of, split_words, views, words};
use crate::wordset::{jaccard_words, word_set};

verus! {

/// The view of an optional string.
pub open spec fn opt_view(o: Option<String>) -> Option<Seq<char>> {
    match o {
        Some(s) => Some(s@),
        None => None,
    }
}

/// A copy of an optional string.
pub fn clone_opt(o: &Option<String>) -> (r: Option<String>)
    ensures
        opt_view(r) == opt_view(*o),
{
    match o {
        Some(s) => Some(s.clone()),
        None => None,
    }
}

/// Equality of optional strings by content.
pub fn opt_eq(a: &Option<String>, b: &Option<String>) -> (r: bool)
    ensures
        r == (opt_view(*a) == opt_view(*b)),
{
    match (a, b) {
        (Some(x), Some(y)) => chars_eq(&chars_of(x.as_str()), &chars_of(y.as_str())),
        (None, None) => true,
        _ => false,
    }
}

/// A screen state: one stretch of unchanged screen content.
#[derive(Debug, Clone)]
pub struct ScreenState {
    pub state_id: String,
    pub meeting_id: String,
    pub start_ts_ms: i64,
    pub end_ts_ms: Option<i64>,
    pub app_name: Option<String>,
    pub window_title: Option<String>,
}

/// Configuration for episode building.
#[derive(Debug, Clone, Copy, PartialEq, Eq, Structural)]
pub struct EpisodeConfig {
    /// Maximum episode duration before forcing a boundary (ms)
    pub max_episode_duration_ms: u64,
    /// Whether window title changes are episode boundaries
    pub title_change_is_boundary: bool,
    /// Minimum title similarity, in percent, to stay in the same episode
    pub title_similarity_threshold_pct: u32,
}

impl Default for EpisodeConfig {
    fn default() -> (r: Self)
        ensures
            r.max_episode_duration_ms == 300_000,
            r.title_change_is_boundary,
            r.title_similarity_threshold_pct == 80,
    {
        EpisodeConfig {
            max_episode_duration_ms: 300_000,
            title_change_is_boundary: true,
            title_similarity_threshold_pct: 80,
        }
    }
}

/// Document episode: continuous focus on the same app/window.
#[derive(Debug, Clone)]
pub struct DocumentEpisode {
    pub episode_id: String,
    pub meeting_id: String,
    pub start_ts_ms: i64,
    pub end_ts_ms: Option<i64>,
    pub app_name: Option<String>,
    pub window_title: Option<String>,
    pub document_fingerprint: Option<String>,
    pub state_ids: Vec<String>,
    pub state_count: i32,
}

/// The mathematical content of an episode.
pub struct EpisodeView {
    pub episode_id: Seq<char>,
    pub meeting_id: Seq<char>,
    pub start_ts_ms: int,
    pub end_ts_ms: Option<int>,
    pub app_name: Option<Seq<char>>,
    pub window_title: Option<Seq<char>>,
    pub document_fingerprint: Option<Seq<char>>,
    pub state_ids: Seq<Seq<char>>,
    pub state_count: int,
}

pub open spec fn string_views(v: Seq<String>) -> Seq<Seq<char>> {
    v.map_values(|s: String| s@)
}

pub open spec fn opt_int(o: Option<i64>) -> Option<int> {
    match o {
        Some(x) => Some(x as int),
        None => None,
    }
}

impl View for DocumentEpisode {
    type V = EpisodeView;

    open spec fn view(&self) -> EpisodeView {
        EpisodeView {
            episode_id: self.episode_id@,
            meeting_id: self.meeting_id@,
            start_ts_ms: self.start_ts_ms as int,
            end_ts_ms: opt_int(self.end_ts_ms),
            app_name: opt_view(self.app_name),
            window_title: opt_view(self.window_title),
            document_fingerprint: opt_view(self.document_fingerprint),
            state_ids: string_views(self.state_ids@),
            state_count: self.state_count as int,
        }
    }
}

/// A fresh episode opened by a state, under the given identifier.
pub open spec fn fresh_episode(meeting_id: Seq<char>, st: ScreenState, id: Seq<char>) -> EpisodeView {
    EpisodeView {
        episode_id: id,
        meeting_id,
        start_ts_ms: st.start_ts_ms as int,
        end_ts_ms: None,
        app_name: opt_view(st.app_name),
        window_title: opt_view(st.window_title),
        document_fingerprint: None,
        state_ids: Seq::empty(),
        state_count: 0,
    }
}

/// An episode with one more state linked to it.
pub open spec fn with_state(e: EpisodeView, st: ScreenState) -> EpisodeView {
    EpisodeView {
        state_ids: e.state_ids.push(st.state_id@),
        state_count: e.state_count + 1,
        end_ts_ms: Some(
            match st.end_ts_ms {
                Some(t) => t as int,
                None => st.start_ts_ms as int,
            },
        ),
        ..e
    }
}

/// The application changed between an episode and a state.
pub open spec fn app_changed(e: EpisodeView, st: ScreenState) -> bool {
    match (e.app_name, opt_view(st.app_name)) {
        (Some(a), Some(b)) => a != b,
        (None, None) => false,
        _ => true,
    }
}

/// Title similarity as a ratio `(shared, total)`: identical titles are fully
/// similar; otherwise the Jaccard similarity of their word sets, where a title
/// without words is fully similar only to an equally empty title.
pub open spec fn title_similarity(a: Seq<char>, b: Seq<char>) -> (int, int) {
    if a == b {
        (1, 1)
    } else {
        let wa = word_set(words(a));
        let wb = word_set(words(b));
        if wa.len() == 0 || wb.len() == 0 {
            if a.len() == 0 && b.len() == 0 {
                (1, 1)
            } else {
                (0, 1)
            }
        } else {
            (wa.intersect(wb).len() as int, wa.union(wb).len() as int)
        }
    }
}

/// The window title changed significantly (similarity below the threshold).
pub open spec fn title_changed(config: EpisodeConfig, e: EpisodeView, st: ScreenState) -> bool {
    match (e.window_title, opt_view(st.window_title)) {
        (Some(a), Some(b)) => {
            let (n, d) = title_similarity(a, b);
            100 * n < config.title_similarity_threshold_pct * d
        },
        _ => false,
    }
}

/// The state starts at least the maximum duration after the episode did
/// (a state earlier than the episode wraps around to a huge unsigned
/// duration, as the cast to `u64` does).
pub open spec fn duration_exceeded(config: EpisodeConfig, e: EpisodeView, st: ScreenState) -> bool {
    let d = st.start_ts_ms - e.start_ts_ms;
    let u = if d >= 0 {
        d
    } else {
        d + 0x1_0000_0000_0000_0000
    };
    u >= config.max_episode_duration_ms
}

/// The state opens a new episode.
pub open spec fn starts_new(config: EpisodeConfig, cur: Option<EpisodeView>, st: ScreenState) -> bool {
    match cur {
        None => true,
        Some(e) => app_changed(e, st) || (config.title_change_is_boundary && title_changed(
            config,
            e,
            st,
        )) || duration_exceeded(config, e, st),
    }
}

/// Result of processing a state.
#[derive(Debug)]
pub enum EpisodeProcessResult {
    /// State added to current episode
    Extended { episode_id: String },
    /// New episode started
    NewEpisode { completed_episode: Option<DocumentEpisode>, new_episode_id: String },
    /// No active meeting
    Inactive,
}

/// The mathematical content of a processing result.
pub enum ProcessView {
    Extended(Seq<char>),
    NewEpisode(Option<EpisodeView>, Seq<char>),
    Inactive,
}

pub open spec fn opt_episode_view(o: Option<DocumentEpisode>) -> Option<EpisodeView> {
    match o {
        Some(e) => Some(e@),
        None => None,
    }
}

impl View for EpisodeProcessResult {
    type V = ProcessView;

    open spec fn view(&self) -> ProcessView {
        match self {
            EpisodeProcessResult::Extended { episode_id } => ProcessView::Extended(episode_id@),
            EpisodeProcessResult::NewEpisode { completed_episode, new_episode_id } =>
                ProcessView::NewEpisode(opt_episode_view(*completed_episode), new_episode_id@),
            EpisodeProcessResult::Inactive => ProcessView::Inactive,
        }
    }
}

/// One processing step: the current episode afterwards and the result, for a
/// builder in `meeting` with episode `cur`, given the identifier a new
/// episode would get.
pub open spec fn step(
    config: EpisodeConfig,
    meeting: Option<Seq<char>>,
    cur: Option<EpisodeView>,
    st: ScreenState,
    new_id: Seq<char>,
) -> (Option<EpisodeView>, ProcessView) {
    match meeting {
        None => (cur, ProcessView::Inactive),
        Some(m) => if starts_new(config, cur, st) {
            (Some(with_state(fresh_episode(m, st, new_id), st)), ProcessView::NewEpisode(cur, new_id))
        } else {
            (Some(with_state(cur.unwrap(), st)), ProcessView::Extended(cur.unwrap().episode_id))
        },
    }
}

impl DocumentEpisode {
    /// A new, empty episode with a fresh random identifier.
    pub fn new(meeting_id: &str, start_ts_ms: i64, app_name: Option<&str>, window_title: Option<&str>) -> (r:
        Self)
        ensures
            uuid_v4_text(r.episode_id@),
            r.meeting_id@ == meeting_id@,
            r.start_ts_ms == start_ts_ms,
            r.end_ts_ms is None,
            opt_view(r.app_name) == (match app_name {
                Some(a) => Some(a@),
                None => None,
            }),
            opt_view(r.window_title) == (match window_title {
                Some(t) => Some(t@),
                None => None,
            }),
            r.document_fingerprint is None,
            r.state_ids@.len() == 0,
            r.state_count == 0,
    {
        DocumentEpisode {
            episode_id: new_uuid_v4(),
            meeting_id: String::from_str(meeting_id),
            start_ts_ms,
            end_ts_ms: None,
            app_name: match app_name {
                Some(a) => Some(String::from_str(a)),
                None => None,
            },
            window_title: match window_title {
                Some(t) => Some(String::from_str(t)),
                None => None,
            },
            document_fingerprint: None,
            state_ids: Vec::new(),
            state_count: 0,
        }
    }

    /// Duration in milliseconds (0 while the episode has no end).
    pub fn duration_ms(&self) -> (r: i64)
        requires
            self.end_ts_ms matches Some(e) ==> i64::MIN <= e - self.start_ts_ms <= i64::MAX,
        ensures
            r == match self.end_ts_ms {
                Some(e) => e - self.start_ts_ms,
                None => 0,
            },
    {
        match self.end_ts_ms {
            Some(end) => end - self.start_ts_ms,
            None => 0,
        }
    }
}

/// Episode builder for grouping states.
pub struct EpisodeBuilder {
    pub config: EpisodeConfig,
    pub meeting_id: Option<String>,
    pub current_episode: Option<DocumentEpisode>,
    pub sequence_num: i32,
}

impl EpisodeBuilder {
    pub open spec fn meeting(&self) -> Option<Seq<char>> {
        opt_view(self.meeting_id)
    }

    pub open spec fn current(&self) -> Option<EpisodeView> {
        opt_episode_view(self.current_episode)
    }

    /// There is room to link one more state to the current episode.
    pub open spec fn has_room(&self) -> bool {
        &&& self.sequence_num < i32::MAX
        &&& self.current_episode matches Some(e) ==> e.state_count < i32::MAX
    }

    pub fn new() -> (r: Self)
        ensures
            r.config.max_episode_duration_ms == 300_000,
            r.config.title_change_is_boundary,
            r.config.title_similarity_threshold_pct == 80,
            r.meeting() is None,
            r.current() is None,
            r.sequence_num == 0,
    {
        Self::with_config(EpisodeConfig::default())
    }

    pub fn with_config(config: EpisodeConfig) -> (r: Self)
        ensures
            r.config == config,
            r.meeting() is None,
            r.current() is None,
            r.sequence_num == 0,
    {
        EpisodeBuilder { config, meeting_id: None, current_episode: None, sequence_num: 0 }
    }

    /// Start tracking a new meeting (any open episode is dropped).
    pub fn start_meeting(&mut self, meeting_id: &str)
        ensures
            final(self).config == old(self).config,
            final(self).meeting() == Some(meeting_id@),
            final(self).current() is None,
            final(self).sequence_num == 0,
    {
        self.meeting_id = Some(String::from_str(meeting_id));
        self.current_episode = None;
        self.sequence_num = 0;
    }

    /// End the meeting and hand back the episode that was open.
    pub fn end_meeting(&mut self) -> (r: Option<DocumentEpisode>)
        ensures
            opt_episode_view(r) == old(self).current(),
            final(self).config == old(self).config,
            final(self).meeting() is None,
            final(self).current() is None,
            final(self).sequence_num == old(self).sequence_num,
    {
        self.meeting_id = None;
        self.finalize_current_episode()
    }

    /// Finalize all episodes (for a batch save at the end of a meeting).
    pub fn finalize_all(&mut self) -> (r: Vec<DocumentEpisode>)
        ensures
            r@.len() == if old(self).current() is Some {
                1int
            } else {
                0int
            },
            r@.len() == 1 ==> Some(r@[0]@) == old(self).current(),
            final(self).config == old(self).config,
            final(self).meeting() is None,
            final(self).current() is None,
    {
        let mut episodes: Vec<DocumentEpisode> = Vec::new();
        if let Some(episode) = self.finalize_current_episode() {
            episodes.push(episode);
        }
        self.meeting_id = None;
        episodes
    }

    /// Process a new screen state; a new episode gets a fresh random identifier.
    pub fn process_state(&mut self, state: &ScreenState) -> (r: EpisodeProcessResult)
        requires
            old(self).has_room(),
        ensures
            final(self).config == old(self).config,
            final(self).meeting() == old(self).meeting(),
            final(self).sequence_num == match r {
                EpisodeProcessResult::Inactive => old(self).sequence_num as int,
                EpisodeProcessResult::NewEpisode { .. } => 1int,
                EpisodeProcessResult::Extended { .. } => old(self).sequence_num + 1,
            },
            exists|id: Seq<char>|
                uuid_v4_text(id) && (final(self).current(), r@) == step(
                    old(self).config,
                    old(self).meeting(),
                    old(self).current(),
                    *state,
                    id,
                ),
    {
        let id = new_uuid_v4();
        let ghost gid = id@;
        let r = self.process_state_with_id(state, id);
        assert(uuid_v4_text(gid) && (self.current(), r@) == step(
            old(self).config,
            old(self).meeting(),
            old(self).current(),
            *state,
            gid,
        ));
        r
    }

    /// Process a new screen state; a new episode gets `new_episode_id`.
    pub fn process_state_with_id(&mut self, state: &ScreenState, new_episode_id: String) -> (r:
        EpisodeProcessResult)
        requires
            old(self).has_room(),
        ensures
            final(self).config == old(self).config,
            final(self).meeting() == old(self).meeting(),
            final(self).sequence_num == match r {
                EpisodeProcessResult::Inactive => old(self).sequence_num as int,
                EpisodeProcessResult::NewEpisode { .. } => 1int,
                EpisodeProcessResult::Extended { .. } => old(self).sequence_num + 1,
            },
            (final(self).current(), r@) == step(
                old(self).config,
                old(self).meeting(),
                old(self).current(),
                *state,
                new_episode_id@,
            ),
    {
        let meeting_id = match &self.meeting_id {
            Some(id) => id.clone(),
            None => {
                return EpisodeProcessResult::Inactive;
            },
        };
        let should_start_new = match &self.current_episode {
            None => true,
            Some(episode) => {
                if self.app_changed(episode, state) {
                    true
                } else if self.config.title_change_is_boundary && self.title_changed(
                    episode,
                    state,
                ) {
                    true
                } else {
                    self.max_duration_exceeded(episode, state)
                }
            },
        };
        let end = match state.end_ts_ms {
            Some(t) => t,
            None => state.start_ts_ms,
        };
        if should_start_new {
            let completed = self.finalize_current_episode();
            let new_id = new_episode_id.clone();
            self.open_new_episode(
                &meeting_id,
                state.start_ts_ms,
                clone_opt(&state.app_name),
                clone_opt(&state.window_title),
                new_episode_id,
            );
            self.add_state_to_episode(&state.state_id, end);
            EpisodeProcessResult::NewEpisode { completed_episode: completed, new_episode_id: new_id }
        } else {
            self.add_state_to_episode(&state.state_id, end);
            let episode_id = match &self.current_episode {
                Some(e) => e.episode_id.clone(),
                None => String::new(),
            };
            EpisodeProcessResult::Extended { episode_id }
        }
    }

    /// Identifier of the open episode.
    pub fn current_episode_id(&self) -> (r: Option<String>)
        ensures
            opt_view(r) == match self.current() {
                Some(e) => Some(e.episode_id),
                None => None,
            },
    {
        match &self.current_episode {
            Some(e) => Some(e.episode_id.clone()),
            None => None,
        }
    }

    /// Whether the application changed.
    pub fn app_changed(&self, episode: &DocumentEpisode, state: &ScreenState) -> (r: bool)
        ensures
            r == app_changed(episode@, *state),
    {
        match (&episode.app_name, &state.app_name) {
            (Some(a), Some(b)) => !chars_eq(&chars_of(a.as_str()), &chars_of(b.as_str())),
            (None, None) => false,
            _ => true,
        }
    }

    /// Whether the window title changed significantly.
    pub fn title_changed(&self, episode: &DocumentEpisode, state: &ScreenState) -> (r: bool)
        ensures
            r == title_changed(self.config, episode@, *state),
    {
        match (&episode.window_title, &state.window_title) {
            (Some(a), Some(b)) => {
                let (n, d) = self.title_similarity(a.as_str(), b.as_str());
                let pct = self.config.title_similarity_threshold_pct as u128;
                assert(pct * d <= 0xFFFF_FFFF * 0xFFFF_FFFF_FFFF_FFFF_FFFF_FFFF) by (nonlinear_arith)
                    requires
                        pct <= 0xFFFF_FFFF,
                        d <= 0xFFFF_FFFF_FFFF_FFFF_FFFF_FFFF,
                ;
                (100 * n) < (self.config.title_similarity_threshold_pct as u128) * d
            },
            _ => false,
        }
    }

    /// Title similarity as a ratio (see `title_similarity`).
    pub fn title_similarity(&self, a: &str, b: &str) -> (r: (u128, u128))
        ensures
            (r.0 as int, r.1 as int) == title_similarity(a@, b@),
            r.0 <= r.1,
            r.1 <= 0xFFFF_FFFF_FFFF_FFFF_FFFF_FFFF,
    {
        let ca = chars_of(a);
        let cb = chars_of(b);
        if chars_eq(&ca, &cb) {
            return (1, 1);
        }
        let wa = split_words(&ca);
        let wb = split_words(&cb);
        let sim = jaccard_words(&wa, &wb);
        proof {
            let A = word_set(words(a@));
            let B = word_set(words(b@));
            vstd::set_lib::lemma_len_intersect(A, B);
            vstd::set_lib::lemma_set_intersect_union_lens(A, B);
        }
        let ghost A = word_set(words(a@));
        let ghost B = word_set(words(b@));
        let empty_a = wa.len() == 0;
        let empty_b = wb.len() == 0;
        proof {
            words(a@).lemma_cardinality_of_empty_set_is_0();
            words(b@).lemma_cardinality_of_empty_set_is_0();
        }
        if empty_a || empty_b {
            if ca.len() == 0 && cb.len() == 0 {
                (1, 1)
            } else {
                (0, 1)
            }
        } else {
            proof {
                vstd::set_lib::lemma_len_union(A, B);
                words(a@).lemma_cardinality_of_set();
                words(b@).lemma_cardinality_of_set();
            }
            (sim.shared, sim.total)
        }
    }

    /// Whether the state starts at least the maximum duration after the episode.
    pub fn max_duration_exceeded(&self, episode: &DocumentEpisode, state: &ScreenState) -> (r: bool)
        ensures
            r == duration_exceeded(self.config, episode@, *state),
    {
        let d: i128 = state.start_ts_ms as i128 - episode.start_ts_ms as i128;
        let u: i128 = if d >= 0 {
            d
        } else {
            d + 0x1_0000_0000_0000_0000i128
        };
        u >= self.config.max_episode_duration_ms as i128
    }

    /// Take the open episode out.
    fn finalize_current_episode(&mut self) -> (r: Option<DocumentEpisode>)
        ensures
            opt_episode_view(r) == old(self).current(),
            final(self).current() is None,
            final(self).config == old(self).config,
            final(self).meeting() == old(self).meeting(),
            final(self).sequence_num == old(self).sequence_num,
    {
        self.current_episode.take()
    }

    /// Open a new episode.
    fn open_new_episode(
        &mut self,
        meeting_id: &String,
        start_ts_ms: i64,
        app_name: Option<String>,
        window_title: Option<String>,
        episode_id: String,
    )
        ensures
            final(self).current() == Some(
                EpisodeView {
                    episode_id: episode_id@,
                    meeting_id: meeting_id@,
                    start_ts_ms: start_ts_ms as int,
                    end_ts_ms: None,
                    app_name: opt_view(app_name),
                    window_title: opt_view(window_title),
                    document_fingerprint: None,
                    state_ids: Seq::empty(),
                    state_count: 0,
                },
            ),
            final(self).sequence_num == 0,
            final(self).config == old(self).config,
            final(self).meeting() == old(self).meeting(),
    {
        let episode = DocumentEpisode {
            episode_id,
            meeting_id: meeting_id.clone(),
            start_ts_ms,
            end_ts_ms: None,
            app_name,
            window_title,
            document_fingerprint: None,
            state_ids: Vec::new(),
            state_count: 0,
        };
        proof {
            assert(string_views(episode.state_ids@) =~= Seq::<Seq<char>>::empty());
        }
        self.current_episode = Some(episode);
        self.sequence_num = 0;
    }

    /// Link a state to the open episode.
    fn add_state_to_episode(&mut self, state_id: &String, end_ts_ms: i64)
        requires
            old(self).has_room(),
        ensures
            final(self).config == old(self).config,
            final(self).meeting() == old(self).meeting(),
            final(self).current() == match old(self).current() {
                Some(e) => Some(
                    EpisodeView {
                        state_ids: e.state_ids.push(state_id@),
                        state_count: e.state_count + 1,
                        end_ts_ms: Some(end_ts_ms as int),
                        ..e
                    },
                ),
                None => None,
            },
            old(self).current() is Some ==> final(self).sequence_num == old(self).sequence_num + 1,
    {
        match &mut self.current_episode {
            Some(episode) => {
                let ghost before = string_views(episode.state_ids@);
                episode.state_ids.push(state_id.clone());
                proof {
                    assert(string_views(episode.state_ids@) =~= before.push(state_id@));
                }
                episode.state_count = episode.state_count + 1;
                episode.end_ts_ms = Some(end_ts_ms);
                self.sequence_num = self.sequence_num + 1;
            },
            None => {},
        }
    }
}

/// Law: without an active meeting a state changes nothing and is reported inactive.
pub proof fn lemma_inactive_without_meeting(
    config: EpisodeConfig,
    cur: Option<EpisodeView>,
    st: ScreenState,
    id: Seq<char>,
)
    ensures
        step(config, None, cur, st, id) == (cur, ProcessView::Inactive),
{
}

/// Law: the first state of a meeting opens an episode that holds just that
/// state, and no episode is completed.
pub proof fn lemma_first_state_opens_episode(
    config: EpisodeConfig,
    m: Seq<char>,
    st: ScreenState,
    id: Seq<char>,
)
    ensures
        step(config, Some(m), None, st, id) == (
            Some(with_state(fresh_episode(m, st, id), st)),
            ProcessView::NewEpisode(None, id),
        ),
        with_state(fresh_episode(m, st, id), st).state_ids == seq![st.state_id@],
{
    assert(Seq::<Seq<char>>::empty().push(st.state_id@) =~= seq![st.state_id@]);
}

/// Law: a state from the same application with the same window title that
/// starts within the maximum duration extends the open episode (for a
/// similarity threshold of at most 100%).
pub proof fn lemma_same_window_extends_episode(
    config: EpisodeConfig,
    m: Seq<char>,
    e: EpisodeView,
    st: ScreenState,
    id: Seq<char>,
)
    requires
        config.title_similarity_threshold_pct <= 100,
        e.app_name == opt_view(st.app_name),
        e.window_title == opt_view(st.window_title),
        0 <= st.start_ts_ms - e.start_ts_ms < config.max_episode_duration_ms,
    ensures
        step(config, Some(m), Some(e), st, id) == (
            Some(with_state(e, st)),
            ProcessView::Extended(e.episode_id),
        ),
{
    if let Some(t) = e.window_title {
        assert(title_similarity(t, t) == (1int, 1int));
    }
    assert(!app_changed(e, st));
    assert(!title_changed(config, e, st));
    assert(!duration_exceeded(config, e, st));
}

/// Law: with title changes as boundaries, a state whose window title has
/// words but shares too few of them with the open episode's titled window
/// (shared words over all words, in percent, below the threshold) closes
/// that episode and opens a new one.
pub proof fn lemma_dissimilar_title_starts_new_episode(
    config: EpisodeConfig,
    m: Seq<char>,
    e: EpisodeView,
    st: ScreenState,
    id: Seq<char>,
    a: Seq<char>,
    b: Seq<char>,
)
    requires
        config.title_change_is_boundary,
        e.window_title == Some(a),
        opt_view(st.window_title) == Some(b),
        word_set(words(a)).len() > 0,
        word_set(words(b)).len() > 0,
        100 * word_set(words(a)).intersect(word_set(words(b))).len()
            < config.title_similarity_threshold_pct * word_set(words(a)).union(
            word_set(words(b)),
        ).len(),
    ensures
        starts_new(config, Some(e), st),
        step(config, Some(m), Some(e), st, id) == (
            Some(with_state(fresh_episode(m, st, id), st)),
            ProcessView::NewEpisode(Some(e), id),
        ),
{
    let wa = word_set(words(a));
    let wb = word_set(words(b));
    if a == b {
        assert(wa.intersect(wb) =~= wa);
        assert(wa.union(wb) =~= wa);
        let n = wa.len();
        let t = config.title_similarity_threshold_pct;
        assert(100 < t) by (nonlinear_arith)
            requires
                n > 0,
                100 * n < t * n,
        ;
    }
    assert(title_changed(config, e, st));
}

/// Law: a state from the same application, within the maximum duration,
/// whose window title shares enough words with the open episode's title
/// (shared over all words, in percent, at least the threshold) extends the
/// open episode.
pub proof fn lemma_similar_title_extends_episode(
    config: EpisodeConfig,
    m: Seq<char>,
    e: EpisodeView,
    st: ScreenState,
    id: Seq<char>,
    a: Seq<char>,
    b: Seq<char>,
)
    requires
        e.app_name == opt_view(st.app_name),
        0 <= st.start_ts_ms - e.start_ts_ms < config.max_episode_duration_ms,
        e.window_title == Some(a),
        opt_view(st.window_title) == Some(b),
        word_set(words(a)).len() > 0,
        word_set(words(b)).len() > 0,
        100 * word_set(words(a)).intersect(word_set(words(b))).len()
            >= config.title_similarity_threshold_pct * word_set(words(a)).union(
            word_set(words(b)),
        ).len(),
    ensures
        step(config, Some(m), Some(e), st, id) == (
            Some(with_state(e, st)),
            ProcessView::Extended(e.episode_id),
        ),
{
    let wa = word_set(words(a));
    let wb = word_set(words(b));
    if a == b {
        assert(wa.intersect(wb) =~= wa);
        assert(wa.union(wb) =~= wa);
        let n = wa.len();
        let t = config.title_similarity_threshold_pct;
        assert(100 >= t) by (nonlinear_arith)
            requires
                n > 0,
                100 * n >= t * n,
        ;
    }
    assert(!app_changed(e, st));
    assert(!title_changed(config, e, st));
    assert(!duration_exceeded(config, e, st));
}

/// Law: with title changes as boundaries (at any positive threshold), a
/// state whose window title shares no word with the open episode's title,
/// both titles having words, starts a new episode.
pub proof fn lemma_unrelated_title_starts_new_episode(
    config: EpisodeConfig,
    m: Seq<char>,
    e: EpisodeView,
    st: ScreenState,
    id: Seq<char>,
    a: Seq<char>,
    b: Seq<char>,
)
    requires
        config.title_change_is_boundary,
        config.title_similarity_threshold_pct > 0,
        e.window_title == Some(a),
        opt_view(st.window_title) == Some(b),
        word_set(words(a)).len() > 0,
        word_set(words(b)).len() > 0,
        word_set(words(a)).disjoint(word_set(words(b))),
    ensures
        starts_new(config, Some(e), st),
        step(config, Some(m), Some(e), st, id) == (
            Some(with_state(fresh_episode(m, st, id), st)),
            ProcessView::NewEpisode(Some(e), id),
        ),
{
    let wa = word_set(words(a));
    let wb = word_set(words(b));
    broadcast use vstd::seq_lib::seq_to_set_is_finite;
    assert(wa.intersect(wb) =~= Set::<Seq<char>>::empty());
    vstd::set_lib::lemma_len_subset(wa, wa.union(wb));
    let u = wa.union(wb).len();
    let t = config.title_similarity_threshold_pct;
    assert(100 * 0 < t * u) by (nonlinear_arith)
        requires
            t > 0,
            u > 0,
    ;
    lemma_dissimilar_title_starts_new_episode(config, m, e, st, id, a, b);
}

/// Law: a state that starts the maximum episode duration or more after the
/// open episode started closes it and opens a new one, whatever its
/// application and title.
pub proof fn lemma_long_episode_is_closed(
    config: EpisodeConfig,
    m: Seq<char>,
    e: EpisodeView,
    st: ScreenState,
    id: Seq<char>,
)
    requires
        st.start_ts_ms - e.start_ts_ms >= config.max_episode_duration_ms,
    ensures
        step(config, Some(m), Some(e), st, id) == (
            Some(with_state(fresh_episode(m, st, id), st)),
            ProcessView::NewEpisode(Some(e), id),
        ),
{
    assert(duration_exceeded(config, e, st));
}

/// Law: a state from another application closes the open episode, which is
/// handed back as completed, and opens a new one.
pub proof fn lemma_app_change_starts_new_episode(
    config: EpisodeConfig,
    m: Seq<char>,
    e: EpisodeView,
    st: ScreenState,
    id: Seq<char>,
)
    requires
        app_changed(e, st),
    ensures
        step(config, Some(m), Some(e), st, id) == (
            Some(with_state(fresh_episode(m, st, id), st)),
            ProcessView::NewEpisode(Some(e), id),
        ),
{
}

/// Law: during a meeting every processed state is linked, as the last state,
/// to the episode that is open afterwards, and the episode's state count
/// grows by one.
pub proof fn lemma_state_is_linked(
    config: EpisodeConfig,
    m: Seq<char>,
    cur: Option<EpisodeView>,
    st: ScreenState,
    id: Seq<char>,
)
    ensures
        ({
            let (next, _) = step(config, Some(m), cur, st, id);
            &&& next is Some
            &&& next.unwrap().state_ids.last() == st.state_id@
            &&& next.unwrap().meeting_id == if starts_new(config, cur, st) {
                m
            } else {
                cur.unwrap().meeting_id
            }
            &&& next.unwrap().state_count == if starts_new(config, cur, st) {
                1
            } else {
                cur.unwrap().state_count + 1
            }
        }),
{
}

impl Default for EpisodeBuilder {
    fn default() -> (r: Self)
        ensures
            r.config.max_episode_duration_ms == 300_000,
            r.meeting() is None,
            r.current() is None,
    {
        Self::new()
    }
}

} // verus!
