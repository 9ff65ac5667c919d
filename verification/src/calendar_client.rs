//! Calendar events: which calendars are read, how events are cleaned up,
//! ordered and cached, which event is current, and where a meeting link is
//! found. Reading the system calendar store is left to the caller, who hands
//! the raw fields in. Times are milliseconds since the Unix epoch.
use vstd::prelude::*;
use crate::episode_builder::{clone_opt, opt_view};
use crate::text::{
    chars_of, contains_chars_vec, extend_str, find, find_chars, is_whitespace_char, is_ws,
    lemma_find_from_iff_occurs, lemma_find_from_range, occurs_at, lemma_rfind_range, rfind, rfind_chars, str_eq, string_of, sub_chars, views,
};

verus! {

/// One calendar event.
#[derive(Debug, Clone)]
pub struct CalendarEventNative {
    pub event_id: String,
    pub title: String,
    pub start_time_ms: i64,
    pub end_time_ms: i64,
    /// Location (a place or a link).
    pub location: Option<String>,
    /// Attendee e-mail addresses.
    pub attendees: Vec<String>,
    /// Name of the calendar the event belongs to.
    pub calendar_name: String,
    pub is_all_day: bool,
    /// Meeting link found in the location or notes.
    pub meeting_url: Option<String>,
    pub notes: Option<String>,
}

/// Access to the calendar store.
#[derive(Debug, Clone, Copy, PartialEq, Eq, Structural)]
pub enum CalendarAccessStatus {
    Authorized,
    Denied,
    Restricted,
    NotDetermined,
    Unknown,
}

/// The status for the store's authorization code (0 to 3; anything else is
/// unknown).
pub open spec fn status_of_code(code: i64) -> CalendarAccessStatus {
    if code == 0 {
        CalendarAccessStatus::NotDetermined
    } else if code == 1 {
        CalendarAccessStatus::Restricted
    } else if code == 2 {
        CalendarAccessStatus::Denied
    } else if code == 3 {
        CalendarAccessStatus::Authorized
    } else {
        CalendarAccessStatus::Unknown
    }
}

/// Maps the store's authorization code to a status.
pub fn access_status_from_code(code: i64) -> (r: CalendarAccessStatus)
    ensures
        r == status_of_code(code),
{
    match code {
        0 => CalendarAccessStatus::NotDetermined,
        1 => CalendarAccessStatus::Restricted,
        2 => CalendarAccessStatus::Denied,
        3 => CalendarAccessStatus::Authorized,
        _ => CalendarAccessStatus::Unknown,
    }
}

/// While access is being requested: the answer a status already gives
/// (`None` while the user has not decided).
pub fn access_answer(status: CalendarAccessStatus) -> (r: Option<bool>)
    ensures
        r == if status == CalendarAccessStatus::NotDetermined {
            None::<bool>
        } else {
            Some(status == CalendarAccessStatus::Authorized)
        },
{
    match status {
        CalendarAccessStatus::NotDetermined => None,
        CalendarAccessStatus::Authorized => Some(true),
        _ => Some(false),
    }
}

/// Before access is requested: whether the status already answers
/// (granted, or refused for good); `None` when the user must be asked.
pub fn initial_access_answer(status: CalendarAccessStatus) -> (r: Option<bool>)
    ensures
        r == match status {
            CalendarAccessStatus::Authorized => Some(true),
            CalendarAccessStatus::Denied => Some(false),
            CalendarAccessStatus::Restricted => Some(false),
            _ => None::<bool>,
        },
{
    match status {
        CalendarAccessStatus::Authorized => Some(true),
        CalendarAccessStatus::Denied => Some(false),
        CalendarAccessStatus::Restricted => Some(false),
        _ => None,
    }
}

/// Which events are read.
#[derive(Debug, Clone)]
pub struct CalendarConfig {
    /// How far ahead events are read, in hours.
    pub lookahead_hours: i64,
    /// How far back events are read, in hours.
    pub lookbehind_hours: i64,
    /// Calendars to read (empty: all).
    pub included_calendars: Vec<String>,
    /// Calendars never read.
    pub excluded_calendars: Vec<String>,
}

impl Default for CalendarConfig {
    fn default() -> (r: Self)
        ensures
            r.lookahead_hours == 24,
            r.lookbehind_hours == 2,
            r.included_calendars@.len() == 0,
            r.excluded_calendars@.len() == 2,
            r.excluded_calendars@[0]@ == "Birthdays"@,
            r.excluded_calendars@[1]@ == "Holidays"@,
    {
        CalendarConfig {
            lookahead_hours: 24,
            lookbehind_hours: 2,
            included_calendars: Vec::new(),
            excluded_calendars: vec![String::from_str("Birthdays"), String::from_str("Holidays")],
        }
    }
}

/// Views of a list of strings.
pub open spec fn string_views(v: Seq<String>) -> Seq<Seq<char>> {
    v.map_values(|s: String| s@)
}

/// Whether `name` is one of `list`.
pub fn string_listed(list: &Vec<String>, name: &str) -> (r: bool)
    ensures
        r == string_views(list@).contains(name@),
{
    let mut i: usize = 0;
    while i < list.len()
        invariant
            i <= list.len(),
            forall|j: int| 0 <= j < i ==> string_views(list@)[j] != name@,
        decreases list.len() - i,
    {
        if str_eq(list[i].as_str(), name) {
            assert(string_views(list@)[i as int] == name@);
            return true;
        }
        i += 1;
    }
    false
}

/// A calendar is read unless excluded, and, where calendars are listed for
/// inclusion, only if listed.
pub open spec fn calendar_selected(c: CalendarConfig, name: Seq<char>) -> bool {
    &&& !string_views(c.excluded_calendars@).contains(name)
    &&& (c.included_calendars@.len() == 0 || string_views(c.included_calendars@).contains(name))
}

impl CalendarConfig {
    /// Whether events of calendar `name` are read.
    pub fn selects_calendar(&self, name: &str) -> (r: bool)
        ensures
            r == calendar_selected(*self, name@),
    {
        if string_listed(&self.excluded_calendars, name) {
            return false;
        }
        self.included_calendars.len() == 0 || string_listed(&self.included_calendars, name)
    }

    /// The window of times read around `now_ms`: `lookbehind_hours` before
    /// to `lookahead_hours` after. Now and both ends are times `chrono`
    /// can represent.
    pub fn event_window(&self, now_ms: i64) -> (r: (i64, i64))
        requires
            EARLIEST_TIME_MS <= now_ms <= LATEST_TIME_MS,
            EARLIEST_TIME_MS <= now_ms - self.lookbehind_hours * 3_600_000 <= LATEST_TIME_MS,
            EARLIEST_TIME_MS <= now_ms + self.lookahead_hours * 3_600_000 <= LATEST_TIME_MS,
        ensures
            r.0 == now_ms - self.lookbehind_hours * 3_600_000,
            r.1 == now_ms + self.lookahead_hours * 3_600_000,
    {
        let lb = self.lookbehind_hours;
        let la = self.lookahead_hours;
        assert(-20_000_000_000_000_000 <= 3_600_000 * lb <= 20_000_000_000_000_000) by (nonlinear_arith)
            requires
                EARLIEST_TIME_MS <= now_ms - lb * 3_600_000 <= LATEST_TIME_MS,
                EARLIEST_TIME_MS <= now_ms <= LATEST_TIME_MS,
        ;
        assert(-20_000_000_000_000_000 <= 3_600_000 * la <= 20_000_000_000_000_000) by (nonlinear_arith)
            requires
                EARLIEST_TIME_MS <= now_ms + la * 3_600_000 <= LATEST_TIME_MS,
                EARLIEST_TIME_MS <= now_ms <= LATEST_TIME_MS,
        ;
        (now_ms - lb * 3_600_000, now_ms + la * 3_600_000)
    }
}

/// A text field as the event keeps it: an empty text is no text.
pub open spec fn optional_text_of(s: Seq<char>) -> Option<Seq<char>> {
    if s.len() == 0 {
        None
    } else {
        Some(s)
    }
}

/// Keeps a text field unless it is empty.
pub fn optional_text(s: String) -> (r: Option<String>)
    ensures
        opt_view(r) == optional_text_of(s@),
{
    if chars_of(s.as_str()).len() == 0 {
        None
    } else {
        Some(s)
    }
}

/// An attendee's address from its URL: without a leading `mailto:`; an
/// empty address is dropped.
pub open spec fn attendee_address(url: Seq<char>) -> Option<Seq<char>> {
    let m = "mailto:"@;
    let a = if url.len() >= m.len() && url.take(m.len() as int) == m {
        url.skip(m.len() as int)
    } else {
        url
    };
    optional_text_of(a)
}

/// Reads an attendee's address from its URL.
pub fn attendee_email(url: &str) -> (r: Option<String>)
    ensures
        opt_view(r) == attendee_address(url@),
{
    let cs = chars_of(url);
    let m = chars_of("mailto:");
    let mut has_prefix = cs.len() >= m.len();
    let mut i: usize = 0;
    while has_prefix && i < m.len()
        invariant
            i <= m.len(),
            has_prefix ==> cs@.len() >= m@.len(),
            has_prefix ==> forall|k: int| 0 <= k < i ==> cs@[k] == m@[k],
            !has_prefix ==> !(cs@.len() >= m@.len() && cs@.take(m@.len() as int) == m@),
        decreases m.len() - i,
    {
        if cs[i] != m[i] {
            assert(cs@.take(m@.len() as int)[i as int] != m@[i as int]);
            has_prefix = false;
        }
        i += 1;
    }
    let addr = if has_prefix {
        assert(cs@.take(m@.len() as int) =~= m@);
        let a = sub_chars(&cs, m.len(), cs.len());
        assert(a@ =~= cs@.skip(m@.len() as int));
        a
    } else {
        let a = sub_chars(&cs, 0, cs.len());
        assert(a@ =~= cs@);
        a
    };
    optional_text(string_of(&addr))
}

// ---------------------------------------------------------------------------
// Meeting links
// ---------------------------------------------------------------------------

/// The meeting services recognised, in the order they are looked for.
pub open spec fn meeting_patterns() -> Seq<Seq<char>> {
    seq![
        "zoom.us/j/"@, "meet.google.com/"@, "teams.microsoft.com/"@, "webex.com/"@,
        "whereby.com/"@,
    ]
}

/// Characters that end a link.
pub open spec fn ends_link(c: char) -> bool {
    is_ws(c) || c == '"' || c == '>' || c == '<'
}

/// First position at or after `k` of a character that ends a link (the end
/// of the text if there is none).
pub open spec fn link_end(s: Seq<char>, k: int) -> int
    decreases s.len() - k,
{
    if k >= s.len() {
        s.len() as int
    } else if k < 0 {
        link_end(s, 0)
    } else if ends_link(s[k]) {
        k
    } else {
        link_end(s, k + 1)
    }
}

/// The text searched for a link: location and notes, separated by a space.
pub open spec fn link_text(location: Option<Seq<char>>, notes: Option<Seq<char>>) -> Seq<char> {
    let l = match location {
        Some(t) => t,
        None => Seq::empty(),
    };
    let n = match notes {
        Some(t) => t,
        None => Seq::empty(),
    };
    l + " "@ + n
}

/// The link around the first match of the first pattern (from `k` on) that
/// occurs: it starts at the last `http` before the match (or at the match)
/// and ends before the first character that ends a link.
pub open spec fn link_from(text: Seq<char>, k: int) -> Option<Seq<char>>
    decreases 5 - k,
{
    if k < 0 || k >= 5 {
        None
    } else {
        match find(text, meeting_patterns()[k]) {
            Some(pos) => {
                let start = match rfind(text.take(pos), "http"@) {
                    Some(h) => h,
                    None => pos,
                };
                Some(text.subrange(start, link_end(text, pos)))
            },
            None => link_from(text, k + 1),
        }
    }
}

/// The meeting link in an event's location or notes.
pub open spec fn meeting_link(location: Option<Seq<char>>, notes: Option<Seq<char>>) -> Option<
    Seq<char>,
> {
    link_from(link_text(location, notes), 0)
}

/// `pat` occurs somewhere in `text`.
pub open spec fn mentions(text: Seq<char>, pat: Seq<char>) -> bool {
    exists|i: int| occurs_at(text, pat, i)
}

proof fn lemma_link_from_some(text: Seq<char>, k: int)
    requires
        0 <= k <= 5,
    ensures
        (link_from(text, k) is Some) <==> (exists|j: int|
            k <= j < 5 && #[trigger] mentions(text, meeting_patterns()[j])),
    decreases 5 - k,
{
    if k < 5 {
        lemma_find_from_iff_occurs(text, meeting_patterns()[k], 0);
        lemma_link_from_some(text, k + 1);
        if mentions(text, meeting_patterns()[k]) {
            let i = choose|i: int| occurs_at(text, meeting_patterns()[k], i);
            assert(0 <= i);
        }
        if exists|j: int| k <= j < 5 && #[trigger] mentions(text, meeting_patterns()[j]) {
            let j = choose|j: int| k <= j < 5 && #[trigger] mentions(text, meeting_patterns()[j]);
            if j == k {
                let i = choose|i: int| occurs_at(text, meeting_patterns()[k], i);
                assert(0 <= i && occurs_at(text, meeting_patterns()[k], i));
            }
        }
    }
}

/// No character of `p` ends a link.
pub open spec fn link_safe(p: Seq<char>) -> bool {
    forall|j: int| 0 <= j < p.len() ==> !ends_link(#[trigger] p[j])
}

proof fn lemma_link_end_past(s: Seq<char>, k: int, p: Seq<char>)
    requires
        occurs_at(s, p, k),
        link_safe(p),
    ensures
        link_end(s, k) >= k + p.len(),
    decreases p.len(),
{
    if p.len() == 0 {
        lemma_link_end_range(s, k);
    } else {
        assert(s[k] == p[0]);
        let q = p.subrange(1, p.len() as int);
        assert(s.subrange(k + 1, k + 1 + q.len()) =~= q);
        assert forall|j: int| 0 <= j < q.len() implies !ends_link(#[trigger] q[j]) by {
            assert(q[j] == p[j + 1]);
        }
        lemma_link_end_past(s, k + 1, q);
    }
}

proof fn lemma_patterns_link_safe()
    ensures
        forall|j: int| 0 <= j < 5 ==> link_safe(#[trigger] meeting_patterns()[j]),
{
    reveal_strlit("zoom.us/j/");
    reveal_strlit("meet.google.com/");
    reveal_strlit("teams.microsoft.com/");
    reveal_strlit("webex.com/");
    reveal_strlit("whereby.com/");
    assert(link_safe("zoom.us/j/"@));
    assert(link_safe("meet.google.com/"@));
    assert(link_safe("teams.microsoft.com/"@));
    assert(link_safe("webex.com/"@));
    assert(link_safe("whereby.com/"@));
}

spec fn mentions_pattern_from(u: Seq<char>, k: int) -> bool {
    exists|j: int| k <= j < 5 && #[trigger] mentions(u, meeting_patterns()[j])
}

spec fn first_mentioned_from(text: Seq<char>, u: Seq<char>, k: int) -> bool {
    exists|j: int|
        k <= j < 5 && #[trigger] mentions(u, meeting_patterns()[j]) && mentions(text, meeting_patterns()[j])
            && forall|i: int| k <= i < j ==> !mentions(text, #[trigger] meeting_patterns()[i])
}

proof fn lemma_link_from_contains_pattern(text: Seq<char>, k: int)
    requires
        0 <= k <= 5,
    ensures
        link_from(text, k) matches Some(u) ==> mentions_pattern_from(u, k) && first_mentioned_from(text, u, k),
    decreases 5 - k,
{
    if k < 5 {
        let p = meeting_patterns()[k];
        match find(text, p) {
            Some(pos) => {
                lemma_find_from_range(text, p, 0);
                lemma_patterns_link_safe();
                lemma_link_end_past(text, pos, p);
                lemma_link_end_range(text, pos);
                let head = text.take(pos);
                let start = match rfind(head, "http"@) {
                    Some(h) => h,
                    None => pos,
                };
                lemma_rfind_range(head, "http"@, head.len() - "http"@.len());
                assert(0 <= start <= pos);
                let end = link_end(text, pos);
                let u = text.subrange(start, end);
                assert(u.subrange(pos - start, pos - start + p.len()) =~= text.subrange(pos, pos + p.len()));
                assert(occurs_at(u, p, pos - start));
                assert(mentions(u, meeting_patterns()[k]));
                assert(link_from(text, k) == Some(u));
                assert(mentions_pattern_from(u, k));
                assert(occurs_at(text, p, pos));
                assert(mentions(text, meeting_patterns()[k]));
                assert(first_mentioned_from(text, u, k));
            },
            None => {
                lemma_link_from_contains_pattern(text, k + 1);
                assert(link_from(text, k) == link_from(text, k + 1));
                if let Some(u) = link_from(text, k + 1) {
                    assert(mentions_pattern_from(u, k + 1));
                    let j = choose|j: int| k + 1 <= j < 5 && #[trigger] mentions(u, meeting_patterns()[j]);
                    assert(k <= j < 5 && mentions(u, meeting_patterns()[j]));
                    assert(mentions_pattern_from(u, k));
                    assert(first_mentioned_from(text, u, k + 1));
                    lemma_find_from_iff_occurs(text, meeting_patterns()[k], 0);
                    assert(!mentions(text, meeting_patterns()[k])) by {
                        if mentions(text, meeting_patterns()[k]) {
                            let i = choose|i: int| occurs_at(text, meeting_patterns()[k], i);
                            assert(0 <= i && occurs_at(text, meeting_patterns()[k], i));
                        }
                    }
                    let j2 = choose|j: int|
                        k + 1 <= j < 5 && #[trigger] mentions(u, meeting_patterns()[j]) && mentions(
                            text,
                            meeting_patterns()[j],
                        ) && forall|i: int| k + 1 <= i < j ==> !mentions(text, #[trigger] meeting_patterns()[i]);
                    assert forall|i: int| k <= i < j2 implies !mentions(text, #[trigger] meeting_patterns()[i]) by {
                        if i > k {
                            assert(k + 1 <= i < j2);
                        }
                    }
                    assert(first_mentioned_from(text, u, k));
                }
            },
        }
    }
}

/// Law: a meeting link found in an event is a piece of its location or
/// notes that contains one of the five services' link patterns.
pub proof fn lemma_meeting_link_contains_service(location: Option<Seq<char>>, notes: Option<Seq<char>>)
    ensures
        meeting_link(location, notes) matches Some(u) ==> (mentions(u, "zoom.us/j/"@) || mentions(
            u,
            "meet.google.com/"@,
        ) || mentions(u, "teams.microsoft.com/"@) || mentions(u, "webex.com/"@) || mentions(
            u,
            "whereby.com/"@,
        )),
{
    let t = link_text(location, notes);
    lemma_link_from_contains_pattern(t, 0);
    if let Some(u) = meeting_link(location, notes) {
        assert(mentions_pattern_from(u, 0));
        let j = choose|j: int| 0 <= j < 5 && #[trigger] mentions(u, meeting_patterns()[j]);
        let ps = meeting_patterns();
        assert(ps[0] == "zoom.us/j/"@);
        assert(ps[1] == "meet.google.com/"@);
        assert(ps[2] == "teams.microsoft.com/"@);
        assert(ps[3] == "webex.com/"@);
        assert(ps[4] == "whereby.com/"@);
    }
}

/// Law: the services are looked for in order (Zoom, Google Meet, Teams,
/// Webex, Whereby): a found link contains the pattern of a service the
/// event mentions, and the event mentions no service listed before it.
pub proof fn lemma_meeting_link_follows_service_order(location: Option<Seq<char>>, notes: Option<Seq<char>>)
    ensures
        ({
            let t = link_text(location, notes);
            let services = seq![
                "zoom.us/j/"@, "meet.google.com/"@, "teams.microsoft.com/"@, "webex.com/"@,
                "whereby.com/"@,
            ];
            meeting_link(location, notes) matches Some(u) ==> exists|j: int|
                0 <= j < 5 && #[trigger] mentions(u, services[j]) && mentions(t, services[j])
                    && forall|i: int| 0 <= i < j ==> !mentions(t, #[trigger] services[i])
        }),
{
    let t = link_text(location, notes);
    lemma_link_from_contains_pattern(t, 0);
    let services = seq![
        "zoom.us/j/"@, "meet.google.com/"@, "teams.microsoft.com/"@, "webex.com/"@,
        "whereby.com/"@,
    ];
    assert(services =~= meeting_patterns());
    if let Some(u) = meeting_link(location, notes) {
        assert(first_mentioned_from(t, u, 0));
    }
}

/// Law: an event has a meeting link exactly when its location or notes
/// mention one of the five services' link patterns (Zoom, Google Meet,
/// Teams, Webex, Whereby).
pub proof fn lemma_meeting_link_found_iff_service_mentioned(
    location: Option<Seq<char>>,
    notes: Option<Seq<char>>,
)
    ensures
        ({
            let t = link_text(location, notes);
            (meeting_link(location, notes) is Some) <==> (mentions(t, "zoom.us/j/"@) || mentions(
                t,
                "meet.google.com/"@,
            ) || mentions(t, "teams.microsoft.com/"@) || mentions(t, "webex.com/"@) || mentions(
                t,
                "whereby.com/"@,
            ))
        }),
{
    let t = link_text(location, notes);
    lemma_link_from_some(t, 0);
    let ps = meeting_patterns();
    assert(ps[0] == "zoom.us/j/"@);
    assert(ps[1] == "meet.google.com/"@);
    assert(ps[2] == "teams.microsoft.com/"@);
    assert(ps[3] == "webex.com/"@);
    assert(ps[4] == "whereby.com/"@);
    if mentions(t, "zoom.us/j/"@) {
        assert(mentions(t, ps[0]));
    }
    if mentions(t, "meet.google.com/"@) {
        assert(mentions(t, ps[1]));
    }
    if mentions(t, "teams.microsoft.com/"@) {
        assert(mentions(t, ps[2]));
    }
    if mentions(t, "webex.com/"@) {
        assert(mentions(t, ps[3]));
    }
    if mentions(t, "whereby.com/"@) {
        assert(mentions(t, ps[4]));
    }
}

proof fn lemma_link_end_range(s: Seq<char>, k: int)
    requires
        0 <= k <= s.len(),
    ensures
        k <= link_end(s, k) <= s.len(),
    decreases s.len() - k,
{
    if k < s.len() && !ends_link(s[k]) {
        lemma_link_end_range(s, k + 1);
    }
}

fn find_link_end(s: &Vec<char>, k: usize) -> (r: usize)
    requires
        k <= s@.len(),
    ensures
        r == link_end(s@, k as int),
{
    let mut i = k;
    while i < s.len()
        invariant
            k <= i <= s@.len(),
            link_end(s@, k as int) == link_end(s@, i as int),
        decreases s.len() - i,
    {
        let c = s[i];
        if is_whitespace_char(c) || c == '"' || c == '>' || c == '<' {
            return i;
        }
        i += 1;
    }
    i
}

/// The meeting link (Zoom, Meet, Teams, Webex, Whereby) in an event's
/// location or notes, if any.
pub fn extract_meeting_url(location: &Option<String>, notes: &Option<String>) -> (r: Option<String>)
    ensures
        opt_view(r) == meeting_link(opt_view(*location), opt_view(*notes)),
{
    let mut text: Vec<char> = Vec::new();
    match location {
        Some(l) => extend_str(&mut text, l.as_str()),
        None => {},
    }
    extend_str(&mut text, " ");
    match notes {
        Some(n) => extend_str(&mut text, n.as_str()),
        None => {},
    }
    proof {
        assert(text@ =~= link_text(opt_view(*location), opt_view(*notes)));
    }
    let patterns: Vec<Vec<char>> = vec![
        chars_of("zoom.us/j/"), chars_of("meet.google.com/"), chars_of("teams.microsoft.com/"),
        chars_of("webex.com/"), chars_of("whereby.com/"),
    ];
    assert(views(patterns@) =~= meeting_patterns());
    let http = chars_of("http");
    let mut k: usize = 0;
    while k < 5
        invariant
            k <= 5,
            views(patterns@) == meeting_patterns(),
            patterns@.len() == 5,
            http@ == "http"@,
            text@ == link_text(opt_view(*location), opt_view(*notes)),
            link_from(text@, 0) == link_from(text@, k as int),
        decreases 5 - k,
    {
        assert(views(patterns@)[k as int] == patterns@[k as int]@);
        match find_chars(&text, &patterns[k]) {
            Some(pos) => {
                proof {
                    lemma_find_from_range(text@, patterns@[k as int]@, 0);
                }
                let head = sub_chars(&text, 0, pos);
                assert(head@ =~= text@.take(pos as int));
                let start = match rfind_chars(&head, &http) {
                    Some(h) => {
                        proof {
                            lemma_rfind_range(head@, http@, head@.len() - http@.len());
                        }
                        h
                    },
                    None => pos,
                };
                proof {
                    lemma_link_end_range(text@, pos as int);
                }
                let end = find_link_end(&text, pos);
                let link = sub_chars(&text, start, end);
                proof {
                    assert(meeting_patterns()[k as int] == patterns@[k as int]@);
                    assert(find(text@, meeting_patterns()[k as int]) == Some(pos as int));
                    assert(http@ == "http"@);
                    assert(start as int == match rfind(text@.take(pos as int), "http"@) {
                        Some(h) => h,
                        None => pos as int,
                    });
                    assert(end as int == link_end(text@, pos as int));
                    assert(link@ == text@.subrange(start as int, end as int));
                    assert(link_from(text@, k as int) == Some(link@));
                }
                return Some(string_of(&link));
            },
            None => {},
        }
        k += 1;
    }
    None
}

// ---------------------------------------------------------------------------
// Ordering, cache, current event
// ---------------------------------------------------------------------------

/// Number of leading events that start no later than `key`.
pub open spec fn starts_le_prefix(s: Seq<CalendarEventNative>, key: i64) -> nat
    decreases s.len(),
{
    if s.len() == 0 {
        0
    } else if s[0].start_time_ms <= key {
        1 + starts_le_prefix(s.drop_first(), key)
    } else {
        0
    }
}

/// Events ordered by start time, events with equal start times keeping their
/// order (what a stable sort by start time gives).
pub open spec fn by_start(s: Seq<CalendarEventNative>) -> Seq<CalendarEventNative>
    decreases s.len(),
{
    if s.len() == 0 {
        s
    } else {
        let t = by_start(s.drop_last());
        t.insert(starts_le_prefix(t, s.last().start_time_ms) as int, s.last())
    }
}

proof fn lemma_prefix_stop(s: Seq<CalendarEventNative>, key: i64, p: int)
    requires
        0 <= p <= s.len(),
        forall|k: int| 0 <= k < p ==> s[k].start_time_ms <= key,
        p == s.len() || s[p].start_time_ms > key,
    ensures
        starts_le_prefix(s, key) == p,
    decreases p,
{
    if p == 0 {
    } else {
        lemma_prefix_stop(s.drop_first(), key, p - 1);
    }
}

/// Events in non-decreasing order of start time.
pub open spec fn starts_sorted(s: Seq<CalendarEventNative>) -> bool {
    forall|i: int, j: int| 0 <= i < j < s.len() ==> s[i].start_time_ms <= s[j].start_time_ms
}

proof fn lemma_prefix_split(s: Seq<CalendarEventNative>, key: i64)
    requires
        starts_sorted(s),
    ensures
        starts_le_prefix(s, key) <= s.len(),
        forall|k: int| 0 <= k < starts_le_prefix(s, key) ==> s[k].start_time_ms <= key,
        forall|k: int| starts_le_prefix(s, key) <= k < s.len() ==> s[k].start_time_ms > key,
    decreases s.len(),
{
    if s.len() > 0 {
        let t = s.drop_first();
        assert forall|i: int, j: int| 0 <= i < j < t.len() implies t[i].start_time_ms
            <= t[j].start_time_ms by {
            assert(t[i] == s[i + 1] && t[j] == s[j + 1]);
        }
        lemma_prefix_split(t, key);
        if s[0].start_time_ms <= key {
            assert forall|k: int| 0 <= k < starts_le_prefix(s, key) implies s[k].start_time_ms
                <= key by {
                if k > 0 {
                    assert(s[k] == t[k - 1]);
                }
            }
            assert forall|k: int| starts_le_prefix(s, key) <= k < s.len() implies s[k].start_time_ms
                > key by {
                assert(s[k] == t[k - 1]);
            }
        } else {
            assert forall|k: int| 0 <= k < s.len() implies s[k].start_time_ms > key by {
                if k > 0 {
                    assert(s[0].start_time_ms <= s[k].start_time_ms);
                }
            }
        }
    }
}

proof fn lemma_insert_to_multiset<T>(s: Seq<T>, p: int, x: T)
    requires
        0 <= p <= s.len(),
    ensures
        s.insert(p, x).to_multiset() == s.to_multiset().insert(x),
{
    broadcast use vstd::seq_lib::group_to_multiset_ensures;

    let t = s.insert(p, x);
    assert(t.remove(p) =~= s);
    assert(t[p] == x);
    assert(t.contains(x));
    assert(t.to_multiset() =~= t.to_multiset().remove(x).insert(x));
}

/// Ordering events by start time gives them in non-decreasing order of
/// start time, and the same events (each as often).
pub proof fn lemma_by_start_sorted_permutation(s: Seq<CalendarEventNative>)
    ensures
        starts_sorted(by_start(s)),
        by_start(s).to_multiset() == s.to_multiset(),
    decreases s.len(),
{
    broadcast use vstd::seq_lib::group_to_multiset_ensures;

    if s.len() > 0 {
        let t = by_start(s.drop_last());
        lemma_by_start_sorted_permutation(s.drop_last());
        let x = s.last();
        let key = x.start_time_ms;
        lemma_prefix_split(t, key);
        let p = starts_le_prefix(t, key) as int;
        let u = t.insert(p, x);
        assert forall|i: int, j: int| 0 <= i < j < u.len() implies u[i].start_time_ms
            <= u[j].start_time_ms by {
            if j < p {
            } else if j == p {
                assert(u[i] == t[i]);
            } else if i < p {
                assert(u[j] == t[j - 1]);
            } else if i == p {
                assert(u[j] == t[j - 1]);
            } else {
                assert(u[i] == t[i - 1] && u[j] == t[j - 1]);
            }
        }
        lemma_insert_to_multiset(t, p, x);
        assert(s.drop_last().push(x) =~= s);
        s.drop_last().to_multiset_ensures();
    }
}

/// Orders events by start time, keeping the order of events that start
/// together.
pub fn sort_events_by_start(events: Vec<CalendarEventNative>) -> (r: Vec<CalendarEventNative>)
    ensures
        r@ == by_start(events@),
{
    let ghost orig = events@;
    let mut src = events;
    let mut out: Vec<CalendarEventNative> = Vec::new();
    let mut i: usize = 0;
    let n = src.len();
    while i < n
        invariant
            i <= n == orig.len(),
            src@ == orig.skip(i as int),
            out@ == by_start(orig.take(i as int)),
        decreases n - i,
    {
        let e = src.remove(0);
        assert(e == orig[i as int]);
        assert(src@ =~= orig.skip(i + 1));
        let key = e.start_time_ms;
        let mut p: usize = 0;
        while p < out.len() && out[p].start_time_ms <= key
            invariant
                p <= out@.len(),
                forall|k: int| 0 <= k < p ==> out@[k].start_time_ms <= key,
            decreases out.len() - p,
        {
            p += 1;
        }
        proof {
            lemma_prefix_stop(out@, key, p as int);
            assert(orig.take(i + 1).drop_last() =~= orig.take(i as int));
            assert(orig.take(i + 1).last() == e);
        }
        out.insert(p, e);
        i += 1;
    }
    proof {
        assert(orig.take(n as int) =~= orig);
    }
    out
}

/// Copies a list of strings.
pub fn clone_strings(v: &Vec<String>) -> (r: Vec<String>)
    ensures
        r@ == v@,
{
    let mut r: Vec<String> = Vec::new();
    let mut i: usize = 0;
    while i < v.len()
        invariant
            i <= v.len(),
            r@ == v@.take(i as int),
        decreases v.len() - i,
    {
        r.push(v[i].clone());
        proof {
            assert(v@.take(i + 1) =~= v@.take(i as int).push(v@[i as int]));
        }
        i += 1;
    }
    proof {
        assert(v@.take(v@.len() as int) =~= v@);
    }
    r
}

/// Two events with the same content.
pub open spec fn same_event(a: CalendarEventNative, b: CalendarEventNative) -> bool {
    &&& a.event_id == b.event_id
    &&& a.title == b.title
    &&& a.start_time_ms == b.start_time_ms
    &&& a.end_time_ms == b.end_time_ms
    &&& opt_view(a.location) == opt_view(b.location)
    &&& a.attendees@ == b.attendees@
    &&& a.calendar_name == b.calendar_name
    &&& a.is_all_day == b.is_all_day
    &&& opt_view(a.meeting_url) == opt_view(b.meeting_url)
    &&& opt_view(a.notes) == opt_view(b.notes)
}

/// Copies an event.
pub fn clone_event(e: &CalendarEventNative) -> (r: CalendarEventNative)
    ensures
        same_event(r, *e),
{
    CalendarEventNative {
        event_id: e.event_id.clone(),
        title: e.title.clone(),
        start_time_ms: e.start_time_ms,
        end_time_ms: e.end_time_ms,
        location: clone_opt(&e.location),
        attendees: clone_strings(&e.attendees),
        calendar_name: e.calendar_name.clone(),
        is_all_day: e.is_all_day,
        meeting_url: clone_opt(&e.meeting_url),
        notes: clone_opt(&e.notes),
    }
}

/// Copies a list of events.
pub fn clone_events(v: &Vec<CalendarEventNative>) -> (r: Vec<CalendarEventNative>)
    ensures
        r@.len() == v@.len(),
        forall|i: int| 0 <= i < v@.len() ==> same_event(#[trigger] r@[i], v@[i]),
{
    let mut r: Vec<CalendarEventNative> = Vec::new();
    let mut i: usize = 0;
    while i < v.len()
        invariant
            i <= v.len(),
            r@.len() == i,
            forall|k: int| 0 <= k < i ==> same_event(#[trigger] r@[k], v@[k]),
        decreases v.len() - i,
    {
        r.push(clone_event(&v[i]));
        i += 1;
    }
    r
}

/// Whole seconds between two times, truncated toward zero.
pub open spec fn elapsed_secs(from_ms: int, to_ms: int) -> int {
    let d = to_ms - from_ms;
    if d >= 0 {
        d / 1000
    } else {
        -((-d) / 1000)
    }
}

/// Events read last, kept for a while.
pub struct CalendarCache {
    pub events: Vec<CalendarEventNative>,
    /// When they were read.
    pub last_fetched_ms: Option<i64>,
    /// How long they are kept, in seconds.
    pub cache_duration_secs: i64,
}

impl Default for CalendarCache {
    fn default() -> (r: Self)
        ensures
            r.events@.len() == 0,
            r.last_fetched_ms is None,
            r.cache_duration_secs == 300,
    {
        CalendarCache { events: Vec::new(), last_fetched_ms: None, cache_duration_secs: 300 }
    }
}

/// The cache answers at `now_ms` when it was filled less than its duration
/// ago (in whole seconds).
pub open spec fn cache_fresh(c: CalendarCache, now_ms: int) -> bool {
    match c.last_fetched_ms {
        Some(t) => elapsed_secs(t as int, now_ms) < c.cache_duration_secs,
        None => false,
    }
}

impl CalendarCache {
    /// Whether the cached events may be used at `now_ms`.
    pub fn is_fresh(&self, now_ms: i64) -> (r: bool)
        ensures
            r == cache_fresh(*self, now_ms as int),
    {
        match self.last_fetched_ms {
            Some(t) => {
                let d: i128 = now_ms as i128 - t as i128;
                let secs: i128 = if d >= 0 {
                    d / 1000
                } else {
                    -((-d) / 1000)
                };
                secs < self.cache_duration_secs as i128
            },
            None => false,
        }
    }

    /// The cached events, if they may be used at `now_ms`.
    pub fn lookup(&self, now_ms: i64) -> (r: Option<Vec<CalendarEventNative>>)
        ensures
            r is Some <==> cache_fresh(*self, now_ms as int),
            r matches Some(v) ==> v@.len() == self.events@.len() && forall|i: int|
                0 <= i < v@.len() ==> same_event(#[trigger] v@[i], self.events@[i]),
    {
        if self.is_fresh(now_ms) {
            Some(clone_events(&self.events))
        } else {
            None
        }
    }

    /// Remembers events read at `now_ms`.
    pub fn store(&mut self, events: Vec<CalendarEventNative>, now_ms: i64)
        ensures
            final(self).events@ == events@,
            final(self).last_fetched_ms == Some(now_ms),
            final(self).cache_duration_secs == old(self).cache_duration_secs,
    {
        self.events = events;
        self.last_fetched_ms = Some(now_ms);
    }

    /// Forgets the cached events.
    pub fn clear(&mut self)
        ensures
            final(self).events@.len() == 0,
            final(self).last_fetched_ms is None,
            final(self).cache_duration_secs == old(self).cache_duration_secs,
    {
        self.events = Vec::new();
        self.last_fetched_ms = None;
    }
}

/// The calendar client's state: its configuration and its cache.
pub struct CalendarClient {
    pub config: CalendarConfig,
    pub cache: CalendarCache,
}

impl CalendarClient {
    pub fn new() -> (r: Self)
        ensures
            r.config.lookahead_hours == 24,
            r.config.lookbehind_hours == 2,
            r.config.included_calendars@.len() == 0,
            r.config.excluded_calendars@.len() == 2,
            r.config.excluded_calendars@[0]@ == "Birthdays"@,
            r.config.excluded_calendars@[1]@ == "Holidays"@,
            r.cache.events@.len() == 0,
            r.cache.last_fetched_ms is None,
            r.cache.cache_duration_secs == 300,
    {
        Self::with_config(CalendarConfig::default())
    }

    pub fn with_config(config: CalendarConfig) -> (r: Self)
        ensures
            r.config == config,
            r.cache.events@.len() == 0,
            r.cache.last_fetched_ms is None,
            r.cache.cache_duration_secs == 300,
    {
        CalendarClient { config, cache: CalendarCache::default() }
    }

    /// Clears the event cache.
    pub fn clear_cache(&mut self)
        ensures
            final(self).config == old(self).config,
            final(self).cache.events@.len() == 0,
            final(self).cache.last_fetched_ms is None,
            final(self).cache.cache_duration_secs == old(self).cache.cache_duration_secs,
    {
        self.cache.clear();
    }
}

/// Index of the event under way at `now_ms` (start and end included), else
/// of the first one starting within the next fifteen minutes.
pub open spec fn current_index(events: Seq<CalendarEventNative>, now_ms: int) -> Option<int> {
    match first_active(events, now_ms, 0) {
        Some(i) => Some(i),
        None => first_soon(events, now_ms, 0),
    }
}

/// First event from `k` on under way at `now_ms`.
pub open spec fn first_active(events: Seq<CalendarEventNative>, now_ms: int, k: int) -> Option<int>
    decreases events.len() - k,
{
    if k < 0 || k >= events.len() {
        None
    } else if events[k].start_time_ms <= now_ms <= events[k].end_time_ms {
        Some(k)
    } else {
        first_active(events, now_ms, k + 1)
    }
}

/// First event from `k` on starting after `now_ms` and at most fifteen
/// minutes later.
pub open spec fn first_soon(events: Seq<CalendarEventNative>, now_ms: int, k: int) -> Option<int>
    decreases events.len() - k,
{
    if k < 0 || k >= events.len() {
        None
    } else if now_ms < events[k].start_time_ms <= now_ms + 900_000 {
        Some(k)
    } else {
        first_soon(events, now_ms, k + 1)
    }
}

proof fn lemma_first_active_range(events: Seq<CalendarEventNative>, now_ms: int, k: int)
    ensures
        first_active(events, now_ms, k) matches Some(i) ==> k <= i < events.len(),
    decreases events.len() - k,
{
    if !(k < 0 || k >= events.len()) {
        lemma_first_active_range(events, now_ms, k + 1);
    }
}

proof fn lemma_first_soon_range(events: Seq<CalendarEventNative>, now_ms: int, k: int)
    ensures
        first_soon(events, now_ms, k) matches Some(i) ==> k <= i < events.len(),
    decreases events.len() - k,
{
    if !(k < 0 || k >= events.len()) {
        lemma_first_soon_range(events, now_ms, k + 1);
    }
}

/// Index of the current or imminent event at `now_ms`.
pub fn current_event_index(events: &Vec<CalendarEventNative>, now_ms: i64) -> (r: Option<usize>)
    ensures
        match r {
            Some(i) => current_index(events@, now_ms as int) == Some(i as int) && i < events@.len(),
            None => current_index(events@, now_ms as int) is None,
        },
{
    let mut i: usize = 0;
    while i < events.len()
        invariant
            i <= events@.len(),
            first_active(events@, now_ms as int, 0) == first_active(events@, now_ms as int, i as int),
        decreases events.len() - i,
    {
        if events[i].start_time_ms <= now_ms && now_ms <= events[i].end_time_ms {
            return Some(i);
        }
        i += 1;
    }
    let soon: i128 = now_ms as i128 + 900_000;
    let mut j: usize = 0;
    while j < events.len()
        invariant
            j <= events@.len(),
            soon == now_ms + 900_000,
            first_active(events@, now_ms as int, 0) is None,
            first_soon(events@, now_ms as int, 0) == first_soon(events@, now_ms as int, j as int),
        decreases events.len() - j,
    {
        let s = events[j].start_time_ms;
        if now_ms < s && (s as i128) <= soon {
            return Some(j);
        }
        j += 1;
    }
    None
}

/// The current or imminent event at `now_ms`, taken out of `events`.
pub fn current_event(events: Vec<CalendarEventNative>, now_ms: i64) -> (r: Option<
    CalendarEventNative,
>)
    ensures
        match current_index(events@, now_ms as int) {
            Some(i) => r == Some(events@[i]),
            None => r is None,
        },
{
    let mut events = events;
    match current_event_index(&events, now_ms) {
        Some(i) => Some(events.remove(i)),
        None => None,
    }
}

/// Earliest and latest times `chrono` represents, in milliseconds since the epoch.
pub const EARLIEST_TIME_MS: i64 = -8334601315200000;
pub const LATEST_TIME_MS: i64 = 8210266876799999;

/// The end of the look-ahead window: `hours` (a day when not given) from now.
pub open spec fn lookahead_end(now_ms: int, hours: Option<i64>) -> int {
    now_ms + 3_600_000 * match hours {
        Some(h) => h as int,
        None => 24,
    }
}

/// An event is upcoming when it is not all-day and starts after now, at the
/// latest at the end of the window.
pub open spec fn is_upcoming(e: CalendarEventNative, now_ms: int, end_ms: int) -> bool {
    !e.is_all_day && now_ms < e.start_time_ms && e.start_time_ms <= end_ms
}

/// Positions of the upcoming events, in order.
pub open spec fn upcoming_positions(events: Seq<CalendarEventNative>, now_ms: int, end_ms: int) -> Seq<usize>
    decreases events.len(),
{
    if events.len() == 0 {
        Seq::empty()
    } else {
        let rest = upcoming_positions(events.drop_last(), now_ms, end_ms);
        if is_upcoming(events.last(), now_ms, end_ms) {
            rest.push((events.len() - 1) as usize)
        } else {
            rest
        }
    }
}

/// Which events are upcoming within `hours` (a day when not given) of now.
/// Now and the end of that window are times `chrono` can represent.
pub fn upcoming_events(events: &Vec<CalendarEventNative>, now_ms: i64, hours: Option<i64>) -> (r: Vec<usize>)
    requires
        EARLIEST_TIME_MS <= now_ms <= LATEST_TIME_MS,
        EARLIEST_TIME_MS <= lookahead_end(now_ms as int, hours) <= LATEST_TIME_MS,
    ensures
        r@ == upcoming_positions(events@, now_ms as int, lookahead_end(now_ms as int, hours)),
{
    let h: i64 = match hours {
        Some(h) => h,
        None => 24,
    };
    assert(-20_000_000_000_000_000 <= 3_600_000 * h <= 20_000_000_000_000_000) by (nonlinear_arith)
        requires
            EARLIEST_TIME_MS <= now_ms + 3_600_000 * h <= LATEST_TIME_MS,
            EARLIEST_TIME_MS <= now_ms <= LATEST_TIME_MS,
    ;
    let end_ms: i64 = now_ms + 3_600_000 * h;
    let mut out: Vec<usize> = Vec::new();
    let mut i: usize = 0;
    while i < events.len()
        invariant
            i <= events.len(),
            end_ms == lookahead_end(now_ms as int, hours),
            out@ == upcoming_positions(events@.take(i as int), now_ms as int, end_ms as int),
        decreases events.len() - i,
    {
        proof {
            assert(events@.take(i + 1).drop_last() =~= events@.take(i as int));
            assert(events@.take(i + 1).last() == events@[i as int]);
        }
        let e = &events[i];
        if !e.is_all_day && now_ms < e.start_time_ms && e.start_time_ms <= end_ms {
            out.push(i);
        }
        i += 1;
    }
    proof {
        assert(events@.take(events.len() as int) =~= events@);
    }
    out
}

/// Positions of the events that are not all-day, in order.
pub open spec fn timed_positions(events: Seq<CalendarEventNative>) -> Seq<usize>
    decreases events.len(),
{
    if events.len() == 0 {
        Seq::empty()
    } else {
        let rest = timed_positions(events.drop_last());
        if !events.last().is_all_day {
            rest.push((events.len() - 1) as usize)
        } else {
            rest
        }
    }
}

/// Which events are enriched with attendee details: those that are not all-day.
pub fn timed_events(events: &Vec<CalendarEventNative>) -> (r: Vec<usize>)
    ensures
        r@ == timed_positions(events@),
{
    let mut out: Vec<usize> = Vec::new();
    let mut i: usize = 0;
    while i < events.len()
        invariant
            i <= events.len(),
            out@ == timed_positions(events@.take(i as int)),
        decreases events.len() - i,
    {
        proof {
            assert(events@.take(i + 1).drop_last() =~= events@.take(i as int));
            assert(events@.take(i + 1).last() == events@[i as int]);
        }
        if !events[i].is_all_day {
            out.push(i);
        }
        i += 1;
    }
    proof {
        assert(events@.take(events.len() as int) =~= events@);
    }
    out
}

} // verus!
