//! Rules of the session settings: which work themes exist and what choosing
//! one switches on, which session modes exist, and when a configured model
//! counts as available.
use vstd::prelude::*;
use crate::text::{chars_of, extend_str, str_eq, string_of};

verus! {

/// A work theme, each with its own capture interval.
#[derive(PartialEq, Eq, Structural, Clone, Copy, Debug)]
pub enum Theme {
    Prospecting,
    Fundraising,
    ProductDev,
    Admin,
    Personal,
}

pub open spec fn theme_name(t: Theme) -> Seq<char> {
    match t {
        Theme::Prospecting => "prospecting"@,
        Theme::Fundraising => "fundraising"@,
        Theme::ProductDev => "product_dev"@,
        Theme::Admin => "admin"@,
        Theme::Personal => "personal"@,
    }
}

impl Theme {
    /// The theme's name.
    pub fn name(&self) -> (r: &'static str)
        ensures
            r@ == theme_name(*self),
    {
        match self {
            Theme::Prospecting => "prospecting",
            Theme::Fundraising => "fundraising",
            Theme::ProductDev => "product_dev",
            Theme::Admin => "admin",
            Theme::Personal => "personal",
        }
    }

    /// Meeting-heavy themes switch microphone transcription on; the others off.
    pub fn enables_microphone(&self) -> (r: bool)
        ensures
            r == (*self == Theme::Prospecting || *self == Theme::Fundraising),
    {
        match self {
            Theme::Prospecting | Theme::Fundraising => true,
            _ => false,
        }
    }
}

/// The theme a name stands for; other names are refused, listing the valid ones.
pub fn parse_theme(name: &str) -> (r: Result<Theme, String>)
    ensures
        match r {
            Ok(t) => theme_name(t) == name@,
            Err(e) => (forall|t: Theme| theme_name(t) != name@) && e@ == "Invalid theme: "@ + name@
                + ". Must be one of: [\"prospecting\", \"fundraising\", \"product_dev\", \"admin\", \"personal\"]"@,
        },
{
    proof {
        reveal_strlit("prospecting");
        reveal_strlit("fundraising");
        reveal_strlit("product_dev");
        reveal_strlit("admin");
        reveal_strlit("personal");
    }
    if str_eq(name, "prospecting") {
        Ok(Theme::Prospecting)
    } else if str_eq(name, "fundraising") {
        Ok(Theme::Fundraising)
    } else if str_eq(name, "product_dev") {
        Ok(Theme::ProductDev)
    } else if str_eq(name, "admin") {
        Ok(Theme::Admin)
    } else if str_eq(name, "personal") {
        Ok(Theme::Personal)
    } else {
        let mut v: Vec<char> = Vec::new();
        extend_str(&mut v, "Invalid theme: ");
        extend_str(&mut v, name);
        extend_str(
            &mut v,
            ". Must be one of: [\"prospecting\", \"fundraising\", \"product_dev\", \"admin\", \"personal\"]",
        );
        Err(string_of(&v))
    }
}

/// Distinct themes have distinct names, so a theme's name stands for that
/// theme alone.
pub proof fn lemma_theme_names_distinct(a: Theme, b: Theme)
    ensures
        theme_name(a) == theme_name(b) ==> a == b,
{
    reveal_strlit("prospecting");
    reveal_strlit("fundraising");
    reveal_strlit("product_dev");
    reveal_strlit("admin");
    reveal_strlit("personal");
    if a != b {
        assert(theme_name(a).len() != theme_name(b).len() || theme_name(a)[0] != theme_name(b)[0]
            || theme_name(a)[3] != theme_name(b)[3]);
    }
}

/// How a session is recorded.
#[derive(PartialEq, Eq, Structural, Clone, Copy, Debug)]
pub enum SessionMode {
    Standard,
    Dork,
}

pub open spec fn mode_name(m: SessionMode) -> Seq<char> {
    match m {
        SessionMode::Standard => "standard"@,
        SessionMode::Dork => "dork"@,
    }
}

/// The session mode a name stands for; other names are refused.
pub fn parse_session_mode(name: &str) -> (r: Result<SessionMode, String>)
    ensures
        match r {
            Ok(m) => mode_name(m) == name@,
            Err(e) => (forall|m: SessionMode| mode_name(m) != name@) && e@ == "Invalid session mode: "@
                + name@ + ". Use 'standard' or 'dork'"@,
        },
{
    proof {
        reveal_strlit("standard");
        reveal_strlit("dork");
    }
    if str_eq(name, "standard") {
        Ok(SessionMode::Standard)
    } else if str_eq(name, "dork") {
        Ok(SessionMode::Dork)
    } else {
        let mut v: Vec<char> = Vec::new();
        extend_str(&mut v, "Invalid session mode: ");
        extend_str(&mut v, name);
        extend_str(&mut v, ". Use 'standard' or 'dork'");
        Err(string_of(&v))
    }
}

/// Distinct session modes have distinct names.
pub proof fn lemma_mode_names_distinct(a: SessionMode, b: SessionMode)
    ensures
        mode_name(a) == mode_name(b) ==> a == b,
{
    reveal_strlit("standard");
    reveal_strlit("dork");
    if a != b {
        assert(mode_name(a).len() != mode_name(b).len());
    }
}

/// A configured model is available when the model server lists a model
/// whose name starts with the configured name.
pub open spec fn model_listed(listed: Seq<Seq<char>>, config_name: Seq<char>) -> bool {
    exists|i: int| 0 <= i < listed.len() && #[trigger] listed[i].len() >= config_name.len()
        && listed[i].take(config_name.len() as int) == config_name
}

fn starts_with_chars(s: &Vec<char>, prefix: &Vec<char>) -> (r: bool)
    ensures
        r == (s@.len() >= prefix@.len() && s@.take(prefix@.len() as int) == prefix@),
{
    if s.len() < prefix.len() {
        return false;
    }
    let mut i: usize = 0;
    while i < prefix.len()
        invariant
            i <= prefix.len() <= s.len(),
            s@.take(i as int) == prefix@.take(i as int),
        decreases prefix.len() - i,
    {
        if s[i] != prefix[i] {
            assert(s@.take(prefix@.len() as int)[i as int] != prefix@[i as int]);
            return false;
        }
        proof {
            assert(s@.take(i + 1) =~= s@.take(i as int).push(s@[i as int]));
            assert(prefix@.take(i + 1) =~= prefix@.take(i as int).push(prefix@[i as int]));
        }
        i += 1;
    }
    assert(prefix@.take(prefix@.len() as int) =~= prefix@);
    true
}

/// Whether a configured model is among those the server lists.
pub fn model_available(listed: &Vec<String>, config_name: &str) -> (r: bool)
    ensures
        r == model_listed(crate::calendar_client::string_views(listed@), config_name@),
{
    let prefix = chars_of(config_name);
    let mut i: usize = 0;
    while i < listed.len()
        invariant
            i <= listed.len(),
            prefix@ == config_name@,
            forall|j: int| 0 <= j < i ==> !(#[trigger] crate::calendar_client::string_views(listed@)[j].len()
                >= config_name@.len() && crate::calendar_client::string_views(listed@)[j].take(
                config_name@.len() as int,
            ) == config_name@),
        decreases listed.len() - i,
    {
        let name = chars_of(listed[i].as_str());
        if starts_with_chars(&name, &prefix) {
            assert(crate::calendar_client::string_views(listed@)[i as int] == listed@[i as int]@);
            return true;
        }
        i += 1;
    }
    false
}

} // verus!
