//! Attendee intelligence: names and companies read from e-mail addresses,
//! and the prompts, fallbacks and packages of a meeting briefing. The model
//! calls themselves are made by the caller, who hands each reply back
//! (`None` where the service failed).
use vstd::prelude::*;
use crate::text::{
    contains_chars_vec, extend_chars, extend_str, lemma_views_push, before_first, capitalize_all, capitalized_all, chars_before, chars_of, chars_second_field, join,
    join_chars, lowercase, second_field, split_tokens, str_eq, string_of, to_lowercase_str, tokens,
    views,
};

verus! {

/// Profile of one meeting attendee.
#[derive(Debug, Clone)]
pub struct AttendeeProfile {
    pub email: String,
    pub name: String,
    pub company: String,
    pub company_domain: String,
    pub briefing: String,
}

/// Profile of a company seen among the attendees' addresses.
#[derive(Debug, Clone)]
pub struct CompanyProfile {
    pub domain: String,
    pub name: String,
    pub briefing: String,
}

/// Everything prepared for one meeting.
#[derive(Debug, Clone)]
pub struct MeetingIntelPackage {
    pub event_title: String,
    pub attendees: Vec<AttendeeProfile>,
    pub companies: Vec<CompanyProfile>,
    pub meeting_prep: String,
}

/// Mail domains that belong to no company.
pub open spec fn personal_domains() -> Seq<Seq<char>> {
    seq![
        "gmail.com"@, "yahoo.com"@, "hotmail.com"@, "outlook.com"@, "icloud.com"@,
        "aol.com"@, "protonmail.com"@, "mail.com"@, "live.com"@, "me.com"@, "msn.com"@,
        "ymail.com"@, "proton.me"@, "fastmail.com"@, "hey.com"@,
    ]
}

fn personal_domain_list() -> (r: Vec<String>)
    ensures
        r@.map_values(|s: String| s@) == personal_domains(),
{
    let r = vec![
        String::from_str("gmail.com"), String::from_str("yahoo.com"),
        String::from_str("hotmail.com"), String::from_str("outlook.com"),
        String::from_str("icloud.com"), String::from_str("aol.com"),
        String::from_str("protonmail.com"), String::from_str("mail.com"),
        String::from_str("live.com"), String::from_str("me.com"), String::from_str("msn.com"),
        String::from_str("ymail.com"), String::from_str("proton.me"),
        String::from_str("fastmail.com"), String::from_str("hey.com"),
    ];
    assert(r@.map_values(|s: String| s@) =~= personal_domains());
    r
}

/// Whether a (lowercase) domain is a personal mail domain.
pub fn is_personal_domain(domain: &str) -> (r: bool)
    ensures
        r == personal_domains().contains(domain@),
{
    let list = personal_domain_list();
    let ghost names = list@.map_values(|s: String| s@);
    let mut i: usize = 0;
    while i < list.len()
        invariant
            i <= list.len(),
            names == list@.map_values(|s: String| s@),
            names == personal_domains(),
            forall|j: int| 0 <= j < i ==> names[j] != domain@,
        decreases list.len() - i,
    {
        if str_eq(list[i].as_str(), domain) {
            assert(names[i as int] == domain@);
            return true;
        }
        i += 1;
    }
    proof {
        if personal_domains().contains(domain@) {
            let j = choose|j: int| 0 <= j < names.len() && names[j] == domain@;
            assert(names[j] != domain@);
        }
    }
    false
}

/// Separators inside the local part of an address.
pub open spec fn name_separators() -> Seq<char> {
    seq!['.', '_', '-']
}

/// Separators inside a company's part of a domain.
pub open spec fn company_separators() -> Seq<char> {
    seq!['-', '_']
}

/// Display name read from an address: the part before `@` cut at `.`, `_`
/// and `-`, each piece capitalised, joined by spaces; the address itself when
/// no piece is left.
pub open spec fn email_name(email: Seq<char>) -> Seq<char> {
    let parts = tokens(before_first(email, '@'), name_separators());
    if parts.len() == 0 {
        email
    } else {
        join(capitalized_all(parts), " "@)
    }
}

/// Lowercase domain of an address: what follows the first `@` up to the next
/// one, or `unknown.com` for an address without `@`.
pub open spec fn email_domain(email: Seq<char>) -> Seq<char> {
    lowercase(
        match second_field(email, '@') {
            Some(f) => f,
            None => "unknown.com"@,
        },
    )
}

/// Company name of a domain: `Personal` for a personal mail domain, else the
/// part before the first `.`, cut at `-` and `_`, each piece capitalised and
/// joined by spaces.
pub open spec fn domain_company(domain: Seq<char>) -> Seq<char> {
    if personal_domains().contains(domain) {
        "Personal"@
    } else {
        join(capitalized_all(tokens(before_first(domain, '.'), company_separators())), " "@)
    }
}

/// A personal mail domain belongs to no company: its company is `Personal`.
pub proof fn lemma_personal_domain_is_personal(domain: Seq<char>)
    requires
        personal_domains().contains(domain),
    ensures
        domain_company(domain) == "Personal"@,
{
}

/// Extracts a display name from an e-mail address
/// ("casey.potenzone@company.com" gives "Casey Potenzone").
pub fn extract_name_from_email(email: &str) -> (r: String)
    ensures
        r@ == email_name(email@),
{
    let cs = chars_of(email);
    let local = chars_before(&cs, '@');
    let seps = vec!['.', '_', '-'];
    assert(seps@ =~= name_separators());
    let parts = split_tokens(&local, &seps);
    if parts.len() == 0 {
        return string_of(&cs);
    }
    let caps = capitalize_all(&parts);
    let sep = vec![' '];
    proof {
        reveal_strlit(" ");
        assert(sep@ =~= " "@);
    }
    let joined = join_chars(&caps, &sep);
    string_of(&joined)
}

/// Extracts the company domain and name from an e-mail address
/// ("casey@acme-corp.com" gives ("acme-corp.com", "Acme Corp")).
pub fn extract_company_from_email(email: &str) -> (r: (String, String))
    ensures
        r.0@ == email_domain(email@),
        r.1@ == domain_company(email_domain(email@)),
{
    let cs = chars_of(email);
    let raw = match chars_second_field(&cs, '@') {
        Some(f) => string_of(&f),
        None => String::from_str("unknown.com"),
    };
    let domain = to_lowercase_str(raw.as_str());
    if is_personal_domain(domain.as_str()) {
        return (domain, String::from_str("Personal"));
    }
    let dc = chars_of(domain.as_str());
    let head = chars_before(&dc, '.');
    let seps = vec!['-', '_'];
    assert(seps@ =~= company_separators());
    let parts = split_tokens(&head, &seps);
    let caps = capitalize_all(&parts);
    let sep = vec![' '];
    proof {
        reveal_strlit(" ");
        assert(sep@ =~= " "@);
    }
    let joined = join_chars(&caps, &sep);
    (domain, string_of(&joined))
}

// ---------------------------------------------------------------------------
// Briefings
// ---------------------------------------------------------------------------

/// The company shown for an attendee: the given one, unless it is empty or
/// `Personal`, in which case the one read from the address.
pub open spec fn shown_company(company: Seq<char>, from_address: Seq<char>) -> Seq<char> {
    if company.len() == 0 || company == "Personal"@ {
        from_address
    } else {
        company
    }
}

/// The prompt asking for a person's briefing.
pub open spec fn person_prompt(name: Seq<char>, email: Seq<char>, shown: Seq<char>) -> Seq<char> {
    "You are a business intelligence analyst preparing a meeting briefing.\n\nBased on the following information, provide a concise professional profile:\n\nName: "@ + name + "\nEmail: "@ + email + "\nCompany: "@ + shown + "\n\nProvide the following in concise markdown (no heading, just content):\n1. **Likely Role**: Best guess at their position/title based on name and company context\n2. **Company Context**: One-line description of what "@ + shown + " does\n3. **Talking Points**: 2-3 suggested topics for conversation\n4. **Notes**: Any relevant context (industry trends, company news patterns)\n\nKeep it brief and actionable — this is a quick reference card, not a report.\nIf you're uncertain about specifics, say \"likely\" or \"estimated\" rather than guessing definitively."@
}

/// The briefing used when the model could not be reached.
pub open spec fn person_fallback(name: Seq<char>, shown: Seq<char>, email: Seq<char>) -> Seq<char> {
    "**"@ + name + "** — "@ + shown + " ("@ + email + ")\n\n*Briefing not available — AI service unavailable*"@
}

/// The company shown for an attendee, as `generate_person_briefing` picks it.
pub fn company_display(company: &str, email: &str) -> (r: String)
    ensures
        r@ == shown_company(company@, domain_company(email_domain(email@))),
{
    let (_domain, from_address) = extract_company_from_email(email);
    if chars_of(company).len() == 0 || str_eq(company, "Personal") {
        from_address
    } else {
        String::from_str(company)
    }
}

/// The prompt for a person's briefing.
pub fn person_briefing_prompt(name: &str, email: &str, company: &str) -> (r: String)
    ensures
        r@ == person_prompt(
            name@,
            email@,
            shown_company(company@, domain_company(email_domain(email@))),
        ),
{
    let shown = company_display(company, email);
    let mut out: Vec<char> = Vec::new();
    extend_str(&mut out, "You are a business intelligence analyst preparing a meeting briefing.\n\nBased on the following information, provide a concise professional profile:\n\nName: ");
    extend_str(&mut out, name);
    extend_str(&mut out, "\nEmail: ");
    extend_str(&mut out, email);
    extend_str(&mut out, "\nCompany: ");
    extend_str(&mut out, shown.as_str());
    extend_str(&mut out, "\n\nProvide the following in concise markdown (no heading, just content):\n1. **Likely Role**: Best guess at their position/title based on name and company context\n2. **Company Context**: One-line description of what ");
    extend_str(&mut out, shown.as_str());
    extend_str(&mut out, " does\n3. **Talking Points**: 2-3 suggested topics for conversation\n4. **Notes**: Any relevant context (industry trends, company news patterns)\n\nKeep it brief and actionable — this is a quick reference card, not a report.\nIf you're uncertain about specifics, say \"likely\" or \"estimated\" rather than guessing definitively.");
    string_of(&out)
}

/// The attendee profile built from the model's reply (`None` where the call
/// failed, which gives the fallback briefing).
pub fn person_profile(name: &str, email: &str, company: &str, reply: Option<String>) -> (r:
    AttendeeProfile)
    ensures
        r.email@ == email@,
        r.name@ == name@,
        r.company@ == shown_company(company@, domain_company(email_domain(email@))),
        r.company_domain@ == email_domain(email@),
        r.briefing@ == match reply {
            Some(t) => t@,
            None => person_fallback(name@, r.company@, email@),
        },
{
    let (domain, _name) = extract_company_from_email(email);
    let shown = company_display(company, email);
    let briefing = match reply {
        Some(t) => t,
        None => {
            let mut out: Vec<char> = Vec::new();
            extend_str(&mut out, "**");
            extend_str(&mut out, name);
            extend_str(&mut out, "** — ");
            extend_str(&mut out, shown.as_str());
            extend_str(&mut out, " (");
            extend_str(&mut out, email);
            extend_str(&mut out, ")\n\n*Briefing not available — AI service unavailable*");
            string_of(&out)
        },
    };
    AttendeeProfile {
        email: String::from_str(email),
        name: String::from_str(name),
        company: shown,
        company_domain: domain,
        briefing,
    }
}

/// A company gets a briefing unless its domain is empty or it is `Personal`.
pub open spec fn wants_company_briefing(domain: Seq<char>, company_name: Seq<char>) -> bool {
    !(domain.len() == 0 || company_name == "Personal"@)
}

/// Executable `wants_company_briefing`.
pub fn company_briefing_wanted(domain: &str, company_name: &str) -> (r: bool)
    ensures
        r == wants_company_briefing(domain@, company_name@),
{
    !(chars_of(domain).len() == 0 || str_eq(company_name, "Personal"))
}

/// The prompt asking for a company's briefing.
pub open spec fn company_prompt(company_name: Seq<char>, domain: Seq<char>) -> Seq<char> {
    "You are a business intelligence analyst. Provide a concise company overview.\n\nCompany: "@ + company_name + "\nDomain: "@ + domain + "\n\nProvide in concise markdown (no heading, just content):\n1. **Industry**: What sector/industry they operate in\n2. **Overview**: 2-3 sentence description of what they do\n3. **Size**: Estimated company size (startup, mid-market, enterprise) if inferable\n4. **Key Products/Services**: Main offerings\n5. **Meeting Context**: Common topics when meeting with people from this type of company\n\nKeep it brief. If uncertain, note it. This is a quick reference, not a research report."@
}

/// The prompt for a company's briefing.
pub fn company_briefing_prompt(company_name: &str, domain: &str) -> (r: String)
    ensures
        r@ == company_prompt(company_name@, domain@),
{
    let mut out: Vec<char> = Vec::new();
    extend_str(&mut out, "You are a business intelligence analyst. Provide a concise company overview.\n\nCompany: ");
    extend_str(&mut out, company_name);
    extend_str(&mut out, "\nDomain: ");
    extend_str(&mut out, domain);
    extend_str(&mut out, "\n\nProvide in concise markdown (no heading, just content):\n1. **Industry**: What sector/industry they operate in\n2. **Overview**: 2-3 sentence description of what they do\n3. **Size**: Estimated company size (startup, mid-market, enterprise) if inferable\n4. **Key Products/Services**: Main offerings\n5. **Meeting Context**: Common topics when meeting with people from this type of company\n\nKeep it brief. If uncertain, note it. This is a quick reference, not a research report.");
    string_of(&out)
}

/// The briefing of a company without a profile.
pub open spec fn personal_company_briefing() -> Seq<char> {
    "*Personal email domain — no company profile available.*"@
}

/// The company briefing used when the model could not be reached.
pub open spec fn company_fallback(company_name: Seq<char>, domain: Seq<char>) -> Seq<char> {
    "**"@ + company_name + "** ("@ + domain + ")\n\n*Company briefing not available — AI service unavailable*"@
}

/// The company profile: a fixed text for a company without a briefing (the
/// reply is then not asked for, and ignored), else the model's reply or the
/// fallback.
pub fn company_profile(domain: &str, company_name: &str, reply: Option<String>) -> (r:
    CompanyProfile)
    ensures
        r.domain@ == domain@,
        r.name@ == company_name@,
        r.briefing@ == if !wants_company_briefing(domain@, company_name@) {
            personal_company_briefing()
        } else {
            match reply {
                Some(t) => t@,
                None => company_fallback(company_name@, domain@),
            }
        },
{
    let briefing = if !company_briefing_wanted(domain, company_name) {
        String::from_str("*Personal email domain — no company profile available.*")
    } else {
        match reply {
            Some(t) => t,
            None => {
                let mut out: Vec<char> = Vec::new();
                extend_str(&mut out, "**");
                extend_str(&mut out, company_name);
                extend_str(&mut out, "** (");
                extend_str(&mut out, domain);
                extend_str(&mut out, ")\n\n*Company briefing not available — AI service unavailable*");
                string_of(&out)
            },
        }
    };
    CompanyProfile {
        domain: String::from_str(domain),
        name: String::from_str(company_name),
        briefing,
    }
}

// ---------------------------------------------------------------------------
// Meeting package
// ---------------------------------------------------------------------------

/// What is known of one attendee before any model call.
#[derive(Debug, Clone)]
pub struct AttendeePlan {
    pub email: String,
    pub name: String,
    pub domain: String,
    pub company_name: String,
    /// No earlier attendee has this domain: its company briefing is made here.
    pub first_of_domain: bool,
}

/// The plan of attendee `i`.
pub open spec fn plans_attendee(emails: Seq<String>, i: int, p: AttendeePlan) -> bool {
    let e = emails[i]@;
    &&& p.email@ == e
    &&& p.name@ == email_name(e)
    &&& p.domain@ == email_domain(e)
    &&& p.company_name@ == domain_company(email_domain(e))
    &&& p.first_of_domain == forall|j: int|
        0 <= j < i ==> #[trigger] email_domain(emails[j]@) != email_domain(e)
}

/// Plans a meeting package: per attendee, in order, its name, domain and
/// company, and whether its domain is seen here first.
pub fn plan_meeting_intel(emails: &Vec<String>) -> (r: Vec<AttendeePlan>)
    ensures
        r@.len() == emails@.len(),
        forall|i: int| 0 <= i < r@.len() ==> plans_attendee(emails@, i, #[trigger] r@[i]),
{
    let mut r: Vec<AttendeePlan> = Vec::new();
    let mut seen: Vec<Vec<char>> = Vec::new();
    let mut i: usize = 0;
    while i < emails.len()
        invariant
            i <= emails.len(),
            r@.len() == i,
            seen@.len() == i,
            forall|k: int| 0 <= k < i ==> plans_attendee(emails@, k, #[trigger] r@[k]),
            forall|k: int| 0 <= k < i ==> #[trigger] views(seen@)[k] == email_domain(emails@[k]@),
        decreases emails.len() - i,
    {
        let email = emails[i].as_str();
        let name = extract_name_from_email(email);
        let (domain, company_name) = extract_company_from_email(email);
        let dc = chars_of(domain.as_str());
        let known = contains_chars_vec(&seen, &dc);
        proof {
            if known {
                let j = choose|j: int| 0 <= j < views(seen@).len() && views(seen@)[j] == dc@;
                assert(email_domain(emails@[j]@) == email_domain(emails@[i as int]@));
            } else {
                assert forall|j: int| 0 <= j < i implies #[trigger] email_domain(emails@[j]@)
                    != email_domain(emails@[i as int]@) by {
                    assert(views(seen@)[j] == email_domain(emails@[j]@));
                }
            }
            lemma_views_push(seen@, dc);
        }
        r.push(AttendeePlan {
            email: String::from_str(email),
            name,
            domain,
            company_name,
            first_of_domain: !known,
        });
        seen.push(dc);
        i += 1;
    }
    r
}

/// One attendee's line in the meeting prompt.
pub open spec fn attendee_line(a: AttendeeProfile) -> Seq<char> {
    "- "@ + a.name@ + " ("@ + a.company@ + ") — "@ + a.email@
}

/// One company's line in the meeting prompt.
pub open spec fn company_line(c: CompanyProfile) -> Seq<char> {
    "- "@ + c.name@ + " ("@ + c.domain@ + ")"@
}

/// The lines of the attendees.
pub open spec fn attendee_lines(a: Seq<AttendeeProfile>) -> Seq<Seq<char>> {
    a.map_values(|x: AttendeeProfile| attendee_line(x))
}

/// The lines of the companies other than `Personal`, in order.
pub open spec fn company_lines(c: Seq<CompanyProfile>) -> Seq<Seq<char>>
    decreases c.len(),
{
    if c.len() == 0 {
        Seq::empty()
    } else if c.last().name@ == "Personal"@ {
        company_lines(c.drop_last())
    } else {
        company_lines(c.drop_last()).push(company_line(c.last()))
    }
}

/// The companies' part of the meeting prompt.
pub open spec fn companies_text(c: Seq<CompanyProfile>) -> Seq<char> {
    if company_lines(c).len() == 0 {
        "None identified"@
    } else {
        join(company_lines(c), "\n"@)
    }
}

/// The prompt asking for the meeting prep.
pub open spec fn prep_prompt(
    title: Seq<char>,
    a: Seq<AttendeeProfile>,
    c: Seq<CompanyProfile>,
) -> Seq<char> {
    "You are a meeting preparation assistant. Create a concise meeting prep brief.\n\nMeeting: "@ + title + "\n\nAttendees:\n"@ + join(attendee_lines(a), "\n"@) + "\n\nCompanies Represented:\n"@ + companies_text(c) + "\n\nGenerate a brief meeting prep document in markdown (no top-level heading) including:\n1. **Meeting Overview**: One-line purpose estimate based on title and attendees\n2. **Key People**: Quick reference for each attendee (name, role, what to discuss)\n3. **Conversation Strategy**: 3-4 suggested topics or approaches\n4. **Questions to Ask**: 2-3 questions tailored to the attendees and likely meeting purpose\n\nBe concise and actionable."@
}

/// The meeting prep used when the model could not be reached.
pub open spec fn prep_fallback(title: Seq<char>, a: Seq<AttendeeProfile>) -> Seq<char> {
    "**Meeting**: "@ + title + "\n\n**Attendees**: "@ + join(
        a.map_values(|x: AttendeeProfile| x.name@),
        ", "@,
    ) + "\n\n*Meeting prep not available — AI service unavailable*"@
}

fn attendee_line_vec(attendees: &Vec<AttendeeProfile>) -> (r: Vec<Vec<char>>)
    ensures
        views(r@) == attendee_lines(attendees@),
{
    let mut r: Vec<Vec<char>> = Vec::new();
    let mut i: usize = 0;
    while i < attendees.len()
        invariant
            i <= attendees.len(),
            views(r@) == attendee_lines(attendees@.take(i as int)),
        decreases attendees.len() - i,
    {
        let a = &attendees[i];
        let mut line: Vec<char> = Vec::new();
        extend_str(&mut line, "- ");
        extend_str(&mut line, a.name.as_str());
        extend_str(&mut line, " (");
        extend_str(&mut line, a.company.as_str());
        extend_str(&mut line, ") — ");
        extend_str(&mut line, a.email.as_str());
        proof {
            lemma_views_push(r@, line);
            assert(attendee_lines(attendees@.take(i + 1)) =~= attendee_lines(
                attendees@.take(i as int),
            ).push(attendee_line(attendees@[i as int])));
        }
        r.push(line);
        i += 1;
    }
    proof {
        assert(attendees@.take(attendees@.len() as int) =~= attendees@);
    }
    r
}

fn attendee_name_vec(attendees: &Vec<AttendeeProfile>) -> (r: Vec<Vec<char>>)
    ensures
        views(r@) == attendees@.map_values(|x: AttendeeProfile| x.name@),
{
    let mut r: Vec<Vec<char>> = Vec::new();
    let mut i: usize = 0;
    while i < attendees.len()
        invariant
            i <= attendees.len(),
            views(r@) == attendees@.take(i as int).map_values(|x: AttendeeProfile| x.name@),
        decreases attendees.len() - i,
    {
        let n = chars_of(attendees[i].name.as_str());
        proof {
            lemma_views_push(r@, n);
            assert(attendees@.take(i + 1).map_values(|x: AttendeeProfile| x.name@)
                =~= attendees@.take(i as int).map_values(|x: AttendeeProfile| x.name@).push(
                attendees@[i as int].name@,
            ));
        }
        r.push(n);
        i += 1;
    }
    proof {
        assert(attendees@.take(attendees@.len() as int) =~= attendees@);
    }
    r
}

fn company_line_vec(companies: &Vec<CompanyProfile>) -> (r: Vec<Vec<char>>)
    ensures
        views(r@) == company_lines(companies@),
{
    let mut r: Vec<Vec<char>> = Vec::new();
    let mut i: usize = 0;
    while i < companies.len()
        invariant
            i <= companies.len(),
            views(r@) == company_lines(companies@.take(i as int)),
        decreases companies.len() - i,
    {
        let c = &companies[i];
        proof {
            assert(companies@.take(i + 1).drop_last() =~= companies@.take(i as int));
            assert(companies@.take(i + 1).last() == companies@[i as int]);
        }
        if !str_eq(c.name.as_str(), "Personal") {
            let mut line: Vec<char> = Vec::new();
            extend_str(&mut line, "- ");
            extend_str(&mut line, c.name.as_str());
            extend_str(&mut line, " (");
            extend_str(&mut line, c.domain.as_str());
            extend_str(&mut line, ")");
            proof {
                lemma_views_push(r@, line);
            }
            r.push(line);
        }
        i += 1;
    }
    proof {
        assert(companies@.take(companies@.len() as int) =~= companies@);
    }
    r
}

/// The prompt for the meeting prep.
pub fn meeting_prep_prompt(
    event_title: &str,
    attendees: &Vec<AttendeeProfile>,
    companies: &Vec<CompanyProfile>,
) -> (r: String)
    ensures
        r@ == prep_prompt(event_title@, attendees@, companies@),
{
    let nl = vec!['\n'];
    proof {
        reveal_strlit("\n");
        assert(nl@ =~= "\n"@);
    }
    let alines = attendee_line_vec(attendees);
    let atext = join_chars(&alines, &nl);
    let clines = company_line_vec(companies);
    let mut out: Vec<char> = Vec::new();
    extend_str(&mut out, "You are a meeting preparation assistant. Create a concise meeting prep brief.\n\nMeeting: ");
    extend_str(&mut out, event_title);
    extend_str(&mut out, "\n\nAttendees:\n");
    extend_chars(&mut out, &atext);
    extend_str(&mut out, "\n\nCompanies Represented:\n");
    if clines.len() == 0 {
        extend_str(&mut out, "None identified");
    } else {
        let ctext = join_chars(&clines, &nl);
        extend_chars(&mut out, &ctext);
    }
    extend_str(&mut out, "\n\nGenerate a brief meeting prep document in markdown (no top-level heading) including:\n1. **Meeting Overview**: One-line purpose estimate based on title and attendees\n2. **Key People**: Quick reference for each attendee (name, role, what to discuss)\n3. **Conversation Strategy**: 3-4 suggested topics or approaches\n4. **Questions to Ask**: 2-3 questions tailored to the attendees and likely meeting purpose\n\nBe concise and actionable.");
    string_of(&out)
}

/// The meeting package, from the attendee and company profiles and the
/// model's reply to the prep prompt (`None` where the call failed).
pub fn meeting_intel_package(
    event_title: &str,
    attendees: Vec<AttendeeProfile>,
    companies: Vec<CompanyProfile>,
    reply: Option<String>,
) -> (r: MeetingIntelPackage)
    ensures
        r.event_title@ == event_title@,
        r.attendees@ == attendees@,
        r.companies@ == companies@,
        r.meeting_prep@ == match reply {
            Some(t) => t@,
            None => prep_fallback(event_title@, attendees@),
        },
{
    let prep = match reply {
        Some(t) => t,
        None => {
            let names = attendee_name_vec(&attendees);
            let sep = vec![',', ' '];
            proof {
                reveal_strlit(", ");
                assert(sep@ =~= ", "@);
            }
            let joined = join_chars(&names, &sep);
            let mut out: Vec<char> = Vec::new();
            extend_str(&mut out, "**Meeting**: ");
            extend_str(&mut out, event_title);
            extend_str(&mut out, "\n\n**Attendees**: ");
            extend_chars(&mut out, &joined);
            extend_str(&mut out, "\n\n*Meeting prep not available — AI service unavailable*");
            string_of(&out)
        },
    };
    MeetingIntelPackage {
        event_title: String::from_str(event_title),
        attendees,
        companies,
        meeting_prep: prep,
    }
}

/// An attendee's address with the name and company read from it.
pub struct EnrichedAttendee {
    pub email: String,
    pub name: String,
    pub company: String,
    pub domain: String,
}

/// What an attendee's address tells: the name before the `@` and the
/// company behind the domain.
pub fn enrich_attendee(email: &str) -> (r: EnrichedAttendee)
    ensures
        r.email@ == email@,
        r.name@ == email_name(email@),
        r.domain@ == email_domain(email@),
        r.company@ == domain_company(email_domain(email@)),
{
    let name = extract_name_from_email(email);
    let (domain, company) = extract_company_from_email(email);
    EnrichedAttendee { email: String::from_str(email), name, company, domain }
}

} // verus!
