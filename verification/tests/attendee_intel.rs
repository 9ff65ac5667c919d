use nofriction_meetings::attendee_intel::{
    company_briefing_prompt, company_briefing_wanted, company_display, company_profile,
    extract_company_from_email, extract_name_from_email, is_personal_domain, meeting_intel_package,
    meeting_prep_prompt, person_briefing_prompt, person_profile, plan_meeting_intel,
};

#[test]
fn test_extract_name_from_email() {
    assert_eq!(extract_name_from_email("casey.potenzone@company.com"), "Casey Potenzone");
    assert_eq!(extract_name_from_email("john_smith@example.com"), "John Smith");
    assert_eq!(extract_name_from_email("jane-doe@test.org"), "Jane Doe");
    assert_eq!(extract_name_from_email("admin@company.com"), "Admin");
}

#[test]
fn test_extract_company_from_email() {
    let (domain, name) = extract_company_from_email("casey@acme-corp.com");
    assert_eq!(domain, "acme-corp.com");
    assert_eq!(name, "Acme Corp");

    let (domain, name) = extract_company_from_email("user@gmail.com");
    assert_eq!(domain, "gmail.com");
    assert_eq!(name, "Personal");

    let (domain, name) = extract_company_from_email("user@openai.com");
    assert_eq!(domain, "openai.com");
    assert_eq!(name, "Openai");
}

#[test]
fn test_personal_domain_detection() {
    for domain in &["gmail.com", "yahoo.com", "hotmail.com", "icloud.com", "protonmail.com"] {
        let email = format!("user@{}", domain);
        let (_, name) = extract_company_from_email(&email);
        assert_eq!(name, "Personal", "Failed for domain: {}", domain);
    }
}

#[test]
fn name_of_address_without_pieces_is_the_address() {
    assert_eq!(extract_name_from_email("...@x.com"), "...@x.com");
    assert_eq!(extract_name_from_email("no-at-sign"), "No At Sign");
    assert_eq!(extract_name_from_email("MIXED.case@x.org"), "Mixed Case");
}

#[test]
fn company_of_unusual_addresses() {
    let (domain, name) = extract_company_from_email("nobody");
    assert_eq!(domain, "unknown.com");
    assert_eq!(name, "Unknown");
    let (domain, name) = extract_company_from_email("A@Big_Co.IO");
    assert_eq!(domain, "big_co.io");
    assert_eq!(name, "Big Co");
    let (domain, _) = extract_company_from_email("a@b@c.com");
    assert_eq!(domain, "b");
    assert!(is_personal_domain("proton.me"));
    assert!(!is_personal_domain("Gmail.com"));
}

#[test]
fn person_profile_uses_reply_or_fallback() {
    assert_eq!(company_display("", "x@acme-corp.com"), "Acme Corp");
    assert_eq!(company_display("Personal", "x@gmail.com"), "Personal");
    assert_eq!(company_display("Globex", "x@gmail.com"), "Globex");
    let p = person_profile("Ann", "ann@acme-corp.com", "", None);
    assert_eq!(p.company, "Acme Corp");
    assert_eq!(p.company_domain, "acme-corp.com");
    assert_eq!(
        p.briefing,
        "**Ann** — Acme Corp (ann@acme-corp.com)\n\n*Briefing not available — AI service unavailable*"
    );
    let q = person_profile("Ann", "ann@acme-corp.com", "", Some("text".to_string()));
    assert_eq!(q.briefing, "text");
    let prompt = person_briefing_prompt("Ann", "ann@acme-corp.com", "");
    assert!(prompt.contains("Name: Ann\nEmail: ann@acme-corp.com\nCompany: Acme Corp\n"));
    assert!(prompt.contains("One-line description of what Acme Corp does"));
}

#[test]
fn company_profiles() {
    assert!(!company_briefing_wanted("gmail.com", "Personal"));
    assert!(!company_briefing_wanted("", "X"));
    assert!(company_briefing_wanted("acme.com", "Acme"));
    let c = company_profile("gmail.com", "Personal", Some("ignored".to_string()));
    assert_eq!(c.briefing, "*Personal email domain — no company profile available.*");
    let d = company_profile("acme.com", "Acme", None);
    assert_eq!(
        d.briefing,
        "**Acme** (acme.com)\n\n*Company briefing not available — AI service unavailable*"
    );
    assert!(company_briefing_prompt("Acme", "acme.com").contains("Company: Acme\nDomain: acme.com\n"));
}

#[test]
fn meeting_plan_marks_first_of_each_domain() {
    let emails = vec![
        "a.b@acme.com".to_string(),
        "c@gmail.com".to_string(),
        "d@ACME.com".to_string(),
    ];
    let plan = plan_meeting_intel(&emails);
    assert_eq!(plan.len(), 3);
    assert!(plan[0].first_of_domain);
    assert!(plan[1].first_of_domain);
    assert!(!plan[2].first_of_domain);
    assert_eq!(plan[0].name, "A B");
    assert_eq!(plan[2].domain, "acme.com");
}

#[test]
fn meeting_prep_prompt_and_fallback() {
    let a = person_profile("Ann", "ann@acme.com", "", None);
    let b = person_profile("Bob", "bob@gmail.com", "", None);
    let c1 = company_profile("acme.com", "Acme", None);
    let c2 = company_profile("gmail.com", "Personal", None);
    let prompt = meeting_prep_prompt("Sync", &vec![a.clone(), b.clone()], &vec![c1.clone(), c2.clone()]);
    assert!(prompt.contains("Meeting: Sync\n\nAttendees:\n- Ann (Acme) — ann@acme.com\n- Bob (Personal) — bob@gmail.com\n\nCompanies Represented:\n- Acme (acme.com)\n\n"));
    let none = meeting_prep_prompt("Sync", &vec![], &vec![c2.clone()]);
    assert!(none.contains("Companies Represented:\nNone identified\n"));
    let pkg = meeting_intel_package("Sync", vec![a, b], vec![c1, c2], None);
    assert_eq!(
        pkg.meeting_prep,
        "**Meeting**: Sync\n\n**Attendees**: Ann, Bob\n\n*Meeting prep not available — AI service unavailable*"
    );
}
