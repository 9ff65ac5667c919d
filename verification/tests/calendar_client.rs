use nofriction_meetings::calendar_client::{
    access_answer, access_status_from_code, attendee_email, current_event, current_event_index,
    extract_meeting_url, initial_access_answer, sort_events_by_start, timed_events, upcoming_events, CalendarAccessStatus,
    CalendarCache, CalendarConfig, CalendarEventNative,
};

fn event(id: &str, start: i64, end: i64) -> CalendarEventNative {
    CalendarEventNative {
        event_id: id.to_string(),
        title: id.to_string(),
        start_time_ms: start,
        end_time_ms: end,
        location: None,
        attendees: vec![],
        calendar_name: "Work".to_string(),
        is_all_day: false,
        meeting_url: None,
        notes: None,
    }
}

#[test]
fn calendar_client_test_config_defaults() {
    let config = CalendarConfig::default();
    assert_eq!(config.lookahead_hours, 24);
    assert_eq!(config.lookbehind_hours, 2);
    assert!(config.excluded_calendars.contains(&"Birthdays".to_string()));
}

#[test]
fn test_extract_meeting_url() {
    let location = Some("https://zoom.us/j/123456789".to_string());
    let notes = None;
    let url = extract_meeting_url(&location, &notes);
    assert!(url.is_some());
    assert!(url.unwrap().contains("zoom.us"));
}

#[test]
fn test_extract_meeting_url_from_notes() {
    let location = None;
    let notes = Some("Join meeting: https://meet.google.com/abc-defg-hij".to_string());
    let url = extract_meeting_url(&location, &notes);
    assert!(url.is_some());
    assert!(url.unwrap().contains("meet.google.com"));
}

#[test]
fn meeting_url_exact_bounds() {
    let url = extract_meeting_url(&Some("Room 4".to_string()), &Some("Link: <https://acme.webex.com/x> bye".to_string()));
    assert_eq!(url.as_deref(), Some("https://acme.webex.com/x"));
    let url = extract_meeting_url(&Some("https://zoom.us/j/1".to_string()), &None);
    assert_eq!(url.as_deref(), Some("https://zoom.us/j/1"));
    assert_eq!(extract_meeting_url(&None, &Some("no link here".to_string())), None);
    let url = extract_meeting_url(&None, &Some("teams.microsoft.com/l/abc\"x".to_string()));
    assert_eq!(url.as_deref(), Some("teams.microsoft.com/l/abc"));
}

#[test]
fn access_status_codes() {
    assert_eq!(access_status_from_code(0), CalendarAccessStatus::NotDetermined);
    assert_eq!(access_status_from_code(1), CalendarAccessStatus::Restricted);
    assert_eq!(access_status_from_code(2), CalendarAccessStatus::Denied);
    assert_eq!(access_status_from_code(3), CalendarAccessStatus::Authorized);
    assert_eq!(access_status_from_code(7), CalendarAccessStatus::Unknown);
    assert_eq!(initial_access_answer(CalendarAccessStatus::Authorized), Some(true));
    assert_eq!(initial_access_answer(CalendarAccessStatus::Denied), Some(false));
    assert_eq!(initial_access_answer(CalendarAccessStatus::NotDetermined), None);
    assert_eq!(access_answer(CalendarAccessStatus::NotDetermined), None);
    assert_eq!(access_answer(CalendarAccessStatus::Unknown), Some(false));
}

#[test]
fn calendar_selection() {
    let mut c = CalendarConfig::default();
    assert!(!c.selects_calendar("Birthdays"));
    assert!(c.selects_calendar("Work"));
    c.included_calendars = vec!["Team".to_string()];
    assert!(!c.selects_calendar("Work"));
    assert!(c.selects_calendar("Team"));
    assert_eq!(c.event_window(10_000_000), (10_000_000 - 2 * 3_600_000, 10_000_000 + 24 * 3_600_000));
}

#[test]
fn attendee_addresses() {
    assert_eq!(attendee_email("mailto:a@b.com").as_deref(), Some("a@b.com"));
    assert_eq!(attendee_email("a@b.com").as_deref(), Some("a@b.com"));
    assert_eq!(attendee_email("mailto:"), None);
    assert_eq!(attendee_email(""), None);
}

#[test]
fn events_sorted_stably_by_start() {
    let evs = vec![event("c", 30, 40), event("a", 10, 20), event("b", 30, 35), event("d", 5, 6)];
    let sorted = sort_events_by_start(evs);
    let ids: Vec<&str> = sorted.iter().map(|e| e.event_id.as_str()).collect();
    assert_eq!(ids, vec!["d", "a", "c", "b"]);
}

#[test]
fn current_event_prefers_active_then_soon() {
    let evs = vec![event("later", 2_000_000, 3_000_000), event("soon", 1_500_000, 1_600_000), event("now", 900_000, 1_100_000)];
    assert_eq!(current_event_index(&evs, 1_000_000), Some(2));
    assert_eq!(current_event(evs.clone(), 1_000_000).unwrap().event_id, "now");
    assert_eq!(current_event(evs.clone(), 1_200_000).unwrap().event_id, "later");
    assert_eq!(current_event(vec![event("soon", 1_500_000, 1_600_000)], 1_200_000).unwrap().event_id, "soon");
    assert!(current_event(evs, 5_000_000).is_none());
}

#[test]
fn cache_freshness() {
    let mut cache = CalendarCache::default();
    assert!(!cache.is_fresh(0));
    cache.store(vec![event("a", 1, 2)], 1_000_000);
    assert!(cache.is_fresh(1_000_000 + 299_999));
    assert!(!cache.is_fresh(1_000_000 + 300_000));
    assert!(cache.is_fresh(0));
    assert_eq!(cache.lookup(1_000_500).unwrap().len(), 1);
    cache.clear();
    assert!(cache.lookup(1_000_500).is_none());
}

#[test]
fn upcoming_events_within_the_window() {
    let hour = 3_600_000;
    let mut all_day = event("holiday", 2 * hour, 26 * hour);
    all_day.is_all_day = true;
    let events = vec![
        event("past", -hour, 0),
        event("soon", hour, 2 * hour),
        all_day,
        event("edge", 24 * hour, 25 * hour),
        event("late", 24 * hour + 1, 25 * hour),
        event("now", 0, hour),
    ];
    assert_eq!(upcoming_events(&events, 0, None), vec![1, 3]);
    assert_eq!(upcoming_events(&events, 0, Some(1)), vec![1]);
    assert_eq!(upcoming_events(&events, 0, Some(48)), vec![1, 3, 4]);
}

#[test]
fn timed_events_skip_all_day() {
    let mut holiday = event("holiday", 0, 1);
    holiday.is_all_day = true;
    let events = vec![event("a", 0, 1), holiday, event("b", 2, 3)];
    assert_eq!(timed_events(&events), vec![0, 2]);
}
