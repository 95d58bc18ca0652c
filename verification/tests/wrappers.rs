use linkwithmentor::gateway::security::CSRFProtection;
use linkwithmentor::gateway::middleware::{bearer_token, extract_user_id_from_token, ResponseTimeTracker};
use linkwithmentor::meetings::calendar::{CalendarService, CalendarSession};
use linkwithmentor::meetings::config::CalendarConfig;
use linkwithmentor::time::Timestamp;

#[test]
fn token_subject_is_read_from_the_payload() {
    assert_eq!(extract_user_id_from_token("xx.eyJzdWIiOiJhYmMifQ.yy"), Ok("abc".to_string()));
    assert_eq!(extract_user_id_from_token("xx.eyJzdWIiOjF9.yy"), Err(()));
    assert_eq!(extract_user_id_from_token("only-one-part"), Err(()));
    assert_eq!(bearer_token(Some("Bearer t0k")), Some("t0k".to_string()));
    assert_eq!(bearer_token(Some("Basic t0k")), None);
}

#[test]
fn response_time_is_measured() {
    let tracker = ResponseTimeTracker::new();
    let timing = tracker.finish().unwrap();
    assert!(!timing.slow);
    assert!(timing.response_time_ms < 1000);
}

fn calendar(enabled: bool) -> CalendarService {
    CalendarService::new(&CalendarConfig {
        enable_ical_export: enabled,
        calendar_name: "LinkWithMentor Sessions".to_string(),
        timezone: "UTC".to_string(),
        enable_google_calendar: false,
        google_client_id: None,
        google_client_secret: None,
        enable_outlook_calendar: false,
        outlook_client_id: None,
        outlook_client_secret: None,
    })
}

fn session_copy(s: &CalendarSession) -> CalendarSession {
    CalendarSession {
        session_id: s.session_id,
        title: s.title.clone(),
        description: s.description.clone(),
        scheduled_start: s.scheduled_start,
        scheduled_end: s.scheduled_end,
        participant_ids: s.participant_ids.clone(),
    }
}

#[test]
fn sessions_render_as_icalendar() {
    let session = CalendarSession {
        session_id: 1,
        title: "Rust mentoring".to_string(),
        description: Some("Traits".to_string()),
        scheduled_start: Timestamp { secs: 1_700_000_000, nanos: 0 },
        scheduled_end: Timestamp { secs: 1_700_003_600, nanos: 0 },
        participant_ids: vec![2, 3],
    };
    let now = Timestamp { secs: 1_700_000_000, nanos: 0 };
    let text = calendar(true).generate_ical_for_session(&session, now).unwrap();
    assert_eq!(text, calendar(true).generate_ical_for_session(&session, now).unwrap());
    assert!(text.contains("DTSTAMP:20231114T221320Z"));
    assert_eq!(text, calendar(true).generate_ical_for_sessions(&vec![session_copy(&session)], now).unwrap());
    assert!(text.starts_with("BEGIN:VCALENDAR"));
    assert!(text.contains("SUMMARY:Rust mentoring"));
    assert!(text.contains("UID:session-00000000-0000-0000-0000-000000000001"));
    assert!(calendar(false).generate_ical_for_session(&session, now).is_err());
}

#[test]
fn calendar_feed_is_a_whole_calendar() {
    let text = calendar(true).export_calendar_feed(7, Timestamp { secs: 1_700_000_000, nanos: 0 });
    assert!(text.starts_with("BEGIN:VCALENDAR\r\nVERSION:2.0\r\nPRODID:ICALENDAR-RS\r\nCALSCALE:GREGORIAN\r\n"));
    assert!(text.ends_with("END:VCALENDAR\r\n"));
    assert!(text.contains("SUMMARY:Sample Session"));
}

#[test]
fn fresh_csrf_token_validates_against_the_clock() {
    let now = std::time::SystemTime::now().duration_since(std::time::UNIX_EPOCH).unwrap().as_secs() as i64;
    let token = CSRFProtection::generate_token("u1", now);
    assert!(CSRFProtection::validate_token(&token, "u1", 3600));
    assert!(!CSRFProtection::validate_token(&token, "u1", 0));
    assert!(!CSRFProtection::validate_token(&token, "u2", 3600));
}
