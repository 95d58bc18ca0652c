use std::collections::HashMap;

use linkwithmentor::analytics::dashboards::visibility_outcome;
use linkwithmentor::analytics::models::{Dashboard, DashboardWidget, WidgetPosition, WidgetSize, WidgetType};
use linkwithmentor::common::AppError;
use linkwithmentor::meetings::boards::ActiveWhiteboards;
use linkwithmentor::meetings::collaboration::{ChatMessage, CollaborationState};
use linkwithmentor::meetings::connections::CollaborationConnection;
use linkwithmentor::meetings::models::{MaterialType, NotificationType, ParticipantRole, SessionMaterial, SessionStatus, SessionType};
use linkwithmentor::meetings::notifications::{email_subject, get_notification_template};
use linkwithmentor::meetings::scheduling::{cancellation_note, cancellation_outcome, session_end, validate_session_request};
use linkwithmentor::meetings::whiteboard::{cursor_color, export_format, BoardElement, ExportFormat, Whiteboard};
use linkwithmentor::notifications::config::TemplateConfig;
use linkwithmentor::notifications::email::{fill_template, render_templated_email};
use linkwithmentor::notifications::templates::{render_outcome, TemplateEngine};
use linkwithmentor::time::Timestamp;

fn at(secs: i64) -> Timestamp {
    Timestamp { secs, nanos: 0 }
}

#[test]
fn whiteboard_versions_count_changes() {
    let mut w: Whiteboard<&str> = Whiteboard::new(1, 2, 3, at(10));
    assert_eq!(w.version, 1);
    w.add_element(BoardElement { element_id: 7, content: "line" }, 3, at(11));
    w.add_element(BoardElement { element_id: 8, content: "box" }, 4, at(12));
    assert_eq!(w.version, 3);
    assert_eq!(w.last_modified_by, 4);
    assert!(w.update_element(8, BoardElement { element_id: 8, content: "circle" }, 4, at(13)).is_ok());
    assert_eq!(w.elements[1].content, "circle");
    assert_eq!(w.update_element(9, BoardElement { element_id: 9, content: "x" }, 4, at(14)), Err(AppError::NotFound("Element not found".to_string())));
    assert_eq!(w.version, 4);
    w.clear(3, at(15));
    assert!(w.elements.is_empty());
    assert_eq!(w.version, 5);
}

#[test]
fn deleting_an_added_element_restores_the_board() {
    let mut w: Whiteboard<u8> = Whiteboard::new(1, 2, 3, at(10));
    w.add_element(BoardElement { element_id: 1, content: 10 }, 3, at(11));
    let ids_before: Vec<u128> = w.elements.iter().map(|e| e.element_id).collect();
    w.add_element(BoardElement { element_id: 2, content: 20 }, 3, at(12));
    assert!(w.delete_element(2, 3, at(13)).is_ok());
    let ids_after: Vec<u128> = w.elements.iter().map(|e| e.element_id).collect();
    assert_eq!(ids_before, ids_after);
    assert!(w.delete_element(2, 3, at(14)).is_err());
}

#[test]
fn whiteboard_helpers() {
    assert_eq!(cursor_color(0), "#FF6B6B");
    assert_eq!(cursor_color(11), "#4ECDC4");
    assert_eq!(export_format("JSON"), Ok(ExportFormat::Json));
    assert_eq!(export_format("svg"), Ok(ExportFormat::Svg));
    assert_eq!(export_format("png"), Err(AppError::BadRequest("PNG export not implemented".to_string())));
    assert_eq!(export_format("gif"), Err(AppError::BadRequest("Unsupported export format".to_string())));
}

#[test]
fn stored_names_round_trip() {
    for s in [SessionStatus::Scheduled, SessionStatus::Confirmed, SessionStatus::InProgress, SessionStatus::Completed,
        SessionStatus::Cancelled, SessionStatus::NoShow, SessionStatus::Rescheduled] {
        assert_eq!(SessionStatus::from_stored(s.stored_name()), s);
    }
    for t in [SessionType::OneOnOne, SessionType::GroupSession, SessionType::Workshop, SessionType::Consultation, SessionType::FollowUp] {
        assert_eq!(SessionType::from_stored(t.stored_name()), t);
    }
    assert_eq!(SessionStatus::from_stored("bogus"), SessionStatus::Scheduled);
}

#[test]
fn booking_rules() {
    let now = at(1_700_000_000);
    assert_eq!(validate_session_request(at(1_700_000_000), 60, now),
        Err(AppError::BadRequest("Session must be scheduled in the future".to_string())));
    assert_eq!(validate_session_request(at(1_700_003_600), 10, now),
        Err(AppError::BadRequest("Session duration must be between 15 minutes and 4 hours".to_string())));
    assert_eq!(validate_session_request(at(1_700_000_000 + 31 * 86400), 60, now),
        Err(AppError::BadRequest("Cannot book sessions more than 30 days in advance".to_string())));
    assert!(validate_session_request(at(1_700_003_600), 60, now).is_ok());
    assert_eq!(session_end(at(100), 90), at(100 + 5400));
    assert!(cancellation_outcome(at(1_700_000_000 + 86400), now).is_ok());
    assert_eq!(cancellation_outcome(at(1_700_000_000 + 86399), now),
        Err(AppError::BadRequest("Cannot cancel session within 24 hours".to_string())));
    assert_eq!(cancellation_note(None), "Cancelled by user");
    assert_eq!(cancellation_note(Some("ill")), "ill");
}

#[test]
fn only_one_screen_is_shared() {
    let mut s: CollaborationState = CollaborationState::new();
    s.start_session(1, 9, at(0));
    s.add_participant(1, 10, "ann", ParticipantRole::Mentor, at(1));
    s.add_participant(1, 11, "bob", ParticipantRole::Mentee, at(1));
    assert!(s.start_screen_sharing(1, 10, at(2)).is_ok());
    assert_eq!(s.start_screen_sharing(1, 11, at(3)),
        Err(AppError::BadRequest("Another user is already screen sharing".to_string())));
    assert!(s.start_screen_sharing(1, 10, at(4)).is_ok());
    let (name, was_sharing) = s.remove_participant(1, 10, at(5)).unwrap();
    assert_eq!((name.as_str(), was_sharing), ("ann", true));
    assert_eq!(s.remove_participant(1, 99, at(5)), Err(AppError::NotFound("Participant not found".to_string())));
    assert_eq!(s.remove_participant(2, 10, at(5)), Err(AppError::NotFound("Session not found".to_string())));
}

#[test]
fn chat_history_keeps_the_latest_messages() {
    let mut s: CollaborationState = CollaborationState::new();
    assert!(s.chat_history(1, None).is_none());
    s.start_session(1, 9, at(0));
    for i in 0..60u128 {
        s.record_chat_message(1, ChatMessage {
            message_id: i,
            sender_id: 10,
            sender_username: "ann".to_string(),
            content: format!("m{}", i),
            timestamp: at(i as i64),
        });
    }
    let all = s.chat_history(1, None).unwrap();
    assert_eq!(all.len(), 50);
    assert_eq!(all[0].content, "m10");
    assert_eq!(all[49].content, "m59");
    let three = s.chat_history(1, Some(3)).unwrap();
    let ids: Vec<u128> = three.iter().map(|m| m.message_id).collect();
    assert_eq!(ids, vec![57, 58, 59]);
    s.add_participant(1, 10, "ann", ParticipantRole::Mentor, at(61));
    s.add_participant(1, 11, "bob", ParticipantRole::Mentee, at(61));
    let mut r = s.recipients(1, Some(10));
    r.sort();
    assert_eq!(r, vec![11]);
    assert!(s.recipients(2, None).is_empty());
    s.share_material(1, SessionMaterial {
        material_id: 5,
        name: "slides".to_string(),
        description: None,
        file_path: None,
        file_size: None,
        mime_type: None,
        material_type: MaterialType::Presentation,
        uploaded_by: 10,
        uploaded_at: at(62),
    }, at(62));
    let done = s.end_session(1).unwrap();
    assert_eq!(done.shared_materials.len(), 1);
    assert_eq!(done.last_activity, at(62));
    assert!(s.end_session(1).is_none());
}

#[test]
fn boards_in_memory_change_and_expire() {
    let text = |t: &str| serde_json::Value::String(t.to_string());
    let mut b = ActiveWhiteboards::new();
    assert_eq!(
        b.add_element(5, BoardElement { element_id: 1, content: text("line") }, 7, at(100)),
        Err(AppError::NotFound("Whiteboard not found".to_string()))
    );
    b.put(Whiteboard::new(5, 1, 7, at(100)));
    assert!(b.add_element(5, BoardElement { element_id: 1, content: text("line") }, 7, at(200)).is_ok());
    let w = b.get(5).unwrap();
    assert_eq!((w.version, w.elements.len(), w.last_modified_by, w.last_modified), (2, 1, 7, at(200)));
    assert_eq!(b.delete_element(5, 9, 8, at(300)), Err(AppError::NotFound("Element not found".to_string())));
    assert_eq!(b.get(5).unwrap().version, 2);
    assert!(b.update_element(5, 1, BoardElement { element_id: 1, content: text("arrow") }, 8, at(400)).is_ok());
    assert_eq!(b.get(5).unwrap().elements[0].content, text("arrow"));
    assert!(b.clear(5, 8, at(500)).is_ok());
    let w = b.get(5).unwrap();
    assert_eq!((w.version, w.elements.len()), (4, 0));
    b.put(Whiteboard { whiteboard_id: 6, session_id: 1, elements: Vec::new(), version: u64::MAX, last_modified: at(500), last_modified_by: 7 });
    assert_eq!(b.clear(6, 8, at(501)), Err(AppError::Internal("Whiteboard version exhausted".to_string())));
    b.drop_inactive(at(500 + 1799));
    assert!(b.get(5).is_some());
    b.drop_inactive(at(500 + 1800));
    assert!(b.get(5).is_none());
    assert!(b.get(6).is_none());
}

fn connection(id: &str, user: u128, session: u128, handle: u64, t: i64) -> CollaborationConnection {
    CollaborationConnection {
        user_id: user,
        username: "ann".to_string(),
        session_id: session,
        connection_id: id.to_string(),
        handle,
        connected_at: at(t),
        last_activity: at(t),
    }
}

#[test]
fn last_connection_closed_leaves_every_session() {
    let mut s = CollaborationState::new();
    s.start_session(1, 9, at(0));
    s.start_session(2, 9, at(0));
    s.add_connection(connection("a", 10, 1, 100, 1), at(1));
    s.add_connection(connection("b", 10, 2, 101, 1), at(1));
    s.add_connection(connection("c", 11, 1, 102, 1), at(1));
    let mut senders = s.session_senders(1, None);
    senders.sort();
    assert_eq!(senders, vec![100, 102]);
    assert_eq!(s.session_senders(1, Some(11)), vec![100]);
    assert_eq!(s.session_senders(2, None), vec![101]);
    assert!(s.session_senders(3, None).is_empty());
    assert!(s.start_screen_sharing(1, 10, at(2)).is_ok());
    assert!(s.remove_connection(10, "a", at(3)).is_empty());
    assert_eq!(s.session_senders(1, Some(11)), Vec::<u64>::new());
    let mut left = s.remove_connection(10, "b", at(4));
    left.sort_by_key(|e| e.0);
    let name = "User 00000000-0000-0000-0000-00000000000a".to_string();
    assert_eq!(left, vec![(1, name.clone(), true), (2, name, false)]);
    assert!(s.remove_connection(10, "b", at(5)).is_empty());
    s.drop_inactive(at(1 + 3600));
    assert!(s.session_senders(1, None).is_empty());
    assert!(s.chat_history(1, None).is_some());
    s.drop_inactive(at(4 + 3600));
    assert!(s.chat_history(1, None).is_none());
    assert!(s.chat_history(2, None).is_none());
}

#[test]
fn closing_a_new_connection_restores_the_old_ones() {
    let mut s = CollaborationState::new();
    s.start_session(2, 9, at(0));
    s.add_connection(connection("y", 12, 2, 200, 1), at(1));
    s.add_connection(connection("x", 12, 2, 201, 2), at(2));
    let mut both = s.session_senders(2, None);
    both.sort();
    assert_eq!(both, vec![200, 201]);
    assert!(s.remove_connection(12, "x", at(3)).is_empty());
    assert_eq!(s.session_senders(2, None), vec![200]);
}

#[test]
fn notification_texts() {
    assert_eq!(email_subject(NotificationType::SessionReminder, "Rust"), "Reminder: Rust starting soon");
    assert_eq!(email_subject(NotificationType::SessionEnded, "Rust"), "Session Completed: Rust");
    assert_eq!(get_notification_template(NotificationType::MaterialShared), "material_shared");
}

#[test]
fn templates_fill_placeholders_in_order() {
    let data = vec![("name".to_string(), "Ann".to_string()), ("day".to_string(), "Monday".to_string())];
    assert_eq!(fill_template("Hi {{name}}, see you {{day}}. {{name}}!", &data), "Hi Ann, see you Monday. Ann!");
    assert_eq!(fill_template("no keys", &data), "no keys");
    let (s, b) = render_templated_email(&data, "For {{name}}", "<p>{{day}}</p>");
    assert_eq!((s.as_str(), b.as_str()), ("For Ann", "<p>Monday</p>"));
}

#[test]
fn handlebars_engine_renders_the_welcome_mail() {
    let config = TemplateConfig {
        template_dir: "templates".to_string(),
        cache_templates: true,
        default_language: "en".to_string(),
        supported_languages: vec!["en".to_string()],
    };
    let engine = TemplateEngine::new(config).unwrap();
    let mut map = HashMap::new();
    map.insert("name".to_string(), serde_json::Value::String("Ann".to_string()));
    let data = serde_json::to_string(&map).unwrap();
    assert_eq!(
        engine.render_template("welcome_email", &data).unwrap(),
        "<h1>Welcome Ann!</h1><p>Thank you for joining LinkWithMentor.</p>"
    );
    assert_eq!(
        engine.render_template("missing", &data),
        Err(AppError::Internal("Template rendering error: Template not found missing".to_string()))
    );
    assert_eq!(
        engine.render_template("welcome_email", "{\"name\":\"<b>\"}").unwrap(),
        "<h1>Welcome &lt;b&gt;!</h1><p>Thank you for joining LinkWithMentor.</p>"
    );
    match engine.render_template("welcome_email", "not json") {
        Err(AppError::Internal(m)) => assert!(m.starts_with("Template rendering error: ")),
        other => panic!("unexpected {:?}", other),
    }
    assert_eq!(render_outcome(Err("boom".to_string())), Err(AppError::Internal("Template rendering error: boom".to_string())));
}

#[test]
fn dashboards_belong_to_their_owner() {
    assert!(visibility_outcome(1, false, 1).is_ok());
    assert!(visibility_outcome(1, true, 2).is_ok());
    assert!(visibility_outcome(1, false, 2).is_err());
    let mut d: Dashboard<u8> = Dashboard::create(5, 1, "Main".to_string(), None, at(0));
    let w = DashboardWidget {
        widget_id: 9,
        widget_type: WidgetType::LineChart,
        title: "t".to_string(),
        configuration: 0,
        position: WidgetPosition { x: 0, y: 0 },
        size: WidgetSize { width: 6, height: 4 },
    };
    assert_eq!(d.add_widget(2, w, at(1)), Err(AppError::Forbidden("Cannot modify dashboard".to_string())));
    let w = DashboardWidget {
        widget_id: 9,
        widget_type: WidgetType::LineChart,
        title: "t".to_string(),
        configuration: 0,
        position: WidgetPosition { x: 0, y: 0 },
        size: WidgetSize { width: 6, height: 4 },
    };
    assert!(d.add_widget(1, w, at(1)).is_ok());
    assert_eq!(d.widgets.len(), 1);
    assert!(d.remove_widget(1, 9, at(2)).is_ok());
    assert!(d.widgets.is_empty());
}

#[test]
fn report_types_have_their_plans() {
    use_report_plans();
}

fn use_report_plans() {
    use_plan(linkwithmentor::analytics::models::ReportType::UserActivity, "data", "Summary");
    use_plan(linkwithmentor::analytics::models::ReportType::Revenue, "detailed_data", "NoStats");
    use_plan(linkwithmentor::analytics::models::ReportType::PlatformHealth, "", "NoStats");
    use_plan(linkwithmentor::analytics::models::ReportType::Custom, "data", "Metadata");
    let p = linkwithmentor::analytics::reports::report_plan(linkwithmentor::analytics::models::ReportType::MentorPerformance);
    assert_eq!(p.rows_key, "mentor_metrics");
    assert_eq!(p.indicators, linkwithmentor::analytics::reports::ReportIndicators::MentorPerformance);
    let p = linkwithmentor::analytics::reports::report_plan(linkwithmentor::analytics::models::ReportType::SessionAnalytics);
    assert_eq!(p.metrics, linkwithmentor::analytics::reports::ReportMetrics::Sessions);
}

fn use_plan(t: linkwithmentor::analytics::models::ReportType, rows: &str, stats: &str) {
    let p = linkwithmentor::analytics::reports::report_plan(t);
    assert_eq!(p.rows_key, rows);
    assert_eq!(format!("{:?}", p.stats), stats);
}
