use watchtower::frontend::api::{api_ack, api_data, error_notice};
use watchtower::scanners::process::{on_child_event, ChildAction, ChildEvent};
use watchtower::frontend::schedules::{delete_path, schedule_row_text, toggle_path, ScheduleForm, ScheduledScan};
use watchtower::frontend::welcome::{
    can_save_email, default_email_setup, email_setting_pairs, finish_destinations, WelcomeScreen, WelcomeWizard,
};

#[test]
fn api_answers() {
    assert_eq!(api_ack(true, Some("ignored".to_string())), Ok(()));
    assert_eq!(api_ack(false, Some("Target required".to_string())), Err("Target required".to_string()));
    assert_eq!(api_ack(false, None), Err("Failed".to_string()));
    assert_eq!(api_data(Some(vec![1, 2])), Ok(vec![1, 2]));
    assert_eq!(api_data::<Vec<i32>>(None), Err("No data".to_string()));
    assert_eq!(error_notice("boom"), "Error: boom");
}

#[test]
fn schedule_form_defaults() {
    let f = ScheduleForm::new();
    assert_eq!(f.scan_type(), "full");
    assert_eq!(f.target(), "");
    assert_eq!(f.target_source(), "url");
    assert_eq!(f.interval_hours(), 24);
    assert_eq!(f.create_msg(), None);
    assert!(!f.can_create());
    assert_eq!(f.target_placeholder(), "https://example.com");
}

#[test]
fn interval_input_is_at_least_one_hour() {
    let mut f = ScheduleForm::new();
    f.input_interval("48");
    assert_eq!(f.interval_hours(), 48);
    f.input_interval("0");
    assert_eq!(f.interval_hours(), 1);
    f.input_interval("-5");
    assert_eq!(f.interval_hours(), 1);
    f.input_interval("+6");
    assert_eq!(f.interval_hours(), 6);
    f.input_interval("abc");
    assert_eq!(f.interval_hours(), 6);
    f.input_interval(" 7");
    assert_eq!(f.interval_hours(), 6);
    f.input_interval("");
    assert_eq!(f.interval_hours(), 6);
    f.input_interval("-");
    assert_eq!(f.interval_hours(), 6);
    f.input_interval("99999999999999999999");
    assert_eq!(f.interval_hours(), 6);
    f.input_interval("9223372036854775807");
    assert_eq!(f.interval_hours(), i64::MAX);
}

#[test]
fn create_flow() {
    let mut f = ScheduleForm::new();
    f.set_target_source("local".to_string());
    assert_eq!(f.target_placeholder(), "/projects/my-app");
    f.set_target("/src/app".to_string());
    f.set_scan_type("quick".to_string());
    assert!(f.can_create());
    let req = f.create_request();
    assert_eq!(req.scan_type, "quick");
    assert_eq!(req.target, "/src/app");
    assert_eq!(req.target_source, "local");
    assert_eq!(req.tools, None);
    assert_eq!(req.interval_hours, 24);

    f.on_create_result(Err("duplicate".to_string()));
    assert_eq!(f.create_msg(), Some("Error: duplicate".to_string()));
    assert_eq!(f.target(), "/src/app");
    assert_eq!(f.refresh_counter(), 0);

    f.on_create_result(Ok(()));
    assert_eq!(f.create_msg(), Some("Schedule created".to_string()));
    assert_eq!(f.target(), "");
    assert_eq!(f.refresh_counter(), 1);
    f.refresh();
    assert_eq!(f.refresh_counter(), 2);
}

#[test]
fn schedule_rows() {
    let mut s = ScheduledScan {
        id: 42,
        scan_type: "full".to_string(),
        target: "https://t".to_string(),
        target_source: "url".to_string(),
        interval_hours: 12,
        enabled: true,
        last_run_at: None,
        next_run_at: "2025-01-01 00:00:00".to_string(),
    };
    let row = schedule_row_text(&s);
    assert_eq!(row.every, "12h");
    assert_eq!(row.last_run, "never");
    assert_eq!(row.badge_class, "badge badge-status-completed");
    assert_eq!(row.status, "enabled");
    assert_eq!(row.toggle_label, "⏸ Pause");
    s.enabled = false;
    s.last_run_at = Some("2024-12-31 12:00:00".to_string());
    let row = schedule_row_text(&s);
    assert_eq!(row.last_run, "2024-12-31 12:00:00");
    assert_eq!(row.badge_class, "badge badge-category");
    assert_eq!(row.status, "paused");
    assert_eq!(row.toggle_label, "▶ Resume");
    assert_eq!(toggle_path(42), "/api/schedules/42/toggle");
    assert_eq!(delete_path(-3), "/api/schedules/-3");
}

#[test]
fn welcome_wizard_flow() {
    let mut w = WelcomeWizard::new();
    assert!(w.screen() == WelcomeScreen::Intro);
    w.continue_to_email();
    assert!(w.screen() == WelcomeScreen::Email);
    w.on_save_result(Err("SMTP refused".to_string()));
    assert!(w.screen() == WelcomeScreen::Email);
    assert_eq!(w.save_msg(), Some("Error: SMTP refused".to_string()));
    w.on_save_result(Ok(()));
    assert!(w.screen() == WelcomeScreen::Done);
    assert_eq!(w.save_msg(), Some("Saved".to_string()));

    let mut w2 = WelcomeWizard::new();
    w2.continue_to_email();
    w2.skip_email();
    assert!(w2.screen() == WelcomeScreen::Done);
    assert_eq!(w2.save_msg(), None);

    assert_eq!(finish_destinations(&WelcomeScreen::Intro), vec!["/scan"]);
    assert!(finish_destinations(&WelcomeScreen::Email).is_empty());
    assert_eq!(finish_destinations(&WelcomeScreen::Done), vec!["/scan", "/schedules", "/"]);
}

#[test]
fn email_settings() {
    let mut e = default_email_setup();
    assert_eq!(e.smtp_port, "587");
    assert!(!can_save_email(&e));
    e.smtp_server = "smtp.example.com".to_string();
    e.email_to = "sec@example.com".to_string();
    assert!(can_save_email(&e));
    let pairs: Vec<(String, String)> = email_setting_pairs(&e).into_iter().map(|p| (p.key, p.value)).collect();
    assert_eq!(
        pairs,
        vec![
            ("smtp_server".to_string(), "smtp.example.com".to_string()),
            ("smtp_port".to_string(), "587".to_string()),
            ("smtp_username".to_string(), String::new()),
            ("smtp_password".to_string(), String::new()),
            ("email_from".to_string(), String::new()),
            ("email_to".to_string(), "sec@example.com".to_string()),
        ]
    );
}

#[test]
fn child_events() {
    assert!(matches!(on_child_event(ChildEvent::Tick(Some(true))), ChildAction::Cancel));
    assert!(matches!(on_child_event(ChildEvent::Tick(Some(false))), ChildAction::KeepWaiting));
    assert!(matches!(on_child_event(ChildEvent::Tick(None)), ChildAction::KeepWaiting));
    assert!(matches!(
        on_child_event(ChildEvent::Exited { success: None, stdout: Some(vec![1]), stderr: None }),
        ChildAction::Finish(None)
    ));
    match on_child_event(ChildEvent::Exited { success: Some(false), stdout: Some(b"out".to_vec()), stderr: None }) {
        ChildAction::Finish(Some(o)) => {
            assert!(!o.status_success);
            assert_eq!(o.stdout, b"out".to_vec());
            assert!(o.stderr.is_empty());
        }
        _ => panic!(),
    }
}
