use kidstime::config::{Config, ConfigManager, TimerState};
use kidstime::gui::{
    activity_time_label, mask_token, notice_shown, status_badge, timer_color, KidsTimeApp, Screen,
    SnapConfig,
    SnapState, StatusBadge, Tab, TimerColor,
};
use kidstime::history::ActivityHistory;

fn manager() -> ConfigManager {
    let (mgr, _, _) = ConfigManager::start_on(
        Config::default(),
        TimerState::default(),
        ActivityHistory::new(Vec::new()),
        "0123456789abcdef0123456789abcdef".to_string(),
        "2024-05-01".to_string(),
    );
    mgr
}

#[test]
fn new_window_on_first_run_is_not_authenticated() {
    let mgr = manager();
    let app = KidsTimeApp::new(&mgr);
    assert!(!app.authenticated);
    assert!(app.tab == Tab::Dashboard);
    assert_eq!(app.extra_min_input, "30");
    assert_eq!(app.s_daily, "120");
    assert_eq!(app.s_session, "60");
    assert_eq!(app.s_warning, "5");
    assert_eq!(app.s_web_port, "8080");
    assert_eq!(app.s_sched_start, "09:00");
    assert!(!app.settings_dirty);
    assert_eq!(app.screen(false, true), Screen::FirstRun);
}

#[test]
fn screens_follow_authentication() {
    let mut mgr = manager();
    mgr.set_password("abcd");
    let mut app = KidsTimeApp::new(&mgr);
    assert!(app.authenticated);
    assert_eq!(app.screen(false, false), Screen::Main);
    app.authenticated = false;
    assert_eq!(app.screen(false, false), Screen::Login);
    assert_eq!(app.screen(true, false), Screen::Blocked);
    assert_eq!(app.screen(true, true), Screen::FirstRun);
}

#[test]
fn login_with_right_and_wrong_password() {
    let mut mgr = manager();
    mgr.set_password("letmein");
    let mut app = KidsTimeApp::new(&mgr);
    app.authenticated = false;
    app.pw_input = "nope".to_string();
    app.try_login(&mgr);
    assert!(!app.authenticated);
    assert!(app.show_pw_error);
    assert_eq!(app.pw_input, "nope");
    app.pw_input = "letmein".to_string();
    app.try_login(&mgr);
    assert!(app.authenticated);
    assert!(!app.show_pw_error);
    assert_eq!(app.pw_input, "");
}

#[test]
fn blocked_unlock_grants_five_minutes() {
    let mut mgr = manager();
    mgr.set_password("letmein");
    mgr.state.minutes_used_today = 120;
    mgr.state.is_blocked = true;
    let mut app = KidsTimeApp::new(&mgr);
    app.pw_input = "wrong".to_string();
    assert!(!app.try_blocked_unlock(&mut mgr));
    assert!(app.show_pw_error);
    assert!(mgr.state.is_blocked);
    app.pw_input = "letmein".to_string();
    assert!(app.try_blocked_unlock(&mut mgr));
    assert_eq!(mgr.state.minutes_used_today, 115);
    assert!(!mgr.state.is_blocked);
    assert_eq!(app.pw_input, "");
}

#[test]
fn setup_refuses_short_and_unconfirmed_passwords() {
    let mut mgr = manager();
    let mut app = KidsTimeApp::new(&mgr);
    app.new_pw = "abc".to_string();
    app.confirm_pw = "abc".to_string();
    assert!(!app.try_setup(&mut mgr));
    assert_eq!(app.setup_error, "Password must be at least 4 characters.");
    assert!(mgr.is_first_run());
    app.new_pw = "abcd".to_string();
    app.confirm_pw = "abce".to_string();
    assert!(!app.try_setup(&mut mgr));
    assert_eq!(app.setup_error, "Passwords do not match.");
    app.confirm_pw = "abcd".to_string();
    assert!(app.try_setup(&mut mgr));
    assert!(app.authenticated);
    assert_eq!(app.setup_error, "");
    assert_eq!(app.new_pw, "");
    assert_eq!(app.confirm_pw, "");
    assert!(mgr.verify_password("abcd"));
}

#[test]
fn short_password_counts_bytes() {
    let mut mgr = manager();
    let mut app = KidsTimeApp::new(&mgr);
    app.new_pw = "äb".to_string();
    app.confirm_pw = "äb".to_string();
    assert!(!app.try_setup(&mut mgr));
    app.new_pw = "äbc".to_string();
    app.confirm_pw = "äbc".to_string();
    assert!(app.try_setup(&mut mgr));
}

#[test]
fn change_password_shows_a_notice() {
    let mut mgr = manager();
    mgr.set_password("first");
    let mut app = KidsTimeApp::new(&mgr);
    app.new_pw = "second".to_string();
    app.confirm_pw = "second".to_string();
    assert!(app.try_change_password(&mut mgr));
    assert_eq!(app.toast, "Password updated.");
    assert!(app.toast_visible());
    assert!(mgr.verify_password("second"));
    assert!(!mgr.verify_password("first"));
}

#[test]
fn regenerate_token_from_the_window() {
    let mut mgr = manager();
    let mut app = KidsTimeApp::new(&mgr);
    let tok = app.regenerate_token(&mut mgr);
    assert_eq!(tok, mgr.config.web_token);
    assert_ne!(tok, "0123456789abcdef0123456789abcdef");
    assert_eq!(app.toast, "New token generated.");
}

#[test]
fn grant_dialog_reads_and_bounds_the_minutes() {
    let mut mgr = manager();
    let mut app = KidsTimeApp::new(&mgr);
    mgr.state.minutes_used_today = 100;
    app.extra_min_input = " 45 ".to_string();
    assert_eq!(app.grant_extra_time(&mut mgr), 45);
    assert_eq!(mgr.state.minutes_used_today, 55);
    assert_eq!(app.toast, "Granted 45 extra minutes.");
    app.extra_min_input = "lots".to_string();
    assert_eq!(app.grant_extra_time(&mut mgr), 30);
    assert_eq!(mgr.state.minutes_used_today, 25);
    app.extra_min_input = "1000".to_string();
    assert_eq!(app.grant_extra_time(&mut mgr), 300);
    assert_eq!(mgr.state.minutes_used_today, 0);
    app.extra_min_input = "0".to_string();
    assert_eq!(app.grant_extra_time(&mut mgr), 1);
    assert_eq!(app.toast, "Granted 1 extra minutes.");
}

#[test]
fn reset_session_from_the_window() {
    let mut mgr = manager();
    let mut app = KidsTimeApp::new(&mgr);
    mgr.state.session_minutes = 42;
    app.reset_session(&mut mgr);
    assert_eq!(mgr.state.session_minutes, 0);
    assert_eq!(app.toast, "Session reset.");
}

#[test]
fn settings_form_round_trip() {
    let mut mgr = manager();
    mgr.config.duckdns_domain = "home".to_string();
    mgr.config.web_port = 9090;
    let before = mgr.config.clone();
    let mut app = KidsTimeApp::new(&mgr);
    app.s_daily = "999".to_string();
    app.settings_dirty = true;
    app.sync_scratch_from_config(&mgr);
    assert!(!app.settings_dirty);
    assert_eq!(app.s_daily, "120");
    app.apply_scratch_to_config(&mut mgr);
    assert_eq!(format!("{:?}", mgr.config), format!("{:?}", before));
}

#[test]
fn settings_form_keeps_numbers_that_do_not_parse() {
    let mut mgr = manager();
    let mut app = KidsTimeApp::new(&mgr);
    app.s_daily = "90".to_string();
    app.s_session = "-1".to_string();
    app.s_warning = "+3".to_string();
    app.s_web_port = "70000".to_string();
    app.s_sched_start = "08:30".to_string();
    app.s_cloud_enabled = true;
    app.apply_scratch_to_config(&mut mgr);
    assert_eq!(mgr.config.daily_limit_minutes, 90);
    assert_eq!(mgr.config.session_limit_minutes, 60);
    assert_eq!(mgr.config.warning_minutes, 3);
    assert_eq!(mgr.config.web_port, 8080);
    assert_eq!(mgr.config.schedule_start, "08:30");
    assert!(mgr.config.cloud_enabled);
}

#[test]
fn snapshots_copy_the_manager() {
    let mut mgr = manager();
    mgr.state.minutes_used_today = 10;
    mgr.state.current_process = "p.exe".to_string();
    let sc = SnapConfig::from_mgr(&mgr);
    let ss = SnapState::from_mgr(&mgr);
    assert_eq!(sc.daily_limit, 120);
    assert_eq!(sc.web_token, mgr.config.web_token);
    assert_eq!(ss.minutes_used_today, 10);
    assert_eq!(ss.current_process, "p.exe");
    let app = KidsTimeApp::new(&mgr);
    let (_, _, rd, rs, _, local, public) = app.snap(&mgr, "10.0.0.2");
    assert_eq!(rd, 110);
    assert_eq!(rs, 60);
    assert_eq!(local, "http://10.0.0.2:8080");
    assert_eq!(public, "");
}

#[test]
fn tokens_are_masked() {
    assert_eq!(mask_token(""), "****");
    assert_eq!(mask_token("12345678"), "****");
    assert_eq!(mask_token("0123456789abcdef"), "0123...cdef");
    assert_eq!(mask_token("abcdefghi"), "abcd...fghi");
}

#[test]
fn timer_colours() {
    assert_eq!(timer_color(61, 120), TimerColor::Green);
    assert_eq!(timer_color(60, 120), TimerColor::Amber);
    assert_eq!(timer_color(19, 120), TimerColor::Amber);
    assert_eq!(timer_color(18, 120), TimerColor::Red);
    assert_eq!(timer_color(3, 20), TimerColor::Red);
    assert_eq!(timer_color(-5, 120), TimerColor::Red);
    assert_eq!(timer_color(10, 0), TimerColor::Red);
}

#[test]
fn status_badges() {
    assert_eq!(status_badge(true, false), StatusBadge::Blocked);
    assert_eq!(status_badge(false, false), StatusBadge::OutsideSchedule);
    assert_eq!(status_badge(false, true), StatusBadge::Active);
}

#[test]
fn activity_table_time_labels() {
    assert_eq!(activity_time_label("2024-05-01T10:11:12.123456+02:00"), "10:11:12");
    assert_eq!(activity_time_label("2024-05-01T10:11:12+02:00"), "10:11:12+02:00");
    assert_eq!(activity_time_label("no time here"), "no time here");
    assert_eq!(activity_time_label("aTbTc"), "b");
}

#[test]
fn logout_returns_to_the_login_screen() {
    let mut mgr = manager();
    mgr.set_password("abcd");
    let mut app = KidsTimeApp::new(&mgr);
    app.pw_input = "typed".to_string();
    app.tab = Tab::Settings;
    app.logout();
    assert!(!app.authenticated);
    assert_eq!(app.pw_input, "");
    assert!(app.tab == Tab::Settings);
    assert_eq!(app.screen(false, false), Screen::Login);
}

#[test]
fn save_and_discard_buttons() {
    let mut mgr = manager();
    let mut app = KidsTimeApp::new(&mgr);
    app.s_daily = "90".to_string();
    app.s_web_port = "not a port".to_string();
    app.settings_dirty = true;
    app.save_settings(&mut mgr);
    assert_eq!(mgr.config.daily_limit_minutes, 90);
    assert_eq!(mgr.config.web_port, 8080);
    assert!(!app.settings_dirty);
    assert_eq!(app.toast, "Settings saved.");
    assert!(app.toast_visible());

    app.s_daily = "15".to_string();
    app.s_sched_end = "23:00".to_string();
    app.discard_settings(&mgr);
    assert_eq!(app.s_daily, "90");
    assert_eq!(app.s_web_port, "8080");
    assert_eq!(app.s_sched_end, "21:00");
    assert_eq!(app.toast, "Changes discarded.");

    let before = mgr.config.clone();
    app.save_settings(&mut mgr);
    assert_eq!(mgr.config.daily_limit_minutes, before.daily_limit_minutes);
    assert_eq!(mgr.config.web_port, before.web_port);
    assert_eq!(mgr.config.schedule_end, before.schedule_end);
}

#[test]
fn notices_show_for_three_seconds() {
    assert!(notice_shown(0));
    assert!(notice_shown(2));
    assert!(!notice_shown(3));
    assert!(!notice_shown(60));
}

#[test]
fn password_fields_are_kept_on_refusal_and_cleared_on_success() {
    let mut mgr = manager();
    mgr.set_password("old1");
    let mut app = KidsTimeApp::new(&mgr);
    let before = mgr.config.admin_password_hash.clone();
    app.toast = "x".to_string();
    app.new_pw = "abcd".to_string();
    app.confirm_pw = "abce".to_string();
    assert!(!app.try_change_password(&mut mgr));
    assert_eq!(app.setup_error, "Passwords do not match.");
    assert_eq!(app.new_pw, "abcd");
    assert_eq!(app.confirm_pw, "abce");
    assert_eq!(app.toast, "x");
    assert_eq!(mgr.config.admin_password_hash, before);
    app.new_pw = "abc".to_string();
    app.confirm_pw = "abc".to_string();
    assert!(!app.try_change_password(&mut mgr));
    assert_eq!(app.setup_error, "Password must be at least 4 characters.");
    assert_eq!(app.new_pw, "abc");
    app.new_pw = "abcd".to_string();
    app.confirm_pw = "abcd".to_string();
    assert!(app.try_change_password(&mut mgr));
    assert_eq!(app.new_pw, "");
    assert_eq!(app.confirm_pw, "");
    assert_eq!(app.setup_error, "");
    assert_eq!(app.toast, "Password updated.");
    assert_eq!(mgr.config.admin_password_hash, kidstime::config::hash_password("abcd"));
    assert!(!mgr.is_first_run());
}

#[test]
fn first_run_setup_clears_the_fields() {
    let mut mgr = manager();
    let mut app = KidsTimeApp::new(&mgr);
    app.new_pw = "secret".to_string();
    app.confirm_pw = "secret".to_string();
    assert!(app.try_setup(&mut mgr));
    assert!(app.authenticated);
    assert_eq!(app.new_pw, "");
    assert_eq!(app.confirm_pw, "");
    assert_eq!(app.setup_error, "");
    assert!(!mgr.is_first_run());
    assert_eq!(mgr.config.admin_password_hash.len(), 64);
}
