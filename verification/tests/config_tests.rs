use kidstime::clock::{is_within_window, local_time_of_day, parse_time, TimeOfDay};
use kidstime::config::{
    default_daily_limit, default_port, default_sched_end, default_sched_start, default_session_limit,
    default_true, default_warning, format_time, generate_token, hash_password, Config,
    ConfigManager, TimerState,
};
use kidstime::history::ActivityHistory;

fn manager() -> ConfigManager {
    let (mgr, _, _) = ConfigManager::start_on(
        Config::default(),
        TimerState::default(),
        ActivityHistory::new(Vec::new()),
        "0123456789abcdef0123456789abcdef".to_string(),
        "2024-05-01".to_string(),
    );
    mgr
}

#[test]
fn defaults_of_a_fresh_installation() {
    let c = Config::default();
    assert_eq!(c.admin_password_hash, "");
    assert_eq!(c.daily_limit_minutes, 120);
    assert_eq!(c.session_limit_minutes, 60);
    assert!(c.schedule_enabled);
    assert_eq!(c.schedule_start, "09:00");
    assert_eq!(c.schedule_end, "21:00");
    assert_eq!(c.warning_minutes, 5);
    assert!(c.lock_on_limit && c.web_enabled && c.track_apps);
    assert_eq!(c.web_port, 8080);
    assert!(!c.cloud_enabled);
    assert_eq!(c.web_token, "");
    let s = TimerState::default();
    assert_eq!(s.minutes_used_today, 0);
    assert_eq!(s.session_start, None);
    assert!(!s.is_blocked);
    assert_eq!(default_daily_limit(), 120);
    assert_eq!(default_session_limit(), 60);
    assert!(default_true());
    assert_eq!(default_sched_start(), "09:00");
    assert_eq!(default_sched_end(), "21:00");
    assert_eq!(default_warning(), 5);
    assert_eq!(default_port(), 8080);
}

#[test]
fn password_hash_is_salted_sha256_in_hex() {
    assert_eq!(
        hash_password("1234"),
        "66ae401a6017c095b45badbc88e336672e814b838250247ddd6baf433c06b03e"
    );
    assert_eq!(
        hash_password("secret"),
        "c283b7e3182b83a8bc06bedc8274862ebb4cfe76cfe5f2ff164b360575ae84f7"
    );
    assert_eq!(
        hash_password(""),
        "44cbda1754fe033e06917bf35f8d3cffed785ee641554cf60ef4e4e3b82de7c1"
    );
}

#[test]
fn set_password_then_verify() {
    let mut mgr = manager();
    assert!(mgr.is_first_run());
    mgr.set_password("hunter22");
    assert!(!mgr.is_first_run());
    assert!(mgr.verify_password("hunter22"));
    assert!(!mgr.verify_password("hunter23"));
    assert_eq!(mgr.config.admin_password_hash, hash_password("hunter22"));
}

#[test]
fn tokens_are_32_lower_hex_digits() {
    let a = generate_token();
    let b = generate_token();
    assert_eq!(a.len(), 32);
    assert!(a.chars().all(|c| c.is_ascii_hexdigit() && !c.is_ascii_uppercase()));
    assert_ne!(a, b);
}

#[test]
fn regenerate_token_changes_the_accepted_token() {
    let mut mgr = manager();
    let before = mgr.config.web_token.clone();
    assert!(mgr.verify_token(&before));
    mgr.regenerate_token();
    let after = mgr.config.web_token.clone();
    assert_ne!(before, after);
    assert!(mgr.verify_token(&after));
    assert!(!mgr.verify_token(&before));
    assert_eq!(after.len(), 32);
}

#[test]
fn start_on_issues_missing_token_and_resets_new_day() {
    let mut state = TimerState::default();
    state.date = "2024-04-30".to_string();
    state.minutes_used_today = 77;
    state.session_minutes = 12;
    state.is_blocked = true;
    state.session_start = Some("x".to_string());
    state.current_window = "w".to_string();
    let (mgr, cfg_changed, state_changed) = ConfigManager::start_on(
        Config::default(),
        state,
        ActivityHistory::new(Vec::new()),
        "tok".to_string(),
        "2024-05-01".to_string(),
    );
    assert!(cfg_changed && state_changed);
    assert_eq!(mgr.config.web_token, "tok");
    assert_eq!(mgr.state.date, "2024-05-01");
    assert_eq!(mgr.state.minutes_used_today, 0);
    assert_eq!(mgr.state.session_minutes, 0);
    assert!(!mgr.state.is_blocked);
    assert_eq!(mgr.state.session_start, None);
    assert_eq!(mgr.state.current_window, "w");
}

#[test]
fn start_on_same_day_keeps_everything() {
    let mut config = Config::default();
    config.web_token = "kept".to_string();
    let mut state = TimerState::default();
    state.date = "2024-05-01".to_string();
    state.minutes_used_today = 33;
    let (mgr, cfg_changed, state_changed) = ConfigManager::start_on(
        config,
        state,
        ActivityHistory::new(Vec::new()),
        "unused".to_string(),
        "2024-05-01".to_string(),
    );
    assert!(!cfg_changed && !state_changed);
    assert_eq!(mgr.config.web_token, "kept");
    assert_eq!(mgr.state.minutes_used_today, 33);
}

#[test]
fn new_issues_a_random_token_when_missing() {
    let (mgr, cfg_changed, _) = ConfigManager::new(
        Config::default(),
        TimerState::default(),
        ActivityHistory::new(Vec::new()),
    );
    assert!(cfg_changed);
    assert_eq!(mgr.config.web_token.len(), 32);
    assert_eq!(mgr.state.date.len(), 10);
}

#[test]
fn minutes_and_remaining_time() {
    let mut mgr = manager();
    assert_eq!(mgr.remaining_daily(), 120);
    assert_eq!(mgr.remaining_session(), 60);
    mgr.add_session_minute();
    mgr.add_session_minute();
    assert_eq!(mgr.state.minutes_used_today, 2);
    assert_eq!(mgr.state.session_minutes, 2);
    assert_eq!(mgr.remaining_daily(), 118);
    assert_eq!(mgr.remaining_session(), 58);
    mgr.state.minutes_used_today = 125;
    assert_eq!(mgr.remaining_daily(), -5);
}

#[test]
fn grant_extra_time_saturates_and_unblocks() {
    let mut mgr = manager();
    mgr.state.minutes_used_today = 50;
    mgr.state.is_blocked = true;
    mgr.grant_extra_time(30);
    assert_eq!(mgr.state.minutes_used_today, 20);
    assert!(!mgr.state.is_blocked);
    mgr.grant_extra_time(30);
    assert_eq!(mgr.state.minutes_used_today, 0);
    assert_eq!(mgr.remaining_daily(), 120);
}

#[test]
fn sessions_start_and_reset() {
    let mut mgr = manager();
    mgr.state.session_minutes = 40;
    mgr.start_session_at("2024-05-01T10:00:00+02:00".to_string());
    assert_eq!(mgr.state.session_minutes, 0);
    assert_eq!(mgr.state.session_start.as_deref(), Some("2024-05-01T10:00:00+02:00"));
    mgr.state.session_minutes = 10;
    mgr.reset_session();
    assert_eq!(mgr.state.session_minutes, 0);
    assert!(mgr.state.session_start.is_some());
    mgr.start_session();
    assert!(mgr.state.session_start.as_deref().unwrap().contains('T'));
}

#[test]
fn active_window_is_noted() {
    let mut mgr = manager();
    mgr.update_active_window("Homework - Editor", "editor.exe");
    assert_eq!(mgr.state.current_window, "Homework - Editor");
    assert_eq!(mgr.state.current_process, "editor.exe");
}

#[test]
fn local_url_names_address_and_port() {
    let mgr = manager();
    assert_eq!(mgr.get_local_url("192.168.1.20"), "http://192.168.1.20:8080");
}

#[test]
fn public_url_prefers_relay_then_duckdns_then_ip() {
    let mut mgr = manager();
    assert_eq!(mgr.get_public_url(""), "");
    assert_eq!(mgr.get_public_url("5.6.7.8"), "http://5.6.7.8:8080");
    mgr.config.duckdns_domain = "  myhome ".to_string();
    assert_eq!(mgr.get_public_url("5.6.7.8"), "http://myhome.duckdns.org:8080");
    mgr.config.duckdns_domain = "home.example.org".to_string();
    mgr.config.web_port = 9000;
    assert_eq!(mgr.get_public_url(""), "http://home.example.org:9000");
    mgr.config.cloud_enabled = true;
    mgr.config.cloud_relay_url = "https://relay.example.com//".to_string();
    assert_eq!(mgr.get_public_url(""), "http://home.example.org:9000");
    mgr.config.cloud_device_code = "AB12CD".to_string();
    assert_eq!(mgr.get_public_url(""), "https://relay.example.com/AB12CD");
    mgr.config.cloud_enabled = false;
    assert_eq!(mgr.get_public_url(""), "http://home.example.org:9000");
}

#[test]
fn format_time_pads_hours_and_minutes() {
    assert_eq!(format_time(0), "00:00");
    assert_eq!(format_time(5), "00:05");
    assert_eq!(format_time(125), "02:05");
    assert_eq!(format_time(600), "10:00");
    assert_eq!(format_time(6125), "102:05");
    assert_eq!(format_time(-5), "00:-5");
    assert_eq!(format_time(-65), "-1:-5");
    assert_eq!(format_time(-600), "-10:00");
}

#[test]
fn schedule_times_parse_like_the_settings_file() {
    assert_eq!(parse_time("09:00"), 9 * 3600);
    assert_eq!(parse_time("21:00"), 21 * 3600);
    assert_eq!(parse_time("9:5"), 9 * 3600 + 5 * 60);
    assert_eq!(parse_time("+7:30"), 7 * 3600 + 30 * 60);
    assert_eq!(parse_time("24:00"), 0);
    assert_eq!(parse_time("23:60"), 0);
    assert_eq!(parse_time("x:30"), 30 * 60);
    assert_eq!(parse_time("1:2:3"), 0);
    assert_eq!(parse_time("noon"), 0);
    assert_eq!(parse_time(""), 0);
}

#[test]
fn schedule_window_is_inclusive_and_may_wrap() {
    let at = |secs: u32, nanos: u32| TimeOfDay { secs, nanos };
    let (start, end) = (9 * 3600, 21 * 3600);
    assert!(is_within_window(at(start, 0), start, end));
    assert!(is_within_window(at(end, 0), start, end));
    assert!(!is_within_window(at(end, 1), start, end));
    assert!(!is_within_window(at(start - 1, 999_999_999), start, end));
    assert!(is_within_window(at(12 * 3600, 0), start, end));
    let (ns, ne) = (22 * 3600, 6 * 3600);
    assert!(is_within_window(at(23 * 3600, 0), ns, ne));
    assert!(is_within_window(at(3600, 0), ns, ne));
    assert!(!is_within_window(at(12 * 3600, 0), ns, ne));
}

#[test]
fn schedule_follows_the_settings() {
    let mut mgr = manager();
    let noon = TimeOfDay { secs: 12 * 3600, nanos: 0 };
    let night = TimeOfDay { secs: 23 * 3600, nanos: 0 };
    assert!(mgr.is_in_schedule_at(noon));
    assert!(!mgr.is_in_schedule_at(night));
    mgr.config.schedule_enabled = false;
    assert!(mgr.is_in_schedule_at(night));
    assert!(mgr.is_in_schedule());
}

#[test]
fn clock_reading_is_a_time_of_day() {
    let t = local_time_of_day();
    assert!(t.secs < 86400);
    assert!(t.nanos < 2_000_000_000);
}

#[test]
fn a_state_from_another_day_starts_afresh() {
    let mut state = TimerState::default();
    state.date = "1999-12-31".to_string();
    state.minutes_used_today = 77;
    state.session_minutes = 12;
    state.is_blocked = true;
    state.session_start = Some("1999-12-31T10:00:00+00:00".to_string());
    state.current_process = "game.exe".to_string();
    let mut config = Config::default();
    config.web_token = "fedcba9876543210fedcba9876543210".to_string();
    let (mgr, cfg_changed, state_changed) =
        ConfigManager::new(config, state, ActivityHistory::new(Vec::new()));
    assert!(!cfg_changed);
    assert_eq!(mgr.config.web_token, "fedcba9876543210fedcba9876543210");
    assert!(state_changed);
    assert_ne!(mgr.state.date, "1999-12-31");
    assert_eq!(mgr.state.minutes_used_today, 0);
    assert_eq!(mgr.state.session_minutes, 0);
    assert!(!mgr.state.is_blocked);
    assert!(mgr.state.session_start.is_none());
    assert_eq!(mgr.state.current_process, "game.exe");

    let today = mgr.state.clone();
    let (again, _, changed) = ConfigManager::new(mgr.config.clone(), today.clone(), ActivityHistory::new(Vec::new()));
    if !changed {
        assert_eq!(again.state.date, today.date);
    }
}

#[test]
fn the_day_is_written_as_year_month_day() {
    let (mgr, _, _) = ConfigManager::new(
        Config::default(),
        TimerState::default(),
        ActivityHistory::new(Vec::new()),
    );
    let d: Vec<char> = mgr.state.date.chars().collect();
    let n = d.len();
    assert!(n >= 10);
    assert_eq!(d[n - 6], '-');
    assert_eq!(d[n - 3], '-');
    let month: u32 = mgr.state.date[n - 5..n - 3].parse().unwrap();
    let day: u32 = mgr.state.date[n - 2..].parse().unwrap();
    assert!((1..=12).contains(&month));
    assert!((1..=31).contains(&day));
    assert!(d[..n - 6].iter().skip(1).all(|c| c.is_ascii_digit()));
}
