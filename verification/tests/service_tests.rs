use kidstime::clock::TimeOfDay;
use kidstime::config::{Config, ConfigManager, TimerState};
use kidstime::history::{ActivityHistory, HistoryEntry};
use kidstime::net::{accept_public_ip, duckdns_reply_ok, duckdns_update_url, public_ip_services};
use kidstime::relay::{device_code_from, relay_request, CloudRelayClient, RelayAction, RelayPlan};
use kidstime::server::{
    add_time_minutes, build_status_snapshot, check_auth, recent_activity, route_api, ApiRoute,
    StatusSnapshot,
};
use kidstime::tracker::TickAction;
use kidstime::winapi::{
    get_active_window_info, name_end, process_name_or_unknown, window_title, ActiveWindowInfo,
};

fn manager() -> ConfigManager {
    let (mgr, _, _) = ConfigManager::start_on(
        Config::default(),
        TimerState::default(),
        ActivityHistory::new(Vec::new()),
        "0123456789abcdef0123456789abcdef".to_string(),
        "2024-05-01".to_string(),
    );
    mgr
}

#[test]
fn bearer_token_is_required() {
    let mgr = manager();
    assert!(check_auth(&mgr, Some("Bearer 0123456789abcdef0123456789abcdef")));
    assert!(!check_auth(&mgr, Some("Bearer 0123456789abcdef0123456789abcdee")));
    assert!(!check_auth(&mgr, Some("bearer 0123456789abcdef0123456789abcdef")));
    assert!(!check_auth(&mgr, Some("0123456789abcdef0123456789abcdef")));
    assert!(!check_auth(&mgr, Some("Bearer ")));
    assert!(!check_auth(&mgr, None));
}

#[test]
fn relayed_requests_are_routed() {
    assert_eq!(route_api("/api/status", "GET"), ApiRoute::Status);
    assert_eq!(route_api("/api/dashboard", "GET"), ApiRoute::Dashboard);
    assert_eq!(route_api("/api/lock", "POST"), ApiRoute::Lock);
    assert_eq!(route_api("/api/lock", "GET"), ApiRoute::Unknown);
    assert_eq!(route_api("/api/add-time", "POST"), ApiRoute::AddTime);
    assert_eq!(route_api("/api/add-time", "GET"), ApiRoute::Unknown);
    assert_eq!(route_api("/api/history", "GET"), ApiRoute::History);
    assert_eq!(route_api("/api/other", "GET"), ApiRoute::Unknown);
}

#[test]
fn add_time_requests_are_bounded() {
    assert_eq!(add_time_minutes(None), 30);
    assert_eq!(add_time_minutes(Some(45)), 45);
    assert_eq!(add_time_minutes(Some(0)), 1);
    assert_eq!(add_time_minutes(Some(1000)), 300);
    assert_eq!(add_time_minutes(Some(4294967297)), 1);
    assert_eq!(add_time_minutes(Some(4294967296 + 120)), 120);
}

#[test]
fn status_snapshot_reports_the_state() {
    let mut mgr = manager();
    mgr.state.minutes_used_today = 20;
    mgr.state.session_minutes = 5;
    mgr.state.current_window = "Doc".to_string();
    let s = StatusSnapshot::of_at(&mgr, TimeOfDay { secs: 8 * 3600, nanos: 0 });
    assert_eq!(s.remaining_daily, 100);
    assert_eq!(s.remaining_session, 55);
    assert_eq!(s.used_today, 20);
    assert_eq!(s.daily_limit, 120);
    assert_eq!(s.session_limit, 60);
    assert!(!s.in_schedule);
    assert_eq!(s.schedule_start, "09:00");
    assert_eq!(s.current_window, "Doc");
    let now = build_status_snapshot(&mgr);
    assert_eq!(now.used_today, 20);
}

#[test]
fn recent_activity_is_newest_first_and_bounded() {
    let entries: Vec<HistoryEntry> = (0..40)
        .map(|i| HistoryEntry {
            time: format!("t{}", i),
            window: String::new(),
            process: String::new(),
            event: "active".to_string(),
        })
        .collect();
    let refs: Vec<&HistoryEntry> = entries.iter().collect();
    let r = recent_activity(&refs);
    assert_eq!(r.len(), 30);
    assert_eq!(r[0].time, "t39");
    assert_eq!(r[29].time, "t10");
    let few: Vec<&HistoryEntry> = entries.iter().take(3).collect();
    let r = recent_activity(&few);
    assert_eq!(r.iter().map(|e| e.time.as_str()).collect::<Vec<_>>(), vec!["t2", "t1", "t0"]);
}

#[test]
fn relay_waits_until_configured() {
    let mut mgr = manager();
    assert!(matches!(mgr.plan_relay(), RelayPlan::Wait { secs: 10 }));
    mgr.config.cloud_relay_url = "  / ".to_string();
    assert!(matches!(mgr.plan_relay(), RelayPlan::Wait { secs: 10 }));
    mgr.config.cloud_relay_url = "https://relay.example.com/".to_string();
    assert!(matches!(mgr.plan_relay(), RelayPlan::Wait { secs: 30 }));
    mgr.config.cloud_enabled = true;
    assert!(matches!(mgr.plan_relay(), RelayPlan::NeedCode));
    mgr.config.cloud_device_code = "AB12CD".to_string();
    match mgr.plan_relay() {
        RelayPlan::Connect { ws_url, code, token } => {
            assert_eq!(ws_url, "wss://relay.example.com/ws");
            assert_eq!(code, "AB12CD");
            assert_eq!(token, "0123456789abcdef0123456789abcdef");
        }
        _ => panic!("expected a connection"),
    }
    mgr.config.cloud_relay_url = " http://10.0.0.1:8000// ".to_string();
    match mgr.plan_relay() {
        RelayPlan::Connect { ws_url, .. } => assert_eq!(ws_url, "ws://10.0.0.1:8000/ws"),
        _ => panic!("expected a connection"),
    }
}

#[test]
fn relay_picks_a_device_code() {
    assert_eq!(device_code_from("a1b2c3d4e5f60718293a4b5c6d7e8f90"), "A1B2C3");
    let mut mgr = manager();
    mgr.config.cloud_enabled = true;
    mgr.config.cloud_relay_url = "https://relay.example.com".to_string();
    match mgr.relay_step() {
        RelayAction::CodeAssigned => {}
        _ => panic!("expected a code"),
    }
    let code = mgr.config.cloud_device_code.clone();
    assert_eq!(code.len(), 6);
    assert!(code.chars().all(|c| c.is_ascii_digit() || ('A'..='F').contains(&c)));
    match mgr.relay_step() {
        RelayAction::Connect { ws_url, code: c, status, .. } => {
            assert_eq!(ws_url, "wss://relay.example.com/ws");
            assert_eq!(c, code);
            assert_eq!(status.daily_limit, 120);
        }
        _ => panic!("expected a connection"),
    }
}

#[test]
fn relay_client_stops() {
    let client = CloudRelayClient::new();
    assert!(client.is_running());
    client.stop();
    assert!(!client.is_running());
}

#[test]
fn tick_outside_schedule_blocks() {
    let mut mgr = manager();
    let a = mgr.tick_with(false, "s".to_string());
    assert_eq!(a, TickAction::LockOutsideSchedule);
    assert!(mgr.state.is_blocked);
    assert_eq!(mgr.state.minutes_used_today, 0);
}

#[test]
fn tick_counts_a_minute() {
    let mut mgr = manager();
    mgr.state.session_start = Some("s0".to_string());
    let a = mgr.tick_with(true, "s1".to_string());
    assert_eq!(a, TickAction::Counted { track_apps: true, lock: false });
    assert_eq!(mgr.state.minutes_used_today, 1);
    assert_eq!(mgr.state.session_minutes, 1);
    assert_eq!(mgr.state.session_start.as_deref(), Some("s0"));
}

#[test]
fn tick_breaks_a_full_session() {
    let mut mgr = manager();
    mgr.state.session_minutes = 59;
    mgr.state.minutes_used_today = 70;
    let a = mgr.tick_with(true, "s2".to_string());
    assert_eq!(a, TickAction::Counted { track_apps: true, lock: false });
    assert_eq!(mgr.state.session_minutes, 0);
    assert_eq!(mgr.state.minutes_used_today, 71);
    assert_eq!(mgr.state.session_start.as_deref(), Some("s2"));
}

#[test]
fn tick_locks_at_the_daily_limit() {
    let mut mgr = manager();
    mgr.state.session_minutes = 59;
    mgr.state.minutes_used_today = 119;
    let a = mgr.tick_with(true, "s3".to_string());
    assert_eq!(a, TickAction::Counted { track_apps: true, lock: true });
    assert_eq!(mgr.state.session_minutes, 60);
    mgr.config.lock_on_limit = false;
    mgr.config.track_apps = false;
    let a = mgr.tick_with(true, "s4".to_string());
    assert_eq!(a, TickAction::Counted { track_apps: false, lock: false });
    mgr.config.schedule_enabled = false;
    assert!(matches!(mgr.tick(), TickAction::Counted { .. }));
}

#[test]
fn observed_windows_are_logged() {
    let mut mgr = manager();
    let none = ActiveWindowInfo { window: String::new(), process: "x.exe".to_string() };
    assert!(!mgr.observe_window(&none));
    assert_eq!(mgr.history.len(), 0);
    let info = ActiveWindowInfo { window: "Notes".to_string(), process: "notes.exe".to_string() };
    assert!(mgr.observe_window(&info));
    assert_eq!(mgr.state.current_window, "Notes");
    assert_eq!(mgr.history.len(), 1);
    assert_eq!(mgr.history.get_today()[0].process, "notes.exe");
    let na = get_active_window_info();
    assert_eq!(na.window, "N/A");
    assert_eq!(na.process, "N/A");
}

#[test]
fn public_ip_replies() {
    assert_eq!(public_ip_services().len(), 3);
    assert_eq!(public_ip_services()[0], "https://api.ipify.org");
    assert_eq!(accept_public_ip(" 203.0.113.7\n").as_deref(), Some("203.0.113.7"));
    assert_eq!(accept_public_ip("  \n"), None);
    let long = "1".repeat(46);
    assert_eq!(accept_public_ip(&long), None);
    let max = "2".repeat(45);
    assert_eq!(accept_public_ip(&max).as_deref(), Some(max.as_str()));
}

#[test]
fn duckdns_requests() {
    assert_eq!(
        duckdns_update_url("home", "tok", "1.2.3.4").as_deref(),
        Some("https://www.duckdns.org/update?domains=home.duckdns.org&token=tok&ip=1.2.3.4")
    );
    assert_eq!(
        duckdns_update_url("a.b", "tok", "1.2.3.4").as_deref(),
        Some("https://www.duckdns.org/update?domains=a.b&token=tok&ip=1.2.3.4")
    );
    assert_eq!(duckdns_update_url("", "tok", "1.2.3.4"), None);
    assert_eq!(duckdns_update_url("home", "", "1.2.3.4"), None);
    assert_eq!(duckdns_update_url("home", "tok", ""), None);
    assert!(duckdns_reply_ok("OK\n"));
    assert!(!duckdns_reply_ok("KO"));
}

#[test]
fn relay_messages_of_type_request_are_requests() {
    let r = relay_request(Some("request"), Some("r1"), Some("/api/status"), None).unwrap();
    assert_eq!(r.req_id, "r1");
    assert_eq!(r.path, "/api/status");
    assert_eq!(r.method, "GET");
    let r = relay_request(Some("request"), None, None, Some("POST")).unwrap();
    assert_eq!(r.req_id, "");
    assert_eq!(r.path, "");
    assert_eq!(r.method, "POST");
    assert!(relay_request(Some("ping"), Some("r1"), Some("/api/status"), None).is_none());
    assert!(relay_request(None, Some("r1"), Some("/api/status"), None).is_none());
}

#[test]
fn tracking_starts_a_session_once() {
    let mut mgr = manager();
    assert!(mgr.state.session_start.is_none());
    mgr.state.session_minutes = 7;
    assert!(mgr.begin_tracking());
    assert!(mgr.state.session_start.is_some());
    assert_eq!(mgr.state.session_minutes, 0);
    let stamp = mgr.state.session_start.clone();
    mgr.state.session_minutes = 3;
    assert!(!mgr.begin_tracking());
    assert_eq!(mgr.state.session_start, stamp);
    assert_eq!(mgr.state.session_minutes, 3);
}

#[test]
fn process_names_from_win32_buffers() {
    let mut buf = [0u16; 8];
    for (i, c) in "app.exe".encode_utf16().enumerate() {
        buf[i] = c;
    }
    assert_eq!(name_end(&buf), 7);
    assert_eq!(name_end(&[0u16, 65, 66]), 0);
    assert_eq!(name_end(&[65u16, 66, 67]), 0);
    assert_eq!(process_name_or_unknown(String::new()), "Unknown");
    assert_eq!(process_name_or_unknown("app.exe".to_string()), "app.exe");
    assert_eq!(window_title("Notepad\0\0"), "Notepad");
    assert_eq!(window_title("Notepad"), "Notepad");
}

#[test]
fn tick_outside_schedule_at_full_counters_only_blocks() {
    let mut mgr = manager();
    mgr.state.minutes_used_today = u32::MAX;
    mgr.state.session_minutes = u32::MAX;
    mgr.state.current_process = "game.exe".to_string();
    let a = mgr.tick_with(false, "s".to_string());
    assert_eq!(a, TickAction::LockOutsideSchedule);
    assert!(mgr.state.is_blocked);
    assert_eq!(mgr.state.minutes_used_today, u32::MAX);
    assert_eq!(mgr.state.session_minutes, u32::MAX);
    assert_eq!(mgr.state.current_process, "game.exe");
}

#[test]
fn observing_a_window_keeps_the_counters_and_the_block() {
    let mut mgr = manager();
    mgr.state.is_blocked = true;
    mgr.state.minutes_used_today = 12;
    let info = ActiveWindowInfo { window: "Doc".to_string(), process: "edit.exe".to_string() };
    assert!(mgr.observe_window(&info));
    assert!(mgr.state.is_blocked);
    assert_eq!(mgr.state.minutes_used_today, 12);
    assert_eq!(mgr.state.current_window, "Doc");
    assert_eq!(mgr.history.len(), 1);
}
