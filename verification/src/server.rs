//! The decisions of the web panel's API, shared by the local web server and the
//! cloud relay: who is let in, which endpoint a request names, how many minutes
//! an add-time request grants, and what the status answers report.
use vstd::prelude::*;
use vstd::string::*;
use crate::clock::TimeOfDay;
use crate::config::{in_schedule, ConfigManager};
use crate::history::HistoryEntry;
use crate::text::{has_prefix, starts_with, str_eq};

verus! {

/// "Bearer "
pub open spec fn bearer_prefix() -> Seq<char> {
    seq!['B', 'e', 'a', 'r', 'e', 'r', ' ']
}

/// The request carries `Authorization: Bearer <web token>`.
pub open spec fn authorized(web_token: Seq<char>, auth_header: Option<Seq<char>>) -> bool {
    match auth_header {
        Some(h) => has_prefix(h, bearer_prefix()) && h.skip(7) == web_token,
        None => false,
    }
}

/// The view of an optional header.
pub open spec fn header_view(h: Option<&str>) -> Option<Seq<char>> {
    match h {
        Some(s) => Some(s@),
        None => None,
    }
}

/// Whether a request with this `Authorization` header may use the API.
pub fn check_auth(config: &ConfigManager, auth_header: Option<&str>) -> (ok: bool)
    ensures
        ok == authorized(config.config.web_token@, header_view(auth_header)),
{
    match auth_header {
        Some(auth) => {
            proof {
                reveal_strlit("Bearer ");
                assert("Bearer "@ =~= bearer_prefix());
            }
            if starts_with(auth, "Bearer ") {
                let token = auth.substring_char(7, auth.unicode_len());
                assert(token@ =~= auth@.skip(7));
                config.verify_token(token)
            } else {
                false
            }
        },
        None => false,
    }
}

/// The endpoints of the API.
#[derive(Clone, Copy, Debug, PartialEq, Eq, Structural)]
pub enum ApiRoute {
    Status,
    Dashboard,
    Lock,
    AddTime,
    History,
    Unknown,
}

/// The endpoint that a path and method name: locking and adding time must be
/// POST requests; everything else is unknown.
pub open spec fn route_of(path: Seq<char>, method: Seq<char>) -> ApiRoute {
    if path == "/api/status"@ {
        ApiRoute::Status
    } else if path == "/api/dashboard"@ {
        ApiRoute::Dashboard
    } else if path == "/api/lock"@ && method == "POST"@ {
        ApiRoute::Lock
    } else if path == "/api/add-time"@ && method == "POST"@ {
        ApiRoute::AddTime
    } else if path == "/api/history"@ {
        ApiRoute::History
    } else {
        ApiRoute::Unknown
    }
}

/// The endpoint that a relayed request names.
pub fn route_api(path: &str, method: &str) -> (r: ApiRoute)
    ensures
        r == route_of(path@, method@),
{
    if str_eq(path, "/api/status") {
        ApiRoute::Status
    } else if str_eq(path, "/api/dashboard") {
        ApiRoute::Dashboard
    } else if str_eq(path, "/api/lock") && str_eq(method, "POST") {
        ApiRoute::Lock
    } else if str_eq(path, "/api/add-time") && str_eq(method, "POST") {
        ApiRoute::AddTime
    } else if str_eq(path, "/api/history") {
        ApiRoute::History
    } else {
        ApiRoute::Unknown
    }
}

/// The minutes an add-time request grants: its `minutes` number (30 when it
/// has none), cut to 32 bits, then kept within 1 to 300.
pub open spec fn granted_minutes(requested: Option<u64>) -> u32 {
    let v = match requested {
        Some(m) => m as u32,
        None => 30u32,
    };
    if v < 1 {
        1
    } else if v > 300 {
        300
    } else {
        v
    }
}

/// The minutes an add-time request grants.
pub fn add_time_minutes(requested: Option<u64>) -> (m: u32)
    ensures
        m == granted_minutes(requested),
        1 <= m <= 300,
{
    let v: u32 = match requested {
        Some(m) => m as u32,
        None => 30,
    };
    if v < 1 {
        1
    } else if v > 300 {
        300
    } else {
        v
    }
}

/// The status that the panel and the relay report.
pub struct StatusSnapshot {
    pub remaining_daily: i64,
    pub remaining_session: i64,
    pub used_today: u32,
    pub daily_limit: u32,
    pub session_limit: u32,
    pub is_blocked: bool,
    pub in_schedule: bool,
    pub schedule_start: String,
    pub schedule_end: String,
    pub current_window: String,
    pub current_process: String,
}

/// The status of `mgr` at the time of day `now`.
pub open spec fn status_at(mgr: ConfigManager, now: TimeOfDay) -> StatusSnapshot {
    StatusSnapshot {
        remaining_daily: (mgr.config.daily_limit_minutes - mgr.state.minutes_used_today) as i64,
        remaining_session: (mgr.config.session_limit_minutes - mgr.state.session_minutes) as i64,
        used_today: mgr.state.minutes_used_today,
        daily_limit: mgr.config.daily_limit_minutes,
        session_limit: mgr.config.session_limit_minutes,
        is_blocked: mgr.state.is_blocked,
        in_schedule: in_schedule(mgr.config, now),
        schedule_start: mgr.config.schedule_start,
        schedule_end: mgr.config.schedule_end,
        current_window: mgr.state.current_window,
        current_process: mgr.state.current_process,
    }
}

/// Every field of `s` but `in_schedule` reads what the manager holds: the
/// minutes left of the day and of the session, the minutes used, both limits,
/// the block, the allowed hours as set, and the foreground window and program.
pub open spec fn reports(s: StatusSnapshot, mgr: ConfigManager) -> bool {
    &&& s.remaining_daily == mgr.config.daily_limit_minutes - mgr.state.minutes_used_today
    &&& s.remaining_session == mgr.config.session_limit_minutes - mgr.state.session_minutes
    &&& s.used_today == mgr.state.minutes_used_today
    &&& s.daily_limit == mgr.config.daily_limit_minutes
    &&& s.session_limit == mgr.config.session_limit_minutes
    &&& s.is_blocked == mgr.state.is_blocked
    &&& s.schedule_start@ == mgr.config.schedule_start@
    &&& s.schedule_end@ == mgr.config.schedule_end@
    &&& s.current_window@ == mgr.state.current_window@
    &&& s.current_process@ == mgr.state.current_process@
}

/// The status reports the manager as it is, field by field, and whether the
/// time of day `now` falls in its allowed hours.
pub proof fn law_status_reports_the_manager(mgr: ConfigManager, now: TimeOfDay)
    ensures
        reports(status_at(mgr, now), mgr),
        status_at(mgr, now).in_schedule == in_schedule(mgr.config, now),
{
}

impl StatusSnapshot {
    /// The status of `mgr` at the time of day `now`.
    pub fn of_at(mgr: &ConfigManager, now: TimeOfDay) -> (s: Self)
        ensures
            s == status_at(*mgr, now),
            reports(s, *mgr),
            s.in_schedule == in_schedule(mgr.config, now),
    {
        proof {
            law_status_reports_the_manager(*mgr, now);
        }
        StatusSnapshot {
            remaining_daily: mgr.remaining_daily(),
            remaining_session: mgr.remaining_session(),
            used_today: mgr.state.minutes_used_today,
            daily_limit: mgr.config.daily_limit_minutes,
            session_limit: mgr.config.session_limit_minutes,
            is_blocked: mgr.state.is_blocked,
            in_schedule: mgr.is_in_schedule_at(now),
            schedule_start: mgr.config.schedule_start.clone(),
            schedule_end: mgr.config.schedule_end.clone(),
            current_window: mgr.state.current_window.clone(),
            current_process: mgr.state.current_process.clone(),
        }
    }
}

/// The status of `mgr` now.
pub fn build_status_snapshot(mgr: &ConfigManager) -> (s: StatusSnapshot)
    ensures
        exists|now: TimeOfDay| s == status_at(*mgr, now),
        reports(s, *mgr),
{
    let now = crate::clock::local_time_of_day();
    StatusSnapshot::of_at(mgr, now)
}

/// How many of today's entries the dashboard lists.
pub const RECENT_LIMIT: usize = 30;

/// The most recent entries, newest first, at most `RECENT_LIMIT` of them.
pub fn recent_activity<'a>(today: &Vec<&'a HistoryEntry>) -> (r: Vec<&'a HistoryEntry>)
    ensures
        r@.len() == if today@.len() < RECENT_LIMIT {
            today@.len()
        } else {
            RECENT_LIMIT as nat
        },
        forall|j: int| 0 <= j < r@.len() ==> #[trigger] r@[j] == today@[today@.len() - 1 - j],
{
    let n = today.len();
    let mut r: Vec<&'a HistoryEntry> = Vec::new();
    let mut j: usize = 0;
    while j < n && j < RECENT_LIMIT
        invariant
            j <= n,
            j <= RECENT_LIMIT,
            n == today@.len(),
            r@.len() == j,
            forall|t: int| 0 <= t < j ==> #[trigger] r@[t] == today@[n - 1 - t],
        decreases n - j,
    {
        r.push(today[n - 1 - j]);
        j += 1;
    }
    r
}

/// The API admits exactly the header "Bearer " followed by the web token; a
/// request without the header is refused.
pub proof fn law_only_bearer_token_admitted(web_token: Seq<char>, header: Seq<char>)
    ensures
        authorized(web_token, Some(header)) <==> header == bearer_prefix() + web_token,
        !authorized(web_token, None),
{
    let full = bearer_prefix() + web_token;
    assert(full.subrange(0, 7) =~= bearer_prefix());
    assert(full.skip(7) =~= web_token);
    if authorized(web_token, Some(header)) {
        assert(header =~= header.subrange(0, 7) + header.skip(7));
    }
}

} // verus!
