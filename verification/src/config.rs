//! Settings, the daily timer state, and the manager that owns them together
//! with the activity log: password and token checks, the time accounting of
//! sessions and days, the schedule test, and the addresses of the web panel.
use vstd::prelude::*;
use vstd::string::*;
use vstd::utf8::encode_utf8;
use sha2::Digest;
use crate::clock::{
    is_date_text, is_within_window, local_date, local_time_of_day, local_timestamp, parse_time, schedule_secs,
    within_window, TimeOfDay,
};
use crate::history::ActivityHistory;
use crate::text::{
    contains_char, dec, hex_lower, hex_string, is_lower_hex, pad2, push_dec, push_pad2, push_str,
    to_owned_string, trim, trim_end_char, trimmed, trimmed_end_char,
};

verus! {

/// The settings, as the settings file holds them.
#[derive(Debug, Clone)]
pub struct Config {
    pub admin_password_hash: String,
    pub daily_limit_minutes: u32,
    pub session_limit_minutes: u32,
    pub schedule_enabled: bool,
    pub schedule_start: String,
    pub schedule_end: String,
    pub warning_minutes: u32,
    pub lock_on_limit: bool,
    pub web_enabled: bool,
    pub web_port: u16,
    pub track_apps: bool,
    pub web_token: String,
    pub duckdns_domain: String,
    pub duckdns_token: String,
    pub cloud_enabled: bool,
    pub cloud_relay_url: String,
    pub cloud_device_code: String,
}

/// The time accounting of the current day, as the state file holds it.
#[derive(Debug, Clone)]
pub struct TimerState {
    pub date: String,
    pub minutes_used_today: u32,
    pub session_start: Option<String>,
    pub session_minutes: u32,
    pub is_blocked: bool,
    pub current_window: String,
    pub current_process: String,
}

/// "09:00"
pub open spec fn default_start_text() -> Seq<char> {
    seq!['0', '9', ':', '0', '0']
}

/// "21:00"
pub open spec fn default_end_text() -> Seq<char> {
    seq!['2', '1', ':', '0', '0']
}

/// The settings of a fresh installation.
pub open spec fn is_default_config(c: Config) -> bool {
    &&& c.admin_password_hash@ == Seq::<char>::empty()
    &&& c.daily_limit_minutes == 120
    &&& c.session_limit_minutes == 60
    &&& c.schedule_enabled
    &&& c.schedule_start@ == default_start_text()
    &&& c.schedule_end@ == default_end_text()
    &&& c.warning_minutes == 5
    &&& c.lock_on_limit
    &&& c.web_enabled
    &&& c.web_port == 8080
    &&& c.track_apps
    &&& c.web_token@ == Seq::<char>::empty()
    &&& c.duckdns_domain@ == Seq::<char>::empty()
    &&& c.duckdns_token@ == Seq::<char>::empty()
    &&& !c.cloud_enabled
    &&& c.cloud_relay_url@ == Seq::<char>::empty()
    &&& c.cloud_device_code@ == Seq::<char>::empty()
}

/// The timer state before anything was counted.
pub open spec fn is_default_state(s: TimerState) -> bool {
    &&& s.date@ == Seq::<char>::empty()
    &&& s.minutes_used_today == 0
    &&& s.session_start is None
    &&& s.session_minutes == 0
    &&& !s.is_blocked
    &&& s.current_window@ == Seq::<char>::empty()
    &&& s.current_process@ == Seq::<char>::empty()
}

/// The daily limit of a fresh installation.
pub fn default_daily_limit() -> (r: u32)
    ensures
        r == 120,
{
    120
}

/// The session limit of a fresh installation.
pub fn default_session_limit() -> (r: u32)
    ensures
        r == 60,
{
    60
}

/// The value of the switches that are on in a fresh installation.
pub fn default_true() -> (r: bool)
    ensures
        r,
{
    true
}

/// The start of the allowed hours in a fresh installation.
pub fn default_sched_start() -> (r: String)
    ensures
        r@ == default_start_text(),
{
    proof {
        reveal_strlit("09:00");
    }
    to_owned_string("09:00")
}

/// The end of the allowed hours in a fresh installation.
pub fn default_sched_end() -> (r: String)
    ensures
        r@ == default_end_text(),
{
    proof {
        reveal_strlit("21:00");
    }
    to_owned_string("21:00")
}

/// The warning threshold, in minutes left, of a fresh installation.
pub fn default_warning() -> (r: u32)
    ensures
        r == 5,
{
    5
}

/// The web panel's port in a fresh installation.
pub fn default_port() -> (r: u16)
    ensures
        r == 8080,
{
    8080
}

impl Default for Config {
    fn default() -> (c: Self)
        ensures
            is_default_config(c),
    {
        Config {
            admin_password_hash: String::new(),
            daily_limit_minutes: default_daily_limit(),
            session_limit_minutes: default_session_limit(),
            schedule_enabled: true,
            schedule_start: default_sched_start(),
            schedule_end: default_sched_end(),
            warning_minutes: default_warning(),
            lock_on_limit: true,
            web_enabled: true,
            web_port: default_port(),
            track_apps: true,
            web_token: String::new(),
            duckdns_domain: String::new(),
            duckdns_token: String::new(),
            cloud_enabled: false,
            cloud_relay_url: String::new(),
            cloud_device_code: String::new(),
        }
    }
}

impl Default for TimerState {
    fn default() -> (s: Self)
        ensures
            is_default_state(s),
    {
        TimerState {
            date: String::new(),
            minutes_used_today: 0,
            session_start: None,
            session_minutes: 0,
            is_blocked: false,
            current_window: String::new(),
            current_process: String::new(),
        }
    }
}

// ---------------------------------------------------------------------------
// Password hashing and tokens
// ---------------------------------------------------------------------------

/// The SHA-256 digest of `data`.
pub uninterp spec fn sha256(data: Seq<u8>) -> Seq<u8>;

/// Digests `data` with SHA-256.
///
/// Trusted: calls `sha2::Sha256::digest`. Its result is named `sha256` of the
/// input bytes; it is 32 bytes long, the output size of `Sha256`.
#[verifier::external_body]
fn sha256_digest(data: &[u8]) -> (r: Vec<u8>)
    ensures
        r@ == sha256(data@),
        r@.len() == 32,
{
    sha2::Sha256::digest(data).to_vec()
}

/// The bytes of "KidsTime2024", hashed in front of every password.
pub open spec fn password_salt() -> Seq<u8> {
    seq![75u8, 105u8, 100u8, 115u8, 84u8, 105u8, 109u8, 101u8, 50u8, 48u8, 50u8, 52u8]
}

/// The stored form of a password: the lower-case hexadecimal SHA-256 digest of
/// the salt followed by the password's UTF-8 bytes.
pub open spec fn password_hash(password: Seq<char>) -> Seq<char> {
    hex_lower(sha256(password_salt() + encode_utf8(password)))
}

/// `password` is the admin password that the settings `c` store.
pub open spec fn accepts_password(c: Config, password: Seq<char>) -> bool {
    password_hash(password) == c.admin_password_hash@
}

/// The hash covers the whole password: the message digested is the 12 bytes
/// of "KidsTime2024" followed by every UTF-8 byte of the password, so its
/// length is 12 plus the password's byte length, and passwords whose UTF-8
/// bytes differ anywhere are digested from different messages.
pub proof fn law_hash_digests_whole_password(p: Seq<char>)
    ensures
        exists|m: Seq<u8>|
            #![trigger sha256(m)]
            password_hash(p) == hex_lower(sha256(m)) && m.len() == 12 + encode_utf8(p).len()
                && m.take(12) == seq![75u8, 105u8, 100u8, 115u8, 84u8, 105u8, 109u8, 101u8, 50u8, 48u8, 50u8, 52u8]
                && m.skip(12) == encode_utf8(p),
{
    let m = password_salt() + encode_utf8(p);
    assert(m.take(12) =~= password_salt());
    assert(m.skip(12) =~= encode_utf8(p));
    assert(password_hash(p) == hex_lower(sha256(m)));
}

/// The stored form of a password: 64 lower-case hexadecimal digits.
pub fn hash_password(password: &str) -> (h: String)
    ensures
        h@ == password_hash(password@),
        h@.len() == 64,
        forall|i: int| 0 <= i < h@.len() ==> is_lower_hex(#[trigger] h@[i]),
{
    let mut data: Vec<u8> = vec![75u8, 105u8, 100u8, 115u8, 84u8, 105u8, 109u8, 101u8, 50u8, 48u8, 50u8, 52u8];
    let bytes = password.as_bytes();
    let n = bytes.len();
    let mut i: usize = 0;
    while i < n
        invariant
            i <= n,
            n == bytes@.len(),
            data@ == password_salt() + bytes@.subrange(0, i as int),
        decreases n - i,
    {
        data.push(bytes[i]);
        i += 1;
        assert(data@ =~= password_salt() + bytes@.subrange(0, i as int));
    }
    assert(bytes@.subrange(0, n as int) =~= bytes@);
    let digest = sha256_digest(data.as_slice());
    proof {
        crate::text::lemma_hex_lower(digest@);
    }
    hex_string(digest.as_slice())
}

/// A web token: 32 lower-case hexadecimal digits.
pub open spec fn is_token(t: Seq<char>) -> bool {
    t.len() == 32 && forall|i: int| 0 <= i < t.len() ==> is_lower_hex(#[trigger] t[i])
}

/// A fresh random identifier in simple form.
///
/// Trusted: calls `uuid::Uuid::new_v4().simple().to_string()`. The value is
/// random; as uuid's source shows, the simple form is 32 lower-case
/// hexadecimal digits.
#[verifier::external_body]
fn random_uuid_simple() -> (t: String)
    ensures
        is_token(t@),
{
    uuid::Uuid::new_v4().simple().to_string()
}

/// A fresh random web token.
pub fn generate_token() -> (t: String)
    ensures
        is_token(t@),
{
    random_uuid_simple()
}

// ---------------------------------------------------------------------------
// Rendering of minutes
// ---------------------------------------------------------------------------

/// Integer division rounding toward zero, as Rust's `/`.
pub open spec fn div_toward_zero(a: int, b: int) -> int {
    if a >= 0 {
        a / b
    } else {
        -((-a) / b)
    }
}

/// The remainder that goes with `div_toward_zero`, as Rust's `%`.
pub open spec fn rem_toward_zero(a: int, b: int) -> int {
    a - b * div_toward_zero(a, b)
}

/// "HH:MM" for a number of minutes, each part zero-padded to two places.
pub open spec fn hh_mm(minutes: int) -> Seq<char> {
    pad2(div_toward_zero(minutes, 60)) + seq![':'] + pad2(rem_toward_zero(minutes, 60))
}

/// Renders a number of minutes as hours and minutes.
pub fn format_time(minutes: i64) -> (s: String)
    ensures
        s@ == hh_mm(minutes as int),
{
    let (h, m): (i64, i64) = if minutes >= 0 {
        (minutes / 60, minutes % 60)
    } else {
        let a: u64 = if minutes == i64::MIN {
            9223372036854775808u64
        } else {
            (-minutes) as u64
        };
        let q = (a / 60) as i64;
        let r = (a % 60) as i64;
        (-q, -r)
    };
    let mut s = String::new();
    push_pad2(&mut s, h);
    crate::text::push_char(&mut s, ':');
    push_pad2(&mut s, m);
    assert(s@ =~= hh_mm(minutes as int));
    s
}

// ---------------------------------------------------------------------------
// Addresses of the web panel
// ---------------------------------------------------------------------------

/// "http://"
pub open spec fn http_scheme() -> Seq<char> {
    seq!['h', 't', 't', 'p', ':', '/', '/']
}

/// ".duckdns.org"
pub open spec fn duckdns_suffix() -> Seq<char> {
    seq!['.', 'd', 'u', 'c', 'k', 'd', 'n', 's', '.', 'o', 'r', 'g']
}

/// A DuckDNS name as a full host name: names without a dot are DuckDNS subdomains.
pub open spec fn duckdns_host(d: Seq<char>) -> Seq<char> {
    if d.contains('.') {
        d
    } else {
        d + duckdns_suffix()
    }
}

/// "http://HOST:PORT"
pub open spec fn http_address(host: Seq<char>, port: u16) -> Seq<char> {
    http_scheme() + host + seq![':'] + dec(port as nat)
}

/// The address at which the web panel can be reached from outside: the cloud
/// relay's page when the relay is on and both its address and the device code
/// are set, else the DuckDNS name, else the public IP address, else nothing.
pub open spec fn public_url(c: Config, public_ip: Seq<char>) -> Seq<char> {
    let url = trimmed_end_char(c.cloud_relay_url@, '/');
    let code = c.cloud_device_code@;
    let ddns = trimmed(c.duckdns_domain@);
    if c.cloud_enabled && url.len() > 0 && code.len() > 0 {
        url + seq!['/'] + code
    } else if ddns.len() > 0 {
        http_address(duckdns_host(ddns), c.web_port)
    } else if public_ip.len() > 0 {
        http_address(public_ip, c.web_port)
    } else {
        Seq::empty()
    }
}

/// Appends "http://" and `host`.
fn push_http_host(s: &mut String, host: &str)
    ensures
        final(s)@ == old(s)@ + http_scheme() + host@,
{
    proof {
        reveal_strlit("http://");
    }
    push_str(s, "http://");
    push_str(s, host);
    assert(final(s)@ =~= old(s)@ + http_scheme() + host@);
}

/// "http://HOST:PORT"
pub fn http_url(host: &str, port: u16) -> (u: String)
    ensures
        u@ == http_address(host@, port),
{
    let mut s = String::new();
    push_http_host(&mut s, host);
    crate::text::push_char(&mut s, ':');
    push_dec(&mut s, port as u64);
    assert(s@ =~= http_address(host@, port));
    s
}

/// A DuckDNS name as a full host name.
pub fn full_duckdns_domain(d: &str) -> (r: String)
    ensures
        r@ == duckdns_host(d@),
{
    let mut s = to_owned_string(d);
    if !contains_char(d, '.') {
        proof {
            reveal_strlit(".duckdns.org");
        }
        push_str(&mut s, ".duckdns.org");
    }
    s
}

// ---------------------------------------------------------------------------
// The manager
// ---------------------------------------------------------------------------

/// Whether `now` falls in the allowed hours that `c` sets.
pub open spec fn in_schedule(c: Config, now: TimeOfDay) -> bool {
    !c.schedule_enabled || within_window(
        now,
        schedule_secs(c.schedule_start@),
        schedule_secs(c.schedule_end@),
    )
}

/// Minutes left of the day's limit (negative once it is exceeded).
pub open spec fn daily_left(c: Config, s: TimerState) -> int {
    c.daily_limit_minutes - s.minutes_used_today
}

/// Minutes left of the session's limit (negative once it is exceeded).
pub open spec fn session_left(c: Config, s: TimerState) -> int {
    c.session_limit_minutes - s.session_minutes
}

/// `s` with one more minute counted for the session and for the day.
pub open spec fn minute_counted(s: TimerState) -> TimerState {
    TimerState {
        session_minutes: (s.session_minutes + 1) as u32,
        minutes_used_today: (s.minutes_used_today + 1) as u32,
        ..s
    }
}

/// `s` with up to `minutes` of the day's use given back and the block lifted.
pub open spec fn extra_granted(s: TimerState, minutes: u32) -> TimerState {
    TimerState {
        minutes_used_today: if s.minutes_used_today >= minutes {
            (s.minutes_used_today - minutes) as u32
        } else {
            0u32
        },
        is_blocked: false,
        ..s
    }
}

/// Each counted minute takes one minute off what is left of the day and of
/// the session.
pub proof fn law_minute_costs_one(c: Config, s: TimerState)
    requires
        s.session_minutes < u32::MAX,
        s.minutes_used_today < u32::MAX,
    ensures
        daily_left(c, minute_counted(s)) == daily_left(c, s) - 1,
        session_left(c, minute_counted(s)) == session_left(c, s) - 1,
{
}

/// Granting extra time adds the granted minutes to what is left of the day,
/// except that no more than the minutes already used come back; it never
/// leaves more than the daily limit, and it lifts the block.
pub proof fn law_grant_gives_back(c: Config, s: TimerState, minutes: u32)
    ensures
        daily_left(c, extra_granted(s, minutes)) == daily_left(c, s) + if minutes
            <= s.minutes_used_today {
            minutes as int
        } else {
            s.minutes_used_today as int
        },
        daily_left(c, extra_granted(s, minutes)) <= c.daily_limit_minutes,
        !extra_granted(s, minutes).is_blocked,
{
}

/// The settings, the timer state and the activity log of one installation.
pub struct ConfigManager {
    pub config: Config,
    pub state: TimerState,
    pub history: ActivityHistory,
}

impl ConfigManager {
    /// Assembles a manager from what was read back, on day `today`: a missing
    /// web token is replaced by `token`, and a state from another day starts the
    /// day afresh. Also says whether the settings and whether the state changed.
    pub fn start_on(
        config: Config,
        state: TimerState,
        history: ActivityHistory,
        token: String,
        today: String,
    ) -> (r: (ConfigManager, bool, bool))
        ensures
            r.1 == (config.web_token@.len() == 0),
            r.0.config == (if r.1 {
                Config { web_token: token, ..config }
            } else {
                config
            }),
            r.2 == (state.date@ != today@),
            r.0.state == (if r.2 {
                TimerState {
                    date: today,
                    minutes_used_today: 0,
                    session_minutes: 0,
                    is_blocked: false,
                    session_start: None,
                    ..state
                }
            } else {
                state
            }),
            r.0.history == history,
    {
        let mut mgr = ConfigManager { config, state, history };
        let token_missing = mgr.config.web_token.unicode_len() == 0;
        if token_missing {
            mgr.config.web_token = token;
        }
        let new_day = !(mgr.state.date == today);
        if new_day {
            mgr.state.date = today;
            mgr.state.minutes_used_today = 0;
            mgr.state.session_minutes = 0;
            mgr.state.is_blocked = false;
            mgr.state.session_start = None;
        }
        (mgr, token_missing, new_day)
    }

    /// Assembles a manager from what was read back, on the current local day,
    /// issuing a fresh web token when none is set. Also says whether the
    /// settings and whether the state changed (and so are to be saved).
    pub fn new(config: Config, state: TimerState, history: ActivityHistory) -> (r: (
        ConfigManager,
        bool,
        bool,
    ))
        ensures
            r.1 == (config.web_token@.len() == 0),
            r.1 ==> is_token(r.0.config.web_token@),
            r.0.config == (Config { web_token: r.0.config.web_token, ..config }),
            !r.1 ==> r.0.config == config,
            is_date_text(r.0.state.date@),
            r.2 == (state.date@ != r.0.state.date@),
            r.0.state == (if r.2 {
                TimerState {
                    date: r.0.state.date,
                    minutes_used_today: 0,
                    session_minutes: 0,
                    is_blocked: false,
                    session_start: None,
                    ..state
                }
            } else {
                state
            }),
            r.0.history == history,
    {
        let token = if config.web_token.unicode_len() == 0 {
            generate_token()
        } else {
            String::new()
        };
        let today = local_date();
        Self::start_on(config, state, history, token, today)
    }

    /// No admin password has been set yet.
    pub fn is_first_run(&self) -> (b: bool)
        ensures
            b == (self.config.admin_password_hash@.len() == 0),
    {
        self.config.admin_password_hash.unicode_len() == 0
    }

    /// `password` is the admin password.
    pub fn verify_password(&self, password: &str) -> (b: bool)
        ensures
            b == accepts_password(self.config, password@),
    {
        hash_password(password) == self.config.admin_password_hash
    }

    /// `token` is the web token.
    pub fn verify_token(&self, token: &str) -> (b: bool)
        ensures
            b == (token@ == self.config.web_token@),
    {
        to_owned_string(token) == self.config.web_token
    }

    /// Sets the admin password: the stored hash becomes the 64-digit hash of
    /// `password`, so the first run is over (the settings are then to be saved).
    pub fn set_password(&mut self, password: &str)
        ensures
            accepts_password(final(self).config, password@),
            final(self).config.admin_password_hash@ == password_hash(password@),
            final(self).config.admin_password_hash@.len() == 64,
            forall|i: int|
                0 <= i < 64 ==> is_lower_hex(#[trigger] final(self).config.admin_password_hash@[i]),
            final(self).config.admin_password_hash@.len() != 0,
            final(self).config == (Config {
                admin_password_hash: final(self).config.admin_password_hash,
                ..old(self).config
            }),
            final(self).state == old(self).state,
            final(self).history == old(self).history,
    {
        self.config.admin_password_hash = hash_password(password);
    }

    /// Minutes left of the daily limit (negative once it is exceeded).
    pub fn remaining_daily(&self) -> (r: i64)
        ensures
            r == daily_left(self.config, self.state),
    {
        self.config.daily_limit_minutes as i64 - self.state.minutes_used_today as i64
    }

    /// Minutes left of the session limit (negative once it is exceeded).
    pub fn remaining_session(&self) -> (r: i64)
        ensures
            r == session_left(self.config, self.state),
    {
        self.config.session_limit_minutes as i64 - self.state.session_minutes as i64
    }

    /// Whether the time of day `now` falls in the allowed hours.
    pub fn is_in_schedule_at(&self, now: TimeOfDay) -> (b: bool)
        ensures
            b == in_schedule(self.config, now),
    {
        if !self.config.schedule_enabled {
            return true;
        }
        let start = parse_time(self.config.schedule_start.as_str());
        let end = parse_time(self.config.schedule_end.as_str());
        is_within_window(now, start, end)
    }

    /// Whether the current local time falls in the allowed hours.
    pub fn is_in_schedule(&self) -> (b: bool)
        ensures
            exists|now: TimeOfDay| b == in_schedule(self.config, now),
            !self.config.schedule_enabled ==> b,
    {
        let now = local_time_of_day();
        self.is_in_schedule_at(now)
    }

    /// Counts one more minute of use, of the session and of the day (the
    /// state is then to be saved).
    pub fn add_session_minute(&mut self)
        requires
            old(self).state.session_minutes < u32::MAX,
            old(self).state.minutes_used_today < u32::MAX,
        ensures
            final(self).state == minute_counted(old(self).state),
            final(self).config == old(self).config,
            final(self).history == old(self).history,
    {
        self.state.session_minutes += 1;
        self.state.minutes_used_today += 1;
    }

    /// Starts a session at the moment stamped `stamp`.
    pub fn start_session_at(&mut self, stamp: String)
        ensures
            final(self).state == (TimerState {
                session_start: Some(stamp),
                session_minutes: 0,
                ..old(self).state
            }),
            final(self).config == old(self).config,
            final(self).history == old(self).history,
    {
        self.state.session_start = Some(stamp);
        self.state.session_minutes = 0;
    }

    /// Starts a session now (the state is then to be saved).
    pub fn start_session(&mut self)
        ensures
            final(self).state.session_start is Some,
            final(self).state == (TimerState {
                session_start: final(self).state.session_start,
                session_minutes: 0,
                ..old(self).state
            }),
            final(self).config == old(self).config,
            final(self).history == old(self).history,
    {
        let stamp = local_timestamp();
        self.start_session_at(stamp);
    }

    /// Starts the session over at the moment stamped `stamp`.
    pub fn reset_session_at(&mut self, stamp: String)
        ensures
            final(self).state == (TimerState {
                session_start: Some(stamp),
                session_minutes: 0,
                ..old(self).state
            }),
            final(self).config == old(self).config,
            final(self).history == old(self).history,
    {
        self.state.session_minutes = 0;
        self.state.session_start = Some(stamp);
    }

    /// Starts the session over now (the state is then to be saved).
    pub fn reset_session(&mut self)
        ensures
            final(self).state.session_start is Some,
            final(self).state == (TimerState {
                session_start: final(self).state.session_start,
                session_minutes: 0,
                ..old(self).state
            }),
            final(self).config == old(self).config,
            final(self).history == old(self).history,
    {
        let stamp = local_timestamp();
        self.reset_session_at(stamp);
    }

    /// Gives back up to `minutes` of today's used time and lifts the block (the
    /// state is then to be saved).
    pub fn grant_extra_time(&mut self, minutes: u32)
        ensures
            final(self).state == extra_granted(old(self).state, minutes),
            final(self).config == old(self).config,
            final(self).history == old(self).history,
    {
        self.state.minutes_used_today = self.state.minutes_used_today.saturating_sub(minutes);
        self.state.is_blocked = false;
    }

    /// Notes the window and program in the foreground (the state is then to be saved).
    pub fn update_active_window(&mut self, window: &str, process: &str)
        ensures
            final(self).state.current_window@ == window@,
            final(self).state.current_process@ == process@,
            final(self).state == (TimerState {
                current_window: final(self).state.current_window,
                current_process: final(self).state.current_process,
                ..old(self).state
            }),
            final(self).config == old(self).config,
            final(self).history == old(self).history,
    {
        self.state.current_window = to_owned_string(window);
        self.state.current_process = to_owned_string(process);
    }

    /// The web panel's address on the local network, for the local address `ip`.
    pub fn get_local_url(&self, ip: &str) -> (u: String)
        ensures
            u@ == http_address(ip@, self.config.web_port),
    {
        http_url(ip, self.config.web_port)
    }

    /// The web panel's address from outside (see `public_url`).
    pub fn get_public_url(&self, public_ip: &str) -> (u: String)
        ensures
            u@ == public_url(self.config, public_ip@),
    {
        let port = self.config.web_port;
        if self.config.cloud_enabled {
            let url = trim_end_char(self.config.cloud_relay_url.as_str(), '/');
            let code = self.config.cloud_device_code.as_str();
            if url.unicode_len() > 0 && code.unicode_len() > 0 {
                let mut s = to_owned_string(url);
                crate::text::push_char(&mut s, '/');
                push_str(&mut s, code);
                assert(s@ =~= public_url(self.config, public_ip@));
                return s;
            }
        }
        let ddns = trim(self.config.duckdns_domain.as_str());
        if ddns.unicode_len() > 0 {
            let domain = full_duckdns_domain(ddns);
            return http_url(domain.as_str(), port);
        }
        if public_ip.unicode_len() > 0 {
            return http_url(public_ip, port);
        }
        String::new()
    }

    /// Replaces the web token by a fresh random one (the settings are then to be saved).
    pub fn regenerate_token(&mut self)
        ensures
            is_token(final(self).config.web_token@),
            final(self).config == (Config {
                web_token: final(self).config.web_token,
                ..old(self).config
            }),
            final(self).state == old(self).state,
            final(self).history == old(self).history,
    {
        self.config.web_token = generate_token();
    }
}

} // verus!
