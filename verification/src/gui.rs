//! The state and the decisions of the desktop window: which screen shows,
//! logging in and unlocking, first-run setup and password changes, the
//! settings form and its round trip through the settings, timer colours and
//! the small renderings the screens show.
use vstd::prelude::*;
use vstd::string::*;
use vstd::utf8::{decode_utf8, encode_utf8, encode_utf8_decode_utf8, is_char_boundary};
use std::time::Instant;
use crate::config::{accepts_password, extra_granted, password_hash, Config, ConfigManager, TimerState};
use crate::text::{
    dec, dec_string, parse_unsigned, parsed_unsigned, push_dec, push_str, to_owned_string, trim,
    trimmed,
};

verus! {

#[verifier::external_type_specification]
#[verifier::external_body]
pub struct ExInstant(Instant);

/// Reads the monotonic clock.
///
/// Trusted: calls `std::time::Instant::now()`. Nothing is said of the reading.
#[verifier::external_body]
fn instant_now() -> Instant {
    Instant::now()
}

/// Whole seconds since `t`.
///
/// Trusted: calls `Instant::elapsed` and reads it with `Duration::as_secs`.
/// The value depends on the clock; nothing is said of it.
#[verifier::external_body]
fn whole_secs_since(t: &Instant) -> u64 {
    t.elapsed().as_secs()
}

/// The tabs of the main screen.
#[derive(Clone, Copy, Debug, PartialEq, Eq, Structural)]
pub enum Tab {
    Dashboard,
    Settings,
    Activity,
}

/// The screen the window shows.
#[derive(Clone, Copy, Debug, PartialEq, Eq, Structural)]
pub enum Screen {
    FirstRun,
    Blocked,
    Login,
    Main,
}

/// The colour of a countdown: plenty left, running low, or (nearly) out.
#[derive(Clone, Copy, Debug, PartialEq, Eq, Structural)]
pub enum TimerColor {
    Green,
    Amber,
    Red,
}

/// The state shown in the status bar.
#[derive(Clone, Copy, Debug, PartialEq, Eq, Structural)]
pub enum StatusBadge {
    Blocked,
    OutsideSchedule,
    Active,
}

/// The settings the screens show, copied out of the manager.
pub struct SnapConfig {
    pub daily_limit: u32,
    pub session_limit: u32,
    pub schedule_enabled: bool,
    pub schedule_start: String,
    pub schedule_end: String,
    pub lock_on_limit: bool,
    pub web_enabled: bool,
    pub web_port: u16,
    pub track_apps: bool,
    pub web_token: String,
    pub duckdns_domain: String,
    pub duckdns_token: String,
    pub cloud_enabled: bool,
    pub cloud_relay_url: String,
    pub cloud_device_code: String,
}

/// The timer state the screens show, copied out of the manager.
pub struct SnapState {
    pub minutes_used_today: u32,
    pub session_minutes: u32,
    pub is_blocked: bool,
    pub current_window: String,
    pub current_process: String,
}

/// The shown settings of `mgr`.
pub open spec fn snap_config(mgr: ConfigManager) -> SnapConfig {
    SnapConfig {
        daily_limit: mgr.config.daily_limit_minutes,
        session_limit: mgr.config.session_limit_minutes,
        schedule_enabled: mgr.config.schedule_enabled,
        schedule_start: mgr.config.schedule_start,
        schedule_end: mgr.config.schedule_end,
        lock_on_limit: mgr.config.lock_on_limit,
        web_enabled: mgr.config.web_enabled,
        web_port: mgr.config.web_port,
        track_apps: mgr.config.track_apps,
        web_token: mgr.config.web_token,
        duckdns_domain: mgr.config.duckdns_domain,
        duckdns_token: mgr.config.duckdns_token,
        cloud_enabled: mgr.config.cloud_enabled,
        cloud_relay_url: mgr.config.cloud_relay_url,
        cloud_device_code: mgr.config.cloud_device_code,
    }
}

/// The shown timer state of `mgr`.
pub open spec fn snap_state(mgr: ConfigManager) -> SnapState {
    SnapState {
        minutes_used_today: mgr.state.minutes_used_today,
        session_minutes: mgr.state.session_minutes,
        is_blocked: mgr.state.is_blocked,
        current_window: mgr.state.current_window,
        current_process: mgr.state.current_process,
    }
}

impl SnapConfig {
    /// Copies the shown settings.
    pub fn from_mgr(mgr: &ConfigManager) -> (s: Self)
        ensures
            s == snap_config(*mgr),
    {
        let c = &mgr.config;
        SnapConfig {
            daily_limit: c.daily_limit_minutes,
            session_limit: c.session_limit_minutes,
            schedule_enabled: c.schedule_enabled,
            schedule_start: c.schedule_start.clone(),
            schedule_end: c.schedule_end.clone(),
            lock_on_limit: c.lock_on_limit,
            web_enabled: c.web_enabled,
            web_port: c.web_port,
            track_apps: c.track_apps,
            web_token: c.web_token.clone(),
            duckdns_domain: c.duckdns_domain.clone(),
            duckdns_token: c.duckdns_token.clone(),
            cloud_enabled: c.cloud_enabled,
            cloud_relay_url: c.cloud_relay_url.clone(),
            cloud_device_code: c.cloud_device_code.clone(),
        }
    }
}

impl SnapState {
    /// Copies the shown timer state.
    pub fn from_mgr(mgr: &ConfigManager) -> (s: Self)
        ensures
            s == snap_state(*mgr),
    {
        let s = &mgr.state;
        SnapState {
            minutes_used_today: s.minutes_used_today,
            session_minutes: s.session_minutes,
            is_blocked: s.is_blocked,
            current_window: s.current_window.clone(),
            current_process: s.current_process.clone(),
        }
    }
}

/// The desktop window's own state: authentication, the text fields, and the
/// settings form, which is edited apart from the settings until it is saved.
pub struct KidsTimeApp {
    pub tab: Tab,
    pub authenticated: bool,
    pub pw_input: String,
    pub show_pw_error: bool,
    pub new_pw: String,
    pub confirm_pw: String,
    pub setup_error: String,
    pub extra_min_input: String,
    pub s_daily: String,
    pub s_session: String,
    pub s_warning: String,
    pub s_sched_start: String,
    pub s_sched_end: String,
    pub s_web_port: String,
    pub s_duckdns_domain: String,
    pub s_duckdns_token: String,
    pub s_cloud_relay: String,
    pub s_cloud_code: String,
    pub s_lock_on_limit: bool,
    pub s_schedule_enabled: bool,
    pub s_web_enabled: bool,
    pub s_track_apps: bool,
    pub s_cloud_enabled: bool,
    pub settings_dirty: bool,
    pub toast: String,
    pub toast_time: Instant,
}

/// The settings form of `a` shows the settings `c`.
pub open spec fn form_shows(a: KidsTimeApp, c: Config) -> bool {
    &&& a.s_daily@ == dec(c.daily_limit_minutes as nat)
    &&& a.s_session@ == dec(c.session_limit_minutes as nat)
    &&& a.s_warning@ == dec(c.warning_minutes as nat)
    &&& a.s_sched_start == c.schedule_start
    &&& a.s_sched_end == c.schedule_end
    &&& a.s_web_port@ == dec(c.web_port as nat)
    &&& a.s_duckdns_domain == c.duckdns_domain
    &&& a.s_duckdns_token == c.duckdns_token
    &&& a.s_cloud_relay == c.cloud_relay_url
    &&& a.s_cloud_code == c.cloud_device_code
    &&& a.s_lock_on_limit == c.lock_on_limit
    &&& a.s_schedule_enabled == c.schedule_enabled
    &&& a.s_web_enabled == c.web_enabled
    &&& a.s_track_apps == c.track_apps
    &&& a.s_cloud_enabled == c.cloud_enabled
}

/// `a` with the settings form (its fields and its edited flag) of `f`.
pub open spec fn with_form_of(a: KidsTimeApp, f: KidsTimeApp) -> KidsTimeApp {
    KidsTimeApp {
        s_daily: f.s_daily,
        s_session: f.s_session,
        s_warning: f.s_warning,
        s_sched_start: f.s_sched_start,
        s_sched_end: f.s_sched_end,
        s_web_port: f.s_web_port,
        s_duckdns_domain: f.s_duckdns_domain,
        s_duckdns_token: f.s_duckdns_token,
        s_cloud_relay: f.s_cloud_relay,
        s_cloud_code: f.s_cloud_code,
        s_lock_on_limit: f.s_lock_on_limit,
        s_schedule_enabled: f.s_schedule_enabled,
        s_web_enabled: f.s_web_enabled,
        s_track_apps: f.s_track_apps,
        s_cloud_enabled: f.s_cloud_enabled,
        settings_dirty: f.settings_dirty,
        ..a
    }
}

/// A number typed in the form, or `fallback` when the text is not one.
pub open spec fn number_or(text: Seq<char>, max: nat, fallback: nat) -> nat {
    match parsed_unsigned(text, max) {
        Some(v) => v,
        None => fallback,
    }
}

/// The settings `c` after saving the form of `a`: numbers that do not parse
/// keep their old value; the password hash and the web token are not in the form.
pub open spec fn form_applied(a: KidsTimeApp, c: Config) -> Config {
    Config {
        daily_limit_minutes: number_or(a.s_daily@, 0xffff_ffff, c.daily_limit_minutes as nat) as u32,
        session_limit_minutes: number_or(
            a.s_session@,
            0xffff_ffff,
            c.session_limit_minutes as nat,
        ) as u32,
        warning_minutes: number_or(a.s_warning@, 0xffff_ffff, c.warning_minutes as nat) as u32,
        schedule_start: a.s_sched_start,
        schedule_end: a.s_sched_end,
        web_port: number_or(a.s_web_port@, 0xffff, c.web_port as nat) as u16,
        duckdns_domain: a.s_duckdns_domain,
        duckdns_token: a.s_duckdns_token,
        cloud_relay_url: a.s_cloud_relay,
        cloud_device_code: a.s_cloud_code,
        lock_on_limit: a.s_lock_on_limit,
        schedule_enabled: a.s_schedule_enabled,
        web_enabled: a.s_web_enabled,
        track_apps: a.s_track_apps,
        cloud_enabled: a.s_cloud_enabled,
        ..c
    }
}

/// "Password must be at least 4 characters."
pub open spec fn too_short_message() -> Seq<char> {
    "Password must be at least 4 characters."@
}

/// "Passwords do not match."
pub open spec fn mismatch_message() -> Seq<char> {
    "Passwords do not match."@
}

/// The outcome of a first-run setup or a password change: the password is
/// refused when its UTF-8 form is shorter than 4 bytes or when the
/// confirmation differs; otherwise it becomes the admin password.
pub open spec fn password_accepted(new_pw: Seq<char>, confirm: Seq<char>) -> bool {
    encode_utf8(new_pw).len() >= 4 && new_pw == confirm
}

/// `b` is `a` after an accepted password: the error and both password
/// fields are emptied, and nothing else changes.
pub open spec fn cleared_after_change(a: KidsTimeApp, b: KidsTimeApp) -> bool {
    &&& b == (KidsTimeApp {
        setup_error: b.setup_error,
        new_pw: b.new_pw,
        confirm_pw: b.confirm_pw,
        ..a
    })
    &&& b.setup_error@ == Seq::<char>::empty()
    &&& b.new_pw@ == Seq::<char>::empty()
    &&& b.confirm_pw@ == Seq::<char>::empty()
}

/// `b` is `a` after a refused password: the error says why (too short, else
/// not confirmed), the typed fields stay as typed, and nothing else changes.
pub open spec fn refused_change(a: KidsTimeApp, b: KidsTimeApp) -> bool {
    &&& b == (KidsTimeApp { setup_error: b.setup_error, ..a })
    &&& b.setup_error@ == if encode_utf8(a.new_pw@).len() < 4 {
        too_short_message()
    } else {
        mismatch_message()
    }
}

/// The extra minutes that the grant dialog gives: the typed number, 30 when
/// it is not one, kept within 1 to 300.
pub open spec fn extra_minutes(text: Seq<char>) -> u32 {
    let m = number_or(trimmed(text), 0xffff_ffff, 30);
    if m < 1 {
        1
    } else if m > 300 {
        300
    } else {
        m as u32
    }
}

/// A notice shows while fewer than 3 whole seconds have passed since it was set.
pub fn notice_shown(elapsed_secs: u64) -> (shown: bool)
    ensures
        shown == (elapsed_secs < 3),
{
    elapsed_secs < 3
}

/// The screen shown for the authentication state and the manager's flags.
pub open spec fn screen_for(authenticated: bool, blocked: bool, first_run: bool) -> Screen {
    if first_run {
        Screen::FirstRun
    } else if blocked && !authenticated {
        Screen::Blocked
    } else if !authenticated {
        Screen::Login
    } else {
        Screen::Main
    }
}

/// The colour of a countdown with `remaining` minutes left of `limit`: green
/// above half the limit, amber above 15 percent, red otherwise (and red when
/// there is no limit).
pub open spec fn color_for(remaining: int, limit: int) -> TimerColor {
    if limit > 0 && 2 * remaining > limit {
        TimerColor::Green
    } else if limit > 0 && 20 * remaining > 3 * limit {
        TimerColor::Amber
    } else {
        TimerColor::Red
    }
}

/// The colour of a countdown (see `color_for`). The window computes the
/// fraction left as a float and compares it with 0.5 and 0.15; for limits and
/// minutes that fit in 32 bits the rounding of those floats cannot change the
/// outcome, since distinct fractions with such denominators are farther
/// apart than the rounding error.
pub fn timer_color(remaining: i64, limit: u32) -> (c: TimerColor)
    ensures
        c == color_for(remaining as int, limit as int),
        limit > 0 ==> (c == TimerColor::Green <==> 2 * remaining > limit),
        limit > 0 ==> (c == TimerColor::Red <==> 20 * remaining <= 3 * limit),
        limit == 0 ==> c == TimerColor::Red,
{
    proof {
        if limit > 0 {
            law_color_by_fraction(remaining as int, limit as int);
        }
    }
    if limit == 0 {
        return TimerColor::Red;
    }
    let r = remaining as i128;
    let l = limit as i128;
    if 2 * r > l {
        TimerColor::Green
    } else if 20 * r > 3 * l {
        TimerColor::Amber
    } else {
        TimerColor::Red
    }
}

/// The status bar's state: blocked first, then outside the allowed hours.
pub fn status_badge(is_blocked: bool, in_schedule: bool) -> (b: StatusBadge)
    ensures
        b == (if is_blocked {
            StatusBadge::Blocked
        } else if !in_schedule {
            StatusBadge::OutsideSchedule
        } else {
            StatusBadge::Active
        }),
{
    if is_blocked {
        StatusBadge::Blocked
    } else if !in_schedule {
        StatusBadge::OutsideSchedule
    } else {
        StatusBadge::Active
    }
}

/// "****"
pub open spec fn mask_stars() -> Seq<char> {
    seq!['*', '*', '*', '*']
}

/// "..."
pub open spec fn ellipsis() -> Seq<char> {
    seq!['.', '.', '.']
}

/// A token as the dashboard shows it: its first and last four bytes around
/// "...", or "****" when it is 8 bytes or shorter.
pub open spec fn masked(token: Seq<char>) -> Seq<char> {
    let b = encode_utf8(token);
    if b.len() <= 8 {
        mask_stars()
    } else {
        decode_utf8(b.subrange(0, 4)) + ellipsis() + decode_utf8(b.subrange(b.len() - 4, b.len() as int))
    }
}

/// The length of the UTF-8 form of `s`.
pub fn byte_len(s: &str) -> (n: usize)
    ensures
        n == encode_utf8(s@).len(),
{
    s.as_bytes().len()
}

/// A token as the dashboard shows it. Tokens longer than 8 bytes are cut at
/// byte 4 and 4 bytes from the end, which must be character boundaries.
pub fn mask_token(token: &str) -> (m: String)
    requires
        encode_utf8(token@).len() > 8 ==> is_char_boundary(encode_utf8(token@), 4)
            && is_char_boundary(
            encode_utf8(token@),
            encode_utf8(token@).len() - 4,
        ),
    ensures
        m@ == masked(token@),
{
    let n = byte_len(token);
    if n <= 8 {
        proof {
            reveal_strlit("****");
            assert("****"@ =~= mask_stars());
        }
        return to_owned_string("****");
    }
    let (head, _) = token.split_at(4);
    let (_, tail) = token.split_at(n - 4);
    proof {
        encode_utf8_decode_utf8(head@);
        encode_utf8_decode_utf8(tail@);
        reveal_strlit("...");
        assert("..."@ =~= ellipsis());
    }
    let mut s = to_owned_string(head);
    push_str(&mut s, "...");
    push_str(&mut s, tail);
    assert(s@ =~= masked(token@));
    s
}

/// The part of `s` before the first `c`, or all of `s`.
pub open spec fn before_char(s: Seq<char>, c: char) -> Seq<char>
    decreases s.len(),
{
    if s.len() == 0 {
        s
    } else if s[0] == c {
        Seq::empty()
    } else {
        seq![s[0]] + before_char(s.drop_first(), c)
    }
}

/// The part of `s` after the first `c`, if `s` holds a `c`.
pub open spec fn after_char(s: Seq<char>, c: char) -> Option<Seq<char>>
    decreases s.len(),
{
    if s.len() == 0 {
        None
    } else if s[0] == c {
        Some(s.drop_first())
    } else {
        after_char(s.drop_first(), c)
    }
}

/// The time of day that the activity table shows for a timestamp: what
/// follows the first 'T', up to the next 'T' and then up to the first '.';
/// a timestamp without 'T' is shown whole.
pub open spec fn time_label(stamp: Seq<char>) -> Seq<char> {
    match after_char(stamp, 'T') {
        Some(rest) => before_char(before_char(rest, 'T'), '.'),
        None => stamp,
    }
}

/// Position of the first `c` in `s`, or the length of `s`.
fn find_char(s: &str, c: char) -> (i: usize)
    ensures
        i <= s@.len(),
        before_char(s@, c) == s@.subrange(0, i as int),
        i < s@.len() ==> s@[i as int] == c && after_char(s@, c) == Some(s@.skip(i + 1)),
        i == s@.len() ==> after_char(s@, c) is None,
{
    let n = s.unicode_len();
    let mut i: usize = 0;
    while i < n && s.get_char(i) != c
        invariant
            i <= n,
            n == s@.len(),
            forall|k: int| 0 <= k < i ==> s@[k] != c,
        decreases n - i,
    {
        i += 1;
    }
    proof {
        lemma_before_after(s@, c, i as int);
    }
    i
}

proof fn lemma_before_after(s: Seq<char>, c: char, i: int)
    requires
        0 <= i <= s.len(),
        forall|k: int| 0 <= k < i ==> s[k] != c,
        i < s.len() ==> s[i] == c,
    ensures
        before_char(s, c) == s.subrange(0, i),
        i < s.len() ==> after_char(s, c) == Some(s.skip(i + 1)),
        i == s.len() ==> after_char(s, c) is None,
    decreases s.len(),
{
    if s.len() > 0 && i > 0 {
        lemma_before_after(s.drop_first(), c, i - 1);
        assert(s.drop_first().subrange(0, i - 1) =~= s.subrange(1, i));
        assert(seq![s[0]] + s.subrange(1, i) =~= s.subrange(0, i));
        if i < s.len() {
            assert(s.drop_first().skip(i) =~= s.skip(i + 1));
        }
    } else if s.len() > 0 {
        assert(s.subrange(0, 0) =~= Seq::<char>::empty());
        assert(s.skip(1) =~= s.drop_first());
    } else {
        assert(s.subrange(0, 0) =~= s);
    }
}

/// The time of day that the activity table shows for a timestamp.
pub fn activity_time_label(stamp: &str) -> (r: &str)
    ensures
        r@ == time_label(stamp@),
{
    let n = stamp.unicode_len();
    let t = find_char(stamp, 'T');
    if t == n {
        return stamp;
    }
    let rest = stamp.substring_char(t + 1, n);
    assert(rest@ =~= stamp@.skip(t + 1));
    let t2 = find_char(rest, 'T');
    let seg = rest.substring_char(0, t2);
    let d = find_char(seg, '.');
    seg.substring_char(0, d)
}

impl KidsTimeApp {
    /// The window's state for the manager `mgr`: open unless no admin password
    /// is set yet, on the dashboard, with the settings form showing the settings.
    pub fn new(mgr: &ConfigManager) -> (a: Self)
        ensures
            a.authenticated == (mgr.config.admin_password_hash@.len() != 0),
            a.tab == Tab::Dashboard,
            a.pw_input@ == Seq::<char>::empty(),
            !a.show_pw_error,
            a.new_pw@ == Seq::<char>::empty(),
            a.confirm_pw@ == Seq::<char>::empty(),
            a.setup_error@ == Seq::<char>::empty(),
            a.extra_min_input@ == seq!['3', '0'],
            form_shows(a, mgr.config),
            !a.settings_dirty,
            a.toast@ == Seq::<char>::empty(),
    {
        let first = mgr.is_first_run();
        let sc = SnapConfig::from_mgr(mgr);
        let warning = mgr.config.warning_minutes;
        proof {
            reveal_strlit("30");
        }
        KidsTimeApp {
            tab: Tab::Dashboard,
            authenticated: !first,
            pw_input: String::new(),
            show_pw_error: false,
            new_pw: String::new(),
            confirm_pw: String::new(),
            setup_error: String::new(),
            extra_min_input: to_owned_string("30"),
            s_daily: dec_string(sc.daily_limit as u64),
            s_session: dec_string(sc.session_limit as u64),
            s_warning: dec_string(warning as u64),
            s_sched_start: sc.schedule_start,
            s_sched_end: sc.schedule_end,
            s_web_port: dec_string(sc.web_port as u64),
            s_duckdns_domain: sc.duckdns_domain,
            s_duckdns_token: sc.duckdns_token,
            s_cloud_relay: sc.cloud_relay_url,
            s_cloud_code: sc.cloud_device_code,
            s_lock_on_limit: sc.lock_on_limit,
            s_schedule_enabled: sc.schedule_enabled,
            s_web_enabled: sc.web_enabled,
            s_track_apps: sc.track_apps,
            s_cloud_enabled: sc.cloud_enabled,
            settings_dirty: false,
            toast: String::new(),
            toast_time: instant_now(),
        }
    }

    /// Shows `msg` as a passing notice, from now on.
    pub fn toast(&mut self, msg: String)
        ensures
            final(self).toast == msg,
            *final(self) == (KidsTimeApp {
                toast: msg,
                toast_time: final(self).toast_time,
                ..*old(self)
            }),
    {
        self.toast = msg;
        self.toast_time = instant_now();
    }

    /// Whether the notice is still shown: for three seconds after it was set
    /// (see `notice_shown`). The seconds passed come from the monotonic
    /// clock, so no clause speaks of the answer; `notice_shown` states the rule.
    pub fn toast_visible(&self) -> bool {
        notice_shown(whole_secs_since(&self.toast_time))
    }

    /// Logs out: the login screen shows next, with an empty password field.
    pub fn logout(&mut self)
        ensures
            *final(self) == (KidsTimeApp {
                authenticated: false,
                pw_input: final(self).pw_input,
                ..*old(self)
            }),
            final(self).pw_input@ == Seq::<char>::empty(),
    {
        self.authenticated = false;
        self.pw_input = String::new();
    }

    /// The "Save Settings" button: saves the form into the settings (which
    /// are then to be written to disk) and says so.
    pub fn save_settings(&mut self, mgr: &mut ConfigManager)
        ensures
            final(mgr).config == form_applied(*old(self), old(mgr).config),
            final(mgr).state == old(mgr).state,
            final(mgr).history == old(mgr).history,
            *final(self) == (KidsTimeApp {
                settings_dirty: false,
                toast: final(self).toast,
                toast_time: final(self).toast_time,
                ..*old(self)
            }),
            final(self).toast@ == "Settings saved."@,
    {
        self.apply_scratch_to_config(mgr);
        self.settings_dirty = false;
        self.toast(to_owned_string("Settings saved."));
    }

    /// The "Discard" button: the form shows the settings again, and says so.
    pub fn discard_settings(&mut self, mgr: &ConfigManager)
        ensures
            form_shows(*final(self), mgr.config),
            !final(self).settings_dirty,
            *final(self) == (KidsTimeApp {
                toast: final(self).toast,
                toast_time: final(self).toast_time,
                ..with_form_of(*old(self), *final(self))
            }),
            final(self).toast@ == "Changes discarded."@,
    {
        self.sync_scratch_from_config(mgr);
        self.toast(to_owned_string("Changes discarded."));
    }

    /// The screen to show.
    pub fn screen(&self, blocked: bool, first_run: bool) -> (s: Screen)
        ensures
            s == screen_for(self.authenticated, blocked, first_run),
    {
        if first_run {
            Screen::FirstRun
        } else if blocked && !self.authenticated {
            Screen::Blocked
        } else if !self.authenticated {
            Screen::Login
        } else {
            Screen::Main
        }
    }

    /// Resets the settings form to the settings.
    pub fn sync_scratch_from_config(&mut self, mgr: &ConfigManager)
        ensures
            form_shows(*final(self), mgr.config),
            !final(self).settings_dirty,
            *final(self) == with_form_of(*old(self), *final(self)),
    {
        let c = &mgr.config;
        self.s_daily = dec_string(c.daily_limit_minutes as u64);
        self.s_session = dec_string(c.session_limit_minutes as u64);
        self.s_warning = dec_string(c.warning_minutes as u64);
        self.s_sched_start = c.schedule_start.clone();
        self.s_sched_end = c.schedule_end.clone();
        self.s_web_port = dec_string(c.web_port as u64);
        self.s_duckdns_domain = c.duckdns_domain.clone();
        self.s_duckdns_token = c.duckdns_token.clone();
        self.s_cloud_relay = c.cloud_relay_url.clone();
        self.s_cloud_code = c.cloud_device_code.clone();
        self.s_lock_on_limit = c.lock_on_limit;
        self.s_schedule_enabled = c.schedule_enabled;
        self.s_web_enabled = c.web_enabled;
        self.s_track_apps = c.track_apps;
        self.s_cloud_enabled = c.cloud_enabled;
        self.settings_dirty = false;
    }

    /// Saves the settings form into the settings (which are then to be
    /// written to disk).
    pub fn apply_scratch_to_config(&self, mgr: &mut ConfigManager)
        ensures
            final(mgr).config == form_applied(*self, old(mgr).config),
            final(mgr).state == old(mgr).state,
            final(mgr).history == old(mgr).history,
    {
        let daily = match parse_unsigned(self.s_daily.as_str(), 0xffff_ffff) {
            Some(v) => v as u32,
            None => mgr.config.daily_limit_minutes,
        };
        let session = match parse_unsigned(self.s_session.as_str(), 0xffff_ffff) {
            Some(v) => v as u32,
            None => mgr.config.session_limit_minutes,
        };
        let warning = match parse_unsigned(self.s_warning.as_str(), 0xffff_ffff) {
            Some(v) => v as u32,
            None => mgr.config.warning_minutes,
        };
        let port = match parse_unsigned(self.s_web_port.as_str(), 0xffff) {
            Some(v) => v as u16,
            None => mgr.config.web_port,
        };
        mgr.config.daily_limit_minutes = daily;
        mgr.config.session_limit_minutes = session;
        mgr.config.warning_minutes = warning;
        mgr.config.schedule_start = self.s_sched_start.clone();
        mgr.config.schedule_end = self.s_sched_end.clone();
        mgr.config.web_port = port;
        mgr.config.duckdns_domain = self.s_duckdns_domain.clone();
        mgr.config.duckdns_token = self.s_duckdns_token.clone();
        mgr.config.cloud_relay_url = self.s_cloud_relay.clone();
        mgr.config.cloud_device_code = self.s_cloud_code.clone();
        mgr.config.lock_on_limit = self.s_lock_on_limit;
        mgr.config.schedule_enabled = self.s_schedule_enabled;
        mgr.config.web_enabled = self.s_web_enabled;
        mgr.config.track_apps = self.s_track_apps;
        mgr.config.cloud_enabled = self.s_cloud_enabled;
    }

    /// Unlocks the window when the typed password is the admin password.
    pub fn try_login(&mut self, mgr: &ConfigManager)
        ensures
            accepts_password(mgr.config, old(self).pw_input@) ==> {
                &&& *final(self) == (KidsTimeApp {
                    authenticated: true,
                    show_pw_error: false,
                    pw_input: final(self).pw_input,
                    ..*old(self)
                })
                &&& final(self).pw_input@ == Seq::<char>::empty()
            },
            !accepts_password(mgr.config, old(self).pw_input@) ==> *final(self) == (KidsTimeApp {
                show_pw_error: true,
                ..*old(self)
            }),
    {
        if mgr.verify_password(self.pw_input.as_str()) {
            self.authenticated = true;
            self.show_pw_error = false;
            self.pw_input = String::new();
        } else {
            self.show_pw_error = true;
        }
    }

    /// On the blocked screen: the admin password gives five more minutes.
    /// Says whether it did (the state is then to be saved).
    pub fn try_blocked_unlock(&mut self, mgr: &mut ConfigManager) -> (granted: bool)
        ensures
            granted == accepts_password(old(mgr).config, old(self).pw_input@),
            granted ==> {
                &&& final(mgr).state == extra_granted(old(mgr).state, 5)
                &&& *final(self) == (KidsTimeApp {
                    show_pw_error: false,
                    pw_input: final(self).pw_input,
                    ..*old(self)
                })
                &&& final(self).pw_input@ == Seq::<char>::empty()
            },
            !granted ==> {
                &&& final(mgr).state == old(mgr).state
                &&& *final(self) == (KidsTimeApp { show_pw_error: true, ..*old(self) })
            },
            final(mgr).config == old(mgr).config,
            final(mgr).history == old(mgr).history,
    {
        if mgr.verify_password(self.pw_input.as_str()) {
            mgr.grant_extra_time(5);
            self.pw_input = String::new();
            self.show_pw_error = false;
            true
        } else {
            self.show_pw_error = true;
            false
        }
    }

    /// Sets the new password when it is long enough and confirmed, else says
    /// why not.
    fn set_new_password(&mut self, mgr: &mut ConfigManager) -> (ok: bool)
        ensures
            ok == password_accepted(old(self).new_pw@, old(self).confirm_pw@),
            ok ==> {
                &&& accepts_password(final(mgr).config, old(self).new_pw@)
                &&& final(mgr).config.admin_password_hash@ == password_hash(old(self).new_pw@)
                &&& cleared_after_change(*old(self), *final(self))
            },
            !ok ==> {
                &&& final(mgr).config == old(mgr).config
                &&& refused_change(*old(self), *final(self))
            },
            final(mgr).config == (Config {
                admin_password_hash: final(mgr).config.admin_password_hash,
                ..old(mgr).config
            }),
            final(mgr).state == old(mgr).state,
            final(mgr).history == old(mgr).history,
    {
        if byte_len(self.new_pw.as_str()) < 4 {
            self.setup_error = to_owned_string("Password must be at least 4 characters.");
            false
        } else if !(self.new_pw == self.confirm_pw) {
            self.setup_error = to_owned_string("Passwords do not match.");
            false
        } else {
            mgr.set_password(self.new_pw.as_str());
            self.setup_error = String::new();
            self.new_pw = String::new();
            self.confirm_pw = String::new();
            true
        }
    }

    /// First-run setup: sets the admin password and opens the window. Says
    /// whether it did (the settings are then to be saved and tracking started).
    pub fn try_setup(&mut self, mgr: &mut ConfigManager) -> (ok: bool)
        ensures
            ok == password_accepted(old(self).new_pw@, old(self).confirm_pw@),
            ok ==> {
                &&& accepts_password(final(mgr).config, old(self).new_pw@)
                &&& final(mgr).config.admin_password_hash@ == password_hash(old(self).new_pw@)
                &&& final(self).authenticated
                &&& cleared_after_change(
                    KidsTimeApp { authenticated: true, ..*old(self) },
                    *final(self),
                )
            },
            !ok ==> {
                &&& final(mgr).config == old(mgr).config
                &&& refused_change(*old(self), *final(self))
            },
            final(mgr).config == (Config {
                admin_password_hash: final(mgr).config.admin_password_hash,
                ..old(mgr).config
            }),
            final(mgr).state == old(mgr).state,
            final(mgr).history == old(mgr).history,
    {
        let ok = self.set_new_password(mgr);
        if ok {
            self.authenticated = true;
        }
        ok
    }

    /// Changes the admin password from the settings tab. Says whether it did
    /// (the settings are then to be saved).
    pub fn try_change_password(&mut self, mgr: &mut ConfigManager) -> (ok: bool)
        ensures
            ok == password_accepted(old(self).new_pw@, old(self).confirm_pw@),
            ok ==> {
                &&& accepts_password(final(mgr).config, old(self).new_pw@)
                &&& final(mgr).config.admin_password_hash@ == password_hash(old(self).new_pw@)
                &&& final(self).toast@ == "Password updated."@
                &&& cleared_after_change(
                    KidsTimeApp {
                        toast: final(self).toast,
                        toast_time: final(self).toast_time,
                        ..*old(self)
                    },
                    *final(self),
                )
            },
            !ok ==> {
                &&& final(mgr).config == old(mgr).config
                &&& refused_change(*old(self), *final(self))
            },
            final(mgr).config == (Config {
                admin_password_hash: final(mgr).config.admin_password_hash,
                ..old(mgr).config
            }),
            final(mgr).state == old(mgr).state,
            final(mgr).history == old(mgr).history,
    {
        let ok = self.set_new_password(mgr);
        if ok {
            self.toast(to_owned_string("Password updated."));
        }
        ok
    }

    /// Replaces the web token and gives the new one (the settings are then
    /// to be saved).
    pub fn regenerate_token(&mut self, mgr: &mut ConfigManager) -> (tok: String)
        ensures
            tok == final(mgr).config.web_token,
            crate::config::is_token(tok@),
            final(mgr).config == (Config { web_token: tok, ..old(mgr).config }),
            final(mgr).state == old(mgr).state,
            final(mgr).history == old(mgr).history,
            *final(self) == (KidsTimeApp {
                toast: final(self).toast,
                toast_time: final(self).toast_time,
                ..*old(self)
            }),
            final(self).toast@ == "New token generated."@,
    {
        mgr.regenerate_token();
        let tok = mgr.config.web_token.clone();
        self.toast(to_owned_string("New token generated."));
        tok
    }

    /// Gives back the number of minutes typed in the grant dialog (see
    /// `extra_minutes`) and gives it back too (the state is then to be saved).
    pub fn grant_extra_time(&mut self, mgr: &mut ConfigManager) -> (mins: u32)
        ensures
            mins == extra_minutes(old(self).extra_min_input@),
            1 <= mins <= 300,
            final(mgr).state == extra_granted(old(mgr).state, mins),
            final(mgr).config == old(mgr).config,
            final(mgr).history == old(mgr).history,
            *final(self) == (KidsTimeApp {
                toast: final(self).toast,
                toast_time: final(self).toast_time,
                ..*old(self)
            }),
            final(self).toast@ == "Granted "@ + dec(mins as nat) + " extra minutes."@,
    {
        let typed = trim(self.extra_min_input.as_str());
        let m: u32 = match parse_unsigned(typed, 0xffff_ffff) {
            Some(v) => v as u32,
            None => 30,
        };
        let mins = if m < 1 {
            1
        } else if m > 300 {
            300
        } else {
            m
        };
        mgr.grant_extra_time(mins);
        let mut msg = to_owned_string("Granted ");
        push_dec(&mut msg, mins as u64);
        push_str(&mut msg, " extra minutes.");
        self.toast(msg);
        mins
    }

    /// Starts the session over (the state is then to be saved).
    pub fn reset_session(&mut self, mgr: &mut ConfigManager)
        ensures
            final(mgr).state.session_start is Some,
            final(mgr).state == (TimerState {
                session_start: final(mgr).state.session_start,
                session_minutes: 0,
                ..old(mgr).state
            }),
            final(mgr).config == old(mgr).config,
            final(mgr).history == old(mgr).history,
            *final(self) == (KidsTimeApp {
                toast: final(self).toast,
                toast_time: final(self).toast_time,
                ..*old(self)
            }),
            final(self).toast@ == "Session reset."@,
    {
        mgr.reset_session();
        self.toast(to_owned_string("Session reset."));
    }

    /// What the screens show, in one reading: the settings, the timer state,
    /// the minutes left of the day and of the session, whether now is in the
    /// allowed hours, and the local and public addresses (for the local
    /// address `local_ip`; the public one without a known public IP address).
    pub fn snap(&self, mgr: &ConfigManager, local_ip: &str) -> (r: (
        SnapConfig,
        SnapState,
        i64,
        i64,
        bool,
        String,
        String,
    ))
        ensures
            r.0 == snap_config(*mgr),
            r.1 == snap_state(*mgr),
            r.2 == mgr.config.daily_limit_minutes - mgr.state.minutes_used_today,
            r.3 == mgr.config.session_limit_minutes - mgr.state.session_minutes,
            exists|now: crate::clock::TimeOfDay| r.4 == crate::config::in_schedule(mgr.config, now),
            r.5@ == crate::config::http_address(local_ip@, mgr.config.web_port),
            r.6@ == crate::config::public_url(mgr.config, Seq::empty()),
    {
        let sc = SnapConfig::from_mgr(mgr);
        let ss = SnapState::from_mgr(mgr);
        let rd = mgr.remaining_daily();
        let rs = mgr.remaining_session();
        let sched = mgr.is_in_schedule();
        let local = mgr.get_local_url(local_ip);
        proof {
            reveal_strlit("");
        }
        let pub_url = mgr.get_public_url("");
        (sc, ss, rd, rs, sched, local, pub_url)
    }
}

// ---------------------------------------------------------------------------
// Laws
// ---------------------------------------------------------------------------

/// Discarding edits and then saving leaves the settings as they were: a form
/// that shows the settings saves back exactly those settings.
pub proof fn law_form_round_trip(a: KidsTimeApp, c: Config)
    requires
        form_shows(a, c),
    ensures
        form_applied(a, c) == c,
{
    crate::text::lemma_parse_dec(c.daily_limit_minutes as nat, 0xffff_ffff);
    crate::text::lemma_parse_dec(c.session_limit_minutes as nat, 0xffff_ffff);
    crate::text::lemma_parse_dec(c.warning_minutes as nat, 0xffff_ffff);
    crate::text::lemma_parse_dec(c.web_port as nat, 0xffff);
}

/// The main screen shows only to an authenticated user after the first-run
/// setup; while no password is set, the setup screen shows; an
/// unauthenticated user of a blocked machine sees the blocked screen.
pub proof fn law_main_screen_needs_login(authenticated: bool, blocked: bool, first_run: bool)
    ensures
        screen_for(authenticated, blocked, first_run) == Screen::Main ==> authenticated
            && !first_run,
        first_run ==> screen_for(authenticated, blocked, first_run) == Screen::FirstRun,
        !first_run && blocked && !authenticated ==> screen_for(authenticated, blocked, first_run)
            == Screen::Blocked,
{
}

/// The colour follows the fraction left of the timer's own limit: green
/// exactly when more than half is left, red exactly when at most 15 percent
/// is left, amber in between.
pub proof fn law_color_by_fraction(remaining: int, limit: int)
    requires
        limit > 0,
    ensures
        color_for(remaining, limit) == TimerColor::Green <==> 2 * remaining > limit,
        color_for(remaining, limit) == TimerColor::Red <==> 20 * remaining <= 3 * limit,
        color_for(remaining, limit) == TimerColor::Amber <==> (2 * remaining <= limit && 20
            * remaining > 3 * limit),
{
}

/// Only the fraction counts: scaling the minutes left and the limit by the
/// same factor keeps the colour.
pub proof fn law_color_scale_invariant(remaining: int, limit: int, k: int)
    requires
        limit > 0,
        k > 0,
    ensures
        color_for(k * remaining, k * limit) == color_for(remaining, limit),
{
    assert((2 * (k * remaining) > k * limit) <==> (2 * remaining > limit)) by (nonlinear_arith)
        requires
            k > 0,
    ;
    assert((20 * (k * remaining) > 3 * (k * limit)) <==> (20 * remaining > 3 * limit))
        by (nonlinear_arith)
        requires
            k > 0,
    ;
    assert(k * limit > 0) by (nonlinear_arith)
        requires
            k > 0,
            limit > 0,
    ;
}

/// How good a colour is: red, amber, green.
pub open spec fn color_rank(c: TimerColor) -> int {
    match c {
        TimerColor::Red => 0,
        TimerColor::Amber => 1,
        TimerColor::Green => 2,
    }
}

/// More time left never gives a worse colour, and a countdown at or below
/// zero is red.
pub proof fn law_color_monotone(r1: int, r2: int, limit: int)
    requires
        r1 <= r2,
    ensures
        color_rank(color_for(r1, limit)) <= color_rank(color_for(r2, limit)),
        r1 <= 0 ==> color_for(r1, limit) == TimerColor::Red,
{
}

} // verus!
