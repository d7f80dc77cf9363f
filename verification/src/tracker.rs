//! The minute-by-minute time accounting: what one tick of the tracker does to
//! the state, and when the screen is to be locked.
use vstd::prelude::*;
use vstd::string::*;
use crate::config::{daily_left, minute_counted, session_left, Config, ConfigManager, TimerState};
use crate::history::{after_record, active_event, EntryView};
use crate::winapi::ActiveWindowInfo;

verus! {

/// What the tracking thread is to do after a tick.
#[derive(Clone, Copy, Debug, PartialEq, Eq, Structural)]
pub enum TickAction {
    /// Outside the allowed hours: the state is blocked; save it, lock the screen,
    /// and wait for the next tick.
    LockOutsideSchedule,
    /// A minute was counted: save the state, look at the foreground window when
    /// `track_apps`, and lock the screen when `lock`.
    Counted { track_apps: bool, lock: bool },
}

/// The state after a counted minute: the session and the day each count one
/// more minute, and a session that has used up its limit while time is left
/// in the day starts over, started at `stamp`.
pub open spec fn counted_state(c: Config, s: TimerState, t: TimerState, stamp: String) -> bool {
    let m = minute_counted(s);
    if session_left(c, m) <= 0 && daily_left(c, m) > 0 {
        t == (TimerState { session_minutes: 0, session_start: Some(stamp), ..m })
    } else {
        t == m
    }
}

/// The screen is locked after a counted minute when the day's limit is used
/// up and locking on the limit is on.
pub open spec fn locks_after(c: Config, s: TimerState) -> bool {
    daily_left(c, minute_counted(s)) <= 0 && c.lock_on_limit
}

/// A counted minute asks for the screen lock exactly when, with that minute,
/// the day's use reaches or passes the daily limit and locking on the limit is
/// on: once past the limit every counted minute asks again, and while minutes
/// of the day are left none does.
pub proof fn law_lock_at_daily_limit(c: Config, s: TimerState)
    requires
        s.minutes_used_today < u32::MAX,
    ensures
        locks_after(c, s) <==> (c.lock_on_limit && s.minutes_used_today + 1
            >= c.daily_limit_minutes),
{
}

/// A counted minute adds one minute to the day; the session starts over at
/// `stamp` exactly when, with that minute, the session reaches its limit while
/// the day has not; otherwise the session counts the minute too. The block is
/// left as it was.
pub proof fn law_session_breaks_at_limit(c: Config, s: TimerState, t: TimerState, stamp: String)
    requires
        s.session_minutes < u32::MAX,
        s.minutes_used_today < u32::MAX,
        counted_state(c, s, t, stamp),
    ensures
        t.minutes_used_today == s.minutes_used_today + 1,
        t.is_blocked == s.is_blocked,
        (s.session_minutes + 1 >= c.session_limit_minutes && s.minutes_used_today + 1
            < c.daily_limit_minutes) ==> t.session_minutes == 0 && t.session_start == Some(stamp),
        !(s.session_minutes + 1 >= c.session_limit_minutes && s.minutes_used_today + 1
            < c.daily_limit_minutes) ==> t.session_minutes == s.session_minutes + 1
            && t.session_start == s.session_start,
{
}

impl ConfigManager {
    /// Before the first tick: starts a session now unless one is under way.
    /// Says whether it did (the state is then to be saved).
    pub fn begin_tracking(&mut self) -> (started: bool)
        ensures
            started == (old(self).state.session_start is None),
            started ==> final(self).state.session_start is Some && final(self).state == (
            TimerState {
                session_start: final(self).state.session_start,
                session_minutes: 0,
                ..old(self).state
            }),
            !started ==> *final(self) == *old(self),
            final(self).config == old(self).config,
            final(self).history == old(self).history,
    {
        if self.state.session_start.is_none() {
            self.start_session();
            true
        } else {
            false
        }
    }

    /// One tick of the tracker, knowing whether now is in the allowed hours
    /// and the stamp that a new session would start with.
    pub fn tick_with(&mut self, in_schedule: bool, stamp: String) -> (a: TickAction)
        requires
            in_schedule ==> old(self).state.session_minutes < u32::MAX,
            in_schedule ==> old(self).state.minutes_used_today < u32::MAX,
        ensures
            !in_schedule ==> a == TickAction::LockOutsideSchedule && final(self).state == (
            TimerState { is_blocked: true, ..old(self).state }),
            in_schedule ==> a == (TickAction::Counted {
                track_apps: old(self).config.track_apps,
                lock: locks_after(old(self).config, old(self).state),
            }) && counted_state(old(self).config, old(self).state, final(self).state, stamp),
            in_schedule ==> (a matches TickAction::Counted { lock, .. } && (lock <==> (
            old(self).config.lock_on_limit && old(self).state.minutes_used_today + 1
                >= old(self).config.daily_limit_minutes))),
            final(self).config == old(self).config,
            final(self).history == old(self).history,
    {
        proof {
            if in_schedule {
                law_lock_at_daily_limit(self.config, self.state);
            }
        }
        if !in_schedule {
            self.state.is_blocked = true;
            return TickAction::LockOutsideSchedule;
        }
        self.add_session_minute();
        let track_apps = self.config.track_apps;
        let daily_rem = self.remaining_daily();
        let session_rem = self.remaining_session();
        let lock = daily_rem <= 0 && self.config.lock_on_limit;
        let break_session = session_rem <= 0 && daily_rem > 0;
        if break_session {
            self.reset_session_at(stamp);
        }
        TickAction::Counted { track_apps, lock }
    }

    /// One tick of the tracker at the current local time.
    pub fn tick(&mut self) -> (a: TickAction)
        requires
            old(self).state.session_minutes < u32::MAX,
            old(self).state.minutes_used_today < u32::MAX,
        ensures
            a == TickAction::LockOutsideSchedule ==> final(self).state == (TimerState {
                is_blocked: true,
                ..old(self).state
            }) && old(self).config.schedule_enabled,
            a != TickAction::LockOutsideSchedule ==> a == (TickAction::Counted {
                track_apps: old(self).config.track_apps,
                lock: locks_after(old(self).config, old(self).state),
            }) && exists|stamp: String|
                counted_state(old(self).config, old(self).state, final(self).state, stamp),
            final(self).config == old(self).config,
            final(self).history == old(self).history,
    {
        let in_schedule = self.is_in_schedule();
        let stamp = crate::clock::local_timestamp();
        self.tick_with(in_schedule, stamp)
    }

    /// Notes the foreground window and logs it, unless it has no title. Says
    /// whether it did (the state and the log are then to be saved).
    pub fn observe_window(&mut self, info: &ActiveWindowInfo) -> (recorded: bool)
        ensures
            recorded == (info.window@.len() > 0),
            recorded ==> {
                &&& final(self).state.current_window@ == info.window@
                &&& final(self).state.current_process@ == info.process@
                &&& final(self).state == (TimerState {
                    current_window: final(self).state.current_window,
                    current_process: final(self).state.current_process,
                    ..old(self).state
                })
                &&& exists|time: Seq<char>|
                    final(self).history@ == after_record(
                        old(self).history@,
                        EntryView {
                            time,
                            window: info.window@,
                            process: info.process@,
                            event: active_event(),
                        },
                    )
            },
            !recorded ==> *final(self) == *old(self),
            final(self).config == old(self).config,
    {
        if info.window.unicode_len() == 0 {
            return false;
        }
        self.update_active_window(info.window.as_str(), info.process.as_str());
        self.history.record(info.window.as_str(), info.process.as_str());
        true
    }
}

} // verus!
