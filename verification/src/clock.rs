//! Wall-clock readings (through `chrono`) and the arithmetic of the daily
//! schedule: "HH:MM" settings and whether a time of day lies in the allowed window.
use vstd::prelude::*;
use vstd::string::*;
use chrono::Timelike;
use crate::text::{digits_value, is_digit, parse_unsigned, parsed_unsigned};

verus! {

/// The largest `u32`, as the bound of an unsigned parse.
pub open spec fn u32_max() -> nat {
    0xffff_ffff
}

/// A time of day as `chrono::NaiveTime` holds it: whole seconds since
/// midnight, and nanoseconds within the second (1e9 and above mark a leap second).
/// Times of day are ordered by seconds, then nanoseconds.
#[derive(Clone, Copy, Debug)]
pub struct TimeOfDay {
    pub secs: u32,
    pub nanos: u32,
}

/// Seconds since midnight of `hour:min:00`, when that is a valid time of day.
pub open spec fn hms_secs(hour: nat, min: nat) -> Option<nat> {
    if hour < 24 && min < 60 {
        Some(hour * 3600 + min * 60)
    } else {
        None
    }
}

/// `s[i]` is the one and only `':'` of `s`.
pub open spec fn only_colon_at(s: Seq<char>, i: int) -> bool {
    &&& 0 <= i < s.len()
    &&& s[i] == ':'
    &&& forall|j: int| 0 <= j < s.len() && j != i ==> s[j] != ':'
}

/// A parse of an unsigned number, 0 where the text is not one.
pub open spec fn number_or_zero(s: Seq<char>) -> nat {
    match parsed_unsigned(s, u32_max()) {
        Some(v) => v,
        None => 0,
    }
}

/// The time of day, in seconds since midnight, that a schedule setting such
/// as "21:00" stands for. Text that is not two numbers around a single `':'`,
/// or that names no valid time, stands for midnight; a part that is not a
/// number counts as 0.
pub open spec fn schedule_secs(s: Seq<char>) -> nat {
    if exists|i: int| only_colon_at(s, i) {
        let i = choose|i: int| only_colon_at(s, i);
        let h = number_or_zero(s.subrange(0, i));
        let m = number_or_zero(s.subrange(i + 1, s.len() as int));
        match hms_secs(h, m) {
            Some(t) => t,
            None => 0,
        }
    } else {
        0
    }
}

/// `now` is at or after `t:00.000` seconds since midnight.
pub open spec fn at_or_after(now: TimeOfDay, t: nat) -> bool {
    now.secs >= t
}

/// `now` is at or before `t:00.000` seconds since midnight.
pub open spec fn at_or_before(now: TimeOfDay, t: nat) -> bool {
    now.secs < t || (now.secs == t && now.nanos == 0)
}

/// Whether `now` lies in the window from `start` to `end` (both inclusive),
/// a window that wraps past midnight when `start` is later than `end`.
pub open spec fn within_window(now: TimeOfDay, start: nat, end: nat) -> bool {
    if start <= end {
        at_or_after(now, start) && at_or_before(now, end)
    } else {
        at_or_after(now, start) || at_or_before(now, end)
    }
}

/// The allowed hours include their first and their last minute, and a window
/// whose start is later than its end runs past midnight: it holds every time
/// from the start to midnight and every time from midnight to the end.
pub proof fn law_window_bounds(now: TimeOfDay, start: nat, end: nat)
    requires
        start < 86400,
        end < 86400,
    ensures
        within_window(TimeOfDay { secs: start as u32, nanos: 0 }, start, end),
        within_window(TimeOfDay { secs: end as u32, nanos: 0 }, start, end),
        start > end && now.secs >= start ==> within_window(now, start, end),
        start > end && now.secs < end ==> within_window(now, start, end),
        start > end && end < now.secs < start ==> !within_window(now, start, end),
        start <= end && (now.secs < start || now.secs > end) ==> !within_window(now, start, end),
{
}

/// Reads the local time of day.
///
/// Trusted: calls `chrono::Local::now()` and takes its `time()`, read with
/// `Timelike::num_seconds_from_midnight` (0 to 86399) and
/// `Timelike::nanosecond` (below 2e9; 1e9 and above marks a leap second).
/// Nothing is said of which time it is.
#[verifier::external_body]
pub fn local_time_of_day() -> (t: TimeOfDay)
    ensures
        t.secs < 86400,
        t.nanos < 2_000_000_000,
{
    let now = chrono::Local::now().time();
    TimeOfDay { secs: now.num_seconds_from_midnight(), nanos: now.nanosecond() }
}

/// Two decimal digits whose value lies between `lo` and `hi`.
pub open spec fn two_digits_within(d: Seq<char>, lo: nat, hi: nat) -> bool {
    &&& d.len() == 2
    &&& is_digit(d[0])
    &&& is_digit(d[1])
    &&& lo <= digits_value(d) <= hi
}

/// A year as chrono's `%Y` writes it: four or more decimal digits, a sign in
/// front when the year is outside 0 to 9999.
pub open spec fn is_year_text(y: Seq<char>) -> bool {
    &&& y.len() >= 4
    &&& forall|i: int| 0 < i < y.len() ==> is_digit(#[trigger] y[i])
    &&& (is_digit(y[0]) || y[0] == '+' || y[0] == '-')
}

/// A date as chrono writes `%Y-%m-%d`: the year, a dash, the month (01 to 12),
/// a dash and the day of the month (01 to 31).
pub open spec fn is_date_text(d: Seq<char>) -> bool {
    let n = d.len() as int;
    &&& n >= 10
    &&& is_year_text(d.subrange(0, n - 6))
    &&& d[n - 6] == '-'
    &&& two_digits_within(d.subrange(n - 5, n - 3), 1, 12)
    &&& d[n - 3] == '-'
    &&& two_digits_within(d.subrange(n - 2, n), 1, 31)
}

/// Today's local date as "YYYY-MM-DD".
///
/// Trusted: calls `chrono::Local::now().format("%Y-%m-%d")`. Which date it is
/// depends on the clock; as chrono's formatting source shows, the text is the
/// year (four digits, or a sign and four or more digits outside 0 to 9999),
/// then the month and the day as two zero-padded digits each, joined by dashes.
#[verifier::external_body]
pub fn local_date() -> (d: String)
    ensures
        is_date_text(d@),
{
    chrono::Local::now().format("%Y-%m-%d").to_string()
}

/// The current local time as an RFC 3339 timestamp.
///
/// Trusted: calls `chrono::Local::now().to_rfc3339()`. The text depends on the
/// clock, so nothing is said of it.
#[verifier::external_body]
pub fn local_timestamp() -> (t: String) {
    chrono::Local::now().to_rfc3339()
}

/// Seconds since midnight of `hour:min:00`.
///
/// Trusted: calls `chrono::NaiveTime::from_hms_opt(hour, min, 0)` and reads
/// the result with `num_seconds_from_midnight`. As chrono's source shows,
/// the time is `None` exactly when `hour >= 24` or `min >= 60`, and otherwise
/// holds `hour * 3600 + min * 60` seconds.
#[verifier::external_body]
fn hms_to_secs(hour: u32, min: u32) -> (r: Option<u32>)
    ensures
        match hms_secs(hour as nat, min as nat) {
            Some(t) => r == Some(t as u32),
            None => r is None,
        },
{
    chrono::NaiveTime::from_hms_opt(hour, min, 0).map(|t| t.num_seconds_from_midnight())
}

/// The time of day that a schedule setting stands for (see `schedule_secs`).
pub fn parse_time(s: &str) -> (r: u32)
    ensures
        r as nat == schedule_secs(s@),
        r < 86400,
{
    let n = s.unicode_len();
    let mut colons: usize = 0;
    let mut at: usize = 0;
    let mut i: usize = 0;
    while i < n
        invariant
            i <= n,
            n == s@.len(),
            colons <= i,
            colons == 0 ==> forall|j: int| 0 <= j < i ==> s@[j] != ':',
            colons == 1 ==> at < i && s@[at as int] == ':' && forall|j: int|
                0 <= j < i && j != at ==> s@[j] != ':',
            colons >= 2 ==> exists|a: int, b: int|
                0 <= a < b < i && s@[a] == ':' && s@[b] == ':',
        decreases n - i,
    {
        if s.get_char(i) == ':' {
            if colons == 1 {
                assert(s@[at as int] == ':' && s@[i as int] == ':');
            }
            if colons == 0 {
                at = i;
            }
            if colons < 2 {
                colons += 1;
            }
        }
        i += 1;
    }
    if colons != 1 {
        proof {
            if colons >= 2 {
                let (a, b) = choose|a: int, b: int|
                    0 <= a < b < n && s@[a] == ':' && s@[b] == ':';
                assert forall|k: int| !only_colon_at(s@, k) by {
                    if only_colon_at(s@, k) {
                        if k != a {
                            assert(s@[a] != ':');
                        } else {
                            assert(s@[b] != ':');
                        }
                    }
                }
            }
        }
        return 0;
    }
    proof {
        assert(only_colon_at(s@, at as int));
        let k = choose|k: int| only_colon_at(s@, k);
        assert(k == at);
    }
    let hs = s.substring_char(0, at);
    let ms = s.substring_char(at + 1, n);
    let h: u32 = match parse_unsigned(hs, 0xffff_ffff) {
        Some(v) => v as u32,
        None => 0,
    };
    let m: u32 = match parse_unsigned(ms, 0xffff_ffff) {
        Some(v) => v as u32,
        None => 0,
    };
    match hms_to_secs(h, m) {
        Some(t) => t,
        None => 0,
    }
}

/// Whether `now` lies in the window from `start` to `end` seconds since midnight.
pub fn is_within_window(now: TimeOfDay, start: u32, end: u32) -> (b: bool)
    ensures
        b == within_window(now, start as nat, end as nat),
{
    let after = now.secs >= start;
    let before = now.secs < end || (now.secs == end && now.nanos == 0);
    if start <= end {
        after && before
    } else {
        after || before
    }
}

} // verus!
