//! Running a backup on a schedule.

use vstd::prelude::*;
use vstd::string::StrSliceExecFns;

use crate::backup::{Backup, ScheduleConfig};

verus! {

/// When a backup runs, as given by the caller.
pub struct Schedule {
    pub frequency: String,
    pub time: String,
}

impl Schedule {
    pub fn to_config(&self) -> (r: ScheduleConfig)
        ensures
            r.frequency == self.frequency,
            r.time == self.time,
    {
        ScheduleConfig { frequency: self.frequency.clone(), time: self.time.clone() }
    }
}

/// How many backup files a scheduled backup keeps.
pub struct BackupRotationConfig {
    pub max_backups: usize,
}

/// A backup together with the schedule it runs on.
pub struct Scheduler {
    schedule: Schedule,
    backup: Backup,
}

impl Scheduler {
    pub closed spec fn plan(&self) -> Schedule {
        self.schedule
    }

    pub closed spec fn job(&self) -> Backup {
        self.backup
    }

    pub fn new(schedule: Schedule, backup: Backup) -> (r: Scheduler)
        ensures
            r.plan() == schedule,
            r.job() == backup,
    {
        Scheduler { schedule, backup }
    }

    /// The schedule this scheduler follows.
    pub fn schedule(&self) -> (r: &Schedule)
        ensures
            *r == self.plan(),
    {
        &self.schedule
    }

    /// The backup this scheduler runs.
    pub fn backup(&self) -> (r: &Backup)
        ensures
            *r == self.job(),
    {
        &self.backup
    }
}

/// Seconds in a day.
pub const SECONDS_PER_DAY: u64 = 86400;

/// The value of a sequence of decimal digits.
pub open spec fn decimal_value(s: Seq<char>) -> int
    decreases s.len(),
{
    if s.len() == 0 {
        0
    } else {
        decimal_value(s.drop_last()) * 10 + (s.last() as u32 - '0' as u32)
    }
}

/// One or more decimal digits.
pub open spec fn is_decimal(s: Seq<char>) -> bool {
    &&& s.len() > 0
    &&& forall|i: int| 0 <= i < s.len() ==> '0' <= #[trigger] s[i] <= '9'
}

/// The digits of an unsigned number: a leading `+` is dropped.
pub open spec fn unsigned_digits(s: Seq<char>) -> Seq<char> {
    if s.len() > 0 && s[0] == '+' {
        s.drop_first()
    } else {
        s
    }
}

/// The `u32` that a text spells: an optional `+` and decimal digits whose
/// value fits.
pub open spec fn parsed_u32(s: Seq<char>) -> Option<u32> {
    let d = unsigned_digits(s);
    if is_decimal(d) && decimal_value(d) <= u32::MAX {
        Some(decimal_value(d) as u32)
    } else {
        None
    }
}

/// Relies on `str::parse::<u32>`: an optional `+` followed by decimal
/// digits, without surrounding whitespace, whose value fits in `u32`.
#[verifier::external_body]
fn parse_u32(s: &str) -> (r: Option<u32>)
    ensures
        r == parsed_u32(s@),
{
    s.parse::<u32>().ok()
}

/// The number a field spells, or 0 when it spells none.
pub open spec fn field_or_zero(s: Seq<char>) -> u32 {
    match parsed_u32(s) {
        Some(v) => v,
        None => 0,
    }
}

/// `i` is the position of the only `:` in `t`.
pub open spec fn is_sole_colon(t: Seq<char>, i: int) -> bool {
    &&& 0 <= i < t.len()
    &&& t[i] == ':'
    &&& forall|j: int| 0 <= j < t.len() && j != i ==> t[j] != ':'
}

/// Hour and minute of an `H:M` time: the text has exactly one colon, and a
/// side that spells no number counts as 0.
pub open spec fn clock_time(t: Seq<char>) -> Option<(u32, u32)> {
    if exists|i: int| is_sole_colon(t, i) {
        let i = choose|i: int| is_sole_colon(t, i);
        Some((field_or_zero(t.take(i)), field_or_zero(t.skip(i + 1))))
    } else {
        None
    }
}

fn field_value(s: &str) -> (r: u32)
    ensures
        r == field_or_zero(s@),
{
    match parse_u32(s) {
        Some(v) => v,
        None => 0,
    }
}

/// Reads an `H:M` time of day.
pub fn read_clock_time(time: &str) -> (r: Option<(u32, u32)>)
    ensures
        r == clock_time(time@),
{
    let n = time.unicode_len();
    let mut colon: Option<usize> = None;
    let mut repeated = false;
    let mut i: usize = 0;
    while i < n
        invariant
            n == time@.len(),
            i <= n,
            !repeated ==> match colon {
                Some(c) => c < i && time@[c as int] == ':' && forall|j: int|
                    0 <= j < i && j != c ==> time@[j] != ':',
                None => forall|j: int| 0 <= j < i ==> time@[j] != ':',
            },
            repeated ==> exists|a: int, b: int|
                0 <= a < b < i && time@[a] == ':' && time@[b] == ':',
        decreases n - i,
    {
        if time.get_char(i) == ':' {
            if !repeated {
                match colon {
                    Some(c) => {
                        assert(0 <= c < i && time@[c as int] == ':' && time@[i as int] == ':');
                        repeated = true;
                    },
                    None => {
                        colon = Some(i);
                    },
                }
            }
        }
        i = i + 1;
    }
    if repeated {
        proof {
            let (a, b) = choose|a: int, b: int|
                0 <= a < b < n && time@[a] == ':' && time@[b] == ':';
            assert forall|k: int| !is_sole_colon(time@, k) by {
                if is_sole_colon(time@, k) {
                    if k != a {
                        assert(time@[a] != ':');
                    } else {
                        assert(time@[b] != ':');
                    }
                }
            }
        }
        return None;
    }
    match colon {
        None => {
            proof {
                assert forall|k: int| !is_sole_colon(time@, k) by {
                    if 0 <= k < time@.len() {
                        assert(time@[k] != ':');
                    }
                }
            }
            None
        },
        Some(c) => {
            let hour_text = time.substring_char(0, c);
            let minute_text = time.substring_char(c + 1, n);
            proof {
                assert(is_sole_colon(time@, c as int));
                let k = choose|k: int| is_sole_colon(time@, k);
                if k != c {
                    assert(time@[k] != ':');
                }
                assert(time@.take(c as int) =~= hour_text@);
                assert(time@.skip(c + 1) =~= minute_text@);
            }
            Some((field_value(hour_text), field_value(minute_text)))
        },
    }
}

/// Seconds from `now` (seconds since midnight, weekday counted from Monday
/// as 0) to the next run of a `daily` or `weekly` schedule at `time`.
/// A daily run whose time has come or passed is a day after today's; a
/// weekly run is on the next Monday, a week ahead on a Monday. No delay
/// for another frequency, a time without exactly one colon, or an hour or
/// minute out of range.
pub open spec fn run_delay(frequency: Seq<char>, time: Seq<char>, now: int, weekday: int) -> Option<int> {
    match clock_time(time) {
        None => None,
        Some((h, m)) => if h >= 24 || m >= 60 {
            None
        } else {
            let at = h * 3600 + m * 60;
            if frequency == "daily"@ {
                Some(
                    if at > now {
                        at - now
                    } else {
                        SECONDS_PER_DAY - (now - at)
                    },
                )
            } else if frequency == "weekly"@ {
                let ahead = if weekday == 0 {
                    7
                } else {
                    7 - weekday
                };
                Some(ahead * SECONDS_PER_DAY + at - now)
            } else {
                None
            }
        },
    }
}

/// Whether two texts are equal.
fn same_text(a: &str, b: &str) -> (r: bool)
    ensures
        r == (a@ == b@),
{
    let n = a.unicode_len();
    if n != b.unicode_len() {
        return false;
    }
    let mut i: usize = 0;
    while i < n
        invariant
            n == a@.len(),
            n == b@.len(),
            i <= n,
            a@.take(i as int) == b@.take(i as int),
        decreases n - i,
    {
        if a.get_char(i) != b.get_char(i) {
            return false;
        }
        proof {
            assert(a@.take(i + 1) =~= a@.take(i as int).push(a@[i as int]));
            assert(b@.take(i + 1) =~= b@.take(i as int).push(b@[i as int]));
        }
        i = i + 1;
    }
    proof {
        assert(a@.take(n as int) =~= a@);
        assert(b@.take(n as int) =~= b@);
    }
    true
}

/// Seconds until the next run of a schedule; see `run_delay`.
pub fn next_run_delay(frequency: &str, time: &str, now_second_of_day: u32, weekday_from_monday: u32) -> (r: Option<u64>)
    requires
        now_second_of_day < SECONDS_PER_DAY,
        weekday_from_monday < 7,
    ensures
        r matches Some(d) ==> run_delay(frequency@, time@, now_second_of_day as int, weekday_from_monday as int) == Some(d as int),
        r is None ==> run_delay(frequency@, time@, now_second_of_day as int, weekday_from_monday as int) is None,
{
    let (hour, minute) = match read_clock_time(time) {
        Some(hm) => hm,
        None => {
            return None;
        },
    };
    if hour >= 24 || minute >= 60 {
        return None;
    }
    let at: u64 = hour as u64 * 3600 + minute as u64 * 60;
    let now = now_second_of_day as u64;
    if same_text(frequency, "daily") {
        if at > now {
            Some(at - now)
        } else {
            Some(SECONDS_PER_DAY - (now - at))
        }
    } else if same_text(frequency, "weekly") {
        let ahead: u64 = if weekday_from_monday == 0 {
            7
        } else {
            7 - weekday_from_monday as u64
        };
        Some(ahead * SECONDS_PER_DAY + at - now)
    } else {
        None
    }
}

impl Scheduler {
    /// Seconds from `now` until this scheduler's next run; see `run_delay`.
    pub fn next_delay(&self, now_second_of_day: u32, weekday_from_monday: u32) -> (r: Option<u64>)
        requires
            now_second_of_day < SECONDS_PER_DAY,
            weekday_from_monday < 7,
        ensures
            r matches Some(d) ==> run_delay(self.plan().frequency@, self.plan().time@, now_second_of_day as int, weekday_from_monday as int) == Some(d as int),
            r is None ==> run_delay(self.plan().frequency@, self.plan().time@, now_second_of_day as int, weekday_from_monday as int) is None,
    {
        next_run_delay(self.schedule.frequency.as_str(), self.schedule.time.as_str(), now_second_of_day, weekday_from_monday)
    }
}

} // verus!
