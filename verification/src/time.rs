//! Instants and signed durations, with the arithmetic that timing the next
//! post needs.
//!
//! `Timestamp` holds what the bot reads of a `chrono::DateTime<FixedOffset>`:
//! the seconds since the Unix epoch, the fraction of the current second in
//! nanoseconds (a value of one billion or more marks a leap second, as in
//! chrono), and the offset from UTC. `Duration` holds a signed span as chrono's
//! `TimeDelta` does: whole seconds and a nanosecond part in `0..1_000_000_000`.

use vstd::prelude::*;

verus! {

/// Seconds in a day.
pub const SECS_PER_DAY: i64 = 86_400;

/// A point in time with the UTC offset it was written in.
#[derive(Debug, Clone, Copy, PartialEq, Eq, Structural)]
pub struct Timestamp {
    /// Non-leap seconds since 1970-01-01T00:00:00Z.
    pub secs: i64,
    /// Nanoseconds into the current second; `1_000_000_000` and above during a
    /// leap second.
    pub nanos: u32,
    /// Seconds to add to UTC to get the local time the value was written in.
    pub offset_secs: i32,
}

/// A signed span of time: `secs` seconds plus `nanos` nanoseconds.
#[derive(Debug, Clone, Copy, PartialEq, Eq, Structural)]
pub struct Duration {
    pub secs: i64,
    pub nanos: i32,
}

impl Timestamp {
    /// The range in which every instant that chrono can represent lies, with
    /// room to spare: no difference of two such instants overflows a
    /// `Duration`.
    pub open spec fn wf(&self) -> bool {
        &&& -10_000_000_000_000 <= self.secs <= 10_000_000_000_000
        &&& self.nanos < 2_000_000_000
        &&& -86_400 < self.offset_secs < 86_400
    }

    /// The second within its UTC day.
    pub open spec fn sec_of_day(&self) -> int {
        self.secs as int % 86_400
    }
}

impl Duration {
    /// The shape chrono keeps a `TimeDelta` in.
    pub open spec fn wf(&self) -> bool {
        0 <= self.nanos < 1_000_000_000
    }

    /// The whole span in nanoseconds.
    pub open spec fn total_nanos(&self) -> int {
        self.secs * 1_000_000_000 + self.nanos
    }

    /// Whole seconds, truncated toward zero.
    pub open spec fn spec_num_seconds(&self) -> int {
        if self.secs < 0 && self.nanos > 0 {
            self.secs + 1
        } else {
            self.secs as int
        }
    }

    /// Whole minutes, truncated toward zero.
    pub open spec fn spec_num_minutes(&self) -> int {
        trunc_div(self.spec_num_seconds(), 60)
    }

    /// Whole hours, truncated toward zero.
    pub open spec fn spec_num_hours(&self) -> int {
        trunc_div(self.spec_num_seconds(), 3600)
    }
}

/// Integer division rounding toward zero, as Rust's `/` does.
pub open spec fn trunc_div(a: int, b: int) -> int
    recommends
        b > 0,
{
    if a >= 0 {
        a / b
    } else {
        -((-a) / b)
    }
}

/// The remainder that goes with `trunc_div`, as Rust's `%` computes it: it
/// has the sign of `a`.
pub open spec fn trunc_rem(a: int, b: int) -> int
    recommends
        b > 0,
{
    a - b * trunc_div(a, b)
}

/// `later - earlier`, as chrono's `signed_duration_since` computes it.
///
/// The span is the difference of the timestamps plus that of the fractions;
/// when one of the two lies in a leap second, that extra second is counted
/// only if the other instant lies on the far side of it within the day.
pub open spec fn duration_since(later: Timestamp, earlier: Timestamp) -> Duration {
    let leap_adjust: int = if later.sec_of_day() > earlier.sec_of_day()
        && earlier.nanos >= 1_000_000_000 {
        1
    } else if later.sec_of_day() < earlier.sec_of_day() && later.nanos >= 1_000_000_000 {
        -1
    } else {
        0
    };
    let frac: int = later.nanos - earlier.nanos;
    Duration {
        secs: (later.secs - earlier.secs + leap_adjust + frac / 1_000_000_000) as i64,
        nanos: (frac % 1_000_000_000) as i32,
    }
}

/// A span of whole seconds.
pub open spec fn seconds(s: i64) -> Duration {
    Duration { secs: s, nanos: 0 }
}

/// The sum of two spans, as chrono adds `TimeDelta`s.
pub open spec fn duration_add(a: Duration, b: Duration) -> Duration {
    let nanos: int = a.nanos + b.nanos;
    if nanos >= 1_000_000_000 {
        Duration { secs: (a.secs + b.secs + 1) as i64, nanos: (nanos - 1_000_000_000) as i32 }
    } else {
        Duration { secs: (a.secs + b.secs) as i64, nanos: nanos as i32 }
    }
}

/// `later - earlier`, as chrono's `DateTime::signed_duration_since` computes
/// it.
pub fn signed_duration_since(later: &Timestamp, earlier: &Timestamp) -> (res: Duration)
    requires
        later.wf(),
        earlier.wf(),
    ensures
        res == duration_since(*later, *earlier),
        res.wf(),
{
    // Shifting by a whole number of days keeps the second of the day and makes
    // the remainder non-negative.
    let shift: i64 = 86_400 * 200_000_000;
    let later_sod: i64 = (later.secs + shift) % SECS_PER_DAY;
    let earlier_sod: i64 = (earlier.secs + shift) % SECS_PER_DAY;
    assert(later_sod == later.sec_of_day()) by {
        lemma_mod_shift(later.secs as int);
    }
    assert(earlier_sod == earlier.sec_of_day()) by {
        lemma_mod_shift(earlier.secs as int);
    }
    let leap_adjust: i64 = if later_sod > earlier_sod && earlier.nanos >= 1_000_000_000 {
        1
    } else if later_sod < earlier_sod && later.nanos >= 1_000_000_000 {
        -1
    } else {
        0
    };
    let frac: i64 = later.nanos as i64 - earlier.nanos as i64;
    let (carry, nanos): (i64, i64) = if frac < -1_000_000_000 {
        (-2, frac + 2_000_000_000)
    } else if frac < 0 {
        (-1, frac + 1_000_000_000)
    } else if frac < 1_000_000_000 {
        (0, frac)
    } else {
        (1, frac - 1_000_000_000)
    };
    assert(frac / 1_000_000_000 == carry as int && frac % 1_000_000_000 == nanos as int);
    Duration { secs: later.secs - earlier.secs + leap_adjust + carry, nanos: nanos as i32 }
}

proof fn lemma_mod_shift(x: int)
    ensures
        (x + 86_400 * 200_000_000) % 86_400 == x % 86_400,
{
    vstd::arithmetic::div_mod::lemma_mod_multiples_vanish(200_000_000, x, 86_400);
}

/// How long the bot waits before the next post: until the current rotation
/// ends, plus a minute so that the published data has been refreshed.
pub fn post_delay(ends_at: &Timestamp, now: &Timestamp) -> (res: Duration)
    requires
        ends_at.wf(),
        now.wf(),
    ensures
        res == duration_add(duration_since(*ends_at, *now), seconds(60)),
        res.wf(),
        ends_at.nanos < 1_000_000_000 && now.nanos < 1_000_000_000 ==> res.total_nanos() == (
        ends_at.secs - now.secs + 60) * 1_000_000_000 + ends_at.nanos - now.nanos,
{
    let d = signed_duration_since(ends_at, now);
    Duration { secs: d.secs + 60, nanos: d.nanos }
}

impl Duration {
    /// Whole seconds in the span, truncated toward zero.
    pub fn num_seconds(&self) -> (res: i64)
        ensures
            res == self.spec_num_seconds(),
    {
        if self.secs < 0 && self.nanos > 0 {
            self.secs + 1
        } else {
            self.secs
        }
    }

    /// The span as a non-negative `std::time::Duration`, given as whole seconds
    /// and nanoseconds; `None` when the span is negative.
    pub fn to_std_parts(&self) -> (res: Option<(u64, u32)>)
        requires
            self.wf(),
        ensures
            self.secs < 0 <==> res is None,
            res matches Some((s, n)) ==> s == self.secs && n == self.nanos,
    {
        if self.secs < 0 {
            None
        } else {
            Some((self.secs as u64, self.nanos as u32))
        }
    }
}

/// What chrono's `DateTime::parse_from_rfc3339` gives for a string: the
/// timestamp, the nanoseconds and the UTC offset in seconds of the parsed
/// instant, or `None` where it reports an error.
pub uninterp spec fn rfc3339_parse(s: Seq<char>) -> Option<(i64, u32, i32)>;

/// `rfc3339_parse` as a `Timestamp`.
pub open spec fn parsed_timestamp(s: Seq<char>) -> Option<Timestamp> {
    match rfc3339_parse(s) {
        Some((secs, nanos, offset_secs)) => Some(Timestamp { secs, nanos, offset_secs }),
        None => None,
    }
}

/// Parses an RFC 3339 date and time such as `2023-01-01T12:00:00+09:00`.
///
/// Calls chrono's `DateTime::parse_from_rfc3339` and reads the result's
/// `timestamp()`, `timestamp_subsec_nanos()` and `offset().local_minus_utc()`.
/// The contract names the result and adds what chrono's source shows of every
/// value it returns: the year has four digits, so the timestamp lies within
/// ten trillion seconds of the epoch; a `NaiveTime` keeps its fraction below
/// two billion nanoseconds; and a `FixedOffset` lies strictly within a day.
/// How the text is read is left unsaid.
#[verifier::external_body]
pub(crate) fn parse_from_rfc3339(s: &str) -> (res: Option<Timestamp>)
    ensures
        res is None <==> rfc3339_parse(s@) is None,
        res matches Some(t) ==> rfc3339_parse(s@) == Some((t.secs, t.nanos, t.offset_secs)),
        res matches Some(t) ==> t.wf(),
{
    match chrono::DateTime::parse_from_rfc3339(s) {
        Ok(dt) => Some(Timestamp {
            secs: dt.timestamp(),
            nanos: dt.timestamp_subsec_nanos(),
            offset_secs: dt.offset().local_minus_utc(),
        }),
        Err(_) => None,
    }
}

impl Timestamp {
    /// Whether the value lies in the range that `wf` describes.
    pub fn is_valid(&self) -> (res: bool)
        ensures
            res == self.wf(),
    {
        -10_000_000_000_000 <= self.secs && self.secs <= 10_000_000_000_000
            && self.nanos < 2_000_000_000 && -86_400 < self.offset_secs && self.offset_secs < 86_400
    }
}

/// Away from leap seconds, the bot's wait is negative, and so cannot be
/// slept, exactly when the rotation ended more than a minute before now.
pub proof fn lemma_delay_negative_iff_rotation_long_over(ends_at: Timestamp, now: Timestamp)
    requires
        ends_at.wf(),
        now.wf(),
        ends_at.nanos < 1_000_000_000,
        now.nanos < 1_000_000_000,
    ensures
        duration_add(duration_since(ends_at, now), seconds(60)).secs < 0 <==> ends_at.secs
            * 1_000_000_000 + ends_at.nanos + 60_000_000_000 < now.secs * 1_000_000_000
            + now.nanos,
{
    let d = duration_add(duration_since(ends_at, now), seconds(60));
    let frac: int = ends_at.nanos - now.nanos;
    assert(frac == (frac / 1_000_000_000) * 1_000_000_000 + frac % 1_000_000_000);
    assert(d.total_nanos() == (ends_at.secs - now.secs + 60) * 1_000_000_000 + ends_at.nanos
        - now.nanos);
}

} // verus!
