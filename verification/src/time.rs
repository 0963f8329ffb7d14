//! Points in time and intervals as the directory counts them: in seconds
//! or in ticks of 100 nanoseconds, from the start of the year 1601.

use crate::text::{all_digits, digits_value, parse_digits};
use vstd::prelude::*;
use vstd::string::StringSliceAdditionalSpecFns;

verus! {

/// The number of the day `year`-`month`-`day` of the proleptic Gregorian
/// calendar, counted from day 1, the first of January of the year 1, as
/// `chrono` counts it; none where the calendar has no such day.
pub uninterp spec fn calendar_day(year: int, month: int, day: int) -> Option<int>;

/// `chrono::NaiveDate::from_ymd_opt`, and `chrono::Datelike::num_days_from_ce`
/// of the date that it gives: the result is a function of the year, the
/// month and the day alone.
#[verifier::external_body]
fn days_from_ce(year: i32, month: u32, day: u32) -> (r: Option<i32>)
    ensures
        r matches Some(n) ==> calendar_day(year as int, month as int, day as int) == Some(n as int),
        r is None ==> calendar_day(year as int, month as int, day as int) is None,
{
    match chrono::NaiveDate::from_ymd_opt(year, month, day) {
        Some(date) => Some(chrono::Datelike::num_days_from_ce(&date)),
        None => None,
    }
}

/// The ticks of 100 nanoseconds in a second.
pub const TICKS_PER_SECOND: i64 = 10_000_000;

/// The seconds from the start of 1601 to the start of 1970.
pub const SECONDS_TO_1970: i64 = 11_644_473_600;

/// A point in time in UTC: whole seconds since 1601-01-01T00:00:00Z, which
/// may be negative, and the nanoseconds of the second that has begun.
#[derive(Clone, Copy, Debug, PartialEq, Eq, Structural, Hash, PartialOrd, Ord)]
pub struct Timestamp {
    pub seconds: i64,
    pub nanoseconds: u32,
}

impl Timestamp {
    /// The nanoseconds are less than a second.
    pub open spec fn well_formed(self) -> bool {
        self.nanoseconds < 1_000_000_000
    }

    /// The nanoseconds that lie between the start of 1601 and the point in
    /// time.
    pub open spec fn nanos_since_1601(self) -> int {
        self.seconds * 1_000_000_000 + self.nanoseconds
    }

    /// The point in time that lies `ticks` ticks of 100 nanoseconds after
    /// the start of 1601.
    pub open spec fn of_ticks(ticks: int) -> Timestamp {
        Timestamp {
            seconds: (ticks / 10_000_000) as i64,
            nanoseconds: ((ticks % 10_000_000) * 100) as u32,
        }
    }

    /// The point in time that lies `seconds` seconds after the start of
    /// 1601.
    pub open spec fn of_seconds(seconds: int) -> Timestamp {
        Timestamp { seconds: seconds as i64, nanoseconds: 0 }
    }

    /// The seconds since the start of 1970, where 64 bits hold them.
    pub fn timestamp(&self) -> (r: Option<i64>)
        ensures
            r is Some <==> self.seconds - SECONDS_TO_1970 >= i64::MIN,
            r matches Some(t) ==> t == self.seconds - SECONDS_TO_1970,
    {
        if self.seconds < i64::MIN + SECONDS_TO_1970 {
            None
        } else {
            Some(self.seconds - SECONDS_TO_1970)
        }
    }
}

/// The point in time that lies `seconds` seconds after the start of 1601.
pub fn utc_seconds_relative_to_1601(seconds: i64) -> (r: Timestamp)
    ensures
        r == Timestamp::of_seconds(seconds as int),
        r.well_formed(),
{
    Timestamp { seconds, nanoseconds: 0 }
}

/// The point in time that lies `ticks` ticks of 100 nanoseconds after the
/// start of 1601.
pub fn utc_ticks_relative_to_1601(ticks: i64) -> (r: Timestamp)
    ensures
        r == Timestamp::of_ticks(ticks as int),
        r.nanos_since_1601() == ticks * 100,
        r.well_formed(),
{
    if ticks >= 0 {
        let seconds: i64 = ticks / TICKS_PER_SECOND;
        let rest: i64 = ticks % TICKS_PER_SECOND;
        Timestamp { seconds, nanoseconds: (rest * 100) as u32 }
    } else {
        // ticks == -(below + 1)
        let below: i64 = -(ticks + 1);
        let whole: i64 = below / TICKS_PER_SECOND;
        let rest: i64 = below % TICKS_PER_SECOND;
        let seconds: i64 = -whole - 1;
        let tick_of_second: i64 = TICKS_PER_SECOND - 1 - rest;
        assert(ticks == seconds * 10_000_000 + tick_of_second);
        assert(seconds == ticks as int / 10_000_000 && tick_of_second == ticks as int % 10_000_000)
            by (nonlinear_arith)
            requires
                ticks == seconds * 10_000_000 + tick_of_second,
                0 <= tick_of_second < 10_000_000,
        ;
        Timestamp { seconds, nanoseconds: (tick_of_second * 100) as u32 }
    }
}

/// An interval of time in days, hours, minutes and seconds. The parts of
/// an interval below zero are all at most zero.
#[derive(Clone, Copy, Debug, PartialEq, Eq, Structural, Hash, PartialOrd, Ord)]
pub struct Interval {
    pub days: i64,
    pub hours: i64,
    pub minutes: i64,
    pub seconds: i64,
}

impl Interval {
    /// The whole seconds of the interval.
    pub open spec fn total_seconds(self) -> int {
        ((self.days * 24 + self.hours) * 60 + self.minutes) * 60 + self.seconds
    }

    /// The interval of `whole` seconds, or of as many seconds below zero
    /// where `negative` holds.
    pub open spec fn of(whole: int, negative: bool) -> Interval {
        if negative {
            Interval {
                days: (-(whole / 86_400)) as i64,
                hours: (-((whole / 3_600) % 24)) as i64,
                minutes: (-((whole / 60) % 60)) as i64,
                seconds: (-(whole % 60)) as i64,
            }
        } else {
            Interval {
                days: (whole / 86_400) as i64,
                hours: ((whole / 3_600) % 24) as i64,
                minutes: ((whole / 60) % 60) as i64,
                seconds: (whole % 60) as i64,
            }
        }
    }
}

/// The interval that a count of ticks below zero stands for, in whole
/// seconds; `None` where the count is the least 64-bit number, which
/// stands for "never". A count above zero gives an interval below zero.
pub fn negative_interval_to_duration(raw: i64) -> (r: Option<Interval>)
    ensures
        r is None <==> raw == i64::MIN,
        raw != i64::MIN && raw <= 0 ==> r == Some(Interval::of((-raw) / 10_000_000, false)),
        raw > 0 ==> r == Some(Interval::of(raw as int / 10_000_000, true)),
{
    if raw == i64::MIN {
        return None;
    }
    let negative: bool = raw > 0;
    let magnitude: i64 = if negative {
        raw
    } else {
        -raw
    };
    let whole: i64 = magnitude / TICKS_PER_SECOND;
    let seconds: i64 = whole % 60;
    let minutes: i64 = (whole / 60) % 60;
    let hours: i64 = (whole / 3_600) % 24;
    let days: i64 = whole / 86_400;
    if negative {
        Some(Interval { days: -days, hours: -hours, minutes: -minutes, seconds: -seconds })
    } else {
        Some(Interval { days, hours, minutes, seconds })
    }
}

/// The parts of an interval add up to its whole seconds.
pub proof fn lemma_interval_total(whole: int, negative: bool)
    requires
        0 <= whole <= i64::MAX,
    ensures
        Interval::of(whole, negative).total_seconds() == if negative {
            -whole
        } else {
            whole
        },
{
    let d = whole / 86_400;
    let h = (whole / 3_600) % 24;
    let m = (whole / 60) % 60;
    let s = whole % 60;
    assert(whole / 3_600 == (whole / 60) / 60 && whole / 86_400 == (whole / 3_600) / 24)
        by (nonlinear_arith)
        requires
            whole >= 0,
    ;
    assert(((d * 24 + h) * 60 + m) * 60 + s == whole);
}

/// The ticks between the start of the day 1601-01-01 and the point in
/// time that lies `days` days, `hour` hours, `minute` minutes, `second`
/// seconds and `nanos` nanoseconds after it, where these are a time of
/// day. A part of a tick is left out, so that the count lies no further
/// from zero than the time.
pub open spec fn ticks_between(days: int, hour: int, minute: int, second: int, nanos: int) -> Option<
    int,
> {
    let seconds = days * 86_400 + hour * 3_600 + minute * 60 + second;
    let below = seconds * 10_000_000 + nanos / 100;
    let ticks = if seconds < 0 && nanos % 100 != 0 {
        below + 1
    } else {
        below
    };
    if hour < 24 && minute < 60 && second < 60 && nanos < 1_000_000_000 && i64::MIN <= ticks
        <= i64::MAX {
        Some(ticks)
    } else {
        None
    }
}

/// Counts the ticks between the start of 1601 and a time of day on a day
/// that lies `days` days after it; none where the time is no time of day
/// or the count does not fit 64 bits.
pub fn ticks_since_1601(days: i64, hour: u32, minute: u32, second: u32, nanos: u32) -> (r: Option<
    i64,
>)
    ensures
        r matches Some(t) ==> ticks_between(
            days as int,
            hour as int,
            minute as int,
            second as int,
            nanos as int,
        ) == Some(t as int),
        r is None ==> ticks_between(
            days as int,
            hour as int,
            minute as int,
            second as int,
            nanos as int,
        ) is None,
{
    if hour >= 24 || minute >= 60 || second >= 60 || nanos >= 1_000_000_000 {
        return None;
    }
    let seconds: i128 = (days as i128) * 86_400 + (hour as i128) * 3_600 + (minute as i128) * 60
        + (second as i128);
    let below: i128 = seconds * 10_000_000 + (nanos / 100) as i128;
    let ticks: i128 = if seconds < 0 && nanos % 100 != 0 {
        below + 1
    } else {
        below
    };
    if ticks < i64::MIN as i128 || ticks > i64::MAX as i128 {
        None
    } else {
        Some(ticks as i64)
    }
}

/// Ten to the power of `e`.
pub open spec fn pow10(e: nat) -> nat
    decreases e,
{
    if e == 0 {
        1
    } else {
        10 * pow10((e - 1) as nat)
    }
}

/// A run of digits writes a number below ten to the power of its length.
pub proof fn lemma_digits_value_bound(d: Seq<u8>)
    requires
        all_digits(d),
    ensures
        0 <= digits_value(d) < pow10(d.len()),
    decreases d.len(),
{
    if d.len() > 0 {
        lemma_digits_value_bound(d.drop_last());
    }
}

/// `t` is a point in time as the directory writes it:
/// `YYYYMMDDhhmmss.f…Z`, with one digit of the fraction at least.
pub open spec fn time_text_ok(t: Seq<u8>) -> bool {
    &&& t.len() >= 17
    &&& all_digits(t.subrange(0, 4))
    &&& all_digits(t.subrange(4, 6))
    &&& all_digits(t.subrange(6, 8))
    &&& all_digits(t.subrange(8, 10))
    &&& all_digits(t.subrange(10, 12))
    &&& all_digits(t.subrange(12, 14))
    &&& t[14] == 0x2E
    &&& all_digits(t.subrange(15, t.len() - 1))
    &&& t[t.len() - 1] == 0x5A
}

/// The number that the digits `t[from..to]` write.
pub open spec fn time_field(t: Seq<u8>, from: int, to: int) -> int {
    digits_value(t.subrange(from, to))
}

/// The nanoseconds that the fraction of `t` writes: its first nine
/// digits, with zeros after them where it has fewer.
pub open spec fn fraction_nanos(t: Seq<u8>) -> int {
    let fraction = t.subrange(15, t.len() - 1);
    if fraction.len() >= 9 {
        digits_value(fraction.take(9))
    } else {
        digits_value(fraction) * pow10((9 - fraction.len()) as nat)
    }
}

/// The ticks since the start of 1601 that the text `t` stands for.
pub open spec fn time_text_ticks(t: Seq<u8>) -> Option<int> {
    if !time_text_ok(t) {
        None
    } else {
        match (
            calendar_day(time_field(t, 0, 4), time_field(t, 4, 6), time_field(t, 6, 8)),
            calendar_day(1601, 1, 1),
        ) {
            (Some(day), Some(first)) => ticks_between(
                day - first,
                time_field(t, 8, 10),
                time_field(t, 10, 12),
                time_field(t, 12, 14),
                fraction_nanos(t),
            ),
            _ => None,
        }
    }
}

fn digits_only(t: &[u8], from: usize, to: usize) -> (r: bool)
    requires
        from <= to <= t.len(),
    ensures
        r == all_digits(t@.subrange(from as int, to as int)),
{
    let ghost part = t@.subrange(from as int, to as int);
    let mut i: usize = from;
    while i < to
        invariant
            part == t@.subrange(from as int, to as int),
            from <= i <= to <= t.len(),
            forall|j: int| 0 <= j < i - from ==> 0x30 <= #[trigger] part[j] <= 0x39,
        decreases to - i,
    {
        if t[i] < 0x30 || t[i] > 0x39 {
            assert(part[i - from] == t@[i as int]);
            return false;
        }
        i += 1;
    }
    true
}

fn scale_nanos(value: u32, digits: usize) -> (r: u32)
    requires
        digits <= 9,
        value < pow10(digits as nat),
    ensures
        r == value * pow10((9 - digits) as nat),
        r < 1_000_000_000,
{
    let mut nanos: u32 = value;
    let mut have: usize = digits;
    assert(pow10(9) == 1_000_000_000) by {
        reveal_with_fuel(pow10, 10);
    }
    assert(pow10((have - digits) as nat) == 1);
    assert(value * pow10((have - digits) as nat) == value) by (nonlinear_arith)
        requires
            pow10((have - digits) as nat) == 1,
    ;
    while have < 9
        invariant
            digits <= have <= 9,
            nanos == value * pow10((have - digits) as nat),
            nanos < pow10(have as nat),
            pow10(9) == 1_000_000_000,
        decreases 9 - have,
    {
        proof {
            lemma_pow10_monotonic((have + 1) as nat, 9);
            assert(pow10((have + 1 - digits) as nat) == 10 * pow10((have - digits) as nat));
            assert(value * pow10((have + 1 - digits) as nat) == 10 * (value * pow10(
                (have - digits) as nat,
            ))) by (nonlinear_arith)
                requires
                    pow10((have + 1 - digits) as nat) == 10 * pow10((have - digits) as nat),
            ;
        }
        nanos = nanos * 10;
        have += 1;
    }
    nanos
}

fn read_field(t: &[u8], from: usize, to: usize) -> (r: Option<u32>)
    requires
        from < to <= t.len(),
        to - from <= 9,
    ensures
        r is Some <==> all_digits(t@.subrange(from as int, to as int)),
        r matches Some(v) ==> v == time_field(t@, from as int, to as int) && v < pow10(
            (to - from) as nat,
        ),
{
    let part: &[u8] = &t[from..to];
    proof {
        assert(part@.skip(0) =~= part@);
        if all_digits(part@) {
            lemma_digits_value_bound(part@);
            assert(pow10(9) == 1_000_000_000) by {
                reveal_with_fuel(pow10, 10);
            }
            lemma_pow10_monotonic(part@.len(), 9);
        }
    }
    match parse_digits(part, 0) {
        Some(v) => Some(v as u32),
        None => None,
    }
}

/// Ten to a power is at most ten to a greater power.
pub proof fn lemma_pow10_monotonic(a: nat, b: nat)
    requires
        a <= b,
    ensures
        pow10(a) <= pow10(b),
    decreases b - a,
{
    if a < b {
        lemma_pow10_monotonic(a, (b - 1) as nat);
    }
}

/// Reads a point in time as the directory writes it,
/// `YYYYMMDDhhmmss.f…Z`, and counts the ticks between the start of 1601
/// and it. There is no count for a text of another form, nor for a date
/// that the calendar does not have or a time that the day does not have.
pub fn ad_time_to_ticks_relative_to_1601(time_str: &str) -> (r: Option<i64>)
    ensures
        r matches Some(t) ==> time_text_ticks(time_str.spec_bytes()) == Some(t as int),
        r is None ==> time_text_ticks(time_str.spec_bytes()) is None,
{
    let t: &[u8] = time_str.as_bytes();
    if t.len() < 17 || t[14] != 0x2E || t[t.len() - 1] != 0x5A {
        return None;
    }
    let year: u32 = match read_field(t, 0, 4) {
        Some(v) => v,
        None => {
            return None;
        },
    };
    let month: u32 = match read_field(t, 4, 6) {
        Some(v) => v,
        None => {
            return None;
        },
    };
    let day: u32 = match read_field(t, 6, 8) {
        Some(v) => v,
        None => {
            return None;
        },
    };
    let hour: u32 = match read_field(t, 8, 10) {
        Some(v) => v,
        None => {
            return None;
        },
    };
    let minute: u32 = match read_field(t, 10, 12) {
        Some(v) => v,
        None => {
            return None;
        },
    };
    let second: u32 = match read_field(t, 12, 14) {
        Some(v) => v,
        None => {
            return None;
        },
    };
    let fraction_end: usize = t.len() - 1;
    let ghost fraction = t@.subrange(15, fraction_end as int);
    if !digits_only(t, 15, fraction_end) {
        return None;
    }
    let taken: usize = if fraction_end - 15 >= 9 {
        9
    } else {
        fraction_end - 15
    };
    proof {
        assert(t@.subrange(15, 15 + taken) =~= fraction.take(taken as int));
        assert forall|j: int| 0 <= j < taken implies 0x30 <= #[trigger] fraction.take(
            taken as int,
        )[j] <= 0x39 by {
            assert(fraction.take(taken as int)[j] == fraction[j]);
        }
        if taken < 9 {
            assert(fraction.take(taken as int) =~= fraction);
        }
    }
    let first_digits: u32 = match read_field(t, 15, 15 + taken) {
        Some(v) => v,
        None => {
            return None;
        },
    };
    let nanos: u32 = scale_nanos(first_digits, taken);
    proof {
        assert(pow10(4) == 10_000) by {
            reveal_with_fuel(pow10, 5);
        }
        assert(pow10(0) == 1);
        assert(nanos == fraction_nanos(t@)) by {
            if taken == 9 {
                assert(first_digits * pow10(0) == first_digits) by (nonlinear_arith)
                    requires
                        pow10(0) == 1,
                ;
            }
        }
    }
    let number: i32 = match days_from_ce(year as i32, month, day) {
        Some(n) => n,
        None => {
            return None;
        },
    };
    let first: i32 = match days_from_ce(1601, 1, 1) {
        Some(n) => n,
        None => {
            return None;
        },
    };
    ticks_since_1601(number as i64 - first as i64, hour, minute, second, nanos)
}

} // verus!
