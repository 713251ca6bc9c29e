//! Text helpers for hours and minutes.
use chrono::Timelike;
use vstd::prelude::*;
use vstd::string::StringExecFns;

verus! {

/// The decimal digit `d` as a character.
pub open spec fn digit_char(d: nat) -> char
    recommends
        d < 10,
{
    seq!['0', '1', '2', '3', '4', '5', '6', '7', '8', '9'][d as int]
}

/// The decimal representation of `n`, without leading zeros.
pub open spec fn decimal(n: nat) -> Seq<char>
    decreases n,
{
    if n < 10 {
        seq![digit_char(n)]
    } else {
        decimal(n / 10).push(digit_char(n % 10))
    }
}

/// `n` in decimal, padded with a leading zero to at least two digits.
pub open spec fn two_digits(n: nat) -> Seq<char> {
    if n < 10 {
        seq!['0', digit_char(n)]
    } else {
        decimal(n)
    }
}

/// The text `HH:MM` for an hour and a minute.
pub open spec fn hm_text(hour: nat, minute: nat) -> Seq<char> {
    two_digits(hour) + seq![':'] + two_digits(minute)
}

/// A duration as a whole number of seconds; durations here are never negative.
#[derive(Clone, Copy, Debug, PartialEq, Eq)]
pub struct TimeSpan {
    pub seconds: u64,
}

impl TimeSpan {
    /// Whole hours in the span.
    pub open spec fn hours(self) -> nat {
        self.seconds as nat / 3600
    }

    /// Whole minutes in the span.
    pub open spec fn minutes(self) -> nat {
        self.seconds as nat / 60
    }

    pub fn num_hours(&self) -> (r: u64)
        ensures
            r == self.hours(),
    {
        self.seconds / 3600
    }

    pub fn num_minutes(&self) -> (r: u64)
        ensures
            r == self.minutes(),
    {
        self.seconds / 60
    }
}

/// The text of `duration`: whole hours (which may exceed 23) and the
/// minutes past them.
pub open spec fn duration_text(duration: TimeSpan) -> Seq<char> {
    two_digits(duration.hours()) + seq![':'] + two_digits(duration.minutes() % 60)
}

fn digit_str(d: u64) -> (r: &'static str)
    requires
        d < 10,
    ensures
        r@ == seq![digit_char(d as nat)],
{
    proof {
        reveal_strlit("0");
        reveal_strlit("1");
        reveal_strlit("2");
        reveal_strlit("3");
        reveal_strlit("4");
        reveal_strlit("5");
        reveal_strlit("6");
        reveal_strlit("7");
        reveal_strlit("8");
        reveal_strlit("9");
    }
    if d == 0 {
        "0"
    } else if d == 1 {
        "1"
    } else if d == 2 {
        "2"
    } else if d == 3 {
        "3"
    } else if d == 4 {
        "4"
    } else if d == 5 {
        "5"
    } else if d == 6 {
        "6"
    } else if d == 7 {
        "7"
    } else if d == 8 {
        "8"
    } else {
        "9"
    }
}

pub(crate) fn push_decimal(s: &mut String, n: u64)
    ensures
        final(s)@ == old(s)@ + decimal(n as nat),
    decreases n,
{
    if n >= 10 {
        push_decimal(s, n / 10);
    }
    s.append(digit_str(n % 10));
    proof {
        if n >= 10 {
            assert(old(s)@ + decimal(n as nat) =~= old(s)@ + decimal((n / 10) as nat) + seq![
                digit_char((n % 10) as nat),
            ]);
        } else {
            assert(n % 10 == n);
        }
    }
}

fn push_two_digits(s: &mut String, n: u64)
    ensures
        final(s)@ == old(s)@ + two_digits(n as nat),
{
    if n < 10 {
        s.append(digit_str(0));
        s.append(digit_str(n));
        assert(old(s)@ + two_digits(n as nat) =~= old(s)@ + seq![digit_char(0)] + seq![
            digit_char(n as nat),
        ]);
    } else {
        push_decimal(s, n);
    }
}

/// `n` in decimal with at least two digits (`7` gives `07`).
pub fn format_two_digits(n: u64) -> (r: String)
    ensures
        r@ == two_digits(n as nat),
{
    let mut s = String::new();
    push_two_digits(&mut s, n);
    assert(s@ =~= two_digits(n as nat));
    s
}

fn format_pair(first: u64, second: u64) -> (r: String)
    ensures
        r@ == two_digits(first as nat) + seq![':'] + two_digits(second as nat),
{
    let mut s = String::new();
    push_two_digits(&mut s, first);
    proof {
        reveal_strlit(":");
    }
    s.append(":");
    push_two_digits(&mut s, second);
    s
}

/// `HH:MM`, each part zero-padded to two digits.
pub fn format_hm(hour: u32, minute: u32) -> (r: String)
    ensures
        r@ == hm_text(hour as nat, minute as nat),
{
    format_pair(hour as u64, minute as u64)
}

/// `HH:MM` for a duration: its whole hours, then its whole minutes modulo 60.
pub fn format_duration(duration: &TimeSpan) -> (r: String)
    ensures
        r@ == duration_text(*duration),
{
    let hour = duration.num_hours();
    let minute = duration.num_minutes() % 60;
    format_pair(hour, minute)
}

/// Seconds in a day.
pub const SECS_PER_DAY: u64 = 86400;

/// A local wall-clock time of day.
#[derive(Clone, Copy, Debug, PartialEq, Eq)]
pub struct LocalTime {
    pub hour: u32,
    pub minute: u32,
    pub second: u32,
}

impl LocalTime {
    pub open spec fn wf(self) -> bool {
        self.hour < 24 && self.minute < 60 && self.second < 60
    }

    /// Seconds since midnight.
    pub open spec fn secs(self) -> nat {
        self.hour as nat * 3600 + self.minute as nat * 60 + self.second as nat
    }
}

#[verifier::external_type_specification]
#[verifier::external_body]
pub struct ExNaiveTime(chrono::NaiveTime);

/// Relies on chrono's `Timelike::hour` for `NaiveTime`: an hour from 0 to 23.
#[verifier::external_body]
fn naive_hour(t: &chrono::NaiveTime) -> (r: u32)
    ensures
        r < 24,
{
    t.hour()
}

/// Relies on chrono's `Timelike::minute` for `NaiveTime`: a minute from 0 to 59.
#[verifier::external_body]
fn naive_minute(t: &chrono::NaiveTime) -> (r: u32)
    ensures
        r < 60,
{
    t.minute()
}

/// Relies on chrono's `Timelike::second` for `NaiveTime`: a second from 0 to
/// 59, never 60, even within a leap second.
#[verifier::external_body]
fn naive_second(t: &chrono::NaiveTime) -> (r: u32)
    ensures
        r < 60,
{
    t.second()
}

impl LocalTime {
    /// The hour, minute and second of a chrono time of day; the fraction of a
    /// second is dropped.
    pub fn from_naive(t: &chrono::NaiveTime) -> (r: LocalTime)
        ensures
            r.wf(),
    {
        LocalTime { hour: naive_hour(t), minute: naive_minute(t), second: naive_second(t) }
    }
}

/// Seconds from `now` to the next time the clock reads `hour:minute` (with
/// the seconds of `now`): later today, or tomorrow if that time has passed.
pub open spec fn remaining_secs(hour: nat, minute: nat, now: LocalTime) -> nat {
    let target = hour * 3600 + minute * 60 + now.second;
    if target < now.secs() {
        (target + SECS_PER_DAY - now.secs()) as nat
    } else {
        (target - now.secs()) as nat
    }
}

/// The time until the clock next reads `hour:minute`, counted from `now`.
pub fn remaining_until(hour: u32, minute: u32, now: &LocalTime) -> (r: TimeSpan)
    requires
        hour < 24,
        minute < 60,
        now.wf(),
    ensures
        r.seconds == remaining_secs(hour as nat, minute as nat, *now),
{
    let target: u64 = hour as u64 * 3600 + minute as u64 * 60 + now.second as u64;
    let current: u64 = now.hour as u64 * 3600 + now.minute as u64 * 60 + now.second as u64;
    if target < current {
        TimeSpan { seconds: target + SECS_PER_DAY - current }
    } else {
        TimeSpan { seconds: target - current }
    }
}

/// Counting the remaining time on from `now` lands on a moment, less than a
/// day later, whose clock reads `hour:minute`.
pub proof fn lemma_next_occurrence(hour: nat, minute: nat, now: LocalTime)
    requires
        hour < 24,
        minute < 60,
        now.wf(),
    ensures
        remaining_secs(hour, minute, now) < SECS_PER_DAY,
        ((now.secs() + remaining_secs(hour, minute, now)) % 86400) / 3600 == hour,
        ((now.secs() + remaining_secs(hour, minute, now)) % 86400) / 60 % 60 == minute,
{
    let t = now.secs() + remaining_secs(hour, minute, now);
    let target = hour * 3600 + minute * 60 + now.second;
    assert(target < 86400);
    if target < now.secs() {
        assert(t == target + 86400);
        assert(t % 86400 == target);
    } else {
        assert(t == target);
        assert(t % 86400 == target);
    }
    assert(target / 3600 == hour) by (nonlinear_arith)
        requires
            target == hour * 3600 + minute * 60 + now.second,
            minute < 60,
            now.second < 60,
    ;
    assert(target / 60 == hour * 60 + minute) by (nonlinear_arith)
        requires
            target == hour * 3600 + minute * 60 + now.second,
            now.second < 60,
    ;
    assert((hour * 60 + minute) % 60 == minute) by (nonlinear_arith)
        requires
            minute < 60,
    ;
}

/// For a valid hour and minute the text is exactly five characters: two
/// digits, a colon, two digits.
pub proof fn lemma_hm_text_fixed_width(hour: nat, minute: nat)
    requires
        hour < 24,
        minute < 60,
    ensures
        hm_text(hour, minute) == seq![
            digit_char(hour / 10),
            digit_char(hour % 10),
            ':',
            digit_char(minute / 10),
            digit_char(minute % 10),
        ],
{
    lemma_two_digits_small(hour);
    lemma_two_digits_small(minute);
    assert(hm_text(hour, minute) =~= seq![
        digit_char(hour / 10),
        digit_char(hour % 10),
        ':',
        digit_char(minute / 10),
        digit_char(minute % 10),
    ]);
}

proof fn lemma_two_digits_small(n: nat)
    requires
        n < 100,
    ensures
        two_digits(n) == seq![digit_char(n / 10), digit_char(n % 10)],
{
    if n >= 10 {
        assert(n / 10 < 10);
        assert(decimal(n / 10) == seq![digit_char(n / 10)]);
        assert(two_digits(n) =~= seq![digit_char(n / 10), digit_char(n % 10)]);
    }
}

} // verus!
