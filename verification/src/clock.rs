use chrono::Timelike;
use vstd::prelude::*;

use crate::models::{Timestamp, MAX_UNIX_SECONDS, MIN_UNIX_SECONDS, NANOS_PER_SECOND, SECONDS_PER_DAY};
use crate::text::{append_decimal_pad2, append_decimal_u64, append_decimal_i64, decimal, decimal_digits, decimal_pad2, push_char};

verus! {

/// Integer division rounding toward zero, as Rust's `/` on signed integers does.
pub open spec fn div_toward_zero(a: int, b: int) -> int
    recommends
        b > 0,
{
    if a >= 0 { a / b } else { -((-a) / b) }
}

/// The remainder that goes with [`div_toward_zero`]: it has the sign of `a`, as Rust's `%` does.
pub open spec fn rem_toward_zero(a: int, b: int) -> int
    recommends
        b > 0,
{
    a - b * div_toward_zero(a, b)
}

/// The text of a stopwatch reading of `t` seconds: `H:MM:SS` from one hour on, `MM:SS` below.
pub open spec fn duration_text(t: nat) -> Seq<char> {
    let h = t / 3600;
    let m = (t % 3600) / 60;
    let s = t % 60;
    if h > 0 {
        decimal_digits(h) + seq![':'] + decimal_pad2(m as int) + seq![':'] + decimal_pad2(s as int)
    } else {
        decimal_pad2(m as int) + seq![':'] + decimal_pad2(s as int)
    }
}

/// The text of a signed span of `t` whole seconds, taking hours, minutes and
/// seconds the way a time delta counts them (each rounded toward zero).
pub open spec fn signed_duration_text(t: int) -> Seq<char> {
    let h = div_toward_zero(t, 3600);
    let m = rem_toward_zero(div_toward_zero(t, 60), 60);
    let s = rem_toward_zero(t, 60);
    if h > 0 {
        decimal(h) + seq![':'] + decimal_pad2(m) + seq![':'] + decimal_pad2(s)
    } else {
        decimal_pad2(m) + seq![':'] + decimal_pad2(s)
    }
}

/// Formats a stopwatch reading given in whole seconds.
pub fn format_duration(total_seconds: u64) -> (s: String)
    ensures
        s@ == duration_text(total_seconds as nat),
{
    let hours = total_seconds / 3600;
    let minutes = (total_seconds % 3600) / 60;
    let seconds = total_seconds % 60;
    let mut s = String::new();
    if hours > 0 {
        append_decimal_u64(&mut s, hours);
        push_char(&mut s, ':');
    }
    append_decimal_pad2(&mut s, minutes as i64);
    push_char(&mut s, ':');
    append_decimal_pad2(&mut s, seconds as i64);
    assert(s@ =~= duration_text(total_seconds as nat));
    s
}

/// Formats a signed span of whole seconds (such as the time since a running
/// entry started, which is negative when the clock is behind its start).
pub fn format_signed_duration(total_seconds: i64) -> (s: String)
    requires
        total_seconds > i64::MIN,
    ensures
        s@ == signed_duration_text(total_seconds as int),
{
    let negative = total_seconds < 0;
    let magnitude: u64 = if negative { (-total_seconds) as u64 } else { total_seconds as u64 };
    let whole_hours = magnitude / 3600;
    let minutes_part = (magnitude / 60) % 60;
    let seconds_part = magnitude % 60;
    let hours: i64 = if negative { -(whole_hours as i64) } else { whole_hours as i64 };
    let minutes: i64 = if negative { -(minutes_part as i64) } else { minutes_part as i64 };
    let seconds: i64 = if negative { -(seconds_part as i64) } else { seconds_part as i64 };
    proof {
        let t = total_seconds as int;
        assert(hours == div_toward_zero(t, 3600));
        assert(div_toward_zero(t, 60) == if negative { -((magnitude / 60) as int) } else { (magnitude / 60) as int });
        assert(minutes == rem_toward_zero(div_toward_zero(t, 60), 60));
        assert(seconds == rem_toward_zero(t, 60));
    }
    let mut s = String::new();
    if hours > 0 {
        append_decimal_i64(&mut s, hours);
        push_char(&mut s, ':');
    }
    append_decimal_pad2(&mut s, minutes);
    push_char(&mut s, ':');
    append_decimal_pad2(&mut s, seconds);
    assert(s@ =~= signed_duration_text(total_seconds as int));
    s
}

/// Seconds since midnight (UTC) of a timestamp.
pub open spec fn seconds_of_day(t: Timestamp) -> int {
    t.unix_seconds() % (SECONDS_PER_DAY as int)
}

/// The hour and minute, as `%H:%M` writes them in UTC, of the instant
/// `secs` seconds after the epoch.
pub open spec fn clock_text_at(secs: int) -> Seq<char> {
    let sod = secs % (SECONDS_PER_DAY as int);
    decimal_pad2(sod / 3600) + seq![':'] + decimal_pad2((sod % 3600) / 60)
}

/// The hour and minute of a timestamp, as `%H:%M` writes them in UTC.
pub open spec fn clock_text(t: Timestamp) -> Seq<char> {
    clock_text_at(t.unix_seconds())
}

/// The seconds since the epoch of `hour:minute:00` on the UTC day of `t`.
pub open spec fn at_clock_time(t: Timestamp, hour: int, minute: int) -> int {
    t.unix_seconds() - seconds_of_day(t) + hour * 3600 + minute * 60
}

/// The nanoseconds since the epoch of a timestamp.
pub open spec fn epoch_nanos(t: Timestamp) -> int {
    t.unix_seconds() * (NANOS_PER_SECOND as int) + t.subsec_nanos()
}

/// The whole seconds from `start` to `now`, rounded toward zero, as a time delta counts them.
pub open spec fn elapsed_whole_seconds(now: Timestamp, start: Timestamp) -> int {
    div_toward_zero(epoch_nanos(now) - epoch_nanos(start), NANOS_PER_SECOND as int)
}

proof fn lemma_shift_by_days(secs: int)
    ensures
        (secs - MIN_UNIX_SECONDS) % (SECONDS_PER_DAY as int) == secs % (SECONDS_PER_DAY as int),
{
    assert(MIN_UNIX_SECONDS == -96_465_292 * SECONDS_PER_DAY);
    vstd::arithmetic::div_mod::lemma_mod_multiples_vanish(96_465_292, secs, SECONDS_PER_DAY as int);
}

/// Seconds since midnight (UTC) of a timestamp.
pub fn second_of_day(t: &Timestamp) -> (sod: u64)
    ensures
        sod == seconds_of_day(*t),
        sod < SECONDS_PER_DAY,
{
    let secs = t.secs();
    let shifted: u64 = (secs - MIN_UNIX_SECONDS) as u64;
    proof {
        lemma_shift_by_days(secs as int);
    }
    shifted % (SECONDS_PER_DAY as u64)
}

/// The hour and minute of a timestamp in UTC, as `format("%H:%M")` writes them.
pub fn format_clock_time(t: &Timestamp) -> (s: String)
    ensures
        s@ == clock_text(*t),
{
    let sod = second_of_day(t);
    let mut s = String::new();
    append_decimal_pad2(&mut s, (sod / 3600) as i64);
    push_char(&mut s, ':');
    append_decimal_pad2(&mut s, ((sod % 3600) / 60) as i64);
    assert(s@ =~= clock_text(*t));
    s
}

/// The same UTC day as `t` at `hour:minute:00`, as `with_time` gives it for a UTC date-time.
pub fn with_clock_time(t: &Timestamp, hour: u32, minute: u32) -> (r: Timestamp)
    requires
        hour < 24,
        minute < 60,
    ensures
        r.unix_seconds() == at_clock_time(*t, hour as int, minute as int),
        r.subsec_nanos() == 0,
{
    let secs = t.secs();
    let sod = second_of_day(t);
    let midnight: i64 = secs - sod as i64;
    proof {
        assert(midnight as int == (t.unix_seconds() / (SECONDS_PER_DAY as int)) * (SECONDS_PER_DAY as int));
        assert(MIN_UNIX_SECONDS <= midnight);
        assert(midnight <= MAX_UNIX_SECONDS - (SECONDS_PER_DAY - 1)) by {
            assert(MAX_UNIX_SECONDS == 95_026_237 * SECONDS_PER_DAY - 1);
        }
    }
    let new_secs: i64 = midnight + (hour as i64) * 3600 + (minute as i64) * 60;
    let r = Timestamp::new(new_secs, 0);
    r.unwrap()
}

/// The whole seconds from `start` to `now`, rounded toward zero
/// (`now.signed_duration_since(start).num_seconds()`).
pub fn elapsed_seconds(now: &Timestamp, start: &Timestamp) -> (d: i64)
    ensures
        d == elapsed_whole_seconds(*now, *start),
        d > i64::MIN,
{
    let ds: i64 = now.secs() - start.secs();
    let dn: i64 = now.nanos() as i64 - start.nanos() as i64;
    let d = if ds > 0 && dn < 0 {
        ds - 1
    } else if ds < 0 && dn > 0 {
        ds + 1
    } else {
        ds
    };
    proof {
        let total = epoch_nanos(*now) - epoch_nanos(*start);
        let ns = NANOS_PER_SECOND as int;
        assert(total == ds * ns + dn);
        if total >= 0 {
            assert(total / ns == d) by {
                vstd::arithmetic::div_mod::lemma_fundamental_div_mod_converse(total, ns, d as int, total - d * ns);
            }
        } else {
            assert((-total) / ns == -d) by {
                vstd::arithmetic::div_mod::lemma_fundamental_div_mod_converse(-total, ns, -d as int, -total + d * ns);
            }
        }
    }
    d
}

/// The hour and minute chrono reads from `text` with the format `%H:%M`, if it reads a time.
pub uninterp spec fn parsed_clock_time(text: Seq<char>) -> Option<(u32, u32)>;

/// `NaiveTime::parse_from_str(text, "%H:%M")` (chrono), giving the hour and
/// minute of the time read. chrono's documentation gives the hour in 0..=23
/// and the minute in 0..=59; which texts it accepts is left to the name.
#[verifier::external_body]
pub(crate) fn parse_clock_time(text: &str) -> (r: Option<(u32, u32)>)
    ensures
        r == parsed_clock_time(text@),
        r matches Some((h, m)) ==> h < 24 && m < 60,
{
    match chrono::NaiveTime::parse_from_str(text, "%H:%M") {
        Ok(t) => Some((t.hour(), t.minute())),
        Err(_) => None,
    }
}

/// A reading of the system clock (std).
#[verifier::external_type_specification]
#[verifier::external_body]
pub struct ExSystemTime(std::time::SystemTime);

/// Why a clock reading lies before another (std).
#[verifier::external_type_specification]
#[verifier::external_body]
pub struct ExSystemTimeError(std::time::SystemTimeError);

/// `SystemTime::now()` (std). The reading depends on the system clock:
/// nothing is stated of it.
#[verifier::external_body]
fn system_time_now() -> (t: std::time::SystemTime) {
    std::time::SystemTime::now()
}

/// `t.duration_since(UNIX_EPOCH)` (std): the span from the epoch to `t`,
/// or an error when `t` lies before the epoch. Which one comes back depends
/// on the reading: nothing is stated of it.
#[verifier::external_body]
fn duration_since_epoch(t: &std::time::SystemTime) -> (r: Result<std::time::Duration, std::time::SystemTimeError>) {
    t.duration_since(std::time::UNIX_EPOCH)
}

/// `SystemTimeError::duration` (std): how far the reading lies before the
/// epoch. Nothing is stated of the span.
#[verifier::external_body]
fn time_error_duration(e: &std::time::SystemTimeError) -> (d: std::time::Duration) {
    e.duration()
}

/// `Duration::as_secs` (std): the whole seconds of a span. The span is
/// opaque here: nothing is stated of the number.
#[verifier::external_body]
fn duration_secs(d: &std::time::Duration) -> (s: u64) {
    d.as_secs()
}

/// `Duration::subsec_nanos` (std): the nanoseconds past the whole seconds
/// of a span, which std documents to be below one second.
#[verifier::external_body]
fn duration_subsec_nanos(d: &std::time::Duration) -> (n: u32)
    ensures
        n < NANOS_PER_SECOND,
{
    d.subsec_nanos()
}

/// The nanoseconds since the epoch of a clock reading that lies `secs`
/// seconds and `nanos` nanoseconds after the epoch, or before it when
/// `before_epoch`.
pub open spec fn clock_offset_nanos(before_epoch: bool, secs: u64, nanos: u32) -> int {
    let magnitude = secs as int * (NANOS_PER_SECOND as int) + nanos as int;
    if before_epoch { -magnitude } else { magnitude }
}

/// Whether a number of nanoseconds since the epoch lies within the range a [`Timestamp`] holds.
pub open spec fn nanos_in_range(n: int) -> bool {
    MIN_UNIX_SECONDS as int * (NANOS_PER_SECOND as int) <= n
        && n < (MAX_UNIX_SECONDS as int + 1) * (NANOS_PER_SECOND as int)
}

/// The timestamp of a clock reading `secs` seconds and `nanos` nanoseconds
/// after the epoch (before it when `before_epoch`); `None` when the reading
/// lies outside the range a [`Timestamp`] holds.
pub fn timestamp_from_clock_offset(before_epoch: bool, secs: u64, nanos: u32) -> (r: Option<Timestamp>)
    requires
        nanos < NANOS_PER_SECOND,
    ensures
        r is Some <==> nanos_in_range(clock_offset_nanos(before_epoch, secs, nanos)),
        r matches Some(t) ==> epoch_nanos(t) == clock_offset_nanos(before_epoch, secs, nanos),
        r matches Some(t) ==> Timestamp::valid_parts(t.unix_seconds(), t.subsec_nanos()),
{
    let ghost ns = NANOS_PER_SECOND as int;
    let ghost total = clock_offset_nanos(before_epoch, secs, nanos);
    if !before_epoch {
        if secs <= MAX_UNIX_SECONDS as u64 {
            proof {
                assert(secs as int * ns <= MAX_UNIX_SECONDS as int * ns) by (nonlinear_arith)
                    requires secs as int <= MAX_UNIX_SECONDS as int, ns > 0;
            }
            Timestamp::new(secs as i64, nanos)
        } else {
            proof {
                assert(secs as int * ns >= (MAX_UNIX_SECONDS as int + 1) * ns) by (nonlinear_arith)
                    requires secs as int >= MAX_UNIX_SECONDS as int + 1, ns > 0;
            }
            None
        }
    } else if nanos == 0 {
        if secs <= 8_334_601_228_800u64 {
            proof {
                assert(secs as int * ns <= 8_334_601_228_800int * ns) by (nonlinear_arith)
                    requires secs as int <= 8_334_601_228_800int, ns > 0;
            }
            Timestamp::new(-(secs as i64), 0)
        } else {
            proof {
                assert(secs as int * ns > 8_334_601_228_800int * ns) by (nonlinear_arith)
                    requires secs as int > 8_334_601_228_800int, ns > 0;
            }
            None
        }
    } else {
        if secs < 8_334_601_228_800u64 {
            proof {
                assert(secs as int * ns + nanos as int <= 8_334_601_228_800int * ns) by (nonlinear_arith)
                    requires secs as int <= 8_334_601_228_799int, ns == 1_000_000_000int, nanos < 1_000_000_000;
                assert((-(secs as int) - 1) * ns + (ns - nanos as int) == total);
            }
            Timestamp::new(-(secs as i64) - 1, NANOS_PER_SECOND - nanos)
        } else {
            proof {
                assert(secs as int * ns + nanos as int > 8_334_601_228_800int * ns) by (nonlinear_arith)
                    requires secs as int >= 8_334_601_228_800int, ns > 0, nanos > 0;
            }
            None
        }
    }
}

/// The current UTC time, from the system clock; `None` only if the clock
/// reads a time outside the range a [`Timestamp`] holds.
pub fn current_time() -> (r: Option<Timestamp>)
    ensures
        r matches Some(t) ==> Timestamp::valid_parts(t.unix_seconds(), t.subsec_nanos()),
{
    let reading = system_time_now();
    let (before_epoch, span) = match duration_since_epoch(&reading) {
        Ok(span) => (false, span),
        Err(e) => (true, time_error_duration(&e)),
    };
    timestamp_from_clock_offset(before_epoch, duration_secs(&span), duration_subsec_nanos(&span))
}

/// Moving a timestamp to a wall-clock time keeps its UTC day, and the
/// time it then shows (`%H:%M`) is the one it was moved to.
pub proof fn clock_time_round_trip(t: Timestamp, hour: int, minute: int)
    requires
        0 <= hour < 24,
        0 <= minute < 60,
    ensures
        at_clock_time(t, hour, minute) / (SECONDS_PER_DAY as int) == t.unix_seconds() / (SECONDS_PER_DAY as int),
        at_clock_time(t, hour, minute) % (SECONDS_PER_DAY as int) == hour * 3600 + minute * 60,
        clock_text_at(at_clock_time(t, hour, minute)) == decimal_pad2(hour) + seq![':'] + decimal_pad2(minute),
{
    let day = SECONDS_PER_DAY as int;
    let midnight = t.unix_seconds() - seconds_of_day(t);
    let offset = hour * 3600 + minute * 60;
    let q = t.unix_seconds() / day;
    assert(midnight == q * day);
    assert(0 <= offset < day);
    vstd::arithmetic::div_mod::lemma_fundamental_div_mod_converse(q * day + offset, day, q, offset);
    assert(offset / 3600 == hour);
    assert((offset % 3600) / 60 == minute);
}

/// The whole seconds between two instants change sign when the instants swap.
pub proof fn elapsed_is_antisymmetric(a: Timestamp, b: Timestamp)
    ensures
        elapsed_whole_seconds(a, b) == -elapsed_whole_seconds(b, a),
        elapsed_whole_seconds(a, a) == 0,
{
}

/// For spans that are not negative, the two ways of writing a span agree:
/// the signed text of `t` seconds is the stopwatch text of `t` seconds.
pub proof fn signed_text_agrees_with_stopwatch_text(t: int)
    requires
        t >= 0,
    ensures
        signed_duration_text(t) == duration_text(t as nat),
{
    assert(div_toward_zero(t, 60) == t / 60);
    assert(div_toward_zero(t, 3600) == t / 3600);
    assert((t / 60) % 60 == (t % 3600) / 60) by {
        vstd::arithmetic::div_mod::lemma_fundamental_div_mod(t, 3600);
        let h = t / 3600;
        let r = t % 3600;
        vstd::arithmetic::div_mod::lemma_fundamental_div_mod_converse(t, 60, h * 60 + r / 60, r % 60);
        vstd::arithmetic::div_mod::lemma_fundamental_div_mod_converse(h * 60 + r / 60, 60, h, r / 60);
    }
    assert(rem_toward_zero(div_toward_zero(t, 60), 60) == (t / 60) % 60);
    assert(rem_toward_zero(t, 60) == t % 60);
}

} // verus!
