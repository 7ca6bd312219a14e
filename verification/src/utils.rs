//! Small formatters: numbers in decimal, and the time a process has run.

use vstd::prelude::*;
use vstd::string::*;
pub use crate::filesize::format_file_size;

verus! {

/// The character of a decimal digit.
pub open spec fn digit_char(d: int) -> char
    recommends
        0 <= d < 10,
{
    (d + 48) as char
}

/// `n` in decimal, without leading zeros.
pub open spec fn decimal(n: nat) -> Seq<char>
    decreases n,
{
    if n < 10 {
        seq![digit_char(n as int)]
    } else {
        decimal(n / 10).push(digit_char((n % 10) as int))
    }
}

/// A number below one hundred as two decimal digits.
pub open spec fn two_digits(n: nat) -> Seq<char>
    recommends
        n < 100,
{
    seq![digit_char((n / 10) as int), digit_char((n % 10) as int)]
}

/// Hours, minutes and seconds of a span of `seconds`, the whole days left
/// out, as `HH:MM:SS`.
pub open spec fn clock_text(seconds: nat) -> Seq<char> {
    two_digits((seconds % 86400) / 3600) + seq![':'] + two_digits((seconds % 3600) / 60) + seq![
        ':',
    ] + two_digits(seconds % 60)
}

/// A span of `seconds` as text: the clock alone for less than a day, and
/// the number of whole days in front of it from one day on.
pub open spec fn uptime_text(seconds: nat) -> Seq<char> {
    if seconds / 86400 > 0 {
        decimal(seconds / 86400) + " days, "@ + clock_text(seconds)
    } else {
        clock_text(seconds)
    }
}

/// What the uptime is at the moment `now` for a process started at
/// `start_time`, both in seconds since the epoch: nothing where the start
/// lies in the future.
pub open spec fn uptime_at(start_time: u64, now: u64) -> Option<Seq<char>> {
    if start_time <= now {
        Some(uptime_text((now - start_time) as nat))
    } else {
        None
    }
}

/// The character of decimal digit `d`.
pub fn digit(d: u64) -> (c: char)
    requires
        d < 10,
    ensures
        c == digit_char(d as int),
{
    ((d as u8) + 48) as char
}

/// Appends `n` in decimal to `out`.
pub fn push_decimal(out: &mut String, n: u64)
    ensures
        final(out)@ == old(out)@ + decimal(n as nat),
    decreases n,
{
    if n >= 10 {
        push_decimal(out, n / 10);
    }
    out.push(digit(n % 10));
}

/// Appends `n` as two decimal digits to `out`.
pub fn push_two_digits(out: &mut String, n: u64)
    requires
        n < 100,
    ensures
        final(out)@ == old(out)@ + two_digits(n as nat),
{
    out.push(digit(n / 10));
    out.push(digit(n % 10));
}

/// A span of `seconds` as text.
pub fn format_uptime(seconds: u64) -> (text: String)
    ensures
        text@ == uptime_text(seconds as nat),
{
    let days: u64 = seconds / 86400;
    let hours: u64 = (seconds % 86400) / 3600;
    let minutes: u64 = (seconds % 3600) / 60;
    let secs: u64 = seconds % 60;
    let mut text = String::new();
    if days > 0 {
        push_decimal(&mut text, days);
        text.append(" days, ");
    }
    let ghost head = text@;
    push_two_digits(&mut text, hours);
    text.push(':');
    push_two_digits(&mut text, minutes);
    text.push(':');
    push_two_digits(&mut text, secs);
    assert(text@ == head + clock_text(seconds as nat));
    text
}

/// The uptime at the moment `now` of a process started at `start_time`.
pub fn uptime_since(start_time: u64, now: u64) -> (text: Option<String>)
    ensures
        match text {
            Some(t) => uptime_at(start_time, now) == Some(t@),
            None => uptime_at(start_time, now) is None,
        },
{
    if start_time <= now {
        Some(format_uptime(now - start_time))
    } else {
        None
    }
}

/// A moment of the system clock, opaque to the verifier.
#[verifier::external_type_specification]
#[verifier::external_body]
pub struct ExSystemTime(std::time::SystemTime);

/// Calls `std::time::SystemTime::now`, which reads the system clock.
/// Trusted, and nothing is claimed of the result: it depends on the clock.
#[verifier::external_body]
fn system_now() -> (now: std::time::SystemTime) {
    std::time::SystemTime::now()
}

/// Calls `SystemTime::duration_since` with the epoch, and hands out the
/// whole seconds of the span; `None` where the call fails, which is where
/// `moment` lies before the epoch. Trusted, and nothing is claimed of the
/// result: a moment is opaque here.
#[verifier::external_body]
fn seconds_since_epoch(moment: &std::time::SystemTime) -> (seconds: Option<u64>) {
    match moment.duration_since(std::time::UNIX_EPOCH) {
        Ok(span) => Some(span.as_secs()),
        Err(_) => None,
    }
}

/// The present time in whole seconds since the epoch; `None` where the
/// system clock stands before the epoch. Nothing more can be said of it.
pub(crate) fn unix_seconds() -> (now: Option<u64>) {
    let moment = system_now();
    seconds_since_epoch(&moment)
}

/// How long a process that started at `start_time`, in seconds since the
/// epoch, has run by now. `None` where the clock cannot be read as a time
/// after the epoch, or stands before `start_time`.
pub fn calculate_uptime(start_time: u64) -> (text: Option<String>)
    ensures
        text matches Some(t) ==> exists|now: u64| #[trigger] uptime_at(start_time, now) == Some(t@),
{
    match unix_seconds() {
        Some(now) => uptime_since(start_time, now),
        None => None,
    }
}

} // verus!
