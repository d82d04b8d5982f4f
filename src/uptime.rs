//! The system uptime, as days, hours and minutes.

use vstd::prelude::*;
use crate::text::push_char;

verus! {

pub const SECONDS_PER_DAY: u64 = 86400;

pub const SECONDS_PER_HOUR: u64 = 3600;

pub const SECONDS_PER_MINUTE: u64 = 60;

/// The decimal digit for `d`.
pub open spec fn digit_of(d: nat) -> char {
    seq!['0', '1', '2', '3', '4', '5', '6', '7', '8', '9'][d as int]
}

/// The decimal representation of `n`, without leading zeros.
pub open spec fn decimal(n: nat) -> Seq<char>
    decreases n,
{
    if n < 10 {
        seq![digit_of(n)]
    } else {
        decimal(n / 10).push(digit_of(n % 10))
    }
}

/// An uptime of `secs` seconds as text: "D days, " when there is at least one
/// whole day, "H hrs, " when the hours past the days are at least one, then
/// "M min" with the minutes past the hours.
pub open spec fn uptime_text(secs: nat) -> Seq<char> {
    let days = secs / (SECONDS_PER_DAY as nat);
    let hours = secs % (SECONDS_PER_DAY as nat) / (SECONDS_PER_HOUR as nat);
    let minutes = secs % (SECONDS_PER_HOUR as nat) / (SECONDS_PER_MINUTE as nat);
    (if days >= 1 {
        decimal(days) + " days, "@
    } else {
        Seq::empty()
    }) + (if hours >= 1 {
        decimal(hours) + " hrs, "@
    } else {
        Seq::empty()
    }) + decimal(minutes) + " min"@
}

/// Why the uptime could not be given.
#[derive(Debug)]
pub enum UptimeError {
    /// The system did not report its uptime.
    Unreadable(uptime_lib::Error),
}

#[verifier::external_type_specification]
#[verifier::external_body]
pub struct ExUptimeError(uptime_lib::Error);

/// Relies on `uptime_lib::get`: the time since boot, or an error. Nothing is
/// known of the value, which depends on the machine and the moment.
pub assume_specification[ uptime_lib::get ]() -> Result<std::time::Duration, uptime_lib::Error>;

/// Relies on `Duration::as_secs`: the whole seconds of a duration.
pub assume_specification[ std::time::Duration::as_secs ](d: &std::time::Duration) -> u64;

fn digit_char(d: u64) -> (c: char)
    requires
        d < 10,
    ensures
        c == digit_of(d as nat),
{
    match d {
        0 => '0',
        1 => '1',
        2 => '2',
        3 => '3',
        4 => '4',
        5 => '5',
        6 => '6',
        7 => '7',
        8 => '8',
        _ => '9',
    }
}

/// Appends the decimal representation of `n`.
pub fn push_decimal(s: &mut String, n: u64)
    ensures
        final(s)@ == old(s)@ + decimal(n as nat),
    decreases n,
{
    if n >= 10 {
        push_decimal(s, n / 10);
    }
    let ghost before = s@;
    push_char(s, digit_char(n % 10));
    proof {
        if n >= 10 {
            assert(before + seq![digit_of((n % 10) as nat)] == old(s)@ + decimal(n as nat));
        } else {
            assert(s@ == old(s)@ + decimal(n as nat));
        }
    }
}

/// An uptime of `secs` seconds as text, e.g. "2 days, 3 hrs, 4 min".
pub fn format_uptime(secs: u64) -> (r: String)
    ensures
        r@ == uptime_text(secs as nat),
{
    let days = secs / SECONDS_PER_DAY;
    let hours = secs % SECONDS_PER_DAY / SECONDS_PER_HOUR;
    let minutes = secs % SECONDS_PER_HOUR / SECONDS_PER_MINUTE;
    let mut r = String::new();
    if days >= 1 {
        push_decimal(&mut r, days);
        r.append(" days, ");
    }
    let ghost day_part = r@;
    if hours >= 1 {
        push_decimal(&mut r, hours);
        r.append(" hrs, ");
    }
    let ghost hour_part = r@.subrange(day_part.len() as int, r@.len() as int);
    assert(r@ == day_part + hour_part);
    push_decimal(&mut r, minutes);
    r.append(" min");
    assert(r@ == day_part + hour_part + decimal(minutes as nat) + " min"@);
    r
}

/// The system uptime as text, or the reason it could not be read.
pub fn get_sys_uptime() -> (r: Result<String, UptimeError>)
    ensures
        r matches Ok(text) ==> exists|secs: nat| secs <= u64::MAX && text@ == uptime_text(secs),
{
    match uptime_lib::get() {
        Ok(uptime) => {
            let secs = uptime.as_secs();
            Ok(format_uptime(secs))
        },
        Err(e) => Err(UptimeError::Unreadable(e)),
    }
}

} // verus!
