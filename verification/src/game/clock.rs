//! Points in time, as whole seconds since the Unix epoch.
//!
//! The game stamps its messages with such a number; the `time` crate reads it
//! and writes it back out.  Every point the state keeps came from one of those
//! stamps, or is the epoch itself, so seconds are all the state needs to hold.
use vstd::prelude::*;

verus! {

/// The character of a decimal digit.
pub open spec fn digit_char(d: nat) -> char {
    if d == 0 {
        '0'
    } else if d == 1 {
        '1'
    } else if d == 2 {
        '2'
    } else if d == 3 {
        '3'
    } else if d == 4 {
        '4'
    } else if d == 5 {
        '5'
    } else if d == 6 {
        '6'
    } else if d == 7 {
        '7'
    } else if d == 8 {
        '8'
    } else {
        '9'
    }
}

/// The decimal numeral of `n`, without sign or leading zeros.
pub open spec fn decimal(n: nat) -> Seq<char>
    decreases n,
{
    if n < 10 {
        seq![digit_char(n)]
    } else {
        decimal(n / 10).push(digit_char(n % 10))
    }
}

/// The bound below which the `time` crate's round trip between seconds and
/// broken-down UTC time is relied on here.  The crate converts through the C
/// library's `time_t`: on a 64-bit build that holds 64-bit seconds, and
/// `gmtime_r` handles every time up to some three centuries after the epoch
/// (every `u32` stamp, and every stamp plus a round length, lies below that);
/// on a 32-bit build `time_t` holds 32-bit seconds, and only times below
/// 2^31 seconds pass through it unchanged.
pub open spec fn stated_seconds_bound() -> int {
    if usize::BITS == 64 {
        10_000_000_000
    } else {
        0x8000_0000
    }
}

/// Whether `secs` lies from the epoch up to `stated_seconds_bound()`.
pub fn within_stated_bound(secs: i64) -> (b: bool)
    ensures
        b == (0 <= secs < stated_seconds_bound()),
{
    if usize::BITS == 64 {
        0 <= secs && secs < 10_000_000_000
    } else {
        0 <= secs && secs < 0x8000_0000
    }
}

/// The outcome type of `time::strptime` and `time::strftime`.
#[verifier::external_type_specification]
#[verifier::external_body]
pub struct ExTimeParseError(time::ParseError);

/// `u32::to_string`: std's `Display` for integers writes the decimal numeral.
#[verifier::external_body]
fn u32_to_decimal(n: u32) -> (s: String)
    ensures
        s@ == decimal(n as nat),
{
    n.to_string()
}

/// `time::strptime(text, format)` with `format` being `%s`, read back as
/// seconds through `Tm::to_timespec`, on the decimal numeral of a number
/// below `stated_seconds_bound()`.
///
/// For `%s` the crate reads the leading decimal digits of `text` (here all of
/// them) as a number of seconds and builds the UTC broken-down time at that
/// point (`at_utc`, through `gmtime_r`); `to_timespec` turns it back into the
/// same number (through `timegm`, as the offset is zero).  Longer numbers are
/// not admitted: for some of them `gmtime_r` fails and the crate panics.
#[verifier::external_body]
fn strptime_seconds(text: &str, format: &str) -> (r: Result<i64, time::ParseError>)
    requires
        format@ == "%s"@,
        exists|n: nat| n < stated_seconds_bound() && text@ == #[trigger] decimal(n),
    ensures
        forall|n: nat| n < stated_seconds_bound() && text@ == #[trigger] decimal(n) ==> r is Ok && r->Ok_0 == n,
{
    match time::strptime(text, format) {
        Ok(tm) => Ok(tm.to_timespec().sec),
        Err(e) => Err(e),
    }
}

/// `time::strftime(format, tm)` with `format` being `%s`, where `tm` is the
/// UTC broken-down time `secs` seconds after the epoch (`time::at_utc`, which
/// is also what adding a `Duration` to such a time gives), for `secs` from the
/// epoch up to `stated_seconds_bound()`.
///
/// `%s` is a valid format (and `gmtime_r` gives a valid weekday and month for
/// such a time), so the crate succeeds and writes `tm.to_timespec().sec`, which
/// is `secs`, in decimal.  Other times are not admitted: for some of them
/// `gmtime_r` fails and the crate panics.
#[verifier::external_body]
fn strftime_seconds(secs: i64, format: &str) -> (r: Result<String, time::ParseError>)
    requires
        format@ == "%s"@,
        0 <= secs < stated_seconds_bound(),
    ensures
        r is Ok && r->Ok_0@ == decimal(secs as nat),
{
    time::strftime(format, &time::at_utc(time::Timespec::new(secs, 0)))
}

/// `time::now()`, read as whole seconds since the epoch through
/// `Tm::to_timespec`.  It depends on the clock: nothing is stated of it.
#[verifier::external_body]
pub(crate) fn now_seconds() -> i64 {
    time::now().to_timespec().sec
}

/// A message stamp that the time library did not accept.
#[derive(Clone, Copy, Debug, PartialEq, Eq, Structural)]
pub enum InvalidTimestamp {
    Unreadable,
}

/// Reads a message stamp: its decimal text parsed with the format `%s`,
/// giving that many seconds after the epoch.  On a 64-bit build every stamp
/// is accepted; on a 32-bit one, whose time library cannot hold them, stamps
/// from 2^31 seconds on are refused.
pub fn tm_from_unix_timestamp(timestamp: u32) -> (r: Result<i64, InvalidTimestamp>)
    ensures
        r == if timestamp < stated_seconds_bound() {
            Ok::<i64, InvalidTimestamp>(timestamp as i64)
        } else {
            Err(InvalidTimestamp::Unreadable)
        },
{
    if !within_stated_bound(timestamp as i64) {
        return Err(InvalidTimestamp::Unreadable);
    }
    let text = u32_to_decimal(timestamp);
    proof {
        reveal_strlit("%s");
        assert(text@ == decimal(timestamp as nat));
    }
    match strptime_seconds(text.as_str(), "%s") {
        Ok(secs) => Ok(secs),
        Err(_) => Err(InvalidTimestamp::Unreadable),
    }
}

/// Writes a point in time from the epoch up to `stated_seconds_bound()` with
/// the format `%s`, as a report shows it: the decimal numeral of the seconds.
/// The time library never fails there, so the result is always `Some`.
pub fn format_epoch_seconds(secs: i64) -> (r: Option<String>)
    requires
        0 <= secs < stated_seconds_bound(),
    ensures
        r matches Some(s) && s@ == decimal(secs as nat),
{
    proof {
        reveal_strlit("%s");
    }
    match strftime_seconds(secs, "%s") {
        Ok(s) => Some(s),
        Err(_) => None,
    }
}

} // verus!
