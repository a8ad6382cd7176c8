//! Millisecond timestamps for the timers, and the wall clock that the
//! screens show.

use vstd::prelude::*;

verus! {

/// Milliseconds between `since` and `now`; zero when `since` lies after `now`.
pub open spec fn elapsed_ms(now: u64, since: u64) -> u64 {
    if now >= since {
        (now - since) as u64
    } else {
        0
    }
}

/// Computes [`elapsed_ms`]: a `since` that lies after `now` counts as no
/// time passed.
pub fn elapsed(now: u64, since: u64) -> (gap: u64)
    ensures
        gap == elapsed_ms(now, since),
{
    if now >= since {
        now - since
    } else {
        0
    }
}

/// The pattern of the wall clock: day and month, hour and minute.
pub open spec fn clock_pattern() -> Seq<char> {
    "%d/%m %H:%M"@
}

/// The text that `chrono` writes for the moment `seconds` after the start of
/// 1970 in UTC under the `strftime` pattern `pattern`: `None` when the moment
/// is out of the range of `chrono` or the pattern is not a valid one.
pub uninterp spec fn utc_text(seconds: i64, pattern: Seq<char>) -> Option<Seq<char>>;

/// The wall clock at the moment `utc_seconds` in a zone that is
/// `offset_seconds` ahead of UTC.
pub open spec fn wall_clock(utc_seconds: i64, offset_seconds: i32) -> Option<Seq<char>> {
    if i64::MIN <= utc_seconds + offset_seconds <= i64::MAX {
        utc_text((utc_seconds + offset_seconds) as i64, clock_pattern())
    } else {
        None
    }
}

/// Makes the moment with `chrono::DateTime::from_timestamp` and writes it
/// with `DateTime::format` under `pattern`, which is the pattern of the wall
/// clock. The answer depends on the moment and the pattern alone; there is
/// none for a moment that `chrono` cannot hold.
#[verifier::external_body]
fn format_utc(seconds: i64, pattern: &str) -> (written: Option<String>)
    requires
        pattern@ == clock_pattern(),
    ensures
        match written {
            Some(text) => utc_text(seconds, pattern@) == Some(text@),
            None => utc_text(seconds, pattern@) is None,
        },
{
    let moment = chrono::DateTime::from_timestamp(seconds, 0)?;
    let mut text = String::new();
    match moment.format(pattern).write_to(&mut text) {
        Ok(()) => Some(text),
        Err(_) => None,
    }
}

/// Writes the wall clock for the screens: the local day, month, hour and
/// minute at the moment `utc_seconds`, in a zone `offset_seconds` ahead of UTC.
pub fn formatted_time(utc_seconds: i64, offset_seconds: i32) -> (written: Option<String>)
    ensures
        match written {
            Some(text) => wall_clock(utc_seconds, offset_seconds) == Some(text@),
            None => wall_clock(utc_seconds, offset_seconds) is None,
        },
{
    match utc_seconds.checked_add(offset_seconds as i64) {
        Some(local_seconds) => format_utc(local_seconds, "%d/%m %H:%M"),
        None => None,
    }
}

} // verus!
