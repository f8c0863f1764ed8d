//! The clock and clock times: the current instant, and `HH:MM` times of day.
use vstd::prelude::*;
use crate::text::digit_char;

verus! {

/// Milliseconds since the Unix epoch now (`chrono::Utc::now().timestamp_millis()`).
/// Nothing is stated of the value: it is the time.
#[verifier::external_body]
pub(crate) fn now_millis() -> i64 {
    chrono::Utc::now().timestamp_millis()
}

/// The time of day that `chrono::NaiveTime::parse_from_str(s, "%H:%M")` reads from
/// `s`, as seconds past midnight, or `None` where it reports an error.
pub uninterp spec fn hm_seconds(s: Seq<char>) -> Option<u32>;

/// `chrono::NaiveTime::parse_from_str(s, "%H:%M")`, as seconds past midnight
/// (`Timelike::num_seconds_from_midnight`). Which texts it accepts is left to the
/// name `hm_seconds`; the one fact stated is chrono's documented range: a time of day
/// is fewer than 86400 seconds past midnight.
#[verifier::external_body]
pub(crate) fn parse_hm(s: &str) -> (r: Option<u32>)
    ensures
        r == hm_seconds(s@),
        r matches Some(t) ==> t < 86400,
{
    match chrono::NaiveTime::parse_from_str(s, "%H:%M") {
        Ok(t) => Some(chrono::Timelike::num_seconds_from_midnight(&t)),
        Err(_) => None,
    }
}

/// The earliest instant, in milliseconds since the Unix epoch, that chrono's `DateTime`
/// can hold: midnight UTC starting 1 January of the year -262143.
pub const MIN_LOCAL_MILLIS: i64 = -8334601228800000;

/// The last millisecond that chrono's `DateTime` can hold: the end of 31 December of the
/// year 262142, UTC.
pub const MAX_LOCAL_MILLIS: i64 = 8210266876799999;

/// How many seconds the local time zone is ahead of UTC at the instant `millis`
/// (`DateTime::from_timestamp_millis`, then `with_timezone(&Local)` and
/// `FixedOffset::local_minus_utc`). chrono gives a `DateTime` exactly for the instants
/// from `MIN_LOCAL_MILLIS` to `MAX_LOCAL_MILLIS` (its dates run from the year -262143 to
/// 262142), so the result is `Some` exactly there. The offset itself depends on the
/// machine's time zone and is not stated; chrono's `FixedOffset` only holds offsets
/// strictly between -86400 and 86400 seconds.
#[verifier::external_body]
pub(crate) fn local_offset_seconds(millis: i64) -> (r: Option<i32>)
    ensures
        r is Some <==> MIN_LOCAL_MILLIS <= millis <= MAX_LOCAL_MILLIS,
        r matches Some(o) ==> -86400 < o < 86400,
{
    match chrono::DateTime::from_timestamp_millis(millis) {
        Some(t) => Some(t.with_timezone(&chrono::Local).offset().local_minus_utc()),
        None => None,
    }
}

/// Two decimal digits of a number below 100.
pub open spec fn two_digits(n: int) -> Seq<char> {
    seq![digit_char((n / 10) as nat), digit_char((n % 10) as nat)]
}

/// The `HH:MM:SS` clock text of the instant `millis` (milliseconds since the Unix
/// epoch) in a zone `offset` seconds ahead of UTC: the whole seconds, rounded down,
/// shifted by the offset, taken within their day.
pub open spec fn clock_text(millis: int, offset: int) -> Seq<char> {
    let s = (millis / 1000 + offset) % 86400;
    two_digits(s / 3600) + seq![':'] + two_digits((s % 3600) / 60) + seq![':'] + two_digits(s % 60)
}

fn push_two_digits(out: &mut String, n: u32)
    requires
        n < 100,
    ensures
        final(out)@ == old(out)@ + two_digits(n as int),
{
    let tens = crate::text::char_from_digit(n / 10);
    let ones = crate::text::char_from_digit(n % 10);
    crate::text::push_char(out, tens);
    crate::text::push_char(out, ones);
}

/// The `HH:MM:SS` text of the instant `millis` in a zone `offset` seconds ahead of UTC.
pub fn clock_text_of(millis: i64, offset: i32) -> (r: String)
    requires
        -86400 < offset < 86400,
    ensures
        r@ == clock_text(millis as int, offset as int),
{
    let m = millis as i128;
    let secs: i128 = if m >= 0 { m / 1000 } else { -((-m + 999) / 1000) };
    assert(secs == millis as int / 1000) by (nonlinear_arith)
        requires
            m == millis as int,
            m >= 0 ==> secs == m / 1000,
            m < 0 ==> secs == -((-m + 999) / 1000),
    ;
    let shifted: i128 = secs + offset as i128;
    let day: i128 = if shifted >= 0 { shifted % 86400 } else { (86400 - (-shifted) % 86400) % 86400 };
    assert(day == shifted as int % 86400) by (nonlinear_arith)
        requires
            shifted >= 0 ==> day == shifted % 86400,
            shifted < 0 ==> day == (86400 - (-shifted) % 86400) % 86400,
    ;
    let d = day as u32;
    let mut r = String::new();
    push_two_digits(&mut r, d / 3600);
    crate::text::push_char(&mut r, ':');
    push_two_digits(&mut r, (d % 3600) / 60);
    crate::text::push_char(&mut r, ':');
    push_two_digits(&mut r, d % 60);
    r
}

} // verus!
