//! Wall-clock readings and date formatting, through chrono.
//!
//! Time is carried through the library as plain integers: an instant is
//! milliseconds since the Unix epoch, a timer's start is whole seconds since
//! the Unix epoch. Only the readings of the clock itself and the rendering of
//! a date label are done by chrono, behind trusted declarations.

use vstd::prelude::*;

verus! {

/// Largest start time a record may carry, in whole seconds since the Unix
/// epoch: 9999-12-31T23:59:59Z. Keeps every stored instant inside the range
/// that chrono can represent and format.
pub const MAX_EPOCH_S: i64 = 253_402_300_799;

/// Largest clock reading accepted, in milliseconds: the last representable
/// second, fully elapsed.
pub const MAX_NOW_MS: i64 = 253_402_300_799_999;

/// A start time the library accepts: a representable, non-negative second.
pub open spec fn valid_epoch_s(s: int) -> bool {
    0 <= s <= MAX_EPOCH_S
}

/// A clock reading the library accepts, in milliseconds.
pub open spec fn valid_now_ms(t: int) -> bool {
    0 <= t <= MAX_NOW_MS
}

/// Relies on chrono's `Utc::now`: the wall clock, read as milliseconds since
/// the Unix epoch. Nothing is promised of the value: the clock may move
/// arbitrarily between two readings.
#[verifier::external_body]
fn wall_clock_ms() -> i64 {
    chrono::Utc::now().timestamp_millis()
}

/// The current wall-clock instant, clamped into the range the library
/// accepts. Every session operation that needs "now" takes such a reading as
/// an explicit argument.
pub fn now_epoch_ms() -> (t: i64)
    ensures
        valid_now_ms(t as int),
{
    let raw = wall_clock_ms();
    if raw < 0 {
        0
    } else if raw > MAX_NOW_MS {
        MAX_NOW_MS
    } else {
        raw
    }
}

/// The day-month-year label under which a start instant is grouped on
/// screen. Left abstract: two instants carry the same label exactly when
/// chrono renders them to the same `%d-%m-%Y` string.
pub uninterp spec fn date_label_of(epoch_s: i64) -> Seq<char>;

/// Relies on chrono's `DateTime::from_timestamp` and `%d-%m-%Y` formatting:
/// the label is a function of the instant alone.
#[verifier::external_body]
pub fn date_label(epoch_s: i64) -> (r: String)
    requires
        valid_epoch_s(epoch_s as int),
    ensures
        r@ == date_label_of(epoch_s),
{
    chrono::DateTime::from_timestamp(epoch_s, 0).unwrap().format("%d-%m-%Y").to_string()
}

} // verus!
