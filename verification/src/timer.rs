//! The timer record: a named work interval with a start instant, an
//! accumulated elapsed duration in whole seconds, and a running flag.

use vstd::prelude::*;
use crate::clock::{valid_epoch_s, valid_now_ms, date_label, date_label_of};

verus! {

/// The mathematical content of one record: what the store persists and what
/// the contracts speak of.
pub ghost struct TimerModel {
    pub id: int,
    pub name: Seq<char>,
    pub description: Seq<char>,
    pub start_time_s: int,
    pub duration_s: int,
    pub running: bool,
}

/// One tracked interval. `start_time_s` is whole seconds since the Unix
/// epoch, fixed at creation; `duration_s` is the elapsed time in whole
/// seconds, advanced by ticks while running and frozen when stopped; `id` is
/// assigned by the store on first persist (0 until then).
#[derive(Debug, Clone)]
pub struct Timer {
    pub start_time_s: i64,
    pub name: String,
    pub duration_s: i64,
    pub description: String,
    pub id: i64,
    pub running: bool,
}

impl Timer {
    /// A record the library can hold: non-negative elapsed time and a
    /// representable start instant.
    pub open spec fn wf(self) -> bool {
        &&& 0 <= self.duration_s
        &&& valid_epoch_s(self.start_time_s as int)
    }

    /// The record's mathematical content.
    pub open spec fn model(self) -> TimerModel {
        TimerModel {
            id: self.id as int,
            name: self.name@,
            description: self.description@,
            start_time_s: self.start_time_s as int,
            duration_s: self.duration_s as int,
            running: self.running,
        }
    }

    /// A fresh record: started now, nothing elapsed, running, not yet
    /// persisted.
    pub fn new(name: String, description: String, now_ms: i64) -> (r: Timer)
        requires
            valid_now_ms(now_ms as int),
        ensures
            r.name == name,
            r.description == description,
            r.start_time_s == now_ms as int / 1000,
            r.duration_s == 0,
            r.id == 0,
            r.running,
            r.wf(),
    {
        let start: i64 = ((now_ms as u64) / 1000) as i64;
        Timer {
            start_time_s: start,
            name,
            duration_s: 0,
            description,
            id: 0,
            running: true,
        }
    }

    /// Freeze the record: elapsed time stays as it is. Idempotent.
    pub fn stop(&mut self)
        ensures
            *final(self) == (Timer { running: false, ..*old(self) }),
    {
        self.running = false;
    }

    /// Mark the record as running again. The session model owns the clock
    /// reference that decides from when ticks accumulate.
    pub fn start(&mut self)
        ensures
            *final(self) == (Timer { running: true, ..*old(self) }),
    {
        self.running = true;
    }

    pub fn is_running(&self) -> (r: bool)
        ensures
            r == self.running,
    {
        self.running
    }

    /// Advance the elapsed time by one whole second.
    pub fn tick(&mut self)
        requires
            old(self).duration_s < i64::MAX,
        ensures
            *final(self) == (Timer { duration_s: (old(self).duration_s + 1) as i64, ..*old(self) }),
    {
        self.duration_s = self.duration_s + 1;
    }

    /// The frozen (or so-far accumulated) elapsed time, in whole seconds.
    pub fn duration_seconds(&self) -> (r: i64)
        ensures
            r == self.duration_s,
    {
        self.duration_s
    }

    /// The elapsed time as `hh:mm:ss` (hours grow beyond two digits when
    /// needed).
    pub fn formatted_duration(&self) -> (r: String)
        requires
            self.wf(),
        ensures
            r@ == spec_duration_display(self.duration_s as int),
    {
        let total: u64 = self.duration_s as u64;
        let hours: u64 = total / 3600;
        let minutes: u64 = (total / 60) % 60;
        let seconds: u64 = total % 60;
        let mut out = String::new();
        push_padded(&mut out, hours);
        out.push(':');
        push_padded(&mut out, minutes);
        out.push(':');
        push_padded(&mut out, seconds);
        proof {
            assert(out@ =~= spec_duration_display(self.duration_s as int));
        }
        out
    }

    /// The day-month-year label of the start instant, used to group records
    /// on screen.
    pub fn formatted_date(&self) -> (r: String)
        requires
            self.wf(),
        ensures
            r@ == date_label_of(self.start_time_s),
    {
        date_label(self.start_time_s)
    }
}

/// The decimal digit characters.
pub open spec fn spec_digit(n: int) -> char {
    if n == 0 { '0' }
    else if n == 1 { '1' }
    else if n == 2 { '2' }
    else if n == 3 { '3' }
    else if n == 4 { '4' }
    else if n == 5 { '5' }
    else if n == 6 { '6' }
    else if n == 7 { '7' }
    else if n == 8 { '8' }
    else { '9' }
}

/// The decimal rendering of a non-negative number, without padding.
pub open spec fn spec_decimal(n: int) -> Seq<char>
    decreases n,
{
    if n < 10 {
        seq![spec_digit(n)]
    } else {
        spec_decimal(n / 10).push(spec_digit(n % 10))
    }
}

/// The decimal rendering, zero-padded on the left to at least two digits.
pub open spec fn spec_padded(n: int) -> Seq<char> {
    if n < 10 {
        seq!['0'] + spec_decimal(n)
    } else {
        spec_decimal(n)
    }
}

/// `hh:mm:ss` for a duration of `d` whole seconds.
pub open spec fn spec_duration_display(d: int) -> Seq<char> {
    spec_padded(d / 3600) + seq![':'] + spec_padded((d / 60) % 60) + seq![':'] + spec_padded(d % 60)
}

fn digit_char(n: u64) -> (c: char)
    requires
        n < 10,
    ensures
        c == spec_digit(n as int),
{
    match n {
        0 => '0',
        1 => '1',
        2 => '2',
        3 => '3',
        4 => '4',
        5 => '5',
        6 => '6',
        7 => '7',
        8 => '8',
        _ => '9',
    }
}

/// Append the decimal rendering of `n` to `out`.
fn push_decimal(out: &mut String, n: u64)
    ensures
        final(out)@ == old(out)@ + spec_decimal(n as int),
    decreases n,
{
    if n < 10 {
        out.push(digit_char(n));
    } else {
        push_decimal(out, n / 10);
        out.push(digit_char(n % 10));
    }
    proof {
        assert(out@ =~= old(out)@ + spec_decimal(n as int));
    }
}

/// Append the zero-padded decimal rendering of `n` to `out`.
fn push_padded(out: &mut String, n: u64)
    ensures
        final(out)@ == old(out)@ + spec_padded(n as int),
{
    if n < 10 {
        out.push('0');
    }
    push_decimal(out, n);
    proof {
        assert(out@ =~= old(out)@ + spec_padded(n as int));
    }
}

} // verus!
