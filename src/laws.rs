//! Properties that relate several operations of the timer.
use crate::state::{clock_text, total_seconds, Control, TimerState};
use crate::text::two_digits;
use crate::validation::validation;
use vstd::prelude::*;

verus! {

/// A valid duration passes validation, and a timer built from it shows that duration,
/// each field written with two digits.
pub proof fn lemma_valid_duration_shows_itself(hours: u32, minutes: u32, seconds: u32)
    requires
        hours <= 23,
        minutes <= 59,
        seconds <= 59,
        !(hours == 0 && minutes == 0 && seconds == 0),
    ensures
        validation(hours, minutes, seconds) is Ok,
        clock_text(TimerState::configured(hours, minutes, seconds).remaining_seconds as nat)
            == two_digits(hours as nat) + seq![':'] + two_digits(minutes as nat) + seq![':']
            + two_digits(seconds as nat),
{
    let h = hours as nat;
    let m = minutes as nat;
    let s = seconds as nat;
    let t = total_seconds(h, m, s);
    assert(t / 3600 == h && t % 3600 == m * 60 + s) by (nonlinear_arith)
        requires
            t == h * 3600 + m * 60 + s,
            m <= 59,
            s <= 59,
    ;
    assert((m * 60 + s) / 60 == m && t % 60 == s) by (nonlinear_arith)
        requires
            t == h * 3600 + m * 60 + s,
            s <= 59,
    ;
    assert(TimerState::configured(hours, minutes, seconds).remaining_seconds as nat == t);
}

/// Resetting twice in a row leaves the same state as resetting once.
pub proof fn lemma_reset_idempotent(s: TimerState)
    ensures
        s.restarted().restarted() == s.restarted(),
{
}

/// Starts, pauses and ticks never change the configured duration.
proof fn lemma_controls_keep_configuration(s: TimerState, cs: Seq<Control>)
    ensures
        s.after_controls(cs).hours == s.hours,
        s.after_controls(cs).minutes == s.minutes,
        s.after_controls(cs).seconds == s.seconds,
    decreases cs.len(),
{
    if cs.len() > 0 {
        lemma_controls_keep_configuration(s.after_control(cs[0]), cs.drop_first());
    }
}

/// Configuring a valid duration, then starting, pausing and ticking in any order and
/// any number of times, and then resetting leaves the whole configured duration to run
/// again.
pub proof fn lemma_reset_restores_duration(
    hours: u32,
    minutes: u32,
    seconds: u32,
    cs: Seq<Control>,
)
    requires
        hours <= 23,
        minutes <= 59,
        seconds <= 59,
    ensures
        TimerState::configured(hours, minutes, seconds).after_controls(
            cs,
        ).restarted().remaining_seconds == total_seconds(
            hours as nat,
            minutes as nat,
            seconds as nat,
        ),
{
    lemma_controls_keep_configuration(TimerState::configured(hours, minutes, seconds), cs);
}

} // verus!
