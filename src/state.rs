//! The record of a timer: its configured duration, the time left and its run flags.
use crate::text::{push_two_digits, two_digits};
use vstd::prelude::*;

verus! {

/// The number of seconds in `hours:minutes:seconds`.
pub open spec fn total_seconds(hours: nat, minutes: nat, seconds: nat) -> nat {
    hours * 3600 + minutes * 60 + seconds
}

/// `t` seconds written as `HH:MM:SS`, each field in decimal with two digits at least.
pub open spec fn clock_text(t: nat) -> Seq<char> {
    two_digits(t / 3600) + seq![':'] + two_digits((t % 3600) / 60) + seq![':'] + two_digits(
        t % 60,
    )
}

/// One of the calls that drive a configured timer: start, pause or one tick.
pub enum Control {
    Start,
    Pause,
    Tick,
}

/// A timer's configured duration and progress.
#[derive(Debug, Clone, Copy)]
pub struct TimerState {
    pub hours: u32,
    pub minutes: u32,
    pub seconds: u32,
    pub remaining_seconds: u32,
    pub is_running: bool,
    pub is_completed: bool,
}

impl TimerState {
    /// Every field of the configured duration lies within its range.
    pub open spec fn config_in_range(self) -> bool {
        self.hours <= 23 && self.minutes <= 59 && self.seconds <= 59
    }

    /// The configured duration, in seconds.
    pub open spec fn configured_seconds(self) -> nat {
        total_seconds(self.hours as nat, self.minutes as nat, self.seconds as nat)
    }

    /// The state with the same configuration, stopped, with the whole duration left.
    pub open spec fn restarted(self) -> TimerState {
        TimerState {
            remaining_seconds: self.configured_seconds() as u32,
            is_running: false,
            is_completed: false,
            ..self
        }
    }

    /// The placeholder before any configuration: all zero, stopped.
    pub open spec fn zero() -> TimerState {
        TimerState {
            hours: 0,
            minutes: 0,
            seconds: 0,
            remaining_seconds: 0,
            is_running: false,
            is_completed: false,
        }
    }

    /// A stopped timer configured to `hours:minutes:seconds`, the whole duration left.
    pub open spec fn configured(hours: u32, minutes: u32, seconds: u32) -> TimerState {
        TimerState {
            hours,
            minutes,
            seconds,
            remaining_seconds: total_seconds(hours as nat, minutes as nat, seconds as nat) as u32,
            is_running: false,
            is_completed: false,
        }
    }

    /// Time is left and the timer has not completed, so it may run.
    pub open spec fn can_start(self) -> bool {
        !self.is_completed && self.remaining_seconds > 0
    }

    /// The state after a start: running where it may run, else unchanged.
    pub open spec fn after_start(self) -> TimerState {
        if self.can_start() {
            TimerState { is_running: true, is_completed: false, ..self }
        } else {
            self
        }
    }

    /// The state after a pause: stopped where it was running, else unchanged.
    pub open spec fn after_pause(self) -> TimerState {
        if self.is_running {
            TimerState { is_running: false, ..self }
        } else {
            self
        }
    }

    /// A tick applies: the timer runs, has not completed, and has time left.
    pub open spec fn tick_applies(self) -> bool {
        self.is_running && !self.is_completed && self.remaining_seconds > 0
    }

    /// The state right after a tick takes one second off.
    pub open spec fn one_second_less(self) -> TimerState {
        TimerState { remaining_seconds: (self.remaining_seconds - 1) as u32, ..self }
    }

    /// The state after a tick: one second less where a tick applies, and completed
    /// (stopped) where that leaves no time; else unchanged.
    pub open spec fn after_tick(self) -> TimerState {
        if !self.tick_applies() {
            self
        } else if self.remaining_seconds == 1 {
            TimerState {
                remaining_seconds: 0,
                is_running: false,
                is_completed: true,
                ..self
            }
        } else {
            self.one_second_less()
        }
    }

    /// The state after one call.
    pub open spec fn after_control(self, c: Control) -> TimerState {
        match c {
            Control::Start => self.after_start(),
            Control::Pause => self.after_pause(),
            Control::Tick => self.after_tick(),
        }
    }

    /// The state after the calls `cs`, in order.
    pub open spec fn after_controls(self, cs: Seq<Control>) -> TimerState
        decreases cs.len(),
    {
        if cs.len() == 0 {
            self
        } else {
            self.after_control(cs[0]).after_controls(cs.drop_first())
        }
    }

    /// A stopped timer with the given duration, all of it left.
    pub fn new(hours: u32, minutes: u32, seconds: u32) -> (r: TimerState)
        requires
            hours <= 23,
            minutes <= 59,
            seconds <= 59,
        ensures
            r.hours == hours,
            r.minutes == minutes,
            r.seconds == seconds,
            r.remaining_seconds == total_seconds(hours as nat, minutes as nat, seconds as nat),
            !r.is_running,
            !r.is_completed,
            r == TimerState::configured(hours, minutes, seconds),
    {
        let total_seconds = hours * 3600 + minutes * 60 + seconds;
        TimerState {
            hours,
            minutes,
            seconds,
            remaining_seconds: total_seconds,
            is_running: false,
            is_completed: false,
        }
    }

    /// Puts the whole configured duration back and stops the timer.
    pub fn reset(&mut self)
        requires
            old(self).config_in_range(),
        ensures
            *final(self) == old(self).restarted(),
            final(self).remaining_seconds == old(self).configured_seconds(),
    {
        self.remaining_seconds = self.hours * 3600 + self.minutes * 60 + self.seconds;
        self.is_running = false;
        self.is_completed = false;
    }

    /// The time left, as `HH:MM:SS`.
    pub fn format_remaining_time(&self) -> (r: String)
        ensures
            r@ == clock_text(self.remaining_seconds as nat),
    {
        let hours = self.remaining_seconds / 3600;
        let minutes = (self.remaining_seconds % 3600) / 60;
        let seconds = self.remaining_seconds % 60;
        let mut out = String::new();
        push_two_digits(&mut out, hours);
        out.push(':');
        push_two_digits(&mut out, minutes);
        out.push(':');
        push_two_digits(&mut out, seconds);
        assert(out@ =~= clock_text(self.remaining_seconds as nat));
        out
    }
}

impl Default for TimerState {
    /// The placeholder before any configuration: all zero, stopped.
    fn default() -> (r: TimerState)
        ensures
            r == TimerState::zero(),
    {
        TimerState {
            hours: 0,
            minutes: 0,
            seconds: 0,
            remaining_seconds: 0,
            is_running: false,
            is_completed: false,
        }
    }
}

} // verus!
