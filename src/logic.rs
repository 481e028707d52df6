//! The controller: it owns one timer state, applies the start, pause, reset, tick and
//! configure rules to it, and hands a snapshot to an observer after each change.
use crate::state::{clock_text, TimerState};
use crate::validation::{is_valid_duration, validate_time, validation, TimeError};
use vstd::prelude::*;

verus! {

/// The notices that a start publishes: the new state, where the timer may run.
pub open spec fn start_notices(s: TimerState) -> Seq<TimerState> {
    if s.can_start() {
        seq![s.after_start()]
    } else {
        seq![]
    }
}

/// The notices that a pause publishes: the new state, where the timer was running.
pub open spec fn pause_notices(s: TimerState) -> Seq<TimerState> {
    if s.is_running {
        seq![s.after_pause()]
    } else {
        seq![]
    }
}

/// The notices that a tick publishes: the state one second less, and then the completed
/// state where that second was the last; nothing where no tick applies.
pub open spec fn tick_notices(s: TimerState) -> Seq<TimerState> {
    if !s.tick_applies() {
        seq![]
    } else if s.remaining_seconds == 1 {
        seq![s.one_second_less(), s.after_tick()]
    } else {
        seq![s.one_second_less()]
    }
}

/// The invariant of a controller's state: a configuration within range, never running
/// and completed at once, running only with time left, completed only with none.
pub open spec fn consistent(s: TimerState) -> bool {
    &&& s.config_in_range()
    &&& !(s.is_running && s.is_completed)
    &&& s.is_running ==> s.remaining_seconds > 0
    &&& s.is_completed ==> s.remaining_seconds == 0
}

/// Something told of each new state of a timer.
pub trait StateObserver: Send {
    /// The observer accepts every snapshot.
    spec fn accepts_all(&self) -> bool;

    /// Receives a snapshot of the new state.
    fn notify(&self, snapshot: TimerState)
        requires
            self.accepts_all(),
    ;
}

/// An observer made of a function that takes the snapshot.
pub struct FnObserver<F> {
    pub f: F,
}

impl<F: Fn(TimerState) + Send> StateObserver for FnObserver<F> {
    open spec fn accepts_all(&self) -> bool {
        forall|s: TimerState| self.f.requires((s,))
    }

    fn notify(&self, snapshot: TimerState) {
        (self.f)(snapshot);
    }
}

/// Hands `snapshot` to the observer, if one is registered.
fn notify_state_change(callback: &Option<Box<dyn StateObserver>>, snapshot: TimerState)
    requires
        callback matches Some(f) ==> f.accepts_all(),
{
    if let Some(f) = callback {
        f.notify(snapshot);
    }
}

/// Manages one timer and tells an optional observer of every change to it.
pub struct TimerLogic {
    state: TimerState,
    callback: Option<Box<dyn StateObserver>>,
    notices: Ghost<Seq<TimerState>>,
}

impl TimerLogic {
    /// The controller's invariant: a consistent state, and an observer, if any, that
    /// accepts every snapshot.
    pub closed spec fn wf(&self) -> bool {
        &&& consistent(self.state)
        &&& self.callback matches Some(f) ==> f.accepts_all()
    }

    /// The current state.
    pub closed spec fn state(&self) -> TimerState {
        self.state
    }

    /// Every snapshot published so far, oldest first; each went to the observer
    /// registered at the time, if any.
    pub closed spec fn notifications(&self) -> Seq<TimerState> {
        self.notices@
    }

    /// The registered observer, if any.
    pub closed spec fn observer(&self) -> Option<Box<dyn StateObserver>> {
        self.callback
    }

    /// Records `self.state` as published and hands it to the observer.
    fn publish(&mut self)
        requires
            old(self).callback matches Some(f) ==> f.accepts_all(),
        ensures
            final(self).state == old(self).state,
            final(self).callback == old(self).callback,
            final(self).notices@ == old(self).notices@.push(old(self).state),
    {
        self.notices = Ghost(self.notices@.push(self.state));
        notify_state_change(&self.callback, self.state);
    }

    /// A controller holding the all-zero placeholder state, with no observer.
    pub fn new() -> (r: TimerLogic)
        ensures
            r.wf(),
            r.state() == TimerState::zero(),
            r.notifications() == Seq::<TimerState>::empty(),
            r.observer() is None,
    {
        TimerLogic { state: TimerState::default(), callback: None, notices: Ghost(Seq::empty()) }
    }

    /// A controller holding a stopped timer of the given duration, if it is valid.
    pub fn with_time(hours: u32, minutes: u32, seconds: u32) -> (r: Result<TimerLogic, TimeError>)
        ensures
            r is Ok <==> is_valid_duration(hours, minutes, seconds),
            match r {
                Ok(t) => {
                    &&& t.wf()
                    &&& t.state() == TimerState::configured(hours, minutes, seconds)
                    &&& t.notifications() == Seq::<TimerState>::empty()
                    &&& t.observer() is None
                },
                Err(e) => validation(hours, minutes, seconds) == Err::<(), TimeError>(e),
            },
    {
        match validate_time(hours, minutes, seconds) {
            Ok(()) => Ok(
                TimerLogic {
                    state: TimerState::new(hours, minutes, seconds),
                    callback: None,
                    notices: Ghost(Seq::empty()),
                },
            ),
            Err(e) => Err(e),
        }
    }

    /// Registers `callback` as the observer, in place of any earlier one.
    pub fn set_state_callback<F: Fn(TimerState) + Send + 'static>(&mut self, callback: F)
        requires
            old(self).wf(),
            forall|s: TimerState| callback.requires((s,)),
        ensures
            final(self).wf(),
            final(self).state() == old(self).state(),
            final(self).notifications() == old(self).notifications(),
            final(self).observer() == Some::<Box<dyn StateObserver>>(
                Box::new(FnObserver { f: callback }),
            ),
    {
        self.callback = Some(Box::new(FnObserver { f: callback }));
    }

    /// The current state.
    pub fn get_state(&self) -> (r: &TimerState)
        requires
            self.wf(),
        ensures
            *r == self.state(),
            consistent(*r),
    {
        &self.state
    }

    /// Configures a new duration, if it is valid: the timer then stands stopped with the
    /// whole duration left, and the observer is told. An invalid duration changes nothing.
    pub fn set_time(&mut self, hours: u32, minutes: u32, seconds: u32) -> (r: Result<(), TimeError>)
        requires
            old(self).wf(),
        ensures
            final(self).wf(),
            final(self).observer() == old(self).observer(),
            r == validation(hours, minutes, seconds),
            r is Ok ==> final(self).state() == TimerState::configured(hours, minutes, seconds)
                && final(self).notifications() == old(self).notifications().push(
                TimerState::configured(hours, minutes, seconds),
            ),
            r is Err ==> final(self).state() == old(self).state() && final(self).notifications()
                == old(self).notifications(),
    {
        match validate_time(hours, minutes, seconds) {
            Ok(()) => {
                self.state = TimerState::new(hours, minutes, seconds);
                self.publish();
                Ok(())
            },
            Err(e) => Err(e),
        }
    }

    /// Starts the countdown, if time is left and the timer has not completed; the
    /// observer is then told, also where it was already running.
    pub fn start_timer(&mut self)
        requires
            old(self).wf(),
        ensures
            final(self).wf(),
            final(self).observer() == old(self).observer(),
            final(self).state() == old(self).state().after_start(),
            final(self).notifications() == old(self).notifications() + start_notices(
                old(self).state(),
            ),
    {
        if !self.state.is_completed && self.state.remaining_seconds > 0 {
            self.state.is_running = true;
            self.state.is_completed = false;
            self.publish();
        }
    }

    /// The start/pause control: a running timer pauses; any other is configured afresh
    /// to the given duration and started, unless that duration is invalid, which
    /// changes nothing.
    pub fn start_or_pause(&mut self, hours: u32, minutes: u32, seconds: u32)
        -> (r: Result<(), TimeError>)
        requires
            old(self).wf(),
        ensures
            final(self).wf(),
            final(self).observer() == old(self).observer(),
            old(self).state().is_running ==> r is Ok && final(self).state() == old(
                self,
            ).state().after_pause() && final(self).notifications() == old(self).notifications()
                + pause_notices(old(self).state()),
            !old(self).state().is_running ==> r == validation(hours, minutes, seconds),
            !old(self).state().is_running && r is Ok ==> final(self).state()
                == TimerState::configured(hours, minutes, seconds).after_start()
                && final(self).notifications() == old(self).notifications().push(
                TimerState::configured(hours, minutes, seconds),
            ).push(TimerState::configured(hours, minutes, seconds).after_start()),
            r is Err ==> final(self).state() == old(self).state() && final(self).notifications()
                == old(self).notifications(),
    {
        if self.state.is_running {
            self.pause_timer();
            Ok(())
        } else {
            match self.set_time(hours, minutes, seconds) {
                Ok(()) => {
                    self.start_timer();
                    Ok(())
                },
                Err(e) => Err(e),
            }
        }
    }

    /// Stops the countdown, if it runs, and tells the observer.
    pub fn pause_timer(&mut self)
        requires
            old(self).wf(),
        ensures
            final(self).wf(),
            final(self).observer() == old(self).observer(),
            final(self).state() == old(self).state().after_pause(),
            final(self).notifications() == old(self).notifications() + pause_notices(
                old(self).state(),
            ),
    {
        if self.state.is_running {
            self.state.is_running = false;
            self.publish();
        }
    }

    /// Puts the whole configured duration back, stopped, and tells the observer.
    pub fn reset_timer(&mut self)
        requires
            old(self).wf(),
        ensures
            final(self).wf(),
            final(self).observer() == old(self).observer(),
            final(self).state() == old(self).state().restarted(),
            final(self).notifications() == old(self).notifications().push(
                old(self).state().restarted(),
            ),
    {
        self.state.reset();
        self.publish();
    }

    /// Whether the countdown runs.
    pub fn is_running(&self) -> (r: bool)
        ensures
            r == self.state().is_running,
    {
        self.state.is_running
    }

    /// Whether the countdown has reached zero.
    pub fn is_completed(&self) -> (r: bool)
        ensures
            r == self.state().is_completed,
    {
        self.state.is_completed
    }

    /// The time left, as `HH:MM:SS`.
    pub fn get_remaining_time_string(&self) -> (r: String)
        ensures
            r@ == clock_text(self.state().remaining_seconds as nat),
    {
        self.state.format_remaining_time()
    }

    /// One second passes. A running timer loses one second and the observer is told; when
    /// that leaves no time, the timer completes and the observer is told again. Returns
    /// whether this call completed the timer.
    pub fn tick(&mut self) -> (r: bool)
        requires
            old(self).wf(),
        ensures
            final(self).wf(),
            final(self).observer() == old(self).observer(),
            r == (old(self).state().is_running && old(self).state().remaining_seconds == 1),
            final(self).state() == old(self).state().after_tick(),
            final(self).notifications() == old(self).notifications() + tick_notices(
                old(self).state(),
            ),
            old(self).state().is_running ==> final(self).state().remaining_seconds == old(
                self,
            ).state().remaining_seconds - 1,
            !old(self).state().is_running ==> final(self).state() == old(self).state(),
    {
        if !self.state.is_running || self.state.is_completed {
            return false;
        }
        if self.state.remaining_seconds > 0 {
            self.state.remaining_seconds = self.state.remaining_seconds - 1;
            self.publish();
            if self.state.remaining_seconds == 0 {
                self.state.is_running = false;
                self.state.is_completed = true;
                self.publish();
                return true;
            }
        }
        false
    }
}

impl Default for TimerLogic {
    /// The same as `TimerLogic::new`.
    fn default() -> (r: TimerLogic)
        ensures
            r.wf(),
            r.state() == TimerState::zero(),
            r.notifications() == Seq::<TimerState>::empty(),
            r.observer() is None,
    {
        TimerLogic::new()
    }
}

} // verus!
