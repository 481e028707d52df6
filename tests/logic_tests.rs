use slint_timer::{validate_time, TimerLogic};
use std::sync::{Arc, Mutex};

#[test]
fn test_valid_time_inputs() {
    // Valid boundary values
    assert!(validate_time(0, 0, 1).is_ok());
    assert!(validate_time(23, 59, 59).is_ok());
    assert!(validate_time(1, 30, 45).is_ok());
    assert!(validate_time(0, 5, 0).is_ok());
    assert!(validate_time(2, 0, 0).is_ok());
}

#[test]
fn test_invalid_hours() {
    assert!(validate_time(24, 0, 0).is_err());
    assert!(validate_time(25, 30, 45).is_err());

    let error = validate_time(24, 0, 0).unwrap_err();
    assert!(error.message().contains("Hours must be between 0 and 23"));
}

#[test]
fn test_invalid_minutes() {
    assert!(validate_time(0, 60, 0).is_err());
    assert!(validate_time(12, 75, 30).is_err());

    let error = validate_time(0, 60, 0).unwrap_err();
    assert!(error.message().contains("Minutes must be between 0 and 59"));
}

#[test]
fn test_invalid_seconds() {
    assert!(validate_time(0, 0, 60).is_err());
    assert!(validate_time(5, 30, 90).is_err());

    let error = validate_time(0, 0, 60).unwrap_err();
    assert!(error.message().contains("Seconds must be between 0 and 59"));
}

#[test]
fn test_zero_duration() {
    assert!(validate_time(0, 0, 0).is_err());

    let error = validate_time(0, 0, 0).unwrap_err();
    assert!(error.message().contains("Timer duration cannot be zero"));
}

#[test]
fn test_timer_logic_creation() {
    let timer = TimerLogic::new();
    assert!(!timer.is_running());
    assert!(!timer.is_completed());
    assert_eq!(timer.get_remaining_time_string(), "00:00:00");
}

#[test]
fn test_timer_logic_with_time() {
    let timer = TimerLogic::with_time(1, 30, 45).unwrap();
    assert!(!timer.is_running());
    assert!(!timer.is_completed());
    assert_eq!(timer.get_remaining_time_string(), "01:30:45");
}

#[test]
fn test_timer_logic_invalid_time() {
    assert!(TimerLogic::with_time(25, 0, 0).is_err());
    assert!(TimerLogic::with_time(0, 60, 0).is_err());
    assert!(TimerLogic::with_time(0, 0, 60).is_err());
    assert!(TimerLogic::with_time(0, 0, 0).is_err());
}

#[test]
fn test_timer_state_transitions() {
    let mut timer = TimerLogic::with_time(0, 0, 5).unwrap();

    assert!(!timer.is_running());
    assert!(!timer.is_completed());

    timer.start_timer();
    assert!(timer.is_running());
    assert!(!timer.is_completed());

    timer.pause_timer();
    assert!(!timer.is_running());
    assert!(!timer.is_completed());

    timer.reset_timer();
    assert!(!timer.is_running());
    assert!(!timer.is_completed());
    assert_eq!(timer.get_remaining_time_string(), "00:00:05");
}

#[test]
fn test_set_time() {
    let mut timer = TimerLogic::new();

    assert!(timer.set_time(2, 15, 30).is_ok());
    assert_eq!(timer.get_remaining_time_string(), "02:15:30");

    assert!(timer.set_time(25, 0, 0).is_err());
    // The state stays as it was after an error
    assert_eq!(timer.get_remaining_time_string(), "02:15:30");
}

#[test]
fn test_tick_functionality() {
    let mut timer = TimerLogic::with_time(0, 0, 3).unwrap();

    // No tick while the timer is not running
    assert!(!timer.tick());
    assert_eq!(timer.get_remaining_time_string(), "00:00:03");

    timer.start_timer();
    assert!(timer.is_running());
    assert!(!timer.is_completed());

    assert!(!timer.tick());
    assert_eq!(timer.get_remaining_time_string(), "00:00:02");
    assert!(timer.is_running());
    assert!(!timer.is_completed());

    assert!(!timer.tick());
    assert_eq!(timer.get_remaining_time_string(), "00:00:01");
    assert!(timer.is_running());
    assert!(!timer.is_completed());

    assert!(timer.tick());
    assert_eq!(timer.get_remaining_time_string(), "00:00:00");
    assert!(!timer.is_running());
    assert!(timer.is_completed());

    // No tick after completion
    assert!(!timer.tick());
    assert_eq!(timer.get_remaining_time_string(), "00:00:00");
}

#[test]
fn test_tick_when_paused() {
    let mut timer = TimerLogic::with_time(0, 0, 5).unwrap();
    timer.start_timer();

    assert!(!timer.tick());
    assert_eq!(timer.get_remaining_time_string(), "00:00:04");

    timer.pause_timer();
    assert!(!timer.is_running());

    assert!(!timer.tick());
    assert_eq!(timer.get_remaining_time_string(), "00:00:04");

    timer.start_timer();
    assert!(!timer.tick());
    assert_eq!(timer.get_remaining_time_string(), "00:00:03");
}

#[test]
fn test_callback_on_tick() {

    let mut timer = TimerLogic::with_time(0, 0, 2).unwrap();
    let callback_states = Arc::new(Mutex::new(Vec::new()));
    let callback_states_clone = callback_states.clone();

    timer.set_state_callback(move |state| {
        callback_states_clone.lock().unwrap().push(state.clone());
    });

    timer.start_timer();
    timer.tick();
    timer.tick(); // tick and completion

    let states = callback_states.lock().unwrap();
    assert_eq!(states.len(), 4);

    assert_eq!(states[1].remaining_seconds, 1);
    assert_eq!(states[2].remaining_seconds, 0);
    assert!(states[3].is_completed);
}
