//! A countdown timer: a validated duration, a state record, and a controller that
//! starts, pauses, resets and ticks it once per second.
pub mod laws;
pub mod logic;
pub mod state;
pub mod text;
pub mod validation;

pub use state::{Control, TimerState};
pub use validation::{sanitize_input, validate_time, TimeError, TimeField};
pub use logic::{FnObserver, StateObserver, TimerLogic};
