//! A pomodoro countdown: the timer's state machine, what it shows, and the
//! decisions of the loop that drives it.

pub mod args;
pub mod clock;
pub mod display;
pub mod pomodoro;
pub mod session;
pub mod timer;
