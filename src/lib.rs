//! A Pomodoro timer's core: phases of focus and break, time elapsed and remaining
//! under pause and resume, and the cadence of long breaks, each operation with a
//! verified contract.

pub mod args;
pub mod clock;
pub mod control;
pub mod laws;
pub mod notifications;
pub mod state;
pub mod theme;
pub mod time;
pub mod ui;
