//! A small Pomodoro timer library: the clock rendering, the drift-free
//! countdown schedule and the focus/break session plan.
pub mod clock;
pub mod countdown;
pub mod session;
pub mod messages;
