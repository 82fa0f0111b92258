//! A terminal Pomodoro timer core: alternating work and break sessions,
//! a countdown evaluator, and the state machine that drives transitions
//! from key presses and elapsed time.
//!
//! The machine lives in [`app`], its data types in [`structs`], countdown
//! formatting and duration parsing in [`utils`], and the plain display
//! data handed to a presentation layer in [`widgets`].

pub mod app;
pub mod structs;
pub mod utils;
pub mod widgets;
