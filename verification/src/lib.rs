//! A focus-timer engine: a session state machine, the one-line session-file
//! format, and the reconciliation of the in-memory session with what a driver
//! observed of the session file on disk.
//!
//! The library never touches the disk or the clock. Every transition is a
//! function from the current state and the driver's observations to the next
//! state and, where the session file has to change, a command for the driver.
//!
//! Contracts are stated over the mathematical views of the types: a
//! [`pomodoro::Pomodoro`] is seen as a [`pomodoro::PomodoroView`], on which the
//! transitions are defined as plain functions.
//!
//! Three calls leave the verified code and are taken on trust, each behind
//! one small function: `dirs::cache_dir` and `Path::join` in [`path`], and
//! `HexColor::parse` in [`theme`].

pub mod cli;
pub mod codec;
pub mod commands;
pub mod config;
pub mod path;
pub mod pomodoro;
pub mod reconcile;
pub mod session;
pub mod sound;
pub mod text;
pub mod theme;
pub mod time;
