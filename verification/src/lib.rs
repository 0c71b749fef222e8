//! Controller for an on-screen virtual keyboard that runs as an external
//! process.
//!
//! The library has two halves. `process` models the operating system's view
//! of the keyboard binary — how many matching processes exist and what each
//! control action (query, start, signal, kill) does to that view. `window`
//! holds the applet's own state machine: a popup flag and a liveness flag,
//! advanced by user-facing messages, each step returning the process-control
//! effect the host must perform.

pub mod process;
pub mod window;
