//! Core logic of a small desktop autoclicker.
//!
//! The library holds the application's state machine: the delay text is
//! reduced to a number of milliseconds, a global hotkey arms and disarms the
//! click timer edge-triggered, each frame tick decides whether a click fires
//! and where, a "record the next click" flow captures a fixed screen
//! position, and a modal settings overlay suspends the main controls while it
//! is open.  The host program renders the widgets, polls the real input
//! devices and injects the real clicks; every decision it acts on is computed
//! and proved here.

pub mod delay;
pub mod state;
pub mod tick;
pub mod laws;
