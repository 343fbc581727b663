//! Core of a desktop "now playing" status indicator.
//!
//! A long-running helper process reports what each playback zone is doing as
//! one JSON object per line. This library holds everything that decides: the
//! application state and its mathematical model, how each message changes that
//! state, which zone is shown, when the menu may be rebuilt, and how the helper
//! process is stopped. Reading streams, drawing and talking to the operating
//! system are left to the program around it.
pub mod autostart;
pub mod compositor;
pub mod guarantees;
pub mod protocol;
pub mod reconciler;
pub mod supervisor;
pub mod tray;
pub mod types;
pub mod wire;
pub mod zones;
