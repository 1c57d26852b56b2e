//! Typing-session engine: per-line progress, the session state machine,
//! its metrics, and the per-second progress samples used for charting.
pub mod line;
pub mod text;
mod clock;
pub mod typing;
pub mod progress;
pub mod theme;
pub mod app;
pub mod laws;
