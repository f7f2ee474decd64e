//! Keyboard-driven views over a shared, interleaved sample buffer: a waveform
//! chart, a file navigator, a filter panel, and the dispatcher that routes keys
//! to them and drives their per-frame processing.

pub mod app;
pub mod chart;
pub mod cursor;
pub mod file;
pub mod filters;
pub mod key;
pub mod knob;
pub mod listing;
pub mod menu;
pub mod path;
pub mod samples;
pub mod text;
pub mod view;
