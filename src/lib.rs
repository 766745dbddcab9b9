//! Click-scheduling core of an auto-clicker: the settings it runs on, the
//! run/arm state machine of the engine, the timing of each click cycle and
//! the hotkey monitor's edge detector.

pub mod settings;
pub mod timing;
pub mod engine;
pub mod hotkey;
