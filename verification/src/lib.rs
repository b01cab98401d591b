//! Verified core of the Reverse Period terminal: the candle window, the
//! detection-matrix assembly, the engine's state machine, the
//! meta-cognitive tool planner and the small data records around them.

pub mod config;
pub mod detectors;
pub mod engine;
pub mod meta_cognitive;
pub mod neuro_symbolic;
pub mod providers;
pub mod state;
pub mod text;
pub mod ticks;
pub mod types;
