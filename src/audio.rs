//! Playback: queue ordering, shared types and the engine state machine.


pub mod engine;
pub mod queue;
pub mod types;


pub use engine::{Effect, Engine, Fade};
pub use queue::reorder_queue_in_place;
pub use types::{AudioCmd, LoopMode, OrderHandle, PlaybackHandle, PlaybackInfo};
