//! Settings: the values that drive playback, display and library scanning.

pub mod schema;

pub use schema::{
    AudioSettings, ControlsSettings, LibrarySettings, LoopModeSetting, PlaybackSettings, Settings,
    TimeField, TrackDisplayField, UiSettings,
};
