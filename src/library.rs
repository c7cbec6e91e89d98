//! The track catalog: the track type and the rules that name and select tracks.

pub mod display;
pub mod model;
pub mod scan;

pub use display::{display_from_fields, make_display};
pub use model::Track;
pub use scan::{is_audio_file, is_hidden, sort_by_display, track_from_tags};
