//! The settings schema and its defaults.
use vstd::prelude::*;
use vstd::string::*;

verus! {

/// All application settings.
#[derive(Debug, Clone)]
pub struct Settings {
    pub audio: AudioSettings,
    pub ui: UiSettings,
    pub controls: ControlsSettings,
    pub playback: PlaybackSettings,
    pub library: LibrarySettings,
}

impl Default for Settings {
    fn default() -> (r: Self)
        ensures
            r.audio.crossfade_ms == 250,
            r.audio.crossfade_steps == 10,
            r.audio.quit_fade_out_ms == 500,
            r.controls.scrub_seconds == 5,
            !r.playback.shuffle,
            r.playback.loop_mode == LoopModeSetting::LoopAll,
    {
        Settings {
            audio: AudioSettings::default(),
            ui: UiSettings::default(),
            controls: ControlsSettings::default(),
            playback: PlaybackSettings::default(),
            library: LibrarySettings::default(),
        }
    }
}

impl Settings {
    /// Checks the values that the engine cannot work with: the crossfade
    /// needs at least one step.
    pub fn validate(&self) -> (r: Result<(), String>)
        ensures
            r is Ok <==> self.audio.crossfade_steps >= 1,
            r matches Err(e) ==> e@ == "audio.crossfade_steps must be >= 1"@,
    {
        if self.audio.crossfade_steps == 0 {
            return Err(String::from_str("audio.crossfade_steps must be >= 1"));
        }
        Ok(())
    }
}

/// Playback engine settings.
#[derive(Debug, Clone, Copy, PartialEq, Eq, Structural)]
pub struct AudioSettings {
    /// Crossfade duration when switching tracks, in milliseconds; 0 disables it.
    pub crossfade_ms: u64,
    /// Number of volume steps of a crossfade.
    pub crossfade_steps: u64,
    /// Fade-out duration when quitting, in milliseconds; 0 stops at once.
    pub quit_fade_out_ms: u64,
}

impl Default for AudioSettings {
    fn default() -> (r: Self)
        ensures
            r.crossfade_ms == 250,
            r.crossfade_steps == 10,
            r.quit_fade_out_ms == 500,
    {
        AudioSettings { crossfade_ms: 250, crossfade_steps: 10, quit_fade_out_ms: 500 }
    }
}

/// Display settings.
#[derive(Debug, Clone)]
pub struct UiSettings {
    /// Whether the cursor starts in "follow playback" mode.
    pub follow_playback: bool,
    /// The text shown in the header box.
    pub header_text: String,
    /// Which track fields the status line shows, in order.
    pub now_playing_track_fields: Vec<TrackDisplayField>,
    /// Separator between `now_playing_track_fields`.
    pub now_playing_track_separator: String,
    /// Which time fields the status line shows, in order.
    pub now_playing_time_fields: Vec<TimeField>,
    /// Separator between `now_playing_time_fields`.
    pub now_playing_time_separator: String,
}

impl Default for UiSettings {
    fn default() -> (r: Self)
        ensures
            r.follow_playback,
            r.now_playing_track_fields@ == seq![TrackDisplayField::Display],
            r.now_playing_track_separator@ == " - "@,
            r.now_playing_time_fields@ == seq![TimeField::Elapsed, TimeField::Total, TimeField::Remaining],
            r.now_playing_time_separator@ == " / "@,
    {
        UiSettings {
            follow_playback: true,
            header_text: String::from_str(" ~ And presto! It's music ~ "),
            now_playing_track_fields: vec![TrackDisplayField::Display],
            now_playing_track_separator: String::from_str(" - "),
            now_playing_time_fields: vec![TimeField::Elapsed, TimeField::Total, TimeField::Remaining],
            now_playing_time_separator: String::from_str(" / "),
        }
    }
}

/// Key binding settings.
#[derive(Debug, Clone, Copy)]
pub struct ControlsSettings {
    /// Number of seconds to scrub per key press.
    pub scrub_seconds: u64,
}

impl Default for ControlsSettings {
    fn default() -> (r: Self)
        ensures
            r.scrub_seconds == 5,
    {
        ControlsSettings { scrub_seconds: 5 }
    }
}

/// Playback defaults at start-up.
#[derive(Debug, Clone, Copy)]
pub struct PlaybackSettings {
    /// Whether shuffle starts enabled.
    pub shuffle: bool,
    /// The loop mode at start-up.
    pub loop_mode: LoopModeSetting,
}

impl Default for PlaybackSettings {
    fn default() -> (r: Self)
        ensures
            !r.shuffle,
            r.loop_mode == LoopModeSetting::LoopAll,
    {
        PlaybackSettings { shuffle: false, loop_mode: LoopModeSetting::LoopAll }
    }
}

/// The loop mode as written in the settings.
#[derive(Debug, Copy, Clone, PartialEq, Eq, Structural)]
pub enum LoopModeSetting {
    NoLoop,
    LoopAll,
    LoopOne,
}

/// A time field of the status line.
#[derive(Debug, Copy, Clone, PartialEq, Eq, Structural)]
pub enum TimeField {
    Elapsed,
    Total,
    Remaining,
}

/// A track field that a display string can be made of.
#[derive(Debug, Copy, Clone, PartialEq, Eq, Structural)]
pub enum TrackDisplayField {
    /// The track's precomputed display string.
    Display,
    Title,
    Artist,
    Album,
    Filename,
    Path,
}

/// Library scanning settings.
#[derive(Debug, Clone)]
pub struct LibrarySettings {
    /// File extensions treated as audio (case-insensitive, without dot).
    pub extensions: Vec<String>,
    /// Whether to follow symlinks while scanning.
    pub follow_links: bool,
    /// Whether to include hidden files and directories.
    pub include_hidden: bool,
    /// Whether to recurse into subdirectories.
    pub recursive: bool,
    /// Optional cap on recursion depth.
    pub max_depth: Option<usize>,
    /// Which fields make up a track's display string, in order.
    pub display_fields: Vec<TrackDisplayField>,
    /// Separator between `display_fields`.
    pub display_separator: String,
}

impl Default for LibrarySettings {
    fn default() -> (r: Self)
        ensures
            r.extensions@.len() == 4,
            r.extensions@[0]@ == "mp3"@,
            r.extensions@[1]@ == "flac"@,
            r.extensions@[2]@ == "wav"@,
            r.extensions@[3]@ == "ogg"@,
            r.follow_links,
            r.include_hidden,
            r.recursive,
            r.max_depth is None,
            r.display_fields@ == seq![TrackDisplayField::Artist, TrackDisplayField::Title],
            r.display_separator@ == " - "@,
    {
        LibrarySettings {
            extensions: vec![
                String::from_str("mp3"),
                String::from_str("flac"),
                String::from_str("wav"),
                String::from_str("ogg"),
            ],
            follow_links: true,
            include_hidden: true,
            recursive: true,
            max_depth: None,
            display_fields: vec![TrackDisplayField::Artist, TrackDisplayField::Title],
            display_separator: String::from_str(" - "),
        }
    }
}

} // verus!
