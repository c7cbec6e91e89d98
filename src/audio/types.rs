//! Small shared audio types: loop mode, commands and the playback snapshot.
use vstd::prelude::*;

verus! {

/// How playback continues at the end of a track or of the queue.
#[derive(Debug, Copy, Clone, PartialEq, Eq, Structural)]
pub enum LoopMode {
    /// Do not wrap at the end of the current queue.
    NoLoop,
    /// Wrap around to the start of the current queue.
    LoopAll,
    /// Repeat the current song when it ends.
    LoopOne,
}

impl Default for LoopMode {
    fn default() -> (r: Self)
        ensures
            r == LoopMode::LoopAll,
    {
        LoopMode::LoopAll
    }
}

/// A command for the playback engine.
#[derive(Debug)]
pub enum AudioCmd {
    /// Start playing the track at the given catalog index.
    Play(usize),
    /// Stop playback immediately.
    Stop,
    /// Toggle pause/resume.
    TogglePause,
    /// Toggle shuffle mode.
    ToggleShuffle,
    /// Replace the queue with the given candidate indices.
    SetQueue(Vec<usize>),
    /// Set the loop mode.
    SetLoopMode(LoopMode),
    /// Skip to the next track in the queue.
    Next,
    /// Go to the previous track in the queue.
    Prev,
    /// Stop the engine, fading out over `fade_out_ms` milliseconds.
    Quit { fade_out_ms: u64 },
    /// Seek by the given number of seconds (positive or negative).
    SeekBy(i32),
}

#[verifier::external_type_specification]
#[verifier::external_body]
#[verifier::reject_recursive_types(T)]
pub struct ExMutex<T: ?Sized>(std::sync::Mutex<T>);

/// Shared, lock-guarded playback snapshot.
pub type PlaybackHandle = std::sync::Arc<std::sync::Mutex<PlaybackInfo>>;

/// Shared, lock-guarded shuffle order.
pub type OrderHandle = std::sync::Arc<std::sync::Mutex<Vec<usize>>>;

/// What observers see of playback.
#[derive(Debug, Clone)]
pub struct PlaybackInfo {
    /// Catalog index of the current track, if any.
    pub index: Option<usize>,
    /// Elapsed playback time of the current track, in milliseconds.
    pub elapsed_ms: u64,
    /// Whether playback is running (not paused, not stopped).
    pub playing: bool,
}

impl Default for PlaybackInfo {
    fn default() -> (r: Self)
        ensures
            r.index is None,
            r.elapsed_ms == 0,
            !r.playing,
    {
        PlaybackInfo { index: None, elapsed_ms: 0, playing: false }
    }
}

} // verus!
