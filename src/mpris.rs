//! What a media-control endpoint needs from the library: its commands, the
//! playback status strings and the metadata of the current track.
use vstd::prelude::*;
use vstd::string::*;

use crate::app::PlaybackState;
use crate::library::Track;
use crate::text::{append_chars, chars_of, decimal, decimal_chars, string_of};

verus! {

/// A command from a remote-control surface.
#[derive(Clone, Debug, Copy, PartialEq, Eq, Structural)]
pub enum ControlCmd {
    Quit,
    Play,
    Pause,
    PlayPause,
    Stop,
    Next,
    Prev,
}

/// The status string of a playback state.
pub open spec fn status_of(p: PlaybackState) -> Seq<char> {
    match p {
        PlaybackState::Stopped => "Stopped"@,
        PlaybackState::Playing => "Playing"@,
        PlaybackState::Paused => "Paused"@,
    }
}

/// The status string of a playback state.
pub fn playback_status(p: PlaybackState) -> (r: &'static str)
    ensures
        r@ == status_of(p),
{
    match p {
        PlaybackState::Stopped => "Stopped",
        PlaybackState::Playing => "Playing",
        PlaybackState::Paused => "Paused",
    }
}

/// Metadata of the current track, as plain values.
#[derive(Clone, Debug)]
pub struct TrackMetadata {
    pub title: Option<String>,
    pub artist: Vec<String>,
    pub album: Option<String>,
    pub url: Option<String>,
    pub length_micros: Option<i64>,
    pub track_id: Option<String>,
}

/// The object path that names track `i`.
pub open spec fn track_id_of(i: nat) -> Seq<char> {
    "/org/mpris/MediaPlayer2/track/"@ + decimal(i)
}

/// A duration in milliseconds as microseconds, capped at `i64::MAX`.
pub open spec fn micros_of(ms: u64) -> int {
    if ms as int * 1000 > i64::MAX {
        i64::MAX as int
    } else {
        ms as int * 1000
    }
}

/// The object path that names track `i`.
pub fn track_id(i: usize) -> (r: String)
    ensures
        r@ == track_id_of(i as nat),
{
    let mut out = chars_of("/org/mpris/MediaPlayer2/track/");
    append_chars(&mut out, &decimal_chars(i as u64));
    string_of(&out)
}

/// The metadata published for the track at `idx`: its title, artist (as
/// a list of zero or one), album, path, length and object path; all empty
/// without a track.
pub fn track_metadata(idx: Option<usize>, track: Option<&Track>) -> (r: TrackMetadata)
    ensures
        match track {
            None => r.title is None && r.artist@.len() == 0 && r.album is None && r.url is None
                && r.length_micros is None && r.track_id is None,
            Some(t) => {
                &&& (r.title matches Some(s) && s@ == t.title@)
                &&& match t.artist {
                    Some(a) => r.artist@.len() == 1 && r.artist@[0]@ == a@,
                    None => r.artist@.len() == 0,
                }
                &&& match t.album {
                    Some(a) => r.album matches Some(s) && s@ == a@,
                    None => r.album is None,
                }
                &&& (r.url matches Some(s) && s@ == t.path@)
                &&& match t.duration {
                    Some(ms) => r.length_micros == Some(micros_of(ms) as i64),
                    None => r.length_micros is None,
                }
                &&& match idx {
                    Some(i) => r.track_id matches Some(s) && s@ == track_id_of(i as nat),
                    None => r.track_id is None,
                }
            },
        },
{
    match track {
        None => TrackMetadata {
            title: None,
            artist: Vec::new(),
            album: None,
            url: None,
            length_micros: None,
            track_id: None,
        },
        Some(t) => {
            let mut artist: Vec<String> = Vec::new();
            if let Some(a) = &t.artist {
                artist.push(string_of(&chars_of(a.as_str())));
            }
            let album = match &t.album {
                Some(a) => Some(string_of(&chars_of(a.as_str()))),
                None => None,
            };
            let length_micros = match t.duration {
                Some(ms) => if ms > (i64::MAX as u64) / 1000 {
                    Some(i64::MAX)
                } else {
                    Some((ms * 1000) as i64)
                },
                None => None,
            };
            let track_id = match idx {
                Some(i) => Some(track_id(i)),
                None => None,
            };
            TrackMetadata {
                title: Some(string_of(&chars_of(t.title.as_str()))),
                artist,
                album,
                url: Some(string_of(&chars_of(t.path.as_str()))),
                length_micros,
                track_id,
            }
        },
    }
}

} // verus!
