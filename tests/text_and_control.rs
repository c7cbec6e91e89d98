use presto::app::{App, PlaybackState};
use presto::audio::{AudioCmd, LoopMode, PlaybackInfo};
use presto::config::{Settings, TimeField, TrackDisplayField, UiSettings};
use presto::library::Track;
use presto::mpris::{playback_status, track_id, track_metadata, ControlCmd};
use presto::runtime::{handle_control_cmd, EventLoopState};
use presto::ui::{
    controls_text, format_duration_mmss_ceil, format_mmss, now_playing_time_text,
    now_playing_track_text, status_text,
};

fn track() -> Track {
    Track {
        path: "/music/Song File.mp3".to_string(),
        title: "Song".to_string(),
        artist: Some(" Artist ".to_string()),
        album: None,
        duration: Some(185_500),
        display: "Artist - Song".to_string(),
    }
}

#[test]
fn mmss_formats_whole_seconds() {
    assert_eq!(format_mmss(0), "00:00");
    assert_eq!(format_mmss(65_999), "01:05");
    assert_eq!(format_mmss(6_000_000), "100:00");
}

#[test]
fn duration_rounds_partial_seconds_up() {
    assert_eq!(format_duration_mmss_ceil(None), "-");
    assert_eq!(format_duration_mmss_ceil(Some(60_000)), "1:00 (60s)");
    assert_eq!(format_duration_mmss_ceil(Some(60_001)), "1:01 (61s)");
    assert_eq!(format_duration_mmss_ceil(Some(5_000)), "0:05 (5s)");
}

#[test]
fn controls_line_names_the_scrub_step() {
    assert_eq!(
        controls_text(5),
        "[j/k] up/down | [h/l] prev/next song | [H/L] scrub -/+5s | [enter] play selected song | [space/p] play/pause | [gg/G] top/bottom | [K] metadata | [/] filter | [s] shuffle | [r] loop mode | [q] quit"
    );
}

#[test]
fn time_line_joins_the_configured_fields() {
    let ui = UiSettings::default();
    assert_eq!(now_playing_time_text(65_000, Some(185_500), &ui), Some("01:05 / 03:05 / -02:00".to_string()));
    assert_eq!(now_playing_time_text(65_000, None, &ui), Some("01:05".to_string()));
    assert_eq!(now_playing_time_text(200_000, Some(100_000), &ui), Some("03:20 / 01:40 / -00:00".to_string()));
    let only_total = UiSettings { now_playing_time_fields: vec![TimeField::Total], ..UiSettings::default() };
    assert_eq!(now_playing_time_text(0, None, &only_total), None);
    let none = UiSettings { now_playing_time_fields: vec![], ..UiSettings::default() };
    assert_eq!(now_playing_time_text(0, Some(1), &none), None);
}

#[test]
fn track_line_uses_fields_or_display() {
    let app = App::new(vec![track()]);
    let ui = UiSettings::default();
    assert_eq!(now_playing_track_text(&app, 0, &ui), "Artist - Song");
    let ui = UiSettings {
        now_playing_track_fields: vec![TrackDisplayField::Title, TrackDisplayField::Artist, TrackDisplayField::Filename],
        now_playing_track_separator: " ~ ".to_string(),
        ..UiSettings::default()
    };
    assert_eq!(now_playing_track_text(&app, 0, &ui), "Song ~ Artist ~ Song File");
    let ui = UiSettings { now_playing_track_fields: vec![TrackDisplayField::Album], ..UiSettings::default() };
    assert_eq!(now_playing_track_text(&app, 0, &ui), "Artist - Song");
}

#[test]
fn validate_rejects_zero_crossfade_steps() {
    let mut s = Settings::default();
    assert!(s.validate().is_ok());
    s.audio.crossfade_steps = 0;
    assert_eq!(s.validate(), Err("audio.crossfade_steps must be >= 1".to_string()));
}

#[test]
fn status_strings() {
    assert_eq!(playback_status(PlaybackState::Stopped), "Stopped");
    assert_eq!(playback_status(PlaybackState::Playing), "Playing");
    assert_eq!(playback_status(PlaybackState::Paused), "Paused");
}

#[test]
fn metadata_of_a_track_and_of_none() {
    let t = track();
    let m = track_metadata(Some(7), Some(&t));
    assert_eq!(m.title.as_deref(), Some("Song"));
    assert_eq!(m.artist, vec![" Artist ".to_string()]);
    assert_eq!(m.album, None);
    assert_eq!(m.url.as_deref(), Some("/music/Song File.mp3"));
    assert_eq!(m.length_micros, Some(185_500_000));
    assert_eq!(m.track_id.as_deref(), Some("/org/mpris/MediaPlayer2/track/7"));
    assert_eq!(track_id(1234567), "/org/mpris/MediaPlayer2/track/1234567");
    let m = track_metadata(None, None);
    assert!(m.title.is_none() && m.artist.is_empty() && m.track_id.is_none());
}

#[test]
fn control_commands_drive_the_model() {
    let mut app = App::new(vec![track()]);
    app.follow_playback = false;
    app.selected = 0;
    let out = handle_control_cmd(&mut app, ControlCmd::PlayPause);
    assert!(matches!(out.send, Some(AudioCmd::Play(0))));
    assert!(out.refresh && !out.quit);
    assert_eq!(app.playback, PlaybackState::Playing);
    assert!(app.follow_playback);

    let out = handle_control_cmd(&mut app, ControlCmd::Pause);
    assert!(matches!(out.send, Some(AudioCmd::TogglePause)));
    assert_eq!(app.playback, PlaybackState::Paused);

    let out = handle_control_cmd(&mut app, ControlCmd::Pause);
    assert!(out.send.is_none() && !out.refresh);

    let out = handle_control_cmd(&mut app, ControlCmd::Play);
    assert!(matches!(out.send, Some(AudioCmd::TogglePause)));
    assert_eq!(app.playback, PlaybackState::Playing);

    let out = handle_control_cmd(&mut app, ControlCmd::Stop);
    assert!(matches!(out.send, Some(AudioCmd::Stop)));
    assert_eq!(app.playback, PlaybackState::Stopped);

    let out = handle_control_cmd(&mut app, ControlCmd::Quit);
    assert!(out.quit && out.send.is_none());

    let mut empty = App::new(vec![]);
    let out = handle_control_cmd(&mut empty, ControlCmd::Next);
    assert!(out.send.is_none());
    let state = EventLoopState::new(&empty);
    assert_eq!(state.last_mpris_playback, PlaybackState::Stopped);
    assert!(!state.pending_gg);
}

#[test]
fn status_line_lists_modes_song_and_directory() {
    let mut app = App::new(vec![track()]);
    app.filter_query = " so ".to_string();
    app.loop_mode = LoopMode::LoopOne;
    app.set_current_dir("/music".to_string());
    let ui = UiSettings::default();
    let info = PlaybackInfo { index: Some(0), elapsed_ms: 65_000, playing: true };
    assert_eq!(
        status_text(&app, Some(&info), &ui),
        " CURSOR: Follow • PLAYBACK: Repeat-one • FILTER: so • Song: Artist - Song [01:05 / 03:05 / -02:00] • Playing • Shuffle: OFF • Dir: /music"
    );
    app.follow_playback = false;
    app.filter_query.clear();
    let stopped = PlaybackInfo::default();
    assert_eq!(
        status_text(&app, Some(&stopped), &ui),
        " CURSOR: Free-roam • PLAYBACK: Repeat-one • Stopped • Shuffle: OFF • Dir: /music"
    );
    app.current_dir = None;
    app.filter_mode = true;
    app.shuffle = true;
    assert_eq!(status_text(&app, None, &ui), " CURSOR: Free-roam • PLAYBACK: Repeat-one • FILTER: • Shuffle: ON");
}
