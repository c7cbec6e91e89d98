use presto::config::{LibrarySettings, TrackDisplayField};
use presto::library::{display_from_fields, is_audio_file, make_display};

#[test]
fn make_display_prefers_artist_dash_title() {
    assert_eq!(make_display("Song", Some("Artist")), "Artist - Song");
    assert_eq!(make_display("Song", Some("  Artist  ")), "Artist - Song");
    assert_eq!(make_display("Song", None), "Song");
    assert_eq!(make_display("Song", Some("")), "Song");
    assert_eq!(make_display("Song", Some("   ")), "Song");
}

#[test]
fn is_audio_file_matches_known_extensions_case_insensitive() {
    let settings = LibrarySettings::default();
    assert!(is_audio_file("/tmp/a.mp3", &settings));
    assert!(is_audio_file("/tmp/a.MP3", &settings));
    assert!(is_audio_file("/tmp/a.flac", &settings));
    assert!(is_audio_file("/tmp/a.wav", &settings));
    assert!(is_audio_file("/tmp/a.ogg", &settings));
    assert!(!is_audio_file("/tmp/a.txt", &settings));
    assert!(!is_audio_file("/tmp/a", &settings));
}

#[test]
fn is_audio_file_matches_configured_extensions_case_insensitive() {
    let settings = LibrarySettings::default();
    assert!(is_audio_file("/tmp/a.mp3", &settings));
    assert!(is_audio_file("/tmp/a.MP3", &settings));
    assert!(is_audio_file("/tmp/a.flac", &settings));
    assert!(is_audio_file("/tmp/a.wav", &settings));
    assert!(is_audio_file("/tmp/a.ogg", &settings));
    assert!(!is_audio_file("/tmp/a.txt", &settings));
    assert!(!is_audio_file("/tmp/a", &settings));
}

#[test]
fn configured_extensions_are_normalized() {
    let settings = LibrarySettings {
        extensions: vec!["  .OPUS ".to_string(), "".to_string(), "...m4a".to_string()],
        ..LibrarySettings::default()
    };
    assert!(is_audio_file("/x/song.opus", &settings));
    assert!(is_audio_file("/x/song.M4A", &settings));
    assert!(!is_audio_file("/x/song.mp3", &settings));
    assert!(!is_audio_file("/x/song.", &settings));
}

#[test]
fn display_from_fields_can_format_artist_title() {
    let p = "/tmp/Song.mp3";
    assert_eq!(
        display_from_fields(
            p,
            "Song",
            Some("Artist"),
            None,
            &[TrackDisplayField::Artist, TrackDisplayField::Title],
            " - ",
        ),
        "Artist - Song"
    );
    assert_eq!(
        display_from_fields(
            p,
            "Song",
            Some("  Artist  "),
            None,
            &[TrackDisplayField::Artist, TrackDisplayField::Title],
            " - ",
        ),
        "Artist - Song"
    );
    assert_eq!(
        display_from_fields(
            p,
            "Song",
            None,
            None,
            &[TrackDisplayField::Artist, TrackDisplayField::Title],
            " - ",
        ),
        "Song"
    );
}

#[test]
fn display_from_fields_covers_every_field() {
    let p = "/music/dir/My Track.flac";
    assert_eq!(
        display_from_fields(
            p,
            " T ",
            Some("A"),
            Some(" Alb "),
            &[
                TrackDisplayField::Display,
                TrackDisplayField::Album,
                TrackDisplayField::Filename,
                TrackDisplayField::Path,
            ],
            " | ",
        ),
        "A | T | Alb | My Track | /music/dir/My Track.flac"
    );
    assert_eq!(display_from_fields(p, " raw ", None, None, &[], "-"), " raw ");
    assert_eq!(
        display_from_fields(p, "", Some(" "), None, &[TrackDisplayField::Title, TrackDisplayField::Artist], "-"),
        ""
    );
}
