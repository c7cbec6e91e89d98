use presto::app::{App, PlaybackState};
use presto::audio::{AudioCmd, Effect, LoopMode, OrderHandle, PlaybackInfo};
use presto::config::{LibrarySettings, LoopModeSetting, TrackDisplayField};
use presto::library::{is_hidden, sort_by_display, track_from_tags, Track};
use presto::mpris::ControlCmd;
use presto::runtime::{
    handle_key, loop_mode_from_setting, reselect_after_shuffle, sync_playback, EventLoopState, Key,
};
use presto::ui::{centered_rect, list_window};
use std::sync::{Arc, Mutex};

fn t(title: &str) -> Track {
    Track {
        path: String::new(),
        title: title.into(),
        artist: None,
        album: None,
        duration: None,
        display: title.into(),
    }
}

fn ch(c: char) -> Key {
    Key::Char { c, ctrl: false }
}

#[test]
fn keys_move_the_cursor_and_send_commands() {
    let mut app = App::new(vec![t("A"), t("B"), t("C")]);
    let mut st = EventLoopState::new(&app);

    let out = handle_key(&mut app, &mut st, ch('j'), None, None, 5);
    assert_eq!(app.selected, 1);
    assert!(!app.follow_playback);
    assert!(out.refresh && out.send.is_none());

    handle_key(&mut app, &mut st, ch('G'), None, None, 5);
    assert_eq!(app.selected, 2);
    handle_key(&mut app, &mut st, ch('g'), None, None, 5);
    assert!(st.pending_gg);
    handle_key(&mut app, &mut st, ch('g'), None, None, 5);
    assert!(!st.pending_gg);
    assert_eq!(app.selected, 0);

    let out = handle_key(&mut app, &mut st, Key::Enter, None, None, 5);
    assert!(matches!(out.send, Some(AudioCmd::Play(0))));
    assert_eq!(app.playback, PlaybackState::Playing);
    assert_eq!(app.pending_follow_index, Some(0));
    let out = handle_key(&mut app, &mut st, Key::Enter, Some(0), None, 5);
    assert!(out.send.is_none());

    let out = handle_key(&mut app, &mut st, ch('H'), None, None, 5);
    assert!(matches!(out.send, Some(AudioCmd::SeekBy(-5))));
    let out = handle_key(&mut app, &mut st, ch('L'), None, None, u64::MAX);
    assert!(matches!(out.send, Some(AudioCmd::SeekBy(i32::MAX))));
    let out = handle_key(&mut app, &mut st, ch(' '), None, None, 5);
    assert_eq!(out.control, Some(ControlCmd::PlayPause));
    let out = handle_key(&mut app, &mut st, ch('r'), None, None, 5);
    assert!(matches!(out.send, Some(AudioCmd::SetLoopMode(LoopMode::LoopOne))));
    let out = handle_key(&mut app, &mut st, ch('q'), None, None, 5);
    assert!(out.quit);
}

#[test]
fn filter_mode_keys_edit_the_query() {
    let mut app = App::new(vec![t("Alpha"), t("Beta")]);
    let mut st = EventLoopState::new(&app);
    handle_key(&mut app, &mut st, ch('/'), None, None, 5);
    assert!(app.filter_mode);
    handle_key(&mut app, &mut st, ch('b'), None, None, 5);
    assert_eq!(app.filter_query, "b");
    assert_eq!(app.selected, 1);
    handle_key(&mut app, &mut st, Key::Char { c: '\u{1}', ctrl: false }, None, None, 5);
    assert_eq!(app.filter_query, "b");
    handle_key(&mut app, &mut st, Key::Backspace, None, None, 5);
    assert_eq!(app.filter_query, "");
    handle_key(&mut app, &mut st, ch('z'), None, None, 5);
    let out = handle_key(&mut app, &mut st, Key::Enter, None, None, 5);
    assert!(out.send.is_none());
    assert!(app.filter_mode);
    handle_key(&mut app, &mut st, Key::Backspace, None, None, 5);
    handle_key(&mut app, &mut st, ch('l'), None, None, 5);
    let out = handle_key(&mut app, &mut st, Key::Enter, None, None, 5);
    assert!(matches!(out.send, Some(AudioCmd::Play(0))));
    assert!(!app.filter_mode);
    handle_key(&mut app, &mut st, ch('/'), None, None, 5);
    handle_key(&mut app, &mut st, Key::Esc, None, None, 5);
    assert!(!app.filter_mode);
    assert!(app.filter_query.is_empty());
}

#[test]
fn shuffle_key_remembers_the_order_and_reselects() {
    let mut app = App::new(vec![t("A"), t("B"), t("C")]);
    let oh: OrderHandle = Arc::new(Mutex::new(vec![0, 1, 2]));
    app.set_order_handle(oh);
    let mut st = EventLoopState::new(&app);
    let out = handle_key(&mut app, &mut st, ch('s'), None, Some(vec![0, 1, 2]), 5);
    assert!(matches!(out.send, Some(AudioCmd::ToggleShuffle)));
    assert!(app.shuffle);
    assert_eq!(st.pending_shuffle_reselect_from, Some(vec![0, 1, 2]));

    reselect_after_shuffle(&mut app, &mut st, Some(vec![0, 1, 2]));
    assert!(st.pending_shuffle_reselect_from.is_some());
    reselect_after_shuffle(&mut app, &mut st, Some(vec![2, 0, 1]));
    assert_eq!(app.selected, 2);
    assert!(st.pending_shuffle_reselect_from.is_none());

    app.selected = 1;
    handle_key(&mut app, &mut st, ch('s'), None, None, 5);
    assert!(!app.shuffle);
    assert_eq!(app.selected, 0);
}

#[test]
fn zz_jumps_to_the_playing_track() {
    let mut app = App::new(vec![t("A"), t("B"), t("C")]);
    app.set_playback_handle(Arc::new(Mutex::new(PlaybackInfo::default())));
    let mut st = EventLoopState::new(&app);
    handle_key(&mut app, &mut st, ch('z'), Some(2), None, 5);
    assert!(st.pending_zz);
    let out = handle_key(&mut app, &mut st, ch('z'), Some(2), None, 5);
    assert!(out.refresh);
    assert_eq!(app.selected, 2);
}

#[test]
fn sync_follows_playback_and_pending_index() {
    let mut app = App::new(vec![t("A"), t("B"), t("C")]);
    sync_playback(&mut app, Some(2), true);
    assert_eq!(app.selected, 2);
    assert_eq!(app.playback, PlaybackState::Playing);

    app.set_pending_follow_index(1);
    sync_playback(&mut app, Some(2), false);
    assert_eq!(app.selected, 2);
    assert_eq!(app.playback, PlaybackState::Paused);
    sync_playback(&mut app, Some(1), true);
    assert_eq!(app.selected, 1);
    assert_eq!(app.pending_follow_index, None);

    app.follow_playback_off();
    sync_playback(&mut app, Some(0), true);
    assert_eq!(app.selected, 1);
}

#[test]
fn loop_mode_settings_map_to_modes() {
    assert_eq!(loop_mode_from_setting(LoopModeSetting::NoLoop), LoopMode::NoLoop);
    assert_eq!(loop_mode_from_setting(LoopModeSetting::LoopAll), LoopMode::LoopAll);
    assert_eq!(loop_mode_from_setting(LoopModeSetting::LoopOne), LoopMode::LoopOne);
}

#[test]
fn tracks_from_tags_fall_back_to_the_file_stem() {
    let settings = LibrarySettings::default();
    let tr = track_from_tags("/m/b/Tune.mp3", Some("  "), Some(" Band "), None, Some(1000), &settings);
    assert_eq!(tr.title, "Tune");
    assert_eq!(tr.artist.as_deref(), Some("Band"));
    assert_eq!(tr.display, "Band - Tune");
    assert_eq!(tr.duration, Some(1000));
    let tr = track_from_tags("/m/b/Tune.mp3", Some(" Real "), None, Some(""), None, &settings);
    assert_eq!(tr.title, " Real ");
    assert_eq!(tr.album, None);
    assert_eq!(tr.display, "Real");
    let s = LibrarySettings { display_fields: vec![TrackDisplayField::Filename], ..LibrarySettings::default() };
    assert_eq!(track_from_tags("/m/x.ogg", None, None, None, None, &s).display, "x");
}

#[test]
fn sorting_by_display_ignores_case_and_is_stable() {
    let mut a = t("b");
    a.path = "first".into();
    let mut b = t("B");
    b.path = "second".into();
    let sorted = sort_by_display(vec![a, t("C"), b, t("a")]);
    let names: Vec<&str> = sorted.iter().map(|x| x.display.as_str()).collect();
    assert_eq!(names, vec!["a", "b", "B", "C"]);
    assert_eq!(sorted[1].path, "first");
}

#[test]
fn hidden_files_start_with_a_dot() {
    assert!(is_hidden("/x/.hidden.mp3"));
    assert!(!is_hidden("/x/visible.mp3"));
    assert!(!is_hidden("/"));
}

#[test]
fn list_window_centres_the_cursor() {
    assert_eq!(list_window(5, 10, 3), (0, 5, 3));
    assert_eq!(list_window(100, 10, 50), (45, 55, 5));
    assert_eq!(list_window(100, 10, 2), (0, 10, 2));
    assert_eq!(list_window(100, 10, 98), (90, 100, 8));
    assert_eq!(list_window(7, 0, 3), (0, 7, 3));
}

#[test]
fn popup_is_centred_and_bounded() {
    assert_eq!(centered_rect(72, 9, 0, 8, 100, 30), (14, 18, 72, 9));
    assert_eq!(centered_rect(72, 9, 0, 0, 40, 6), (1, 0, 38, 5));
    assert_eq!(centered_rect(3, 2, 5, 5, 4, 4), (5, 5, 10, 5));
}

#[test]
fn snapshot_ticks_only_while_playing() {
    let mut info = PlaybackInfo::default();
    info.tick(500);
    assert_eq!(info.elapsed_ms, 0);
    info.publish(&Effect::PublishNowPlaying(Some(3)));
    assert_eq!(info.index, Some(3));
    assert!(info.playing);
    info.tick(500);
    info.tick(500);
    assert_eq!(info.elapsed_ms, 1000);
    info.publish(&Effect::PublishPlaying(false));
    info.tick(500);
    assert_eq!(info.elapsed_ms, 1000);
    info.publish(&Effect::PublishElapsed(7000));
    assert_eq!(info.elapsed_ms, 7000);
    info.publish(&Effect::Stop);
    assert_eq!(info.elapsed_ms, 7000);
    info.publish(&Effect::PublishNowPlaying(None));
    assert_eq!((info.index, info.elapsed_ms, info.playing), (None, 0, false));
}
