use presto::app::{App, PlaybackState};
use presto::audio::{LoopMode, OrderHandle};
use presto::library::Track;
use std::sync::{Arc, Mutex};

fn t(title: &str) -> Track {
    Track {
        path: String::new(),
        title: title.into(),
        artist: None,
        album: None,
        duration: None,
        display: title.into(),
    }
}

#[test]
fn app_fuzzy_match_simple() {
    let title = "Hello World";
    assert!(App::fuzzy_match_positions(title, "hw").is_some());
    assert!(App::fuzzy_match_positions(title, "ello").is_some());
    assert!(App::fuzzy_match_positions(title, "xyz").is_none());
}

#[test]
fn filtered_indices_respects_query() {
    let tracks = vec![t("Alpha"), t("Beta"), t("Gamma")];
    let mut app = App::new(tracks);
    app.push_filter_char('a');
    let filtered = app.filtered_indices();
    assert!(!filtered.is_empty());
}

#[test]
fn app_display_indices_respects_order_and_filter() {
    let tracks = vec![t("Alpha"), t("Beta"), t("Gamma"), t("Delta")];

    let mut app = App::new(tracks);
    // custom order: 2,0,3,1
    let order = vec![2usize, 0, 3, 1];
    let oh: OrderHandle = Arc::new(Mutex::new(order.clone()));
    app.set_order_handle(oh);
    app.shuffle = true;

    let disp = app.display_indices();
    assert_eq!(disp, order);

    // fuzzy filter 'et' -> matches Delta(3) and Beta(1)
    app.filter_query = "et".into();
    let disp2 = app.display_indices();
    assert_eq!(disp2, vec![3usize, 1usize]);
}

#[test]
fn app_display_indices_uses_fuzzy_not_substring_only() {
    let tracks = vec![t("Metallica - Blackened"), t("Black Sabbath - Paranoid")];

    let mut app = App::new(tracks);
    // letters appear in order but not necessarily contiguously
    app.filter_query = "mtbk".into();

    let disp = app.display_indices();
    assert_eq!(disp, vec![0]);
}

#[test]
fn app_trimming_filter_query_affects_matching() {
    let tracks = vec![t("Black Sabbath - Paranoid")];

    let mut app = App::new(tracks);
    app.filter_query = "Black ".into();
    assert_eq!(app.display_indices(), vec![0]);

    app.filter_query = "   ".into();
    assert_eq!(app.display_indices(), vec![0]);
}

#[test]
fn app_next_prev_in_view_helpers_work() {
    let tracks = vec![t("Alpha"), t("Beta"), t("Gamma")];

    let mut app = App::new(tracks);
    app.filter_query = "et".into(); // only Beta is visible

    assert_eq!(app.next_in_view_from(0), Some(1));
    assert_eq!(app.prev_in_view_from(0), Some(1));
    assert_eq!(app.next_in_view_from(1), Some(1));
    assert_eq!(app.prev_in_view_from(1), Some(1));
}

#[test]
fn app_queue_dirty_is_set_on_filter_changes() {
    let tracks = vec![t("Alpha")];

    let mut app = App::new(tracks);
    // new() starts dirty so the initial queue can be synced
    assert!(app.queue_dirty);
    app.clear_queue_dirty();
    assert!(!app.queue_dirty);

    app.push_filter_char('a');
    assert!(app.queue_dirty);
    app.clear_queue_dirty();
    app.pop_filter_char();
    assert!(app.queue_dirty);
}

#[test]
fn tests_fuzzy_match_simple() {
    let title = "Hello World";
    assert!(App::fuzzy_match_positions(title, "hw").is_some());
    assert!(App::fuzzy_match_positions(title, "ello").is_some());
    assert!(App::fuzzy_match_positions(title, "xyz").is_none());
}

#[test]
fn display_indices_respects_filter_query() {
    let tracks = vec![t("Alpha"), t("Beta"), t("Gamma")];
    let mut app = App::new(tracks);
    app.push_filter_char('a');
    let visible = app.display_indices();
    assert!(!visible.is_empty());
}

#[test]
fn tests_display_indices_respects_order_and_filter() {
    let tracks = vec![t("Alpha"), t("Beta"), t("Gamma"), t("Delta")];

    let mut app = App::new(tracks);
    let order = vec![2usize, 0, 3, 1];
    let oh: OrderHandle = Arc::new(Mutex::new(order.clone()));
    app.set_order_handle(oh);
    app.shuffle = true;

    let disp = app.display_indices();
    assert_eq!(disp, order);

    app.filter_query = "et".into();
    let disp2 = app.display_indices();
    assert_eq!(disp2, vec![3usize, 1usize]);
}

#[test]
fn tests_display_indices_uses_fuzzy_not_substring_only() {
    let tracks = vec![t("Metallica - Blackened"), t("Black Sabbath - Paranoid")];

    let mut app = App::new(tracks);
    app.filter_query = "mtbk".into();

    let disp = app.display_indices();
    assert_eq!(disp, vec![0]);
}

#[test]
fn tests_trimming_filter_query_affects_matching() {
    let tracks = vec![t("Black Sabbath - Paranoid")];

    let mut app = App::new(tracks);
    app.filter_query = "Black ".into();
    assert_eq!(app.display_indices(), vec![0]);

    app.filter_query = "   ".into();
    assert_eq!(app.display_indices(), vec![0]);
}

#[test]
fn tests_next_prev_in_view_helpers_work() {
    let tracks = vec![t("Alpha"), t("Beta"), t("Gamma")];

    let mut app = App::new(tracks);
    app.filter_query = "et".into();

    assert_eq!(app.next_in_view_from(0), Some(1));
    assert_eq!(app.prev_in_view_from(0), Some(1));
    assert_eq!(app.next_in_view_from(1), Some(1));
    assert_eq!(app.prev_in_view_from(1), Some(1));
}

#[test]
fn tests_cycle_loop_mode_cycles_three_states() {
    let tracks = vec![t("A")];

    let mut app = App::new(tracks);
    assert_eq!(app.loop_mode, LoopMode::LoopAll);

    app.cycle_loop_mode();
    assert_eq!(app.loop_mode, LoopMode::LoopOne);

    app.cycle_loop_mode();
    assert_eq!(app.loop_mode, LoopMode::NoLoop);

    app.cycle_loop_mode();
    assert_eq!(app.loop_mode, LoopMode::LoopAll);
}

#[test]
fn tests_queue_dirty_is_set_on_filter_changes() {
    let tracks = vec![t("Alpha")];

    let mut app = App::new(tracks);
    assert!(app.queue_dirty);
    app.clear_queue_dirty();
    assert!(!app.queue_dirty);

    app.push_filter_char('a');
    assert!(app.queue_dirty);
    app.clear_queue_dirty();
    app.pop_filter_char();
    assert!(app.queue_dirty);
}

#[test]
fn cycle_loop_mode_from_every_state_returns_after_three() {
    for start in [LoopMode::NoLoop, LoopMode::LoopAll, LoopMode::LoopOne] {
        let mut app = App::new(vec![t("A")]);
        app.loop_mode = start;
        app.cycle_loop_mode();
        assert_ne!(app.loop_mode, start);
        app.cycle_loop_mode();
        app.cycle_loop_mode();
        assert_eq!(app.loop_mode, start);
    }
    let mut app = App::new(vec![t("A")]);
    app.loop_mode = LoopMode::NoLoop;
    app.cycle_loop_mode();
    assert_eq!(app.loop_mode, LoopMode::LoopAll);
}

#[test]
fn fuzzy_positions_are_char_indices() {
    assert_eq!(App::fuzzy_match_positions("Hello World", "hw"), Some(vec![0, 6]));
    assert_eq!(App::fuzzy_match_positions("abc", ""), Some(vec![]));
    assert_eq!(App::fuzzy_match_positions("aXbX", "xx"), Some(vec![1, 3]));
    assert_eq!(App::fuzzy_match_positions("ab", "ba"), None);
}

#[test]
fn large_catalog_uses_lower_titles_and_matches_alike() {
    let mut tracks = Vec::new();
    for i in 0..101 {
        tracks.push(t(&format!("Song {i}")));
    }
    tracks.push(t("MeTaL"));
    let mut app = App::new(tracks);
    assert!(app.uses_lower_titles());
    assert_eq!(app.fuzzy_match_positions_for_track_lower(101, "mtl"), Some(vec![0, 2, 4]));
    app.filter_query = "METAL".into();
    assert_eq!(app.display_indices(), vec![101]);

    let small = App::new(vec![t("MeTaL")]);
    assert!(!small.uses_lower_titles());
    assert_eq!(small.fuzzy_match_positions_for_track_lower(0, "mtl"), Some(vec![0, 2, 4]));
}

#[test]
fn hidden_selection_moves_to_first_visible() {
    let mut app = App::new(vec![t("Alpha"), t("Beta"), t("Gamma")]);
    app.set_selected(0);
    assert_eq!(app.selected, 0);
    app.push_filter_char('m');
    // "m" matches Gamma only
    assert_eq!(app.selected, 2);
    app.push_filter_char('z');
    assert_eq!(app.selected, 0);
    app.clear_filter();
    assert!(app.filter_query.is_empty());
    assert!(!app.filter_mode);
}

#[test]
fn next_and_prev_wrap_around() {
    let mut app = App::new(vec![t("A"), t("B"), t("C")]);
    app.selected = 2;
    app.next();
    assert_eq!(app.selected, 0);
    app.prev();
    assert_eq!(app.selected, 2);
    assert_eq!(app.playback, PlaybackState::Stopped);
}

#[test]
fn enter_filter_mode_stops_following() {
    let mut app = App::new(vec![t("A")]);
    app.set_pending_follow_index(0);
    app.clear_queue_dirty();
    app.enter_filter_mode();
    assert!(app.filter_mode);
    assert!(!app.follow_playback);
    assert_eq!(app.pending_follow_index, None);
    assert!(app.queue_dirty);
}
