use presto::audio::{AudioCmd, Effect, Engine, Fade, LoopMode};
use presto::config::AudioSettings;

fn settings() -> AudioSettings {
    AudioSettings { crossfade_ms: 250, crossfade_steps: 10, quit_fade_out_ms: 500 }
}

#[test]
fn new_engine_is_stopped_over_the_whole_catalog() {
    let e = Engine::new(3, settings());
    assert_eq!(e.index, None);
    assert_eq!(e.queue, vec![0, 1, 2]);
    assert_eq!(e.order, vec![0, 1, 2]);
    assert_eq!(e.loop_mode, LoopMode::LoopAll);
    assert!(e.running);
}

#[test]
fn manual_next_with_loop_one_moves_to_the_next_slot() {
    let mut e = Engine::new(3, settings());
    e.handle(AudioCmd::SetQueue(vec![0, 1, 2]), 0);
    e.handle(AudioCmd::Play(0), 0);
    e.handle(AudioCmd::SetLoopMode(LoopMode::LoopOne), 0);
    let fx = e.handle(AudioCmd::Next, 10);
    assert_eq!(e.index, Some(1));
    assert_eq!(e.queue_pos, 1);
    assert!(matches!(fx[0], Effect::Switch { index: 1, .. }));
    assert!(matches!(fx[1], Effect::PublishNowPlaying(Some(1))));
}

#[test]
fn next_at_the_end_wraps_only_in_loop_all() {
    let mut e = Engine::new(2, settings());
    e.handle(AudioCmd::Play(1), 0);
    let fx = e.handle(AudioCmd::Next, 1);
    assert_eq!(e.index, Some(0));
    assert_eq!(fx.len(), 2);

    let mut e = Engine::new(2, settings());
    e.handle(AudioCmd::SetLoopMode(LoopMode::NoLoop), 0);
    e.handle(AudioCmd::Play(1), 0);
    let fx = e.handle(AudioCmd::Next, 1);
    assert_eq!(e.index, Some(1));
    assert!(fx.is_empty());

    let fx = e.handle(AudioCmd::Prev, 2);
    assert_eq!(e.index, Some(0));
    assert_eq!(fx.len(), 2);
    let fx = e.handle(AudioCmd::Prev, 3);
    assert_eq!(e.index, Some(0));
    assert!(fx.is_empty());
}

#[test]
fn pause_time_is_not_counted() {
    let mut e = Engine::new(1, settings());
    e.handle(AudioCmd::Play(0), 1_000);
    let fx = e.handle(AudioCmd::TogglePause, 3_000);
    assert!(matches!(fx[0], Effect::Pause));
    assert!(matches!(fx[1], Effect::PublishPlaying(false)));
    assert_eq!(e.elapsed_ms(6_000), 2_000);
    let fx = e.handle(AudioCmd::TogglePause, 8_000);
    assert!(matches!(fx[0], Effect::Resume));
    assert!(matches!(fx[1], Effect::PublishPlaying(true)));
    assert_eq!(e.elapsed_ms(9_000), 3_000);
}

#[test]
fn quit_ends_the_engine_from_any_state() {
    let mut e = Engine::new(2, settings());
    let fx = e.handle(AudioCmd::Quit { fade_out_ms: 0 }, 0);
    assert!(!e.running);
    assert_eq!(fx.len(), 1);
    assert!(matches!(fx[0], Effect::PublishPlaying(false)));

    let mut e = Engine::new(2, settings());
    e.handle(AudioCmd::Play(0), 0);
    let fx = e.handle(AudioCmd::Quit { fade_out_ms: 0 }, 5);
    assert!(!e.running);
    assert!(matches!(fx[0], Effect::FadeOutAndStop { fade: None }));

    let mut e = Engine::new(2, settings());
    e.handle(AudioCmd::Play(0), 0);
    e.handle(AudioCmd::TogglePause, 1);
    let fx = e.handle(AudioCmd::Quit { fade_out_ms: 500 }, 5);
    assert!(!e.running);
    match fx[0] {
        Effect::FadeOutAndStop { fade: Some(f) } => assert_eq!(f, Fade { steps: 20, step_ms: 25 }),
        _ => panic!("expected a fade-out"),
    }
    let fx = e.quit(10);
    match fx[0] {
        Effect::FadeOutAndStop { fade: Some(f) } => assert_eq!(f, Fade { steps: 20, step_ms: 1 }),
        _ => panic!("expected a fade-out"),
    }
}

#[test]
fn seek_before_start_clamps_at_zero() {
    let mut e = Engine::new(1, settings());
    e.handle(AudioCmd::Play(0), 0);
    let fx = e.handle(AudioCmd::SeekBy(-1000), 5_000);
    match fx[0] {
        Effect::Reopen { index, offset_ms, paused } => {
            assert_eq!(index, 0);
            assert_eq!(offset_ms, 0);
            assert!(!paused);
        },
        _ => panic!("expected a reopen"),
    }
    assert!(matches!(fx[1], Effect::PublishElapsed(0)));
    assert_eq!(e.elapsed_ms(5_000), 0);
}

#[test]
fn seek_forward_keeps_pause_state() {
    let mut e = Engine::new(1, settings());
    e.handle(AudioCmd::Play(0), 0);
    e.handle(AudioCmd::TogglePause, 4_500);
    let fx = e.handle(AudioCmd::SeekBy(10), 9_000);
    match fx[0] {
        Effect::Reopen { offset_ms, paused, .. } => {
            assert_eq!(offset_ms, 14_000);
            assert!(paused);
        },
        _ => panic!("expected a reopen"),
    }
    assert_eq!(e.elapsed_ms(20_000), 14_000);
}

#[test]
fn seek_without_a_track_does_nothing() {
    let mut e = Engine::new(1, settings());
    assert!(e.handle(AudioCmd::SeekBy(5), 0).is_empty());
}

#[test]
fn switching_while_playing_crossfades() {
    let mut e = Engine::new(2, settings());
    let fx = e.handle(AudioCmd::Play(0), 0);
    assert!(matches!(fx[0], Effect::Switch { index: 0, fade: None }));
    let fx = e.handle(AudioCmd::Play(1), 100);
    match fx[0] {
        Effect::Switch { index, fade } => {
            assert_eq!(index, 1);
            assert_eq!(fade, Some(Fade { steps: 10, step_ms: 25 }));
        },
        _ => panic!("expected a switch"),
    }
    e.handle(AudioCmd::TogglePause, 200);
    let fx = e.handle(AudioCmd::Play(0), 300);
    assert!(matches!(fx[0], Effect::Switch { index: 0, fade: None }));

    let mut e = Engine::new(2, AudioSettings { crossfade_ms: 0, crossfade_steps: 0, quit_fade_out_ms: 0 });
    e.handle(AudioCmd::Play(0), 0);
    let fx = e.handle(AudioCmd::Play(1), 10);
    assert!(matches!(fx[0], Effect::Switch { index: 1, fade: None }));

    let mut e = Engine::new(2, AudioSettings { crossfade_ms: 5, crossfade_steps: 0, quit_fade_out_ms: 0 });
    e.handle(AudioCmd::Play(0), 0);
    let fx = e.handle(AudioCmd::Play(1), 10);
    assert!(matches!(fx[0], Effect::Switch { index: 1, fade: Some(Fade { steps: 1, step_ms: 5 }) }));
}

#[test]
fn play_outside_the_queue_makes_it_the_queue() {
    let mut e = Engine::new(4, settings());
    e.handle(AudioCmd::SetQueue(vec![0, 1]), 0);
    e.handle(AudioCmd::Play(3), 0);
    assert_eq!(e.queue, vec![3]);
    assert_eq!(e.queue_pos, 0);
    assert!(e.handle(AudioCmd::Play(9), 0).is_empty());
    assert_eq!(e.index, Some(3));
}

#[test]
fn auto_advance_follows_loop_mode() {
    let mut e = Engine::new(2, settings());
    e.handle(AudioCmd::Play(1), 0);
    assert!(e.on_tick(10, false).is_empty());
    e.on_tick(20, true);
    assert_eq!(e.index, Some(0));

    e.handle(AudioCmd::SetLoopMode(LoopMode::LoopOne), 30);
    e.on_tick(40, true);
    assert_eq!(e.index, Some(0));
    assert_eq!(e.elapsed_ms(40), 0);

    e.handle(AudioCmd::SetLoopMode(LoopMode::NoLoop), 50);
    e.on_tick(60, true);
    assert_eq!(e.index, Some(1));
    let fx = e.on_tick(70, true);
    assert_eq!(e.index, None);
    assert!(matches!(fx[0], Effect::Stop));
    assert!(matches!(fx[1], Effect::PublishNowPlaying(None)));
}

#[test]
fn set_queue_reduces_and_relocates() {
    let mut e = Engine::new(6, settings());
    e.handle(AudioCmd::Play(2), 0);
    e.handle(AudioCmd::SetQueue(vec![5, 2, 999, 2, 0]), 0);
    assert_eq!(e.queue, vec![0, 2, 2, 5]);
    assert_eq!(e.queue_pos, 1);
    e.handle(AudioCmd::SetQueue(vec![4, 3]), 0);
    assert_eq!(e.queue, vec![3, 4]);
    assert_eq!(e.queue_pos, 0);
}

#[test]
fn shuffle_permutes_and_restores_the_order() {
    let mut e = Engine::new(5, settings());
    let fx = e.handle(AudioCmd::ToggleShuffle, 0);
    assert!(e.shuffle);
    let mut sorted = e.order.clone();
    sorted.sort();
    assert_eq!(sorted, vec![0, 1, 2, 3, 4]);
    match &fx[0] {
        Effect::PublishOrder(v) => assert_eq!(v, &e.order),
        _ => panic!("expected the order"),
    }
    assert_eq!(e.queue, e.order);
    e.handle(AudioCmd::ToggleShuffle, 0);
    assert!(!e.shuffle);
    assert_eq!(e.order, vec![0, 1, 2, 3, 4]);
    assert_eq!(e.queue, vec![0, 1, 2, 3, 4]);
}

#[test]
fn shuffle_with_a_given_order_reorders_the_queue() {
    let mut e = Engine::new(4, settings());
    e.handle(AudioCmd::Play(0), 0);
    e.toggle_shuffle_with(vec![3, 1, 0, 2]);
    assert_eq!(e.queue, vec![3, 1, 0, 2]);
    assert_eq!(e.queue_pos, 2);
}

#[test]
fn failed_track_stops_playback() {
    let mut e = Engine::new(2, settings());
    e.handle(AudioCmd::Play(0), 0);
    let fx = e.track_failed();
    assert_eq!(e.index, None);
    assert!(matches!(fx[0], Effect::Stop));
}
