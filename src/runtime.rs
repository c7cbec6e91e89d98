//! Front-end decisions: what a remote-control command or a key press does
//! to the model and which engine command it sends, how the cursor follows
//! playback, and the event loop's own state.
use vstd::prelude::*;

use crate::app::{cycled, App, PlaybackState};
use crate::audio::engine::{identity, identity_vec};
use crate::audio::{AudioCmd, LoopMode};
use crate::config::LoopModeSetting;
use crate::mpris::ControlCmd;

verus! {

/// State kept by the terminal event loop across iterations.
pub struct EventLoopState {
    /// The order seen when shuffle was turned on; the cursor jumps to the
    /// top of the new order once it differs.
    pub pending_shuffle_reselect_from: Option<Vec<usize>>,
    /// The first `g` of `gg` was pressed.
    pub pending_gg: bool,
    /// Last playing index sent to the media-control endpoint.
    pub last_mpris_index: Option<usize>,
    /// Last playback state sent to the media-control endpoint.
    pub last_mpris_playback: PlaybackState,
    /// The first `z` of `zz` was pressed.
    pub pending_zz: bool,
}

impl EventLoopState {
    /// A fresh state, seeded with the model's playback state.
    pub fn new(app: &App) -> (r: Self)
        ensures
            r.pending_shuffle_reselect_from is None,
            !r.pending_gg,
            !r.pending_zz,
            r.last_mpris_index is None,
            r.last_mpris_playback == app.playback,
    {
        EventLoopState {
            pending_shuffle_reselect_from: None,
            pending_gg: false,
            pending_zz: false,
            last_mpris_index: None,
            last_mpris_playback: app.playback,
        }
    }
}

/// What a remote-control command asks of the outside.
#[derive(Debug)]
pub struct ControlOutcome {
    /// The command for the playback engine, if any.
    pub send: Option<AudioCmd>,
    /// The media-control endpoint must be refreshed.
    pub refresh: bool,
    /// The player must quit.
    pub quit: bool,
}

/// The model with follow-playback switched on, unless filtering.
pub open spec fn followed(a: App) -> App {
    if a.filter_mode {
        a
    } else {
        App { follow_playback: true, ..a }
    }
}

/// `a` with `playback` set, following playback, sending `c`, refreshing.
pub open spec fn acts(pre: App, post: App, out: ControlOutcome, p: PlaybackState, c: AudioCmd) -> bool {
    &&& post == App { playback: p, ..followed(pre) }
    &&& out.send == Some(c)
    &&& out.refresh
    &&& !out.quit
}

/// Nothing changes and nothing is asked.
pub open spec fn ignores(pre: App, post: App, out: ControlOutcome) -> bool {
    &&& post == pre
    &&& out.send is None
    &&& !out.refresh
    &&& !out.quit
}

/// What each remote-control command does.
pub open spec fn control_spec(pre: App, post: App, cmd: ControlCmd, out: ControlOutcome) -> bool {
    let has = pre.tracks@.len() > 0;
    match cmd {
        ControlCmd::Quit => post == pre && out.send is None && !out.refresh && out.quit,
        ControlCmd::Play => if pre.playback == PlaybackState::Paused {
            acts(pre, post, out, PlaybackState::Playing, AudioCmd::TogglePause)
        } else if has {
            acts(pre, post, out, PlaybackState::Playing, AudioCmd::Play(pre.selected))
        } else {
            ignores(pre, post, out)
        },
        ControlCmd::Pause => if pre.playback == PlaybackState::Playing {
            acts(pre, post, out, PlaybackState::Paused, AudioCmd::TogglePause)
        } else {
            ignores(pre, post, out)
        },
        ControlCmd::PlayPause => match pre.playback {
            PlaybackState::Stopped => if has {
                acts(pre, post, out, PlaybackState::Playing, AudioCmd::Play(pre.selected))
            } else {
                post == followed(pre) && out.send is None && out.refresh && !out.quit
            },
            PlaybackState::Playing => acts(
                pre,
                post,
                out,
                PlaybackState::Paused,
                AudioCmd::TogglePause,
            ),
            PlaybackState::Paused => acts(
                pre,
                post,
                out,
                PlaybackState::Playing,
                AudioCmd::TogglePause,
            ),
        },
        ControlCmd::Stop => acts(pre, post, out, PlaybackState::Stopped, AudioCmd::Stop),
        ControlCmd::Next => if has {
            acts(pre, post, out, PlaybackState::Playing, AudioCmd::Next)
        } else {
            ignores(pre, post, out)
        },
        ControlCmd::Prev => if has {
            acts(pre, post, out, PlaybackState::Playing, AudioCmd::Prev)
        } else {
            ignores(pre, post, out)
        },
    }
}

fn follow_unless_filtering(app: &mut App)
    ensures
        *final(app) == followed(*old(app)),
{
    if !app.filter_mode {
        app.follow_playback_on();
    }
}

fn act(app: &mut App, p: PlaybackState, c: AudioCmd) -> (out: ControlOutcome)
    ensures
        acts(*old(app), *final(app), out, p, c),
{
    follow_unless_filtering(app);
    app.playback = p;
    ControlOutcome { send: Some(c), refresh: true, quit: false }
}

/// Applies a remote-control command to the model.
pub fn handle_control_cmd(app: &mut App, cmd: ControlCmd) -> (out: ControlOutcome)
    ensures
        control_spec(*old(app), *final(app), cmd, out),
{
    let none = ControlOutcome { send: None, refresh: false, quit: false };
    match cmd {
        ControlCmd::Quit => ControlOutcome { send: None, refresh: false, quit: true },
        ControlCmd::Play => match app.playback {
            PlaybackState::Paused => act(app, PlaybackState::Playing, AudioCmd::TogglePause),
            _ => if app.has_tracks() {
                let i = app.selected;
                act(app, PlaybackState::Playing, AudioCmd::Play(i))
            } else {
                none
            },
        },
        ControlCmd::Pause => match app.playback {
            PlaybackState::Playing => act(app, PlaybackState::Paused, AudioCmd::TogglePause),
            _ => none,
        },
        ControlCmd::PlayPause => match app.playback {
            PlaybackState::Stopped => if app.has_tracks() {
                let i = app.selected;
                act(app, PlaybackState::Playing, AudioCmd::Play(i))
            } else {
                follow_unless_filtering(app);
                ControlOutcome { send: None, refresh: true, quit: false }
            },
            PlaybackState::Playing => act(app, PlaybackState::Paused, AudioCmd::TogglePause),
            PlaybackState::Paused => act(app, PlaybackState::Playing, AudioCmd::TogglePause),
        },
        ControlCmd::Stop => act(app, PlaybackState::Stopped, AudioCmd::Stop),
        ControlCmd::Next => if app.has_tracks() {
            act(app, PlaybackState::Playing, AudioCmd::Next)
        } else {
            none
        },
        ControlCmd::Prev => if app.has_tracks() {
            act(app, PlaybackState::Playing, AudioCmd::Prev)
        } else {
            none
        },
    }
}

/// The loop mode that a setting names.
pub fn loop_mode_from_setting(s: LoopModeSetting) -> (r: LoopMode)
    ensures
        r == match s {
            LoopModeSetting::NoLoop => LoopMode::NoLoop,
            LoopModeSetting::LoopAll => LoopMode::LoopAll,
            LoopModeSetting::LoopOne => LoopMode::LoopOne,
        },
{
    match s {
        LoopModeSetting::NoLoop => LoopMode::NoLoop,
        LoopModeSetting::LoopAll => LoopMode::LoopAll,
        LoopModeSetting::LoopOne => LoopMode::LoopOne,
    }
}

/// The cursor part of following playback at `idx`: a pending follow
/// index waits until playback reaches it.
pub open spec fn follows(pre: App, x: App, idx: usize) -> bool {
    if pre.follow_playback && !pre.filter_mode {
        match pre.pending_follow_index {
            Some(p) => if p == idx {
                let a = App { pending_follow_index: None, ..pre };
                if a.selected != idx {
                    a.selects(&x, idx)
                } else {
                    x == a
                }
            } else {
                x == pre
            },
            None => if pre.selected != idx {
                pre.selects(&x, idx)
            } else {
                x == pre
            },
        }
    } else {
        x == pre
    }
}

/// Takes in the engine's published snapshot: the cursor follows the
/// playing track when asked to, and the playback state becomes Playing or
/// Paused from the playing flag.
pub fn sync_playback(app: &mut App, index: Option<usize>, playing: bool)
    requires
        old(app).wf(),
    ensures
        final(app).wf(),
        exists|x: App|
            (match index {
                Some(idx) => follows(*old(app), x, idx),
                None => x == *old(app),
            }) && *final(app) == (App {
                playback: if playing {
                    PlaybackState::Playing
                } else {
                    PlaybackState::Paused
                },
                ..x
            }),
{
    let ghost mut x = *app;
    if let Some(idx) = index {
        if app.follow_playback && !app.filter_mode {
            match app.pending_follow_index {
                Some(p) => {
                    if p == idx {
                        app.clear_pending_follow_index();
                        if app.selected != idx {
                            app.set_selected(idx);
                        }
                    }
                },
                None => {
                    if app.selected != idx {
                        app.set_selected(idx);
                    }
                },
            }
        }
        proof {
            x = *app;
        }
    }
    app.playback = if playing {
        PlaybackState::Playing
    } else {
        PlaybackState::Paused
    };
}

fn same_order(a: &Vec<usize>, b: &Vec<usize>) -> (r: bool)
    ensures
        r == (a@ == b@),
{
    if a.len() != b.len() {
        return false;
    }
    let mut i: usize = 0;
    while i < a.len()
        invariant
            i <= a.len(),
            a@.len() == b@.len(),
            forall|k: int| 0 <= k < i ==> a@[k] == b@[k],
        decreases a.len() - i,
    {
        if a[i] != b[i] {
            return false;
        }
        i += 1;
    }
    assert(a@ =~= b@);
    true
}

/// After shuffle was turned on, and once the shared order (`current`, as
/// read) differs from the one seen at the toggle and is not empty, the
/// cursor moves to the top of the new order and the wait ends.
pub fn reselect_after_shuffle(app: &mut App, state: &mut EventLoopState, current: Option<Vec<usize>>)
    requires
        old(app).wf(),
    ensures
        final(app).wf(),
        ({
            let fires = old(state).pending_shuffle_reselect_from is Some && old(app).shuffle
                && !old(app).filter_mode && (current matches Some(v) && v@.len() > 0
                && old(state).pending_shuffle_reselect_from->0@ != v@);
            if fires {
                &&& old(app).selects(final(app), current->0@[0])
                &&& *final(state) == (EventLoopState {
                    pending_shuffle_reselect_from: None,
                    ..*old(state)
                })
            } else {
                *final(app) == *old(app) && *final(state) == *old(state)
            }
        }),
{
    if app.shuffle && !app.filter_mode {
        if let Some(v) = &current {
            let changed = match &state.pending_shuffle_reselect_from {
                Some(old_order) => !same_order(old_order, v),
                None => false,
            };
            if changed && v.len() > 0 {
                app.set_selected(v[0]);
                state.pending_shuffle_reselect_from = None;
            }
        }
    }
}

/// A key press as the event loop sees it.
#[derive(Debug, Clone, Copy, PartialEq, Eq, Structural)]
pub enum Key {
    /// A character key, with whether Control was held.
    Char { c: char, ctrl: bool },
    Enter,
    Esc,
    Backspace,
    /// Any other key.
    Other,
}

/// What a key press asks of the outside.
#[derive(Debug)]
pub struct KeyOutcome {
    /// A command for the playback engine.
    pub send: Option<AudioCmd>,
    /// A command for the remote-control path, handled like one from outside.
    pub control: Option<ControlCmd>,
    /// The media-control endpoint must be refreshed.
    pub refresh: bool,
    /// The player must quit.
    pub quit: bool,
}

/// `c` is a control character (Unicode general category Cc).
pub open spec fn is_control_char(c: char) -> bool {
    (c as u32) <= 0x1f || (0x7f <= (c as u32) && (c as u32) <= 0x9f)
}

/// The outcome asks exactly for `send`, `control`, a refresh when
/// `refresh`, and no quit.
pub open spec fn asks(out: KeyOutcome, send: Option<AudioCmd>, control: Option<ControlCmd>, refresh: bool) -> bool {
    &&& out.send == send
    &&& out.control == control
    &&& out.refresh == refresh
    &&& !out.quit
}

/// The scrub step as a seek amount.
pub open spec fn scrub_amount(scrub_seconds: u64) -> i32 {
    if scrub_seconds > i32::MAX as u64 {
        i32::MAX
    } else {
        scrub_seconds as i32
    }
}

/// A key in filter mode: editing the query, moving the cursor, or
/// playing the selection.
pub open spec fn filter_key_spec(pre: App, post: App, key: Key, out: KeyOutcome) -> bool {
    match key {
        Key::Esc => pre.clears_filter(&post) && asks(out, None, None, true),
        Key::Backspace => pre.pops_char(&post) && asks(out, None, None, true),
        Key::Char { c, ctrl } => if ctrl && (c == 'j' || c == 'n') {
            (App { follow_playback: false, pending_follow_index: None, ..pre }).moves_next(&post)
                && asks(out, None, None, true)
        } else if ctrl && (c == 'k' || c == 'p') {
            (App { follow_playback: false, pending_follow_index: None, ..pre }).moves_prev(&post)
                && asks(out, None, None, true)
        } else if !is_control_char(c) {
            pre.pushes_char(&post, c) && asks(out, None, None, true)
        } else {
            post == pre && asks(out, None, None, false)
        },
        Key::Enter => exists|d: Seq<usize>|
            #[trigger] pre.displays(d) && if d.len() == 0 {
                post == pre && asks(out, None, None, false)
            } else {
                &&& post == App {
                    filter_mode: false,
                    queue_dirty: true,
                    follow_playback: true,
                    pending_follow_index: Some(pre.selected),
                    playback: PlaybackState::Playing,
                    ..pre
                }
                &&& asks(out, Some(AudioCmd::Play(pre.selected)), None, true)
            },
        Key::Other => post == pre && asks(out, None, None, false),
    }
}

/// The shuffle key: toggles shuffle; turning it on remembers the order
/// seen (`snapshot`, or the catalog order), turning it off puts the cursor
/// on top of the view.
pub open spec fn shuffle_key_spec(
    pre: App,
    post: App,
    st: EventLoopState,
    st2: EventLoopState,
    snapshot: Option<Vec<usize>>,
    out: KeyOutcome,
) -> bool {
    let st_g = EventLoopState { pending_gg: false, ..st };
        let mid = App { shuffle: !pre.shuffle, queue_dirty: true, ..pre };
        &&& asks(out, Some(AudioCmd::ToggleShuffle), None, true)
        &&& if mid.shuffle {
            &&& post == mid
            &&& st2.pending_gg == false
            &&& st2.pending_zz == st.pending_zz
            &&& st2.last_mpris_index == st.last_mpris_index
            &&& st2.last_mpris_playback == st.last_mpris_playback
            &&& (st2.pending_shuffle_reselect_from matches Some(v) && v@ == match snapshot {
                Some(s) => s@,
                None => identity(pre.tracks@.len()),
            })
        } else {
            &&& st2 == EventLoopState { pending_shuffle_reselect_from: None, ..st_g }
            &&& goes_to_top(mid, post)
        }
}

/// `post` is `pre` with the cursor on the top of a display order of `pre`,
/// or `pre` itself when that order is empty.
pub open spec fn goes_to_top(pre: App, post: App) -> bool {
    exists|d: Seq<usize>|
        #[trigger] pre.displays(d) && if d.len() == 0 {
            post == pre
        } else {
            pre.selects(&post, d[0])
        }
}

/// A key outside filter mode. `playing` is the engine's current track as
/// last read, `snapshot` the shared order as last read.
pub open spec fn normal_key_spec(
    pre: App,
    post: App,
    st: EventLoopState,
    st2: EventLoopState,
    key: Key,
    playing: Option<usize>,
    snapshot: Option<Vec<usize>>,
    scrub_seconds: u64,
    out: KeyOutcome,
) -> bool {
    let st_g = EventLoopState { pending_gg: false, ..st };
    let unfollowed = App { follow_playback: false, pending_follow_index: None, ..pre };
    match key {
        Key::Char { c, ctrl: _ } => if c == 'q' {
            post == pre && st2 == st_g && out.send is None && out.control is None && !out.refresh
                && out.quit
        } else if c == '/' {
            pre.enters_filter(&post) && st2 == st_g && asks(out, None, None, true)
        } else if c == 's' {
            shuffle_key_spec(pre, post, st, st2, snapshot, out)
        } else if c == 'r' {
            &&& post == App { loop_mode: cycled(pre.loop_mode), ..pre }
            &&& st2 == st_g
            &&& asks(out, Some(AudioCmd::SetLoopMode(cycled(pre.loop_mode))), None, true)
        } else if c == 'z' {
            if st.pending_zz {
                &&& st2 == EventLoopState { pending_zz: false, ..st }
                &&& if pre.playback_handle is Some {
                    pre.selects(
                        &post,
                        match playing {
                            Some(i) => i,
                            None => 0,
                        },
                    ) && asks(out, None, None, true)
                } else {
                    post == pre && asks(out, None, None, false)
                }
            } else {
                post == pre && st2 == EventLoopState { pending_zz: true, ..st } && asks(
                    out,
                    None,
                    None,
                    false,
                )
            }
        } else if c == 'g' {
            if st.pending_gg {
                &&& st2 == st_g
                &&& exists|d: Seq<usize>|
                    #[trigger] unfollowed.displays(d) && if d.len() == 0 {
                        post == unfollowed && asks(out, None, None, false)
                    } else {
                        unfollowed.selects(&post, d[0]) && asks(out, None, None, true)
                    }
            } else {
                post == pre && st2 == EventLoopState { pending_gg: true, ..st } && asks(
                    out,
                    None,
                    None,
                    false,
                )
            }
        } else if c == 'G' {
            &&& st2 == st_g
            &&& exists|d: Seq<usize>|
                #[trigger] pre.displays(d) && if d.len() == 0 {
                    post == pre && asks(out, None, None, false)
                } else {
                    pre.selects(&post, d.last()) && asks(out, None, None, true)
                }
        } else if c == 'j' {
            unfollowed.moves_next(&post) && st2 == st_g && asks(out, None, None, true)
        } else if c == 'k' {
            unfollowed.moves_prev(&post) && st2 == st_g && asks(out, None, None, true)
        } else if c == 'p' || c == ' ' {
            post == pre && st2 == st_g && asks(out, None, Some(ControlCmd::PlayPause), false)
        } else if c == 'l' {
            post == pre && st2 == st_g && asks(out, None, Some(ControlCmd::Next), false)
        } else if c == 'h' {
            post == pre && st2 == st_g && asks(out, None, Some(ControlCmd::Prev), false)
        } else if c == 'L' {
            post == pre && st2 == st_g && asks(
                out,
                Some(AudioCmd::SeekBy(scrub_amount(scrub_seconds))),
                None,
                false,
            )
        } else if c == 'H' {
            post == pre && st2 == st_g && asks(
                out,
                Some(AudioCmd::SeekBy((-scrub_amount(scrub_seconds)) as i32)),
                None,
                false,
            )
        } else if c == 'K' {
            post == App { metadata_window: !pre.metadata_window, ..pre } && st2 == st_g && asks(
                out,
                None,
                None,
                true,
            )
        } else {
            post == pre && st2 == st_g && asks(out, None, None, false)
        },
        Key::Enter => {
            &&& st2 == st_g
            &&& if pre.tracks@.len() > 0 && !(pre.playback == PlaybackState::Playing && playing
                == Some(pre.selected)) {
                &&& post == App {
                    follow_playback: true,
                    pending_follow_index: Some(pre.selected),
                    playback: PlaybackState::Playing,
                    ..pre
                }
                &&& asks(out, Some(AudioCmd::Play(pre.selected)), None, true)
            } else {
                post == pre && asks(out, None, None, false)
            }
        },
        _ => post == pre && st2 == st && asks(out, None, None, false),
    }
}

fn nothing() -> (out: KeyOutcome)
    ensures
        asks(out, None, None, false),
{
    KeyOutcome { send: None, control: None, refresh: false, quit: false }
}

fn refreshed() -> (out: KeyOutcome)
    ensures
        asks(out, None, None, true),
{
    KeyOutcome { send: None, control: None, refresh: true, quit: false }
}

fn handle_filter_key(app: &mut App, key: Key) -> (out: KeyOutcome)
    requires
        old(app).wf(),
        old(app).filter_mode,
    ensures
        final(app).wf(),
        filter_key_spec(*old(app), *final(app), key, out),
{
    match key {
        Key::Esc => {
            app.clear_filter();
            refreshed()
        },
        Key::Backspace => {
            app.pop_filter_char();
            refreshed()
        },
        Key::Char { c, ctrl } => {
            if ctrl && (c == 'j' || c == 'n') {
                app.follow_playback_off();
                app.next();
                refreshed()
            } else if ctrl && (c == 'k' || c == 'p') {
                app.follow_playback_off();
                app.prev();
                refreshed()
            } else if !((c as u32) <= 0x1f || (0x7f <= (c as u32) && (c as u32) <= 0x9f)) {
                app.push_filter_char(c);
                refreshed()
            } else {
                nothing()
            }
        },
        Key::Enter => {
            let d = app.display_indices();
            if d.len() == 0 {
                return nothing();
            }
            app.exit_filter_mode();
            app.follow_playback_on();
            let sel = app.selected;
            app.set_pending_follow_index(sel);
            app.playback = PlaybackState::Playing;
            KeyOutcome { send: Some(AudioCmd::Play(sel)), control: None, refresh: true, quit: false }
        },
        Key::Other => nothing(),
    }
}

/// Handles one key press: edits the model and the loop state, and says
/// what to send where. `playing` is the engine's current track as read
/// from the shared snapshot (if one is attached), `snapshot` the shared
/// order as read (if one is attached), `scrub_seconds` the seek step.
pub fn handle_key(
    app: &mut App,
    state: &mut EventLoopState,
    key: Key,
    playing: Option<usize>,
    snapshot: Option<Vec<usize>>,
    scrub_seconds: u64,
) -> (out: KeyOutcome)
    requires
        old(app).wf(),
    ensures
        final(app).wf(),
        if old(app).filter_mode {
            *final(state) == (EventLoopState { pending_gg: false, ..*old(state) })
                && filter_key_spec(*old(app), *final(app), key, out)
        } else {
            normal_key_spec(
                *old(app),
                *final(app),
                *old(state),
                *final(state),
                key,
                playing,
                snapshot,
                scrub_seconds,
                out,
            )
        },
{
    if app.filter_mode {
        state.pending_gg = false;
        return handle_filter_key(app, key);
    }
    let c = match key {
        Key::Char { c, ctrl: _ } => c,
        Key::Enter => {
            state.pending_gg = false;
            if app.has_tracks() {
                let sel = app.selected;
                let playing_selected = match app.playback {
                    PlaybackState::Playing => match playing {
                        Some(i) => i == sel,
                        None => false,
                    },
                    _ => false,
                };
                if !playing_selected {
                    app.follow_playback_on();
                    app.set_pending_follow_index(sel);
                    app.playback = PlaybackState::Playing;
                    return KeyOutcome {
                        send: Some(AudioCmd::Play(sel)),
                        control: None,
                        refresh: true,
                        quit: false,
                    };
                }
            }
            return nothing();
        },
        _ => {
            return nothing();
        },
    };
    if c == 'z' {
        if state.pending_zz {
            state.pending_zz = false;
            if app.playback_handle.is_some() {
                let target = match playing {
                    Some(i) => i,
                    None => 0,
                };
                app.set_selected(target);
                return refreshed();
            }
            return nothing();
        } else {
            state.pending_zz = true;
            return nothing();
        }
    }
    if c == 'g' {
        if state.pending_gg {
            state.pending_gg = false;
            app.follow_playback_off();
            let d = app.display_indices();
            if d.len() > 0 {
                app.set_selected(d[0]);
                return refreshed();
            }
            return nothing();
        } else {
            state.pending_gg = true;
            return nothing();
        }
    }
    state.pending_gg = false;
    if c == 'q' {
        KeyOutcome { send: None, control: None, refresh: false, quit: true }
    } else if c == '/' {
        app.enter_filter_mode();
        refreshed()
    } else if c == 's' {
        let turning_on = !app.shuffle;
        if turning_on {
            let seen = match snapshot {
                Some(v) => v,
                None => identity_vec(app.tracks.len()),
            };
            state.pending_shuffle_reselect_from = Some(seen);
        }
        app.toggle_shuffle();
        if !app.shuffle {
            let d = app.display_indices();
            let ghost mid = *app;
            if d.len() > 0 {
                app.set_selected(d[0]);
            }
            assert(mid.displays(d@) && if d@.len() == 0 {
                *app == mid
            } else {
                mid.selects(app, d@[0])
            });
            assert(goes_to_top(mid, *app));
            state.pending_shuffle_reselect_from = None;
        }
        KeyOutcome { send: Some(AudioCmd::ToggleShuffle), control: None, refresh: true, quit: false }
    } else if c == 'r' {
        app.cycle_loop_mode();
        KeyOutcome {
            send: Some(AudioCmd::SetLoopMode(app.loop_mode)),
            control: None,
            refresh: true,
            quit: false,
        }
    } else if c == 'G' {
        let d = app.display_indices();
        if d.len() > 0 {
            app.set_selected(d[d.len() - 1]);
            return refreshed();
        }
        nothing()
    } else if c == 'j' {
        app.follow_playback_off();
        app.next();
        refreshed()
    } else if c == 'k' {
        app.follow_playback_off();
        app.prev();
        refreshed()
    } else if c == 'p' || c == ' ' {
        KeyOutcome { send: None, control: Some(ControlCmd::PlayPause), refresh: false, quit: false }
    } else if c == 'l' {
        KeyOutcome { send: None, control: Some(ControlCmd::Next), refresh: false, quit: false }
    } else if c == 'h' {
        KeyOutcome { send: None, control: Some(ControlCmd::Prev), refresh: false, quit: false }
    } else if c == 'L' || c == 'H' {
        let secs: i32 = if scrub_seconds > i32::MAX as u64 {
            i32::MAX
        } else {
            scrub_seconds as i32
        };
        let amount = if c == 'L' {
            secs
        } else {
            -secs
        };
        KeyOutcome { send: Some(AudioCmd::SeekBy(amount)), control: None, refresh: false, quit: false }
    } else if c == 'K' {
        app.toggle_metadata_window();
        refreshed()
    } else {
        nothing()
    }
}

} // verus!
