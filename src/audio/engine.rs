//! The playback engine as a state machine.
//!
//! The engine owns the queue, the shuffle order, the loop mode and the
//! elapsed-time accounting. Each command or timer tick moves it to its next
//! state and returns the effects that the audio side must carry out, in
//! order: open or stop an output, pause it, blend two outputs, publish a
//! new snapshot. Time comes in as a millisecond reading of a monotonic clock.
use vstd::prelude::*;

use crate::audio::queue::{all_below, reduced, reorder_queue_in_place};
use crate::audio::types::{AudioCmd, LoopMode, PlaybackInfo};
use crate::config::AudioSettings;

verus! {

/// Number of volume steps of the fade-out on quit.
pub const QUIT_FADE_STEPS: u64 = 20;

/// A linear volume ramp: `steps` steps, `step_ms` milliseconds apart.
#[derive(Debug, Clone, Copy, PartialEq, Eq, Structural)]
pub struct Fade {
    pub steps: u64,
    pub step_ms: u64,
}

/// What the audio side must do after a transition.
#[derive(Debug)]
pub enum Effect {
    /// Open `index` from its start and make it the active output. The
    /// previous output, if any, is stopped at once when `fade` is `None`,
    /// and blended out against the new one over `fade` otherwise.
    Switch { index: usize, fade: Option<Fade> },
    /// Stop and drop the active output, if any.
    Stop,
    /// Pause the active output.
    Pause,
    /// Resume the active output.
    Resume,
    /// Replace the active output by `index` opened at `offset_ms`, paused or playing.
    Reopen { index: usize, offset_ms: u64, paused: bool },
    /// Ramp the active output down (at once when `fade` is `None`), then stop it.
    FadeOutAndStop { fade: Option<Fade> },
    /// Publish a new current track: its index, elapsed 0, playing when `Some`.
    PublishNowPlaying(Option<usize>),
    /// Publish the playing flag alone.
    PublishPlaying(bool),
    /// Publish the elapsed time alone, in milliseconds.
    PublishElapsed(u64),
    /// Publish the shuffle order.
    PublishOrder(Vec<usize>),
}

/// The identity order `0..n`.
pub open spec fn identity(n: nat) -> Seq<usize> {
    Seq::new(n, |i: int| i as usize)
}

/// `p` is the first position of `x` in `s`.
pub open spec fn first_slot(s: Seq<usize>, x: usize, p: int) -> bool {
    &&& 0 <= p < s.len()
    &&& s[p] == x
    &&& forall|k: int| 0 <= k < p ==> s[k] != x
}

/// The fade-out on quit for `fade_out_ms`.
pub open spec fn quit_fade(fade_out_ms: u64) -> Option<Fade> {
    if fade_out_ms == 0 {
        None
    } else {
        let ms = fade_out_ms / QUIT_FADE_STEPS;
        Some(Fade { steps: QUIT_FADE_STEPS, step_ms: if ms == 0 { 1 } else { ms } })
    }
}

/// The playback state machine.
pub struct Engine {
    /// Size of the catalog.
    pub tracks_len: usize,
    pub settings: AudioSettings,
    /// The current track, if an output is active.
    pub index: Option<usize>,
    pub paused: bool,
    /// Clock reading when playback last started or resumed, while playing.
    pub started_at: Option<u64>,
    /// Elapsed time before `started_at`, in milliseconds.
    pub accumulated_ms: u64,
    pub shuffle: bool,
    /// The shuffle order (the identity while shuffle is off).
    pub order: Vec<usize>,
    /// The tracks that next, previous and auto-advance walk through.
    pub queue: Vec<usize>,
    pub queue_pos: usize,
    pub loop_mode: LoopMode,
    /// False once the engine has processed a quit.
    pub running: bool,
}

/// Relies on rand's `SliceRandom::shuffle` with the thread-local generator:
/// it permutes the slice by swaps only.
#[verifier::external_body]
fn shuffle_in_place(v: &mut Vec<usize>)
    ensures
        final(v)@.to_multiset() == old(v)@.to_multiset(),
        final(v)@.len() == old(v)@.len(),
{
    rand::seq::SliceRandom::shuffle(v.as_mut_slice(), &mut rand::thread_rng());
}

/// The identity order `0..n` as a vector.
pub fn identity_vec(n: usize) -> (r: Vec<usize>)
    ensures
        r@ == identity(n as nat),
{
    let mut r: Vec<usize> = Vec::new();
    let mut i: usize = 0;
    while i < n
        invariant
            i <= n,
            r@ =~= identity(i as nat),
        decreases n - i,
    {
        r.push(i);
        i += 1;
    }
    r
}

fn copy_vec(v: &Vec<usize>) -> (r: Vec<usize>)
    ensures
        r@ == v@,
{
    let mut r: Vec<usize> = Vec::new();
    let mut i: usize = 0;
    while i < v.len()
        invariant
            i <= v.len(),
            r@ =~= v@.take(i as int),
        decreases v.len() - i,
    {
        r.push(v[i]);
        i += 1;
    }
    r
}

/// The first position of `x` in `v`, if any.
pub fn first_position(v: &Vec<usize>, x: usize) -> (r: Option<usize>)
    ensures
        match r {
            Some(p) => first_slot(v@, x, p as int),
            None => !v@.contains(x),
        },
{
    let mut i: usize = 0;
    while i < v.len()
        invariant
            i <= v.len(),
            forall|k: int| 0 <= k < i ==> v@[k] != x,
        decreases v.len() - i,
    {
        if v[i] == x {
            return Some(i);
        }
        i += 1;
    }
    None
}

impl Engine {
    /// The engine's invariant: the order is a permutation of the catalog
    /// (the identity while shuffle is off), the queue indexes the catalog,
    /// the queue position lies in the queue (0 when it is empty), the
    /// current track is in the catalog, and a playing track has a running clock.
    pub open spec fn wf(&self) -> bool {
        &&& self.order@.to_multiset() == identity(self.tracks_len as nat).to_multiset()
        &&& !self.shuffle ==> self.order@ == identity(self.tracks_len as nat)
        &&& all_below(self.queue@, self.tracks_len)
        &&& self.queue@.len() > 0 ==> self.queue_pos < self.queue@.len()
        &&& self.queue@.len() == 0 ==> self.queue_pos == 0
        &&& (self.index matches Some(i) ==> i < self.tracks_len)
        &&& (self.index is Some && !self.paused) ==> self.started_at is Some
    }

    /// The blend used when switching tracks now: only while a track plays
    /// and a crossfade is configured.
    pub open spec fn crossfade(&self) -> Option<Fade> {
        if self.index is Some && !self.paused && self.settings.crossfade_ms > 0 {
            let steps: u64 = if self.settings.crossfade_steps == 0 {
                1
            } else {
                self.settings.crossfade_steps
            };
            let ms = self.settings.crossfade_ms / steps;
            Some(Fade { steps, step_ms: if ms == 0 { 1 } else { ms } })
        } else {
            None
        }
    }

    /// Elapsed playback time at clock reading `now`, in milliseconds
    /// (saturating at `u64::MAX`).
    pub open spec fn elapsed_at(&self, now: u64) -> int {
        let run: int = match self.started_at {
            Some(st) => if now >= st {
                now - st
            } else {
                0
            },
            None => 0,
        };
        if self.accumulated_ms + run > u64::MAX {
            u64::MAX as int
        } else {
            self.accumulated_ms + run
        }
    }

    /// The queue position after `i` starts: kept when it already holds `i`,
    /// else the first position of `i`, else kept.
    pub open spec fn relocated(&self, i: usize, p: usize) -> bool {
        if self.queue_pos < self.queue@.len() && self.queue@[self.queue_pos as int] == i {
            p == self.queue_pos
        } else if self.queue@.contains(i) {
            first_slot(self.queue@, i, p as int)
        } else {
            p == self.queue_pos
        }
    }

    /// The queue position after a new queue: the first position of the
    /// current track in it, else 0.
    pub open spec fn pos_in_new_queue(&self, q: Seq<usize>, p: usize) -> bool {
        match self.index {
            Some(i) => if q.contains(i) {
                first_slot(q, i, p as int)
            } else {
                p == 0
            },
            None => p == 0,
        }
    }

    /// Settings, shuffle state, loop mode and running flag are unchanged.
    pub open spec fn keeps_modes(&self, e: &Engine) -> bool {
        &&& e.tracks_len == self.tracks_len
        &&& e.settings == self.settings
        &&& e.shuffle == self.shuffle
        &&& e.order@ == self.order@
        &&& e.loop_mode == self.loop_mode
        &&& e.running == self.running
    }

    /// Playback state (track, pause flag, clock) is unchanged.
    pub open spec fn keeps_playback(&self, e: &Engine) -> bool {
        &&& e.index == self.index
        &&& e.paused == self.paused
        &&& e.started_at == self.started_at
        &&& e.accumulated_ms == self.accumulated_ms
    }

    /// `e` plays `i` from its start since `now`, and `fx` switches to it.
    pub open spec fn starts(&self, e: &Engine, i: usize, now: u64, fx: Seq<Effect>) -> bool {
        &&& e.index == Some(i)
        &&& !e.paused
        &&& e.started_at == Some(now)
        &&& e.accumulated_ms == 0
        &&& self.keeps_modes(e)
        &&& fx == seq![
            Effect::Switch { index: i, fade: self.crossfade() },
            Effect::PublishNowPlaying(Some(i)),
        ]
    }

    /// `e` is stopped, with the queue as it was.
    pub open spec fn stops(&self, e: &Engine, fx: Seq<Effect>) -> bool {
        &&& e.index is None
        &&& e.paused
        &&& e.started_at is None
        &&& e.accumulated_ms == 0
        &&& e.queue@ == self.queue@
        &&& e.queue_pos == self.queue_pos
        &&& self.keeps_modes(e)
        &&& fx == seq![Effect::Stop, Effect::PublishNowPlaying(None)]
    }

    /// `e` plays queue slot `p` from its start since `now`.
    pub open spec fn starts_slot(&self, e: &Engine, p: int, now: u64, fx: Seq<Effect>) -> bool {
        &&& 0 <= p < self.queue@.len()
        &&& e.queue@ == self.queue@
        &&& e.queue_pos == p
        &&& self.starts(e, self.queue@[p], now, fx)
    }

    /// `e` is `self`, and nothing is to be done.
    pub open spec fn idle(&self, e: &Engine, fx: Seq<Effect>) -> bool {
        &&& self.keeps_modes(e)
        &&& self.keeps_playback(e)
        &&& e.queue@ == self.queue@
        &&& e.queue_pos == self.queue_pos
        &&& fx.len() == 0
    }

    /// A play command: the queue position moves to the track (which becomes
    /// the whole queue when absent from it) and the track starts; an index
    /// outside the catalog is ignored.
    pub open spec fn play_spec(&self, e: &Engine, i: usize, now: u64, fx: Seq<Effect>) -> bool {
        if i >= self.tracks_len {
            self.idle(e, fx)
        } else {
            &&& self.starts(e, i, now, fx)
            &&& if self.queue@.contains(i) {
                e.queue@ == self.queue@ && self.relocated(i, e.queue_pos)
            } else {
                e.queue@ == seq![i] && e.queue_pos == 0
            }
        }
    }

    /// A pause toggle: pausing banks the elapsed time and stops the clock;
    /// resuming restarts the clock. Without a track nothing happens.
    pub open spec fn pause_spec(&self, e: &Engine, now: u64, fx: Seq<Effect>) -> bool {
        if self.index is None {
            self.idle(e, fx)
        } else {
            &&& self.keeps_modes(e)
            &&& e.queue@ == self.queue@
            &&& e.queue_pos == self.queue_pos
            &&& e.index == self.index
            &&& e.paused == !self.paused
            &&& if self.paused {
                &&& e.started_at == Some(now)
                &&& e.accumulated_ms == self.accumulated_ms
                &&& fx == seq![Effect::Resume, Effect::PublishPlaying(true)]
            } else {
                &&& e.started_at is None
                &&& e.accumulated_ms == self.elapsed_at(now)
                &&& fx == seq![Effect::Pause, Effect::PublishPlaying(false)]
            }
        }
    }

    /// The offset, in milliseconds, that a seek by `secs` seconds at `now`
    /// lands on: whole elapsed seconds plus `secs`, never below zero.
    pub open spec fn seek_target(&self, secs: i32, now: u64) -> int {
        let s = self.elapsed_at(now) / 1000 + secs;
        let s = if s < 0 {
            0
        } else {
            s
        };
        if s * 1000 > u64::MAX {
            u64::MAX as int
        } else {
            s * 1000
        }
    }

    /// A seek: the current track is reopened at the target offset, the
    /// pause state kept. Without a track nothing happens.
    pub open spec fn seek_spec(&self, e: &Engine, secs: i32, now: u64, fx: Seq<Effect>) -> bool {
        match self.index {
            None => self.idle(e, fx),
            Some(i) => {
                let ms = self.seek_target(secs, now);
                &&& self.keeps_modes(e)
                &&& e.queue@ == self.queue@
                &&& e.queue_pos == self.queue_pos
                &&& e.index == self.index
                &&& e.paused == self.paused
                &&& e.accumulated_ms == ms
                &&& e.started_at == if self.paused {
                    None
                } else {
                    Some(now)
                }
                &&& fx == seq![
                    Effect::Reopen { index: i, offset_ms: ms as u64, paused: self.paused },
                    Effect::PublishElapsed(ms as u64),
                ]
            },
        }
    }

    /// A new queue: the candidates reduced under the current shuffle state.
    pub open spec fn set_queue_spec(&self, e: &Engine, cands: Seq<usize>, fx: Seq<Effect>) -> bool {
        &&& self.keeps_modes(e)
        &&& self.keeps_playback(e)
        &&& e.queue@ == reduced(cands, self.tracks_len, self.shuffle, self.order@)
        &&& self.pos_in_new_queue(e.queue@, e.queue_pos)
        &&& fx.len() == 0
    }

    /// A shuffle toggle, with `perm` the freshly shuffled order: the order
    /// becomes `perm` (shuffle on) or the identity (shuffle off) and is
    /// published; the queue keeps its tracks and is put in the new order.
    pub open spec fn shuffle_spec(&self, e: &Engine, perm: Seq<usize>, fx: Seq<Effect>) -> bool {
        &&& e.tracks_len == self.tracks_len
        &&& e.settings == self.settings
        &&& e.loop_mode == self.loop_mode
        &&& e.running == self.running
        &&& self.keeps_playback(e)
        &&& e.shuffle == !self.shuffle
        &&& e.order@ == if e.shuffle {
            perm
        } else {
            identity(self.tracks_len as nat)
        }
        &&& fx.len() == 1
        &&& (fx[0] matches Effect::PublishOrder(v) && v@ == e.order@)
        &&& if self.queue@.len() == 0 {
            e.queue@ == self.queue@ && e.queue_pos == self.queue_pos
        } else {
            e.queue@ == reduced(self.queue@, self.tracks_len, e.shuffle, e.order@)
                && self.pos_in_new_queue(e.queue@, e.queue_pos)
        }
    }

    /// A new loop mode, with no other change.
    pub open spec fn loop_mode_spec(&self, e: &Engine, m: LoopMode, fx: Seq<Effect>) -> bool {
        &&& e.loop_mode == m
        &&& e.tracks_len == self.tracks_len
        &&& e.settings == self.settings
        &&& e.shuffle == self.shuffle
        &&& e.order@ == self.order@
        &&& e.running == self.running
        &&& self.keeps_playback(e)
        &&& e.queue@ == self.queue@
        &&& e.queue_pos == self.queue_pos
        &&& fx.len() == 0
    }

    /// A manual skip forward: the next slot, wrapping to the first only in
    /// `LoopAll`; whatever the loop mode, never a repeat of the current
    /// slot while another one exists.
    pub open spec fn next_spec(&self, e: &Engine, now: u64, fx: Seq<Effect>) -> bool {
        let len = self.queue@.len();
        let cur: int = if self.index is Some {
            self.queue_pos as int
        } else {
            0
        };
        if self.tracks_len == 0 || len == 0 {
            self.idle(e, fx)
        } else if cur + 1 >= len {
            if self.loop_mode == LoopMode::LoopAll {
                self.starts_slot(e, 0, now, fx)
            } else {
                self.idle(e, fx)
            }
        } else {
            self.starts_slot(e, cur + 1, now, fx)
        }
    }

    /// A manual skip back: the previous slot, wrapping to the last only in
    /// `LoopAll`.
    pub open spec fn prev_spec(&self, e: &Engine, now: u64, fx: Seq<Effect>) -> bool {
        let len = self.queue@.len();
        let cur: int = if self.index is Some {
            self.queue_pos as int
        } else {
            0
        };
        if self.tracks_len == 0 || len == 0 {
            self.idle(e, fx)
        } else if cur == 0 {
            if self.loop_mode == LoopMode::LoopAll {
                self.starts_slot(e, len - 1, now, fx)
            } else {
                self.idle(e, fx)
            }
        } else {
            self.starts_slot(e, cur - 1, now, fx)
        }
    }

    /// Quit: fade the active output out and stop it, publish that nothing
    /// plays, and stop running.
    pub open spec fn quit_spec(&self, e: &Engine, fade_out_ms: u64, fx: Seq<Effect>) -> bool {
        &&& !e.running
        &&& e.tracks_len == self.tracks_len
        &&& e.queue@ == self.queue@
        &&& e.queue_pos == self.queue_pos
        &&& self.keeps_playback(e)
        &&& fx == if self.index is Some {
            seq![
                Effect::FadeOutAndStop { fade: quit_fade(fade_out_ms) },
                Effect::PublishPlaying(false),
            ]
        } else {
            seq![Effect::PublishPlaying(false)]
        }
    }

    /// A poll tick, with `sink_empty` telling whether the active output has
    /// played out. A finished track repeats (`LoopOne`), advances with
    /// wrap-around (`LoopAll`), or advances and stops at the end (`NoLoop`).
    pub open spec fn tick_spec(&self, e: &Engine, now: u64, sink_empty: bool, fx: Seq<Effect>) -> bool {
        let len = self.queue@.len();
        if !(self.index is Some && !self.paused && sink_empty) {
            self.idle(e, fx)
        } else {
            match self.loop_mode {
                LoopMode::LoopOne => {
                    &&& self.starts(e, self.index->0, now, fx)
                    &&& e.queue@ == self.queue@
                    &&& self.relocated(self.index->0, e.queue_pos)
                },
                LoopMode::LoopAll => if len == 0 {
                    self.idle(e, fx)
                } else if self.queue_pos + 1 >= len {
                    self.starts_slot(e, 0, now, fx)
                } else {
                    self.starts_slot(e, self.queue_pos + 1, now, fx)
                },
                LoopMode::NoLoop => if len == 0 {
                    self.idle(e, fx)
                } else if self.queue_pos + 1 >= len {
                    self.stops(e, fx)
                } else {
                    self.starts_slot(e, self.queue_pos + 1, now, fx)
                },
            }
        }
    }
}

impl Engine {
    /// A stopped engine over a catalog of `tracks_len` tracks: the queue and
    /// the order are the whole catalog in order, shuffle is off, loop mode
    /// `LoopAll`.
    pub fn new(tracks_len: usize, settings: AudioSettings) -> (r: Engine)
        ensures
            r.wf(),
            r.tracks_len == tracks_len,
            r.settings == settings,
            r.index is None,
            r.paused,
            r.started_at is None,
            r.accumulated_ms == 0,
            !r.shuffle,
            r.order@ == identity(tracks_len as nat),
            r.queue@ == identity(tracks_len as nat),
            r.queue_pos == 0,
            r.loop_mode == LoopMode::LoopAll,
            r.running,
    {
        Engine {
            tracks_len,
            settings,
            index: None,
            paused: true,
            started_at: None,
            accumulated_ms: 0,
            shuffle: false,
            order: identity_vec(tracks_len),
            queue: identity_vec(tracks_len),
            queue_pos: 0,
            loop_mode: LoopMode::LoopAll,
            running: true,
        }
    }

    /// Elapsed playback time at clock reading `now`, in milliseconds.
    pub fn elapsed_ms(&self, now: u64) -> (r: u64)
        ensures
            r == self.elapsed_at(now),
    {
        let run: u64 = match self.started_at {
            Some(st) => if now >= st {
                now - st
            } else {
                0
            },
            None => 0,
        };
        self.accumulated_ms.saturating_add(run)
    }

    fn crossfade_now(&self) -> (r: Option<Fade>)
        ensures
            r == self.crossfade(),
    {
        if self.index.is_some() && !self.paused && self.settings.crossfade_ms > 0 {
            let steps: u64 = if self.settings.crossfade_steps == 0 {
                1
            } else {
                self.settings.crossfade_steps
            };
            let ms = self.settings.crossfade_ms / steps;
            Some(Fade { steps, step_ms: if ms == 0 { 1 } else { ms } })
        } else {
            None
        }
    }

    /// Starts track `i` from its beginning; the queue is left as it is.
    fn start(&mut self, i: usize, now: u64) -> (fx: Vec<Effect>)
        requires
            i < old(self).tracks_len,
        ensures
            old(self).starts(final(self), i, now, fx@),
            final(self).queue@ == old(self).queue@,
            final(self).queue_pos == old(self).queue_pos,
    {
        let fade = self.crossfade_now();
        self.index = Some(i);
        self.paused = false;
        self.started_at = Some(now);
        self.accumulated_ms = 0;
        vec![Effect::Switch { index: i, fade }, Effect::PublishNowPlaying(Some(i))]
    }

    /// Starts queue slot `p`.
    fn start_slot(&mut self, p: usize, now: u64) -> (fx: Vec<Effect>)
        requires
            old(self).wf(),
            p < old(self).queue@.len(),
        ensures
            old(self).starts_slot(final(self), p as int, now, fx@),
            final(self).wf(),
    {
        self.queue_pos = p;
        let i = self.queue[p];
        self.start(i, now)
    }

    /// Stops playback and clears the current track.
    pub fn stop(&mut self) -> (fx: Vec<Effect>)
        requires
            old(self).wf(),
        ensures
            old(self).stops(final(self), fx@),
            final(self).wf(),
    {
        self.index = None;
        self.paused = true;
        self.started_at = None;
        self.accumulated_ms = 0;
        vec![Effect::Stop, Effect::PublishNowPlaying(None)]
    }

    /// Plays catalog track `i`.
    pub fn play(&mut self, i: usize, now: u64) -> (fx: Vec<Effect>)
        requires
            old(self).wf(),
        ensures
            old(self).play_spec(final(self), i, now, fx@),
            final(self).wf(),
    {
        if i >= self.tracks_len {
            return Vec::new();
        }
        if self.queue_pos < self.queue.len() && self.queue[self.queue_pos] == i {
        } else {
            match first_position(&self.queue, i) {
                Some(p) => {
                    assert(self.queue@[p as int] == i);
                    self.queue_pos = p;
                },
                None => {
                    self.queue = vec![i];
                    assert(self.queue@ =~= seq![i]);
                    self.queue_pos = 0;
                },
            }
        }
        self.start(i, now)
    }

    /// Toggles pause.
    pub fn toggle_pause(&mut self, now: u64) -> (fx: Vec<Effect>)
        requires
            old(self).wf(),
        ensures
            old(self).pause_spec(final(self), now, fx@),
            final(self).wf(),
    {
        if self.index.is_none() {
            return Vec::new();
        }
        if self.paused {
            self.started_at = Some(now);
            self.paused = false;
            vec![Effect::Resume, Effect::PublishPlaying(true)]
        } else {
            self.accumulated_ms = self.elapsed_ms(now);
            self.started_at = None;
            self.paused = true;
            vec![Effect::Pause, Effect::PublishPlaying(false)]
        }
    }

    /// Seeks the current track by `secs` seconds.
    pub fn seek_by(&mut self, secs: i32, now: u64) -> (fx: Vec<Effect>)
        requires
            old(self).wf(),
        ensures
            old(self).seek_spec(final(self), secs, now, fx@),
            final(self).wf(),
    {
        let i = match self.index {
            Some(i) => i,
            None => {
                return Vec::new();
            },
        };
        let cur: u64 = self.elapsed_ms(now) / 1000;
        let target: u64 = if secs >= 0 {
            cur.saturating_add(secs as u64)
        } else {
            let back = (-(secs as i64)) as u64;
            if back >= cur {
                0
            } else {
                cur - back
            }
        };
        let ms: u64 = if target > u64::MAX / 1000 {
            u64::MAX
        } else {
            target * 1000
        };
        assert(ms == self.seek_target(secs, now)) by (nonlinear_arith)
            requires
                cur == self.elapsed_at(now) / 1000,
                target == (if cur + secs < 0 { 0 } else if cur + secs > u64::MAX { u64::MAX as int } else { cur + secs }),
                ms == if target * 1000 > u64::MAX { u64::MAX as int } else { target * 1000 },
                self.elapsed_at(now) <= u64::MAX,
        ;
        self.accumulated_ms = ms;
        if self.paused {
            self.started_at = None;
        } else {
            self.started_at = Some(now);
        }
        vec![Effect::Reopen { index: i, offset_ms: ms, paused: self.paused }, Effect::PublishElapsed(ms)]
    }

    /// Replaces the queue by the reduced candidates.
    pub fn set_queue(&mut self, cands: Vec<usize>) -> (fx: Vec<Effect>)
        requires
            old(self).wf(),
        ensures
            old(self).set_queue_spec(final(self), cands@, fx@),
            final(self).wf(),
    {
        let mut q = cands;
        reorder_queue_in_place(&mut q, self.tracks_len, self.shuffle, self.order.as_slice());
        self.queue = q;
        self.queue_pos = self.position_of_current();
        Vec::new()
    }

    /// The first position of the current track in the queue, else 0.
    fn position_of_current(&self) -> (p: usize)
        ensures
            self.pos_in_new_queue(self.queue@, p),
            self.queue@.len() > 0 ==> p < self.queue@.len(),
    {
        match self.index {
            Some(i) => match first_position(&self.queue, i) {
                Some(p) => p,
                None => 0,
            },
            None => 0,
        }
    }

    /// Sets the loop mode.
    pub fn set_loop_mode(&mut self, m: LoopMode) -> (fx: Vec<Effect>)
        requires
            old(self).wf(),
        ensures
            old(self).loop_mode_spec(final(self), m, fx@),
            final(self).wf(),
    {
        self.loop_mode = m;
        Vec::new()
    }

    /// Toggles shuffle with `perm`, a permutation of the catalog, as the
    /// new order when turning it on.
    pub fn toggle_shuffle_with(&mut self, perm: Vec<usize>) -> (fx: Vec<Effect>)
        requires
            old(self).wf(),
            !old(self).shuffle ==> perm@.to_multiset() == identity(
                old(self).tracks_len as nat,
            ).to_multiset(),
        ensures
            old(self).shuffle_spec(final(self), perm@, fx@),
            final(self).wf(),
    {
        self.shuffle = !self.shuffle;
        if self.shuffle {
            self.order = perm;
        } else {
            self.order = identity_vec(self.tracks_len);
        }
        if self.queue.len() > 0 {
            let mut q = copy_vec(&self.queue);
            reorder_queue_in_place(&mut q, self.tracks_len, self.shuffle, self.order.as_slice());
            self.queue = q;
            self.queue_pos = self.position_of_current();
        }
        vec![Effect::PublishOrder(copy_vec(&self.order))]
    }

    /// Toggles shuffle; turning it on shuffles the current order at random.
    pub fn toggle_shuffle(&mut self) -> (fx: Vec<Effect>)
        requires
            old(self).wf(),
        ensures
            exists|perm: Seq<usize>|
                perm.to_multiset() == old(self).order@.to_multiset() && old(self).shuffle_spec(
                    final(self),
                    perm,
                    fx@,
                ),
            final(self).wf(),
    {
        let mut perm = copy_vec(&self.order);
        if !self.shuffle {
            shuffle_in_place(&mut perm);
        }
        let ghost p = perm@;
        let fx = self.toggle_shuffle_with(perm);
        assert(p.to_multiset() == old(self).order@.to_multiset());
        fx
    }

    /// Skips to the next queue slot.
    pub fn next(&mut self, now: u64) -> (fx: Vec<Effect>)
        requires
            old(self).wf(),
        ensures
            old(self).next_spec(final(self), now, fx@),
            final(self).wf(),
    {
        let len = self.queue.len();
        if self.tracks_len == 0 || len == 0 {
            return Vec::new();
        }
        let cur = if self.index.is_some() {
            self.queue_pos
        } else {
            0
        };
        if cur >= len - 1 {
            match self.loop_mode {
                LoopMode::LoopAll => self.start_slot(0, now),
                _ => Vec::new(),
            }
        } else {
            self.start_slot(cur + 1, now)
        }
    }

    /// Goes back to the previous queue slot.
    pub fn prev(&mut self, now: u64) -> (fx: Vec<Effect>)
        requires
            old(self).wf(),
        ensures
            old(self).prev_spec(final(self), now, fx@),
            final(self).wf(),
    {
        let len = self.queue.len();
        if self.tracks_len == 0 || len == 0 {
            return Vec::new();
        }
        let cur = if self.index.is_some() {
            self.queue_pos
        } else {
            0
        };
        if cur == 0 {
            match self.loop_mode {
                LoopMode::LoopAll => self.start_slot(len - 1, now),
                _ => Vec::new(),
            }
        } else {
            self.start_slot(cur - 1, now)
        }
    }

    /// Fades out, stops and ends the engine.
    pub fn quit(&mut self, fade_out_ms: u64) -> (fx: Vec<Effect>)
        requires
            old(self).wf(),
        ensures
            old(self).quit_spec(final(self), fade_out_ms, fx@),
            final(self).wf(),
    {
        self.running = false;
        if self.index.is_some() {
            let fade = if fade_out_ms == 0 {
                None
            } else {
                let ms = fade_out_ms / QUIT_FADE_STEPS;
                Some(Fade { steps: QUIT_FADE_STEPS, step_ms: if ms == 0 { 1 } else { ms } })
            };
            assert(fade == quit_fade(fade_out_ms));
            let fx = vec![Effect::FadeOutAndStop { fade }, Effect::PublishPlaying(false)];
            assert(fx@ =~= seq![
                Effect::FadeOutAndStop { fade: quit_fade(fade_out_ms) },
                Effect::PublishPlaying(false),
            ]);
            fx
        } else {
            let fx = vec![Effect::PublishPlaying(false)];
            assert(fx@ =~= seq![Effect::PublishPlaying(false)]);
            fx
        }
    }

    /// A poll tick: auto-advance when the active output has played out.
    pub fn on_tick(&mut self, now: u64, sink_empty: bool) -> (fx: Vec<Effect>)
        requires
            old(self).wf(),
        ensures
            old(self).tick_spec(final(self), now, sink_empty, fx@),
            final(self).wf(),
    {
        let i = match self.index {
            Some(i) => i,
            None => {
                return Vec::new();
            },
        };
        if self.paused || !sink_empty {
            return Vec::new();
        }
        let len = self.queue.len();
        match self.loop_mode {
            LoopMode::LoopOne => {
                if self.queue_pos < len && self.queue[self.queue_pos] == i {
                } else if let Some(p) = first_position(&self.queue, i) {
                    self.queue_pos = p;
                }
                self.start(i, now)
            },
            LoopMode::LoopAll => {
                if len == 0 {
                    Vec::new()
                } else if self.queue_pos >= len - 1 {
                    self.start_slot(0, now)
                } else {
                    self.start_slot(self.queue_pos + 1, now)
                }
            },
            LoopMode::NoLoop => {
                if len == 0 {
                    Vec::new()
                } else if self.queue_pos >= len - 1 {
                    self.stop()
                } else {
                    self.start_slot(self.queue_pos + 1, now)
                }
            },
        }
    }

    /// A track could not be opened: playback stops, the engine stays usable.
    pub fn track_failed(&mut self) -> (fx: Vec<Effect>)
        requires
            old(self).wf(),
        ensures
            old(self).stops(final(self), fx@),
            final(self).wf(),
    {
        self.stop()
    }

    /// Processes one command at clock reading `now`.
    pub fn handle(&mut self, cmd: AudioCmd, now: u64) -> (fx: Vec<Effect>)
        requires
            old(self).wf(),
        ensures
            final(self).wf(),
            match cmd {
                AudioCmd::Play(i) => old(self).play_spec(final(self), i, now, fx@),
                AudioCmd::Stop => old(self).stops(final(self), fx@),
                AudioCmd::TogglePause => old(self).pause_spec(final(self), now, fx@),
                AudioCmd::ToggleShuffle => exists|perm: Seq<usize>|
                    perm.to_multiset() == old(self).order@.to_multiset() && old(
                        self,
                    ).shuffle_spec(final(self), perm, fx@),
                AudioCmd::SetQueue(c) => old(self).set_queue_spec(final(self), c@, fx@),
                AudioCmd::SetLoopMode(m) => old(self).loop_mode_spec(final(self), m, fx@),
                AudioCmd::Next => old(self).next_spec(final(self), now, fx@),
                AudioCmd::Prev => old(self).prev_spec(final(self), now, fx@),
                AudioCmd::Quit { fade_out_ms } => old(self).quit_spec(final(self), fade_out_ms, fx@),
                AudioCmd::SeekBy(secs) => old(self).seek_spec(final(self), secs, now, fx@),
            },
    {
        match cmd {
            AudioCmd::Play(i) => self.play(i, now),
            AudioCmd::Stop => self.stop(),
            AudioCmd::TogglePause => self.toggle_pause(now),
            AudioCmd::ToggleShuffle => self.toggle_shuffle(),
            AudioCmd::SetQueue(c) => self.set_queue(c),
            AudioCmd::SetLoopMode(m) => self.set_loop_mode(m),
            AudioCmd::Next => self.next(now),
            AudioCmd::Prev => self.prev(now),
            AudioCmd::Quit { fade_out_ms } => self.quit(fade_out_ms),
            AudioCmd::SeekBy(secs) => self.seek_by(secs, now),
        }
    }
}

/// A manual skip from a slot that has a successor moves to that successor,
/// whatever the loop mode: it never repeats the current track's slot.
pub proof fn lemma_next_moves_on(e0: Engine, e1: Engine, now: u64, fx: Seq<Effect>)
    requires
        e0.wf(),
        e0.index is Some,
        e0.queue_pos + 1 < e0.queue@.len(),
        e0.next_spec(&e1, now, fx),
    ensures
        e1.queue_pos == e0.queue_pos + 1,
        e1.index == Some(e0.queue@[e0.queue_pos + 1]),
        e1.queue@ == e0.queue@,
{
}

/// Paused time does not count: playing from `t0` to `t1`, pausing until
/// `t2` and playing on gives an elapsed time of `(t1 - t0) + (t3 - t2)` at `t3`.
pub proof fn lemma_pause_excludes_paused_time(
    e0: Engine,
    e1: Engine,
    e2: Engine,
    t0: u64,
    t1: u64,
    t2: u64,
    t3: u64,
    fx1: Seq<Effect>,
    fx2: Seq<Effect>,
)
    requires
        e0.index is Some,
        !e0.paused,
        e0.started_at == Some(t0),
        e0.accumulated_ms == 0,
        t0 <= t1 <= t2 <= t3,
        e0.pause_spec(&e1, t1, fx1),
        e1.pause_spec(&e2, t2, fx2),
    ensures
        e1.paused,
        !e2.paused,
        e2.elapsed_at(t3) == (t1 - t0) + (t3 - t2),
{
}

/// Quit ends the engine from every state and for every fade duration,
/// with nothing left playing.
pub proof fn lemma_quit_terminates(e0: Engine, e1: Engine, fade_out_ms: u64, fx: Seq<Effect>)
    requires
        e0.quit_spec(&e1, fade_out_ms, fx),
    ensures
        !e1.running,
        fx.last() == Effect::PublishPlaying(false),
        fade_out_ms == 0 && e0.index is Some ==> fx[0] == (Effect::FadeOutAndStop { fade: None }),
{
}

/// A seek that would go before the start reopens the track at offset 0.
pub proof fn lemma_seek_clamps_at_zero(e0: Engine, e1: Engine, secs: i32, now: u64, fx: Seq<Effect>)
    requires
        e0.index is Some,
        e0.elapsed_at(now) / 1000 + secs <= 0,
        e0.seek_spec(&e1, secs, now, fx),
    ensures
        e1.accumulated_ms == 0,
        fx[0] == (Effect::Reopen { index: e0.index->0, offset_ms: 0, paused: e0.paused }),
{
}

impl PlaybackInfo {
    /// One ticker step: while playing, the elapsed time grows by `step_ms`
    /// (saturating); nothing else changes.
    pub fn tick(&mut self, step_ms: u64)
        ensures
            final(self).index == old(self).index,
            final(self).playing == old(self).playing,
            final(self).elapsed_ms == if old(self).playing {
                if old(self).elapsed_ms + step_ms > u64::MAX {
                    u64::MAX as int
                } else {
                    old(self).elapsed_ms + step_ms
                }
            } else {
                old(self).elapsed_ms as int
            },
    {
        if self.playing {
            self.elapsed_ms = self.elapsed_ms.saturating_add(step_ms);
        }
    }

    /// Applies a publishing effect to the snapshot; other effects leave it as it is.
    pub fn publish(&mut self, fx: &Effect)
        ensures
            match *fx {
                Effect::PublishNowPlaying(i) => final(self).index == i && final(self).elapsed_ms == 0
                    && final(self).playing == i is Some,
                Effect::PublishPlaying(p) => final(self).index == old(self).index
                    && final(self).elapsed_ms == old(self).elapsed_ms && final(self).playing == p,
                Effect::PublishElapsed(ms) => final(self).index == old(self).index
                    && final(self).elapsed_ms == ms && final(self).playing == old(self).playing,
                _ => final(self).index == old(self).index && final(self).elapsed_ms
                    == old(self).elapsed_ms && final(self).playing == old(self).playing,
            },
    {
        match fx {
            Effect::PublishNowPlaying(i) => {
                self.index = *i;
                self.elapsed_ms = 0;
                self.playing = i.is_some();
            },
            Effect::PublishPlaying(p) => {
                self.playing = *p;
            },
            Effect::PublishElapsed(ms) => {
                self.elapsed_ms = *ms;
            },
            _ => {},
        }
    }
}

} // verus!
