//! The application model: the catalog, the cursor, the filter, and the
//! flags that the front end keeps in step with the playback engine.
use vstd::prelude::*;

use crate::audio::engine::{first_position, first_slot, identity};
use crate::audio::{LoopMode, OrderHandle, PlaybackHandle};
use crate::library::Track;
use crate::text::{chars_of, lower, lower_chars, match_from, match_positions, string_of, trim, trimmed};

verus! {

/// The playback state as the front end shows it.
#[derive(Copy, Clone, Debug, PartialEq, Eq, Structural)]
pub enum PlaybackState {
    Stopped,
    Playing,
    Paused,
}

impl Default for PlaybackState {
    fn default() -> (r: Self)
        ensures
            r == PlaybackState::Stopped,
    {
        PlaybackState::Stopped
    }
}

/// The loop mode that follows `m` when cycling.
pub open spec fn cycled(m: LoopMode) -> LoopMode {
    match m {
        LoopMode::NoLoop => LoopMode::LoopAll,
        LoopMode::LoopAll => LoopMode::LoopOne,
        LoopMode::LoopOne => LoopMode::NoLoop,
    }
}

/// Cycling goes `NoLoop -> LoopAll -> LoopOne -> NoLoop`: every step
/// changes the mode, and three steps lead back to the start.
pub proof fn lemma_cycle_loop_mode(m: LoopMode)
    ensures
        cycled(m) != m,
        cycled(cycled(m)) != m,
        cycled(cycled(cycled(m))) == m,
        cycled(LoopMode::NoLoop) == LoopMode::LoopAll,
        cycled(LoopMode::LoopAll) == LoopMode::LoopOne,
        cycled(LoopMode::LoopOne) == LoopMode::NoLoop,
{
}

/// The title matches the query: the query's characters appear in the
/// title in order, compared in ASCII lower case.
pub open spec fn title_matches(title: Seq<char>, query: Seq<char>) -> bool {
    match_from(lower(title), lower(query), 0) is Some
}

/// `r` holds the positions `m`.
pub open spec fn same_match(r: Option<Vec<usize>>, m: Option<Seq<usize>>) -> bool {
    match r {
        Some(v) => m == Some(v@),
        None => m is None,
    }
}

/// The entry after `cur` in `d`, wrapping around; the first entry when
/// `cur` is not in `d`.
pub open spec fn next_of(d: Seq<usize>, cur: usize) -> Option<usize> {
    if d.len() == 0 {
        None
    } else if d.contains(cur) {
        let p = choose|p: int| first_slot(d, cur, p);
        Some(d[(p + 1) % d.len() as int])
    } else {
        Some(d[0])
    }
}

/// The entry before `cur` in `d`, wrapping around; the last entry when
/// `cur` is not in `d`.
pub open spec fn prev_of(d: Seq<usize>, cur: usize) -> Option<usize> {
    if d.len() == 0 {
        None
    } else if d.contains(cur) {
        let p = choose|p: int| first_slot(d, cur, p);
        if p == 0 {
            Some(d.last())
        } else {
            Some(d[p - 1])
        }
    } else {
        Some(d.last())
    }
}

/// The cursor after the view became `d`: kept when visible, else the
/// first visible entry, else 0.
pub open spec fn settle(d: Seq<usize>, sel: usize) -> usize {
    if d.len() == 0 {
        0
    } else if d.contains(sel) {
        sel
    } else {
        d[0]
    }
}

proof fn lemma_first_slot_unique(d: Seq<usize>, x: usize, p: int, q: int)
    requires
        first_slot(d, x, p),
        first_slot(d, x, q),
    ensures
        p == q,
{
    if p < q {
        assert(d[p] == x);
    } else if q < p {
        assert(d[q] == x);
    }
}

/// The entry after `cur` in the list `d`, wrapping around.
pub fn next_in(d: &Vec<usize>, cur: usize) -> (r: Option<usize>)
    ensures
        r == next_of(d@, cur),
{
    if d.len() == 0 {
        return None;
    }
    match first_position(d, cur) {
        Some(p) => {
            assert(d@.contains(cur)) by {
                assert(d@[p as int] == cur);
            }
            proof {
                let q = choose|q: int| first_slot(d@, cur, q);
                lemma_first_slot_unique(d@, cur, p as int, q);
            }
            Some(d[(p + 1) % d.len()])
        },
        None => Some(d[0]),
    }
}

/// The entry before `cur` in the list `d`, wrapping around.
pub fn prev_in(d: &Vec<usize>, cur: usize) -> (r: Option<usize>)
    ensures
        r == prev_of(d@, cur),
{
    if d.len() == 0 {
        return None;
    }
    match first_position(d, cur) {
        Some(p) => {
            assert(d@.contains(cur)) by {
                assert(d@[p as int] == cur);
            }
            proof {
                let q = choose|q: int| first_slot(d@, cur, q);
                lemma_first_slot_unique(d@, cur, p as int, q);
            }
            if p == 0 {
                Some(d[d.len() - 1])
            } else {
                Some(d[p - 1])
            }
        },
        None => Some(d[d.len() - 1]),
    }
}

/// Relies on `Mutex::lock`: a copy of the shared order, or `None` when the
/// lock is poisoned. Another thread may change the order at any time.
#[verifier::external_body]
fn read_order(h: &OrderHandle) -> Option<Vec<usize>> {
    h.lock().ok().map(|v| v.clone())
}

/// The main application model.
pub struct App {
    pub tracks: Vec<Track>,
    pub selected: usize,
    pub playback: PlaybackState,
    pub playback_handle: Option<PlaybackHandle>,
    /// ASCII lower-case display strings, precomputed for large catalogs;
    /// kept in step with `tracks` (see `wf`).
    pub lower_titles: Option<Vec<Vec<char>>>,
    pub follow_playback: bool,
    pub pending_follow_index: Option<usize>,
    pub loop_mode: LoopMode,
    pub queue_dirty: bool,
    pub shuffle: bool,
    pub filter_mode: bool,
    pub filter_query: String,
    pub order_handle: Option<OrderHandle>,
    pub current_dir: Option<String>,
    pub metadata_window: bool,
}

/// Catalogs larger than this get precomputed lower-case titles.
pub const LOWER_TITLES_ABOVE: usize = 100;

impl App {
    /// The precomputed lower-case titles exist exactly for large catalogs
    /// and match the display strings.
    pub open spec fn wf(&self) -> bool {
        match self.lower_titles {
            Some(lt) => {
                &&& self.tracks@.len() > LOWER_TITLES_ABOVE
                &&& lt@.len() == self.tracks@.len()
                &&& forall|i: int|
                    0 <= i < lt@.len() ==> #[trigger] lt@[i]@ == lower(self.tracks@[i].display@)
            },
            None => self.tracks@.len() <= LOWER_TITLES_ABOVE,
        }
    }

    /// The active filter query: the typed query, trimmed.
    pub open spec fn query(&self) -> Seq<char> {
        trimmed(self.filter_query@)
    }

    /// Track `i` exists and matches the query.
    pub open spec fn shows(&self, i: usize) -> bool {
        i < self.tracks@.len() && title_matches(self.tracks@[i as int].display@, self.query())
    }

    /// The entries of `base` that the query shows, in order.
    pub open spec fn filtered(&self, base: Seq<usize>) -> Seq<usize>
        decreases base.len(),
    {
        if base.len() == 0 {
            base
        } else if self.shows(base.last()) {
            self.filtered(base.drop_last()).push(base.last())
        } else {
            self.filtered(base.drop_last())
        }
    }

    /// What is shown of `base`: all of it with a blank query, else the
    /// entries that match.
    pub open spec fn visible(&self, base: Seq<usize>) -> Seq<usize> {
        if self.query().len() == 0 {
            base
        } else {
            self.filtered(base)
        }
    }

    /// The base order is the catalog's: shuffle is off or no shared order is attached.
    pub open spec fn catalog_order(&self) -> bool {
        !self.shuffle || self.order_handle is None
    }

    /// `d` is a display order of this model: the visible part of the
    /// catalog order, or, while shuffle is on with a shared order attached,
    /// of whatever order was read from it.
    pub open spec fn displays(&self, d: Seq<usize>) -> bool {
        exists|base: Seq<usize>|
            d == #[trigger] self.visible(base) && (self.catalog_order() ==> base == identity(
                self.tracks@.len(),
            ))
    }

    /// `e` is this model with the cursor moved per `settle` over a display order.
    pub open spec fn settles_to(&self, e: &App) -> bool {
        exists|d: Seq<usize>|
            self.displays(d) && *e == App { selected: #[trigger] settle(d, self.selected), ..*self }
    }

    /// `e` is this model with the cursor on the next visible track.
    pub open spec fn moves_next(&self, e: &App) -> bool {
        exists|d: Seq<usize>|
            self.displays(d) && *e == App {
                selected: match #[trigger] next_of(d, self.selected) {
                    Some(x) => x,
                    None => self.selected,
                },
                ..*self
            }
    }

    /// `e` is this model with the cursor on the previous visible track.
    pub open spec fn moves_prev(&self, e: &App) -> bool {
        exists|d: Seq<usize>|
            self.displays(d) && *e == App {
                selected: match #[trigger] prev_of(d, self.selected) {
                    Some(x) => x,
                    None => self.selected,
                },
                ..*self
            }
    }

    /// `e` is this model with the cursor on `idx`, settled.
    pub open spec fn selects(&self, e: &App, idx: usize) -> bool {
        (App { selected: idx, ..*self }).settles_to(e)
    }

    /// `e` is this model in filter mode, not following playback, queue marked, settled.
    pub open spec fn enters_filter(&self, e: &App) -> bool {
        (App {
            filter_mode: true,
            follow_playback: false,
            pending_follow_index: None,
            queue_dirty: true,
            ..*self
        }).settles_to(e)
    }

    /// `e` is this model with an empty query, out of filter mode, queue marked, settled.
    pub open spec fn clears_filter(&self, e: &App) -> bool {
        &&& e.filter_query@.len() == 0
        &&& (App { filter_query: e.filter_query, filter_mode: false, queue_dirty: true, ..*self }).settles_to(e)
    }

    /// `e` is this model with `c` appended to the query, queue marked, settled.
    pub open spec fn pushes_char(&self, e: &App, c: char) -> bool {
        &&& e.filter_query@ == self.filter_query@.push(c)
        &&& (App { filter_query: e.filter_query, queue_dirty: true, ..*self }).settles_to(e)
    }

    /// `e` is this model with the query's last character removed (if any),
    /// queue marked, settled.
    pub open spec fn pops_char(&self, e: &App) -> bool {
        &&& e.filter_query@ == if self.filter_query@.len() == 0 {
            self.filter_query@
        } else {
            self.filter_query@.drop_last()
        }
        &&& (App { filter_query: e.filter_query, queue_dirty: true, ..*self }).settles_to(e)
    }

    /// Creates the model for `tracks`: cursor on the first track, stopped,
    /// following playback, `LoopAll`, shuffle and filter off, queue to sync.
    pub fn new(tracks: Vec<Track>) -> (r: Self)
        ensures
            r.wf(),
            r.tracks@ == tracks@,
            r.selected == 0,
            r.playback == PlaybackState::Stopped,
            r.playback_handle is None,
            r.follow_playback,
            r.pending_follow_index is None,
            r.loop_mode == LoopMode::LoopAll,
            r.queue_dirty,
            !r.shuffle,
            !r.filter_mode,
            r.filter_query@.len() == 0,
            r.order_handle is None,
            r.current_dir is None,
            !r.metadata_window,
    {
        let lower_titles = if tracks.len() > LOWER_TITLES_ABOVE {
            let mut lt: Vec<Vec<char>> = Vec::new();
            let mut i: usize = 0;
            while i < tracks.len()
                invariant
                    i <= tracks.len(),
                    lt@.len() == i,
                    forall|k: int| 0 <= k < i ==> #[trigger] lt@[k]@ == lower(tracks@[k].display@),
                decreases tracks.len() - i,
            {
                lt.push(lower_chars(&chars_of(tracks[i].display.as_str())));
                i += 1;
            }
            Some(lt)
        } else {
            None
        };
        App {
            tracks,
            selected: 0,
            playback: PlaybackState::Stopped,
            playback_handle: None,
            lower_titles,
            follow_playback: true,
            pending_follow_index: None,
            loop_mode: LoopMode::LoopAll,
            queue_dirty: true,
            shuffle: false,
            filter_mode: false,
            filter_query: String::new(),
            order_handle: None,
            current_dir: None,
            metadata_window: false,
        }
    }

    /// Flips the metadata window.
    pub fn toggle_metadata_window(&mut self)
        ensures
            *final(self) == (App { metadata_window: !old(self).metadata_window, ..*old(self) }),
    {
        self.metadata_window = !self.metadata_window;
    }

    /// Marks the queue as needing to be sent to the engine again.
    pub fn mark_queue_dirty(&mut self)
        ensures
            *final(self) == (App { queue_dirty: true, ..*old(self) }),
    {
        self.queue_dirty = true;
    }

    /// Clears the "queue dirty" flag.
    pub fn clear_queue_dirty(&mut self)
        ensures
            *final(self) == (App { queue_dirty: false, ..*old(self) }),
    {
        self.queue_dirty = false;
    }

    /// Cycles the loop mode `NoLoop -> LoopAll -> LoopOne -> NoLoop`.
    pub fn cycle_loop_mode(&mut self)
        ensures
            *final(self) == (App { loop_mode: cycled(old(self).loop_mode), ..*old(self) }),
    {
        self.loop_mode = match self.loop_mode {
            LoopMode::NoLoop => LoopMode::LoopAll,
            LoopMode::LoopAll => LoopMode::LoopOne,
            LoopMode::LoopOne => LoopMode::NoLoop,
        };
    }

    /// Lets the cursor follow the playing track.
    pub fn follow_playback_on(&mut self)
        ensures
            *final(self) == (App { follow_playback: true, ..*old(self) }),
    {
        self.follow_playback = true;
    }

    /// Stops following playback and forgets any pending follow index.
    pub fn follow_playback_off(&mut self)
        ensures
            *final(self) == (App {
                follow_playback: false,
                pending_follow_index: None,
                ..*old(self)
            }),
    {
        self.follow_playback = false;
        self.pending_follow_index = None;
    }

    /// Sets the index to follow once playback reports it.
    pub fn set_pending_follow_index(&mut self, idx: usize)
        ensures
            *final(self) == (App { pending_follow_index: Some(idx), ..*old(self) }),
    {
        self.pending_follow_index = Some(idx);
    }

    /// Clears the pending follow index.
    pub fn clear_pending_follow_index(&mut self)
        ensures
            *final(self) == (App { pending_follow_index: None, ..*old(self) }),
    {
        self.pending_follow_index = None;
    }

    /// Attaches the shared playback snapshot.
    pub fn set_playback_handle(&mut self, h: PlaybackHandle)
        ensures
            *final(self) == (App { playback_handle: Some(h), ..*old(self) }),
    {
        self.playback_handle = Some(h);
    }

    /// Attaches the shared shuffle order.
    pub fn set_order_handle(&mut self, h: OrderHandle)
        ensures
            *final(self) == (App { order_handle: Some(h), ..*old(self) }),
    {
        self.order_handle = Some(h);
    }

    /// Records the library directory.
    pub fn set_current_dir(&mut self, dir: String)
        ensures
            *final(self) == (App { current_dir: Some(dir), ..*old(self) }),
    {
        self.current_dir = Some(dir);
    }

    /// Whether the catalog has any track.
    pub fn has_tracks(&self) -> (r: bool)
        ensures
            r == (self.tracks@.len() > 0),
    {
        self.tracks.len() > 0
    }

    /// Whether this model keeps precomputed lower-case titles.
    pub fn uses_lower_titles(&self) -> (r: bool)
        requires
            self.wf(),
        ensures
            r == (self.tracks@.len() > LOWER_TITLES_ABOVE),
    {
        self.lower_titles.is_some()
    }

    /// Fuzzy match of `query` in `title`: the positions (in characters) of
    /// the greedy subsequence match, compared in ASCII lower case, or
    /// `None`. An empty query matches with no positions.
    pub fn fuzzy_match_positions(title: &str, query: &str) -> (r: Option<Vec<usize>>)
        ensures
            same_match(r, match_from(lower(title@), lower(query@), 0)),
    {
        let t = lower_chars(&chars_of(title));
        let q = lower_chars(&chars_of(query));
        match_positions(&t, &q)
    }

    /// Fuzzy match of an already lower-case query against a track. Large
    /// catalogs compare it as it is with the lower-case title; small ones
    /// compare both in lower case.
    pub fn fuzzy_match_positions_for_track_lower(&self, track_index: usize, query_lower: &str) -> (r:
        Option<Vec<usize>>)
        requires
            self.wf(),
            track_index < self.tracks@.len(),
        ensures
            query_lower@.len() == 0 ==> (r matches Some(v) && v@.len() == 0),
            query_lower@.len() > 0 && self.tracks@.len() > LOWER_TITLES_ABOVE ==> same_match(
                r,
                match_from(lower(self.tracks@[track_index as int].display@), query_lower@, 0),
            ),
            query_lower@.len() > 0 && self.tracks@.len() <= LOWER_TITLES_ABOVE ==> same_match(
                r,
                match_from(
                    lower(self.tracks@[track_index as int].display@),
                    lower(query_lower@),
                    0,
                ),
            ),
    {
        let q = chars_of(query_lower);
        if q.len() == 0 {
            return Some(Vec::new());
        }
        match &self.lower_titles {
            Some(lt) => match_positions(&lt[track_index], &q),
            None => Self::fuzzy_match_positions(self.tracks[track_index].display.as_str(), query_lower),
        }
    }

    /// Whether track `i` matches the lower-case query `ql`.
    fn matches_lower(&self, i: usize, ql: &Vec<char>) -> (r: bool)
        requires
            self.wf(),
            i < self.tracks@.len(),
        ensures
            r == (match_from(lower(self.tracks@[i as int].display@), ql@, 0) is Some),
    {
        match &self.lower_titles {
            Some(lt) => match_positions(&lt[i], ql).is_some(),
            None => {
                let t = lower_chars(&chars_of(self.tracks[i].display.as_str()));
                match_positions(&t, ql).is_some()
            },
        }
    }

    /// The visible part of `base`: all of it with a blank query, else the
    /// entries that name a track matching the query, in order.
    pub fn display_indices_from(&self, base: Vec<usize>) -> (r: Vec<usize>)
        requires
            self.wf(),
        ensures
            r@ == self.visible(base@),
    {
        let query = trim(self.filter_query.as_str());
        let q = chars_of(query);
        if q.len() == 0 {
            return base;
        }
        let ql = lower_chars(&q);
        let mut out: Vec<usize> = Vec::new();
        let mut k: usize = 0;
        while k < base.len()
            invariant
                k <= base.len(),
                self.wf(),
                ql@ == lower(self.query()),
                self.query().len() > 0,
                out@ == self.filtered(base@.take(k as int)),
            decreases base.len() - k,
        {
            let i = base[k];
            assert(base@.take(k as int + 1).drop_last() =~= base@.take(k as int));
            if i < self.tracks.len() && self.matches_lower(i, &ql) {
                out.push(i);
            }
            k += 1;
        }
        assert(base@.take(base@.len() as int) =~= base@);
        out
    }

    /// The display order: the catalog order, or the shared shuffle order
    /// while shuffle is on, with the filter applied.
    pub fn display_indices(&self) -> (r: Vec<usize>)
        requires
            self.wf(),
        ensures
            self.displays(r@),
            self.catalog_order() ==> r@ == self.visible(identity(self.tracks@.len())),
    {
        let n = self.tracks.len();
        let mut base = crate::audio::engine::identity_vec(n);
        if self.shuffle {
            if let Some(h) = &self.order_handle {
                if let Some(v) = read_order(h) {
                    base = v;
                }
            }
        }
        let ghost b = base@;
        let r = self.display_indices_from(base);
        assert(self.catalog_order() ==> b == identity(self.tracks@.len()));
        assert(r@ == self.visible(b));
        r
    }

    /// The catalog indices that match the query, in catalog order.
    pub fn filtered_indices(&self) -> (r: Vec<usize>)
        requires
            self.wf(),
        ensures
            r@ == self.visible(identity(self.tracks@.len())),
    {
        let n = self.tracks.len();
        let base = crate::audio::engine::identity_vec(n);
        self.display_indices_from(base)
    }

    /// The visible track after `current`, wrapping around.
    pub fn next_in_view_from(&self, current: usize) -> (r: Option<usize>)
        requires
            self.wf(),
        ensures
            exists|d: Seq<usize>| self.displays(d) && r == #[trigger] next_of(d, current),
    {
        let display = self.display_indices();
        next_in(&display, current)
    }

    /// The visible track before `current`, wrapping around.
    pub fn prev_in_view_from(&self, current: usize) -> (r: Option<usize>)
        requires
            self.wf(),
        ensures
            exists|d: Seq<usize>| self.displays(d) && r == #[trigger] prev_of(d, current),
    {
        let display = self.display_indices();
        prev_in(&display, current)
    }

    /// Flips shuffle and marks the queue for syncing.
    pub fn toggle_shuffle(&mut self)
        ensures
            *final(self) == (App { shuffle: !old(self).shuffle, queue_dirty: true, ..*old(self) }),
    {
        self.shuffle = !self.shuffle;
        self.mark_queue_dirty();
    }

    /// Puts the cursor on `idx`, or on the first visible track when `idx` is hidden.
    pub fn set_selected(&mut self, idx: usize)
        requires
            old(self).wf(),
        ensures
            old(self).selects(final(self), idx),
            final(self).wf(),
    {
        self.selected = idx;
        self.ensure_selected_visible();
    }

    /// Enters filter mode: stops following playback and marks the queue.
    pub fn enter_filter_mode(&mut self)
        requires
            old(self).wf(),
        ensures
            old(self).enters_filter(final(self)),
            final(self).wf(),
    {
        self.filter_mode = true;
        self.follow_playback_off();
        self.mark_queue_dirty();
        self.ensure_selected_visible();
    }

    /// Leaves filter mode, keeping the query, and marks the queue.
    pub fn exit_filter_mode(&mut self)
        ensures
            *final(self) == (App { filter_mode: false, queue_dirty: true, ..*old(self) }),
    {
        self.filter_mode = false;
        self.mark_queue_dirty();
    }

    /// Clears the query, leaves filter mode and marks the queue.
    pub fn clear_filter(&mut self)
        requires
            old(self).wf(),
        ensures
            old(self).clears_filter(final(self)),
            final(self).wf(),
    {
        self.filter_query = String::new();
        self.filter_mode = false;
        self.mark_queue_dirty();
        self.ensure_selected_visible();
    }

    /// Appends `c` to the query and marks the queue.
    pub fn push_filter_char(&mut self, c: char)
        requires
            old(self).wf(),
        ensures
            old(self).pushes_char(final(self), c),
            final(self).wf(),
    {
        let mut q = chars_of(self.filter_query.as_str());
        q.push(c);
        self.filter_query = string_of(&q);
        self.mark_queue_dirty();
        self.ensure_selected_visible();
    }

    /// Removes the last character of the query, if any, and marks the queue.
    pub fn pop_filter_char(&mut self)
        requires
            old(self).wf(),
        ensures
            old(self).pops_char(final(self)),
            final(self).wf(),
    {
        let mut q = chars_of(self.filter_query.as_str());
        if q.len() > 0 {
            q.pop();
        }
        self.filter_query = string_of(&q);
        self.mark_queue_dirty();
        self.ensure_selected_visible();
    }

    /// Moves the cursor to the next visible track.
    pub fn next(&mut self)
        requires
            old(self).wf(),
        ensures
            old(self).moves_next(final(self)),
            final(self).wf(),
    {
        let display = self.display_indices();
        if let Some(n) = next_in(&display, self.selected) {
            self.selected = n;
        }
    }

    /// Moves the cursor to the previous visible track.
    pub fn prev(&mut self)
        requires
            old(self).wf(),
        ensures
            old(self).moves_prev(final(self)),
            final(self).wf(),
    {
        let display = self.display_indices();
        if let Some(p) = prev_in(&display, self.selected) {
            self.selected = p;
        }
    }

    /// Keeps the cursor on a visible track: the first visible one when the
    /// current one is hidden, 0 when nothing is visible.
    fn ensure_selected_visible(&mut self)
        requires
            old(self).wf(),
        ensures
            old(self).settles_to(final(self)),
            final(self).wf(),
    {
        let display = self.display_indices();
        let ghost d = display@;
        let ghost before = *self;
        if display.len() == 0 {
            self.selected = 0;
        } else {
            match first_position(&display, self.selected) {
                Some(p) => {
                    assert(d[p as int] == before.selected);
                },
                None => {
                    self.selected = display[0];
                },
            }
        }
        assert(*self == App { selected: settle(d, before.selected), ..before });
    }
}

} // verus!
