//! Text shown by the terminal front end: the controls line, times and the
//! now-playing line.
use vstd::prelude::*;
use vstd::string::*;

use crate::app::App;
use crate::audio::{LoopMode, PlaybackInfo};
use crate::config::{TimeField, TrackDisplayField, UiSettings};
use crate::library::Track;
use crate::library::display::{file_stem, file_stem_of, opt_part, trimmed_part};
use crate::text::{
    append_chars, chars_of, decimal, decimal_chars, join_chars, joined, string_of, trim, trimmed,
    two_digit_chars, two_digits, views,
};

verus! {

/// The controls help line for a scrub step of `n` seconds.
pub open spec fn controls_of(n: nat) -> Seq<char> {
    "[j/k] up/down | [h/l] prev/next song | [H/L] scrub -/+"@ + decimal(n)
        + "s | [enter] play selected song | [space/p] play/pause | [gg/G] top/bottom | [K] metadata | [/] filter | [s] shuffle | [r] loop mode | [q] quit"@
}

/// The controls help line, with the scrub step in seconds.
pub fn controls_text(scrub_seconds: u64) -> (r: String)
    ensures
        r@ == controls_of(scrub_seconds as nat),
{
    let mut out = chars_of("[j/k] up/down | [h/l] prev/next song | [H/L] scrub -/+");
    append_chars(&mut out, &decimal_chars(scrub_seconds));
    append_chars(
        &mut out,
        &chars_of(
            "s | [enter] play selected song | [space/p] play/pause | [gg/G] top/bottom | [K] metadata | [/] filter | [s] shuffle | [r] loop mode | [q] quit",
        ),
    );
    string_of(&out)
}

/// `MM:SS` of a time in milliseconds (whole seconds; minutes not capped).
pub open spec fn mmss(ms: nat) -> Seq<char> {
    two_digits((ms / 1000) / 60) + ":"@ + two_digits((ms / 1000) % 60)
}

fn mmss_chars(ms: u64) -> (r: Vec<char>)
    ensures
        r@ == mmss(ms as nat),
{
    let secs = ms / 1000;
    let mut out = two_digit_chars(secs / 60);
    out.push(':');
    append_chars(&mut out, &two_digit_chars(secs % 60));
    proof {
        reveal_strlit(":");
    }
    assert(out@ =~= mmss(ms as nat));
    out
}

/// Formats a time in milliseconds as `MM:SS`.
pub fn format_mmss(ms: u64) -> (r: String)
    ensures
        r@ == mmss(ms as nat),
{
    string_of(&mmss_chars(ms))
}

/// Whole seconds of `ms`, a partial second counting as one.
pub open spec fn ceil_secs(ms: nat) -> nat {
    if ms % 1000 > 0 {
        ms / 1000 + 1
    } else {
        ms / 1000
    }
}

/// `M:SS (Ns)` of a duration rounded up to whole seconds, `-` without one.
pub open spec fn duration_text(d: Option<u64>) -> Seq<char> {
    match d {
        None => "-"@,
        Some(ms) => {
            let t = ceil_secs(ms as nat);
            decimal(t / 60) + ":"@ + two_digits(t % 60) + " ("@ + decimal(t) + "s)"@
        },
    }
}

/// Formats an optional duration in milliseconds as `M:SS (Ns)`, rounding
/// a partial second up; `-` when there is none.
pub fn format_duration_mmss_ceil(d: Option<u64>) -> (r: String)
    ensures
        r@ == duration_text(d),
{
    let ms = match d {
        None => {
            return String::from_str("-");
        },
        Some(ms) => ms,
    };
    let total: u64 = if ms % 1000 > 0 {
        ms / 1000 + 1
    } else {
        ms / 1000
    };
    let mut out = decimal_chars(total / 60);
    out.push(':');
    append_chars(&mut out, &two_digit_chars(total % 60));
    append_chars(&mut out, &chars_of(" ("));
    append_chars(&mut out, &decimal_chars(total));
    append_chars(&mut out, &chars_of("s)"));
    proof {
        reveal_strlit(":");
    }
    assert(out@ =~= duration_text(d));
    string_of(&out)
}

/// The part that one time field contributes.
pub open spec fn time_part(f: TimeField, elapsed_ms: u64, total: Option<u64>) -> Seq<Seq<char>> {
    match f {
        TimeField::Elapsed => seq![mmss(elapsed_ms as nat)],
        TimeField::Total => match total {
            Some(t) => seq![mmss(t as nat)],
            None => Seq::empty(),
        },
        TimeField::Remaining => match total {
            Some(t) => seq![
                "-"@ + mmss(
                    if t >= elapsed_ms {
                        (t - elapsed_ms) as nat
                    } else {
                        0
                    },
                ),
            ],
            None => Seq::empty(),
        },
    }
}

/// The parts of all time fields, in order.
pub open spec fn time_parts(fields: Seq<TimeField>, elapsed_ms: u64, total: Option<u64>) -> Seq<
    Seq<char>,
>
    decreases fields.len(),
{
    if fields.len() == 0 {
        Seq::empty()
    } else {
        time_parts(fields.drop_last(), elapsed_ms, total) + time_part(
            fields.last(),
            elapsed_ms,
            total,
        )
    }
}

/// The time line: the configured fields joined by the separator, `None`
/// when no field gives a part. Remaining time does not go below zero.
pub fn now_playing_time_text(elapsed_ms: u64, total: Option<u64>, ui: &UiSettings) -> (r: Option<
    String,
>)
    ensures
        ({
            let parts = time_parts(ui.now_playing_time_fields@, elapsed_ms, total);
            match r {
                None => parts.len() == 0,
                Some(s) => parts.len() > 0 && s@ == joined(parts, ui.now_playing_time_separator@),
            }
        }),
{
    let fields = &ui.now_playing_time_fields;
    let mut parts: Vec<Vec<char>> = Vec::new();
    let mut k: usize = 0;
    while k < fields.len()
        invariant
            k <= fields.len(),
            fields@ == ui.now_playing_time_fields@,
            views(parts@) == time_parts(fields@.take(k as int), elapsed_ms, total),
        decreases fields.len() - k,
    {
        assert(fields@.take(k as int + 1).drop_last() =~= fields@.take(k as int));
        let ghost before = views(parts@);
        match fields[k] {
            TimeField::Elapsed => {
                parts.push(mmss_chars(elapsed_ms));
                assert(views(parts@) =~= before + seq![mmss(elapsed_ms as nat)]);
            },
            TimeField::Total => {
                if let Some(t) = total {
                    parts.push(mmss_chars(t));
                    assert(views(parts@) =~= before + seq![mmss(t as nat)]);
                } else {
                    assert(views(parts@) =~= before + Seq::<Seq<char>>::empty());
                }
            },
            TimeField::Remaining => {
                if let Some(t) = total {
                    let rem: u64 = if t >= elapsed_ms {
                        t - elapsed_ms
                    } else {
                        0
                    };
                    let mut p: Vec<char> = vec!['-'];
                    append_chars(&mut p, &mmss_chars(rem));
                    parts.push(p);
                    proof {
                        reveal_strlit("-");
                        assert("-"@ =~= seq!['-']);
                    }
                    assert(parts@.last()@ =~= "-"@ + mmss(rem as nat));
                    assert(views(parts@) =~= before + time_part(fields@[k as int], elapsed_ms, total));
                } else {
                    assert(views(parts@) =~= before + Seq::<Seq<char>>::empty());
                }
            },
        }
        k += 1;
    }
    assert(fields@.take(fields@.len() as int) =~= fields@);
    if parts.len() == 0 {
        None
    } else {
        let sep = chars_of(ui.now_playing_time_separator.as_str());
        Some(string_of(&join_chars(&parts, &sep)))
    }
}

/// The text as a part when its trimmed form is not blank.
pub open spec fn kept_part(s: Seq<char>) -> Seq<Seq<char>> {
    if trimmed(s).len() > 0 {
        seq![s]
    } else {
        Seq::empty()
    }
}

/// The part that one field contributes to the now-playing line.
pub open spec fn track_part(f: TrackDisplayField, t: Track) -> Seq<Seq<char>> {
    match f {
        TrackDisplayField::Display => kept_part(t.display@),
        TrackDisplayField::Title => kept_part(t.title@),
        TrackDisplayField::Artist => opt_part(opt_string(t.artist)),
        TrackDisplayField::Album => opt_part(opt_string(t.album)),
        TrackDisplayField::Filename => match file_stem_of(t.path@) {
            Some(stem) => kept_part(stem),
            None => Seq::empty(),
        },
        TrackDisplayField::Path => seq![t.path@],
    }
}

/// The view of an optional string.
pub open spec fn opt_string(s: Option<String>) -> Option<Seq<char>> {
    match s {
        Some(v) => Some(v@),
        None => None,
    }
}

/// The parts of all fields of the now-playing line, in order.
pub open spec fn track_parts(fields: Seq<TrackDisplayField>, t: Track) -> Seq<Seq<char>>
    decreases fields.len(),
{
    if fields.len() == 0 {
        Seq::empty()
    } else {
        track_parts(fields.drop_last(), t) + track_part(fields.last(), t)
    }
}

fn push_kept(parts: &mut Vec<Vec<char>>, s: &str)
    ensures
        views(final(parts)@) == views(old(parts)@) + kept_part(s@),
{
    let ghost before = views(parts@);
    if trim(s).unicode_len() > 0 {
        parts.push(chars_of(s));
        assert(views(parts@) =~= before + seq![s@]);
    } else {
        assert(views(parts@) =~= before + Seq::<Seq<char>>::empty());
    }
}

fn push_opt_trimmed(parts: &mut Vec<Vec<char>>, s: &Option<String>)
    ensures
        views(final(parts)@) == views(old(parts)@) + opt_part(opt_string(*s)),
{
    let ghost before = views(parts@);
    match s {
        Some(v) => {
            let t = trim(v.as_str());
            if t.unicode_len() > 0 {
                parts.push(chars_of(t));
                assert(views(parts@) =~= before + trimmed_part(v@));
            } else {
                assert(views(parts@) =~= before + trimmed_part(v@));
            }
        },
        None => {
            assert(views(parts@) =~= before + Seq::<Seq<char>>::empty());
        },
    }
}

/// The now-playing line for a track: the configured fields joined by the
/// separator, or the display string when no field gives a part.
pub fn now_playing_track_text(app: &App, track_index: usize, ui: &UiSettings) -> (r: String)
    requires
        track_index < app.tracks@.len(),
    ensures
        ({
            let t = app.tracks@[track_index as int];
            let parts = track_parts(ui.now_playing_track_fields@, t);
            r@ == if parts.len() == 0 {
                t.display@
            } else {
                joined(parts, ui.now_playing_track_separator@)
            }
        }),
{
    let track = &app.tracks[track_index];
    let fields = &ui.now_playing_track_fields;
    let mut parts: Vec<Vec<char>> = Vec::new();
    let mut k: usize = 0;
    while k < fields.len()
        invariant
            k <= fields.len(),
            fields@ == ui.now_playing_track_fields@,
            *track == app.tracks@[track_index as int],
            views(parts@) == track_parts(fields@.take(k as int), *track),
        decreases fields.len() - k,
    {
        assert(fields@.take(k as int + 1).drop_last() =~= fields@.take(k as int));
        let ghost before = views(parts@);
        match fields[k] {
            TrackDisplayField::Display => push_kept(&mut parts, track.display.as_str()),
            TrackDisplayField::Title => push_kept(&mut parts, track.title.as_str()),
            TrackDisplayField::Artist => push_opt_trimmed(&mut parts, &track.artist),
            TrackDisplayField::Album => push_opt_trimmed(&mut parts, &track.album),
            TrackDisplayField::Filename => {
                match file_stem(track.path.as_str()) {
                    Some(stem) => push_kept(&mut parts, stem.as_str()),
                    None => {
                        assert(views(parts@) =~= before + Seq::<Seq<char>>::empty());
                    },
                }
            },
            TrackDisplayField::Path => {
                parts.push(chars_of(track.path.as_str()));
                assert(views(parts@) =~= before + seq![track.path@]);
            },
        }
        k += 1;
    }
    assert(fields@.take(fields@.len() as int) =~= fields@);
    if parts.len() == 0 {
        string_of(&chars_of(track.display.as_str()))
    } else {
        let sep = chars_of(ui.now_playing_track_separator.as_str());
        string_of(&join_chars(&parts, &sep))
    }
}

/// The part of a list of `total` rows that a view of `height` rows shows,
/// as `(start, end, cursor row within the view)`: everything when it fits,
/// else a window that centres the cursor where it can.
pub fn list_window(total: usize, height: usize, sel_pos: usize) -> (r: (usize, usize, usize))
    requires
        sel_pos < total || sel_pos == 0,
    ensures
        total <= height || height == 0 ==> r == (0usize, total, sel_pos),
        total > height && height > 0 ==> {
            let half = height / 2;
            let s0: int = if sel_pos > half {
                sel_pos - half
            } else {
                0
            };
            let start: int = if s0 + height > total {
                total - height
            } else {
                s0
            };
            &&& r.0 == start
            &&& r.1 == start + height
            &&& r.2 == sel_pos - start
        },
        r.0 <= r.1 <= total,
{
    if total <= height || height == 0 {
        return (0, total, sel_pos);
    }
    let half = height / 2;
    let mut start = if sel_pos > half {
        sel_pos - half
    } else {
        0
    };
    if start > total - height {
        start = total - height;
    }
    (start, start + height, sel_pos - start)
}

/// A popup rectangle of about `width` by `height` centred in the area at
/// (`ax`, `ay`) of `aw` by `ah`: at most the area less a margin of 2, at
/// least 10 by 5. Returns `(x, y, width, height)`.
pub fn centered_rect(width: u16, height: u16, ax: u16, ay: u16, aw: u16, ah: u16) -> (r: (
    u16,
    u16,
    u16,
    u16,
))
    requires
        ax + aw <= u16::MAX,
        ay + ah <= u16::MAX,
    ensures
        ({
            let lw: int = if aw >= 2 {
                aw - 2
            } else {
                0
            };
            let lh: int = if ah >= 2 {
                ah - 2
            } else {
                0
            };
            let w: int = if width < lw {
                width as int
            } else {
                lw
            };
            let w: int = if w < 10 {
                10
            } else {
                w
            };
            let h: int = if height < lh {
                height as int
            } else {
                lh
            };
            let h: int = if h < 5 {
                5
            } else {
                h
            };
            &&& r.2 == w
            &&& r.3 == h
            &&& r.0 == ax + (if aw >= w {
                (aw - w) / 2
            } else {
                0
            })
            &&& r.1 == ay + (if ah >= h {
                (ah - h) / 2
            } else {
                0
            })
        }),
{
    let lw: u16 = if aw >= 2 {
        aw - 2
    } else {
        0
    };
    let lh: u16 = if ah >= 2 {
        ah - 2
    } else {
        0
    };
    let mut w = if width < lw {
        width
    } else {
        lw
    };
    if w < 10 {
        w = 10;
    }
    let mut h = if height < lh {
        height
    } else {
        lh
    };
    if h < 5 {
        h = 5;
    }
    let x = ax + (if aw >= w {
        (aw - w) / 2
    } else {
        0
    });
    let y = ay + (if ah >= h {
        (ah - h) / 2
    } else {
        0
    });
    (x, y, w, h)
}

/// The text of a track's now-playing line, as `now_playing_track_text` makes it.
pub open spec fn track_line(t: Track, ui: UiSettings) -> Seq<char> {
    let parts = track_parts(ui.now_playing_track_fields@, t);
    if parts.len() == 0 {
        t.display@
    } else {
        joined(parts, ui.now_playing_track_separator@)
    }
}

/// The playback parts of the status line for a snapshot.
pub open spec fn playback_parts(app: App, info: PlaybackInfo, ui: UiSettings) -> Seq<Seq<char>> {
    match info.index {
        Some(i) if i < app.tracks@.len() => {
            let t = app.tracks@[i as int];
            let song = track_line(t, ui);
            let times = time_parts(ui.now_playing_time_fields@, info.elapsed_ms, t.duration);
            let first = if times.len() == 0 {
                "Song: "@ + song
            } else {
                "Song: "@ + song + " ["@ + joined(times, ui.now_playing_time_separator@) + "]"@
            };
            seq![first, if info.playing { "Playing"@ } else { "Paused"@ }]
        },
        _ => seq!["Stopped"@],
    }
}

/// The cursor-mode part of the status line.
pub open spec fn cursor_text(app: App) -> Seq<char> {
    if app.follow_playback {
        " CURSOR: Follow"@
    } else {
        " CURSOR: Free-roam"@
    }
}

/// The loop-mode part of the status line.
pub open spec fn mode_text(app: App) -> Seq<char> {
    match app.loop_mode {
        LoopMode::NoLoop => "PLAYBACK: No-loop"@,
        LoopMode::LoopAll => "PLAYBACK: Loop-around"@,
        LoopMode::LoopOne => "PLAYBACK: Repeat-one"@,
    }
}

/// The filter part of the status line, while filtering or with a query.
pub open spec fn filter_parts(app: App) -> Seq<Seq<char>> {
    let q = trimmed(app.filter_query@);
    if app.filter_mode || q.len() > 0 {
        seq![
            if q.len() > 0 {
                "FILTER:"@ + " "@ + q
            } else {
                "FILTER:"@
            },
        ]
    } else {
        Seq::empty()
    }
}

/// The shuffle part of the status line.
pub open spec fn shuffle_text(app: App) -> Seq<char> {
    if app.shuffle {
        "Shuffle: ON"@
    } else {
        "Shuffle: OFF"@
    }
}

/// The directory part of the status line.
pub open spec fn dir_parts(app: App) -> Seq<Seq<char>> {
    match app.current_dir {
        Some(d) => seq!["Dir: "@ + d@],
        None => Seq::empty(),
    }
}

/// The parts of the status line, in order.
pub open spec fn status_parts(app: App, snapshot: Option<PlaybackInfo>, ui: UiSettings) -> Seq<Seq<char>> {
    let playback = match snapshot {
        Some(info) => playback_parts(app, info, ui),
        None => Seq::empty(),
    };
    seq![cursor_text(app), mode_text(app)] + filter_parts(app) + playback + seq![shuffle_text(app)]
        + dir_parts(app)
}

fn push_text(parts: &mut Vec<Vec<char>>, s: &str)
    ensures
        views(final(parts)@) == views(old(parts)@).push(s@),
{
    let ghost before = views(parts@);
    parts.push(chars_of(s));
    assert(views(parts@) =~= before.push(s@));
}

/// The status line: cursor mode, loop mode, the filter when active, the
/// current song with its times and state (when a snapshot was read), the
/// shuffle state and the directory, joined by `" • "`.
pub fn status_text(app: &App, snapshot: Option<&PlaybackInfo>, ui: &UiSettings) -> (r: String)
    ensures
        r@ == joined(
            status_parts(
                *app,
                match snapshot {
                    Some(i) => Some(*i),
                    None => None,
                },
                *ui,
            ),
            " • "@,
        ),
{
    let mut parts: Vec<Vec<char>> = Vec::new();
    if app.follow_playback {
        push_text(&mut parts, " CURSOR: Follow");
    } else {
        push_text(&mut parts, " CURSOR: Free-roam");
    }
    match app.loop_mode {
        LoopMode::NoLoop => push_text(&mut parts, "PLAYBACK: No-loop"),
        LoopMode::LoopAll => push_text(&mut parts, "PLAYBACK: Loop-around"),
        LoopMode::LoopOne => push_text(&mut parts, "PLAYBACK: Repeat-one"),
    }
    let ghost head = views(parts@);
    assert(head =~= seq![cursor_text(*app), mode_text(*app)]);
    let q = trim(app.filter_query.as_str());
    if app.filter_mode || q.unicode_len() > 0 {
        let mut f = chars_of("FILTER:");
        if q.unicode_len() > 0 {
            append_chars(&mut f, &chars_of(" "));
            append_chars(&mut f, &chars_of(q));
        }
        parts.push(f);
    }
    let ghost with_filter = views(parts@);
    assert(with_filter =~= head + filter_parts(*app));
    if let Some(info) = snapshot {
        let ghost before = views(parts@);
        match info.index {
            Some(i) if i < app.tracks.len() => {
                let track = &app.tracks[i];
                let mut song = chars_of("Song: ");
                append_chars(&mut song, &chars_of(now_playing_track_text(app, i, ui).as_str()));
                match now_playing_time_text(info.elapsed_ms, track.duration, ui) {
                    Some(time) => {
                        append_chars(&mut song, &chars_of(" ["));
                        append_chars(&mut song, &chars_of(time.as_str()));
                        append_chars(&mut song, &chars_of("]"));
                    },
                    None => {},
                }
                parts.push(song);
                if info.playing {
                    push_text(&mut parts, "Playing");
                } else {
                    push_text(&mut parts, "Paused");
                }
            },
            _ => push_text(&mut parts, "Stopped"),
        }
        assert(views(parts@) =~= before + playback_parts(*app, *info, *ui));
    }
    let ghost with_playback = views(parts@);
    assert(with_playback =~= with_filter + match snapshot {
        Some(i) => playback_parts(*app, *i, *ui),
        None => Seq::empty(),
    });
    if app.shuffle {
        push_text(&mut parts, "Shuffle: ON");
    } else {
        push_text(&mut parts, "Shuffle: OFF");
    }
    let ghost with_shuffle = views(parts@);
    assert(with_shuffle =~= with_playback + seq![shuffle_text(*app)]);
    if let Some(dir) = &app.current_dir {
        let mut d = chars_of("Dir: ");
        append_chars(&mut d, &chars_of(dir.as_str()));
        parts.push(d);
        assert(views(parts@) =~= with_shuffle + seq!["Dir: "@ + dir@]);
    }
    assert(views(parts@) =~= with_playback + seq![shuffle_text(*app)] + dir_parts(*app));
    assert(views(parts@) =~= status_parts(
        *app,
        match snapshot {
            Some(i) => Some(*i),
            None => None,
        },
        *ui,
    ));
    let sep = chars_of(" • ");
    string_of(&join_chars(&parts, &sep))
}

} // verus!
