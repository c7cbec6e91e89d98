//! Display strings of tracks.
use vstd::prelude::*;
use vstd::string::*;

use crate::config::TrackDisplayField;
use crate::text::{chars_of, join_chars, joined, string_of, trim, trimmed, views};

verus! {

/// A name for the file stem that `std::path::Path::file_stem` finds in a path.
pub uninterp spec fn file_stem_of(path: Seq<char>) -> Option<Seq<char>>;

/// Relies on `Path::file_stem`: the stem of the last component of `path`,
/// a function of the path's characters.
#[verifier::external_body]
pub(crate) fn file_stem(path: &str) -> (r: Option<String>)
    ensures
        match r {
            Some(s) => file_stem_of(path@) == Some(s@),
            None => file_stem_of(path@) is None,
        },
{
    std::path::Path::new(path).file_stem().and_then(|s| s.to_str()).map(|s| s.to_string())
}

/// The trimmed text, as a part, when it is not blank.
pub open spec fn trimmed_part(s: Seq<char>) -> Seq<Seq<char>> {
    if trimmed(s).len() > 0 {
        seq![trimmed(s)]
    } else {
        Seq::empty()
    }
}

/// The trimmed optional text, as a part, when it is present and not blank.
pub open spec fn opt_part(s: Option<Seq<char>>) -> Seq<Seq<char>> {
    match s {
        Some(v) => trimmed_part(v),
        None => Seq::empty(),
    }
}

/// The parts that one field contributes.
pub open spec fn field_part(
    f: TrackDisplayField,
    path: Seq<char>,
    title: Seq<char>,
    artist: Option<Seq<char>>,
    album: Option<Seq<char>>,
) -> Seq<Seq<char>> {
    match f {
        TrackDisplayField::Display => opt_part(artist) + trimmed_part(title),
        TrackDisplayField::Title => trimmed_part(title),
        TrackDisplayField::Artist => opt_part(artist),
        TrackDisplayField::Album => opt_part(album),
        TrackDisplayField::Filename => match file_stem_of(path) {
            Some(stem) => if trimmed(stem).len() > 0 {
                seq![stem]
            } else {
                Seq::empty()
            },
            None => Seq::empty(),
        },
        TrackDisplayField::Path => seq![path],
    }
}

/// The parts of all `fields`, in order.
pub open spec fn fields_parts(
    fields: Seq<TrackDisplayField>,
    path: Seq<char>,
    title: Seq<char>,
    artist: Option<Seq<char>>,
    album: Option<Seq<char>>,
) -> Seq<Seq<char>>
    decreases fields.len(),
{
    if fields.len() == 0 {
        Seq::empty()
    } else {
        fields_parts(fields.drop_last(), path, title, artist, album) + field_part(
            fields.last(),
            path,
            title,
            artist,
            album,
        )
    }
}

/// The display string: the parts joined by `sep`, or the title when there are none.
pub open spec fn display_of(
    fields: Seq<TrackDisplayField>,
    sep: Seq<char>,
    path: Seq<char>,
    title: Seq<char>,
    artist: Option<Seq<char>>,
    album: Option<Seq<char>>,
) -> Seq<char> {
    let parts = fields_parts(fields, path, title, artist, album);
    if parts.len() == 0 {
        title
    } else {
        joined(parts, sep)
    }
}

/// The view of an optional string.
pub open spec fn opt_view(s: Option<&str>) -> Option<Seq<char>> {
    match s {
        Some(v) => Some(v@),
        None => None,
    }
}

fn push_trimmed(parts: &mut Vec<Vec<char>>, s: &str)
    ensures
        views(final(parts)@) == views(old(parts)@) + trimmed_part(s@),
{
    let t = trim(s);
    let ghost before = parts@;
    if t.unicode_len() > 0 {
        let v = chars_of(t);
        parts.push(v);
        assert(views(parts@) =~= views(before) + seq![trimmed(s@)]);
    } else {
        assert(views(parts@) =~= views(before) + Seq::<Seq<char>>::empty());
    }
}

fn push_opt_trimmed(parts: &mut Vec<Vec<char>>, s: Option<&str>)
    ensures
        views(final(parts)@) == views(old(parts)@) + opt_part(opt_view(s)),
{
    match s {
        Some(v) => push_trimmed(parts, v),
        None => {
            assert(views(parts@) =~= views(parts@) + Seq::<Seq<char>>::empty());
        },
    }
}

/// Builds a display string from the track's metadata: the parts of
/// `fields` in order, joined by `sep` (artist, title and album trimmed and
/// left out when blank; the file stem when not blank; the whole path), or
/// the title when no field gave a part.
pub fn display_from_fields(
    path: &str,
    title: &str,
    artist: Option<&str>,
    album: Option<&str>,
    fields: &[TrackDisplayField],
    sep: &str,
) -> (r: String)
    ensures
        r@ == display_of(fields@, sep@, path@, title@, opt_view(artist), opt_view(album)),
{
    let mut parts: Vec<Vec<char>> = Vec::new();
    let mut k: usize = 0;
    while k < fields.len()
        invariant
            k <= fields.len(),
            views(parts@) == fields_parts(
                fields@.take(k as int),
                path@,
                title@,
                opt_view(artist),
                opt_view(album),
            ),
        decreases fields.len() - k,
    {
        assert(fields@.take(k as int + 1).drop_last() =~= fields@.take(k as int));
        let ghost before = views(parts@);
        match fields[k] {
            TrackDisplayField::Display => {
                push_opt_trimmed(&mut parts, artist);
                push_trimmed(&mut parts, title);
                assert(views(parts@) =~= before + (opt_part(opt_view(artist)) + trimmed_part(title@)));
            },
            TrackDisplayField::Title => {
                push_trimmed(&mut parts, title);
            },
            TrackDisplayField::Artist => {
                push_opt_trimmed(&mut parts, artist);
            },
            TrackDisplayField::Album => {
                push_opt_trimmed(&mut parts, album);
            },
            TrackDisplayField::Filename => {
                match file_stem(path) {
                    Some(stem) => {
                        let t = trim(stem.as_str());
                        if t.unicode_len() > 0 {
                            parts.push(chars_of(stem.as_str()));
                            assert(views(parts@) =~= before + seq![stem@]);
                        } else {
                            assert(views(parts@) =~= before + Seq::<Seq<char>>::empty());
                        }
                    },
                    None => {
                        assert(views(parts@) =~= before + Seq::<Seq<char>>::empty());
                    },
                }
            },
            TrackDisplayField::Path => {
                parts.push(chars_of(path));
                assert(views(parts@) =~= before + seq![path@]);
            },
        }
        k += 1;
    }
    assert(fields@.take(fields@.len() as int) =~= fields@);
    if parts.len() == 0 {
        assert(views(parts@).len() == 0);
        string_of(&chars_of(title))
    } else {
        let sep_chars = chars_of(sep);
        string_of(&join_chars(&parts, &sep_chars))
    }
}

/// `"<artist> - <title>"` with the artist trimmed, or the title when the
/// artist is missing or blank.
pub open spec fn artist_title(title: Seq<char>, artist: Option<Seq<char>>) -> Seq<char> {
    match artist {
        Some(a) => if trimmed(a).len() > 0 {
            trimmed(a) + " - "@ + title
        } else {
            title
        },
        None => title,
    }
}

/// Builds `"Artist - Title"`, or the title alone without a usable artist.
pub fn make_display(title: &str, artist: Option<&str>) -> (r: String)
    ensures
        r@ == artist_title(title@, opt_view(artist)),
{
    if let Some(a) = artist {
        let t = trim(a);
        if t.unicode_len() > 0 {
            let mut out = chars_of(t);
            let dash = chars_of(" - ");
            crate::text::append_chars(&mut out, &dash);
            crate::text::append_chars(&mut out, &chars_of(title));
            return string_of(&out);
        }
    }
    string_of(&chars_of(title))
}

} // verus!
