//! Which files count as audio.
use vstd::prelude::*;

use crate::config::LibrarySettings;
use crate::library::display::{display_from_fields, display_of, file_stem, file_stem_of, opt_view};
use crate::library::Track;
use crate::text::{chars_of, lower, lower_chars, string_of, trim, trimmed};
use vstd::string::*;

verus! {

/// A name for the extension that `std::path::Path::extension` finds in a path.
pub uninterp spec fn extension_of(path: Seq<char>) -> Option<Seq<char>>;

/// Relies on `Path::extension`: the extension of the last component of
/// `path`, a function of the path's characters.
#[verifier::external_body]
pub(crate) fn extension(path: &str) -> (r: Option<String>)
    ensures
        match r {
            Some(s) => extension_of(path@) == Some(s@),
            None => extension_of(path@) is None,
        },
{
    std::path::Path::new(path).extension().and_then(|s| s.to_str()).map(|s| s.to_string())
}

/// `s` without its leading dots.
pub open spec fn strip_dots(s: Seq<char>) -> Seq<char>
    decreases s.len(),
{
    if s.len() > 0 && s[0] == '.' {
        strip_dots(s.drop_first())
    } else {
        s
    }
}

/// A configured extension as it is compared: trimmed, without leading
/// dots, in ASCII lower case.
pub open spec fn normalized_ext(e: Seq<char>) -> Seq<char> {
    lower(strip_dots(trimmed(e)))
}

/// `ext` is one of the configured extensions (blank ones are ignored),
/// compared in ASCII lower case.
pub open spec fn ext_listed(exts: Seq<String>, ext: Seq<char>) -> bool {
    exists|k: int|
        0 <= k < exts.len() && #[trigger] normalized_ext(exts[k]@).len() > 0 && normalized_ext(
            exts[k]@,
        ) == lower(ext)
}

fn strip_leading_dots(v: &Vec<char>) -> (r: Vec<char>)
    ensures
        r@ == strip_dots(v@),
{
    let mut i: usize = 0;
    assert(v@.skip(0) =~= v@);
    while i < v.len() && v[i] == '.'
        invariant
            i <= v.len(),
            strip_dots(v@) == strip_dots(v@.skip(i as int)),
        decreases v.len() - i,
    {
        assert(v@.skip(i as int).drop_first() =~= v@.skip(i as int + 1));
        i += 1;
    }
    let mut r: Vec<char> = Vec::new();
    let mut j: usize = i;
    while j < v.len()
        invariant
            i <= j <= v.len(),
            r@ =~= v@.subrange(i as int, j as int),
        decreases v.len() - j,
    {
        r.push(v[j]);
        j += 1;
    }
    assert(r@ =~= v@.skip(i as int));
    r
}

fn normalize_ext(e: &str) -> (r: Vec<char>)
    ensures
        r@ == normalized_ext(e@),
{
    lower_chars(&strip_leading_dots(&chars_of(trim(e))))
}

fn same_chars(a: &Vec<char>, b: &Vec<char>) -> (r: bool)
    ensures
        r == (a@ == b@),
{
    if a.len() != b.len() {
        return false;
    }
    let mut i: usize = 0;
    while i < a.len()
        invariant
            i <= a.len(),
            a@.len() == b@.len(),
            forall|k: int| 0 <= k < i ==> a@[k] == b@[k],
        decreases a.len() - i,
    {
        if a[i] != b[i] {
            return false;
        }
        i += 1;
    }
    assert(a@ =~= b@);
    true
}

/// Whether `path` has one of the configured audio extensions, compared
/// case-insensitively; a path without an extension is not audio.
pub fn is_audio_file(path: &str, settings: &LibrarySettings) -> (r: bool)
    ensures
        r == match extension_of(path@) {
            Some(e) => ext_listed(settings.extensions@, e),
            None => false,
        },
{
    let ext = match extension(path) {
        Some(e) => e,
        None => {
            return false;
        },
    };
    let want = lower_chars(&chars_of(ext.as_str()));
    let exts = &settings.extensions;
    let mut k: usize = 0;
    while k < exts.len()
        invariant
            k <= exts.len(),
            want@ == lower(ext@),
            extension_of(path@) == Some(ext@),
            exts@ == settings.extensions@,
            forall|m: int|
                0 <= m < k ==> !(#[trigger] normalized_ext(exts@[m]@).len() > 0 && normalized_ext(
                    exts@[m]@,
                ) == lower(ext@)),
        decreases exts.len() - k,
    {
        let n = normalize_ext(exts[k].as_str());
        if n.len() > 0 && same_chars(&n, &want) {
            assert(normalized_ext(exts@[k as int]@).len() > 0 && normalized_ext(exts@[k as int]@)
                == lower(ext@));
            return true;
        }
        k += 1;
    }
    false
}

/// A name for the last component that `std::path::Path::file_name` finds in a path.
pub uninterp spec fn file_name_of(path: Seq<char>) -> Option<Seq<char>>;

/// Relies on `Path::file_name`: the last component of `path`, a function
/// of the path's characters.
#[verifier::external_body]
pub(crate) fn file_name(path: &str) -> (r: Option<String>)
    ensures
        match r {
            Some(s) => file_name_of(path@) == Some(s@),
            None => file_name_of(path@) is None,
        },
{
    std::path::Path::new(path).file_name().and_then(|s| s.to_str()).map(|s| s.to_string())
}

/// Whether the last component of `path` starts with a dot.
pub fn is_hidden(path: &str) -> (r: bool)
    ensures
        r == (file_name_of(path@) matches Some(n) && n.len() > 0 && n[0] == '.'),
{
    match file_name(path) {
        Some(n) => {
            let cs = chars_of(n.as_str());
            cs.len() > 0 && cs[0] == '.'
        },
        None => false,
    }
}

/// The optional tag value, trimmed, when it is present and not blank.
pub open spec fn tag_value(v: Option<Seq<char>>) -> Option<Seq<char>> {
    match v {
        Some(s) => if trimmed(s).len() > 0 {
            Some(trimmed(s))
        } else {
            None
        },
        None => None,
    }
}

/// The view of an optional owned string.
pub open spec fn opt_owned(s: Option<String>) -> Option<Seq<char>> {
    match s {
        Some(v) => Some(v@),
        None => None,
    }
}

/// The title of a file: its title tag when not blank (as written), else
/// the file stem, else `UNKNOWN`.
pub open spec fn title_of(path: Seq<char>, tag_title: Option<Seq<char>>) -> Seq<char> {
    match tag_title {
        Some(t) if trimmed(t).len() > 0 => t,
        _ => match file_stem_of(path) {
            Some(stem) => stem,
            None => "UNKNOWN"@,
        },
    }
}

fn trimmed_tag(v: Option<&str>) -> (r: Option<String>)
    ensures
        opt_owned(r) == tag_value(opt_view(v)),
{
    match v {
        Some(s) => {
            let t = trim(s);
            if t.unicode_len() > 0 {
                Some(string_of(&chars_of(t)))
            } else {
                None
            }
        },
        None => None,
    }
}

/// Builds the track of an audio file from its path and the tags read from
/// it: title per `title_of`, artist and album trimmed (dropped when
/// blank), the display string per the settings.
pub fn track_from_tags(
    path: &str,
    tag_title: Option<&str>,
    tag_artist: Option<&str>,
    tag_album: Option<&str>,
    duration: Option<u64>,
    settings: &LibrarySettings,
) -> (r: Track)
    ensures
        r.path@ == path@,
        r.title@ == title_of(path@, opt_view(tag_title)),
        opt_owned(r.artist) == tag_value(opt_view(tag_artist)),
        opt_owned(r.album) == tag_value(opt_view(tag_album)),
        r.duration == duration,
        r.display@ == display_of(
            settings.display_fields@,
            settings.display_separator@,
            path@,
            r.title@,
            opt_owned(r.artist),
            opt_owned(r.album),
        ),
{
    let title: String = match tag_title {
        Some(t) if trim(t).unicode_len() > 0 => string_of(&chars_of(t)),
        _ => match file_stem(path) {
            Some(stem) => stem,
            None => String::from_str("UNKNOWN"),
        },
    };
    let artist = trimmed_tag(tag_artist);
    let album = trimmed_tag(tag_album);
    let display = display_from_fields(
        path,
        title.as_str(),
        match &artist {
            Some(a) => Some(a.as_str()),
            None => None,
        },
        match &album {
            Some(a) => Some(a.as_str()),
            None => None,
        },
        settings.display_fields.as_slice(),
        settings.display_separator.as_str(),
    );
    Track { path: string_of(&chars_of(path)), title, artist, album, duration, display }
}

/// A name for what `str::to_lowercase` returns.
pub uninterp spec fn lowercase_of(s: Seq<char>) -> Seq<char>;

/// Relies on `str::to_lowercase`: the Unicode lower case of `s`, a
/// function of its characters.
#[verifier::external_body]
fn to_lowercase(s: &str) -> (r: String)
    ensures
        r@ == lowercase_of(s@),
{
    s.to_lowercase()
}

/// `a` comes strictly before `b` in lexicographic character order.
pub open spec fn lex_lt(a: Seq<char>, b: Seq<char>) -> bool
    decreases a.len(),
{
    if a.len() == 0 {
        b.len() > 0
    } else if b.len() == 0 {
        false
    } else if a[0] != b[0] {
        a[0] < b[0]
    } else {
        lex_lt(a.drop_first(), b.drop_first())
    }
}

/// The sort key of a track: its display string in lower case.
pub open spec fn display_key(t: Track) -> Seq<char> {
    lowercase_of(t.display@)
}

/// `x` put before the first track of `s` whose key is not smaller.
pub open spec fn insert_by_key(s: Seq<Track>, x: Track) -> Seq<Track>
    decreases s.len(),
{
    if s.len() == 0 {
        seq![x]
    } else if lex_lt(display_key(s[0]), display_key(x)) {
        seq![s[0]] + insert_by_key(s.drop_first(), x)
    } else {
        seq![x] + s
    }
}

/// `s` stably sorted by lower-case display string.
pub open spec fn sorted_by_display(s: Seq<Track>) -> Seq<Track>
    decreases s.len(),
{
    if s.len() == 0 {
        s
    } else {
        insert_by_key(sorted_by_display(s.drop_first()), s[0])
    }
}

proof fn lemma_insert_by_key_at(s: Seq<Track>, x: Track, j: int)
    requires
        0 <= j <= s.len(),
        forall|m: int| 0 <= m < j ==> lex_lt(display_key(#[trigger] s[m]), display_key(x)),
        j < s.len() ==> !lex_lt(display_key(s[j]), display_key(x)),
    ensures
        insert_by_key(s, x) == s.insert(j, x),
    decreases s.len(),
{
    if s.len() == 0 {
        assert(s.insert(j, x) =~= seq![x]);
    } else if j == 0 {
        assert(s.insert(0, x) =~= seq![x] + s);
    } else {
        let s1 = s.drop_first();
        assert(lex_lt(display_key(s[0]), display_key(x)));
        assert forall|m: int| 0 <= m < j - 1 implies lex_lt(display_key(#[trigger] s1[m]), display_key(x)) by {
            assert(s1[m] == s[m + 1]);
        }
        lemma_insert_by_key_at(s1, x, j - 1);
        assert(seq![s[0]] + s1.insert(j - 1, x) =~= s.insert(j, x));
    }
}

fn chars_lt(a: &Vec<char>, b: &Vec<char>) -> (r: bool)
    ensures
        r == lex_lt(a@, b@),
{
    let mut i: usize = 0;
    assert(a@.skip(0) =~= a@);
    assert(b@.skip(0) =~= b@);
    while i < a.len() && i < b.len() && a[i] == b[i]
        invariant
            i <= a@.len(),
            i <= b@.len(),
            lex_lt(a@, b@) == lex_lt(a@.skip(i as int), b@.skip(i as int)),
        decreases a.len() - i,
    {
        assert(a@.skip(i as int).drop_first() =~= a@.skip(i as int + 1));
        assert(b@.skip(i as int).drop_first() =~= b@.skip(i as int + 1));
        i += 1;
    }
    if i == a.len() {
        i < b.len()
    } else if i == b.len() {
        false
    } else {
        a[i] < b[i]
    }
}

/// Sorts tracks by display string compared in lower case; tracks with
/// equal keys keep their order.
pub fn sort_by_display(tracks: Vec<Track>) -> (r: Vec<Track>)
    ensures
        r@ == sorted_by_display(tracks@),
{
    let ghost all = tracks@;
    let mut rest = tracks;
    let mut out: Vec<Track> = Vec::new();
    let mut keys: Vec<Vec<char>> = Vec::new();
    assert(all.skip(all.len() as int) =~= Seq::<Track>::empty());
    while rest.len() > 0
        invariant
            rest@ == all.take(rest@.len() as int),
            rest@.len() <= all.len(),
            out@ == sorted_by_display(all.skip(rest@.len() as int)),
            keys@.len() == out@.len(),
            forall|m: int| 0 <= m < keys@.len() ==> #[trigger] keys@[m]@ == display_key(out@[m]),
        decreases rest@.len(),
    {
        let ghost k = rest@.len() as int;
        let x = rest.pop().unwrap();
        assert(x == all[k - 1]);
        assert(all.skip(k - 1).drop_first() =~= all.skip(k));
        assert(all.skip(k - 1)[0] == x);
        assert(rest@ =~= all.take(k - 1));
        let kx = chars_of(to_lowercase(x.display.as_str()).as_str());
        let mut j: usize = 0;
        while j < out.len() && chars_lt(&keys[j], &kx)
            invariant
                j <= out@.len(),
                keys@.len() == out@.len(),
                forall|m: int| 0 <= m < keys@.len() ==> #[trigger] keys@[m]@ == display_key(out@[m]),
                kx@ == display_key(x),
                forall|m: int| 0 <= m < j ==> lex_lt(display_key(#[trigger] out@[m]), display_key(x)),
            decreases out@.len() - j,
        {
            j += 1;
        }
        proof {
            lemma_insert_by_key_at(out@, x, j as int);
        }
        let ghost before_keys = keys@;
        let ghost before_out = out@;
        out.insert(j, x);
        keys.insert(j, kx);
        assert forall|m: int| 0 <= m < keys@.len() implies #[trigger] keys@[m]@ == display_key(out@[m]) by {
            if m < j {
                assert(keys@[m] == before_keys[m] && out@[m] == before_out[m]);
            } else if m > j {
                assert(keys@[m] == before_keys[m - 1] && out@[m] == before_out[m - 1]);
            }
        }
    }
    assert(all.skip(0) =~= all);
    out
}

} // verus!
