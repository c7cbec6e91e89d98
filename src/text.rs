//! Character and string helpers shared by the model and the display code.
use vstd::prelude::*;

verus! {

/// ASCII lower case of one character; other characters are kept.
pub open spec fn ascii_lower(c: char) -> char {
    if 'A' <= c && c <= 'Z' {
        ((c as u32) + 32) as char
    } else {
        c
    }
}

/// ASCII lower case of a character sequence.
pub open spec fn lower(s: Seq<char>) -> Seq<char> {
    s.map_values(|c: char| ascii_lower(c))
}

/// A name for what `str::trim` returns.
pub uninterp spec fn trimmed(s: Seq<char>) -> Seq<char>;

/// ASCII lower case of a character.
pub fn to_ascii_lower(c: char) -> (r: char)
    ensures
        r == ascii_lower(c),
{
    if 'A' <= c && c <= 'Z' {
        ((c as u8) + 32) as char
    } else {
        c
    }
}

/// ASCII lower case of every character of `v`.
pub fn lower_chars(v: &Vec<char>) -> (r: Vec<char>)
    ensures
        r@ == lower(v@),
{
    let mut r: Vec<char> = Vec::new();
    let mut i: usize = 0;
    while i < v.len()
        invariant
            i <= v.len(),
            r@ =~= lower(v@.take(i as int)),
        decreases v.len() - i,
    {
        r.push(to_ascii_lower(v[i]));
        i += 1;
    }
    assert(v@.take(v@.len() as int) =~= v@);
    r
}

/// Relies on `str::chars`: it yields the characters of `s` in order.
#[verifier::external_body]
pub(crate) fn chars_of(s: &str) -> (r: Vec<char>)
    ensures
        r@ == s@,
{
    s.chars().collect()
}

/// Relies on `String`'s `FromIterator<&char>`: the string of the given characters.
#[verifier::external_body]
pub(crate) fn string_of(v: &Vec<char>) -> (r: String)
    ensures
        r@ == v@,
{
    v.iter().collect()
}

/// Relies on `str::trim`: leading and trailing white space removed, as a
/// function of the characters alone.
#[verifier::external_body]
pub(crate) fn trim(s: &str) -> (r: &str)
    ensures
        r@ == trimmed(s@),
{
    s.trim()
}

/// Appends the characters of `s` to `out`.
pub fn append_chars(out: &mut Vec<char>, s: &Vec<char>)
    ensures
        final(out)@ == old(out)@ + s@,
{
    let mut i: usize = 0;
    while i < s.len()
        invariant
            i <= s.len(),
            out@ =~= old(out)@ + s@.take(i as int),
        decreases s.len() - i,
    {
        out.push(s[i]);
        i += 1;
    }
    assert(s@.take(s@.len() as int) =~= s@);
}

/// `p` followed by the positions in `o`, if any.
pub open spec fn prefixed(p: Seq<usize>, o: Option<Seq<usize>>) -> Option<Seq<usize>> {
    match o {
        Some(r) => Some(p + r),
        None => None,
    }
}

/// Greedy subsequence match of `q` in `t` from position `ti`: each query
/// character takes the first equal title character after the previous one.
/// The result is the matched positions, or `None`.
pub open spec fn match_from(t: Seq<char>, q: Seq<char>, ti: int) -> Option<Seq<usize>>
    decreases t.len() - ti,
{
    if q.len() == 0 {
        Some(Seq::empty())
    } else if ti < 0 || ti >= t.len() {
        None
    } else if t[ti] == q[0] {
        prefixed(seq![ti as usize], match_from(t, q.drop_first(), ti + 1))
    } else {
        match_from(t, q, ti + 1)
    }
}

/// The greedy match of `q` in `t` by exact character comparison.
pub fn match_positions(t: &Vec<char>, q: &Vec<char>) -> (r: Option<Vec<usize>>)
    ensures
        match r {
            Some(v) => match_from(t@, q@, 0) == Some(v@),
            None => match_from(t@, q@, 0) is None,
        },
{
    let mut positions: Vec<usize> = Vec::new();
    let mut ti: usize = 0;
    let mut qi: usize = 0;
    assert(q@.skip(0) =~= q@);
    while qi < q.len()
        invariant
            ti <= t.len(),
            qi <= q.len(),
            match_from(t@, q@, 0) == prefixed(positions@, match_from(t@, q@.skip(qi as int), ti as int)),
        decreases q.len() - qi,
    {
        let c = q[qi];
        let ghost rest = q@.skip(qi as int);
        while ti < t.len() && t[ti] != c
            invariant
                ti <= t.len(),
                qi < q.len(),
                c == q@[qi as int],
                rest == q@.skip(qi as int),
                match_from(t@, q@, 0) == prefixed(positions@, match_from(t@, rest, ti as int)),
            decreases t.len() - ti,
        {
            ti += 1;
        }
        if ti == t.len() {
            return None;
        }
        assert(rest.drop_first() =~= q@.skip(qi as int + 1));
        let ghost before = positions@;
        positions.push(ti);
        assert(before + (seq![ti as usize] + match_from(t@, rest.drop_first(), ti as int + 1)->0)
            =~= positions@ + match_from(t@, rest.drop_first(), ti as int + 1)->0);
        ti += 1;
        qi += 1;
    }
    assert(positions@ + Seq::<usize>::empty() =~= positions@);
    Some(positions)
}

/// The decimal digit `d`.
pub open spec fn digit(d: nat) -> char {
    ((d + 48) as u8) as char
}

/// Decimal notation of `n`, without leading zeros.
pub open spec fn decimal(n: nat) -> Seq<char>
    decreases n,
{
    if n < 10 {
        seq![digit(n)]
    } else {
        decimal(n / 10).push(digit(n % 10))
    }
}

/// Decimal notation of `n`, padded with zeros to at least two digits.
pub open spec fn two_digits(n: nat) -> Seq<char> {
    if n < 10 {
        seq!['0', digit(n)]
    } else {
        decimal(n)
    }
}

/// Decimal notation of `n`.
pub fn decimal_chars(n: u64) -> (r: Vec<char>)
    ensures
        r@ == decimal(n as nat),
    decreases n,
{
    if n < 10 {
        vec![((n as u8) + 48) as char]
    } else {
        let mut r = decimal_chars(n / 10);
        r.push((((n % 10) as u8) + 48) as char);
        r
    }
}

/// Decimal notation of `n`, padded to two digits.
pub fn two_digit_chars(n: u64) -> (r: Vec<char>)
    ensures
        r@ == two_digits(n as nat),
{
    if n < 10 {
        vec!['0', ((n as u8) + 48) as char]
    } else {
        decimal_chars(n)
    }
}

/// `parts` joined with `sep` between neighbours.
pub open spec fn joined(parts: Seq<Seq<char>>, sep: Seq<char>) -> Seq<char>
    decreases parts.len(),
{
    if parts.len() == 0 {
        Seq::empty()
    } else if parts.len() == 1 {
        parts[0]
    } else {
        joined(parts.drop_last(), sep) + sep + parts.last()
    }
}

/// The views of a list of character vectors.
pub open spec fn views(parts: Seq<Vec<char>>) -> Seq<Seq<char>> {
    parts.map_values(|p: Vec<char>| p@)
}

/// Joins `parts` with `sep` between neighbours.
pub fn join_chars(parts: &Vec<Vec<char>>, sep: &Vec<char>) -> (r: Vec<char>)
    ensures
        r@ == joined(views(parts@), sep@),
{
    let mut r: Vec<char> = Vec::new();
    let mut i: usize = 0;
    while i < parts.len()
        invariant
            i <= parts.len(),
            r@ == joined(views(parts@.take(i as int)), sep@),
        decreases parts.len() - i,
    {
        let ghost pre = views(parts@.take(i as int));
        assert(views(parts@.take(i as int + 1)).drop_last() =~= pre);
        assert(views(parts@.take(i as int + 1)).last() == parts@[i as int]@);
        if i > 0 {
            append_chars(&mut r, sep);
        }
        append_chars(&mut r, &parts[i]);
        if i == 0 {
            assert(r@ =~= parts@[0]@);
        }
        i += 1;
    }
    assert(parts@.take(parts@.len() as int) =~= parts@);
    r
}

} // verus!
