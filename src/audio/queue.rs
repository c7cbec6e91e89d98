//! The queue reducer: sanitise a candidate list of catalog indices and put
//! it in play order.
use vstd::prelude::*;

verus! {

/// The candidates that index into a catalog of `n` tracks, in their order.
pub open spec fn keep_below(s: Seq<usize>, n: usize) -> Seq<usize>
    decreases s.len(),
{
    if s.len() == 0 {
        s
    } else if s.last() < n {
        keep_below(s.drop_last(), n).push(s.last())
    } else {
        keep_below(s.drop_last(), n)
    }
}

/// The last position of `t` in `order`, or `usize::MAX` when it is absent.
pub open spec fn rank_in(order: Seq<usize>, t: usize) -> int
    decreases order.len(),
{
    if order.len() == 0 {
        usize::MAX as int
    } else if order.last() == t {
        order.len() - 1
    } else {
        rank_in(order.drop_last(), t)
    }
}

/// The sort key of track `t`: its own index, or its rank in the shuffle order.
pub open spec fn play_key(shuffle: bool, order: Seq<usize>, t: usize) -> int {
    if shuffle {
        rank_in(order, t)
    } else {
        t as int
    }
}

/// Stable insertion of `x` after every element whose key is not larger.
pub open spec fn insert_ranked(s: Seq<usize>, x: usize, shuffle: bool, order: Seq<usize>) -> Seq<
    usize,
>
    decreases s.len(),
{
    if s.len() == 0 {
        seq![x]
    } else if play_key(shuffle, order, s.last()) <= play_key(shuffle, order, x) {
        s.push(x)
    } else {
        insert_ranked(s.drop_last(), x, shuffle, order).push(s.last())
    }
}

/// Stable sort of `s` by `play_key`.
pub open spec fn sort_ranked(s: Seq<usize>, shuffle: bool, order: Seq<usize>) -> Seq<usize>
    decreases s.len(),
{
    if s.len() == 0 {
        s
    } else {
        insert_ranked(sort_ranked(s.drop_last(), shuffle, order), s.last(), shuffle, order)
    }
}

/// What the reducer makes of `cands`: the in-range candidates, stably sorted
/// by index (shuffle off) or by rank in `order` (shuffle on).
pub open spec fn reduced(cands: Seq<usize>, n: usize, shuffle: bool, order: Seq<usize>) -> Seq<
    usize,
> {
    sort_ranked(keep_below(cands, n), shuffle, order)
}

/// `s` is in non-decreasing key order.
pub open spec fn ranked(s: Seq<usize>, shuffle: bool, order: Seq<usize>) -> bool {
    forall|i: int, j: int|
        0 <= i < j < s.len() ==> #[trigger] play_key(shuffle, order, s[i]) <= #[trigger] play_key(
            shuffle,
            order,
            s[j],
        )
}

/// Every element of `s` indexes into a catalog of `n` tracks.
pub open spec fn all_below(s: Seq<usize>, n: usize) -> bool {
    forall|i: int| 0 <= i < s.len() ==> #[trigger] s[i] < n
}

proof fn lemma_keep_below_all_below(s: Seq<usize>, n: usize)
    ensures
        all_below(keep_below(s, n), n),
    decreases s.len(),
{
    if s.len() > 0 {
        lemma_keep_below_all_below(s.drop_last(), n);
    }
}

proof fn lemma_keep_below_noop(s: Seq<usize>, n: usize)
    requires
        all_below(s, n),
    ensures
        keep_below(s, n) == s,
    decreases s.len(),
{
    if s.len() > 0 {
        assert(all_below(s.drop_last(), n));
        lemma_keep_below_noop(s.drop_last(), n);
        assert(s.drop_last().push(s.last()) =~= s);
    }
}

proof fn lemma_insert_elements(s: Seq<usize>, x: usize, shuffle: bool, order: Seq<usize>)
    ensures
        insert_ranked(s, x, shuffle, order).len() == s.len() + 1,
        forall|i: int|
            0 <= i < insert_ranked(s, x, shuffle, order).len() ==> {
                let e = #[trigger] insert_ranked(s, x, shuffle, order)[i];
                e == x || s.contains(e)
            },
    decreases s.len(),
{
    if s.len() > 0 && play_key(shuffle, order, s.last()) > play_key(shuffle, order, x) {
        let s1 = s.drop_last();
        lemma_insert_elements(s1, x, shuffle, order);
        let r = insert_ranked(s, x, shuffle, order);
        assert forall|i: int| 0 <= i < r.len() implies {
            let e = #[trigger] r[i];
            e == x || s.contains(e)
        } by {
            if i < r.len() - 1 {
                let e = insert_ranked(s1, x, shuffle, order)[i];
                if e != x {
                    let k = choose|k: int| 0 <= k < s1.len() && s1[k] == e;
                    assert(s[k] == e);
                }
            } else {
                assert(s[s.len() - 1] == r[i]);
            }
        }
    } else if s.len() > 0 {
        let r = insert_ranked(s, x, shuffle, order);
        assert forall|i: int| 0 <= i < r.len() implies {
            let e = #[trigger] r[i];
            e == x || s.contains(e)
        } by {
            if i < s.len() {
                assert(s[i] == r[i]);
            }
        }
    }
}

proof fn lemma_sort_elements(s: Seq<usize>, shuffle: bool, order: Seq<usize>)
    ensures
        sort_ranked(s, shuffle, order).len() == s.len(),
        forall|i: int|
            0 <= i < sort_ranked(s, shuffle, order).len() ==> s.contains(
                #[trigger] sort_ranked(s, shuffle, order)[i],
            ),
    decreases s.len(),
{
    if s.len() > 0 {
        let s1 = s.drop_last();
        lemma_sort_elements(s1, shuffle, order);
        let t = sort_ranked(s1, shuffle, order);
        lemma_insert_elements(t, s.last(), shuffle, order);
        let r = sort_ranked(s, shuffle, order);
        assert forall|i: int| 0 <= i < r.len() implies s.contains(#[trigger] r[i]) by {
            let e = r[i];
            if e == s.last() {
                assert(s[s.len() - 1] == e);
            } else {
                let k = choose|k: int| 0 <= k < t.len() && t[k] == e;
                assert(s1.contains(t[k]));
                let m = choose|m: int| 0 <= m < s1.len() && s1[m] == e;
                assert(s[m] == e);
            }
        }
    }
}

proof fn lemma_insert_ranked_sorted(s: Seq<usize>, x: usize, shuffle: bool, order: Seq<usize>)
    requires
        ranked(s, shuffle, order),
    ensures
        ranked(insert_ranked(s, x, shuffle, order), shuffle, order),
    decreases s.len(),
{
    if s.len() > 0 && play_key(shuffle, order, s.last()) > play_key(shuffle, order, x) {
        let s1 = s.drop_last();
        assert(ranked(s1, shuffle, order));
        lemma_insert_ranked_sorted(s1, x, shuffle, order);
        lemma_insert_elements(s1, x, shuffle, order);
        let t = insert_ranked(s1, x, shuffle, order);
        let r = insert_ranked(s, x, shuffle, order);
        assert forall|i: int, j: int| 0 <= i < j < r.len() implies #[trigger] play_key(
            shuffle,
            order,
            r[i],
        ) <= #[trigger] play_key(shuffle, order, r[j]) by {
            if j == r.len() - 1 {
                let e = t[i];
                if e != x {
                    let k = choose|k: int| 0 <= k < s1.len() && s1[k] == e;
                    assert(s[k] == e);
                    assert(s[s.len() - 1] == r[j]);
                }
            } else {
                assert(t[i] == r[i] && t[j] == r[j]);
            }
        }
    }
}

proof fn lemma_sort_ranked_sorted(s: Seq<usize>, shuffle: bool, order: Seq<usize>)
    ensures
        ranked(sort_ranked(s, shuffle, order), shuffle, order),
    decreases s.len(),
{
    if s.len() > 0 {
        lemma_sort_ranked_sorted(s.drop_last(), shuffle, order);
        lemma_insert_ranked_sorted(sort_ranked(s.drop_last(), shuffle, order), s.last(), shuffle, order);
    }
}

proof fn lemma_sort_ranked_noop(s: Seq<usize>, shuffle: bool, order: Seq<usize>)
    requires
        ranked(s, shuffle, order),
    ensures
        sort_ranked(s, shuffle, order) == s,
    decreases s.len(),
{
    if s.len() > 0 {
        let s1 = s.drop_last();
        assert(ranked(s1, shuffle, order));
        lemma_sort_ranked_noop(s1, shuffle, order);
        if s1.len() > 0 {
            assert(s1.last() == s[s.len() - 2]);
            assert(play_key(shuffle, order, s[s.len() - 2]) <= play_key(shuffle, order, s[s.len() - 1]));
        }
        assert(s1.push(s.last()) =~= s);
    }
}

/// Characterises `insert_ranked` by the point where `x` goes.
proof fn lemma_insert_at(s: Seq<usize>, x: usize, shuffle: bool, order: Seq<usize>, j: int)
    requires
        0 <= j <= s.len(),
        j == 0 || play_key(shuffle, order, s[j - 1]) <= play_key(shuffle, order, x),
        forall|m: int| j <= m < s.len() ==> play_key(shuffle, order, #[trigger] s[m]) > play_key(
            shuffle,
            order,
            x,
        ),
    ensures
        insert_ranked(s, x, shuffle, order) == s.insert(j, x),
    decreases s.len(),
{
    if s.len() == 0 {
        assert(s.insert(j, x) =~= seq![x]);
    } else if j == s.len() {
        assert(s.insert(j, x) =~= s.push(x));
    } else {
        let s1 = s.drop_last();
        assert(play_key(shuffle, order, s[s.len() - 1]) > play_key(shuffle, order, x));
        lemma_insert_at(s1, x, shuffle, order, j);
        assert(s1.insert(j, x).push(s.last()) =~= s.insert(j, x));
    }
}

/// Reducing a reduced queue leaves it as it is.
pub proof fn lemma_reduce_idempotent(cands: Seq<usize>, n: usize, shuffle: bool, order: Seq<usize>)
    ensures
        reduced(reduced(cands, n, shuffle, order), n, shuffle, order) == reduced(
            cands,
            n,
            shuffle,
            order,
        ),
{
    let k = keep_below(cands, n);
    let r = sort_ranked(k, shuffle, order);
    lemma_keep_below_all_below(cands, n);
    lemma_sort_elements(k, shuffle, order);
    assert forall|i: int| 0 <= i < r.len() implies #[trigger] r[i] < n by {
        assert(k.contains(r[i]));
    }
    lemma_keep_below_noop(r, n);
    lemma_sort_ranked_sorted(k, shuffle, order);
    lemma_sort_ranked_noop(r, shuffle, order);
}

/// No index at or beyond the catalog size survives the reducer.
pub proof fn lemma_reduce_sanitizes(cands: Seq<usize>, n: usize, shuffle: bool, order: Seq<usize>)
    ensures
        all_below(reduced(cands, n, shuffle, order), n),
{
    let k = keep_below(cands, n);
    let r = sort_ranked(k, shuffle, order);
    lemma_keep_below_all_below(cands, n);
    lemma_sort_elements(k, shuffle, order);
    assert forall|i: int| 0 <= i < r.len() implies #[trigger] r[i] < n by {
        assert(k.contains(r[i]));
    }
}

fn key_of(pos_map: &Vec<usize>, shuffle: bool, t: usize) -> (k: usize)
    requires
        shuffle ==> t < pos_map@.len(),
    ensures
        k == if shuffle {
            pos_map@[t as int]
        } else {
            t
        },
{
    if shuffle {
        pos_map[t]
    } else {
        t
    }
}

/// Drops every index `>= tracks_len` from `queue`, then orders it: by index
/// when `shuffle` is off; by the last position of each index in `order`
/// when it is on, with indices absent from `order` last. Both sorts are stable.
pub fn reorder_queue_in_place(
    queue: &mut Vec<usize>,
    tracks_len: usize,
    shuffle: bool,
    order: &[usize],
)
    ensures
        final(queue)@ == reduced(old(queue)@, tracks_len, shuffle, order@),
        all_below(final(queue)@, tracks_len),
        ranked(final(queue)@, shuffle, order@),
{
    let ghost n = tracks_len;
    let ghost ord = order@;
    let mut pos_map: Vec<usize> = Vec::new();
    if shuffle {
        let mut t: usize = 0;
        while t < tracks_len
            invariant
                t <= tracks_len,
                pos_map@.len() == t,
                forall|m: int| 0 <= m < t ==> #[trigger] pos_map@[m] == usize::MAX,
            decreases tracks_len - t,
        {
            pos_map.push(usize::MAX);
            t += 1;
        }
        let mut p: usize = 0;
        while p < order.len()
            invariant
                p <= order.len(),
                ord == order@,
                pos_map@.len() == tracks_len,
                forall|m: int|
                    0 <= m < tracks_len ==> #[trigger] pos_map@[m] as int == rank_in(
                        ord.take(p as int),
                        m as usize,
                    ),
            decreases order.len() - p,
        {
            let ti = order[p];
            assert(ord.take(p as int + 1).drop_last() =~= ord.take(p as int));
            if ti < pos_map.len() {
                pos_map.set(ti, p);
            }
            p += 1;
        }
        assert(ord.take(order.len() as int) =~= ord);
    }
    let ghost cands = queue@;
    let mut out: Vec<usize> = Vec::new();
    let mut i: usize = 0;
    while i < queue.len()
        invariant
            i <= queue.len(),
            queue@ == cands,
            n == tracks_len,
            ord == order@,
            shuffle ==> pos_map@.len() == tracks_len,
            shuffle ==> forall|m: int|
                0 <= m < tracks_len ==> #[trigger] pos_map@[m] as int == rank_in(ord, m as usize),
            all_below(out@, tracks_len),
            out@ == sort_ranked(keep_below(cands.take(i as int), n), shuffle, ord),
        decreases queue.len() - i,
    {
        let t = queue[i];
        let ghost prev = keep_below(cands.take(i as int), n);
        assert(cands.take(i as int + 1).drop_last() =~= cands.take(i as int));
        assert(cands.take(i as int + 1).last() == t);
        assert(prev.push(t).drop_last() =~= prev);
        if t < tracks_len {
            let k = key_of(&pos_map, shuffle, t);
            assert(k as int == play_key(shuffle, ord, t));
            let mut j = out.len();
            while j > 0 && key_of(&pos_map, shuffle, out[j - 1]) > k
                invariant
                    j <= out@.len(),
                    out@ == sort_ranked(prev, shuffle, ord),
                    all_below(out@, tracks_len),
                    shuffle ==> pos_map@.len() == tracks_len,
                    shuffle ==> forall|m: int|
                        0 <= m < tracks_len ==> #[trigger] pos_map@[m] as int == rank_in(
                            ord,
                            m as usize,
                        ),
                    k as int == play_key(shuffle, ord, t),
                    forall|m: int|
                        j <= m < out@.len() ==> play_key(shuffle, ord, #[trigger] out@[m])
                            > play_key(shuffle, ord, t),
                decreases j,
            {
                j -= 1;
            }
            proof {
                lemma_insert_at(out@, t, shuffle, ord, j as int);
            }
            let ghost before = out@;
            out.insert(j, t);
            assert(keep_below(cands.take(i as int + 1), n) == prev.push(t));
            assert(out@ == sort_ranked(prev.push(t), shuffle, ord));
            assert forall|m: int| 0 <= m < out@.len() implies #[trigger] out@[m] < tracks_len by {
                if m > j {
                    assert(out@[m] == before[m - 1]);
                }
            }
        } else {
            assert(keep_below(cands.take(i as int + 1), n) == prev);
        }
        i += 1;
    }
    assert(cands.take(cands.len() as int) =~= cands);
    proof {
        lemma_sort_ranked_sorted(keep_below(cands, n), shuffle, ord);
    }
    *queue = out;
}

} // verus!
