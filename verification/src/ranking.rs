//! Stable ordering of keyed items, as a stable sort by a decimal key gives it.
use crate::decimal::{units, Dec};
use vstd::prelude::*;

verus! {

/// Whether an item with key `k` goes before one with key `k0`: a strictly
/// larger key when ordering downward, a strictly smaller one upward.
pub open spec fn goes_before(k: (int, int), k0: (int, int), desc: bool) -> bool {
    if desc {
        units(k0) < units(k)
    } else {
        units(k) < units(k0)
    }
}

/// Where an item with key `k` enters an ordered list: before the first item
/// it goes before, so that equal keys keep their order.
pub open spec fn entry_pos<T>(s: Seq<((int, int), T)>, k: (int, int), desc: bool) -> int
    decreases s.len(),
{
    if s.len() == 0 {
        0
    } else if goes_before(k, s[0].0, desc) {
        0
    } else {
        1 + entry_pos(s.drop_first(), k, desc)
    }
}

/// The items of `s` ordered by key (downward or upward), equal keys in
/// their original order.
pub open spec fn ordered<T>(s: Seq<((int, int), T)>, desc: bool) -> Seq<((int, int), T)>
    decreases s.len(),
{
    if s.len() == 0 {
        Seq::empty()
    } else {
        let o = ordered(s.drop_last(), desc);
        o.insert(entry_pos(o, s.last().0, desc), s.last())
    }
}

proof fn lemma_entry_pos<T>(s: Seq<((int, int), T)>, k: (int, int), desc: bool, j: int)
    requires
        0 <= j <= s.len(),
        forall|m: int| 0 <= m < j ==> !goes_before(k, #[trigger] s[m].0, desc),
        j == s.len() || goes_before(k, s[j].0, desc),
    ensures
        entry_pos(s, k, desc) == j,
    decreases s.len(),
{
    if s.len() > 0 && j > 0 {
        assert forall|m: int| 0 <= m < j - 1 implies !goes_before(k, #[trigger] s.drop_first()[m].0, desc) by {
            assert(s.drop_first()[m] == s[m + 1]);
        }
        lemma_entry_pos(s.drop_first(), k, desc, j - 1);
    }
}

proof fn lemma_entry_pos_bound<T>(s: Seq<((int, int), T)>, k: (int, int), desc: bool)
    ensures
        0 <= entry_pos(s, k, desc) <= s.len(),
    decreases s.len(),
{
    if s.len() > 0 {
        lemma_entry_pos_bound(s.drop_first(), k, desc);
    }
}

/// Ordering keeps the number of items.
pub proof fn lemma_ordered_len<T>(s: Seq<((int, int), T)>, desc: bool)
    ensures
        ordered(s, desc).len() == s.len(),
    decreases s.len(),
{
    if s.len() > 0 {
        lemma_ordered_len(s.drop_last(), desc);
        lemma_entry_pos_bound(ordered(s.drop_last(), desc), s.last().0, desc);
    }
}

/// The pairs `(key view, item)` of keyed items.
pub open spec fn keyed<T>(v: Seq<(Dec, T)>) -> Seq<((int, int), T)> {
    v.map_values(|p: (Dec, T)| (p.0@, p.1))
}

/// Items ordered by their keys (see `ordered`).
pub fn order_by_key<T>(items: Vec<(Dec, T)>, desc: bool) -> (r: Vec<(Dec, T)>)
    ensures
        keyed(r@) == ordered(keyed(items@), desc),
{
    let ghost all = keyed(items@);
    let mut rest = items;
    let mut out: Vec<(Dec, T)> = Vec::new();
    let ghost mut i: int = 0;
    while rest.len() > 0
        invariant
            0 <= i <= all.len(),
            rest.len() + i == all.len(),
            keyed(rest@) == all.skip(i),
            keyed(out@) == ordered(all.take(i), desc),
        decreases rest.len(),
    {
        proof {
            assert(keyed(rest@)[0] == all[i]);
        }
        let ghost old_rest = rest@;
        let item = rest.remove(0);
        proof {
            assert(keyed(rest@) =~= all.skip(i + 1)) by {
                assert forall|m: int| 0 <= m < rest@.len() implies keyed(rest@)[m] == all.skip(i + 1)[m] by {
                    assert(rest@[m] == old_rest[m + 1]);
                    assert(keyed(old_rest)[m + 1] == all.skip(i)[m + 1]);
                }
            }
        }
        let mut j: usize = 0;
        while j < out.len()
            invariant
                j <= out.len(),
                forall|m: int| 0 <= m < j ==> !goes_before(item.0@, #[trigger] keyed(out@)[m].0, desc),
            ensures
                j <= out.len(),
                forall|m: int| 0 <= m < j ==> !goes_before(item.0@, #[trigger] keyed(out@)[m].0, desc),
                j == out.len() || goes_before(item.0@, keyed(out@)[j as int].0, desc),
            decreases out.len() - j,
        {
            let before = if desc {
                out[j].0.lt(&item.0)
            } else {
                item.0.lt(&out[j].0)
            };
            if before {
                break;
            }
            j = j + 1;
        }
        proof {
            lemma_entry_pos(keyed(out@), item.0@, desc, j as int);
            assert(all.take(i + 1).drop_last() =~= all.take(i));
            assert(all.take(i + 1).last() == all[i]);
        }
        let ghost old_out = out@;
        out.insert(j, item);
        proof {
            assert(keyed(out@) =~= keyed(old_out).insert(j as int, (item.0@, item.1)));
            i = i + 1;
        }
    }
    proof {
        assert(all.take(i) =~= all);
    }
    out
}

/// Each item of keyed pairs transformed, the keys kept.
pub open spec fn map_items<T, U>(s: Seq<((int, int), T)>, f: spec_fn(T) -> U) -> Seq<((int, int), U)> {
    s.map_values(|p: ((int, int), T)| (p.0, f(p.1)))
}

proof fn lemma_entry_pos_map<T, U>(s: Seq<((int, int), T)>, f: spec_fn(T) -> U, k: (int, int), desc: bool)
    ensures
        entry_pos(map_items(s, f), k, desc) == entry_pos(s, k, desc),
    decreases s.len(),
{
    if s.len() > 0 {
        assert(map_items(s, f).drop_first() =~= map_items(s.drop_first(), f));
        lemma_entry_pos_map(s.drop_first(), f, k, desc);
    }
}

/// Ordering keyed items and transforming the items commute: the order
/// depends on the keys alone.
pub proof fn lemma_ordered_map<T, U>(s: Seq<((int, int), T)>, f: spec_fn(T) -> U, desc: bool)
    ensures
        ordered(map_items(s, f), desc) == map_items(ordered(s, desc), f),
    decreases s.len(),
{
    if s.len() > 0 {
        assert(map_items(s, f).drop_last() =~= map_items(s.drop_last(), f));
        lemma_ordered_map(s.drop_last(), f, desc);
        let o = ordered(s.drop_last(), desc);
        lemma_entry_pos_map(o, f, s.last().0, desc);
        lemma_entry_pos_bound(o, s.last().0, desc);
        assert(map_items(o, f).insert(entry_pos(o, s.last().0, desc), (s.last().0, f(s.last().1)))
            =~= map_items(o.insert(entry_pos(o, s.last().0, desc), s.last()), f));
    }
}

/// Every entry of an ordering is an entry of the items ordered.
pub proof fn lemma_ordered_items<T>(s: Seq<((int, int), T)>, desc: bool, j: int)
    requires
        0 <= j < ordered(s, desc).len(),
    ensures
        s.contains(ordered(s, desc)[j]),
    decreases s.len(),
{
    let o = ordered(s.drop_last(), desc);
    lemma_entry_pos_bound(o, s.last().0, desc);
    lemma_ordered_len(s.drop_last(), desc);
    let p = entry_pos(o, s.last().0, desc);
    if j == p {
        assert(s[s.len() - 1] == s.last());
    } else {
        let k = if j < p {
            j
        } else {
            j - 1
        };
        assert(ordered(s, desc)[j] == o[k]);
        lemma_ordered_items(s.drop_last(), desc, k);
        let w = choose|w: int| 0 <= w < s.drop_last().len() && s.drop_last()[w] == o[k];
        assert(s[w] == o[k]);
    }
}

/// The first item of an ordering has the best key: no item goes before it.
pub proof fn lemma_ordered_first<T>(s: Seq<((int, int), T)>, desc: bool)
    requires
        s.len() > 0,
    ensures
        ordered(s, desc).len() == s.len(),
        forall|j: int| 0 <= j < s.len() ==> !goes_before(#[trigger] s[j].0, ordered(s, desc)[0].0, desc),
    decreases s.len(),
{
    lemma_ordered_len(s, desc);
    let o = ordered(s.drop_last(), desc);
    lemma_ordered_len(s.drop_last(), desc);
    lemma_entry_pos_bound(o, s.last().0, desc);
    let p = entry_pos(o, s.last().0, desc);
    if o.len() == 0 {
        assert(s.len() == 1);
        assert(ordered(s, desc)[0] == s.last());
        assert forall|j: int| 0 <= j < s.len() implies !goes_before(#[trigger] s[j].0, ordered(s, desc)[0].0, desc) by {
            assert(j == 0);
        }
    } else {
        lemma_ordered_first(s.drop_last(), desc);
        lemma_entry_pos_bound(o.drop_first(), s.last().0, desc);
        if p == 0 {
            assert(goes_before(s.last().0, o[0].0, desc));
            assert(ordered(s, desc)[0] == s.last());
            assert forall|j: int| 0 <= j < s.len() implies !goes_before(#[trigger] s[j].0, ordered(s, desc)[0].0, desc) by {
                if j < s.len() - 1 {
                    assert(s.drop_last()[j] == s[j]);
                    assert(!goes_before(s.drop_last()[j].0, o[0].0, desc));
                }
            }
        } else {
            assert(!goes_before(s.last().0, o[0].0, desc));
            assert(ordered(s, desc)[0] == o[0]);
            assert forall|j: int| 0 <= j < s.len() implies !goes_before(#[trigger] s[j].0, ordered(s, desc)[0].0, desc) by {
                if j < s.len() - 1 {
                    assert(s.drop_last()[j] == s[j]);
                    assert(!goes_before(s.drop_last()[j].0, o[0].0, desc));
                } else {
                    assert(s[j] == s.last());
                }
            }
        }
    }
}

} // verus!
