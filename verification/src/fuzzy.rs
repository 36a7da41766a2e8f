use vstd::prelude::*;

use crate::item::{spec_fuzzy_score, Item};

verus! {

/// The pair sequence with only the items kept.
pub open spec fn firsts(s: Seq<(Item, i64)>) -> Seq<Item> {
    s.map_values(|p: (Item, i64)| p.0)
}

/// The items of a sequence whose fuzzy score for `q` is positive, in
/// their original order.
pub open spec fn matching(items: Seq<Item>, q: Seq<char>) -> Seq<Item>
    decreases items.len(),
{
    if items.len() == 0 {
        Seq::empty()
    } else {
        let rest = matching(items.drop_last(), q);
        if spec_fuzzy_score(items.last(), q) > 0 {
            rest.push(items.last())
        } else {
            rest
        }
    }
}

proof fn lem_matching_push(s: Seq<Item>, x: Item, q: Seq<char>)
    ensures
        spec_fuzzy_score(x, q) > 0 ==> matching(s.push(x), q) == matching(s, q).push(x),
        spec_fuzzy_score(x, q) <= 0 ==> matching(s.push(x), q) == matching(s, q),
{
    assert(s.push(x).drop_last() =~= s);
    assert(s.push(x).last() == x);
}

/// Filter-then-rank: the items matching the query (positive fuzzy score),
/// ordered by descending score; an item scoring zero is left out
/// entirely, and what is kept is exactly the matching items.
pub fn rank_items(items: Vec<Item>, query: &str) -> (r: Vec<Item>)
    ensures
        forall|k: int| 0 <= k < r@.len() ==> spec_fuzzy_score(r@[k], query@) > 0,
        forall|a: int, b: int|
            0 <= a <= b < r@.len() ==> spec_fuzzy_score(r@[a], query@) >= spec_fuzzy_score(
                r@[b],
                query@,
            ),
        r@.to_multiset() == matching(items@, query@).to_multiset(),
{
    broadcast use vstd::seq_lib::group_to_multiset_ensures;

    let ghost orig = items@;
    let n0: usize = items.len();
    let mut rem = items;
    let mut scored: Vec<(Item, i64)> = Vec::new();
    let mut i: usize = 0;
    while rem.len() > 0
        invariant
            i + rem@.len() == n0,
            n0 == orig.len(),
            rem@ == orig.subrange(i as int, orig.len() as int),
            firsts(scored@) == matching(orig.subrange(0, i as int), query@),
            forall|k: int|
                0 <= k < scored@.len() ==> (#[trigger] scored@[k]).1 as int == spec_fuzzy_score(
                    scored@[k].0,
                    query@,
                ) && scored@[k].1 > 0,
        decreases rem@.len(),
    {
        let ghost old_scored = scored@;
        let it = rem.remove(0);
        let s: i64 = it.fuzzy_score(query);
        proof {
            assert(it == orig[i as int]);
            assert(rem@ =~= orig.subrange(i + 1, orig.len() as int));
            assert(orig.subrange(0, i + 1) =~= orig.subrange(0, i as int).push(orig[i as int]));
            lem_matching_push(orig.subrange(0, i as int), orig[i as int], query@);
        }
        if s > 0 {
            scored.push((it, s));
            proof {
                assert(firsts(scored@) =~= firsts(old_scored).push(it));
            }
        }
        i = i + 1;
    }
    proof {
        assert(orig.subrange(0, orig.len() as int) =~= orig);
    }
    // Selection sort by descending score.
    let mut rest = scored;
    let mut out: Vec<(Item, i64)> = Vec::new();
    while rest.len() > 0
        invariant
            firsts(out@).to_multiset().add(firsts(rest@).to_multiset()) == matching(
                orig,
                query@,
            ).to_multiset(),
            forall|k: int|
                0 <= k < out@.len() ==> (#[trigger] out@[k]).1 as int == spec_fuzzy_score(
                    out@[k].0,
                    query@,
                ) && out@[k].1 > 0,
            forall|k: int|
                0 <= k < rest@.len() ==> (#[trigger] rest@[k]).1 as int == spec_fuzzy_score(
                    rest@[k].0,
                    query@,
                ) && rest@[k].1 > 0,
            forall|a: int, b: int| 0 <= a <= b < out@.len() ==> out@[a].1 >= out@[b].1,
            forall|a: int, b: int|
                0 <= a < out@.len() && 0 <= b < rest@.len() ==> out@[a].1 >= rest@[b].1,
        decreases rest@.len(),
    {
        let m: usize = rest.len();
        let mut mi: usize = 0;
        let mut k: usize = 1;
        while k < m
            invariant
                mi < k <= m,
                m == rest@.len(),
                forall|t: int| 0 <= t < k ==> rest@[t].1 <= rest@[mi as int].1,
            decreases m - k,
        {
            if rest[k].1 > rest[mi].1 {
                mi = k;
            }
            k = k + 1;
        }
        let ghost old_out = out@;
        let ghost old_rest = rest@;
        let p = rest.remove(mi);
        out.push(p);
        proof {
            firsts(old_rest).to_multiset_ensures();
            firsts(old_out).to_multiset_ensures();
            assert(firsts(old_rest.remove(mi as int)) =~= firsts(old_rest).remove(mi as int));
            assert(firsts(old_out.push(p)) =~= firsts(old_out).push(p.0));
            assert(firsts(old_rest)[mi as int] == p.0);
            assert(firsts(old_rest).remove(mi as int).to_multiset() =~= firsts(
                old_rest,
            ).to_multiset().remove(p.0));
            assert(firsts(old_out).push(p.0).to_multiset() =~= firsts(old_out).to_multiset().insert(
                p.0,
            ));
            assert(firsts(old_rest).contains(p.0));
            assert(firsts(old_rest).to_multiset().count(p.0) > 0);
            assert(firsts(out@).to_multiset().add(firsts(rest@).to_multiset()) =~= firsts(
                old_out,
            ).to_multiset().add(firsts(old_rest).to_multiset()));
        }
    }
    let ghost sorted = out@;
    let mut r: Vec<Item> = Vec::new();
    while out.len() > 0
        invariant
            r@.len() + out@.len() == sorted.len(),
            out@ == sorted.subrange(r@.len() as int, sorted.len() as int),
            r@ == firsts(sorted).subrange(0, r@.len() as int),
            forall|k: int|
                0 <= k < sorted.len() ==> (#[trigger] sorted[k]).1 as int == spec_fuzzy_score(
                    sorted[k].0,
                    query@,
                ) && sorted[k].1 > 0,
            forall|a: int, b: int| 0 <= a <= b < sorted.len() ==> sorted[a].1 >= sorted[b].1,
            firsts(sorted).to_multiset() == matching(orig, query@).to_multiset(),
        decreases out@.len(),
    {
        let ghost t: int = r@.len() as int;
        let p = out.remove(0);
        r.push(p.0);
        proof {
            assert(p == sorted[t]);
            assert(out@ =~= sorted.subrange(t + 1, sorted.len() as int));
            assert(firsts(sorted).subrange(0, t + 1) =~= firsts(sorted).subrange(0, t).push(
                firsts(sorted)[t],
            ));
        }
    }
    proof {
        assert(firsts(sorted).subrange(0, sorted.len() as int) =~= firsts(sorted));
        assert(r@ == firsts(sorted));
        assert(forall|k: int|
            0 <= k < r@.len() ==> r@[k] == (#[trigger] sorted[k]).0 && spec_fuzzy_score(
                r@[k],
                query@,
            ) == sorted[k].1 as int);
    }
    r
}

} // verus!
