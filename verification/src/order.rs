//! The order of strings (character by character, by code point, a prefix
//! first), which is the order of their UTF-8 bytes, and sorting by it.

use vstd::prelude::*;
use vstd::relations::{sorted_by, total_ordering};
use crate::text::{chars_of, views};

verus! {

broadcast use vstd::seq_lib::group_to_multiset_ensures;

/// `a` comes no later than `b`.
pub open spec fn text_le(a: Seq<char>, b: Seq<char>) -> bool
    decreases a.len(),
{
    if a.len() == 0 {
        true
    } else if b.len() == 0 {
        false
    } else if a[0] < b[0] {
        true
    } else if a[0] == b[0] {
        text_le(a.drop_first(), b.drop_first())
    } else {
        false
    }
}

/// `text_le` as a relation value.
pub open spec fn text_order() -> spec_fn(Seq<char>, Seq<char>) -> bool {
    |a: Seq<char>, b: Seq<char>| text_le(a, b)
}

/// `text_le` is reflexive, total, antisymmetric and transitive.
pub proof fn lemma_text_le_total(a: Seq<char>, b: Seq<char>)
    ensures
        text_le(a, a),
        text_le(a, b) || text_le(b, a),
        text_le(a, b) && text_le(b, a) ==> a == b,
    decreases a.len(),
{
    if a.len() > 0 {
        lemma_text_le_total(a.drop_first(), a.drop_first());
        if b.len() > 0 {
            lemma_text_le_total(a.drop_first(), b.drop_first());
            if text_le(a, b) && text_le(b, a) {
                assert(a[0] == b[0]);
                assert(a =~= seq![a[0]] + a.drop_first());
                assert(b =~= seq![b[0]] + b.drop_first());
            }
        }
    } else if b.len() == 0 {
        assert(a =~= b);
    }
}

/// `text_le` is transitive.
pub proof fn lemma_text_le_transitive(a: Seq<char>, b: Seq<char>, c: Seq<char>)
    requires
        text_le(a, b),
        text_le(b, c),
    ensures
        text_le(a, c),
    decreases a.len(),
{
    if a.len() > 0 && b.len() > 0 && c.len() > 0 {
        if a[0] == b[0] && b[0] == c[0] {
            lemma_text_le_transitive(a.drop_first(), b.drop_first(), c.drop_first());
        }
    }
}

/// `text_order` is a total order.
pub proof fn lemma_text_order_total()
    ensures
        total_ordering(text_order()),
{
    assert forall|a: Seq<char>, b: Seq<char>, c: Seq<char>|
        #[trigger] text_order()(a, b) && #[trigger] text_order()(b, c) implies text_order()(a, c) by {
        lemma_text_le_transitive(a, b, c);
    }
    assert forall|a: Seq<char>, b: Seq<char>| #[trigger] text_order()(a, b) || text_order()(b, a) by {
        lemma_text_le_total(a, b);
    }
    assert forall|a: Seq<char>, b: Seq<char>|
        #[trigger] text_order()(a, b) && #[trigger] text_order()(b, a) implies a == b by {
        lemma_text_le_total(a, b);
    }
    assert forall|a: Seq<char>| #[trigger] text_order()(a, a) by {
        lemma_text_le_total(a, a);
    }
}

/// Whether `a` comes no later than `b`.
pub fn str_le(a: &str, b: &str) -> (r: bool)
    ensures
        r == text_le(a@, b@),
{
    let x = chars_of(a);
    let y = chars_of(b);
    let mut i: usize = 0;
    assert(x@.skip(0) =~= x@);
    assert(y@.skip(0) =~= y@);
    while i < x.len() && i < y.len()
        invariant
            i <= x@.len(),
            i <= y@.len(),
            x@ == a@,
            y@ == b@,
            text_le(x@, y@) == text_le(x@.skip(i as int), y@.skip(i as int)),
        decreases x.len() - i,
    {
        let c = x[i];
        let d = y[i];
        assert(x@.skip(i as int)[0] == c);
        assert(y@.skip(i as int)[0] == d);
        let ghost xs = x@.skip(i as int);
        let ghost ys = y@.skip(i as int);
        assert(xs.len() > 0 && ys.len() > 0);
        if c < d {
            assert(text_le(xs, ys));
            return true;
        }
        if c != d {
            assert(!text_le(xs, ys));
            return false;
        }
        assert(x@.skip(i as int).drop_first() =~= x@.skip(i + 1));
        assert(y@.skip(i as int).drop_first() =~= y@.skip(i + 1));
        i = i + 1;
    }
    i == x.len()
}

/// The strings of `v` in `text_le` order.
pub fn sort_strings(v: Vec<String>) -> (r: Vec<String>)
    ensures
        sorted_by(views(r@), text_order()),
        views(r@).to_multiset() == views(v@).to_multiset(),
{
    let mut r: Vec<String> = Vec::new();
    let mut i: usize = 0;
    let mut rest = v;
    let ghost all = views(rest@);
    assert(views(r@) =~= Seq::<Seq<char>>::empty());
    assert(all.take(0) =~= Seq::<Seq<char>>::empty());
    while i < rest.len()
        invariant
            all == views(rest@),
            i <= rest@.len(),
            sorted_by(views(r@), text_order()),
            views(r@).to_multiset() == all.take(i as int).to_multiset(),
        decreases rest.len() - i,
    {
        let x = rest[i].clone();
        let mut p: usize = 0;
        while p < r.len() && str_le(r[p].as_str(), x.as_str())
            invariant
                p <= r@.len(),
                forall|k: int| 0 <= k < p ==> text_le(#[trigger] views(r@)[k], x@),
            decreases r.len() - p,
        {
            p = p + 1;
        }
        let ghost before = views(r@);
        proof {
            if p < r@.len() {
                lemma_text_le_total(before[p as int], x@);
            }
            assert forall|k: int| p <= k < before.len() implies text_le(x@, #[trigger] before[k]) by {
                if k > p {
                    assert(text_order()(before[p as int], before[k]));
                    lemma_text_le_transitive(x@, before[p as int], before[k]);
                }
            }
        }
        r.insert(p, x);
        proof {
            assert(views(r@) =~= before.insert(p as int, x@));
            assert forall|a: int, b: int| 0 <= a < b < views(r@).len() implies #[trigger] text_order()(
                views(r@)[a],
                views(r@)[b],
            ) by {
                if a < p && b == p {
                } else if a == p {
                } else if a < p && b > p {
                    assert(views(r@)[b] == before[b - 1]);
                    lemma_text_le_transitive(before[a], x@, before[b - 1]);
                } else if b < p {
                    assert(text_order()(before[a], before[b]));
                } else {
                    assert(text_order()(before[a - 1], before[b - 1]));
                }
            }
            assert(all.take(i + 1) =~= all.take(i as int).push(all[i as int]));
            assert(all[i as int] == x@);
        }
        i = i + 1;
    }
    assert(all.take(rest@.len() as int) =~= all);
    r
}

} // verus!
