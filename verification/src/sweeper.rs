//! The expiry sweep: which shares a sweep cycle removes.
//!
//! On a fixed interval the sweeper asks the share store for its records,
//! splits them into expired and live ones, and has the store drop the
//! expired records and their backing files.  The store calls and the file
//! deletions are I/O and happen outside the engine; this module fixes
//! exactly which shares may go.

use vstd::prelude::*;

use crate::share::Share;

verus! {

/// Split the store's records at time `now`: the first vector holds every
/// share whose expiry lies strictly before `now`, the second every other
/// share, each exactly as often as it occurred and in its original order.
pub fn partition_expired(shares: Vec<Share>, now: u64) -> (r: (Vec<Share>, Vec<Share>))
    ensures
        r.0@ == shares@.filter(|s: Share| s@.is_expired(now)),
        r.1@ == shares@.filter(|s: Share| !s@.is_expired(now)),
{
    let ghost orig = shares@;
    let ghost expired_pred = |s: Share| s@.is_expired(now);
    let ghost live_pred = |s: Share| !s@.is_expired(now);
    let mut rest = shares;
    let mut expired: Vec<Share> = Vec::new();
    let mut live: Vec<Share> = Vec::new();
    let ghost mut seen: int = 0;
    proof {
        assert(orig.subrange(0, 0) =~= Seq::<Share>::empty());
        lemma_filter_empty(expired_pred);
        lemma_filter_empty(live_pred);
        assert(expired@ =~= Seq::<Share>::empty());
        assert(live@ =~= Seq::<Share>::empty());
        assert(rest@ =~= orig.subrange(0, orig.len() as int));
    }
    while rest.len() > 0
        invariant
            0 <= seen <= orig.len(),
            rest@ == orig.subrange(seen, orig.len() as int),
            expired@ == orig.subrange(0, seen).filter(expired_pred),
            live@ == orig.subrange(0, seen).filter(live_pred),
            expired_pred == (|s: Share| s@.is_expired(now)),
            live_pred == (|s: Share| !s@.is_expired(now)),
        decreases rest@.len(),
    {
        let s = rest.remove(0);
        proof {
            assert(orig.subrange(seen, orig.len() as int)[0] == orig[seen]);
            assert(rest@ =~= orig.subrange(seen + 1, orig.len() as int));
            lemma_filter_one_more(orig, seen, expired_pred);
            lemma_filter_one_more(orig, seen, live_pred);
        }
        if s.is_expired(now) {
            expired.push(s);
        } else {
            live.push(s);
        }
        proof {
            seen = seen + 1;
        }
    }
    proof {
        assert(orig.subrange(0, orig.len() as int) =~= orig);
    }
    (expired, live)
}

/// Filtering the empty sequence yields the empty sequence.
proof fn lemma_filter_empty(pred: spec_fn(Share) -> bool)
    ensures
        Seq::<Share>::empty().filter(pred) == Seq::<Share>::empty(),
{
    reveal(Seq::filter);
}

/// Taking one more element into the filtered prefix appends it exactly
/// when it satisfies the predicate.
proof fn lemma_filter_one_more(orig: Seq<Share>, seen: int, pred: spec_fn(Share) -> bool)
    requires
        0 <= seen < orig.len(),
    ensures
        orig.subrange(0, seen + 1).filter(pred) == if pred(orig[seen]) {
            orig.subrange(0, seen).filter(pred).push(orig[seen])
        } else {
            orig.subrange(0, seen).filter(pred)
        },
{
    let pre = orig.subrange(0, seen);
    let ext = orig.subrange(0, seen + 1);
    assert(ext =~= pre + seq![orig[seen]]);
    Seq::filter_distributes_over_add(pre, seq![orig[seen]], pred);
    reveal_with_fuel(Seq::filter, 2);
    assert(seq![orig[seen]].drop_last() =~= Seq::<Share>::empty());
    if pred(orig[seen]) {
        assert(seq![orig[seen]].filter(pred) =~= Seq::<Share>::empty().push(orig[seen]));
        assert(ext.filter(pred) =~= pre.filter(pred).push(orig[seen]));
    } else {
        assert(seq![orig[seen]].filter(pred) =~= Seq::<Share>::empty());
        assert(ext.filter(pred) =~= pre.filter(pred));
    }
}

/// One sweep removes every expired share exactly once and no live one:
/// the two halves of the partition put together carry the store's records
/// with their exact multiplicities, every removed share is expired, and
/// every kept share is not.
pub proof fn lemma_sweep_removes_exactly_expired(shares: Seq<Share>, now: u64)
    ensures
        ({
            let removed = shares.filter(|s: Share| s@.is_expired(now));
            let kept = shares.filter(|s: Share| !s@.is_expired(now));
            &&& forall|i: int|
                0 <= i < removed.len() ==> (#[trigger] removed[i])@.is_expired(now)
            &&& forall|i: int| 0 <= i < kept.len() ==> !(#[trigger] kept[i])@.is_expired(now)
            &&& removed.to_multiset().add(kept.to_multiset()) == shares.to_multiset()
        }),
{
    let expired_pred = |s: Share| s@.is_expired(now);
    let live_pred = |s: Share| !s@.is_expired(now);
    let removed = shares.filter(expired_pred);
    let kept = shares.filter(live_pred);
    assert forall|i: int| 0 <= i < removed.len() implies (#[trigger] removed[i])@.is_expired(
        now,
    ) by {
        shares.lemma_filter_pred(expired_pred, i);
    }
    assert forall|i: int| 0 <= i < kept.len() implies !(#[trigger] kept[i])@.is_expired(now) by {
        shares.lemma_filter_pred(live_pred, i);
    }
    lemma_partition_preserves_multiset(shares, expired_pred);
    assert(forall|s: Share| #[trigger] live_pred(s) == !expired_pred(s));
    assert(shares.filter(live_pred) == shares.filter(|s: Share| !expired_pred(s))) by {
        lemma_filter_congruence(shares, live_pred, |s: Share| !expired_pred(s));
    }
}

/// Filtering with one predicate and with its negation splits a sequence
/// into two parts that together carry its exact multiplicities.
proof fn lemma_partition_preserves_multiset(s: Seq<Share>, pred: spec_fn(Share) -> bool)
    ensures
        s.filter(pred).to_multiset().add(
            s.filter(|x: Share| !pred(x)).to_multiset(),
        ) == s.to_multiset(),
    decreases s.len(),
{
    broadcast use vstd::seq_lib::group_to_multiset_ensures;

    reveal(Seq::filter);
    let neg = |x: Share| !pred(x);
    if s.len() == 0 {
        assert(s.filter(pred) =~= Seq::<Share>::empty());
        assert(s.filter(neg) =~= Seq::<Share>::empty());
        assert(s.filter(pred).to_multiset().add(s.filter(neg).to_multiset()) =~= s.to_multiset());
    } else {
        let pre = s.drop_last();
        let last = s.last();
        lemma_partition_preserves_multiset(pre, pred);
        assert(pre.push(last) =~= s);
        assert(s.to_multiset() =~= pre.to_multiset().insert(last));
        if pred(last) {
            assert(s.filter(pred) =~= pre.filter(pred).push(last));
            assert(s.filter(neg) =~= pre.filter(neg));
            assert(s.filter(pred).to_multiset() =~= pre.filter(pred).to_multiset().insert(last));
            assert(s.filter(pred).to_multiset().add(s.filter(neg).to_multiset())
                =~= pre.filter(pred).to_multiset().add(pre.filter(neg).to_multiset()).insert(
                last,
            ));
        } else {
            assert(s.filter(neg) =~= pre.filter(neg).push(last));
            assert(s.filter(pred) =~= pre.filter(pred));
            assert(s.filter(neg).to_multiset() =~= pre.filter(neg).to_multiset().insert(last));
            assert(s.filter(pred).to_multiset().add(s.filter(neg).to_multiset())
                =~= pre.filter(pred).to_multiset().add(pre.filter(neg).to_multiset()).insert(
                last,
            ));
        }
    }
}

/// Two pointwise equal predicates filter a sequence to the same result.
proof fn lemma_filter_congruence(s: Seq<Share>, p: spec_fn(Share) -> bool, q: spec_fn(Share) -> bool)
    requires
        forall|x: Share| #[trigger] p(x) == q(x),
    ensures
        s.filter(p) == s.filter(q),
    decreases s.len(),
{
    reveal(Seq::filter);
    if s.len() > 0 {
        lemma_filter_congruence(s.drop_last(), p, q);
    }
}

} // verus!
