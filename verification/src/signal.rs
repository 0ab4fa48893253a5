//! Ordering of the signals pushed to subscribers.

use crate::decimal::{lt, Dec};
use crate::dto::SignalDto;
use vstd::prelude::*;

verus! {

/// Whether a signal still pays after fees.
pub open spec fn is_profitable(s: SignalDto) -> bool {
    s.net_percent.value() > 0
}

/// The batch with the profitable signals first, each group keeping its
/// order (the stable sort by profitability).
pub open spec fn ordered_signals(batch: Seq<SignalDto>) -> Seq<SignalDto> {
    batch.filter(|s: SignalDto| is_profitable(s)) + batch.filter(|s: SignalDto| !is_profitable(s))
}

/// Orders a batch of signals: profitable ones first, each group in its
/// original order.
pub fn order_signals(batch: Vec<SignalDto>) -> (r: Vec<SignalDto>)
    requires
        forall|i: int| 0 <= i < batch@.len() ==> (#[trigger] batch@[i]).net_percent.wf(),
    ensures
        r@ == ordered_signals(batch@),
{
    let ghost orig = batch@;
    let ghost good = |s: SignalDto| is_profitable(s);
    let ghost bad = |s: SignalDto| !is_profitable(s);
    let n = batch.len();
    let mut rest = batch;
    let mut first: Vec<SignalDto> = Vec::new();
    let mut second: Vec<SignalDto> = Vec::new();
    let mut k: usize = 0;
    proof { reveal_with_fuel(Seq::<_>::filter, 1); }
    assert(orig.take(0).filter(good) =~= Seq::<SignalDto>::empty());
    assert(orig.take(0).filter(bad) =~= Seq::<SignalDto>::empty());
    while rest.len() > 0
        invariant
            k <= orig.len(),
            orig.len() == n,
            rest@ == orig.skip(k as int),
            first@ == orig.take(k as int).filter(good),
            second@ == orig.take(k as int).filter(bad),
            good == (|s: SignalDto| is_profitable(s)),
            bad == (|s: SignalDto| !is_profitable(s)),
            forall|i: int| 0 <= i < orig.len() ==> (#[trigger] orig[i]).net_percent.wf(),
        decreases rest@.len(),
    {
        assert(orig.skip(k as int).len() > 0);
        let s = rest.remove(0);
        assert(orig[k as int] == s);
        assert(orig.take(k + 1) =~= orig.take(k as int).push(s));
        proof {
            orig.take(k as int).lemma_filter_push(s, good);
            orig.take(k as int).lemma_filter_push(s, bad);
        }
        if lt(Dec::zero(), s.net_percent) {
            first.push(s);
        } else {
            second.push(s);
        }
        assert(rest@ =~= orig.skip(k + 1));
        k = k + 1;
    }
    assert(orig.take(k as int) =~= orig);
    first.append(&mut second);
    first
}

/// Ordering a batch keeps every signal: the profitable and the other ones
/// together are as many as the batch, and each signal of the result comes
/// from the batch.
pub proof fn lemma_ordered_signals_keeps_all(batch: Seq<SignalDto>)
    ensures
        ordered_signals(batch).len() == batch.len(),
        forall|i: int| 0 <= i < ordered_signals(batch).len() ==> batch.contains(#[trigger] ordered_signals(batch)[i]),
    decreases batch.len(),
{
    let good = |s: SignalDto| is_profitable(s);
    let bad = |s: SignalDto| !is_profitable(s);
    lemma_filters_split(batch, good, bad);
    assert forall|i: int| 0 <= i < ordered_signals(batch).len() implies batch.contains(#[trigger] ordered_signals(batch)[i]) by {
        let g = batch.filter(good);
        if i < g.len() {
            batch.lemma_filter_contains_rev(good, g[i]);
            assert(g.contains(g[i]));
        } else {
            let b = batch.filter(bad);
            assert(b.contains(b[i - g.len()]));
            batch.lemma_filter_contains_rev(bad, b[i - g.len()]);
        }
    };
}

/// In an ordered batch no signal that loses or breaks even after fees
/// comes before one that pays: whenever a later signal's net spread is
/// positive, so is every earlier one's.
pub proof fn lemma_profitable_first(batch: Seq<SignalDto>)
    ensures
        forall|i: int, j: int|
            0 <= i < j < ordered_signals(batch).len() && (#[trigger] ordered_signals(batch)[j]).net_percent.value() > 0
                ==> (#[trigger] ordered_signals(batch)[i]).net_percent.value() > 0,
{
    let good = |s: SignalDto| is_profitable(s);
    let bad = |s: SignalDto| !is_profitable(s);
    let g = batch.filter(good);
    let b = batch.filter(bad);
    let r = ordered_signals(batch);
    assert forall|i: int, j: int|
        0 <= i < j < r.len() && (#[trigger] r[j]).net_percent.value() > 0 implies (#[trigger] r[i]).net_percent.value() > 0 by {
        if j >= g.len() {
            batch.lemma_filter_pred(bad, j - g.len());
            assert(r[j] == b[j - g.len()]);
        } else {
            batch.lemma_filter_pred(good, i);
            assert(r[i] == g[i]);
        }
    }
}

/// A predicate and its negation split a sequence's length.
proof fn lemma_filters_split(s: Seq<SignalDto>, good: spec_fn(SignalDto) -> bool, bad: spec_fn(SignalDto) -> bool)
    requires
        forall|x: SignalDto| #[trigger] good(x) == !bad(x),
    ensures
        s.filter(good).len() + s.filter(bad).len() == s.len(),
    decreases s.len(),
{
    reveal_with_fuel(Seq::<_>::filter, 1);
    if s.len() > 0 {
        lemma_filters_split(s.drop_last(), good, bad);
    }
}

} // verus!
