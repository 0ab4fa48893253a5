//! Subscription planning for the exchange streams: which tickers an
//! exchange lists, and the subscription messages sent for them, at most
//! `COUNT_PER_SUBSCRIBE` tickers per message.

pub mod supported_pair;
pub mod base_order_book;
pub mod binance;
pub mod bitget;
pub mod bybit;
pub mod gate;
pub mod htx;
pub mod mexc;
pub mod order_book;
pub mod okx;

use crate::json::{json_view, json_views, Json, JsonView};
use vstd::prelude::*;

verus! {

/// The number of tickers one subscription message carries at most.
pub const COUNT_PER_SUBSCRIBE: usize = 10;

/// How an exchange writes one ticker's subscription entry and a message of
/// entries.
pub trait SubscriptionPlan {
    /// The entry for one ticker.
    spec fn entry_view(&self, ticker: Seq<char>) -> JsonView;

    /// The message for batch `k`, of these entries; `last` is the batch's
    /// last ticker and `full` whether the batch holds `COUNT_PER_SUBSCRIBE`.
    spec fn batch_view(&self, k: int, entries: Seq<JsonView>, last: Seq<char>, full: bool) -> JsonView;

    /// The entry for one ticker.
    fn entry(&self, ticker: &String) -> (j: Json)
        ensures
            json_view(j) == self.entry_view(ticker@);

    /// The message for a batch of entries.
    fn batch(&self, k: usize, entries: Vec<Json>, last: &String, full: bool) -> (j: Json)
        ensures
            json_view(j) == self.batch_view(k as int, json_views(entries@), last@, full);
}

/// The texts of a list of tickers.
pub open spec fn ticker_views(tickers: Seq<String>) -> Seq<Seq<char>> {
    tickers.map_values(|s: String| s@)
}

/// The number of messages for `n` tickers.
pub open spec fn batch_count(n: int) -> int {
    (n + 9) / 10
}

/// The position just past batch `k` of `n` tickers.
pub open spec fn batch_end(n: int, k: int) -> int {
    if 10 * k + 10 <= n {
        10 * k + 10
    } else {
        n
    }
}

/// The tickers of batch `k`: positions `10k` up to `batch_end(n, k)`.
pub open spec fn batch_tickers(tickers: Seq<Seq<char>>, k: int) -> Seq<Seq<char>> {
    tickers.subrange(10 * k, batch_end(tickers.len() as int, k))
}

/// The messages for a list of tickers: the tickers split, in order, into
/// batches of `COUNT_PER_SUBSCRIBE` (the last one possibly shorter), each
/// batch's entries wrapped in one message.
pub open spec fn planned_batches<P: SubscriptionPlan>(plan: P, tickers: Seq<Seq<char>>) -> Seq<JsonView> {
    Seq::new(
        batch_count(tickers.len() as int) as nat,
        |k: int| {
            let chunk = batch_tickers(tickers, k);
            plan.batch_view(
                k,
                chunk.map_values(|t: Seq<char>| plan.entry_view(t)),
                chunk.last(),
                chunk.len() == COUNT_PER_SUBSCRIBE,
            )
        },
    )
}

/// The subscription messages for `tickers`, in order.
pub fn plan_batches<P: SubscriptionPlan>(plan: &P, tickers: &Vec<String>) -> (r: Vec<Json>)
    ensures
        json_views(r@) == planned_batches(*plan, ticker_views(tickers@)),
{
    let n = tickers.len();
    let ghost t = ticker_views(tickers@);
    let count = n / 10 + if n % 10 != 0 { 1 } else { 0 };
    assert(count == batch_count(n as int));
    let mut out: Vec<Json> = Vec::new();
    let mut k: usize = 0;
    while k < count
        invariant
            n == tickers@.len(),
            t == ticker_views(tickers@),
            count == batch_count(n as int),
            k <= count,
            out@.len() == k,
            forall|m: int| 0 <= m < k ==> json_view(#[trigger] out@[m]) == planned_batches(*plan, t)[m],
        decreases count - k,
    {
        let lo = 10 * k;
        let hi = if n - lo >= 10 { lo + 10 } else { n };
        assert(hi == batch_end(n as int, k as int));
        let mut entries: Vec<Json> = Vec::new();
        let mut i = lo;
        while i < hi
            invariant
                n == tickers@.len(),
                t == ticker_views(tickers@),
                lo <= i <= hi,
                hi <= n,
                entries@.len() == i - lo,
                forall|m: int| 0 <= m < i - lo ==> json_view(#[trigger] entries@[m]) == plan.entry_view(t[lo + m]),
            decreases hi - i,
        {
            let e = plan.entry(&tickers[i]);
            entries.push(e);
            i = i + 1;
        }
        let ghost chunk = batch_tickers(t, k as int);
        assert(json_views(entries@) =~= chunk.map_values(|x: Seq<char>| plan.entry_view(x)));
        let b = plan.batch(k, entries, &tickers[hi - 1], hi - lo == 10);
        assert(chunk.last() == tickers@[hi - 1]@);
        out.push(b);
        k = k + 1;
    }
    assert(json_views(out@) =~= planned_batches(*plan, t));
    out
}

/// Every batch but the last holds `COUNT_PER_SUBSCRIBE` tickers, the last
/// holds one to `COUNT_PER_SUBSCRIBE`, and the batches, joined in order,
/// give back the tickers: ticker `i` is entry `i % 10` of batch `i / 10`.
pub proof fn lemma_batches_partition(tickers: Seq<Seq<char>>)
    ensures
        forall|k: int| 0 <= k < batch_count(tickers.len() as int) ==> {
            &&& 1 <= (#[trigger] batch_tickers(tickers, k)).len() <= COUNT_PER_SUBSCRIBE
            &&& k < batch_count(tickers.len() as int) - 1 ==> batch_tickers(tickers, k).len() == COUNT_PER_SUBSCRIBE
        },
        forall|i: int| 0 <= i < tickers.len() ==> {
            &&& 0 <= i / 10 < batch_count(tickers.len() as int)
            &&& #[trigger] tickers[i] == batch_tickers(tickers, i / 10)[i % 10]
        },
{
}

} // verus!
