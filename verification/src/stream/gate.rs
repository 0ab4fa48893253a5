//! Gate spot `spot.book_ticker` streams.

use crate::decoder::utils::{find_named, symbol_named};
use crate::exchange::Exchange;
use crate::json::{bool_member, json_bool, json_get, json_str, json_view, json_views, member, str_member_is, Json, JsonView};
use crate::stream::supported_pair::SupportedPair;
use crate::stream::{batch_count, plan_batches, planned_batches, ticker_views, SubscriptionPlan};
use crate::text::u64_text;
use vstd::prelude::*;

verus! {

/// Gate's order-book stream.
#[derive(Clone, Copy)]
pub struct GateOrderBookStream;

/// Gate's subscription messages, each stamped with the time it is made.
pub struct GateSubscription {
    /// The time stamped on each message, by batch; a batch past the end is
    /// stamped 0.
    pub times: Vec<u64>,
}

impl GateSubscription {
    /// The time stamped on batch `k`.
    pub open spec fn time_at(&self, k: int) -> u64 {
        if 0 <= k < self.times@.len() {
            self.times@[k]
        } else {
            0
        }
    }
}

impl SubscriptionPlan for GateSubscription {
    open spec fn entry_view(&self, ticker: Seq<char>) -> JsonView {
        JsonView::Str(ticker + "_USDT"@)
    }

    open spec fn batch_view(&self, k: int, entries: Seq<JsonView>, last: Seq<char>, full: bool) -> JsonView {
        JsonView::Object(
            seq![
                ("time"@, JsonView::Number(u64_text(self.time_at(k)))),
                ("channel"@, JsonView::Str("spot.book_ticker"@)),
                ("event"@, JsonView::Str("subscribe"@)),
                ("payload"@, JsonView::Array(entries)),
            ],
        )
    }

    fn entry(&self, ticker: &String) -> (j: Json) {
        Json::Str(ticker.clone().concat("_USDT"))
    }

    fn batch(&self, k: usize, entries: Vec<Json>, last: &String, full: bool) -> (j: Json) {
        let mut members: Vec<(String, Json)> = Vec::new();
        let time = if k < self.times.len() { self.times[k] } else { 0 };
        members.push(member("time", Json::unsigned(time)));
        members.push(member("channel", Json::text("spot.book_ticker")));
        members.push(member("event", Json::text("subscribe")));
        members.push(member("payload", Json::array(entries)));
        let j = Json::object(members);
        assert(json_view(j) == self.batch_view(k as int, json_views(entries@), last@, full)) by {
            assert(json_view(j)->Object_0 =~= self.batch_view(k as int, json_views(entries@), last@, full)->Object_0);
        }
        j
    }
}

impl SupportedPair for GateOrderBookStream {
    open spec fn accepts(value: Json) -> bool {
        &&& json_str(json_get(value, "trade_status"@)) == Some("tradable"@)
        &&& json_str(json_get(value, "quote"@)) == Some("USDT"@)
        &&& json_str(json_get(value, "base"@)) matches Some(base) && symbol_named(base) is Some
    }

    fn filter(value: &Json) -> (r: bool) {
        if !str_member_is(value, "trade_status", "tradable") {
            return false;
        }
        if !str_member_is(value, "quote", "USDT") {
            return false;
        }
        match value.get("base") {
            Some(v) => match v.as_str() {
                Some(base) => find_named(base).is_some(),
                None => false,
            },
            None => false,
        }
    }

    fn exchange() -> (e: Exchange)
        ensures
            e == Exchange::Gate,
    {
        Exchange::Gate
    }

    fn get_rest_url() -> (u: String)
        ensures
            u@ == "https://api.gateio.ws/api/v4/spot/currency_pairs"@,
    {
        String::from_str("https://api.gateio.ws/api/v4/spot/currency_pairs")
    }
}

impl GateOrderBookStream {
    /// The exchange this stream reads.
    pub fn exchange() -> (e: Exchange)
        ensures
            e == Exchange::Gate,
    {
        Exchange::Gate
    }

    /// The websocket address.
    pub fn get_ws_url() -> (u: String)
        ensures
            u@ == "wss://api.gateio.ws/ws/v4/"@,
    {
        String::from_str("wss://api.gateio.ws/ws/v4/")
    }

    /// The subscription messages for the listed tickers, batch `k` stamped
    /// with `times[k]`.
    pub fn get_batches_at(tickers: &Vec<String>, times: Vec<u64>) -> (r: Vec<Json>)
        requires
            times@.len() >= batch_count(tickers@.len() as int),
        ensures
            json_views(r@) == planned_batches(GateSubscription { times }, ticker_views(tickers@)),
    {
        plan_batches(&GateSubscription { times }, tickers)
    }

    /// The subscription messages for the listed tickers, each stamped with a
    /// reading of `clock` taken for it: one reading per batch, in order.
    pub fn get_batches<F: Fn() -> u64>(tickers: &Vec<String>, clock: &F) -> (r: Vec<Json>)
        requires
            call_requires(*clock, ()),
        ensures
            exists|plan: GateSubscription| {
                &&& plan.times@.len() == batch_count(tickers@.len() as int)
                &&& forall|k: int| 0 <= k < plan.times@.len() ==> call_ensures(*clock, (), #[trigger] plan.times@[k])
                &&& json_views(r@) == planned_batches(plan, ticker_views(tickers@))
            },
    {
        let n = tickers.len();
        let count = n / 10 + if n % 10 != 0 { 1 } else { 0 };
        let mut times: Vec<u64> = Vec::new();
        let mut k: usize = 0;
        while k < count
            invariant
                k <= count,
                times@.len() == k,
                call_requires(*clock, ()),
                forall|m: int| 0 <= m < k ==> call_ensures(*clock, (), #[trigger] times@[m]),
            decreases count - k,
        {
            let t = clock();
            times.push(t);
            k = k + 1;
        }
        let plan = GateSubscription { times };
        let r = plan_batches(&plan, tickers);
        assert(count == batch_count(n as int));
        assert(plan.times@.len() == batch_count(tickers@.len() as int));
        r
    }
}


/// Gate offers an instrument for subscription exactly when its trade status is `tradable`, its quote is USDT and its base
/// names a tracked symbol.
pub proof fn lemma_gate_accepts(value: Json)
    ensures
        <GateOrderBookStream as SupportedPair>::accepts(value) <==> (
            json_str(json_get(value, "trade_status"@)) == Some("tradable"@)
            && json_str(json_get(value, "quote"@)) == Some("USDT"@)
            && (json_str(json_get(value, "base"@)) matches Some(b) && symbol_named(b) is Some)),
{
}
} // verus!
