//! Bybit spot `orderbook.1` streams.

use crate::decoder::utils::{find_named, symbol_named};
use crate::exchange::Exchange;
use crate::json::{bool_member, json_bool, json_get, json_str, json_view, json_views, member, str_member_is, Json, JsonView};
use crate::stream::supported_pair::SupportedPair;
use crate::stream::{plan_batches, planned_batches, ticker_views, SubscriptionPlan};
use vstd::prelude::*;

verus! {

/// Bybit's order-book stream.
#[derive(Clone, Copy)]
pub struct BybitOrderBookStream;

impl SubscriptionPlan for BybitOrderBookStream {
    open spec fn entry_view(&self, ticker: Seq<char>) -> JsonView {
        JsonView::Str("orderbook.1."@ + ticker + "USDT"@)
    }

    open spec fn batch_view(&self, k: int, entries: Seq<JsonView>, last: Seq<char>, full: bool) -> JsonView {
        JsonView::Object(seq![("op"@, JsonView::Str("subscribe"@)), ("args"@, JsonView::Array(entries))])
    }

    fn entry(&self, ticker: &String) -> (j: Json) {
        Json::Str(String::from_str("orderbook.1.").concat(ticker.as_str()).concat("USDT"))
    }

    fn batch(&self, k: usize, entries: Vec<Json>, last: &String, full: bool) -> (j: Json) {
        let mut members: Vec<(String, Json)> = Vec::new();
        members.push(member("op", Json::text("subscribe")));
        members.push(member("args", Json::array(entries)));
        let j = Json::object(members);
        assert(json_view(j) == self.batch_view(k as int, json_views(entries@), last@, full)) by {
            assert(json_view(j)->Object_0 =~= self.batch_view(k as int, json_views(entries@), last@, full)->Object_0);
        }
        j
    }
}

impl SupportedPair for BybitOrderBookStream {
    open spec fn accepts(value: Json) -> bool {
        &&& json_str(json_get(value, "status"@)) == Some("Trading"@)
        &&& json_str(json_get(value, "quoteCoin"@)) == Some("USDT"@)
        &&& json_str(json_get(value, "baseCoin"@)) matches Some(base) && symbol_named(base) is Some
    }

    fn filter(value: &Json) -> (r: bool) {
        if !str_member_is(value, "status", "Trading") {
            return false;
        }
        if !str_member_is(value, "quoteCoin", "USDT") {
            return false;
        }
        match value.get("baseCoin") {
            Some(v) => match v.as_str() {
                Some(base) => find_named(base).is_some(),
                None => false,
            },
            None => false,
        }
    }

    fn exchange() -> (e: Exchange)
        ensures
            e == Exchange::Bybit,
    {
        Exchange::Bybit
    }

    fn get_rest_url() -> (u: String)
        ensures
            u@ == "https://api.bybit.com/v5/market/instruments-info?category=spot"@,
    {
        String::from_str("https://api.bybit.com/v5/market/instruments-info?category=spot")
    }
}

impl BybitOrderBookStream {
    /// The exchange this stream reads.
    pub fn exchange() -> (e: Exchange)
        ensures
            e == Exchange::Bybit,
    {
        Exchange::Bybit
    }

    /// The websocket address.
    pub fn get_ws_url() -> (u: String)
        ensures
            u@ == "wss://stream.bybit.com/v5/public/spot"@,
    {
        String::from_str("wss://stream.bybit.com/v5/public/spot")
    }

    /// The subscription messages for the listed tickers.
    pub fn get_batches(tickers: &Vec<String>) -> (r: Vec<Json>)
        ensures
            json_views(r@) == planned_batches(BybitOrderBookStream, ticker_views(tickers@)),
    {
        plan_batches(&BybitOrderBookStream, tickers)
    }
}


/// Bybit offers an instrument for subscription exactly when its status is `Trading`, its quote coin is USDT and its base coin
/// names a tracked symbol.
pub proof fn lemma_bybit_accepts(value: Json)
    ensures
        <BybitOrderBookStream as SupportedPair>::accepts(value) <==> (
            json_str(json_get(value, "status"@)) == Some("Trading"@)
            && json_str(json_get(value, "quoteCoin"@)) == Some("USDT"@)
            && (json_str(json_get(value, "baseCoin"@)) matches Some(b) && symbol_named(b) is Some)),
{
}
} // verus!
