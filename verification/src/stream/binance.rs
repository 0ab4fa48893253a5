//! Binance spot `bookTicker` streams.

use crate::decoder::utils::{find_named, symbol_named};
use crate::exchange::Exchange;
use crate::json::{bool_member, json_bool, json_get, json_str, json_view, json_views, member, str_member_is, Json, JsonView};
use crate::stream::supported_pair::SupportedPair;
use crate::stream::{plan_batches, planned_batches, ticker_views, SubscriptionPlan};
use crate::text::{to_lowercase, u64_text, unicode_lower};
use vstd::prelude::*;

verus! {

/// Binance's order-book stream.
#[derive(Clone, Copy)]
pub struct BinanceOrderBookStream;

impl SubscriptionPlan for BinanceOrderBookStream {
    open spec fn entry_view(&self, ticker: Seq<char>) -> JsonView {
        JsonView::Str(unicode_lower(ticker) + "usdt@bookTicker"@)
    }

    open spec fn batch_view(&self, k: int, entries: Seq<JsonView>, last: Seq<char>, full: bool) -> JsonView {
        JsonView::Object(
            seq![
                ("method"@, JsonView::Str("SUBSCRIBE"@)),
                ("params"@, JsonView::Array(entries)),
                ("id"@, if full { JsonView::Str(last) } else { JsonView::Number(u64_text(1)) }),
            ],
        )
    }

    fn entry(&self, ticker: &String) -> (j: Json) {
        let low = to_lowercase(ticker.as_str());
        Json::Str(low.concat("usdt@bookTicker"))
    }

    fn batch(&self, k: usize, entries: Vec<Json>, last: &String, full: bool) -> (j: Json) {
        let id = if full { Json::string(last) } else { Json::unsigned(1) };
        let mut members: Vec<(String, Json)> = Vec::new();
        members.push(member("method", Json::text("SUBSCRIBE")));
        members.push(member("params", Json::array(entries)));
        members.push(member("id", id));
        let j = Json::object(members);
        assert(json_view(j) == self.batch_view(k as int, json_views(entries@), last@, full)) by {
            assert(json_view(j)->Object_0 =~= self.batch_view(k as int, json_views(entries@), last@, full)->Object_0);
        }
        j
    }
}

impl SupportedPair for BinanceOrderBookStream {
    open spec fn accepts(value: Json) -> bool {
        &&& json_str(json_get(value, "status"@)) == Some("TRADING"@)
        &&& json_bool(json_get(value, "isSpotTradingAllowed"@)) == Some(true)
        &&& json_str(json_get(value, "quoteAsset"@)) == Some("USDT"@)
        &&& json_str(json_get(value, "baseAsset"@)) matches Some(base) && symbol_named(base) is Some
    }

    fn filter(value: &Json) -> (r: bool) {
        if !str_member_is(value, "status", "TRADING") {
            return false;
        }
        if bool_member(value, "isSpotTradingAllowed") != Some(true) {
            return false;
        }
        if !str_member_is(value, "quoteAsset", "USDT") {
            return false;
        }
        match value.get("baseAsset") {
            Some(v) => match v.as_str() {
                Some(base) => find_named(base).is_some(),
                None => false,
            },
            None => false,
        }
    }

    fn exchange() -> (e: Exchange)
        ensures
            e == Exchange::Binance,
    {
        Exchange::Binance
    }

    fn get_rest_url() -> (u: String)
        ensures
            u@ == "https://api.binance.com/api/v3/exchangeInfo"@,
    {
        String::from_str("https://api.binance.com/api/v3/exchangeInfo")
    }
}

impl BinanceOrderBookStream {
    /// The exchange this stream reads.
    pub fn exchange() -> (e: Exchange)
        ensures
            e == Exchange::Binance,
    {
        Exchange::Binance
    }

    /// The websocket address.
    pub fn get_ws_url() -> (u: String)
        ensures
            u@ == "wss://stream.binance.com:9443/ws"@,
    {
        String::from_str("wss://stream.binance.com:9443/ws")
    }

    /// The subscription messages for the listed tickers.
    pub fn get_batches(tickers: &Vec<String>) -> (r: Vec<Json>)
        ensures
            json_views(r@) == planned_batches(BinanceOrderBookStream, ticker_views(tickers@)),
    {
        plan_batches(&BinanceOrderBookStream, tickers)
    }
}


/// Binance offers an instrument for subscription exactly when its status is `TRADING`, spot trading is allowed, its quote asset is USDT and its base asset
/// names a tracked symbol.
pub proof fn lemma_binance_accepts(value: Json)
    ensures
        <BinanceOrderBookStream as SupportedPair>::accepts(value) <==> (
            json_str(json_get(value, "status"@)) == Some("TRADING"@)
            && json_bool(json_get(value, "isSpotTradingAllowed"@)) == Some(true)
            && json_str(json_get(value, "quoteAsset"@)) == Some("USDT"@)
            && (json_str(json_get(value, "baseAsset"@)) matches Some(b) && symbol_named(b) is Some)),
{
}
} // verus!
