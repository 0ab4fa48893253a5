//! Bitget spot `books1` streams.

use crate::decoder::utils::{find_named, symbol_named};
use crate::exchange::Exchange;
use crate::json::{bool_member, json_bool, json_get, json_str, json_view, json_views, member, str_member_is, Json, JsonView};
use crate::stream::supported_pair::SupportedPair;
use crate::stream::{plan_batches, planned_batches, ticker_views, SubscriptionPlan};
use vstd::prelude::*;

verus! {

/// Bitget's order-book stream.
#[derive(Clone, Copy)]
pub struct BitgetOrderBookStream;

impl SubscriptionPlan for BitgetOrderBookStream {
    open spec fn entry_view(&self, ticker: Seq<char>) -> JsonView {
        JsonView::Object(
            seq![
                ("instType"@, JsonView::Str("SPOT"@)),
                ("channel"@, JsonView::Str("books1"@)),
                ("instId"@, JsonView::Str(ticker + "USDT"@)),
            ],
        )
    }

    open spec fn batch_view(&self, k: int, entries: Seq<JsonView>, last: Seq<char>, full: bool) -> JsonView {
        JsonView::Object(seq![("op"@, JsonView::Str("subscribe"@)), ("args"@, JsonView::Array(entries))])
    }

    fn entry(&self, ticker: &String) -> (j: Json) {
        let mut m: Vec<(String, Json)> = Vec::new();
        m.push(member("instType", Json::text("SPOT")));
        m.push(member("channel", Json::text("books1")));
        m.push(member("instId", Json::Str(ticker.clone().concat("USDT"))));
        let j = Json::object(m);
        assert(json_view(j)->Object_0 =~= self.entry_view(ticker@)->Object_0);
        j
    }

    fn batch(&self, k: usize, entries: Vec<Json>, last: &String, full: bool) -> (j: Json) {
        let mut members: Vec<(String, Json)> = Vec::new();
        members.push(member("op", Json::text("subscribe")));
        members.push(member("args", Json::array(entries)));
        let j = Json::object(members);
        assert(json_view(j) == self.batch_view(k as int, json_views(entries@), last@, full)) by {
            assert(json_view(j)->Object_0 =~= self.batch_view(k as int, json_views(entries@), last@, full)->Object_0);
        }
        j
    }
}

impl SupportedPair for BitgetOrderBookStream {
    open spec fn accepts(value: Json) -> bool {
        &&& json_str(json_get(value, "state"@)) == Some("online"@)
        &&& json_str(json_get(value, "quoteCoin"@)) == Some("USDT"@)
        &&& json_str(json_get(value, "baseCoin"@)) matches Some(base) && symbol_named(base) is Some
    }

    fn filter(value: &Json) -> (r: bool) {
        if !str_member_is(value, "state", "online") {
            return false;
        }
        if !str_member_is(value, "quoteCoin", "USDT") {
            return false;
        }
        match value.get("baseCoin") {
            Some(v) => match v.as_str() {
                Some(base) => find_named(base).is_some(),
                None => false,
            },
            None => false,
        }
    }

    fn exchange() -> (e: Exchange)
        ensures
            e == Exchange::Bitget,
    {
        Exchange::Bitget
    }

    fn get_rest_url() -> (u: String)
        ensures
            u@ == "https://api.bitget.com/api/v2/spot/public/symbols"@,
    {
        String::from_str("https://api.bitget.com/api/v2/spot/public/symbols")
    }
}

impl BitgetOrderBookStream {
    /// The exchange this stream reads.
    pub fn exchange() -> (e: Exchange)
        ensures
            e == Exchange::Bitget,
    {
        Exchange::Bitget
    }

    /// The websocket address.
    pub fn get_ws_url() -> (u: String)
        ensures
            u@ == "wss://ws.bitget.com/v2/ws/public"@,
    {
        String::from_str("wss://ws.bitget.com/v2/ws/public")
    }

    /// The subscription messages for the listed tickers.
    pub fn get_batches(tickers: &Vec<String>) -> (r: Vec<Json>)
        ensures
            json_views(r@) == planned_batches(BitgetOrderBookStream, ticker_views(tickers@)),
    {
        plan_batches(&BitgetOrderBookStream, tickers)
    }
}


/// Bitget offers an instrument for subscription exactly when its state is `online`, its quote coin is USDT and its base coin
/// names a tracked symbol.
pub proof fn lemma_bitget_accepts(value: Json)
    ensures
        <BitgetOrderBookStream as SupportedPair>::accepts(value) <==> (
            json_str(json_get(value, "state"@)) == Some("online"@)
            && json_str(json_get(value, "quoteCoin"@)) == Some("USDT"@)
            && (json_str(json_get(value, "baseCoin"@)) matches Some(b) && symbol_named(b) is Some)),
{
}
} // verus!
