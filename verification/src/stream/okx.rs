//! OKX spot `bbo-tbt` streams.

use crate::decoder::utils::{find_named, symbol_named};
use crate::exchange::Exchange;
use crate::json::{bool_member, json_bool, json_get, json_str, json_view, json_views, member, str_member_is, Json, JsonView};
use crate::stream::supported_pair::SupportedPair;
use crate::stream::{plan_batches, planned_batches, ticker_views, SubscriptionPlan};
use vstd::prelude::*;

verus! {

/// Okx's order-book stream.
#[derive(Clone, Copy)]
pub struct OkxOrderBookStream;

impl SubscriptionPlan for OkxOrderBookStream {
    open spec fn entry_view(&self, ticker: Seq<char>) -> JsonView {
        JsonView::Object(
            seq![
                ("channel"@, JsonView::Str("bbo-tbt"@)),
                ("instId"@, JsonView::Str(ticker + "-USDT"@)),
            ],
        )
    }

    open spec fn batch_view(&self, k: int, entries: Seq<JsonView>, last: Seq<char>, full: bool) -> JsonView {
        JsonView::Object(seq![("op"@, JsonView::Str("subscribe"@)), ("args"@, JsonView::Array(entries))])
    }

    fn entry(&self, ticker: &String) -> (j: Json) {
        let mut m: Vec<(String, Json)> = Vec::new();
        m.push(member("channel", Json::text("bbo-tbt")));
        m.push(member("instId", Json::Str(ticker.clone().concat("-USDT"))));
        let j = Json::object(m);
        assert(json_view(j)->Object_0 =~= self.entry_view(ticker@)->Object_0);
        j
    }

    fn batch(&self, k: usize, entries: Vec<Json>, last: &String, full: bool) -> (j: Json) {
        let mut members: Vec<(String, Json)> = Vec::new();
        members.push(member("op", Json::text("subscribe")));
        members.push(member("args", Json::array(entries)));
        let j = Json::object(members);
        assert(json_view(j) == self.batch_view(k as int, json_views(entries@), last@, full)) by {
            assert(json_view(j)->Object_0 =~= self.batch_view(k as int, json_views(entries@), last@, full)->Object_0);
        }
        j
    }
}

impl SupportedPair for OkxOrderBookStream {
    open spec fn accepts(value: Json) -> bool {
        &&& json_str(json_get(value, "state"@)) == Some("live"@)
        &&& json_str(json_get(value, "ruleType"@)) == Some("normal"@)
        &&& json_str(json_get(value, "quoteCcy"@)) == Some("USDT"@)
        &&& json_str(json_get(value, "baseCcy"@)) matches Some(base) && symbol_named(base) is Some
    }

    fn filter(value: &Json) -> (r: bool) {
        if !str_member_is(value, "state", "live") {
            return false;
        }
        if !str_member_is(value, "ruleType", "normal") {
            return false;
        }
        if !str_member_is(value, "quoteCcy", "USDT") {
            return false;
        }
        match value.get("baseCcy") {
            Some(v) => match v.as_str() {
                Some(base) => find_named(base).is_some(),
                None => false,
            },
            None => false,
        }
    }

    fn exchange() -> (e: Exchange)
        ensures
            e == Exchange::Okx,
    {
        Exchange::Okx
    }

    fn get_rest_url() -> (u: String)
        ensures
            u@ == "https://www.okx.com/api/v5/public/instruments?instType=SPOT"@,
    {
        String::from_str("https://www.okx.com/api/v5/public/instruments?instType=SPOT")
    }
}

impl OkxOrderBookStream {
    /// The exchange this stream reads.
    pub fn exchange() -> (e: Exchange)
        ensures
            e == Exchange::Okx,
    {
        Exchange::Okx
    }

    /// The websocket address.
    pub fn get_ws_url() -> (u: String)
        ensures
            u@ == "wss://ws.okx.com:8443/ws/v5/public"@,
    {
        String::from_str("wss://ws.okx.com:8443/ws/v5/public")
    }

    /// The subscription messages for the listed tickers.
    pub fn get_batches(tickers: &Vec<String>) -> (r: Vec<Json>)
        ensures
            json_views(r@) == planned_batches(OkxOrderBookStream, ticker_views(tickers@)),
    {
        plan_batches(&OkxOrderBookStream, tickers)
    }
}


/// Okx offers an instrument for subscription exactly when its state is `live`, its rule type is `normal`, its quote currency is USDT and its base currency
/// names a tracked symbol.
pub proof fn lemma_okx_accepts(value: Json)
    ensures
        <OkxOrderBookStream as SupportedPair>::accepts(value) <==> (
            json_str(json_get(value, "state"@)) == Some("live"@)
            && json_str(json_get(value, "ruleType"@)) == Some("normal"@)
            && json_str(json_get(value, "quoteCcy"@)) == Some("USDT"@)
            && (json_str(json_get(value, "baseCcy"@)) matches Some(b) && symbol_named(b) is Some)),
{
}
} // verus!
