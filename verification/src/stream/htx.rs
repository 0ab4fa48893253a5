//! HTX spot `bbo` streams.

use crate::decoder::utils::{find_named, symbol_named};
use crate::exchange::Exchange;
use crate::json::{bool_member, json_bool, json_get, json_str, json_view, json_views, member, str_member_is, Json, JsonView};
use crate::stream::supported_pair::SupportedPair;
use crate::stream::{plan_batches, planned_batches, ticker_views, SubscriptionPlan};
use crate::text::{to_lowercase, unicode_lower};
use vstd::prelude::*;

verus! {

/// Htx's order-book stream.
#[derive(Clone, Copy)]
pub struct HtxOrderBookStream;

impl SubscriptionPlan for HtxOrderBookStream {
    open spec fn entry_view(&self, ticker: Seq<char>) -> JsonView {
        JsonView::Object(
            seq![
                ("sub"@, JsonView::Str("market."@ + unicode_lower(ticker) + "usdt.bbo"@)),
                ("id"@, JsonView::Str(unicode_lower(ticker) + "-bbo"@)),
            ],
        )
    }

    open spec fn batch_view(&self, k: int, entries: Seq<JsonView>, last: Seq<char>, full: bool) -> JsonView {
        JsonView::Object(seq![("batches"@, JsonView::Array(entries))])
    }

    fn entry(&self, ticker: &String) -> (j: Json) {
        let low = to_lowercase(ticker.as_str());
        let mut m: Vec<(String, Json)> = Vec::new();
        m.push(member("sub", Json::Str(String::from_str("market.").concat(low.as_str()).concat("usdt.bbo"))));
        m.push(member("id", Json::Str(low.concat("-bbo"))));
        let j = Json::object(m);
        assert(json_view(j)->Object_0 =~= self.entry_view(ticker@)->Object_0);
        j
    }

    fn batch(&self, k: usize, entries: Vec<Json>, last: &String, full: bool) -> (j: Json) {
        let mut members: Vec<(String, Json)> = Vec::new();
        members.push(member("batches", Json::array(entries)));
        let j = Json::object(members);
        assert(json_view(j) == self.batch_view(k as int, json_views(entries@), last@, full)) by {
            assert(json_view(j)->Object_0 =~= self.batch_view(k as int, json_views(entries@), last@, full)->Object_0);
        }
        j
    }
}

impl SupportedPair for HtxOrderBookStream {
    open spec fn accepts(value: Json) -> bool {
        &&& json_str(json_get(value, "state"@)) == Some("online"@)
        &&& json_bool(json_get(value, "te"@)) == Some(true)
        &&& json_str(json_get(value, "qcdn"@)) == Some("USDT"@)
        &&& json_str(json_get(value, "bcdn"@)) matches Some(base) && symbol_named(base) is Some
    }

    fn filter(value: &Json) -> (r: bool) {
        if !str_member_is(value, "state", "online") {
            return false;
        }
        if bool_member(value, "te") != Some(true) {
            return false;
        }
        if !str_member_is(value, "qcdn", "USDT") {
            return false;
        }
        match value.get("bcdn") {
            Some(v) => match v.as_str() {
                Some(base) => find_named(base).is_some(),
                None => false,
            },
            None => false,
        }
    }

    fn exchange() -> (e: Exchange)
        ensures
            e == Exchange::Htx,
    {
        Exchange::Htx
    }

    fn get_rest_url() -> (u: String)
        ensures
            u@ == "https://api.huobi.pro/v2/settings/common/symbols"@,
    {
        String::from_str("https://api.huobi.pro/v2/settings/common/symbols")
    }
}

impl HtxOrderBookStream {
    /// The exchange this stream reads.
    pub fn exchange() -> (e: Exchange)
        ensures
            e == Exchange::Htx,
    {
        Exchange::Htx
    }

    /// The websocket address.
    pub fn get_ws_url() -> (u: String)
        ensures
            u@ == "wss://api.huobi.pro/ws"@,
    {
        String::from_str("wss://api.huobi.pro/ws")
    }

    /// The subscription messages for the listed tickers.
    pub fn get_batches(tickers: &Vec<String>) -> (r: Vec<Json>)
        ensures
            json_views(r@) == planned_batches(HtxOrderBookStream, ticker_views(tickers@)),
    {
        plan_batches(&HtxOrderBookStream, tickers)
    }
}


/// Htx offers an instrument for subscription exactly when its state is `online`, trading is enabled (`te`), its quote currency is USDT and its base currency
/// names a tracked symbol.
pub proof fn lemma_htx_accepts(value: Json)
    ensures
        <HtxOrderBookStream as SupportedPair>::accepts(value) <==> (
            json_str(json_get(value, "state"@)) == Some("online"@)
            && json_bool(json_get(value, "te"@)) == Some(true)
            && json_str(json_get(value, "qcdn"@)) == Some("USDT"@)
            && (json_str(json_get(value, "bcdn"@)) matches Some(b) && symbol_named(b) is Some)),
{
}
} // verus!
