//! MEXC spot `bookTicker` streams, which subscribe every tracked symbol.

use crate::exchange::{all_symbols, Exchange, Symbol, SYMBOL_COUNT};
use crate::json::{json_view, json_views, member, Json, JsonView};
use crate::stream::{plan_batches, planned_batches, ticker_views, SubscriptionPlan};
use vstd::prelude::*;

verus! {

/// MEXC's order-book stream.
#[derive(Clone, Copy)]
pub struct MexcOrderBookStream;

impl SubscriptionPlan for MexcOrderBookStream {
    open spec fn entry_view(&self, ticker: Seq<char>) -> JsonView {
        JsonView::Str("spot@public.aggre.bookTicker.v3.api.pb@100ms@"@ + ticker + "USDT"@)
    }

    open spec fn batch_view(&self, k: int, entries: Seq<JsonView>, last: Seq<char>, full: bool) -> JsonView {
        JsonView::Object(seq![("method"@, JsonView::Str("SUBSCRIPTION"@)), ("params"@, JsonView::Array(entries))])
    }

    fn entry(&self, ticker: &String) -> (j: Json) {
        Json::Str(String::from_str("spot@public.aggre.bookTicker.v3.api.pb@100ms@").concat(ticker.as_str()).concat("USDT"))
    }

    fn batch(&self, k: usize, entries: Vec<Json>, last: &String, full: bool) -> (j: Json) {
        let mut members: Vec<(String, Json)> = Vec::new();
        members.push(member("method", Json::text("SUBSCRIPTION")));
        members.push(member("params", Json::array(entries)));
        let j = Json::object(members);
        assert(json_view(j) == self.batch_view(k as int, json_views(entries@), last@, full)) by {
            assert(json_view(j)->Object_0 =~= self.batch_view(k as int, json_views(entries@), last@, full)->Object_0);
        }
        j
    }
}

/// The names of all tracked symbols, in declaration order.
pub open spec fn symbol_names() -> Seq<Seq<char>> {
    all_symbols().map_values(|s: Symbol| s.name())
}

impl MexcOrderBookStream {
    /// The exchange this stream reads.
    pub fn exchange() -> (e: Exchange)
        ensures
            e == Exchange::Mexc,
    {
        Exchange::Mexc
    }

    /// The websocket address.
    pub fn get_ws_url() -> (u: String)
        ensures
            u@ == "wss://wbs-api.mexc.com/ws"@,
    {
        String::from_str("wss://wbs-api.mexc.com/ws")
    }

    /// The subscription messages for every tracked symbol.
    pub fn get_batches() -> (r: Vec<Json>)
        ensures
            json_views(r@) == planned_batches(MexcOrderBookStream, symbol_names()),
    {
        let symbols = Symbol::all();
        let mut names: Vec<String> = Vec::new();
        let mut i: usize = 0;
        while i < symbols.len()
            invariant
                symbols@ == all_symbols(),
                i <= symbols@.len(),
                ticker_views(names@) == symbol_names().take(i as int),
                symbol_names().len() == symbols@.len(),
            decreases symbols@.len() - i,
        {
            let name = String::from_str(symbols[i].as_str());
            assert(name@ == symbol_names()[i as int]);
            let ghost before = names@;
            names.push(name);
            assert(ticker_views(names@) =~= ticker_views(before).push(name@));
            assert(ticker_views(names@) =~= symbol_names().take(i + 1));
            i = i + 1;
        }
        assert(symbol_names().take(symbols@.len() as int) =~= symbol_names());
        plan_batches(&MexcOrderBookStream, &names)
    }
}

} // verus!
