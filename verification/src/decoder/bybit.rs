//! Bybit `orderbook.1` messages.

use crate::decoder::utils::{
    get_price_and_size, names_symbol, price_and_size_spec, reads_as, symbol_field, symbol_field_spec, top_row_item,
};
use crate::dto::{decode_view, decoded_wf, ActionDecoder, ActionView, DecodeError, OrderBookDto, OrderBookView};
use crate::exchange::Exchange;
use crate::json::{bool_member, json_bool, json_get, json_str, json_u64, str_member_is, u64_member, Json};
use crate::json::{json_parse, parse_json};
use vstd::prelude::*;

verus! {

/// Decodes Bybit top-of-book messages.
#[derive(Clone, Copy)]
pub struct BybitOrderBookDecoder;

/// What a Bybit message asks for. Heartbeat replies and subscription
/// results are skipped; a `data` member with symbol `s` and book sides
/// `a`/`b` makes a snapshot stamped with `ts` in seconds; anything else is
/// skipped.
pub open spec fn bybit_decode_spec(j: Json) -> Result<ActionView, DecodeError> {
    if json_str(json_get(j, "ret_msg"@)) == Some("pong"@) {
        Ok(ActionView::Skip)
    } else if json_bool(json_get(j, "success"@)) == Some(true) {
        Ok(ActionView::Skip)
    } else if json_bool(json_get(j, "success"@)) == Some(false) {
        Ok(ActionView::Skip)
    } else {
        match json_get(j, "data"@) {
            None => Ok(ActionView::Skip),
            Some(data) => match symbol_field_spec(data, "s"@) {
                Err(e) => Err(e),
                Ok(symbol) => match json_get(data, "a"@) {
                    None => Err(DecodeError::MissingAsks),
                    Some(asks) => match price_and_size_spec(asks) {
                        Err(e) => Err(e),
                        Ok((ask_price, ask_amount)) => match json_get(data, "b"@) {
                            None => Err(DecodeError::MissingBids),
                            Some(bids) => match price_and_size_spec(bids) {
                                Err(e) => Err(e),
                                Ok((bid_price, bid_amount)) => match json_u64(json_get(j, "ts"@)) {
                                    None => Err(DecodeError::MissingTimestamp),
                                    Some(ts) => Ok(ActionView::Publish(OrderBookView {
                                        exchange: Exchange::Bybit,
                                        symbol,
                                        ask_price,
                                        ask_amount,
                                        bid_price,
                                        bid_amount,
                                        pair_link: Exchange::Bybit.pair_url_spec(symbol),
                                        timestamp: ts / 1000,
                                    })),
                                },
                            },
                        },
                    },
                },
            },
        }
    }
}

impl BybitOrderBookDecoder {
    /// Decodes a parsed Bybit message.
    pub fn decode_parsed(&self, parsed: &Json) -> (r: Result<ActionDecoder, DecodeError>)
        ensures
            decode_view(r) == bybit_decode_spec(*parsed),
            decoded_wf(r),
    {
        if str_member_is(parsed, "ret_msg", "pong") {
            return Ok(ActionDecoder::Skip);
        }
        let success = bool_member(parsed, "success");
        if success == Some(true) {
            return Ok(ActionDecoder::Skip);
        }
        if success == Some(false) {
            return Ok(ActionDecoder::Skip);
        }
        let data = match parsed.get("data") {
            Some(d) => d,
            None => return Ok(ActionDecoder::Skip),
        };
        let symbol = match symbol_field(data, "s") {
            Ok(s) => s,
            Err(e) => return Err(e),
        };
        let (ask_price, ask_amount) = match data.get("a") {
            Some(asks) => match get_price_and_size(asks) {
                Ok(pq) => pq,
                Err(e) => return Err(e),
            },
            None => return Err(DecodeError::MissingAsks),
        };
        let (bid_price, bid_amount) = match data.get("b") {
            Some(bids) => match get_price_and_size(bids) {
                Ok(pq) => pq,
                Err(e) => return Err(e),
            },
            None => return Err(DecodeError::MissingBids),
        };
        let ts = match u64_member(parsed, "ts") {
            Some(ts) => ts,
            None => return Err(DecodeError::MissingTimestamp),
        };
        Ok(ActionDecoder::Publish(OrderBookDto {
            exchange: Exchange::Bybit,
            symbol,
            ask_price,
            ask_amount,
            bid_price,
            bid_amount,
            pair_link: Exchange::Bybit.pair_url(symbol),
            timestamp: ts / 1000,
        }))
    }
}

/// What a raw Bybit frame asks for: the JSON document it holds, decoded;
/// a frame that holds no JSON document is malformed.
pub open spec fn bybit_frame_spec(bytes: Seq<u8>) -> Result<ActionView, DecodeError> {
    match json_parse(bytes) {
        Some(j) => bybit_decode_spec(j),
        None => Err(DecodeError::Malformed),
    }
}

impl BybitOrderBookDecoder {
    /// Decodes a raw Bybit frame.
    pub fn decode(&self, bytes: &[u8]) -> (r: Result<ActionDecoder, DecodeError>)
        ensures
            decode_view(r) == bybit_frame_spec(bytes@),
            decoded_wf(r),
    {
        match parse_json(bytes) {
            Some(j) => self.decode_parsed(&j),
            None => Err(DecodeError::Malformed),
        }
    }
}


/// A published Bybit snapshot is the message's own: its symbol is the one
/// `data.s` names, its ask price and size are the first row of `data.a`,
/// its bid price and size the first row of `data.b`, its time is the
/// message's millisecond `ts` in whole seconds, and it carries Bybit's link
/// for its symbol.
pub proof fn lemma_bybit_fields(j: Json)
    ensures
        bybit_decode_spec(j) matches Ok(ActionView::Publish(v)) ==> {
            &&& v.exchange == Exchange::Bybit
            &&& json_get(j, "data"@) matches Some(data) && {
                &&& names_symbol(data, "s"@, v.symbol)
                &&& reads_as(top_row_item(json_get(data, "a"@), 0), v.ask_price)
                &&& reads_as(top_row_item(json_get(data, "a"@), 1), v.ask_amount)
                &&& reads_as(top_row_item(json_get(data, "b"@), 0), v.bid_price)
                &&& reads_as(top_row_item(json_get(data, "b"@), 1), v.bid_amount)
            }
            &&& json_u64(json_get(j, "ts"@)) matches Some(ts) && v.timestamp == ts / 1000
            &&& v.pair_link == Exchange::Bybit.pair_url_spec(v.symbol)
        },
{
}

} // verus!
