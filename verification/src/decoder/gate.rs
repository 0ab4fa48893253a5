//! Gate `spot.book_ticker` messages.

use crate::decoder::utils::{field_dec, field_dec_spec, names_symbol, reads_as, symbol_field, symbol_field_spec};
use crate::dto::{decode_view, decoded_wf, ActionDecoder, ActionView, DecodeError, OrderBookDto, OrderBookView};
use crate::exchange::Exchange;
use crate::json::{json_get, json_str, json_u64, pointer_spec, str_member_is, u64_member, Json};
use crate::text::str_eq;
use crate::json::{json_parse, parse_json};
use vstd::prelude::*;

verus! {

/// Decodes Gate book-ticker messages.
#[derive(Clone, Copy)]
pub struct GateOrderBookDecoder;

/// What a parsed Gate message asks for. Heartbeat replies, successful
/// subscriptions (`/result/status` is `success`) and messages whose member
/// literally named `/result/status` is `fail` are skipped; a `result` with
/// symbol `s`, ask `a`/`A` and bid `b`/`B` makes a snapshot stamped with the
/// message's `time`; anything else is skipped.
pub open spec fn gate_decode_spec(j: Json) -> Result<ActionView, DecodeError> {
    if json_str(json_get(j, "channel"@)) == Some("spot.pong"@) {
        Ok(ActionView::Skip)
    } else if json_str(pointer_spec(j, "/result/status"@)) == Some("success"@) {
        Ok(ActionView::Skip)
    } else if json_str(json_get(j, "/result/status"@)) == Some("fail"@) {
        Ok(ActionView::Skip)
    } else {
        match json_get(j, "result"@) {
            None => Ok(ActionView::Skip),
            Some(data) => match symbol_field_spec(data, "s"@) {
                Err(e) => Err(e),
                Ok(symbol) => match field_dec_spec(data, "a"@, DecodeError::MissingAskPrice) {
                    Err(e) => Err(e),
                    Ok(ask_price) => match field_dec_spec(data, "A"@, DecodeError::MissingAskAmount) {
                        Err(e) => Err(e),
                        Ok(ask_amount) => match field_dec_spec(data, "b"@, DecodeError::MissingBidPrice) {
                            Err(e) => Err(e),
                            Ok(bid_price) => match field_dec_spec(data, "B"@, DecodeError::MissingBidAmount) {
                                Err(e) => Err(e),
                                Ok(bid_amount) => match json_u64(json_get(j, "time"@)) {
                                    None => Err(DecodeError::MissingTimestamp),
                                    Some(ts) => Ok(ActionView::Publish(OrderBookView {
                                        exchange: Exchange::Gate,
                                        symbol,
                                        ask_price,
                                        ask_amount,
                                        bid_price,
                                        bid_amount,
                                        pair_link: Exchange::Gate.pair_url_spec(symbol),
                                        timestamp: ts,
                                    })),
                                },
                            },
                        },
                    },
                },
            },
        }
    }
}

impl GateOrderBookDecoder {
    /// Decodes a parsed Gate message.
    pub fn decode_parsed(&self, parsed: &Json) -> (r: Result<ActionDecoder, DecodeError>)
        ensures
            decode_view(r) == gate_decode_spec(*parsed),
            decoded_wf(r),
    {
        if str_member_is(parsed, "channel", "spot.pong") {
            return Ok(ActionDecoder::Skip);
        }
        if let Some(status) = parsed.pointer("/result/status") {
            if let Some(text) = status.as_str() {
                if str_eq(text, "success") {
                    return Ok(ActionDecoder::Skip);
                }
            }
        }
        if str_member_is(parsed, "/result/status", "fail") {
            return Ok(ActionDecoder::Skip);
        }
        let data = match parsed.get("result") {
            Some(d) => d,
            None => return Ok(ActionDecoder::Skip),
        };
        let symbol = match symbol_field(data, "s") {
            Ok(s) => s,
            Err(e) => return Err(e),
        };
        let ask_price = match field_dec(data, "a", DecodeError::MissingAskPrice) {
            Ok(d) => d,
            Err(e) => return Err(e),
        };
        let ask_amount = match field_dec(data, "A", DecodeError::MissingAskAmount) {
            Ok(d) => d,
            Err(e) => return Err(e),
        };
        let bid_price = match field_dec(data, "b", DecodeError::MissingBidPrice) {
            Ok(d) => d,
            Err(e) => return Err(e),
        };
        let bid_amount = match field_dec(data, "B", DecodeError::MissingBidAmount) {
            Ok(d) => d,
            Err(e) => return Err(e),
        };
        let ts = match u64_member(parsed, "time") {
            Some(ts) => ts,
            None => return Err(DecodeError::MissingTimestamp),
        };
        Ok(ActionDecoder::Publish(OrderBookDto {
            exchange: Exchange::Gate,
            symbol,
            ask_price,
            ask_amount,
            bid_price,
            bid_amount,
            pair_link: Exchange::Gate.pair_url(symbol),
            timestamp: ts,
        }))
    }
}

/// What a raw Gate frame asks for: the JSON document it holds, decoded;
/// a frame that holds no JSON document is malformed.
pub open spec fn gate_frame_spec(bytes: Seq<u8>) -> Result<ActionView, DecodeError> {
    match json_parse(bytes) {
        Some(j) => gate_decode_spec(j),
        None => Err(DecodeError::Malformed),
    }
}

impl GateOrderBookDecoder {
    /// Decodes a raw Gate frame.
    pub fn decode(&self, bytes: &[u8]) -> (r: Result<ActionDecoder, DecodeError>)
        ensures
            decode_view(r) == gate_frame_spec(bytes@),
            decoded_wf(r),
    {
        match parse_json(bytes) {
            Some(j) => self.decode_parsed(&j),
            None => Err(DecodeError::Malformed),
        }
    }
}


/// A published Gate snapshot is the message's own: its symbol is the one
/// `result.s` names, its ask price and size are the decimals in `result.a`
/// and `result.A`, its bid price and size those in `result.b` and
/// `result.B`, it is stamped with the message's `time` and carries Gate's
/// link for its symbol.
pub proof fn lemma_gate_fields(j: Json)
    ensures
        gate_decode_spec(j) matches Ok(ActionView::Publish(v)) ==> {
            &&& v.exchange == Exchange::Gate
            &&& json_get(j, "result"@) matches Some(r) && {
                &&& names_symbol(r, "s"@, v.symbol)
                &&& reads_as(json_get(r, "a"@), v.ask_price)
                &&& reads_as(json_get(r, "A"@), v.ask_amount)
                &&& reads_as(json_get(r, "b"@), v.bid_price)
                &&& reads_as(json_get(r, "B"@), v.bid_amount)
            }
            &&& json_u64(json_get(j, "time"@)) == Some(v.timestamp)
            &&& v.pair_link == Exchange::Gate.pair_url_spec(v.symbol)
        },
{
}

} // verus!
