//! Binance `bookTicker` messages.

use crate::decimal::Dec;
use crate::decoder::utils::{field_dec, field_dec_spec, names_symbol, reads_as, symbol_field, symbol_field_spec};
use crate::dto::{decode_view, decoded_wf, ActionDecoder, ActionView, DecodeError, OrderBookDto, OrderBookView};
use crate::exchange::Exchange;
use crate::json::{json_get, json_u64, Json};
use crate::json::{json_parse, parse_json};
use vstd::prelude::*;

verus! {

/// Decodes Binance book-ticker messages.
#[derive(Clone, Copy)]
pub struct BinanceOrderBookDecoder;

/// What a Binance message asks for. A `null` result (a subscription
/// acknowledgement) or a status code of at least 400 is skipped; otherwise
/// the symbol `s`, ask `a`/`A` and bid `b`/`B` make a snapshot stamped with
/// the time of receipt `now`.
pub open spec fn binance_decode_spec(j: Json, now: u64) -> Result<ActionView, DecodeError> {
    if json_get(j, "result"@) matches Some(Json::Null) {
        Ok(ActionView::Skip)
    } else if json_u64(json_get(j, "code"@)) matches Some(code) && code >= 400 {
        Ok(ActionView::Skip)
    } else {
        match symbol_field_spec(j, "s"@) {
            Err(e) => Err(e),
            Ok(symbol) => match field_dec_spec(j, "a"@, DecodeError::MissingAskPrice) {
                Err(e) => Err(e),
                Ok(ask_price) => match field_dec_spec(j, "A"@, DecodeError::MissingAskAmount) {
                    Err(e) => Err(e),
                    Ok(ask_amount) => match field_dec_spec(j, "b"@, DecodeError::MissingBidPrice) {
                        Err(e) => Err(e),
                        Ok(bid_price) => match field_dec_spec(j, "B"@, DecodeError::MissingBidAmount) {
                            Err(e) => Err(e),
                            Ok(bid_amount) => Ok(ActionView::Publish(OrderBookView {
                                exchange: Exchange::Binance,
                                symbol,
                                ask_price,
                                ask_amount,
                                bid_price,
                                bid_amount,
                                pair_link: Exchange::Binance.pair_url_spec(symbol),
                                timestamp: now,
                            })),
                        },
                    },
                },
            },
        }
    }
}

impl BinanceOrderBookDecoder {
    /// Decodes a parsed Binance message received at `now`.
    pub fn decode_parsed(&self, parsed: &Json, now: u64) -> (r: Result<ActionDecoder, DecodeError>)
        ensures
            decode_view(r) == binance_decode_spec(*parsed, now),
            decoded_wf(r),
    {
        if let Some(result) = parsed.get("result") {
            if result.is_null() {
                return Ok(ActionDecoder::Skip);
            }
        }
        if let Some(code) = parsed.get("code") {
            if let Some(c) = code.as_u64() {
                if c >= 400 {
                    return Ok(ActionDecoder::Skip);
                }
            }
        }
        let symbol = match symbol_field(parsed, "s") {
            Ok(s) => s,
            Err(e) => return Err(e),
        };
        let ask_price = match field_dec(parsed, "a", DecodeError::MissingAskPrice) {
            Ok(d) => d,
            Err(e) => return Err(e),
        };
        let ask_amount = match field_dec(parsed, "A", DecodeError::MissingAskAmount) {
            Ok(d) => d,
            Err(e) => return Err(e),
        };
        let bid_price = match field_dec(parsed, "b", DecodeError::MissingBidPrice) {
            Ok(d) => d,
            Err(e) => return Err(e),
        };
        let bid_amount = match field_dec(parsed, "B", DecodeError::MissingBidAmount) {
            Ok(d) => d,
            Err(e) => return Err(e),
        };
        Ok(ActionDecoder::Publish(OrderBookDto {
            exchange: Exchange::Binance,
            symbol,
            ask_price,
            ask_amount,
            bid_price,
            bid_amount,
            pair_link: Exchange::Binance.pair_url(symbol),
            timestamp: now,
        }))
    }
}

/// What a raw Binance frame asks for: the JSON document it holds, decoded;
/// a frame that holds no JSON document is malformed.
pub open spec fn binance_frame_spec(bytes: Seq<u8>, now: u64) -> Result<ActionView, DecodeError> {
    match json_parse(bytes) {
        Some(j) => binance_decode_spec(j, now),
        None => Err(DecodeError::Malformed),
    }
}

impl BinanceOrderBookDecoder {
    /// Decodes a raw Binance frame received at `now`.
    pub fn decode(&self, bytes: &[u8], now: u64) -> (r: Result<ActionDecoder, DecodeError>)
        ensures
            decode_view(r) == binance_frame_spec(bytes@, now),
            decoded_wf(r),
    {
        match parse_json(bytes) {
            Some(j) => self.decode_parsed(&j, now),
            None => Err(DecodeError::Malformed),
        }
    }
}


/// A published Binance snapshot is the message's own: its symbol is the
/// one `s` names, its ask price and size are the decimals in `a` and `A`,
/// its bid price and size those in `b` and `B`, it is stamped with the time
/// of receipt and carries Binance's link for its symbol.
pub proof fn lemma_binance_fields(j: Json, now: u64)
    ensures
        binance_decode_spec(j, now) matches Ok(ActionView::Publish(v)) ==> {
            &&& v.exchange == Exchange::Binance
            &&& names_symbol(j, "s"@, v.symbol)
            &&& reads_as(json_get(j, "a"@), v.ask_price)
            &&& reads_as(json_get(j, "A"@), v.ask_amount)
            &&& reads_as(json_get(j, "b"@), v.bid_price)
            &&& reads_as(json_get(j, "B"@), v.bid_amount)
            &&& v.timestamp == now
            &&& v.pair_link == Exchange::Binance.pair_url_spec(v.symbol)
        },
{
}

} // verus!
