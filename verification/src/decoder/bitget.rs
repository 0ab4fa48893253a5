//! Bitget `books1` messages.

use crate::decoder::utils::{
    get_price_and_size, names_symbol, price_and_size_spec, reads_as, symbol_field, symbol_field_spec, top_row_item,
};
use crate::dto::{decode_view, decoded_wf, ActionDecoder, ActionView, DecodeError, OrderBookDto, OrderBookView};
use crate::exchange::Exchange;
use crate::json::{json_array, json_get, json_str, str_member_is, Json};
use crate::text::{lemma_parse_unsigned_range, parse_unsigned, parse_unsigned_exec};
use crate::json::{json_parse, parse_json};
use vstd::prelude::*;

verus! {

/// Decodes Bitget top-of-book messages.
#[derive(Clone, Copy)]
pub struct BitgetOrderBookDecoder;

/// An ASCII byte with `A`..`Z` mapped to `a`..`z`.
pub open spec fn lower_byte(b: u8) -> u8 {
    if 65 <= b && b <= 90 {
        (b + 32) as u8
    } else {
        b
    }
}

/// Whether a frame is the text `pong` in any letter case.
pub open spec fn is_pong_frame(bytes: Seq<u8>) -> bool {
    &&& bytes.len() == 4
    &&& lower_byte(bytes[0]) == 112
    &&& lower_byte(bytes[1]) == 111
    &&& lower_byte(bytes[2]) == 110
    &&& lower_byte(bytes[3]) == 103
}

/// What a parsed Bitget message asks for. Subscription and error events
/// are skipped; a message with an `arg` names its symbol in `instId`, and
/// the first element of `data` holds the book sides `asks`/`bids` and the
/// millisecond timestamp text `ts`, kept in seconds; anything else is
/// skipped.
pub open spec fn bitget_decode_spec(j: Json) -> Result<ActionView, DecodeError> {
    if json_str(json_get(j, "event"@)) == Some("subscribe"@) {
        Ok(ActionView::Skip)
    } else if json_str(json_get(j, "event"@)) == Some("error"@) {
        Ok(ActionView::Skip)
    } else {
        match json_get(j, "arg"@) {
            None => Ok(ActionView::Skip),
            Some(arg) => match symbol_field_spec(arg, "instId"@) {
                Err(e) => Err(e),
                Ok(symbol) => match json_array(json_get(j, "data"@)) {
                    None => Err(DecodeError::MissingData),
                    Some(items) => if items.len() == 0 {
                        Err(DecodeError::MissingData)
                    } else {
                        let data = items[0];
                        match json_get(data, "asks"@) {
                            None => Err(DecodeError::MissingAsks),
                            Some(asks) => match price_and_size_spec(asks) {
                                Err(e) => Err(e),
                                Ok((ask_price, ask_amount)) => match json_get(data, "bids"@) {
                                    None => Err(DecodeError::MissingBids),
                                    Some(bids) => match price_and_size_spec(bids) {
                                        Err(e) => Err(e),
                                        Ok((bid_price, bid_amount)) => match json_str(json_get(data, "ts"@)) {
                                            None => Err(DecodeError::MissingTimestamp),
                                            Some(text) => match parse_unsigned(text, u64::MAX as int) {
                                                None => Err(DecodeError::InvalidTimestamp),
                                                Some(ts) => Ok(ActionView::Publish(OrderBookView {
                                                    exchange: Exchange::Bitget,
                                                    symbol,
                                                    ask_price,
                                                    ask_amount,
                                                    bid_price,
                                                    bid_amount,
                                                    pair_link: Exchange::Bitget.pair_url_spec(symbol),
                                                    timestamp: (ts / 1000) as u64,
                                                })),
                                            },
                                        },
                                    },
                                },
                            },
                        }
                    },
                },
            },
        }
    }
}

impl BitgetOrderBookDecoder {
    /// Whether a raw frame is Bitget's heartbeat reply `pong` (in any letter
    /// case), which is skipped before any parsing.
    pub fn is_pong(bytes: &[u8]) -> (r: bool)
        ensures
            r == is_pong_frame(bytes@),
    {
        if bytes.len() != 4 {
            return false;
        }
        let a = bytes[0];
        let b = bytes[1];
        let c = bytes[2];
        let d = bytes[3];
        let la = if 65 <= a && a <= 90 { a + 32 } else { a };
        let lb = if 65 <= b && b <= 90 { b + 32 } else { b };
        let lc = if 65 <= c && c <= 90 { c + 32 } else { c };
        let ld = if 65 <= d && d <= 90 { d + 32 } else { d };
        la == 112 && lb == 111 && lc == 110 && ld == 103
    }

    /// Decodes a parsed Bitget message.
    pub fn decode_parsed(&self, parsed: &Json) -> (r: Result<ActionDecoder, DecodeError>)
        ensures
            decode_view(r) == bitget_decode_spec(*parsed),
            decoded_wf(r),
    {
        if str_member_is(parsed, "event", "subscribe") {
            return Ok(ActionDecoder::Skip);
        }
        if str_member_is(parsed, "event", "error") {
            return Ok(ActionDecoder::Skip);
        }
        let arg = match parsed.get("arg") {
            Some(a) => a,
            None => return Ok(ActionDecoder::Skip),
        };
        let symbol = match symbol_field(arg, "instId") {
            Ok(s) => s,
            Err(e) => return Err(e),
        };
        let items = match parsed.get("data") {
            Some(d) => match d.as_array() {
                Some(items) => items,
                None => return Err(DecodeError::MissingData),
            },
            None => return Err(DecodeError::MissingData),
        };
        if items.len() == 0 {
            return Err(DecodeError::MissingData);
        }
        let data = &items[0];
        let (ask_price, ask_amount) = match data.get("asks") {
            Some(asks) => match get_price_and_size(asks) {
                Ok(pq) => pq,
                Err(e) => return Err(e),
            },
            None => return Err(DecodeError::MissingAsks),
        };
        let (bid_price, bid_amount) = match data.get("bids") {
            Some(bids) => match get_price_and_size(bids) {
                Ok(pq) => pq,
                Err(e) => return Err(e),
            },
            None => return Err(DecodeError::MissingBids),
        };
        let text = match data.get("ts") {
            Some(v) => match v.as_str() {
                Some(t) => t,
                None => return Err(DecodeError::MissingTimestamp),
            },
            None => return Err(DecodeError::MissingTimestamp),
        };
        let ts = match parse_unsigned_exec(text, u64::MAX) {
            Some(ts) => ts,
            None => return Err(DecodeError::InvalidTimestamp),
        };
        Ok(ActionDecoder::Publish(OrderBookDto {
            exchange: Exchange::Bitget,
            symbol,
            ask_price,
            ask_amount,
            bid_price,
            bid_amount,
            pair_link: Exchange::Bitget.pair_url(symbol),
            timestamp: ts / 1000,
        }))
    }
}

/// What a raw Bitget frame asks for: the heartbeat reply `pong` is
/// skipped before any parsing; otherwise the JSON document the frame holds
/// is decoded, and a frame that holds none is malformed.
pub open spec fn bitget_frame_spec(bytes: Seq<u8>) -> Result<ActionView, DecodeError> {
    if is_pong_frame(bytes) {
        Ok(ActionView::Skip)
    } else {
        match json_parse(bytes) {
            Some(j) => bitget_decode_spec(j),
            None => Err(DecodeError::Malformed),
        }
    }
}

impl BitgetOrderBookDecoder {
    /// Decodes a raw Bitget frame.
    pub fn decode(&self, bytes: &[u8]) -> (r: Result<ActionDecoder, DecodeError>)
        ensures
            decode_view(r) == bitget_frame_spec(bytes@),
            decoded_wf(r),
    {
        if Self::is_pong(bytes) {
            return Ok(ActionDecoder::Skip);
        }
        match parse_json(bytes) {
            Some(j) => self.decode_parsed(&j),
            None => Err(DecodeError::Malformed),
        }
    }
}


/// A published Bitget snapshot is the message's own: its symbol is the one
/// `arg.instId` names, its ask price and size are the first row of the
/// first data element's `asks`, its bid price and size the first row of its
/// `bids`, its time is that element's millisecond `ts` text in whole
/// seconds, and it carries Bitget's link for its symbol.
pub proof fn lemma_bitget_fields(j: Json)
    ensures
        bitget_decode_spec(j) matches Ok(ActionView::Publish(v)) ==> {
            &&& v.exchange == Exchange::Bitget
            &&& json_get(j, "arg"@) matches Some(arg) && names_symbol(arg, "instId"@, v.symbol)
            &&& json_array(json_get(j, "data"@)) matches Some(items) && items.len() > 0 && {
                let data = items[0];
                &&& reads_as(top_row_item(json_get(data, "asks"@), 0), v.ask_price)
                &&& reads_as(top_row_item(json_get(data, "asks"@), 1), v.ask_amount)
                &&& reads_as(top_row_item(json_get(data, "bids"@), 0), v.bid_price)
                &&& reads_as(top_row_item(json_get(data, "bids"@), 1), v.bid_amount)
                &&& json_str(json_get(data, "ts"@)) matches Some(t) && parse_unsigned(t, u64::MAX as int) matches Some(ts)
                    && v.timestamp == ts / 1000
            }
            &&& v.pair_link == Exchange::Bitget.pair_url_spec(v.symbol)
        },
{
    if let Some(items) = json_array(json_get(j, "data"@)) {
        if items.len() > 0 {
            if let Some(t) = json_str(json_get(items[0], "ts"@)) {
                lemma_parse_unsigned_range(t, u64::MAX as int);
            }
        }
    }
}

} // verus!
