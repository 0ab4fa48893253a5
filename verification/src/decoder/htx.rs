//! HTX `bbo` messages, which arrive gzip-compressed.

use crate::decoder::utils::{names_symbol, symbol_field, symbol_field_spec};
use crate::dto::{decode_view, decoded_wf, ActionDecoder, ActionView, DecodeError, OrderBookDto, OrderBookView};
use crate::exchange::Exchange;
use crate::json::{json_float_decimal, json_get, json_str, json_u64, str_member_is, u64_member, Json};
use flate2::read::GzDecoder;
use crate::json::{json_parse, parse_json};
use vstd::prelude::*;

verus! {

/// Decodes HTX best-bid-offer messages.
#[derive(Clone, Copy)]
pub struct HtxOrderBookDecoder;

/// What inflating a gzip stream gives, `None` where the stream is invalid.
pub uninterp spec fn gzip_inflate(bytes: Seq<u8>) -> Option<Seq<u8>>;

/// Calls `GzDecoder::new` over the bytes and `Read::read_to_end`: the
/// inflated bytes, or `None` where decoding fails. The inflation is named.
#[verifier::external_body]
fn inflate(bytes: &[u8]) -> (r: Option<Vec<u8>>)
    ensures
        match r {
            Some(v) => gzip_inflate(bytes@) == Some(v@),
            None => gzip_inflate(bytes@) is None,
        },
{
    let mut out = Vec::new();
    match std::io::Read::read_to_end(&mut GzDecoder::new(bytes), &mut out) {
        Ok(_) => Some(out),
        Err(_) => None,
    }
}

/// What a parsed HTX message asks for. A `ping` is answered with its
/// value; status replies are skipped; a `tick` names its symbol in
/// `symbol` and holds `ask`, `askSize`, `bid` and `bidSize` as numbers, with
/// the message's millisecond `ts` kept in seconds; anything else is skipped.
pub open spec fn htx_decode_spec(j: Json) -> Result<ActionView, DecodeError> {
    if json_u64(json_get(j, "ping"@)) is Some {
        Ok(ActionView::Pong(json_u64(json_get(j, "ping"@))->0))
    } else if json_str(json_get(j, "status"@)) == Some("ok"@) {
        Ok(ActionView::Skip)
    } else if json_str(json_get(j, "status"@)) == Some("error"@) {
        Ok(ActionView::Skip)
    } else {
        match json_get(j, "tick"@) {
            None => Ok(ActionView::Skip),
            Some(tick) => match symbol_field_spec(tick, "symbol"@) {
                Err(e) => Err(e),
                Ok(symbol) => match json_float_decimal(json_get(tick, "ask"@)) {
                    None => Err(DecodeError::MissingAskPrice),
                    Some(ask_price) => match json_float_decimal(json_get(tick, "askSize"@)) {
                        None => Err(DecodeError::MissingAskAmount),
                        Some(ask_amount) => match json_float_decimal(json_get(tick, "bid"@)) {
                            None => Err(DecodeError::MissingBidPrice),
                            Some(bid_price) => match json_float_decimal(json_get(tick, "bidSize"@)) {
                                None => Err(DecodeError::MissingBidAmount),
                                Some(bid_amount) => match json_u64(json_get(j, "ts"@)) {
                                    None => Err(DecodeError::MissingTimestamp),
                                    Some(ts) => Ok(ActionView::Publish(OrderBookView {
                                        exchange: Exchange::Htx,
                                        symbol,
                                        ask_price,
                                        ask_amount,
                                        bid_price,
                                        bid_amount,
                                        pair_link: Exchange::Htx.pair_url_spec(symbol),
                                        timestamp: ts / 1000,
                                    })),
                                },
                            },
                        },
                    },
                },
            },
        }
    }
}

/// The decimal a member converts to through a binary float.
fn float_member(j: &Json, key: &str) -> (r: Option<crate::decimal::Dec>)
    ensures
        r == json_float_decimal(json_get(*j, key@)),
        r matches Some(d) ==> d.wf(),
{
    match j.get(key) {
        Some(v) => v.as_float_decimal(),
        None => None,
    }
}

impl HtxOrderBookDecoder {
    /// Inflates a gzip-compressed frame.
    pub fn g_unzip(bytes: &[u8]) -> (r: Result<Vec<u8>, DecodeError>)
        ensures
            match r {
                Ok(v) => gzip_inflate(bytes@) == Some(v@),
                Err(e) => gzip_inflate(bytes@) is None && e == DecodeError::Gzip,
            },
    {
        match inflate(bytes) {
            Some(v) => Ok(v),
            None => Err(DecodeError::Gzip),
        }
    }

    /// The JSON text of a compressed frame, or `None` where it inflates to
    /// nothing (such a frame is skipped).
    pub fn inflate_frame(&self, bytes: &[u8]) -> (r: Result<Option<Vec<u8>>, DecodeError>)
        ensures
            match r {
                Ok(Some(v)) => gzip_inflate(bytes@) == Some(v@) && v@.len() > 0,
                Ok(None) => gzip_inflate(bytes@) == Some(Seq::<u8>::empty()),
                Err(e) => gzip_inflate(bytes@) is None && e == DecodeError::Gzip,
            },
    {
        let v = match Self::g_unzip(bytes) {
            Ok(v) => v,
            Err(e) => return Err(e),
        };
        if v.len() == 0 {
            assert(v@ =~= Seq::<u8>::empty());
            Ok(None)
        } else {
            Ok(Some(v))
        }
    }

    /// Decodes a parsed HTX message.
    pub fn decode_parsed(&self, parsed: &Json) -> (r: Result<ActionDecoder, DecodeError>)
        ensures
            decode_view(r) == htx_decode_spec(*parsed),
            decoded_wf(r),
    {
        if let Some(ts) = u64_member(parsed, "ping") {
            return Ok(ActionDecoder::Pong(ts));
        }
        if str_member_is(parsed, "status", "ok") {
            return Ok(ActionDecoder::Skip);
        }
        if str_member_is(parsed, "status", "error") {
            return Ok(ActionDecoder::Skip);
        }
        let tick = match parsed.get("tick") {
            Some(t) => t,
            None => return Ok(ActionDecoder::Skip),
        };
        let symbol = match symbol_field(tick, "symbol") {
            Ok(s) => s,
            Err(e) => return Err(e),
        };
        let ask_price = match float_member(tick, "ask") {
            Some(d) => d,
            None => return Err(DecodeError::MissingAskPrice),
        };
        let ask_amount = match float_member(tick, "askSize") {
            Some(d) => d,
            None => return Err(DecodeError::MissingAskAmount),
        };
        let bid_price = match float_member(tick, "bid") {
            Some(d) => d,
            None => return Err(DecodeError::MissingBidPrice),
        };
        let bid_amount = match float_member(tick, "bidSize") {
            Some(d) => d,
            None => return Err(DecodeError::MissingBidAmount),
        };
        let ts = match u64_member(parsed, "ts") {
            Some(ts) => ts,
            None => return Err(DecodeError::MissingTimestamp),
        };
        Ok(ActionDecoder::Publish(OrderBookDto {
            exchange: Exchange::Htx,
            symbol,
            ask_price,
            ask_amount,
            bid_price,
            bid_amount,
            pair_link: Exchange::Htx.pair_url(symbol),
            timestamp: ts / 1000,
        }))
    }
}

/// What a raw HTX frame asks for: the frame is inflated (a frame that
/// does not inflate is a gzip error, one that inflates to nothing is
/// skipped) and the JSON document it holds is decoded; text that is no
/// JSON document is malformed.
pub open spec fn htx_frame_spec(bytes: Seq<u8>) -> Result<ActionView, DecodeError> {
    match gzip_inflate(bytes) {
        None => Err(DecodeError::Gzip),
        Some(text) => if text.len() == 0 {
            Ok(ActionView::Skip)
        } else {
            match json_parse(text) {
                Some(j) => htx_decode_spec(j),
                None => Err(DecodeError::Malformed),
            }
        },
    }
}

impl HtxOrderBookDecoder {
    /// Decodes a raw Htx frame.
    pub fn decode(&self, bytes: &[u8]) -> (r: Result<ActionDecoder, DecodeError>)
        ensures
            decode_view(r) == htx_frame_spec(bytes@),
            decoded_wf(r),
    {
        let text = match self.inflate_frame(bytes) {
            Err(e) => return Err(e),
            Ok(None) => return Ok(ActionDecoder::Skip),
            Ok(Some(text)) => text,
        };
        match parse_json(text.as_slice()) {
            Some(j) => self.decode_parsed(&j),
            None => Err(DecodeError::Malformed),
        }
    }
}


/// A published HTX snapshot is the message's own: its symbol is the one
/// `tick.symbol` names, its ask price and size are the numbers in
/// `tick.ask` and `tick.askSize`, its bid price and size those in
/// `tick.bid` and `tick.bidSize`, its time is the message's millisecond
/// `ts` in whole seconds, and it carries HTX's link for its symbol.
pub proof fn lemma_htx_fields(j: Json)
    ensures
        htx_decode_spec(j) matches Ok(ActionView::Publish(v)) ==> {
            &&& v.exchange == Exchange::Htx
            &&& json_get(j, "tick"@) matches Some(tick) && {
                &&& names_symbol(tick, "symbol"@, v.symbol)
                &&& json_float_decimal(json_get(tick, "ask"@)) == Some(v.ask_price)
                &&& json_float_decimal(json_get(tick, "askSize"@)) == Some(v.ask_amount)
                &&& json_float_decimal(json_get(tick, "bid"@)) == Some(v.bid_price)
                &&& json_float_decimal(json_get(tick, "bidSize"@)) == Some(v.bid_amount)
            }
            &&& json_u64(json_get(j, "ts"@)) matches Some(ts) && v.timestamp == ts / 1000
            &&& v.pair_link == Exchange::Htx.pair_url_spec(v.symbol)
        },
{
}

} // verus!
