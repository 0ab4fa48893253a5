//! OKX `bbo-tbt` messages, read with the strict shape of the message
//! structure: `{"arg": {"instId": ..}, "data": [{"asks": [[p, q, _, _]],
//! "bids": [[p, q, _, _]], "ts": ".."}]}`.

use crate::decimal::Dec;
use crate::decoder::utils::{names_symbol, normalize_spec, normalize_symbol, reads_as, top_row_item, val_to_dec, val_to_dec_spec};
use crate::dto::{decode_view, decoded_wf, ActionDecoder, ActionView, DecodeError, OrderBookDto, OrderBookView};
use crate::exchange::Exchange;
use crate::json::{json_array, json_get, json_str, Json};
use crate::text::{lemma_parse_unsigned_range, parse_unsigned, parse_unsigned_exec};
use crate::json::{json_parse, parse_json};
use vstd::prelude::*;

verus! {

/// Decodes OKX best-bid-offer messages.
#[derive(Clone, Copy)]
pub struct OkxOrderBookDecoder;

/// A book level: an array of exactly four decimals.
pub open spec fn okx_level_ok(v: Json) -> bool {
    match v {
        Json::Array(items) => items@.len() == 4 && forall|k: int|
            0 <= k < 4 ==> (#[trigger] val_to_dec_spec(items@[k])) is Ok,
        _ => false,
    }
}

/// A book side: an array of levels.
pub open spec fn okx_side_ok(v: Option<Json>) -> bool {
    match v {
        Some(Json::Array(levels)) => forall|i: int| 0 <= i < levels@.len() ==> #[trigger] okx_level_ok(levels@[i]),
        _ => false,
    }
}

/// A data element: an object with sides `asks` and `bids` and a text `ts`.
pub open spec fn okx_data_ok(d: Json) -> bool {
    &&& d is Object
    &&& okx_side_ok(json_get(d, "asks"@))
    &&& okx_side_ok(json_get(d, "bids"@))
    &&& json_str(json_get(d, "ts"@)) is Some
}

/// The whole message has the expected structure.
pub open spec fn okx_message_ok(j: Json) -> bool {
    &&& j is Object
    &&& json_get(j, "arg"@) matches Some(arg) && arg is Object && json_str(json_get(arg, "instId"@)) is Some
    &&& json_get(j, "data"@) matches Some(Json::Array(items)) && forall|i: int| 0 <= i < items@.len() ==> #[trigger] okx_data_ok(items@[i])
}

/// The price and size of the first level of a well-shaped side.
pub open spec fn okx_top_spec(side: Option<Json>, missing: DecodeError) -> Result<(Dec, Dec), DecodeError> {
    match side {
        Some(Json::Array(levels)) => if levels@.len() == 0 {
            Err(missing)
        } else {
            match levels@[0] {
                Json::Array(items) => Ok((val_to_dec_spec(items@[0])->Ok_0, val_to_dec_spec(items@[1])->Ok_0)),
                _ => Err(missing),
            }
        },
        _ => Err(missing),
    }
}

/// What a parsed OKX message asks for. A message without the expected
/// structure is malformed; otherwise the first data element's best ask and
/// best bid, the symbol in `arg.instId` and the millisecond timestamp text
/// `ts` make a snapshot.
pub open spec fn okx_decode_spec(j: Json) -> Result<ActionView, DecodeError> {
    if !okx_message_ok(j) {
        Err(DecodeError::Malformed)
    } else {
        let items = json_get(j, "data"@)->0->Array_0@;
        if items.len() == 0 {
            Err(DecodeError::MissingData)
        } else {
            let data = items[0];
            match okx_top_spec(json_get(data, "asks"@), DecodeError::MissingAsks) {
                Err(e) => Err(e),
                Ok((ask_price, ask_amount)) => match okx_top_spec(json_get(data, "bids"@), DecodeError::MissingBids) {
                    Err(e) => Err(e),
                    Ok((bid_price, bid_amount)) => match normalize_spec(json_str(json_get(json_get(j, "arg"@)->0, "instId"@))->0) {
                        None => Err(DecodeError::UnknownSymbol),
                        Some(symbol) => match parse_unsigned(json_str(json_get(data, "ts"@))->0, u64::MAX as int) {
                            None => Err(DecodeError::InvalidTimestamp),
                            Some(ts) => Ok(ActionView::Publish(OrderBookView {
                                exchange: Exchange::Okx,
                                symbol,
                                ask_price,
                                ask_amount,
                                bid_price,
                                bid_amount,
                                pair_link: Exchange::Okx.pair_url_spec(symbol),
                                timestamp: ts as u64,
                            })),
                        },
                    },
                },
            }
        }
    }
}

/// Whether a value is a level of exactly four decimals.
fn level_ok(v: &Json) -> (r: bool)
    ensures
        r == okx_level_ok(*v),
{
    match v {
        Json::Array(items) => {
            if items.len() != 4 {
                return false;
            }
            let mut k: usize = 0;
            while k < 4
                invariant
                    items@.len() == 4,
                    k <= 4,
                    okx_level_ok(*v) == (forall|m: int| 0 <= m < 4 ==> (#[trigger] val_to_dec_spec(items@[m])) is Ok),
                    forall|m: int| 0 <= m < k ==> (#[trigger] val_to_dec_spec(items@[m])) is Ok,
                decreases 4 - k,
            {
                if val_to_dec(&items[k]).is_err() {
                    return false;
                }
                k = k + 1;
            }
            true
        },
        _ => false,
    }
}

/// Whether a member is an array of levels.
fn side_ok(d: &Json, key: &str) -> (r: bool)
    ensures
        r == okx_side_ok(json_get(*d, key@)),
{
    match d.get(key) {
        Some(Json::Array(levels)) => {
            let mut i: usize = 0;
            while i < levels.len()
                invariant
                    i <= levels@.len(),
                    forall|m: int| 0 <= m < i ==> #[trigger] okx_level_ok(levels@[m]),
                    okx_side_ok(json_get(*d, key@)) == (forall|m: int| 0 <= m < levels@.len() ==> #[trigger] okx_level_ok(levels@[m])),
                decreases levels@.len() - i,
            {
                if !level_ok(&levels[i]) {
                    return false;
                }
                i = i + 1;
            }
            true
        },
        _ => false,
    }
}

/// Whether a value is a well-shaped data element.
fn data_ok(d: &Json) -> (r: bool)
    ensures
        r == okx_data_ok(*d),
{
    let is_object = match d {
        Json::Object(_) => true,
        _ => false,
    };
    if !is_object || !side_ok(d, "asks") || !side_ok(d, "bids") {
        return false;
    }
    match d.get("ts") {
        Some(v) => v.as_str().is_some(),
        None => false,
    }
}

/// Whether the whole message has the expected structure.
fn message_ok(j: &Json) -> (r: bool)
    ensures
        r == okx_message_ok(*j),
{
    let is_object = match j {
        Json::Object(_) => true,
        _ => false,
    };
    if !is_object {
        return false;
    }
    let arg_ok = match j.get("arg") {
        Some(arg) => match arg {
            Json::Object(_) => match arg.get("instId") {
                Some(v) => v.as_str().is_some(),
                None => false,
            },
            _ => false,
        },
        None => false,
    };
    if !arg_ok {
        return false;
    }
    match j.get("data") {
        Some(Json::Array(items)) => {
            let mut i: usize = 0;
            while i < items.len()
                invariant
                    i <= items@.len(),
                    forall|m: int| 0 <= m < i ==> #[trigger] okx_data_ok(items@[m]),
                    okx_message_ok(*j) == (forall|m: int| 0 <= m < items@.len() ==> #[trigger] okx_data_ok(items@[m])),
                decreases items@.len() - i,
            {
                if !data_ok(&items[i]) {
                    return false;
                }
                i = i + 1;
            }
            true
        },
        _ => false,
    }
}

/// The price and size of the first level of a well-shaped side.
fn top_level(side: Option<&Json>, missing: DecodeError) -> (r: Result<(Dec, Dec), DecodeError>)
    requires
        okx_side_ok(match side { Some(v) => Some(*v), None => None }),
    ensures
        r == okx_top_spec(match side { Some(v) => Some(*v), None => None }, missing),
        r matches Ok((p, q)) ==> p.wf() && q.wf(),
{
    match side {
        Some(Json::Array(levels)) => {
            if levels.len() == 0 {
                return Err(missing);
            }
            assert(okx_level_ok(levels@[0]));
            match &levels[0] {
                Json::Array(items) => {
                    assert(val_to_dec_spec(items@[0]) is Ok);
                    assert(val_to_dec_spec(items@[1]) is Ok);
                    let p = match val_to_dec(&items[0]) {
                        Ok(p) => p,
                        Err(e) => return Err(e),
                    };
                    let q = match val_to_dec(&items[1]) {
                        Ok(q) => q,
                        Err(e) => return Err(e),
                    };
                    Ok((p, q))
                },
                _ => Err(missing),
            }
        },
        _ => Err(missing),
    }
}

impl OkxOrderBookDecoder {
    /// Decodes a parsed OKX message.
    pub fn decode_parsed(&self, parsed: &Json) -> (r: Result<ActionDecoder, DecodeError>)
        ensures
            decode_view(r) == okx_decode_spec(*parsed),
            decoded_wf(r),
    {
        if !message_ok(parsed) {
            return Err(DecodeError::Malformed);
        }
        let items = match parsed.get("data") {
            Some(Json::Array(items)) => items,
            _ => return Err(DecodeError::Malformed),
        };
        if items.len() == 0 {
            return Err(DecodeError::MissingData);
        }
        let data = &items[0];
        assert(okx_data_ok(items@[0]));
        let (ask_price, ask_amount) = match top_level(data.get("asks"), DecodeError::MissingAsks) {
            Ok(pq) => pq,
            Err(e) => return Err(e),
        };
        let (bid_price, bid_amount) = match top_level(data.get("bids"), DecodeError::MissingBids) {
            Ok(pq) => pq,
            Err(e) => return Err(e),
        };
        let inst = match parsed.get("arg") {
            Some(arg) => match arg.get("instId") {
                Some(v) => match v.as_str() {
                    Some(t) => t,
                    None => return Err(DecodeError::Malformed),
                },
                None => return Err(DecodeError::Malformed),
            },
            None => return Err(DecodeError::Malformed),
        };
        let symbol = match normalize_symbol(inst) {
            Ok(s) => s,
            Err(_) => return Err(DecodeError::UnknownSymbol),
        };
        let text = match data.get("ts") {
            Some(v) => match v.as_str() {
                Some(t) => t,
                None => return Err(DecodeError::Malformed),
            },
            None => return Err(DecodeError::Malformed),
        };
        let ts = match parse_unsigned_exec(text, u64::MAX) {
            Some(ts) => ts,
            None => return Err(DecodeError::InvalidTimestamp),
        };
        Ok(ActionDecoder::Publish(OrderBookDto {
            exchange: Exchange::Okx,
            symbol,
            ask_price,
            ask_amount,
            bid_price,
            bid_amount,
            pair_link: Exchange::Okx.pair_url(symbol),
            timestamp: ts,
        }))
    }
}

/// What a raw Okx frame asks for: the JSON document it holds, decoded;
/// a frame that holds no JSON document is malformed.
pub open spec fn okx_frame_spec(bytes: Seq<u8>) -> Result<ActionView, DecodeError> {
    match json_parse(bytes) {
        Some(j) => okx_decode_spec(j),
        None => Err(DecodeError::Malformed),
    }
}

impl OkxOrderBookDecoder {
    /// Decodes a raw Okx frame.
    pub fn decode(&self, bytes: &[u8]) -> (r: Result<ActionDecoder, DecodeError>)
        ensures
            decode_view(r) == okx_frame_spec(bytes@),
            decoded_wf(r),
    {
        match parse_json(bytes) {
            Some(j) => self.decode_parsed(&j),
            None => Err(DecodeError::Malformed),
        }
    }
}


/// A published OKX snapshot is the message's own: its symbol is the one
/// `arg.instId` names, its ask price and size are the first level of the
/// first data element's `asks`, its bid price and size the first level of
/// its `bids`, its time is that element's millisecond `ts` text, and it
/// carries OKX's link for its symbol.
pub proof fn lemma_okx_fields(j: Json)
    ensures
        okx_decode_spec(j) matches Ok(ActionView::Publish(v)) ==> {
            &&& v.exchange == Exchange::Okx
            &&& json_get(j, "arg"@) matches Some(arg) && names_symbol(arg, "instId"@, v.symbol)
            &&& json_array(json_get(j, "data"@)) matches Some(items) && items.len() > 0 && {
                let data = items[0];
                &&& reads_as(top_row_item(json_get(data, "asks"@), 0), v.ask_price)
                &&& reads_as(top_row_item(json_get(data, "asks"@), 1), v.ask_amount)
                &&& reads_as(top_row_item(json_get(data, "bids"@), 0), v.bid_price)
                &&& reads_as(top_row_item(json_get(data, "bids"@), 1), v.bid_amount)
                &&& json_str(json_get(data, "ts"@)) matches Some(t) && parse_unsigned(t, u64::MAX as int) == Some(v.timestamp as int)
            }
            &&& v.pair_link == Exchange::Okx.pair_url_spec(v.symbol)
        },
{
    if let Some(items) = json_array(json_get(j, "data"@)) {
        if items.len() > 0 {
            if let Some(t) = json_str(json_get(items[0], "ts"@)) {
                lemma_parse_unsigned_range(t, u64::MAX as int);
            }
        }
    }
    if okx_decode_spec(j) is Ok && okx_decode_spec(j)->Ok_0 is Publish {
        let items = json_get(j, "data"@)->0->Array_0@;
        let data = items[0];
        assert(okx_data_ok(data));
        let asks = json_get(data, "asks"@)->0->Array_0@;
        let bids = json_get(data, "bids"@)->0->Array_0@;
        assert(okx_level_ok(asks[0]));
        assert(okx_level_ok(bids[0]));
        let ra = asks[0]->Array_0@;
        let rb = bids[0]->Array_0@;
        assert(val_to_dec_spec(ra[0]) is Ok && val_to_dec_spec(ra[1]) is Ok);
        assert(val_to_dec_spec(rb[0]) is Ok && val_to_dec_spec(rb[1]) is Ok);
    }
}

} // verus!
