//! Decoding of exchange order-book messages.

pub mod utils;
pub mod binance;
pub mod bybit;
pub mod bitget;
pub mod htx;
pub mod gate;
pub mod okx;

use crate::decoder::binance::{binance_decode_spec, binance_frame_spec};
use crate::decoder::bitget::{bitget_decode_spec, bitget_frame_spec};
use crate::decoder::bybit::{bybit_decode_spec, bybit_frame_spec};
use crate::decoder::gate::{gate_decode_spec, gate_frame_spec};
use crate::decoder::htx::{htx_decode_spec, htx_frame_spec};
use crate::decoder::okx::{okx_decode_spec, okx_frame_spec};
use crate::decoder::binance::BinanceOrderBookDecoder;
use crate::decoder::bitget::BitgetOrderBookDecoder;
use crate::decoder::bybit::BybitOrderBookDecoder;
use crate::decoder::gate::GateOrderBookDecoder;
use crate::decoder::htx::HtxOrderBookDecoder;
use crate::decoder::okx::OkxOrderBookDecoder;
use crate::dto::{decode_view, decoded_wf, ActionDecoder, ActionView, DecodeError};
use crate::exchange::Exchange;
use crate::decoder::htx::gzip_inflate;
use crate::json::{json_parse, Json};
use vstd::prelude::*;

verus! {

/// A decoder of one exchange's websocket frames.
pub trait OrderBookDecoder {
    /// What a raw frame received at `now` asks for.
    spec fn frame_spec(&self, bytes: Seq<u8>, now: u64) -> Result<ActionView, DecodeError>;

    /// Decodes a raw frame received at `now`; a published snapshot is
    /// well-formed.
    fn decode_frame(&self, bytes: &[u8], now: u64) -> (r: Result<ActionDecoder, DecodeError>)
        ensures
            decode_view(r) == self.frame_spec(bytes@, now),
            decoded_wf(r);
}

impl OrderBookDecoder for BinanceOrderBookDecoder {
    open spec fn frame_spec(&self, bytes: Seq<u8>, now: u64) -> Result<ActionView, DecodeError> {
        binance_frame_spec(bytes, now)
    }

    fn decode_frame(&self, bytes: &[u8], now: u64) -> (r: Result<ActionDecoder, DecodeError>) {
        self.decode(bytes, now)
    }
}

impl OrderBookDecoder for BybitOrderBookDecoder {
    open spec fn frame_spec(&self, bytes: Seq<u8>, now: u64) -> Result<ActionView, DecodeError> {
        bybit_frame_spec(bytes)
    }

    fn decode_frame(&self, bytes: &[u8], now: u64) -> (r: Result<ActionDecoder, DecodeError>) {
        self.decode(bytes)
    }
}

impl OrderBookDecoder for BitgetOrderBookDecoder {
    open spec fn frame_spec(&self, bytes: Seq<u8>, now: u64) -> Result<ActionView, DecodeError> {
        bitget_frame_spec(bytes)
    }

    fn decode_frame(&self, bytes: &[u8], now: u64) -> (r: Result<ActionDecoder, DecodeError>) {
        self.decode(bytes)
    }
}

impl OrderBookDecoder for GateOrderBookDecoder {
    open spec fn frame_spec(&self, bytes: Seq<u8>, now: u64) -> Result<ActionView, DecodeError> {
        gate_frame_spec(bytes)
    }

    fn decode_frame(&self, bytes: &[u8], now: u64) -> (r: Result<ActionDecoder, DecodeError>) {
        self.decode(bytes)
    }
}

impl OrderBookDecoder for HtxOrderBookDecoder {
    open spec fn frame_spec(&self, bytes: Seq<u8>, now: u64) -> Result<ActionView, DecodeError> {
        htx_frame_spec(bytes)
    }

    fn decode_frame(&self, bytes: &[u8], now: u64) -> (r: Result<ActionDecoder, DecodeError>) {
        self.decode(bytes)
    }
}

impl OrderBookDecoder for OkxOrderBookDecoder {
    open spec fn frame_spec(&self, bytes: Seq<u8>, now: u64) -> Result<ActionView, DecodeError> {
        okx_frame_spec(bytes)
    }

    fn decode_frame(&self, bytes: &[u8], now: u64) -> (r: Result<ActionDecoder, DecodeError>) {
        self.decode(bytes)
    }
}

/// A decoded outcome that publishes nothing, or a snapshot carrying
/// `exchange` and that exchange's trading link for the snapshot's symbol.
pub open spec fn stamped_by(r: Result<ActionView, DecodeError>, exchange: Exchange) -> bool {
    r matches Ok(ActionView::Publish(v)) ==> v.exchange == exchange && v.pair_link
        == exchange.pair_url_spec(v.symbol)
}

/// Every snapshot a decoder publishes carries the decoder's own exchange
/// and that exchange's trading link for the snapshot's symbol, whatever the
/// message.
pub proof fn lemma_decoders_stamp_their_exchange(j: Json, now: u64)
    ensures
        stamped_by(binance_decode_spec(j, now), Exchange::Binance),
        stamped_by(bybit_decode_spec(j), Exchange::Bybit),
        stamped_by(bitget_decode_spec(j), Exchange::Bitget),
        stamped_by(gate_decode_spec(j), Exchange::Gate),
        stamped_by(htx_decode_spec(j), Exchange::Htx),
        stamped_by(okx_decode_spec(j), Exchange::Okx),
{
}

/// The same holds of raw frames: every snapshot decoded from a frame
/// carries the decoder's exchange and its trading link for the symbol.
pub proof fn lemma_frames_stamp_their_exchange(bytes: Seq<u8>, now: u64)
    ensures
        stamped_by(binance_frame_spec(bytes, now), Exchange::Binance),
        stamped_by(bybit_frame_spec(bytes), Exchange::Bybit),
        stamped_by(bitget_frame_spec(bytes), Exchange::Bitget),
        stamped_by(gate_frame_spec(bytes), Exchange::Gate),
        stamped_by(htx_frame_spec(bytes), Exchange::Htx),
        stamped_by(okx_frame_spec(bytes), Exchange::Okx),
{
    if let Some(j) = json_parse(bytes) {
        lemma_decoders_stamp_their_exchange(j, now);
    }
    if let Some(text) = gzip_inflate(bytes) {
        if let Some(j) = json_parse(text) {
            lemma_decoders_stamp_their_exchange(j, now);
        }
    }
}

} // verus!
