//! The set of exchange streams the scanner runs, and the service owning it.

use crate::stream::binance::BinanceOrderBookStream;
use crate::stream::bitget::BitgetOrderBookStream;
use crate::stream::bybit::BybitOrderBookStream;
use crate::stream::gate::GateOrderBookStream;
use crate::stream::htx::HtxOrderBookStream;
use crate::stream::okx::OkxOrderBookStream;
use std::sync::Arc;
use vstd::prelude::*;

verus! {

/// The exchange streams that run, with the bus they publish to.
pub struct OrderBookStreamManager<B> {
    pub broker: Arc<B>,
    pub htx: HtxOrderBookStream,
    pub okx: OkxOrderBookStream,
    pub gate: GateOrderBookStream,
    pub bybit: BybitOrderBookStream,
    pub bitget: BitgetOrderBookStream,
    pub binance: BinanceOrderBookStream,
}

impl<B> OrderBookStreamManager<B> {
    /// The streams of HTX, OKX, Gate, Bybit, Bitget and Binance, publishing
    /// to `order_book_broker`.
    pub fn new(order_book_broker: Arc<B>) -> (m: Self)
        ensures
            m.broker == order_book_broker,
    {
        OrderBookStreamManager {
            broker: order_book_broker,
            htx: HtxOrderBookStream,
            okx: OkxOrderBookStream,
            gate: GateOrderBookStream,
            bybit: BybitOrderBookStream,
            bitget: BitgetOrderBookStream,
            binance: BinanceOrderBookStream,
        }
    }
}

/// The service that runs the exchange streams.
pub struct StreamService<B> {
    stream: Arc<OrderBookStreamManager<B>>,
}

impl<B> StreamService<B> {
    /// The service running the streams of `stream`.
    pub fn new(stream: Arc<OrderBookStreamManager<B>>) -> (s: Self)
        ensures
            s.streams() == stream,
    {
        StreamService { stream }
    }

    /// The streams this service runs.
    pub closed spec fn streams(&self) -> Arc<OrderBookStreamManager<B>> {
        self.stream
    }

    /// The streams this service runs.
    pub fn stream(&self) -> (r: &Arc<OrderBookStreamManager<B>>)
        ensures
            *r == self.streams(),
    {
        &self.stream
    }
}

} // verus!
