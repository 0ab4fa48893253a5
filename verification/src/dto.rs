//! The values the scanner passes between its parts: top-of-book snapshots,
//! arbitrage signals and what a decoded message asks for.

use crate::decimal::Dec;
use crate::exchange::{Exchange, Symbol};
use vstd::prelude::*;

verus! {

/// The best ask and best bid of one exchange for one symbol.
#[derive(Debug)]
pub struct OrderBookDto {
    pub exchange: Exchange,
    pub symbol: Symbol,
    pub ask_price: Dec,
    pub ask_amount: Dec,
    pub bid_price: Dec,
    pub bid_amount: Dec,
    pub pair_link: String,
    pub timestamp: u64,
}

/// An `OrderBookDto` with its link as a character sequence.
pub struct OrderBookView {
    pub exchange: Exchange,
    pub symbol: Symbol,
    pub ask_price: Dec,
    pub ask_amount: Dec,
    pub bid_price: Dec,
    pub bid_amount: Dec,
    pub pair_link: Seq<char>,
    pub timestamp: u64,
}

impl View for OrderBookDto {
    type V = OrderBookView;

    open spec fn view(&self) -> OrderBookView {
        OrderBookView {
            exchange: self.exchange,
            symbol: self.symbol,
            ask_price: self.ask_price,
            ask_amount: self.ask_amount,
            bid_price: self.bid_price,
            bid_amount: self.bid_amount,
            pair_link: self.pair_link@,
            timestamp: self.timestamp,
        }
    }
}

impl OrderBookDto {
    /// All four quantities are well-formed decimals.
    pub open spec fn wf(&self) -> bool {
        &&& self.ask_price.wf()
        &&& self.ask_amount.wf()
        &&& self.bid_price.wf()
        &&& self.bid_amount.wf()
    }
}

/// A cross-exchange opportunity: buy at `buy_exchange`'s ask, sell at
/// `sell_exchange`'s bid.
#[derive(Debug)]
pub struct SignalDto {
    pub symbol: Symbol,
    pub buy_exchange: Exchange,
    pub sell_exchange: Exchange,
    pub buy_price: Dec,
    pub sell_price: Dec,
    pub volume: Dec,
    pub gross_percent: Dec,
    pub net_percent: Dec,
    pub buy_link: String,
    pub sell_link: String,
}

/// A `SignalDto` with its links as character sequences.
pub struct SignalView {
    pub symbol: Symbol,
    pub buy_exchange: Exchange,
    pub sell_exchange: Exchange,
    pub buy_price: Dec,
    pub sell_price: Dec,
    pub volume: Dec,
    pub gross_percent: Dec,
    pub net_percent: Dec,
    pub buy_link: Seq<char>,
    pub sell_link: Seq<char>,
}

impl View for SignalDto {
    type V = SignalView;

    open spec fn view(&self) -> SignalView {
        SignalView {
            symbol: self.symbol,
            buy_exchange: self.buy_exchange,
            sell_exchange: self.sell_exchange,
            buy_price: self.buy_price,
            sell_price: self.sell_price,
            volume: self.volume,
            gross_percent: self.gross_percent,
            net_percent: self.net_percent,
            buy_link: self.buy_link@,
            sell_link: self.sell_link@,
        }
    }
}

/// What a decoded exchange message asks the stream to do.
#[derive(Debug)]
pub enum ActionDecoder {
    /// Answer a heartbeat carrying this value.
    Pong(u64),
    /// Publish this snapshot.
    Publish(OrderBookDto),
    /// Nothing to do.
    Skip,
}

/// An `ActionDecoder` seen through the view of its snapshot.
pub enum ActionView {
    Pong(u64),
    Publish(OrderBookView),
    Skip,
}

impl View for ActionDecoder {
    type V = ActionView;

    open spec fn view(&self) -> ActionView {
        match self {
            ActionDecoder::Pong(ts) => ActionView::Pong(*ts),
            ActionDecoder::Publish(dto) => ActionView::Publish(dto@),
            ActionDecoder::Skip => ActionView::Skip,
        }
    }
}

/// Why a message could not be decoded.
#[derive(Debug, Clone, Copy, PartialEq, Eq, Structural)]
pub enum DecodeError {
    /// The compressed frame could not be inflated.
    Gzip,
    /// The message has no symbol field.
    MissingSymbol,
    /// The symbol field names no tracked symbol.
    UnknownSymbol,
    MissingAskPrice,
    MissingAskAmount,
    MissingBidPrice,
    MissingBidAmount,
    /// The message has no asks side.
    MissingAsks,
    /// The message has no bids side.
    MissingBids,
    /// The message's data array is missing or empty.
    MissingData,
    MissingTimestamp,
    /// The timestamp text is not an unsigned integer.
    InvalidTimestamp,
    /// A book side is not an array whose first element is an array.
    MissingRow,
    /// A book row has no price.
    MissingPrice,
    /// A book row has no size.
    MissingSize,
    /// A quantity is neither a string nor a number.
    NotANumber,
    /// A quantity's text is not a decimal number.
    InvalidDecimal,
    /// The message does not have the expected structure.
    Malformed,
}

/// A decoder's outcome seen through the view of the action.
pub open spec fn decode_view(r: Result<ActionDecoder, DecodeError>) -> Result<ActionView, DecodeError> {
    match r {
        Ok(a) => Ok(a@),
        Err(e) => Err(e),
    }
}

/// The published snapshot of a decoder's outcome, if any, is well-formed.
pub open spec fn decoded_wf(r: Result<ActionDecoder, DecodeError>) -> bool {
    r matches Ok(ActionDecoder::Publish(dto)) ==> dto.wf()
}

} // verus!
