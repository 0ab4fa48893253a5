use arbitrage_scanner::arbitrage::order_book::{compare, prepare_books, OrderBookArbitrage, STALENESS_LIMIT};
use arbitrage_scanner::decimal::Dec;
use arbitrage_scanner::dto::{OrderBookDto, SignalDto};
use arbitrage_scanner::exchange::{Exchange, Symbol};
use arbitrage_scanner::signal::order_signals;
use rust_decimal::Decimal;
use std::sync::Arc;

fn dec(d: Dec) -> Decimal {
    Decimal::from_i128_with_scale(d.mantissa, d.scale)
}

fn book(exchange: Exchange, ask: i128, ask_amount: i128, bid: i128, bid_amount: i128, ts: u64) -> OrderBookDto {
    OrderBookDto {
        exchange,
        symbol: Symbol::Btc,
        ask_price: Dec::new(ask, 0),
        ask_amount: Dec::new(ask_amount, 0),
        bid_price: Dec::new(bid, 0),
        bid_amount: Dec::new(bid_amount, 0),
        pair_link: exchange.pair_url(Symbol::Btc),
        timestamp: ts,
    }
}

fn fee(ex: Exchange) -> Decimal {
    let d = arbitrage_scanner::arbitrage::utils::taker_fee(&ex);
    dec(d)
}

#[test]
fn buys_cheapest_sells_richest_elsewhere() {
    let books = vec![
        book(Exchange::Binance, 101, 5, 100, 4, 0),
        book(Exchange::Okx, 100, 3, 99, 9, 0),
        book(Exchange::Gate, 103, 1, 102, 2, 0),
    ];
    let sig = compare(Symbol::Btc, &books).expect("an opportunity");
    assert_eq!(sig.symbol, Symbol::Btc);
    assert_eq!(sig.buy_exchange, Exchange::Okx);
    assert_eq!(sig.sell_exchange, Exchange::Gate);
    assert_eq!(sig.buy_price, Dec::new(100, 0));
    assert_eq!(sig.sell_price, Dec::new(102, 0));
    assert_eq!(sig.volume, Dec::new(2, 0));
    assert_eq!(sig.buy_link, "https://okx.com/trade-spot/BTC-usdt");
    assert_eq!(sig.sell_link, "https://gate.io/trade/BTC_USDT");
    let hundred = Decimal::from(100);
    assert_eq!(dec(sig.gross_percent), Decimal::from(2) / hundred * hundred);
    let buy_eff = Decimal::from(100) * (Decimal::ONE + fee(Exchange::Okx));
    let sell_eff = Decimal::from(102) * (Decimal::ONE - fee(Exchange::Gate));
    assert_eq!(dec(sig.net_percent), (sell_eff - buy_eff) / buy_eff * hundred);
}

#[test]
fn sell_side_excludes_buy_exchange() {
    let books = vec![
        book(Exchange::Okx, 100, 3, 150, 9, 0),
        book(Exchange::Gate, 110, 1, 105, 2, 0),
    ];
    let sig = compare(Symbol::Btc, &books).unwrap();
    assert_eq!(sig.buy_exchange, Exchange::Okx);
    assert_eq!(sig.sell_exchange, Exchange::Gate);
}

#[test]
fn no_positive_spread_no_signal() {
    let books = vec![
        book(Exchange::Binance, 100, 5, 99, 4, 0),
        book(Exchange::Okx, 101, 3, 100, 9, 0),
    ];
    assert!(compare(Symbol::Btc, &books).is_none());
}

#[test]
fn one_exchange_no_signal() {
    let books = vec![book(Exchange::Bybit, 100, 1, 120, 1, 0), book(Exchange::Bybit, 90, 1, 130, 1, 0)];
    assert!(compare(Symbol::Btc, &books).is_none());
    assert!(compare(Symbol::Btc, &[]).is_none());
}

#[test]
fn ties_keep_first_book() {
    let books = vec![
        book(Exchange::Bybit, 100, 1, 90, 1, 0),
        book(Exchange::Bitget, 100, 7, 90, 1, 0),
        book(Exchange::Binance, 110, 1, 105, 1, 0),
        book(Exchange::Bitget, 111, 1, 105, 1, 0),
    ];
    let sig = compare(Symbol::Btc, &books).unwrap();
    assert_eq!(sig.buy_exchange, Exchange::Bybit);
    assert_eq!(sig.sell_exchange, Exchange::Binance);
    assert_eq!(sig.volume, Dec::new(1, 0));
}

#[test]
fn zero_ask_gives_no_signal() {
    let books = vec![book(Exchange::Okx, 0, 1, 0, 1, 0), book(Exchange::Gate, 5, 1, 5, 1, 0)];
    assert!(compare(Symbol::Btc, &books).is_none());
}

#[test]
fn stale_books_are_dropped() {
    let now = 10_000;
    let books = vec![
        book(Exchange::Okx, 1, 1, 1, 1, now - STALENESS_LIMIT),
        book(Exchange::Gate, 1, 1, 1, 1, now - STALENESS_LIMIT - 1),
        book(Exchange::Bybit, 1, 1, 1, 1, now + 50),
        book(Exchange::Htx, 1, 1, 1, 1, 0),
    ];
    let fresh = prepare_books(now, books);
    let kept: Vec<Exchange> = fresh.iter().map(|b| b.exchange).collect();
    assert_eq!(kept, vec![Exchange::Okx, Exchange::Bybit]);
}

fn signal(net: i128) -> SignalDto {
    SignalDto {
        symbol: Symbol::Eth,
        buy_exchange: Exchange::Okx,
        sell_exchange: Exchange::Gate,
        buy_price: Dec::new(1, 0),
        sell_price: Dec::new(1, 0),
        volume: Dec::new(1, 0),
        gross_percent: Dec::new(1, 0),
        net_percent: Dec::new(net, 2),
        buy_link: String::new(),
        sell_link: String::new(),
    }
}

#[test]
fn profitable_signals_first_in_order() {
    let batch = vec![signal(-1), signal(5), signal(0), signal(2), signal(-3)];
    let ordered: Vec<i128> = order_signals(batch).iter().map(|s| s.net_percent.mantissa).collect();
    assert_eq!(ordered, vec![5, 2, -1, 0, -3]);
}

#[test]
fn arbitrage_task_holds_its_buses() {
    let a = OrderBookArbitrage::new(5, Arc::new(1u8), Arc::new("signals"));
    assert_eq!(a.tick_secs, 5);
    assert_eq!(*a.order_book_bus, 1);
    assert_eq!(*a.signal_bus, "signals");
}

#[test]
fn every_signal_at_a_positive_price_sells_higher() {
    let prices = [1i128, 2, 99, 100, 101, 5000];
    for &a1 in &prices {
        for &b1 in &prices {
            for &a2 in &prices {
                for &b2 in &prices {
                    let books = vec![book(Exchange::Okx, a1, 3, b1, 4, 0), book(Exchange::Gate, a2, 5, b2, 6, 0)];
                    if let Some(sig) = compare(Symbol::Btc, &books) {
                        assert!(dec(sig.sell_price) > dec(sig.buy_price));
                        assert_ne!(sig.buy_exchange, sig.sell_exchange);
                    }
                }
            }
        }
    }
}
