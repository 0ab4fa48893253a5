use arbitrage_scanner::dto::{ActionDecoder, DecodeError, OrderBookDto};
use arbitrage_scanner::decimal::Dec;
use arbitrage_scanner::exchange::{Exchange, Symbol, SYMBOL_COUNT};
use arbitrage_scanner::json::{Json, JsonNumber};
use arbitrage_scanner::services::{OrderBookStreamManager, StreamService};
use arbitrage_scanner::stream::base_order_book::BaseOrderBookStream;
use arbitrage_scanner::stream::binance::BinanceOrderBookStream;
use arbitrage_scanner::stream::bitget::BitgetOrderBookStream;
use arbitrage_scanner::stream::bybit::BybitOrderBookStream;
use arbitrage_scanner::stream::gate::GateOrderBookStream;
use arbitrage_scanner::stream::htx::HtxOrderBookStream;
use arbitrage_scanner::stream::mexc::MexcOrderBookStream;
use arbitrage_scanner::stream::okx::OkxOrderBookStream;
use arbitrage_scanner::stream::order_book::{is_silent, on_decoded, ping_message, subscription_messages, Outgoing, StreamAction};
use arbitrage_scanner::stream::supported_pair::{get_tickers, SupportedPair};
use std::sync::Arc;

fn s(t: &str) -> Json {
    Json::Str(t.to_string())
}

fn obj(members: Vec<(&str, Json)>) -> Json {
    Json::Object(members.into_iter().map(|(k, v)| (k.to_string(), v)).collect())
}

/// Compact JSON text of a value, members in their order.
fn text(j: &Json) -> String {
    match j {
        Json::Null => "null".to_string(),
        Json::Bool(b) => b.to_string(),
        Json::Number(n) => n.text.clone(),
        Json::Str(s) => format!("\"{}\"", s),
        Json::Array(items) => format!("[{}]", items.iter().map(text).collect::<Vec<_>>().join(",")),
        Json::Object(es) => format!(
            "{{{}}}",
            es.iter().map(|(k, v)| format!("\"{}\":{}", k, text(v))).collect::<Vec<_>>().join(",")
        ),
    }
}

fn tickers(n: usize) -> Vec<String> {
    Symbol::all().iter().take(n).map(|s| s.as_str().to_string()).collect()
}

#[test]
fn binance_batches() {
    let b = BinanceOrderBookStream::get_batches(&tickers(12));
    assert_eq!(b.len(), 2);
    assert_eq!(
        text(&b[0]),
        "{\"method\":\"SUBSCRIBE\",\"params\":[\"btcusdt@bookTicker\",\"ethusdt@bookTicker\",\"xrpusdt@bookTicker\",\"bnbusdt@bookTicker\",\"solusdt@bookTicker\",\"dogeusdt@bookTicker\",\"adausdt@bookTicker\",\"trxusdt@bookTicker\",\"wlfiusdt@bookTicker\",\"wbtcusdt@bookTicker\"],\"id\":\"WBTC\"}"
    );
    assert_eq!(
        text(&b[1]),
        "{\"method\":\"SUBSCRIBE\",\"params\":[\"linkusdt@bookTicker\",\"avaxusdt@bookTicker\"],\"id\":1}"
    );
    assert_eq!(BinanceOrderBookStream::get_ws_url(), "wss://stream.binance.com:9443/ws");
    assert_eq!(<BinanceOrderBookStream as SupportedPair>::get_rest_url(), "https://api.binance.com/api/v3/exchangeInfo");
}

#[test]
fn batch_sizes() {
    for (n, sizes) in [(0, vec![]), (1, vec![1]), (10, vec![10]), (23, vec![10, 10, 3]), (30, vec![10, 10, 10])] {
        let b = BybitOrderBookStream::get_batches(&tickers(n));
        let got: Vec<usize> = b
            .iter()
            .map(|m| match m.get("args").and_then(|a| a.as_array()) {
                Some(a) => a.len(),
                None => panic!("no args"),
            })
            .collect();
        assert_eq!(got, sizes);
    }
}

#[test]
fn other_exchange_batches() {
    let t = tickers(2);
    assert_eq!(
        text(&BitgetOrderBookStream::get_batches(&t)[0]),
        "{\"op\":\"subscribe\",\"args\":[{\"instType\":\"SPOT\",\"channel\":\"books1\",\"instId\":\"BTCUSDT\"},{\"instType\":\"SPOT\",\"channel\":\"books1\",\"instId\":\"ETHUSDT\"}]}"
    );
    assert_eq!(
        text(&BybitOrderBookStream::get_batches(&t)[0]),
        "{\"op\":\"subscribe\",\"args\":[\"orderbook.1.BTCUSDT\",\"orderbook.1.ETHUSDT\"]}"
    );
    assert_eq!(
        text(&GateOrderBookStream::get_batches_at(&t, vec![1700000000])[0]),
        "{\"time\":1700000000,\"channel\":\"spot.book_ticker\",\"event\":\"subscribe\",\"payload\":[\"BTC_USDT\",\"ETH_USDT\"]}"
    );
    assert_eq!(
        text(&HtxOrderBookStream::get_batches(&t)[0]),
        "{\"batches\":[{\"sub\":\"market.btcusdt.bbo\",\"id\":\"btc-bbo\"},{\"sub\":\"market.ethusdt.bbo\",\"id\":\"eth-bbo\"}]}"
    );
    assert_eq!(
        text(&OkxOrderBookStream::get_batches(&t)[0]),
        "{\"op\":\"subscribe\",\"args\":[{\"channel\":\"bbo-tbt\",\"instId\":\"BTC-USDT\"},{\"channel\":\"bbo-tbt\",\"instId\":\"ETH-USDT\"}]}"
    );
}

#[test]
fn gate_reads_the_clock_for_each_batch() {
    let readings = std::cell::Cell::new(100u64);
    let clock = || {
        readings.set(readings.get() + 1);
        readings.get()
    };
    let b = GateOrderBookStream::get_batches(&tickers(23), &clock);
    let times: Vec<String> = b.iter().map(|m| text(m.get("time").unwrap())).collect();
    assert_eq!(times, vec!["101", "102", "103"]);
    assert_eq!(readings.get(), 103);
    let at = GateOrderBookStream::get_batches_at(&tickers(11), vec![5, 9]);
    assert_eq!(text(at[1].get("time").unwrap()), "9");
    assert_eq!(text(at[1].get("payload").unwrap()), "[\"LINK_USDT\"]");
}

#[test]
fn tickers_are_lower_cased_by_unicode_rules() {
    let t = vec!["ÄRT".to_string(), "İX".to_string()];
    assert_eq!(
        text(&BinanceOrderBookStream::get_batches(&t)[0]),
        format!("{{\"method\":\"SUBSCRIBE\",\"params\":[\"ärtusdt@bookTicker\",\"{}usdt@bookTicker\"],\"id\":1}}", "İX".to_lowercase())
    );
    assert_eq!(
        text(&HtxOrderBookStream::get_batches(&t[..1].to_vec())[0]),
        "{\"batches\":[{\"sub\":\"market.ärtusdt.bbo\",\"id\":\"ärt-bbo\"}]}"
    );
}

#[test]
fn mexc_subscribes_every_symbol() {
    let b = MexcOrderBookStream::get_batches();
    assert_eq!(b.len(), (SYMBOL_COUNT + 9) / 10);
    assert_eq!(
        text(b[0].get("params").unwrap().as_array().unwrap().first().unwrap()),
        "\"spot@public.aggre.bookTicker.v3.api.pb@100ms@BTCUSDT\""
    );
    assert_eq!(b[12].get("params").unwrap().as_array().unwrap().len(), SYMBOL_COUNT - 120);
    assert_eq!(MexcOrderBookStream::get_ws_url(), "wss://wbs-api.mexc.com/ws");
}

fn listing() -> Json {
    obj(vec![(
        "symbols",
        Json::Array(vec![
            obj(vec![("status", s("TRADING")), ("isSpotTradingAllowed", Json::Bool(true)), ("quoteAsset", s("USDT")), ("baseAsset", s("BTC"))]),
            obj(vec![("status", s("BREAK")), ("isSpotTradingAllowed", Json::Bool(true)), ("quoteAsset", s("USDT")), ("baseAsset", s("ETH"))]),
            obj(vec![("status", s("TRADING")), ("isSpotTradingAllowed", Json::Bool(true)), ("quoteAsset", s("BTC")), ("baseAsset", s("SOL"))]),
            obj(vec![("status", s("TRADING")), ("isSpotTradingAllowed", Json::Bool(true)), ("quoteAsset", s("USDT")), ("baseAsset", s("NOPE"))]),
            obj(vec![("status", s("TRADING")), ("isSpotTradingAllowed", Json::Bool(true)), ("quoteAsset", s("USDT")), ("baseAsset", s("SUI"))]),
        ]),
    )])
}

#[test]
fn listed_tickers() {
    assert_eq!(get_tickers::<BinanceOrderBookStream>(&listing(), "/symbols", "baseAsset"), vec!["BTC", "SUI"]);
    assert!(get_tickers::<BinanceOrderBookStream>(&listing(), "/data", "baseAsset").is_empty());
    let bare = Json::Array(vec![obj(vec![("trade_status", s("tradable")), ("quote", s("USDT")), ("base", s("ETH"))])]);
    assert_eq!(get_tickers::<GateOrderBookStream>(&bare, "", "base"), vec!["ETH"]);
}

#[test]
fn filters() {
    let okx = obj(vec![("state", s("live")), ("ruleType", s("normal")), ("quoteCcy", s("USDT")), ("baseCcy", s("TON"))]);
    assert!(OkxOrderBookStream::filter(&okx));
    let okx_pre = obj(vec![("state", s("live")), ("ruleType", s("pre_market")), ("quoteCcy", s("USDT")), ("baseCcy", s("TON"))]);
    assert!(!OkxOrderBookStream::filter(&okx_pre));
    let htx = obj(vec![("state", s("online")), ("te", Json::Bool(true)), ("qcdn", s("USDT")), ("bcdn", s("DOT"))]);
    assert!(HtxOrderBookStream::filter(&htx));
    let htx_lower = obj(vec![("state", s("online")), ("te", Json::Bool(true)), ("qcdn", s("USDT")), ("bcdn", s("dot"))]);
    assert!(!HtxOrderBookStream::filter(&htx_lower));
    let bitget = obj(vec![("state", s("online")), ("quoteCoin", s("USDT")), ("baseCoin", s("1INCH"))]);
    assert!(BitgetOrderBookStream::filter(&bitget));
    let bybit = obj(vec![("status", s("Trading")), ("quoteCoin", s("USDC")), ("baseCoin", s("BTC"))]);
    assert!(!BybitOrderBookStream::filter(&bybit));
}

#[test]
fn subscription_message_lists() {
    let htx = HtxOrderBookStream::get_batches(&tickers(3));
    assert_eq!(subscription_messages(&htx[0]).len(), 3);
    let okx = OkxOrderBookStream::get_batches(&tickers(3));
    let msgs = subscription_messages(&okx[0]);
    assert_eq!(msgs.len(), 1);
    assert_eq!(text(msgs[0]), text(&okx[0]));
}

#[test]
fn heartbeats() {
    match ping_message(Exchange::Okx, 5) {
        Some(Outgoing::Raw(t)) => assert_eq!(t, "ping"),
        other => panic!("{:?}", other),
    }
    match ping_message(Exchange::Bitget, 5) {
        Some(Outgoing::Raw(t)) => assert_eq!(t, "ping"),
        other => panic!("{:?}", other),
    }
    match ping_message(Exchange::Gate, 17) {
        Some(Outgoing::Json(j)) => assert_eq!(text(&j), "{\"time\":17,\"channel\":\"spot.ping\"}"),
        other => panic!("{:?}", other),
    }
    match ping_message(Exchange::Bybit, 17) {
        Some(Outgoing::Json(j)) => assert_eq!(text(&j), "{\"req_id\":17,\"op\":\"ping\"}"),
        other => panic!("{:?}", other),
    }
    assert!(ping_message(Exchange::Binance, 1).is_none());
    assert!(ping_message(Exchange::Htx, 1).is_none());
    assert!(ping_message(Exchange::Mexc, 1).is_none());
    assert!(is_silent(20001));
    assert!(!is_silent(20000));
}

fn dto() -> OrderBookDto {
    OrderBookDto {
        exchange: Exchange::Okx,
        symbol: Symbol::Btc,
        ask_price: Dec::new(1, 0),
        ask_amount: Dec::new(1, 0),
        bid_price: Dec::new(1, 0),
        bid_amount: Dec::new(1, 0),
        pair_link: String::new(),
        timestamp: 0,
    }
}

#[test]
fn decoded_messages_drive_the_stream() {
    let (a, n) = on_decoded(Exchange::Okx, 0, Ok(ActionDecoder::Publish(dto())));
    assert!(matches!(a, StreamAction::Publish(_)));
    assert_eq!(n, 0);
    let (a, _) = on_decoded(Exchange::Okx, 0, Ok(ActionDecoder::Skip));
    assert!(matches!(a, StreamAction::Continue));
    match on_decoded(Exchange::Htx, 2, Ok(ActionDecoder::Pong(42))) {
        (StreamAction::Send(Outgoing::Json(j)), 2) => assert_eq!(text(&j), "{\"pong\":42}"),
        other => panic!("{:?}", other),
    }
    let (a, _) = on_decoded(Exchange::Okx, 0, Ok(ActionDecoder::Pong(42)));
    assert!(matches!(a, StreamAction::Continue));
    let (a, n) = on_decoded(Exchange::Okx, 30, Err(DecodeError::Malformed));
    assert!(matches!(a, StreamAction::Continue));
    assert_eq!(n, 31);
    let (a, n) = on_decoded(Exchange::Okx, 31, Err(DecodeError::Malformed));
    assert!(matches!(a, StreamAction::Reconnect));
    assert_eq!(n, 31);
}

#[test]
fn decode_failures_drop_the_connection_at_the_thirty_second() {
    let mut count = 0u32;
    let mut failures = 0u32;
    loop {
        failures += 1;
        let (a, n) = on_decoded(Exchange::Gate, count, Err(DecodeError::InvalidDecimal));
        if matches!(a, StreamAction::Reconnect) {
            break;
        }
        assert!(n <= 31);
        count = n;
        let (a, n) = on_decoded(Exchange::Gate, count, Ok(ActionDecoder::Skip));
        assert!(matches!(a, StreamAction::Continue));
        assert_eq!(n, count);
    }
    assert_eq!(failures, 32);
    assert_eq!(count, 31);
}

#[test]
fn base_stream_helpers() {
    let list = BaseOrderBookStream { url: String::new(), subscribe_message: "  [{\"a\":1}]".to_string(), order_book_bus: Arc::new(()), decoder: () };
    assert!(list.is_message_list());
    let single = BaseOrderBookStream { url: String::new(), subscribe_message: "{\"a\":1}".to_string(), order_book_bus: Arc::new(()), decoder: () };
    assert!(!single.is_message_list());
    let ping = obj(vec![("ping", Json::Number(JsonNumber { text: "7".to_string(), unsigned: Some(7), float_decimal: None }))]);
    let reply = BaseOrderBookStream::<(), ()>::ping_reply(ping).unwrap();
    assert_eq!(text(&reply), "{\"pong\":7}");
    assert!(BaseOrderBookStream::<(), ()>::ping_reply(obj(vec![("x", Json::Null)])).is_none());
}

#[test]
fn base_stream_parses_its_texts() {
    let list = BaseOrderBookStream { url: String::new(), subscribe_message: " [{\"a\":1},\"x\"]".to_string(), order_book_bus: Arc::new(()), decoder: () };
    match list.subscription().unwrap().as_slice() {
        [Outgoing::Json(a), Outgoing::Json(b)] => {
            assert_eq!(text(a), "{\"a\":1}");
            assert_eq!(text(b), "\"x\"");
        }
        other => panic!("{:?}", other),
    }
    let broken = BaseOrderBookStream { url: String::new(), subscribe_message: "[{".to_string(), order_book_bus: Arc::new(()), decoder: () };
    assert!(broken.subscription().is_none());
    let single = BaseOrderBookStream { url: String::new(), subscribe_message: "{\"op\":1}".to_string(), order_book_bus: Arc::new(()), decoder: () };
    match single.subscription().unwrap().as_slice() {
        [Outgoing::Raw(t)] => assert_eq!(t, "{\"op\":1}"),
        other => panic!("{:?}", other),
    }
    let reply = BaseOrderBookStream::<(), ()>::text_reply("{\"ping\":123}").unwrap();
    assert_eq!(text(&reply), "{\"pong\":123}");
    assert!(BaseOrderBookStream::<(), ()>::text_reply("{\"tick\":1}").is_none());
    assert!(BaseOrderBookStream::<(), ()>::text_reply("not json").is_none());
}

#[test]
fn manager_and_service() {
    let manager = Arc::new(OrderBookStreamManager::new(Arc::new(5u32)));
    assert_eq!(*manager.broker, 5);
    let service = StreamService::new(Arc::clone(&manager));
    assert!(Arc::ptr_eq(service.stream(), &manager));
}
