use arbitrage_scanner::decimal::Dec;
use arbitrage_scanner::decoder::binance::BinanceOrderBookDecoder;
use arbitrage_scanner::decoder::bitget::BitgetOrderBookDecoder;
use arbitrage_scanner::decoder::bybit::BybitOrderBookDecoder;
use arbitrage_scanner::decoder::gate::GateOrderBookDecoder;
use arbitrage_scanner::decoder::htx::HtxOrderBookDecoder;
use arbitrage_scanner::decoder::okx::OkxOrderBookDecoder;
use arbitrage_scanner::decoder::OrderBookDecoder;
use arbitrage_scanner::decoder::utils::{get_price_and_size, val_to_dec};
use arbitrage_scanner::dto::{ActionDecoder, DecodeError, OrderBookDto};
use arbitrage_scanner::exchange::{Exchange, Symbol};
use arbitrage_scanner::json::{Json, JsonNumber};
use std::io::Write;

fn s(t: &str) -> Json {
    Json::Str(t.to_string())
}

fn n(t: &str, unsigned: Option<u64>, float_decimal: Option<Dec>) -> Json {
    Json::Number(JsonNumber { text: t.to_string(), unsigned, float_decimal })
}

fn u(v: u64) -> Json {
    n(&v.to_string(), Some(v), Some(Dec::new(v as i128, 0)))
}

fn obj(members: Vec<(&str, Json)>) -> Json {
    Json::Object(members.into_iter().map(|(k, v)| (k.to_string(), v)).collect())
}

fn arr(items: Vec<Json>) -> Json {
    Json::Array(items)
}

fn published(r: Result<ActionDecoder, DecodeError>) -> OrderBookDto {
    match r {
        Ok(ActionDecoder::Publish(dto)) => dto,
        other => panic!("expected a snapshot, got {:?}", other),
    }
}

fn is_skip(r: &Result<ActionDecoder, DecodeError>) -> bool {
    matches!(r, Ok(ActionDecoder::Skip))
}

#[test]
fn value_to_decimal() {
    assert_eq!(val_to_dec(&s("0.25")), Ok(Dec::new(25, 2)));
    assert_eq!(val_to_dec(&n("1.5", None, None)), Ok(Dec::new(15, 1)));
    assert_eq!(val_to_dec(&s("x")), Err(DecodeError::InvalidDecimal));
    assert_eq!(val_to_dec(&Json::Null), Err(DecodeError::NotANumber));
    assert_eq!(val_to_dec(&Json::Bool(true)), Err(DecodeError::NotANumber));
}

#[test]
fn first_row_price_and_size() {
    let side = arr(vec![arr(vec![s("10.5"), s("2")]), arr(vec![s("10.4"), s("3")])]);
    assert_eq!(get_price_and_size(&side), Ok((Dec::new(105, 1), Dec::new(2, 0))));
    assert_eq!(get_price_and_size(&arr(vec![])), Err(DecodeError::MissingRow));
    assert_eq!(get_price_and_size(&s("x")), Err(DecodeError::MissingRow));
    assert_eq!(get_price_and_size(&arr(vec![s("1")])), Err(DecodeError::MissingRow));
    assert_eq!(get_price_and_size(&arr(vec![arr(vec![])])), Err(DecodeError::MissingPrice));
    assert_eq!(get_price_and_size(&arr(vec![arr(vec![s("1")])])), Err(DecodeError::MissingSize));
}

fn binance_msg() -> Json {
    obj(vec![
        ("u", u(400900217)),
        ("s", s("BNBUSDT")),
        ("b", s("25.35190000")),
        ("B", s("31.21000000")),
        ("a", s("25.36520000")),
        ("A", s("40.66000000")),
    ])
}

#[test]
fn binance_book_ticker() {
    let dto = published(BinanceOrderBookDecoder.decode_parsed(&binance_msg(), 1_700_000_000_000));
    assert_eq!(dto.exchange, Exchange::Binance);
    assert_eq!(dto.symbol, Symbol::Bnb);
    assert_eq!(dto.ask_price, Dec::new(2536520000, 8));
    assert_eq!(dto.ask_amount, Dec::new(4066000000, 8));
    assert_eq!(dto.bid_price, Dec::new(2535190000, 8));
    assert_eq!(dto.bid_amount, Dec::new(3121000000, 8));
    assert_eq!(dto.pair_link, "https://binance.com/trade/BNB_USDT");
    assert_eq!(dto.timestamp, 1_700_000_000_000);
}

#[test]
fn binance_skips_and_errors() {
    let ack = obj(vec![("result", Json::Null), ("id", u(1))]);
    assert!(is_skip(&BinanceOrderBookDecoder.decode_parsed(&ack, 0)));
    let failure = obj(vec![("code", u(400)), ("msg", s("bad"))]);
    assert!(is_skip(&BinanceOrderBookDecoder.decode_parsed(&failure, 0)));
    let low_code = obj(vec![("code", u(399))]);
    assert_eq!(BinanceOrderBookDecoder.decode_parsed(&low_code, 0).unwrap_err(), DecodeError::MissingSymbol);
    let unknown = obj(vec![("s", s("NOPEUSDT"))]);
    assert_eq!(BinanceOrderBookDecoder.decode_parsed(&unknown, 0).unwrap_err(), DecodeError::UnknownSymbol);
    let no_ask = obj(vec![("s", s("BTCUSDT")), ("A", s("1"))]);
    assert_eq!(BinanceOrderBookDecoder.decode_parsed(&no_ask, 0).unwrap_err(), DecodeError::MissingAskPrice);
    let bad_bid = obj(vec![("s", s("BTCUSDT")), ("a", s("1")), ("A", s("1")), ("b", s("x")), ("B", s("1"))]);
    assert_eq!(BinanceOrderBookDecoder.decode_parsed(&bad_bid, 0).unwrap_err(), DecodeError::InvalidDecimal);
}

fn bybit_msg() -> Json {
    obj(vec![
        ("topic", s("orderbook.1.BTCUSDT")),
        ("ts", u(1672304484978)),
        ("type", s("snapshot")),
        ("data", obj(vec![
            ("s", s("BTCUSDT")),
            ("b", arr(vec![arr(vec![s("16493.50"), s("0.006")])])),
            ("a", arr(vec![arr(vec![s("16611.00"), s("0.029")])])),
        ])),
    ])
}

#[test]
fn bybit_orderbook() {
    let dto = published(BybitOrderBookDecoder.decode_parsed(&bybit_msg()));
    assert_eq!(dto.exchange, Exchange::Bybit);
    assert_eq!(dto.symbol, Symbol::Btc);
    assert_eq!(dto.ask_price, Dec::new(1661100, 2));
    assert_eq!(dto.ask_amount, Dec::new(29, 3));
    assert_eq!(dto.bid_price, Dec::new(1649350, 2));
    assert_eq!(dto.bid_amount, Dec::new(6, 3));
    assert_eq!(dto.timestamp, 1672304484);
    assert_eq!(dto.pair_link, "https://www.bybit.com/trade/spot/BTC/USDT");
}

#[test]
fn bybit_skips_and_errors() {
    assert!(is_skip(&BybitOrderBookDecoder.decode_parsed(&obj(vec![("ret_msg", s("pong"))]))));
    assert!(is_skip(&BybitOrderBookDecoder.decode_parsed(&obj(vec![("success", Json::Bool(true))]))));
    assert!(is_skip(&BybitOrderBookDecoder.decode_parsed(&obj(vec![("success", Json::Bool(false))]))));
    assert!(is_skip(&BybitOrderBookDecoder.decode_parsed(&obj(vec![("op", s("x"))]))));
    let no_ts = obj(vec![("data", obj(vec![
        ("s", s("ETHUSDT")),
        ("b", arr(vec![arr(vec![s("1"), s("1")])])),
        ("a", arr(vec![arr(vec![s("2"), s("1")])])),
    ]))]);
    assert_eq!(BybitOrderBookDecoder.decode_parsed(&no_ts).unwrap_err(), DecodeError::MissingTimestamp);
    let no_asks = obj(vec![("data", obj(vec![("s", s("ETHUSDT"))]))]);
    assert_eq!(BybitOrderBookDecoder.decode_parsed(&no_asks).unwrap_err(), DecodeError::MissingAsks);
}

fn bitget_msg(ts: Json) -> Json {
    obj(vec![
        ("action", s("snapshot")),
        ("arg", obj(vec![("instType", s("SPOT")), ("channel", s("books1")), ("instId", s("ETHUSDT"))])),
        ("data", arr(vec![obj(vec![
            ("asks", arr(vec![arr(vec![s("2501.5"), s("1.2")])])),
            ("bids", arr(vec![arr(vec![s("2501.4"), s("0.7")])])),
            ("ts", ts),
        ])])),
    ])
}

#[test]
fn bitget_books1() {
    let dto = published(BitgetOrderBookDecoder.decode_parsed(&bitget_msg(s("1695716059516"))));
    assert_eq!(dto.exchange, Exchange::Bitget);
    assert_eq!(dto.symbol, Symbol::Eth);
    assert_eq!(dto.ask_price, Dec::new(25015, 1));
    assert_eq!(dto.bid_amount, Dec::new(7, 1));
    assert_eq!(dto.timestamp, 1695716059);
    assert_eq!(dto.pair_link, "https://bitget.com/spot/ETHUSDT");
}

#[test]
fn bitget_skips_and_errors() {
    assert!(BitgetOrderBookDecoder::is_pong(b"pong"));
    assert!(BitgetOrderBookDecoder::is_pong(b"PoNg"));
    assert!(!BitgetOrderBookDecoder::is_pong(b"ping"));
    assert!(!BitgetOrderBookDecoder::is_pong(b"pong "));
    assert!(is_skip(&BitgetOrderBookDecoder.decode_parsed(&obj(vec![("event", s("subscribe"))]))));
    assert!(is_skip(&BitgetOrderBookDecoder.decode_parsed(&obj(vec![("event", s("error"))]))));
    assert!(is_skip(&BitgetOrderBookDecoder.decode_parsed(&obj(vec![("other", u(1))]))));
    assert_eq!(BitgetOrderBookDecoder.decode_parsed(&bitget_msg(s("12x"))).unwrap_err(), DecodeError::InvalidTimestamp);
    assert_eq!(BitgetOrderBookDecoder.decode_parsed(&bitget_msg(u(5))).unwrap_err(), DecodeError::MissingTimestamp);
    let empty = obj(vec![("arg", obj(vec![("instId", s("ETHUSDT"))])), ("data", arr(vec![]))]);
    assert_eq!(BitgetOrderBookDecoder.decode_parsed(&empty).unwrap_err(), DecodeError::MissingData);
}

fn gate_msg() -> Json {
    obj(vec![
        ("time", u(1606292218)),
        ("channel", s("spot.book_ticker")),
        ("event", s("update")),
        ("result", obj(vec![
            ("t", u(1606292218213)),
            ("s", s("BTC_USDT")),
            ("b", s("19177.79")),
            ("B", s("0.0003341504")),
            ("a", s("19179.38")),
            ("A", s("0.09")),
        ])),
    ])
}

#[test]
fn gate_book_ticker() {
    let dto = published(GateOrderBookDecoder.decode_parsed(&gate_msg()));
    assert_eq!(dto.exchange, Exchange::Gate);
    assert_eq!(dto.symbol, Symbol::Btc);
    assert_eq!(dto.ask_price, Dec::new(1917938, 2));
    assert_eq!(dto.ask_amount, Dec::new(9, 2));
    assert_eq!(dto.bid_price, Dec::new(1917779, 2));
    assert_eq!(dto.bid_amount, Dec::new(3341504, 10));
    assert_eq!(dto.timestamp, 1606292218);
    assert_eq!(dto.pair_link, "https://gate.io/trade/BTC_USDT");
}

#[test]
fn gate_skips() {
    assert!(is_skip(&GateOrderBookDecoder.decode_parsed(&obj(vec![("channel", s("spot.pong"))]))));
    let ok = obj(vec![("result", obj(vec![("status", s("success"))]))]);
    assert!(is_skip(&GateOrderBookDecoder.decode_parsed(&ok)));
    let literal = obj(vec![("/result/status", s("fail"))]);
    assert!(is_skip(&GateOrderBookDecoder.decode_parsed(&literal)));
    let failed = obj(vec![("result", obj(vec![("status", s("fail"))]))]);
    assert_eq!(GateOrderBookDecoder.decode_parsed(&failed).unwrap_err(), DecodeError::MissingSymbol);
    assert!(is_skip(&GateOrderBookDecoder.decode_parsed(&obj(vec![]))));
}

fn htx_msg() -> Json {
    obj(vec![
        ("ch", s("market.btcusdt.bbo")),
        ("ts", u(1630981694370)),
        ("tick", obj(vec![
            ("symbol", s("btcusdt")),
            ("ask", n("52665.69", None, Some(Dec::new(5266569, 2)))),
            ("askSize", n("1.502181", None, Some(Dec::new(1502181, 6)))),
            ("bid", n("52665.68", None, Some(Dec::new(5266568, 2)))),
            ("bidSize", n("0.2", None, Some(Dec::new(2, 1)))),
        ])),
    ])
}

#[test]
fn htx_bbo() {
    let dto = published(HtxOrderBookDecoder.decode_parsed(&htx_msg()));
    assert_eq!(dto.exchange, Exchange::Htx);
    assert_eq!(dto.symbol, Symbol::Btc);
    assert_eq!(dto.ask_price, Dec::new(5266569, 2));
    assert_eq!(dto.bid_amount, Dec::new(2, 1));
    assert_eq!(dto.timestamp, 1630981694);
    assert_eq!(dto.pair_link, "https://htx.com/trade/btc_usdt?type=spot");
}

#[test]
fn htx_ping_and_status() {
    match HtxOrderBookDecoder.decode_parsed(&obj(vec![("ping", u(1492420473027))])) {
        Ok(ActionDecoder::Pong(ts)) => assert_eq!(ts, 1492420473027),
        other => panic!("expected a pong, got {:?}", other),
    }
    assert!(is_skip(&HtxOrderBookDecoder.decode_parsed(&obj(vec![("status", s("ok"))]))));
    assert!(is_skip(&HtxOrderBookDecoder.decode_parsed(&obj(vec![("status", s("error"))]))));
    let text_price = obj(vec![("tick", obj(vec![("symbol", s("ethusdt")), ("ask", s("1"))]))]);
    assert_eq!(HtxOrderBookDecoder.decode_parsed(&text_price).unwrap_err(), DecodeError::MissingAskPrice);
}

#[test]
fn htx_gzip_frames() {
    let mut enc = flate2::write::GzEncoder::new(Vec::new(), flate2::Compression::default());
    enc.write_all(b"{\"ping\":1}").unwrap();
    let frame = enc.finish().unwrap();
    assert_eq!(HtxOrderBookDecoder::g_unzip(&frame).unwrap(), b"{\"ping\":1}".to_vec());
    assert_eq!(HtxOrderBookDecoder.inflate_frame(&frame).unwrap(), Some(b"{\"ping\":1}".to_vec()));
    let empty = flate2::write::GzEncoder::new(Vec::new(), flate2::Compression::default()).finish().unwrap();
    assert_eq!(HtxOrderBookDecoder.inflate_frame(&empty).unwrap(), None);
    assert_eq!(HtxOrderBookDecoder::g_unzip(b"not gzip").unwrap_err(), DecodeError::Gzip);
}

fn okx_level(p: &str, q: &str) -> Json {
    arr(vec![s(p), s(q), s("0"), s("2")])
}

fn okx_msg(data: Vec<Json>) -> Json {
    obj(vec![
        ("arg", obj(vec![("channel", s("bbo-tbt")), ("instId", s("BTC-USDT"))])),
        ("data", arr(data)),
    ])
}

fn okx_data(asks: Vec<Json>, ts: &str) -> Json {
    obj(vec![
        ("asks", arr(asks)),
        ("bids", arr(vec![okx_level("8476.97", "256")])),
        ("ts", s(ts)),
    ])
}

#[test]
fn okx_bbo() {
    let msg = okx_msg(vec![okx_data(vec![okx_level("8476.98", "415")], "1597026383085")]);
    let dto = published(OkxOrderBookDecoder.decode_parsed(&msg));
    assert_eq!(dto.exchange, Exchange::Okx);
    assert_eq!(dto.symbol, Symbol::Btc);
    assert_eq!(dto.ask_price, Dec::new(847698, 2));
    assert_eq!(dto.ask_amount, Dec::new(415, 0));
    assert_eq!(dto.bid_price, Dec::new(847697, 2));
    assert_eq!(dto.bid_amount, Dec::new(256, 0));
    assert_eq!(dto.timestamp, 1597026383085);
    assert_eq!(dto.pair_link, "https://okx.com/trade-spot/BTC-usdt");
}

#[test]
fn okx_errors() {
    let event = obj(vec![("event", s("subscribe")), ("arg", obj(vec![("instId", s("BTC-USDT"))]))]);
    assert_eq!(OkxOrderBookDecoder.decode_parsed(&event).unwrap_err(), DecodeError::Malformed);
    let short_level = okx_msg(vec![okx_data(vec![arr(vec![s("1"), s("2")])], "1")]);
    assert_eq!(OkxOrderBookDecoder.decode_parsed(&short_level).unwrap_err(), DecodeError::Malformed);
    assert_eq!(OkxOrderBookDecoder.decode_parsed(&okx_msg(vec![])).unwrap_err(), DecodeError::MissingData);
    let no_asks = okx_msg(vec![okx_data(vec![], "1")]);
    assert_eq!(OkxOrderBookDecoder.decode_parsed(&no_asks).unwrap_err(), DecodeError::MissingAsks);
    let bad_ts = okx_msg(vec![okx_data(vec![okx_level("1", "1")], "soon")]);
    assert_eq!(OkxOrderBookDecoder.decode_parsed(&bad_ts).unwrap_err(), DecodeError::InvalidTimestamp);
}

fn gzip(bytes: &[u8]) -> Vec<u8> {
    let mut enc = flate2::write::GzEncoder::new(Vec::new(), flate2::Compression::default());
    enc.write_all(bytes).unwrap();
    enc.finish().unwrap()
}

#[test]
fn raw_frames_are_parsed_then_decoded() {
    let frame = br#"{"u":400900217,"s":"BNBUSDT","b":"25.35190000","B":"31.21000000","a":"25.36520000","A":"40.66000000"}"#;
    let dto = published(BinanceOrderBookDecoder.decode(frame, 7));
    assert_eq!(dto.symbol, Symbol::Bnb);
    assert_eq!(dto.ask_price, Dec::new(2536520000, 8));
    assert_eq!(dto.timestamp, 7);
    assert_eq!(BinanceOrderBookDecoder.decode(b"not json", 7).unwrap_err(), DecodeError::Malformed);

    let gate = br#"{"time":1606292218,"channel":"spot.book_ticker","event":"update","result":{"t":1606292218213,"s":"BTC_USDT","b":"19177.79","B":"0.0003341504","a":"19179.38","A":"0.09"}}"#;
    let dto = published(GateOrderBookDecoder.decode(gate));
    assert_eq!((dto.exchange, dto.symbol, dto.timestamp), (Exchange::Gate, Symbol::Btc, 1606292218));
    assert_eq!(dto.bid_price, Dec::new(1917779, 2));
    assert!(is_skip(&GateOrderBookDecoder.decode(br#"{"channel":"spot.pong"}"#)));
    assert_eq!(GateOrderBookDecoder.decode(b"{").unwrap_err(), DecodeError::Malformed);

    assert!(is_skip(&BybitOrderBookDecoder.decode(br#"{"success":true}"#)));
    assert_eq!(BybitOrderBookDecoder.decode(b"").unwrap_err(), DecodeError::Malformed);
    assert_eq!(OkxOrderBookDecoder.decode(b"pong").unwrap_err(), DecodeError::Malformed);
}

#[test]
fn bitget_pong_frames_are_skipped_before_parsing() {
    assert!(is_skip(&BitgetOrderBookDecoder.decode(b"pong")));
    assert!(is_skip(&BitgetOrderBookDecoder.decode(b"PONG")));
    assert!(is_skip(&BitgetOrderBookDecoder.decode(br#"{"event":"subscribe"}"#)));
    assert_eq!(BitgetOrderBookDecoder.decode(b"ping").unwrap_err(), DecodeError::Malformed);
}

#[test]
fn htx_frames_are_inflated_parsed_and_decoded() {
    let frame = gzip(br#"{"ch":"market.btcusdt.bbo","ts":1630981694370,"tick":{"symbol":"btcusdt","ask":52665.69,"askSize":1.502181,"bid":52665.68,"bidSize":0.2}}"#);
    let dto = published(HtxOrderBookDecoder.decode(&frame));
    assert_eq!(dto.symbol, Symbol::Btc);
    assert_eq!(dto.ask_price, Dec::new(5266569, 2));
    assert_eq!(dto.bid_amount, Dec::new(2, 1));
    assert_eq!(dto.timestamp, 1630981694);
    match HtxOrderBookDecoder.decode(&gzip(br#"{"ping":1492420473027}"#)) {
        Ok(ActionDecoder::Pong(ts)) => assert_eq!(ts, 1492420473027),
        other => panic!("expected a pong, got {:?}", other),
    }
    assert!(is_skip(&HtxOrderBookDecoder.decode(&gzip(b""))));
    assert_eq!(HtxOrderBookDecoder.decode(&gzip(b"nope")).unwrap_err(), DecodeError::Malformed);
    assert_eq!(HtxOrderBookDecoder.decode(b"not gzip").unwrap_err(), DecodeError::Gzip);
}

fn run<D: OrderBookDecoder>(d: &D, bytes: &[u8]) -> Result<ActionDecoder, DecodeError> {
    d.decode_frame(bytes, 42)
}

#[test]
fn decoders_share_one_frame_interface() {
    let frame = br#"{"u":1,"s":"ETHUSDT","b":"1","B":"2","a":"3","A":"4"}"#;
    assert_eq!(published(run(&BinanceOrderBookDecoder, frame)).timestamp, 42);
    assert!(is_skip(&run(&BitgetOrderBookDecoder, b"pong")));
    assert_eq!(run(&OkxOrderBookDecoder, b"x").unwrap_err(), DecodeError::Malformed);
    assert_eq!(run(&HtxOrderBookDecoder, b"x").unwrap_err(), DecodeError::Gzip);
    assert!(is_skip(&run(&GateOrderBookDecoder, br#"{"channel":"spot.pong"}"#)));
    assert!(is_skip(&run(&BybitOrderBookDecoder, br#"{"success":true}"#)));
}
