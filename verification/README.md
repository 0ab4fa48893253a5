# arbitrage_scanner

A spot arbitrage scanner: it reads the best bid and ask of USDT pairs from
several exchanges' websocket feeds, compares them per symbol with each
exchange's taker fee, and serves the opportunities as server-sent events.

The decision-making core is a Verus-verified library:

- `src/exchange.rs` — the exchanges and tracked symbols, their trading links
  and snapshot slots.
- `src/decimal.rs`, `src/text.rs`, `src/json.rs` — decimals (computed by
  `rust_decimal`), text helpers and the JSON shape the decoders read.
- `src/decoder/` — one decoder per exchange message format, and symbol
  normalisation.
- `src/arbitrage/` — freshness filtering and the best buy/sell comparison.
- `src/stream/` — listings, subscription planning, heartbeats and the
  per-message decisions of a running connection.
- `src/signal.rs` — the order in which signals are pushed.

`app/` is the unverified process around it: HTTP listings, websockets,
channels, the SSE server and the conversions to and from `serde_json` and
`rust_decimal`. `tests/` exercises the library on concrete values.
