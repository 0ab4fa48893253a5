use arbitrage_scanner::exchange::{book_slot, Exchange, Symbol, EXCHANGE_COUNT, SYMBOL_COUNT};

#[test]
fn pair_url_bybit_btc() {
    assert_eq!(Exchange::Bybit.pair_url(Symbol::Btc), "https://www.bybit.com/trade/spot/BTC/USDT");
}

#[test]
fn pair_url_every_exchange() {
    assert_eq!(Exchange::Gate.pair_url(Symbol::Eth), "https://gate.io/trade/ETH_USDT");
    assert_eq!(Exchange::Bitget.pair_url(Symbol::Sol), "https://bitget.com/spot/SOLUSDT");
    assert_eq!(Exchange::Binance.pair_url(Symbol::Doge), "https://binance.com/trade/DOGE_USDT");
    assert_eq!(Exchange::Htx.pair_url(Symbol::Xrp), "https://htx.com/trade/xrp_usdt?type=spot");
    assert_eq!(Exchange::Okx.pair_url(Symbol::Ton), "https://okx.com/trade-spot/TON-usdt");
    assert_eq!(Exchange::Mexc.pair_url(Symbol::Pepe), "https://www.mexc.com/exchange/PEPE_USDT");
}

#[test]
fn pair_url_renamed_symbols() {
    assert_eq!(Exchange::Htx.pair_url(Symbol::Inch1), "https://htx.com/trade/1inch_usdt?type=spot");
    assert_eq!(Exchange::Binance.pair_url(Symbol::Cheems1000), "https://binance.com/trade/1000CHEEMS_USDT");
}

#[test]
fn symbol_names() {
    assert_eq!(Symbol::Btc.as_str(), "BTC");
    assert_eq!(Symbol::Usd1.as_str(), "USD1");
    assert_eq!(Symbol::Wbeth.as_str(), "WBETH");
    assert_eq!(Symbol::Inch1.as_str(), "1INCH");
    assert_eq!(Symbol::Cheems1000.as_str(), "1000CHEEMS");
    assert_eq!(Symbol::Ordi.as_str(), "ORDI");
}

#[test]
fn symbol_table_is_complete() {
    let all = Symbol::all();
    assert_eq!(all.len(), SYMBOL_COUNT);
    assert_eq!(SYMBOL_COUNT, 127);
    for (i, s) in all.iter().enumerate() {
        assert_eq!(s.index(), i);
        assert_eq!(Symbol::from_index(i), *s);
    }
    assert_eq!(all[0], Symbol::Btc);
    assert_eq!(all[SYMBOL_COUNT - 1], Symbol::Ordi);
}

#[test]
fn symbol_names_are_distinct_upper_case() {
    let all = Symbol::all();
    for (i, a) in all.iter().enumerate() {
        let name = a.as_str();
        assert_eq!(name, name.to_uppercase());
        for b in all.iter().skip(i + 1) {
            assert_ne!(name, b.as_str());
        }
    }
}

#[test]
fn exchange_table() {
    let all = Exchange::all();
    assert_eq!(all.len(), EXCHANGE_COUNT);
    assert_eq!(all, vec![
        Exchange::Bybit,
        Exchange::Gate,
        Exchange::Bitget,
        Exchange::Binance,
        Exchange::Htx,
        Exchange::Okx,
        Exchange::Mexc
    ]);
    for (i, e) in all.iter().enumerate() {
        assert_eq!(e.index(), i);
    }
}

#[test]
fn defaults() {
    assert_eq!(Exchange::default(), Exchange::Bybit);
    assert_eq!(Symbol::default(), Symbol::Btc);
}

#[test]
fn book_slots_are_distinct() {
    let mut seen = vec![false; EXCHANGE_COUNT * SYMBOL_COUNT];
    for e in Exchange::all() {
        for s in Symbol::all() {
            let slot = book_slot(e, s);
            assert!(slot < EXCHANGE_COUNT * SYMBOL_COUNT);
            assert!(!seen[slot]);
            seen[slot] = true;
        }
    }
    assert_eq!(book_slot(Exchange::Gate, Symbol::Eth), SYMBOL_COUNT + 1);
}

#[test]
fn every_exchange_and_symbol_has_its_own_link() {
    let mut links = std::collections::HashSet::new();
    for e in Exchange::all() {
        for s in Symbol::all() {
            assert!(links.insert(e.pair_url(s)));
        }
    }
    assert_eq!(links.len(), EXCHANGE_COUNT * SYMBOL_COUNT);
}
