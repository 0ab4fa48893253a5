use arbitrage_scanner::decoder::utils::{find_named, normalize_symbol};
use arbitrage_scanner::exchange::Symbol;

fn norm(s: &str) -> Option<Symbol> {
    normalize_symbol(s).ok()
}

#[test]
fn exact_names() {
    assert_eq!(norm("BTC"), Some(Symbol::Btc));
    assert_eq!(norm("btc"), Some(Symbol::Btc));
    assert_eq!(norm("  eth \n"), Some(Symbol::Eth));
    assert_eq!(norm("1INCH"), Some(Symbol::Inch1));
    assert_eq!(norm("1000cheems"), Some(Symbol::Cheems1000));
}

#[test]
fn quote_suffix_is_removed() {
    assert_eq!(norm("BTCUSDT"), Some(Symbol::Btc));
    assert_eq!(norm("btcusdt"), Some(Symbol::Btc));
    assert_eq!(norm("USDEUSDT"), Some(Symbol::Usde));
    assert_eq!(norm("BNSOLUSDT"), Some(Symbol::Bnsol));
    assert_eq!(norm("1000CHEEMSUSDT"), Some(Symbol::Cheems1000));
    assert_eq!(norm("TRUMPUSDT"), Some(Symbol::Trump));
}

#[test]
fn separators_fall_back_to_longest_prefix() {
    assert_eq!(norm("BTC-USDT"), Some(Symbol::Btc));
    assert_eq!(norm("eth_usdt"), Some(Symbol::Eth));
    assert_eq!(norm("WBTC_USDT"), Some(Symbol::Wbtc));
    assert_eq!(norm("WBETH-USDT"), Some(Symbol::Wbeth));
    assert_eq!(norm("PENGUUSDT-SWAP"), Some(Symbol::Pengu));
    assert_eq!(norm("ETHW"), Some(Symbol::Eth));
}

#[test]
fn unknown_input_reports_normalised_text() {
    let err = normalize_symbol("  unknown ").unwrap_err();
    assert_eq!(err.input, "UNKNOWN");
    assert!(normalize_symbol("").is_err());
    assert!(normalize_symbol("-BTC").is_err());
}

#[test]
fn every_name_maps_back() {
    for s in Symbol::all() {
        assert_eq!(norm(s.as_str()), Some(s));
        assert_eq!(norm(&format!("{}USDT", s.as_str().to_lowercase())), Some(s));
        assert_eq!(find_named(s.as_str()), Some(s));
    }
}

#[test]
fn result_name_begins_input() {
    for input in ["SOLANA", "DOGECOIN", "SUIX", "APTOS", "ORDINALS"] {
        if let Some(s) = norm(input) {
            assert!(input.starts_with(s.as_str()));
        }
    }
    assert_eq!(find_named("btc"), None);
}

#[test]
fn every_name_and_its_usdt_spellings_map_back() {
    for sym in Symbol::all() {
        let n = sym.as_str();
        assert_eq!(norm(n), Some(sym));
        assert_eq!(norm(&format!("{n}USDT")), Some(sym));
        assert_eq!(norm(&format!("{}usdt", n.to_ascii_lowercase())), Some(sym));
        assert_eq!(norm(&format!("{n}_USDT")), Some(sym));
        assert_eq!(norm(&format!("{n}-USDT")), Some(sym));
    }
}

#[test]
fn case_and_padding_do_not_matter() {
    for s in ["eth_usdt", "Sol-Usdt", "dogeusdt", "1inch", "nothing", "1000cheems_usdt"] {
        assert_eq!(norm(s), norm(&s.to_ascii_uppercase()));
        assert_eq!(norm(s), norm(&format!("  {s}  ")));
        assert_eq!(norm(s), norm(&format!("\t{s}\n")));
    }
}

#[test]
fn longest_matching_name_wins() {
    // "XUSD" and "USD1" are tracked names; no name is another followed by
    // the start of "USDT", so every branch gives the longest match.
    assert_eq!(norm("XUSDUSDT"), Some(Symbol::Xusd));
    assert_eq!(norm("USD1USDT"), Some(Symbol::Usd1));
    assert_eq!(norm("WBETHX"), Some(Symbol::Wbeth));
}
