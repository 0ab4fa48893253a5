//! The exchanges the scanner reads and the spot symbols it tracks, with
//! their names and trading-page links.

use crate::symbol_names::{is_name_char, lemma_names_unique, lemma_symbol_name};
use crate::text::{ascii_lower, lower, to_ascii_lowercase};
use vstd::prelude::*;

verus! {

/// Number of tracked symbols.
pub const SYMBOL_COUNT: usize = 127;

/// Number of supported exchanges.
pub const EXCHANGE_COUNT: usize = 7;

/// A centralised exchange.
#[derive(Clone, Copy, Debug, PartialEq, Eq, Structural, Hash)]
pub enum Exchange {
    Bybit,
    Gate,
    Bitget,
    Binance,
    Htx,
    Okx,
    Mexc,
}

impl Default for Exchange {
    fn default() -> (r: Exchange)
        ensures
            r == Exchange::Bybit,
    {
        Exchange::Bybit
    }
}

/// All exchanges, in declaration order.
pub open spec fn all_exchanges() -> Seq<Exchange> {
    seq![
        Exchange::Bybit,
        Exchange::Gate,
        Exchange::Bitget,
        Exchange::Binance,
        Exchange::Htx,
        Exchange::Okx,
        Exchange::Mexc,
    ]
}

impl Exchange {
    /// All exchanges, in declaration order.
    pub fn all() -> (v: Vec<Exchange>)
        ensures
            v@ == all_exchanges(),
    {
        let mut v = Vec::new();
        v.push(Exchange::Bybit);
        v.push(Exchange::Gate);
        v.push(Exchange::Bitget);
        v.push(Exchange::Binance);
        v.push(Exchange::Htx);
        v.push(Exchange::Okx);
        v.push(Exchange::Mexc);
        assert(v@ =~= all_exchanges());
        v
    }

    /// The exchange's position in the declaration order.
    pub open spec fn ord(self) -> int {
        match self {
            Exchange::Bybit => 0,
            Exchange::Gate => 1,
            Exchange::Bitget => 2,
            Exchange::Binance => 3,
            Exchange::Htx => 4,
            Exchange::Okx => 5,
            Exchange::Mexc => 6,
        }
    }

    /// The exchange's position in the declaration order.
    pub fn index(&self) -> (i: usize)
        ensures
            i == self.ord(),
            i < EXCHANGE_COUNT,
    {
        match self {
            Exchange::Bybit => 0,
            Exchange::Gate => 1,
            Exchange::Bitget => 2,
            Exchange::Binance => 3,
            Exchange::Htx => 4,
            Exchange::Okx => 5,
            Exchange::Mexc => 6,
        }
    }

    /// The link of the exchange's spot trading page for `symbol` against USDT.
    pub open spec fn pair_url_spec(self, symbol: Symbol) -> Seq<char> {
        match self {
            Exchange::Bybit => "https://www.bybit.com/trade/spot/"@ + symbol.name() + "/USDT"@,
            Exchange::Gate => "https://gate.io/trade/"@ + symbol.name() + "_USDT"@,
            Exchange::Bitget => "https://bitget.com/spot/"@ + symbol.name() + "USDT"@,
            Exchange::Binance => "https://binance.com/trade/"@ + symbol.name() + "_USDT"@,
            Exchange::Htx => "https://htx.com/trade/"@ + lower(symbol.name()) + "_usdt?type=spot"@,
            Exchange::Okx => "https://okx.com/trade-spot/"@ + symbol.name() + "-usdt"@,
            Exchange::Mexc => "https://www.mexc.com/exchange/"@ + symbol.name() + "_USDT"@,
        }
    }

    /// The link of the exchange's spot trading page for `symbol` against USDT.
    pub fn pair_url(&self, symbol: Symbol) -> (url: String)
        ensures
            url@ == self.pair_url_spec(symbol),
    {
        let name = symbol.as_str();
        match self {
            Exchange::Bybit => String::from_str("https://www.bybit.com/trade/spot/").concat(name).concat("/USDT"),
            Exchange::Gate => String::from_str("https://gate.io/trade/").concat(name).concat("_USDT"),
            Exchange::Bitget => String::from_str("https://bitget.com/spot/").concat(name).concat("USDT"),
            Exchange::Binance => String::from_str("https://binance.com/trade/").concat(name).concat("_USDT"),
            Exchange::Htx => {
                let low = to_ascii_lowercase(name);
                String::from_str("https://htx.com/trade/").concat(low.as_str()).concat("_usdt?type=spot")
            },
            Exchange::Okx => String::from_str("https://okx.com/trade-spot/").concat(name).concat("-usdt"),
            Exchange::Mexc => String::from_str("https://www.mexc.com/exchange/").concat(name).concat("_USDT"),
        }
    }
}

/// A tracked spot asset, quoted against USDT.
#[derive(Clone, Copy, Debug, PartialEq, Eq, Structural, Hash)]
pub enum Symbol {
    Btc,
    Eth,
    Xrp,
    Bnb,
    Sol,
    Doge,
    Ada,
    Trx,
    Wlfi,
    Wbtc,
    Link,
    Avax,
    Usde,
    Bch,
    Xlm,
    Sui,
    Xusd,
    Usd1,
    Hbar,
    Wbeth,
    Ltc,
    Trump,
    Ton,
    Shib,
    Zkc,
    Pump,
    Dot,
    Uni,
    Aave,
    Pepe,
    Near,
    Etc,
    Apt,
    Tao,
    Icp,
    Pengu,
    Linea,
    Pol,
    Arb,
    Render,
    Vet,
    Ena,
    Algo,
    Fdusd,
    Bonk,
    Atom,
    Bnsol,
    Fet,
    Fil,
    Imx,
    Ondo,
    Inj,
    Sei,
    Bera,
    Wld,
    Virtual,
    Somi,
    Qnt,
    Kaito,
    Ldo,
    Plume,
    Avnt,
    Stx,
    Bfusd,
    Crv,
    Bard,
    Floki,
    Ray,
    Kaia,
    Wif,
    Open,
    Grt,
    Prove,
    Cfx,
    Sahara,
    Tia,
    Theta,
    Nexo,
    Ens,
    Kmno,
    Pendle,
    Zec,
    Cake,
    Xtz,
    Sand,
    Holo,
    Form,
    Flow,
    Mana,
    Bttc,
    Eigen,
    Zro,
    Strk,
    Rune,
    Ape,
    Dydx,
    Syrup,
    Twt,
    Tusd,
    Sun,
    Rsr,
    Chz,
    Comp,
    Egld,
    Beamx,
    Xec,
    Cvx,
    Inch1,
    Gno,
    Super,
    Kava,
    Move,
    Ronin,
    Axl,
    Bio,
    Lunc,
    Ftt,
    Jst,
    Lpt,
    Sfp,
    Mina,
    Cheems1000,
    Zrx,
    Sushi,
    Blur,
    Gas,
    Ordi,
}

impl Default for Symbol {
    fn default() -> (r: Symbol)
        ensures
            r == Symbol::Btc,
    {
        Symbol::Btc
    }
}

/// The symbol at position `i` of the declaration order.
pub open spec fn symbol_at(i: int) -> Symbol {
    if i == 0 {
        Symbol::Btc
    } else     if i == 1 {
        Symbol::Eth
    } else     if i == 2 {
        Symbol::Xrp
    } else     if i == 3 {
        Symbol::Bnb
    } else     if i == 4 {
        Symbol::Sol
    } else     if i == 5 {
        Symbol::Doge
    } else     if i == 6 {
        Symbol::Ada
    } else     if i == 7 {
        Symbol::Trx
    } else     if i == 8 {
        Symbol::Wlfi
    } else     if i == 9 {
        Symbol::Wbtc
    } else     if i == 10 {
        Symbol::Link
    } else     if i == 11 {
        Symbol::Avax
    } else     if i == 12 {
        Symbol::Usde
    } else     if i == 13 {
        Symbol::Bch
    } else     if i == 14 {
        Symbol::Xlm
    } else     if i == 15 {
        Symbol::Sui
    } else     if i == 16 {
        Symbol::Xusd
    } else     if i == 17 {
        Symbol::Usd1
    } else     if i == 18 {
        Symbol::Hbar
    } else     if i == 19 {
        Symbol::Wbeth
    } else     if i == 20 {
        Symbol::Ltc
    } else     if i == 21 {
        Symbol::Trump
    } else     if i == 22 {
        Symbol::Ton
    } else     if i == 23 {
        Symbol::Shib
    } else     if i == 24 {
        Symbol::Zkc
    } else     if i == 25 {
        Symbol::Pump
    } else     if i == 26 {
        Symbol::Dot
    } else     if i == 27 {
        Symbol::Uni
    } else     if i == 28 {
        Symbol::Aave
    } else     if i == 29 {
        Symbol::Pepe
    } else     if i == 30 {
        Symbol::Near
    } else     if i == 31 {
        Symbol::Etc
    } else     if i == 32 {
        Symbol::Apt
    } else     if i == 33 {
        Symbol::Tao
    } else     if i == 34 {
        Symbol::Icp
    } else     if i == 35 {
        Symbol::Pengu
    } else     if i == 36 {
        Symbol::Linea
    } else     if i == 37 {
        Symbol::Pol
    } else     if i == 38 {
        Symbol::Arb
    } else     if i == 39 {
        Symbol::Render
    } else     if i == 40 {
        Symbol::Vet
    } else     if i == 41 {
        Symbol::Ena
    } else     if i == 42 {
        Symbol::Algo
    } else     if i == 43 {
        Symbol::Fdusd
    } else     if i == 44 {
        Symbol::Bonk
    } else     if i == 45 {
        Symbol::Atom
    } else     if i == 46 {
        Symbol::Bnsol
    } else     if i == 47 {
        Symbol::Fet
    } else     if i == 48 {
        Symbol::Fil
    } else     if i == 49 {
        Symbol::Imx
    } else     if i == 50 {
        Symbol::Ondo
    } else     if i == 51 {
        Symbol::Inj
    } else     if i == 52 {
        Symbol::Sei
    } else     if i == 53 {
        Symbol::Bera
    } else     if i == 54 {
        Symbol::Wld
    } else     if i == 55 {
        Symbol::Virtual
    } else     if i == 56 {
        Symbol::Somi
    } else     if i == 57 {
        Symbol::Qnt
    } else     if i == 58 {
        Symbol::Kaito
    } else     if i == 59 {
        Symbol::Ldo
    } else     if i == 60 {
        Symbol::Plume
    } else     if i == 61 {
        Symbol::Avnt
    } else     if i == 62 {
        Symbol::Stx
    } else     if i == 63 {
        Symbol::Bfusd
    } else     if i == 64 {
        Symbol::Crv
    } else     if i == 65 {
        Symbol::Bard
    } else     if i == 66 {
        Symbol::Floki
    } else     if i == 67 {
        Symbol::Ray
    } else     if i == 68 {
        Symbol::Kaia
    } else     if i == 69 {
        Symbol::Wif
    } else     if i == 70 {
        Symbol::Open
    } else     if i == 71 {
        Symbol::Grt
    } else     if i == 72 {
        Symbol::Prove
    } else     if i == 73 {
        Symbol::Cfx
    } else     if i == 74 {
        Symbol::Sahara
    } else     if i == 75 {
        Symbol::Tia
    } else     if i == 76 {
        Symbol::Theta
    } else     if i == 77 {
        Symbol::Nexo
    } else     if i == 78 {
        Symbol::Ens
    } else     if i == 79 {
        Symbol::Kmno
    } else     if i == 80 {
        Symbol::Pendle
    } else     if i == 81 {
        Symbol::Zec
    } else     if i == 82 {
        Symbol::Cake
    } else     if i == 83 {
        Symbol::Xtz
    } else     if i == 84 {
        Symbol::Sand
    } else     if i == 85 {
        Symbol::Holo
    } else     if i == 86 {
        Symbol::Form
    } else     if i == 87 {
        Symbol::Flow
    } else     if i == 88 {
        Symbol::Mana
    } else     if i == 89 {
        Symbol::Bttc
    } else     if i == 90 {
        Symbol::Eigen
    } else     if i == 91 {
        Symbol::Zro
    } else     if i == 92 {
        Symbol::Strk
    } else     if i == 93 {
        Symbol::Rune
    } else     if i == 94 {
        Symbol::Ape
    } else     if i == 95 {
        Symbol::Dydx
    } else     if i == 96 {
        Symbol::Syrup
    } else     if i == 97 {
        Symbol::Twt
    } else     if i == 98 {
        Symbol::Tusd
    } else     if i == 99 {
        Symbol::Sun
    } else     if i == 100 {
        Symbol::Rsr
    } else     if i == 101 {
        Symbol::Chz
    } else     if i == 102 {
        Symbol::Comp
    } else     if i == 103 {
        Symbol::Egld
    } else     if i == 104 {
        Symbol::Beamx
    } else     if i == 105 {
        Symbol::Xec
    } else     if i == 106 {
        Symbol::Cvx
    } else     if i == 107 {
        Symbol::Inch1
    } else     if i == 108 {
        Symbol::Gno
    } else     if i == 109 {
        Symbol::Super
    } else     if i == 110 {
        Symbol::Kava
    } else     if i == 111 {
        Symbol::Move
    } else     if i == 112 {
        Symbol::Ronin
    } else     if i == 113 {
        Symbol::Axl
    } else     if i == 114 {
        Symbol::Bio
    } else     if i == 115 {
        Symbol::Lunc
    } else     if i == 116 {
        Symbol::Ftt
    } else     if i == 117 {
        Symbol::Jst
    } else     if i == 118 {
        Symbol::Lpt
    } else     if i == 119 {
        Symbol::Sfp
    } else     if i == 120 {
        Symbol::Mina
    } else     if i == 121 {
        Symbol::Cheems1000
    } else     if i == 122 {
        Symbol::Zrx
    } else     if i == 123 {
        Symbol::Sushi
    } else     if i == 124 {
        Symbol::Blur
    } else     if i == 125 {
        Symbol::Gas
    } else {
        Symbol::Ordi
    }
}

/// All symbols, in declaration order.
pub open spec fn all_symbols() -> Seq<Symbol> {
    Seq::new(SYMBOL_COUNT as nat, |i: int| symbol_at(i))
}

impl Symbol {
    /// The symbol's name as exchanges write it (upper case).
    pub open spec fn name(self) -> Seq<char> {
        match self {
            Symbol::Btc => "BTC"@,
            Symbol::Eth => "ETH"@,
            Symbol::Xrp => "XRP"@,
            Symbol::Bnb => "BNB"@,
            Symbol::Sol => "SOL"@,
            Symbol::Doge => "DOGE"@,
            Symbol::Ada => "ADA"@,
            Symbol::Trx => "TRX"@,
            Symbol::Wlfi => "WLFI"@,
            Symbol::Wbtc => "WBTC"@,
            Symbol::Link => "LINK"@,
            Symbol::Avax => "AVAX"@,
            Symbol::Usde => "USDE"@,
            Symbol::Bch => "BCH"@,
            Symbol::Xlm => "XLM"@,
            Symbol::Sui => "SUI"@,
            Symbol::Xusd => "XUSD"@,
            Symbol::Usd1 => "USD1"@,
            Symbol::Hbar => "HBAR"@,
            Symbol::Wbeth => "WBETH"@,
            Symbol::Ltc => "LTC"@,
            Symbol::Trump => "TRUMP"@,
            Symbol::Ton => "TON"@,
            Symbol::Shib => "SHIB"@,
            Symbol::Zkc => "ZKC"@,
            Symbol::Pump => "PUMP"@,
            Symbol::Dot => "DOT"@,
            Symbol::Uni => "UNI"@,
            Symbol::Aave => "AAVE"@,
            Symbol::Pepe => "PEPE"@,
            Symbol::Near => "NEAR"@,
            Symbol::Etc => "ETC"@,
            Symbol::Apt => "APT"@,
            Symbol::Tao => "TAO"@,
            Symbol::Icp => "ICP"@,
            Symbol::Pengu => "PENGU"@,
            Symbol::Linea => "LINEA"@,
            Symbol::Pol => "POL"@,
            Symbol::Arb => "ARB"@,
            Symbol::Render => "RENDER"@,
            Symbol::Vet => "VET"@,
            Symbol::Ena => "ENA"@,
            Symbol::Algo => "ALGO"@,
            Symbol::Fdusd => "FDUSD"@,
            Symbol::Bonk => "BONK"@,
            Symbol::Atom => "ATOM"@,
            Symbol::Bnsol => "BNSOL"@,
            Symbol::Fet => "FET"@,
            Symbol::Fil => "FIL"@,
            Symbol::Imx => "IMX"@,
            Symbol::Ondo => "ONDO"@,
            Symbol::Inj => "INJ"@,
            Symbol::Sei => "SEI"@,
            Symbol::Bera => "BERA"@,
            Symbol::Wld => "WLD"@,
            Symbol::Virtual => "VIRTUAL"@,
            Symbol::Somi => "SOMI"@,
            Symbol::Qnt => "QNT"@,
            Symbol::Kaito => "KAITO"@,
            Symbol::Ldo => "LDO"@,
            Symbol::Plume => "PLUME"@,
            Symbol::Avnt => "AVNT"@,
            Symbol::Stx => "STX"@,
            Symbol::Bfusd => "BFUSD"@,
            Symbol::Crv => "CRV"@,
            Symbol::Bard => "BARD"@,
            Symbol::Floki => "FLOKI"@,
            Symbol::Ray => "RAY"@,
            Symbol::Kaia => "KAIA"@,
            Symbol::Wif => "WIF"@,
            Symbol::Open => "OPEN"@,
            Symbol::Grt => "GRT"@,
            Symbol::Prove => "PROVE"@,
            Symbol::Cfx => "CFX"@,
            Symbol::Sahara => "SAHARA"@,
            Symbol::Tia => "TIA"@,
            Symbol::Theta => "THETA"@,
            Symbol::Nexo => "NEXO"@,
            Symbol::Ens => "ENS"@,
            Symbol::Kmno => "KMNO"@,
            Symbol::Pendle => "PENDLE"@,
            Symbol::Zec => "ZEC"@,
            Symbol::Cake => "CAKE"@,
            Symbol::Xtz => "XTZ"@,
            Symbol::Sand => "SAND"@,
            Symbol::Holo => "HOLO"@,
            Symbol::Form => "FORM"@,
            Symbol::Flow => "FLOW"@,
            Symbol::Mana => "MANA"@,
            Symbol::Bttc => "BTTC"@,
            Symbol::Eigen => "EIGEN"@,
            Symbol::Zro => "ZRO"@,
            Symbol::Strk => "STRK"@,
            Symbol::Rune => "RUNE"@,
            Symbol::Ape => "APE"@,
            Symbol::Dydx => "DYDX"@,
            Symbol::Syrup => "SYRUP"@,
            Symbol::Twt => "TWT"@,
            Symbol::Tusd => "TUSD"@,
            Symbol::Sun => "SUN"@,
            Symbol::Rsr => "RSR"@,
            Symbol::Chz => "CHZ"@,
            Symbol::Comp => "COMP"@,
            Symbol::Egld => "EGLD"@,
            Symbol::Beamx => "BEAMX"@,
            Symbol::Xec => "XEC"@,
            Symbol::Cvx => "CVX"@,
            Symbol::Inch1 => "1INCH"@,
            Symbol::Gno => "GNO"@,
            Symbol::Super => "SUPER"@,
            Symbol::Kava => "KAVA"@,
            Symbol::Move => "MOVE"@,
            Symbol::Ronin => "RONIN"@,
            Symbol::Axl => "AXL"@,
            Symbol::Bio => "BIO"@,
            Symbol::Lunc => "LUNC"@,
            Symbol::Ftt => "FTT"@,
            Symbol::Jst => "JST"@,
            Symbol::Lpt => "LPT"@,
            Symbol::Sfp => "SFP"@,
            Symbol::Mina => "MINA"@,
            Symbol::Cheems1000 => "1000CHEEMS"@,
            Symbol::Zrx => "ZRX"@,
            Symbol::Sushi => "SUSHI"@,
            Symbol::Blur => "BLUR"@,
            Symbol::Gas => "GAS"@,
            Symbol::Ordi => "ORDI"@,
        }
    }

    /// The symbol's position in the declaration order.
    pub open spec fn ord(self) -> int {
        match self {
            Symbol::Btc => 0,
            Symbol::Eth => 1,
            Symbol::Xrp => 2,
            Symbol::Bnb => 3,
            Symbol::Sol => 4,
            Symbol::Doge => 5,
            Symbol::Ada => 6,
            Symbol::Trx => 7,
            Symbol::Wlfi => 8,
            Symbol::Wbtc => 9,
            Symbol::Link => 10,
            Symbol::Avax => 11,
            Symbol::Usde => 12,
            Symbol::Bch => 13,
            Symbol::Xlm => 14,
            Symbol::Sui => 15,
            Symbol::Xusd => 16,
            Symbol::Usd1 => 17,
            Symbol::Hbar => 18,
            Symbol::Wbeth => 19,
            Symbol::Ltc => 20,
            Symbol::Trump => 21,
            Symbol::Ton => 22,
            Symbol::Shib => 23,
            Symbol::Zkc => 24,
            Symbol::Pump => 25,
            Symbol::Dot => 26,
            Symbol::Uni => 27,
            Symbol::Aave => 28,
            Symbol::Pepe => 29,
            Symbol::Near => 30,
            Symbol::Etc => 31,
            Symbol::Apt => 32,
            Symbol::Tao => 33,
            Symbol::Icp => 34,
            Symbol::Pengu => 35,
            Symbol::Linea => 36,
            Symbol::Pol => 37,
            Symbol::Arb => 38,
            Symbol::Render => 39,
            Symbol::Vet => 40,
            Symbol::Ena => 41,
            Symbol::Algo => 42,
            Symbol::Fdusd => 43,
            Symbol::Bonk => 44,
            Symbol::Atom => 45,
            Symbol::Bnsol => 46,
            Symbol::Fet => 47,
            Symbol::Fil => 48,
            Symbol::Imx => 49,
            Symbol::Ondo => 50,
            Symbol::Inj => 51,
            Symbol::Sei => 52,
            Symbol::Bera => 53,
            Symbol::Wld => 54,
            Symbol::Virtual => 55,
            Symbol::Somi => 56,
            Symbol::Qnt => 57,
            Symbol::Kaito => 58,
            Symbol::Ldo => 59,
            Symbol::Plume => 60,
            Symbol::Avnt => 61,
            Symbol::Stx => 62,
            Symbol::Bfusd => 63,
            Symbol::Crv => 64,
            Symbol::Bard => 65,
            Symbol::Floki => 66,
            Symbol::Ray => 67,
            Symbol::Kaia => 68,
            Symbol::Wif => 69,
            Symbol::Open => 70,
            Symbol::Grt => 71,
            Symbol::Prove => 72,
            Symbol::Cfx => 73,
            Symbol::Sahara => 74,
            Symbol::Tia => 75,
            Symbol::Theta => 76,
            Symbol::Nexo => 77,
            Symbol::Ens => 78,
            Symbol::Kmno => 79,
            Symbol::Pendle => 80,
            Symbol::Zec => 81,
            Symbol::Cake => 82,
            Symbol::Xtz => 83,
            Symbol::Sand => 84,
            Symbol::Holo => 85,
            Symbol::Form => 86,
            Symbol::Flow => 87,
            Symbol::Mana => 88,
            Symbol::Bttc => 89,
            Symbol::Eigen => 90,
            Symbol::Zro => 91,
            Symbol::Strk => 92,
            Symbol::Rune => 93,
            Symbol::Ape => 94,
            Symbol::Dydx => 95,
            Symbol::Syrup => 96,
            Symbol::Twt => 97,
            Symbol::Tusd => 98,
            Symbol::Sun => 99,
            Symbol::Rsr => 100,
            Symbol::Chz => 101,
            Symbol::Comp => 102,
            Symbol::Egld => 103,
            Symbol::Beamx => 104,
            Symbol::Xec => 105,
            Symbol::Cvx => 106,
            Symbol::Inch1 => 107,
            Symbol::Gno => 108,
            Symbol::Super => 109,
            Symbol::Kava => 110,
            Symbol::Move => 111,
            Symbol::Ronin => 112,
            Symbol::Axl => 113,
            Symbol::Bio => 114,
            Symbol::Lunc => 115,
            Symbol::Ftt => 116,
            Symbol::Jst => 117,
            Symbol::Lpt => 118,
            Symbol::Sfp => 119,
            Symbol::Mina => 120,
            Symbol::Cheems1000 => 121,
            Symbol::Zrx => 122,
            Symbol::Sushi => 123,
            Symbol::Blur => 124,
            Symbol::Gas => 125,
            Symbol::Ordi => 126,
        }
    }

    /// The symbol's name as exchanges write it (upper case).
    pub fn as_str(&self) -> (s: &'static str)
        ensures
            s@ == self.name(),
    {
        match self {
            Symbol::Btc => "BTC",
            Symbol::Eth => "ETH",
            Symbol::Xrp => "XRP",
            Symbol::Bnb => "BNB",
            Symbol::Sol => "SOL",
            Symbol::Doge => "DOGE",
            Symbol::Ada => "ADA",
            Symbol::Trx => "TRX",
            Symbol::Wlfi => "WLFI",
            Symbol::Wbtc => "WBTC",
            Symbol::Link => "LINK",
            Symbol::Avax => "AVAX",
            Symbol::Usde => "USDE",
            Symbol::Bch => "BCH",
            Symbol::Xlm => "XLM",
            Symbol::Sui => "SUI",
            Symbol::Xusd => "XUSD",
            Symbol::Usd1 => "USD1",
            Symbol::Hbar => "HBAR",
            Symbol::Wbeth => "WBETH",
            Symbol::Ltc => "LTC",
            Symbol::Trump => "TRUMP",
            Symbol::Ton => "TON",
            Symbol::Shib => "SHIB",
            Symbol::Zkc => "ZKC",
            Symbol::Pump => "PUMP",
            Symbol::Dot => "DOT",
            Symbol::Uni => "UNI",
            Symbol::Aave => "AAVE",
            Symbol::Pepe => "PEPE",
            Symbol::Near => "NEAR",
            Symbol::Etc => "ETC",
            Symbol::Apt => "APT",
            Symbol::Tao => "TAO",
            Symbol::Icp => "ICP",
            Symbol::Pengu => "PENGU",
            Symbol::Linea => "LINEA",
            Symbol::Pol => "POL",
            Symbol::Arb => "ARB",
            Symbol::Render => "RENDER",
            Symbol::Vet => "VET",
            Symbol::Ena => "ENA",
            Symbol::Algo => "ALGO",
            Symbol::Fdusd => "FDUSD",
            Symbol::Bonk => "BONK",
            Symbol::Atom => "ATOM",
            Symbol::Bnsol => "BNSOL",
            Symbol::Fet => "FET",
            Symbol::Fil => "FIL",
            Symbol::Imx => "IMX",
            Symbol::Ondo => "ONDO",
            Symbol::Inj => "INJ",
            Symbol::Sei => "SEI",
            Symbol::Bera => "BERA",
            Symbol::Wld => "WLD",
            Symbol::Virtual => "VIRTUAL",
            Symbol::Somi => "SOMI",
            Symbol::Qnt => "QNT",
            Symbol::Kaito => "KAITO",
            Symbol::Ldo => "LDO",
            Symbol::Plume => "PLUME",
            Symbol::Avnt => "AVNT",
            Symbol::Stx => "STX",
            Symbol::Bfusd => "BFUSD",
            Symbol::Crv => "CRV",
            Symbol::Bard => "BARD",
            Symbol::Floki => "FLOKI",
            Symbol::Ray => "RAY",
            Symbol::Kaia => "KAIA",
            Symbol::Wif => "WIF",
            Symbol::Open => "OPEN",
            Symbol::Grt => "GRT",
            Symbol::Prove => "PROVE",
            Symbol::Cfx => "CFX",
            Symbol::Sahara => "SAHARA",
            Symbol::Tia => "TIA",
            Symbol::Theta => "THETA",
            Symbol::Nexo => "NEXO",
            Symbol::Ens => "ENS",
            Symbol::Kmno => "KMNO",
            Symbol::Pendle => "PENDLE",
            Symbol::Zec => "ZEC",
            Symbol::Cake => "CAKE",
            Symbol::Xtz => "XTZ",
            Symbol::Sand => "SAND",
            Symbol::Holo => "HOLO",
            Symbol::Form => "FORM",
            Symbol::Flow => "FLOW",
            Symbol::Mana => "MANA",
            Symbol::Bttc => "BTTC",
            Symbol::Eigen => "EIGEN",
            Symbol::Zro => "ZRO",
            Symbol::Strk => "STRK",
            Symbol::Rune => "RUNE",
            Symbol::Ape => "APE",
            Symbol::Dydx => "DYDX",
            Symbol::Syrup => "SYRUP",
            Symbol::Twt => "TWT",
            Symbol::Tusd => "TUSD",
            Symbol::Sun => "SUN",
            Symbol::Rsr => "RSR",
            Symbol::Chz => "CHZ",
            Symbol::Comp => "COMP",
            Symbol::Egld => "EGLD",
            Symbol::Beamx => "BEAMX",
            Symbol::Xec => "XEC",
            Symbol::Cvx => "CVX",
            Symbol::Inch1 => "1INCH",
            Symbol::Gno => "GNO",
            Symbol::Super => "SUPER",
            Symbol::Kava => "KAVA",
            Symbol::Move => "MOVE",
            Symbol::Ronin => "RONIN",
            Symbol::Axl => "AXL",
            Symbol::Bio => "BIO",
            Symbol::Lunc => "LUNC",
            Symbol::Ftt => "FTT",
            Symbol::Jst => "JST",
            Symbol::Lpt => "LPT",
            Symbol::Sfp => "SFP",
            Symbol::Mina => "MINA",
            Symbol::Cheems1000 => "1000CHEEMS",
            Symbol::Zrx => "ZRX",
            Symbol::Sushi => "SUSHI",
            Symbol::Blur => "BLUR",
            Symbol::Gas => "GAS",
            Symbol::Ordi => "ORDI",
        }
    }

    /// The symbol's position in the declaration order.
    pub fn index(&self) -> (i: usize)
        ensures
            i == self.ord(),
            i < SYMBOL_COUNT,
    {
        match self {
            Symbol::Btc => 0,
            Symbol::Eth => 1,
            Symbol::Xrp => 2,
            Symbol::Bnb => 3,
            Symbol::Sol => 4,
            Symbol::Doge => 5,
            Symbol::Ada => 6,
            Symbol::Trx => 7,
            Symbol::Wlfi => 8,
            Symbol::Wbtc => 9,
            Symbol::Link => 10,
            Symbol::Avax => 11,
            Symbol::Usde => 12,
            Symbol::Bch => 13,
            Symbol::Xlm => 14,
            Symbol::Sui => 15,
            Symbol::Xusd => 16,
            Symbol::Usd1 => 17,
            Symbol::Hbar => 18,
            Symbol::Wbeth => 19,
            Symbol::Ltc => 20,
            Symbol::Trump => 21,
            Symbol::Ton => 22,
            Symbol::Shib => 23,
            Symbol::Zkc => 24,
            Symbol::Pump => 25,
            Symbol::Dot => 26,
            Symbol::Uni => 27,
            Symbol::Aave => 28,
            Symbol::Pepe => 29,
            Symbol::Near => 30,
            Symbol::Etc => 31,
            Symbol::Apt => 32,
            Symbol::Tao => 33,
            Symbol::Icp => 34,
            Symbol::Pengu => 35,
            Symbol::Linea => 36,
            Symbol::Pol => 37,
            Symbol::Arb => 38,
            Symbol::Render => 39,
            Symbol::Vet => 40,
            Symbol::Ena => 41,
            Symbol::Algo => 42,
            Symbol::Fdusd => 43,
            Symbol::Bonk => 44,
            Symbol::Atom => 45,
            Symbol::Bnsol => 46,
            Symbol::Fet => 47,
            Symbol::Fil => 48,
            Symbol::Imx => 49,
            Symbol::Ondo => 50,
            Symbol::Inj => 51,
            Symbol::Sei => 52,
            Symbol::Bera => 53,
            Symbol::Wld => 54,
            Symbol::Virtual => 55,
            Symbol::Somi => 56,
            Symbol::Qnt => 57,
            Symbol::Kaito => 58,
            Symbol::Ldo => 59,
            Symbol::Plume => 60,
            Symbol::Avnt => 61,
            Symbol::Stx => 62,
            Symbol::Bfusd => 63,
            Symbol::Crv => 64,
            Symbol::Bard => 65,
            Symbol::Floki => 66,
            Symbol::Ray => 67,
            Symbol::Kaia => 68,
            Symbol::Wif => 69,
            Symbol::Open => 70,
            Symbol::Grt => 71,
            Symbol::Prove => 72,
            Symbol::Cfx => 73,
            Symbol::Sahara => 74,
            Symbol::Tia => 75,
            Symbol::Theta => 76,
            Symbol::Nexo => 77,
            Symbol::Ens => 78,
            Symbol::Kmno => 79,
            Symbol::Pendle => 80,
            Symbol::Zec => 81,
            Symbol::Cake => 82,
            Symbol::Xtz => 83,
            Symbol::Sand => 84,
            Symbol::Holo => 85,
            Symbol::Form => 86,
            Symbol::Flow => 87,
            Symbol::Mana => 88,
            Symbol::Bttc => 89,
            Symbol::Eigen => 90,
            Symbol::Zro => 91,
            Symbol::Strk => 92,
            Symbol::Rune => 93,
            Symbol::Ape => 94,
            Symbol::Dydx => 95,
            Symbol::Syrup => 96,
            Symbol::Twt => 97,
            Symbol::Tusd => 98,
            Symbol::Sun => 99,
            Symbol::Rsr => 100,
            Symbol::Chz => 101,
            Symbol::Comp => 102,
            Symbol::Egld => 103,
            Symbol::Beamx => 104,
            Symbol::Xec => 105,
            Symbol::Cvx => 106,
            Symbol::Inch1 => 107,
            Symbol::Gno => 108,
            Symbol::Super => 109,
            Symbol::Kava => 110,
            Symbol::Move => 111,
            Symbol::Ronin => 112,
            Symbol::Axl => 113,
            Symbol::Bio => 114,
            Symbol::Lunc => 115,
            Symbol::Ftt => 116,
            Symbol::Jst => 117,
            Symbol::Lpt => 118,
            Symbol::Sfp => 119,
            Symbol::Mina => 120,
            Symbol::Cheems1000 => 121,
            Symbol::Zrx => 122,
            Symbol::Sushi => 123,
            Symbol::Blur => 124,
            Symbol::Gas => 125,
            Symbol::Ordi => 126,
        }
    }

    /// The symbol at position `i` of the declaration order.
    pub fn from_index(i: usize) -> (s: Symbol)
        requires
            i < SYMBOL_COUNT,
        ensures
            s == symbol_at(i as int),
    {
        if i == 0 {
            Symbol::Btc
        } else         if i == 1 {
            Symbol::Eth
        } else         if i == 2 {
            Symbol::Xrp
        } else         if i == 3 {
            Symbol::Bnb
        } else         if i == 4 {
            Symbol::Sol
        } else         if i == 5 {
            Symbol::Doge
        } else         if i == 6 {
            Symbol::Ada
        } else         if i == 7 {
            Symbol::Trx
        } else         if i == 8 {
            Symbol::Wlfi
        } else         if i == 9 {
            Symbol::Wbtc
        } else         if i == 10 {
            Symbol::Link
        } else         if i == 11 {
            Symbol::Avax
        } else         if i == 12 {
            Symbol::Usde
        } else         if i == 13 {
            Symbol::Bch
        } else         if i == 14 {
            Symbol::Xlm
        } else         if i == 15 {
            Symbol::Sui
        } else         if i == 16 {
            Symbol::Xusd
        } else         if i == 17 {
            Symbol::Usd1
        } else         if i == 18 {
            Symbol::Hbar
        } else         if i == 19 {
            Symbol::Wbeth
        } else         if i == 20 {
            Symbol::Ltc
        } else         if i == 21 {
            Symbol::Trump
        } else         if i == 22 {
            Symbol::Ton
        } else         if i == 23 {
            Symbol::Shib
        } else         if i == 24 {
            Symbol::Zkc
        } else         if i == 25 {
            Symbol::Pump
        } else         if i == 26 {
            Symbol::Dot
        } else         if i == 27 {
            Symbol::Uni
        } else         if i == 28 {
            Symbol::Aave
        } else         if i == 29 {
            Symbol::Pepe
        } else         if i == 30 {
            Symbol::Near
        } else         if i == 31 {
            Symbol::Etc
        } else         if i == 32 {
            Symbol::Apt
        } else         if i == 33 {
            Symbol::Tao
        } else         if i == 34 {
            Symbol::Icp
        } else         if i == 35 {
            Symbol::Pengu
        } else         if i == 36 {
            Symbol::Linea
        } else         if i == 37 {
            Symbol::Pol
        } else         if i == 38 {
            Symbol::Arb
        } else         if i == 39 {
            Symbol::Render
        } else         if i == 40 {
            Symbol::Vet
        } else         if i == 41 {
            Symbol::Ena
        } else         if i == 42 {
            Symbol::Algo
        } else         if i == 43 {
            Symbol::Fdusd
        } else         if i == 44 {
            Symbol::Bonk
        } else         if i == 45 {
            Symbol::Atom
        } else         if i == 46 {
            Symbol::Bnsol
        } else         if i == 47 {
            Symbol::Fet
        } else         if i == 48 {
            Symbol::Fil
        } else         if i == 49 {
            Symbol::Imx
        } else         if i == 50 {
            Symbol::Ondo
        } else         if i == 51 {
            Symbol::Inj
        } else         if i == 52 {
            Symbol::Sei
        } else         if i == 53 {
            Symbol::Bera
        } else         if i == 54 {
            Symbol::Wld
        } else         if i == 55 {
            Symbol::Virtual
        } else         if i == 56 {
            Symbol::Somi
        } else         if i == 57 {
            Symbol::Qnt
        } else         if i == 58 {
            Symbol::Kaito
        } else         if i == 59 {
            Symbol::Ldo
        } else         if i == 60 {
            Symbol::Plume
        } else         if i == 61 {
            Symbol::Avnt
        } else         if i == 62 {
            Symbol::Stx
        } else         if i == 63 {
            Symbol::Bfusd
        } else         if i == 64 {
            Symbol::Crv
        } else         if i == 65 {
            Symbol::Bard
        } else         if i == 66 {
            Symbol::Floki
        } else         if i == 67 {
            Symbol::Ray
        } else         if i == 68 {
            Symbol::Kaia
        } else         if i == 69 {
            Symbol::Wif
        } else         if i == 70 {
            Symbol::Open
        } else         if i == 71 {
            Symbol::Grt
        } else         if i == 72 {
            Symbol::Prove
        } else         if i == 73 {
            Symbol::Cfx
        } else         if i == 74 {
            Symbol::Sahara
        } else         if i == 75 {
            Symbol::Tia
        } else         if i == 76 {
            Symbol::Theta
        } else         if i == 77 {
            Symbol::Nexo
        } else         if i == 78 {
            Symbol::Ens
        } else         if i == 79 {
            Symbol::Kmno
        } else         if i == 80 {
            Symbol::Pendle
        } else         if i == 81 {
            Symbol::Zec
        } else         if i == 82 {
            Symbol::Cake
        } else         if i == 83 {
            Symbol::Xtz
        } else         if i == 84 {
            Symbol::Sand
        } else         if i == 85 {
            Symbol::Holo
        } else         if i == 86 {
            Symbol::Form
        } else         if i == 87 {
            Symbol::Flow
        } else         if i == 88 {
            Symbol::Mana
        } else         if i == 89 {
            Symbol::Bttc
        } else         if i == 90 {
            Symbol::Eigen
        } else         if i == 91 {
            Symbol::Zro
        } else         if i == 92 {
            Symbol::Strk
        } else         if i == 93 {
            Symbol::Rune
        } else         if i == 94 {
            Symbol::Ape
        } else         if i == 95 {
            Symbol::Dydx
        } else         if i == 96 {
            Symbol::Syrup
        } else         if i == 97 {
            Symbol::Twt
        } else         if i == 98 {
            Symbol::Tusd
        } else         if i == 99 {
            Symbol::Sun
        } else         if i == 100 {
            Symbol::Rsr
        } else         if i == 101 {
            Symbol::Chz
        } else         if i == 102 {
            Symbol::Comp
        } else         if i == 103 {
            Symbol::Egld
        } else         if i == 104 {
            Symbol::Beamx
        } else         if i == 105 {
            Symbol::Xec
        } else         if i == 106 {
            Symbol::Cvx
        } else         if i == 107 {
            Symbol::Inch1
        } else         if i == 108 {
            Symbol::Gno
        } else         if i == 109 {
            Symbol::Super
        } else         if i == 110 {
            Symbol::Kava
        } else         if i == 111 {
            Symbol::Move
        } else         if i == 112 {
            Symbol::Ronin
        } else         if i == 113 {
            Symbol::Axl
        } else         if i == 114 {
            Symbol::Bio
        } else         if i == 115 {
            Symbol::Lunc
        } else         if i == 116 {
            Symbol::Ftt
        } else         if i == 117 {
            Symbol::Jst
        } else         if i == 118 {
            Symbol::Lpt
        } else         if i == 119 {
            Symbol::Sfp
        } else         if i == 120 {
            Symbol::Mina
        } else         if i == 121 {
            Symbol::Cheems1000
        } else         if i == 122 {
            Symbol::Zrx
        } else         if i == 123 {
            Symbol::Sushi
        } else         if i == 124 {
            Symbol::Blur
        } else         if i == 125 {
            Symbol::Gas
        } else {
            Symbol::Ordi
        }
    }

    /// All symbols, in declaration order.
    pub fn all() -> (v: Vec<Symbol>)
        ensures
            v@ == all_symbols(),
    {
        let mut v: Vec<Symbol> = Vec::new();
        let mut i: usize = 0;
        while i < SYMBOL_COUNT
            invariant
                i <= SYMBOL_COUNT,
                v@ == all_symbols().subrange(0, i as int),
            decreases SYMBOL_COUNT - i,
        {
            v.push(Symbol::from_index(i));
            i = i + 1;
            assert(v@ =~= all_symbols().subrange(0, i as int));
        }
        assert(v@ =~= all_symbols());
        v
    }
}

/// Each symbol sits at its own position of `all_symbols`, and each position
/// holds the symbol whose position it is.
pub proof fn lemma_symbol_positions()
    ensures
        forall|s: Symbol| 0 <= #[trigger] s.ord() < SYMBOL_COUNT && symbol_at(s.ord()) == s,
        forall|i: int| 0 <= i < SYMBOL_COUNT ==> (#[trigger] symbol_at(i)).ord() == i,
{
    assert forall|s: Symbol| 0 <= #[trigger] s.ord() < SYMBOL_COUNT && symbol_at(s.ord()) == s by {
        match s {
            Symbol::Btc => {},
            Symbol::Eth => {},
            Symbol::Xrp => {},
            Symbol::Bnb => {},
            Symbol::Sol => {},
            Symbol::Doge => {},
            Symbol::Ada => {},
            Symbol::Trx => {},
            Symbol::Wlfi => {},
            Symbol::Wbtc => {},
            Symbol::Link => {},
            Symbol::Avax => {},
            Symbol::Usde => {},
            Symbol::Bch => {},
            Symbol::Xlm => {},
            Symbol::Sui => {},
            Symbol::Xusd => {},
            Symbol::Usd1 => {},
            Symbol::Hbar => {},
            Symbol::Wbeth => {},
            Symbol::Ltc => {},
            Symbol::Trump => {},
            Symbol::Ton => {},
            Symbol::Shib => {},
            Symbol::Zkc => {},
            Symbol::Pump => {},
            Symbol::Dot => {},
            Symbol::Uni => {},
            Symbol::Aave => {},
            Symbol::Pepe => {},
            Symbol::Near => {},
            Symbol::Etc => {},
            Symbol::Apt => {},
            Symbol::Tao => {},
            Symbol::Icp => {},
            Symbol::Pengu => {},
            Symbol::Linea => {},
            Symbol::Pol => {},
            Symbol::Arb => {},
            Symbol::Render => {},
            Symbol::Vet => {},
            Symbol::Ena => {},
            Symbol::Algo => {},
            Symbol::Fdusd => {},
            Symbol::Bonk => {},
            Symbol::Atom => {},
            Symbol::Bnsol => {},
            Symbol::Fet => {},
            Symbol::Fil => {},
            Symbol::Imx => {},
            Symbol::Ondo => {},
            Symbol::Inj => {},
            Symbol::Sei => {},
            Symbol::Bera => {},
            Symbol::Wld => {},
            Symbol::Virtual => {},
            Symbol::Somi => {},
            Symbol::Qnt => {},
            Symbol::Kaito => {},
            Symbol::Ldo => {},
            Symbol::Plume => {},
            Symbol::Avnt => {},
            Symbol::Stx => {},
            Symbol::Bfusd => {},
            Symbol::Crv => {},
            Symbol::Bard => {},
            Symbol::Floki => {},
            Symbol::Ray => {},
            Symbol::Kaia => {},
            Symbol::Wif => {},
            Symbol::Open => {},
            Symbol::Grt => {},
            Symbol::Prove => {},
            Symbol::Cfx => {},
            Symbol::Sahara => {},
            Symbol::Tia => {},
            Symbol::Theta => {},
            Symbol::Nexo => {},
            Symbol::Ens => {},
            Symbol::Kmno => {},
            Symbol::Pendle => {},
            Symbol::Zec => {},
            Symbol::Cake => {},
            Symbol::Xtz => {},
            Symbol::Sand => {},
            Symbol::Holo => {},
            Symbol::Form => {},
            Symbol::Flow => {},
            Symbol::Mana => {},
            Symbol::Bttc => {},
            Symbol::Eigen => {},
            Symbol::Zro => {},
            Symbol::Strk => {},
            Symbol::Rune => {},
            Symbol::Ape => {},
            Symbol::Dydx => {},
            Symbol::Syrup => {},
            Symbol::Twt => {},
            Symbol::Tusd => {},
            Symbol::Sun => {},
            Symbol::Rsr => {},
            Symbol::Chz => {},
            Symbol::Comp => {},
            Symbol::Egld => {},
            Symbol::Beamx => {},
            Symbol::Xec => {},
            Symbol::Cvx => {},
            Symbol::Inch1 => {},
            Symbol::Gno => {},
            Symbol::Super => {},
            Symbol::Kava => {},
            Symbol::Move => {},
            Symbol::Ronin => {},
            Symbol::Axl => {},
            Symbol::Bio => {},
            Symbol::Lunc => {},
            Symbol::Ftt => {},
            Symbol::Jst => {},
            Symbol::Lpt => {},
            Symbol::Sfp => {},
            Symbol::Mina => {},
            Symbol::Cheems1000 => {},
            Symbol::Zrx => {},
            Symbol::Sushi => {},
            Symbol::Blur => {},
            Symbol::Gas => {},
            Symbol::Ordi => {},
        }
    }
}

/// The slot of an exchange's snapshot of a symbol among all
/// `EXCHANGE_COUNT * SYMBOL_COUNT` of them.
pub open spec fn book_slot_spec(exchange: Exchange, symbol: Symbol) -> int {
    exchange.ord() * SYMBOL_COUNT + symbol.ord()
}

/// The slot of an exchange's snapshot of a symbol.
pub fn book_slot(exchange: Exchange, symbol: Symbol) -> (i: usize)
    ensures
        i == book_slot_spec(exchange, symbol),
        i < EXCHANGE_COUNT * SYMBOL_COUNT,
{
    exchange.index() * SYMBOL_COUNT + symbol.index()
}

/// Distinct (exchange, symbol) pairs have distinct slots, and every slot
/// is below `EXCHANGE_COUNT * SYMBOL_COUNT`.
pub proof fn lemma_book_slot_injective(e1: Exchange, s1: Symbol, e2: Exchange, s2: Symbol)
    ensures
        0 <= book_slot_spec(e1, s1) < EXCHANGE_COUNT * SYMBOL_COUNT,
        book_slot_spec(e1, s1) == book_slot_spec(e2, s2) ==> e1 == e2 && s1 == s2,
{
    lemma_symbol_positions();
    assert(0 <= s1.ord() < SYMBOL_COUNT);
    assert(0 <= s2.ord() < SYMBOL_COUNT);
    if book_slot_spec(e1, s1) == book_slot_spec(e2, s2) {
        assert(e1.ord() == e2.ord());
        assert(symbol_at(s1.ord()) == s1);
        assert(symbol_at(s2.ord()) == s2);
    }
}


/// Two upper-case-or-digit characters with the same ASCII lower case are
/// the same character.
proof fn lemma_lower_name_char(a: char, b: char)
    requires
        is_name_char(a),
        is_name_char(b),
        ascii_lower(a) == ascii_lower(b),
    ensures
        a == b,
{
    let ua = a as u32;
    let ub = b as u32;
    if 'A' <= a && a <= 'Z' && 'A' <= b && b <= 'Z' {
        assert(((ua + 32) as char) as u32 == ua + 32);
        assert(((ub + 32) as char) as u32 == ub + 32);
    } else if 'A' <= a && a <= 'Z' {
        assert(((ua + 32) as char) as u32 == ua + 32);
    } else if 'A' <= b && b <= 'Z' {
        assert(((ub + 32) as char) as u32 == ub + 32);
    }
}

/// Every exchange and symbol pair has its own trading link.
pub proof fn lemma_pair_urls_distinct(e1: Exchange, s1: Symbol, e2: Exchange, s2: Symbol)
    ensures
        e1.pair_url_spec(s1) == e2.pair_url_spec(s2) ==> e1 == e2 && s1 == s2,
{
    let u1 = e1.pair_url_spec(s1);
    let u2 = e2.pair_url_spec(s2);
    if u1 == u2 {
        reveal_strlit("https://www.bybit.com/trade/spot/");
        reveal_strlit("/USDT");
        reveal_strlit("https://gate.io/trade/");
        reveal_strlit("_USDT");
        reveal_strlit("https://bitget.com/spot/");
        reveal_strlit("USDT");
        reveal_strlit("https://binance.com/trade/");
        reveal_strlit("https://htx.com/trade/");
        reveal_strlit("_usdt?type=spot");
        reveal_strlit("https://okx.com/trade-spot/");
        reveal_strlit("-usdt");
        reveal_strlit("https://www.mexc.com/exchange/");
        lemma_symbol_name(s1);
        lemma_symbol_name(s2);
        let n1 = s1.name();
        let n2 = s2.name();
        let (p1, m1, q1) = url_parts(e1, s1);
        let (p2, m2, q2) = url_parts(e2, s2);
        assert(u1 =~= p1 + m1 + q1);
        assert(u2 =~= p2 + m2 + q2);
        assert(u1[8] == p1[8] && u1[10] == p1[10] && u1[12] == p1[12]);
        assert(u2[8] == p2[8] && u2[10] == p2[10] && u2[12] == p2[12]);
        assert(e1 == e2);
        assert(m1.len() == m2.len());
        assert forall|k: int| 0 <= k < m1.len() implies m1[k] == m2[k] by {
            assert(u1[p1.len() + k] == m1[k]);
            assert(u2[p2.len() + k] == m2[k]);
        }
        assert(m1 =~= m2);
        if e1 == Exchange::Htx {
            assert forall|k: int| 0 <= k < n1.len() implies n1[k] == n2[k] by {
                assert(m1[k] == ascii_lower(n1[k]));
                assert(m2[k] == ascii_lower(n2[k]));
                lemma_lower_name_char(n1[k], n2[k]);
            }
            assert(n1 =~= n2);
        } else {
            assert(n1 =~= m1);
            assert(n2 =~= m2);
        }
        lemma_names_unique(s1, s2);
    }
}

/// The link of `symbol` on `e`: the exchange's address, the name as the
/// exchange writes it, and the quote part.
pub open spec fn url_parts(e: Exchange, symbol: Symbol) -> (Seq<char>, Seq<char>, Seq<char>) {
    match e {
        Exchange::Bybit => ("https://www.bybit.com/trade/spot/"@, symbol.name(), "/USDT"@),
        Exchange::Gate => ("https://gate.io/trade/"@, symbol.name(), "_USDT"@),
        Exchange::Bitget => ("https://bitget.com/spot/"@, symbol.name(), "USDT"@),
        Exchange::Binance => ("https://binance.com/trade/"@, symbol.name(), "_USDT"@),
        Exchange::Htx => ("https://htx.com/trade/"@, lower(symbol.name()), "_usdt?type=spot"@),
        Exchange::Okx => ("https://okx.com/trade-spot/"@, symbol.name(), "-usdt"@),
        Exchange::Mexc => ("https://www.mexc.com/exchange/"@, symbol.name(), "_USDT"@),
    }
}

/// Every link of an exchange has one shape: the exchange's own address,
/// then the symbol's name (lower-cased on HTX, as written elsewhere), then
/// the exchange's own quote part; the address and the quote part are the
/// same for every symbol.
pub proof fn lemma_pair_url_shape(e: Exchange, s1: Symbol, s2: Symbol)
    ensures
        e.pair_url_spec(s1) == url_parts(e, s1).0 + url_parts(e, s1).1 + url_parts(e, s1).2,
        url_parts(e, s1).0 == url_parts(e, s2).0,
        url_parts(e, s1).2 == url_parts(e, s2).2,
        url_parts(e, s1).1 == (if e == Exchange::Htx { lower(s1.name()) } else { s1.name() }),
{
}
} // verus!
