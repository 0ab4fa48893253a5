//! Fee model and percentage helper.

use crate::decimal::{checked_mul, decimal_checked_mul, Dec};
use crate::exchange::Exchange;
use vstd::arithmetic::power::{lemma_pow_positive, pow};
use vstd::prelude::*;

verus! {

/// The VIP0 spot taker fee of an exchange, as a fraction: 0.1% on Bybit,
/// Bitget and Binance, 0.09% on Gate, 0.2% on HTX, 0.05% on OKX and MEXC.
pub open spec fn taker_fee_spec(ex: Exchange) -> Dec {
    match ex {
        Exchange::Bybit => Dec { mantissa: 1, scale: 3 },
        Exchange::Gate => Dec { mantissa: 9, scale: 4 },
        Exchange::Bitget => Dec { mantissa: 1, scale: 3 },
        Exchange::Binance => Dec { mantissa: 1, scale: 3 },
        Exchange::Htx => Dec { mantissa: 2, scale: 3 },
        Exchange::Okx => Dec { mantissa: 5, scale: 4 },
        Exchange::Mexc => Dec { mantissa: 5, scale: 4 },
    }
}

/// The VIP0 spot taker fee of an exchange, as a fraction.
pub fn taker_fee(ex: &Exchange) -> (fee: Dec)
    ensures
        fee == taker_fee_spec(*ex),
        fee.wf(),
{
    match ex {
        Exchange::Bybit => Dec { mantissa: 1, scale: 3 },
        Exchange::Gate => Dec { mantissa: 9, scale: 4 },
        Exchange::Bitget => Dec { mantissa: 1, scale: 3 },
        Exchange::Binance => Dec { mantissa: 1, scale: 3 },
        Exchange::Htx => Dec { mantissa: 2, scale: 3 },
        Exchange::Okx => Dec { mantissa: 5, scale: 4 },
        Exchange::Mexc => Dec { mantissa: 5, scale: 4 },
    }
}

/// One hundred.
pub open spec fn hundred() -> Dec {
    Dec { mantissa: 100, scale: 0 }
}

/// A fraction as a percentage: `num * 100`, `None` where the product
/// overflows.
pub fn percent(num: Dec) -> (r: Option<Dec>)
    requires
        num.wf(),
    ensures
        r == decimal_checked_mul(num, hundred()),
        r matches Some(p) ==> p.wf(),
        r matches Some(p) ==> (p.value() > 0 ==> num.value() > 0),
        r matches Some(p) ==> (p.value() < 0 ==> num.value() < 0),
{
    let h = Dec { mantissa: 100, scale: 0 };
    assert(h.value() > 0) by {
        lemma_pow_positive(10, 28);
    }
    checked_mul(num, h)
}


/// The fee of each exchange in basis points (hundredths of a percent), as a
/// fraction in units of `10^-28`: 10 on Bybit, Bitget and Binance, 9 on
/// Gate, 20 on HTX, 5 on OKX and MEXC.
pub proof fn lemma_taker_fees(ex: Exchange)
    ensures
        taker_fee_spec(ex).value() == (match ex {
            Exchange::Bybit => 10int,
            Exchange::Gate => 9,
            Exchange::Bitget => 10,
            Exchange::Binance => 10,
            Exchange::Htx => 20,
            Exchange::Okx => 5,
            Exchange::Mexc => 5,
        }) * pow(10, 24),
{
    reveal_with_fuel(pow, 2);
    assert(pow(10, 25) == 10 * pow(10, 24));
}
} // verus!
