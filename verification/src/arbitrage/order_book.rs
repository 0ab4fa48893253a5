//! Choosing where to buy and where to sell a symbol.

use crate::arbitrage::utils::{hundred, percent, taker_fee, taker_fee_spec};
use crate::decimal::{
    checked_add, checked_div, checked_mul, checked_sub, decimal_checked_add, decimal_checked_div,
    decimal_checked_mul, decimal_checked_sub, lt, min, Dec,
};
use crate::dto::{OrderBookDto, SignalDto, SignalView};
use crate::exchange::{Exchange, Symbol};
use std::sync::Arc;
use vstd::prelude::*;

verus! {

/// The periodic comparison of one symbol's snapshots, reading from an
/// order-book bus and publishing to a signal bus.
pub struct OrderBookArbitrage<O, S> {
    pub tick_secs: u64,
    pub order_book_bus: Arc<O>,
    pub signal_bus: Arc<S>,
}

impl<O, S> OrderBookArbitrage<O, S> {
    /// A comparison run every `tick_secs` seconds between the two buses.
    pub fn new(tick_secs: u64, order_book_bus: Arc<O>, signal_bus: Arc<S>) -> (a: Self)
        ensures
            a.tick_secs == tick_secs,
            a.order_book_bus == order_book_bus,
            a.signal_bus == signal_bus,
    {
        OrderBookArbitrage { tick_secs, order_book_bus, signal_bus }
    }
}

/// How old a snapshot may be and still be compared, counted in the unit of
/// the snapshots' timestamps: 3000, three seconds counted in milliseconds.
pub const STALENESS_LIMIT: u64 = 3000;

/// The cost of buying one unit at a book's ask, taker fee included:
/// `ask * (1 + fee)`.
pub open spec fn eff_ask(b: OrderBookDto) -> Option<Dec> {
    match decimal_checked_add(Dec { mantissa: 1, scale: 0 }, taker_fee_spec(b.exchange)) {
        Some(f) => decimal_checked_mul(b.ask_price, f),
        None => None,
    }
}

/// The proceeds of selling one unit at a book's bid, taker fee deducted:
/// `bid * (1 - fee)`.
pub open spec fn eff_bid(b: OrderBookDto) -> Option<Dec> {
    match decimal_checked_sub(Dec { mantissa: 1, scale: 0 }, taker_fee_spec(b.exchange)) {
        Some(f) => decimal_checked_mul(b.bid_price, f),
        None => None,
    }
}

/// Over the first `n` books: `None` where some effective ask overflows,
/// otherwise the position and effective ask of the cheapest book (the first
/// of equally cheap ones), or `Some(None)` for no books.
pub open spec fn buy_scan(books: Seq<OrderBookDto>, n: int) -> Option<Option<(int, Dec)>>
    decreases n,
{
    if n <= 0 {
        Some(None)
    } else {
        match buy_scan(books, n - 1) {
            None => None,
            Some(prev) => match eff_ask(books[n - 1]) {
                None => None,
                Some(e) => match prev {
                    None => Some(Some((n - 1, e))),
                    Some((i, a)) => if e.value() < a.value() {
                        Some(Some((n - 1, e)))
                    } else {
                        Some(Some((i, a)))
                    },
                },
            },
        }
    }
}

/// Over the first `n` books not on exchange `skip`: `None` where some
/// effective bid overflows, otherwise the position and effective bid of the
/// richest book (the first of equally rich ones), or `Some(None)` for none.
pub open spec fn sell_scan(books: Seq<OrderBookDto>, skip: Exchange, n: int) -> Option<Option<(int, Dec)>>
    decreases n,
{
    if n <= 0 {
        Some(None)
    } else {
        match sell_scan(books, skip, n - 1) {
            None => None,
            Some(prev) => if books[n - 1].exchange == skip {
                Some(prev)
            } else {
                match eff_bid(books[n - 1]) {
                    None => None,
                    Some(e) => match prev {
                        None => Some(Some((n - 1, e))),
                        Some((i, b)) => if e.value() > b.value() {
                            Some(Some((n - 1, e)))
                        } else {
                            Some(Some((i, b)))
                        },
                    },
                }
            },
        }
    }
}

/// The smaller of two decimals, the first where they are equal.
pub open spec fn min_spec(a: Dec, b: Dec) -> Dec {
    if a.value() > b.value() {
        b
    } else {
        a
    }
}

/// What `compare` gives: buy at the book with the lowest fee-adjusted ask,
/// sell at the book of another exchange with the highest fee-adjusted bid,
/// for as much as both top levels hold; `None` where there is no such pair,
/// where the gross spread `(bid - ask) / ask` is not positive, or where a
/// decimal operation fails.
pub open spec fn compare_spec(symbol: Symbol, books: Seq<OrderBookDto>) -> Option<SignalView> {
    match buy_scan(books, books.len() as int) {
        Some(Some((bi, buy_eff))) => {
            let buy = books[bi];
            match sell_scan(books, buy.exchange, books.len() as int) {
                Some(Some((si, sell_eff))) => {
                    let sell = books[si];
                    match decimal_checked_sub(sell.bid_price, buy.ask_price) {
                        Some(diff) => match decimal_checked_div(diff, buy.ask_price) {
                            Some(gross) => if gross.value() <= 0 {
                                None
                            } else {
                                match decimal_checked_sub(sell_eff, buy_eff) {
                                    Some(diff_eff) => match decimal_checked_div(diff_eff, buy_eff) {
                                        Some(net) => match decimal_checked_mul(gross, hundred()) {
                                            Some(gross_percent) => match decimal_checked_mul(net, hundred()) {
                                                Some(net_percent) => Some(SignalView {
                                                    symbol,
                                                    buy_exchange: buy.exchange,
                                                    sell_exchange: sell.exchange,
                                                    buy_price: buy.ask_price,
                                                    sell_price: sell.bid_price,
                                                    volume: min_spec(buy.ask_amount, sell.bid_amount),
                                                    gross_percent,
                                                    net_percent,
                                                    buy_link: buy.pair_link@,
                                                    sell_link: sell.pair_link@,
                                                }),
                                                None => None,
                                            },
                                            None => None,
                                        },
                                        None => None,
                                    },
                                    None => None,
                                }
                            },
                            None => None,
                        },
                        None => None,
                    }
                },
                _ => None,
            }
        },
        _ => None,
    }
}

/// All books hold well-formed decimals.
pub open spec fn books_wf(books: Seq<OrderBookDto>) -> bool {
    forall|i: int| 0 <= i < books.len() ==> (#[trigger] books[i]).wf()
}

/// A failed scan stays failed as more books are scanned.
proof fn lemma_buy_scan_fails_on(books: Seq<OrderBookDto>, n: int, m: int)
    requires
        0 <= n <= m,
        buy_scan(books, n) is None,
    ensures
        buy_scan(books, m) is None,
    decreases m - n,
{
    if n < m {
        lemma_buy_scan_fails_on(books, n, m - 1);
    }
}

/// A failed scan stays failed as more books are scanned.
proof fn lemma_sell_scan_fails_on(books: Seq<OrderBookDto>, skip: Exchange, n: int, m: int)
    requires
        0 <= n <= m,
        sell_scan(books, skip, n) is None,
    ensures
        sell_scan(books, skip, m) is None,
    decreases m - n,
{
    if n < m {
        lemma_sell_scan_fails_on(books, skip, n, m - 1);
    }
}

/// The fee-adjusted ask of a book.
fn effective_ask(b: &OrderBookDto) -> (r: Option<Dec>)
    requires
        b.wf(),
    ensures
        r == eff_ask(*b),
        r matches Some(e) ==> e.wf(),
{
    let fee = taker_fee(&b.exchange);
    match checked_add(Dec::one(), fee) {
        Some(f) => checked_mul(b.ask_price, f),
        None => None,
    }
}

/// The fee-adjusted bid of a book.
fn effective_bid(b: &OrderBookDto) -> (r: Option<Dec>)
    requires
        b.wf(),
    ensures
        r == eff_bid(*b),
        r matches Some(e) ==> e.wf(),
{
    let fee = taker_fee(&b.exchange);
    match checked_sub(Dec::one(), fee) {
        Some(f) => checked_mul(b.bid_price, f),
        None => None,
    }
}

/// The cheapest book to buy from: its position and fee-adjusted ask.
fn best_buy(books: &[OrderBookDto]) -> (r: Option<Option<(usize, Dec)>>)
    requires
        books_wf(books@),
    ensures
        match r {
            None => buy_scan(books@, books@.len() as int) is None,
            Some(None) => buy_scan(books@, books@.len() as int) == Some(None::<(int, Dec)>),
            Some(Some((i, e))) => buy_scan(books@, books@.len() as int) == Some(Some((i as int, e)))
                && e.wf() && i < books@.len(),
        },
{
    let mut best: Option<(usize, Dec)> = None;
    let mut i: usize = 0;
    while i < books.len()
        invariant
            i <= books@.len(),
            books_wf(books@),
            match best {
                None => buy_scan(books@, i as int) == Some(None::<(int, Dec)>),
                Some((k, e)) => buy_scan(books@, i as int) == Some(Some((k as int, e))) && e.wf()
                    && k < i,
            },
        decreases books@.len() - i,
    {
        let book = &books[i];
        assert(books@[i as int].wf());
        let e = match effective_ask(book) {
            Some(e) => e,
            None => {
                proof { lemma_buy_scan_fails_on(books@, i + 1, books@.len() as int); }
                return None;
            },
        };
        let replace = match best {
            None => true,
            Some((_, a)) => lt(e, a),
        };
        if replace {
            best = Some((i, e));
        }
        i = i + 1;
    }
    Some(best)
}

/// The richest book of another exchange than `skip` to sell to: its
/// position and fee-adjusted bid.
fn best_sell(books: &[OrderBookDto], skip: Exchange) -> (r: Option<Option<(usize, Dec)>>)
    requires
        books_wf(books@),
    ensures
        match r {
            None => sell_scan(books@, skip, books@.len() as int) is None,
            Some(None) => sell_scan(books@, skip, books@.len() as int) == Some(None::<(int, Dec)>),
            Some(Some((i, e))) => sell_scan(books@, skip, books@.len() as int) == Some(
                Some((i as int, e)),
            ) && e.wf() && i < books@.len(),
        },
{
    let mut best: Option<(usize, Dec)> = None;
    let mut i: usize = 0;
    while i < books.len()
        invariant
            i <= books@.len(),
            books_wf(books@),
            match best {
                None => sell_scan(books@, skip, i as int) == Some(None::<(int, Dec)>),
                Some((k, e)) => sell_scan(books@, skip, i as int) == Some(Some((k as int, e)))
                    && e.wf() && k < i,
            },
        decreases books@.len() - i,
    {
        let book = &books[i];
        assert(books@[i as int].wf());
        if book.exchange != skip {
            let e = match effective_bid(book) {
                Some(e) => e,
                None => {
                    proof { lemma_sell_scan_fails_on(books@, skip, i + 1, books@.len() as int); }
                    return None;
                },
            };
            let replace = match best {
                None => true,
                Some((_, b)) => lt(b, e),
            };
            if replace {
                best = Some((i, e));
            }
        }
        i = i + 1;
    }
    Some(best)
}

/// Finds the best opportunity for `symbol` among fresh snapshots: buy where
/// the fee-adjusted ask is lowest, sell on another exchange where the
/// fee-adjusted bid is highest. `None` where no pair exists, where the gross
/// spread is not positive, or where a decimal operation fails. A signal
/// bought at a positive price sells higher than it buys.
pub fn compare(symbol: Symbol, books: &[OrderBookDto]) -> (r: Option<SignalDto>)
    requires
        books_wf(books@),
    ensures
        match r {
            Some(s) => compare_spec(symbol, books@) == Some(s@),
            None => compare_spec(symbol, books@) is None,
        },
        r matches Some(s) ==> (s.buy_price.value() > 0 ==> s.sell_price.value() > s.buy_price.value()),
        r matches Some(s) ==> (
        decimal_checked_add(Dec { mantissa: 1, scale: 0 }, taker_fee_spec(s.buy_exchange)) matches Some(fa)
            && decimal_checked_mul(s.buy_price, fa) matches Some(buy_eff)
            && decimal_checked_sub(Dec { mantissa: 1, scale: 0 }, taker_fee_spec(s.sell_exchange)) matches Some(fb)
            && decimal_checked_mul(s.sell_price, fb) matches Some(sell_eff)
            && buy_eff.value() > 0 && sell_eff.value() < buy_eff.value() ==> s.net_percent.value() <= 0),
{
    let (bi, buy_eff) = match best_buy(books) {
        Some(Some(b)) => b,
        _ => return None,
    };
    let buy = &books[bi];
    assert(books@[bi as int].wf());
    let (si, sell_eff) = match best_sell(books, buy.exchange) {
        Some(Some(s)) => s,
        _ => return None,
    };
    let sell = &books[si];
    assert(books@[si as int].wf());
    proof {
        lemma_buy_scan(books@, books@.len() as int);
        lemma_sell_scan(books@, buy.exchange, books@.len() as int);
    }
    let volume = min(buy.ask_amount, sell.bid_amount);
    let diff = match checked_sub(sell.bid_price, buy.ask_price) {
        Some(d) => d,
        None => return None,
    };
    let gross = match checked_div(diff, buy.ask_price) {
        Some(g) => g,
        None => return None,
    };
    if !lt(Dec::zero(), gross) {
        return None;
    }
    let diff_eff = match checked_sub(sell_eff, buy_eff) {
        Some(d) => d,
        None => return None,
    };
    let net = match checked_div(diff_eff, buy_eff) {
        Some(n) => n,
        None => return None,
    };
    let gross_percent = match percent(gross) {
        Some(p) => p,
        None => return None,
    };
    let net_percent = match percent(net) {
        Some(p) => p,
        None => return None,
    };
    Some(SignalDto {
        symbol,
        buy_exchange: buy.exchange,
        sell_exchange: sell.exchange,
        buy_price: buy.ask_price,
        sell_price: sell.bid_price,
        volume,
        gross_percent,
        net_percent,
        buy_link: buy.pair_link.clone(),
        sell_link: sell.pair_link.clone(),
    })
}

/// Whether a snapshot taken at `ts` may still be compared at `now`: it is at
/// most `STALENESS_LIMIT` old (a snapshot from the future counts as fresh).
pub open spec fn is_fresh(now: u64, ts: u64) -> bool {
    !(now > ts && now - ts > STALENESS_LIMIT)
}

/// The snapshots, in their order, that are fresh at `now`.
pub open spec fn fresh_books(now: u64, books: Seq<OrderBookDto>) -> Seq<OrderBookDto> {
    books.filter(|b: OrderBookDto| is_fresh(now, b.timestamp))
}

/// Keeps, in their order, the snapshots that are at most `STALENESS_LIMIT`
/// older than `now`.
pub fn prepare_books(now: u64, books: Vec<OrderBookDto>) -> (r: Vec<OrderBookDto>)
    ensures
        r@ == fresh_books(now, books@),
{
    let ghost orig = books@;
    let ghost pred = |b: OrderBookDto| is_fresh(now, b.timestamp);
    let n = books.len();
    let mut rest = books;
    let mut out: Vec<OrderBookDto> = Vec::new();
    let mut k: usize = 0;
    proof { reveal_with_fuel(Seq::<_>::filter, 1); }
    assert(orig.take(0).filter(pred) =~= Seq::<OrderBookDto>::empty());
    while rest.len() > 0
        invariant
            k <= orig.len(),
            orig.len() == n,
            rest@ == orig.skip(k as int),
            out@ == orig.take(k as int).filter(pred),
            pred == (|b: OrderBookDto| is_fresh(now, b.timestamp)),
        decreases rest@.len(),
    {
        assert(orig.skip(k as int).len() > 0);
        let b = rest.remove(0);
        assert(orig.take(k + 1) =~= orig.take(k as int).push(b));
        proof { orig.take(k as int).lemma_filter_push(b, pred); }
        let fresh = !(now > b.timestamp && now - b.timestamp > STALENESS_LIMIT);
        assert(fresh == pred(b));
        if fresh {
            out.push(b);
        }
        assert(rest@ =~= orig.skip(k + 1));
        k = k + 1;
    }
    assert(orig.take(k as int) =~= orig);
    out
}

/// The snapshots kept at `now` are among those given, none of them more
/// than `STALENESS_LIMIT` older than `now`; every snapshot at most that old
/// is kept, in particular every one stamped at or after `now`.
pub proof fn lemma_prepare_books_keeps_fresh(now: u64, books: Seq<OrderBookDto>)
    ensures
        forall|i: int| 0 <= i < books.len() && books[i].timestamp >= now
            ==> #[trigger] fresh_books(now, books).contains(books[i]),
        forall|i: int| 0 <= i < books.len() && now - books[i].timestamp <= STALENESS_LIMIT
            ==> #[trigger] fresh_books(now, books).contains(books[i]),
        forall|k: int| 0 <= k < fresh_books(now, books).len() ==> {
            &&& books.contains(#[trigger] fresh_books(now, books)[k])
            &&& now - fresh_books(now, books)[k].timestamp <= STALENESS_LIMIT
        },
        fresh_books(now, books).len() <= books.len(),
{
    let pred = |b: OrderBookDto| is_fresh(now, b.timestamp);
    assert forall|i: int| 0 <= i < books.len() && now - books[i].timestamp <= STALENESS_LIMIT
        implies #[trigger] fresh_books(now, books).contains(books[i]) by {
        books.lemma_filter_contains(pred, i);
    }
    assert forall|k: int| 0 <= k < fresh_books(now, books).len() implies {
        &&& books.contains(#[trigger] fresh_books(now, books)[k])
        &&& now - fresh_books(now, books)[k].timestamp <= STALENESS_LIMIT
    } by {
        books.lemma_filter_pred(pred, k);
        let b = fresh_books(now, books)[k];
        assert(books.filter(pred).contains(b));
        books.lemma_filter_contains_rev(pred, b);
    }
    books.lemma_filter_len(pred);
}

/// The buy scan picks the book with the lowest fee-adjusted ask, the first
/// of equally cheap ones; it fails exactly when some fee-adjusted ask
/// overflows, and finds nothing only among no books.
pub proof fn lemma_buy_scan(books: Seq<OrderBookDto>, n: int)
    requires
        0 <= n <= books.len(),
    ensures
        buy_scan(books, n) is None <==> exists|j: int| 0 <= j < n && (#[trigger] eff_ask(books[j])) is None,
        buy_scan(books, n) == Some(None::<(int, Dec)>) <==> n == 0,
        buy_scan(books, n) matches Some(Some((i, e))) ==> {
            &&& 0 <= i < n
            &&& eff_ask(books[i]) == Some(e)
            &&& forall|j: int| 0 <= j < n ==> ((#[trigger] eff_ask(books[j])) matches Some(x) && e.value() <= x.value())
            &&& forall|j: int| 0 <= j < i ==> ((#[trigger] eff_ask(books[j])) matches Some(x) && e.value() < x.value())
        },
    decreases n,
{
    if n > 0 {
        lemma_buy_scan(books, n - 1);
        if buy_scan(books, n - 1) is None {
            let j = choose|j: int| 0 <= j < n - 1 && (#[trigger] eff_ask(books[j])) is None;
            assert(0 <= j < n && eff_ask(books[j]) is None);
        }
        if buy_scan(books, n) is None && buy_scan(books, n - 1) is Some {
            assert(eff_ask(books[n - 1]) is None);
        }
    }
}

/// The sell scan picks, among books not on `skip`, the one with the
/// highest fee-adjusted bid, the first of equally rich ones; it fails
/// exactly when one of their fee-adjusted bids overflows, and finds nothing
/// only when every book is on `skip`.
pub proof fn lemma_sell_scan(books: Seq<OrderBookDto>, skip: Exchange, n: int)
    requires
        0 <= n <= books.len(),
    ensures
        sell_scan(books, skip, n) is None <==> exists|j: int|
            0 <= j < n && books[j].exchange != skip && (#[trigger] eff_bid(books[j])) is None,
        sell_scan(books, skip, n) == Some(None::<(int, Dec)>) <==> forall|j: int|
            0 <= j < n ==> (#[trigger] books[j]).exchange == skip,
        sell_scan(books, skip, n) matches Some(Some((i, e))) ==> {
            &&& 0 <= i < n
            &&& books[i].exchange != skip
            &&& eff_bid(books[i]) == Some(e)
            &&& forall|j: int| 0 <= j < n && books[j].exchange != skip ==> ((#[trigger] eff_bid(books[j])) matches Some(x) && x.value() <= e.value())
            &&& forall|j: int| 0 <= j < i && books[j].exchange != skip ==> ((#[trigger] eff_bid(books[j])) matches Some(x) && x.value() < e.value())
        },
    decreases n,
{
    if n > 0 {
        lemma_sell_scan(books, skip, n - 1);
        if sell_scan(books, skip, n - 1) is None {
            let j = choose|j: int| 0 <= j < n - 1 && books[j].exchange != skip && (#[trigger] eff_bid(books[j])) is None;
            assert(0 <= j < n && books[j].exchange != skip && eff_bid(books[j]) is None);
        }
        if sell_scan(books, skip, n) is None && sell_scan(books, skip, n - 1) is Some {
            assert(books[n - 1].exchange != skip && eff_bid(books[n - 1]) is None);
        }
        if sell_scan(books, skip, n - 1) == Some(None::<(int, Dec)>) && books[n - 1].exchange == skip {
            assert forall|j: int| 0 <= j < n implies (#[trigger] books[j]).exchange == skip by {
                if j < n - 1 {
                    assert(books[j].exchange == skip);
                }
            };
        }
        if !(forall|j: int| 0 <= j < n ==> (#[trigger] books[j]).exchange == skip) {
            let j = choose|j: int| 0 <= j < n && !((#[trigger] books[j]).exchange == skip);
            if sell_scan(books, skip, n) == Some(None::<(int, Dec)>) {
                if j == n - 1 {
                    assert(false);
                } else {
                    assert(!(forall|k: int| 0 <= k < n - 1 ==> (#[trigger] books[k]).exchange == skip));
                }
            }
        }
    }
}

/// `sig` buys from book `bi` and sells to book `si`: the two exchanges
/// differ, `bi` has the lowest fee-adjusted ask of all books, `si` the
/// highest fee-adjusted bid of the books on other exchanges than `bi`'s,
/// the gross spread is positive, and the volume is the smaller of the two
/// top-level amounts.
pub open spec fn signal_from(sig: SignalView, symbol: Symbol, books: Seq<OrderBookDto>, bi: int, si: int) -> bool {
    &&& 0 <= bi < books.len()
    &&& 0 <= si < books.len()
    &&& books[bi].exchange == sig.buy_exchange
    &&& books[si].exchange == sig.sell_exchange
    &&& sig.buy_exchange != sig.sell_exchange
    &&& sig.symbol == symbol
    &&& sig.buy_price == books[bi].ask_price
    &&& sig.sell_price == books[si].bid_price
    &&& sig.volume == min_spec(books[bi].ask_amount, books[si].bid_amount)
    &&& sig.buy_link == books[bi].pair_link@
    &&& sig.sell_link == books[si].pair_link@
    &&& eff_ask(books[bi]) matches Some(a) && (forall|j: int| 0 <= j < books.len() ==> ((#[trigger] eff_ask(books[j])) matches Some(x) && a.value() <= x.value()))
    &&& eff_bid(books[si]) matches Some(b) && (forall|j: int| 0 <= j < books.len() && books[j].exchange != sig.buy_exchange ==> ((#[trigger] eff_bid(books[j])) matches Some(x) && x.value() <= b.value()))
    &&& decimal_checked_sub(books[si].bid_price, books[bi].ask_price) matches Some(diff)
        && decimal_checked_div(diff, books[bi].ask_price) matches Some(gross)
        && gross.value() > 0 && decimal_checked_mul(gross, hundred()) == Some(sig.gross_percent)
}

/// An opportunity buys where the fee-adjusted ask is lowest over all books
/// and sells where the fee-adjusted bid is highest over the books of every
/// other exchange; the two exchanges differ, the gross spread is positive,
/// and the volume is the smaller of the two top-level amounts.
pub proof fn lemma_compare_picks_extremes(symbol: Symbol, books: Seq<OrderBookDto>)
    requires
        compare_spec(symbol, books) is Some,
    ensures
        exists|bi: int, si: int| #[trigger] signal_from(compare_spec(symbol, books)->0, symbol, books, bi, si),
{
    let n = books.len() as int;
    lemma_buy_scan(books, n);
    let (bi, buy_eff) = buy_scan(books, n)->0->0;
    lemma_sell_scan(books, books[bi].exchange, n);
    let (si, sell_eff) = sell_scan(books, books[bi].exchange, n)->0->0;
    let sig = compare_spec(symbol, books)->0;
    assert(signal_from(sig, symbol, books, bi, si));
}

/// Every signal's spreads follow from its own prices and exchanges: the
/// gross spread is `(sell - buy) / buy * 100`, and the net spread is
/// `(sell * (1 - sell fee) - buy * (1 + buy fee)) / (buy * (1 + buy fee)) * 100`
/// with each exchange's taker fee, each step a decimal operation.
pub proof fn lemma_signal_spreads(symbol: Symbol, books: Seq<OrderBookDto>)
    ensures
        compare_spec(symbol, books) matches Some(sig) ==> {
            &&& decimal_checked_sub(sig.sell_price, sig.buy_price) matches Some(d)
                && decimal_checked_div(d, sig.buy_price) matches Some(gross)
                && decimal_checked_mul(gross, hundred()) == Some(sig.gross_percent)
            &&& decimal_checked_add(Dec { mantissa: 1, scale: 0 }, taker_fee_spec(sig.buy_exchange)) matches Some(fa)
                && decimal_checked_mul(sig.buy_price, fa) matches Some(buy_eff)
                && decimal_checked_sub(Dec { mantissa: 1, scale: 0 }, taker_fee_spec(sig.sell_exchange)) matches Some(fb)
                && decimal_checked_mul(sig.sell_price, fb) matches Some(sell_eff)
                && decimal_checked_sub(sell_eff, buy_eff) matches Some(dn)
                && decimal_checked_div(dn, buy_eff) matches Some(net)
                && decimal_checked_mul(net, hundred()) == Some(sig.net_percent)
        },
{
    if compare_spec(symbol, books) is Some {
        let n = books.len() as int;
        lemma_buy_scan(books, n);
        let (bi, buy_eff) = buy_scan(books, n)->0->0;
        lemma_sell_scan(books, books[bi].exchange, n);
        let (si, sell_eff) = sell_scan(books, books[bi].exchange, n)->0->0;
        let sig = compare_spec(symbol, books)->0;
        assert(eff_ask(books[bi]) == Some(buy_eff));
        assert(eff_bid(books[si]) == Some(sell_eff));
        assert(sig.buy_price == books[bi].ask_price && sig.buy_exchange == books[bi].exchange);
        assert(sig.sell_price == books[si].bid_price && sig.sell_exchange == books[si].exchange);
    }
}

/// Without books of at least two exchanges there is no opportunity.
pub proof fn lemma_compare_needs_two_exchanges(symbol: Symbol, books: Seq<OrderBookDto>, ex: Exchange)
    requires
        forall|j: int| 0 <= j < books.len() ==> (#[trigger] books[j]).exchange == ex,
    ensures
        compare_spec(symbol, books) is None,
{
    let n = books.len() as int;
    lemma_buy_scan(books, n);
    match buy_scan(books, n) {
        Some(Some((bi, e))) => {
            lemma_sell_scan(books, books[bi].exchange, n);
            assert(books[bi].exchange == ex);
        },
        _ => {},
    }
}

} // verus!
