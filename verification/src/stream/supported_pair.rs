//! Which tickers an exchange lists for spot trading against USDT.

use crate::exchange::Exchange;
use crate::json::{json_array, json_get, json_str, pointer_spec, Json};
use crate::stream::ticker_views;
use vstd::prelude::*;

verus! {

/// An exchange's listing of spot pairs.
pub trait SupportedPair {
    /// Whether a listed instrument is a tradable USDT pair of a tracked
    /// symbol.
    spec fn accepts(value: Json) -> bool;

    /// Whether a listed instrument is a tradable USDT pair of a tracked
    /// symbol.
    fn filter(value: &Json) -> (r: bool)
        ensures
            r == Self::accepts(*value);

    /// The exchange.
    fn exchange() -> Exchange;

    /// The address of the listing.
    fn get_rest_url() -> String;
}

/// Among the first `n` listed instruments, the base tickers (member `key`)
/// of those accepted that have one.
pub open spec fn accepted_bases<P: SupportedPair>(items: Seq<Json>, key: Seq<char>, n: int) -> Seq<Seq<char>>
    decreases n,
{
    if n <= 0 {
        Seq::empty()
    } else {
        let prev = accepted_bases::<P>(items, key, n - 1);
        let it = items[n - 1];
        if P::accepts(it) && json_str(json_get(it, key)) is Some {
            prev.push(json_str(json_get(it, key))->0)
        } else {
            prev
        }
    }
}

/// The tickers a listing offers: at `pointer`, an array of instruments,
/// of which the accepted ones' `base_key` texts are kept in order; nothing
/// where the pointer designates no array.
pub open spec fn listed_tickers<P: SupportedPair>(result: Json, pointer: Seq<char>, base_key: Seq<char>) -> Seq<Seq<char>> {
    match json_array(pointer_spec(result, pointer)) {
        Some(items) => accepted_bases::<P>(items, base_key, items.len() as int),
        None => Seq::empty(),
    }
}

/// The base tickers of the accepted instruments in a listing.
pub fn get_tickers<P: SupportedPair>(result: &Json, pointer: &str, base_key: &str) -> (r: Vec<String>)
    ensures
        ticker_views(r@) == listed_tickers::<P>(*result, pointer@, base_key@),
{
    let mut out: Vec<String> = Vec::new();
    let items = match result.pointer(pointer) {
        Some(v) => match v.as_array() {
            Some(items) => items,
            None => {
                assert(ticker_views(out@) =~= Seq::<Seq<char>>::empty());
                return out;
            },
        },
        None => {
            assert(ticker_views(out@) =~= Seq::<Seq<char>>::empty());
            return out;
        },
    };
    let mut i: usize = 0;
    while i < items.len()
        invariant
            i <= items@.len(),
            ticker_views(out@) == accepted_bases::<P>(items@, base_key@, i as int),
        decreases items@.len() - i,
    {
        let it = &items[i];
        if P::filter(it) {
            if let Some(v) = it.get(base_key) {
                if let Some(s) = v.as_str() {
                    out.push(String::from_str(s));
                }
            }
        }
        assert(ticker_views(out@) =~= accepted_bases::<P>(items@, base_key@, i + 1));
        i = i + 1;
    }
    out
}


/// Whether instrument `i` of a listing is accepted and has base `t`.
pub open spec fn lists_base<P: SupportedPair>(items: Seq<Json>, key: Seq<char>, i: int, t: Seq<char>) -> bool {
    P::accepts(items[i]) && json_str(json_get(items[i], key)) == Some(t)
}

/// Among the first `n` instruments, a ticker is kept exactly when some
/// accepted instrument has it as its base.
proof fn lemma_accepted_bases<P: SupportedPair>(items: Seq<Json>, key: Seq<char>, n: int)
    requires
        0 <= n <= items.len(),
    ensures
        forall|t: Seq<char>| #[trigger] accepted_bases::<P>(items, key, n).contains(t)
            <==> exists|i: int| 0 <= i < n && lists_base::<P>(items, key, i, t),
    decreases n,
{
    if n > 0 {
        lemma_accepted_bases::<P>(items, key, n - 1);
        let prev = accepted_bases::<P>(items, key, n - 1);
        let it = items[n - 1];
        assert forall|t: Seq<char>| #[trigger] accepted_bases::<P>(items, key, n).contains(t)
            <==> exists|i: int| 0 <= i < n && lists_base::<P>(items, key, i, t) by {
            if P::accepts(it) && json_str(json_get(it, key)) is Some {
                let b = json_str(json_get(it, key))->0;
                let cur = prev.push(b);
                assert(accepted_bases::<P>(items, key, n) == cur);
                if cur.contains(t) {
                    let k = choose|k: int| 0 <= k < cur.len() && cur[k] == t;
                    if k == prev.len() {
                        assert(lists_base::<P>(items, key, n - 1, t));
                    } else {
                        assert(prev[k] == t);
                        assert(prev.contains(t));
                    }
                }
                if exists|i: int| 0 <= i < n && lists_base::<P>(items, key, i, t) {
                    let i = choose|i: int| 0 <= i < n && lists_base::<P>(items, key, i, t);
                    if i == n - 1 {
                        assert(cur[prev.len() as int] == t);
                    } else {
                        assert(prev.contains(t));
                        let k = choose|k: int| 0 <= k < prev.len() && prev[k] == t;
                        assert(cur[k] == t);
                    }
                }
            } else {
                if exists|i: int| 0 <= i < n && lists_base::<P>(items, key, i, t) {
                    let i = choose|i: int| 0 <= i < n && lists_base::<P>(items, key, i, t);
                    assert(i != n - 1);
                }
            }
        }
    } else {
        assert forall|t: Seq<char>| #[trigger] accepted_bases::<P>(items, key, n).contains(t)
            <==> exists|i: int| 0 <= i < n && lists_base::<P>(items, key, i, t) by {
            if accepted_bases::<P>(items, key, n).contains(t) {
                let k = choose|k: int| 0 <= k < accepted_bases::<P>(items, key, n).len() && accepted_bases::<P>(items, key, n)[k] == t;
            }
        }
    }
}

/// A listing yields exactly the bases of its accepted instruments: a
/// ticker is listed when, and only when, some instrument in the array at
/// `pointer` is accepted and has that ticker as its `base_key` text.
pub proof fn lemma_listed_tickers<P: SupportedPair>(result: Json, pointer: Seq<char>, base_key: Seq<char>)
    ensures
        forall|t: Seq<char>| #[trigger] listed_tickers::<P>(result, pointer, base_key).contains(t) <==> (
            json_array(pointer_spec(result, pointer)) matches Some(items)
                && exists|i: int| 0 <= i < items.len() && lists_base::<P>(items, base_key, i, t)),
{
    match json_array(pointer_spec(result, pointer)) {
        Some(items) => lemma_accepted_bases::<P>(items, base_key, items.len() as int),
        None => {
            assert forall|t: Seq<char>| !(#[trigger] listed_tickers::<P>(result, pointer, base_key).contains(t)) by {
                assert(listed_tickers::<P>(result, pointer, base_key) =~= Seq::<Seq<char>>::empty());
            }
        },
    }
}
} // verus!
