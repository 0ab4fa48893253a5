//! Helpers shared by the exchange decoders.

use crate::decimal::{decimal_from_str, parse, Dec};
use crate::dto::DecodeError;
use crate::exchange::{lemma_symbol_positions, symbol_at, Symbol, SYMBOL_COUNT};
use crate::json::{json_array, json_get, json_str, Json};
use crate::symbol_names::{is_name_char, lemma_names_unique, lemma_symbol_name, name_lookup};
use crate::text::{
    all_white, ascii_upper, is_white_space, lemma_trim_padded, lemma_upper_trim_lower, lower, str_eq, starts_with,
    strip_suffix, to_ascii_uppercase, trim, trim_end, trim_start, trim_str, upper,
};
use vstd::prelude::*;

verus! {

/// The quote asset that exchanges append to a base symbol.
pub open spec fn quote_suffix() -> Seq<char> {
    seq!['U', 'S', 'D', 'T']
}

/// Whether `p` is a prefix of `t`.
pub open spec fn is_prefix(p: Seq<char>, t: Seq<char>) -> bool {
    p.len() <= t.len() && t.subrange(0, p.len() as int) == p
}

/// The first symbol among the first `n` (declaration order) named `t`.
pub open spec fn first_named_below(t: Seq<char>, n: int) -> Option<Symbol>
    decreases n,
{
    if n <= 0 {
        None
    } else {
        match first_named_below(t, n - 1) {
            Some(s) => Some(s),
            None => if symbol_at(n - 1).name() == t {
                Some(symbol_at(n - 1))
            } else {
                None
            },
        }
    }
}

/// The symbol named `t`, if there is one.
pub open spec fn symbol_named(t: Seq<char>) -> Option<Symbol> {
    first_named_below(t, SYMBOL_COUNT as int)
}

/// Among the first `n` symbols, the one with the longest name that begins
/// `t` (the earliest one where two are equally long).
pub open spec fn longest_prefix_below(t: Seq<char>, n: int) -> Option<Symbol>
    decreases n,
{
    if n <= 0 {
        None
    } else {
        let prev = longest_prefix_below(t, n - 1);
        let s = symbol_at(n - 1);
        if is_prefix(s.name(), t) && (prev is None || s.name().len() > prev->0.name().len()) {
            Some(s)
        } else {
            prev
        }
    }
}

/// The symbol with the longest name that begins `t`.
pub open spec fn longest_prefix_symbol(t: Seq<char>) -> Option<Symbol> {
    longest_prefix_below(t, SYMBOL_COUNT as int)
}

/// What `normalize_symbol` finds for an input: trimmed and upper-cased, the
/// text is looked up as a name, then as a name followed by `USDT`, then the
/// symbol with the longest name that begins it is taken.
pub open spec fn normalize_spec(s: Seq<char>) -> Option<Symbol> {
    let t = upper(trim(s));
    match symbol_named(t) {
        Some(sym) => Some(sym),
        None => {
            let q = quote_suffix();
            let by_base = if q.len() <= t.len() && t.subrange(t.len() - q.len(), t.len() as int) == q {
                symbol_named(t.subrange(0, t.len() - q.len()))
            } else {
                None
            };
            match by_base {
                Some(sym) => Some(sym),
                None => longest_prefix_symbol(t),
            }
        },
    }
}

/// The input of `normalize_symbol` matched no tracked symbol.
#[derive(Debug)]
pub struct UnknownSymbol {
    /// The trimmed, upper-cased input.
    pub input: String,
}

/// The tracked symbol named exactly `t`.
pub fn find_named(t: &str) -> (r: Option<Symbol>)
    ensures
        r == symbol_named(t@),
{
    let mut i: usize = 0;
    while i < SYMBOL_COUNT
        invariant
            i <= SYMBOL_COUNT,
            first_named_below(t@, i as int) is None,
        decreases SYMBOL_COUNT - i,
    {
        let sym = Symbol::from_index(i);
        if str_eq(t, sym.as_str()) {
            assert(first_named_below(t@, i + 1) == Some(sym));
            proof { lemma_first_named_stays(t@, i + 1, SYMBOL_COUNT as int); }
            return Some(sym);
        }
        i = i + 1;
    }
    None
}

/// Once a name has been found among the first `n` symbols, looking further
/// finds the same one.
proof fn lemma_first_named_stays(t: Seq<char>, n: int, m: int)
    requires
        0 <= n <= m,
        first_named_below(t, n) is Some,
    ensures
        first_named_below(t, m) == first_named_below(t, n),
    decreases m - n,
{
    if n < m {
        lemma_first_named_stays(t, n, m - 1);
    }
}

/// The tracked symbol with the longest name that begins `t`.
fn find_longest_prefix(t: &str) -> (r: Option<Symbol>)
    ensures
        r == longest_prefix_symbol(t@),
{
    let mut best: Option<Symbol> = None;
    let mut best_len: usize = 0;
    let mut i: usize = 0;
    while i < SYMBOL_COUNT
        invariant
            i <= SYMBOL_COUNT,
            best == longest_prefix_below(t@, i as int),
            best matches Some(b) ==> best_len == b.name().len(),
        decreases SYMBOL_COUNT - i,
    {
        let sym = Symbol::from_index(i);
        let name = sym.as_str();
        if starts_with(t, name) {
            let len = name.unicode_len();
            if best.is_none() || len > best_len {
                best = Some(sym);
                best_len = len;
            }
        }
        i = i + 1;
    }
    best
}

/// Maps an exchange's symbol text (such as `btcusdt`, `BTC-USDT` or
/// `BTC_USDT`) to a tracked symbol: the trimmed, upper-cased text is looked
/// up as a name, then with a trailing `USDT` removed, then as the longest
/// name that begins it.
pub fn normalize_symbol(s: &str) -> (r: Result<Symbol, UnknownSymbol>)
    ensures
        match r {
            Ok(sym) => normalize_spec(s@) == Some(sym),
            Err(e) => normalize_spec(s@) is None && e.input@ == upper(trim(s@)),
        },
{
    let u = to_ascii_uppercase(trim_str(s));
    let t = u.as_str();
    if let Some(sym) = find_named(t) {
        return Ok(sym);
    }
    if let Some(base) = strip_suffix(t, "USDT") {
        proof {
            reveal_strlit("USDT");
            assert("USDT"@ =~= quote_suffix());
            assert(t@.subrange(0, t@.len() - 4) =~= base@);
            assert(t@.subrange(t@.len() - 4, t@.len() as int) =~= quote_suffix());
        }
        if let Some(sym) = find_named(base) {
            return Ok(sym);
        }
    } else {
        proof {
            reveal_strlit("USDT");
            assert("USDT"@ =~= quote_suffix());
        }
    }
    match find_longest_prefix(t) {
        Some(sym) => Ok(sym),
        None => Err(UnknownSymbol { input: u }),
    }
}

/// What `val_to_dec` gives for a value: the decimal that a string or a
/// number's text spells.
pub open spec fn val_to_dec_spec(v: Json) -> Result<Dec, DecodeError> {
    match v {
        Json::Str(s) => match decimal_from_str(s@) {
            Some(d) => Ok(d),
            None => Err(DecodeError::InvalidDecimal),
        },
        Json::Number(n) => match decimal_from_str(n.text@) {
            Some(d) => Ok(d),
            None => Err(DecodeError::InvalidDecimal),
        },
        _ => Err(DecodeError::NotANumber),
    }
}

/// Reads a decimal from a JSON string or number.
pub fn val_to_dec(v: &Json) -> (r: Result<Dec, DecodeError>)
    ensures
        r == val_to_dec_spec(*v),
        r matches Ok(d) ==> d.wf(),
{
    match v {
        Json::Str(s) => match parse(s.as_str()) {
            Some(d) => Ok(d),
            None => Err(DecodeError::InvalidDecimal),
        },
        Json::Number(n) => match parse(n.text.as_str()) {
            Some(d) => Ok(d),
            None => Err(DecodeError::InvalidDecimal),
        },
        _ => Err(DecodeError::NotANumber),
    }
}

/// The decimal in member `key`, or `missing` where there is no such member.
pub open spec fn field_dec_spec(j: Json, key: Seq<char>, missing: DecodeError) -> Result<Dec, DecodeError> {
    match json_get(j, key) {
        Some(v) => val_to_dec_spec(v),
        None => Err(missing),
    }
}

/// Reads the decimal in member `key`; `missing` where there is no such member.
pub fn field_dec(j: &Json, key: &str, missing: DecodeError) -> (r: Result<Dec, DecodeError>)
    ensures
        r == field_dec_spec(*j, key@, missing),
        r matches Ok(d) ==> d.wf(),
{
    match j.get(key) {
        Some(v) => val_to_dec(v),
        None => Err(missing),
    }
}

/// What `get_price_and_size` gives for a book side: the price and size of
/// its first row.
pub open spec fn price_and_size_spec(side: Json) -> Result<(Dec, Dec), DecodeError> {
    match json_array(Some(side)) {
        Some(rows) => if rows.len() > 0 {
            match rows[0] {
                Json::Array(row) => if row@.len() == 0 {
                    Err(DecodeError::MissingPrice)
                } else {
                    match val_to_dec_spec(row@[0]) {
                        Err(e) => Err(e),
                        Ok(price) => if row@.len() < 2 {
                            Err(DecodeError::MissingSize)
                        } else {
                            match val_to_dec_spec(row@[1]) {
                                Err(e) => Err(e),
                                Ok(size) => Ok((price, size)),
                            }
                        },
                    }
                },
                _ => Err(DecodeError::MissingRow),
            }
        } else {
            Err(DecodeError::MissingRow)
        },
        None => Err(DecodeError::MissingRow),
    }
}

/// The price and size of the first row `[price, size, ..]` of a book side.
pub fn get_price_and_size(side: &Json) -> (r: Result<(Dec, Dec), DecodeError>)
    ensures
        r == price_and_size_spec(*side),
        r matches Ok((p, q)) ==> p.wf() && q.wf(),
{
    let rows = match side.as_array() {
        Some(rows) => rows,
        None => return Err(DecodeError::MissingRow),
    };
    if rows.len() == 0 {
        return Err(DecodeError::MissingRow);
    }
    let first = &rows[0];
    let row = match first {
        Json::Array(row) => row,
        _ => return Err(DecodeError::MissingRow),
    };
    if row.len() == 0 {
        return Err(DecodeError::MissingPrice);
    }
    let price = match val_to_dec(&row[0]) {
        Ok(p) => p,
        Err(e) => return Err(e),
    };
    if row.len() < 2 {
        return Err(DecodeError::MissingSize);
    }
    let size = match val_to_dec(&row[1]) {
        Ok(q) => q,
        Err(e) => return Err(e),
    };
    Ok((price, size))
}

/// Element `k` of the first row `[price, size, ..]` of a book side.
pub open spec fn top_row_item(side: Option<Json>, k: int) -> Option<Json> {
    match side {
        Some(Json::Array(rows)) => if rows@.len() > 0 {
            match rows@[0] {
                Json::Array(row) => if 0 <= k < row@.len() {
                    Some(row@[k])
                } else {
                    None
                },
                _ => None,
            }
        } else {
            None
        },
        _ => None,
    }
}

/// Whether a value reads as the decimal `d`.
pub open spec fn reads_as(v: Option<Json>, d: Dec) -> bool {
    v matches Some(x) && val_to_dec_spec(x) == Ok::<Dec, DecodeError>(d)
}

/// Whether the text in member `key` names `sym`.
pub open spec fn names_symbol(j: Json, key: Seq<char>, sym: Symbol) -> bool {
    json_str(json_get(j, key)) matches Some(t) && normalize_spec(t) == Some(sym)
}

/// The tracked symbol that member `key` names.
pub open spec fn symbol_field_spec(j: Json, key: Seq<char>) -> Result<Symbol, DecodeError> {
    match json_str(json_get(j, key)) {
        None => Err(DecodeError::MissingSymbol),
        Some(text) => match normalize_spec(text) {
            Some(sym) => Ok(sym),
            None => Err(DecodeError::UnknownSymbol),
        },
    }
}

/// Reads and normalises the symbol text in member `key`.
pub fn symbol_field(j: &Json, key: &str) -> (r: Result<Symbol, DecodeError>)
    ensures
        r == symbol_field_spec(*j, key@),
{
    let text = match j.get(key) {
        Some(v) => match v.as_str() {
            Some(t) => t,
            None => return Err(DecodeError::MissingSymbol),
        },
        None => return Err(DecodeError::MissingSymbol),
    };
    match normalize_symbol(text) {
        Ok(sym) => Ok(sym),
        Err(_) => Err(DecodeError::UnknownSymbol),
    }
}

/// The first-named search finds a symbol with exactly that name, and no
/// earlier symbol has it; where it finds none, no symbol has it.
proof fn lemma_first_named(t: Seq<char>, n: int)
    requires
        0 <= n <= SYMBOL_COUNT,
    ensures
        first_named_below(t, n) matches Some(r) ==> r.name() == t && exists|i: int| 0 <= i < n && symbol_at(i) == r,
        first_named_below(t, n) is None ==> forall|j: int| 0 <= j < n ==> (#[trigger] symbol_at(j)).name() != t,
    decreases n,
{
    if n > 0 {
        lemma_first_named(t, n - 1);
        if first_named_below(t, n - 1) is None && symbol_at(n - 1).name() == t {
            assert(symbol_at(n - 1) == first_named_below(t, n)->0);
        }
    }
}

/// The longest-prefix search finds a symbol whose name begins `t` and is
/// at least as long as every other such name; where it finds none, no name
/// begins `t`.
proof fn lemma_longest_prefix(t: Seq<char>, n: int)
    requires
        0 <= n <= SYMBOL_COUNT,
    ensures
        longest_prefix_below(t, n) matches Some(r) ==> {
            &&& is_prefix(r.name(), t)
            &&& exists|i: int| 0 <= i < n && symbol_at(i) == r
            &&& forall|j: int| 0 <= j < n && is_prefix((#[trigger] symbol_at(j)).name(), t) ==> symbol_at(j).name().len() <= r.name().len()
        },
        longest_prefix_below(t, n) is None ==> forall|j: int| 0 <= j < n ==> !is_prefix((#[trigger] symbol_at(j)).name(), t),
    decreases n,
{
    if n > 0 {
        lemma_longest_prefix(t, n - 1);
        let prev = longest_prefix_below(t, n - 1);
        let s = symbol_at(n - 1);
        if is_prefix(s.name(), t) && (prev is None || s.name().len() > prev->0.name().len()) {
            assert(longest_prefix_below(t, n) == Some(s));
            assert(symbol_at(n - 1) == s);
        }
    }
}

/// `normalize_symbol` only ever returns a symbol whose name begins the
/// trimmed, upper-cased input, and fails exactly when no tracked name
/// begins it; an input that is exactly a name gives that symbol, and
/// otherwise, when no name followed by `USDT` matches, the longest name
/// that begins the input is taken.
pub proof fn lemma_normalize_symbol(s: Seq<char>)
    ensures
        normalize_spec(s) matches Some(sym) ==> is_prefix(sym.name(), upper(trim(s))),
        normalize_spec(s) is None <==> forall|j: int|
            0 <= j < SYMBOL_COUNT ==> !is_prefix((#[trigger] symbol_at(j)).name(), upper(trim(s))),
        symbol_named(upper(trim(s))) matches Some(sym) ==> normalize_spec(s) == Some(sym) && sym.name() == upper(trim(s)),
        ({
            let t = upper(trim(s));
            let q = quote_suffix();
            &&& symbol_named(t) is None
            &&& !(q.len() <= t.len() && t.subrange(t.len() - q.len(), t.len() as int) == q && symbol_named(t.subrange(0, t.len() - q.len())) is Some)
        }) ==> normalize_spec(s) == longest_prefix_symbol(upper(trim(s))),
{
    let t = upper(trim(s));
    let q = quote_suffix();
    lemma_first_named(t, SYMBOL_COUNT as int);
    lemma_longest_prefix(t, SYMBOL_COUNT as int);
    assert(t.subrange(0, t.len() as int) =~= t);
    if q.len() <= t.len() && t.subrange(t.len() - q.len(), t.len() as int) == q {
        let base = t.subrange(0, t.len() - q.len());
        lemma_first_named(base, SYMBOL_COUNT as int);
        assert(t.subrange(0, base.len() as int) =~= base);
    }
    if forall|j: int| 0 <= j < SYMBOL_COUNT ==> !is_prefix((#[trigger] symbol_at(j)).name(), t) {
        if symbol_named(t) is Some {
            let i = choose|i: int| 0 <= i < SYMBOL_COUNT && symbol_at(i) == symbol_named(t)->0;
            assert(!is_prefix(symbol_at(i).name(), t));
        }
        if q.len() <= t.len() && t.subrange(t.len() - q.len(), t.len() as int) == q {
            let base = t.subrange(0, t.len() - q.len());
            if symbol_named(base) is Some {
                let i = choose|i: int| 0 <= i < SYMBOL_COUNT && symbol_at(i) == symbol_named(base)->0;
                assert(!is_prefix(symbol_at(i).name(), t));
            }
        }
    }
}


/// Normalisation ignores ASCII letter case and the white space around its
/// input.
pub proof fn lemma_normalize_ignores_case_and_padding(s: Seq<char>, pre: Seq<char>, post: Seq<char>)
    requires
        all_white(pre),
        all_white(post),
    ensures
        normalize_spec(lower(s)) == normalize_spec(s),
        normalize_spec(pre + s + post) == normalize_spec(s),
{
    lemma_upper_trim_lower(s);
    lemma_trim_padded(pre, s, post);
}

/// A symbol's own name names that symbol.
proof fn lemma_symbol_named_own(s: Symbol)
    ensures
        symbol_named(s.name()) == Some(s),
{
    lemma_symbol_positions();
    lemma_first_named(s.name(), SYMBOL_COUNT as int);
    assert(symbol_at(s.ord()).name() == s.name());
    if let Some(r) = symbol_named(s.name()) {
        lemma_names_unique(r, s);
    }
}

/// A text that `name_lookup` does not know names no symbol.
proof fn lemma_unknown_name(t: Seq<char>)
    requires
        name_lookup(t) is None,
    ensures
        symbol_named(t) is None,
{
    lemma_first_named(t, SYMBOL_COUNT as int);
    if let Some(r) = symbol_named(t) {
        lemma_symbol_name(r);
    }
}

/// A text holding a character that no name holds names no symbol.
proof fn lemma_not_a_name(t: Seq<char>, k: int)
    requires
        0 <= k < t.len(),
        !is_name_char(t[k]),
    ensures
        symbol_named(t) is None,
{
    lemma_first_named(t, SYMBOL_COUNT as int);
    if let Some(r) = symbol_named(t) {
        lemma_symbol_name(r);
        assert(is_name_char(r.name()[k]));
    }
}

/// A text of name characters, `_` and `-` is left alone by trimming and
/// upper-casing.
proof fn lemma_plain_text(t: Seq<char>)
    requires
        forall|k: int| 0 <= k < t.len() ==> is_name_char(#[trigger] t[k]) || t[k] == '_' || t[k] == '-',
    ensures
        upper(trim(t)) == t,
{
    if t.len() > 0 {
        assert(!is_white_space(t[0]));
        assert(!is_white_space(t.last()));
    }
    assert(trim_start(t) == t);
    assert(trim_end(t) == t);
    assert forall|k: int| 0 <= k < t.len() implies #[trigger] upper(t)[k] == t[k] by {
        assert(ascii_upper(t[k]) == t[k]);
    }
    assert(upper(t) =~= t);
}

/// Each symbol's name, and its name followed by `USDT`, `_USDT` or `-USDT`,
/// in upper or lower case, normalise to that symbol.
pub proof fn lemma_normalize_own_names(s: Symbol)
    ensures
        normalize_spec(s.name()) == Some(s),
        normalize_spec(s.name() + quote_suffix()) == Some(s),
        normalize_spec(lower(s.name() + quote_suffix())) == Some(s),
        normalize_spec(s.name() + seq!['_'] + quote_suffix()) == Some(s),
        normalize_spec(s.name() + seq!['-'] + quote_suffix()) == Some(s),
{
    let n = s.name();
    let q = quote_suffix();
    lemma_symbol_name(s);
    lemma_symbol_named_own(s);
    lemma_plain_text(n);

    let t = n + q;
    lemma_plain_text(t);
    lemma_unknown_name(t);
    assert(t.subrange(t.len() - q.len(), t.len() as int) =~= q);
    assert(t.subrange(0, t.len() - q.len()) =~= n);
    lemma_normalize_ignores_case_and_padding(t, Seq::empty(), Seq::empty());

    lemma_sep_spelling(s, '_');
    lemma_sep_spelling(s, '-');
}

/// The name followed by a separator and `USDT` normalises to the symbol.
proof fn lemma_sep_spelling(s: Symbol, sep: char)
    requires
        sep == '_' || sep == '-',
    ensures
        normalize_spec(s.name() + seq![sep] + quote_suffix()) == Some(s),
{
    let n = s.name();
    let q = quote_suffix();
    lemma_symbol_name(s);
    let t = n + seq![sep] + q;
    assert(t[n.len() as int] == sep);
    lemma_plain_text(t);
    lemma_not_a_name(t, n.len() as int);
    assert(t.subrange(t.len() - q.len(), t.len() as int) =~= q);
    let base = t.subrange(0, t.len() - q.len());
    assert(base[n.len() as int] == sep);
    lemma_not_a_name(base, n.len() as int);
    lemma_symbol_positions();
    lemma_longest_prefix(t, SYMBOL_COUNT as int);
    assert(t.subrange(0, n.len() as int) =~= n);
    assert(symbol_at(s.ord()) == s);
    assert(is_prefix(symbol_at(s.ord()).name(), t));
    let r = longest_prefix_symbol(t)->0;
    lemma_symbol_name(r);
    if r.name().len() > n.len() {
        assert(r.name()[n.len() as int] == t[n.len() as int]);
        assert(false);
    }
    assert(r.name() =~= n);
    lemma_names_unique(r, s);
}

/// A tracked name that begins `base` followed by `USDT` and is longer
/// than `base`, where `base` is itself a tracked name, does not exist.
proof fn lemma_no_longer_name(sym: Symbol, other: Symbol, t: Seq<char>)
    requires
        t == sym.name() + quote_suffix(),
        is_prefix(other.name(), t),
    ensures
        other.name().len() <= sym.name().len(),
{
    let base = sym.name();
    let q = quote_suffix();
    let m = other.name();
    if m.len() > base.len() {
        lemma_symbol_name(sym);
        lemma_symbol_name(other);
        let k = m.len() - base.len();
        assert(m =~= base + q.subrange(0, k));
        if k == 1 {
            assert(q.subrange(0, k) =~= seq!['U']);
        } else if k == 2 {
            assert(q.subrange(0, k) =~= seq!['U', 'S']);
        } else if k == 3 {
            assert(q.subrange(0, k) =~= seq!['U', 'S', 'D']);
        } else {
            assert(q.subrange(0, k) =~= seq!['U', 'S', 'D', 'T']);
        }
    }
}

/// Whichever way normalisation finds its symbol, no tracked name that
/// begins the trimmed, upper-cased input is longer than that symbol's.
pub proof fn lemma_normalize_longest(s: Seq<char>)
    ensures
        normalize_spec(s) matches Some(sym) ==> forall|j: int|
            0 <= j < SYMBOL_COUNT && is_prefix((#[trigger] symbol_at(j)).name(), upper(trim(s)))
                ==> symbol_at(j).name().len() <= sym.name().len(),
{
    let t = upper(trim(s));
    let q = quote_suffix();
    lemma_first_named(t, SYMBOL_COUNT as int);
    lemma_longest_prefix(t, SYMBOL_COUNT as int);
    if symbol_named(t) is None && q.len() <= t.len() && t.subrange(t.len() - q.len(), t.len() as int) == q {
        let base = t.subrange(0, t.len() - q.len());
        lemma_first_named(base, SYMBOL_COUNT as int);
        if let Some(sym) = symbol_named(base) {
            assert(t =~= sym.name() + q);
            assert forall|j: int|
                0 <= j < SYMBOL_COUNT && is_prefix((#[trigger] symbol_at(j)).name(), t)
                    implies symbol_at(j).name().len() <= sym.name().len() by {
                lemma_no_longer_name(sym, symbol_at(j), t);
            }
        }
    }
}

} // verus!
