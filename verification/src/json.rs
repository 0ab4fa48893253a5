//! A JSON document as the decoders read it: the shape of a parsed
//! `serde_json::Value`, with each number kept as the texts and values the
//! decoders take from it.

use crate::decimal::Dec;
use crate::text::{u64_text, u64_to_text, parse_unsigned, parse_unsigned_exec, replace_pair, replace_pair_exec, str_eq};
use rust_decimal::prelude::FromPrimitive;
use rust_decimal::Decimal;
use serde_json::Value;
use vstd::prelude::*;

verus! {

/// A JSON number.
#[derive(Debug)]
pub struct JsonNumber {
    /// The number as `serde_json` prints it.
    pub text: String,
    /// The number as an unsigned 64-bit integer, where it is one.
    pub unsigned: Option<u64>,
    /// The number read as a binary float and converted to a decimal, where
    /// that conversion succeeds.
    pub float_decimal: Option<Dec>,
}

/// A JSON value.
#[derive(Debug)]
pub enum Json {
    Null,
    Bool(bool),
    Number(JsonNumber),
    Str(String),
    Array(Vec<Json>),
    Object(Vec<(String, Json)>),
}

/// The value of the first entry named `key` among the first `n` entries.
pub open spec fn entry_below(entries: Seq<(String, Json)>, key: Seq<char>, n: int) -> Option<Json>
    decreases n,
{
    if n <= 0 {
        None
    } else {
        match entry_below(entries, key, n - 1) {
            Some(v) => Some(v),
            None => if entries[n - 1].0@ == key {
                Some(entries[n - 1].1)
            } else {
                None
            },
        }
    }
}

/// The member `key` of an object (`Value::get` with a text key).
pub open spec fn json_get(j: Json, key: Seq<char>) -> Option<Json> {
    match j {
        Json::Object(entries) => entry_below(entries@, key, entries@.len() as int),
        _ => None,
    }
}

/// The text of a JSON string (`Value::as_str`).
pub open spec fn json_str(j: Option<Json>) -> Option<Seq<char>> {
    match j {
        Some(Json::Str(s)) => Some(s@),
        _ => None,
    }
}

/// The value of an unsigned integer (`Value::as_u64`).
pub open spec fn json_u64(j: Option<Json>) -> Option<u64> {
    match j {
        Some(Json::Number(n)) => n.unsigned,
        _ => None,
    }
}

/// The value of a boolean (`Value::as_bool`).
pub open spec fn json_bool(j: Option<Json>) -> Option<bool> {
    match j {
        Some(Json::Bool(b)) => Some(b),
        _ => None,
    }
}

/// The elements of an array (`Value::as_array`).
pub open spec fn json_array(j: Option<Json>) -> Option<Seq<Json>> {
    match j {
        Some(Json::Array(items)) => Some(items@),
        _ => None,
    }
}

impl Json {
    /// The member `key` of an object; `None` for other values.
    pub fn get(&self, key: &str) -> (r: Option<&Json>)
        ensures
            match r {
                Some(v) => json_get(*self, key@) == Some(*v),
                None => json_get(*self, key@) is None,
            },
    {
        match self {
            Json::Object(entries) => {
                let mut i: usize = 0;
                while i < entries.len()
                    invariant
                        i <= entries@.len(),
                        entry_below(entries@, key@, i as int) is None,
                        json_get(*self, key@) == entry_below(entries@, key@, entries@.len() as int),
                    decreases entries@.len() - i,
                {
                    let entry = &entries[i];
                    if str_eq(entry.0.as_str(), key) {
                        assert(entry_below(entries@, key@, i + 1) == Some(entries@[i as int].1));
                        proof { lemma_entry_stays(entries@, key@, i + 1, entries@.len() as int); }
                        return Some(&entry.1);
                    }
                    i = i + 1;
                }
                None
            },
            _ => None,
        }
    }

    /// The text of a string; `None` for other values.
    pub fn as_str(&self) -> (r: Option<&str>)
        ensures
            match r {
                Some(s) => json_str(Some(*self)) == Some(s@),
                None => json_str(Some(*self)) is None,
            },
    {
        match self {
            Json::Str(s) => Some(s.as_str()),
            _ => None,
        }
    }

    /// The value of an unsigned integer; `None` for other values.
    pub fn as_u64(&self) -> (r: Option<u64>)
        ensures
            r == json_u64(Some(*self)),
    {
        match self {
            Json::Number(n) => n.unsigned,
            _ => None,
        }
    }

    /// The value of a boolean; `None` for other values.
    pub fn as_bool(&self) -> (r: Option<bool>)
        ensures
            r == json_bool(Some(*self)),
    {
        match self {
            Json::Bool(b) => Some(*b),
            _ => None,
        }
    }

    /// The elements of an array; `None` for other values.
    pub fn as_array(&self) -> (r: Option<&Vec<Json>>)
        ensures
            match r {
                Some(v) => json_array(Some(*self)) == Some(v@),
                None => json_array(Some(*self)) is None,
            },
    {
        match self {
            Json::Array(items) => Some(items),
            _ => None,
        }
    }

    /// Whether the value is `null`.
    pub fn is_null(&self) -> (r: bool)
        ensures
            r == (*self is Null),
    {
        match self {
            Json::Null => true,
            _ => false,
        }
    }
}

/// Once an entry has been found among the first `n`, looking further finds
/// the same one.
proof fn lemma_entry_stays(entries: Seq<(String, Json)>, key: Seq<char>, n: int, m: int)
    requires
        0 <= n <= m,
        entry_below(entries, key, n) is Some,
    ensures
        entry_below(entries, key, m) == entry_below(entries, key, n),
    decreases m - n,
{
    if n < m {
        lemma_entry_stays(entries, key, n, m - 1);
    }
}

/// Whether a member `key` holds the string `text`.
pub fn str_member_is(j: &Json, key: &str, text: &str) -> (r: bool)
    ensures
        r == (json_str(json_get(*j, key@)) == Some(text@)),
{
    match j.get(key) {
        Some(v) => match v.as_str() {
            Some(s) => str_eq(s, text),
            None => false,
        },
        None => false,
    }
}

/// The decimal a number converts to through a binary float (`Value::as_f64`
/// followed by `Decimal::from_f64`); a decimal outside the representation
/// limits, which that conversion never gives, counts as none.
pub open spec fn json_float_decimal(j: Option<Json>) -> Option<Dec> {
    match j {
        Some(Json::Number(n)) => match n.float_decimal {
            Some(d) => if d.wf() {
                Some(d)
            } else {
                None
            },
            None => None,
        },
        _ => None,
    }
}

impl Json {
    /// The decimal a number converts to through a binary float; `None` for
    /// other values.
    pub fn as_float_decimal(&self) -> (r: Option<Dec>)
        ensures
            r == json_float_decimal(Some(*self)),
    {
        match self {
            Json::Number(n) => match n.float_decimal {
                Some(d) => if d.is_wf() {
                    Some(d)
                } else {
                    None
                },
                None => None,
            },
            _ => None,
        }
    }
}

/// Whether member `key` is the unsigned integer that `as_u64` reads.
pub fn u64_member(j: &Json, key: &str) -> (r: Option<u64>)
    ensures
        r == json_u64(json_get(*j, key@)),
{
    match j.get(key) {
        Some(v) => v.as_u64(),
        None => None,
    }
}

/// The boolean in member `key`.
pub fn bool_member(j: &Json, key: &str) -> (r: Option<bool>)
    ensures
        r == json_bool(json_get(*j, key@)),
{
    match j.get(key) {
        Some(v) => v.as_bool(),
        None => None,
    }
}

/// The position of the first `/` in `s`, or its length where it has none.
pub open spec fn slash_index(s: Seq<char>) -> int
    decreases s.len(),
{
    if s.len() == 0 {
        0
    } else if s[0] == '/' {
        0
    } else {
        1 + slash_index(s.drop_first())
    }
}

/// A JSON-pointer reference token with its escapes resolved: `~1` becomes
/// `/`, then `~0` becomes `~`.
pub open spec fn unescape_token(t: Seq<char>) -> Seq<char> {
    replace_pair(replace_pair(t, '~', '1', '/'), '~', '0', '~')
}

/// The array position a reference token names: decimal digits without a
/// sign and without leading zeros.
pub open spec fn array_index(t: Seq<char>) -> Option<int> {
    if t.len() > 0 && (t[0] == '+' || (t[0] == '0' && t.len() != 1)) {
        None
    } else {
        parse_unsigned(t, usize::MAX as int)
    }
}

/// One step of a JSON pointer: an object's member or an array's element.
pub open spec fn pointer_step(j: Json, token: Seq<char>) -> Option<Json> {
    match j {
        Json::Object(_) => json_get(j, token),
        Json::Array(items) => match array_index(token) {
            Some(i) => if i < items@.len() {
                Some(items@[i])
            } else {
                None
            },
            None => None,
        },
        _ => None,
    }
}

/// The value a JSON pointer (RFC 6901, as `Value::pointer` reads it)
/// designates: the empty pointer is the value itself; otherwise each
/// `/`-separated token steps into an object member or array element.
pub open spec fn pointer_spec(j: Json, path: Seq<char>) -> Option<Json>
    decreases path.len(),
{
    if path.len() == 0 {
        Some(j)
    } else if path[0] != '/' {
        None
    } else {
        let rest = path.drop_first();
        let k = slash_index(rest);
        if 0 <= k <= rest.len() {
            match pointer_step(j, unescape_token(rest.take(k))) {
                Some(c) => pointer_spec(c, rest.skip(k)),
                None => None,
            }
        } else {
            None
        }
    }
}

/// `slash_index` is the first `/`.
proof fn lemma_slash_index(s: Seq<char>, m: int)
    requires
        0 <= m <= s.len(),
        forall|i: int| 0 <= i < m ==> s[i] != '/',
        m == s.len() || s[m] == '/',
    ensures
        slash_index(s) == m,
    decreases m,
{
    if m > 0 {
        lemma_slash_index(s.drop_first(), m - 1);
    }
}

/// The array position a reference token names.
fn array_index_exec(t: &str) -> (r: Option<usize>)
    ensures
        match r {
            Some(i) => array_index(t@) == Some(i as int),
            None => array_index(t@) is None,
        },
{
    let n = t.unicode_len();
    if n > 0 {
        let c = t.get_char(0);
        if c == '+' || (c == '0' && n != 1) {
            return None;
        }
    }
    match parse_unsigned_exec(t, usize::MAX as u64) {
        Some(v) => Some(v as usize),
        None => None,
    }
}

/// One step of a JSON pointer.
fn pointer_step_exec<'a>(j: &'a Json, token: &str) -> (r: Option<&'a Json>)
    ensures
        match r {
            Some(v) => pointer_step(*j, token@) == Some(*v),
            None => pointer_step(*j, token@) is None,
        },
{
    match j {
        Json::Object(_) => j.get(token),
        Json::Array(items) => match array_index_exec(token) {
            Some(i) => if i < items.len() {
                Some(&items[i])
            } else {
                None
            },
            None => None,
        },
        _ => None,
    }
}

impl Json {
    /// The value a JSON pointer designates (`Value::pointer`).
    pub fn pointer<'a>(&'a self, path: &str) -> (r: Option<&'a Json>)
        ensures
            match r {
                Some(v) => pointer_spec(*self, path@) == Some(*v),
                None => pointer_spec(*self, path@) is None,
            },
    {
        let n = path.unicode_len();
        if n == 0 {
            return Some(self);
        }
        if path.get_char(0) != '/' {
            return None;
        }
        let mut cur: &'a Json = self;
        let mut pos: usize = 0;
        assert(path@.skip(0) =~= path@);
        while pos < n
            invariant
                n == path@.len(),
                pos <= n,
                pos < n ==> path@[pos as int] == '/',
                pointer_spec(*self, path@) == pointer_spec(*cur, path@.skip(pos as int)),
            decreases n - pos,
        {
            let mut k: usize = pos + 1;
            while k < n && path.get_char(k) != '/'
                invariant
                    n == path@.len(),
                    pos < k <= n,
                    forall|i: int| pos < i < k ==> path@[i] != '/',
                decreases n - k,
            {
                k = k + 1;
            }
            let ghost rest = path@.skip(pos as int).drop_first();
            proof {
                assert forall|i: int| 0 <= i < k - pos - 1 implies rest[i] != '/' by {
                    assert(rest[i] == path@[pos + 1 + i]);
                };
                if k < n {
                    assert(rest[k - pos - 1] == path@[k as int]);
                }
                lemma_slash_index(rest, k - pos - 1);
                assert(rest.skip(k - pos - 1) =~= path@.skip(k as int));
                assert(rest.take(k - pos - 1) =~= path@.subrange(pos + 1, k as int));
            }
            let raw = path.substring_char(pos + 1, k);
            let once = replace_pair_exec(raw, '~', '1', '/');
            let token = replace_pair_exec(once.as_str(), '~', '0', '~');
            match pointer_step_exec(cur, token.as_str()) {
                Some(c) => {
                    cur = c;
                },
                None => return None,
            }
            pos = k;
        }
        assert(path@.skip(n as int) =~= Seq::<char>::empty());
        Some(cur)
    }
}

/// A JSON value with its texts as character sequences.
pub enum JsonView {
    Null,
    Bool(bool),
    Number(Seq<char>),
    Str(Seq<char>),
    Array(Seq<JsonView>),
    Object(Seq<(Seq<char>, JsonView)>),
}

/// The view of a JSON value: numbers by their text.
pub open spec fn json_view(j: Json) -> JsonView
    decreases j,
{
    match j {
        Json::Null => JsonView::Null,
        Json::Bool(b) => JsonView::Bool(b),
        Json::Number(n) => JsonView::Number(n.text@),
        Json::Str(s) => JsonView::Str(s@),
        Json::Array(items) => JsonView::Array(
            Seq::new(items@.len(), |i: int| if 0 <= i < items@.len() { json_view(items@[i]) } else { JsonView::Null }),
        ),
        Json::Object(entries) => JsonView::Object(
            Seq::new(entries@.len(), |i: int| if 0 <= i < entries@.len() { (entries@[i].0@, json_view(entries@[i].1)) } else { (Seq::empty(), JsonView::Null) }),
        ),
    }
}

/// The views of a sequence of values.
pub open spec fn json_views(s: Seq<Json>) -> Seq<JsonView> {
    s.map_values(|j: Json| json_view(j))
}

/// The views of a sequence of object members.
pub open spec fn member_views(s: Seq<(String, Json)>) -> Seq<(Seq<char>, JsonView)> {
    s.map_values(|e: (String, Json)| (e.0@, json_view(e.1)))
}

impl Json {
    /// A JSON string.
    pub fn text(s: &str) -> (j: Json)
        ensures
            json_view(j) == JsonView::Str(s@),
    {
        Json::Str(String::from_str(s))
    }

    /// A JSON string holding a copy of `s`.
    pub fn string(s: &String) -> (j: Json)
        ensures
            json_view(j) == JsonView::Str(s@),
    {
        Json::Str(s.clone())
    }

    /// A JSON unsigned integer.
    pub fn unsigned(n: u64) -> (j: Json)
        ensures
            json_view(j) == JsonView::Number(u64_text(n)),
            json_u64(Some(j)) == Some(n),
    {
        Json::Number(JsonNumber { text: u64_to_text(n), unsigned: Some(n), float_decimal: None })
    }

    /// A JSON array.
    pub fn array(items: Vec<Json>) -> (j: Json)
        ensures
            json_view(j) == JsonView::Array(json_views(items@)),
            json_array(Some(j)) == Some(items@),
    {
        let ghost v = items@;
        let j = Json::Array(items);
        proof {
            assert(json_view(j)->Array_0 =~= json_views(v));
        }
        j
    }

    /// A JSON object with these members, in this order.
    pub fn object(entries: Vec<(String, Json)>) -> (j: Json)
        ensures
            json_view(j) == JsonView::Object(member_views(entries@)),
    {
        let ghost v = entries@;
        let j = Json::Object(entries);
        proof {
            assert(json_view(j)->Object_0 =~= member_views(v));
        }
        j
    }
}

/// An object member.
pub fn member(key: &str, value: Json) -> (m: (String, Json))
    ensures
        m.0@ == key@,
        m.1 == value,
{
    (String::from_str(key), value)
}

impl Json {
    /// Takes the member `key` out of an object: the value `get` would give,
    /// owned.
    pub fn take_member(self, key: &str) -> (r: Option<Json>)
        ensures
            r == json_get(self, key@),
    {
        match self {
            Json::Object(entries) => {
                let mut entries = entries;
                let ghost es = entries@;
                let mut i: usize = 0;
                while i < entries.len()
                    invariant
                        entries@ == es,
                        i <= es.len(),
                        entry_below(es, key@, i as int) is None,
                        json_get(self, key@) == entry_below(es, key@, es.len() as int),
                    decreases es.len() - i,
                {
                    if str_eq(entries[i].0.as_str(), key) {
                        assert(entry_below(es, key@, i + 1) == Some(es[i as int].1));
                        proof { lemma_entry_stays(es, key@, i + 1, es.len() as int); }
                        let e = entries.remove(i);
                        assert(e == es[i as int]);
                        return Some(e.1);
                    }
                    i = i + 1;
                }
                None
            },
            _ => None,
        }
    }
}

#[verifier::external_type_specification]
#[verifier::external_body]
pub struct ExValue(Value);

/// The document that `serde_json::from_slice::<Value>` reads from a byte
/// string, as a `Json`; `None` where the bytes hold no JSON document.
pub uninterp spec fn json_parse(bytes: Seq<u8>) -> Option<Json>;

/// Turns a `serde_json::Value` into a `Json`, node for node: each number
/// keeps the text `serde_json` prints for it, its `as_u64`, and its
/// `as_f64` through `Decimal::from_f64`. `Value` is opaque to Verus, so
/// nothing is stated here; `parse_json` names what the two give together.
#[verifier::external_body]
fn value_to_json(v: &Value) -> Json {
    match v {
        Value::Null => Json::Null,
        Value::Bool(b) => Json::Bool(*b),
        Value::Number(n) => Json::Number(JsonNumber {
            text: n.to_string(),
            unsigned: n.as_u64(),
            float_decimal: n.as_f64().and_then(Decimal::from_f64).map(|d| Dec { mantissa: d.mantissa(), scale: d.scale() }),
        }),
        Value::String(s) => Json::Str(s.clone()),
        Value::Array(items) => Json::Array(items.iter().map(value_to_json).collect()),
        Value::Object(m) => Json::Object(m.iter().map(|(k, x)| (k.clone(), value_to_json(x))).collect()),
    }
}

/// Calls `serde_json::from_slice::<Value>` on a byte string: the document
/// it holds, `None` where it holds none. What is read is named
/// (`json_parse`); nothing more is stated of it.
#[verifier::external_body]
pub fn parse_json(bytes: &[u8]) -> (r: Option<Json>)
    ensures
        r == json_parse(bytes@),
{
    match serde_json::from_slice::<Value>(bytes) {
        Ok(v) => Some(value_to_json(&v)),
        Err(_) => None,
    }
}

} // verus!
