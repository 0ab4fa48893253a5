//! Character-level text operations used by symbol normalisation and URL
//! building.

use vstd::prelude::*;

verus! {

/// Unicode `White_Space` characters, the set that `str::trim` removes.
pub open spec fn is_white_space(c: char) -> bool {
    let u = c as u32;
    ||| (0x09 <= u && u <= 0x0d)
    ||| u == 0x20
    ||| u == 0x85
    ||| u == 0xa0
    ||| u == 0x1680
    ||| (0x2000 <= u && u <= 0x200a)
    ||| u == 0x2028
    ||| u == 0x2029
    ||| u == 0x202f
    ||| u == 0x205f
    ||| u == 0x3000
}

/// The text without its leading white space.
pub open spec fn trim_start(s: Seq<char>) -> Seq<char>
    decreases s.len(),
{
    if s.len() > 0 && is_white_space(s[0]) {
        trim_start(s.drop_first())
    } else {
        s
    }
}

/// The text without its trailing white space.
pub open spec fn trim_end(s: Seq<char>) -> Seq<char>
    decreases s.len(),
{
    if s.len() > 0 && is_white_space(s.last()) {
        trim_end(s.drop_last())
    } else {
        s
    }
}

/// The text without leading and trailing white space.
pub open spec fn trim(s: Seq<char>) -> Seq<char> {
    trim_end(trim_start(s))
}

/// `c` with `a`..`z` mapped to `A`..`Z`.
pub open spec fn ascii_upper(c: char) -> char {
    if 'a' <= c && c <= 'z' {
        ((c as u32) - 32) as char
    } else {
        c
    }
}

/// `c` with `A`..`Z` mapped to `a`..`z`.
pub open spec fn ascii_lower(c: char) -> char {
    if 'A' <= c && c <= 'Z' {
        ((c as u32) + 32) as char
    } else {
        c
    }
}

/// Every ASCII lower-case letter of the text made upper-case.
pub open spec fn upper(s: Seq<char>) -> Seq<char> {
    s.map_values(|c: char| ascii_upper(c))
}

/// Every ASCII upper-case letter of the text made lower-case.
pub open spec fn lower(s: Seq<char>) -> Seq<char> {
    s.map_values(|c: char| ascii_lower(c))
}

/// Calls `str::trim`: leading and trailing Unicode white space removed.
#[verifier::external_body]
pub fn trim_str(s: &str) -> (r: &str)
    ensures
        r@ == trim(s@),
{
    s.trim()
}

/// Calls `str::trim_start`: leading Unicode white space removed.
#[verifier::external_body]
pub fn trim_start_str(s: &str) -> (r: &str)
    ensures
        r@ == trim_start(s@),
{
    s.trim_start()
}

/// `c` with `a`..`z` made upper-case.
fn upper_char(c: char) -> (r: char)
    ensures
        r == ascii_upper(c),
{
    if 'a' <= c && c <= 'z' {
        let b = (c as u8) - 32;
        assert(b as char == ((c as u32) - 32) as char);
        b as char
    } else {
        c
    }
}

/// `c` with `A`..`Z` made lower-case.
fn lower_char(c: char) -> (r: char)
    ensures
        r == ascii_lower(c),
{
    if 'A' <= c && c <= 'Z' {
        let b = (c as u8) + 32;
        assert(b as char == ((c as u32) + 32) as char);
        b as char
    } else {
        c
    }
}

/// The text with every ASCII lower-case letter made upper-case, as
/// `str::to_ascii_uppercase` gives it.
pub fn to_ascii_uppercase(s: &str) -> (r: String)
    ensures
        r@ == upper(s@),
{
    let n = s.unicode_len();
    let mut out = String::new();
    let mut i: usize = 0;
    while i < n
        invariant
            n == s@.len(),
            i <= n,
            out@ == upper(s@.subrange(0, i as int)),
        decreases n - i,
    {
        let c = upper_char(s.get_char(i));
        push_char(&mut out, c);
        assert(upper(s@.subrange(0, i + 1)) =~= upper(s@.subrange(0, i as int)).push(c));
        i = i + 1;
    }
    assert(s@.subrange(0, n as int) =~= s@);
    out
}

/// The text with every ASCII upper-case letter made lower-case, as
/// `str::to_ascii_lowercase` gives it.
pub fn to_ascii_lowercase(s: &str) -> (r: String)
    ensures
        r@ == lower(s@),
{
    let n = s.unicode_len();
    let mut out = String::new();
    let mut i: usize = 0;
    while i < n
        invariant
            n == s@.len(),
            i <= n,
            out@ == lower(s@.subrange(0, i as int)),
        decreases n - i,
    {
        let c = lower_char(s.get_char(i));
        push_char(&mut out, c);
        assert(lower(s@.subrange(0, i + 1)) =~= lower(s@.subrange(0, i as int)).push(c));
        i = i + 1;
    }
    assert(s@.subrange(0, n as int) =~= s@);
    out
}

/// What `str::to_lowercase` gives for a text: its Unicode lower-case
/// mapping.
pub uninterp spec fn unicode_lower(s: Seq<char>) -> Seq<char>;

/// Calls `str::to_lowercase`, which lower-cases by Unicode's rules. The
/// result is named (`unicode_lower`); nothing more is stated of it.
#[verifier::external_body]
pub fn to_lowercase(s: &str) -> (r: String)
    ensures
        r@ == unicode_lower(s@),
{
    s.to_lowercase()
}

/// Whether two texts hold the same characters.
pub fn str_eq(a: &str, b: &str) -> (r: bool)
    ensures
        r == (a@ == b@),
{
    let n = a.unicode_len();
    if n != b.unicode_len() {
        return false;
    }
    let mut i: usize = 0;
    while i < n
        invariant
            n == a@.len(),
            n == b@.len(),
            i <= n,
            forall|j: int| 0 <= j < i ==> a@[j] == b@[j],
        decreases n - i,
    {
        if a.get_char(i) != b.get_char(i) {
            return false;
        }
        i = i + 1;
    }
    assert(a@ =~= b@);
    true
}

/// Whether `s` begins with `prefix`.
pub fn starts_with(s: &str, prefix: &str) -> (r: bool)
    ensures
        r == (prefix@.len() <= s@.len() && s@.subrange(0, prefix@.len() as int) == prefix@),
{
    let n = s.unicode_len();
    let m = prefix.unicode_len();
    if m > n {
        return false;
    }
    let mut i: usize = 0;
    while i < m
        invariant
            n == s@.len(),
            m == prefix@.len(),
            m <= n,
            i <= m,
            forall|j: int| 0 <= j < i ==> s@[j] == prefix@[j],
        decreases m - i,
    {
        if s.get_char(i) != prefix.get_char(i) {
            return false;
        }
        i = i + 1;
    }
    assert(s@.subrange(0, m as int) =~= prefix@);
    true
}

/// Whether `s` ends with `suffix`.
pub fn ends_with(s: &str, suffix: &str) -> (r: bool)
    ensures
        r == (suffix@.len() <= s@.len() && s@.subrange(s@.len() - suffix@.len(), s@.len() as int)
            == suffix@),
{
    let n = s.unicode_len();
    let m = suffix.unicode_len();
    if m > n {
        return false;
    }
    let off = n - m;
    let mut i: usize = 0;
    while i < m
        invariant
            n == s@.len(),
            m == suffix@.len(),
            m <= n,
            off == n - m,
            i <= m,
            forall|j: int| 0 <= j < i ==> s@[off + j] == suffix@[j],
        decreases m - i,
    {
        if s.get_char(off + i) != suffix.get_char(i) {
            return false;
        }
        i = i + 1;
    }
    assert(s@.subrange(off as int, n as int) =~= suffix@);
    true
}

/// `s` without `suffix` at its end, where it ends with it.
pub fn strip_suffix<'a>(s: &'a str, suffix: &str) -> (r: Option<&'a str>)
    ensures
        match r {
            Some(base) => suffix@.len() <= s@.len() && s@ == base@ + suffix@,
            None => !(suffix@.len() <= s@.len() && s@.subrange(
                s@.len() - suffix@.len(),
                s@.len() as int,
            ) == suffix@),
        },
{
    if ends_with(s, suffix) {
        let n = s.unicode_len();
        let m = suffix.unicode_len();
        let base = s.substring_char(0, n - m);
        assert(s@ =~= base@ + suffix@);
        Some(base)
    } else {
        None
    }
}

/// Whether `c` is an ASCII decimal digit.
pub open spec fn is_digit(c: char) -> bool {
    '0' <= c && c <= '9'
}

/// The number written by the decimal digits `s`.
pub open spec fn digits_value(s: Seq<char>) -> int
    decreases s.len(),
{
    if s.len() == 0 {
        0
    } else {
        digits_value(s.drop_last()) * 10 + ((s.last() as u32) - ('0' as u32))
    }
}

/// The digits of an unsigned integer text: the text without a leading `+`.
pub open spec fn unsigned_digits(s: Seq<char>) -> Seq<char> {
    if s.len() > 0 && s[0] == '+' {
        s.drop_first()
    } else {
        s
    }
}

/// Whether every character of `s` is a decimal digit.
pub open spec fn all_digits(s: Seq<char>) -> bool {
    forall|i: int| 0 <= i < s.len() ==> is_digit(#[trigger] s[i])
}

/// What `<uN as FromStr>::from_str` gives for a text, for an unsigned type
/// whose largest value is `max`: an optional `+`, then one or more decimal
/// digits whose value is at most `max`.
pub open spec fn parse_unsigned(s: Seq<char>, max: int) -> Option<int> {
    let digits = unsigned_digits(s);
    if digits.len() > 0 && all_digits(digits) && digits_value(digits) <= max {
        Some(digits_value(digits))
    } else {
        None
    }
}

/// The value of a prefix grows with each digit appended.
proof fn lemma_digits_value_grows(s: Seq<char>, i: int)
    requires
        0 <= i <= s.len(),
        forall|k: int| 0 <= k < s.len() ==> is_digit(#[trigger] s[k]),
    ensures
        digits_value(s.subrange(0, i)) <= digits_value(s),
        0 <= digits_value(s.subrange(0, i)),
    decreases s.len() - i,
{
    if i < s.len() {
        lemma_digits_value_grows(s, i + 1);
        assert(s.subrange(0, i + 1).drop_last() =~= s.subrange(0, i));
    } else {
        assert(s.subrange(0, i) =~= s);
    }
    lemma_digits_value_nonneg(s.subrange(0, i));
}

/// The value of digits is never negative.
proof fn lemma_digits_value_nonneg(s: Seq<char>)
    requires
        forall|k: int| 0 <= k < s.len() ==> is_digit(#[trigger] s[k]),
    ensures
        0 <= digits_value(s),
    decreases s.len(),
{
    if s.len() > 0 {
        lemma_digits_value_nonneg(s.drop_last());
    }
}

/// A parsed unsigned integer lies between 0 and the type's largest value.
pub proof fn lemma_parse_unsigned_range(s: Seq<char>, max: int)
    ensures
        parse_unsigned(s, max) matches Some(v) ==> 0 <= v <= max,
{
    let digits = unsigned_digits(s);
    if all_digits(digits) {
        lemma_digits_value_nonneg(digits);
    }
}

/// Parses an unsigned decimal integer no greater than `max` (`u64::from_str`
/// when `max` is `u64::MAX`).
pub fn parse_unsigned_exec(s: &str, max: u64) -> (r: Option<u64>)
    ensures
        match r {
            Some(v) => parse_unsigned(s@, max as int) == Some(v as int),
            None => parse_unsigned(s@, max as int) is None,
        },
{
    let n = s.unicode_len();
    let start: usize = if n > 0 && s.get_char(0) == '+' { 1 } else { 0 };
    let ghost digits = unsigned_digits(s@);
    assert(digits =~= s@.subrange(start as int, n as int));
    if start >= n {
        return None;
    }
    let mut acc: u64 = 0;
    let mut i: usize = start;
    while i < n
        invariant
            n == s@.len(),
            start <= i <= n,
            start < n,
            digits == s@.subrange(start as int, n as int),
            digits == unsigned_digits(s@),
            forall|k: int| start <= k < i ==> is_digit(#[trigger] s@[k]),
            acc as int == digits_value(s@.subrange(start as int, i as int)),
            acc <= max,
        decreases n - i,
    {
        let c = s.get_char(i);
        if !('0' <= c && c <= '9') {
            proof {
                assert(digits[i - start] == c);
                assert(!is_digit(digits[i - start]));
            }
            return None;
        }
        let d = (c as u32 - '0' as u32) as u64;
        assert(s@.subrange(start as int, i + 1).drop_last() =~= s@.subrange(start as int, i as int));
        if (acc as u128) * 10 + (d as u128) > max as u128 {
            proof {
                if all_digits(digits) {
                    lemma_digits_value_grows(digits, i + 1 - start);
                    assert(digits.subrange(0, i + 1 - start) =~= s@.subrange(start as int, i + 1));
                }
            }
            return None;
        }
        acc = acc * 10 + d;
        i = i + 1;
    }
    proof {
        assert forall|k: int| 0 <= k < digits.len() implies is_digit(#[trigger] digits[k]) by {
            assert(digits[k] == s@[start + k]);
        };
    }
    Some(acc)
}

/// Calls `String::push`: the character appended.
#[verifier::external_body]
pub fn push_char(s: &mut String, c: char)
    ensures
        final(s)@ == old(s)@.push(c),
{
    s.push(c);
}

/// `s` with every non-overlapping pair `a b`, read from the left, replaced
/// by `c` (`str::replace` with a two-character pattern and a one-character
/// replacement).
pub open spec fn replace_pair(s: Seq<char>, a: char, b: char, c: char) -> Seq<char>
    decreases s.len(),
{
    if s.len() == 0 {
        s
    } else if s.len() >= 2 && s[0] == a && s[1] == b {
        seq![c] + replace_pair(s.subrange(2, s.len() as int), a, b, c)
    } else {
        seq![s[0]] + replace_pair(s.drop_first(), a, b, c)
    }
}

/// Replaces every non-overlapping pair `a b`, read from the left, by `c`.
pub fn replace_pair_exec(s: &str, a: char, b: char, c: char) -> (r: String)
    ensures
        r@ == replace_pair(s@, a, b, c),
{
    let n = s.unicode_len();
    let mut out = String::new();
    let mut i: usize = 0;
    assert(s@.skip(0) =~= s@);
    while i < n
        invariant
            n == s@.len(),
            i <= n,
            out@ + replace_pair(s@.skip(i as int), a, b, c) == replace_pair(s@, a, b, c),
        decreases n - i,
    {
        let x = s.get_char(i);
        let ghost rest = s@.skip(i as int);
        if i + 1 < n && x == a && s.get_char(i + 1) == b {
            assert(rest.subrange(2, rest.len() as int) =~= s@.skip(i + 2));
            assert(seq![c] + replace_pair(s@.skip(i + 2), a, b, c) == replace_pair(rest, a, b, c));
            push_char(&mut out, c);
            i = i + 2;
        } else {
            assert(rest.drop_first() =~= s@.skip(i + 1));
            push_char(&mut out, x);
            i = i + 1;
        }
    }
    assert(s@.skip(n as int) =~= Seq::<char>::empty());
    assert(out@ + Seq::<char>::empty() =~= out@);
    out
}

/// The decimal text of an unsigned integer, without leading zeros.
pub open spec fn u64_text(n: u64) -> Seq<char>
    decreases n,
{
    if n < 10 {
        seq![(('0' as u32) + (n as u32)) as char]
    } else {
        u64_text(n / 10).push((('0' as u32) + ((n % 10) as u32)) as char)
    }
}

/// Appends the decimal text of `n` to `out`.
fn append_u64_text(out: &mut String, n: u64)
    ensures
        final(out)@ == old(out)@ + u64_text(n),
    decreases n,
{
    if n >= 10 {
        append_u64_text(out, n / 10);
    }
    let d = (n % 10) as u32;
    let c = char_from_digit(d);
    push_char(out, c);
    proof {
        if n >= 10 {
            assert(old(out)@ + u64_text(n / 10) + seq![c] =~= old(out)@ + u64_text(n));
        } else {
            assert(old(out)@ + seq![c] =~= old(out)@ + u64_text(n));
        }
    }
}

/// The ASCII digit for `d`.
fn char_from_digit(d: u32) -> (c: char)
    requires
        d < 10,
    ensures
        c == (('0' as u32) + d) as char,
{
    match d {
        0 => '0',
        1 => '1',
        2 => '2',
        3 => '3',
        4 => '4',
        5 => '5',
        6 => '6',
        7 => '7',
        8 => '8',
        _ => '9',
    }
}

/// The decimal text of an unsigned integer.
pub fn u64_to_text(n: u64) -> (r: String)
    ensures
        r@ == u64_text(n),
{
    let mut out = String::new();
    append_u64_text(&mut out, n);
    assert(Seq::<char>::empty() + u64_text(n) =~= u64_text(n));
    out
}


/// Whether every character of a text is white space.
pub open spec fn all_white(t: Seq<char>) -> bool {
    forall|k: int| 0 <= k < t.len() ==> is_white_space(#[trigger] t[k])
}

/// Leading white space does not survive `trim_start`.
pub proof fn lemma_trim_start_white_prefix(pre: Seq<char>, x: Seq<char>)
    requires
        all_white(pre),
    ensures
        trim_start(pre + x) == trim_start(x),
    decreases pre.len(),
{
    if pre.len() > 0 {
        assert((pre + x)[0] == pre[0]);
        assert((pre + x).drop_first() =~= pre.drop_first() + x);
        lemma_trim_start_white_prefix(pre.drop_first(), x);
    } else {
        assert(pre + x =~= x);
    }
}

/// Trailing white space does not survive `trim_end`.
pub proof fn lemma_trim_end_white_suffix(x: Seq<char>, post: Seq<char>)
    requires
        all_white(post),
    ensures
        trim_end(x + post) == trim_end(x),
    decreases post.len(),
{
    if post.len() > 0 {
        assert((x + post).last() == post.last());
        assert((x + post).drop_last() =~= x + post.drop_last());
        lemma_trim_end_white_suffix(x, post.drop_last());
    } else {
        assert(x + post =~= x);
    }
}

/// A text of white space trims to nothing at its start.
pub proof fn lemma_trim_start_all_white(t: Seq<char>)
    requires
        all_white(t),
    ensures
        trim_start(t) == Seq::<char>::empty(),
    decreases t.len(),
{
    if t.len() > 0 {
        lemma_trim_start_all_white(t.drop_first());
    } else {
        assert(t =~= Seq::<char>::empty());
    }
}

/// `trim_start` of a text followed by more: the first part's trimmed rest
/// followed by the second, or the trimmed second where nothing is left of
/// the first.
pub proof fn lemma_trim_start_append(x: Seq<char>, y: Seq<char>)
    ensures
        trim_start(x + y) == (if trim_start(x).len() > 0 { trim_start(x) + y } else { trim_start(y) }),
    decreases x.len(),
{
    if x.len() > 0 {
        assert((x + y)[0] == x[0]);
        if is_white_space(x[0]) {
            assert((x + y).drop_first() =~= x.drop_first() + y);
            lemma_trim_start_append(x.drop_first(), y);
        }
    } else {
        assert(x + y =~= y);
    }
}

/// White space around a text does not change what `trim` leaves of it.
pub proof fn lemma_trim_padded(pre: Seq<char>, x: Seq<char>, post: Seq<char>)
    requires
        all_white(pre),
        all_white(post),
    ensures
        trim(pre + x + post) == trim(x),
{
    assert(pre + x + post =~= pre + (x + post));
    lemma_trim_start_white_prefix(pre, x + post);
    lemma_trim_start_append(x, post);
    if trim_start(x).len() > 0 {
        lemma_trim_end_white_suffix(trim_start(x), post);
    } else {
        lemma_trim_start_all_white(post);
        assert(trim_start(x) =~= Seq::<char>::empty());
    }
}

/// ASCII lower-casing leaves white space where it is, so it commutes with
/// `trim_start`.
proof fn lemma_trim_start_lower(s: Seq<char>)
    ensures
        trim_start(lower(s)) == lower(trim_start(s)),
    decreases s.len(),
{
    if s.len() > 0 {
        assert(lower(s)[0] == ascii_lower(s[0]));
        assert(is_white_space(ascii_lower(s[0])) == is_white_space(s[0]));
        if is_white_space(s[0]) {
            assert(lower(s).drop_first() =~= lower(s.drop_first()));
            lemma_trim_start_lower(s.drop_first());
        }
    } else {
        assert(lower(s) =~= s);
    }
}

/// ASCII lower-casing commutes with `trim_end`.
proof fn lemma_trim_end_lower(s: Seq<char>)
    ensures
        trim_end(lower(s)) == lower(trim_end(s)),
    decreases s.len(),
{
    if s.len() > 0 {
        assert(lower(s).last() == ascii_lower(s.last()));
        assert(is_white_space(ascii_lower(s.last())) == is_white_space(s.last()));
        if is_white_space(s.last()) {
            assert(lower(s).drop_last() =~= lower(s.drop_last()));
            lemma_trim_end_lower(s.drop_last());
        }
    } else {
        assert(lower(s) =~= s);
    }
}

/// Upper-casing after lower-casing is upper-casing.
proof fn lemma_upper_lower_char(c: char)
    ensures
        ascii_upper(ascii_lower(c)) == ascii_upper(c),
{
    let u = c as u32;
    if 'A' <= c && c <= 'Z' {
        assert(((u + 32) as char) as u32 == u + 32);
        assert((((u + 32) as char) as u32 - 32) as char == c);
    }
}

/// Trimming and upper-casing a lower-cased text gives what trimming and
/// upper-casing the text gives.
pub proof fn lemma_upper_trim_lower(s: Seq<char>)
    ensures
        upper(trim(lower(s))) == upper(trim(s)),
{
    lemma_trim_start_lower(s);
    lemma_trim_end_lower(trim_start(s));
    let t = trim(s);
    assert forall|k: int| 0 <= k < t.len() implies #[trigger] upper(lower(t))[k] == upper(t)[k] by {
        lemma_upper_lower_char(t[k]);
    }
    assert(upper(lower(t)) =~= upper(t));
}
} // verus!
