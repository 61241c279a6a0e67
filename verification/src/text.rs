//! Character classes, decimal rendering and decimal parsing used by the
//! claims codec and the request-parameter parsers.
//!
//! All parsing here is ASCII: a decimal number is an optional sign
//! followed by one or more digits `'0'..='9'`, as `str::parse` accepts.
use vstd::prelude::*;
use vstd::string::StrSliceExecFns;
use vstd::string::StringExecFns;

verus! {

// ---------------------------------------------------------------------------
// Character classes
// ---------------------------------------------------------------------------

pub open spec fn is_dec_digit(c: char) -> bool {
    48 <= c as u32 && c as u32 <= 57
}

/// Numeric value of a decimal digit.
pub open spec fn digit_val(c: char) -> nat {
    (c as u32 - 48) as nat
}

pub open spec fn all_dec_digits(s: Seq<char>) -> bool {
    forall|i: int| 0 <= i < s.len() ==> is_dec_digit(#[trigger] s[i])
}

pub fn digit_value(c: char) -> (r: Option<u64>)
    ensures
        r is Some <==> is_dec_digit(c),
        r is Some ==> r->0 == digit_val(c),
{
    let code = c as u32;
    if 48 <= code && code <= 57 {
        Some((code - 48) as u64)
    } else {
        None
    }
}

// ---------------------------------------------------------------------------
// Unicode character classes, behind named results
// ---------------------------------------------------------------------------
// The password policy and the name validator classify characters the
// way std does. Each class is a Unicode property table, so it gets a
// name rather than a restatement; each depends on the character alone.

/// What `char::is_numeric` returns.
pub uninterp spec fn is_numeric_char(c: char) -> bool;

/// Relies on `char::is_numeric`: the Unicode numeric property.
#[verifier::external_body]
pub(crate) fn char_is_numeric(c: char) -> (r: bool)
    ensures
        r == is_numeric_char(c),
{
    c.is_numeric()
}

/// What `char::is_uppercase` returns.
pub uninterp spec fn is_uppercase_char(c: char) -> bool;

/// Relies on `char::is_uppercase`: the Unicode uppercase property.
#[verifier::external_body]
pub(crate) fn char_is_uppercase(c: char) -> (r: bool)
    ensures
        r == is_uppercase_char(c),
{
    c.is_uppercase()
}

/// What `char::is_lowercase` returns.
pub uninterp spec fn is_lowercase_char(c: char) -> bool;

/// Relies on `char::is_lowercase`: the Unicode lowercase property.
#[verifier::external_body]
pub(crate) fn char_is_lowercase(c: char) -> (r: bool)
    ensures
        r == is_lowercase_char(c),
{
    c.is_lowercase()
}

/// What `char::is_alphanumeric` returns.
pub uninterp spec fn is_alphanumeric_char(c: char) -> bool;

/// Relies on `char::is_alphanumeric`: the Unicode alphabetic-or-numeric
/// property.
#[verifier::external_body]
pub(crate) fn char_is_alphanumeric(c: char) -> (r: bool)
    ensures
        r == is_alphanumeric_char(c),
{
    c.is_alphanumeric()
}

/// What `char::is_whitespace` returns.
pub uninterp spec fn is_whitespace_char(c: char) -> bool;

/// Relies on `char::is_whitespace`: the Unicode white-space property.
#[verifier::external_body]
pub(crate) fn char_is_whitespace(c: char) -> (r: bool)
    ensures
        r == is_whitespace_char(c),
{
    c.is_whitespace()
}

// ---------------------------------------------------------------------------
// Value of a digit string
// ---------------------------------------------------------------------------

/// Value of a digit string, most significant digit first.
pub open spec fn dec_val(s: Seq<char>) -> nat
    decreases s.len(),
{
    if s.len() == 0 {
        0
    } else {
        dec_val(s.drop_last()) * 10 + digit_val(s.last())
    }
}

/// A digit string is worth at least as much as any of its prefixes.
pub proof fn lemma_dec_val_prefix(s: Seq<char>, i: int)
    requires
        0 <= i <= s.len(),
    ensures
        dec_val(s) >= dec_val(s.take(i)),
    decreases s.len() - i,
{
    if i < s.len() {
        lemma_dec_val_prefix(s.drop_last(), i);
        assert(s.drop_last().take(i) =~= s.take(i));
    } else {
        assert(s.take(i) =~= s);
    }
}

// ---------------------------------------------------------------------------
// Parsing
// ---------------------------------------------------------------------------

/// What `str::parse::<u64>` accepts: an optional `'+'`, then one or more
/// digits whose value fits in the type.
pub open spec fn parse_u64_spec(s: Seq<char>) -> Option<u64> {
    let body = if s.len() > 0 && s[0] == '+' {
        s.drop_first()
    } else {
        s
    };
    if body.len() == 0 || !all_dec_digits(body) || dec_val(body) > u64::MAX {
        None
    } else {
        Some(dec_val(body) as u64)
    }
}

/// Parses the digits of `s` from index `from` on, as `str::parse` would
/// after the sign: one or more digits, no overflow past `u64::MAX`.
fn parse_digits(s: &str, from: usize) -> (r: Option<u64>)
    requires
        from <= s@.len(),
    ensures
        ({
            let body = s@.skip(from as int);
            match r {
                Some(v) => body.len() > 0 && all_dec_digits(body) && v == dec_val(body),
                None => body.len() == 0 || !all_dec_digits(body) || dec_val(body) > u64::MAX,
            }
        }),
{
    let ghost body = s@.skip(from as int);
    let len = s.unicode_len();
    if from >= len {
        return None;
    }
    let mut acc: u64 = 0;
    let mut i: usize = from;
    while i < len
        invariant
            from <= i <= len,
            len == s@.len(),
            body == s@.skip(from as int),
            acc == dec_val(s@.subrange(from as int, i as int)),
            all_dec_digits(s@.subrange(from as int, i as int)),
        decreases len - i,
    {
        let c = s.get_char(i);
        let d = match digit_value(c) {
            Some(d) => d,
            None => {
                assert(!is_dec_digit(body[i - from as int]));
                return None;
            },
        };
        let ghost prefix = s@.subrange(from as int, i as int);
        let ghost prefix1 = s@.subrange(from as int, i + 1 as int);
        proof {
            assert(prefix1.drop_last() =~= prefix);
            assert(prefix1.last() == c);
        }
        let next = match acc.checked_mul(10) {
            Some(m) => m.checked_add(d),
            None => None,
        };
        acc = match next {
            Some(v) => v,
            None => {
                proof {
                    assert(dec_val(prefix1) > u64::MAX);
                    lemma_dec_val_prefix(body, i + 1 - from as int);
                    assert(body.take(i + 1 - from as int) =~= prefix1);
                }
                return None;
            },
        };
        i = i + 1;
    }
    proof {
        assert(s@.subrange(from as int, len as int) =~= body);
    }
    Some(acc)
}

/// Relies only on verified character access; mirrors `str::parse::<u64>`.
pub fn parse_u64(s: &str) -> (r: Option<u64>)
    ensures
        r == parse_u64_spec(s@),
{
    let len = s.unicode_len();
    let from: usize = if len > 0 && s.get_char(0) == '+' {
        1
    } else {
        0
    };
    let r = parse_digits(s, from);
    proof {
        if from == 1 {
            assert(s@.skip(1) =~= s@.drop_first());
        } else {
            assert(s@.skip(0) =~= s@);
        }
    }
    r
}

/// What `str::parse::<i64>` accepts: an optional sign, then one or more
/// digits whose signed value fits in the type.
pub open spec fn parse_i64_spec(s: Seq<char>) -> Option<i64> {
    if s.len() > 0 && s[0] == '-' {
        let body = s.drop_first();
        if body.len() == 0 || !all_dec_digits(body) || dec_val(body) > 0x8000000000000000 {
            None
        } else {
            Some((0 - dec_val(body)) as i64)
        }
    } else {
        let body = if s.len() > 0 && s[0] == '+' {
            s.drop_first()
        } else {
            s
        };
        if body.len() == 0 || !all_dec_digits(body) || dec_val(body) > i64::MAX {
            None
        } else {
            Some(dec_val(body) as i64)
        }
    }
}

pub fn parse_i64(s: &str) -> (r: Option<i64>)
    ensures
        r == parse_i64_spec(s@),
{
    let len = s.unicode_len();
    let negative = len > 0 && s.get_char(0) == '-';
    let from: usize = if len > 0 && (s.get_char(0) == '-' || s.get_char(0) == '+') {
        1
    } else {
        0
    };
    proof {
        if from == 1 {
            assert(s@.skip(1) =~= s@.drop_first());
        } else {
            assert(s@.skip(0) =~= s@);
        }
    }
    let magnitude = match parse_digits(s, from) {
        Some(v) => v,
        None => {
            return None;
        },
    };
    if negative {
        if magnitude > 0x8000000000000000 {
            None
        } else if magnitude == 0x8000000000000000 {
            Some(i64::MIN)
        } else {
            Some(-(magnitude as i64))
        }
    } else {
        if magnitude > i64::MAX as u64 {
            None
        } else {
            Some(magnitude as i64)
        }
    }
}

/// What `str::parse::<i32>` accepts; same syntax, `i32` range.
pub open spec fn parse_i32_spec(s: Seq<char>) -> Option<i32> {
    match parse_i64_spec(s) {
        Some(v) => if i32::MIN <= v <= i32::MAX {
            Some(v as i32)
        } else {
            None
        },
        None => None,
    }
}

pub fn parse_i32(s: &str) -> (r: Option<i32>)
    ensures
        r == parse_i32_spec(s@),
{
    match parse_i64(s) {
        Some(v) => if i32::MIN as i64 <= v && v <= i32::MAX as i64 {
            Some(v as i32)
        } else {
            None
        },
        None => None,
    }
}

// ---------------------------------------------------------------------------
// Rendering
// ---------------------------------------------------------------------------

/// The decimal digit for a value below ten.
pub open spec fn digit_char(d: nat) -> char {
    if d == 0 {
        '0'
    } else if d == 1 {
        '1'
    } else if d == 2 {
        '2'
    } else if d == 3 {
        '3'
    } else if d == 4 {
        '4'
    } else if d == 5 {
        '5'
    } else if d == 6 {
        '6'
    } else if d == 7 {
        '7'
    } else if d == 8 {
        '8'
    } else {
        '9'
    }
}

/// Decimal rendering of a natural number, no sign, no leading zero
/// (except for the single digit of zero itself).
pub open spec fn dec_rep(n: nat) -> Seq<char>
    decreases n,
{
    if n < 10 {
        seq![digit_char(n)]
    } else {
        dec_rep(n / 10).push(digit_char(n % 10))
    }
}

/// Decimal rendering of an integer: a `'-'` before the magnitude when
/// negative, as `i64`'s `Display` writes it.
pub open spec fn dec_int_rep(v: int) -> Seq<char> {
    if v < 0 {
        seq!['-'] + dec_rep((0 - v) as nat)
    } else {
        dec_rep(v as nat)
    }
}

/// Rendering produces digits only, and parsing it back returns the value.
pub proof fn lemma_dec_rep_val(n: nat)
    ensures
        dec_rep(n).len() >= 1,
        all_dec_digits(dec_rep(n)),
        dec_val(dec_rep(n)) == n,
    decreases n,
{
    if n < 10 {
        let s = dec_rep(n);
        assert(s.drop_last() =~= Seq::<char>::empty());
        assert(dec_val(s) == dec_val(s.drop_last()) * 10 + digit_val(s.last()));
    } else {
        lemma_dec_rep_val(n / 10);
        let front = dec_rep(n / 10);
        let whole = front.push(digit_char(n % 10));
        assert(whole.drop_last() =~= front);
        assert(dec_val(whole) == dec_val(front) * 10 + digit_val(whole.last()));
    }
}

pub fn digit_str(d: u64) -> (r: &'static str)
    requires
        d < 10,
    ensures
        r@ =~= seq![digit_char(d as nat)],
{
    if d == 0 {
        proof { reveal_strlit("0"); }
        "0"
    } else if d == 1 {
        proof { reveal_strlit("1"); }
        "1"
    } else if d == 2 {
        proof { reveal_strlit("2"); }
        "2"
    } else if d == 3 {
        proof { reveal_strlit("3"); }
        "3"
    } else if d == 4 {
        proof { reveal_strlit("4"); }
        "4"
    } else if d == 5 {
        proof { reveal_strlit("5"); }
        "5"
    } else if d == 6 {
        proof { reveal_strlit("6"); }
        "6"
    } else if d == 7 {
        proof { reveal_strlit("7"); }
        "7"
    } else if d == 8 {
        proof { reveal_strlit("8"); }
        "8"
    } else {
        proof { reveal_strlit("9"); }
        "9"
    }
}

/// Parsing undoes rendering on every `u64`.
pub proof fn lemma_parse_u64_dec_rep(n: u64)
    ensures
        parse_u64_spec(dec_rep(n as nat)) == Some(n),
{
    lemma_dec_rep_val(n as nat);
    let s = dec_rep(n as nat);
    assert(is_dec_digit(s[0]));
    assert(s[0] != '+');
}

/// Parsing undoes rendering on every `i64`.
pub proof fn lemma_parse_i64_dec_int_rep(v: i64)
    ensures
        parse_i64_spec(dec_int_rep(v as int)) == Some(v),
{
    if v >= 0 {
        lemma_dec_rep_val(v as nat);
        let s = dec_rep(v as nat);
        assert(is_dec_digit(s[0]));
        assert(s[0] != '+' && s[0] != '-');
    } else {
        let m = (0 - v as int) as nat;
        lemma_dec_rep_val(m);
        let s = dec_int_rep(v as int);
        assert(s[0] == '-');
        assert(s.drop_first() =~= dec_rep(m));
        assert(dec_val(s.drop_first()) == m);
        assert(m <= 0x8000000000000000);
    }
}

/// Parsing undoes rendering on every `i32`.
pub proof fn lemma_parse_i32_dec_int_rep(v: i32)
    ensures
        parse_i32_spec(dec_int_rep(v as int)) == Some(v),
{
    lemma_parse_i64_dec_int_rep(v as i64);
}

pub fn u64_to_string(n: u64) -> (r: String)
    ensures
        r@ == dec_rep(n as nat),
    decreases n,
{
    let d = n % 10;
    if n < 10 {
        digit_str(d).to_owned()
    } else {
        let front = u64_to_string(n / 10);
        let r = front.concat(digit_str(d));
        proof {
            assert(r@ =~= dec_rep((n / 10) as nat).push(digit_char((n % 10) as nat)));
        }
        r
    }
}

pub fn i64_to_string(v: i64) -> (r: String)
    ensures
        r@ == dec_int_rep(v as int),
{
    if v < 0 {
        let magnitude: u64 = if v == i64::MIN {
            0x8000000000000000
        } else {
            (-v) as u64
        };
        proof { reveal_strlit("-"); }
        let r = "-".to_owned().concat(u64_to_string(magnitude).as_str());
        proof {
            assert(r@ =~= seq!['-'] + dec_rep((0 - v as int) as nat));
        }
        r
    } else {
        u64_to_string(v as u64)
    }
}

pub fn i32_to_string(v: i32) -> (r: String)
    ensures
        r@ == dec_int_rep(v as int),
{
    i64_to_string(v as i64)
}

// ---------------------------------------------------------------------------
// Searching
// ---------------------------------------------------------------------------

/// Index of the first occurrence of `c`, or the length when absent.
pub open spec fn first_index_of(s: Seq<char>, c: char) -> int
    decreases s.len(),
{
    if s.len() == 0 {
        0
    } else if s[0] == c {
        0
    } else {
        1 + first_index_of(s.drop_first(), c)
    }
}

pub proof fn lemma_first_index_of(s: Seq<char>, c: char, j: int)
    requires
        0 <= j <= s.len(),
        forall|k: int| 0 <= k < j ==> s[k] != c,
        j < s.len() ==> s[j] == c,
    ensures
        first_index_of(s, c) == j,
    decreases j,
{
    if s.len() == 0 {
    } else if j == 0 {
    } else {
        assert(s[0] != c);
        lemma_first_index_of(s.drop_first(), c, j - 1);
    }
}

/// Index of the first occurrence of `c` in `s`, or the length when
/// there is none.
pub fn find_char(s: &str, c: char) -> (r: usize)
    ensures
        r == first_index_of(s@, c),
        r <= s@.len(),
{
    let len = s.unicode_len();
    let mut i: usize = 0;
    while i < len && s.get_char(i) != c
        invariant
            i <= len,
            len == s@.len(),
            forall|k: int| 0 <= k < i ==> s@[k] != c,
        decreases len - i,
    {
        i = i + 1;
    }
    proof {
        lemma_first_index_of(s@, c, i as int);
    }
    i
}

// ---------------------------------------------------------------------------
// Ordering of strings
// ---------------------------------------------------------------------------

/// Strict lexicographic order on character sequences by code point —
/// for sequences of ASCII keys the order `BTreeMap<String, _>` keeps.
pub open spec fn lex_lt(a: Seq<char>, b: Seq<char>) -> bool
    decreases a.len(),
{
    if b.len() == 0 {
        false
    } else if a.len() == 0 {
        true
    } else if (a[0] as u32) < (b[0] as u32) {
        true
    } else if a[0] == b[0] {
        lex_lt(a.drop_first(), b.drop_first())
    } else {
        false
    }
}

// ---------------------------------------------------------------------------
// Equality of strings
// ---------------------------------------------------------------------------

/// Equality of two string slices, routed through `String`'s specified
/// equality.
pub fn str_eq(a: &str, b: &str) -> (r: bool)
    ensures
        r == (a@ == b@),
{
    let sa = a.to_owned();
    let sb = b.to_owned();
    sa == sb
}

} // verus!
