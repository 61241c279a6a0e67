//! User names: trimmed on intake, then held to a length range and an
//! allow-list of characters.
//!
//! Trimming removes Unicode whitespace from both ends, as `str::trim`
//! does; the validator then wants 3 to 27 bytes, every character
//! alphanumeric or one of eleven permitted special characters.
use vstd::prelude::*;
use vstd::string::StrSliceExecFns;
use vstd::string::StringSliceAdditionalSpecFns;
use crate::error::{Error, UsernameValidationError, ValidationError};
use crate::text::{
    char_is_alphanumeric, char_is_whitespace, is_alphanumeric_char, is_whitespace_char,
};

verus! {

pub open spec fn trim_front(s: Seq<char>) -> Seq<char>
    decreases s.len(),
{
    if s.len() > 0 && is_whitespace_char(s[0]) {
        trim_front(s.drop_first())
    } else {
        s
    }
}

pub open spec fn trim_back(s: Seq<char>) -> Seq<char>
    decreases s.len(),
{
    if s.len() > 0 && is_whitespace_char(s.last()) {
        trim_back(s.drop_last())
    } else {
        s
    }
}

/// The name with whitespace removed from both ends.
pub open spec fn trim_spec(s: Seq<char>) -> Seq<char> {
    trim_back(trim_front(s))
}

/// Removes leading and trailing whitespace.
pub fn trim_text(s: &str) -> (r: String)
    ensures
        r@ == trim_spec(s@),
{
    let len = s.unicode_len();
    proof {
        assert(s@.skip(0) =~= s@);
    }
    let mut lo: usize = 0;
    while lo < len && char_is_whitespace(s.get_char(lo))
        invariant
            lo <= len,
            len == s@.len(),
            trim_front(s@) == trim_front(s@.skip(lo as int)),
        decreases len - lo,
    {
        proof {
            assert(s@.skip(lo as int).drop_first() =~= s@.skip(lo + 1));
        }
        lo = lo + 1;
    }
    proof {
        if lo == len {
            assert(s@.skip(lo as int) =~= Seq::<char>::empty());
        }
        assert(trim_front(s@) == s@.skip(lo as int));
    }
    let ghost t = s@.skip(lo as int);
    proof {
        assert(t.take(len - lo as int) =~= t);
    }
    let mut hi: usize = len;
    while hi > lo && char_is_whitespace(s.get_char(hi - 1))
        invariant
            lo <= hi <= len,
            len == s@.len(),
            t == s@.skip(lo as int),
            trim_back(t) == trim_back(t.take(hi - lo as int)),
        decreases hi,
    {
        proof {
            let piece = t.take(hi - lo as int);
            assert(piece.drop_last() =~= t.take(hi - 1 - lo as int));
            assert(piece.last() == s@[hi - 1]);
        }
        hi = hi - 1;
    }
    proof {
        if hi == lo {
            assert(t.take(hi - lo as int) =~= Seq::<char>::empty());
        } else {
            assert(t.take(hi - lo as int).last() == s@[hi - 1]);
        }
        assert(trim_back(t) == t.take(hi - lo as int));
    }
    let r = s.substring_char(lo, hi).to_owned();
    proof {
        assert(s@.subrange(lo as int, hi as int) =~= t.take(hi - lo as int));
    }
    r
}

/// The special characters a name may hold besides letters and digits.
pub open spec fn spec_special_chars() -> Seq<char> {
    seq!['-', '_', '.', '$', '@', '!', '#', '%', '^', '&', '*']
}

pub open spec fn is_name_special(c: char) -> bool {
    c == '-' || c == '_' || c == '.' || c == '$' || c == '@' || c == '!' || c == '#' || c == '%'
        || c == '^' || c == '&' || c == '*'
}

pub open spec fn name_len_ok(s: Seq<char>) -> bool {
    3 <= vstd::utf8::encode_utf8(s).len() < 28
}

pub open spec fn name_chars_ok(s: Seq<char>) -> bool {
    forall|i: int|
        0 <= i < s.len() ==> is_alphanumeric_char(#[trigger] s[i]) || is_name_special(s[i])
}

/// A name already trimmed is acceptable when its byte length is in range
/// and every character is allowed.
pub open spec fn name_ok(s: Seq<char>) -> bool {
    name_len_ok(s) && name_chars_ok(s)
}

fn char_is_allowed(c: char) -> (r: bool)
    ensures
        r == (is_alphanumeric_char(c) || is_name_special(c)),
{
    char_is_alphanumeric(c) || c == '-' || c == '_' || c == '.' || c == '$' || c == '@'
        || c == '!' || c == '#' || c == '%' || c == '^' || c == '&' || c == '*'
}

fn special_chars_vec() -> (r: Vec<char>)
    ensures
        r@ == spec_special_chars(),
{
    let mut v: Vec<char> = Vec::new();
    v.push('-');
    v.push('_');
    v.push('.');
    v.push('$');
    v.push('@');
    v.push('!');
    v.push('#');
    v.push('%');
    v.push('^');
    v.push('&');
    v.push('*');
    proof {
        assert(v@ =~= spec_special_chars());
    }
    v
}

/// Checks a (pre-trimmed) name against the length range and the
/// character allow-list, reporting which rule failed.
pub fn validate_name(name: &str) -> (r: Result<(), Error>)
    ensures
        r is Ok <==> name_ok(name@),
        r matches Err(e) ==> if !name_len_ok(name@) {
            e == Error::ValidationError(
                ValidationError::Username(UsernameValidationError::InvalidLength(3, 28)),
            )
        } else {
            e matches Error::ValidationError(
                ValidationError::Username(UsernameValidationError::InvalidCharacters(v)),
            ) && v@ == spec_special_chars()
        },
{
    let bytes = name.as_bytes();
    let byte_len = bytes.len();
    proof {
        assert(bytes@ == name.spec_bytes());
        assert(byte_len == bytes@.len());
        assert(name.spec_bytes() == vstd::utf8::encode_utf8(name@));
    }
    if byte_len < 3 || byte_len >= 28 {
        return Err(Error::ValidationError(ValidationError::Username(
            UsernameValidationError::InvalidLength(3, 28),
        )));
    }
    let len = name.unicode_len();
    let mut i: usize = 0;
    while i < len
        invariant
            i <= len,
            len == name@.len(),
            name_len_ok(name@),
            forall|k: int|
                0 <= k < i ==> is_alphanumeric_char(#[trigger] name@[k]) || is_name_special(
                    name@[k],
                ),
        decreases len - i,
    {
        if !char_is_allowed(name.get_char(i)) {
            return Err(Error::ValidationError(ValidationError::Username(
                UsernameValidationError::InvalidCharacters(special_chars_vec()),
            )));
        }
        i = i + 1;
    }
    Ok(())
}

/// A validated user name; the stored text is always its own trim.
#[derive(Debug, Clone, PartialEq)]
pub struct UserName(String);

impl View for UserName {
    type V = Seq<char>;

    closed spec fn view(&self) -> Seq<char> {
        self.0@
    }
}

impl UserName {
    /// Trims the given text, then accepts it only if the trimmed name
    /// passes validation.
    pub fn new(name: String) -> (r: Result<UserName, Error>)
        ensures
            r is Ok <==> name_ok(trim_spec(name@)),
            r matches Ok(u) ==> u@ == trim_spec(name@),
            r matches Err(e) ==> if !name_len_ok(trim_spec(name@)) {
                e == Error::ValidationError(
                    ValidationError::Username(UsernameValidationError::InvalidLength(3, 28)),
                )
            } else {
                e matches Error::ValidationError(
                    ValidationError::Username(UsernameValidationError::InvalidCharacters(v)),
                ) && v@ == spec_special_chars()
            },
    {
        let trimmed = trim_text(name.as_str());
        match validate_name(trimmed.as_str()) {
            Ok(()) => Ok(UserName(trimmed)),
            Err(e) => Err(e),
        }
    }

    pub fn as_str(&self) -> (r: &str)
        ensures
            r@ == self@,
    {
        self.0.as_str()
    }
}

} // verus!
