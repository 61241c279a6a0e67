//! Salted, hashed password storage and verification.
//!
//! A credential holds a salt drawn from 16 random bytes, rendered as
//! variable-width lowercase hex (each byte gets one or two digits, no
//! padding), and the hex digest of SHA-256 over password ‖ salt.
//! Verification recomputes the digest with the stored salt and compares
//! the hex strings. The packed form `hash:salt` is what the storage
//! layer persists.
use vstd::prelude::*;
use vstd::string::StrSliceExecFns;
use vstd::string::StringExecFns;
use vstd::string::StringSliceAdditionalSpecFns;
use crate::error::{Error, ValidationError};
use crate::text::{
    char_is_alphanumeric, char_is_lowercase, char_is_numeric, char_is_uppercase,
    is_alphanumeric_char, is_dec_digit, is_lowercase_char, is_numeric_char, is_uppercase_char,
};

verus! {

// ---------------------------------------------------------------------------
// Hashing (trusted) and hex rendering (verified)
// ---------------------------------------------------------------------------

/// The lowercase hex rendering of the SHA-256 digest of a string's bytes.
/// The digest depends on the input alone; nothing here states what it is.
pub uninterp spec fn sha256_hex_of(s: Seq<char>) -> Seq<char>;

pub open spec fn is_lower_hex_digit(c: char) -> bool {
    is_dec_digit(c) || (97 <= c as u32 && c as u32 <= 102)
}

/// Relies on sha2's `Sha256`: the digest of the input bytes, written by
/// `format!("{:x}", ..)` as 64 lowercase hex digits.
#[verifier::external_body]
fn sha256_hex(s: &str) -> (r: String)
    ensures
        r@ == sha256_hex_of(s@),
        r@.len() == 64,
        forall|i: int| 0 <= i < r@.len() ==> is_lower_hex_digit(#[trigger] r@[i]),
{
    let digest = <sha2::Sha256 as sha2::Digest>::digest(s.as_bytes());
    format!("{:x}", digest)
}

/// Relies on urandom's `csprng` for 16 bytes from a cryptographically
/// secure source; nothing can be promised of their values.
#[verifier::external_body]
fn random_salt_bytes() -> (r: [u8; 16]) {
    let mut rng = urandom::csprng();
    rng.next::<[u8; 16]>()
}

/// One or two lowercase hex digits for a byte, as `format!("{:x}", b)`
/// writes it: no zero padding.
pub open spec fn hex_digit(d: nat) -> char {
    if d == 0 {
        '0'
    } else if d == 1 {
        '1'
    } else if d == 2 {
        '2'
    } else if d == 3 {
        '3'
    } else if d == 4 {
        '4'
    } else if d == 5 {
        '5'
    } else if d == 6 {
        '6'
    } else if d == 7 {
        '7'
    } else if d == 8 {
        '8'
    } else if d == 9 {
        '9'
    } else if d == 10 {
        'a'
    } else if d == 11 {
        'b'
    } else if d == 12 {
        'c'
    } else if d == 13 {
        'd'
    } else if d == 14 {
        'e'
    } else {
        'f'
    }
}

pub open spec fn hex_byte_rep(b: u8) -> Seq<char> {
    if b < 16 {
        seq![hex_digit(b as nat)]
    } else {
        seq![hex_digit((b / 16) as nat), hex_digit((b % 16) as nat)]
    }
}

/// The salt encoding: each byte rendered without padding, concatenated.
pub open spec fn hex_var_rep(bs: Seq<u8>) -> Seq<char>
    decreases bs.len(),
{
    if bs.len() == 0 {
        Seq::<char>::empty()
    } else {
        hex_byte_rep(bs[0]) + hex_var_rep(bs.drop_first())
    }
}

proof fn lemma_hex_var_rep_push(bs: Seq<u8>, b: u8)
    ensures
        hex_var_rep(bs.push(b)) == hex_var_rep(bs) + hex_byte_rep(b),
    decreases bs.len(),
{
    if bs.len() == 0 {
        assert(bs.push(b).drop_first() =~= Seq::<u8>::empty());
        assert(bs.push(b)[0] == b);
        assert(hex_var_rep(bs.push(b)) == hex_byte_rep(bs.push(b)[0]) + hex_var_rep(
            bs.push(b).drop_first(),
        ));
        assert(hex_byte_rep(b) + Seq::<char>::empty() =~= hex_byte_rep(b));
        assert(hex_var_rep(bs) + hex_byte_rep(b) =~= hex_byte_rep(b));
    } else {
        lemma_hex_var_rep_push(bs.drop_first(), b);
        assert(bs.push(b).drop_first() =~= bs.drop_first().push(b));
        assert(bs.push(b)[0] == bs[0]);
        assert(hex_var_rep(bs) + hex_byte_rep(b) =~= hex_byte_rep(bs[0]) + (hex_var_rep(
            bs.drop_first(),
        ) + hex_byte_rep(b)));
    }
}

/// A rendered salt holds only lowercase hex digits, one or two per byte.
pub proof fn lemma_hex_var_rep_wf(bs: Seq<u8>)
    ensures
        bs.len() <= hex_var_rep(bs).len() <= 2 * bs.len(),
        forall|i: int|
            0 <= i < hex_var_rep(bs).len() ==> is_lower_hex_digit(#[trigger] hex_var_rep(bs)[i]),
    decreases bs.len(),
{
    if bs.len() > 0 {
        lemma_hex_var_rep_wf(bs.drop_first());
    }
}

fn hex_str(d: u8) -> (r: &'static str)
    requires
        d < 16,
    ensures
        r@ =~= seq![hex_digit(d as nat)],
{
    if d < 10 {
        crate::text::digit_str(d as u64)
    } else if d == 10 {
        proof { reveal_strlit("a"); }
        "a"
    } else if d == 11 {
        proof { reveal_strlit("b"); }
        "b"
    } else if d == 12 {
        proof { reveal_strlit("c"); }
        "c"
    } else if d == 13 {
        proof { reveal_strlit("d"); }
        "d"
    } else if d == 14 {
        proof { reveal_strlit("e"); }
        "e"
    } else {
        proof { reveal_strlit("f"); }
        "f"
    }
}

fn hex_var_string(bytes: &[u8; 16]) -> (r: String)
    ensures
        r@ == hex_var_rep(bytes@),
{
    let mut s = String::new();
    let mut i: usize = 0;
    while i < 16
        invariant
            i <= 16,
            bytes@.len() == 16,
            s@ == hex_var_rep(bytes@.take(i as int)),
        decreases 16 - i,
    {
        let b = bytes[i];
        let piece = if b < 16 {
            hex_str(b).to_owned()
        } else {
            hex_str(b / 16).to_owned().concat(hex_str(b % 16))
        };
        assert(piece@ =~= hex_byte_rep(b));
        s = s.concat(piece.as_str());
        proof {
            lemma_hex_var_rep_push(bytes@.take(i as int), b);
            assert(bytes@.take(i as int).push(b) =~= bytes@.take(i + 1));
        }
        i = i + 1;
    }
    proof {
        assert(bytes@.take(16) =~= bytes@);
    }
    s
}

// ---------------------------------------------------------------------------
// Password policy
// ---------------------------------------------------------------------------

/// Configurable password policy: a minimum byte length, and how many of
/// the four enabled character-class checks must pass. A negative bound
/// in either field makes the policy unsatisfiable.
#[derive(Debug, Clone, Copy, PartialEq, Eq, Structural)]
pub struct PasswordRequirements {
    pub min_length: i32,
    pub passes_required: i32,
    pub numbers: bool,
    pub uppercase: bool,
    pub lowercase: bool,
    pub special: bool,
}

pub open spec fn has_digit(s: Seq<char>) -> bool {
    exists|i: int| 0 <= i < s.len() && is_numeric_char(#[trigger] s[i])
}

pub open spec fn has_upper(s: Seq<char>) -> bool {
    exists|i: int| 0 <= i < s.len() && is_uppercase_char(#[trigger] s[i])
}

pub open spec fn has_lower(s: Seq<char>) -> bool {
    exists|i: int| 0 <= i < s.len() && is_lowercase_char(#[trigger] s[i])
}

pub open spec fn has_special(s: Seq<char>) -> bool {
    exists|i: int| 0 <= i < s.len() && !is_alphanumeric_char(#[trigger] s[i])
}

/// How many of the enabled class checks the password passes.
pub open spec fn passes_count(reqs: PasswordRequirements, s: Seq<char>) -> int {
    (if reqs.numbers && has_digit(s) {
        1int
    } else {
        0int
    }) + (if reqs.uppercase && has_upper(s) {
        1int
    } else {
        0int
    }) + (if reqs.lowercase && has_lower(s) {
        1int
    } else {
        0int
    }) + (if reqs.special && has_special(s) {
        1int
    } else {
        0int
    })
}

/// When a password satisfies a policy: the bounds are non-negative, the
/// UTF-8 byte length reaches the minimum, and enough class checks pass.
pub open spec fn password_ok(reqs: PasswordRequirements, s: Seq<char>) -> bool {
    &&& reqs.min_length >= 0
    &&& reqs.passes_required >= 0
    &&& vstd::utf8::encode_utf8(s).len() >= reqs.min_length
    &&& passes_count(reqs, s) >= reqs.passes_required
}

pub open spec fn spec_default_requirements() -> PasswordRequirements {
    PasswordRequirements {
        min_length: 8,
        passes_required: 3,
        numbers: true,
        uppercase: true,
        lowercase: true,
        special: true,
    }
}

impl PasswordRequirements {
    pub fn validate(&self, password: &str) -> (r: Result<(), Error>)
        ensures
            r is Ok <==> password_ok(*self, password@),
            r matches Err(e) ==> e == Error::ValidationError(ValidationError::Password(*self)),
    {
        if self.min_length < 0 || self.passes_required < 0 {
            return Err(Error::ValidationError(ValidationError::Password(*self)));
        }
        if password.as_bytes().len() < self.min_length as usize {
            return Err(Error::ValidationError(ValidationError::Password(*self)));
        }
        let len = password.unicode_len();
        let mut digit = false;
        let mut upper = false;
        let mut lower = false;
        let mut special = false;
        let mut i: usize = 0;
        while i < len
            invariant
                i <= len,
                len == password@.len(),
                digit == has_digit(password@.take(i as int)),
                upper == has_upper(password@.take(i as int)),
                lower == has_lower(password@.take(i as int)),
                special == has_special(password@.take(i as int)),
            decreases len - i,
        {
            let c = password.get_char(i);
            proof {
                assert(password@.take(i + 1).drop_last() =~= password@.take(i as int));
                assert(password@.take(i + 1).last() == password@[i as int]);
            }
            if char_is_numeric(c) {
                digit = true;
            }
            if char_is_uppercase(c) {
                upper = true;
            }
            if char_is_lowercase(c) {
                lower = true;
            }
            if !char_is_alphanumeric(c) {
                special = true;
            }
            proof {
                let prefix = password@.take(i as int);
                let prefix1 = password@.take(i + 1);
                assert forall|p: Seq<char>, j: int|
                    p == prefix && 0 <= j < p.len() implies p[j] == prefix1[j] by {};
                assert(has_digit(prefix) ==> has_digit(prefix1));
                assert(has_upper(prefix) ==> has_upper(prefix1));
                assert(has_lower(prefix) ==> has_lower(prefix1));
                assert(has_special(prefix) ==> has_special(prefix1));
                if !has_digit(prefix) && !is_numeric_char(prefix1.last()) {
                    assert forall|j: int| 0 <= j < prefix1.len() implies !is_numeric_char(
                        prefix1[j],
                    ) by {
                        if j < prefix.len() {
                            assert(prefix1[j] == prefix[j]);
                        }
                    };
                }
                if !has_upper(prefix) && !is_uppercase_char(prefix1.last()) {
                    assert forall|j: int| 0 <= j < prefix1.len() implies !is_uppercase_char(
                        prefix1[j],
                    ) by {
                        if j < prefix.len() {
                            assert(prefix1[j] == prefix[j]);
                        }
                    };
                }
                if !has_lower(prefix) && !is_lowercase_char(prefix1.last()) {
                    assert forall|j: int| 0 <= j < prefix1.len() implies !is_lowercase_char(
                        prefix1[j],
                    ) by {
                        if j < prefix.len() {
                            assert(prefix1[j] == prefix[j]);
                        }
                    };
                }
                if !has_special(prefix) && is_alphanumeric_char(prefix1.last()) {
                    assert forall|j: int| 0 <= j < prefix1.len() implies is_alphanumeric_char(
                        prefix1[j],
                    ) by {
                        if j < prefix.len() {
                            assert(prefix1[j] == prefix[j]);
                        }
                    };
                }
            }
            i = i + 1;
        }
        proof {
            assert(password@.take(len as int) =~= password@);
        }
        let mut passed: i32 = 0;
        if self.numbers && digit {
            passed = passed + 1;
        }
        if self.uppercase && upper {
            passed = passed + 1;
        }
        if self.lowercase && lower {
            passed = passed + 1;
        }
        if self.special && special {
            passed = passed + 1;
        }
        if passed >= self.passes_required {
            Ok(())
        } else {
            Err(Error::ValidationError(ValidationError::Password(*self)))
        }
    }
}

impl Default for PasswordRequirements {
    /// At least 8 bytes, and 3 of the 4 character classes present.
    fn default() -> (r: Self)
        ensures
            r == spec_default_requirements(),
    {
        PasswordRequirements {
            min_length: 8,
            passes_required: 3,
            numbers: true,
            uppercase: true,
            lowercase: true,
            special: true,
        }
    }
}

// ---------------------------------------------------------------------------
// The credential itself
// ---------------------------------------------------------------------------

/// A stored credential: hex digest and the salt it was computed with.
#[derive(Debug, Clone)]
pub struct Password {
    hash: String,
    salt: String,
}

/// The one invariant verification rests on: the stored hash is the
/// digest of password ‖ salt under the same rendering used at creation.
pub open spec fn credential_matches(hash: Seq<char>, salt: Seq<char>, password: Seq<char>) -> bool {
    hash == sha256_hex_of(password + salt)
}

/// A salt as this module writes it: variable-width hex of 16 bytes.
pub open spec fn salt_wf(s: Seq<char>) -> bool {
    &&& 16 <= s.len() <= 32
    &&& forall|i: int| 0 <= i < s.len() ==> is_lower_hex_digit(#[trigger] s[i])
}

impl Password {
    pub closed spec fn spec_hash(&self) -> Seq<char> {
        self.hash@
    }

    pub closed spec fn spec_salt(&self) -> Seq<char> {
        self.salt@
    }

    /// Validates the password against the default policy, draws a fresh
    /// random salt and stores the digest of password ‖ salt.
    pub fn new(password: String) -> (r: Result<Self, Error>)
        ensures
            r is Ok <==> password_ok(spec_default_requirements(), password@),
            r matches Ok(p) ==> credential_matches(p.spec_hash(), p.spec_salt(), password@)
                && salt_wf(p.spec_salt()) && p.spec_hash().len() == 64 && (forall|i: int|
                0 <= i < p.spec_hash().len() ==> is_lower_hex_digit(#[trigger] p.spec_hash()[i])),
            r matches Err(e) ==> e == Error::ValidationError(
                ValidationError::Password(spec_default_requirements()),
            ),
    {
        let reqs = PasswordRequirements::default();
        match reqs.validate(password.as_str()) {
            Ok(()) => {},
            Err(e) => {
                return Err(e);
            },
        }
        let bytes = random_salt_bytes();
        let salt = hex_var_string(&bytes);
        proof {
            lemma_hex_var_rep_wf(bytes@);
        }
        let salty = password.concat(salt.as_str());
        let hash = sha256_hex(salty.as_str());
        Ok(Password { hash, salt })
    }

    /// Recomputes the digest from the candidate and the stored salt and
    /// compares it with the stored hash — by ordinary string equality,
    /// not a constant-time comparison.
    pub fn verify(&self, password: String) -> (r: bool)
        ensures
            r == credential_matches(self.spec_hash(), self.spec_salt(), password@),
    {
        let salty = password.concat(self.salt.as_str());
        let hash = sha256_hex(salty.as_str());
        self.hash == hash
    }

    /// The persisted form: hash and salt packed around a single `':'`.
    pub fn to_packed(&self) -> (r: String)
        ensures
            r@ == self.spec_hash() + seq![':'] + self.spec_salt(),
    {
        proof { reveal_strlit(":"); }
        let r = self.hash.clone().concat(":").concat(self.salt.as_str());
        proof {
            assert(r@ =~= self.spec_hash() + seq![':'] + self.spec_salt());
        }
        r
    }

    /// Splits the persisted form at the first `':'` into two non-empty
    /// parts; anything else is refused.
    pub fn from_packed(s: &str) -> (r: Result<Self, Error>)
        ensures
            match parse_packed(s@) {
                Some((h, sl)) => r matches Ok(p) && p.spec_hash() == h && p.spec_salt() == sl,
                None => r matches Err(e) && e matches Error::DatabaseError(_),
            },
    {
        let len = s.unicode_len();
        let i = crate::text::find_char(s, ':');
        if i >= len || i == 0 || i + 1 == len {
            return Err(Error::DatabaseError("Invalid password format".to_owned()));
        }
        let hash = s.substring_char(0, i).to_owned();
        let salt = s.substring_char(i + 1, len).to_owned();
        proof {
            assert(s@.subrange(0, i as int) =~= s@.take(i as int));
            assert(s@.subrange(i + 1, len as int) =~= s@.skip(i + 1));
        }
        Ok(Password { hash, salt })
    }
}

/// The packed credential grammar: the text before the first `':'` and
/// the text after it, both required non-empty.
pub open spec fn parse_packed(s: Seq<char>) -> Option<(Seq<char>, Seq<char>)> {
    let i = crate::text::first_index_of(s, ':');
    if i >= s.len() || i == 0 || i + 1 == s.len() {
        None
    } else {
        Some((s.take(i), s.skip(i + 1)))
    }
}

/// A credential freshly created from a password verifies that same
/// password: creation stores the digest that verification recomputes.
/// (Nothing here, or anywhere, states that the digest separates two
/// different passwords; that is the hash function's own business.)
pub proof fn lemma_create_verifies(hash: Seq<char>, salt: Seq<char>, password: Seq<char>)
    requires
        hash == sha256_hex_of(password + salt),
    ensures
        credential_matches(hash, salt, password),
{
}

/// Packing then splitting gives the parts back, for any credential whose
/// hash is non-empty hex (so it holds no `':'`) and whose salt is
/// non-empty — which is true of every credential this module creates.
pub proof fn lemma_packed_round_trip(hash: Seq<char>, salt: Seq<char>)
    requires
        hash.len() > 0,
        salt.len() > 0,
        forall|i: int| 0 <= i < hash.len() ==> is_lower_hex_digit(#[trigger] hash[i]),
    ensures
        parse_packed(hash + seq![':'] + salt) == Some((hash, salt)),
{
    let s = hash + seq![':'] + salt;
    assert forall|k: int| 0 <= k < hash.len() implies s[k] != ':' by {
        assert(s[k] == hash[k]);
        assert(is_lower_hex_digit(hash[k]));
    };
    assert(s[hash.len() as int] == ':');
    crate::text::lemma_first_index_of(s, ':', hash.len() as int);
    assert(s.take(hash.len() as int) =~= hash);
    assert(s.skip(hash.len() as int + 1) =~= salt);
}

} // verus!
