use petompp_web_api::error::{Error, ValidationError};
use petompp_web_api::models::password::{Password, PasswordRequirements};

#[test]
fn create_then_verify_succeeds_and_wrong_fails() {
    let p = Password::new("Passw0rd!".to_string()).unwrap();
    assert!(p.verify("Passw0rd!".to_string()));
    assert!(!p.verify("Passw0rd?".to_string()));
    assert!(!p.verify("passw0rd!".to_string()));
    assert!(!p.verify(String::new()));
}

#[test]
fn policy_rejects_weak_passwords() {
    let expect_policy_error = |candidate: &str| {
        let e = Password::new(candidate.to_string()).unwrap_err();
        assert_eq!(
            e,
            Error::ValidationError(ValidationError::Password(PasswordRequirements::default()))
        );
    };
    expect_policy_error("short");
    expect_policy_error("alllowercase");
    expect_policy_error("abcdefg!");
    expect_policy_error("12345678");
}

#[test]
fn policy_accepts_three_of_four_classes() {
    assert!(Password::new("Abcdefg1".to_string()).is_ok());
    assert!(Password::new("abcdef1!".to_string()).is_ok());
    assert!(Password::new("ABCDEF1!".to_string()).is_ok());
    assert!(Password::new("Abcdef!x".to_string()).is_ok());
}

#[test]
fn validate_checks_byte_length() {
    let reqs = PasswordRequirements::default();
    assert!(reqs.validate("Abcdef1!").is_ok());
    assert!(reqs.validate("Abcde1!").is_err());
}

#[test]
fn policy_counts_unicode_classes() {
    // U+00C9 is an uppercase letter: uppercase and numbers pass, which
    // is one class short of the default three.
    let e = Password::new("\u{c9}A111111".to_string()).unwrap_err();
    assert_eq!(
        e,
        Error::ValidationError(ValidationError::Password(PasswordRequirements::default()))
    );
    // A lowercase Unicode letter supplies the third class.
    assert!(Password::new("\u{e9}A111111".to_string()).is_ok());
}

#[test]
fn negative_bounds_reject_every_password() {
    let reqs = PasswordRequirements {
        passes_required: -1,
        ..PasswordRequirements::default()
    };
    assert!(reqs.validate("Passw0rd!").is_err());
    let reqs = PasswordRequirements {
        min_length: -1,
        ..PasswordRequirements::default()
    };
    assert!(reqs.validate("Passw0rd!").is_err());
}

#[test]
fn validate_with_no_required_passes() {
    let reqs = PasswordRequirements {
        min_length: 0,
        passes_required: 0,
        numbers: true,
        uppercase: true,
        lowercase: true,
        special: true,
    };
    assert!(reqs.validate("").is_ok());
    let reqs = PasswordRequirements {
        min_length: 4,
        passes_required: 1,
        numbers: true,
        uppercase: false,
        lowercase: false,
        special: false,
    };
    assert!(reqs.validate("ab1c").is_ok());
    // Disabled classes never count as a pass.
    assert!(reqs.validate("abcd").is_err());
}

#[test]
fn salt_is_variable_width_hex_of_sixteen_bytes() {
    let p = Password::new("Passw0rd!".to_string()).unwrap();
    let packed = p.to_packed();
    let (hash, salt) = packed.split_at(packed.find(':').unwrap());
    let salt = &salt[1..];
    assert_eq!(hash.len(), 64);
    assert!(hash.chars().all(|c| c.is_ascii_hexdigit() && !c.is_ascii_uppercase()));
    assert!(salt.len() >= 16 && salt.len() <= 32);
    assert!(salt.chars().all(|c| c.is_ascii_hexdigit() && !c.is_ascii_uppercase()));
}

#[test]
fn verify_recomputes_the_documented_digest() {
    // SHA-256("abc") — here split as candidate "ab" and stored salt "c".
    let packed = "ba7816bf8f01cfea414140de5dae2223b00361a396177a9cb410ff61f20015ad:c";
    let p = Password::from_packed(packed).unwrap();
    assert!(p.verify("ab".to_string()));
    assert!(!p.verify("a".to_string()));
    assert!(!p.verify("abc".to_string()));
}

#[test]
fn packed_round_trip() {
    let p = Password::new("Passw0rd!".to_string()).unwrap();
    let packed = p.to_packed();
    let q = Password::from_packed(&packed).unwrap();
    assert_eq!(q.to_packed(), packed);
    assert!(q.verify("Passw0rd!".to_string()));
}

#[test]
fn from_packed_splits_on_first_colon_only() {
    let p = Password::from_packed("a:b:c").unwrap();
    assert_eq!(p.to_packed(), "a:b:c");
    // The salt keeps the later colon.
    assert!(Password::from_packed("a:b").is_ok());
}

#[test]
fn from_packed_rejects_malformed_text() {
    assert!(Password::from_packed("nocolon").is_err());
    assert!(Password::from_packed(":salt").is_err());
    assert!(Password::from_packed("hash:").is_err());
    assert!(Password::from_packed(":").is_err());
    assert!(Password::from_packed("").is_err());
}
