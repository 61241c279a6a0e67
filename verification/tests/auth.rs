use petompp_web_api::auth::claims::Claims;
use petompp_web_api::auth::error::AuthError;
use petompp_web_api::auth::guard::{authorize, authorize_admin, authorize_admin_at, authorize_at};
use petompp_web_api::auth::token::{create_token, create_token_at, validate_token, validate_token_at};
use petompp_web_api::models::password::Password;
use petompp_web_api::models::role::Role;
use petompp_web_api::models::user::User;
use petompp_web_api::models::user_name::UserName;
use petompp_web_api::Secrets;

fn secrets() -> Secrets {
    Secrets {
        api_secret: "a-very-secret-key".to_string(),
        database_url: String::new(),
    }
}

fn admin_user() -> User {
    User {
        id: Some(1),
        name: UserName::new("admin".to_string()).unwrap(),
        normalized_name: "admin".to_string(),
        password: Password::new("Passw0rd!".to_string()).unwrap(),
        role: Role::Admin,
        confirmed: true,
        created_at: None,
        deleted_at: None,
    }
}

#[test]
fn token_round_trip_at_fixed_time() {
    let s = secrets();
    let user = admin_user();
    let token = create_token_at(&s, &user, 1000).unwrap();
    let claims = validate_token_at(&s, &token, 1000).unwrap();
    assert_eq!(
        claims,
        Claims {
            sub: 1,
            exp: 4600,
            acs: Role::Admin
        }
    );
    // The token stays valid up to and including its expiry second.
    let at_expiry = validate_token_at(&s, &token, 4600).unwrap();
    assert_eq!(at_expiry.exp, 4600);
}

#[test]
fn token_expired_reports_seconds_overdue() {
    let s = secrets();
    let token = create_token_at(&s, &admin_user(), 1000).unwrap();
    let e = validate_token_at(&s, &token, 4601).unwrap_err();
    assert_eq!(e, AuthError::TokenExpiredS(1));
    let e = validate_token_at(&s, &token, 4700).unwrap_err();
    assert_eq!(e, AuthError::TokenExpiredS(100));
}

#[test]
fn token_wrong_key_rejected() {
    let s = secrets();
    let other = Secrets {
        api_secret: "another-key".to_string(),
        database_url: String::new(),
    };
    let token = create_token_at(&s, &admin_user(), 1000).unwrap();
    let e = validate_token_at(&other, &token, 1000).unwrap_err();
    assert!(matches!(e, AuthError::JwtError(_)));
}

#[test]
fn token_tampered_rejected() {
    let s = secrets();
    let mut token = create_token_at(&s, &admin_user(), 1000).unwrap();
    token.push('x');
    let e = validate_token_at(&s, &token, 1000).unwrap_err();
    assert!(matches!(e, AuthError::JwtError(_)));
}

#[test]
fn token_from_clock_round_trips() {
    let s = secrets();
    let token = create_token(&s, &admin_user()).unwrap();
    let claims = validate_token(&s, &token).unwrap();
    assert_eq!(claims.sub, 1);
    assert_eq!(claims.acs, Role::Admin);
}

#[test]
fn new_from_user_issues_one_hour() {
    let user = admin_user();
    let claims = Claims::new_from_user(&user, 100).unwrap();
    assert_eq!(claims.sub, 1);
    assert_eq!(claims.exp, 3700);
    assert_eq!(claims.acs, Role::Admin);
}

#[test]
fn new_from_user_without_id_fails() {
    let mut user = admin_user();
    user.id = None;
    let e = Claims::new_from_user(&user, 100).unwrap_err();
    assert_eq!(e, AuthError::InvalidFormat("User id".to_string()));
}

#[test]
fn decode_missing_claims() {
    let m = |pairs: &[(&str, &str)]| -> Vec<(String, String)> {
        pairs
            .iter()
            .map(|(k, v)| (k.to_string(), v.to_string()))
            .collect()
    };
    let e = Claims::from_map(&m(&[("acs", "User"), ("exp", "9999")]), 0).unwrap_err();
    assert_eq!(e, AuthError::MissingClaim("sub".to_string()));
    let e = Claims::from_map(&m(&[("acs", "User"), ("sub", "1")]), 0).unwrap_err();
    assert_eq!(e, AuthError::MissingClaim("exp".to_string()));
    let e = Claims::from_map(&m(&[("exp", "9999"), ("sub", "1")]), 0).unwrap_err();
    assert_eq!(e, AuthError::MissingClaim("acs".to_string()));
    // A missing claim is reported before the expiry check: exp lies in
    // the past here, yet the missing `acs` wins.
    let e = Claims::from_map(&m(&[("exp", "1"), ("sub", "1")]), 100).unwrap_err();
    assert_eq!(e, AuthError::MissingClaim("acs".to_string()));
}

#[test]
fn decode_invalid_formats() {
    let m = |pairs: &[(&str, &str)]| -> Vec<(String, String)> {
        pairs
            .iter()
            .map(|(k, v)| (k.to_string(), v.to_string()))
            .collect()
    };
    let e = Claims::from_map(&m(&[("acs", "User"), ("exp", "10"), ("sub", "abc")]), 0).unwrap_err();
    assert_eq!(e, AuthError::InvalidFormat("sub".to_string()));
    let e = Claims::from_map(&m(&[("acs", "User"), ("exp", "-5"), ("sub", "1")]), 0).unwrap_err();
    assert_eq!(e, AuthError::InvalidFormat("exp".to_string()));
    let e = Claims::from_map(&m(&[("acs", "root"), ("exp", "10"), ("sub", "1")]), 0).unwrap_err();
    assert_eq!(e, AuthError::InvalidFormat("acs".to_string()));
    let e = Claims::from_map(&m(&[("acs", "user"), ("exp", "10"), ("sub", "1")]), 0).unwrap_err();
    assert_eq!(e, AuthError::InvalidFormat("acs".to_string()));
}

#[test]
fn decode_accepts_signed_integers_and_roles() {
    let m: Vec<(String, String)> = vec![
        ("acs".to_string(), "User".to_string()),
        ("exp".to_string(), "1000".to_string()),
        ("sub".to_string(), "-7".to_string()),
    ];
    let claims = Claims::from_map(&m, 1000).unwrap();
    assert_eq!(
        claims,
        Claims {
            sub: -7,
            exp: 1000,
            acs: Role::User
        }
    );
}

#[test]
fn decode_handles_boundary_values() {
    let m = |sub: &str, exp: &str| -> Vec<(String, String)> {
        vec![
            ("acs".to_string(), "User".to_string()),
            ("exp".to_string(), exp.to_string()),
            ("sub".to_string(), sub.to_string()),
        ]
    };
    let claims = Claims::from_map(&m("2147483647", "18446744073709551615"), 0).unwrap();
    assert_eq!(claims.sub, i32::MAX);
    assert_eq!(claims.exp, u64::MAX);
    let claims = Claims::from_map(&m("-2147483648", "0"), 0).unwrap();
    assert_eq!(claims.sub, i32::MIN);
    // An explicit plus sign parses, as `str::parse` accepts it.
    let claims = Claims::from_map(&m("+5", "10"), 0).unwrap();
    assert_eq!(claims.sub, 5);
    // Out-of-range numbers are format errors, not truncated values.
    let e = Claims::from_map(&m("2147483648", "10"), 0).unwrap_err();
    assert_eq!(e, AuthError::InvalidFormat("sub".to_string()));
    let e = Claims::from_map(&m("1", "18446744073709551616"), 0).unwrap_err();
    assert_eq!(e, AuthError::InvalidFormat("exp".to_string()));
    // An overdue count beyond the error field's range saturates.
    let e = Claims::from_map(&m("1", "0"), u64::MAX).unwrap_err();
    assert_eq!(e, AuthError::TokenExpiredS(i64::MAX));
}

#[test]
fn claims_map_round_trips_for_every_role() {
    for (sub, acs) in [(1, Role::User), (-3, Role::Admin), (0, Role::User)] {
        let c = Claims { sub, exp: 5000, acs };
        assert_eq!(Claims::from_map(&c.to_map(), 5000).unwrap(), c);
    }
}

#[test]
fn to_map_writes_canonical_entries() {
    let c = Claims {
        sub: -7,
        exp: 42,
        acs: Role::User,
    };
    let m = c.to_map();
    assert_eq!(
        m,
        vec![
            ("acs".to_string(), "User".to_string()),
            ("exp".to_string(), "42".to_string()),
            ("sub".to_string(), "-7".to_string()),
        ]
    );
}

#[test]
fn error_messages_name_the_failure() {
    assert_eq!(
        AuthError::MissingClaim("acs".to_string()).message(),
        "Claim acs is missing"
    );
    assert_eq!(
        AuthError::InvalidFormat("exp".to_string()).message(),
        "Claim exp has invalid format"
    );
    assert_eq!(
        AuthError::TokenExpiredS(90).message(),
        "Token is expired by 90 seconds"
    );
    assert_eq!(
        AuthError::JwtError("bad signature".to_string()).message(),
        "bad signature"
    );
}

#[test]
fn guard_requires_bearer_header() {
    let s = secrets();
    let token = create_token_at(&s, &admin_user(), 1000).unwrap();
    assert!(authorize_at(&s, None, 1000).is_none());
    assert!(authorize_at(&s, Some(&token), 1000).is_none());
    assert!(authorize_at(&s, Some(&format!("Token {}", token)), 1000).is_none());
    let header = format!("Bearer {}", token);
    let claims = authorize_at(&s, Some(&header), 1000).unwrap();
    assert_eq!(claims.sub, 1);
    // The expired token is rejected with the same uniform outcome.
    assert!(authorize_at(&s, Some(&header), 5000).is_none());
}

#[test]
fn admin_guard_requires_admin_role() {
    let s = secrets();
    let mut user = admin_user();
    let admin_header = format!("Bearer {}", create_token_at(&s, &user, 1000).unwrap());
    user.role = Role::User;
    let user_header = format!("Bearer {}", create_token_at(&s, &user, 1000).unwrap());

    let admin = authorize_admin_at(&s, Some(&admin_header), 1000).unwrap();
    assert_eq!(admin.claims().acs, Role::Admin);
    assert!(authorize_admin_at(&s, Some(&user_header), 1000).is_none());
    // The plain guard accepts both roles.
    assert!(authorize_at(&s, Some(&user_header), 1000).is_some());
}

#[test]
fn clock_guards_accept_fresh_tokens() {
    let s = secrets();
    let header = format!("Bearer {}", create_token(&s, &admin_user()).unwrap());
    assert!(authorize(&s, Some(&header)).is_some());
    assert!(authorize_admin(&s, Some(&header)).is_some());
    assert!(authorize(&s, None).is_none());
}
