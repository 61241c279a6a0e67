use petompp_web_api::controllers::blob::BlobDataMode;
use petompp_web_api::controllers::users::{login, login_user};
use petompp_web_api::error::{Error, ResourceDataValidationError, UsernameValidationError, ValidationError};
use petompp_web_api::models::credentials::Credentials;
use petompp_web_api::models::resource_data::Resource;
use petompp_web_api::models::role::Role;
use petompp_web_api::models::user::User;
use petompp_web_api::models::user_name::{validate_name, UserName};
use petompp_web_api::auth::token::validate_token_at;
use petompp_web_api::Extension;
use petompp_web_api::Secrets;

#[test]
fn user_name_is_trimmed_and_validated() {
    let n = UserName::new("  bob  ".to_string()).unwrap();
    assert_eq!(n.as_str(), "bob");
    let n = UserName::new("\tweb_user.01\n".to_string()).unwrap();
    assert_eq!(n.as_str(), "web_user.01");
}

#[test]
fn user_name_accepts_unicode_letters_and_whitespace() {
    // U+00C4 is alphanumeric, so the name registers.
    let n = UserName::new("\u{c4}rzte".to_string()).unwrap();
    assert_eq!(n.as_str(), "\u{c4}rzte");
    // U+2009 (thin space) is Unicode whitespace and is trimmed away.
    let n = UserName::new("\u{2009}bob\u{2009}".to_string()).unwrap();
    assert_eq!(n.as_str(), "bob");
}

#[test]
fn user_name_length_bounds() {
    let length_error = Error::ValidationError(ValidationError::Username(
        UsernameValidationError::InvalidLength(3, 28),
    ));
    assert_eq!(UserName::new("ab".to_string()).unwrap_err(), length_error);
    // 27 bytes pass, 28 do not: the upper bound is exclusive.
    assert!(UserName::new("a".repeat(27)).is_ok());
    assert_eq!(UserName::new("a".repeat(28)).unwrap_err(), length_error);
    // The bound applies to the trimmed text.
    assert_eq!(UserName::new("  ab  ".to_string()).unwrap_err(), length_error);
}

#[test]
fn user_name_characters_are_allow_listed() {
    assert!(UserName::new("b-o_b.$@!#%^&*1".to_string()).is_ok());
    let e = UserName::new("bo b".to_string()).unwrap_err();
    match e {
        Error::ValidationError(ValidationError::Username(
            UsernameValidationError::InvalidCharacters(chars),
        )) => {
            assert_eq!(
                chars,
                vec!['-', '_', '.', '$', '@', '!', '#', '%', '^', '&', '*']
            );
        }
        other => panic!("unexpected error {:?}", other),
    }
    assert!(validate_name("plain").is_ok());
    assert!(validate_name("no,commas").is_err());
}

#[test]
fn new_user_is_unconfirmed_with_normalized_name() {
    let user = User::new("NewUser1".to_string(), "Passw0rd!".to_string(), Role::User).unwrap();
    assert_eq!(user.id, None);
    assert_eq!(user.name.as_str(), "NewUser1");
    assert_eq!(user.normalized_name, "newuser1");
    assert_eq!(user.role, Role::User);
    assert!(!user.confirmed);
    assert_eq!(user.created_at, None);
    assert_eq!(user.deleted_at, None);
    assert!(user.password.verify("Passw0rd!".to_string()));
}

#[test]
fn new_user_reports_name_errors_before_password_errors() {
    let e = User::new("x".to_string(), "short".to_string(), Role::User).unwrap_err();
    assert!(matches!(
        e,
        Error::ValidationError(ValidationError::Username(_))
    ));
    let e = User::new("goodname".to_string(), "short".to_string(), Role::User).unwrap_err();
    assert!(matches!(
        e,
        Error::ValidationError(ValidationError::Password(_))
    ));
}

fn login_fixture() -> (Secrets, User, Credentials) {
    let secrets = Secrets {
        api_secret: "a-very-secret-key".to_string(),
        database_url: String::new(),
    };
    let mut user = User::new("SomeUser1".to_string(), "Passw0rd!".to_string(), Role::User).unwrap();
    user.id = Some(42);
    user.confirmed = true;
    let credentials = Credentials {
        name: "SomeUser1".to_string(),
        password: "Passw0rd!".to_string(),
    };
    (secrets, user, credentials)
}

#[test]
fn login_issues_a_token_for_confirmed_users() {
    let (secrets, user, credentials) = login_fixture();
    let token = login_user(&secrets, &user, &credentials, 1000).unwrap();
    let claims = validate_token_at(&secrets, &token, 1000).unwrap();
    assert_eq!(claims.sub, 42);
    assert_eq!(claims.exp, 4600);
    assert_eq!(claims.acs, Role::User);
}

#[test]
fn login_hides_whether_the_account_exists() {
    let (secrets, user, credentials) = login_fixture();
    // An unknown account and a wrong password read exactly the same.
    let e = login(&secrets, None, &credentials, 1000).unwrap_err();
    assert_eq!(e, Error::InvalidCredentials);
    let mut wrong = credentials.clone();
    wrong.password = "Passw0rd?".to_string();
    let e = login(&secrets, Some(&user), &wrong, 1000).unwrap_err();
    assert_eq!(e, Error::InvalidCredentials);
    // With the account found, the decision is the usual one.
    assert!(login(&secrets, Some(&user), &credentials, 1000).is_ok());
}

#[test]
fn login_rejects_wrong_password_uniformly() {
    let (secrets, user, mut credentials) = login_fixture();
    credentials.password = "Passw0rd?".to_string();
    let e = login_user(&secrets, &user, &credentials, 1000).unwrap_err();
    assert_eq!(e, Error::InvalidCredentials);
}

#[test]
fn login_rejects_unconfirmed_accounts_by_name() {
    let (secrets, mut user, credentials) = login_fixture();
    user.confirmed = false;
    let e = login_user(&secrets, &user, &credentials, 1000).unwrap_err();
    assert_eq!(e, Error::UserNotConfirmed("SomeUser1".to_string()));
}

#[test]
fn resource_update_requires_matching_key() {
    let mut res = Resource {
        key: Some("about".to_string()),
        en: Some("About".to_string()),
        pl: None,
    };
    assert!(res.validate_key("about").is_ok());
    let e = res.validate_key("contact").unwrap_err();
    assert_eq!(
        e,
        Error::ValidationError(ValidationError::ResourceData(
            ResourceDataValidationError::KeyMismatch("contact".to_string(), "about".to_string())
        ))
    );
    res.key = None;
    let e = res.validate_key("about").unwrap_err();
    assert_eq!(
        e,
        Error::ValidationError(ValidationError::ResourceData(
            ResourceDataValidationError::KeyMissing
        ))
    );
}

#[test]
fn blob_data_mode_literals() {
    assert_eq!(BlobDataMode::from_value("full"), Some(BlobDataMode::Full));
    assert_eq!(BlobDataMode::from_value("name"), Some(BlobDataMode::Name));
    assert_eq!(BlobDataMode::from_value("Full"), None);
    assert_eq!(BlobDataMode::from_value(""), None);
}

#[test]
fn role_names_round_trip() {
    assert_eq!(Role::User.name(), "User");
    assert_eq!(Role::Admin.name(), "Admin");
    assert_eq!(Role::from_name("User"), Some(Role::User));
    assert_eq!(Role::from_name("Admin"), Some(Role::Admin));
    assert_eq!(Role::from_name("admin"), None);
    assert_eq!(Role::default(), Role::User);
}

#[test]
fn role_integers_round_trip() {
    assert_eq!(Role::User.as_i32(), 0);
    assert_eq!(Role::Admin.as_i32(), 1);
    assert_eq!(Role::from_i32(0), Some(Role::User));
    assert_eq!(Role::from_i32(1), Some(Role::Admin));
    assert_eq!(Role::from_i32(2), None);
    assert_eq!(Role::from_i32(-1), None);
}

#[test]
fn extension_unwraps_its_value() {
    let e = Extension(5i32);
    assert_eq!(e.into(), 5);
}
