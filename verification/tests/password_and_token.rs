use actix_realworld_example::model::{Claim, RealWorldToken};
use actix_realworld_example::error::CustomError;
use actix_realworld_example::password::{check_password, get_phc_string, verify_password};
use actix_realworld_example::token::{
    authorize_claims, check_claims_now, token_validation, check_credentials, claims_at, claims_for_reading, token_claims, AuthHeaderError,
    TOKEN_LIFETIME_SECS,
};

#[test]
fn hashed_password_verifies() {
    let phc = get_phc_string("hunter42");
    assert!(phc.starts_with("$argon2id$v=19$"));
    assert!(verify_password("hunter42", &phc));
    assert!(!verify_password("hunter43", &phc));
    assert_eq!(check_password("hunter42", &phc), Some(true));
    assert_eq!(check_password("", &phc), Some(false));
}

#[test]
fn hashes_are_salted() {
    let a = get_phc_string("same");
    let b = get_phc_string("same");
    assert_ne!(a, b);
    assert!(verify_password("same", &a) && verify_password("same", &b));
}

#[test]
fn check_password_refuses_non_phc_text() {
    assert_eq!(check_password("pw", "not a hash"), None);
    assert_eq!(check_password("pw", ""), None);
}

fn header(h: Option<&str>) -> Result<(String, String), AuthHeaderError> {
    RealWorldToken::from_authorization(h).map(|t| (t.scheme, t.token))
}

#[test]
fn authorization_header_parts() {
    assert_eq!(header(Some("Token abc.def")), Ok(("Token".to_string(), "abc.def".to_string())));
    assert_eq!(header(Some("Token a b")), Ok(("Token".to_string(), "a b".to_string())));
    assert_eq!(header(Some("Bearer  x")), Ok(("Bearer".to_string(), " x".to_string())));
}

#[test]
fn authorization_header_errors() {
    assert_eq!(header(None), Err(AuthHeaderError::Missing));
    assert_eq!(header(Some("")), Err(AuthHeaderError::MissingScheme));
    assert_eq!(header(Some(" abc")), Err(AuthHeaderError::MissingScheme));
    assert_eq!(header(Some("Token")), Err(AuthHeaderError::InvalidValue));
    assert_eq!(header(Some("Token ")), Err(AuthHeaderError::InvalidValue));
    assert_eq!(AuthHeaderError::Missing.message(), "Authentication required!");
    assert_eq!(AuthHeaderError::MissingScheme.message(), "Missing authorization scheme");
    assert_eq!(AuthHeaderError::InvalidValue.message(), "Invalid header value");
}

#[test]
fn authorization_header_round_trip() {
    for (s, t) in [("Token", "x"), ("Basic", "a b c"), ("T", " ")] {
        let h = format!("{} {}", s, t);
        assert_eq!(header(Some(&h)), Ok((s.to_string(), t.to_string())));
    }
}

#[test]
fn claims_expire_after_seven_days() {
    let c = claims_at(1_000, "realworld", 7, "a@b.c");
    assert_eq!(c, Claim { exp: 1_000 + 604_800, iss: "realworld".to_string(), id: 7, email: "a@b.c".to_string() });
    assert_eq!(TOKEN_LIFETIME_SECS, 7 * 24 * 60 * 60);
}

#[test]
fn fresh_claims_from_the_clock() {
    let c = token_claims("iss", 3, "e@x").unwrap();
    assert_eq!((c.iss.as_str(), c.id, c.email.as_str()), ("iss", 3, "e@x"));
    assert!(c.exp > 1_600_000_000 + 604_800);
    assert!(check_claims_now("o", Ok(c)).is_ok());
}

fn unauthorized(realm: &str, message: &str) -> CustomError {
    CustomError::UnauthorizedError { realm: realm.to_string(), message: message.to_string() }
}

#[test]
fn credentials_decision() {
    let ok = RealWorldToken { scheme: "Token".to_string(), token: "jwt".to_string() };
    assert_eq!(check_credentials("o", Ok(ok)), Ok("jwt".to_string()));
    let bearer = RealWorldToken { scheme: "Bearer".to_string(), token: "jwt".to_string() };
    assert_eq!(check_credentials("o", Ok(bearer)), Err(unauthorized("o", "Invalid header value")));
    assert_eq!(
        check_credentials("o", Err("Authentication required!".to_string())),
        Err(unauthorized("o", "Authentication required!"))
    );
}

#[test]
fn expiry_decision() {
    let c = claims_at(100, "i", 1, "e");
    assert_eq!(authorize_claims("o", Ok(c.clone()), 100), Ok(()));
    assert_eq!(authorize_claims("o", Ok(c.clone()), 100 + 604_799), Ok(()));
    assert_eq!(authorize_claims("o", Ok(c.clone()), 100 + 604_800), Err(unauthorized("o", "Token expired")));
    let bad = unauthorized("h", "InvalidSignature");
    assert_eq!(authorize_claims("o", Err(bad.clone()), 0), Err(bad.clone()));
    assert_eq!(check_claims_now("o", Err(bad.clone())), Err(bad));
    let old = claims_at(0, "i", 1, "e");
    assert_eq!(check_claims_now("o", Ok(old)), Err(unauthorized("o", "Token expired")));
}

#[test]
fn claims_for_clock_readings() {
    let c = claims_for_reading(1_000, "iss", 2, "a@b").unwrap();
    assert_eq!(c, Claim { exp: 605_800, iss: "iss".to_string(), id: 2, email: "a@b".to_string() });
    assert_eq!(claims_for_reading(0, "iss", 2, "a@b").map(|c| c.exp), Some(604_800));
    assert_eq!(claims_for_reading(-1, "iss", 2, "a@b").map(|c| c.exp), Some(604_799));
    assert_eq!(claims_for_reading(-604_800, "iss", 2, "a@b").map(|c| c.exp), Some(0));
    assert_eq!(claims_for_reading(-604_801, "iss", 2, "a@b"), None);
    assert_eq!(claims_for_reading(i64::MIN, "iss", 2, "a@b"), None);
}

#[test]
fn header_errors_are_bad_requests() {
    for e in [AuthHeaderError::Missing, AuthHeaderError::MissingScheme, AuthHeaderError::InvalidValue] {
        assert_eq!(e.status_code(), 400);
    }
}

#[test]
fn token_validation_outcomes() {
    let c = claims_at(5, "i", 1, "e");
    assert_eq!(token_validation("h", Ok(c.clone())), Ok(c));
    assert_eq!(token_validation("h", Err("InvalidSignature".to_string())), Err(unauthorized("h", "InvalidSignature")));
}
