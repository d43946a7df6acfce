use org_api::auth::{authenticate, auth_status, check_roles, AuthStatus, UserInfo};
use org_api::error::AppError;
use org_api::token::{JwtHelper, TokenError};

#[test]
fn generate_token_success() {
    let jwt_helper = JwtHelper::new("secret".to_string());

    let result = jwt_helper.generate("test".to_string());

    assert!(result.is_ok());
}

#[test]
fn validate_token_success() {
    let jwt_helper = JwtHelper::new("secret".to_string());

    let sub = "this is value";

    let token = jwt_helper.generate(sub.to_string()).unwrap();

    let valid = jwt_helper.validate(token.as_str());

    assert!(valid.is_ok());

    let value = valid.unwrap();

    assert!(value == sub)
}

#[test]
fn validate_token_faild() {
    let jwt_helper = JwtHelper::new("secret".to_string());

    let valid = jwt_helper.validate("non-valid");

    assert!(valid.is_err());
}

#[test]
fn issued_token_verifies_to_alice() {
    let helper = JwtHelper::new("secret".to_string());
    let token = helper.generate("alice".to_string()).unwrap();
    assert_eq!(token.matches('.').count(), 2);
    assert_eq!(helper.validate(&token), Ok("alice".to_string()));
}

#[test]
fn expired_token_is_rejected() {
    let helper = JwtHelper::new("secret".to_string());
    let token = helper.generate_at("alice".to_string(), 0).unwrap();
    assert_eq!(helper.validate(&token), Err(TokenError::InvalidToken));
}

#[test]
fn token_signed_with_other_secret_is_rejected() {
    let issuer = JwtHelper::new("secret".to_string());
    let other = JwtHelper::new("other".to_string());
    let token = issuer.generate("alice".to_string()).unwrap();
    assert_eq!(other.validate(&token), Err(TokenError::InvalidToken));
}

#[test]
fn same_time_gives_same_token() {
    let helper = JwtHelper::new("secret".to_string());
    let a = helper.generate_at("alice".to_string(), 1_000).unwrap();
    let b = helper.generate_at("alice".to_string(), 1_000).unwrap();
    let c = helper.generate_at("bob".to_string(), 1_000).unwrap();
    assert_eq!(a, b);
    assert_ne!(a, c);
}

#[test]
fn clock_at_limit_cannot_issue() {
    let helper = JwtHelper::new("secret".to_string());
    assert_eq!(helper.generate_at("alice".to_string(), u64::MAX), Err(TokenError::ClockOutOfRange));
}

#[test]
fn missing_header_is_unauthorized() {
    let helper = JwtHelper::new("secret".to_string());
    let e = authenticate(&helper, None).err().unwrap();
    match &e {
        AppError::UnAuthorized(m) => assert_eq!(m, "token invalid or expired."),
        _ => panic!("expected UnAuthorized"),
    }
    let r = e.into_response();
    assert_eq!(r.status, 401);
    assert_eq!(r.body.status_code, 401);
    assert_eq!(r.body.data.code, "UNAUTHORIZED");
}

#[test]
fn header_without_bearer_is_anonymous() {
    let helper = JwtHelper::new("secret".to_string());
    let token = helper.generate("alice".to_string()).unwrap();
    assert!(matches!(auth_status(&helper, Some(token.as_str())), AuthStatus::Anonymous));
    let basic = format!("Basic {}", token);
    assert!(matches!(auth_status(&helper, Some(basic.as_str())), AuthStatus::Anonymous));
    assert!(matches!(auth_status(&helper, Some("Bearer non-valid")), AuthStatus::Anonymous));
}

#[test]
fn bearer_header_authenticates() {
    let helper = JwtHelper::new("secret".to_string());
    let token = helper.generate("alice".to_string()).unwrap();
    let header = format!("Bearer {}", token);
    let user = authenticate(&helper, Some(header.as_str())).ok().unwrap();
    assert_eq!(user.id, "alice");
}

#[test]
fn missing_principal_is_forbidden() {
    let roles = vec!["admin".to_string()];
    let e = check_roles(None, &roles).err().unwrap();
    let r = e.into_response();
    assert_eq!(r.status, 401);
    assert_eq!(r.body.status_code, 403);
    assert_eq!(r.body.data.code, "FORBIDDEN");
    assert_eq!(r.body.data.message, "miss.permission");
    let user = UserInfo { id: "logon-user".to_string() };
    assert!(check_roles(Some(&user), &roles).is_ok());
}

fn unix_now() -> u64 {
    std::time::SystemTime::now().duration_since(std::time::UNIX_EPOCH).unwrap().as_secs()
}

#[test]
fn token_expired_a_second_ago_is_rejected() {
    let helper = JwtHelper::new("secret".to_string());
    let token = helper.generate_at("alice".to_string(), unix_now() - 301).unwrap();
    assert_eq!(helper.validate(&token), Err(TokenError::InvalidToken));
    let fresh = helper.generate_at("alice".to_string(), unix_now() - 200).unwrap();
    assert_eq!(helper.validate(&fresh), Ok("alice".to_string()));
}

#[test]
fn token_of_wrong_shape_is_rejected() {
    let helper = JwtHelper::new("secret".to_string());
    let token = helper.generate("alice".to_string()).unwrap();
    for bad in [format!("{}.x", token), format!("{}=", token), token.replacen('.', "..", 1), "a.b".to_string()] {
        assert_eq!(helper.validate(&bad), Err(TokenError::InvalidToken));
    }
}

#[test]
fn issue_succeeds_in_range() {
    let helper = JwtHelper::new("secret".to_string());
    assert!(helper.generate_at("test".to_string(), 1_700_000_000).is_ok());
    assert!(helper.generate_at("test".to_string(), u64::MAX - 300).is_ok());
}
