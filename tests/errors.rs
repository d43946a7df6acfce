use org_api::config::{AppConfig, ConfigError};
use org_api::dto::{ReqAddCompanyDto, ReqQueryCompanyDto};
use org_api::error::{AppError, DbFailure, DomainError, ErrorData, FieldError, ValidationErrors};
use org_api::response::CaseResponse;
use org_api::validator::{
    AllParams, FormParams, JsonParams, PathAndJsonParams, PathParams, QueryAndJsonParams, QueryParams,
};

fn mapped(e: AppError) -> (u16, u16, String, String) {
    let logged = e.is_logged();
    let r = e.into_response();
    let _ = logged;
    (r.status, r.body.status_code, r.body.data.code, r.body.data.message)
}

#[test]
fn every_error_kind_maps_to_its_status_and_code() {
    let cases: Vec<(AppError, u16, u16, &str)> = vec![
        (AppError::FormRejection("f".into()), 400, 400, "INPUT_PARSE_FAIL"),
        (AppError::PathRejection("p".into()), 400, 400, "INPUT_PARSE_FAIL"),
        (AppError::QueryRejection("q".into()), 400, 400, "INPUT_PARSE_FAIL"),
        (AppError::JsonRejection("j".into()), 400, 400, "INPUT_PARSE_FAIL"),
        (AppError::Domain(DomainError::DbError(DbFailure::RecordNotFound("n".into()))), 404, 404, "DATA_NOT_FOUND"),
        (AppError::Domain(DomainError::DbError(DbFailure::RecordNotInserted("i".into()))), 409, 409, "DATA_DUPPLICATED"),
        (AppError::Domain(DomainError::DbError(DbFailure::UniqueViolation("u".into()))), 409, 409, "DATA_DUPPLICATED"),
        (AppError::Domain(DomainError::DbError(DbFailure::Other("o".into()))), 500, 500, "DB_ERROR"),
        (AppError::Domain(DomainError::CaseError(422, "CASE".into(), "c".into())), 422, 422, "CASE"),
        (AppError::InternalError("x".into()), 500, 500, "UNKNOWN_INTERNAL_ERROR"),
        (AppError::UnAuthorized("a".into()), 401, 401, "UNAUTHORIZED"),
        (AppError::Forbidden("b".into()), 401, 403, "FORBIDDEN"),
    ];
    for (e, status, body, code) in cases {
        let (s, b, c, _) = mapped(e);
        assert_eq!((s, b, c.as_str()), (status, body, code));
    }
    let (_, _, _, m) = mapped(AppError::Domain(DomainError::CaseError(422, "CASE".into(), "case text".into())));
    assert_eq!(m, "case text");
}

#[test]
fn only_auth_failures_go_unlogged() {
    assert!(!AppError::UnAuthorized("a".into()).is_logged());
    assert!(!AppError::Forbidden("a".into()).is_logged());
    assert!(AppError::InternalError("a".into()).is_logged());
    assert!(AppError::JsonRejection("a".into()).is_logged());
}

#[test]
fn validation_text_lists_every_violation() {
    let v = ValidationErrors {
        errors: vec![
            FieldError { field: "name".into(), message: "required".into() },
            FieldError { field: "company_id".into(), message: "malformed".into() },
        ],
    };
    assert_eq!(v.text(), "name: required; company_id: malformed");
    assert_eq!(ValidationErrors { errors: vec![] }.text(), "");
    let (_, _, code, m) = mapped(AppError::ValidationError(v));
    assert_eq!(code, "INPUT_VALIDATE_FAIL");
    assert_eq!(m, "name: required; company_id: malformed");
}

#[test]
fn error_data_copies_its_parts() {
    let d = ErrorData::new("CODE", "message");
    assert_eq!(d.code, "CODE");
    assert_eq!(d.message, "message");
}

#[test]
fn case_responses_carry_their_status() {
    assert_eq!(CaseResponse::ok(1u8).status, 200);
    assert_eq!(CaseResponse::created(1u8).status, 201);
    assert_eq!(CaseResponse::<u8>::no_content().status, 204);
}

#[test]
fn extractors_reject_then_validate() {
    let bad = || Ok::<ReqAddCompanyDto, String>(ReqAddCompanyDto { name: String::new() });
    let good = || Ok::<ReqAddCompanyDto, String>(ReqAddCompanyDto { name: "n".into() });
    let q = || Ok::<ReqQueryCompanyDto, String>(ReqQueryCompanyDto { name: None });
    assert!(matches!(FormParams::from_parsed(Err::<ReqAddCompanyDto, _>("e".into())), Err(AppError::FormRejection(_))));
    assert!(matches!(PathParams::from_parsed(Err::<ReqAddCompanyDto, _>("e".into())), Err(AppError::PathRejection(_))));
    assert!(matches!(JsonParams::from_parsed(bad()), Err(AppError::ValidationError(_))));
    assert_eq!(JsonParams::from_parsed(good()).ok().unwrap().0.name, "n");
    assert!(QueryParams::from_parsed(q()).is_ok());
    assert!(matches!(AllParams::from_parsed(good(), Err::<ReqQueryCompanyDto, _>("e".into()), bad()), Err(AppError::QueryRejection(_))));
    assert!(matches!(AllParams::from_parsed(good(), q(), bad()), Err(AppError::ValidationError(_))));
    assert!(AllParams::from_parsed(good(), q(), good()).is_ok());
    assert!(matches!(PathAndJsonParams::from_parsed(bad(), Err::<ReqAddCompanyDto, _>("e".into())), Err(AppError::ValidationError(_))));
    assert!(matches!(QueryAndJsonParams::from_parsed(q(), Err::<ReqAddCompanyDto, _>("e".into())), Err(AppError::JsonRejection(_))));
    assert!(QueryAndJsonParams::from_parsed(q(), good()).is_ok());
}

#[test]
fn config_requires_database_and_secret() {
    let c = AppConfig::from_env(None, Some("db".into()), Some("s".into())).ok().unwrap();
    assert_eq!(c.server_port, "8080");
    assert_eq!(c.db_connect_str, "db");
    let p = AppConfig::from_env(Some("9000".into()), Some("db".into()), Some("s".into())).ok().unwrap();
    assert_eq!(p.server_port, "9000");
    let e = AppConfig::from_env(None, None, Some("s".into())).err().unwrap();
    assert_eq!(e.message(), "failed to load environment variable DB_CONNECT_STR");
    let e = AppConfig::from_env(None, Some("db".into()), None).err().unwrap();
    assert!(matches!(e, ConfigError::MissingVar(ref k) if k == "TOKEN_SECRET_KEY"));
}
