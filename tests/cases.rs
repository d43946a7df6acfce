use org_api::auth::UserInfo;
use org_api::cases::{query_company, sign_in, tx_action, TxAction};
use org_api::dto::{ReqAddCompanyDto, ReqAddDepartmentDto, ReqQueryCompanyDto};
use org_api::error::{AppError, DbFailure, DomainError};
use org_api::pipeline::{
    handle_add_company, handle_add_company_new, handle_add_department, handle_add_department_new,
    handle_query_company,
};
use org_api::store::OrgStore;
use org_api::token::JwtHelper;
use org_api::validator::QueryParams;

fn user() -> UserInfo {
    UserInfo { id: "logon-user".to_owned() }
}

fn company(name: &str) -> Result<ReqAddCompanyDto, String> {
    Ok(ReqAddCompanyDto { name: name.to_owned() })
}

fn all_names(store: &OrgStore) -> Vec<String> {
    store.query(&ReqQueryCompanyDto { name: None }).into_iter().map(|c| c.name).collect()
}

#[test]
fn return_found_companies_on_success() {
    let mut store = OrgStore::new();
    handle_add_company(&mut store, 1, company("test-1"), &user()).ok().unwrap();
    handle_add_company(&mut store, 2, company("test-2"), &user()).ok().unwrap();

    let dto = ReqQueryCompanyDto { name: None };

    let result = query_company(&store, QueryParams(dto), &user());

    assert!(result.is_ok());

    let res = result.ok().unwrap();
    assert_eq!(res.status, 200);
    assert_eq!(res.data.len(), 2);
    assert_eq!(res.data[0].name, "test-1");
    assert_eq!(res.data[1].name, "test-2");
}

#[test]
fn added_company_is_listed_once() {
    let mut store = OrgStore::new();
    handle_add_company(&mut store, 10, company("acme"), &user()).ok().unwrap();
    let r = handle_add_company(&mut store, 11, company("acme-2"), &user()).ok().unwrap();
    assert_eq!(r.status, 201);
    assert_eq!(r.data, uuid::Uuid::from_u128(11).to_string());
    let names = all_names(&store);
    assert_eq!(names.iter().filter(|n| n.as_str() == "acme-2").count(), 1);
    let rows = store.query(&ReqQueryCompanyDto { name: None });
    let by_id: Vec<_> = rows.iter().filter(|c| c.id == r.data).collect();
    assert_eq!(by_id.len(), 1);
    assert_eq!(by_id[0].name, "acme-2");
    assert_eq!(names.len(), 2);
}

#[test]
fn longest_valid_name_is_accepted() {
    let mut store = OrgStore::new();
    let name = "é".repeat(200);
    assert!(handle_add_company(&mut store, 1, Ok(ReqAddCompanyDto { name }), &user()).is_ok());
}

#[test]
fn empty_or_long_name_is_a_validation_failure() {
    let mut store = OrgStore::new();
    for name in [String::new(), "x".repeat(201)] {
        let e = handle_add_company(&mut store, 1, Ok(ReqAddCompanyDto { name }), &user()).err().unwrap();
        assert!(matches!(e, AppError::ValidationError(_)));
        let r = e.into_response();
        assert_eq!(r.status, 400);
        assert_eq!(r.body.data.code, "INPUT_VALIDATE_FAIL");
        assert_eq!(r.body.data.message, "name: company's is required and max 200 characters.");
    }
    assert!(all_names(&store).is_empty());
}

#[test]
fn unparsable_body_is_a_parse_failure() {
    let mut store = OrgStore::new();
    let e = handle_add_company(&mut store, 1, Err("missing field `name`".to_owned()), &user()).err().unwrap();
    let r = e.into_response();
    assert_eq!(r.status, 400);
    assert_eq!(r.body.data.code, "INPUT_PARSE_FAIL");
    assert_eq!(r.body.data.message, "missing field `name`");
    let q = handle_query_company(&store, Err("bad query".to_owned()), &user()).err().unwrap();
    assert!(matches!(q, AppError::QueryRejection(_)));
}

#[test]
fn repeated_add_company_conflicts() {
    let mut store = OrgStore::new();
    assert!(handle_add_company(&mut store, 1, company("same"), &user()).is_ok());
    let e = handle_add_company(&mut store, 2, company("same"), &user()).err().unwrap();
    let r = e.into_response();
    assert_eq!(r.status, 409);
    assert_eq!(r.body.data.code, "DATA_DUPPLICATED");
    assert_eq!(all_names(&store), vec!["same".to_string()]);
}

#[test]
fn department_for_missing_company_is_not_found() {
    let mut store = OrgStore::new();
    handle_add_company(&mut store, 1, company("acme"), &user()).ok().unwrap();
    let dto = ReqAddDepartmentDto { name: "ops".to_owned(), company_id: 99 };
    let e = handle_add_department(&mut store, 5, Ok(dto), &user()).err().unwrap();
    match &e {
        AppError::Domain(DomainError::DbError(DbFailure::RecordNotFound(m))) => assert_eq!(
            m,
            &format!("company with id: {} is not found", uuid::Uuid::from_u128(99))
        ),
        _ => panic!("expected RecordNotFound"),
    }
    let r = e.into_response();
    assert_eq!(r.status, 404);
    assert_eq!(r.body.data.code, "DATA_NOT_FOUND");
    let again = ReqAddDepartmentDto { name: "ops".to_owned(), company_id: 1 };
    assert!(handle_add_department(&mut store, 5, Ok(again), &user()).is_ok());
}

#[test]
fn department_for_existing_company_is_created() {
    let mut store = OrgStore::new();
    handle_add_company(&mut store, 1, company("acme"), &user()).ok().unwrap();
    let dto = ReqAddDepartmentDto { name: "ops".to_owned(), company_id: 1 };
    let r = handle_add_department(&mut store, 7, Ok(dto), &user()).ok().unwrap();
    assert_eq!(r.status, 201);
    assert_eq!(r.data, "00000000-0000-0000-0000-000000000007");
    let dup = ReqAddDepartmentDto { name: "ops".to_owned(), company_id: 1 };
    let e = handle_add_department(&mut store, 8, Ok(dup), &user()).err().unwrap();
    assert_eq!(e.into_response().status, 409);
    let empty = ReqAddDepartmentDto { name: String::new(), company_id: 1 };
    let v = handle_add_department(&mut store, 9, Ok(empty), &user()).err().unwrap();
    assert_eq!(v.into_response().body.data.message, "name: add.department.name.required");
}

#[test]
fn filtered_query_returns_the_match() {
    let mut store = OrgStore::new();
    handle_add_company(&mut store, 1, company("test-1"), &user()).ok().unwrap();
    handle_add_company(&mut store, 2, company("test-2"), &user()).ok().unwrap();
    let q = ReqQueryCompanyDto { name: Some("test-1".to_owned()) };
    let r = handle_query_company(&store, Ok(q), &user()).ok().unwrap();
    assert_eq!(r.data.len(), 1);
    assert_eq!(r.data[0].name, "test-1");
    let all = handle_query_company(&store, Ok(ReqQueryCompanyDto { name: None }), &user()).ok().unwrap();
    let names: Vec<&str> = all.data.iter().map(|c| c.name.as_str()).collect();
    assert_eq!(names, vec!["test-1", "test-2"]);
}

#[test]
fn fresh_ids_are_drawn() {
    let mut store = OrgStore::new();
    let a = handle_add_company_new(&mut store, company("a"), &user()).ok().unwrap();
    let b = handle_add_company_new(&mut store, company("b"), &user()).ok().unwrap();
    assert_ne!(a.data, b.data);
    let id = uuid::Uuid::parse_str(&a.data).unwrap().as_u128();
    let dto = ReqAddDepartmentDto { name: "ops".to_owned(), company_id: id };
    assert!(handle_add_department_new(&mut store, Ok(dto), &user()).is_ok());
}

#[test]
fn sign_in_issues_a_verifiable_token() {
    let helper = JwtHelper::new("secret".to_owned());
    let r = sign_in(&helper).ok().unwrap();
    assert_eq!(r.status, 200);
    assert_eq!(helper.validate(&r.data), Ok("aaa".to_string()));
}

#[test]
fn transaction_commits_only_on_success() {
    let ok: Result<u8, DomainError> = Ok(1);
    let err: Result<u8, DomainError> = Err(DomainError::DbError(DbFailure::Other("x".to_owned())));
    assert!(matches!(tx_action(&ok), TxAction::Commit));
    assert!(matches!(tx_action(&err), TxAction::Rollback));
}
