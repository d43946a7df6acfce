use org_api::dto::{ReqAddCompanyDto, ReqAddDepartmentDto, ReqQueryCompanyDto};
use org_api::error::{DbFailure, DomainError};
use org_api::store::OrgStore;

fn store_with(names: &[&str]) -> OrgStore {
    let mut store = OrgStore::new();
    for (i, n) in names.iter().enumerate() {
        store.add_company(i as u128 + 1, ReqAddCompanyDto { name: n.to_string() }).ok().unwrap();
    }
    store
}

#[test]
fn query_return_all_data_when_no_name() {
    let store = store_with(&["test-1", "test-2"]);

    let items = store.query(&ReqQueryCompanyDto { name: None });

    assert!(items.len() == 2);
    assert_eq!(items[0].name, "test-1");
    assert_eq!(items[1].name, "test-2");
}

#[test]
fn query_return_filtered_data_by_name() {
    let store = store_with(&["test-1", "test-2"]);

    let items = store.query(&ReqQueryCompanyDto { name: Some("test-1".to_owned()) });

    assert_eq!(items.len(), 1);
    assert_eq!(items[0].name, "test-1");
}

#[test]
fn exists_return_true_when_found() {
    let store = store_with(&["test-1"]);
    assert!(store.company_exists(1));
}

#[test]
fn exists_return_false_when_not_found() {
    let store = OrgStore::new();
    assert!(!store.company_exists(1));
}

#[test]
fn query_empty_store_is_empty() {
    let store = OrgStore::new();
    assert!(store.query(&ReqQueryCompanyDto { name: None }).is_empty());
}

#[test]
fn query_empty_fragment_lists_all() {
    let store = store_with(&["alpha", "beta", "gamma"]);
    let items = store.query(&ReqQueryCompanyDto { name: Some(String::new()) });
    let names: Vec<&str> = items.iter().map(|c| c.name.as_str()).collect();
    assert_eq!(names, vec!["alpha", "beta", "gamma"]);
}

#[test]
fn query_matches_fragment_inside_name() {
    let store = store_with(&["alpha", "beta", "alphabet", "Alpha"]);
    let items = store.query(&ReqQueryCompanyDto { name: Some("alph".to_owned()) });
    let names: Vec<&str> = items.iter().map(|c| c.name.as_str()).collect();
    assert_eq!(names, vec!["alpha", "alphabet"]);
    let none = store.query(&ReqQueryCompanyDto { name: Some("alphabets".to_owned()) });
    assert!(none.is_empty());
}

#[test]
fn query_returns_id_text() {
    let store = store_with(&["test-1"]);
    let items = store.query(&ReqQueryCompanyDto { name: None });
    assert_eq!(items[0].id, uuid::Uuid::from_u128(1).to_string());
    assert_eq!(items[0].id, "00000000-0000-0000-0000-000000000001");
}

#[test]
fn duplicate_company_id_or_name_is_refused() {
    let mut store = store_with(&["test-1"]);
    let same_name = store.add_company(9, ReqAddCompanyDto { name: "test-1".to_owned() });
    assert!(matches!(same_name, Err(DomainError::DbError(DbFailure::UniqueViolation(_)))));
    let same_id = store.add_company(1, ReqAddCompanyDto { name: "other".to_owned() });
    assert!(matches!(same_id, Err(DomainError::DbError(DbFailure::UniqueViolation(_)))));
    assert_eq!(store.query(&ReqQueryCompanyDto { name: None }).len(), 1);
}

#[test]
fn department_needs_its_company() {
    let mut store = store_with(&["test-1"]);
    let orphan = store.add_department(5, ReqAddDepartmentDto { name: "ops".to_owned(), company_id: 7 });
    assert!(matches!(orphan, Err(DomainError::DbError(DbFailure::Other(_)))));
    let ok = store.add_department(5, ReqAddDepartmentDto { name: "ops".to_owned(), company_id: 1 });
    assert_eq!(ok.ok(), Some(5));
    let dup = store.add_department(6, ReqAddDepartmentDto { name: "ops".to_owned(), company_id: 1 });
    assert!(matches!(dup, Err(DomainError::DbError(DbFailure::UniqueViolation(_)))));
}

#[test]
fn rollback_restores_the_store() {
    let mut store = store_with(&["test-1"]);
    let mark = store.begin();
    store.add_company(2, ReqAddCompanyDto { name: "test-2".to_owned() }).ok().unwrap();
    store.rollback(mark);
    assert_eq!(store.query(&ReqQueryCompanyDto { name: None }).len(), 1);
    assert!(!store.company_exists(2));
}

#[test]
fn like_pattern_escapes_wildcards() {
    assert_eq!(ReqQueryCompanyDto { name: None }.like_pattern(), None);
    assert_eq!(ReqQueryCompanyDto { name: Some(String::new()) }.like_pattern(), None);
    assert_eq!(ReqQueryCompanyDto { name: Some("test-1".into()) }.like_pattern(), Some("%test-1%".to_string()));
    assert_eq!(
        ReqQueryCompanyDto { name: Some("a%b_c\\".into()) }.like_pattern(),
        Some("%a\\%b\\_c\\\\%".to_string())
    );
}
