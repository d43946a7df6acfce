use vstd::prelude::*;

use crate::auth::UserInfo;
use crate::dto::{ReqAddCompanyDto, ReqAddDepartmentDto, ReqQueryCompanyDto, ResQueryCompanyDto};
use crate::error::{AppError, DbFailure, DomainError};
use crate::ids::{id_text, uuid_hyphenated};
use crate::response::{CaseResponse, STATUS_CREATED, STATUS_OK};
use crate::store::{
    company_inserted, company_insert_ok, department_insert_ok, department_inserted, extends,
    has_company, listed, public_rows, query_pattern, res_view, well_formed, OrgStore,
};
use crate::token::{hs256_token, JwtHelper, TOKEN_LIFETIME_SECS};
use crate::validator::{JsonParams, QueryParams};

verus! {

/// What a unit of work does with its transaction once the work is done.
pub enum TxAction {
    Commit,
    Rollback,
}

/// Commit on success, roll back on any error.
pub fn tx_action<T>(outcome: &Result<T, DomainError>) -> (a: TxAction)
    ensures
        a is Commit <==> outcome is Ok,
{
    match outcome {
        Ok(_) => TxAction::Commit,
        Err(_) => TxAction::Rollback,
    }
}

/// The subject that sign-in issues tokens for.
pub open spec fn sign_in_subject() -> Seq<char> {
    "aaa"@
}

/// Sign-in: a fresh token for the fixed subject.
pub fn sign_in(helper: &JwtHelper) -> (r: Result<CaseResponse<String>, AppError>)
    ensures
        r matches Ok(resp) ==> resp.status == STATUS_OK && exists|iat: int, exp: int|
            exp == iat + TOKEN_LIFETIME_SECS && resp.data@ == #[trigger] hs256_token(
                helper.key(),
                sign_in_subject(),
                iat,
                exp,
            ),
        r matches Err(e) ==> e is InternalError,
{
    let sub = "aaa".to_owned();
    assert(sub@ == sign_in_subject());
    match helper.generate(sub) {
        Ok(t) => {
            let r = CaseResponse::ok(t);
            proof {
                let (iat, exp) = choose|iat: int, exp: int|
                    exp == iat + TOKEN_LIFETIME_SECS && t@ == #[trigger] hs256_token(
                        helper.key(),
                        sign_in_subject(),
                        iat,
                        exp,
                    );
                assert(r.data@ == hs256_token(helper.key(), sign_in_subject(), iat, exp));
            }
            Ok(r)
        },
        Err(_) => Err(AppError::InternalError("token could not be issued".to_owned())),
    }
}

/// Adds a company under `id`; the name was validated on the way in.
pub fn add_company(
    store: &mut OrgStore,
    id: u128,
    input: JsonParams<ReqAddCompanyDto>,
    user: &UserInfo,
) -> (r: Result<CaseResponse<String>, AppError>)
    requires
        well_formed(old(store)@),
    ensures
        well_formed(final(store)@),
        r is Ok <==> company_insert_ok(old(store)@, id, input.0.name@),
        r matches Ok(resp) ==> resp.status == STATUS_CREATED && resp.data@ == uuid_hyphenated(id)
            && final(store)@ == company_inserted(old(store)@, id, input.0.name@),
        r is Err ==> final(store)@ == old(store)@ && r->Err_0 matches AppError::Domain(
            DomainError::DbError(DbFailure::UniqueViolation(_)),
        ),
{
    let dto = input.0;
    match store.add_company(id, dto) {
        Ok(new_id) => Ok(CaseResponse::created(id_text(new_id))),
        Err(e) => Err(AppError::Domain(e)),
    }
}

/// Lists the companies that match the filter, in store order.
pub fn query_company(
    store: &OrgStore,
    input: QueryParams<ReqQueryCompanyDto>,
    user: &UserInfo,
) -> (r: Result<CaseResponse<Vec<ResQueryCompanyDto>>, AppError>)
    ensures
        r matches Ok(resp) ==> resp.status == STATUS_OK && res_view(resp.data@) == public_rows(
            listed(store@.companies, query_pattern(input.0)),
        ),
        r is Ok,
{
    let dto = input.0;
    Ok(CaseResponse::ok(store.query(&dto)))
}

/// The pre-check of adding a department: the owning company must be
/// present, else `RecordNotFound` naming its id.
pub fn company_check(found: bool, company_id: u128) -> (r: Result<(), DomainError>)
    ensures
        r is Ok <==> found,
        r matches Err(e) ==> (e matches DomainError::DbError(DbFailure::RecordNotFound(m)) && m@
            == "company with id: "@ + uuid_hyphenated(company_id) + " is not found"@),
{
    if found {
        return Ok(());
    }
    let mut m = "company with id: ".to_owned();
    let t = id_text(company_id);
    m.append(t.as_str());
    m.append(" is not found");
    Err(DomainError::DbError(DbFailure::RecordNotFound(m)))
}

fn department_work(store: &mut OrgStore, id: u128, dto: ReqAddDepartmentDto) -> (r: Result<
    u128,
    DomainError,
>)
    requires
        well_formed(old(store)@),
    ensures
        well_formed(final(store)@),
        r is Ok <==> department_insert_ok(old(store)@, id, dto.name@, dto.company_id),
        r is Ok ==> r->Ok_0 == id && final(store)@ == department_inserted(
            old(store)@,
            id,
            dto.name@,
            dto.company_id,
        ),
        r is Err ==> final(store)@ == old(store)@,
        !has_company(old(store)@, dto.company_id) ==> r matches Err(
            DomainError::DbError(DbFailure::RecordNotFound(_)),
        ),
        has_company(old(store)@, dto.company_id) && r is Err ==> r->Err_0 matches DomainError::DbError(
            DbFailure::UniqueViolation(_),
        ),
{
    let found = store.company_exists(dto.company_id);
    match company_check(found, dto.company_id) {
        Err(e) => {
            return Err(e);
        },
        Ok(()) => {},
    }
    store.add_department(id, dto)
}

proof fn lemma_extends_self(v: crate::store::StoreContents)
    ensures
        extends(v, v),
{
    assert(v.companies.subrange(0, v.companies.len() as int) =~= v.companies);
    assert(v.departments.subrange(0, v.departments.len() as int) =~= v.departments);
}

/// Adds a department under `id` inside one unit of work: the owning
/// company must be present, else `RecordNotFound` and nothing is written.
pub fn add_department(
    store: &mut OrgStore,
    id: u128,
    input: JsonParams<ReqAddDepartmentDto>,
    user: &UserInfo,
) -> (r: Result<CaseResponse<String>, AppError>)
    requires
        well_formed(old(store)@),
    ensures
        well_formed(final(store)@),
        r is Ok <==> department_insert_ok(old(store)@, id, input.0.name@, input.0.company_id),
        r matches Ok(resp) ==> resp.status == STATUS_CREATED && resp.data@ == uuid_hyphenated(id)
            && final(store)@ == department_inserted(
            old(store)@,
            id,
            input.0.name@,
            input.0.company_id,
        ),
        r is Err ==> final(store)@ == old(store)@,
        !has_company(old(store)@, input.0.company_id) ==> r matches Err(
            AppError::Domain(DomainError::DbError(DbFailure::RecordNotFound(_))),
        ),
        has_company(old(store)@, input.0.company_id) && r is Err ==> r->Err_0 matches AppError::Domain(
            DomainError::DbError(DbFailure::UniqueViolation(_)),
        ),
{
    let dto = input.0;
    let ghost name = dto.name@;
    let ghost cid = dto.company_id;
    let ghost v0 = store@;
    let mark = store.begin();
    let outcome = department_work(store, id, dto);
    match tx_action(&outcome) {
        TxAction::Commit => {
            proof {
                let v = store@;
                assert(v.companies.subrange(0, v0.companies.len() as int) =~= v0.companies);
                assert(v.departments.subrange(0, v0.departments.len() as int) =~= v0.departments);
            }
            store.commit(mark);
        },
        TxAction::Rollback => {
            proof {
                lemma_extends_self(v0);
            }
            store.rollback(mark);
        },
    }
    match outcome {
        Ok(new_id) => Ok(CaseResponse::created(id_text(new_id))),
        Err(e) => Err(AppError::Domain(e)),
    }
}

} // verus!
