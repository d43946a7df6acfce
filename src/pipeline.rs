use vstd::prelude::*;

use crate::auth::UserInfo;
use crate::cases::{add_company, add_department, query_company};
use crate::dto::{valid_name, ReqAddCompanyDto, ReqAddDepartmentDto, ReqQueryCompanyDto, ResQueryCompanyDto};
use crate::error::{AppError, STATUS_CONFLICT, STATUS_NOT_FOUND};
use crate::ids::{random_id, uuid_hyphenated};
use crate::response::{CaseResponse, STATUS_CREATED, STATUS_OK};
use crate::store::{
    company_inserted, company_insert_ok, department_insert_ok, department_inserted, has_company,
    has_company_name, has_department_name,
    listed, public_rows, query_pattern, res_view, well_formed, OrgStore,
};
use crate::validator::{JsonParams, QueryParams};

verus! {

/// `POST /companies` after authentication: the parsed body is validated,
/// then the company is added under `id`.
pub fn handle_add_company(
    store: &mut OrgStore,
    id: u128,
    parsed: Result<ReqAddCompanyDto, String>,
    user: &UserInfo,
) -> (r: Result<CaseResponse<String>, AppError>)
    requires
        well_formed(old(store)@),
    ensures
        well_formed(final(store)@),
        r is Err ==> final(store)@ == old(store)@,
        parsed is Err ==> (r matches Err(e) && e is JsonRejection),
        parsed is Ok ==> (r is Ok <==> valid_name(parsed->Ok_0.name@) && company_insert_ok(
            old(store)@,
            id,
            parsed->Ok_0.name@,
        )),
        parsed is Ok && !valid_name(parsed->Ok_0.name@) ==> (r matches Err(e)
            && e is ValidationError),
        parsed is Ok && valid_name(parsed->Ok_0.name@) && !company_insert_ok(
            old(store)@,
            id,
            parsed->Ok_0.name@,
        ) ==> (r matches Err(e) && e.http_status() == STATUS_CONFLICT),
        parsed is Ok && r is Ok ==> (r matches Ok(resp) && resp.status == STATUS_CREATED
            && resp.data@ == uuid_hyphenated(id) && final(store)@ == company_inserted(
            old(store)@,
            id,
            parsed->Ok_0.name@,
        )),
{
    match JsonParams::from_parsed(parsed) {
        Err(e) => Err(e),
        Ok(input) => add_company(store, id, input, user),
    }
}

/// `POST /companies` with a freshly drawn id.
pub fn handle_add_company_new(
    store: &mut OrgStore,
    parsed: Result<ReqAddCompanyDto, String>,
    user: &UserInfo,
) -> (r: Result<CaseResponse<String>, AppError>)
    requires
        well_formed(old(store)@),
    ensures
        well_formed(final(store)@),
        r is Err ==> final(store)@ == old(store)@,
        parsed is Err ==> (r matches Err(e) && e is JsonRejection),
        parsed is Ok && !valid_name(parsed->Ok_0.name@) ==> (r matches Err(e)
            && e is ValidationError),
        parsed is Ok && valid_name(parsed->Ok_0.name@) && has_company_name(
            old(store)@,
            parsed->Ok_0.name@,
        ) ==> (r matches Err(e) && e.http_status() == STATUS_CONFLICT),
        parsed is Ok && r is Ok ==> exists|id: u128|
            company_insert_ok(old(store)@, id, parsed->Ok_0.name@) && final(store)@ == #[trigger] company_inserted(
                old(store)@,
                id,
                parsed->Ok_0.name@,
            ) && r->Ok_0.data@ == uuid_hyphenated(id),
{
    let id = random_id();
    handle_add_company(store, id, parsed, user)
}

/// `GET /companies` after authentication and the role check.
pub fn handle_query_company(
    store: &OrgStore,
    parsed: Result<ReqQueryCompanyDto, String>,
    user: &UserInfo,
) -> (r: Result<CaseResponse<Vec<ResQueryCompanyDto>>, AppError>)
    ensures
        parsed is Err ==> (r matches Err(e) && e is QueryRejection),
        parsed is Ok ==> r is Ok,
        parsed matches Ok(q) ==> (r matches Ok(resp) && resp.status == STATUS_OK && res_view(
            resp.data@,
        ) == public_rows(listed(store@.companies, query_pattern(q)))),
{
    match QueryParams::from_parsed(parsed) {
        Err(e) => Err(e),
        Ok(input) => query_company(store, input, user),
    }
}

/// `POST /departments` after authentication: the parsed body is
/// validated, then the department is added under `id` in one unit of work.
pub fn handle_add_department(
    store: &mut OrgStore,
    id: u128,
    parsed: Result<ReqAddDepartmentDto, String>,
    user: &UserInfo,
) -> (r: Result<CaseResponse<String>, AppError>)
    requires
        well_formed(old(store)@),
    ensures
        well_formed(final(store)@),
        r is Err ==> final(store)@ == old(store)@,
        parsed is Err ==> (r matches Err(e) && e is JsonRejection),
        parsed is Ok ==> (r is Ok <==> valid_name(parsed->Ok_0.name@) && department_insert_ok(
            old(store)@,
            id,
            parsed->Ok_0.name@,
            parsed->Ok_0.company_id,
        )),
        parsed is Ok && !valid_name(parsed->Ok_0.name@) ==> (r matches Err(e)
            && e is ValidationError),
        parsed is Ok && valid_name(parsed->Ok_0.name@) && !has_company(
            old(store)@,
            parsed->Ok_0.company_id,
        ) ==> (r matches Err(e) && e.http_status() == STATUS_NOT_FOUND),
        parsed is Ok && valid_name(parsed->Ok_0.name@) && has_company(
            old(store)@,
            parsed->Ok_0.company_id,
        ) && has_department_name(old(store)@, parsed->Ok_0.name@) ==> (r matches Err(e)
            && e.http_status() == STATUS_CONFLICT),
        parsed is Ok && r is Ok ==> (r matches Ok(resp) && resp.status == STATUS_CREATED
            && resp.data@ == uuid_hyphenated(id) && final(store)@ == department_inserted(
            old(store)@,
            id,
            parsed->Ok_0.name@,
            parsed->Ok_0.company_id,
        )),
{
    match JsonParams::from_parsed(parsed) {
        Err(e) => Err(e),
        Ok(input) => add_department(store, id, input, user),
    }
}

/// `POST /departments` with a freshly drawn id.
pub fn handle_add_department_new(
    store: &mut OrgStore,
    parsed: Result<ReqAddDepartmentDto, String>,
    user: &UserInfo,
) -> (r: Result<CaseResponse<String>, AppError>)
    requires
        well_formed(old(store)@),
    ensures
        well_formed(final(store)@),
        r is Err ==> final(store)@ == old(store)@,
        parsed is Err ==> (r matches Err(e) && e is JsonRejection),
        parsed is Ok && !valid_name(parsed->Ok_0.name@) ==> (r matches Err(e)
            && e is ValidationError),
        parsed is Ok && valid_name(parsed->Ok_0.name@) && !has_company(
            old(store)@,
            parsed->Ok_0.company_id,
        ) ==> (r matches Err(e) && e.http_status() == STATUS_NOT_FOUND),
        parsed is Ok && valid_name(parsed->Ok_0.name@) && has_company(
            old(store)@,
            parsed->Ok_0.company_id,
        ) && has_department_name(old(store)@, parsed->Ok_0.name@) ==> (r matches Err(e)
            && e.http_status() == STATUS_CONFLICT),
        parsed is Ok && valid_name(parsed->Ok_0.name@) && has_company(
            old(store)@,
            parsed->Ok_0.company_id,
        ) && !has_department_name(old(store)@, parsed->Ok_0.name@) && r is Err
            ==> old(store)@.departments.len() > 0,
        parsed is Ok && r is Ok ==> exists|id: u128|
            department_insert_ok(old(store)@, id, parsed->Ok_0.name@, parsed->Ok_0.company_id)
                && final(store)@ == #[trigger] department_inserted(
                old(store)@,
                id,
                parsed->Ok_0.name@,
                parsed->Ok_0.company_id,
            ) && r->Ok_0.data@ == uuid_hyphenated(id),
{
    let id = random_id();
    handle_add_department(store, id, parsed, user)
}

} // verus!
