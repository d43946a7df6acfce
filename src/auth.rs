use vstd::prelude::*;

use crate::error::{AppError, STATUS_FORBIDDEN, STATUS_UNAUTHORIZED};
use crate::text::{chars_of, matches_at};
use crate::token::{dot_count, subject_of_token, JwtHelper};

verus! {

/// The authenticated principal of a request.
#[derive(Clone, Debug)]
pub struct UserInfo {
    pub id: String,
}

/// The outcome of reading a request's credentials.
pub enum AuthStatus {
    Authenticated(UserInfo),
    Anonymous,
}

/// The token of an `Authorization` header value of the form `Bearer <token>`.
pub open spec fn bearer_token(h: Seq<char>) -> Option<Seq<char>> {
    let p = "Bearer "@;
    if p.len() <= h.len() && h.subrange(0, p.len() as int) == p {
        Some(h.subrange(p.len() as int, h.len() as int))
    } else {
        None
    }
}

pub open spec fn unauthorized_message() -> Seq<char> {
    "token invalid or expired."@
}

pub open spec fn forbidden_message() -> Seq<char> {
    "miss.permission"@
}

fn strip_bearer(h: &str) -> (r: Option<String>)
    ensures
        r is None <==> bearer_token(h@) is None,
        r matches Some(t) ==> bearer_token(h@) == Some(t@),
{
    let s = chars_of(h);
    let p = chars_of("Bearer ");
    if p.len() > s.len() {
        return None;
    }
    if !matches_at(&s, &p, 0) {
        return None;
    }
    let n = h.unicode_len();
    Some(h.substring_char(p.len(), n).to_owned())
}

/// Reads the principal from an `Authorization` header value: present only
/// when the value is `Bearer <token>` and the token verifies.
pub fn auth_status(helper: &JwtHelper, header: Option<&str>) -> (r: AuthStatus)
    ensures
        header is None ==> r is Anonymous,
        header matches Some(h) && bearer_token(h@) is None ==> r is Anonymous,
        header matches Some(h) && bearer_token(h@) matches Some(t) && dot_count(t) < 2
            ==> r is Anonymous,
        r matches AuthStatus::Authenticated(u) ==> header is Some && bearer_token(
            header->Some_0@,
        ) is Some && subject_of_token(
            helper.key(),
            bearer_token(header->Some_0@)->Some_0,
            u.id@,
        ),
{
    match header {
        None => AuthStatus::Anonymous,
        Some(h) => match strip_bearer(h) {
            None => AuthStatus::Anonymous,
            Some(t) => match helper.validate(t.as_str()) {
                Ok(v) => AuthStatus::Authenticated(UserInfo { id: v }),
                Err(_) => AuthStatus::Anonymous,
            },
        },
    }
}

/// The authentication step of a secured route: the principal, or
/// `UnAuthorized` when the credentials are absent or do not verify.
pub fn authenticate(helper: &JwtHelper, header: Option<&str>) -> (r: Result<UserInfo, AppError>)
    ensures
        header is None ==> r is Err,
        header matches Some(h) && bearer_token(h@) is None ==> r is Err,
        r matches Err(e) ==> (e matches AppError::UnAuthorized(m) && m@ == unauthorized_message()),
        r matches Ok(u) ==> header is Some && bearer_token(header->Some_0@) is Some
            && subject_of_token(helper.key(), bearer_token(header->Some_0@)->Some_0, u.id@),
{
    match auth_status(helper, header) {
        AuthStatus::Anonymous => Err(AppError::UnAuthorized("token invalid or expired.".to_owned())),
        AuthStatus::Authenticated(u) => Ok(u),
    }
}

/// The role step of a route that names required roles. A principal
/// carries no roles yet, so the step admits every authenticated principal
/// and refuses a request without one with `Forbidden`.
pub fn check_roles(user: Option<&UserInfo>, required_roles: &Vec<String>) -> (r: Result<(), AppError>)
    ensures
        r is Ok <==> user is Some,
        r matches Err(e) ==> (e matches AppError::Forbidden(m) && m@ == forbidden_message()),
{
    match user {
        None => Err(AppError::Forbidden("miss.permission".to_owned())),
        Some(_) => Ok(()),
    }
}

/// Failed authentication and failed authorization both answer 401, with
/// the codes `UNAUTHORIZED` and `FORBIDDEN`; the body of the latter
/// carries 403.
pub proof fn lemma_auth_failures_answer_401(e: AppError)
    requires
        e is UnAuthorized || e is Forbidden,
    ensures
        e.http_status() == STATUS_UNAUTHORIZED,
        e is UnAuthorized ==> e.code() == "UNAUTHORIZED"@ && e.body_status() == STATUS_UNAUTHORIZED,
        e is Forbidden ==> e.code() == "FORBIDDEN"@ && e.body_status() == STATUS_FORBIDDEN,
{
}

} // verus!
