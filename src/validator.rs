use vstd::prelude::*;

use crate::error::{AppError, ValidationErrors};

verus! {

/// Field-level constraints of an input type.
pub trait Validate {
    spec fn is_valid(&self) -> bool;

    /// `e` is what `validate` reports for this value.
    spec fn reports(&self, e: ValidationErrors) -> bool;

    fn validate(&self) -> (r: Result<(), ValidationErrors>)
        ensures
            r is Ok <==> self.is_valid(),
            r matches Err(e) ==> self.reports(e),
    ;
}

/// The value, or the violations it breaks as a `ValidationError`.
pub open spec fn checked_ok<T: Validate>(v: T, r: Result<T, AppError>) -> bool {
    &&& r is Ok <==> v.is_valid()
    &&& r matches Ok(w) ==> w == v
    &&& r matches Err(e) ==> (e matches AppError::ValidationError(x) && v.reports(x))
}

fn checked<T: Validate>(v: T) -> (r: Result<T, AppError>)
    ensures
        checked_ok(v, r),
{
    match v.validate() {
        Ok(()) => Ok(v),
        Err(e) => Err(AppError::ValidationError(e)),
    }
}

pub open spec fn reports_violation<T: Validate>(v: T, e: AppError) -> bool {
    match e {
        AppError::ValidationError(x) => v.reports(x),
        _ => false,
    }
}

/// The outcome of one extraction step: a parse failure becomes the
/// rejection `reject`, a value that breaks a constraint a validation
/// error, and a valid value is the one the result carries as `part`.
pub open spec fn step_ok<T: Validate, S>(
    parsed: Result<T, String>,
    reject: spec_fn(String) -> AppError,
    r: Result<S, AppError>,
    part: spec_fn(S) -> T,
) -> bool {
    match (parsed, r) {
        (Err(m), Err(e)) => e == reject(m),
        (Err(_), Ok(_)) => false,
        (Ok(v), Ok(x)) => v.is_valid() && part(x) == v,
        (Ok(v), Err(e)) => !v.is_valid() && reports_violation(v, e),
    }
}

/// The input parsed and meets its constraints.
pub open spec fn parsed_valid<T: Validate>(parsed: Result<T, String>) -> bool {
    match parsed {
        Ok(v) => v.is_valid(),
        Err(_) => false,
    }
}

pub open spec fn form_rejection(m: String) -> AppError {
    AppError::FormRejection(m)
}

pub open spec fn path_rejection(m: String) -> AppError {
    AppError::PathRejection(m)
}

pub open spec fn query_rejection(m: String) -> AppError {
    AppError::QueryRejection(m)
}

pub open spec fn json_rejection(m: String) -> AppError {
    AppError::JsonRejection(m)
}

/// A validated form body.
pub struct FormParams<T>(pub T);

/// Validated path segments.
pub struct PathParams<T>(pub T);

/// A validated JSON body.
pub struct JsonParams<T>(pub T);

/// A validated query string.
pub struct QueryParams<T>(pub T);

impl<T: Validate> FormParams<T> {
    /// Accepts the parsed form body when it is valid.
    pub fn from_parsed(parsed: Result<T, String>) -> (r: Result<Self, AppError>)
        ensures
            step_ok(parsed, |m| form_rejection(m), r, |x: Self| x.0),
    {
        match parsed {
            Err(m) => Err(AppError::FormRejection(m)),
            Ok(v) => match checked(v) {
                Ok(w) => Ok(FormParams(w)),
                Err(e) => Err(e),
            },
        }
    }
}

impl<T: Validate> PathParams<T> {
    /// Accepts the parsed path segments when they are valid.
    pub fn from_parsed(parsed: Result<T, String>) -> (r: Result<Self, AppError>)
        ensures
            step_ok(parsed, |m| path_rejection(m), r, |x: Self| x.0),
    {
        match parsed {
            Err(m) => Err(AppError::PathRejection(m)),
            Ok(v) => match checked(v) {
                Ok(w) => Ok(PathParams(w)),
                Err(e) => Err(e),
            },
        }
    }
}

impl<T: Validate> JsonParams<T> {
    /// Accepts the parsed JSON body when it is valid.
    pub fn from_parsed(parsed: Result<T, String>) -> (r: Result<Self, AppError>)
        ensures
            step_ok(parsed, |m| json_rejection(m), r, |x: Self| x.0),
    {
        match parsed {
            Err(m) => Err(AppError::JsonRejection(m)),
            Ok(v) => match checked(v) {
                Ok(w) => Ok(JsonParams(w)),
                Err(e) => Err(e),
            },
        }
    }
}

impl<T: Validate> QueryParams<T> {
    /// Accepts the parsed query string when it is valid.
    pub fn from_parsed(parsed: Result<T, String>) -> (r: Result<Self, AppError>)
        ensures
            step_ok(parsed, |m| query_rejection(m), r, |x: Self| x.0),
    {
        match parsed {
            Err(m) => Err(AppError::QueryRejection(m)),
            Ok(v) => match checked(v) {
                Ok(w) => Ok(QueryParams(w)),
                Err(e) => Err(e),
            },
        }
    }
}

/// Validated path segments, query string and JSON body.
pub struct AllParams<P, Q, B> {
    pub p: P,
    pub q: Q,
    pub b: B,
}

impl<P: Validate, Q: Validate, B: Validate> AllParams<P, Q, B> {
    /// Takes the path, then the query, then the body, each parsed and then
    /// validated; the first failure is the result.
    pub fn from_parsed(p: Result<P, String>, q: Result<Q, String>, b: Result<B, String>) -> (r:
        Result<Self, AppError>)
        ensures
            r is Ok <==> parsed_valid(p) && parsed_valid(q) && parsed_valid(b),
            r matches Ok(x) ==> p == Ok::<P, String>(x.p) && q == Ok::<Q, String>(x.q) && b == Ok::<
                B,
                String,
            >(x.b),
            !parsed_valid(p) ==> step_ok(p, |m| path_rejection(m), r, |x: Self| x.p),
            parsed_valid(p) && !parsed_valid(q) ==> step_ok(
                q,
                |m| query_rejection(m),
                r, |x: Self| x.q,
            ),
            parsed_valid(p) && parsed_valid(q) && !parsed_valid(b) ==> step_ok(
                b,
                |m| json_rejection(m),
                r, |x: Self| x.b,
            ),
    {
        let pv = match p {
            Err(m) => {
                return Err(AppError::PathRejection(m));
            },
            Ok(v) => checked(v)?,
        };
        let qv = match q {
            Err(m) => {
                return Err(AppError::QueryRejection(m));
            },
            Ok(v) => checked(v)?,
        };
        let bv = match b {
            Err(m) => {
                return Err(AppError::JsonRejection(m));
            },
            Ok(v) => checked(v)?,
        };
        Ok(AllParams { p: pv, q: qv, b: bv })
    }
}

/// Validated path segments and JSON body.
pub struct PathAndJsonParams<P, B> {
    pub p: P,
    pub b: B,
}

impl<P: Validate, B: Validate> PathAndJsonParams<P, B> {
    /// Takes the path, then the body, each parsed and then validated; the
    /// first failure is the result.
    pub fn from_parsed(p: Result<P, String>, b: Result<B, String>) -> (r: Result<Self, AppError>)
        ensures
            r is Ok <==> parsed_valid(p) && parsed_valid(b),
            r matches Ok(x) ==> p == Ok::<P, String>(x.p) && b == Ok::<B, String>(x.b),
            !parsed_valid(p) ==> step_ok(p, |m| path_rejection(m), r, |x: Self| x.p),
            parsed_valid(p) && !parsed_valid(b) ==> step_ok(
                b,
                |m| json_rejection(m),
                r, |x: Self| x.b,
            ),
    {
        let pv = match p {
            Err(m) => {
                return Err(AppError::PathRejection(m));
            },
            Ok(v) => checked(v)?,
        };
        let bv = match b {
            Err(m) => {
                return Err(AppError::JsonRejection(m));
            },
            Ok(v) => checked(v)?,
        };
        Ok(PathAndJsonParams { p: pv, b: bv })
    }
}

/// Validated query string and JSON body.
pub struct QueryAndJsonParams<Q, B> {
    pub q: Q,
    pub b: B,
}

impl<Q: Validate, B: Validate> QueryAndJsonParams<Q, B> {
    /// Takes the query, then the body, each parsed and then validated; the
    /// first failure is the result.
    pub fn from_parsed(q: Result<Q, String>, b: Result<B, String>) -> (r: Result<Self, AppError>)
        ensures
            r is Ok <==> parsed_valid(q) && parsed_valid(b),
            r matches Ok(x) ==> q == Ok::<Q, String>(x.q) && b == Ok::<B, String>(x.b),
            !parsed_valid(q) ==> step_ok(q, |m| query_rejection(m), r, |x: Self| x.q),
            parsed_valid(q) && !parsed_valid(b) ==> step_ok(
                b,
                |m| json_rejection(m),
                r, |x: Self| x.b,
            ),
    {
        let qv = match q {
            Err(m) => {
                return Err(AppError::QueryRejection(m));
            },
            Ok(v) => checked(v)?,
        };
        let bv = match b {
            Err(m) => {
                return Err(AppError::JsonRejection(m));
            },
            Ok(v) => checked(v)?,
        };
        Ok(QueryAndJsonParams { q: qv, b: bv })
    }
}

} // verus!
