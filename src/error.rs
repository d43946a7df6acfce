use vstd::prelude::*;

verus! {

/// A storage failure, as the repository layer reports it.
pub enum DbFailure {
    /// A record that the operation needed is absent.
    RecordNotFound(String),
    /// An insert that the storage accepted but did not carry out.
    RecordNotInserted(String),
    /// An insert or update that would break a uniqueness constraint.
    UniqueViolation(String),
    /// Any other failure of the storage driver.
    Other(String),
}

impl DbFailure {
    pub open spec fn text(self) -> Seq<char> {
        match self {
            DbFailure::RecordNotFound(m) => m@,
            DbFailure::RecordNotInserted(m) => m@,
            DbFailure::UniqueViolation(m) => m@,
            DbFailure::Other(m) => m@,
        }
    }
}

/// An error raised below the application layer.
pub enum DomainError {
    DbError(DbFailure),
    /// A use-case specific failure: status, code and message.
    CaseError(u16, String, String),
}

/// One violated field constraint.
pub struct FieldError {
    pub field: String,
    pub message: String,
}

/// Every constraint violation found in one input value.
pub struct ValidationErrors {
    pub errors: Vec<FieldError>,
}

pub open spec fn field_error_text(e: FieldError) -> Seq<char> {
    e.field@ + ": "@ + e.message@
}

/// The violations joined by `"; "`, each as `field: message`.
pub open spec fn errors_text(es: Seq<FieldError>) -> Seq<char>
    decreases es.len(),
{
    if es.len() == 0 {
        Seq::empty()
    } else if es.len() == 1 {
        field_error_text(es[0])
    } else {
        errors_text(es.drop_last()) + "; "@ + field_error_text(es.last())
    }
}

impl ValidationErrors {
    pub fn text(&self) -> (r: String)
        ensures
            r@ == errors_text(self.errors@),
    {
        let mut s = String::new();
        let n = self.errors.len();
        let mut i: usize = 0;
        while i < n
            invariant
                n == self.errors@.len(),
                i <= n,
                s@ == errors_text(self.errors@.take(i as int)),
            decreases n - i,
        {
            let e = &self.errors[i];
            proof {
                let t = self.errors@.take(i as int + 1);
                assert(t.drop_last() =~= self.errors@.take(i as int));
                assert(t.last() == self.errors@[i as int]);
                if i == 0 {
                    assert(self.errors@.take(0) =~= Seq::<FieldError>::empty());
                }
            }
            if i > 0 {
                s.append("; ");
            }
            s.append(e.field.as_str());
            s.append(": ");
            s.append(e.message.as_str());
            proof {
                let t = self.errors@.take(i as int + 1);
                if i == 0 {
                    assert(s@ =~= field_error_text(t[0]));
                } else {
                    assert(s@ =~= errors_text(t.drop_last()) + "; "@ + field_error_text(t.last()));
                }
            }
            i = i + 1;
        }
        proof {
            assert(self.errors@.take(n as int) =~= self.errors@);
        }
        s
    }
}

/// Every way a request can fail.
pub enum AppError {
    /// The input parsed but broke a field constraint.
    ValidationError(ValidationErrors),
    FormRejection(String),
    PathRejection(String),
    QueryRejection(String),
    JsonRejection(String),
    Domain(DomainError),
    InternalError(String),
    UnAuthorized(String),
    Forbidden(String),
}

pub const STATUS_BAD_REQUEST: u16 = 400;

pub const STATUS_UNAUTHORIZED: u16 = 401;

pub const STATUS_FORBIDDEN: u16 = 403;

pub const STATUS_NOT_FOUND: u16 = 404;

pub const STATUS_CONFLICT: u16 = 409;

pub const STATUS_INTERNAL_SERVER_ERROR: u16 = 500;

impl AppError {
    /// The status of the HTTP response.
    pub open spec fn http_status(self) -> u16 {
        match self {
            AppError::ValidationError(_) => STATUS_BAD_REQUEST,
            AppError::FormRejection(_) => STATUS_BAD_REQUEST,
            AppError::PathRejection(_) => STATUS_BAD_REQUEST,
            AppError::QueryRejection(_) => STATUS_BAD_REQUEST,
            AppError::JsonRejection(_) => STATUS_BAD_REQUEST,
            AppError::Domain(DomainError::DbError(DbFailure::RecordNotFound(_))) => STATUS_NOT_FOUND,
            AppError::Domain(DomainError::DbError(DbFailure::RecordNotInserted(_))) => STATUS_CONFLICT,
            AppError::Domain(DomainError::DbError(DbFailure::UniqueViolation(_))) => STATUS_CONFLICT,
            AppError::Domain(DomainError::DbError(DbFailure::Other(_))) => STATUS_INTERNAL_SERVER_ERROR,
            AppError::Domain(DomainError::CaseError(s, _, _)) => s,
            AppError::InternalError(_) => STATUS_INTERNAL_SERVER_ERROR,
            AppError::UnAuthorized(_) => STATUS_UNAUTHORIZED,
            AppError::Forbidden(_) => STATUS_UNAUTHORIZED,
        }
    }

    /// The status written into the response body; it differs from the
    /// HTTP status only for `Forbidden`, whose body carries 403.
    pub open spec fn body_status(self) -> u16 {
        match self {
            AppError::Forbidden(_) => STATUS_FORBIDDEN,
            _ => self.http_status(),
        }
    }

    pub open spec fn code(self) -> Seq<char> {
        match self {
            AppError::ValidationError(_) => "INPUT_VALIDATE_FAIL"@,
            AppError::FormRejection(_) => "INPUT_PARSE_FAIL"@,
            AppError::PathRejection(_) => "INPUT_PARSE_FAIL"@,
            AppError::QueryRejection(_) => "INPUT_PARSE_FAIL"@,
            AppError::JsonRejection(_) => "INPUT_PARSE_FAIL"@,
            AppError::Domain(DomainError::DbError(DbFailure::Other(_))) => "DB_ERROR"@,
            AppError::Domain(DomainError::DbError(DbFailure::RecordNotFound(_))) => "DATA_NOT_FOUND"@,
            AppError::Domain(DomainError::DbError(_)) => "DATA_DUPPLICATED"@,
            AppError::Domain(DomainError::CaseError(_, c, _)) => c@,
            AppError::InternalError(_) => "UNKNOWN_INTERNAL_ERROR"@,
            AppError::UnAuthorized(_) => "UNAUTHORIZED"@,
            AppError::Forbidden(_) => "FORBIDDEN"@,
        }
    }

    pub open spec fn message(self) -> Seq<char> {
        match self {
            AppError::ValidationError(v) => errors_text(v.errors@),
            AppError::FormRejection(m) => m@,
            AppError::PathRejection(m) => m@,
            AppError::QueryRejection(m) => m@,
            AppError::JsonRejection(m) => m@,
            AppError::Domain(DomainError::DbError(f)) => f.text(),
            AppError::Domain(DomainError::CaseError(_, _, m)) => m@,
            AppError::InternalError(m) => m@,
            AppError::UnAuthorized(m) => m@,
            AppError::Forbidden(m) => m@,
        }
    }

    /// Whether the failure is logged server-side before the response goes
    /// out: all but the authentication and authorization failures.
    pub fn is_logged(&self) -> (r: bool)
        ensures
            r == !(self is UnAuthorized || self is Forbidden),
    {
        match self {
            AppError::UnAuthorized(_) | AppError::Forbidden(_) => false,
            _ => true,
        }
    }

    /// Maps the error to its HTTP status and structured body.
    pub fn into_response(self) -> (r: ErrorResponse)
        ensures
            r.status == self.http_status(),
            r.body.status_code == self.body_status(),
            r.body.data.code@ == self.code(),
            r.body.data.message@ == self.message(),
    {
        match self {
            AppError::Forbidden(c) => ErrorResponse::new(
                STATUS_UNAUTHORIZED,
                STATUS_FORBIDDEN,
                ErrorData::new("FORBIDDEN", c.as_str()),
            ),
            AppError::UnAuthorized(c) => ErrorResponse::new(
                STATUS_UNAUTHORIZED,
                STATUS_UNAUTHORIZED,
                ErrorData::new("UNAUTHORIZED", c.as_str()),
            ),
            AppError::ValidationError(v) => {
                let text = v.text();
                ErrorResponse::new(
                    STATUS_BAD_REQUEST,
                    STATUS_BAD_REQUEST,
                    ErrorData::new("INPUT_VALIDATE_FAIL", text.as_str()),
                )
            },
            AppError::FormRejection(m)
            | AppError::PathRejection(m)
            | AppError::QueryRejection(m)
            | AppError::JsonRejection(m) => ErrorResponse::new(
                STATUS_BAD_REQUEST,
                STATUS_BAD_REQUEST,
                ErrorData::new("INPUT_PARSE_FAIL", m.as_str()),
            ),
            AppError::Domain(DomainError::DbError(f)) => match f {
                DbFailure::RecordNotFound(m) => ErrorResponse::new(
                    STATUS_NOT_FOUND,
                    STATUS_NOT_FOUND,
                    ErrorData::new("DATA_NOT_FOUND", m.as_str()),
                ),
                DbFailure::RecordNotInserted(m) | DbFailure::UniqueViolation(m) =>
                    ErrorResponse::new(
                    STATUS_CONFLICT,
                    STATUS_CONFLICT,
                    ErrorData::new("DATA_DUPPLICATED", m.as_str()),
                ),
                DbFailure::Other(m) => ErrorResponse::new(
                    STATUS_INTERNAL_SERVER_ERROR,
                    STATUS_INTERNAL_SERVER_ERROR,
                    ErrorData::new("DB_ERROR", m.as_str()),
                ),
            },
            AppError::Domain(DomainError::CaseError(s, c, m)) => ErrorResponse::new(
                s,
                s,
                ErrorData::new(c.as_str(), m.as_str()),
            ),
            AppError::InternalError(m) => ErrorResponse::new(
                STATUS_INTERNAL_SERVER_ERROR,
                STATUS_INTERNAL_SERVER_ERROR,
                ErrorData::new("UNKNOWN_INTERNAL_ERROR", m.as_str()),
            ),
        }
    }
}

/// The `data` part of an error body.
pub struct ErrorData {
    pub code: String,
    pub message: String,
}

impl ErrorData {
    pub fn new(code: &str, message: &str) -> (r: Self)
        ensures
            r.code@ == code@,
            r.message@ == message@,
    {
        ErrorData { code: code.to_owned(), message: message.to_owned() }
    }
}

/// The JSON body of every response: a status and a payload.
pub struct ResponseBody<T> {
    pub status_code: u16,
    pub data: T,
}

impl<T> ResponseBody<T> {
    pub fn new(status_code: u16, data: T) -> (r: Self)
        ensures
            r.status_code == status_code,
            r.data == data,
    {
        ResponseBody { status_code, data }
    }
}

/// An error as it goes out: the HTTP status and the body.
pub struct ErrorResponse {
    pub status: u16,
    pub body: ResponseBody<ErrorData>,
}

impl ErrorResponse {
    pub fn new(status: u16, body_status: u16, data: ErrorData) -> (r: Self)
        ensures
            r.status == status,
            r.body.status_code == body_status,
            r.body.data == data,
    {
        ErrorResponse { status, body: ResponseBody::new(body_status, data) }
    }
}

} // verus!
