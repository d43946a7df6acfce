use vstd::prelude::*;

verus! {

/// HTTP status for a successful read.
pub const STATUS_OK: u16 = 200;

/// HTTP status for a successful creation.
pub const STATUS_CREATED: u16 = 201;

/// HTTP status for a success without payload.
pub const STATUS_NO_CONTENT: u16 = 204;

/// The success value of a use case: the payload and the status it asks for.
pub struct CaseResponse<T> {
    pub status: u16,
    pub data: T,
}

impl<T> CaseResponse<T> {
    pub fn ok(data: T) -> (r: Self)
        ensures
            r.status == STATUS_OK,
            r.data == data,
    {
        CaseResponse { status: STATUS_OK, data }
    }

    pub fn created(data: T) -> (r: Self)
        ensures
            r.status == STATUS_CREATED,
            r.data == data,
    {
        CaseResponse { status: STATUS_CREATED, data }
    }

    pub fn no_content() -> (r: CaseResponse<()>)
        ensures
            r.status == STATUS_NO_CONTENT,
    {
        CaseResponse { status: STATUS_NO_CONTENT, data: () }
    }
}

} // verus!
