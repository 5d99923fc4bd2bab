use vstd::prelude::*;

verus! {

/// The failures a request can end in.
#[derive(Clone, Copy, Debug, PartialEq, Eq, Structural)]
pub enum ApiError {
    /// No credential, or one that cannot be decoded.
    Unauthenticated,
    /// A valid credential without the permission the endpoint asks for.
    Unauthorized,
    /// The resource is absent, or a read failed.
    NotFound,
    /// An ambiguous credential, or a write failed.
    BadRequest,
    /// No connection to the store could be had.
    ServiceUnavailable,
}

pub open spec fn status_code_of(e: ApiError) -> u16 {
    match e {
        ApiError::Unauthenticated => 401,
        ApiError::Unauthorized => 401,
        ApiError::NotFound => 404,
        ApiError::BadRequest => 400,
        ApiError::ServiceUnavailable => 503,
    }
}

impl ApiError {
    /// The HTTP status code a response carries for this failure.
    pub fn status_code(&self) -> (r: u16)
        ensures
            r == status_code_of(*self),
    {
        match self {
            ApiError::Unauthenticated => 401,
            ApiError::Unauthorized => 401,
            ApiError::NotFound => 404,
            ApiError::BadRequest => 400,
            ApiError::ServiceUnavailable => 503,
        }
    }
}

} // verus!
