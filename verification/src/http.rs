//! The HTTP answers that the handlers decide on.
use vstd::prelude::*;

verus! {

/// The status codes the handlers answer with (`Success` is 200 OK).
#[derive(Clone, Copy, Debug, PartialEq, Eq, Structural)]
pub enum HttpStatus {
    Success,
    SeeOther,
    BadRequest,
    Unauthorized,
    InternalServerError,
}

impl HttpStatus {
    /// The numeric status code.
    pub open spec fn status_code(self) -> u16 {
        match self {
            HttpStatus::Success => 200,
            HttpStatus::SeeOther => 303,
            HttpStatus::BadRequest => 400,
            HttpStatus::Unauthorized => 401,
            HttpStatus::InternalServerError => 500,
        }
    }

    /// The numeric status code.
    pub fn code(&self) -> (c: u16)
        ensures
            c == self.status_code(),
    {
        match self {
            HttpStatus::Success => 200,
            HttpStatus::SeeOther => 303,
            HttpStatus::BadRequest => 400,
            HttpStatus::Unauthorized => 401,
            HttpStatus::InternalServerError => 500,
        }
    }
}

} // verus!
