//! HTTP error answers of the server.

use vstd::prelude::*;

verus! {

/// The HTTP statuses that the server answers errors with.
#[derive(PartialEq, Eq, Structural, Clone, Copy, Debug)]
pub enum HttpStatus {
    BadRequest,
    NotFound,
    InternalServerError,
}

impl HttpStatus {
    /// The numeric status code.
    pub fn code(&self) -> (c: u16)
        ensures
            c == match self {
                HttpStatus::BadRequest => 400u16,
                HttpStatus::NotFound => 404u16,
                HttpStatus::InternalServerError => 500u16,
            },
    {
        match self {
            HttpStatus::BadRequest => 400,
            HttpStatus::NotFound => 404,
            HttpStatus::InternalServerError => 500,
        }
    }
}

/// An error answer: a status and the text of the body.
pub struct HttpError {
    pub status: HttpStatus,
    pub message: String,
}

} // verus!
