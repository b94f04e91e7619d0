//! The error taxonomy of the HTTP layer, and how each error is reported.
use vstd::prelude::*;
use vstd::string::StringExecFns;

verus! {

/// The HTTP statuses that the library's outcomes map to.
#[derive(Clone, Copy, Debug, PartialEq, Eq, Structural)]
pub enum Status {
    BadRequest,
    Unauthorized,
    NotFound,
    InternalServerError,
    ServiceUnavailable,
}

impl Status {
    pub open spec fn spec_code(self) -> u16 {
        match self {
            Status::BadRequest => 400,
            Status::Unauthorized => 401,
            Status::NotFound => 404,
            Status::InternalServerError => 500,
            Status::ServiceUnavailable => 503,
        }
    }

    pub open spec fn reason_text(self) -> Seq<char> {
        match self {
            Status::BadRequest => "Bad Request"@,
            Status::Unauthorized => "Unauthorized"@,
            Status::NotFound => "Not Found"@,
            Status::InternalServerError => "Internal Server Error"@,
            Status::ServiceUnavailable => "Service Unavailable"@,
        }
    }

    pub fn code(&self) -> (r: u16)
        ensures
            r == self.spec_code(),
    {
        match self {
            Status::BadRequest => 400,
            Status::Unauthorized => 401,
            Status::NotFound => 404,
            Status::InternalServerError => 500,
            Status::ServiceUnavailable => 503,
        }
    }

    /// The standard reason phrase.
    pub fn reason(&self) -> (r: String)
        ensures
            r@ == self.reason_text(),
    {
        match self {
            Status::BadRequest => String::from_str("Bad Request"),
            Status::Unauthorized => String::from_str("Unauthorized"),
            Status::NotFound => String::from_str("Not Found"),
            Status::InternalServerError => String::from_str("Internal Server Error"),
            Status::ServiceUnavailable => String::from_str("Service Unavailable"),
        }
    }
}

/// The body of an error reply.
#[derive(Debug)]
pub struct ErrorResponse {
    pub error: String,
    pub message: String,
}

#[derive(Debug)]
pub enum Error {
    BadRequest(String),
    Unauthorized(String),
    NotFound(String),
    ValidationError(String),
    DatabaseError(String),
    Internal(String),
}

impl Error {
    pub open spec fn spec_status(&self) -> Status {
        match self {
            Error::BadRequest(_) | Error::ValidationError(_) => Status::BadRequest,
            Error::Unauthorized(_) => Status::Unauthorized,
            Error::NotFound(_) => Status::NotFound,
            Error::DatabaseError(_) | Error::Internal(_) => Status::InternalServerError,
        }
    }

    /// The error's text: its kind, then its detail.
    pub open spec fn text(&self) -> Seq<char> {
        match self {
            Error::BadRequest(m) => "Bad request: "@ + m@,
            Error::Unauthorized(m) => "Unauthorized: "@ + m@,
            Error::NotFound(m) => "Not found: "@ + m@,
            Error::ValidationError(m) => "Validation error: "@ + m@,
            Error::DatabaseError(m) => "Database error: "@ + m@,
            Error::Internal(m) => "Internal error: "@ + m@,
        }
    }

    pub fn status(&self) -> (r: Status)
        ensures
            r == self.spec_status(),
    {
        match self {
            Error::BadRequest(_) | Error::ValidationError(_) => Status::BadRequest,
            Error::Unauthorized(_) => Status::Unauthorized,
            Error::NotFound(_) => Status::NotFound,
            Error::DatabaseError(_) | Error::Internal(_) => Status::InternalServerError,
        }
    }

    pub fn message(&self) -> (r: String)
        ensures
            r@ == self.text(),
    {
        match self {
            Error::BadRequest(m) => String::from_str("Bad request: ").concat(m.as_str()),
            Error::Unauthorized(m) => String::from_str("Unauthorized: ").concat(m.as_str()),
            Error::NotFound(m) => String::from_str("Not found: ").concat(m.as_str()),
            Error::ValidationError(m) => String::from_str("Validation error: ").concat(m.as_str()),
            Error::DatabaseError(m) => String::from_str("Database error: ").concat(m.as_str()),
            Error::Internal(m) => String::from_str("Internal error: ").concat(m.as_str()),
        }
    }

    /// The reply body: the status's reason phrase and the error's text.
    pub fn to_response(&self) -> (r: ErrorResponse)
        ensures
            r.error@ == self.spec_status().reason_text(),
            r.message@ == self.text(),
    {
        let status = self.status();
        ErrorResponse { error: status.reason(), message: self.message() }
    }
}

} // verus!
