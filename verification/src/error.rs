use vstd::prelude::*;

verus! {

/// The class of a failed request; each maps to one HTTP status.
#[derive(Debug, Clone, Copy, PartialEq, Eq, Structural)]
pub enum ErrorKind {
    Unauthorized,
    Forbidden,
    NotFound,
    Conflict,
    UnprocessableEntity,
    InternalServerError,
}

/// An error that ends a request, with the message shown to the client.
#[derive(Debug)]
pub enum RequestError {
    Unauthorized(String),
    Forbidden(String),
    NotFound(String),
    Conflict(String),
    UnprocessableEntity(String),
    InternalServerError(String),
}

impl RequestError {
    pub open spec fn kind(&self) -> ErrorKind {
        match self {
            RequestError::Unauthorized(_) => ErrorKind::Unauthorized,
            RequestError::Forbidden(_) => ErrorKind::Forbidden,
            RequestError::NotFound(_) => ErrorKind::NotFound,
            RequestError::Conflict(_) => ErrorKind::Conflict,
            RequestError::UnprocessableEntity(_) => ErrorKind::UnprocessableEntity,
            RequestError::InternalServerError(_) => ErrorKind::InternalServerError,
        }
    }

    pub open spec fn message(&self) -> Seq<char> {
        match self {
            RequestError::Unauthorized(m) => m@,
            RequestError::Forbidden(m) => m@,
            RequestError::NotFound(m) => m@,
            RequestError::Conflict(m) => m@,
            RequestError::UnprocessableEntity(m) => m@,
            RequestError::InternalServerError(m) => m@,
        }
    }

    /// True when this error has the given kind and message.
    pub open spec fn is(&self, kind: ErrorKind, message: Seq<char>) -> bool {
        self.kind() == kind && self.message() == message
    }

    pub fn unauthorized(message: &str) -> (e: RequestError)
        ensures
            e.is(ErrorKind::Unauthorized, message@),
    {
        RequestError::Unauthorized(String::from_str(message))
    }

    pub fn forbidden(message: &str) -> (e: RequestError)
        ensures
            e.is(ErrorKind::Forbidden, message@),
    {
        RequestError::Forbidden(String::from_str(message))
    }

    pub fn not_found(message: &str) -> (e: RequestError)
        ensures
            e.is(ErrorKind::NotFound, message@),
    {
        RequestError::NotFound(String::from_str(message))
    }

    pub fn conflict(message: &str) -> (e: RequestError)
        ensures
            e.is(ErrorKind::Conflict, message@),
    {
        RequestError::Conflict(String::from_str(message))
    }

    pub fn unprocessable_entity(message: &str) -> (e: RequestError)
        ensures
            e.is(ErrorKind::UnprocessableEntity, message@),
    {
        RequestError::UnprocessableEntity(String::from_str(message))
    }

    pub fn internal_server_error(message: &str) -> (e: RequestError)
        ensures
            e.is(ErrorKind::InternalServerError, message@),
    {
        RequestError::InternalServerError(String::from_str(message))
    }

    /// The HTTP status code that answers this error.
    pub fn status_code(&self) -> (code: u16)
        ensures
            code == status_of(self.kind()),
    {
        match self {
            RequestError::Unauthorized(_) => 401,
            RequestError::Forbidden(_) => 403,
            RequestError::NotFound(_) => 404,
            RequestError::Conflict(_) => 409,
            RequestError::UnprocessableEntity(_) => 422,
            RequestError::InternalServerError(_) => 500,
        }
    }

    /// The text shown to the client.
    pub fn message_text(&self) -> (m: &str)
        ensures
            m@ == self.message(),
    {
        match self {
            RequestError::Unauthorized(m) => m.as_str(),
            RequestError::Forbidden(m) => m.as_str(),
            RequestError::NotFound(m) => m.as_str(),
            RequestError::Conflict(m) => m.as_str(),
            RequestError::UnprocessableEntity(m) => m.as_str(),
            RequestError::InternalServerError(m) => m.as_str(),
        }
    }
}

/// How a database call failed, as far as the answer to the client depends on it.
#[derive(Debug)]
pub enum StoreFailure {
    /// The statement matched no row.
    RowNotFound,
    /// A uniqueness constraint refused the statement.
    UniqueViolation,
    /// A foreign-key constraint refused the statement.
    ForeignKeyViolation,
    /// Any other failure, with its description.
    Other(String),
}

/// The answer to a failed database call: a missing row is not found, a
/// duplicate a conflict, a dangling reference unprocessable, and anything
/// else an internal error that carries the failure's description.
pub fn store_error(failure: StoreFailure) -> (e: RequestError)
    ensures
        match failure {
            StoreFailure::RowNotFound => e.is(ErrorKind::NotFound, "resource not found"@),
            StoreFailure::UniqueViolation => e.is(ErrorKind::Conflict, "resource already exists"@),
            StoreFailure::ForeignKeyViolation => e.is(
                ErrorKind::UnprocessableEntity,
                "referenced resource does not exist"@,
            ),
            StoreFailure::Other(m) => e.is(ErrorKind::InternalServerError, m@),
        },
{
    match failure {
        StoreFailure::RowNotFound => RequestError::not_found("resource not found"),
        StoreFailure::UniqueViolation => RequestError::conflict("resource already exists"),
        StoreFailure::ForeignKeyViolation => RequestError::unprocessable_entity(
            "referenced resource does not exist",
        ),
        StoreFailure::Other(m) => RequestError::InternalServerError(m),
    }
}

pub open spec fn status_of(kind: ErrorKind) -> u16 {
    match kind {
        ErrorKind::Unauthorized => 401,
        ErrorKind::Forbidden => 403,
        ErrorKind::NotFound => 404,
        ErrorKind::Conflict => 409,
        ErrorKind::UnprocessableEntity => 422,
        ErrorKind::InternalServerError => 500,
    }
}

} // verus!
