use vstd::prelude::*;

verus! {

/// The error taxonomy of the service: bad input shape, failed or revoked
/// authentication, no matching owned record, a blob I/O failure, a failed
/// compensating action that left an orphan, and an unexpected store failure.
#[derive(Clone, Copy, Debug, PartialEq, Eq, Structural)]
pub enum AppError {
    Validation,
    Unauthorized,
    NotFound,
    Storage,
    Consistency,
    Internal,
}

impl AppError {
    pub open spec fn spec_status_code(self) -> u16 {
        match self {
            AppError::Validation => 400,
            AppError::Unauthorized => 401,
            AppError::NotFound => 404,
            AppError::Storage => 500,
            AppError::Consistency => 500,
            AppError::Internal => 500,
        }
    }

    /// The HTTP status code that the boundary reports for this error.
    pub fn status_code(&self) -> (code: u16)
        ensures
            code == self.spec_status_code(),
    {
        match self {
            AppError::Validation => 400,
            AppError::Unauthorized => 401,
            AppError::NotFound => 404,
            AppError::Storage => 500,
            AppError::Consistency => 500,
            AppError::Internal => 500,
        }
    }
}

} // verus!
