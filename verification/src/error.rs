//! The errors that the library reports.

use vstd::prelude::*;

verus! {

/// Errors of the board's operations.
#[derive(Debug)]
pub enum AppError {
    /// The submitted form was refused; one message per failed rule.
    Validation(Vec<String>),
    /// The requested post does not exist.
    NotFound,
    /// The request body is larger than the upload limit.
    PayloadTooLarge,
}

/// Result of the board's operations.
pub type AppResult<T> = Result<T, AppError>;

} // verus!
