use vstd::prelude::*;

verus! {

/// Errors surfaced at the storage core's boundary.
///
/// `NameEmpty` reports a task name with no characters, rejected before any
/// storage operation runs. `NotFound` reports an identifier with no matching
/// record. `WriteFailed` reports a persistent write that did not succeed and
/// carries a short description of the underlying cause.
#[derive(Debug)]
pub enum CustomError {
    NameEmpty,
    NotFound,
    WriteFailed(String),
}

impl CustomError {
    /// The HTTP status code that the boundary layer reports for this error.
    pub open spec fn spec_status_code(&self) -> u16 {
        match self {
            CustomError::NameEmpty => 400,
            CustomError::NotFound => 404,
            CustomError::WriteFailed(_) => 500,
        }
    }

    pub fn status_code(&self) -> (r: u16)
        ensures
            r == self.spec_status_code(),
    {
        match self {
            CustomError::NameEmpty => 400,
            CustomError::NotFound => 404,
            CustomError::WriteFailed(_) => 500,
        }
    }

    /// A short user-visible message. The cause held by `WriteFailed` is not
    /// echoed here: internal detail stays out of responses.
    pub fn message(&self) -> (r: String)
        ensures
            self matches CustomError::NameEmpty ==> r@ == "Name cannot be empty"@,
            self matches CustomError::NotFound ==> r@ == "Task not found"@,
            self matches CustomError::WriteFailed(_) ==> r@ == "Write failed"@,
    {
        match self {
            CustomError::NameEmpty => "Name cannot be empty".to_owned(),
            CustomError::NotFound => "Task not found".to_owned(),
            CustomError::WriteFailed(_) => "Write failed".to_owned(),
        }
    }
}

} // verus!
