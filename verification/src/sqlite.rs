use vstd::prelude::*;

use crate::api_error::CustomError;
use crate::task::Task;

verus! {

/// What running one SQL statement came to: either the statement ran, with
/// the number of rows it touched, or it failed, with a short description of
/// the cause. The surrounding application executes the statement and hands
/// the outcome here; the functions below decide what the storage interface
/// returns for it, so those decisions are checked for every possible outcome.
#[derive(Debug)]
pub enum SqlExec {
    Done { rows_affected: u64 },
    Failed { cause: String },
}

/// Whether the statement ran at all.
pub open spec fn exec_done(exec: SqlExec) -> bool {
    exec is Done
}

/// Whether the statement ran and touched at least one row.
pub open spec fn exec_hit(exec: SqlExec) -> bool {
    match exec {
        SqlExec::Done { rows_affected } => rows_affected > 0,
        SqlExec::Failed { .. } => false,
    }
}

/// The result the persistent backend returns for a create, given the insert
/// statement's outcome: the stored task on success, and a write error
/// carrying the underlying cause on failure.
pub fn create_outcome(task: Task, exec: SqlExec) -> (r: Result<Task, CustomError>)
    ensures
        exec matches SqlExec::Done { .. } ==> r == Ok::<Task, CustomError>(task),
        exec matches SqlExec::Failed { cause } ==> r == Err::<Task, CustomError>(
            CustomError::WriteFailed(cause),
        ),
{
    match exec {
        SqlExec::Done { .. } => Ok(task),
        SqlExec::Failed { cause } => Err(CustomError::WriteFailed(cause)),
    }
}

/// Whether an update statement's outcome calls for reading the row back:
/// only when the update ran and matched a row. The update statement itself
/// returns no row, so the backend must re-fetch by identifier to satisfy the
/// interface's optional-task contract; when no row matched, the identifier
/// does not exist and the answer is absent without a second query.
pub fn update_should_refetch(exec: &SqlExec) -> (r: bool)
    ensures
        r == exec_hit(*exec),
{
    match exec {
        SqlExec::Done { rows_affected } => *rows_affected > 0,
        SqlExec::Failed { .. } => false,
    }
}

/// The result the persistent backend reports for a delete, given the delete
/// statement's outcome: a present boolean saying whether the statement ran,
/// regardless of whether any row matched the identifier. A delete of an
/// absent identifier therefore still reports a present `true` — the literal
/// behaviour of this backend, kept as it stands.
pub fn delete_outcome(exec: &SqlExec) -> (r: Option<bool>)
    ensures
        r == Some(exec_done(*exec)),
{
    match exec {
        SqlExec::Done { .. } => Some(true),
        SqlExec::Failed { .. } => Some(false),
    }
}

} // verus!
