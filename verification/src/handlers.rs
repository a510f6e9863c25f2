use vstd::prelude::*;

use crate::api_error::CustomError;
use crate::task::CreateTask;
use crate::task::Task;

verus! {

/// The 128-bit value a textual UUID denotes, or nothing where the text is no
/// UUID. The parse accepts several textual forms, so the value is named
/// rather than written out; it depends on the characters alone.
pub uninterp spec fn parsed_uuid(s: Seq<char>) -> Option<u128>;

/// Relies on `uuid::Uuid::parse_str` and `Uuid::as_u128`: parses a textual
/// UUID (hex digits with optional hyphens, among other accepted forms) into
/// its 128-bit value; the result depends on the characters alone.
#[verifier::external_body]
fn parse_uuid(s: &str) -> (r: Option<u128>)
    ensures
        r == parsed_uuid(s@),
{
    match uuid::Uuid::parse_str(s) {
        Ok(u) => Some(u.as_u128()),
        Err(_) => None,
    }
}

/// The identifier a request path segment denotes. Text that is no UUID maps
/// to `NotFound`, as a request for it can match no stored task.
pub fn parse_task_id(s: &str) -> (r: Result<u128, CustomError>)
    ensures
        parsed_uuid(s@) matches Some(u) ==> r == Ok::<u128, CustomError>(u),
        parsed_uuid(s@) is None ==> r == Err::<u128, CustomError>(CustomError::NotFound),
{
    match parse_uuid(s) {
        Some(u) => Ok(u),
        None => Err(CustomError::NotFound),
    }
}

/// Validate a creation payload and construct the task to store: a payload
/// whose name holds no characters is rejected with `NameEmpty` before any
/// storage operation runs; any other payload yields a fresh task carrying
/// the payload's name and due date, not yet done, with matching timestamps.
pub fn prepare_create(req: CreateTask) -> (r: Result<Task, CustomError>)
    ensures
        req.name@.len() == 0 ==> r == Err::<Task, CustomError>(CustomError::NameEmpty),
        req.name@.len() > 0 ==> (r matches Ok(t) && t.name == req.name && t.done == false
            && t.due_date == req.due_date && t.created_at == t.updated_at && t.id != 0),
{
    let CreateTask { name, due_date } = req;
    if name.as_str().is_empty() {
        Err(CustomError::NameEmpty)
    } else {
        Ok(Task::new(name, due_date))
    }
}

/// Turn a lookup's optional task into the response the boundary reports:
/// the task where one matched, and `NotFound` where none did.
pub fn lookup_result(found: Option<Task>) -> (r: Result<Task, CustomError>)
    ensures
        found matches Some(t) ==> r == Ok::<Task, CustomError>(t),
        found is None ==> r == Err::<Task, CustomError>(CustomError::NotFound),
{
    match found {
        Some(t) => Ok(t),
        None => Err(CustomError::NotFound),
    }
}

/// Turn a deletion's optional report into the response the boundary reports:
/// the boolean where the backend answered, and `NotFound` where it reported
/// no task with that identifier.
pub fn delete_result(deleted: Option<bool>) -> (r: Result<bool, CustomError>)
    ensures
        deleted matches Some(b) ==> r == Ok::<bool, CustomError>(b),
        deleted is None ==> r == Err::<bool, CustomError>(CustomError::NotFound),
{
    match deleted {
        Some(b) => Ok(b),
        None => Err(CustomError::NotFound),
    }
}

} // verus!
