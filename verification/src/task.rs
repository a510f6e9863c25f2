use vstd::prelude::*;

verus! {

/// A to-do item, the sole entity of this crate.
///
/// The identifier is a 128-bit value assigned once at creation and never
/// changed. Timestamps (`due_date`, `created_at`, `updated_at`) count
/// milliseconds since the Unix epoch; the surrounding application converts
/// them to and from its calendar type.
#[derive(Debug)]
pub struct Task {
    pub id: u128,
    pub name: String,
    pub done: bool,
    pub due_date: Option<i64>,
    pub created_at: i64,
    pub updated_at: i64,
}

impl Clone for Task {
    fn clone(&self) -> (r: Self)
        ensures
            r == *self,
    {
        Task {
            id: self.id,
            name: self.name.clone(),
            done: self.done,
            due_date: self.due_date,
            created_at: self.created_at,
            updated_at: self.updated_at,
        }
    }
}

/// Relies on `uuid::Uuid::new_v4` and `Uuid::as_u128`: a freshly drawn random
/// 128-bit identifier. The generator always sets the version and variant bits
/// (it masks the random value and ors in a fixed nonzero constant), so the
/// result is never zero; being random, nothing more holds of it.
#[verifier::external_body]
fn fresh_id() -> (r: u128)
    ensures
        r != 0,
{
    uuid::Uuid::new_v4().as_u128()
}

/// Relies on `chrono::Utc::now` and `DateTime::timestamp_millis`: the current
/// wall-clock time as milliseconds since the Unix epoch. The value depends on
/// when the call runs, so nothing is assumed of it.
#[verifier::external_body]
fn now_millis() -> (r: i64) {
    chrono::Utc::now().timestamp_millis()
}

impl Task {
    /// Construct a fresh task: a newly generated identifier, the given name
    /// and due date, `done` false, and both timestamps set to the same
    /// current instant. Callers must validate the name beforehand;
    /// construction itself is total.
    pub fn new(name: String, due_date: Option<i64>) -> (r: Task)
        ensures
            r.name == name,
            r.done == false,
            r.due_date == due_date,
            r.created_at == r.updated_at,
            r.id != 0,
    {
        let now = now_millis();
        Task {
            id: fresh_id(),
            name,
            done: false,
            due_date,
            created_at: now,
            updated_at: now,
        }
    }
}

/// The payload supplied when creating or updating a task: a name, which must
/// hold at least one character to be accepted, and an optional due date.
#[derive(Debug)]
pub struct CreateTask {
    pub name: String,
    pub due_date: Option<i64>,
}

} // verus!
