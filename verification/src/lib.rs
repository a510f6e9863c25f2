//! A minimal task-tracking core: the `Task` entity and its validation rules,
//! an in-memory storage backend over an ordered collection, and the decision
//! logic of a SQL-backed storage backend. The HTTP layer and the SQL driver
//! live outside this crate and call into it with plain values.

pub mod api_error;
pub mod db;
pub mod handlers;
pub mod sqlite;
pub mod task;
