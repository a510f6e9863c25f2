use taskone::api_error::CustomError;
use taskone::sqlite::create_outcome;
use taskone::sqlite::delete_outcome;
use taskone::sqlite::update_should_refetch;
use taskone::sqlite::SqlExec;
use taskone::task::Task;

#[test]
fn test_create_outcome() {
    let task = Task::new("persist me".to_string(), None);
    let id = task.id;
    let stored = create_outcome(task, SqlExec::Done { rows_affected: 1 }).unwrap();
    assert_eq!(stored.id, id);
    assert_eq!(stored.name, "persist me");

    let task = Task::new("persist me".to_string(), None);
    let failed = create_outcome(task, SqlExec::Failed { cause: "no such table".to_string() });
    match failed {
        Err(CustomError::WriteFailed(cause)) => assert_eq!(cause, "no such table"),
        _ => panic!("a failed insert must surface a write error"),
    }
}

#[test]
fn test_update_should_refetch() {
    assert!(update_should_refetch(&SqlExec::Done { rows_affected: 1 }));
    assert!(update_should_refetch(&SqlExec::Done { rows_affected: 3 }));
    assert!(!update_should_refetch(&SqlExec::Done { rows_affected: 0 }));
    assert!(!update_should_refetch(&SqlExec::Failed { cause: "gone".to_string() }));
}

#[test]
fn test_delete_outcome_is_literal() {
    assert_eq!(delete_outcome(&SqlExec::Done { rows_affected: 1 }), Some(true));
    assert_eq!(delete_outcome(&SqlExec::Done { rows_affected: 0 }), Some(true));
    assert_eq!(delete_outcome(&SqlExec::Failed { cause: "gone".to_string() }), Some(false));
}
