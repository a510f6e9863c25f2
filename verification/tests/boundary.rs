use taskone::api_error::CustomError;
use taskone::handlers::delete_result;
use taskone::handlers::lookup_result;
use taskone::handlers::parse_task_id;
use taskone::task::Task;

#[test]
fn test_parse_task_id_known_value() {
    let parsed = parse_task_id("a1a2a3a4-b1b2-c1c2-d1d2-d3d4d5d6d7d8").unwrap();
    assert_eq!(parsed, 0xa1a2a3a4b1b2c1c2d1d2d3d4d5d6d7d8u128);
    let one = parse_task_id("00000000-0000-0000-0000-000000000001").unwrap();
    assert_eq!(one, 1);
}

#[test]
fn test_parse_task_id_rejects_garbage() {
    assert!(matches!(parse_task_id("not-a-uuid"), Err(CustomError::NotFound)));
    assert!(matches!(parse_task_id(""), Err(CustomError::NotFound)));
}

#[test]
fn test_status_codes_and_messages() {
    assert_eq!(CustomError::NameEmpty.status_code(), 400);
    assert_eq!(CustomError::NotFound.status_code(), 404);
    assert_eq!(CustomError::WriteFailed("pool closed".to_string()).status_code(), 500);
    assert_eq!(CustomError::NameEmpty.message(), "Name cannot be empty");
    assert_eq!(CustomError::NotFound.message(), "Task not found");
    assert_eq!(CustomError::WriteFailed("pool closed".to_string()).message(), "Write failed");
}

#[test]
fn test_lookup_result() {
    let task = Task::new("present".to_string(), Some(5));
    let id = task.id;
    let ok = lookup_result(Some(task)).unwrap();
    assert_eq!(ok.id, id);
    assert_eq!(ok.name, "present");
    assert!(matches!(lookup_result(None), Err(CustomError::NotFound)));
}

#[test]
fn test_delete_result() {
    assert_eq!(delete_result(Some(true)).unwrap(), true);
    assert_eq!(delete_result(Some(false)).unwrap(), false);
    assert!(matches!(delete_result(None), Err(CustomError::NotFound)));
}
