use taskone::db::MemoryDB;
use taskone::handlers::prepare_create;
use taskone::task::CreateTask;
use taskone::task::Task;

#[test]
fn test_create_task() {
    let mut db = MemoryDB::new();
    let req = CreateTask { name: "test".to_string(), due_date: None };
    let task = prepare_create(req).unwrap();
    let created = db.create_task(task).unwrap();
    assert_eq!(created.name, "test");
    assert_eq!(db.get_tasks().len(), 1);
}

#[test]
fn test_create_task_empty_name() {
    let db = MemoryDB::new();
    let req = CreateTask { name: "".to_string(), due_date: None };
    let rejected = prepare_create(req);
    assert!(matches!(rejected, Err(taskone::api_error::CustomError::NameEmpty)));
    assert_eq!(db.get_tasks().len(), 0);
}

#[test]
fn test_create_task_empty_name2() {
    let db = MemoryDB::new();
    let req = CreateTask { name: "".to_string(), due_date: None };
    let rejected = prepare_create(req);
    assert!(matches!(rejected, Err(taskone::api_error::CustomError::NameEmpty)));
    assert_eq!(db.get_tasks().len(), 0);
}

#[test]
fn test_full_lifecycle() {
    let mut db = MemoryDB::new();
    let req = CreateTask { name: "buy milk".to_string(), due_date: None };
    let task = prepare_create(req).unwrap();
    assert!(task.id != 0);
    assert!(!task.done);
    assert_eq!(task.created_at, task.updated_at);
    let created = db.create_task(task).unwrap();

    let fetched = db.get_task(created.id).unwrap();
    assert_eq!(fetched.id, created.id);
    assert_eq!(fetched.name, "buy milk");
    assert_eq!(fetched.done, created.done);
    assert_eq!(fetched.due_date, created.due_date);
    assert_eq!(fetched.created_at, created.created_at);
    assert_eq!(fetched.updated_at, created.updated_at);

    let payload = Task {
        id: created.id,
        name: "buy bread".to_string(),
        done: true,
        due_date: None,
        created_at: created.created_at,
        updated_at: created.updated_at,
    };
    let updated = db.update_task(created.id, payload);
    assert!(updated.is_some());
    let after = db.get_task(created.id).unwrap();
    assert_eq!(after.name, "buy bread");
    assert!(after.done);

    assert_eq!(db.delete_task(created.id), Some(true));
    assert!(db.get_task(created.id).is_none());
}

#[test]
fn test_list_after_creates_and_deletes() {
    let mut db = MemoryDB::new();
    let mut ids = Vec::new();
    for name in ["one", "two", "three"] {
        let req = CreateTask { name: name.to_string(), due_date: Some(1700000000000) };
        let task = prepare_create(req).unwrap();
        ids.push(task.id);
        db.create_task(task).unwrap();
    }
    assert_eq!(db.delete_task(ids[1]), Some(true));
    let listed = db.get_tasks();
    assert_eq!(listed.len(), 2);
    assert_eq!(listed[0].name, "one");
    assert_eq!(listed[0].id, ids[0]);
    assert_eq!(listed[0].due_date, Some(1700000000000));
    assert!(!listed[0].done);
    assert_eq!(listed[1].name, "three");
    assert_eq!(listed[1].id, ids[2]);
    assert_eq!(listed[1].due_date, Some(1700000000000));
    assert!(!listed[1].done);
}

#[test]
fn test_update_nonexistent() {
    let mut db = MemoryDB::new();
    let task = Task::new("stays".to_string(), None);
    let kept_id = task.id;
    db.create_task(task).unwrap();

    let payload = Task::new("intruder".to_string(), None);
    let missing_id = u128::MAX;
    assert!(db.update_task(missing_id, payload).is_none());

    let listed = db.get_tasks();
    assert_eq!(listed.len(), 1);
    assert_eq!(listed[0].id, kept_id);
    assert_eq!(listed[0].name, "stays");
}

#[test]
fn test_delete_nonexistent_and_twice() {
    let mut db = MemoryDB::new();
    assert!(db.delete_task(7).is_none());

    let task = Task::new("fleeting".to_string(), None);
    let id = task.id;
    db.create_task(task).unwrap();
    assert_eq!(db.delete_task(id), Some(true));
    assert!(db.delete_task(id).is_none());
    assert_eq!(db.get_tasks().len(), 0);
}

#[test]
fn test_created_ids_distinct() {
    let mut seen: Vec<u128> = Vec::new();
    for _ in 0..8 {
        let t = Task::new("again".to_string(), None);
        assert!(!seen.contains(&t.id));
        seen.push(t.id);
    }
}
