use task_service::errors::TaskError;
use task_service::handlers::{
    create_task, delete_task, get_all_tasks, get_task, reply_deleted, reply_listed, update_task,
    HttpReply, ReplyBody,
};
use task_service::models::{CreateTaskDto, Status, Task, Timestamp, UpdateTaskDto};
use task_service::store::TaskTable;

fn at(micros: i64) -> Timestamp {
    Timestamp { micros }
}

fn dto(title: &str, description: Option<&str>) -> CreateTaskDto {
    CreateTaskDto {
        title: title.to_string(),
        description: description.map(|d| d.to_string()),
    }
}

fn task_of(reply: HttpReply) -> Task {
    match reply.body {
        ReplyBody::Task(t) => t,
        other => panic!("expected one task, got {:?}", other),
    }
}

#[test]
fn create_with_title_only_is_created_and_pending() {
    let mut pool = TaskTable::new();
    let reply = create_task(&mut pool, dto("write docs", None), at(10)).unwrap();
    assert_eq!(reply.status, 201);
    let t = task_of(reply);
    assert_eq!(t.id, 1);
    assert_eq!(t.title, "write docs");
    assert_eq!(t.description, None);
    assert_eq!(t.status, Status::Pending);
    assert_eq!(t.created_at, Some(at(10)));
    assert_eq!(pool.rows.len(), 1);
}

#[test]
fn create_assigns_fresh_ids() {
    let mut pool = TaskTable::new();
    let a = task_of(create_task(&mut pool, dto("a", None), at(1)).unwrap());
    let b = task_of(create_task(&mut pool, dto("b", None), at(2)).unwrap());
    assert_eq!(a.id, 1);
    assert_eq!(b.id, 2);
}

#[test]
fn create_with_empty_title_is_validation_error() {
    let mut pool = TaskTable::new();
    let err = create_task(&mut pool, dto("", None), at(1)).unwrap_err();
    assert_eq!(err.status_code(), 400);
    let body = err.error_response();
    assert_eq!(body.code, "VALIDATION_ERROR");
    assert_eq!(body.message, "Invalid input data");
    let details = body.details.unwrap();
    assert_eq!(details.errors.len(), 1);
    assert_eq!(details.errors[0].field, "title");
    assert_eq!(details.errors[0].message, "Title must  not be empty");
    assert_eq!(pool.rows.len(), 0);
    assert_eq!(pool.next_id, 1);
}

#[test]
fn create_reports_every_violated_field() {
    let mut pool = TaskTable::new();
    let err = create_task(&mut pool, dto("", Some("")), at(1)).unwrap_err();
    match err {
        TaskError::ValidationError(v) => {
            assert_eq!(v.errors.len(), 2);
            assert_eq!(v.errors[0].field, "title");
            assert_eq!(v.errors[1].field, "description");
            assert_eq!(v.errors[1].message, "Description must not be empty");
        }
        other => panic!("expected a validation error, got {:?}", other),
    }
}

#[test]
fn create_with_empty_description_only_names_description() {
    let mut pool = TaskTable::new();
    let err = create_task(&mut pool, dto("ok", Some("")), at(1)).unwrap_err();
    match err {
        TaskError::ValidationError(v) => {
            assert_eq!(v.errors.len(), 1);
            assert_eq!(v.errors[0].field, "description");
        }
        other => panic!("expected a validation error, got {:?}", other),
    }
}

#[test]
fn create_title_length_limit() {
    let mut pool = TaskTable::new();
    let longest = "x".repeat(255);
    let t = task_of(create_task(&mut pool, dto(&longest, None), at(1)).unwrap());
    assert_eq!(t.title.chars().count(), 255);
    let too_long = "é".repeat(256);
    let err = create_task(&mut pool, dto(&too_long, None), at(2)).unwrap_err();
    assert_eq!(err.status_code(), 500);
    assert_eq!(err.error_response().code, "DATABASE_ERROR");
    assert_eq!(err.error_response().message, "Database operation failed");
    assert_eq!(pool.rows.len(), 1);
}

#[test]
fn create_fails_when_ids_are_used_up() {
    let mut pool = TaskTable::new();
    pool.next_id = i32::MAX;
    let err = create_task(&mut pool, dto("last", None), at(1)).unwrap_err();
    assert_eq!(err.status_code(), 500);
    assert_eq!(pool.rows.len(), 0);
}

#[test]
fn get_unknown_id_is_not_found() {
    let mut pool = TaskTable::new();
    create_task(&mut pool, dto("a", None), at(1)).unwrap();
    let err = get_task(&pool, 999999).unwrap_err();
    assert_eq!(err.status_code(), 404);
    let body = err.error_response();
    assert_eq!(body.code, "NOT_FOUND");
    assert_eq!(body.message, "Task with id 999999 not found");
    assert!(body.details.is_none());
}

#[test]
fn get_negative_id_names_it_in_the_message() {
    let pool = TaskTable::new();
    let err = get_task(&pool, -5).unwrap_err();
    assert_eq!(err.error_response().message, "Task with id -5 not found");
}

#[test]
fn update_status_only_keeps_other_fields() {
    let mut pool = TaskTable::new();
    let t = task_of(create_task(&mut pool, dto("title", Some("desc")), at(7)).unwrap());
    let changes = UpdateTaskDto {
        title: None,
        description: None,
        status: Some(Status::Completed),
    };
    let reply = update_task(&mut pool, t.id, changes).unwrap();
    assert_eq!(reply.status, 200);
    let u = task_of(reply);
    assert_eq!(u.id, t.id);
    assert_eq!(u.title, "title");
    assert_eq!(u.description, Some("desc".to_string()));
    assert_eq!(u.status, Status::Completed);
    assert_eq!(u.created_at, Some(at(7)));
    let g = task_of(get_task(&pool, t.id).unwrap());
    assert_eq!(g.status, Status::Completed);
    assert_eq!(g.title, "title");
}

#[test]
fn update_title_and_description() {
    let mut pool = TaskTable::new();
    let t = task_of(create_task(&mut pool, dto("old", None), at(1)).unwrap());
    let changes = UpdateTaskDto {
        title: Some("new".to_string()),
        description: Some("now described".to_string()),
        status: None,
    };
    let u = task_of(update_task(&mut pool, t.id, changes).unwrap());
    assert_eq!(u.title, "new");
    assert_eq!(u.description, Some("now described".to_string()));
    assert_eq!(u.status, Status::Pending);
}

#[test]
fn update_unknown_id_is_not_found() {
    let mut pool = TaskTable::new();
    let changes = UpdateTaskDto { title: None, description: None, status: None };
    let err = update_task(&mut pool, 3, changes).unwrap_err();
    assert_eq!(err.status_code(), 404);
    assert_eq!(err.error_response().message, "Task with id 3 not found");
}

#[test]
fn update_with_empty_title_is_validation_error() {
    let mut pool = TaskTable::new();
    let t = task_of(create_task(&mut pool, dto("keep", None), at(1)).unwrap());
    let changes = UpdateTaskDto {
        title: Some(String::new()),
        description: None,
        status: Some(Status::Completed),
    };
    let err = update_task(&mut pool, t.id, changes).unwrap_err();
    assert_eq!(err.status_code(), 400);
    let g = task_of(get_task(&pool, t.id).unwrap());
    assert_eq!(g.title, "keep");
    assert_eq!(g.status, Status::Pending);
}

#[test]
fn update_with_too_long_title_is_database_error() {
    let mut pool = TaskTable::new();
    let t = task_of(create_task(&mut pool, dto("keep", None), at(1)).unwrap());
    let changes = UpdateTaskDto {
        title: Some("y".repeat(256)),
        description: None,
        status: None,
    };
    let err = update_task(&mut pool, t.id, changes).unwrap_err();
    assert_eq!(err.status_code(), 500);
    assert_eq!(task_of(get_task(&pool, t.id).unwrap()).title, "keep");
}

#[test]
fn delete_twice_is_no_content_then_not_found() {
    let mut pool = TaskTable::new();
    let t = task_of(create_task(&mut pool, dto("gone soon", None), at(1)).unwrap());
    let first = delete_task(&mut pool, t.id).unwrap();
    assert_eq!(first.status, 204);
    assert!(matches!(first.body, ReplyBody::Empty));
    let second = delete_task(&mut pool, t.id).unwrap_err();
    assert_eq!(second.status_code(), 404);
    assert_eq!(second.error_response().code, "NOT_FOUND");
    assert_eq!(get_task(&pool, t.id).unwrap_err().status_code(), 404);
}

#[test]
fn delete_keeps_other_rows() {
    let mut pool = TaskTable::new();
    for (i, title) in ["a", "b", "c"].iter().enumerate() {
        create_task(&mut pool, dto(title, None), at(i as i64)).unwrap();
    }
    delete_task(&mut pool, 2).unwrap();
    let ids: Vec<i32> = pool.rows.iter().map(|t| t.id).collect();
    assert_eq!(ids, vec![1, 3]);
    let next = task_of(create_task(&mut pool, dto("d", None), at(9)).unwrap());
    assert_eq!(next.id, 4);
}

#[test]
fn list_after_creates_has_exactly_those_tasks() {
    let mut pool = TaskTable::new();
    let empty = get_all_tasks(&pool);
    assert_eq!(empty.status, 200);
    match empty.body {
        ReplyBody::Tasks(v) => assert!(v.is_empty()),
        other => panic!("expected a list, got {:?}", other),
    }
    let mut created = std::collections::BTreeSet::new();
    for i in 0..4 {
        let t = task_of(create_task(&mut pool, dto(&format!("t{}", i), None), at(i)).unwrap());
        created.insert(t.id);
    }
    let reply = get_all_tasks(&pool);
    assert_eq!(reply.status, 200);
    match reply.body {
        ReplyBody::Tasks(v) => {
            assert_eq!(v.len(), 4);
            let listed: std::collections::BTreeSet<i32> = v.iter().map(|t| t.id).collect();
            assert_eq!(listed, created);
        }
        other => panic!("expected a list, got {:?}", other),
    }
}

#[test]
fn create_then_get_round_trip() {
    let mut pool = TaskTable::new();
    let t = task_of(create_task(&mut pool, dto("a", Some("b")), at(3)).unwrap());
    let reply = get_task(&pool, t.id).unwrap();
    assert_eq!(reply.status, 200);
    let g = task_of(reply);
    assert_eq!(g.id, t.id);
    assert_eq!(g.title, "a");
    assert_eq!(g.description, Some("b".to_string()));
    assert_eq!(g.status, Status::Pending);
    assert_eq!(g.created_at, t.created_at);
}

#[test]
fn table_accepts_only_stamps_not_before_its_rows() {
    let mut pool = TaskTable::new();
    assert!(pool.accepts_stamp(at(-100)));
    create_task(&mut pool, dto("a", None), at(50)).unwrap();
    assert!(pool.accepts_stamp(at(50)));
    assert!(pool.accepts_stamp(at(51)));
    assert!(!pool.accepts_stamp(at(49)));
}

#[test]
fn too_long_title_names_the_limit() {
    let mut pool = TaskTable::new();
    match create_task(&mut pool, dto(&"z".repeat(300), None), at(1)).unwrap_err() {
        TaskError::DatabaseError(m) => assert_eq!(m, "title is longer than 255 characters"),
        other => panic!("unexpected {:?}", other),
    }
}

#[test]
fn reply_builders_carry_their_status() {
    assert_eq!(reply_deleted().status, 204);
    assert_eq!(reply_listed(Vec::new()).status, 200);
}
