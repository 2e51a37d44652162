use task_api::handler::{
    apply_edit, create_task_handler, create_task_with, edit_task_handler, edit_task_with,
    merge_text,
};
use task_api::model::{koyzon_db, Task, Timestamp, UpdateSchema, DB};
use task_api::response::{Body, Response, Status};

fn payload(title: &str, content: &str) -> Task {
    Task {
        id: None,
        title: title.to_string(),
        content: content.to_string(),
        completed: None,
        created_at: None,
        updated_at: None,
    }
}

fn patch(title: Option<&str>, content: Option<&str>, completed: Option<bool>) -> UpdateSchema {
    UpdateSchema {
        title: title.map(|text| text.to_string()),
        content: content.map(|text| text.to_string()),
        completed,
    }
}

fn task_of(response: &Response) -> &Task {
    match &response.body {
        Body::Task(single) => &single.data.task,
        other => panic!("the body holds no task: {:?}", other),
    }
}

fn at(secs: i64, nanos: u32) -> Timestamp {
    Timestamp { secs, nanos }
}

fn store_of_two() -> DB {
    let mut db = koyzon_db();
    create_task_with(payload("A", "x"), &mut db, "1".to_string(), at(100, 0));
    create_task_with(payload("B", "y"), &mut db, "2".to_string(), at(101, 0));
    db
}

#[test]
fn edit_with_replaces_the_fields_that_the_payload_gives() {
    let mut db = store_of_two();
    let response = edit_task_with(
        "2".to_string(),
        patch(Some("B2"), Some("y2"), Some(true)),
        &mut db,
        at(200, 7),
    );
    let expected = Task {
        id: Some("2".to_string()),
        title: "B2".to_string(),
        content: "y2".to_string(),
        completed: Some(true),
        created_at: Some(at(101, 0)),
        updated_at: Some(at(200, 7)),
    };
    assert_eq!(response.status, Status::Success);
    assert_eq!(response.status.code(), 200);
    assert_eq!(task_of(&response), &expected);
    assert_eq!(db.len(), 2);
    assert_eq!(db[0].title, "A");
    assert_eq!(db[0].updated_at, Some(at(100, 0)));
    assert_eq!(db[1], expected);
}

#[test]
fn edit_with_an_empty_payload_changes_only_the_time_of_the_update() {
    let mut db = store_of_two();
    let response = edit_task_with("1".to_string(), patch(None, None, None), &mut db, at(300, 0));
    let expected = Task {
        id: Some("1".to_string()),
        title: "A".to_string(),
        content: "x".to_string(),
        completed: Some(false),
        created_at: Some(at(100, 0)),
        updated_at: Some(at(300, 0)),
    };
    assert_eq!(task_of(&response), &expected);
    assert_eq!(db[0], expected);
}

#[test]
fn edit_with_an_empty_title_keeps_the_title() {
    let mut db = store_of_two();
    let response =
        edit_task_with("1".to_string(), patch(Some(""), Some("new"), None), &mut db, at(300, 0));
    assert_eq!(task_of(&response).title, "A");
    assert_eq!(task_of(&response).content, "new");
    assert_eq!(db[0].title, "A");
}

#[test]
fn edit_with_an_empty_content_keeps_the_content() {
    let mut db = store_of_two();
    let response =
        edit_task_with("1".to_string(), patch(Some("new"), Some(""), None), &mut db, at(300, 0));
    assert_eq!(task_of(&response).title, "new");
    assert_eq!(task_of(&response).content, "x");
    assert_eq!(db[0].content, "x");
}

#[test]
fn edit_with_completed_false_sets_it_and_absent_keeps_it() {
    let mut db = store_of_two();
    let response =
        edit_task_with("1".to_string(), patch(None, None, Some(true)), &mut db, at(300, 0));
    assert_eq!(task_of(&response).completed, Some(true));
    let response = edit_task_with("1".to_string(), patch(None, None, None), &mut db, at(301, 0));
    assert_eq!(task_of(&response).completed, Some(true));
    let response =
        edit_task_with("1".to_string(), patch(None, None, Some(false)), &mut db, at(302, 0));
    assert_eq!(task_of(&response).completed, Some(false));
    assert_eq!(db[0].completed, Some(false));
}

#[test]
fn edit_with_keeps_a_completed_that_the_task_lacks() {
    let mut db = vec![Task {
        id: Some("1".to_string()),
        title: "A".to_string(),
        content: "x".to_string(),
        completed: None,
        created_at: None,
        updated_at: None,
    }];
    let response = edit_task_with("1".to_string(), patch(None, None, None), &mut db, at(5, 6));
    assert_eq!(task_of(&response).completed, None);
    assert_eq!(task_of(&response).created_at, None);
    assert_eq!(task_of(&response).updated_at, Some(at(5, 6)));
}

#[test]
fn edit_with_an_unknown_identifier_is_not_found_and_leaves_the_store() {
    let mut db = store_of_two();
    let before = db.clone();
    let response =
        edit_task_with("3".to_string(), patch(Some("C"), None, Some(true)), &mut db, at(300, 0));
    assert_eq!(response.status, Status::NotFound);
    assert_eq!(response.status.code(), 404);
    match &response.body {
        Body::Message(generic) => {
            assert_eq!(generic.status, "fail");
            assert_eq!(generic.message, "Task with ID: 3 not found");
        }
        other => panic!("the body holds no message: {:?}", other),
    }
    assert_eq!(db, before);
}

#[test]
fn edit_with_changes_the_first_of_two_tasks_with_one_identifier() {
    let mut db = koyzon_db();
    create_task_with(payload("A", "x"), &mut db, "same".to_string(), at(10, 0));
    create_task_with(payload("B", "y"), &mut db, "same".to_string(), at(11, 0));
    edit_task_with("same".to_string(), patch(Some("A2"), None, None), &mut db, at(20, 0));
    assert_eq!(db[0].title, "A2");
    assert_eq!(db[1].title, "B");
    assert_eq!(db[1].updated_at, Some(at(11, 0)));
}

#[test]
fn edit_with_may_give_a_task_the_title_of_another() {
    let mut db = store_of_two();
    let response =
        edit_task_with("2".to_string(), patch(Some("A"), None, None), &mut db, at(300, 0));
    assert_eq!(response.status, Status::Success);
    assert_eq!(db[0].title, "A");
    assert_eq!(db[1].title, "A");
}

#[test]
fn edit_handler_keeps_the_time_of_creation_and_does_not_move_the_update_back() {
    let mut db = koyzon_db();
    let created = create_task_handler(payload("A", "x"), &mut db);
    let before = task_of(&created).clone();
    let response =
        edit_task_handler(before.id.clone().unwrap(), patch(None, Some("z"), None), &mut db);
    assert_eq!(response.status, Status::Success);
    let after = task_of(&response);
    assert_eq!(after.id, before.id);
    assert_eq!(after.title, "A");
    assert_eq!(after.content, "z");
    assert_eq!(after.completed, Some(false));
    assert_eq!(after.created_at, before.created_at);
    let was = before.updated_at.unwrap();
    let is = after.updated_at.unwrap();
    assert!((was.secs, was.nanos) <= (is.secs, is.nanos));
    assert!(is.nanos < 1_000_000_000);
    assert_eq!(&db[0], after);
}

#[test]
fn edit_handler_with_an_unknown_identifier_is_not_found_and_leaves_the_store() {
    let mut db = koyzon_db();
    create_task_handler(payload("A", "x"), &mut db);
    let before = db.clone();
    let response = edit_task_handler("none".to_string(), patch(Some("B"), None, None), &mut db);
    assert_eq!(response.status, Status::NotFound);
    assert_eq!(db, before);
}

#[test]
fn edit_with_a_later_time_moves_the_update_forward() {
    let mut db = store_of_two();
    let before = db[0].updated_at.unwrap();
    let response = edit_task_with("1".to_string(), patch(None, None, None), &mut db, at(100, 1));
    let after = task_of(&response).updated_at.unwrap();
    assert!((before.secs, before.nanos) < (after.secs, after.nanos));
    assert_eq!(after, at(100, 1));
    assert_eq!(task_of(&response).created_at, Some(at(100, 0)));
    let response = edit_task_with("1".to_string(), patch(None, None, None), &mut db, at(101, 0));
    let later = task_of(&response).updated_at.unwrap();
    assert!((after.secs, after.nanos) < (later.secs, later.nanos));
    assert_eq!(task_of(&response).created_at, Some(at(100, 0)));
}

#[test]
fn edit_with_the_time_of_the_last_update_leaves_that_time() {
    let mut db = store_of_two();
    let response = edit_task_with("1".to_string(), patch(None, None, None), &mut db, at(100, 0));
    assert_eq!(task_of(&response).updated_at, Some(at(100, 0)));
    assert_eq!(task_of(&response).updated_at, task_of(&response).created_at);
}

#[test]
fn apply_edit_replaces_the_task_at_the_place() {
    let mut db = store_of_two();
    let response = apply_edit(&mut db, 1, &patch(Some("B2"), None, Some(true)), at(500, 9));
    assert_eq!(response.status, Status::Success);
    assert_eq!(task_of(&response), &db[1]);
    assert_eq!(db[1].id.as_deref(), Some("2"));
    assert_eq!(db[1].title, "B2");
    assert_eq!(db[1].content, "y");
    assert_eq!(db[1].completed, Some(true));
    assert_eq!(db[1].created_at, Some(at(101, 0)));
    assert_eq!(db[1].updated_at, Some(at(500, 9)));
    assert_eq!(db[0].title, "A");
    assert_eq!(db.len(), 2);
}

#[test]
fn merge_text_keeps_the_text_where_nothing_or_the_empty_string_is_given() {
    let kept = "kept".to_string();
    assert_eq!(merge_text(&None, &kept), "kept");
    assert_eq!(merge_text(&Some(String::new()), &kept), "kept");
    assert_eq!(merge_text(&Some("new".to_string()), &kept), "new");
    assert_eq!(merge_text(&Some(" ".to_string()), &kept), " ");
    assert_eq!(merge_text(&Some("new".to_string()), &String::new()), "new");
    assert_eq!(merge_text(&None, &String::new()), "");
}
