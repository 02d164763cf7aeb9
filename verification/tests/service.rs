use todo_service::handler::{get_todos, update_todo, Failure, Request, Response};
use todo_service::service::{serve, serve_with, settle};
use todo_service::table::Table;
use todo_service::todo::{CreateTodo, Todo, TodoRow, UpdateTodo};

fn todo(id: &str, title: &str, completed: bool, created_at: &str) -> Todo {
    Todo {
        id: id.to_string(),
        title: title.to_string(),
        completed,
        created_at: created_at.to_string(),
    }
}

fn create(table: &mut Table, title: &str, id: &str, created_at: &str) -> Response {
    let body = Some(CreateTodo { title: title.to_string() });
    serve_with(table, Request::Create(body), id.to_string(), created_at.to_string())
}

fn list(table: &mut Table) -> Vec<Todo> {
    match serve(table, Request::List) {
        Response::Todos(todos) => todos,
        other => panic!("unexpected response {:?}", other),
    }
}

fn filled() -> Table {
    let mut table = Table::new();
    create(&mut table, "second", "b", "2024-01-02T00:00:00+00:00");
    create(&mut table, "third", "c", "2024-01-03T00:00:00+00:00");
    create(&mut table, "first", "a", "2024-01-01T00:00:00+00:00");
    table
}

#[test]
fn listing_an_empty_table_gives_an_empty_list() {
    let mut table = Table::new();
    let response = serve(&mut table, Request::List);
    assert_eq!(response.status_code(), 200);
    assert_eq!(response, Response::Todos(Vec::new()));
}

#[test]
fn create_then_list_holds_the_new_todo_once() {
    let mut table = filled();
    let before = list(&mut table);
    let response = create(&mut table, "buy milk", "m", "2024-01-02T12:00:00+00:00");
    let made = todo("m", "buy milk", false, "2024-01-02T12:00:00+00:00");
    assert_eq!(response.status_code(), 200);
    assert_eq!(response, Response::Todo(made.clone()));
    let after = list(&mut table);
    assert_eq!(after.len(), before.len() + 1);
    assert_eq!(after.iter().filter(|t| **t == made).count(), 1);
    assert_eq!(after.iter().filter(|t| t.id == "m").count(), 1);
    assert!(before.iter().all(|t| t.id != "m"));
    let others: Vec<Todo> = after.into_iter().filter(|t| t.id != "m").collect();
    assert_eq!(others, before);
}

#[test]
fn create_with_a_drawn_id_is_listed_with_that_id() {
    let mut table = filled();
    let response = serve(&mut table, Request::Create(Some(CreateTodo { title: "x".to_string() })));
    let made = match response {
        Response::Todo(made) => made,
        other => panic!("unexpected response {:?}", other),
    };
    assert_eq!(made.title, "x");
    assert!(!made.completed);
    assert_eq!(made.id.len(), 36);
    assert!(made.created_at.ends_with("+00:00"));
    let after = list(&mut table);
    assert_eq!(after.len(), 4);
    assert_eq!(after.iter().filter(|t| **t == made).count(), 1);
    // Drawn now, it is newer than the rows from 2024.
    assert_eq!(after[0], made);
}

#[test]
fn create_with_a_taken_id_is_a_storage_failure_and_changes_nothing() {
    let mut table = filled();
    let before = list(&mut table);
    let response = create(&mut table, "clash", "b", "2030-01-01T00:00:00+00:00");
    assert_eq!(response, Response::Failed(Failure::Storage));
    assert_eq!(response.status_code(), 500);
    assert_eq!(list(&mut table), before);
}

#[test]
fn create_without_a_title_is_a_bad_request_and_creates_nothing() {
    let mut table = filled();
    let before = list(&mut table);
    let response = serve(&mut table, Request::Create(None));
    assert_eq!(response, Response::Failed(Failure::BadRequest));
    assert_eq!(response.status_code(), 400);
    assert_eq!(list(&mut table), before);
    let response = serve(&mut table, Request::Create(Some(CreateTodo { title: String::new() })));
    assert_eq!(response.status_code(), 400);
    assert_eq!(list(&mut table), before);
}

#[test]
fn update_with_completed_only_keeps_title_and_created_at() {
    let mut table = filled();
    let body = Some(UpdateTodo { title: None, completed: Some(true) });
    let response = serve(&mut table, Request::Update("b".to_string(), body));
    assert_eq!(response.status_code(), 200);
    assert_eq!(response, Response::Todo(todo("b", "second", true, "2024-01-02T00:00:00+00:00")));
    assert_eq!(
        list(&mut table),
        vec![
            todo("c", "third", false, "2024-01-03T00:00:00+00:00"),
            todo("b", "second", true, "2024-01-02T00:00:00+00:00"),
            todo("a", "first", false, "2024-01-01T00:00:00+00:00"),
        ]
    );
}

#[test]
fn update_with_title_only_keeps_completed_and_created_at() {
    let mut table = filled();
    let done = Some(UpdateTodo { title: None, completed: Some(true) });
    serve(&mut table, Request::Update("a".to_string(), done));
    let body = Some(UpdateTodo { title: Some("renamed".to_string()), completed: None });
    let response = serve(&mut table, Request::Update("a".to_string(), body));
    assert_eq!(response, Response::Todo(todo("a", "renamed", true, "2024-01-01T00:00:00+00:00")));
    assert_eq!(
        list(&mut table),
        vec![
            todo("c", "third", false, "2024-01-03T00:00:00+00:00"),
            todo("b", "second", false, "2024-01-02T00:00:00+00:00"),
            todo("a", "renamed", true, "2024-01-01T00:00:00+00:00"),
        ]
    );
}

#[test]
fn update_of_a_missing_id_is_not_found_and_changes_nothing() {
    let mut table = filled();
    let before = list(&mut table);
    let body = Some(UpdateTodo { title: Some("x".to_string()), completed: Some(true) });
    let response = serve(&mut table, Request::Update("zz".to_string(), body));
    assert_eq!(response, Response::Failed(Failure::NotFound));
    assert_eq!(response.status_code(), 404);
    assert_eq!(list(&mut table), before);
}

#[test]
fn update_without_a_decoded_body_is_a_bad_request_and_changes_nothing() {
    let mut table = filled();
    let before = list(&mut table);
    let response = serve(&mut table, Request::Update("b".to_string(), None));
    assert_eq!(response, Response::Failed(Failure::BadRequest));
    assert_eq!(list(&mut table), before);
}

#[test]
fn delete_removes_one_todo_and_a_second_delete_is_not_found() {
    let mut table = filled();
    let response = serve(&mut table, Request::Delete("b".to_string()));
    assert_eq!(response, Response::NoContent);
    assert_eq!(response.status_code(), 204);
    assert_eq!(
        list(&mut table),
        vec![
            todo("c", "third", false, "2024-01-03T00:00:00+00:00"),
            todo("a", "first", false, "2024-01-01T00:00:00+00:00"),
        ]
    );
    let again = serve(&mut table, Request::Delete("b".to_string()));
    assert_eq!(again, Response::Failed(Failure::NotFound));
    assert_eq!(list(&mut table).len(), 2);
}

#[test]
fn delete_of_a_missing_id_is_not_found_and_changes_nothing() {
    let mut table = filled();
    let before = list(&mut table);
    let response = serve(&mut table, Request::Delete("zz".to_string()));
    assert_eq!(response, Response::Failed(Failure::NotFound));
    assert_eq!(response.status_code(), 404);
    assert_eq!(list(&mut table), before);
}

#[test]
fn list_is_newest_first_whatever_the_order_of_creation() {
    let stamps = [
        "2024-03-01T08:00:00+00:00",
        "2024-03-01T08:00:00.500+00:00",
        "2024-03-01T08:00:01+00:00",
        "2025-01-01T00:00:00+00:00",
    ];
    let orders = [[0, 1, 2, 3], [3, 2, 1, 0], [2, 0, 3, 1], [1, 3, 0, 2]];
    for order in orders {
        let mut table = Table::new();
        for i in order {
            create(&mut table, "t", stamps[i], stamps[i]);
        }
        let listed: Vec<String> = list(&mut table).into_iter().map(|t| t.created_at).collect();
        assert_eq!(listed, vec![stamps[3], stamps[2], stamps[1], stamps[0]]);
    }
}

#[test]
fn scenario_create_complete_delete_list() {
    let mut table = Table::new();
    let body = Some(CreateTodo { title: "buy milk".to_string() });
    let response = serve(&mut table, Request::Create(body));
    assert_eq!(response.status_code(), 200);
    let made = match response {
        Response::Todo(made) => made,
        other => panic!("unexpected response {:?}", other),
    };
    assert_eq!(made.title, "buy milk");
    assert!(!made.completed);

    let body = Some(UpdateTodo { title: None, completed: Some(true) });
    let response = serve(&mut table, Request::Update(made.id.clone(), body));
    assert_eq!(response.status_code(), 200);
    assert_eq!(
        response,
        Response::Todo(Todo {
            id: made.id.clone(),
            title: "buy milk".to_string(),
            completed: true,
            created_at: made.created_at.clone(),
        })
    );

    let response = serve(&mut table, Request::Delete(made.id.clone()));
    assert_eq!(response.status_code(), 204);
    assert_eq!(response, Response::NoContent);

    let listed = list(&mut table);
    assert!(listed.iter().all(|t| t.id != made.id));
    assert!(listed.is_empty());
}

#[test]
fn scenario_create_without_title() {
    let mut table = Table::new();
    let response = serve(&mut table, Request::Create(None));
    assert_eq!(response.status_code(), 400);
    assert!(list(&mut table).is_empty());
}

#[test]
fn scenario_update_of_unknown_id() {
    let bodies = [
        UpdateTodo { title: None, completed: None },
        UpdateTodo { title: Some("x".to_string()), completed: None },
        UpdateTodo { title: None, completed: Some(true) },
        UpdateTodo { title: Some(String::new()), completed: Some(false) },
    ];
    for body in bodies {
        let mut table = filled();
        let response = serve(&mut table, Request::Update("does-not-exist".to_string(), Some(body)));
        assert_eq!(response.status_code(), 404);
        assert_eq!(list(&mut table).len(), 3);
    }
}

#[test]
fn settle_runs_a_step_to_its_response() {
    let mut table = filled();
    let response = settle(&mut table, get_todos());
    assert_eq!(response, Response::Todos(list(&mut table)));
    let body = Some(UpdateTodo { title: Some("renamed".to_string()), completed: None });
    let response = settle(&mut table, update_todo("c".to_string(), body));
    assert_eq!(response, Response::Todo(todo("c", "renamed", false, "2024-01-03T00:00:00+00:00")));
    assert_eq!(
        table.select(&"c".to_string()),
        Some(TodoRow {
            id: "c".to_string(),
            title: "renamed".to_string(),
            completed: 0,
            created_at: "2024-01-03T00:00:00+00:00".to_string(),
        })
    );
}
