use todo_service::handler::{Outcome, Query};
use todo_service::table::Table;
use todo_service::todo::TodoRow;

fn row(id: &str, title: &str, completed: i32, created_at: &str) -> TodoRow {
    TodoRow {
        id: id.to_string(),
        title: title.to_string(),
        completed,
        created_at: created_at.to_string(),
    }
}

fn ids(table: &Table) -> Vec<String> {
    table.select_all().into_iter().map(|stored| stored.id).collect()
}

fn filled() -> Table {
    let mut table = Table::new();
    assert!(table.insert(row("b", "second", 0, "2024-01-02T00:00:00+00:00")));
    assert!(table.insert(row("c", "third", 1, "2024-01-03T00:00:00+00:00")));
    assert!(table.insert(row("a", "first", 0, "2024-01-01T00:00:00+00:00")));
    table
}

#[test]
fn a_new_table_is_empty() {
    let table = Table::new();
    assert_eq!(table.len(), 0);
    assert!(table.select_all().is_empty());
    assert_eq!(table.select(&"a".to_string()), None);
}

#[test]
fn insert_keeps_the_newest_first_whatever_the_order_of_arrival() {
    let table = filled();
    assert_eq!(table.len(), 3);
    assert_eq!(
        table.select_all(),
        vec![
            row("c", "third", 1, "2024-01-03T00:00:00+00:00"),
            row("b", "second", 0, "2024-01-02T00:00:00+00:00"),
            row("a", "first", 0, "2024-01-01T00:00:00+00:00"),
        ]
    );
}

#[test]
fn insert_in_every_order_gives_the_same_listing() {
    let stamps = ["2024-01-01", "2024-01-02", "2024-01-03"];
    let orders = [[0, 1, 2], [0, 2, 1], [1, 0, 2], [1, 2, 0], [2, 0, 1], [2, 1, 0]];
    for order in orders {
        let mut table = Table::new();
        for i in order {
            assert!(table.insert(row(stamps[i], "t", 0, stamps[i])));
        }
        assert_eq!(ids(&table), vec!["2024-01-03", "2024-01-02", "2024-01-01"]);
    }
}

#[test]
fn insert_puts_a_row_before_those_of_its_own_time() {
    let mut table = Table::new();
    assert!(table.insert(row("old", "t", 0, "1")));
    assert!(table.insert(row("x", "t", 0, "2")));
    assert!(table.insert(row("y", "t", 0, "2")));
    assert!(table.insert(row("new", "t", 0, "3")));
    assert_eq!(ids(&table), vec!["new", "y", "x", "old"]);
}

#[test]
fn insert_refuses_an_id_that_is_taken() {
    let mut table = filled();
    let before = table.select_all();
    assert!(!table.insert(row("b", "other", 1, "2030-01-01T00:00:00+00:00")));
    assert_eq!(table.select_all(), before);
}

#[test]
fn select_finds_the_row_with_the_id() {
    let table = filled();
    assert_eq!(
        table.select(&"b".to_string()),
        Some(row("b", "second", 0, "2024-01-02T00:00:00+00:00"))
    );
    assert_eq!(table.select(&"B".to_string()), None);
    assert_eq!(table.select(&"".to_string()), None);
}

#[test]
fn update_overwrites_title_and_completed_of_one_row() {
    let mut table = filled();
    assert_eq!(table.update(&"b".to_string(), "changed".to_string(), 1), 1);
    assert_eq!(
        table.select_all(),
        vec![
            row("c", "third", 1, "2024-01-03T00:00:00+00:00"),
            row("b", "changed", 1, "2024-01-02T00:00:00+00:00"),
            row("a", "first", 0, "2024-01-01T00:00:00+00:00"),
        ]
    );
}

#[test]
fn update_of_a_missing_id_touches_nothing() {
    let mut table = filled();
    let before = table.select_all();
    assert_eq!(table.update(&"zz".to_string(), "changed".to_string(), 1), 0);
    assert_eq!(table.select_all(), before);
}

#[test]
fn delete_removes_one_row() {
    let mut table = filled();
    assert_eq!(table.delete(&"b".to_string()), 1);
    assert_eq!(ids(&table), vec!["c", "a"]);
    assert_eq!(table.len(), 2);
    assert_eq!(table.delete(&"b".to_string()), 0);
    assert_eq!(ids(&table), vec!["c", "a"]);
}

#[test]
fn delete_of_a_missing_id_touches_nothing() {
    let mut table = Table::new();
    assert_eq!(table.delete(&"a".to_string()), 0);
    assert_eq!(table.len(), 0);
}

#[test]
fn an_id_can_be_used_again_once_its_row_is_gone() {
    let mut table = filled();
    assert_eq!(table.delete(&"c".to_string()), 1);
    assert!(table.insert(row("c", "again", 0, "2023-01-01T00:00:00+00:00")));
    assert_eq!(ids(&table), vec!["b", "a", "c"]);
}

#[test]
fn run_answers_each_query() {
    let mut table = Table::new();
    assert_eq!(table.run(Query::SelectAll), Outcome::Rows(Vec::new()));
    assert_eq!(table.run(Query::Insert(row("a", "first", 0, "1"))), Outcome::Affected(1));
    assert_eq!(table.run(Query::Insert(row("a", "again", 0, "2"))), Outcome::Failed);
    assert_eq!(
        table.run(Query::Select("a".to_string())),
        Outcome::Row(Some(row("a", "first", 0, "1")))
    );
    assert_eq!(table.run(Query::Select("b".to_string())), Outcome::Row(None));
    assert_eq!(
        table.run(Query::Update { id: "a".to_string(), title: "done".to_string(), completed: 1 }),
        Outcome::Affected(1)
    );
    assert_eq!(
        table.run(Query::Update { id: "b".to_string(), title: "done".to_string(), completed: 1 }),
        Outcome::Affected(0)
    );
    assert_eq!(table.run(Query::SelectAll), Outcome::Rows(vec![row("a", "done", 1, "1")]));
    assert_eq!(table.run(Query::Delete("b".to_string())), Outcome::Affected(0));
    assert_eq!(table.run(Query::Delete("a".to_string())), Outcome::Affected(1));
    assert_eq!(table.run(Query::SelectAll), Outcome::Rows(Vec::new()));
}
