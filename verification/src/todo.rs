//! The todo record, as clients see it and as the table stores it, and the
//! bodies of the requests that create and change one.

use vstd::prelude::*;

verus! {

/// A todo item as it goes over the wire.
#[derive(Debug, PartialEq, Eq)]
pub struct Todo {
    pub id: String,
    pub title: String,
    pub completed: bool,
    pub created_at: String,
}

/// What a [`Todo`] holds.
pub struct TodoView {
    pub id: Seq<char>,
    pub title: Seq<char>,
    pub completed: bool,
    pub created_at: Seq<char>,
}

/// A todo item as the table stores it: `completed` is an integer column.
#[derive(Debug, PartialEq, Eq)]
pub struct TodoRow {
    pub id: String,
    pub title: String,
    pub completed: i32,
    pub created_at: String,
}

/// What a [`TodoRow`] holds.
pub struct RowView {
    pub id: Seq<char>,
    pub title: Seq<char>,
    pub completed: i32,
    pub created_at: Seq<char>,
}

/// The body of a request that creates a todo.
#[derive(Debug, PartialEq, Eq)]
pub struct CreateTodo {
    pub title: String,
}

/// The body of a request that changes a todo. A field that is absent keeps
/// its stored value.
#[derive(Debug, PartialEq, Eq)]
pub struct UpdateTodo {
    pub title: Option<String>,
    pub completed: Option<bool>,
}

/// What an [`UpdateTodo`] holds.
pub struct UpdateView {
    pub title: Option<Seq<char>>,
    pub completed: Option<bool>,
}

impl View for Todo {
    type V = TodoView;

    open spec fn view(&self) -> TodoView {
        TodoView {
            id: self.id@,
            title: self.title@,
            completed: self.completed,
            created_at: self.created_at@,
        }
    }
}

impl DeepView for Todo {
    type V = TodoView;

    open spec fn deep_view(&self) -> TodoView {
        self@
    }
}

impl View for TodoRow {
    type V = RowView;

    open spec fn view(&self) -> RowView {
        RowView {
            id: self.id@,
            title: self.title@,
            completed: self.completed,
            created_at: self.created_at@,
        }
    }
}

impl DeepView for TodoRow {
    type V = RowView;

    open spec fn deep_view(&self) -> RowView {
        self@
    }
}

impl View for CreateTodo {
    type V = Seq<char>;

    open spec fn view(&self) -> Seq<char> {
        self.title@
    }
}

impl View for UpdateTodo {
    type V = UpdateView;

    open spec fn view(&self) -> UpdateView {
        UpdateView {
            title: match self.title {
                Some(title) => Some(title@),
                None => None,
            },
            completed: self.completed,
        }
    }
}

/// The integer that the table stores for `completed`.
pub open spec fn flag_of(completed: bool) -> i32 {
    if completed {
        1
    } else {
        0
    }
}

impl RowView {
    /// The wire form of a stored row: `completed` holds exactly when the
    /// column is 1.
    pub open spec fn to_todo(self) -> TodoView {
        TodoView {
            id: self.id,
            title: self.title,
            completed: self.completed == 1,
            created_at: self.created_at,
        }
    }
}

impl TodoView {
    /// The stored form of a todo.
    pub open spec fn to_row(self) -> RowView {
        RowView {
            id: self.id,
            title: self.title,
            completed: flag_of(self.completed),
            created_at: self.created_at,
        }
    }

    /// This todo with the fields that `changes` supplies replaced; `id` and
    /// `created_at` stay.
    pub open spec fn merged(self, changes: UpdateView) -> TodoView {
        TodoView {
            id: self.id,
            title: match changes.title {
                Some(title) => title,
                None => self.title,
            },
            completed: match changes.completed {
                Some(completed) => completed,
                None => self.completed,
            },
            created_at: self.created_at,
        }
    }
}

impl Clone for Todo {
    fn clone(&self) -> (copy: Self)
        ensures
            copy@ == self@,
    {
        Todo {
            id: self.id.clone(),
            title: self.title.clone(),
            completed: self.completed,
            created_at: self.created_at.clone(),
        }
    }
}

impl Clone for TodoRow {
    fn clone(&self) -> (copy: Self)
        ensures
            copy@ == self@,
    {
        TodoRow {
            id: self.id.clone(),
            title: self.title.clone(),
            completed: self.completed,
            created_at: self.created_at.clone(),
        }
    }
}

impl Todo {
    /// Reads a stored row into its wire form.
    pub fn from_row(row: &TodoRow) -> (todo: Todo)
        ensures
            todo@ == row@.to_todo(),
    {
        Todo {
            id: row.id.clone(),
            title: row.title.clone(),
            completed: row.completed == 1,
            created_at: row.created_at.clone(),
        }
    }

    /// The row that stores this todo.
    pub fn to_row(&self) -> (row: TodoRow)
        ensures
            row@ == self@.to_row(),
    {
        TodoRow {
            id: self.id.clone(),
            title: self.title.clone(),
            completed: if self.completed {
                1
            } else {
                0
            },
            created_at: self.created_at.clone(),
        }
    }

    /// Applies the fields that `changes` supplies.
    pub fn merge(self, changes: UpdateTodo) -> (todo: Todo)
        ensures
            todo@ == self@.merged(changes@),
    {
        Todo {
            id: self.id,
            title: match changes.title {
                Some(title) => title,
                None => self.title,
            },
            completed: match changes.completed {
                Some(completed) => completed,
                None => self.completed,
            },
            created_at: self.created_at,
        }
    }
}

/// Reading rows one by one keeps their number and their order.
pub fn todos_from_rows(rows: &Vec<TodoRow>) -> (todos: Vec<Todo>)
    ensures
        todos.deep_view() == rows.deep_view().map_values(|row: RowView| row.to_todo()),
{
    let mut todos: Vec<Todo> = Vec::new();
    let mut i: usize = 0;
    while i < rows.len()
        invariant
            i <= rows.len(),
            todos.len() == i,
            forall|k: int| 0 <= k < i ==> todos[k]@ == rows[k]@.to_todo(),
        decreases rows.len() - i,
    {
        todos.push(Todo::from_row(&rows[i]));
        i += 1;
    }
    todos
}

} // verus!
