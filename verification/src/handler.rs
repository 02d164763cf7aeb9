//! The four request handlers, as steps between questions to the store.
//!
//! A handler does not touch the store. It returns a [`Step`]: the response,
//! or a [`Query`] for the store together with what is [`Pending`]. Whoever
//! owns the store runs the query and hands its [`Outcome`] to [`resume`],
//! which returns the next step. No handler asks more than two questions.

use crate::ident::{fresh_id, is_utc_timestamp, is_uuid_v4_text, timestamp_now};
use crate::todo::{
    flag_of, todos_from_rows, CreateTodo, RowView, Todo, TodoRow, TodoView, UpdateTodo, UpdateView,
};
use vstd::prelude::*;

verus! {

/// Why a request was not served.
#[derive(Clone, Copy, Debug, PartialEq, Eq, Structural)]
pub enum Failure {
    /// The body did not decode, or lacks what the request requires.
    BadRequest,
    /// No todo has the id that the request names.
    NotFound,
    /// The store failed. Nothing of the cause reaches the client.
    Storage,
}

/// What goes back to the client.
#[derive(Debug, PartialEq, Eq)]
pub enum Response {
    /// Every todo, newest first.
    Todos(Vec<Todo>),
    /// The todo that was created or changed.
    Todo(Todo),
    /// The todo was deleted; there is no body.
    NoContent,
    /// The request failed; there is no body.
    Failed(Failure),
}

/// What a [`Response`] holds.
pub enum ResponseView {
    Todos(Seq<TodoView>),
    Todo(TodoView),
    NoContent,
    Failed(Failure),
}

/// What a client asks for.
#[derive(Debug, PartialEq, Eq)]
pub enum Request {
    /// All todos.
    List,
    /// A new todo. `None` stands for a body that did not decode.
    Create(Option<CreateTodo>),
    /// Changes to the todo with this id. `None` stands for a body that did
    /// not decode.
    Update(String, Option<UpdateTodo>),
    /// The removal of the todo with this id.
    Delete(String),
}

/// What a [`Request`] holds.
pub enum RequestView {
    List,
    Create(Option<Seq<char>>),
    Update(Seq<char>, Option<UpdateView>),
    Delete(Seq<char>),
}

/// A question to the store.
#[derive(Debug, PartialEq, Eq)]
pub enum Query {
    /// All rows, by `created_at` descending.
    SelectAll,
    /// Add this row.
    Insert(TodoRow),
    /// The row with this id.
    Select(String),
    /// Overwrite `title` and `completed` of the row with this id.
    Update { id: String, title: String, completed: i32 },
    /// Remove the row with this id.
    Delete(String),
}

/// What a [`Query`] holds.
pub enum QueryView {
    SelectAll,
    Insert(RowView),
    Select(Seq<char>),
    Update { id: Seq<char>, title: Seq<char>, completed: i32 },
    Delete(Seq<char>),
}

/// What the store answered.
#[derive(Debug, PartialEq, Eq)]
pub enum Outcome {
    /// The rows that a `SelectAll` found.
    Rows(Vec<TodoRow>),
    /// The row that a `Select` found, if there is one.
    Row(Option<TodoRow>),
    /// How many rows an `Insert`, `Update` or `Delete` touched.
    Affected(u64),
    /// The store could not run the query.
    Failed,
}

/// What an [`Outcome`] holds.
pub enum OutcomeView {
    Rows(Seq<RowView>),
    Row(Option<RowView>),
    Affected(u64),
    Failed,
}

/// Where a handler stands while the store runs its query.
#[derive(Debug, PartialEq, Eq)]
pub enum Pending {
    /// Listing: the rows are awaited.
    Listing,
    /// Creating: this todo is being inserted.
    Creating(Todo),
    /// Updating: the row with this id is being looked up, to receive these
    /// changes.
    Finding(String, UpdateTodo),
    /// Updating: this todo, already merged, is being written.
    Writing(Todo),
    /// Deleting: the count of removed rows is awaited.
    Deleting,
}

/// What a [`Pending`] holds.
pub enum PendingView {
    Listing,
    Creating(TodoView),
    Finding(Seq<char>, UpdateView),
    Writing(TodoView),
    Deleting,
}

/// What a handler wants next.
#[derive(Debug, PartialEq, Eq)]
pub enum Step {
    /// Run this query and come back with its outcome.
    Ask(Query, Pending),
    /// Send this response.
    Done(Response),
}

/// What a [`Step`] holds.
pub enum StepView {
    Ask(QueryView, PendingView),
    Done(ResponseView),
}

impl View for Response {
    type V = ResponseView;

    open spec fn view(&self) -> ResponseView {
        match self {
            Response::Todos(todos) => ResponseView::Todos(todos.deep_view()),
            Response::Todo(todo) => ResponseView::Todo(todo@),
            Response::NoContent => ResponseView::NoContent,
            Response::Failed(failure) => ResponseView::Failed(*failure),
        }
    }
}

impl View for Request {
    type V = RequestView;

    open spec fn view(&self) -> RequestView {
        match self {
            Request::List => RequestView::List,
            Request::Create(body) => RequestView::Create(create_body(*body)),
            Request::Update(id, body) => RequestView::Update(id@, update_body(*body)),
            Request::Delete(id) => RequestView::Delete(id@),
        }
    }
}

impl View for Query {
    type V = QueryView;

    open spec fn view(&self) -> QueryView {
        match self {
            Query::SelectAll => QueryView::SelectAll,
            Query::Insert(row) => QueryView::Insert(row@),
            Query::Select(id) => QueryView::Select(id@),
            Query::Update { id, title, completed } => QueryView::Update {
                id: id@,
                title: title@,
                completed: *completed,
            },
            Query::Delete(id) => QueryView::Delete(id@),
        }
    }
}

impl View for Outcome {
    type V = OutcomeView;

    open spec fn view(&self) -> OutcomeView {
        match self {
            Outcome::Rows(rows) => OutcomeView::Rows(rows.deep_view()),
            Outcome::Row(row) => OutcomeView::Row(row.deep_view()),
            Outcome::Affected(count) => OutcomeView::Affected(*count),
            Outcome::Failed => OutcomeView::Failed,
        }
    }
}

impl View for Pending {
    type V = PendingView;

    open spec fn view(&self) -> PendingView {
        match self {
            Pending::Listing => PendingView::Listing,
            Pending::Creating(todo) => PendingView::Creating(todo@),
            Pending::Finding(id, changes) => PendingView::Finding(id@, changes@),
            Pending::Writing(todo) => PendingView::Writing(todo@),
            Pending::Deleting => PendingView::Deleting,
        }
    }
}

impl View for Step {
    type V = StepView;

    open spec fn view(&self) -> StepView {
        match self {
            Step::Ask(query, pending) => StepView::Ask(query@, pending@),
            Step::Done(response) => StepView::Done(response@),
        }
    }
}

/// The HTTP status of each failure.
pub open spec fn failure_code(failure: Failure) -> u16 {
    match failure {
        Failure::BadRequest => 400,
        Failure::NotFound => 404,
        Failure::Storage => 500,
    }
}

/// The HTTP status of each response.
pub open spec fn response_code(response: ResponseView) -> u16 {
    match response {
        ResponseView::Todos(_) => 200,
        ResponseView::Todo(_) => 200,
        ResponseView::NoContent => 204,
        ResponseView::Failed(failure) => failure_code(failure),
    }
}

impl Failure {
    /// The HTTP status that reports this failure.
    pub fn status_code(&self) -> (code: u16)
        ensures
            code == failure_code(*self),
    {
        match self {
            Failure::BadRequest => 400,
            Failure::NotFound => 404,
            Failure::Storage => 500,
        }
    }
}

impl Response {
    /// The HTTP status of this response.
    pub fn status_code(&self) -> (code: u16)
        ensures
            code == response_code(self@),
    {
        match self {
            Response::Todos(_) => 200,
            Response::Todo(_) => 200,
            Response::NoContent => 204,
            Response::Failed(failure) => failure.status_code(),
        }
    }
}

/// The first step of listing: ask for all rows.
pub open spec fn list_begun() -> StepView {
    StepView::Ask(QueryView::SelectAll, PendingView::Listing)
}

/// The todo that a create request with this title makes, given the
/// identifier and the timestamp that were drawn for it.
pub open spec fn new_todo(title: Seq<char>, id: Seq<char>, created_at: Seq<char>) -> TodoView {
    TodoView { id, title, completed: false, created_at }
}

/// The first step of creating. A body that did not decode (`None`) or whose
/// title is empty is refused before the store hears of it; otherwise the
/// new todo's row is to be inserted.
pub open spec fn create_begun(
    body: Option<Seq<char>>,
    id: Seq<char>,
    created_at: Seq<char>,
) -> StepView {
    match body {
        Some(title) if title.len() > 0 => {
            let todo = new_todo(title, id, created_at);
            StepView::Ask(QueryView::Insert(todo.to_row()), PendingView::Creating(todo))
        },
        _ => StepView::Done(ResponseView::Failed(Failure::BadRequest)),
    }
}

/// The first step of updating. A body that did not decode is refused
/// before the store hears of it; otherwise the row is to be looked up.
pub open spec fn update_begun(id: Seq<char>, body: Option<UpdateView>) -> StepView {
    match body {
        Some(changes) => StepView::Ask(QueryView::Select(id), PendingView::Finding(id, changes)),
        None => StepView::Done(ResponseView::Failed(Failure::BadRequest)),
    }
}

/// The first step of deleting: ask for the row's removal.
pub open spec fn delete_begun(id: Seq<char>) -> StepView {
    StepView::Ask(QueryView::Delete(id), PendingView::Deleting)
}

/// The todo that an update writes and reports: the stored row under the
/// id that the request named, with the supplied fields replaced.
pub open spec fn updated_todo(id: Seq<char>, stored: RowView, changes: UpdateView) -> TodoView {
    TodoView {
        id,
        title: stored.title,
        completed: stored.completed == 1,
        created_at: stored.created_at,
    }.merged(changes)
}

/// The step that follows an outcome.
///
/// A failed query, or an outcome of a kind that the pending query cannot
/// have, ends the request with [`Failure::Storage`]. A lookup that finds no
/// row and a delete that removes none end it with [`Failure::NotFound`].
pub open spec fn resumed(pending: PendingView, outcome: OutcomeView) -> StepView {
    match (pending, outcome) {
        (PendingView::Listing, OutcomeView::Rows(rows)) => StepView::Done(
            ResponseView::Todos(rows.map_values(|row: RowView| row.to_todo())),
        ),
        (PendingView::Creating(todo), OutcomeView::Affected(_)) => StepView::Done(
            ResponseView::Todo(todo),
        ),
        (PendingView::Finding(id, changes), OutcomeView::Row(Some(stored))) => {
            let todo = updated_todo(id, stored, changes);
            StepView::Ask(
                QueryView::Update { id, title: todo.title, completed: flag_of(todo.completed) },
                PendingView::Writing(todo),
            )
        },
        (PendingView::Finding(_, _), OutcomeView::Row(None)) => StepView::Done(
            ResponseView::Failed(Failure::NotFound),
        ),
        (PendingView::Writing(todo), OutcomeView::Affected(_)) => StepView::Done(
            ResponseView::Todo(todo),
        ),
        (PendingView::Deleting, OutcomeView::Affected(count)) => if count == 0 {
            StepView::Done(ResponseView::Failed(Failure::NotFound))
        } else {
            StepView::Done(ResponseView::NoContent)
        },
        _ => StepView::Done(ResponseView::Failed(Failure::Storage)),
    }
}

/// What the body of a create request holds, if it decoded.
pub open spec fn create_body(body: Option<CreateTodo>) -> Option<Seq<char>> {
    match body {
        Some(payload) => Some(payload@),
        None => None,
    }
}

/// What the body of an update request holds, if it decoded.
pub open spec fn update_body(body: Option<UpdateTodo>) -> Option<UpdateView> {
    match body {
        Some(payload) => Some(payload@),
        None => None,
    }
}

/// Whether a create request is accepted: its body decoded and its title is
/// not empty.
pub open spec fn create_accepted(body: Option<Seq<char>>) -> bool {
    body matches Some(title) && title.len() > 0
}

/// Begins a list request.
pub fn get_todos() -> (step: Step)
    ensures
        step@ == list_begun(),
{
    Step::Ask(Query::SelectAll, Pending::Listing)
}

/// Begins a create request for which the identifier and the timestamp have
/// been drawn already.
pub fn create_todo_with(body: Option<CreateTodo>, id: String, created_at: String) -> (step: Step)
    ensures
        step@ == create_begun(create_body(body), id@, created_at@),
{
    match body {
        Some(payload) => {
            if payload.title.as_str().is_empty() {
                Step::Done(Response::Failed(Failure::BadRequest))
            } else {
                let todo = Todo { id, title: payload.title, completed: false, created_at };
                let row = todo.to_row();
                Step::Ask(Query::Insert(row), Pending::Creating(todo))
            }
        },
        None => Step::Done(Response::Failed(Failure::BadRequest)),
    }
}

/// Begins a create request. A body that is accepted gets a fresh random
/// identifier and the present time; which ones, only the step tells.
pub fn create_todo(body: Option<CreateTodo>) -> (step: Step)
    ensures
        exists|id: Seq<char>, created_at: Seq<char>|
            {
                &&& create_accepted(create_body(body)) ==> is_uuid_v4_text(id) && is_utc_timestamp(
                    created_at,
                )
                &&& step@ == #[trigger] create_begun(create_body(body), id, created_at)
            },
{
    let accepted = match &body {
        Some(payload) => !payload.title.as_str().is_empty(),
        None => false,
    };
    if accepted {
        let id = fresh_id();
        let created_at = timestamp_now();
        create_todo_with(body, id, created_at)
    } else {
        let step = Step::Done(Response::Failed(Failure::BadRequest));
        assert(step@ == create_begun(create_body(body), Seq::empty(), Seq::empty()));
        step
    }
}

/// Begins an update request.
pub fn update_todo(id: String, body: Option<UpdateTodo>) -> (step: Step)
    ensures
        step@ == update_begun(id@, update_body(body)),
{
    match body {
        Some(changes) => {
            let wanted = id.clone();
            Step::Ask(Query::Select(wanted), Pending::Finding(id, changes))
        },
        None => Step::Done(Response::Failed(Failure::BadRequest)),
    }
}

/// Begins a delete request.
pub fn delete_todo(id: String) -> (step: Step)
    ensures
        step@ == delete_begun(id@),
{
    Step::Ask(Query::Delete(id), Pending::Deleting)
}

/// The first step of a request. Only a create request looks at `id` and
/// `created_at`.
pub open spec fn begun(request: RequestView, id: Seq<char>, created_at: Seq<char>) -> StepView {
    match request {
        RequestView::List => list_begun(),
        RequestView::Create(body) => create_begun(body, id, created_at),
        RequestView::Update(wanted, body) => update_begun(wanted, body),
        RequestView::Delete(wanted) => delete_begun(wanted),
    }
}

/// Whether a request will draw an identifier and a timestamp.
pub open spec fn draws(request: RequestView) -> bool {
    request matches RequestView::Create(body) && create_accepted(body)
}

/// Begins a request for which the identifier and the timestamp of a new
/// todo are given.
pub fn begin_with(request: Request, id: String, created_at: String) -> (step: Step)
    ensures
        step@ == begun(request@, id@, created_at@),
{
    match request {
        Request::List => get_todos(),
        Request::Create(body) => create_todo_with(body, id, created_at),
        Request::Update(wanted, body) => update_todo(wanted, body),
        Request::Delete(wanted) => delete_todo(wanted),
    }
}

/// Begins a request, drawing a fresh identifier and the present time if it
/// creates a todo.
pub fn begin(request: Request) -> (step: Step)
    ensures
        exists|id: Seq<char>, created_at: Seq<char>|
            {
                &&& draws(request@) ==> is_uuid_v4_text(id) && is_utc_timestamp(created_at)
                &&& step@ == #[trigger] begun(request@, id, created_at)
            },
{
    match request {
        Request::List => {
            let step = get_todos();
            assert(step@ == begun(request@, Seq::empty(), Seq::empty()));
            step
        },
        Request::Create(body) => {
            let step = create_todo(body);
            let ghost (id, created_at) = choose|id: Seq<char>, created_at: Seq<char>|
                {
                    &&& create_accepted(create_body(body)) ==> is_uuid_v4_text(id)
                        && is_utc_timestamp(created_at)
                    &&& step@ == #[trigger] create_begun(create_body(body), id, created_at)
                };
            assert(step@ == begun(request@, id, created_at));
            step
        },
        Request::Update(wanted, body) => {
            let step = update_todo(wanted, body);
            assert(step@ == begun(request@, Seq::empty(), Seq::empty()));
            step
        },
        Request::Delete(wanted) => {
            let step = delete_todo(wanted);
            assert(step@ == begun(request@, Seq::empty(), Seq::empty()));
            step
        },
    }
}

/// How many questions a step may still put to the store.
pub open spec fn asks_left(step: StepView) -> nat {
    match step {
        StepView::Done(_) => 0,
        StepView::Ask(_, PendingView::Finding(_, _)) => 2,
        StepView::Ask(_, _) => 1,
    }
}

/// Takes the outcome of the pending query and returns the next step.
pub fn resume(pending: Pending, outcome: Outcome) -> (step: Step)
    ensures
        step@ == resumed(pending@, outcome@),
{
    match (pending, outcome) {
        (Pending::Listing, Outcome::Rows(rows)) => {
            Step::Done(Response::Todos(todos_from_rows(&rows)))
        },
        (Pending::Creating(todo), Outcome::Affected(_)) => Step::Done(Response::Todo(todo)),
        (Pending::Finding(id, changes), Outcome::Row(Some(stored))) => {
            let existing = Todo {
                id,
                title: stored.title,
                completed: stored.completed == 1,
                created_at: stored.created_at,
            };
            let todo = existing.merge(changes);
            let query = Query::Update {
                id: todo.id.clone(),
                title: todo.title.clone(),
                completed: if todo.completed {
                    1
                } else {
                    0
                },
            };
            Step::Ask(query, Pending::Writing(todo))
        },
        (Pending::Finding(_, _), Outcome::Row(None)) => {
            Step::Done(Response::Failed(Failure::NotFound))
        },
        (Pending::Writing(todo), Outcome::Affected(_)) => Step::Done(Response::Todo(todo)),
        (Pending::Deleting, Outcome::Affected(count)) => {
            if count == 0 {
                Step::Done(Response::Failed(Failure::NotFound))
            } else {
                Step::Done(Response::NoContent)
            }
        },
        _ => Step::Done(Response::Failed(Failure::Storage)),
    }
}

} // verus!
