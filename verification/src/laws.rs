//! What holds of the service as a whole, proved from the handlers and the
//! table together.

use crate::handler::{new_todo, updated_todo, Failure, RequestView, ResponseView};
use crate::service::{changed, created, listed, removed, served, settled};
use crate::table::{
    has_id, index_of, lemma_deleted_well_formed, lemma_index_of, lemma_inserted_well_formed,
    lemma_slot, lemma_updated_well_formed, newest_first, slot, well_formed,
};
use crate::text::text_le;
use crate::todo::{flag_of, RowView, TodoView, UpdateView};
use vstd::prelude::*;

verus! {

/// The todos of a table, in the table's order.
pub open spec fn listing(rows: Seq<RowView>) -> Seq<TodoView> {
    rows.map_values(|row: RowView| row.to_todo())
}

/// Storing a todo and reading it back gives the same todo. Reading a row
/// and storing it again gives the same row if `completed` was 0 or 1, and
/// otherwise the row with `completed` 0.
pub proof fn law_row_round_trip(todo: TodoView, row: RowView)
    ensures
        todo.to_row().to_todo() == todo,
        row.completed == 0 || row.completed == 1 ==> row.to_todo().to_row() == row,
        row.to_todo().to_row() == (RowView {
            completed: if row.completed == 1 {
                1
            } else {
                0
            },
            ..row
        }),
{
}

/// One request as it was served: the request, and the identifier and the
/// timestamp that were drawn for it.
pub struct Call {
    pub request: RequestView,
    pub id: Seq<char>,
    pub created_at: Seq<char>,
}

/// The rows after a history of requests.
pub open spec fn replayed(rows: Seq<RowView>, history: Seq<Call>) -> Seq<RowView>
    decreases history.len(),
{
    if history.len() == 0 {
        rows
    } else {
        let call = history.last();
        served(replayed(rows, history.drop_last()), call.request, call.id, call.created_at).0
    }
}

/// A list request changes nothing and returns every todo of the table,
/// none before one that was created later.
pub proof fn law_list_newest_first(rows: Seq<RowView>)
    requires
        well_formed(rows),
    ensures
        listed(rows) == (rows, ResponseView::Todos(listing(rows))),
        forall|i: int, j: int|
            0 <= i <= j < listing(rows).len() ==> text_le(
                listing(rows)[j].created_at,
                listing(rows)[i].created_at,
            ),
{
    reveal_with_fuel(settled, 2);
}

/// Whatever is asked, in whatever order, a well-formed table stays well
/// formed: no id occurs twice and the newest row stands first.
pub proof fn law_served_well_formed(
    rows: Seq<RowView>,
    request: RequestView,
    id: Seq<char>,
    created_at: Seq<char>,
)
    requires
        well_formed(rows),
    ensures
        well_formed(served(rows, request, id, created_at).0),
{
    reveal_with_fuel(settled, 3);
    match request {
        RequestView::List => {},
        RequestView::Create(body) => {
            if let Some(title) = body {
                lemma_inserted_well_formed(rows, new_todo(title, id, created_at).to_row());
            }
        },
        RequestView::Update(wanted, body) => {
            if let Some(changes) = body {
                if has_id(rows, wanted) {
                    let todo = updated_todo(wanted, rows[index_of(rows, wanted)], changes);
                    lemma_updated_well_formed(rows, wanted, todo.title, flag_of(todo.completed));
                }
            }
        },
        RequestView::Delete(wanted) => {
            lemma_deleted_well_formed(rows, wanted);
        },
    }
}

/// After any history of requests on an empty table, whatever the order in
/// which todos were created, a listing has the newest first.
pub proof fn law_history_newest_first(history: Seq<Call>)
    ensures
        well_formed(replayed(Seq::empty(), history)),
        newest_first(replayed(Seq::empty(), history)),
    decreases history.len(),
{
    if history.len() > 0 {
        let call = history.last();
        law_history_newest_first(history.drop_last());
        law_served_well_formed(
            replayed(Seq::empty(), history.drop_last()),
            call.request,
            call.id,
            call.created_at,
        );
    }
}

/// Creating a todo with a title that is not empty and an id that no row
/// has answers with the new todo, not completed, and a listing then holds
/// that todo once, among the todos it held before, in their order. With an
/// id that is taken the store refuses, and nothing changes.
pub proof fn law_create_then_list(
    rows: Seq<RowView>,
    title: Seq<char>,
    id: Seq<char>,
    created_at: Seq<char>,
)
    requires
        well_formed(rows),
        title.len() > 0,
    ensures
        has_id(rows, id) ==> created(rows, Some(title), id, created_at) == (
            rows,
            ResponseView::Failed(Failure::Storage),
        ),
        !has_id(rows, id) ==> {
            let todo = TodoView { id, title, completed: false, created_at };
            let (after, response) = created(rows, Some(title), id, created_at);
            let at = slot(rows, created_at);
            &&& response == ResponseView::Todo(todo)
            &&& 0 <= at <= rows.len()
            &&& listed(after) == (after, ResponseView::Todos(listing(after)))
            &&& listing(after) == listing(rows).insert(at, todo)
            &&& forall|k: int| 0 <= k < listing(rows).len() ==> listing(rows)[k].id != id
            &&& forall|k: int|
                0 <= k < listing(after).len() ==> (listing(after)[k].id == id <==> k == at)
        },
{
    reveal_with_fuel(settled, 2);
    if !has_id(rows, id) {
        let todo = TodoView { id, title, completed: false, created_at };
        let (after, response) = created(rows, Some(title), id, created_at);
        let at = slot(rows, created_at);
        lemma_slot(rows, created_at, 0);
        assert(after == rows.insert(at, todo.to_row()));
        assert(listing(after) =~= listing(rows).insert(at, todo));
        assert forall|k: int| 0 <= k < listing(rows).len() implies listing(rows)[k].id != id by {
            assert(rows[k].id != id);
        }
        assert forall|k: int| 0 <= k < listing(after).len() implies (listing(after)[k].id == id
            <==> k == at) by {
            if k < at {
                assert(after[k] == rows[k]);
            } else if k > at {
                assert(after[k] == rows[k - 1]);
            }
        }
    }
}

/// Updating an existing todo with only `completed` supplied answers with
/// the todo as it was but for `completed`, and changes that column of that
/// row and nothing else in the table.
pub proof fn law_update_completed_only(rows: Seq<RowView>, id: Seq<char>, completed: bool)
    requires
        well_formed(rows),
        has_id(rows, id),
    ensures
        ({
            let at = index_of(rows, id);
            let stored = rows[at];
            let body = UpdateView { title: None, completed: Some(completed) };
            let (after, response) = changed(rows, id, Some(body));
            &&& response == ResponseView::Todo(
                TodoView { id, title: stored.title, completed, created_at: stored.created_at },
            )
            &&& after == rows.update(
                at,
                RowView {
                    id,
                    title: stored.title,
                    completed: flag_of(completed),
                    created_at: stored.created_at,
                },
            )
        }),
{
    reveal_with_fuel(settled, 3);
}

/// Updating an existing todo with only `title` supplied answers with the
/// todo as it was but for `title`, and changes that column of that row and
/// nothing else in the table but the spelling of `completed`, which is
/// stored as 1 or 0.
pub proof fn law_update_title_only(rows: Seq<RowView>, id: Seq<char>, title: Seq<char>)
    requires
        well_formed(rows),
        has_id(rows, id),
    ensures
        ({
            let at = index_of(rows, id);
            let stored = rows[at];
            let body = UpdateView { title: Some(title), completed: None };
            let (after, response) = changed(rows, id, Some(body));
            &&& response == ResponseView::Todo(
                TodoView {
                    id,
                    title,
                    completed: stored.to_todo().completed,
                    created_at: stored.created_at,
                },
            )
            &&& after == rows.update(
                at,
                RowView {
                    id,
                    title,
                    completed: flag_of(stored.to_todo().completed),
                    created_at: stored.created_at,
                },
            )
            &&& after[at].to_todo().completed == stored.to_todo().completed
        }),
{
    reveal_with_fuel(settled, 3);
}

/// An update whose body decoded, or a delete, that names an id which no
/// row has is answered with not-found and changes nothing.
pub proof fn law_missing_id(rows: Seq<RowView>, id: Seq<char>, changes: UpdateView)
    requires
        well_formed(rows),
        !has_id(rows, id),
    ensures
        changed(rows, id, Some(changes)) == (rows, ResponseView::Failed(Failure::NotFound)),
        removed(rows, id) == (rows, ResponseView::Failed(Failure::NotFound)),
{
    reveal_with_fuel(settled, 3);
}

/// Deleting an existing todo removes its row and no other, a listing then
/// holds no todo with that id, and a second delete is answered with
/// not-found.
pub proof fn law_delete(rows: Seq<RowView>, id: Seq<char>)
    requires
        well_formed(rows),
        has_id(rows, id),
    ensures
        ({
            let (after, response) = removed(rows, id);
            &&& response == ResponseView::NoContent
            &&& after == rows.remove(index_of(rows, id))
            &&& after.len() == rows.len() - 1
            &&& !has_id(after, id)
            &&& listed(after) == (after, ResponseView::Todos(listing(after)))
            &&& forall|k: int| 0 <= k < listing(after).len() ==> listing(after)[k].id != id
            &&& removed(after, id) == (after, ResponseView::Failed(Failure::NotFound))
        }),
{
    reveal_with_fuel(settled, 3);
    let at = index_of(rows, id);
    let after = rows.remove(at);
    assert forall|k: int| 0 <= k < after.len() implies after[k].id != id by {
        let before_k = if k < at { k } else { k + 1 };
        assert(after[k] == rows[before_k]);
        lemma_index_of(rows, before_k);
    }
}

} // verus!
