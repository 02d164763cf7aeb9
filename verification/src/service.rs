//! Serving a request against the in-memory table: the loop that runs each
//! query a handler puts and hands the outcome back.

use crate::handler::{
    asks_left, begin, begin_with, begun, create_begun, delete_begun, draws, list_begun, resume,
    resumed, update_begun, Request, RequestView, Response, ResponseView, Step, StepView,
};
use crate::ident::{is_utc_timestamp, is_uuid_v4_text};
use crate::table::{ran, Table};
use crate::todo::{RowView, UpdateView};
use vstd::prelude::*;

verus! {

/// The rows and the response once every question of `step` has been run
/// against `rows`.
pub open spec fn settled(rows: Seq<RowView>, step: StepView) -> (Seq<RowView>, ResponseView)
    decreases asks_left(step),
{
    match step {
        StepView::Done(response) => (rows, response),
        StepView::Ask(query, pending) => {
            let (next_rows, outcome) = ran(rows, query);
            settled(next_rows, resumed(pending, outcome))
        },
    }
}

/// The rows and the response after a list request.
pub open spec fn listed(rows: Seq<RowView>) -> (Seq<RowView>, ResponseView) {
    settled(rows, list_begun())
}

/// The rows and the response after a create request for which `id` and
/// `created_at` were drawn.
pub open spec fn created(
    rows: Seq<RowView>,
    body: Option<Seq<char>>,
    id: Seq<char>,
    created_at: Seq<char>,
) -> (Seq<RowView>, ResponseView) {
    settled(rows, create_begun(body, id, created_at))
}

/// The rows and the response after an update request.
pub open spec fn changed(rows: Seq<RowView>, id: Seq<char>, body: Option<UpdateView>) -> (
    Seq<RowView>,
    ResponseView,
) {
    settled(rows, update_begun(id, body))
}

/// The rows and the response after a delete request.
pub open spec fn removed(rows: Seq<RowView>, id: Seq<char>) -> (Seq<RowView>, ResponseView) {
    settled(rows, delete_begun(id))
}

/// The rows and the response after a request, given the identifier and the
/// timestamp that a create request draws.
pub open spec fn served(
    rows: Seq<RowView>,
    request: RequestView,
    id: Seq<char>,
    created_at: Seq<char>,
) -> (Seq<RowView>, ResponseView) {
    match request {
        RequestView::List => listed(rows),
        RequestView::Create(body) => created(rows, body, id, created_at),
        RequestView::Update(wanted, body) => changed(rows, wanted, body),
        RequestView::Delete(wanted) => removed(rows, wanted),
    }
}

/// Runs the questions of `step` against the table until the response is
/// there.
pub fn settle(table: &mut Table, step: Step) -> (response: Response)
    ensures
        (final(table)@, response@) == settled(old(table)@, step@),
{
    let ghost first = step@;
    let mut current = step;
    loop
        invariant
            first == step@,
            settled(table@, current@) == settled(old(table)@, first),
        decreases asks_left(current@),
    {
        match current {
            Step::Done(response) => {
                return response;
            },
            Step::Ask(query, pending) => {
                let outcome = table.run(query);
                current = resume(pending, outcome);
            },
        }
    }
}

/// Serves a request for which the identifier and the timestamp of a new
/// todo are given.
pub fn serve_with(table: &mut Table, request: Request, id: String, created_at: String) -> (response:
    Response)
    ensures
        (final(table)@, response@) == served(old(table)@, request@, id@, created_at@),
{
    let step = begin_with(request, id, created_at);
    settle(table, step)
}

/// Serves a request. A create request that is accepted draws a fresh
/// random identifier and the present time.
pub fn serve(table: &mut Table, request: Request) -> (response: Response)
    ensures
        exists|id: Seq<char>, created_at: Seq<char>|
            {
                &&& draws(request@) ==> is_uuid_v4_text(id) && is_utc_timestamp(created_at)
                &&& (final(table)@, response@) == #[trigger] served(
                    old(table)@,
                    request@,
                    id,
                    created_at,
                )
            },
{
    let step = begin(request);
    let ghost (id, created_at) = choose|id: Seq<char>, created_at: Seq<char>|
        {
            &&& draws(request@) ==> is_uuid_v4_text(id) && is_utc_timestamp(created_at)
            &&& step@ == #[trigger] begun(request@, id, created_at)
        };
    let response = settle(table, step);
    assert((table@, response@) == served(old(table)@, request@, id, created_at));
    response
}

} // verus!
