//! The table of todo rows, held in memory.
//!
//! A table is a sequence of rows in which no id occurs twice, kept in the
//! order in which a listing returns them: by `created_at` descending, as
//! text. Each operation is one statement of the store: select all, insert,
//! select by id, update by id, delete by id.

use crate::handler::{Outcome, OutcomeView, Query, QueryView};
use crate::text::{lemma_text_le_total, lemma_text_le_transitive, text_le, text_le_exec};
use crate::todo::{RowView, TodoRow};
use vstd::prelude::*;

verus! {

/// No two rows share an id.
pub open spec fn distinct_ids(rows: Seq<RowView>) -> bool {
    forall|i: int, j: int| 0 <= i < j < rows.len() ==> rows[i].id != rows[j].id
}

/// No row stands before one with a later `created_at`.
pub open spec fn newest_first(rows: Seq<RowView>) -> bool {
    forall|i: int, j: int|
        0 <= i <= j < rows.len() ==> text_le(rows[j].created_at, rows[i].created_at)
}

/// What holds of the rows of every table.
pub open spec fn well_formed(rows: Seq<RowView>) -> bool {
    distinct_ids(rows) && newest_first(rows)
}

/// Whether some row has this id.
pub open spec fn has_id(rows: Seq<RowView>, id: Seq<char>) -> bool {
    exists|i: int| 0 <= i < rows.len() && rows[i].id == id
}

/// Where the row with this id stands. Meaningful only if there is one.
pub open spec fn index_of(rows: Seq<RowView>, id: Seq<char>) -> int {
    choose|i: int| 0 <= i < rows.len() && rows[i].id == id
}

/// The row with this id, if there is one.
pub open spec fn row_with_id(rows: Seq<RowView>, id: Seq<char>) -> Option<RowView> {
    if has_id(rows, id) {
        Some(rows[index_of(rows, id)])
    } else {
        None
    }
}

/// The first place at or after `from` whose row is not newer than
/// `created_at`; the number of rows if every row from there on is newer.
pub open spec fn slot_from(rows: Seq<RowView>, created_at: Seq<char>, from: int) -> int
    decreases rows.len() - from,
{
    if from < 0 || from >= rows.len() {
        rows.len() as int
    } else if text_le(rows[from].created_at, created_at) {
        from
    } else {
        slot_from(rows, created_at, from + 1)
    }
}

/// Where a new row with this `created_at` goes: behind every row that is
/// newer, before every row that is not.
pub open spec fn slot(rows: Seq<RowView>, created_at: Seq<char>) -> int {
    slot_from(rows, created_at, 0)
}

/// The rows after an insert. A row whose id is taken is refused and
/// changes nothing.
pub open spec fn inserted(rows: Seq<RowView>, row: RowView) -> Seq<RowView> {
    if has_id(rows, row.id) {
        rows
    } else {
        rows.insert(slot(rows, row.created_at), row)
    }
}

/// The rows after an update: `title` and `completed` of the row with this
/// id are overwritten, every other row and column stays.
pub open spec fn updated(
    rows: Seq<RowView>,
    id: Seq<char>,
    title: Seq<char>,
    completed: i32,
) -> Seq<RowView> {
    if has_id(rows, id) {
        let i = index_of(rows, id);
        rows.update(
            i,
            RowView { id: rows[i].id, title, completed, created_at: rows[i].created_at },
        )
    } else {
        rows
    }
}

/// The rows after a delete: the row with this id is gone, every other row
/// stays in its order.
pub open spec fn deleted(rows: Seq<RowView>, id: Seq<char>) -> Seq<RowView> {
    if has_id(rows, id) {
        rows.remove(index_of(rows, id))
    } else {
        rows
    }
}

/// How many rows a statement that names this id touches.
pub open spec fn matched(rows: Seq<RowView>, id: Seq<char>) -> u64 {
    if has_id(rows, id) {
        1
    } else {
        0
    }
}

/// What a query does to the rows, and what the table answers.
///
/// Only an insert whose id is taken fails. An insert that succeeds touches
/// one row; an update or a delete touches the row that has the id, if
/// there is one.
pub open spec fn ran(rows: Seq<RowView>, query: QueryView) -> (Seq<RowView>, OutcomeView) {
    match query {
        QueryView::SelectAll => (rows, OutcomeView::Rows(rows)),
        QueryView::Insert(row) => if has_id(rows, row.id) {
            (rows, OutcomeView::Failed)
        } else {
            (inserted(rows, row), OutcomeView::Affected(1))
        },
        QueryView::Select(id) => (rows, OutcomeView::Row(row_with_id(rows, id))),
        QueryView::Update { id, title, completed } => (
            updated(rows, id, title, completed),
            OutcomeView::Affected(matched(rows, id)),
        ),
        QueryView::Delete(id) => (deleted(rows, id), OutcomeView::Affected(matched(rows, id))),
    }
}

/// Among distinct ids, a row's id is found at that row's place.
pub proof fn lemma_index_of(rows: Seq<RowView>, i: int)
    requires
        distinct_ids(rows),
        0 <= i < rows.len(),
    ensures
        has_id(rows, rows[i].id),
        index_of(rows, rows[i].id) == i,
{
    let found = index_of(rows, rows[i].id);
    assert(0 <= found < rows.len() && rows[found].id == rows[i].id);
}

/// The slot lies within the table, every row before it is strictly newer,
/// and the row at it, if there is one, is not.
pub proof fn lemma_slot(rows: Seq<RowView>, created_at: Seq<char>, from: int)
    requires
        0 <= from <= rows.len(),
    ensures
        from <= slot_from(rows, created_at, from) <= rows.len(),
        forall|k: int|
            from <= k < slot_from(rows, created_at, from) ==> !text_le(
                #[trigger] rows[k].created_at,
                created_at,
            ),
        slot_from(rows, created_at, from) < rows.len() ==> text_le(
            rows[slot_from(rows, created_at, from)].created_at,
            created_at,
        ),
    decreases rows.len() - from,
{
    if from < rows.len() && !text_le(rows[from].created_at, created_at) {
        lemma_slot(rows, created_at, from + 1);
    }
}

/// An insert keeps a table well formed.
pub proof fn lemma_inserted_well_formed(rows: Seq<RowView>, row: RowView)
    requires
        well_formed(rows),
    ensures
        well_formed(inserted(rows, row)),
{
    if !has_id(rows, row.id) {
        let at = slot(rows, row.created_at);
        let after = rows.insert(at, row);
        lemma_slot(rows, row.created_at, 0);
        assert forall|i: int, j: int| 0 <= i < j < after.len() implies after[i].id
            != after[j].id by {
            if i != at && j != at {
                let before_i = if i < at { i } else { i - 1 };
                let before_j = if j < at { j } else { j - 1 };
                assert(after[i] == rows[before_i]);
                assert(after[j] == rows[before_j]);
            } else if i == at {
                assert(after[j] == rows[j - 1]);
            } else {
                assert(after[i] == rows[i]);
            }
        }
        assert forall|i: int, j: int| 0 <= i <= j < after.len() implies text_le(
            after[j].created_at,
            after[i].created_at,
        ) by {
            if i == j {
                lemma_text_le_total(after[i].created_at, after[i].created_at);
            } else if i != at && j != at {
                let before_i = if i < at { i } else { i - 1 };
                let before_j = if j < at { j } else { j - 1 };
                assert(after[i] == rows[before_i]);
                assert(after[j] == rows[before_j]);
            } else if i == at {
                assert(after[j] == rows[j - 1]);
                lemma_text_le_transitive(
                    rows[j - 1].created_at,
                    rows[at].created_at,
                    row.created_at,
                );
            } else {
                assert(after[i] == rows[i]);
                lemma_text_le_total(rows[i].created_at, row.created_at);
            }
        }
    }
}

/// An update keeps a table well formed.
pub proof fn lemma_updated_well_formed(
    rows: Seq<RowView>,
    id: Seq<char>,
    title: Seq<char>,
    completed: i32,
)
    requires
        well_formed(rows),
    ensures
        well_formed(updated(rows, id, title, completed)),
{
}

/// A delete keeps a table well formed.
pub proof fn lemma_deleted_well_formed(rows: Seq<RowView>, id: Seq<char>)
    requires
        well_formed(rows),
    ensures
        well_formed(deleted(rows, id)),
{
    if has_id(rows, id) {
        let at = index_of(rows, id);
        let after = rows.remove(at);
        assert forall|i: int, j: int| 0 <= i < j < after.len() implies after[i].id
            != after[j].id by {
            let before_i = if i < at { i } else { i + 1 };
            let before_j = if j < at { j } else { j + 1 };
            assert(after[i] == rows[before_i]);
            assert(after[j] == rows[before_j]);
        }
        assert forall|i: int, j: int| 0 <= i <= j < after.len() implies text_le(
            after[j].created_at,
            after[i].created_at,
        ) by {
            let before_i = if i < at { i } else { i + 1 };
            let before_j = if j < at { j } else { j + 1 };
            assert(after[i] == rows[before_i]);
            assert(after[j] == rows[before_j]);
        }
    }
}

/// The table of todo rows.
pub struct Table {
    rows: Vec<TodoRow>,
}

impl View for Table {
    type V = Seq<RowView>;

    closed spec fn view(&self) -> Seq<RowView> {
        self.rows.deep_view()
    }
}

impl Table {
    #[verifier::type_invariant]
    spec fn valid(self) -> bool {
        well_formed(self@)
    }

    /// A table without rows.
    pub fn new() -> (table: Table)
        ensures
            table@ == Seq::<RowView>::empty(),
    {
        Table { rows: Vec::new() }
    }

    /// The number of rows.
    pub fn len(&self) -> (count: usize)
        ensures
            count == self@.len(),
    {
        self.rows.len()
    }

    /// Where the row with this id stands, if there is one.
    fn position(&self, id: &String) -> (found: Option<usize>)
        ensures
            well_formed(self@),
            has_id(self@, id@) == found.is_some(),
            found matches Some(i) ==> i == index_of(self@, id@) && i < self@.len(),
    {
        proof {
            use_type_invariant(self);
        }
        let mut i: usize = 0;
        while i < self.rows.len()
            invariant
                i <= self.rows.len(),
                forall|k: int| 0 <= k < i ==> self@[k].id != id@,
                well_formed(self@),
            decreases self.rows.len() - i,
        {
            if self.rows[i].id == *id {
                proof {
                    lemma_index_of(self@, i as int);
                }
                return Some(i);
            }
            i += 1;
        }
        None
    }

    /// All rows, newest first.
    pub fn select_all(&self) -> (rows: Vec<TodoRow>)
        ensures
            rows.deep_view() == self@,
            well_formed(self@),
    {
        proof {
            use_type_invariant(self);
        }
        let mut rows: Vec<TodoRow> = Vec::new();
        let mut i: usize = 0;
        while i < self.rows.len()
            invariant
                i <= self.rows.len(),
                rows.len() == i,
                forall|k: int| 0 <= k < i ==> rows[k]@ == self@[k],
            decreases self.rows.len() - i,
        {
            rows.push(self.rows[i].clone());
            i += 1;
        }
        rows
    }

    /// The row with this id, if there is one.
    pub fn select(&self, id: &String) -> (row: Option<TodoRow>)
        ensures
            row.deep_view() == row_with_id(self@, id@),
    {
        match self.position(id) {
            Some(i) => Some(self.rows[i].clone()),
            None => None,
        }
    }

    /// Adds a row, unless its id is taken. Returns whether it was added.
    pub fn insert(&mut self, row: TodoRow) -> (added: bool)
        ensures
            added == !has_id(old(self)@, row@.id),
            final(self)@ == inserted(old(self)@, row@),
            well_formed(final(self)@),
    {
        if self.position(&row.id).is_some() {
            return false;
        }
        let ghost before = self@;
        let mut rows: Vec<TodoRow> = Vec::new();
        std::mem::swap(&mut rows, &mut self.rows);
        let mut at: usize = 0;
        while at < rows.len() && !text_le_exec(rows[at].created_at.as_str(), row.created_at.as_str())
            invariant
                at <= rows.len(),
                rows.deep_view() == before,
                slot_from(before, row@.created_at, at as int) == slot(before, row@.created_at),
            decreases rows.len() - at,
        {
            at += 1;
        }
        rows.insert(at, row);
        proof {
            lemma_inserted_well_formed(before, row@);
            assert(rows.deep_view() =~= before.insert(at as int, row@));
        }
        self.rows = rows;
        true
    }

    /// Overwrites `title` and `completed` of the row with this id. Returns
    /// how many rows were changed: 1, or 0 if no row has the id.
    pub fn update(&mut self, id: &String, title: String, completed: i32) -> (count: u64)
        ensures
            count == matched(old(self)@, id@),
            final(self)@ == updated(old(self)@, id@, title@, completed),
            well_formed(final(self)@),
    {
        match self.position(id) {
            Some(i) => {
                let ghost before = self@;
                let mut rows: Vec<TodoRow> = Vec::new();
                std::mem::swap(&mut rows, &mut self.rows);
                let stored = rows.remove(i);
                let changed = TodoRow {
                    id: stored.id,
                    title,
                    completed,
                    created_at: stored.created_at,
                };
                rows.insert(i, changed);
                proof {
                    lemma_updated_well_formed(before, id@, title@, completed);
                    assert(rows.deep_view() =~= updated(before, id@, title@, completed));
                }
                self.rows = rows;
                1
            },
            None => 0,
        }
    }

    /// Removes the row with this id. Returns how many rows were removed:
    /// 1, or 0 if no row has the id.
    pub fn delete(&mut self, id: &String) -> (count: u64)
        ensures
            count == matched(old(self)@, id@),
            final(self)@ == deleted(old(self)@, id@),
            well_formed(final(self)@),
    {
        match self.position(id) {
            Some(i) => {
                let ghost before = self@;
                let mut rows: Vec<TodoRow> = Vec::new();
                std::mem::swap(&mut rows, &mut self.rows);
                rows.remove(i);
                proof {
                    lemma_deleted_well_formed(before, id@);
                    assert(rows.deep_view() =~= before.remove(i as int));
                }
                self.rows = rows;
                1
            },
            None => 0,
        }
    }

    /// Runs one query.
    pub fn run(&mut self, query: Query) -> (outcome: Outcome)
        ensures
            (final(self)@, outcome@) == ran(old(self)@, query@),
            well_formed(final(self)@),
    {
        match query {
            Query::SelectAll => Outcome::Rows(self.select_all()),
            Query::Insert(row) => {
                if self.insert(row) {
                    Outcome::Affected(1)
                } else {
                    Outcome::Failed
                }
            },
            Query::Select(id) => {
                let found = self.select(&id);
                proof {
                    use_type_invariant(&*self);
                }
                Outcome::Row(found)
            },
            Query::Update { id, title, completed } => Outcome::Affected(
                self.update(&id, title, completed),
            ),
            Query::Delete(id) => Outcome::Affected(self.delete(&id)),
        }
    }
}

} // verus!
