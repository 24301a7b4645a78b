use vstd::prelude::*;

use crate::handler::FetchView;
use crate::model::{StudentView, Timestamp};

verus! {

/// The `studentinfo` table as the statements of the handlers see it: its rows
/// in ascending id order, and the id that the next insert assigns.
pub struct TableModel {
    pub rows: Seq<StudentView>,
    pub next_id: int,
}

impl TableModel {
    /// Ids are unique, ascending, below the next one to assign, and every row
    /// carries both timestamps.
    pub open spec fn wf(self) -> bool {
        &&& 1 <= self.next_id
        &&& forall|i: int, j: int| 0 <= i < j < self.rows.len() ==> self.rows[i].id < self.rows[j].id
        &&& forall|i: int| 0 <= i < self.rows.len() ==> (#[trigger] self.rows[i]).id < self.next_id
        &&& forall|i: int| 0 <= i < self.rows.len() ==> (#[trigger] self.rows[i]).is_stored()
    }

    /// Some row has this id.
    pub open spec fn holds(self, id: i32) -> bool {
        exists|i: int| 0 <= i < self.rows.len() && (#[trigger] self.rows[i]).id == id
    }

    /// One more row can be inserted with an id that fits an `i32`.
    pub open spec fn has_room(self) -> bool {
        self.next_id <= i32::MAX
    }
}

/// `SELECT ... WHERE id = ?`: the row with this id, if any.
pub open spec fn fetch_row(t: TableModel, id: i32) -> FetchView {
    if t.holds(id) {
        FetchView::Found(t.rows[choose|i: int| 0 <= i < t.rows.len() && (#[trigger] t.rows[i]).id == id])
    } else {
        FetchView::Missing
    }
}

/// `SELECT * ... ORDER BY id LIMIT ? OFFSET ?`: at most `limit` rows, after the
/// first `offset`.
pub open spec fn list_rows(t: TableModel, limit: int, offset: int) -> Seq<StudentView>
    recommends
        0 <= limit,
        0 <= offset,
{
    let len = t.rows.len() as int;
    let lo = if offset < len { offset } else { len };
    let hi = if offset + limit < len { offset + limit } else { len };
    t.rows.subrange(lo, hi)
}

/// The row that an insert adds: the next id, inactive, stamped `now`.
pub open spec fn new_row(t: TableModel, name: Seq<char>, class: Seq<char>, age: i32, now: Timestamp) -> StudentView {
    StudentView {
        id: t.next_id as i32,
        name,
        class,
        is_active: 0,
        created_at: Some(now),
        updated_at: Some(now),
        age,
    }
}

/// `INSERT INTO studentinfo(name, class, age) ...` at time `now`.
pub open spec fn insert_row(t: TableModel, name: Seq<char>, class: Seq<char>, age: i32, now: Timestamp) -> TableModel
    recommends
        t.has_room(),
{
    TableModel { rows: t.rows.push(new_row(t, name, class, age, now)), next_id: t.next_id + 1 }
}

/// The number of rows that a write by id affects: `id` is the primary key.
pub open spec fn affected_by_id(t: TableModel, id: i32) -> u64 {
    if t.holds(id) { 1 } else { 0 }
}

/// `UPDATE studentinfo SET name = ?, class = ?, is_active = ? WHERE id = ?`.
pub open spec fn update_row(t: TableModel, id: i32, name: Seq<char>, class: Seq<char>, is_active: i8) -> TableModel {
    TableModel {
        rows: t.rows.map_values(
            |s: StudentView|
                if s.id == id {
                    StudentView { name, class, is_active, ..s }
                } else {
                    s
                },
        ),
        next_id: t.next_id,
    }
}

/// `DELETE FROM studentinfo WHERE id = ?`.
pub open spec fn delete_row(t: TableModel, id: i32) -> TableModel {
    TableModel { rows: t.rows.filter(|s: StudentView| s.id != id), next_id: t.next_id }
}

} // verus!
