use vstd::prelude::*;

use crate::handler::{edit_fetch_reply, get_reply, list_reply, write_reply, FetchView};
use crate::model::{response_of, StudentView, Timestamp};
use crate::paging::{limit_of, offset_of, page_of, window_fits, FilterOptions};
use crate::reply::{Done, PayloadView, Status, CODE_NOT_FOUND, CODE_OK};
use crate::table::{affected_by_id, delete_row, fetch_row, insert_row, list_rows, new_row, update_row, TableModel};

verus! {

/// A student that is added shows up, inactive and with the fields it was
/// added with, in the first page of the list whenever that page is longer
/// than the table was before.
pub proof fn lemma_added_student_is_listed(
    t: TableModel,
    name: Seq<char>,
    class: Seq<char>,
    age: i32,
    now: Timestamp,
    opts: FilterOptions,
)
    requires
        t.wf(),
        t.has_room(),
        window_fits(opts),
        page_of(opts) == 1,
        limit_of(opts) > t.rows.len(),
    ensures
        ({
            let r = list_reply(Ok(list_rows(insert_row(t, name, class, age, now), limit_of(opts), offset_of(opts))));
            &&& r.code == CODE_OK
            &&& r.status == Status::Okay
            &&& r.payload matches PayloadView::Notes(ns) && exists|i: int|
                0 <= i < ns.len() && (#[trigger] ns[i]).name == name && ns[i].class == class && ns[i].age == age
                    && !ns[i].is_active
        }),
{
    let t2 = insert_row(t, name, class, age, now);
    let rows = list_rows(t2, limit_of(opts), offset_of(opts));
    assert(offset_of(opts) == 0);
    assert(rows =~= t2.rows);
    let k = t.rows.len() as int;
    assert(rows.len() == k + 1);
    assert(rows[k] == new_row(t, name, class, age, now));
    let r = list_reply(Ok(rows));
    if let PayloadView::Notes(ns) = r.payload {
        assert(ns.len() == k + 1);
        assert(ns[k] == response_of(rows[k]));
        assert(ns[k].name == name && !ns[k].is_active);
    }
}

/// A lookup of an id that no row has replies 404 with status `fail`.
pub proof fn lemma_unknown_id_not_found(t: TableModel, id: i32)
    requires
        !t.holds(id),
    ensures
        get_reply(id, fetch_row(t, id)).code == CODE_NOT_FOUND,
        get_reply(id, fetch_row(t, id)).status == Status::Fail,
{
}

/// An edit of an id that no row has replies 404, whether the row is missing
/// at the lookup or already gone at the update.
pub proof fn lemma_edit_unknown_id_not_found(t: TableModel, id: i32)
    requires
        !t.holds(id),
    ensures
        edit_fetch_reply(id, fetch_row(t, id)) matches Some(r) && r.code == CODE_NOT_FOUND,
        write_reply(id, Done::Updated, Ok(affected_by_id(t, id))).code == CODE_NOT_FOUND,
{
}

/// An edit of an id that a row has goes on to its update and succeeds, and
/// a lookup of that id afterwards shows the new name, class and flag.
pub proof fn lemma_edit_is_seen(t: TableModel, id: i32, name: Seq<char>, class: Seq<char>, is_active: i8)
    requires
        t.holds(id),
    ensures
        edit_fetch_reply(id, fetch_row(t, id)) is None,
        write_reply(id, Done::Updated, Ok(affected_by_id(t, id))).code == CODE_OK,
        ({
            let r = get_reply(id, fetch_row(update_row(t, id, name, class, is_active), id));
            &&& r.code == CODE_OK
            &&& r.payload matches PayloadView::Note(n) && n.id == id && n.name == name && n.class == class
                && n.is_active == (is_active != 0)
        }),
{
    let t2 = update_row(t, id, name, class, is_active);
    let i = choose|i: int| 0 <= i < t.rows.len() && (#[trigger] t.rows[i]).id == id;
    assert(t2.rows[i].id == id);
    assert(t2.holds(id));
    let c = choose|i: int| 0 <= i < t2.rows.len() && (#[trigger] t2.rows[i]).id == id;
    assert(t2.rows[c].id == id);
    assert(t.rows[c].id == id);
}

/// A delete of an id that no row has replies 404.
pub proof fn lemma_delete_unknown_id_not_found(t: TableModel, id: i32)
    requires
        !t.holds(id),
    ensures
        write_reply(id, Done::Removed, Ok(affected_by_id(t, id))).code == CODE_NOT_FOUND,
{
}

/// A delete of an id that a row has succeeds, and a lookup of that id
/// afterwards replies 404.
pub proof fn lemma_delete_removes(t: TableModel, id: i32)
    requires
        t.holds(id),
    ensures
        write_reply(id, Done::Removed, Ok(affected_by_id(t, id))).code == CODE_OK,
        !delete_row(t, id).holds(id),
        get_reply(id, fetch_row(delete_row(t, id), id)).code == CODE_NOT_FOUND,
{
    let t2 = delete_row(t, id);
    let pred = |s: StudentView| s.id != id;
    t.rows.filter_lemma(pred);
    assert forall|i: int| 0 <= i < t2.rows.len() implies (#[trigger] t2.rows[i]).id != id by {
        assert(pred(t2.rows[i]));
    }
}

/// With pages of two, the second page is the third and fourth rows, in
/// ascending id order, whenever the table has at least four.
pub proof fn lemma_second_page_of_two(t: TableModel, opts: FilterOptions)
    requires
        t.wf(),
        opts.page == Some(2usize),
        opts.limit == Some(2usize),
        t.rows.len() >= 4,
    ensures
        window_fits(opts),
        limit_of(opts) == 2,
        offset_of(opts) == 2,
        list_rows(t, limit_of(opts), offset_of(opts)) == t.rows.subrange(2, 4),
        list_rows(t, limit_of(opts), offset_of(opts))[0].id < list_rows(t, limit_of(opts), offset_of(opts))[1].id,
{
    assert(page_of(opts) == 2);
    assert(offset_of(opts) == (2 - 1) * 2) by (nonlinear_arith)
        requires
            page_of(opts) == 2,
            limit_of(opts) == 2,
            offset_of(opts) == (page_of(opts) - 1) * limit_of(opts),
    ;
    assert(list_rows(t, 2, 2) =~= t.rows.subrange(2, 4));
    assert(list_rows(t, 2, 2)[0] == t.rows[2]);
    assert(list_rows(t, 2, 2)[1] == t.rows[3]);
}

/// A student that is added and then looked up by the id it was given reads
/// as inactive, with both timestamps set to the time of the insert.
pub proof fn lemma_inserted_student_fetched_inactive(
    t: TableModel,
    name: Seq<char>,
    class: Seq<char>,
    age: i32,
    now: Timestamp,
)
    requires
        t.wf(),
        t.has_room(),
    ensures
        ({
            let t2 = insert_row(t, name, class, age, now);
            let r = get_reply(t.next_id as i32, fetch_row(t2, t.next_id as i32));
            &&& r.code == CODE_OK
            &&& r.status == Status::Success
            &&& r.payload matches PayloadView::Note(n) && !n.is_active && n.created_at == now
                && n.updated_at == now && n.name == name && n.class == class && n.age == age
        }),
{
    let t2 = insert_row(t, name, class, age, now);
    let id = t.next_id as i32;
    let k = t.rows.len() as int;
    assert(t2.rows[k].id == id);
    assert(t2.holds(id));
    let c = choose|i: int| 0 <= i < t2.rows.len() && (#[trigger] t2.rows[i]).id == id;
    if c < k {
        assert(t2.rows[c] == t.rows[c]);
    }
    assert(c == k);
    assert(fetch_row(t2, id) == FetchView::Found(new_row(t, name, class, age, now)));
}

} // verus!
