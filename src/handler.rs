use vstd::prelude::*;

use crate::model::{response_of, to_student_response, Student, StudentModelResponse, StudentView};
use crate::paging::{limit_of, offset_of, page_window, window_fits, FilterOptions, PageWindow};
use crate::reply::{
    reply, Done, Message, MessageView, Payload, PayloadView, Reply, ReplyView, Status, CODE_BAD_REQUEST,
    CODE_INTERNAL, CODE_NOT_FOUND, CODE_OK,
};

verus! {

/// What a lookup of one row by id gave.
#[derive(Clone, Debug, PartialEq)]
pub enum FetchOutcome {
    Found(Student),
    /// No row has the id.
    Missing,
    /// Storage failed, with its error's details.
    Failed(String),
}

/// The mathematical value of a [`FetchOutcome`].
pub enum FetchView {
    Found(StudentView),
    Missing,
    Failed(Seq<char>),
}

impl View for FetchOutcome {
    type V = FetchView;

    open spec fn view(&self) -> FetchView {
        match self {
            FetchOutcome::Found(s) => FetchView::Found(s@),
            FetchOutcome::Missing => FetchView::Missing,
            FetchOutcome::Failed(e) => FetchView::Failed(e@),
        }
    }
}

/// A result of storage with its error's details as a sequence of characters.
pub open spec fn outcome_view<T>(r: Result<T, String>) -> Result<T, Seq<char>> {
    match r {
        Ok(v) => Ok(v),
        Err(e) => Err(e@),
    }
}

/// The rows of a list statement, viewed.
pub open spec fn rows_view(r: Result<Vec<Student>, String>) -> Result<Seq<StudentView>, Seq<char>> {
    match r {
        Ok(v) => Ok(v@.map_values(|s: Student| s@)),
        Err(e) => Err(e@),
    }
}

/// Every row carries both timestamps.
pub open spec fn all_stored(rows: Seq<StudentView>) -> bool {
    forall|i: int| 0 <= i < rows.len() ==> (#[trigger] rows[i]).is_stored()
}

/// Whether every row carries both timestamps, as the reply steps require.
pub fn rows_are_stored(rows: &Vec<Student>) -> (r: bool)
    ensures
        r == all_stored(rows@.map_values(|s: Student| s@)),
{
    let mut i: usize = 0;
    while i < rows.len()
        invariant
            i <= rows.len(),
            forall|j: int| 0 <= j < i ==> (#[trigger] rows@[j])@.is_stored(),
        decreases rows.len() - i,
    {
        if !rows[i].is_stored() {
            assert(!rows@.map_values(|s: Student| s@)[i as int].is_stored());
            return false;
        }
        i = i + 1;
    }
    assert(all_stored(rows@.map_values(|s: Student| s@)));
    true
}

/// The reply to a list request whose query gave no usable window.
pub open spec fn bad_page_reply() -> ReplyView {
    reply(CODE_BAD_REQUEST, Status::Error, PayloadView::Failure(MessageView::PageOutOfRange))
}

/// The reply to a list request, from what the list statement gave.
pub open spec fn list_reply(rows: Result<Seq<StudentView>, Seq<char>>) -> ReplyView {
    match rows {
        Ok(rs) => reply(CODE_OK, Status::Okay, PayloadView::Notes(rs.map_values(|s: StudentView| response_of(s)))),
        Err(e) => reply(CODE_INTERNAL, Status::Error, PayloadView::Failure(MessageView::Database(e))),
    }
}

/// The reply to an add request, from what the insert statement gave.
pub open spec fn add_reply(inserted: Result<u64, Seq<char>>) -> ReplyView {
    match inserted {
        Ok(_) => reply(CODE_OK, Status::Success, PayloadView::Done(Done::Added)),
        Err(e) => reply(CODE_INTERNAL, Status::Error, PayloadView::Failure(MessageView::Database(e))),
    }
}

/// The reply to a lookup by id, from what the lookup gave.
pub open spec fn get_reply(id: i32, fetched: FetchView) -> ReplyView {
    match fetched {
        FetchView::Found(s) => reply(CODE_OK, Status::Success, PayloadView::Note(response_of(s))),
        FetchView::Missing => reply(CODE_NOT_FOUND, Status::Fail, PayloadView::Failure(MessageView::StudentNotFound(id))),
        FetchView::Failed(e) => reply(CODE_INTERNAL, Status::Error, PayloadView::Failure(MessageView::Detail(e))),
    }
}

/// The reply that ends an edit before its update, if the lookup of the row
/// gave no row; `None` when the update is to be made.
pub open spec fn edit_fetch_reply(id: i32, fetched: FetchView) -> Option<ReplyView> {
    match fetched {
        FetchView::Found(_) => None,
        FetchView::Missing => Some(reply(CODE_NOT_FOUND, Status::Error, PayloadView::Failure(MessageView::StudentNotFound(id)))),
        FetchView::Failed(e) => Some(reply(CODE_INTERNAL, Status::Error, PayloadView::Failure(MessageView::Detail(e)))),
    }
}

/// The reply to a write by id (an update or a delete), from the number of
/// rows that it affected.
pub open spec fn write_reply(id: i32, done: Done, affected: Result<u64, Seq<char>>) -> ReplyView {
    match affected {
        Ok(n) => if n == 0 {
            reply(CODE_NOT_FOUND, Status::Error, PayloadView::Failure(MessageView::NoteNotFound(id)))
        } else {
            reply(CODE_OK, Status::Success, PayloadView::Done(done))
        },
        Err(e) => reply(CODE_INTERNAL, Status::Error, PayloadView::Failure(MessageView::Detail(e))),
    }
}

/// First step of a list request: the rows to read, or the reply when the
/// query gives no usable window.
pub fn student_list_window(opts: &FilterOptions) -> (r: Result<PageWindow, Reply>)
    ensures
        r is Ok <==> window_fits(*opts),
        r matches Ok(w) ==> w.limit == limit_of(*opts) && w.offset == offset_of(*opts),
        r matches Err(rep) ==> rep@ == bad_page_reply(),
{
    match page_window(opts) {
        Ok(w) => Ok(w),
        Err(_) => Err(Reply { code: CODE_BAD_REQUEST, status: Status::Error, payload: Payload::Failure(Message::PageOutOfRange) }),
    }
}

/// Last step of a list request: the reply, from what the list statement gave.
pub fn student_list_reply(rows: Result<Vec<Student>, String>) -> (r: Reply)
    requires
        rows_view(rows) matches Ok(rs) ==> all_stored(rs),
    ensures
        r@ == list_reply(rows_view(rows)),
{
    match rows {
        Ok(rs) => {
            let mut notes: Vec<StudentModelResponse> = Vec::new();
            let mut i: usize = 0;
            while i < rs.len()
                invariant
                    i <= rs.len(),
                    all_stored(rs@.map_values(|s: Student| s@)),
                    notes.len() == i,
                    forall|j: int| 0 <= j < i ==> (#[trigger] notes@[j])@ == response_of(rs@[j]@),
                decreases rs.len() - i,
            {
                assert(rs@.map_values(|s: Student| s@)[i as int] == rs@[i as int]@);
                notes.push(to_student_response(&rs[i]));
                i = i + 1;
            }
            let ghost views = rs@.map_values(|s: Student| s@);
            assert(notes@.map_values(|n: StudentModelResponse| n@) =~= views.map_values(|s: StudentView| response_of(s)));
            Reply { code: CODE_OK, status: Status::Okay, payload: Payload::Notes(notes) }
        },
        Err(e) => Reply { code: CODE_INTERNAL, status: Status::Error, payload: Payload::Failure(Message::Database(e)) },
    }
}

/// The reply to an add request, from what the insert statement gave: success
/// if and only if the row was inserted.
pub fn add_student_reply(inserted: Result<u64, String>) -> (r: Reply)
    ensures
        r@ == add_reply(outcome_view(inserted)),
{
    match inserted {
        Ok(_) => Reply { code: CODE_OK, status: Status::Success, payload: Payload::Done(Done::Added) },
        Err(e) => Reply { code: CODE_INTERNAL, status: Status::Error, payload: Payload::Failure(Message::Database(e)) },
    }
}

/// The reply to a lookup by id, from what the lookup gave.
pub fn get_student_byid_reply(id: i32, fetched: FetchOutcome) -> (r: Reply)
    requires
        fetched@ matches FetchView::Found(s) ==> s.is_stored(),
    ensures
        r@ == get_reply(id, fetched@),
{
    match fetched {
        FetchOutcome::Found(s) => Reply { code: CODE_OK, status: Status::Success, payload: Payload::Note(to_student_response(&s)) },
        FetchOutcome::Missing => Reply {
            code: CODE_NOT_FOUND,
            status: Status::Fail,
            payload: Payload::Failure(Message::StudentNotFound(id)),
        },
        FetchOutcome::Failed(e) => Reply { code: CODE_INTERNAL, status: Status::Error, payload: Payload::Failure(Message::Detail(e)) },
    }
}

/// The update statement of an edit: new name, class and flag of row `id`.
#[derive(Clone, Debug, PartialEq)]
pub struct UpdateCommand {
    pub id: i32,
    pub name: String,
    pub class: String,
    pub is_active: i8,
}

/// What an edit does after looking up its row.
#[derive(Clone, Debug, PartialEq)]
pub enum EditStep {
    /// Make the update, then reply with [`edit_student_after_update`].
    Update(UpdateCommand),
    /// Reply now.
    Respond(Reply),
}

/// First decision of an edit: from the lookup of row `id`, either the update
/// that carries the body's name, class and flag, or the reply that ends it.
pub fn edit_student_after_fetch(id: i32, body: &Student, fetched: FetchOutcome) -> (r: EditStep)
    ensures
        r matches EditStep::Respond(rep) <==> edit_fetch_reply(id, fetched@) is Some,
        r matches EditStep::Respond(rep) ==> edit_fetch_reply(id, fetched@) == Some(rep@),
        r matches EditStep::Update(c) ==> c.id == id && c.name@ == body.name@ && c.class@ == body.class@
            && c.is_active == body.is_active,
{
    match fetched {
        FetchOutcome::Found(_) => EditStep::Update(UpdateCommand {
            id,
            name: body.name.clone(),
            class: body.class.clone(),
            is_active: body.is_active,
        }),
        FetchOutcome::Missing => EditStep::Respond(Reply {
            code: CODE_NOT_FOUND,
            status: Status::Error,
            payload: Payload::Failure(Message::StudentNotFound(id)),
        }),
        FetchOutcome::Failed(e) => EditStep::Respond(Reply {
            code: CODE_INTERNAL,
            status: Status::Error,
            payload: Payload::Failure(Message::Detail(e)),
        }),
    }
}

/// The reply to a write by id, from the number of rows it affected: none is
/// "not found".
fn write_by_id_reply(id: i32, done: Done, affected: Result<u64, String>) -> (r: Reply)
    ensures
        r@ == write_reply(id, done, outcome_view(affected)),
{
    match affected {
        Ok(n) => if n == 0 {
            Reply { code: CODE_NOT_FOUND, status: Status::Error, payload: Payload::Failure(Message::NoteNotFound(id)) }
        } else {
            Reply { code: CODE_OK, status: Status::Success, payload: Payload::Done(done) }
        },
        Err(e) => Reply { code: CODE_INTERNAL, status: Status::Error, payload: Payload::Failure(Message::Detail(e)) },
    }
}

/// Last step of an edit: the reply, from what the update statement gave.
pub fn edit_student_after_update(id: i32, affected: Result<u64, String>) -> (r: Reply)
    ensures
        r@ == write_reply(id, Done::Updated, outcome_view(affected)),
{
    write_by_id_reply(id, Done::Updated, affected)
}

/// The reply to a delete request, from what the delete statement gave.
pub fn delete_student_reply(id: i32, affected: Result<u64, String>) -> (r: Reply)
    ensures
        r@ == write_reply(id, Done::Removed, outcome_view(affected)),
{
    write_by_id_reply(id, Done::Removed, affected)
}

} // verus!
