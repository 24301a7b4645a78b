use vstd::prelude::*;

use crate::model::{StudentModelResponse, StudentResponseView};

verus! {

/// HTTP status of a successful operation.
pub const CODE_OK: u16 = 200;

/// HTTP status of a malformed request.
pub const CODE_BAD_REQUEST: u16 = 400;

/// HTTP status when the requested student does not exist.
pub const CODE_NOT_FOUND: u16 = 404;

/// HTTP status when storage failed.
pub const CODE_INTERNAL: u16 = 500;

/// The `status` field of a reply envelope.
#[derive(Clone, Copy, Debug, PartialEq, Eq, Structural)]
pub enum Status {
    /// Rendered `"ok"`: a list was read.
    Okay,
    /// Rendered `"success"`.
    Success,
    /// Rendered `"fail"`: a single lookup found nothing.
    Fail,
    /// Rendered `"error"`.
    Error,
}

/// What a successful write reports in the `data` field.
#[derive(Clone, Copy, Debug, PartialEq, Eq, Structural)]
pub enum Done {
    /// `"Student added successfully.."`
    Added,
    /// `"Student details updated successfully."`
    Updated,
    /// `"Student details removed successfully."`
    Removed,
}

/// The `message` field of a failed reply.
#[derive(Clone, Debug, PartialEq)]
pub enum Message {
    /// `"Student with ID: <id> not found"`
    StudentNotFound(i32),
    /// `"Note with ID: <id> not found"`
    NoteNotFound(i32),
    /// `"Database error: <details>"`
    Database(String),
    /// The storage error's details as they stand.
    Detail(String),
    /// The page or limit of a list request is too large.
    PageOutOfRange,
}

/// The mathematical value of a [`Message`].
pub enum MessageView {
    StudentNotFound(i32),
    NoteNotFound(i32),
    Database(Seq<char>),
    Detail(Seq<char>),
    PageOutOfRange,
}

impl View for Message {
    type V = MessageView;

    open spec fn view(&self) -> MessageView {
        match self {
            Message::StudentNotFound(id) => MessageView::StudentNotFound(*id),
            Message::NoteNotFound(id) => MessageView::NoteNotFound(*id),
            Message::Database(d) => MessageView::Database(d@),
            Message::Detail(d) => MessageView::Detail(d@),
            Message::PageOutOfRange => MessageView::PageOutOfRange,
        }
    }
}

/// The fields of a reply envelope besides `status`.
#[derive(Clone, Debug, PartialEq)]
pub enum Payload {
    /// `data`: the text of a completed write.
    Done(Done),
    /// `message`: why the request failed.
    Failure(Message),
    /// `data: { note }`: one student.
    Note(StudentModelResponse),
    /// `count` and `notes`: a page of students.
    Notes(Vec<StudentModelResponse>),
}

/// The mathematical value of a [`Payload`].
pub enum PayloadView {
    Done(Done),
    Failure(MessageView),
    Note(StudentResponseView),
    Notes(Seq<StudentResponseView>),
}

impl View for Payload {
    type V = PayloadView;

    open spec fn view(&self) -> PayloadView {
        match self {
            Payload::Done(d) => PayloadView::Done(*d),
            Payload::Failure(m) => PayloadView::Failure(m@),
            Payload::Note(n) => PayloadView::Note(n@),
            Payload::Notes(ns) => PayloadView::Notes(ns@.map_values(|n: StudentModelResponse| n@)),
        }
    }
}

/// An HTTP reply: status code and JSON envelope.
#[derive(Clone, Debug, PartialEq)]
pub struct Reply {
    pub code: u16,
    pub status: Status,
    pub payload: Payload,
}

/// The mathematical value of a [`Reply`].
pub struct ReplyView {
    pub code: u16,
    pub status: Status,
    pub payload: PayloadView,
}

impl View for Reply {
    type V = ReplyView;

    open spec fn view(&self) -> ReplyView {
        ReplyView { code: self.code, status: self.status, payload: self.payload@ }
    }
}

/// The reply with the given code, status and payload.
pub open spec fn reply(code: u16, status: Status, payload: PayloadView) -> ReplyView {
    ReplyView { code, status, payload }
}

} // verus!
