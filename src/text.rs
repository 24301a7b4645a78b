use vstd::prelude::*;
use vstd::string::StringExecFns;

use crate::reply::{Done, Message, MessageView, Status};

verus! {

/// The character of a decimal digit.
pub open spec fn digit_char(d: nat) -> char {
    if d == 0 { '0' }
    else if d == 1 { '1' }
    else if d == 2 { '2' }
    else if d == 3 { '3' }
    else if d == 4 { '4' }
    else if d == 5 { '5' }
    else if d == 6 { '6' }
    else if d == 7 { '7' }
    else if d == 8 { '8' }
    else { '9' }
}

/// The decimal digits of `n`, most significant first, without leading zeros.
pub open spec fn digits_of(n: nat) -> Seq<char>
    decreases n,
{
    if n < 10 {
        seq![digit_char(n)]
    } else {
        digits_of(n / 10).push(digit_char(n % 10))
    }
}

/// `n` written in decimal, with a leading `-` when it is negative.
pub open spec fn decimal_text(n: i32) -> Seq<char> {
    if n < 0 {
        seq!['-'] + digits_of((-n) as nat)
    } else {
        digits_of(n as nat)
    }
}

/// Relies on `ToString` for `i32` (through its `Display`): the decimal form.
#[verifier::external_body]
fn decimal(n: i32) -> (r: String)
    ensures
        r@ == decimal_text(n),
{
    n.to_string()
}

/// The word of the `status` field.
pub open spec fn status_text(s: Status) -> Seq<char> {
    match s {
        Status::Okay => "ok"@,
        Status::Success => "success"@,
        Status::Fail => "fail"@,
        Status::Error => "error"@,
    }
}

/// The text that a completed write reports.
pub open spec fn done_text(d: Done) -> Seq<char> {
    match d {
        Done::Added => "Student added successfully.."@,
        Done::Updated => "Student details updated successfully."@,
        Done::Removed => "Student details removed successfully."@,
    }
}

/// The text of a failure message.
pub open spec fn message_text(m: MessageView) -> Seq<char> {
    match m {
        MessageView::StudentNotFound(id) => "Student with ID: "@ + decimal_text(id) + " not found"@,
        MessageView::NoteNotFound(id) => "Note with ID: "@ + decimal_text(id) + " not found"@,
        MessageView::Database(d) => "Database error: "@ + d,
        MessageView::Detail(d) => d,
        MessageView::PageOutOfRange => "Page or limit out of range"@,
    }
}

impl Status {
    /// The word of the `status` field.
    pub fn text(&self) -> (r: String)
        ensures
            r@ == status_text(*self),
    {
        match self {
            Status::Okay => String::from_str("ok"),
            Status::Success => String::from_str("success"),
            Status::Fail => String::from_str("fail"),
            Status::Error => String::from_str("error"),
        }
    }
}

impl Done {
    /// The text that the write reports in the `data` field.
    pub fn text(&self) -> (r: String)
        ensures
            r@ == done_text(*self),
    {
        match self {
            Done::Added => String::from_str("Student added successfully.."),
            Done::Updated => String::from_str("Student details updated successfully."),
            Done::Removed => String::from_str("Student details removed successfully."),
        }
    }
}

/// `prefix`, then `id` in decimal, then `" not found"`.
fn id_not_found(prefix: &str, id: i32) -> (r: String)
    ensures
        r@ == prefix@ + decimal_text(id) + " not found"@,
{
    let mut r = String::from_str(prefix);
    let digits = decimal(id);
    r.append(digits.as_str());
    r.append(" not found");
    r
}

impl Message {
    /// The text of the `message` field.
    pub fn text(&self) -> (r: String)
        ensures
            r@ == message_text(self@),
    {
        match self {
            Message::StudentNotFound(id) => id_not_found("Student with ID: ", *id),
            Message::NoteNotFound(id) => id_not_found("Note with ID: ", *id),
            Message::Database(d) => {
                let mut r = String::from_str("Database error: ");
                r.append(d.as_str());
                r
            },
            Message::Detail(d) => d.clone(),
            Message::PageOutOfRange => String::from_str("Page or limit out of range"),
        }
    }
}

} // verus!
