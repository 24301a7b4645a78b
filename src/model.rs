use vstd::prelude::*;

verus! {

/// A point in time, as seconds since the Unix epoch (UTC) and the
/// nanoseconds within that second.
#[derive(Clone, Copy, Debug, PartialEq, Eq, Structural)]
pub struct Timestamp {
    pub secs: i64,
    pub nanos: u32,
}

/// A row of the `studentinfo` table.
///
/// `id` and the two timestamps are assigned by the storage layer; a row read
/// back from storage always carries both timestamps.
#[derive(Clone, Debug, PartialEq)]
pub struct Student {
    pub id: i32,
    pub name: String,
    pub class: String,
    pub is_active: i8,
    pub created_at: Option<Timestamp>,
    pub updated_at: Option<Timestamp>,
    pub age: i32,
}

/// The mathematical value of a [`Student`].
pub struct StudentView {
    pub id: i32,
    pub name: Seq<char>,
    pub class: Seq<char>,
    pub is_active: i8,
    pub created_at: Option<Timestamp>,
    pub updated_at: Option<Timestamp>,
    pub age: i32,
}

impl View for Student {
    type V = StudentView;

    open spec fn view(&self) -> StudentView {
        StudentView {
            id: self.id,
            name: self.name@,
            class: self.class@,
            is_active: self.is_active,
            created_at: self.created_at,
            updated_at: self.updated_at,
            age: self.age,
        }
    }
}

impl StudentView {
    /// Both timestamps are present, as on every row that storage returns.
    pub open spec fn is_stored(self) -> bool {
        self.created_at.is_some() && self.updated_at.is_some()
    }
}

impl Student {
    /// Whether both timestamps are present, as on every row that storage returns.
    pub fn is_stored(&self) -> (r: bool)
        ensures
            r == self@.is_stored(),
    {
        self.created_at.is_some() && self.updated_at.is_some()
    }
}

/// A student as it is shown to clients: the activity flag is a boolean and
/// both timestamps are required.
#[derive(Clone, Debug, PartialEq)]
pub struct StudentModelResponse {
    pub id: i32,
    pub name: String,
    pub class: String,
    pub is_active: bool,
    pub created_at: Timestamp,
    pub updated_at: Timestamp,
    pub age: i32,
}

/// The mathematical value of a [`StudentModelResponse`].
pub struct StudentResponseView {
    pub id: i32,
    pub name: Seq<char>,
    pub class: Seq<char>,
    pub is_active: bool,
    pub created_at: Timestamp,
    pub updated_at: Timestamp,
    pub age: i32,
}

impl View for StudentModelResponse {
    type V = StudentResponseView;

    open spec fn view(&self) -> StudentResponseView {
        StudentResponseView {
            id: self.id,
            name: self.name@,
            class: self.class@,
            is_active: self.is_active,
            created_at: self.created_at,
            updated_at: self.updated_at,
            age: self.age,
        }
    }
}

/// The client-facing form of a stored row: any non-zero flag reads as active.
pub open spec fn response_of(s: StudentView) -> StudentResponseView
    recommends
        s.is_stored(),
{
    StudentResponseView {
        id: s.id,
        name: s.name,
        class: s.class,
        is_active: s.is_active != 0,
        created_at: s.created_at.unwrap(),
        updated_at: s.updated_at.unwrap(),
        age: s.age,
    }
}

/// Converts a stored row into its client-facing form.
pub fn to_student_response(note: &Student) -> (r: StudentModelResponse)
    requires
        note@.is_stored(),
    ensures
        r@ == response_of(note@),
{
    StudentModelResponse {
        id: note.id,
        name: note.name.clone(),
        class: note.class.clone(),
        is_active: note.is_active != 0,
        created_at: note.created_at.unwrap(),
        updated_at: note.updated_at.unwrap(),
        age: note.age,
    }
}

} // verus!
