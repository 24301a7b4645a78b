use student_api::handler::{
    add_student_reply, delete_student_reply, edit_student_after_fetch, edit_student_after_update,
    get_student_byid_reply, student_list_reply, student_list_window, EditStep, FetchOutcome,
};
use student_api::model::{Student, Timestamp};
use student_api::paging::FilterOptions;
use student_api::reply::{Payload, Reply, Status};

/// A table held in memory, doing what each statement does to `studentinfo`.
struct Table {
    rows: Vec<Student>,
    next_id: i32,
    clock: i64,
}

impl Table {
    fn new() -> Table {
        Table { rows: Vec::new(), next_id: 1, clock: 1_700_000_000 }
    }

    fn insert(&mut self, name: &str, class: &str, age: i32) -> Result<u64, String> {
        let now = Timestamp { secs: self.clock, nanos: 0 };
        self.clock += 1;
        self.rows.push(Student {
            id: self.next_id,
            name: name.to_string(),
            class: class.to_string(),
            is_active: 0,
            created_at: Some(now),
            updated_at: Some(now),
            age,
        });
        self.next_id += 1;
        Ok(1)
    }

    fn list(&self, limit: i32, offset: i32) -> Result<Vec<Student>, String> {
        Ok(self.rows.iter().skip(offset as usize).take(limit as usize).cloned().collect())
    }

    fn fetch(&self, id: i32) -> FetchOutcome {
        match self.rows.iter().find(|s| s.id == id) {
            Some(s) => FetchOutcome::Found(s.clone()),
            None => FetchOutcome::Missing,
        }
    }

    fn update(&mut self, id: i32, name: &str, class: &str, is_active: i8) -> Result<u64, String> {
        let mut n: u64 = 0;
        for s in self.rows.iter_mut().filter(|s| s.id == id) {
            s.name = name.to_string();
            s.class = class.to_string();
            s.is_active = is_active;
            n += 1;
        }
        Ok(n)
    }

    fn delete(&mut self, id: i32) -> Result<u64, String> {
        let before = self.rows.len();
        self.rows.retain(|s| s.id != id);
        Ok((before - self.rows.len()) as u64)
    }

    fn list_request(&self, page: Option<usize>, limit: Option<usize>) -> Reply {
        match student_list_window(&FilterOptions { page, limit }) {
            Ok(w) => student_list_reply(self.list(w.limit, w.offset)),
            Err(r) => r,
        }
    }

    fn edit_request(&mut self, id: i32, body: &Student) -> Reply {
        match edit_student_after_fetch(id, body, self.fetch(id)) {
            EditStep::Update(c) => {
                let affected = self.update(c.id, &c.name, &c.class, c.is_active);
                edit_student_after_update(id, affected)
            }
            EditStep::Respond(r) => r,
        }
    }
}

fn body(name: &str, class: &str, is_active: i8, age: i32) -> Student {
    Student {
        id: 0,
        name: name.to_string(),
        class: class.to_string(),
        is_active,
        created_at: None,
        updated_at: None,
        age,
    }
}

fn notes(r: &Reply) -> Vec<(i32, String, String, bool, i32)> {
    match &r.payload {
        Payload::Notes(ns) => ns.iter().map(|n| (n.id, n.name.clone(), n.class.clone(), n.is_active, n.age)).collect(),
        other => panic!("unexpected payload {:?}", other),
    }
}

#[test]
fn added_student_is_listed_inactive() {
    let mut t = Table::new();
    t.insert("Ben", "4B", 9).unwrap();
    let reply = add_student_reply(t.insert("Cal", "6C", 11));
    assert_eq!(reply.code, 200);
    let list = t.list_request(Some(1), Some(10));
    assert_eq!(list.code, 200);
    assert!(notes(&list).contains(&(2, "Cal".to_string(), "6C".to_string(), false, 11)));
}

#[test]
fn unknown_id_lookup_fails() {
    let mut t = Table::new();
    t.insert("Ben", "4B", 9).unwrap();
    let r = get_student_byid_reply(77, t.fetch(77));
    assert_eq!(r.code, 404);
    assert_eq!(r.status.text(), "fail");
}

#[test]
fn unknown_id_edit_not_found() {
    let mut t = Table::new();
    t.insert("Ben", "4B", 9).unwrap();
    let r = t.edit_request(77, &body("X", "Y", 1, 0));
    assert_eq!(r.code, 404);
    assert_eq!(edit_student_after_update(77, t.update(77, "X", "Y", 1)).code, 404);
}

#[test]
fn delete_unknown_then_existing() {
    let mut t = Table::new();
    t.insert("Ben", "4B", 9).unwrap();
    assert_eq!(delete_student_reply(77, t.delete(77)).code, 404);
    assert_eq!(delete_student_reply(1, t.delete(1)).code, 200);
    assert_eq!(get_student_byid_reply(1, t.fetch(1)).code, 404);
}

#[test]
fn second_page_of_two_is_rows_three_and_four() {
    let mut t = Table::new();
    for (name, age) in [("A", 6), ("B", 7), ("C", 8), ("D", 9), ("E", 10)] {
        t.insert(name, "1A", age).unwrap();
    }
    let ids: Vec<i32> = notes(&t.list_request(Some(2), Some(2))).iter().map(|n| n.0).collect();
    assert_eq!(ids, vec![3, 4]);
}

#[test]
fn inserted_student_fetched_inactive_with_timestamps() {
    let mut t = Table::new();
    t.insert("Dee", "2D", 7).unwrap();
    let r = get_student_byid_reply(1, t.fetch(1));
    assert_eq!(r.code, 200);
    match r.payload {
        Payload::Note(n) => {
            assert!(!n.is_active);
            assert_eq!(n.created_at, Timestamp { secs: 1_700_000_000, nanos: 0 });
            assert_eq!(n.updated_at, Timestamp { secs: 1_700_000_000, nanos: 0 });
        }
        other => panic!("unexpected payload {:?}", other),
    }
}

#[test]
fn add_list_edit_delete_scenario() {
    let mut t = Table::new();
    let added = add_student_reply(t.insert("Ann", "5A", 10));
    assert_eq!(added.code, 200);
    assert_eq!(added.status, Status::Success);

    let list = t.list_request(Some(1), Some(10));
    assert_eq!(list.code, 200);
    let rows = notes(&list);
    assert_eq!(rows.len(), 1);
    let (id, name, class, active, age) = rows[0].clone();
    assert_eq!((name.as_str(), class.as_str(), active, age), ("Ann", "5A", false, 10));

    let edited = t.edit_request(id, &body("Ann B", "5B", 1, 0));
    assert_eq!(edited.code, 200);
    match get_student_byid_reply(id, t.fetch(id)).payload {
        Payload::Note(n) => {
            assert!(n.is_active);
            assert_eq!(n.name, "Ann B");
            assert_eq!(n.class, "5B");
        }
        other => panic!("unexpected payload {:?}", other),
    }

    assert_eq!(delete_student_reply(id, t.delete(id)).code, 200);
    assert_eq!(get_student_byid_reply(id, t.fetch(id)).code, 404);
}
