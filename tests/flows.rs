use user_service::account::{LoginInfo, RegisterInfo, StoredUser, Timestamp};
use user_service::handlers::{
    resume, start, start_with_salt, Body, Message, Pending, Reply, Response, Status, Step,
};

struct Row {
    id: i32,
    name: String,
    email: String,
    registered: Timestamp,
    hash: String,
    salt: String,
}

struct MemStore {
    rows: Vec<Row>,
    next_id: i32,
    writes: usize,
}

impl MemStore {
    fn new() -> MemStore {
        MemStore { rows: Vec::new(), next_id: 1, writes: 0 }
    }

    fn public(r: &Row) -> StoredUser {
        StoredUser { name: r.name.clone(), email: r.email.clone(), registered: r.registered }
    }

    fn by_id(&self, id: i32) -> Option<&Row> {
        self.rows.iter().find(|r| r.id == id)
    }

    fn by_email(&self, email: &str) -> Option<&Row> {
        self.rows.iter().find(|r| r.email == email)
    }

    fn answer(&mut self, p: &Pending) -> Reply {
        match p {
            Pending::RegisterCheck { email, .. } | Pending::LoginCheck { email, .. } => {
                Reply::Flag(self.by_email(email).is_some())
            }
            Pending::RegisterInsert { name, email, password_hash, salt } => {
                if self.by_email(email).is_some() {
                    return Reply::Failed;
                }
                self.writes += 1;
                self.rows.push(Row {
                    id: self.next_id,
                    name: name.clone(),
                    email: email.clone(),
                    registered: Timestamp { seconds: 1704067200, nanos: 0 },
                    hash: password_hash.clone(),
                    salt: salt.clone(),
                });
                self.next_id += 1;
                Reply::Done
            }
            Pending::LoginCredentials { email, .. } => match self.by_email(email) {
                Some(r) => Reply::Credentials { password_hash: r.hash.clone(), salt: r.salt.clone() },
                None => Reply::Failed,
            },
            Pending::GetCheck { id } | Pending::UpdateCheck { id, .. } | Pending::DeleteCheck { id } => {
                Reply::Flag(self.by_id(*id).is_some())
            }
            Pending::GetFetch { id } => match self.by_id(*id) {
                Some(r) => Reply::User(MemStore::public(r)),
                None => Reply::Failed,
            },
            Pending::GetAll => Reply::Users(self.rows.iter().map(MemStore::public).collect()),
            Pending::UpdateSalt { id, .. } => match self.by_id(*id) {
                Some(r) => Reply::Salt(r.salt.clone()),
                None => Reply::Failed,
            },
            Pending::UpdateWrite { id, name, email, password_hash } => {
                self.writes += 1;
                for r in self.rows.iter_mut() {
                    if r.id == *id {
                        r.name = name.clone();
                        r.email = email.clone();
                        r.hash = password_hash.clone();
                    }
                }
                Reply::Done
            }
            Pending::DeleteWrite { id } => {
                self.writes += 1;
                self.rows.retain(|r| r.id != *id);
                Reply::Done
            }
        }
    }

    fn drive(&mut self, mut step: Step) -> Response {
        loop {
            match step {
                Step::Answer(r) => return r,
                Step::Ask(p) => {
                    let reply = self.answer(&p);
                    step = resume(p, reply);
                }
            }
        }
    }
}

fn reg(name: &str, email: &str, password: &str) -> Option<RegisterInfo> {
    Some(RegisterInfo { name: name.to_string(), email: email.to_string(), password: password.to_string() })
}

fn login(email: &str, password: &str) -> Option<LoginInfo> {
    Some(LoginInfo { email: email.to_string(), password: password.to_string() })
}

fn text_of(r: &Response) -> Option<Message> {
    match r.body {
        Body::Text(m) => Some(m),
        _ => None,
    }
}

const REGISTER: &str = "POST /register HTTP/1.1\r\nHost: x\r\n\r\n{}";
const LOGIN: &str = "POST /login HTTP/1.1\r\nHost: x\r\n\r\n{}";

#[test]
fn register_then_get_returns_public_view() {
    let mut db = MemStore::new();
    let r = db.drive(start(REGISTER, reg("Ann", "ann@x.org", "pw"), None));
    assert_eq!(r.status, Status::Created);
    assert_eq!(text_of(&r), Some(Message::Empty));
    let g = db.drive(start("GET /users/1 HTTP/1.1\r\n\r\n", None, None));
    assert_eq!(g.status, Status::Success);
    match g.body {
        Body::User(u) => {
            assert_eq!(u.name, "Ann");
            assert_eq!(u.email, "ann@x.org");
            assert_eq!(u.register_date, "2024-01-01 00:00:00 UTC");
        }
        _ => panic!("expected one user"),
    }
}

#[test]
fn reads_do_not_write() {
    let mut db = MemStore::new();
    db.drive(start(REGISTER, reg("Ann", "ann@x.org", "pw"), None));
    let writes = db.writes;
    for _ in 0..2 {
        let g = db.drive(start("GET /users/1 HTTP/1.1\r\n\r\n", None, None));
        assert_eq!(g.status, Status::Success);
        let all = db.drive(start("GET /users HTTP/1.1\r\n\r\n", None, None));
        assert_eq!(all.status, Status::Success);
        match all.body {
            Body::Users(us) => assert_eq!(us.len(), 1),
            _ => panic!("expected a list"),
        }
    }
    assert_eq!(db.writes, writes);
    assert_eq!(db.rows.len(), 1);
}

#[test]
fn same_email_twice_is_conflict() {
    let mut db = MemStore::new();
    let first = db.drive(start(REGISTER, reg("Ann", "ann@x.org", "pw"), None));
    assert_eq!(first.status, Status::Created);
    let second = db.drive(start(REGISTER, reg("Bob", "ann@x.org", "other"), None));
    assert_eq!(second.status, Status::Conflict);
    assert_eq!(second.status.code(), 409);
    assert_eq!(text_of(&second), Some(Message::EmailExists));
}

#[test]
fn interleaved_registrations_give_one_success() {
    let mut db = MemStore::new();
    let a = start_with_salt(REGISTER, reg("Ann", "same@x.org", "pw"), None, "AAAAAAAAAA".to_string());
    let b = start_with_salt(REGISTER, reg("Bob", "same@x.org", "pw2"), None, "BBBBBBBBBB".to_string());
    let (pa, pb) = match (a, b) {
        (Step::Ask(pa), Step::Ask(pb)) => (pa, pb),
        _ => panic!("both should ask the store"),
    };
    let ra = db.answer(&pa);
    let rb = db.answer(&pb);
    let ia = resume(pa, ra);
    let ib = resume(pb, rb);
    let first = db.drive(ia);
    let second = db.drive(ib);
    assert_eq!(first.status, Status::Created);
    assert_eq!(second.status, Status::InternalServerError);
    assert_eq!(db.rows.len(), 1);
}

#[test]
fn login_outcomes() {
    let mut db = MemStore::new();
    db.drive(start(REGISTER, reg("Ann", "ann@x.org", "pw"), None));
    let ok = db.drive(start(LOGIN, None, login("ann@x.org", "pw")));
    assert_eq!(ok.status, Status::Success);
    assert_eq!(text_of(&ok), Some(Message::SuccessLogin));
    assert_eq!(Message::SuccessLogin.text(), "success login");
    let wrong = db.drive(start(LOGIN, None, login("ann@x.org", "nope")));
    assert_eq!(wrong.status, Status::Unauthorized);
    assert_eq!(text_of(&wrong), Some(Message::BadCredentials));
    let unknown = db.drive(start(LOGIN, None, login("bob@x.org", "pw")));
    assert_eq!(unknown.status, Status::Unauthorized);
    assert_eq!(text_of(&unknown), Some(Message::BadCredentials));
}

#[test]
fn delete_then_get_is_not_found() {
    let mut db = MemStore::new();
    db.drive(start(REGISTER, reg("Ann", "ann@x.org", "pw"), None));
    let d = db.drive(start("DELETE /users/1 HTTP/1.1\r\n\r\n", None, None));
    assert_eq!(d.status, Status::Success);
    assert_eq!(text_of(&d), Some(Message::UserDeleted));
    let g = db.drive(start("GET /users/1 HTTP/1.1\r\n\r\n", None, None));
    assert_eq!(g.status, Status::NotFound);
    assert_eq!(text_of(&g), Some(Message::NoSuchUser));
}

#[test]
fn delete_unknown_is_not_found_and_writes_nothing() {
    let mut db = MemStore::new();
    db.drive(start(REGISTER, reg("Ann", "ann@x.org", "pw"), None));
    let writes = db.writes;
    let d = db.drive(start("DELETE /users/9 HTTP/1.1\r\n\r\n", None, None));
    assert_eq!(d.status, Status::NotFound);
    assert_eq!(text_of(&d), Some(Message::NoSuchUser));
    assert_eq!(db.writes, writes);
    assert_eq!(db.rows.len(), 1);
}

#[test]
fn register_draws_a_fresh_salt() {
    match start(REGISTER, reg("Ann", "ann@x.org", "pw"), None) {
        Step::Ask(Pending::RegisterCheck { salt, email, .. }) => {
            assert_eq!(salt.len(), 10);
            assert!(salt.chars().all(|c| c.is_ascii_alphanumeric()));
            assert_eq!(email, "ann@x.org");
        }
        _ => panic!("expected an email check"),
    }
}

#[test]
fn insert_carries_salted_credential() {
    let s = start_with_salt(REGISTER, reg("Ann", "ann@x.org", "pw"), None, "SALTSALT00".to_string());
    let p = match s {
        Step::Ask(p) => p,
        _ => panic!("expected a check"),
    };
    match resume(p, Reply::Flag(false)) {
        Step::Ask(Pending::RegisterInsert { password_hash, salt, name, .. }) => {
            assert_eq!(password_hash, "pwSALTSALT00");
            assert_eq!(salt, "SALTSALT00");
            assert_eq!(name, "Ann");
        }
        _ => panic!("expected an insert"),
    }
}

#[test]
fn malformed_bodies() {
    let r = MemStore::new().drive(start(REGISTER, None, None));
    assert_eq!(r.status, Status::BadRequest);
    let l = MemStore::new().drive(start(LOGIN, None, None));
    assert_eq!(l.status, Status::BadRequest);
    let u = MemStore::new().drive(start("PUT /users/1 HTTP/1.1\r\n\r\nnot json", None, None));
    assert_eq!(u.status, Status::InternalServerError);
    assert_eq!(text_of(&u), Some(Message::Empty));
}

#[test]
fn bad_identifier_is_internal_error() {
    let mut db = MemStore::new();
    let g = db.drive(start("GET /users/abc HTTP/1.1\r\n\r\n", None, None));
    assert_eq!(g.status, Status::InternalServerError);
    let d = db.drive(start("DELETE /users/-1 HTTP/1.1\r\n\r\n", None, None));
    assert_eq!(d.status, Status::InternalServerError);
}

#[test]
fn unknown_route_is_not_found() {
    let r = MemStore::new().drive(start("PATCH /x HTTP/1.1\r\n\r\n", None, None));
    assert_eq!(r.status, Status::NotFound);
    assert_eq!(text_of(&r), Some(Message::PageNotFound));
    assert_eq!(Message::PageNotFound.text(), "404 Not Found");
}

#[test]
fn update_reuses_stored_salt() {
    let mut db = MemStore::new();
    db.drive(start_with_salt(REGISTER, reg("Ann", "ann@x.org", "pw"), None, "ORIGSALT00".to_string()));
    let u = db.drive(start("PUT /users/1 HTTP/1.1\r\n\r\n{}", reg("Anna", "anna@x.org", "new"), None));
    assert_eq!(u.status, Status::Success);
    assert_eq!(text_of(&u), Some(Message::UserUpdated));
    assert_eq!(db.rows[0].hash, "newORIGSALT00");
    assert_eq!(db.rows[0].name, "Anna");
    let missing = db.drive(start("PUT /users/5 HTTP/1.1\r\n\r\n{}", reg("X", "x@x.org", "p"), None));
    assert_eq!(missing.status, Status::NotFound);
    assert_eq!(text_of(&missing), Some(Message::UserNotFound));
}

#[test]
fn store_failure_is_internal_error() {
    let s = start(LOGIN, None, login("a@x.org", "pw"));
    let p = match s {
        Step::Ask(p) => p,
        _ => panic!("expected a check"),
    };
    let r = resume(p, Reply::Failed);
    match r {
        Step::Answer(resp) => {
            assert_eq!(resp.status, Status::InternalServerError);
            assert_eq!(text_of(&resp), Some(Message::Empty));
        }
        _ => panic!("expected an answer"),
    }
}

#[test]
fn out_of_calendar_date_is_internal_error() {
    let s = start("GET /users/1 HTTP/1.1\r\n\r\n", None, None);
    let p = match s {
        Step::Ask(p) => p,
        _ => panic!("expected a check"),
    };
    let fetch = match resume(p, Reply::Flag(true)) {
        Step::Ask(p) => p,
        _ => panic!("expected a fetch"),
    };
    let user = StoredUser {
        name: "Ann".to_string(),
        email: "a@x.org".to_string(),
        registered: Timestamp { seconds: 9_000_000_000_000, nanos: 0 },
    };
    match resume(fetch, Reply::User(user)) {
        Step::Answer(r) => assert_eq!(r.status, Status::InternalServerError),
        _ => panic!("expected an answer"),
    }
}
