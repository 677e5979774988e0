use vstd::prelude::*;

use crate::account::{LoginInfoModel, RegisterInfoModel, StoredUserModel, Timestamp};
use crate::handlers::{
    begin, failure, next, PendingModel, ReplyModel, ResponseModel, StepModel,
};

verus! {

/// The parts of the account schema that must exist before the service runs.
#[derive(Clone, Copy, Debug, PartialEq, Eq, Structural)]
pub enum SchemaItem {
    /// The accounts table: identifier, name, unique email, registration
    /// time, credential and salt.
    UsersTable,
    /// The sequence that hands out account identifiers.
    UserIdSequence,
}

/// What the store must hold before requests are served, in the order to create it.
pub fn set_database() -> (r: Vec<SchemaItem>)
    ensures
        r@ == seq![SchemaItem::UsersTable, SchemaItem::UserIdSequence],
{
    vec![SchemaItem::UsersTable, SchemaItem::UserIdSequence]
}

/// A stored account.
pub struct Account {
    pub id: int,
    pub name: Seq<char>,
    pub email: Seq<char>,
    pub registered: Timestamp,
    pub password_hash: Seq<char>,
    pub salt: Seq<char>,
}

/// The record store as the handlers see it: its accounts, and the identifier
/// that its sequence hands out next.
pub struct Db {
    pub accounts: Seq<Account>,
    pub next_id: int,
}

/// Identifiers and emails are unique, and every identifier was handed out.
pub open spec fn wf(db: Db) -> bool {
    &&& 1 <= db.next_id
    &&& forall|i: int| 0 <= i < db.accounts.len() ==> 1 <= #[trigger] db.accounts[i].id < db.next_id
    &&& forall|i: int, j: int|
        0 <= i < db.accounts.len() && 0 <= j < db.accounts.len() && i != j ==> (
        #[trigger] db.accounts[i]).id != (#[trigger] db.accounts[j]).id && db.accounts[i].email
            != db.accounts[j].email
}

pub open spec fn has_id(db: Db, id: int) -> bool {
    exists|i: int| 0 <= i < db.accounts.len() && (#[trigger] db.accounts[i]).id == id
}

pub open spec fn has_email(db: Db, email: Seq<char>) -> bool {
    exists|i: int| 0 <= i < db.accounts.len() && (#[trigger] db.accounts[i]).email == email
}

pub open spec fn with_id(db: Db, id: int) -> Account {
    db.accounts[choose|i: int| 0 <= i < db.accounts.len() && (#[trigger] db.accounts[i]).id == id]
}

pub open spec fn with_email(db: Db, email: Seq<char>) -> Account {
    db.accounts[choose|i: int|
        0 <= i < db.accounts.len() && (#[trigger] db.accounts[i]).email == email]
}

/// An email held by an account other than the one with identifier `id`.
pub open spec fn email_taken_by_other(db: Db, id: int, email: Seq<char>) -> bool {
    exists|i: int|
        0 <= i < db.accounts.len() && (#[trigger] db.accounts[i]).email == email
            && db.accounts[i].id != id
}

pub open spec fn public_of(a: Account) -> StoredUserModel {
    StoredUserModel { name: a.name, email: a.email, registered: a.registered }
}

/// What the store answers to a request.
pub open spec fn store_reply(db: Db, p: PendingModel) -> ReplyModel {
    match p {
        PendingModel::RegisterCheck { email, .. } => ReplyModel::Flag(has_email(db, email)),
        PendingModel::RegisterInsert { email, .. } => if has_email(db, email) {
            ReplyModel::Failed
        } else {
            ReplyModel::Done
        },
        PendingModel::LoginCheck { email, .. } => ReplyModel::Flag(has_email(db, email)),
        PendingModel::LoginCredentials { email, .. } => if has_email(db, email) {
            ReplyModel::Credentials {
                password_hash: with_email(db, email).password_hash,
                salt: with_email(db, email).salt,
            }
        } else {
            ReplyModel::Failed
        },
        PendingModel::GetCheck { id } => ReplyModel::Flag(has_id(db, id)),
        PendingModel::GetFetch { id } => if has_id(db, id) {
            ReplyModel::User(public_of(with_id(db, id)))
        } else {
            ReplyModel::Failed
        },
        PendingModel::GetAll => ReplyModel::Users(db.accounts.map_values(|a: Account| public_of(a))),
        PendingModel::UpdateCheck { id, .. } => ReplyModel::Flag(has_id(db, id)),
        PendingModel::UpdateSalt { id, .. } => if has_id(db, id) {
            ReplyModel::Salt(with_id(db, id).salt)
        } else {
            ReplyModel::Failed
        },
        PendingModel::UpdateWrite { id, email, .. } => if email_taken_by_other(db, id, email) {
            ReplyModel::Failed
        } else {
            ReplyModel::Done
        },
        PendingModel::DeleteCheck { id } => ReplyModel::Flag(has_id(db, id)),
        PendingModel::DeleteWrite { .. } => ReplyModel::Done,
    }
}

/// The store after it served a request; `now` is the store's clock.
pub open spec fn store_after(db: Db, p: PendingModel, now: Timestamp) -> Db {
    match p {
        PendingModel::RegisterInsert { name, email, password_hash, salt } => if has_email(
            db,
            email,
        ) {
            db
        } else {
            Db {
                accounts: db.accounts.push(
                    Account { id: db.next_id, name, email, registered: now, password_hash, salt },
                ),
                next_id: db.next_id + 1,
            }
        },
        PendingModel::UpdateWrite { id, name, email, password_hash } => if email_taken_by_other(
            db,
            id,
            email,
        ) {
            db
        } else {
            Db {
                accounts: db.accounts.map_values(
                    |a: Account|
                        if a.id == id {
                            Account { name, email, password_hash, ..a }
                        } else {
                            a
                        },
                ),
                next_id: db.next_id,
            }
        },
        PendingModel::DeleteWrite { id } => Db {
            accounts: db.accounts.filter(|a: Account| a.id != id),
            next_id: db.next_id,
        },
        _ => db,
    }
}

/// Runs a handler against the store until it answers: the response and the
/// store after it. No handler asks more than three times.
pub open spec fn run(db: Db, s: StepModel, now: Timestamp, fuel: nat) -> (ResponseModel, Db)
    decreases fuel,
{
    match s {
        StepModel::Answer(r) => (r, db),
        StepModel::Ask(p) => if fuel == 0 {
            (failure()->Answer_0, db)
        } else {
            run(store_after(db, p, now), next(p, store_reply(db, p)), now, (fuel - 1) as nat)
        },
    }
}

/// Serves one raw request `b` against the store.
pub open spec fn serve(
    db: Db,
    b: Seq<u8>,
    register: Option<RegisterInfoModel>,
    login: Option<LoginInfoModel>,
    salt: Seq<char>,
    now: Timestamp,
) -> (ResponseModel, Db) {
    run(db, begin(b, register, login, salt), now, 3)
}

} // verus!
