use vstd::prelude::*;

use crate::account::{
    date_text_of, password_hash_of, valid_timestamp, LoginInfoModel, PublicInfoModel,
    RegisterInfoModel, Timestamp,
};
use crate::handlers::{
    answer, failure, id_token, next, BodyModel, Message, PendingModel, ResponseModel, Status,
};
use crate::request::{ascii, has_prefix, route_of, user_id_of, Route};
use crate::store::{Account, has_email, has_id, run, serve, store_after, store_reply, wf, Db};

verus! {

/// A request for `/users/<id>` goes to the single-account handler and a
/// request for `/users` alone to the collection handler, though one path
/// begins with the other.
pub proof fn lemma_routing_boundary(b: Seq<u8>)
    ensures
        has_prefix(b, ascii("GET /users/"@)) ==> route_of(b) == Route::GetUser,
        has_prefix(b, ascii("GET /users"@)) && !has_prefix(b, ascii("GET /users/"@))
            ==> route_of(b) == Route::GetAllUsers,
{
    reveal_strlit("POST /register");
    reveal_strlit("POST /login");
    reveal_strlit("GET /users/");
    reveal_strlit("GET /users");
    if has_prefix(b, ascii("GET /users/"@)) {
        assert(ascii("GET /users/"@).subrange(0, 10) =~= ascii("GET /users"@));
        assert(b.subrange(0, 10) =~= b.subrange(0, 11).subrange(0, 10));
    }
    if has_prefix(b, ascii("GET /users"@)) {
        assert(b[0] == ascii("GET /users"@)[0]);
        assert(ascii("POST /register"@)[0] != b[0]);
        assert(ascii("POST /login"@)[0] != b[0]);
        assert(!has_prefix(b, ascii("POST /register"@)));
        assert(!has_prefix(b, ascii("POST /login"@)));
    }
}

/// Registering one email twice in a row: the first succeeds with 201, the
/// second is refused with 409.
pub proof fn lemma_register_twice(
    db: Db,
    b: Seq<u8>,
    first: RegisterInfoModel,
    second: RegisterInfoModel,
    login: Option<LoginInfoModel>,
    salt1: Seq<char>,
    salt2: Seq<char>,
    now1: Timestamp,
    now2: Timestamp,
)
    requires
        wf(db),
        route_of(b) == Route::Register,
        !has_email(db, first.email),
        second.email == first.email,
    ensures
        serve(db, b, Some(first), login, salt1, now1).0.status == Status::Created,
        serve(serve(db, b, Some(first), login, salt1, now1).1, b, Some(second), login, salt2, now2).0
            == (ResponseModel {
            status: Status::Conflict,
            body: BodyModel::Text(Message::EmailExists),
        }),
{
    reveal_with_fuel(run, 4);
    let db1 = serve(db, b, Some(first), login, salt1, now1).1;
    assert(db1.accounts.last().email == first.email);
    assert(has_email(db1, first.email));
}

/// Registering an account under a new email and then reading it back by its
/// identifier yields exactly the registered name and email; the response
/// carries the public fields alone, no credential.
pub proof fn lemma_register_then_get(
    db: Db,
    b: Seq<u8>,
    user: RegisterInfoModel,
    login: Option<LoginInfoModel>,
    salt: Seq<char>,
    now: Timestamp,
    get: Seq<u8>,
    register2: Option<RegisterInfoModel>,
    login2: Option<LoginInfoModel>,
    salt2: Seq<char>,
    now2: Timestamp,
)
    requires
        wf(db),
        route_of(b) == Route::Register,
        !has_email(db, user.email),
        route_of(get) == Route::GetUser,
        user_id_of(id_token(get)) == Some(db.next_id),
        valid_timestamp(now),
    ensures
        serve(db, b, Some(user), login, salt, now).0.status == Status::Created,
        serve(serve(db, b, Some(user), login, salt, now).1, get, register2, login2, salt2, now2).0
            == (ResponseModel {
            status: Status::Success,
            body: BodyModel::User(
                PublicInfoModel {
                    name: user.name,
                    email: user.email,
                    register_date: date_text_of(now),
                },
            ),
        }),
{
    reveal_with_fuel(run, 4);
    let db1 = serve(db, b, Some(user), login, salt, now).1;
    let n = db.accounts.len() as int;
    assert(db1.accounts[n].id == db.next_id);
    assert(has_id(db1, db.next_id));
    let k = choose|i: int| 0 <= i < db1.accounts.len() && (#[trigger] db1.accounts[i]).id == db.next_id;
    if k != n {
        assert(db1.accounts[k] == db.accounts[k]);
    }
}

/// Reading one account or all of them leaves the store as it was.
pub proof fn lemma_reads_keep_store(
    db: Db,
    b: Seq<u8>,
    register: Option<RegisterInfoModel>,
    login: Option<LoginInfoModel>,
    salt: Seq<char>,
    now: Timestamp,
)
    requires
        route_of(b) == Route::GetUser || route_of(b) == Route::GetAllUsers,
    ensures
        serve(db, b, register, login, salt, now).1 == db,
{
    reveal_with_fuel(run, 4);
}

/// Two registrations of one email that both passed their check before either
/// wrote: whichever inserts first succeeds, and the other ends in an internal
/// error, so the store never holds the email twice.
pub proof fn lemma_concurrent_register(
    db: Db,
    a: RegisterInfoModel,
    b: RegisterInfoModel,
    salt_a: Seq<char>,
    salt_b: Seq<char>,
    now: Timestamp,
)
    requires
        wf(db),
        a.email == b.email,
        !has_email(db, a.email),
    ensures
        ({
            let check_a = PendingModel::RegisterCheck {
                name: a.name,
                email: a.email,
                password: a.password,
                salt: salt_a,
            };
            let check_b = PendingModel::RegisterCheck {
                name: b.name,
                email: b.email,
                password: b.password,
                salt: salt_b,
            };
            let step_a = next(check_a, store_reply(db, check_a));
            let step_b = next(check_b, store_reply(db, check_b));
            &&& step_a is Ask
            &&& step_b is Ask
            &&& next(step_a->Ask_0, store_reply(db, step_a->Ask_0)) == answer(
                Status::Created,
                Message::Empty,
            )
            &&& next(
                step_b->Ask_0,
                store_reply(store_after(db, step_a->Ask_0, now), step_b->Ask_0),
            ) == failure()
        }),
{
    let n = db.accounts.len() as int;
    let db1 = store_after(
        db,
        PendingModel::RegisterInsert {
            name: a.name,
            email: a.email,
            password_hash: password_hash_of(a.password, salt_a),
            salt: salt_a,
        },
        now,
    );
    assert(db1.accounts[n].email == a.email);
    assert(has_email(db1, b.email));
}

/// Logging in after registering: the registered password succeeds with 200
/// "success login", any other password is refused with 401, and an email that
/// no account holds is refused with 401 too.
pub proof fn lemma_login(
    db: Db,
    reg: Seq<u8>,
    user: RegisterInfoModel,
    salt: Seq<char>,
    now: Timestamp,
    b: Seq<u8>,
    wrong_password: Seq<char>,
    unknown_email: Seq<char>,
    register2: Option<RegisterInfoModel>,
    salt2: Seq<char>,
    now2: Timestamp,
)
    requires
        wf(db),
        route_of(reg) == Route::Register,
        !has_email(db, user.email),
        route_of(b) == Route::Login,
        wrong_password != user.password,
        unknown_email != user.email,
        !has_email(db, unknown_email),
    ensures
        ({
            let db1 = serve(db, reg, Some(user), None, salt, now).1;
            &&& serve(
                db1,
                b,
                register2,
                Some(LoginInfoModel { email: user.email, password: user.password }),
                salt2,
                now2,
            ).0 == (ResponseModel {
                status: Status::Success,
                body: BodyModel::Text(Message::SuccessLogin),
            })
            &&& serve(
                db1,
                b,
                register2,
                Some(LoginInfoModel { email: user.email, password: wrong_password }),
                salt2,
                now2,
            ).0 == (ResponseModel {
                status: Status::Unauthorized,
                body: BodyModel::Text(Message::BadCredentials),
            })
            &&& serve(
                db1,
                b,
                register2,
                Some(LoginInfoModel { email: unknown_email, password: user.password }),
                salt2,
                now2,
            ).0 == (ResponseModel {
                status: Status::Unauthorized,
                body: BodyModel::Text(Message::BadCredentials),
            })
        }),
{
    reveal_with_fuel(run, 4);
    let db1 = serve(db, reg, Some(user), None, salt, now).1;
    let n = db.accounts.len() as int;
    assert(db1.accounts[n].email == user.email);
    assert(has_email(db1, user.email));
    let k = choose|i: int|
        0 <= i < db1.accounts.len() && (#[trigger] db1.accounts[i]).email == user.email;
    if k != n {
        assert(db1.accounts[k] == db.accounts[k]);
    }
    let stored = password_hash_of(user.password, salt);
    assert(password_hash_of(wrong_password, salt) != stored) by {
        let x = wrong_password + salt;
        let y = user.password + salt;
        if x == y {
            let l = wrong_password.len() as int;
            assert(x.len() == y.len());
            assert(x.len() == l + salt.len());
            assert(y.len() == user.password.len() + salt.len());
            assert(x.subrange(0, l) =~= wrong_password);
            assert(y.subrange(0, l) =~= user.password);
        }
    }
    if has_email(db1, unknown_email) {
        let j = choose|i: int|
            0 <= i < db1.accounts.len() && (#[trigger] db1.accounts[i]).email == unknown_email;
        if j != n {
            assert(db1.accounts[j] == db.accounts[j]);
        }
    }
}

/// Deleting an account that exists answers 200, and reading it afterwards
/// answers 404; deleting an identifier that no account has answers 404 and
/// leaves the store as it was.
pub proof fn lemma_delete(
    db: Db,
    del: Seq<u8>,
    get: Seq<u8>,
    id: int,
    register: Option<RegisterInfoModel>,
    login: Option<LoginInfoModel>,
    salt: Seq<char>,
    now: Timestamp,
)
    requires
        wf(db),
        route_of(del) == Route::DeleteUser,
        route_of(get) == Route::GetUser,
        user_id_of(id_token(del)) == Some(id),
        user_id_of(id_token(get)) == Some(id),
    ensures
        has_id(db, id) ==> serve(db, del, register, login, salt, now).0 == (ResponseModel {
            status: Status::Success,
            body: BodyModel::Text(Message::UserDeleted),
        }),
        has_id(db, id) ==> serve(
            serve(db, del, register, login, salt, now).1,
            get,
            register,
            login,
            salt,
            now,
        ).0 == (ResponseModel {
            status: Status::NotFound,
            body: BodyModel::Text(Message::NoSuchUser),
        }),
        !has_id(db, id) ==> serve(db, del, register, login, salt, now) == (
        ResponseModel { status: Status::NotFound, body: BodyModel::Text(Message::NoSuchUser) },
        db,
        ),
{
    reveal_with_fuel(run, 4);
    let db1 = serve(db, del, register, login, salt, now).1;
    broadcast use vstd::seq_lib::group_filter_ensures;

    if has_id(db1, id) {
        let k = choose|i: int| 0 <= i < db1.accounts.len() && (#[trigger] db1.accounts[i]).id == id;
        db.accounts.lemma_filter_pred(|a: Account| a.id != id, k);
    }
}

} // verus!
