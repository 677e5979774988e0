use vstd::prelude::*;
use vstd::string::StringSliceAdditionalSpecFns;

use crate::account::{
    all_valid, hash_user_password, is_salt, password_hash_of, public_info, public_list,
    public_model, random_salt, valid_timestamp, LoginInfo, LoginInfoModel, PublicInfo,
    PublicInfoModel, RegisterInfo, RegisterInfoModel, StoredUser, StoredUserModel,
};
use crate::request::{
    get_user_id_from_request, id_bounds, parse_user_id, route, route_of, user_id_of, Route,
};

verus! {

/// The status of a response.
#[derive(Clone, Copy, Debug, PartialEq, Eq, Structural)]
pub enum Status {
    Success,
    Created,
    BadRequest,
    Unauthorized,
    NotFound,
    Conflict,
    InternalServerError,
    NotImplemented,
}

impl Status {
    pub open spec fn spec_code(self) -> u16 {
        match self {
            Status::Success => 200,
            Status::Created => 201,
            Status::BadRequest => 400,
            Status::Unauthorized => 401,
            Status::NotFound => 404,
            Status::Conflict => 409,
            Status::InternalServerError => 500,
            Status::NotImplemented => 501,
        }
    }

    /// The numeric status code.
    pub fn code(&self) -> (r: u16)
        ensures
            r == self.spec_code(),
    {
        match self {
            Status::Success => 200,
            Status::Created => 201,
            Status::BadRequest => 400,
            Status::Unauthorized => 401,
            Status::NotFound => 404,
            Status::Conflict => 409,
            Status::InternalServerError => 500,
            Status::NotImplemented => 501,
        }
    }

    pub open spec fn spec_line(self) -> Seq<char> {
        match self {
            Status::Success => "HTTP/1.1 200 OK\r\nContent-Type: application/json\r\n\r\n"@,
            Status::Created => "HTTP/1.1 201 CREATED\r\n\r\n"@,
            Status::BadRequest => "HTTP/1.1 400 BAD REQUEST\r\n\r\n"@,
            Status::Unauthorized => "HTTP/1.1 401 UNAUTHORIZED\r\n\r\n"@,
            Status::NotFound => "HTTP/1.1 404 NOT FOUND\r\n\r\n"@,
            Status::Conflict => "HTTP/1.1 409 CONFLICT\r\n\r\n"@,
            Status::InternalServerError => "HTTP/1.1 500 INTERNAL SERVER ERROR\r\n\r\n"@,
            Status::NotImplemented => "HTTP/1.1 501 NOT IMPLEMENTED\r\n\r\n"@,
        }
    }

    /// The status line and headers that open a response with this status.
    pub fn status_line(&self) -> (r: &'static str)
        ensures
            r@ == self.spec_line(),
    {
        match self {
            Status::Success => "HTTP/1.1 200 OK\r\nContent-Type: application/json\r\n\r\n",
            Status::Created => "HTTP/1.1 201 CREATED\r\n\r\n",
            Status::BadRequest => "HTTP/1.1 400 BAD REQUEST\r\n\r\n",
            Status::Unauthorized => "HTTP/1.1 401 UNAUTHORIZED\r\n\r\n",
            Status::NotFound => "HTTP/1.1 404 NOT FOUND\r\n\r\n",
            Status::Conflict => "HTTP/1.1 409 CONFLICT\r\n\r\n",
            Status::InternalServerError => "HTTP/1.1 500 INTERNAL SERVER ERROR\r\n\r\n",
            Status::NotImplemented => "HTTP/1.1 501 NOT IMPLEMENTED\r\n\r\n",
        }
    }
}

/// The fixed text bodies of responses.
#[derive(Clone, Copy, Debug, PartialEq, Eq, Structural)]
pub enum Message {
    Empty,
    EmailExists,
    SuccessLogin,
    BadCredentials,
    NoSuchUser,
    UserNotFound,
    UserUpdated,
    UserDeleted,
    PageNotFound,
}

impl Message {
    pub open spec fn spec_text(self) -> Seq<char> {
        match self {
            Message::Empty => ""@,
            Message::EmailExists => "Email already exists"@,
            Message::SuccessLogin => "success login"@,
            Message::BadCredentials => "Email or password is incorrect"@,
            Message::NoSuchUser => "No such user"@,
            Message::UserNotFound => "user not found"@,
            Message::UserUpdated => "user updated"@,
            Message::UserDeleted => "user deleted"@,
            Message::PageNotFound => "404 Not Found"@,
        }
    }

    /// The text of this body.
    pub fn text(&self) -> (r: &'static str)
        ensures
            r@ == self.spec_text(),
    {
        match self {
            Message::Empty => "",
            Message::EmailExists => "Email already exists",
            Message::SuccessLogin => "success login",
            Message::BadCredentials => "Email or password is incorrect",
            Message::NoSuchUser => "No such user",
            Message::UserNotFound => "user not found",
            Message::UserUpdated => "user updated",
            Message::UserDeleted => "user deleted",
            Message::PageNotFound => "404 Not Found",
        }
    }
}

/// The body of a response: a fixed text, or public account data to encode.
pub enum Body {
    Text(Message),
    User(PublicInfo),
    Users(Vec<PublicInfo>),
}

pub enum BodyModel {
    Text(Message),
    User(PublicInfoModel),
    Users(Seq<PublicInfoModel>),
}

impl View for Body {
    type V = BodyModel;

    open spec fn view(&self) -> BodyModel {
        match self {
            Body::Text(m) => BodyModel::Text(*m),
            Body::User(u) => BodyModel::User(u@),
            Body::Users(us) => BodyModel::Users(us@.map_values(|u: PublicInfo| u@)),
        }
    }
}

/// A status and a body.
pub struct Response {
    pub status: Status,
    pub body: Body,
}

pub struct ResponseModel {
    pub status: Status,
    pub body: BodyModel,
}

impl View for Response {
    type V = ResponseModel;

    open spec fn view(&self) -> ResponseModel {
        ResponseModel { status: self.status, body: self.body@ }
    }
}

/// A store request that a handler waits on, with what the handler keeps
/// until the reply comes.
pub enum Pending {
    /// Does an account hold this email? Then insert the account.
    RegisterCheck { name: String, email: String, password: String, salt: String },
    /// Insert a new account with a fresh identifier and the store's time.
    RegisterInsert { name: String, email: String, password_hash: String, salt: String },
    /// Does an account hold this email? Then check the password.
    LoginCheck { email: String, password: String },
    /// Fetch the stored credential of the account with this email.
    LoginCredentials { email: String, password: String },
    /// Does an account have this identifier? Then fetch it.
    GetCheck { id: i32 },
    /// Fetch the public fields of the account with this identifier.
    GetFetch { id: i32 },
    /// Fetch the public fields of every account.
    GetAll,
    /// Does an account have this identifier? Then update it.
    UpdateCheck { id: i32, name: String, email: String, password: String },
    /// Fetch the salt of the account with this identifier.
    UpdateSalt { id: i32, name: String, email: String, password: String },
    /// Overwrite the name, email and credential of the account.
    UpdateWrite { id: i32, name: String, email: String, password_hash: String },
    /// Does an account have this identifier? Then delete it.
    DeleteCheck { id: i32 },
    /// Delete the account with this identifier.
    DeleteWrite { id: i32 },
}

pub enum PendingModel {
    RegisterCheck { name: Seq<char>, email: Seq<char>, password: Seq<char>, salt: Seq<char> },
    RegisterInsert {
        name: Seq<char>,
        email: Seq<char>,
        password_hash: Seq<char>,
        salt: Seq<char>,
    },
    LoginCheck { email: Seq<char>, password: Seq<char> },
    LoginCredentials { email: Seq<char>, password: Seq<char> },
    GetCheck { id: int },
    GetFetch { id: int },
    GetAll,
    UpdateCheck { id: int, name: Seq<char>, email: Seq<char>, password: Seq<char> },
    UpdateSalt { id: int, name: Seq<char>, email: Seq<char>, password: Seq<char> },
    UpdateWrite { id: int, name: Seq<char>, email: Seq<char>, password_hash: Seq<char> },
    DeleteCheck { id: int },
    DeleteWrite { id: int },
}

impl View for Pending {
    type V = PendingModel;

    open spec fn view(&self) -> PendingModel {
        match self {
            Pending::RegisterCheck { name, email, password, salt } => PendingModel::RegisterCheck {
                name: name@,
                email: email@,
                password: password@,
                salt: salt@,
            },
            Pending::RegisterInsert {
                name,
                email,
                password_hash,
                salt,
            } => PendingModel::RegisterInsert {
                name: name@,
                email: email@,
                password_hash: password_hash@,
                salt: salt@,
            },
            Pending::LoginCheck { email, password } => PendingModel::LoginCheck {
                email: email@,
                password: password@,
            },
            Pending::LoginCredentials { email, password } => PendingModel::LoginCredentials {
                email: email@,
                password: password@,
            },
            Pending::GetCheck { id } => PendingModel::GetCheck { id: *id as int },
            Pending::GetFetch { id } => PendingModel::GetFetch { id: *id as int },
            Pending::GetAll => PendingModel::GetAll,
            Pending::UpdateCheck { id, name, email, password } => PendingModel::UpdateCheck {
                id: *id as int,
                name: name@,
                email: email@,
                password: password@,
            },
            Pending::UpdateSalt { id, name, email, password } => PendingModel::UpdateSalt {
                id: *id as int,
                name: name@,
                email: email@,
                password: password@,
            },
            Pending::UpdateWrite { id, name, email, password_hash } => PendingModel::UpdateWrite {
                id: *id as int,
                name: name@,
                email: email@,
                password_hash: password_hash@,
            },
            Pending::DeleteCheck { id } => PendingModel::DeleteCheck { id: *id as int },
            Pending::DeleteWrite { id } => PendingModel::DeleteWrite { id: *id as int },
        }
    }
}

/// What the store answered to a pending request.
pub enum Reply {
    /// The answer to an existence check.
    Flag(bool),
    /// A write went through.
    Done,
    /// A stored credential and its salt.
    Credentials { password_hash: String, salt: String },
    /// A stored salt.
    Salt(String),
    User(StoredUser),
    Users(Vec<StoredUser>),
    /// The store failed: it could not be reached, or refused the request.
    Failed,
}

pub enum ReplyModel {
    Flag(bool),
    Done,
    Credentials { password_hash: Seq<char>, salt: Seq<char> },
    Salt(Seq<char>),
    User(StoredUserModel),
    Users(Seq<StoredUserModel>),
    Failed,
}

impl View for Reply {
    type V = ReplyModel;

    open spec fn view(&self) -> ReplyModel {
        match self {
            Reply::Flag(b) => ReplyModel::Flag(*b),
            Reply::Done => ReplyModel::Done,
            Reply::Credentials { password_hash, salt } => ReplyModel::Credentials {
                password_hash: password_hash@,
                salt: salt@,
            },
            Reply::Salt(s) => ReplyModel::Salt(s@),
            Reply::User(u) => ReplyModel::User(u@),
            Reply::Users(us) => ReplyModel::Users(us@.map_values(|u: StoredUser| u@)),
            Reply::Failed => ReplyModel::Failed,
        }
    }
}

/// What a handler does next: ask the store, or answer the client.
pub enum Step {
    Ask(Pending),
    Answer(Response),
}

pub enum StepModel {
    Ask(PendingModel),
    Answer(ResponseModel),
}

impl View for Step {
    type V = StepModel;

    open spec fn view(&self) -> StepModel {
        match self {
            Step::Ask(p) => StepModel::Ask(p@),
            Step::Answer(r) => StepModel::Answer(r@),
        }
    }
}

pub open spec fn answer(status: Status, m: Message) -> StepModel {
    StepModel::Answer(ResponseModel { status, body: BodyModel::Text(m) })
}

/// Any failure of the store, or a reply of the wrong kind, ends the request
/// with an internal error and an empty body.
pub open spec fn failure() -> StepModel {
    answer(Status::InternalServerError, Message::Empty)
}

/// The step that follows a store reply.
pub open spec fn next(p: PendingModel, r: ReplyModel) -> StepModel {
    match p {
        PendingModel::RegisterCheck { name, email, password, salt } => match r {
            ReplyModel::Flag(true) => answer(Status::Conflict, Message::EmailExists),
            ReplyModel::Flag(false) => StepModel::Ask(
                PendingModel::RegisterInsert {
                    name,
                    email,
                    password_hash: password_hash_of(password, salt),
                    salt,
                },
            ),
            _ => failure(),
        },
        PendingModel::RegisterInsert { .. } => match r {
            ReplyModel::Done => answer(Status::Created, Message::Empty),
            _ => failure(),
        },
        PendingModel::LoginCheck { email, password } => match r {
            ReplyModel::Flag(true) => StepModel::Ask(
                PendingModel::LoginCredentials { email, password },
            ),
            ReplyModel::Flag(false) => answer(Status::Unauthorized, Message::BadCredentials),
            _ => failure(),
        },
        PendingModel::LoginCredentials { email, password } => match r {
            ReplyModel::Credentials { password_hash, salt } => {
                if password_hash == password_hash_of(password, salt) {
                    answer(Status::Success, Message::SuccessLogin)
                } else {
                    answer(Status::Unauthorized, Message::BadCredentials)
                }
            },
            _ => failure(),
        },
        PendingModel::GetCheck { id } => match r {
            ReplyModel::Flag(true) => StepModel::Ask(PendingModel::GetFetch { id }),
            ReplyModel::Flag(false) => answer(Status::NotFound, Message::NoSuchUser),
            _ => failure(),
        },
        PendingModel::GetFetch { .. } => match r {
            ReplyModel::User(u) => if valid_timestamp(u.registered) {
                StepModel::Answer(
                    ResponseModel { status: Status::Success, body: BodyModel::User(public_model(u)) },
                )
            } else {
                failure()
            },
            _ => failure(),
        },
        PendingModel::GetAll => match r {
            ReplyModel::Users(us) => if all_valid(us) {
                StepModel::Answer(
                    ResponseModel {
                        status: Status::Success,
                        body: BodyModel::Users(us.map_values(|u: StoredUserModel| public_model(u))),
                    },
                )
            } else {
                failure()
            },
            _ => failure(),
        },
        PendingModel::UpdateCheck { id, name, email, password } => match r {
            ReplyModel::Flag(true) => StepModel::Ask(
                PendingModel::UpdateSalt { id, name, email, password },
            ),
            ReplyModel::Flag(false) => answer(Status::NotFound, Message::UserNotFound),
            _ => failure(),
        },
        PendingModel::UpdateSalt { id, name, email, password } => match r {
            ReplyModel::Salt(salt) => StepModel::Ask(
                PendingModel::UpdateWrite {
                    id,
                    name,
                    email,
                    password_hash: password_hash_of(password, salt),
                },
            ),
            _ => failure(),
        },
        PendingModel::UpdateWrite { .. } => match r {
            ReplyModel::Done => answer(Status::Success, Message::UserUpdated),
            _ => failure(),
        },
        PendingModel::DeleteCheck { id } => match r {
            ReplyModel::Flag(true) => StepModel::Ask(PendingModel::DeleteWrite { id }),
            ReplyModel::Flag(false) => answer(Status::NotFound, Message::NoSuchUser),
            _ => failure(),
        },
        PendingModel::DeleteWrite { .. } => match r {
            ReplyModel::Done => answer(Status::Success, Message::UserDeleted),
            _ => failure(),
        },
    }
}

fn text_answer(status: Status, m: Message) -> (r: Step)
    ensures
        r@ == answer(status, m),
{
    Step::Answer(Response { status, body: Body::Text(m) })
}

fn fail() -> (r: Step)
    ensures
        r@ == failure(),
{
    text_answer(Status::InternalServerError, Message::Empty)
}

/// Takes a handler one step on: from the store request it waited on and the
/// store's reply, to its next store request or its response.
pub fn resume(p: Pending, r: Reply) -> (s: Step)
    ensures
        s@ == next(p@, r@),
{
    match p {
        Pending::RegisterCheck { name, email, password, salt } => match r {
            Reply::Flag(true) => text_answer(Status::Conflict, Message::EmailExists),
            Reply::Flag(false) => {
                let password_hash = hash_user_password(password, salt.clone());
                Step::Ask(Pending::RegisterInsert { name, email, password_hash, salt })
            },
            _ => fail(),
        },
        Pending::RegisterInsert { .. } => match r {
            Reply::Done => text_answer(Status::Created, Message::Empty),
            _ => fail(),
        },
        Pending::LoginCheck { email, password } => match r {
            Reply::Flag(true) => Step::Ask(Pending::LoginCredentials { email, password }),
            Reply::Flag(false) => text_answer(Status::Unauthorized, Message::BadCredentials),
            _ => fail(),
        },
        Pending::LoginCredentials { email, password } => match r {
            Reply::Credentials { password_hash, salt } => {
                let expected = hash_user_password(password, salt);
                if password_hash == expected {
                    text_answer(Status::Success, Message::SuccessLogin)
                } else {
                    text_answer(Status::Unauthorized, Message::BadCredentials)
                }
            },
            _ => fail(),
        },
        Pending::GetCheck { id } => match r {
            Reply::Flag(true) => Step::Ask(Pending::GetFetch { id }),
            Reply::Flag(false) => text_answer(Status::NotFound, Message::NoSuchUser),
            _ => fail(),
        },
        Pending::GetFetch { .. } => match r {
            Reply::User(u) => match public_info(&u) {
                Some(p) => Step::Answer(Response { status: Status::Success, body: Body::User(p) }),
                None => fail(),
            },
            _ => fail(),
        },
        Pending::GetAll => match r {
            Reply::Users(us) => match public_list(&us) {
                Some(ps) => {
                    assert(us@.map_values(|u: StoredUser| public_model(u@)) =~= us@.map_values(
                        |u: StoredUser| u@,
                    ).map_values(|u: StoredUserModel| public_model(u)));
                    Step::Answer(Response { status: Status::Success, body: Body::Users(ps) })
                },
                None => fail(),
            },
            _ => fail(),
        },
        Pending::UpdateCheck { id, name, email, password } => match r {
            Reply::Flag(true) => Step::Ask(Pending::UpdateSalt { id, name, email, password }),
            Reply::Flag(false) => text_answer(Status::NotFound, Message::UserNotFound),
            _ => fail(),
        },
        Pending::UpdateSalt { id, name, email, password } => match r {
            Reply::Salt(salt) => {
                let password_hash = hash_user_password(password, salt);
                Step::Ask(Pending::UpdateWrite { id, name, email, password_hash })
            },
            _ => fail(),
        },
        Pending::UpdateWrite { .. } => match r {
            Reply::Done => text_answer(Status::Success, Message::UserUpdated),
            _ => fail(),
        },
        Pending::DeleteCheck { id } => match r {
            Reply::Flag(true) => Step::Ask(Pending::DeleteWrite { id }),
            Reply::Flag(false) => text_answer(Status::NotFound, Message::NoSuchUser),
            _ => fail(),
        },
        Pending::DeleteWrite { .. } => match r {
            Reply::Done => text_answer(Status::Success, Message::UserDeleted),
            _ => fail(),
        },
    }
}

/// The identifier token of a request.
pub open spec fn id_token(b: Seq<u8>) -> Seq<u8> {
    b.subrange(id_bounds(b).0, id_bounds(b).1)
}

pub open spec fn register_model(o: Option<RegisterInfo>) -> Option<RegisterInfoModel> {
    match o {
        Some(u) => Some(u@),
        None => None,
    }
}

pub open spec fn login_model(o: Option<LoginInfo>) -> Option<LoginInfoModel> {
    match o {
        Some(u) => Some(u@),
        None => None,
    }
}

/// Registration starts with a check of the email, or fails on a body that did
/// not decode.
pub open spec fn begin_register(user: Option<RegisterInfoModel>, salt: Seq<char>) -> StepModel {
    match user {
        Some(u) => StepModel::Ask(
            PendingModel::RegisterCheck {
                name: u.name,
                email: u.email,
                password: u.password,
                salt,
            },
        ),
        None => answer(Status::BadRequest, Message::Empty),
    }
}

/// Login starts with a check of the email, or fails on a body that did not decode.
pub open spec fn begin_login(user: Option<LoginInfoModel>) -> StepModel {
    match user {
        Some(u) => StepModel::Ask(PendingModel::LoginCheck { email: u.email, password: u.password }),
        None => answer(Status::BadRequest, Message::Empty),
    }
}

/// Reading one account starts with a check of its identifier; an identifier
/// that does not parse is an internal error.
pub open spec fn begin_get(b: Seq<u8>) -> StepModel {
    match user_id_of(id_token(b)) {
        Some(id) => StepModel::Ask(PendingModel::GetCheck { id }),
        None => failure(),
    }
}

/// An update decodes its body first, then checks the identifier; a body that
/// does not decode is an internal error, as is an identifier that does not parse.
pub open spec fn begin_update(b: Seq<u8>, user: Option<RegisterInfoModel>) -> StepModel {
    match user {
        None => failure(),
        Some(u) => match user_id_of(id_token(b)) {
            Some(id) => StepModel::Ask(
                PendingModel::UpdateCheck { id, name: u.name, email: u.email, password: u.password },
            ),
            None => failure(),
        },
    }
}

/// Deletion starts with a check of the identifier.
pub open spec fn begin_delete(b: Seq<u8>) -> StepModel {
    match user_id_of(id_token(b)) {
        Some(id) => StepModel::Ask(PendingModel::DeleteCheck { id }),
        None => failure(),
    }
}

/// The first step for a raw request `b`, given its body decoded in the shape
/// of a registration and of a login, and the salt a registration would use.
pub open spec fn begin(
    b: Seq<u8>,
    register: Option<RegisterInfoModel>,
    login: Option<LoginInfoModel>,
    salt: Seq<char>,
) -> StepModel {
    match route_of(b) {
        Route::Register => begin_register(register, salt),
        Route::Login => begin_login(login),
        Route::GetUser => begin_get(b),
        Route::GetAllUsers => StepModel::Ask(PendingModel::GetAll),
        Route::UpdateUser => begin_update(b, register),
        Route::DeleteUser => begin_delete(b),
        Route::Unknown => answer(Status::NotFound, Message::PageNotFound),
    }
}

fn request_user_id(request: &str) -> (r: Option<i32>)
    ensures
        r matches Some(id) ==> user_id_of(id_token(request.spec_bytes())) == Some(id as int),
        r is None ==> user_id_of(id_token(request.spec_bytes())) is None,
{
    parse_user_id(get_user_id_from_request(request))
}

/// Starts a registration, with the salt its credential will use.
pub fn handle_register_request(user: Option<RegisterInfo>, salt: String) -> (s: Step)
    ensures
        s@ == begin_register(register_model(user), salt@),
{
    match user {
        Some(u) => Step::Ask(
            Pending::RegisterCheck { name: u.name, email: u.email, password: u.password, salt },
        ),
        None => text_answer(Status::BadRequest, Message::Empty),
    }
}

/// Starts a login.
pub fn handle_login_request(user: Option<LoginInfo>) -> (s: Step)
    ensures
        s@ == begin_login(login_model(user)),
{
    match user {
        Some(u) => Step::Ask(Pending::LoginCheck { email: u.email, password: u.password }),
        None => text_answer(Status::BadRequest, Message::Empty),
    }
}

/// Starts reading the account that the request's path names.
pub fn handle_get_user_request(request: &str) -> (s: Step)
    ensures
        s@ == begin_get(request.spec_bytes()),
{
    match request_user_id(request) {
        Some(id) => Step::Ask(Pending::GetCheck { id }),
        None => fail(),
    }
}

/// Starts reading every account.
pub fn handle_get_all_users_request(_request: &str) -> (s: Step)
    ensures
        s@ == StepModel::Ask(PendingModel::GetAll),
{
    Step::Ask(Pending::GetAll)
}

/// Starts updating the account that the request's path names.
pub fn handle_update_user_request(request: &str, user: Option<RegisterInfo>) -> (s: Step)
    ensures
        s@ == begin_update(request.spec_bytes(), register_model(user)),
{
    match user {
        None => fail(),
        Some(u) => match request_user_id(request) {
            Some(id) => Step::Ask(
                Pending::UpdateCheck { id, name: u.name, email: u.email, password: u.password },
            ),
            None => fail(),
        },
    }
}

/// Starts deleting the account that the request's path names.
pub fn handle_delete_user_request(request: &str) -> (s: Step)
    ensures
        s@ == begin_delete(request.spec_bytes()),
{
    match request_user_id(request) {
        Some(id) => Step::Ask(Pending::DeleteCheck { id }),
        None => fail(),
    }
}

/// Routes a raw request to its handler and takes the first step, given the
/// request's body decoded as a registration and as a login, and the salt that
/// a registration uses.
pub fn start_with_salt(
    request: &str,
    register: Option<RegisterInfo>,
    login: Option<LoginInfo>,
    salt: String,
) -> (s: Step)
    ensures
        s@ == begin(request.spec_bytes(), register_model(register), login_model(login), salt@),
{
    match route(request) {
        Route::Register => handle_register_request(register, salt),
        Route::Login => handle_login_request(login),
        Route::GetUser => handle_get_user_request(request),
        Route::GetAllUsers => handle_get_all_users_request(request),
        Route::UpdateUser => handle_update_user_request(request, register),
        Route::DeleteUser => handle_delete_user_request(request),
        Route::Unknown => text_answer(Status::NotFound, Message::PageNotFound),
    }
}

/// Routes a raw request and takes its first step; a registration draws a
/// fresh random salt.
pub fn start(request: &str, register: Option<RegisterInfo>, login: Option<LoginInfo>) -> (s: Step)
    ensures
        route_of(request.spec_bytes()) == Route::Register ==> exists|salt: Seq<char>|
            is_salt(salt) && s@ == begin(
                request.spec_bytes(),
                register_model(register),
                login_model(login),
                salt,
            ),
        route_of(request.spec_bytes()) != Route::Register ==> s@ == begin(
            request.spec_bytes(),
            register_model(register),
            login_model(login),
            Seq::empty(),
        ),
{
    if route(request) == Route::Register {
        let salt = random_salt();
        let ghost drawn = salt@;
        let s = start_with_salt(request, register, login, salt);
        assert(is_salt(drawn) && s@ == begin(
            request.spec_bytes(),
            register_model(register),
            login_model(login),
            drawn,
        ));
        s
    } else {
        let s = start_with_salt(request, register, login, String::new());
        s
    }
}

} // verus!
