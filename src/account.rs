use vstd::prelude::*;
use vstd::string::StringExecFns;
use rand::Rng;

verus! {

/// The fields of an account that any caller may see.
pub struct PublicInfo {
    pub name: String,
    pub email: String,
    pub register_date: String,
}

pub struct PublicInfoModel {
    pub name: Seq<char>,
    pub email: Seq<char>,
    pub register_date: Seq<char>,
}

impl View for PublicInfo {
    type V = PublicInfoModel;

    open spec fn view(&self) -> PublicInfoModel {
        PublicInfoModel {
            name: self.name@,
            email: self.email@,
            register_date: self.register_date@,
        }
    }
}

/// What a registration or an update carries.
pub struct RegisterInfo {
    pub name: String,
    pub email: String,
    pub password: String,
}

pub struct RegisterInfoModel {
    pub name: Seq<char>,
    pub email: Seq<char>,
    pub password: Seq<char>,
}

impl View for RegisterInfo {
    type V = RegisterInfoModel;

    open spec fn view(&self) -> RegisterInfoModel {
        RegisterInfoModel { name: self.name@, email: self.email@, password: self.password@ }
    }
}

/// What a login carries.
pub struct LoginInfo {
    pub email: String,
    pub password: String,
}

pub struct LoginInfoModel {
    pub email: Seq<char>,
    pub password: Seq<char>,
}

impl View for LoginInfo {
    type V = LoginInfoModel;

    open spec fn view(&self) -> LoginInfoModel {
        LoginInfoModel { email: self.email@, password: self.password@ }
    }
}

/// The stored credential derived from a raw password and a salt. This is a
/// plain concatenation, a placeholder that is no cryptographic hash.
pub open spec fn password_hash_of(raw_password: Seq<char>, salt: Seq<char>) -> Seq<char> {
    raw_password + salt
}

/// Derives the stored credential of a raw password under a salt.
pub fn hash_user_password(raw_password: String, salt: String) -> (r: String)
    ensures
        r@ == password_hash_of(raw_password@, salt@),
{
    raw_password.concat(salt.as_str())
}

/// The length of a fresh salt.
pub const SALT_LEN: usize = 10;

/// An ASCII letter or digit.
pub open spec fn is_alphanumeric(c: char) -> bool {
    ('a' <= c <= 'z') || ('A' <= c <= 'Z') || ('0' <= c <= '9')
}

/// A salt as registration makes them: `SALT_LEN` ASCII letters and digits.
pub open spec fn is_salt(s: Seq<char>) -> bool {
    s.len() == SALT_LEN && forall|i: int| 0 <= i < s.len() ==> is_alphanumeric(#[trigger] s[i])
}

/// Relies on rand's `thread_rng` sampled through `distributions::Alphanumeric`:
/// `len` samples, each one of the 62 ASCII letters and digits.
#[verifier::external_body]
fn random_alphanumeric(len: usize) -> (r: String)
    ensures
        r@.len() == len,
        forall|i: int| 0 <= i < r@.len() ==> is_alphanumeric(#[trigger] r@[i]),
{
    rand::thread_rng().sample_iter(&rand::distributions::Alphanumeric).take(len).map(
        char::from,
    ).collect()
}

/// Draws a fresh random salt.
pub fn random_salt() -> (r: String)
    ensures
        is_salt(r@),
{
    random_alphanumeric(SALT_LEN)
}

/// A point in time as the store keeps it: seconds since the Unix epoch and
/// the nanoseconds past that second.
#[derive(Clone, Copy, Debug, PartialEq, Eq, Structural)]
pub struct Timestamp {
    pub seconds: i64,
    pub nanos: u32,
}

/// The largest distance from the epoch, in seconds, that a timestamp may
/// have: about 253,000 years, inside the range of calendar dates.
pub const MAX_TIMESTAMP_SECONDS: i64 = 8_000_000_000_000;

/// A timestamp that names a calendar date and time, with no leap second.
pub open spec fn valid_timestamp(t: Timestamp) -> bool {
    -MAX_TIMESTAMP_SECONDS <= t.seconds <= MAX_TIMESTAMP_SECONDS && t.nanos < 1_000_000_000
}

/// The UTC date and time that a timestamp names, as text.
pub uninterp spec fn utc_text_of(seconds: int, nanos: int) -> Seq<char>;

/// Relies on chrono's `DateTime::<Utc>::from_timestamp`, which gives a date
/// for every timestamp within the bound, and on its `Display`, which writes
/// it as `YYYY-MM-DD hh:mm:ss UTC`.
#[verifier::external_body]
fn utc_text(t: Timestamp) -> (r: String)
    requires
        valid_timestamp(t),
    ensures
        r@ == utc_text_of(t.seconds as int, t.nanos as int),
{
    match chrono::DateTime::<chrono::Utc>::from_timestamp(t.seconds, t.nanos) {
        Some(d) => d.to_string(),
        None => String::new(),
    }
}

pub open spec fn date_text_of(t: Timestamp) -> Seq<char> {
    utc_text_of(t.seconds as int, t.nanos as int)
}

/// An account's public fields as the store returns them.
pub struct StoredUser {
    pub name: String,
    pub email: String,
    pub registered: Timestamp,
}

pub struct StoredUserModel {
    pub name: Seq<char>,
    pub email: Seq<char>,
    pub registered: Timestamp,
}

impl View for StoredUser {
    type V = StoredUserModel;

    open spec fn view(&self) -> StoredUserModel {
        StoredUserModel { name: self.name@, email: self.email@, registered: self.registered }
    }
}

/// The public view of a stored account, its registration time as UTC text.
pub open spec fn public_model(u: StoredUserModel) -> PublicInfoModel {
    PublicInfoModel { name: u.name, email: u.email, register_date: date_text_of(u.registered) }
}

/// The public view of a stored account; `None` where its registration time
/// lies outside the calendar.
pub fn public_info(u: &StoredUser) -> (r: Option<PublicInfo>)
    ensures
        r is Some <==> valid_timestamp(u.registered),
        r matches Some(p) ==> p@ == public_model(u@),
{
    if u.registered.seconds < -MAX_TIMESTAMP_SECONDS || u.registered.seconds
        > MAX_TIMESTAMP_SECONDS || u.registered.nanos >= 1_000_000_000 {
        return None;
    }
    let register_date = utc_text(u.registered);
    Some(PublicInfo { name: u.name.clone(), email: u.email.clone(), register_date })
}

/// Every registration time in `us` lies in the calendar.
pub open spec fn all_valid(us: Seq<StoredUserModel>) -> bool {
    forall|i: int| 0 <= i < us.len() ==> valid_timestamp(#[trigger] us[i].registered)
}

/// The public views of stored accounts, in order; `None` where one of their
/// registration times lies outside the calendar.
pub fn public_list(us: &Vec<StoredUser>) -> (r: Option<Vec<PublicInfo>>)
    ensures
        r is Some <==> all_valid(us@.map_values(|u: StoredUser| u@)),
        r matches Some(v) ==> v@.map_values(|p: PublicInfo| p@) == us@.map_values(
            |u: StoredUser| public_model(u@),
        ),
{
    let ghost src = us@;
    let mut out: Vec<PublicInfo> = Vec::new();
    let mut i: usize = 0;
    while i < us.len()
        invariant
            src == us@,
            i <= src.len(),
            out@.len() == i,
            forall|j: int| 0 <= j < i ==> valid_timestamp(#[trigger] src[j].registered),
            forall|j: int| 0 <= j < i ==> (#[trigger] out@[j])@ == public_model(src[j]@),
        decreases src.len() - i,
    {
        match public_info(&us[i]) {
            Some(p) => out.push(p),
            None => {
                assert(!valid_timestamp(us@.map_values(|u: StoredUser| u@)[i as int].registered));
                return None;
            },
        }
        i = i + 1;
    }
    assert(out@.map_values(|p: PublicInfo| p@) =~= src.map_values(|u: StoredUser| public_model(u@)));
    Some(out)
}

} // verus!
