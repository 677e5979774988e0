use user_service::account::{hash_user_password, public_info, public_list, StoredUser, Timestamp};
use user_service::handlers::{Message, Status};
use user_service::request::{get_user_id_from_request, parse_user_id, request_body, route, Route};
use user_service::store::{set_database, SchemaItem};

#[test]
fn routes_collection_and_single_user_apart() {
    assert_eq!(route("GET /users HTTP/1.1\r\n\r\n"), Route::GetAllUsers);
    assert_eq!(route("GET /users/42 HTTP/1.1\r\n\r\n"), Route::GetUser);
}

#[test]
fn routes_every_method() {
    assert_eq!(route("POST /register HTTP/1.1\r\n\r\n{}"), Route::Register);
    assert_eq!(route("POST /login HTTP/1.1\r\n\r\n{}"), Route::Login);
    assert_eq!(route("PUT /users/3 HTTP/1.1\r\n\r\n{}"), Route::UpdateUser);
    assert_eq!(route("DELETE /users/3 HTTP/1.1\r\n\r\n"), Route::DeleteUser);
    assert_eq!(route("PATCH /users/3 HTTP/1.1\r\n\r\n"), Route::Unknown);
    assert_eq!(route(""), Route::Unknown);
}

#[test]
fn extracts_identifier_segment() {
    assert_eq!(get_user_id_from_request("GET /users/42 HTTP/1.1\r\nHost: x\r\n\r\n"), "42");
    assert_eq!(get_user_id_from_request("DELETE /users/7"), "7");
    assert_eq!(get_user_id_from_request("GET /users/abc/def HTTP/1.1"), "abc");
    assert_eq!(get_user_id_from_request("GET /users HTTP/1.1"), "1.1");
    assert_eq!(get_user_id_from_request("GET /users"), "");
    assert_eq!(get_user_id_from_request("no slashes"), "");
}

#[test]
fn identifier_keeps_non_ascii_text() {
    assert_eq!(get_user_id_from_request("GET /users/é1 HTTP/1.1"), "é1");
}

#[test]
fn extracts_body_after_first_blank_line() {
    assert_eq!(
        request_body("POST /login HTTP/1.1\r\nHost: x\r\n\r\n{\"email\":\"a\"}"),
        "{\"email\":\"a\"}"
    );
    assert_eq!(request_body("POST /login HTTP/1.1\r\n\r\nA\r\n\r\nB"), "A\r\n\r\nB");
    assert_eq!(request_body("POST /login HTTP/1.1\r\nHost: x"), "");
    assert_eq!(request_body("POST /login HTTP/1.1\r\n\r\n"), "");
}

#[test]
fn parses_positive_identifiers_only() {
    assert_eq!(parse_user_id("42"), Some(42));
    assert_eq!(parse_user_id("007"), Some(7));
    assert_eq!(parse_user_id("2147483647"), Some(2147483647));
    assert_eq!(parse_user_id("2147483648"), None);
    assert_eq!(parse_user_id("99999999999999999999"), None);
    assert_eq!(parse_user_id("0"), None);
    assert_eq!(parse_user_id("-1"), None);
    assert_eq!(parse_user_id("12a"), None);
    assert_eq!(parse_user_id(""), None);
}

#[test]
fn credential_is_password_then_salt() {
    assert_eq!(hash_user_password("secret".to_string(), "AbC123xyZ0".to_string()), "secretAbC123xyZ0");
    assert_eq!(hash_user_password(String::new(), "s".to_string()), "s");
}

#[test]
fn status_lines_and_codes() {
    assert_eq!(Status::Success.code(), 200);
    assert_eq!(Status::Created.code(), 201);
    assert_eq!(Status::BadRequest.code(), 400);
    assert_eq!(Status::Unauthorized.code(), 401);
    assert_eq!(Status::NotFound.code(), 404);
    assert_eq!(Status::Conflict.code(), 409);
    assert_eq!(Status::InternalServerError.code(), 500);
    assert_eq!(Status::NotImplemented.code(), 501);
    assert_eq!(
        Status::Success.status_line(),
        "HTTP/1.1 200 OK\r\nContent-Type: application/json\r\n\r\n"
    );
    assert_eq!(Status::Conflict.status_line(), "HTTP/1.1 409 CONFLICT\r\n\r\n");
    assert_eq!(Message::BadCredentials.text(), "Email or password is incorrect");
    assert_eq!(Message::Empty.text(), "");
}

#[test]
fn schema_has_table_then_sequence() {
    assert_eq!(set_database(), vec![SchemaItem::UsersTable, SchemaItem::UserIdSequence]);
}

#[test]
fn public_view_formats_utc_date() {
    let u = StoredUser {
        name: "Ann".to_string(),
        email: "a@x.org".to_string(),
        registered: Timestamp { seconds: 1431648000, nanos: 0 },
    };
    let p = public_info(&u).unwrap();
    assert_eq!(p.name, "Ann");
    assert_eq!(p.email, "a@x.org");
    assert_eq!(p.register_date, "2015-05-15 00:00:00 UTC");
    let late = StoredUser { registered: Timestamp { seconds: 0, nanos: 1_000_000_000 }, ..u };
    assert!(public_info(&late).is_none());
}

#[test]
fn public_list_keeps_order_and_rejects_bad_dates() {
    let a = StoredUser { name: "A".to_string(), email: "a@x".to_string(), registered: Timestamp { seconds: 0, nanos: 0 } };
    let b = StoredUser { name: "B".to_string(), email: "b@x".to_string(), registered: Timestamp { seconds: 86400, nanos: 0 } };
    let list = public_list(&vec![a, b]).unwrap();
    assert_eq!(list.len(), 2);
    assert_eq!(list[0].name, "A");
    assert_eq!(list[0].register_date, "1970-01-01 00:00:00 UTC");
    assert_eq!(list[1].register_date, "1970-01-02 00:00:00 UTC");
    let bad = StoredUser { name: "C".to_string(), email: "c@x".to_string(), registered: Timestamp { seconds: -9_000_000_000_000, nanos: 0 } };
    assert!(public_list(&vec![bad]).is_none());
    assert!(public_list(&Vec::new()).unwrap().is_empty());
}
