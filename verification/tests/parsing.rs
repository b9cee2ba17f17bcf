use gateway::auth::{CodeExchanger, Redirect};
use gateway::cookie::{extract_session, session_cookie};
use gateway::fields::find_field;
use gateway::router::{route, same_bytes, Method, Route, Status};
use gateway::session::ObjectId;

#[test]
fn field_is_found_in_a_query() {
    let query = b"code=abc&state=def";
    assert_eq!(find_field(query, b'&', false, b"code"), Some(&b"abc"[..]));
    assert_eq!(find_field(query, b'&', false, b"state"), Some(&b"def"[..]));
    assert_eq!(find_field(query, b'&', false, b"other"), None);
}

#[test]
fn first_assignment_counts() {
    assert_eq!(find_field(b"a=1&a=2", b'&', false, b"a"), Some(&b"1"[..]));
    assert_eq!(find_field(b"b=0&a=1&a=2", b'&', false, b"a"), Some(&b"1"[..]));
}

#[test]
fn name_has_to_match_whole() {
    assert_eq!(find_field(b"codex=1&code=2", b'&', false, b"code"), Some(&b"2"[..]));
    assert_eq!(find_field(b"xcode=1", b'&', false, b"code"), None);
    assert_eq!(find_field(b"cod=1", b'&', false, b"code"), None);
    assert_eq!(find_field(b"code", b'&', false, b"code"), None);
    assert_eq!(find_field(b"Code=1", b'&', false, b"code"), None);
}

#[test]
fn value_may_be_empty_or_hold_equal_signs() {
    assert_eq!(find_field(b"code=", b'&', false, b"code"), Some(&b""[..]));
    assert_eq!(find_field(b"code=&state=x", b'&', false, b"code"), Some(&b""[..]));
    assert_eq!(find_field(b"code=a=b", b'&', false, b"code"), Some(&b"a=b"[..]));
}

#[test]
fn empty_text_and_empty_pieces_hold_nothing() {
    assert_eq!(find_field(b"", b'&', false, b"code"), None);
    assert_eq!(find_field(b"&&", b'&', false, b"code"), None);
    assert_eq!(find_field(b"&&code=1&", b'&', false, b"code"), Some(&b"1"[..]));
    assert_eq!(find_field(b"=1", b'&', false, b""), Some(&b"1"[..]));
}

#[test]
fn spaces_are_passed_over_only_when_asked() {
    assert_eq!(find_field(b"a=1;  sid=xyz", b';', true, b"sid"), Some(&b"xyz"[..]));
    assert_eq!(find_field(b"a=1;  sid=xyz", b';', false, b"sid"), None);
    assert_eq!(find_field(b"   sid=xyz", b';', true, b"sid"), Some(&b"xyz"[..]));
    assert_eq!(find_field(b"sid=xyz ;b=2", b';', true, b"sid"), Some(&b"xyz "[..]));
    assert_eq!(find_field(b"   ", b';', true, b"sid"), None);
    assert_eq!(find_field(b"\tsid=xyz", b';', true, b"sid"), None);
}

fn id() -> ObjectId {
    ObjectId::from_bytes([1, 2, 3, 4, 5, 6, 7, 8, 9, 10, 11, 12])
}

#[test]
fn cookie_names_the_session() {
    assert_eq!(extract_session(Some(b"sid=0102030405060708090a0b0c")), Ok(id()));
    assert_eq!(extract_session(Some(b"theme=dark; sid=0102030405060708090a0b0c")), Ok(id()));
    assert_eq!(extract_session(Some(b"sid=0102030405060708090A0B0C; theme=dark")), Ok(id()));
}

#[test]
fn request_without_session_cookie_is_unauthorized() {
    assert_eq!(extract_session(None), Err(Status::Unauthorized));
    assert_eq!(extract_session(Some(b"")), Err(Status::Unauthorized));
    assert_eq!(extract_session(Some(b"theme=dark")), Err(Status::Unauthorized));
    assert_eq!(
        extract_session(Some(b"ssid=0102030405060708090a0b0c")),
        Err(Status::Unauthorized)
    );
    assert_eq!(extract_session(Some(b"sid")), Err(Status::Unauthorized));
}

#[test]
fn session_cookie_that_is_no_identifier_is_a_bad_request() {
    assert_eq!(extract_session(Some(b"sid=")), Err(Status::BadRequest));
    assert_eq!(extract_session(Some(b"sid=0102")), Err(Status::BadRequest));
    assert_eq!(extract_session(Some(b"sid=0102030405060708090a0b0z")), Err(Status::BadRequest));
    assert_eq!(
        extract_session(Some(b"sid=0102030405060708090a0b0c0d")),
        Err(Status::BadRequest)
    );
    assert_eq!(
        extract_session(Some(b"sid=0102030405060708090a0b0c ; a=b")),
        Err(Status::BadRequest)
    );
}

#[test]
fn login_cookie_is_read_back() {
    let cookie = session_cookie(id());
    assert_eq!(
        cookie,
        b"sid=0102030405060708090a0b0c; Secure; HttpOnly; SameSite=Lax; Max-Age=900".to_vec()
    );
    assert_eq!(extract_session(Some(&cookie[..28])), Ok(id()));
    assert_eq!(extract_session(Some(&cookie)), Ok(id()));
}

#[test]
fn consent_page_carries_the_state() {
    let redirect = Redirect::new(b"1234", b"https%3A%2F%2Fexample.com%2Fauth%2Fcallback");
    assert_eq!(
        redirect.generate_consent_page_uri(b"abcdef"),
        b"https://discord.com/api/oauth2/authorize?response_type=code&scope=identify\
&client_id=1234&redirect_uri=https%3A%2F%2Fexample.com%2Fauth%2Fcallback&state=abcdef"
            .to_vec()
    );
    assert_eq!(
        Redirect::new(b"", b"").generate_consent_page_uri(b""),
        b"https://discord.com/api/oauth2/authorize?response_type=code&scope=identify\
&client_id=&redirect_uri=&state="
            .to_vec()
    );
}

#[test]
fn token_request_carries_the_code() {
    let exchanger = CodeExchanger::new(b"1234", b"hunter2", b"https%3A%2F%2Fexample.com");
    let (form, state) = exchanger.generate_token_request(b"code=c0de&state=5a").unwrap();
    assert_eq!(
        form,
        b"grant_type=authorization_code&client_id=1234&client_secret=hunter2\
&redirect_uri=https%3A%2F%2Fexample.com&code=c0de"
            .to_vec()
    );
    assert_eq!(state, b"5a");
    let (form, state) = exchanger.generate_token_request(b"state=5a&x=y&code=").unwrap();
    assert!(form.ends_with(b"&code="));
    assert_eq!(state, b"5a");
}

#[test]
fn query_without_code_or_state_gives_no_token_request() {
    let exchanger = CodeExchanger::new(b"1234", b"hunter2", b"uri");
    assert_eq!(exchanger.generate_token_request(b""), None);
    assert_eq!(exchanger.generate_token_request(b"code=c0de"), None);
    assert_eq!(exchanger.generate_token_request(b"state=5a"), None);
    assert_eq!(exchanger.generate_token_request(b"code=c0de;state=5a"), None);
    assert_eq!(exchanger.generate_token_request(b"error=access_denied&state=5a"), None);
}

#[test]
fn endpoints_are_routed() {
    assert_eq!(route(Method::Post, b"/discord"), Ok(Route::Webhook));
    assert_eq!(route(Method::Post, b"/quiz"), Ok(Route::Submit));
    assert_eq!(route(Method::Get, b"/auth/login"), Ok(Route::Login));
    assert_eq!(route(Method::Get, b"/auth/callback"), Ok(Route::Callback));
}

#[test]
fn get_on_unknown_path_is_not_found() {
    assert_eq!(route(Method::Get, b"/"), Err(Status::NotFound));
    assert_eq!(route(Method::Get, b"/nowhere"), Err(Status::NotFound));
    assert_eq!(route(Method::Get, b"/Discord"), Err(Status::NotFound));
    assert_eq!(route(Method::Get, b"/auth/login/"), Err(Status::NotFound));
    assert_eq!(route(Method::Get, b"/auth"), Err(Status::NotFound));
    assert_eq!(route(Method::Get, b""), Err(Status::NotFound));
}

#[test]
fn wrong_method_on_known_path_is_not_allowed() {
    assert_eq!(route(Method::Get, b"/discord"), Err(Status::MethodNotAllowed));
    assert_eq!(route(Method::Get, b"/quiz"), Err(Status::MethodNotAllowed));
    assert_eq!(route(Method::Post, b"/auth/login"), Err(Status::MethodNotAllowed));
    assert_eq!(route(Method::Post, b"/auth/callback"), Err(Status::MethodNotAllowed));
    for path in [&b"/discord"[..], b"/quiz", b"/auth/login", b"/auth/callback"] {
        assert_eq!(route(Method::Other, path), Err(Status::MethodNotAllowed));
    }
}

#[test]
fn the_rest_is_not_implemented() {
    assert_eq!(route(Method::Post, b"/"), Err(Status::NotImplemented));
    assert_eq!(route(Method::Post, b"/Discord"), Err(Status::NotImplemented));
    assert_eq!(route(Method::Other, b"/nowhere"), Err(Status::NotImplemented));
    assert_eq!(route(Method::Other, b""), Err(Status::NotImplemented));
}

#[test]
fn statuses_have_their_numbers() {
    let all = [
        (Status::Success, 200u16),
        (Status::Created, 201),
        (Status::Found, 302),
        (Status::BadRequest, 400),
        (Status::Unauthorized, 401),
        (Status::Forbidden, 403),
        (Status::NotFound, 404),
        (Status::MethodNotAllowed, 405),
        (Status::InternalServerError, 500),
        (Status::NotImplemented, 501),
    ];
    for (status, number) in all {
        assert_eq!(status.code(), number);
        assert_eq!(status.is_failure(), number >= 400);
    }
}

#[test]
fn byte_strings_are_compared_whole() {
    assert!(same_bytes(b"", b""));
    assert!(same_bytes(b"abc", b"abc"));
    assert!(!same_bytes(b"abc", b"abd"));
    assert!(!same_bytes(b"abc", b"ab"));
    assert!(!same_bytes(b"ab", b"abc"));
}
