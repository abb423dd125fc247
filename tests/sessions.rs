use pigskit::error::Error;
use pigskit::ident::{parse_uuid, parse_uuid_optional, uuid_from_text, uuid_text};
use pigskit::session::{
    cleared_cookie, resolve_token, session_cookie, set_cookie, signin_cookie, to_user_id, to_uuid,
    to_uuid_optional, SessionKind, SessionLookup,
};

const TOKEN_TEXT: &str = "550e8400-e29b-41d4-a716-446655440000";
const TOKEN: u128 = 0x550e8400_e29b_41d4_a716_446655440000;

fn assert_no_valid_cookie(e: &Error, name: &str) {
    assert_eq!(e.status(), 400);
    assert_eq!(e.kind(), "NoValidCookie");
    assert_eq!(e.message(), format!("Missing or invalid cookie \"{}\" in request.", name));
}

#[test]
fn identifiers_parse_in_hyphenated_form() {
    assert_eq!(uuid_from_text(TOKEN_TEXT), Some(TOKEN));
    assert_eq!(uuid_from_text("550E8400-E29B-41D4-A716-446655440000"), Some(TOKEN));
    assert_eq!(uuid_from_text("not-a-uuid"), None);
    assert_eq!(uuid_from_text(""), None);
    assert_eq!(uuid_text(TOKEN), TOKEN_TEXT);
    assert_eq!(uuid_text(0), "00000000-0000-0000-0000-000000000000");
}

#[test]
fn strict_identifier_parse_fails_internally() {
    assert_eq!(parse_uuid(TOKEN_TEXT.to_string()).unwrap(), TOKEN);
    let e = parse_uuid("xyz".to_string()).unwrap_err();
    assert!(e.is_inner());
    assert_eq!(parse_uuid_optional(Some(TOKEN_TEXT.to_string())).unwrap(), TOKEN);
    assert!(parse_uuid_optional(None).unwrap_err().is_inner());
}

#[test]
fn malformed_cookie_on_required_resolver_is_rejected() {
    let e = to_uuid("USSID", Some("not-a-uuid")).unwrap_err();
    assert_no_valid_cookie(&e, "USSID");
    assert_eq!(e.into_response().status, 400);
}

#[test]
fn absent_or_malformed_cookie_names_the_requested_cookie() {
    for name in ["USSID", "GSSID", "REGSSID"] {
        for cookie in [None, Some(""), Some("not-a-uuid"), Some("550e8400e29b41d4a716")] {
            let e = to_uuid(name, cookie).unwrap_err();
            assert_no_valid_cookie(&e, name);
            let e = resolve_token(name, true, cookie).unwrap_err();
            assert_no_valid_cookie(&e, name);
            assert_eq!(resolve_token(name, false, cookie).unwrap(), None);
        }
    }
}

#[test]
fn optional_resolver_yields_token_or_nothing() {
    assert_eq!(to_uuid_optional(Some(TOKEN_TEXT)), Some(TOKEN));
    assert_eq!(to_uuid_optional(Some("garbage")), None);
    assert_eq!(to_uuid_optional(None), None);
    assert_eq!(resolve_token("GSSID", false, Some(TOKEN_TEXT)).unwrap(), Some(TOKEN));
}

#[test]
fn resolving_twice_gives_same_identity() {
    let first = to_uuid("USSID", Some(TOKEN_TEXT)).unwrap();
    let second = to_uuid("USSID", Some(TOKEN_TEXT)).unwrap();
    assert_eq!(first, second);
    let a = to_user_id("USSID", SessionLookup::Found(42)).unwrap();
    let b = to_user_id("USSID", SessionLookup::Found(42)).unwrap();
    assert_eq!(a, b);
}

#[test]
fn lookup_outcomes() {
    assert_eq!(to_user_id("USSID", SessionLookup::Found(7)).unwrap(), 7);
    let e = to_user_id("REGSSID", SessionLookup::Missing).unwrap_err();
    assert_eq!((e.status(), e.kind()), (400, "SessionExpired"));
    assert_eq!(e.message(), "Session for cookie \"REGSSID\" has expired.");
    let e = to_user_id("USSID", SessionLookup::Failed(Error::from_backend_code(Some("C2002"), cause()))).unwrap_err();
    assert_eq!(e.message(), "Session for cookie \"USSID\" has expired.");
}

fn cause() -> pigskit::error::Cause {
    pigskit::error::Cause { kind: pigskit::error::CauseKind::Sql, detail: String::new() }
}

#[test]
fn cookie_set_then_presented_back_resolves_to_same_token() {
    for token in [TOKEN, 0, u128::MAX, 1] {
        let header = session_cookie("USSID", token);
        let value = header.strip_prefix("USSID=").unwrap().split(';').next().unwrap();
        assert_eq!(to_uuid("USSID", Some(value)).unwrap(), token);
        assert_eq!(to_uuid_optional(Some(value)), Some(token));
    }
}

#[test]
fn signin_sets_user_cookie() {
    let header = signin_cookie(Some(TOKEN)).unwrap();
    assert_eq!(header, format!("USSID={}; Path=/; HttpOnly", TOKEN_TEXT));
    let e = signin_cookie(None).unwrap_err();
    assert_eq!((e.status(), e.kind()), (403, "Unauthorized"));
}

#[test]
fn cookie_headers() {
    assert_eq!(cleared_cookie("USSID"), "USSID=; Path=/; HttpOnly");
    assert_eq!(
        set_cookie("REGSSID", TOKEN_TEXT, 0, 1).unwrap(),
        format!("REGSSID={}; Path=/; Expires=Fri, 02 Jan 1970 00:00:00 GMT; HttpOnly; SameSite=Strict", TOKEN_TEXT)
    );
    assert_eq!(
        set_cookie("GSSID", "v", 1431648000, 0).unwrap(),
        "GSSID=v; Path=/; Expires=Fri, 15 May 2015 00:00:00 GMT; HttpOnly; SameSite=Strict"
    );
    assert_eq!(set_cookie("GSSID", "v", i64::MAX, 0), None);
}

#[test]
fn session_kinds_name_their_cookies() {
    assert_eq!(SessionKind::User.cookie_name(), "USSID");
    assert_eq!(SessionKind::Cart.cookie_name(), "GSSID");
    assert_eq!(SessionKind::Registration.cookie_name(), "REGSSID");
}
