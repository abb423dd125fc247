use pigskit::register::{
    patch_step, read_field, read_outcome, submit_outcome, update_outcome, uniqueness_outcome, RegisterStep,
};

fn set_field(op: &str, data: &str) -> (&'static str, String, bool) {
    match patch_step(Some(op), Some(data)).unwrap() {
        RegisterStep::SetField { field, data, unique } => (field, data, unique),
        RegisterStep::Submit => panic!("not a field step"),
    }
}

#[test]
fn email_already_registered_conflicts() {
    let (field, data, unique) = set_field("email", "alice@example.com");
    assert_eq!((field, data.as_str(), unique), ("email", "alice@example.com", true));
    let e = uniqueness_outcome(field, true).unwrap_err();
    assert_eq!((e.status(), e.kind()), (409, "UniqueDataConflict"));
    assert_eq!(e.message(), "The unique data \"email\" existed.");
    assert!(uniqueness_outcome(field, false).is_ok());
}

#[test]
fn field_steps_validate_their_data() {
    assert_eq!(set_field("phone", "0912345678").2, true);
    assert_eq!(set_field("username", "Alice42").0, "username");
    let (field, _, unique) = set_field("password", "Secret1x");
    assert_eq!((field, unique), ("password", false));
    for (op, bad) in [("email", "no-at-sign"), ("phone", "0812345678"), ("phone", "091234567"), ("username", "al ice"), ("password", "alllower1"), ("password", "NoDigits")] {
        let e = patch_step(Some(op), Some(bad)).unwrap_err();
        assert_eq!((e.status(), e.kind()), (400, "InvalidData"));
        assert_eq!(e.message(), "Invalid data in field \"data\" in request body.");
    }
}

#[test]
fn step_request_errors() {
    let e = patch_step(None, Some("x")).unwrap_err();
    assert_eq!(e.message(), "Missing field \"operation\" in request body.");
    let e = patch_step(Some("email"), None).unwrap_err();
    assert_eq!(e.message(), "Missing field \"data\" in request body.");
    let e = patch_step(Some("nickname"), None).unwrap_err();
    assert_eq!(e.kind(), "BodyMissingField");
    let e = patch_step(Some("nickname"), Some("x")).unwrap_err();
    assert_eq!(e.kind(), "UnsuportedOperation");
    assert!(matches!(patch_step(Some("submit"), None).unwrap(), RegisterStep::Submit));
}

#[test]
fn step_outcomes() {
    assert_eq!(submit_outcome(true).unwrap(), "Success.");
    assert_eq!(submit_outcome(false).unwrap_err().kind(), "OperationFailed");
    assert_eq!(update_outcome(1).unwrap(), "Success.");
    let e = update_outcome(0).unwrap_err();
    assert_eq!(e.message(), "Session for cookie \"REGSSID\" has expired.");
}

#[test]
fn reading_sign_up_state() {
    assert_eq!(read_field(Some("phone")).unwrap(), "phone");
    assert_eq!(read_field(Some("password")).unwrap_err().kind(), "UnsuportedOperation");
    assert_eq!(read_field(None).unwrap_err().kind(), "BodyMissingField");
    assert_eq!(read_outcome(Some(Some("a@b.c".to_string()))).unwrap(), Some("a@b.c".to_string()));
    assert_eq!(read_outcome(Some(None)).unwrap(), None);
    assert_eq!(read_outcome(None).unwrap_err().kind(), "SessionExpired");
}
