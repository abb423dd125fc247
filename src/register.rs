use vstd::prelude::*;
use crate::error::{
    Error, ErrorModel, missing_body_model, invalid_data_model, unsupported_operation_model,
    operation_failed_model, unique_data_conflict_model, session_expired_model,
};
use crate::session::{REGISTRATION_COOKIE, result_model, opt_str_view};
use crate::text::same_text;

verus! {

pub const EMAIL_PATTERN: &'static str = "^\\w+@(?:\\w+\\.)+\\w+$";
pub const PHONE_PATTERN: &'static str = "^09\\d{8}$";
pub const USERNAME_PATTERN: &'static str = "^[A-Za-z0-9]+$";
pub const PASSWORD_PATTERN: &'static str = "^[A-Za-z0-9]+$";
pub const PASSWORD_UPPER_PATTERN: &'static str = "[A-Z]";
pub const PASSWORD_LOWER_PATTERN: &'static str = "[a-z]";
pub const PASSWORD_NUMBER_PATTERN: &'static str = "[0-9]";

pub const SUCCESS: &'static str = "Success.";

/// Whether the regular expression `pattern` compiles (`None` if not) and
/// matches somewhere in `text`.
pub uninterp spec fn regex_match(pattern: Seq<char>, text: Seq<char>) -> Option<bool>;

/// Relies on `regex::Regex::new` and `Regex::is_match`.
#[verifier::external_body]
fn regex_is_match(pattern: &str, text: &str) -> (r: Option<bool>)
    ensures
        r == regex_match(pattern@, text@),
{
    match regex::Regex::new(pattern) {
        Ok(re) => Some(re.is_match(text)),
        Err(_) => None,
    }
}

pub open spec fn matches_spec(pattern: Seq<char>, text: Seq<char>) -> bool {
    regex_match(pattern, text) == Some(true)
}

fn matches(pattern: &str, text: &str) -> (r: bool)
    ensures
        r == matches_spec(pattern@, text@),
{
    match regex_is_match(pattern, text) {
        Some(m) => m,
        None => false,
    }
}

/// One step of a sign-up, as the client asked for it.
#[derive(Debug)]
pub enum RegisterStep {
    /// Turn the collected fields into an account.
    Submit,
    /// Store `data` as `field`; a `unique` field must not be held by an account.
    SetField { field: &'static str, data: String, unique: bool },
}

pub enum StepModel {
    Submit,
    SetField { field: Seq<char>, data: Seq<char>, unique: bool },
}

pub open spec fn step_model(s: RegisterStep) -> StepModel {
    match s {
        RegisterStep::Submit => StepModel::Submit,
        RegisterStep::SetField { field, data, unique } => StepModel::SetField { field: field@, data: data@, unique },
    }
}

pub open spec fn step_result_model(r: Result<RegisterStep, Error>) -> Result<StepModel, ErrorModel> {
    match r {
        Ok(s) => Ok(step_model(s)),
        Err(e) => Err(e@),
    }
}

/// Whether `data` is acceptable for the sign-up field `op` (one of the four).
pub open spec fn valid_field_data(op: Seq<char>, data: Seq<char>) -> bool {
    if op == "email"@ {
        matches_spec(EMAIL_PATTERN@, data)
    } else if op == "phone"@ {
        matches_spec(PHONE_PATTERN@, data)
    } else if op == "username"@ {
        matches_spec(USERNAME_PATTERN@, data)
    } else {
        matches_spec(PASSWORD_PATTERN@, data) && matches_spec(PASSWORD_UPPER_PATTERN@, data)
            && matches_spec(PASSWORD_LOWER_PATTERN@, data) && matches_spec(PASSWORD_NUMBER_PATTERN@, data)
    }
}

pub open spec fn is_field_op(op: Seq<char>) -> bool {
    op == "email"@ || op == "phone"@ || op == "username"@ || op == "password"@
}

/// What a sign-up step asks for: the operation is required; `submit` needs
/// nothing else; any other operation needs `data` first, then must name one of
/// the four fields, whose data must be acceptable.
pub open spec fn patch_step_model(op: Option<Seq<char>>, data: Option<Seq<char>>) -> Result<StepModel, ErrorModel> {
    match op {
        None => Err(missing_body_model("operation"@)),
        Some(o) => if o == "submit"@ {
            Ok(StepModel::Submit)
        } else {
            match data {
                None => Err(missing_body_model("data"@)),
                Some(d) => if !is_field_op(o) {
                    Err(unsupported_operation_model())
                } else if !valid_field_data(o, d) {
                    Err(invalid_data_model("data"@))
                } else {
                    Ok(StepModel::SetField { field: o, data: d, unique: o != "password"@ })
                },
            }
        },
    }
}

/// The field that a read of the sign-up state asks for.
pub open spec fn read_field_model(op: Option<Seq<char>>) -> Result<Seq<char>, ErrorModel> {
    match op {
        None => Err(missing_body_model("operation"@)),
        Some(o) => if o == "email"@ || o == "phone"@ || o == "username"@ {
            Ok(o)
        } else {
            Err(unsupported_operation_model())
        },
    }
}

fn field_name(op: &str) -> (r: Option<&'static str>)
    ensures
        match r {
            Some(f) => is_field_op(op@) && f@ == op@,
            None => !is_field_op(op@),
        },
{
    if same_text(op, "email") {
        Some("email")
    } else if same_text(op, "phone") {
        Some("phone")
    } else if same_text(op, "username") {
        Some("username")
    } else if same_text(op, "password") {
        Some("password")
    } else {
        None
    }
}

fn field_data_valid(field: &str, data: &str) -> (r: bool)
    requires
        is_field_op(field@),
    ensures
        r == valid_field_data(field@, data@),
{
    if same_text(field, "email") {
        matches(EMAIL_PATTERN, data)
    } else if same_text(field, "phone") {
        matches(PHONE_PATTERN, data)
    } else if same_text(field, "username") {
        matches(USERNAME_PATTERN, data)
    } else {
        matches(PASSWORD_PATTERN, data) && matches(PASSWORD_UPPER_PATTERN, data)
            && matches(PASSWORD_LOWER_PATTERN, data) && matches(PASSWORD_NUMBER_PATTERN, data)
    }
}

/// Decides a sign-up step from the request's `operation` and `data`.
pub fn patch_step(operation: Option<&str>, data: Option<&str>) -> (r: Result<RegisterStep, Error>)
    ensures
        step_result_model(r) == patch_step_model(opt_str_view(operation), opt_str_view(data)),
{
    let op = match operation {
        Some(o) => o,
        None => return Err(Error::missing_body("operation")),
    };
    if same_text(op, "submit") {
        return Ok(RegisterStep::Submit);
    }
    let d = match data {
        Some(d) => d,
        None => return Err(Error::missing_body("data")),
    };
    let field = match field_name(op) {
        Some(f) => f,
        None => return Err(Error::unsupported_operation()),
    };
    if !field_data_valid(field, d) {
        return Err(Error::invalid_data("data"));
    }
    let unique = !same_text(field, "password");
    Ok(RegisterStep::SetField { field, data: d.to_owned(), unique })
}

/// The field of the sign-up state that a read asks for.
pub fn read_field(operation: Option<&str>) -> (r: Result<&'static str, Error>)
    ensures
        match r {
            Ok(f) => read_field_model(opt_str_view(operation)) == Ok::<Seq<char>, ErrorModel>(f@),
            Err(e) => read_field_model(opt_str_view(operation)) == Err::<Seq<char>, ErrorModel>(e@),
        },
{
    let op = match operation {
        Some(o) => o,
        None => return Err(Error::missing_body("operation")),
    };
    if same_text(op, "email") {
        Ok("email")
    } else if same_text(op, "phone") {
        Ok("phone")
    } else if same_text(op, "username") {
        Ok("username")
    } else {
        Err(Error::unsupported_operation())
    }
}

/// The value read from the sign-up state: `row` is `None` where no sign-up
/// has the token, else the stored value of the field, if it was set.
pub fn read_outcome(row: Option<Option<String>>) -> (r: Result<Option<String>, Error>)
    ensures
        match row {
            Some(v) => r is Ok && r->Ok_0 == v,
            None => r is Err && r->Err_0@ == session_expired_model(REGISTRATION_COOKIE@),
        },
{
    match row {
        Some(v) => Ok(v),
        None => Err(Error::session_expired(REGISTRATION_COOKIE)),
    }
}

/// The reply to a submitted sign-up, from whether the account was made.
pub fn submit_outcome(ok: bool) -> (r: Result<&'static str, Error>)
    ensures
        ok ==> r is Ok && r->Ok_0@ == SUCCESS@,
        !ok ==> r is Err && r->Err_0@ == operation_failed_model(),
{
    if ok {
        Ok(SUCCESS)
    } else {
        Err(Error::operation_failed())
    }
}

/// The check of a unique field: refused where an account already holds the value.
pub fn uniqueness_outcome(field: &str, taken: bool) -> (r: Result<(), Error>)
    ensures
        result_model(r) == (if taken {
            Err(unique_data_conflict_model(field@))
        } else {
            Ok::<(), ErrorModel>(())
        }),
{
    if taken {
        Err(Error::unique_data_conflict(field))
    } else {
        Ok(())
    }
}

/// The reply to storing a field, from the number of sign-ups updated: one, or
/// none because the sign-up has expired.
pub fn update_outcome(rows: u64) -> (r: Result<&'static str, Error>)
    ensures
        rows == 1 ==> r is Ok && r->Ok_0@ == SUCCESS@,
        rows != 1 ==> r is Err && r->Err_0@ == session_expired_model(REGISTRATION_COOKIE@),
{
    if rows == 1 {
        Ok(SUCCESS)
    } else {
        Err(Error::session_expired(REGISTRATION_COOKIE))
    }
}

/// A sign-up step that stores a unique field whose value an account already
/// holds is refused with a conflict that names that field.
pub proof fn lemma_taken_unique_field_conflicts(op: Seq<char>, data: Seq<char>)
    requires
        patch_step_model(Some(op), Some(data)) is Ok,
        op != "submit"@,
        op != "password"@,
    ensures
        patch_step_model(Some(op), Some(data)) == Ok::<StepModel, ErrorModel>(
            StepModel::SetField { field: op, data, unique: true },
        ),
        unique_data_conflict_model(op).kind == "UniqueDataConflict"@,
        unique_data_conflict_model(op).message == "The unique data \""@ + op + "\" existed."@,
{
}

} // verus!
