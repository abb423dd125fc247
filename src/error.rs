use vstd::prelude::*;
use crate::text::{same_text, framed};

verus! {

pub const BAD_REQUEST: u16 = 400;
pub const FORBIDDEN: u16 = 403;
pub const NOT_FOUND: u16 = 404;
pub const CONFLICT: u16 = 409;
pub const INTERNAL_SERVER_ERROR: u16 = 500;

/// Where an internal failure came from.
#[derive(Clone, Copy, Debug, PartialEq, Eq, Structural)]
pub enum CauseKind {
    /// No pooled database connection could be had.
    Pool,
    /// The database reported a failure that carries no known code.
    Sql,
    /// An identifier could not be parsed where it had to be.
    Identifier,
    /// The HTTP layer failed while reading the request.
    Transport,
    /// A file could not be read or written.
    Io,
}

/// The underlying cause of an internal failure, kept for the server's log only.
#[derive(Clone, Debug)]
pub struct Cause {
    pub kind: CauseKind,
    pub detail: String,
}

/// What a client learns of a failure, and whether it is internal.
pub struct ErrorModel {
    pub status: u16,
    pub kind: Seq<char>,
    pub message: Seq<char>,
    pub data: Option<Seq<char>>,
    pub internal: bool,
}

/// A failure of a request, rendered once as the response.
#[derive(Debug)]
pub struct Error {
    http_status: u16,
    kind: String,
    message: String,
    data: Option<String>,
    inner: Option<Cause>,
}

pub open spec fn opt_view(o: Option<String>) -> Option<Seq<char>> {
    match o {
        Some(s) => Some(s@),
        None => None,
    }
}

pub open spec fn client_error(status: u16, kind: Seq<char>, message: Seq<char>, data: Option<Seq<char>>) -> ErrorModel {
    ErrorModel { status, kind, message, data, internal: false }
}

pub open spec fn bad_request_model(kind: Seq<char>, message: Seq<char>) -> ErrorModel {
    client_error(BAD_REQUEST, kind, message, None)
}

pub open spec fn internal_model() -> ErrorModel {
    ErrorModel {
        status: INTERNAL_SERVER_ERROR,
        kind: "InternalServerError"@,
        message: "Internal server error."@,
        data: None,
        internal: true,
    }
}

pub open spec fn unsupported_operation_model() -> ErrorModel {
    bad_request_model("UnsuportedOperation"@, "Unsupported operation."@)
}

pub open spec fn operation_failed_model() -> ErrorModel {
    bad_request_model("OperationFailed"@, "Operation failed."@)
}

pub open spec fn unauthorized_model() -> ErrorModel {
    client_error(FORBIDDEN, "Unauthorized"@, "Unauthorized."@, None)
}

pub open spec fn missing_body_model(field: Seq<char>) -> ErrorModel {
    bad_request_model("BodyMissingField"@, "Missing field \""@ + field + "\" in request body."@)
}

pub open spec fn invalid_data_model(field: Seq<char>) -> ErrorModel {
    bad_request_model("InvalidData"@, "Invalid data in field \""@ + field + "\" in request body."@)
}

pub open spec fn no_valid_form_model(part: Seq<char>) -> ErrorModel {
    bad_request_model("FormMissingPart"@, "Missing or invalid part \""@ + part + "\" in form."@)
}

pub open spec fn no_valid_cookie_model(name: Seq<char>) -> ErrorModel {
    bad_request_model("NoValidCookie"@, "Missing or invalid cookie \""@ + name + "\" in request."@)
}

pub open spec fn session_expired_model(name: Seq<char>) -> ErrorModel {
    bad_request_model("SessionExpired"@, "Session for cookie \""@ + name + "\" has expired."@)
}

pub open spec fn unique_data_conflict_model(name: Seq<char>) -> ErrorModel {
    client_error(CONFLICT, "UniqueDataConflict"@, "The unique data \""@ + name + "\" existed."@, None)
}

pub open spec fn data_not_found_model(name: Seq<char>) -> ErrorModel {
    bad_request_model("DataNotFound"@, "Data \""@ + name + "\" not found."@)
}

pub open spec fn payload_too_large_model() -> ErrorModel {
    bad_request_model("PayloadTooLarge"@, "Size of request payload too large."@)
}

/// The table of failure codes that the database's stored procedures raise,
/// each with the client error it stands for.
pub open spec fn backend_code_model(code: Seq<char>) -> Option<ErrorModel> {
    if code == "C2002"@ {
        Some(session_expired_model("USSID"@))
    } else if code == "C3001"@ {
        Some(session_expired_model("GSSID"@))
    } else if code == "C4101"@ {
        Some(data_not_found_model("customize_selection"@))
    } else if code == "C4301"@ {
        Some(bad_request_model("CusSelNotProvided"@, "Customize selection not provided."@))
    } else if code == "C6001"@ {
        Some(bad_request_model("ShopNameUsed"@, "Shop name has been used."@))
    } else if code == "C6009"@ {
        Some(data_not_found_model("shop_product"@))
    } else if code == "C8001"@ {
        Some(data_not_found_model("cart"@))
    } else if code == "C8002"@ {
        Some(data_not_found_model("cart_item"@))
    } else if code == "C8103"@ {
        Some(bad_request_model("CartItemExpired"@, "Cart item expired."@))
    } else {
        None
    }
}

/// The client error for a database failure that reported `code`, if any:
/// a code of the table gives its entry, any other code or none is internal.
pub open spec fn backend_error_model(code: Option<Seq<char>>) -> ErrorModel {
    match code {
        Some(c) => match backend_code_model(c) {
            Some(m) => m,
            None => internal_model(),
        },
        None => internal_model(),
    }
}

impl View for Error {
    type V = ErrorModel;

    closed spec fn view(&self) -> ErrorModel {
        ErrorModel {
            status: self.http_status,
            kind: self.kind@,
            message: self.message@,
            data: opt_view(self.data),
            internal: self.inner is Some,
        }
    }
}

impl Error {
    /// An internal failure shows the client only the generic status, kind and message.
    #[verifier::type_invariant]
    spec fn generic_when_internal(&self) -> bool {
        self.inner is Some ==> (
            self.http_status == INTERNAL_SERVER_ERROR
            && self.kind@ == "InternalServerError"@
            && self.message@ == "Internal server error."@
            && self.data is None
        )
    }

    fn new(http_status: u16, kind: &str, message: &str, data: Option<String>) -> (r: Error)
        ensures
            r@ == client_error(http_status, kind@, message@, opt_view(data)),
    {
        Error { http_status, kind: kind.to_owned(), message: message.to_owned(), data, inner: None }
    }

    fn with_message(http_status: u16, kind: &str, message: String) -> (r: Error)
        ensures
            r@ == client_error(http_status, kind@, message@, None),
    {
        Error { http_status, kind: kind.to_owned(), message, data: None, inner: None }
    }

    /// A 400 error of the given kind and message, with an optional JSON payload.
    pub fn bad_request(kind: &str, message: &str, data: Option<String>) -> (r: Error)
        ensures
            r@ == client_error(BAD_REQUEST, kind@, message@, opt_view(data)),
    {
        Error::new(BAD_REQUEST, kind, message, data)
    }

    /// A failure that must not reach the client in detail; `cause` is kept for the log.
    pub fn internal(cause: Cause) -> (r: Error)
        ensures
            r@ == internal_model(),
            r.cause() == Some(cause),
    {
        Error {
            http_status: INTERNAL_SERVER_ERROR,
            kind: "InternalServerError".to_owned(),
            message: "Internal server error.".to_owned(),
            data: None,
            inner: Some(cause),
        }
    }

    pub closed spec fn cause(&self) -> Option<Cause> {
        self.inner
    }

    /// A copy of this failure, cause included.
    pub fn duplicate(&self) -> (r: Error)
        ensures
            r@ == self@,
            r.cause() == self.cause(),
    {
        proof {
            use_type_invariant(self);
        }
        let data = match &self.data {
            Some(d) => Some(d.clone()),
            None => None,
        };
        let inner = match &self.inner {
            Some(c) => Some(Cause { kind: c.kind, detail: c.detail.clone() }),
            None => None,
        };
        Error { http_status: self.http_status, kind: self.kind.clone(), message: self.message.clone(), data, inner }
    }

    /// The cause kept for the log, where the failure is internal.
    pub fn log_cause(&self) -> (r: Option<&Cause>)
        ensures
            match r {
                Some(c) => self.cause() == Some(*c),
                None => self.cause() is None,
            },
    {
        match &self.inner {
            Some(c) => Some(c),
            None => None,
        }
    }

    pub fn unsupported_operation() -> (r: Error)
        ensures
            r@ == unsupported_operation_model(),
    {
        Error::bad_request("UnsuportedOperation", "Unsupported operation.", None)
    }

    pub fn operation_failed() -> (r: Error)
        ensures
            r@ == operation_failed_model(),
    {
        Error::bad_request("OperationFailed", "Operation failed.", None)
    }

    pub fn unauthorized() -> (r: Error)
        ensures
            r@ == unauthorized_model(),
    {
        Error::new(FORBIDDEN, "Unauthorized", "Unauthorized.", None)
    }

    pub fn missing_body(field: &str) -> (r: Error)
        ensures
            r@ == missing_body_model(field@),
    {
        let m = framed("Missing field \"", field, "\" in request body.");
        Error::with_message(BAD_REQUEST, "BodyMissingField", m)
    }

    pub fn invalid_data(field: &str) -> (r: Error)
        ensures
            r@ == invalid_data_model(field@),
    {
        let m = framed("Invalid data in field \"", field, "\" in request body.");
        Error::with_message(BAD_REQUEST, "InvalidData", m)
    }

    pub fn no_valid_form(part: &str) -> (r: Error)
        ensures
            r@ == no_valid_form_model(part@),
    {
        let m = framed("Missing or invalid part \"", part, "\" in form.");
        Error::with_message(BAD_REQUEST, "FormMissingPart", m)
    }

    pub fn no_valid_cookie(name: &str) -> (r: Error)
        ensures
            r@ == no_valid_cookie_model(name@),
    {
        let m = framed("Missing or invalid cookie \"", name, "\" in request.");
        Error::with_message(BAD_REQUEST, "NoValidCookie", m)
    }

    pub fn session_expired(name: &str) -> (r: Error)
        ensures
            r@ == session_expired_model(name@),
    {
        let m = framed("Session for cookie \"", name, "\" has expired.");
        Error::with_message(BAD_REQUEST, "SessionExpired", m)
    }

    pub fn unique_data_conflict(name: &str) -> (r: Error)
        ensures
            r@ == unique_data_conflict_model(name@),
    {
        let m = framed("The unique data \"", name, "\" existed.");
        Error::with_message(CONFLICT, "UniqueDataConflict", m)
    }

    pub fn data_not_found(name: &str) -> (r: Error)
        ensures
            r@ == data_not_found_model(name@),
    {
        let m = framed("Data \"", name, "\" not found.");
        Error::with_message(BAD_REQUEST, "DataNotFound", m)
    }

    pub fn payload_too_large() -> (r: Error)
        ensures
            r@ == payload_too_large_model(),
    {
        Error::bad_request("PayloadTooLarge", "Size of request payload too large.", None)
    }

    /// Whether this failure is internal, its detail kept from the client.
    pub fn is_inner(&self) -> (r: bool)
        ensures
            r == self@.internal,
            r ==> self@ == internal_model(),
    {
        proof {
            use_type_invariant(self);
        }
        self.inner.is_some()
    }

    /// The failure for a database error that reported `code` (or none);
    /// `cause` is kept for the log where the code is not in the table.
    pub fn from_backend_code(code: Option<&str>, cause: Cause) -> (r: Error)
        ensures
            r@ == backend_error_model(match code { Some(c) => Some(c@), None => None }),
    {
        let c = match code {
            Some(c) => c,
            None => return Error::internal(cause),
        };
        if same_text(c, "C2002") {
            Error::session_expired("USSID")
        } else if same_text(c, "C3001") {
            Error::session_expired("GSSID")
        } else if same_text(c, "C4101") {
            Error::data_not_found("customize_selection")
        } else if same_text(c, "C4301") {
            Error::bad_request("CusSelNotProvided", "Customize selection not provided.", None)
        } else if same_text(c, "C6001") {
            Error::bad_request("ShopNameUsed", "Shop name has been used.", None)
        } else if same_text(c, "C6009") {
            Error::data_not_found("shop_product")
        } else if same_text(c, "C8001") {
            Error::data_not_found("cart")
        } else if same_text(c, "C8002") {
            Error::data_not_found("cart_item")
        } else if same_text(c, "C8103") {
            Error::bad_request("CartItemExpired", "Cart item expired.", None)
        } else {
            Error::internal(cause)
        }
    }

    pub fn status(&self) -> (r: u16)
        ensures
            r == self@.status,
            self@.internal ==> self@ == internal_model(),
    {
        proof {
            use_type_invariant(self);
        }
        self.http_status
    }

    pub fn kind(&self) -> (r: &str)
        ensures
            r@ == self@.kind,
    {
        self.kind.as_str()
    }

    pub fn message(&self) -> (r: &str)
        ensures
            r@ == self@.message,
    {
        self.message.as_str()
    }

    pub fn data(&self) -> (r: Option<&str>)
        ensures
            match r {
                Some(d) => self@.data == Some(d@),
                None => self@.data is None,
            },
    {
        match &self.data {
            Some(d) => Some(d.as_str()),
            None => None,
        }
    }
}

/// Every code the database may report is classified once and for all: a code
/// of the table gives its client error, with status 400; any other code, or
/// none, gives the generic internal failure with status 500.
pub proof fn lemma_backend_codes_classified(code: Option<Seq<char>>)
    ensures
        backend_error_model(code).internal <==> (code is None || backend_code_model(code->Some_0) is None),
        backend_error_model(code).internal ==> backend_error_model(code) == internal_model(),
        !backend_error_model(code).internal ==> backend_error_model(code).status == BAD_REQUEST,
        !backend_error_model(code).internal ==> backend_code_model(code->Some_0) == Some(backend_error_model(code)),
{
}

} // verus!
