use vstd::prelude::*;
use crate::error::{Error, ErrorModel, NOT_FOUND, payload_too_large_model, internal_model};

verus! {

/// The JSON text of the string `s` (quoted and escaped), if it serialises.
pub uninterp spec fn json_quoted(s: Seq<char>) -> Option<Seq<char>>;

/// The compact JSON text of the document that `s` parses as, if it parses.
pub uninterp spec fn json_reencoded(s: Seq<char>) -> Option<Seq<char>>;

/// Relies on `serde_json::to_string` applied to a string.
#[verifier::external_body]
fn quote_json(s: &str) -> (r: Option<String>)
    ensures
        match r {
            Some(q) => json_quoted(s@) == Some(q@),
            None => json_quoted(s@) is None,
        },
{
    match serde_json::to_string(s) {
        Ok(q) => Some(q),
        Err(_) => None,
    }
}

/// Relies on `serde_json::from_str::<serde_json::Value>` and `Value`'s `Display`,
/// which writes compact JSON.
#[verifier::external_body]
fn reencode_json(s: &str) -> (r: Option<String>)
    ensures
        match r {
            Some(j) => json_reencoded(s@) == Some(j@),
            None => json_reencoded(s@) is None,
        },
{
    match serde_json::from_str::<serde_json::Value>(s) {
        Ok(v) => Some(v.to_string()),
        Err(_) => None,
    }
}

pub open spec fn digit_char(d: int) -> char {
    (d + '0' as int) as u8 as char
}

/// The decimal digits of `n`.
pub open spec fn decimal(n: nat) -> Seq<char>
    decreases n,
{
    if n < 10 {
        seq![digit_char(n as int)]
    } else {
        decimal(n / 10) + seq![digit_char((n % 10) as int)]
    }
}

pub open spec fn null_text() -> Seq<char> {
    seq!['n', 'u', 'l', 'l']
}

pub open spec fn quoted_or_null(s: Seq<char>) -> Seq<char> {
    match json_quoted(s) {
        Some(q) => q,
        None => null_text(),
    }
}

pub open spec fn data_text(data: Option<Seq<char>>) -> Seq<char> {
    match data {
        Some(d) => match json_reencoded(d) {
            Some(j) => j,
            None => null_text(),
        },
        None => null_text(),
    }
}

/// The JSON body of an error response: `{"status":..,"type":..,"message":..,"data":..}`,
/// where `data` is the payload if it is JSON and `null` otherwise.
pub open spec fn envelope(m: ErrorModel) -> Seq<char> {
    "{\"status\":"@ + decimal(m.status as nat) + ",\"type\":"@ + quoted_or_null(m.kind)
        + ",\"message\":"@ + quoted_or_null(m.message) + ",\"data\":"@ + data_text(m.data) + "}"@
}

fn digit_text(d: u16) -> (r: &'static str)
    requires
        d < 10,
    ensures
        r@ == seq![digit_char(d as int)],
{
    proof {
        reveal_strlit("0");
        reveal_strlit("1");
        reveal_strlit("2");
        reveal_strlit("3");
        reveal_strlit("4");
        reveal_strlit("5");
        reveal_strlit("6");
        reveal_strlit("7");
        reveal_strlit("8");
        reveal_strlit("9");
    }
    if d == 0 {
        "0"
    } else if d == 1 {
        "1"
    } else if d == 2 {
        "2"
    } else if d == 3 {
        "3"
    } else if d == 4 {
        "4"
    } else if d == 5 {
        "5"
    } else if d == 6 {
        "6"
    } else if d == 7 {
        "7"
    } else if d == 8 {
        "8"
    } else {
        "9"
    }
}

/// The decimal text of `n`.
pub fn decimal_text(n: u16) -> (r: String)
    ensures
        r@ == decimal(n as nat),
    decreases n,
{
    if n < 10 {
        digit_text(n).to_owned()
    } else {
        let mut s = decimal_text(n / 10);
        s.append(digit_text(n % 10));
        s
    }
}

fn null_string() -> (r: String)
    ensures
        r@ == null_text(),
{
    proof {
        reveal_strlit("null");
    }
    "null".to_owned()
}

fn quoted_text(s: &str) -> (r: String)
    ensures
        r@ == quoted_or_null(s@),
{
    match quote_json(s) {
        Some(q) => q,
        None => null_string(),
    }
}

/// A response as the server sends it: status, body, and whether the body is JSON.
#[derive(Debug)]
pub struct Reply {
    pub status: u16,
    pub body: String,
    pub json: bool,
}

impl Error {
    /// The JSON body that renders this error.
    pub fn response_body(&self) -> (r: String)
        ensures
            r@ == envelope(self@),
    {
        let mut s: String = "{\"status\":".to_owned();
        let status = decimal_text(self.status());
        s.append(status.as_str());
        s.append(",\"type\":");
        let kind = quoted_text(self.kind());
        s.append(kind.as_str());
        s.append(",\"message\":");
        let message = quoted_text(self.message());
        s.append(message.as_str());
        s.append(",\"data\":");
        let data = match self.data() {
            Some(d) => match reencode_json(d) {
                Some(j) => j,
                None => null_string(),
            },
            None => null_string(),
        };
        s.append(data.as_str());
        s.append("}");
        s
    }

    /// The response that renders this error: its status and JSON body.
    pub fn into_response(&self) -> (r: Reply)
        ensures
            r.status == self@.status,
            r.body@ == envelope(self@),
            r.json,
            self@.internal ==> r.body@ == envelope(internal_model()),
    {
        Reply { status: self.status(), body: self.response_body(), json: true }
    }
}

/// Why a request ended without a handler's reply.
#[derive(Debug)]
pub enum Failure {
    /// No route matched the request.
    NotFound,
    /// The body exceeded the endpoint's cap.
    PayloadTooLarge,
    /// A handler or filter failed with an error of this library.
    App(Error),
    /// Any other failure of the HTTP layer.
    Other,
}

/// What recovery does with a failure.
#[derive(Debug)]
pub enum Recovery {
    /// Send this reply; `internal` tells the log to keep the full cause.
    Respond { reply: Reply, internal: bool },
    /// Hand the failure back to the HTTP layer unchanged.
    Propagate,
}

pub open spec fn not_found_text() -> Seq<char> {
    "Not Found."@
}

/// Turns a failure that no route handled into the response to send: a fixed
/// 404 where no route matched, the rendered error where the body was too large
/// or a handler failed, and nothing for any other failure.
pub fn recover(failure: Failure) -> (r: Recovery)
    ensures
        match failure {
            Failure::NotFound => r matches Recovery::Respond { reply, internal }
                && reply.status == NOT_FOUND && reply.body@ == not_found_text() && !reply.json && !internal,
            Failure::PayloadTooLarge => r matches Recovery::Respond { reply, internal }
                && reply.status == payload_too_large_model().status
                && reply.body@ == envelope(payload_too_large_model()) && reply.json && !internal,
            Failure::App(e) => r matches Recovery::Respond { reply, internal }
                && reply.status == e@.status && reply.body@ == envelope(e@) && reply.json
                && internal == e@.internal,
            Failure::Other => r is Propagate,
        },
{
    match failure {
        Failure::NotFound => Recovery::Respond {
            reply: Reply { status: NOT_FOUND, body: "Not Found.".to_owned(), json: false },
            internal: false,
        },
        Failure::PayloadTooLarge => Recovery::Respond {
            reply: Error::payload_too_large().into_response(),
            internal: false,
        },
        Failure::App(e) => {
            let internal = e.is_inner();
            Recovery::Respond { reply: e.into_response(), internal }
        },
        Failure::Other => Recovery::Propagate,
    }
}

} // verus!
