use vstd::prelude::*;
use crate::error::{Error, ErrorModel, no_valid_cookie_model, session_expired_model, unauthorized_model};
use crate::ident::{uuid_of, uuid_from_text, uuid_text, hyphenated_text, lemma_uuid_text_round_trip};

verus! {

pub const USER_COOKIE: &'static str = "USSID";
pub const CART_COOKIE: &'static str = "GSSID";
pub const REGISTRATION_COOKIE: &'static str = "REGSSID";

pub const SECONDS_PER_DAY: i64 = 86400;

/// The three kinds of session, each carried by a cookie of its own.
#[derive(Clone, Copy, Debug, PartialEq, Eq, Structural)]
pub enum SessionKind {
    /// A signed-in account.
    User,
    /// An anonymous shopping cart.
    Cart,
    /// A sign-up in progress.
    Registration,
}

/// What the backend said of a session token.
#[derive(Debug)]
pub enum SessionLookup {
    /// The token belongs to a live session of this entity.
    Found(u128),
    /// No live session has this token.
    Missing,
    /// The lookup itself failed.
    Failed(Error),
}

pub open spec fn result_model<T>(r: Result<T, Error>) -> Result<T, ErrorModel> {
    match r {
        Ok(v) => Ok(v),
        Err(e) => Err(e@),
    }
}

/// The token that a cookie value carries: none where the cookie is absent or
/// does not spell an identifier.
pub open spec fn cookie_token(cookie: Option<Seq<char>>) -> Option<u128> {
    match cookie {
        Some(s) => uuid_of(s),
        None => None,
    }
}

/// A required resolver: the token, or a failure naming the cookie.
pub open spec fn required_token(name: Seq<char>, cookie: Option<Seq<char>>) -> Result<u128, ErrorModel> {
    match cookie_token(cookie) {
        Some(v) => Ok(v),
        None => Err(no_valid_cookie_model(name)),
    }
}

/// The entity of a session once the backend has been asked about its token.
pub open spec fn lookup_result(name: Seq<char>, lookup: SessionLookup) -> Result<u128, ErrorModel> {
    match lookup {
        SessionLookup::Found(id) => Ok(id),
        SessionLookup::Missing => Err(session_expired_model(name)),
        SessionLookup::Failed(e) => Err(e@),
    }
}

pub open spec fn session_cookie_text(name: Seq<char>, token: u128) -> Seq<char> {
    name + "="@ + hyphenated_text(token) + "; Path=/; HttpOnly"@
}

pub open spec fn cleared_cookie_text(name: Seq<char>) -> Seq<char> {
    name + "=; Path=/; HttpOnly"@
}

/// The date text of the instant `secs` seconds after the epoch, if there is one.
pub uninterp spec fn http_date_of(secs: int) -> Option<Seq<char>>;

pub open spec fn expiring_cookie_text(name: Seq<char>, value: Seq<char>, date: Seq<char>) -> Seq<char> {
    name + "="@ + value + "; Path=/; Expires="@ + date + "; HttpOnly; SameSite=Strict"@
}

pub open spec fn opt_str_view(o: Option<&str>) -> Option<Seq<char>> {
    match o {
        Some(s) => Some(s@),
        None => None,
    }
}

impl SessionKind {
    pub open spec fn name_spec(self) -> Seq<char> {
        match self {
            SessionKind::User => USER_COOKIE@,
            SessionKind::Cart => CART_COOKIE@,
            SessionKind::Registration => REGISTRATION_COOKIE@,
        }
    }

    /// The name of the cookie that carries this kind of session.
    pub fn cookie_name(&self) -> (r: &'static str)
        ensures
            r@ == self.name_spec(),
    {
        match self {
            SessionKind::User => USER_COOKIE,
            SessionKind::Cart => CART_COOKIE,
            SessionKind::Registration => REGISTRATION_COOKIE,
        }
    }
}

/// Relies on `chrono::DateTime::from_timestamp` (none out of its range) and
/// `DateTime::format` with the cookie date pattern.
#[verifier::external_body]
fn http_date(secs: i64) -> (r: Option<String>)
    ensures
        match r {
            Some(d) => http_date_of(secs as int) == Some(d@),
            None => http_date_of(secs as int) is None,
        },
{
    match chrono::DateTime::from_timestamp(secs, 0) {
        Some(t) => Some(t.format("%a, %d %b %Y %T GMT").to_string()),
        None => None,
    }
}

/// The token in a cookie value, where the cookie is present and well formed.
pub fn to_uuid_optional(cookie: Option<&str>) -> (r: Option<u128>)
    ensures
        r == cookie_token(opt_str_view(cookie)),
{
    match cookie {
        Some(s) => uuid_from_text(s),
        None => None,
    }
}

/// The token in the cookie `name`, which must be present and well formed.
pub fn to_uuid(name: &str, cookie: Option<&str>) -> (r: Result<u128, Error>)
    ensures
        result_model(r) == required_token(name@, opt_str_view(cookie)),
{
    match to_uuid_optional(cookie) {
        Some(v) => Ok(v),
        None => Err(Error::no_valid_cookie(name)),
    }
}

/// The token that a resolver of the given policy hands on for a backend
/// lookup: `Ok(None)` where an optional cookie is absent or malformed.
pub fn resolve_token(name: &str, required: bool, cookie: Option<&str>) -> (r: Result<Option<u128>, Error>)
    ensures
        match r {
            Ok(t) => t == cookie_token(opt_str_view(cookie)) && (required ==> t is Some),
            Err(e) => required && cookie_token(opt_str_view(cookie)) is None && e@ == no_valid_cookie_model(name@),
        },
{
    if required {
        match to_uuid(name, cookie) {
            Ok(v) => Ok(Some(v)),
            Err(e) => Err(e),
        }
    } else {
        Ok(to_uuid_optional(cookie))
    }
}

/// The entity of the session `name` from what the backend said of its token.
pub fn to_user_id(name: &str, lookup: SessionLookup) -> (r: Result<u128, Error>)
    ensures
        result_model(r) == lookup_result(name@, lookup),
{
    match lookup {
        SessionLookup::Found(id) => Ok(id),
        SessionLookup::Missing => Err(Error::session_expired(name)),
        SessionLookup::Failed(e) => Err(e),
    }
}

/// The `Set-Cookie` value that hands the session token to the client.
pub fn session_cookie(name: &str, token: u128) -> (r: String)
    ensures
        r@ == session_cookie_text(name@, token),
{
    let mut s: String = name.to_owned();
    s.append("=");
    let t = uuid_text(token);
    s.append(t.as_str());
    s.append("; Path=/; HttpOnly");
    s
}

/// The `Set-Cookie` value that deletes the cookie `name`.
pub fn cleared_cookie(name: &str) -> (r: String)
    ensures
        r@ == cleared_cookie_text(name@),
{
    let mut s: String = name.to_owned();
    s.append("=; Path=/; HttpOnly");
    s
}

/// The `Set-Cookie` value for `name` that expires `days` days after `now`
/// (seconds since the epoch); none where that instant has no date.
pub fn set_cookie(name: &str, value: &str, now: i64, days: i64) -> (r: Option<String>)
    requires
        i64::MIN <= days * SECONDS_PER_DAY <= i64::MAX,
        i64::MIN <= now + days * SECONDS_PER_DAY <= i64::MAX,
    ensures
        match http_date_of(now + days * SECONDS_PER_DAY) {
            Some(d) => r is Some && r->Some_0@ == expiring_cookie_text(name@, value@, d),
            None => r is None,
        },
{
    let secs = now + days * SECONDS_PER_DAY;
    match http_date(secs) {
        Some(d) => {
            let mut s: String = name.to_owned();
            s.append("=");
            s.append(value);
            s.append("; Path=/; Expires=");
            s.append(d.as_str());
            s.append("; HttpOnly; SameSite=Strict");
            Some(s)
        },
        None => None,
    }
}

/// The reply to a sign-in: the session cookie where the backend gave a session,
/// a refusal where it gave none.
pub fn signin_cookie(session: Option<u128>) -> (r: Result<String, Error>)
    ensures
        match session {
            Some(t) => r is Ok && r->Ok_0@ == session_cookie_text(USER_COOKIE@, t),
            None => r is Err && r->Err_0@ == unauthorized_model(),
        },
{
    match session {
        Some(t) => Ok(session_cookie(USER_COOKIE, t)),
        None => Err(Error::unauthorized()),
    }
}

/// A required resolver fails on a cookie that is absent or malformed, and the
/// failure names exactly the cookie it was asked for.
pub proof fn lemma_required_rejects_malformed(name: Seq<char>, cookie: Option<Seq<char>>)
    requires
        cookie is None || uuid_of(cookie->Some_0) is None,
    ensures
        required_token(name, cookie) == Err::<u128, ErrorModel>(no_valid_cookie_model(name)),
{
}

/// Resolving the same cookie twice in one request gives the same token both
/// times, and, with the same answer from the backend, the same identity.
pub proof fn lemma_resolution_idempotent(
    name: Seq<char>,
    cookie: Option<Seq<char>>,
    first: Result<u128, ErrorModel>,
    second: Result<u128, ErrorModel>,
    lookup: SessionLookup,
    first_id: Result<u128, ErrorModel>,
    second_id: Result<u128, ErrorModel>,
)
    requires
        first == required_token(name, cookie),
        second == required_token(name, cookie),
        first_id == lookup_result(name, lookup),
        second_id == lookup_result(name, lookup),
    ensures
        first == second,
        first_id == second_id,
{
}

/// A token handed out in a session cookie, presented back as that cookie's
/// value, resolves to the same token under either policy.
pub proof fn lemma_cookie_round_trip(name: Seq<char>, token: u128)
    ensures
        session_cookie_text(name, token) == name + "="@ + hyphenated_text(token) + "; Path=/; HttpOnly"@,
        cookie_token(Some(hyphenated_text(token))) == Some(token),
        required_token(name, Some(hyphenated_text(token))) == Ok::<u128, ErrorModel>(token),
{
    lemma_uuid_text_round_trip(token);
}

} // verus!
