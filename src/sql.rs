use vstd::prelude::*;
use crate::error::{Error, Cause, CauseKind, internal_model};
use crate::ident::{uuid_of, uuid_from_text, uuid_text, hyphenated_text};

verus! {

/// How much a shop member may do in one area.
#[derive(Clone, Copy, Debug, PartialEq, Eq, Structural)]
pub enum Permission {
    /// No access; the database calls it `none`.
    NoAccess,
    ReadOnly,
    All,
}

/// A permission that the database holds as never null.
#[derive(Clone, Copy, Debug, PartialEq, Eq, Structural)]
pub struct PermissionNN(pub Permission);

/// An area of a shop that permissions are granted for.
#[derive(Clone, Copy, Debug, PartialEq, Eq, Structural)]
pub enum Authority {
    MemberAuthority,
    OrderAuthority,
    ProductAuthority,
}

/// An authority that the database holds as never null.
#[derive(Clone, Copy, Debug, PartialEq, Eq, Structural)]
pub struct AuthorityNN(pub Authority);

/// Text that the database holds as never null.
#[derive(Clone, Debug)]
pub struct TextNN(pub String);

/// Text that the database holds as never null and never empty.
#[derive(Clone, Debug)]
pub struct TextNZ(pub String);

/// An integer that the database holds as never null.
#[derive(Clone, Copy, Debug, PartialEq, Eq, Structural)]
pub struct IntNN(pub i32);

/// An identifier that the database holds as never null.
#[derive(Clone, Copy, Debug, PartialEq, Eq, Structural)]
pub struct UuidNN(pub u128);

pub open spec fn is_decimal_digit(c: char) -> bool {
    '0' <= c && c <= '9'
}

pub open spec fn all_decimal(d: Seq<char>) -> bool {
    d.len() > 0 && forall|i: int| 0 <= i < d.len() ==> is_decimal_digit(#[trigger] d[i])
}

/// The number that a sequence of decimal digits spells.
pub open spec fn digits_value(d: Seq<char>) -> int
    decreases d.len(),
{
    if d.len() == 0 {
        0
    } else {
        digits_value(d.drop_last()) * 10 + (d.last() as int - '0' as int)
    }
}

/// The integer that `s` writes: an optional `+` or `-`, then one or more
/// ASCII digits, nothing else.
pub open spec fn signed_decimal(s: Seq<char>) -> Option<int> {
    if s.len() > 0 && s[0] == '-' && all_decimal(s.drop_first()) {
        Some(-digits_value(s.drop_first()))
    } else if s.len() > 0 && s[0] == '+' && all_decimal(s.drop_first()) {
        Some(digits_value(s.drop_first()))
    } else if all_decimal(s) {
        Some(digits_value(s))
    } else {
        None
    }
}

/// The `i32` that `s` writes, if it writes one in range.
pub open spec fn i32_of(s: Seq<char>) -> Option<i32> {
    match signed_decimal(s) {
        Some(v) => if i32::MIN <= v <= i32::MAX {
            Some(v as i32)
        } else {
            None
        },
        None => None,
    }
}

/// Relies on `i32`'s `FromStr`: an optional sign and ASCII digits, in range.
#[verifier::external_body]
fn parse_i32(s: &str) -> (r: Option<i32>)
    ensures
        r == i32_of(s@),
{
    match s.parse::<i32>() {
        Ok(v) => Some(v),
        Err(_) => None,
    }
}

impl IntNN {
    /// The integer that `s` writes, if it writes an `i32`.
    pub fn parse(s: &str) -> (r: Option<IntNN>)
        ensures
            match r {
                Some(n) => i32_of(s@) == Some(n.0),
                None => i32_of(s@) is None,
            },
    {
        match parse_i32(s) {
            Some(v) => Some(IntNN(v)),
            None => None,
        }
    }
}

impl std::str::FromStr for IntNN {
    type Err = Error;

    fn from_str(s: &str) -> Result<IntNN, Error> {
        match IntNN::parse(s) {
            Some(n) => Ok(n),
            None => Err(Error::invalid_data("int_nn")),
        }
    }
}

impl UuidNN {
    /// The identifier that `s` spells; a malformed one is an internal failure.
    pub fn parse(s: &str) -> (r: Result<UuidNN, Error>)
        ensures
            match r {
                Ok(id) => uuid_of(s@) == Some(id.0),
                Err(e) => uuid_of(s@) is None && e@ == internal_model(),
            },
    {
        match uuid_from_text(s) {
            Some(v) => Ok(UuidNN(v)),
            None => Err(Error::internal(Cause { kind: CauseKind::Identifier, detail: s.to_owned() })),
        }
    }

    /// The lowercase hyphenated text of the identifier.
    pub fn to_text(&self) -> (r: String)
        ensures
            r@ == hyphenated_text(self.0),
    {
        uuid_text(self.0)
    }
}

impl std::str::FromStr for UuidNN {
    type Err = Error;

    fn from_str(s: &str) -> Result<UuidNN, Error> {
        UuidNN::parse(s)
    }
}

} // verus!
