use vstd::prelude::*;
use vstd::arithmetic::div_mod::{lemma_div_denominator, lemma_fundamental_div_mod, lemma_div_pos_is_pos, lemma_basic_div};
use crate::error::{Error, Cause, CauseKind, internal_model};
use crate::text::framed;

verus! {

pub open spec fn is_hex_digit(c: char) -> bool {
    ('0' <= c && c <= '9') || ('a' <= c && c <= 'f') || ('A' <= c && c <= 'F')
}

pub open spec fn hex_value(c: char) -> int {
    if '0' <= c && c <= '9' {
        c as int - '0' as int
    } else if 'a' <= c && c <= 'f' {
        c as int - 'a' as int + 10
    } else {
        c as int - 'A' as int + 10
    }
}

pub open spec fn lower_hex_digit(n: int) -> char {
    if n < 10 {
        (n + '0' as int) as u8 as char
    } else {
        (n - 10 + 'a' as int) as u8 as char
    }
}

pub open spec fn is_hyphen_position(i: int) -> bool {
    i == 8 || i == 13 || i == 18 || i == 23
}

/// The 8-4-4-4-12 form: 36 characters, hyphens at 8, 13, 18 and 23,
/// hexadecimal digits of either case everywhere else.
pub open spec fn is_hyphenated(s: Seq<char>) -> bool {
    &&& s.len() == 36
    &&& forall|i: int| 0 <= i < 36 ==> if is_hyphen_position(i) {
        s[i] == '-'
    } else {
        is_hex_digit(#[trigger] s[i])
    }
}

/// The 32 digits of a hyphenated identifier, hyphens left out.
pub open spec fn hyphenated_digits(s: Seq<char>) -> Seq<char> {
    s.subrange(0, 8) + s.subrange(9, 13) + s.subrange(14, 18) + s.subrange(19, 23) + s.subrange(24, 36)
}

/// The number that a sequence of hexadecimal digits spells, most significant first.
pub open spec fn hex_number(d: Seq<char>) -> int
    decreases d.len(),
{
    if d.len() == 0 {
        0
    } else {
        hex_number(d.drop_last()) * 16 + hex_value(d.last())
    }
}

pub open spec fn hyphenated_value(s: Seq<char>) -> int {
    hex_number(hyphenated_digits(s))
}

/// Sixteen to the power `n`.
pub open spec fn pow16(n: nat) -> int
    decreases n,
{
    if n == 0 {
        1
    } else {
        16 * pow16((n - 1) as nat)
    }
}

proof fn lemma_pow16_positive(n: nat)
    ensures
        pow16(n) > 0,
    decreases n,
{
    if n > 0 {
        lemma_pow16_positive((n - 1) as nat);
    }
}

/// The `k`-th of the 32 hexadecimal digits of `v`, most significant first.
pub open spec fn nibble(v: u128, k: int) -> int {
    (v as int / pow16((31 - k) as nat)) % 16
}

pub open spec fn digit_run(v: u128, from: int, to: int) -> Seq<char> {
    Seq::new((to - from) as nat, |j: int| lower_hex_digit(nibble(v, from + j)))
}

/// The lowercase hyphenated text of the identifier `v`.
pub open spec fn hyphenated_text(v: u128) -> Seq<char> {
    digit_run(v, 0, 8) + seq!['-'] + digit_run(v, 8, 12) + seq!['-'] + digit_run(v, 12, 16)
        + seq!['-'] + digit_run(v, 16, 20) + seq!['-'] + digit_run(v, 20, 32)
}

/// What the identifier parser makes of the forms other than the hyphenated one
/// (32 bare digits, braces, a `urn:uuid:` prefix, or no identifier at all).
pub uninterp spec fn uuid_other_forms(s: Seq<char>) -> Option<u128>;

/// The identifier that the text `s` spells, if any.
pub open spec fn uuid_of(s: Seq<char>) -> Option<u128> {
    if is_hyphenated(s) {
        Some(hyphenated_value(s) as u128)
    } else {
        uuid_other_forms(s)
    }
}

/// Relies on `uuid::Uuid::parse_str` and `Uuid::as_u128`: the hyphenated form is
/// read as 32 hexadecimal digits of either case, the first the most significant.
#[verifier::external_body]
fn parse_uuid_text(s: &str) -> (r: Option<u128>)
    ensures
        is_hyphenated(s@) ==> r == Some(hyphenated_value(s@) as u128),
        !is_hyphenated(s@) ==> r == uuid_other_forms(s@),
{
    match uuid::Uuid::parse_str(s) {
        Ok(id) => Some(id.as_u128()),
        Err(_) => None,
    }
}

/// Relies on `uuid::Uuid::from_u128` and `Uuid`'s `Display`, which writes the
/// lowercase hyphenated form.
#[verifier::external_body]
fn uuid_to_text(v: u128) -> (r: String)
    ensures
        r@ == hyphenated_text(v),
{
    uuid::Uuid::from_u128(v).to_string()
}

/// The identifier spelt by `s`, if it spells one.
pub fn uuid_from_text(s: &str) -> (r: Option<u128>)
    ensures
        r == uuid_of(s@),
{
    parse_uuid_text(s)
}

/// The lowercase hyphenated text of `v`, as it is stored in a cookie.
pub fn uuid_text(v: u128) -> (r: String)
    ensures
        r@ == hyphenated_text(v),
{
    uuid_to_text(v)
}

/// Parses an identifier that must be well formed; a malformed one is an
/// internal failure.
pub fn parse_uuid(id: String) -> (r: Result<u128, Error>)
    ensures
        match r {
            Ok(v) => uuid_of(id@) == Some(v),
            Err(e) => uuid_of(id@) is None && e@ == internal_model(),
        },
{
    match parse_uuid_text(id.as_str()) {
        Some(v) => Ok(v),
        None => {
            let detail = framed("malformed identifier \"", id.as_str(), "\"");
            Err(Error::internal(Cause { kind: CauseKind::Identifier, detail }))
        },
    }
}

/// Parses an identifier that must be given and well formed.
pub fn parse_uuid_optional(param: Option<String>) -> (r: Result<u128, Error>)
    ensures
        match r {
            Ok(v) => param is Some && uuid_of(param->Some_0@) == Some(v),
            Err(e) => (param is None || uuid_of(param->Some_0@) is None) && e@ == internal_model(),
        },
{
    match param {
        Some(id) => parse_uuid(id),
        None => {
            let detail = "optional identifier not given".to_owned();
            Err(Error::internal(Cause { kind: CauseKind::Identifier, detail }))
        },
    }
}

proof fn lemma_digit_round_trip(n: int)
    requires
        0 <= n < 16,
    ensures
        is_hex_digit(lower_hex_digit(n)),
        hex_value(lower_hex_digit(n)) == n,
{
}

proof fn lemma_nibble_step(v: u128, n: int)
    requires
        0 < n <= 32,
    ensures
        (v as int / pow16((33 - n) as nat)) * 16 + nibble(v, n - 1) == v as int / pow16((32 - n) as nat),
{
    let b = pow16((32 - n) as nat);
    lemma_pow16_positive((32 - n) as nat);
    assert(pow16((33 - n) as nat) == b * 16);
    lemma_div_denominator(v as int, b, 16);
    lemma_div_pos_is_pos(v as int, b);
    lemma_fundamental_div_mod(v as int / b, 16);
}

/// The digits of `v`, as `hyphenated_digits` reads them back from its text.
pub open spec fn all_digits(v: u128) -> Seq<char> {
    digit_run(v, 0, 32)
}

proof fn lemma_prefix_value(v: u128, n: int)
    requires
        0 <= n <= 32,
    ensures
        hex_number(all_digits(v).subrange(0, n)) == v as int / pow16((32 - n) as nat),
    decreases n,
{
    let p = all_digits(v).subrange(0, n);
    if n == 0 {
        reveal_with_fuel(pow16, 33);
        assert(pow16(32) == 0x1_0000_0000_0000_0000_0000_0000_0000_0000int);
        lemma_basic_div(v as int, pow16(32));
    } else {
        lemma_prefix_value(v, n - 1);
        assert(p.drop_last() =~= all_digits(v).subrange(0, n - 1));
        lemma_pow16_positive((32 - (n - 1)) as nat);
        lemma_digit_round_trip(nibble(v, n - 1));
        lemma_nibble_step(v, n);
    }
}

/// Writing an identifier in the hyphenated form and parsing it back gives the
/// identifier again.
pub proof fn lemma_uuid_text_round_trip(v: u128)
    ensures
        is_hyphenated(hyphenated_text(v)),
        uuid_of(hyphenated_text(v)) == Some(v),
{
    let t = hyphenated_text(v);
    assert forall|k: int| 0 <= k < 32 implies is_hex_digit(#[trigger] lower_hex_digit(nibble(v, k))) by {
        lemma_pow16_positive((31 - k) as nat);
        lemma_digit_round_trip(nibble(v, k));
    };
    assert(hyphenated_digits(t) =~= all_digits(v));
    lemma_prefix_value(v, 32);
    assert(all_digits(v).subrange(0, 32) =~= all_digits(v));
}

} // verus!
