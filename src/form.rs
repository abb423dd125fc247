use vstd::prelude::*;
use vstd::utf8::{valid_utf8, decode_utf8};
use crate::error::{Error, ErrorModel, no_valid_form_model, payload_too_large_model};
use crate::ident::{uuid_of, uuid_from_text};
use crate::text::same_text;

verus! {

/// The body cap of the upload endpoints, in bytes.
pub const DEFAULT_FORM_LIMIT: usize = 2000000;

/// How the bytes of a form part are read.
#[derive(Clone, Copy, Debug, PartialEq, Eq, Structural)]
pub enum FieldKind {
    /// UTF-8 text.
    Text,
    /// An identifier in text form.
    Identifier,
    /// The bytes as they came.
    Binary,
}

/// One declared field of a form: its part name, how it is read, and whether
/// the form is refused without it.
#[derive(Clone, Debug)]
pub struct FieldSpec {
    pub name: String,
    pub kind: FieldKind,
    pub required: bool,
}

/// One part of a multipart body, read whole.
#[derive(Debug)]
pub struct Part {
    pub name: String,
    pub data: Vec<u8>,
}

/// The value of a declared field after decoding.
#[derive(Debug)]
pub enum FieldValue {
    /// No part gave the field a value.
    Absent,
    Text(String),
    Identifier(u128),
    Binary(Vec<u8>),
}

/// A decoded value, as the contracts see it.
pub enum Decoded {
    Text(Seq<char>),
    Identifier(u128),
    Binary(Seq<u8>),
}

pub open spec fn value_model(v: FieldValue) -> Option<Decoded> {
    match v {
        FieldValue::Absent => None,
        FieldValue::Text(s) => Some(Decoded::Text(s@)),
        FieldValue::Identifier(id) => Some(Decoded::Identifier(id)),
        FieldValue::Binary(b) => Some(Decoded::Binary(b@)),
    }
}

pub open spec fn values_model(vals: Seq<FieldValue>) -> Seq<Option<Decoded>> {
    Seq::new(vals.len(), |i: int| value_model(vals[i]))
}

/// What the bytes of a part become for a field of the given kind, if they can.
pub open spec fn convert(kind: FieldKind, data: Seq<u8>) -> Option<Decoded> {
    match kind {
        FieldKind::Binary => Some(Decoded::Binary(data)),
        FieldKind::Text => if valid_utf8(data) {
            Some(Decoded::Text(decode_utf8(data)))
        } else {
            None
        },
        FieldKind::Identifier => if valid_utf8(data) {
            match uuid_of(decode_utf8(data)) {
                Some(id) => Some(Decoded::Identifier(id)),
                None => None,
            }
        } else {
            None
        },
    }
}

/// Field `i` is the first declared under `name`, and so the one a part of that name fills.
pub open spec fn claims(schema: Seq<FieldSpec>, i: int, name: Seq<char>) -> bool {
    &&& 0 <= i < schema.len()
    &&& schema[i].name@ == name
    &&& forall|k: int| 0 <= k < i ==> schema[k].name@ != name
}

/// The value of field `i` after the parts: that of the last part it claims
/// whose bytes convert; none if there is no such part.
pub open spec fn slot(schema: Seq<FieldSpec>, i: int, parts: Seq<Part>) -> Option<Decoded>
    decreases parts.len(),
{
    if parts.len() == 0 {
        None
    } else {
        let p = parts.last();
        if claims(schema, i, p.name@) && convert(schema[i].kind, p.data@) is Some {
            convert(schema[i].kind, p.data@)
        } else {
            slot(schema, i, parts.drop_last())
        }
    }
}

pub open spec fn total_len(parts: Seq<Part>) -> int
    decreases parts.len(),
{
    if parts.len() == 0 {
        0
    } else {
        total_len(parts.drop_last()) + parts.last().data@.len()
    }
}

/// The first required field, from `i` on, that the parts leave without a value.
pub open spec fn first_missing(schema: Seq<FieldSpec>, parts: Seq<Part>, i: int) -> Option<int>
    decreases schema.len() - i,
{
    if i < 0 || i >= schema.len() {
        None
    } else if schema[i].required && slot(schema, i, parts) is None {
        Some(i)
    } else {
        first_missing(schema, parts, i + 1)
    }
}

/// The outcome of decoding `parts` against `schema` with a cap of `limit` bytes.
pub open spec fn decode_model(schema: Seq<FieldSpec>, parts: Seq<Part>, limit: int) -> Result<Seq<Option<Decoded>>, ErrorModel> {
    if total_len(parts) > limit {
        Err(payload_too_large_model())
    } else {
        match first_missing(schema, parts, 0) {
            Some(i) => Err(no_valid_form_model(schema[i].name@)),
            None => Ok(Seq::new(schema.len(), |i: int| slot(schema, i, parts))),
        }
    }
}

pub open spec fn form_result_model(r: Result<Vec<FieldValue>, Error>) -> Result<Seq<Option<Decoded>>, ErrorModel> {
    match r {
        Ok(v) => Ok(values_model(v@)),
        Err(e) => Err(e@),
    }
}

/// Relies on `String::from_utf8`: the bytes as text where they are valid UTF-8.
#[verifier::external_body]
fn utf8_text(data: Vec<u8>) -> (r: Option<String>)
    ensures
        match r {
            Some(s) => valid_utf8(data@) && s@ == decode_utf8(data@),
            None => !valid_utf8(data@),
        },
{
    match String::from_utf8(data) {
        Ok(s) => Some(s),
        Err(_) => None,
    }
}

/// Reads the bytes of a part as a field of the given kind.
pub fn convert_part(kind: FieldKind, data: Vec<u8>) -> (r: FieldValue)
    ensures
        value_model(r) == convert(kind, data@),
{
    match kind {
        FieldKind::Binary => FieldValue::Binary(data),
        FieldKind::Text => match utf8_text(data) {
            Some(s) => FieldValue::Text(s),
            None => FieldValue::Absent,
        },
        FieldKind::Identifier => match utf8_text(data) {
            Some(s) => match uuid_from_text(s.as_str()) {
                Some(id) => FieldValue::Identifier(id),
                None => FieldValue::Absent,
            },
            None => FieldValue::Absent,
        },
    }
}

/// The index of the field that a part called `name` fills, if any.
fn claiming_field(schema: &Vec<FieldSpec>, name: &str) -> (r: Option<usize>)
    ensures
        match r {
            Some(i) => claims(schema@, i as int, name@),
            None => forall|i: int| !claims(schema@, i, name@),
        },
{
    let mut k: usize = 0;
    while k < schema.len()
        invariant
            k <= schema@.len(),
            forall|j: int| 0 <= j < k ==> schema@[j].name@ != name@,
        decreases schema@.len() - k,
    {
        if same_text(schema[k].name.as_str(), name) {
            return Some(k);
        }
        k = k + 1;
    }
    None
}

proof fn lemma_first_missing_skip(schema: Seq<FieldSpec>, parts: Seq<Part>, i: int)
    requires
        0 <= i <= schema.len(),
        forall|k: int| 0 <= k < i ==> !(schema[k].required && slot(schema, k, parts) is None),
    ensures
        first_missing(schema, parts, 0) == first_missing(schema, parts, i),
    decreases i,
{
    if i > 0 {
        lemma_first_missing_skip(schema, parts, i - 1);
    }
}

/// Decodes a multipart body against a schema: the body may hold at most
/// `limit` bytes of part data; each declared field takes the value of the last
/// part of its name whose bytes convert to its kind; parts of other names are
/// ignored; the first required field left without a value is named in the error.
pub fn decode_form(schema: &Vec<FieldSpec>, parts: Vec<Part>, limit: usize) -> (r: Result<Vec<FieldValue>, Error>)
    ensures
        form_result_model(r) == decode_model(schema@, parts@, limit as int),
{
    let ghost all = parts@;
    let mut total: usize = 0;
    let mut j: usize = 0;
    while j < parts.len()
        invariant
            total as int == total_len(all.subrange(0, j as int)),
            total <= limit,
            j <= all.len(),
            parts@ == all,
        decreases all.len() - j,
    {
        assert(all.subrange(0, j as int + 1).drop_last() =~= all.subrange(0, j as int));
        if parts[j].data.len() > limit - total {
            proof {
                lemma_total_len_prefix(all, j as int + 1);
            }
            return Err(Error::payload_too_large());
        }
        total = total + parts[j].data.len();
        j = j + 1;
    }
    assert(all.subrange(0, all.len() as int) =~= all);

    let mut slots: Vec<FieldValue> = Vec::new();
    let mut s: usize = 0;
    while s < schema.len()
        invariant
            s <= schema@.len(),
            slots@.len() == s,
            parts@ == all,
            total_len(all) <= limit,
            forall|i: int| 0 <= i < s ==> value_model(#[trigger] slots@[i]) is None,
        decreases schema@.len() - s,
    {
        slots.push(FieldValue::Absent);
        s = s + 1;
    }

    let mut rest = parts;
    while rest.len() > 0
        invariant
            slots@.len() == schema@.len(),
            rest@.len() <= all.len(),
            parts@ == all,
            total_len(all) <= limit,
            forall|i: int| 0 <= i < schema@.len() ==> slot(schema@, i, all) == (match value_model(#[trigger] slots@[i]) {
                Some(d) => Some(d),
                None => slot(schema@, i, rest@),
            }),
        decreases rest@.len(),
    {
        let ghost before = rest@;
        let ghost old_slots = slots@;
        let p = rest.pop().unwrap();
        assert(rest@ =~= before.drop_last());
        match claiming_field(schema, p.name.as_str()) {
            Some(i) => {
                if matches!(slots[i], FieldValue::Absent) {
                    let v = convert_part(schema[i].kind, p.data);
                    if !matches!(v, FieldValue::Absent) {
                        slots.set(i, v);
                    }
                }
                assert forall|k: int| 0 <= k < schema@.len() implies slot(schema@, k, all) == (match value_model(#[trigger] slots@[k]) {
                    Some(d) => Some(d),
                    None => slot(schema@, k, rest@),
                }) by {
                    if k != i {
                        assert(!claims(schema@, k, p.name@));
                    }
                };
            },
            None => {},
        }
    }

    let mut i: usize = 0;
    while i < schema.len()
        invariant
            i <= schema@.len(),
            slots@.len() == schema@.len(),
            rest@.len() == 0,
            parts@ == all,
            total_len(all) <= limit,
            forall|k: int| 0 <= k < schema@.len() ==> slot(schema@, k, all) == value_model(#[trigger] slots@[k]),
            forall|k: int| 0 <= k < i ==> !(schema@[k].required && slot(schema@, k, all) is None),
        decreases schema@.len() - i,
    {
        if schema[i].required && matches!(slots[i], FieldValue::Absent) {
            proof {
                lemma_first_missing_skip(schema@, all, i as int);
            }
            return Err(Error::no_valid_form(schema[i].name.as_str()));
        }
        i = i + 1;
    }
    proof {
        lemma_first_missing_skip(schema@, all, schema@.len() as int);
        assert(values_model(slots@) =~= Seq::new(schema@.len(), |k: int| slot(schema@, k, all)));
    }
    Ok(slots)
}

proof fn lemma_total_len_prefix(parts: Seq<Part>, n: int)
    requires
        0 <= n <= parts.len(),
    ensures
        total_len(parts.subrange(0, n)) <= total_len(parts),
    decreases parts.len(),
{
    if n < parts.len() {
        assert(parts.drop_last().subrange(0, n) =~= parts.subrange(0, n));
        lemma_total_len_prefix(parts.drop_last(), n);
    } else {
        assert(parts.subrange(0, n) =~= parts);
    }
}

proof fn lemma_unnamed_field_has_no_value(schema: Seq<FieldSpec>, i: int, parts: Seq<Part>)
    requires
        forall|j: int| 0 <= j < parts.len() ==> (#[trigger] parts[j]).name@ != schema[i].name@,
    ensures
        slot(schema, i, parts) is None,
    decreases parts.len(),
{
    if parts.len() > 0 {
        lemma_unnamed_field_has_no_value(schema, i, parts.drop_last());
    }
}

/// A submission within the cap that has no part for a required field fails
/// naming that field, where every required field before it has a value; and
/// whenever decoding fails on a field, the field it names is a required one
/// that was left without a value.
pub proof fn lemma_missing_field_is_named(schema: Seq<FieldSpec>, parts: Seq<Part>, limit: int, i: int)
    requires
        total_len(parts) <= limit,
        0 <= i < schema.len(),
        schema[i].required,
        forall|j: int| 0 <= j < parts.len() ==> (#[trigger] parts[j]).name@ != schema[i].name@,
        forall|k: int| 0 <= k < i ==> !(schema[k].required && slot(schema, k, parts) is None),
    ensures
        decode_model(schema, parts, limit) == Err::<Seq<Option<Decoded>>, ErrorModel>(no_valid_form_model(schema[i].name@)),
{
    lemma_unnamed_field_has_no_value(schema, i, parts);
    lemma_first_missing_skip(schema, parts, i);
}

/// The field that a failed decoding names is a required field left without a value.
pub proof fn lemma_named_field_is_missing(schema: Seq<FieldSpec>, parts: Seq<Part>, i: int)
    requires
        first_missing(schema, parts, 0) == Some(i),
    ensures
        0 <= i < schema.len(),
        schema[i].required,
        slot(schema, i, parts) is None,
{
    lemma_first_missing_found(schema, parts, 0, i);
}

proof fn lemma_first_missing_found(schema: Seq<FieldSpec>, parts: Seq<Part>, from: int, i: int)
    requires
        first_missing(schema, parts, from) == Some(i),
    ensures
        0 <= i < schema.len(),
        schema[i].required,
        slot(schema, i, parts) is None,
    decreases schema.len() - from,
{
    if 0 <= from < schema.len() && !(schema[from].required && slot(schema, from, parts) is None) {
        lemma_first_missing_found(schema, parts, from + 1, i);
    }
}

/// A body over the cap fails as too large, whatever its parts hold.
pub proof fn lemma_oversized_body_rejected(schema: Seq<FieldSpec>, parts: Seq<Part>, limit: int)
    requires
        total_len(parts) > limit,
    ensures
        decode_model(schema, parts, limit) == Err::<Seq<Option<Decoded>>, ErrorModel>(payload_too_large_model()),
{
}

} // verus!
