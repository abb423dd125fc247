use vstd::prelude::*;
use crate::error::{Error, unauthorized_model, data_not_found_model};
use crate::form::{FieldSpec, FieldKind};
use crate::session::result_model;
use crate::error::ErrorModel;
use crate::text::same_text;

verus! {

pub open spec fn field_is(f: FieldSpec, name: Seq<char>, kind: FieldKind, required: bool) -> bool {
    f.name@ == name && f.kind == kind && f.required == required
}

fn field(name: &str, kind: FieldKind, required: bool) -> (r: FieldSpec)
    ensures
        field_is(r, name@, kind, required),
{
    FieldSpec { name: name.to_owned(), kind, required }
}

/// The form that creates a product: its shop, its description, and an optional image.
pub fn product_create_schema() -> (r: Vec<FieldSpec>)
    ensures
        r@.len() == 3,
        field_is(r@[0], "shop_id"@, FieldKind::Identifier, true),
        field_is(r@[1], "payload"@, FieldKind::Text, true),
        field_is(r@[2], "image"@, FieldKind::Binary, false),
{
    let mut v: Vec<FieldSpec> = Vec::new();
    v.push(field("shop_id", FieldKind::Identifier, true));
    v.push(field("payload", FieldKind::Text, true));
    v.push(field("image", FieldKind::Binary, false));
    v
}

/// The form that changes a product: its shop and key, and optionally a new
/// description, a request to drop the image (`true`), or a new image.
pub fn product_patch_schema() -> (r: Vec<FieldSpec>)
    ensures
        r@.len() == 5,
        field_is(r@[0], "shop_id"@, FieldKind::Identifier, true),
        field_is(r@[1], "product_key"@, FieldKind::Identifier, true),
        field_is(r@[2], "payload"@, FieldKind::Text, false),
        field_is(r@[3], "delete_image"@, FieldKind::Text, false),
        field_is(r@[4], "image"@, FieldKind::Binary, false),
{
    let mut v: Vec<FieldSpec> = Vec::new();
    v.push(field("shop_id", FieldKind::Identifier, true));
    v.push(field("product_key", FieldKind::Identifier, true));
    v.push(field("payload", FieldKind::Text, false));
    v.push(field("delete_image", FieldKind::Text, false));
    v.push(field("image", FieldKind::Binary, false));
    v
}

/// The form that uploads an avatar: the image alone.
pub fn avatar_schema() -> (r: Vec<FieldSpec>)
    ensures
        r@.len() == 1,
        field_is(r@[0], "image"@, FieldKind::Binary, true),
{
    let mut v: Vec<FieldSpec> = Vec::new();
    v.push(field("image", FieldKind::Binary, true));
    v
}

/// The form that replaces a product's image: its shop and key, and the image.
pub fn product_image_schema() -> (r: Vec<FieldSpec>)
    ensures
        r@.len() == 3,
        field_is(r@[0], "shop_id"@, FieldKind::Identifier, true),
        field_is(r@[1], "product_key"@, FieldKind::Identifier, true),
        field_is(r@[2], "image"@, FieldKind::Binary, true),
{
    let mut v: Vec<FieldSpec> = Vec::new();
    v.push(field("shop_id", FieldKind::Identifier, true));
    v.push(field("product_key", FieldKind::Identifier, true));
    v.push(field("image", FieldKind::Binary, true));
    v
}

/// The form that changes a profile: optionally a nickname, a new avatar, or a
/// request to drop the avatar (`true`).
pub fn profile_patch_schema() -> (r: Vec<FieldSpec>)
    ensures
        r@.len() == 3,
        field_is(r@[0], "nickname"@, FieldKind::Text, false),
        field_is(r@[1], "avatar"@, FieldKind::Binary, false),
        field_is(r@[2], "delete_avatar"@, FieldKind::Text, false),
{
    let mut v: Vec<FieldSpec> = Vec::new();
    v.push(field("nickname", FieldKind::Text, false));
    v.push(field("avatar", FieldKind::Binary, false));
    v.push(field("delete_avatar", FieldKind::Text, false));
    v
}

/// Where an account's avatar could not be read: try the default avatar if the
/// request asked for it (`Ok`), else fail as not found.
pub fn avatar_fallback(use_default: bool) -> (r: Result<(), Error>)
    ensures
        result_model(r) == (if use_default { Ok::<(), ErrorModel>(()) } else { Err(data_not_found_model("avatar"@)) }),
{
    if use_default {
        Ok(())
    } else {
        Err(Error::data_not_found("avatar"))
    }
}

/// Lets a request on a shop go on only where the backend granted the authority.
pub fn authorize(granted: bool) -> (r: Result<(), Error>)
    ensures
        result_model(r) == (if granted { Ok::<(), ErrorModel>(()) } else { Err(unauthorized_model()) }),
{
    if granted {
        Ok(())
    } else {
        Err(Error::unauthorized())
    }
}

/// What a product change does to the product's image.
#[derive(Debug)]
pub enum ImageAction {
    /// Drop the stored image.
    Delete,
    /// Store these bytes as the image.
    Store(Vec<u8>),
    /// Leave the image as it is.
    Keep,
}

/// What a change does to a stored image: a request to drop it (`true`) wins
/// over a new image; with neither, the image stays.
pub fn image_action(delete_image: Option<&str>, image: Option<Vec<u8>>) -> (r: ImageAction)
    ensures
        match delete_image {
            Some(d) if d@ == "true"@ => r is Delete,
            _ => match image {
                Some(b) => r matches ImageAction::Store(s) && s@ == b@,
                None => r is Keep,
            },
        },
{
    let delete = match delete_image {
        Some(d) => same_text(d, "true"),
        None => false,
    };
    if delete {
        ImageAction::Delete
    } else {
        match image {
            Some(b) => ImageAction::Store(b),
            None => ImageAction::Keep,
        }
    }
}

} // verus!
