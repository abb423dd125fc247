use vstd::prelude::*;
use crate::ident::{uuid_text, hyphenated_text};

verus! {

pub const PRODUCT_IMAGE: &'static str = "image.jpg";
pub const AVATAR_IMAGE: &'static str = "avatar.jpg";

/// `<root>/shop/<shop>/product/<product>`: the directory of a product's assets.
pub open spec fn product_dir_text(root: Seq<char>, shop: u128, product: u128) -> Seq<char> {
    root + "/shop/"@ + hyphenated_text(shop) + "/product/"@ + hyphenated_text(product)
}

/// `<root>/user/<user>`: the directory of an account's assets.
pub open spec fn user_dir_text(root: Seq<char>, user: u128) -> Seq<char> {
    root + "/user/"@ + hyphenated_text(user)
}

pub open spec fn default_avatar_text(root: Seq<char>) -> Seq<char> {
    root + "/default/user/avatar.jpg"@
}

pub fn product_dir(root: &str, shop: u128, product: u128) -> (r: String)
    ensures
        r@ == product_dir_text(root@, shop, product),
{
    let mut s: String = root.to_owned();
    s.append("/shop/");
    let a = uuid_text(shop);
    s.append(a.as_str());
    s.append("/product/");
    let b = uuid_text(product);
    s.append(b.as_str());
    s
}

pub fn user_dir(root: &str, user: u128) -> (r: String)
    ensures
        r@ == user_dir_text(root@, user),
{
    let mut s: String = root.to_owned();
    s.append("/user/");
    let a = uuid_text(user);
    s.append(a.as_str());
    s
}

/// The path of the file `name` in the directory `dir`.
pub fn file_in(dir: &str, name: &str) -> (r: String)
    ensures
        r@ == dir@ + "/"@ + name@,
{
    let mut s: String = dir.to_owned();
    s.append("/");
    s.append(name);
    s
}

/// The avatar shown for an account that has none of its own.
pub fn default_avatar(root: &str) -> (r: String)
    ensures
        r@ == default_avatar_text(root@),
{
    let mut s: String = root.to_owned();
    s.append("/default/user/avatar.jpg");
    s
}

} // verus!
