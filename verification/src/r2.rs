//! Where the picture is stored in the R2 bucket and where it can be seen.

use vstd::prelude::*;
use vstd::string::*;

verus! {

broadcast use vstd::string::group_string_axioms;

/// The content type of the stored picture.
pub const IMAGE_CONTENT_TYPE: &'static str = "image/png";

/// The object key of a day's picture.
pub open spec fn image_key_text(date_iso: Seq<char>) -> Seq<char> {
    "menu-"@ + date_iso + ".png"@
}

/// The public URL of an object: the base, a slash, the key.
pub open spec fn public_url_text(base: Seq<char>, key: Seq<char>) -> Seq<char> {
    base + "/"@ + key
}

/// The object key of the picture for the day `date_iso`.
pub fn image_key(date_iso: &str) -> (res: String)
    ensures
        res@ == image_key_text(date_iso@),
{
    let mut k = String::from_str("menu-");
    k.append(date_iso);
    k.append(".png");
    k
}

/// The public URL of the object `key` under `base`.
pub fn public_url(base: &str, key: &str) -> (res: String)
    ensures
        res@ == public_url_text(base@, key@),
{
    let mut u = String::from_str(base);
    u.append("/");
    u.append(key);
    u
}

} // verus!
