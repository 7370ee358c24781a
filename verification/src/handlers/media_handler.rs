//! Uploads: every upload gets a key of its own in the object store.

use crate::ids::{format_uuid, hyphenated, Id};
use vstd::prelude::*;
use vstd::string::StringExecFns;

verus! {

/// For how many seconds a link for an upload can be used.
pub const UPLOAD_URL_LIFETIME: u64 = 300;

/// The key under which the upload with identifier `id` is stored.
pub open spec fn upload_key(id: Id) -> Seq<char> {
    "uploads/"@ + hyphenated(id) + ".jpg"@
}

/// Calls `uuid::Uuid::new_v4` and takes the value of the UUID it returns.
///
/// Trusted, with nothing promised of the result: it is drawn at random.
#[verifier::external_body]
fn random_uuid() -> (id: Id) {
    uuid::Uuid::new_v4().as_u128()
}

/// The key for the upload with identifier `id`.
pub fn key_for_upload(id: Id) -> (key: String)
    ensures
        key@ == upload_key(id),
{
    let mut key = String::new();
    key.append("uploads/");
    key.append(format_uuid(id).as_str());
    key.append(".jpg");
    assert(key@ =~= upload_key(id));
    key
}

/// A key for a new upload, drawn at random.
pub fn new_upload_key() -> (key: String)
    ensures
        exists|id: Id| key@ == upload_key(id),
{
    key_for_upload(random_uuid())
}

} // verus!
