//! Keys for the per-archive instance lock.
use crate::domain::archive::{path_components, plain_path};
use crate::text::{hex_text, push_hex};
use std::hash::{Hash, Hasher};
use vstd::prelude::*;
use vstd::string::*;

verus! {

/// Why an archive could not be claimed by this instance.
#[derive(Debug, Clone, PartialEq)]
pub enum InstanceError {
    AlreadyOpen,
    Internal(String),
}

/// The lock key for a path hash: "bit7z_" and the hash in 16 lowercase
/// hexadecimal digits.
pub open spec fn key_text(hash: u64) -> Seq<char> {
    "bit7z_"@ + hex_text(hash as nat, 16)
}

pub fn key_for_hash(hash: u64) -> (r: String)
    ensures
        r@ == key_text(hash),
{
    let mut r = String::from_str("bit7z_");
    push_hex(&mut r, hash, 16);
    r
}

/// The hash of a path, as `Hash::hash` of `std::path::Path` feeds it to a
/// fresh `DefaultHasher`. Every `DefaultHasher::new()` is the same hasher
/// (it is not seeded per process), so the hash depends on the path alone;
/// and since `Hash` agrees with `Path`'s equality, which compares
/// components, plain paths with the same components hash alike.
pub uninterp spec fn path_hash(path: Seq<char>) -> u64;

/// Calls `Hash::hash` of `std::path::Path` with a fresh
/// `std::collections::hash_map::DefaultHasher` and gives back `finish`.
#[verifier::external_body]
fn hash_path(path: &str) -> (r: u64)
    ensures
        r == path_hash(path@),
        forall|q: Seq<char>|
            plain_path(path@) && plain_path(q) && #[trigger] path_components(q) == path_components(path@) ==> r
                == path_hash(q),
{
    let mut hasher = std::collections::hash_map::DefaultHasher::new();
    std::path::Path::new(path).hash(&mut hasher);
    hasher.finish()
}

/// The lock key of an archive path: "bit7z_" and the path's hash in 16
/// lowercase hexadecimal digits, so that equal paths give equal keys, also
/// plain paths that differ as text but have the same components.
pub fn path_key(path: &str) -> (r: String)
    ensures
        r@ == key_text(path_hash(path@)),
        forall|q: Seq<char>|
            plain_path(path@) && plain_path(q) && #[trigger] path_components(q) == path_components(path@) ==> r@
                == key_text(path_hash(q)),
{
    key_for_hash(hash_path(path))
}

} // verus!
