//! The guard on the size of keys.
use vstd::prelude::*;
use vstd::utf8::encode_utf8;

verus! {

/// The largest key that a server takes: 512 MiB.
pub const MAX_KEY_SIZE: usize = 536870912;

/// True when a key of these bytes is within the size limit.
pub open spec fn key_fits(key: Seq<u8>) -> bool {
    key.len() <= MAX_KEY_SIZE
}

/// Tells whether a key of these bytes is within the size limit.
pub fn is_valid_key(key: &[u8]) -> (r: bool)
    ensures
        r == key_fits(key@),
{
    key.len() <= MAX_KEY_SIZE
}

/// Hands `key` back. A key over the size limit is a programming error: it
/// must not reach this function.
pub fn validate_key(key: String) -> (r: String)
    requires
        key_fits(encode_utf8(key@)),
    ensures
        r == key,
{
    key
}

} // verus!
