//! Bodies as they travel between the server and its modules, and the
//! protocol sessions.
use vstd::prelude::*;
use bytes::Bytes;

pub mod mqtt;

verus! {

/// A shared, immutable byte buffer of the `bytes` crate.
#[verifier::external_type_specification]
#[verifier::external_body]
pub struct ExBytes(bytes::Bytes);

/// The bytes a `Bytes` buffer holds.
pub uninterp spec fn bytes_content(b: Bytes) -> Seq<u8>;

/// The bytes an optional buffer holds.
pub open spec fn opt_bytes_content(b: Option<Bytes>) -> Option<Seq<u8>> {
    match b {
        Some(b) => Some(bytes_content(b)),
        None => None,
    }
}

/// `Bytes::from(Vec<u8>)` of the `bytes` crate: a buffer that holds the
/// bytes of the vector, in order (it takes over the vector's allocation).
#[verifier::external_body]
pub(crate) fn bytes_from_vec(v: Vec<u8>) -> (b: Bytes)
    ensures
        bytes_content(b) == v@,
{
    Bytes::from(v)
}

} // verus!
