//! The byte payload of a finished conversion.
//!
//! The encoded image is handed to the caller as a [`bytes::Bytes`], a cheaply
//! clonable shared buffer.

use bytes::Bytes;
use vstd::prelude::*;

verus! {

/// Declares `bytes::Bytes` to the verifier as an opaque type; nothing is
/// claimed of it here.
#[verifier::external_type_specification]
#[verifier::external_body]
pub struct ExBytes(bytes::Bytes);

/// The bytes that a `bytes::Bytes` buffer holds, in order: what its `as_ref`
/// slice shows.
pub uninterp spec fn bytes_contents(buffer: Bytes) -> Seq<u8>;

/// Wraps `Bytes::from(Vec<u8>)`: the buffer takes over the vector's storage
/// and holds exactly the vector's bytes, in the same order.
#[verifier::external_body]
pub(crate) fn bytes_from_vec(data: Vec<u8>) -> (buffer: Bytes)
    ensures
        bytes_contents(buffer) == data@,
{
    Bytes::from(data)
}

} // verus!
