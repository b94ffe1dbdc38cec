//! Byte buffers of the `bytes` crate, as the transport hands them over and
//! takes them.
//!
//! Nothing here is proved: the items state what the `bytes` crate does, and
//! the rest of the library is verified against these statements.

use vstd::prelude::*;
use bytes::Bytes;

verus! {

/// `bytes::Bytes`: a shared, immutable run of bytes. Its fields are hidden.
#[verifier::external_type_specification]
#[verifier::external_body]
pub struct ExBytes(Bytes);

/// The bytes that a `Bytes` holds, in order.
pub uninterp spec fn bytes_contents(buffer: Bytes) -> Seq<u8>;

/// `Bytes::len` returns the number of bytes that the buffer holds.
pub assume_specification[ Bytes::len ](buffer: &Bytes) -> (n: usize)
    ensures
        n == bytes_contents(*buffer).len(),
;

/// `Bytes::from` for a `Vec<u8>` takes the vector over: the buffer holds the
/// vector's bytes, in the vector's order.
#[verifier::external_body]
pub(crate) fn bytes_from_vec(data: Vec<u8>) -> (buffer: Bytes)
    ensures
        bytes_contents(buffer) == data@,
{
    Bytes::from(data)
}

} // verus!
