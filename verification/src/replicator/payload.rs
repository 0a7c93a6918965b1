//! Reference-counted payloads, as the `bytes` crate provides them.

use vstd::prelude::*;

verus! {

/// The payload type of the `bytes` crate. Its contents are named by [`contents`].
#[verifier::external_type_specification]
#[verifier::external_body]
pub struct ExBytes(bytes::Bytes);

/// The bytes that a `bytes::Bytes` value holds.
pub uninterp spec fn contents(b: bytes::Bytes) -> Seq<u8>;

/// Calls `bytes::Bytes::copy_from_slice`: the new value holds a copy of `data`.
#[verifier::external_body]
pub(crate) fn from_slice(data: &[u8]) -> (b: bytes::Bytes)
    ensures
        contents(b) == data@,
{
    bytes::Bytes::copy_from_slice(data)
}

/// Calls `bytes::Bytes::from` on a vector: the new value holds the bytes of `data`.
#[verifier::external_body]
pub(crate) fn from_vec(data: Vec<u8>) -> (b: bytes::Bytes)
    ensures
        contents(b) == data@,
{
    bytes::Bytes::from(data)
}

/// Calls `bytes::Bytes::clone`: the clone shares the contents of `b`.
#[verifier::external_body]
pub(crate) fn share(b: &bytes::Bytes) -> (c: bytes::Bytes)
    ensures
        contents(c) == contents(*b),
{
    b.clone()
}

/// Calls `bytes::Bytes::to_vec`, which copies the contents of `b` out of it.
#[verifier::external_body]
pub(crate) fn to_vec(b: &bytes::Bytes) -> (v: Vec<u8>)
    ensures
        v@ == contents(*b),
{
    b.to_vec()
}

} // verus!
