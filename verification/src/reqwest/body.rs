//! The bytes of a response body, held in a shared buffer.

use vstd::prelude::*;
use vstd::utf8::{decode_utf8, valid_utf8};
use bytes::Bytes;
use std::sync::Arc;

verus! {

/// `bytes::Bytes`, an immutable byte buffer that its clones share.
#[verifier::external_type_specification]
#[verifier::external_body]
pub struct ExBytes(bytes::Bytes);

/// The bytes that a buffer holds, in order.
pub uninterp spec fn bytes_content(buffer: Bytes) -> Seq<u8>;

/// Calls `Bytes::copy_from_slice`: the buffer holds a copy of `data`.
#[verifier::external_body]
pub(crate) fn buffer_of(data: &[u8]) -> (buffer: Bytes)
    ensures
        bytes_content(buffer) == data@,
{
    Bytes::copy_from_slice(data)
}

/// Calls `Bytes::clone`: the clone holds the same bytes.
#[verifier::external_body]
pub(crate) fn same_buffer(buffer: &Bytes) -> (copy: Bytes)
    ensures
        bytes_content(copy) == bytes_content(*buffer),
{
    buffer.clone()
}

/// Reads a buffer through `Bytes::deref` into a vector of its bytes.
#[verifier::external_body]
pub(crate) fn buffer_to_vec(buffer: &Bytes) -> (data: Vec<u8>)
    ensures
        data@ == bytes_content(*buffer),
{
    buffer.to_vec()
}

/// Calls `Bytes::eq`: two buffers are equal where they hold the same bytes.
#[verifier::external_body]
pub(crate) fn same_bytes(left: &Bytes, right: &Bytes) -> (same: bool)
    ensures
        same == (bytes_content(*left) == bytes_content(*right)),
{
    left == right
}

/// Calls `Arc::clone`: another handle on the same value.
#[verifier::external_body]
pub(crate) fn share<T>(handle: &Arc<T>) -> (other: Arc<T>)
    ensures
        other == *handle,
{
    Arc::clone(handle)
}

/// Calls `String::from_utf8`: the text that `data` encodes, or `None` where
/// `data` is not valid UTF-8.
#[verifier::external_body]
pub(crate) fn text_of(data: Vec<u8>) -> (text: Option<String>)
    ensures
        text is Some <==> valid_utf8(data@),
        text matches Some(t) ==> t@ == decode_utf8(data@),
{
    match String::from_utf8(data) {
        Ok(text) => Some(text),
        Err(_) => None,
    }
}

} // verus!
