//! The owned byte spans that hold parameter values: `bytes::Bytes`.

use bytes::Bytes;
use core::ops::Deref;
use vstd::prelude::*;

verus! {

#[verifier::external_type_specification]
#[verifier::external_body]
pub struct ExBytes(bytes::Bytes);

/// The bytes that a span holds, in order.
pub uninterp spec fn span_bytes(span: Bytes) -> Seq<u8>;

/// `Bytes::copy_from_slice` makes a span that holds a copy of the slice.
pub assume_specification[ Bytes::copy_from_slice ](data: &[u8]) -> (span: Bytes)
    ensures
        span_bytes(span) == data@,
;

/// `Bytes::len` is the number of bytes that the span holds.
pub assume_specification[ Bytes::len ](span: &Bytes) -> (len: usize)
    ensures
        len == span_bytes(*span).len(),
;

/// Dereferencing a span gives its bytes as a slice.
pub assume_specification<'a>[ <Bytes as Deref>::deref ](span: &'a Bytes) -> (slice: &'a [u8])
    ensures
        slice@ == span_bytes(*span),
;

/// Cloning a span gives a span that holds the same bytes.
pub assume_specification[ <Bytes as Clone>::clone ](span: &Bytes) -> (copy: Bytes)
    ensures
        span_bytes(copy) == span_bytes(*span),
;

} // verus!
