//! The byte buffers of the `bytes` crate and what the library relies on of them.
//!
//! `Bytes` is an immutable, cheaply clonable buffer; `BytesMut` is a growable
//! one. The verifier does not look inside either: what a buffer holds is named
//! by [`bytes_contents`] and [`buffer_contents`], and every item below states,
//! without proof, how one operation of the crate acts on those contents.

use bytes::BufMut;
use bytes::Bytes;
use bytes::BytesMut;
use vstd::prelude::*;
use vstd::string::StringSliceAdditionalSpecFns;

verus! {

/// `bytes::Bytes`, carried through verified code as an opaque value.
#[verifier::external_type_specification]
#[verifier::external_body]
pub struct ExBytes(Bytes);

/// `bytes::BytesMut`, carried through verified code as an opaque value.
#[verifier::external_type_specification]
#[verifier::external_body]
pub struct ExBytesMut(BytesMut);

/// The bytes that a `Bytes` holds, in order.
pub uninterp spec fn bytes_contents(b: Bytes) -> Seq<u8>;

/// The bytes that a `BytesMut` holds, in order.
pub uninterp spec fn buffer_contents(b: BytesMut) -> Seq<u8>;

/// `Bytes::clone`: the clone is a second handle on the same bytes.
pub assume_specification[ <Bytes as Clone>::clone ](b: &Bytes) -> (r: Bytes)
    ensures
        bytes_contents(r) == bytes_contents(*b),
;

/// `Bytes::from` on a static string: the buffer holds the string's UTF-8
/// bytes.
pub assume_specification[ <Bytes as From<&'static str>>::from ](text: &'static str) -> (r: Bytes)
    ensures
        bytes_contents(r) == text.spec_bytes(),
;

/// `BytesMut::from` on a string: the buffer holds a copy of the string's UTF-8
/// bytes.
pub assume_specification<'a>[ <BytesMut as From<&'a str>>::from ](text: &'a str) -> (r: BytesMut)
    ensures
        buffer_contents(r) == text.spec_bytes(),
;

/// `BytesMut::freeze`: the immutable buffer holds what the growable one held.
pub assume_specification[ BytesMut::freeze ](buf: BytesMut) -> (r: Bytes)
    ensures
        bytes_contents(r) == buffer_contents(buf),
;

/// `BufMut::put` of a byte slice into a `BytesMut`: the slice is appended, the
/// buffer growing as needed. The call panics when the buffer cannot take the
/// slice, which for a `BytesMut` is when the new length would pass
/// `isize::MAX`; the precondition leaves that out.
#[verifier::external_body]
pub(crate) fn put_slice(buf: &mut BytesMut, src: &[u8])
    requires
        buffer_contents(*old(buf)).len() + src@.len() <= isize::MAX,
    ensures
        buffer_contents(*final(buf)) == buffer_contents(*old(buf)) + src@,
{
    buf.put(src);
}

} // verus!
