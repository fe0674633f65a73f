//! The byte buffers behind the memory regions.
//!
//! The regions are `bytes::BytesMut` values. Nothing in this file is proved:
//! each item states what the `bytes` crate, or a slice method of the standard
//! library, does, and the rest of the library is verified against these
//! statements.

use bytes::BytesMut;
use std::ops::{Deref, DerefMut};
use vstd::prelude::*;

verus! {

/// `bytes::BytesMut`, as an opaque type: what a value of it holds is known
/// only through `buffer_bytes`.
#[verifier::external_type_specification]
#[verifier::external_body]
pub struct ExBytesMut(bytes::BytesMut);

/// The bytes that a buffer holds, first to last.
pub uninterp spec fn buffer_bytes(buf: BytesMut) -> Seq<u8>;

/// The sixteen lower-case hexadecimal digits, by value.
pub open spec fn hex_digit(nibble: int) -> char {
    seq!['0', '1', '2', '3', '4', '5', '6', '7', '8', '9', 'a', 'b', 'c', 'd', 'e', 'f'][nibble]
}

/// The lower-case hexadecimal text of `bytes`: two digits for each byte, the
/// high nibble first, nothing in between.
pub open spec fn lower_hex(bytes: Seq<u8>) -> Seq<char> {
    Seq::new(
        2 * bytes.len(),
        |i: int|
            if i % 2 == 0 {
                hex_digit(bytes[i / 2] as int / 16)
            } else {
                hex_digit(bytes[i / 2] as int % 16)
            },
    )
}

/// `BytesMut::with_capacity` returns a buffer that holds no bytes, whatever
/// the capacity asked for.
pub assume_specification[ bytes::BytesMut::with_capacity ](capacity: usize) -> (buf: BytesMut)
    requires
        capacity <= isize::MAX,
    ensures
        buffer_bytes(buf) == Seq::<u8>::empty(),
;

/// `BytesMut::zeroed` returns a buffer of `len` bytes, each of them zero.
pub assume_specification[ bytes::BytesMut::zeroed ](len: usize) -> (buf: BytesMut)
    requires
        len <= isize::MAX,
    ensures
        buffer_bytes(buf) == Seq::new(len as nat, |i: int| 0u8),
;

/// `BytesMut::resize` cuts the buffer down to its first `new_len` bytes, or
/// extends it to `new_len` bytes by appending copies of `value`.
pub assume_specification[ bytes::BytesMut::resize ](buf: &mut BytesMut, new_len: usize, value: u8)
    requires
        new_len <= isize::MAX,
    ensures
        buffer_bytes(*final(buf)) == (if new_len <= buffer_bytes(*old(buf)).len() {
            buffer_bytes(*old(buf)).take(new_len as int)
        } else {
            buffer_bytes(*old(buf)) + Seq::new(
                (new_len - buffer_bytes(*old(buf)).len()) as nat,
                |i: int| value,
            )
        }),
;

/// `<[T]>::copy_from_slice` overwrites the destination with the source. It
/// panics unless the two are of one length.
pub assume_specification<T: Copy>[ <[T]>::copy_from_slice ](dst: &mut [T], src: &[T])
    requires
        old(dst)@.len() == src@.len(),
    ensures
        final(dst)@ == src@,
;

/// `Deref::deref` of a `BytesMut` returns the slice of the bytes that it
/// holds.
#[verifier::external_body]
pub(crate) fn as_slice(buf: &BytesMut) -> (bytes: &[u8])
    ensures
        bytes@ == buffer_bytes(*buf),
{
    buf.deref()
}

/// `DerefMut::deref_mut` of a `BytesMut` returns the slice of the bytes that
/// it holds; what the slice holds when the borrow ends is what the buffer
/// holds from then on.
#[verifier::external_body]
pub(crate) fn as_mut_slice(buf: &mut BytesMut) -> (bytes: &mut [u8])
    ensures
        bytes@ == buffer_bytes(*old(buf)),
        buffer_bytes(*final(buf)) == final(bytes)@,
{
    buf.deref_mut()
}

/// `LowerHex::fmt` of a `BytesMut`, reached through `format!`, writes every
/// byte that the buffer holds as two lower-case hexadecimal digits.
#[verifier::external_body]
pub(crate) fn to_lower_hex(buf: &BytesMut) -> (text: String)
    ensures
        text@ == lower_hex(buffer_bytes(*buf)),
{
    format!("{:02x}", buf)
}

} // verus!
