//! Payloads: immutable byte strings of the `bytes` crate.

use crate::text::digit_char;
use bytes::Bytes;
use vstd::prelude::*;

verus! {

#[verifier::external_type_specification]
#[verifier::external_body]
pub struct ExBytes(bytes::Bytes);

/// The bytes that a payload holds.
pub uninterp spec fn payload(b: Bytes) -> Seq<u8>;

/// `Bytes::copy_from_slice`: a payload that holds a copy of `data`.
#[verifier::external_body]
pub(crate) fn payload_copy(data: &[u8]) -> (r: Bytes)
    ensures
        payload(r) == data@,
{
    Bytes::copy_from_slice(data)
}

/// `Bytes::new`: the empty payload.
#[verifier::external_body]
pub(crate) fn payload_empty() -> (r: Bytes)
    ensures
        payload(r) == Seq::<u8>::empty(),
{
    Bytes::new()
}

/// `Bytes::len`: how many bytes a payload holds.
#[verifier::external_body]
pub(crate) fn payload_len(b: &Bytes) -> (r: usize)
    ensures
        r == payload(*b).len(),
{
    b.len()
}

/// `Bytes::clone`: a second handle on the same bytes.
#[verifier::external_body]
pub(crate) fn payload_clone(b: &Bytes) -> (r: Bytes)
    ensures
        payload(r) == payload(*b),
{
    b.clone()
}

/// `Bytes::slice` from an offset to the end, which panics where the offset is past the end.
#[verifier::external_body]
pub(crate) fn payload_tail(b: &Bytes, from: usize) -> (r: Bytes)
    requires
        from <= payload(*b).len(),
    ensures
        payload(r) == payload(*b).skip(from as int),
{
    b.slice(from..)
}

/// How a byte is written in a byte string literal: printable ASCII stands for itself, but for the
/// backslash and the quote.
pub open spec fn byte_text(b: u8) -> Seq<char> {
    if b == 0x0a {
        seq!['\\', 'n']
    } else if b == 0x0d {
        seq!['\\', 'r']
    } else if b == 0x09 {
        seq!['\\', 't']
    } else if b == 0x5c || b == 0x22 {
        seq!['\\', b as char]
    } else if b == 0x00 {
        seq!['\\', '0']
    } else if 0x20 <= b < 0x7f {
        seq![b as char]
    } else {
        seq!['\\', 'x', digit_char(b as int / 16), digit_char(b as int % 16)]
    }
}

/// The bytes, written one after the other as in a byte string literal.
pub open spec fn bytes_text(s: Seq<u8>) -> Seq<char>
    decreases s.len(),
{
    if s.len() == 0 {
        Seq::empty()
    } else {
        bytes_text(s.drop_last()) + byte_text(s.last())
    }
}

/// `Bytes as Debug`: the payload as a byte string literal.
#[verifier::external_body]
pub(crate) fn payload_text(b: &Bytes) -> (r: String)
    ensures
        r@ == seq!['b', '"'] + bytes_text(payload(*b)) + seq!['"'],
{
    format!("{:?}", b)
}

/// Bytes are written one by one: those of two parts are written as the one and then the other.
pub proof fn law_bytes_are_written_one_by_one(a: Seq<u8>, b: Seq<u8>)
    ensures
        bytes_text(a + b) == bytes_text(a) + bytes_text(b),
        bytes_text(a).len() >= a.len(),
    decreases b.len(), a.len(),
{
    if b.len() > 0 {
        law_bytes_are_written_one_by_one(a, b.drop_last());
        assert((a + b).drop_last() =~= a + b.drop_last());
        assert(bytes_text(a + b) =~= bytes_text(a) + bytes_text(b));
    } else {
        assert(a + b =~= a);
        assert(bytes_text(a + b) =~= bytes_text(a) + bytes_text(b));
        if a.len() > 0 {
            law_bytes_are_written_one_by_one(a.drop_last(), b);
        }
    }
}

} // verus!
