use vstd::prelude::*;

use crate::bytes::{be32, be32_at};

verus! {

/// Why a frame could not be decoded.
#[derive(Debug, Clone, Copy, PartialEq, Eq, Structural)]
pub enum DecodeError {
    /// The type id is not one of the recognized variants.
    UnknownTypeId,
    /// Fewer bytes than the variant's fixed fields need.
    Truncated,
    /// Bytes remain after a variant that has no optional tail.
    TrailingBytes,
}

/// Why a message could not be encoded.
#[derive(Debug, Clone, Copy, PartialEq, Eq, Structural)]
pub enum EncodeError {
    /// A length-prefixed string field holds more than 255 bytes.
    StringTooLong,
}

/// The outer frame: `type_id | reserved | sequence | payload`, the type id
/// being the payload's own.
#[derive(Debug, Clone, PartialEq, Eq)]
pub struct Packet<T> {
    /// Reserved word, zero today; carried through unchanged.
    pub reserved: u32,
    /// Sender-assigned sequence number.
    pub seq: u32,
    /// The message.
    pub data: T,
}

impl<T> Packet<T> {
    /// Wraps `data` under sequence number `seq`, with a zero reserved word.
    pub fn new(seq: u32, data: T) -> (r: Self)
        ensures
            r.seq == seq,
            r.reserved == 0,
            r.data == data,
    {
        Packet { reserved: 0, seq, data }
    }

    /// Takes the frame apart into its sequence number and message.
    pub fn split(self) -> (r: (u32, T))
        ensures
            r.0 == self.seq,
            r.1 == self.data,
    {
        (self.seq, self.data)
    }
}

impl<T: View> View for Packet<T> {
    type V = Packet<T::V>;

    open spec fn view(&self) -> Packet<T::V> {
        Packet { reserved: self.reserved, seq: self.seq, data: self.data@ }
    }
}

/// The three big-endian words that open every frame.
pub open spec fn header(type_id: u32, reserved: u32, seq: u32) -> Seq<u8> {
    be32(type_id) + be32(reserved) + be32(seq)
}

/// The big-endian `u32` at offset `i` of `s` is `x` when those four bytes are `be32(x)`.
pub proof fn lemma_be32_at_of(x: u32, s: Seq<u8>, i: int)
    requires
        0 <= i,
        i + 4 <= s.len(),
        s.subrange(i, i + 4) == be32(x),
    ensures
        be32_at(s, i) == x,
{
    crate::bytes::lemma_be32_read_write(x);
    assert(s[i] == be32(x)[0] && s[i + 1] == be32(x)[1] && s[i + 2] == be32(x)[2] && s[i + 3]
        == be32(x)[3]) by {
        assert(s.subrange(i, i + 4)[0] == s[i]);
        assert(s.subrange(i, i + 4)[1] == s[i + 1]);
        assert(s.subrange(i, i + 4)[2] == s[i + 2]);
        assert(s.subrange(i, i + 4)[3] == s[i + 3]);
    }
}

/// A frame of at least twelve bytes is its own header followed by the rest.
pub proof fn lemma_header_split(b: Seq<u8>)
    requires
        b.len() >= 12,
    ensures
        b == header(be32_at(b, 0), be32_at(b, 4), be32_at(b, 8)) + b.skip(12),
{
    crate::bytes::lemma_be32_write_read(b, 0);
    crate::bytes::lemma_be32_write_read(b, 4);
    crate::bytes::lemma_be32_write_read(b, 8);
    assert(b =~= header(be32_at(b, 0), be32_at(b, 4), be32_at(b, 8)) + b.skip(12));
}

/// Reading the header of `header(..) + rest` gives back its three words and `rest`.
pub proof fn lemma_header_read(type_id: u32, reserved: u32, seq: u32, rest: Seq<u8>)
    ensures
        ({
            let b = header(type_id, reserved, seq) + rest;
            &&& b.len() == 12 + rest.len()
            &&& be32_at(b, 0) == type_id
            &&& be32_at(b, 4) == reserved
            &&& be32_at(b, 8) == seq
            &&& b.skip(12) == rest
        }),
{
    let b = header(type_id, reserved, seq) + rest;
    assert(b.subrange(0, 4) =~= be32(type_id));
    assert(b.subrange(4, 8) =~= be32(reserved));
    assert(b.subrange(8, 12) =~= be32(seq));
    assert(b.skip(12) =~= rest);
    lemma_be32_at_of(type_id, b, 0);
    lemma_be32_at_of(reserved, b, 4);
    lemma_be32_at_of(seq, b, 8);
}

} // verus!
