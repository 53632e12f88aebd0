use vstd::prelude::*;

use crate::bytes::{be32_at, push_be32, read_be32};
use crate::packet::{header, lemma_header_read, lemma_header_split, DecodeError, Packet};

verus! {

/// Type id of the host's `Heartbeat`.
pub const TYPE_CB_HEARTBEAT: u32 = 1;

/// Messages from the host to the tracker.
#[derive(Debug, Clone, Copy, PartialEq, Eq, Structural)]
pub enum CBPacket {
    Heartbeat,
}

impl View for CBPacket {
    type V = CBPacket;

    open spec fn view(&self) -> CBPacket {
        *self
    }
}

/// The wire discriminant of each variant.
pub open spec fn cb_type_id(m: CBPacket) -> u32 {
    match m {
        CBPacket::Heartbeat => TYPE_CB_HEARTBEAT,
    }
}

/// The payload bytes of a message.
pub open spec fn cb_payload(m: CBPacket) -> Seq<u8> {
    match m {
        CBPacket::Heartbeat => Seq::empty(),
    }
}

/// The whole frame of a packet.
pub open spec fn cb_frame(p: Packet<CBPacket>) -> Seq<u8> {
    header(cb_type_id(p.data), p.reserved, p.seq) + cb_payload(p.data)
}

/// The error that decoding `b` reports, or `None` where `b` is a whole frame.
pub open spec fn cb_frame_error(b: Seq<u8>) -> Option<DecodeError> {
    if b.len() < 4 {
        Some(DecodeError::Truncated)
    } else if be32_at(b, 0) != TYPE_CB_HEARTBEAT {
        Some(DecodeError::UnknownTypeId)
    } else if b.len() < 12 {
        Some(DecodeError::Truncated)
    } else if b.len() > 12 {
        Some(DecodeError::TrailingBytes)
    } else {
        None
    }
}

/// The packet that a whole frame `b` holds.
pub open spec fn cb_parse(b: Seq<u8>) -> Packet<CBPacket> {
    Packet { reserved: be32_at(b, 4), seq: be32_at(b, 8), data: CBPacket::Heartbeat }
}

impl Packet<CBPacket> {
    /// Encodes the whole frame; no host message can fail to encode.
    pub fn to_bytes(&self) -> (r: Result<Vec<u8>, crate::packet::EncodeError>)
        ensures
            r matches Ok(v) && v@ == cb_frame(self@),
    {
        let mut out: Vec<u8> = Vec::new();
        match self.data {
            CBPacket::Heartbeat => push_be32(&mut out, TYPE_CB_HEARTBEAT),
        }
        push_be32(&mut out, self.reserved);
        push_be32(&mut out, self.seq);
        assert(out@ =~= cb_frame(self@));
        Ok(out)
    }

    /// Decodes one whole frame. It fails exactly where `cb_frame_error` names
    /// an error, and otherwise returns the packet that the bytes hold.
    pub fn deserialize_from(b: &[u8]) -> (r: Result<Packet<CBPacket>, DecodeError>)
        ensures
            r is Ok <==> cb_frame_error(b@) is None,
            r matches Err(e) ==> cb_frame_error(b@) == Some(e),
            r matches Ok(p) ==> p@ == cb_parse(b@) && cb_frame(p@) == b@,
    {
        proof {
            if cb_frame_error(b@) is None {
                lemma_cb_parse_frames(b@);
            }
        }
        if b.len() < 4 {
            return Err(DecodeError::Truncated);
        }
        if read_be32(b, 0) != TYPE_CB_HEARTBEAT {
            return Err(DecodeError::UnknownTypeId);
        }
        if b.len() < 12 {
            return Err(DecodeError::Truncated);
        }
        if b.len() > 12 {
            return Err(DecodeError::TrailingBytes);
        }
        Ok(Packet { reserved: read_be32(b, 4), seq: read_be32(b, 8), data: CBPacket::Heartbeat })
    }
}

/// Round trip: the frame of every host packet decodes without error, and back
/// to that same packet.
pub proof fn lemma_cb_round_trip(p: Packet<CBPacket>)
    ensures
        cb_frame_error(cb_frame(p)) is None,
        cb_parse(cb_frame(p)) == p,
{
    lemma_header_read(cb_type_id(p.data), p.reserved, p.seq, cb_payload(p.data));
}


/// Every input that decodes without error is exactly the frame of the packet
/// that it decodes to.
pub proof fn lemma_cb_parse_frames(b: Seq<u8>)
    requires
        cb_frame_error(b) is None,
    ensures
        cb_frame(cb_parse(b)) == b,
{
    lemma_header_split(b);
    assert(b.skip(12) =~= Seq::<u8>::empty());
    assert(cb_frame(cb_parse(b)) =~= b);
}

} // verus!
