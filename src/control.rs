use vstd::prelude::*;

use crate::clientbound::{cb_frame_error, cb_parse, CBPacket};
use crate::mailbox::{mailbox_pop, Mailbox};
use crate::packet::{DecodeError, EncodeError, Packet};
use crate::sequence::{seq_after, SequenceCounter};
use crate::serverbound::{sb_frame, sb_wf, SBMessage, SBPacket};
use crate::slot::{slot_take, Unreliable};

verus! {

/// Why a message was not queued for sending.
#[derive(Debug, Clone, Copy, PartialEq, Eq, Structural)]
pub enum SendError {
    /// The message cannot be encoded.
    Encode(EncodeError),
    /// The outbound mailbox is full.
    Full,
}

/// The frame that a message sent under sequence number `seq` becomes.
pub open spec fn outgoing_frame(seq: u32, m: SBMessage) -> Seq<u8> {
    sb_frame(Packet { reserved: 0, seq, data: m })
}

/// The sending side of the control task: numbers, encodes and queues messages.
pub struct Sender {
    counter: SequenceCounter,
}

impl View for Sender {
    type V = u32;

    /// The sequence number that the next message will carry.
    closed spec fn view(&self) -> u32 {
        self.counter@
    }
}

impl Sender {
    /// A sender whose first message carries `start`.
    pub fn new(start: u32) -> (r: Self)
        ensures
            r@ == start,
    {
        Sender { counter: SequenceCounter::new(start) }
    }

    /// Encodes `msg` under the next sequence number and queues the frame.
    /// A message that cannot be encoded, or a full mailbox, leaves both the
    /// mailbox and the sequence number as they were.
    pub fn send(&mut self, msg: SBPacket, outbound: &mut Mailbox<Vec<u8>>) -> (r: Result<
        (),
        SendError,
    >)
        requires
            old(outbound).wf(),
        ensures
            final(outbound).wf(),
            final(outbound).capacity() == old(outbound).capacity(),
            r is Ok <==> sb_wf(msg@) && old(outbound)@.len() < old(outbound).capacity(),
            r matches Err(e) ==> e == if !sb_wf(msg@) {
                SendError::Encode(EncodeError::StringTooLong)
            } else {
                SendError::Full
            },
            r is Ok ==> {
                &&& final(self)@ == seq_after(old(self)@)
                &&& final(outbound)@.len() == old(outbound)@.len() + 1
                &&& final(outbound)@.drop_last() == old(outbound)@
                &&& final(outbound)@.last()@ == outgoing_frame(old(self)@, msg@)
            },
            r is Err ==> final(self)@ == old(self)@ && final(outbound)@ == old(outbound)@,
    {
        if outbound.is_full() {
            if let SBPacket::Handshake { firmware, .. } = &msg {
                if firmware.len() > 255 {
                    return Err(SendError::Encode(EncodeError::StringTooLong));
                }
            }
            return Err(SendError::Full);
        }
        let packet = Packet::new(self.counter.peek(), msg);
        match packet.to_bytes() {
            Ok(frame) => {
                let pushed = outbound.try_push(frame);
                assert(pushed is Ok);
                assert(final(outbound)@.drop_last() =~= old(outbound)@);
                self.counter.next();
                Ok(())
            },
            Err(e) => Err(SendError::Encode(e)),
        }
    }

    /// Drains the orientation slot and, where it held a value, sends it as
    /// rotation data of `sensor_id` and `data_type`. Returns whether a value
    /// was waiting; the slot is empty afterwards either way, since a stale
    /// orientation is never worth keeping.
    pub fn send_latest_rotation(
        &mut self,
        sensor_id: u8,
        data_type: u8,
        quat: &mut Unreliable<(u32, u32, u32, u32)>,
        outbound: &mut Mailbox<Vec<u8>>,
    ) -> (r: Result<bool, SendError>)
        requires
            old(outbound).wf(),
        ensures
            final(quat)@ is None,
            final(outbound).wf(),
            final(outbound).capacity() == old(outbound).capacity(),
            old(quat)@ is None ==> r == Ok::<bool, SendError>(false) && final(self)@ == old(self)@
                && final(outbound)@ == old(outbound)@,
            old(quat)@ matches Some(q) ==> {
                &&& (r is Ok <==> old(outbound)@.len() < old(outbound).capacity())
                &&& (r matches Err(e) ==> e == SendError::Full)
                &&& (r is Ok ==> {
                    &&& r == Ok::<bool, SendError>(true)
                    &&& final(self)@ == seq_after(old(self)@)
                    &&& final(outbound)@.drop_last() == old(outbound)@
                    &&& final(outbound)@.last()@ == outgoing_frame(
                        old(self)@,
                        SBMessage::RotationData {
                            sensor_id,
                            data_type,
                            quat: q,
                            calibration_info: 0,
                        },
                    )
                })
                &&& (r is Err ==> final(self)@ == old(self)@ && final(outbound)@ == old(outbound)@)
            },
    {
        match quat.take() {
            None => Ok(false),
            Some(q) => {
                let msg = SBPacket::RotationData { sensor_id, data_type, quat: q, calibration_info: 0 };
                match self.send(msg, outbound) {
                    Ok(()) => Ok(true),
                    Err(e) => Err(e),
                }
            },
        }
    }
}

/// Pops the oldest inbound frame, if any, and decodes it into its sequence
/// number and message. A frame that does not decode is consumed all the same,
/// so one bad frame never blocks the ones behind it.
pub fn receive(inbound: &mut Mailbox<Vec<u8>>) -> (r: Option<Result<(u32, CBPacket), DecodeError>>)
    requires
        old(inbound).wf(),
    ensures
        final(inbound).wf(),
        final(inbound).capacity() == old(inbound).capacity(),
        final(inbound)@ == mailbox_pop(old(inbound)@).0,
        old(inbound)@.len() == 0 ==> r is None,
        old(inbound)@.len() > 0 ==> {
            let b = old(inbound)@[0]@;
            &&& r is Some
            &&& (r matches Some(Err(e)) ==> cb_frame_error(b) == Some(e))
            &&& (r matches Some(Ok(x)) ==> cb_frame_error(b) is None && x == (
            cb_parse(b).seq,
            cb_parse(b).data,
            ))
            &&& (r matches Some(res) ==> (res is Ok <==> cb_frame_error(b) is None))
        },
{
    match inbound.try_pop() {
        None => None,
        Some(frame) => match Packet::<CBPacket>::deserialize_from(frame.as_slice()) {
            Ok(p) => Some(Ok(p.split())),
            Err(e) => Some(Err(e)),
        },
    }
}

} // verus!
