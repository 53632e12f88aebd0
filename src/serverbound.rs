use vstd::prelude::*;

use crate::bytes::{be32, be32_at, lemma_be32_write_read, push_be32, read_be32};
use crate::packet::{
    header, lemma_be32_at_of, lemma_header_read, lemma_header_split, DecodeError, EncodeError, Packet,
};

verus! {

/// Type id of `Heartbeat`.
pub const TYPE_HEARTBEAT: u32 = 1;
/// Type id of `Handshake`.
pub const TYPE_HANDSHAKE: u32 = 3;
/// Type id of `Acceleration`.
pub const TYPE_ACCELERATION: u32 = 4;
/// Type id of `Ping`.
pub const TYPE_PING: u32 = 10;
/// Type id of `SensorInfo`.
pub const TYPE_SENSOR_INFO: u32 = 15;
/// Type id of `RotationData`.
pub const TYPE_ROTATION_DATA: u32 = 17;

/// Messages from the tracker to the host.
///
/// Floating-point quantities travel as their IEEE-754 single-precision bit
/// patterns (`f32::to_bits`).
#[derive(Debug, PartialEq, Eq)]
#[allow(inconsistent_fields)]
pub enum SBPacket {
    /// Keep-alive; no fields.
    Heartbeat,
    /// Linear acceleration, with the sensor it came from where known.
    Acceleration { vector: (u32, u32, u32), sensor_id: Option<u8> },
    /// Device description sent on connecting: board, sensor and firmware.
    Handshake {
        board: u8,
        imu: u8,
        mcu_type: u8,
        imu_info: (u8, u8, u8),
        build: u8,
        firmware: Vec<u8>,
        mac_address: [u8; 6],
    },
    /// Ping carrying an id.
    Ping { id: u32 },
    /// State of one sensor.
    SensorInfo { sensor_id: u8, sensor_status: u8, sensor_type: u8 },
    /// Orientation of one sensor as a quaternion in (x, y, z, w) order.
    RotationData { sensor_id: u8, data_type: u8, quat: (u32, u32, u32, u32), calibration_info: u8 },
}

/// The value of an `SBPacket`, with byte strings as sequences.
#[allow(inconsistent_fields)]
pub enum SBMessage {
    Heartbeat,
    Acceleration { vector: (u32, u32, u32), sensor_id: Option<u8> },
    Handshake {
        board: u8,
        imu: u8,
        mcu_type: u8,
        imu_info: (u8, u8, u8),
        build: u8,
        firmware: Seq<u8>,
        mac_address: Seq<u8>,
    },
    Ping { id: u32 },
    SensorInfo { sensor_id: u8, sensor_status: u8, sensor_type: u8 },
    RotationData { sensor_id: u8, data_type: u8, quat: (u32, u32, u32, u32), calibration_info: u8 },
}

impl View for SBPacket {
    type V = SBMessage;

    open spec fn view(&self) -> SBMessage {
        match self {
            SBPacket::Heartbeat => SBMessage::Heartbeat,
            SBPacket::Acceleration { vector, sensor_id } => SBMessage::Acceleration {
                vector: *vector,
                sensor_id: *sensor_id,
            },
            SBPacket::Handshake {
                board,
                imu,
                mcu_type,
                imu_info,
                build,
                firmware,
                mac_address,
            } => SBMessage::Handshake {
                board: *board,
                imu: *imu,
                mcu_type: *mcu_type,
                imu_info: *imu_info,
                build: *build,
                firmware: firmware@,
                mac_address: mac_address@,
            },
            SBPacket::Ping { id } => SBMessage::Ping { id: *id },
            SBPacket::SensorInfo { sensor_id, sensor_status, sensor_type } => SBMessage::SensorInfo {
                sensor_id: *sensor_id,
                sensor_status: *sensor_status,
                sensor_type: *sensor_type,
            },
            SBPacket::RotationData { sensor_id, data_type, quat, calibration_info } =>
                SBMessage::RotationData {
                sensor_id: *sensor_id,
                data_type: *data_type,
                quat: *quat,
                calibration_info: *calibration_info,
            },
        }
    }
}

/// The message can be put on the wire: its string fits a one-byte length and
/// the address has six bytes.
pub open spec fn sb_wf(m: SBMessage) -> bool {
    match m {
        SBMessage::Handshake { firmware, mac_address, .. } => firmware.len() <= 255
            && mac_address.len() == 6,
        _ => true,
    }
}

/// The wire discriminant of each variant.
pub open spec fn sb_type_id(m: SBMessage) -> u32 {
    match m {
        SBMessage::Heartbeat => TYPE_HEARTBEAT,
        SBMessage::Acceleration { .. } => TYPE_ACCELERATION,
        SBMessage::Handshake { .. } => TYPE_HANDSHAKE,
        SBMessage::Ping { .. } => TYPE_PING,
        SBMessage::SensorInfo { .. } => TYPE_SENSOR_INFO,
        SBMessage::RotationData { .. } => TYPE_ROTATION_DATA,
    }
}

/// An optional trailing byte: nothing when absent.
pub open spec fn opt_byte(o: Option<u8>) -> Seq<u8> {
    match o {
        Some(x) => seq![x],
        None => Seq::empty(),
    }
}

/// The payload bytes of a message, fields in declared order.
pub open spec fn sb_payload(m: SBMessage) -> Seq<u8> {
    match m {
        SBMessage::Heartbeat => Seq::empty(),
        SBMessage::Acceleration { vector, sensor_id } => be32(vector.0) + be32(vector.1) + be32(
            vector.2,
        ) + opt_byte(sensor_id),
        SBMessage::Handshake { board, imu, mcu_type, imu_info, build, firmware, mac_address } =>
            seq![
            board,
            imu,
            mcu_type,
            imu_info.0,
            imu_info.1,
            imu_info.2,
            build,
            firmware.len() as u8,
        ] + firmware + mac_address,
        SBMessage::Ping { id } => be32(id),
        SBMessage::SensorInfo { sensor_id, sensor_status, sensor_type } => seq![
            sensor_id,
            sensor_status,
            sensor_type,
        ],
        SBMessage::RotationData { sensor_id, data_type, quat, calibration_info } => seq![
            sensor_id,
            data_type,
        ] + be32(quat.0) + be32(quat.1) + be32(quat.2) + be32(quat.3) + seq![calibration_info],
    }
}

/// The whole frame of a packet.
pub open spec fn sb_frame(p: Packet<SBMessage>) -> Seq<u8> {
    header(sb_type_id(p.data), p.reserved, p.seq) + sb_payload(p.data)
}

/// Appends the payload bytes of a well-formed message.
fn encode_payload(m: &SBPacket, out: &mut Vec<u8>)
    requires
        sb_wf(m@),
    ensures
        final(out)@ == old(out)@ + sb_payload(m@),
{
    match m {
        SBPacket::Heartbeat => {
            assert(final(out)@ =~= old(out)@ + sb_payload(m@));
        },
        SBPacket::Acceleration { vector, sensor_id } => {
            push_be32(out, vector.0);
            push_be32(out, vector.1);
            push_be32(out, vector.2);
            match sensor_id {
                Some(s) => out.push(*s),
                None => {},
            }
            assert(final(out)@ =~= old(out)@ + sb_payload(m@));
        },
        SBPacket::Handshake { board, imu, mcu_type, imu_info, build, firmware, mac_address } => {
            out.push(*board);
            out.push(*imu);
            out.push(*mcu_type);
            out.push(imu_info.0);
            out.push(imu_info.1);
            out.push(imu_info.2);
            out.push(*build);
            out.push(firmware.len() as u8);
            let ghost head = out@;
            let mut i: usize = 0;
            while i < firmware.len()
                invariant
                    i <= firmware@.len(),
                    out@ == head + firmware@.subrange(0, i as int),
                decreases firmware@.len() - i,
            {
                out.push(firmware[i]);
                i += 1;
                assert(out@ =~= head + firmware@.subrange(0, i as int));
            }
            let ghost mid = out@;
            let mut k: usize = 0;
            while k < 6
                invariant
                    k <= 6,
                    mac_address@.len() == 6,
                    out@ == mid + mac_address@.subrange(0, k as int),
                decreases 6 - k,
            {
                out.push(mac_address[k]);
                k += 1;
                assert(out@ =~= mid + mac_address@.subrange(0, k as int));
            }
            assert(firmware@.subrange(0, firmware@.len() as int) =~= firmware@);
            assert(mac_address@.subrange(0, 6) =~= mac_address@);
            assert(final(out)@ =~= old(out)@ + sb_payload(m@));
        },
        SBPacket::Ping { id } => {
            push_be32(out, *id);
        },
        SBPacket::SensorInfo { sensor_id, sensor_status, sensor_type } => {
            out.push(*sensor_id);
            out.push(*sensor_status);
            out.push(*sensor_type);
            assert(final(out)@ =~= old(out)@ + sb_payload(m@));
        },
        SBPacket::RotationData { sensor_id, data_type, quat, calibration_info } => {
            out.push(*sensor_id);
            out.push(*data_type);
            push_be32(out, quat.0);
            push_be32(out, quat.1);
            push_be32(out, quat.2);
            push_be32(out, quat.3);
            out.push(*calibration_info);
            assert(final(out)@ =~= old(out)@ + sb_payload(m@));
        },
    }
}

/// The wire discriminant of a message.
pub fn type_id(m: &SBPacket) -> (r: u32)
    ensures
        r == sb_type_id(m@),
{
    match m {
        SBPacket::Heartbeat => TYPE_HEARTBEAT,
        SBPacket::Acceleration { .. } => TYPE_ACCELERATION,
        SBPacket::Handshake { .. } => TYPE_HANDSHAKE,
        SBPacket::Ping { .. } => TYPE_PING,
        SBPacket::SensorInfo { .. } => TYPE_SENSOR_INFO,
        SBPacket::RotationData { .. } => TYPE_ROTATION_DATA,
    }
}

impl Packet<SBPacket> {
    /// Encodes the whole frame; fails only on a string too long for its
    /// one-byte length prefix.
    pub fn to_bytes(&self) -> (r: Result<Vec<u8>, EncodeError>)
        ensures
            r is Ok <==> sb_wf(self.data@),
            r matches Ok(v) ==> v@ == sb_frame(self@),
            r matches Err(e) ==> e == EncodeError::StringTooLong,
    {
        match &self.data {
            SBPacket::Handshake { firmware, .. } => {
                if firmware.len() > 255 {
                    return Err(EncodeError::StringTooLong);
                }
            },
            _ => {},
        }
        let mut out: Vec<u8> = Vec::new();
        push_be32(&mut out, type_id(&self.data));
        push_be32(&mut out, self.reserved);
        push_be32(&mut out, self.seq);
        encode_payload(&self.data, &mut out);
        assert(out@ =~= sb_frame(self@));
        Ok(out)
    }
}


/// The type id names one of the variants.
pub open spec fn sb_known(id: u32) -> bool {
    id == TYPE_HEARTBEAT || id == TYPE_ACCELERATION || id == TYPE_HANDSHAKE || id == TYPE_PING
        || id == TYPE_SENSOR_INFO || id == TYPE_ROTATION_DATA
}

/// Payload bytes that a variant's fixed fields take, before any string body.
pub open spec fn sb_fixed_payload(id: u32) -> int {
    if id == TYPE_ACCELERATION {
        12
    } else if id == TYPE_HANDSHAKE {
        14
    } else if id == TYPE_PING {
        4
    } else if id == TYPE_SENSOR_INFO {
        3
    } else if id == TYPE_ROTATION_DATA {
        19
    } else {
        0
    }
}

/// Fewest payload bytes that the variant `id` needs, given the payload read so
/// far: a handshake also needs the string that its length byte announces.
pub open spec fn sb_min_payload(id: u32, p: Seq<u8>) -> int {
    if id == TYPE_HANDSHAKE && p.len() >= 8 {
        14 + p[7]
    } else {
        sb_fixed_payload(id)
    }
}

/// Most payload bytes that the variant `id` accepts: one more than its
/// minimum where it ends in an optional byte.
pub open spec fn sb_max_payload(id: u32, p: Seq<u8>) -> int {
    if id == TYPE_ACCELERATION {
        13
    } else {
        sb_min_payload(id, p)
    }
}

/// The error that decoding `b` reports, or `None` where `b` is a whole frame.
pub open spec fn sb_frame_error(b: Seq<u8>) -> Option<DecodeError> {
    if b.len() < 4 {
        Some(DecodeError::Truncated)
    } else if !sb_known(be32_at(b, 0)) {
        Some(DecodeError::UnknownTypeId)
    } else if b.len() < 12 || b.len() - 12 < sb_min_payload(be32_at(b, 0), b.skip(12)) {
        Some(DecodeError::Truncated)
    } else if b.len() - 12 > sb_max_payload(be32_at(b, 0), b.skip(12)) {
        Some(DecodeError::TrailingBytes)
    } else {
        None
    }
}

/// The message that the payload `p` of a frame of type `id` holds.
pub open spec fn sb_parse_payload(id: u32, p: Seq<u8>) -> SBMessage {
    if id == TYPE_ACCELERATION {
        SBMessage::Acceleration {
            vector: (be32_at(p, 0), be32_at(p, 4), be32_at(p, 8)),
            sensor_id: if p.len() > 12 {
                Some(p[12])
            } else {
                None
            },
        }
    } else if id == TYPE_HANDSHAKE {
        SBMessage::Handshake {
            board: p[0],
            imu: p[1],
            mcu_type: p[2],
            imu_info: (p[3], p[4], p[5]),
            build: p[6],
            firmware: p.subrange(8, 8 + p[7]),
            mac_address: p.subrange(8 + p[7], 14 + p[7]),
        }
    } else if id == TYPE_PING {
        SBMessage::Ping { id: be32_at(p, 0) }
    } else if id == TYPE_SENSOR_INFO {
        SBMessage::SensorInfo { sensor_id: p[0], sensor_status: p[1], sensor_type: p[2] }
    } else if id == TYPE_ROTATION_DATA {
        SBMessage::RotationData {
            sensor_id: p[0],
            data_type: p[1],
            quat: (be32_at(p, 2), be32_at(p, 6), be32_at(p, 10), be32_at(p, 14)),
            calibration_info: p[18],
        }
    } else {
        SBMessage::Heartbeat
    }
}

/// The packet that a whole frame `b` holds.
pub open spec fn sb_parse(b: Seq<u8>) -> Packet<SBMessage> {
    Packet { reserved: be32_at(b, 4), seq: be32_at(b, 8), data: sb_parse_payload(be32_at(b, 0), b.skip(12)) }
}

fn is_known(id: u32) -> (r: bool)
    ensures
        r == sb_known(id),
{
    id == TYPE_HEARTBEAT || id == TYPE_ACCELERATION || id == TYPE_HANDSHAKE || id == TYPE_PING
        || id == TYPE_SENSOR_INFO || id == TYPE_ROTATION_DATA
}

/// Copies `b[start..end]` into a new vector.
fn copy_range(b: &[u8], start: usize, end: usize) -> (r: Vec<u8>)
    requires
        start <= end <= b@.len(),
    ensures
        r@ == b@.subrange(start as int, end as int),
{
    let mut r: Vec<u8> = Vec::new();
    let mut i: usize = start;
    while i < end
        invariant
            start <= i <= end,
            end <= b@.len(),
            r@ == b@.subrange(start as int, i as int),
        decreases end - i,
    {
        r.push(b[i]);
        i += 1;
        assert(r@ =~= b@.subrange(start as int, i as int));
    }
    r
}

/// Decodes the payload of a frame of known type `id`, which starts at offset 12.
fn decode_payload(b: &[u8], id: u32) -> (r: Result<SBPacket, DecodeError>)
    requires
        b@.len() >= 12,
        sb_known(id),
    ensures
        ({
            let p = b@.skip(12);
            &&& r is Ok <==> sb_min_payload(id, p) <= p.len() <= sb_max_payload(id, p)
            &&& r matches Err(e) ==> e == if p.len() < sb_min_payload(id, p) {
                DecodeError::Truncated
            } else {
                DecodeError::TrailingBytes
            }
            &&& r matches Ok(m) ==> m@ == sb_parse_payload(id, p)
        }),
{
    let ghost p = b@.skip(12);
    let n = b.len() - 12;
    if id == TYPE_HEARTBEAT {
        if n > 0 {
            return Err(DecodeError::TrailingBytes);
        }
        Ok(SBPacket::Heartbeat)
    } else if id == TYPE_ACCELERATION {
        if n < 12 {
            return Err(DecodeError::Truncated);
        }
        if n > 13 {
            return Err(DecodeError::TrailingBytes);
        }
        let vector = (read_be32(b, 12), read_be32(b, 16), read_be32(b, 20));
        let sensor_id = if n == 13 {
            Some(b[24])
        } else {
            None
        };
        Ok(SBPacket::Acceleration { vector, sensor_id })
    } else if id == TYPE_HANDSHAKE {
        if n < 8 {
            return Err(DecodeError::Truncated);
        }
        let len = b[19] as usize;
        if n < 14 + len {
            return Err(DecodeError::Truncated);
        }
        if n > 14 + len {
            return Err(DecodeError::TrailingBytes);
        }
        let firmware = copy_range(b, 20, 20 + len);
        let k = 20 + len;
        let mac_address = [b[k], b[k + 1], b[k + 2], b[k + 3], b[k + 4], b[k + 5]];
        assert(mac_address@ =~= p.subrange(8 + p[7], 14 + p[7]));
        assert(firmware@ =~= p.subrange(8, 8 + p[7]));
        Ok(
            SBPacket::Handshake {
                board: b[12],
                imu: b[13],
                mcu_type: b[14],
                imu_info: (b[15], b[16], b[17]),
                build: b[18],
                firmware,
                mac_address,
            },
        )
    } else if id == TYPE_PING {
        if n < 4 {
            return Err(DecodeError::Truncated);
        }
        if n > 4 {
            return Err(DecodeError::TrailingBytes);
        }
        Ok(SBPacket::Ping { id: read_be32(b, 12) })
    } else if id == TYPE_SENSOR_INFO {
        if n < 3 {
            return Err(DecodeError::Truncated);
        }
        if n > 3 {
            return Err(DecodeError::TrailingBytes);
        }
        Ok(SBPacket::SensorInfo { sensor_id: b[12], sensor_status: b[13], sensor_type: b[14] })
    } else {
        if n < 19 {
            return Err(DecodeError::Truncated);
        }
        if n > 19 {
            return Err(DecodeError::TrailingBytes);
        }
        let quat = (read_be32(b, 14), read_be32(b, 18), read_be32(b, 22), read_be32(b, 26));
        Ok(
            SBPacket::RotationData {
                sensor_id: b[12],
                data_type: b[13],
                quat,
                calibration_info: b[30],
            },
        )
    }
}

impl Packet<SBPacket> {
    /// Decodes one whole frame. It fails exactly where `sb_frame_error` names
    /// an error, and otherwise returns the packet that the bytes hold.
    pub fn deserialize_from(b: &[u8]) -> (r: Result<Packet<SBPacket>, DecodeError>)
        ensures
            r is Ok <==> sb_frame_error(b@) is None,
            r matches Err(e) ==> sb_frame_error(b@) == Some(e),
            r matches Ok(p) ==> p@ == sb_parse(b@) && sb_wf(p.data@) && sb_frame(p@) == b@,
    {
        proof {
            if sb_frame_error(b@) is None {
                lemma_sb_parse_frames(b@);
            }
        }
        if b.len() < 4 {
            return Err(DecodeError::Truncated);
        }
        let id = read_be32(b, 0);
        if !is_known(id) {
            return Err(DecodeError::UnknownTypeId);
        }
        if b.len() < 12 {
            return Err(DecodeError::Truncated);
        }
        let reserved = read_be32(b, 4);
        let seq = read_be32(b, 8);
        match decode_payload(b, id) {
            Ok(data) => Ok(Packet { reserved, seq, data }),
            Err(e) => Err(e),
        }
    }
}


/// Round trip: the frame of every well-formed packet decodes without error,
/// and back to that same packet.
pub proof fn lemma_sb_round_trip(p: Packet<SBMessage>)
    requires
        sb_wf(p.data),
    ensures
        sb_frame_error(sb_frame(p)) is None,
        sb_parse(sb_frame(p)) == p,
{
    let m = p.data;
    let pay = sb_payload(m);
    let b = sb_frame(p);
    lemma_header_read(sb_type_id(m), p.reserved, p.seq, pay);
    match m {
        SBMessage::Heartbeat => {},
        SBMessage::Acceleration { vector, sensor_id } => {
            assert(pay.subrange(0, 4) =~= be32(vector.0));
            assert(pay.subrange(4, 8) =~= be32(vector.1));
            assert(pay.subrange(8, 12) =~= be32(vector.2));
            lemma_be32_at_of(vector.0, pay, 0);
            lemma_be32_at_of(vector.1, pay, 4);
            lemma_be32_at_of(vector.2, pay, 8);
            match sensor_id {
                Some(x) => assert(pay[12] == x),
                None => {},
            }
        },
        SBMessage::Handshake { firmware, mac_address, .. } => {
            let n = firmware.len() as int;
            assert(pay[7] == n as u8);
            assert(pay.subrange(8, 8 + n) =~= firmware);
            assert(pay.subrange(8 + n, 14 + n) =~= mac_address);
        },
        SBMessage::Ping { id } => {
            assert(pay.subrange(0, 4) =~= be32(id));
            lemma_be32_at_of(id, pay, 0);
        },
        SBMessage::SensorInfo { .. } => {},
        SBMessage::RotationData { quat, .. } => {
            assert(pay.subrange(2, 6) =~= be32(quat.0));
            assert(pay.subrange(6, 10) =~= be32(quat.1));
            assert(pay.subrange(10, 14) =~= be32(quat.2));
            assert(pay.subrange(14, 18) =~= be32(quat.3));
            lemma_be32_at_of(quat.0, pay, 2);
            lemma_be32_at_of(quat.1, pay, 6);
            lemma_be32_at_of(quat.2, pay, 10);
            lemma_be32_at_of(quat.3, pay, 14);
        },
    }
}

/// Input shorter than the header's type id, or shorter than the fixed fields
/// of the variant that its type id names, is reported as truncated.
pub proof fn lemma_sb_truncated(b: Seq<u8>)
    requires
        b.len() < 4 || (sb_known(be32_at(b, 0)) && b.len() < 12 + sb_fixed_payload(
            be32_at(b, 0),
        )),
    ensures
        sb_frame_error(b) == Some(DecodeError::Truncated),
{
}

/// An unrecognized type id is reported as such, and a frame that decodes
/// holds the variant that its type id names.
pub proof fn lemma_sb_type_id(b: Seq<u8>)
    requires
        b.len() >= 4,
    ensures
        !sb_known(be32_at(b, 0)) ==> sb_frame_error(b) == Some(DecodeError::UnknownTypeId),
        sb_frame_error(b) is None ==> sb_type_id(sb_parse(b).data) == be32_at(b, 0),
{
}


/// Every input that decodes without error is exactly the frame of the
/// well-formed packet that it decodes to.
pub proof fn lemma_sb_parse_frames(b: Seq<u8>)
    requires
        sb_frame_error(b) is None,
    ensures
        sb_wf(sb_parse(b).data),
        sb_frame(sb_parse(b)) == b,
{
    lemma_header_split(b);
    let id = be32_at(b, 0);
    let p = b.skip(12);
    let m = sb_parse_payload(id, p);
    assert(sb_type_id(m) == id);
    if id == TYPE_ACCELERATION {
        lemma_be32_write_read(p, 0);
        lemma_be32_write_read(p, 4);
        lemma_be32_write_read(p, 8);
        assert(sb_payload(m) =~= p);
    } else if id == TYPE_HANDSHAKE {
        assert(sb_payload(m) =~= p);
    } else if id == TYPE_PING {
        lemma_be32_write_read(p, 0);
        assert(sb_payload(m) =~= p);
    } else if id == TYPE_SENSOR_INFO {
        assert(sb_payload(m) =~= p);
    } else if id == TYPE_ROTATION_DATA {
        lemma_be32_write_read(p, 2);
        lemma_be32_write_read(p, 6);
        lemma_be32_write_read(p, 10);
        lemma_be32_write_read(p, 14);
        assert(sb_payload(m) =~= p);
    } else {
        assert(sb_payload(m) =~= p);
    }
}

} // verus!
