use firmware_protocol::{CBPacket, DecodeError, EncodeError, Packet, SBPacket};

fn frame(bytes: &[u8]) -> Result<Packet<SBPacket>, DecodeError> {
    Packet::<SBPacket>::deserialize_from(bytes)
}

fn round_trip(seq: u32, data: SBPacket) {
    let bytes = Packet::new(seq, data).to_bytes().unwrap();
    let back = frame(&bytes).unwrap();
    let again = back.to_bytes().unwrap();
    assert_eq!(again, bytes);
    assert_eq!(back.seq, seq);
}

#[test]
fn test_lifetimes() {
    let a = vec![0, 1];
    let a_slice: &[u8] = &a;
    let static_slice: &'static [u8] = &[2, 3, 4];

    let a_result = Packet::<SBPacket>::deserialize_from(a_slice);
    let static_result = Packet::<SBPacket>::deserialize_from(static_slice);

    drop(a);
    drop(static_slice);

    drop(a_result);
    drop(static_result);
}

#[test]
fn handshake() {
    let mac: [u8; 6] = [121, 34, 164, 250, 231, 204];
    let handshake = Packet::new(
        1,
        SBPacket::Handshake {
            board: 2,
            imu: 3,
            mcu_type: 4,
            imu_info: (5, 6, 7),
            build: 8,
            firmware: "test".to_string().into_bytes(),
            mac_address: mac,
        },
    );

    let data: Vec<u8> = vec![
        0, 0, 0, 3, 0, 0, 0, 0, 0, 0, 0, 1, 2, 3, 4, 5, 6, 7, 8, 4, 116, 101, 115, 116, 121, 34,
        164, 250, 231, 204,
    ];

    assert_eq!(handshake.to_bytes().unwrap(), data);
}

#[test]
fn quat() {
    let packet = Packet::new(1, CBPacket::Heartbeat);
    let data: Vec<u8> = vec![0, 0, 0, 1, 0, 0, 0, 0, 0, 0, 0, 1];

    assert_eq!(packet.to_bytes().unwrap(), data);
}

#[test]
fn sensor_info() {
    let sensor_info = Packet::new(
        1,
        SBPacket::SensorInfo {
            sensor_id: 64,
            sensor_status: 3,
            sensor_type: 5,
        },
    );
    let data: Vec<u8> = vec![0, 0, 0, 15, 0, 0, 0, 0, 0, 0, 0, 1, 64, 3, 5];

    assert_eq!(sensor_info.to_bytes().unwrap(), data);
}

#[test]
fn quat_fancy() {
    // The identity rotation: w = 1, vector part zero, sent in (x, y, z, w) order.
    let quat = (0.0f32.to_bits(), 0.0f32.to_bits(), 0.0f32.to_bits(), 1.0f32.to_bits());
    let rotation = Packet::new(
        1,
        SBPacket::RotationData {
            sensor_id: 64,
            data_type: 1,
            quat,
            calibration_info: 0,
        },
    );

    let data: Vec<u8> = vec![
        0, 0, 0, 17, 0, 0, 0, 0, 0, 0, 0, 1, 64, 1, 0, 0, 0, 0, 0, 0, 0, 0, 0, 0, 0, 0, 63, 128, 0,
        0, 0,
    ];

    assert_eq!(rotation.to_bytes().unwrap(), data);
}

#[test]
fn test_ping() {
    let data = [0, 0, 0, 10, 0, 0, 0, 0, 0, 0, 0, 1, 1, 2, 3, 4];
    let (seq, data): (_, SBPacket) = Packet::<SBPacket>::deserialize_from(&data).unwrap().split();
    assert_eq!(data, SBPacket::Ping { id: 16909060 });
    assert_eq!(seq, 1);
}

#[test]
fn test_acceleration() {
    let acc = Packet::new(
        16,
        SBPacket::Acceleration {
            vector: (0.1f32.to_bits(), 0.5f32.to_bits(), 0.9f32.to_bits()),
            sensor_id: Some(32),
        },
    );

    let data: Vec<u8> = vec![
        0, 0, 0, 4, 0, 0, 0, 0, 0, 0, 0, 16, 61, 204, 204, 205, 63, 0, 0, 0, 63, 102, 102, 102, 32,
    ];

    assert_eq!(acc.to_bytes().unwrap(), data);
}

#[test]
fn serverbound_heartbeat_bytes() {
    let packet = Packet::new(1, SBPacket::Heartbeat);
    assert_eq!(packet.to_bytes().unwrap(), vec![0, 0, 0, 1, 0, 0, 0, 0, 0, 0, 0, 1]);
}

#[test]
fn acceleration_without_sensor_id() {
    let acc = Packet::new(
        2,
        SBPacket::Acceleration { vector: (1, 2, 3), sensor_id: None },
    );
    let bytes = acc.to_bytes().unwrap();
    assert_eq!(
        bytes,
        vec![0, 0, 0, 4, 0, 0, 0, 0, 0, 0, 0, 2, 0, 0, 0, 1, 0, 0, 0, 2, 0, 0, 0, 3]
    );
    assert_eq!(frame(&bytes).unwrap(), acc);
}

#[test]
fn acceleration_with_sensor_id_decodes() {
    let bytes = [0, 0, 0, 4, 0, 0, 0, 0, 0, 0, 0, 16, 61, 204, 204, 205, 63, 0, 0, 0, 63, 102,
        102, 102, 32];
    let p = frame(&bytes).unwrap();
    assert_eq!(p.seq, 16);
    assert_eq!(
        p.data,
        SBPacket::Acceleration {
            vector: (0.1f32.to_bits(), 0.5f32.to_bits(), 0.9f32.to_bits()),
            sensor_id: Some(32),
        }
    );
}

#[test]
fn round_trip_every_variant() {
    round_trip(0, SBPacket::Heartbeat);
    round_trip(u32::MAX, SBPacket::Heartbeat);
    round_trip(7, SBPacket::Acceleration { vector: (0, u32::MAX, 5), sensor_id: None });
    round_trip(7, SBPacket::Acceleration { vector: (0, u32::MAX, 5), sensor_id: Some(0) });
    round_trip(
        9,
        SBPacket::Handshake {
            board: 1,
            imu: 2,
            mcu_type: 3,
            imu_info: (4, 5, 6),
            build: 7,
            firmware: Vec::new(),
            mac_address: [1, 2, 3, 4, 5, 6],
        },
    );
    round_trip(
        u32::MAX,
        SBPacket::Handshake {
            board: 255,
            imu: 0,
            mcu_type: 9,
            imu_info: (0, 0, 0),
            build: 1,
            firmware: vec![b'x'; 255],
            mac_address: [0; 6],
        },
    );
    round_trip(3, SBPacket::Ping { id: 0xDEAD_BEEF });
    round_trip(4, SBPacket::SensorInfo { sensor_id: 1, sensor_status: 2, sensor_type: 3 });
    round_trip(
        5,
        SBPacket::RotationData { sensor_id: 1, data_type: 2, quat: (1, 2, 3, 4), calibration_info: 9 },
    );
}

#[test]
fn handshake_round_trip_keeps_fields() {
    let p = Packet::new(
        1,
        SBPacket::Handshake {
            board: 2,
            imu: 3,
            mcu_type: 4,
            imu_info: (5, 6, 7),
            build: 8,
            firmware: b"test".to_vec(),
            mac_address: [121, 34, 164, 250, 231, 204],
        },
    );
    let bytes = p.to_bytes().unwrap();
    assert_eq!(frame(&bytes).unwrap(), p);
}

#[test]
fn handshake_string_too_long() {
    let p = Packet::new(
        1,
        SBPacket::Handshake {
            board: 0,
            imu: 0,
            mcu_type: 0,
            imu_info: (0, 0, 0),
            build: 0,
            firmware: vec![0; 256],
            mac_address: [0; 6],
        },
    );
    assert_eq!(p.to_bytes(), Err(EncodeError::StringTooLong));
}

#[test]
fn truncated_inputs() {
    assert_eq!(frame(&[]), Err(DecodeError::Truncated));
    assert_eq!(frame(&[0, 0, 0]), Err(DecodeError::Truncated));
    assert_eq!(frame(&[0, 0, 0, 10, 0, 0, 0, 0]), Err(DecodeError::Truncated));
    assert_eq!(frame(&[0, 0, 0, 10, 0, 0, 0, 0, 0, 0, 0, 1, 1, 2, 3]), Err(DecodeError::Truncated));
    assert_eq!(frame(&[0, 0, 0, 17, 0, 0, 0, 0, 0, 0, 0, 1, 64, 1]), Err(DecodeError::Truncated));
    // A handshake whose length byte announces more bytes than follow.
    assert_eq!(
        frame(&[0, 0, 0, 3, 0, 0, 0, 0, 0, 0, 0, 1, 1, 2, 3, 4, 5, 6, 7, 9, 1, 2, 3, 4, 5, 6]),
        Err(DecodeError::Truncated)
    );
    assert_eq!(frame(&[0, 0, 0, 4, 0, 0, 0, 0, 0, 0, 0, 1, 1, 2, 3]), Err(DecodeError::Truncated));
}

#[test]
fn unknown_type_id() {
    assert_eq!(frame(&[0, 0, 0, 2, 0, 0, 0, 0, 0, 0, 0, 1]), Err(DecodeError::UnknownTypeId));
    assert_eq!(frame(&[0, 0, 1, 1]), Err(DecodeError::UnknownTypeId));
    assert_eq!(
        Packet::<CBPacket>::deserialize_from(&[0, 0, 0, 10, 0, 0, 0, 0, 0, 0, 0, 1, 1, 2, 3, 4]),
        Err(DecodeError::UnknownTypeId)
    );
}

#[test]
fn trailing_bytes() {
    assert_eq!(frame(&[0, 0, 0, 1, 0, 0, 0, 0, 0, 0, 0, 1, 0]), Err(DecodeError::TrailingBytes));
    assert_eq!(
        frame(&[0, 0, 0, 15, 0, 0, 0, 0, 0, 0, 0, 1, 64, 3, 5, 6]),
        Err(DecodeError::TrailingBytes)
    );
    let mut acc = vec![0, 0, 0, 4, 0, 0, 0, 0, 0, 0, 0, 1];
    acc.extend_from_slice(&[0; 14]);
    assert_eq!(frame(&acc), Err(DecodeError::TrailingBytes));
    assert_eq!(
        Packet::<CBPacket>::deserialize_from(&[0, 0, 0, 1, 0, 0, 0, 0, 0, 0, 0, 1, 7]),
        Err(DecodeError::TrailingBytes)
    );
}

#[test]
fn reserved_word_is_carried() {
    let bytes = [0, 0, 0, 10, 0, 0, 0, 5, 0, 0, 0, 1, 1, 2, 3, 4];
    let p = frame(&bytes).unwrap();
    assert_eq!(p.reserved, 5);
    assert_eq!(p.to_bytes().unwrap(), bytes.to_vec());
}

#[test]
fn clientbound_round_trip() {
    let p = Packet::new(u32::MAX, CBPacket::Heartbeat);
    let bytes = p.to_bytes().unwrap();
    assert_eq!(bytes, vec![0, 0, 0, 1, 0, 0, 0, 0, 255, 255, 255, 255]);
    assert_eq!(Packet::<CBPacket>::deserialize_from(&bytes), Ok(p));
}
