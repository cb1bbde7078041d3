use remote_id::basic_id::{BasicId, IdType, UAType};
use remote_id::codec::copy_to_id;
use remote_id::decode::{from_message_buffer, from_service_data};
use remote_id::encode::{to_message_buffer, to_service_data};
use remote_id::location::{
    HeightType, HorizontalAccuracy, Location, OperationalStatus, SpeedAccuracy, VerticalAccuracy,
};
use remote_id::message::{CodecError, RemoteIDMessage};
use remote_id::operator_id::{OperatorId, OperatorIdType};

fn sample_location() -> Location {
    Location {
        operational_status: OperationalStatus::Undeclared,
        height_type: HeightType::AboveGroundLevel,
        speed_cm_s: (4.0f32 * 100.0) as u32,
        vertical_speed_cm_s: (2.0f32 * 100.0) as u16,
        pressure_altitude_cm: (3.0f32 * 100.0) as i32,
        geodetic_altitude_cm: (4.0f32 * 100.0) as i32,
        track_direction: 5,
        horizontal_accuracy: HorizontalAccuracy::LessThan_10_NM,
        vertical_accuracy: VerticalAccuracy::LessThan_10_m,
        latitude_deg_e7: (6.0f32 * 10_000_000.0) as i32,
        longitude_deg_e7: (7.0f32 * 10_000_000.0) as i32,
        height_cm: (8.0f32 * 100.0) as i32,
        baro_altitude_accuracy: VerticalAccuracy::LessThan_10_m,
        speed_accuracy: SpeedAccuracy::LessThan_10_mps,
        timestamp_ds: (9.0f32 * 10.0) as u16,
        timestamp_accuracy_ds: None,
    }
}

#[test]
fn test_recode_basic_id() {
    let basic_id = RemoteIDMessage::BasicID(BasicId {
        id_type: IdType::NotDeclared,
        ua_type: UAType::Aeroplane,
        uas_id: copy_to_id("1\0".as_bytes()),
    });

    let buf = to_message_buffer(&basic_id).unwrap();
    let msg = from_message_buffer(&buf).unwrap();
    assert_eq!(basic_id, msg);
}

#[test]
fn test_recode_location() {
    let location = RemoteIDMessage::Location(sample_location());

    let buf = to_message_buffer(&location).unwrap();
    assert_eq!(buf.len(), 25);

    let msg = from_message_buffer(&buf).unwrap();
    assert_eq!(location, msg);
}

#[test]
fn test_recode_operator_id() {
    let operator = RemoteIDMessage::OperatorId(OperatorId {
        id_type: OperatorIdType::Unknown(99),
        operator_id: copy_to_id("1\0".as_bytes()),
    });

    let buf = to_message_buffer(&operator).unwrap();
    assert_eq!(buf.len(), 25);

    let msg = from_message_buffer(&buf).unwrap();
    assert_eq!(operator, msg);
}

#[test]
fn encode_basic_id() {
    let basic_id = RemoteIDMessage::BasicID(BasicId {
        id_type: IdType::SerialNumber,
        ua_type: UAType::NotDeclared,
        uas_id: copy_to_id("1596F359746167260749".as_bytes()),
    });

    let service_data = [
        13, 1, 2, 16, 49, 53, 57, 54, 70, 51, 53, 57, 55, 52, 54, 49, 54, 55, 50, 54, 48, 55, 52,
        57, 0, 0, 0,
    ];

    assert_eq!(service_data.to_vec(), to_service_data(&basic_id, 1).unwrap());
}

#[test]
fn encode_basic_id_2() {
    let basic_id = RemoteIDMessage::BasicID(BasicId {
        id_type: IdType::SerialNumber,
        ua_type: UAType::NotDeclared,
        uas_id: copy_to_id("1596F3170CE908F55122".as_bytes()),
    });

    let expected = [
        13, 1, 2, 16, 49, 53, 57, 54, 70, 51, 49, 55, 48, 67, 69, 57, 48, 56, 70, 53, 53, 49, 50,
        50, 0, 0, 0,
    ];

    assert_eq!(expected.to_vec(), to_service_data(&basic_id, 1).unwrap());
}

#[test]
fn encode_basic_id_with_terminator() {
    // A 21-byte identifier is silently truncated to the same 20 wire bytes.
    let basic_id = RemoteIDMessage::BasicID(BasicId {
        id_type: IdType::SerialNumber,
        ua_type: UAType::NotDeclared,
        uas_id: copy_to_id("1596F359746167260749\0".as_bytes()),
    });

    let service_data = [
        13, 1, 2, 16, 49, 53, 57, 54, 70, 51, 53, 57, 55, 52, 54, 49, 54, 55, 50, 54, 48, 55, 52,
        57, 0, 0, 0,
    ];

    assert_eq!(service_data.to_vec(), to_service_data(&basic_id, 1).unwrap());
}

#[test]
fn encode_location_1() {
    let location = RemoteIDMessage::Location(Location {
        height_type: HeightType::AboveTakeoff,
        operational_status: OperationalStatus::RemoteIdSystemFailure,
        speed_cm_s: (10.0f32 * 100.0) as u32,
        vertical_speed_cm_s: (10.0f32 * 100.0) as u16,
        pressure_altitude_cm: (190.5f32 * 100.0) as i32,
        geodetic_altitude_cm: (210.0f32 * 100.0) as i32,
        baro_altitude_accuracy: VerticalAccuracy::Unknown,
        horizontal_accuracy: HorizontalAccuracy::LessThan_3_m,
        speed_accuracy: SpeedAccuracy::LessThan_third_mps,
        vertical_accuracy: VerticalAccuracy::LessThan_3_m,
        track_direction: 77,
        latitude_deg_e7: (49.874855f32 * 10_000_000.0) as i32,
        longitude_deg_e7: (8.912173f32 * 10_000_000.0) as i32,
        height_cm: 0,
        timestamp_ds: (361.0f32 * 10.0) as u16,
        timestamp_accuracy_ds: None,
    });
    let expected = [
        13, 1, 18, 32, 77, 2, 20, 128, 76, 186, 29, 200, 227, 79, 5, 77, 9, 116, 9, 208, 7, 91, 4,
        26, 14, 0, 0,
    ];
    assert_eq!(expected.to_vec(), to_service_data(&location, 1).unwrap());
}

#[test]
fn service_data_round_trip_every_counter() {
    let messages = [
        RemoteIDMessage::BasicID(BasicId {
            id_type: IdType::SerialNumber,
            ua_type: UAType::Helicopter,
            uas_id: copy_to_id("ABCDEF".as_bytes()),
        }),
        RemoteIDMessage::Location(sample_location()),
        RemoteIDMessage::OperatorId(OperatorId {
            id_type: OperatorIdType::CaaAssigned,
            operator_id: copy_to_id("FIN87astrdge12k8".as_bytes()),
        }),
    ];
    for counter in 0..=254u8 {
        for msg in &messages {
            let frame = to_service_data(msg, counter).unwrap();
            assert_eq!(frame.len(), 27);
            assert_eq!(frame[1], counter);
            assert_eq!(*msg, from_service_data(&frame).unwrap());
        }
    }
}

#[test]
fn unsupported_variants_are_refused_not_aborted() {
    assert_eq!(
        to_service_data(&RemoteIDMessage::Auth, 0),
        Err(CodecError::UnsupportedMessageType)
    );
    assert_eq!(
        to_message_buffer(&RemoteIDMessage::SelfId),
        Err(CodecError::UnsupportedMessageType)
    );
    assert_eq!(
        to_message_buffer(&RemoteIDMessage::System),
        Err(CodecError::UnsupportedMessageType)
    );
    assert_eq!(
        to_message_buffer(&RemoteIDMessage::MessagePack),
        Err(CodecError::UnsupportedMessageType)
    );
}

#[test]
fn unknown_message_type_fails_decode() {
    // Nibble 6 is outside the known code table, whatever the length.
    let mut buf = vec![0u8; 25];
    buf[0] = (6 << 4) | 2;
    assert_eq!(
        from_message_buffer(&buf),
        Err(CodecError::UnknownMessageType)
    );

    let mut frame = vec![0u8; 27];
    frame[0] = 13;
    frame[2] = (6 << 4) | 2;
    assert_eq!(
        from_service_data(&frame),
        Err(CodecError::UnknownMessageType)
    );
}

#[test]
fn length_one_buffer_is_truncated_for_every_type() {
    for type_code in [0u8, 1, 2, 3, 4, 5, 15] {
        let buf = [(type_code << 4) | 2];
        assert_eq!(
            from_message_buffer(&buf),
            Err(CodecError::TruncatedBuffer)
        );
    }
}

#[test]
fn empty_and_short_buffers_are_truncated() {
    let empty: [u8; 0] = [];
    assert_eq!(from_message_buffer(&empty), Err(CodecError::TruncatedBuffer));
    assert_eq!(from_service_data(&empty), Err(CodecError::TruncatedBuffer));
    assert_eq!(from_service_data(&[13u8]), Err(CodecError::TruncatedBuffer));
    // A Location message needs 25 bytes; 24 are too few.
    let buf = vec![18u8; 24];
    assert_eq!(from_message_buffer(&buf), Err(CodecError::TruncatedBuffer));
}

#[test]
fn decode_dispatches_on_type_nibble_only() {
    // Same Basic ID body under a different protocol-version nibble still
    // decodes: the dispatch reads the high nibble alone.
    let basic_id = RemoteIDMessage::BasicID(BasicId {
        id_type: IdType::SerialNumber,
        ua_type: UAType::Glider,
        uas_id: copy_to_id("XYZ".as_bytes()),
    });
    let mut buf = to_message_buffer(&basic_id).unwrap();
    buf[0] = 3; // type 0, version 3
    assert_eq!(basic_id, from_message_buffer(&buf).unwrap());
}

#[test]
fn known_but_unimplemented_type_decode() {
    // Full-length Auth message: known code, no decoder for it.
    let mut buf = vec![0u8; 25];
    buf[0] = (2 << 4) | 2;
    assert_eq!(
        from_message_buffer(&buf),
        Err(CodecError::UnsupportedMessageType)
    );
}
