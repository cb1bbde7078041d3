use remote_id::basic_id::{IdType, UAType};
use remote_id::codec::copy_to_id;
use remote_id::location::{
    HeightType, HorizontalAccuracy, OperationalStatus, SpeedAccuracy, VerticalAccuracy,
};
use remote_id::operator_id::OperatorIdType;
use remote_id::scale::{
    decode_altitude, decode_speed, decode_track, decode_vertical_speed, encode_altitude,
    encode_speed, encode_track, encode_vertical_speed, i32_to_wire, wire_to_i32,
};

#[test]
fn accuracy_codes_are_total_on_every_byte() {
    for code in 0..=255u8 {
        let vertical = VerticalAccuracy::from_code(code);
        if code <= 6 {
            assert_eq!(vertical.to_code(), code);
        } else {
            assert_eq!(vertical, VerticalAccuracy::Unknown);
        }

        let horizontal = HorizontalAccuracy::from_code(code);
        if code <= 12 {
            assert_eq!(horizontal.to_code(), code);
        } else {
            assert_eq!(horizontal, HorizontalAccuracy::Unknown);
        }

        let speed = SpeedAccuracy::from_code(code);
        if code <= 4 {
            assert_eq!(speed.to_code(), code);
        } else {
            assert_eq!(speed, SpeedAccuracy::Unknown);
        }

        let status = OperationalStatus::from_code(code);
        if code <= 4 {
            assert_eq!(status.to_code(), code);
        } else {
            assert_eq!(status, OperationalStatus::Undeclared);
        }

        let height = HeightType::from_code(code);
        if code <= 1 {
            assert_eq!(height.to_code(), code);
        } else {
            assert_eq!(height, HeightType::AboveTakeoff);
        }

        let id_type = IdType::from_code(code);
        if code <= 4 {
            assert_eq!(id_type.to_code(), code);
        } else {
            assert_eq!(id_type, IdType::NotDeclared);
        }

        if code <= 15 {
            assert_eq!(UAType::from_code(code).to_code(), code);
        } else {
            assert_eq!(UAType::from_code(code), UAType::Other);
        }

        let operator = OperatorIdType::from_code(code);
        assert_eq!(operator.to_code(), code);
        if code == 0 {
            assert_eq!(operator, OperatorIdType::CaaAssigned);
        } else {
            assert_eq!(operator, OperatorIdType::Unknown(code));
        }
    }
}

#[test]
fn copy_to_id_truncates_and_pads() {
    // 25 bytes in: exactly the first 20 survive.
    let long = copy_to_id("ABCDEFGHIJKLMNOPQRSTUVWXY".as_bytes());
    assert_eq!(&long[..], "ABCDEFGHIJKLMNOPQRST".as_bytes());

    // 3 bytes in: zero-padded to 20, losslessly.
    let short = copy_to_id("abc".as_bytes());
    assert_eq!(&short[..3], "abc".as_bytes());
    assert_eq!(&short[3..], &[0u8; 17]);

    // Exactly 20 bytes: carried verbatim.
    let exact = copy_to_id("01234567890123456789".as_bytes());
    assert_eq!(&exact[..], "01234567890123456789".as_bytes());
}

#[test]
fn speed_scale_formulas() {
    // 10 m/s on the fine scale.
    assert_eq!(encode_speed(1000), 2);
    // Top of the fine scale: 63.75 m/s.
    assert_eq!(encode_speed(6375), 15);
    // Just above the threshold the coarse scale starts at 0.
    assert_eq!(encode_speed(6376), 0);
    assert_eq!(encode_speed(6450), 1);
    // Beyond the representable range the sentinel is stored.
    assert_eq!(encode_speed(25425), 254);
    assert_eq!(encode_speed(u32::MAX), 254);

    assert_eq!(decode_speed(false, 2), 800);
    assert_eq!(decode_speed(true, 0), 6375);
    assert_eq!(decode_speed(true, 254), 25425);
}

#[test]
fn speed_encoding_is_monotone_with_multiplier() {
    let mut prev = (false, 0u8);
    for speed in 0..26000u32 {
        let code = (speed > 6375, encode_speed(speed));
        assert!(code >= prev, "speed {} decreased the encoding", speed);
        prev = code;
    }
}

#[test]
fn vertical_speed_scale_formulas() {
    assert_eq!(encode_vertical_speed(1000), 20);
    assert_eq!(encode_vertical_speed(49), 0);
    // Saturates at the top of the byte.
    assert_eq!(encode_vertical_speed(12800), 255);
    assert_eq!(encode_vertical_speed(u16::MAX), 255);
    assert_eq!(decode_vertical_speed(20), 1000);
}

#[test]
fn altitude_scale_formulas() {
    // -1000 m maps to field 0.
    assert_eq!(encode_altitude(-100_000), 0);
    assert_eq!(encode_altitude(0), 2000);
    assert_eq!(encode_altitude(19_050), 2381);
    // Below and above the representable range the field clamps.
    assert_eq!(encode_altitude(-200_000), 0);
    assert_eq!(encode_altitude(i32::MAX), 65535);
    assert_eq!(decode_altitude(2381), 19_050);
    assert_eq!(decode_altitude(0), -100_000);
}

#[test]
fn track_scale_formulas() {
    assert_eq!(encode_track(77), 77);
    assert_eq!(encode_track(180), 180);
    // Above 180 degrees the byte is reduced by 180 and the east/west flag
    // carries the difference.
    assert_eq!(encode_track(181), 1);
    assert_eq!(encode_track(360), 180);
    assert_eq!(decode_track(false, 77), 77);
    assert_eq!(decode_track(true, 1), 181);
}

#[test]
fn coordinate_wire_round_trip() {
    for v in [0i32, 1, -1, 498748544, -498748544, i32::MAX, i32::MIN] {
        assert_eq!(wire_to_i32(i32_to_wire(v)), v);
    }
    // Southern/western hemispheres use two's complement on the wire.
    assert_eq!(i32_to_wire(-1), u32::MAX);
    assert_eq!(i32_to_wire(1), 1);
}
