//! Encoder: typed message to fixed-size byte buffer.
//!
//! A message body is always 25 bytes: a header byte (type nibble high,
//! version nibble low) followed by the type-specific payload, zero-filled to
//! the end.  Service data prepends the application code and the caller's
//! message counter.

use vstd::prelude::*;

verus! {

use vstd::bytes::{spec_u16_to_le_bytes, spec_u32_to_le_bytes, u16_to_le_bytes, u32_to_le_bytes};
use crate::basic_id::BasicId;
use crate::location::Location;
use crate::message::{CodecError, RemoteIDMessage};
use crate::operator_id::OperatorId;
use crate::scale::{
    encode_altitude, encode_speed, encode_track, encode_vertical_speed, i32_to_wire,
    altitude_to_field, speed_multiplier, speed_to_byte, track_ew_flag, track_to_byte,
    ts_accuracy_to_byte, u32_of_i32, vertical_speed_to_byte,
};
use crate::OPEN_DRONE_ID_AD_CODE;

/// Protocol version nibble, fixed for this wire revision.
pub const PROTOCOL_VERSION: u8 = 2;

/// Length of every message body.
pub const MESSAGE_LEN: usize = 25;

/// Length of a full service-data frame: 2-byte advertising header plus the
/// message body.
pub const SERVICE_DATA_LEN: usize = 27;

/// First byte of a message body: type nibble high, version nibble low.
pub open spec fn spec_header_byte(type_code: u8) -> u8
    recommends
        type_code <= 15,
{
    (type_code * 16 + 2) as u8
}

/// Status byte of a Location message: operational status on bits 5..3,
/// height type on bit 2, east/west direction segment on bit 1, speed
/// multiplier on bit 0.
pub open spec fn spec_status_byte(l: Location) -> u8 {
    (l.operational_status.spec_code() * 8 + l.height_type.spec_code() * 4 + track_ew_flag(
        l.track_direction as int,
    ) * 2 + speed_multiplier(l.speed_cm_s as int)) as u8
}

/// The 25 body bytes of a Basic ID message.
pub open spec fn spec_encode_basic_id(b: BasicId) -> Seq<u8> {
    seq![
        spec_header_byte(0),
        (b.id_type.spec_code() * 16 + b.ua_type.spec_code()) as u8,
    ] + b.uas_id@ + seq![0u8, 0u8, 0u8]
}

/// The 25 body bytes of a Location message.
pub open spec fn spec_encode_location(l: Location) -> Seq<u8> {
    seq![
        spec_header_byte(1),
        spec_status_byte(l),
        track_to_byte(l.track_direction as int),
        speed_to_byte(l.speed_cm_s as int),
        vertical_speed_to_byte(l.vertical_speed_cm_s as int),
    ] + spec_u32_to_le_bytes(u32_of_i32(l.latitude_deg_e7)) + spec_u32_to_le_bytes(
        u32_of_i32(l.longitude_deg_e7),
    ) + spec_u16_to_le_bytes(altitude_to_field(l.pressure_altitude_cm as int))
        + spec_u16_to_le_bytes(altitude_to_field(l.geodetic_altitude_cm as int))
        + spec_u16_to_le_bytes(altitude_to_field(l.height_cm as int)) + seq![
        (l.vertical_accuracy.spec_code() * 16 + l.horizontal_accuracy.spec_code()) as u8,
        (l.baro_altitude_accuracy.spec_code() * 16 + l.speed_accuracy.spec_code()) as u8,
    ] + spec_u16_to_le_bytes(l.timestamp_ds) + seq![
        ts_accuracy_to_byte(l.timestamp_accuracy_ds),
        0u8,
    ]
}

/// The 25 body bytes of an Operator ID message.
pub open spec fn spec_encode_operator_id(o: OperatorId) -> Seq<u8> {
    seq![spec_header_byte(5), o.id_type.spec_code()] + o.operator_id@ + seq![0u8, 0u8, 0u8]
}

/// The body bytes of any implemented message.
pub open spec fn spec_encode_message(m: RemoteIDMessage) -> Seq<u8>
    recommends
        m.spec_implemented(),
{
    match m {
        RemoteIDMessage::BasicID(b) => spec_encode_basic_id(b),
        RemoteIDMessage::Location(l) => spec_encode_location(l),
        RemoteIDMessage::OperatorId(o) => spec_encode_operator_id(o),
        _ => Seq::empty(),
    }
}

/// The full service-data frame for an implemented message.
pub open spec fn spec_service_data(m: RemoteIDMessage, counter: u8) -> Seq<u8>
    recommends
        m.spec_implemented(),
{
    seq![OPEN_DRONE_ID_AD_CODE, counter] + spec_encode_message(m)
}

fn encode_basic_id(msg: &BasicId) -> (v: Vec<u8>)
    ensures
        v@ == spec_encode_basic_id(*msg),
        v@.len() == 25,
{
    let mut v: Vec<u8> = Vec::new();
    v.push(2);
    v.push(msg.id_type.to_code() * 16 + msg.ua_type.to_code());
    let mut i: usize = 0;
    while i < 20
        invariant
            i <= 20,
            v@.len() == 2 + i,
            v@[0] == spec_header_byte(0),
            v@[1] == (msg.id_type.spec_code() * 16 + msg.ua_type.spec_code()) as u8,
            forall|j: int| 0 <= j < i ==> v@[2 + j] == msg.uas_id@[j],
        decreases 20 - i,
    {
        v.push(msg.uas_id[i]);
        i = i + 1;
    }
    v.push(0);
    v.push(0);
    v.push(0);
    assert(v@ =~= spec_encode_basic_id(*msg));
    v
}

#[verifier::rlimit(60)]
fn encode_location(msg: &Location) -> (v: Vec<u8>)
    requires
        msg.wf(),
    ensures
        v@ == spec_encode_location(*msg),
        v@.len() == 25,
{
    let mut v: Vec<u8> = Vec::new();
    v.push(1 * 16 + PROTOCOL_VERSION);
    let ew: u8 = if msg.track_direction > 180 {
        1
    } else {
        0
    };
    let multiplier: u8 = if msg.speed_cm_s > 6375 {
        1
    } else {
        0
    };
    v.push(
        msg.operational_status.to_code() * 8 + msg.height_type.to_code() * 4 + ew * 2 + multiplier,
    );
    v.push(encode_track(msg.track_direction));
    v.push(encode_speed(msg.speed_cm_s));
    v.push(encode_vertical_speed(msg.vertical_speed_cm_s));
    let mut lat = u32_to_le_bytes(i32_to_wire(msg.latitude_deg_e7));
    v.append(&mut lat);
    let mut lon = u32_to_le_bytes(i32_to_wire(msg.longitude_deg_e7));
    v.append(&mut lon);
    let mut pressure = u16_to_le_bytes(encode_altitude(msg.pressure_altitude_cm));
    v.append(&mut pressure);
    let mut geodetic = u16_to_le_bytes(encode_altitude(msg.geodetic_altitude_cm));
    v.append(&mut geodetic);
    let mut height = u16_to_le_bytes(encode_altitude(msg.height_cm));
    v.append(&mut height);
    v.push(msg.vertical_accuracy.to_code() * 16 + msg.horizontal_accuracy.to_code());
    v.push(msg.baro_altitude_accuracy.to_code() * 16 + msg.speed_accuracy.to_code());
    let mut timestamp = u16_to_le_bytes(msg.timestamp_ds);
    v.append(&mut timestamp);
    v.push(
        match msg.timestamp_accuracy_ds {
            Some(acc) => acc,
            None => 0,
        },
    );
    v.push(0);
    assert(v@ =~= spec_encode_location(*msg));
    v
}

fn encode_operator_id(msg: &OperatorId) -> (v: Vec<u8>)
    ensures
        v@ == spec_encode_operator_id(*msg),
        v@.len() == 25,
{
    let mut v: Vec<u8> = Vec::new();
    v.push(5 * 16 + PROTOCOL_VERSION);
    v.push(msg.id_type.to_code());
    let mut i: usize = 0;
    while i < 20
        invariant
            i <= 20,
            v@.len() == 2 + i,
            v@[0] == spec_header_byte(5),
            v@[1] == msg.id_type.spec_code(),
            forall|j: int| 0 <= j < i ==> v@[2 + j] == msg.operator_id@[j],
        decreases 20 - i,
    {
        v.push(msg.operator_id[i]);
        i = i + 1;
    }
    v.push(0);
    v.push(0);
    v.push(0);
    assert(v@ =~= spec_encode_operator_id(*msg));
    v
}

/// Encode a message into its 25-byte body.  Exactly the implemented
/// variants succeed; the others are refused with an explicit error, never an
/// abort.
pub fn to_message_buffer(msg: &RemoteIDMessage) -> (r: Result<Vec<u8>, CodecError>)
    requires
        msg.wf(),
    ensures
        msg.spec_implemented() ==> (r matches Ok(v) && v@ == spec_encode_message(*msg)
            && v@.len() == MESSAGE_LEN),
        !msg.spec_implemented() ==> (r matches Err(e) && e == CodecError::UnsupportedMessageType),
{
    match msg {
        RemoteIDMessage::BasicID(b) => Ok(encode_basic_id(b)),
        RemoteIDMessage::Location(l) => Ok(encode_location(l)),
        RemoteIDMessage::OperatorId(o) => Ok(encode_operator_id(o)),
        _ => Err(CodecError::UnsupportedMessageType),
    }
}

/// Encode a message into a full service-data frame, ready to be handed to a
/// radio stack: application code, caller-supplied counter, 25-byte body.
/// The codec neither maintains nor increments the counter.
pub fn to_service_data(msg: &RemoteIDMessage, message_counter: u8) -> (r: Result<
    Vec<u8>,
    CodecError,
>)
    requires
        msg.wf(),
    ensures
        msg.spec_implemented() ==> (r matches Ok(v) && v@ == spec_service_data(
            *msg,
            message_counter,
        ) && v@.len() == SERVICE_DATA_LEN),
        !msg.spec_implemented() ==> (r matches Err(e) && e == CodecError::UnsupportedMessageType),
{
    match to_message_buffer(msg) {
        Ok(mut body) => {
            let mut v: Vec<u8> = Vec::new();
            v.push(OPEN_DRONE_ID_AD_CODE);
            v.push(message_counter);
            v.append(&mut body);
            assert(v@ =~= spec_service_data(*msg, message_counter));
            Ok(v)
        },
        Err(e) => Err(e),
    }
}

} // verus!
