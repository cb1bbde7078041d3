//! Decoder: byte buffer back to typed message, or a decode failure.
//!
//! The decoder dispatches on the message-type nibble and reverses every
//! transform of the encoder exactly: the speed is rebuilt from the
//! speed-multiplier bit (not by inspecting the stored value), the track
//! direction from the east/west bit, the altitudes by inverting the affine
//! scale.  A nibble outside the known code table is an `UnknownMessageType`
//! failure; too few bytes are a `TruncatedBuffer` failure; field-level codes
//! never fail.

use vstd::prelude::*;

verus! {

use vstd::bytes::{
    spec_u16_from_le_bytes, spec_u32_from_le_bytes, u16_from_le_bytes, u32_from_le_bytes,
};
use vstd::slice::slice_subrange;
use crate::basic_id::{BasicId, IdType, UAType};
use crate::location::{
    HeightType, HorizontalAccuracy, Location, OperationalStatus, SpeedAccuracy, VerticalAccuracy,
};
use crate::message::{CodecError, MessageType, RemoteIDMessage};
use crate::operator_id::{OperatorId, OperatorIdType};
use crate::scale::{
    altitude_from_field, decode_altitude, decode_speed, decode_track, decode_vertical_speed,
    i32_of_u32, speed_from_byte, track_from_byte, ts_accuracy_from_byte, vertical_speed_from_byte,
    wire_to_i32,
};

/// Message-type nibble of a message body.
pub open spec fn spec_type_nibble(s: Seq<u8>) -> int
    recommends
        s.len() >= 1,
{
    s[0] as int / 16
}

/// Whether a type nibble is in the known wire code table.
pub open spec fn spec_known_code(t: int) -> bool {
    t == 0 || t == 1 || t == 2 || t == 3 || t == 4 || t == 5 || t == 15
}

/// Whether the decoder implements a known type code.
pub open spec fn spec_implemented_code(t: int) -> bool {
    t == 0 || t == 1 || t == 5
}

/// Fewest bytes a message with the given known type code needs.
pub open spec fn spec_required_len(t: int) -> int {
    if t == 0 || t == 5 {
        22
    } else {
        25
    }
}

/// Whether a buffer decodes to a message.
pub open spec fn spec_decodable(s: Seq<u8>) -> bool {
    &&& s.len() >= 1
    &&& spec_known_code(spec_type_nibble(s))
    &&& s.len() >= spec_required_len(spec_type_nibble(s))
    &&& spec_implemented_code(spec_type_nibble(s))
}

/// The failure reported for a buffer that does not decode.  Truncation is
/// judged before implementation: a known type with too few bytes is
/// `TruncatedBuffer` whether or not the decoder implements it.
pub open spec fn spec_decode_error(s: Seq<u8>) -> CodecError
    recommends
        !spec_decodable(s),
{
    if s.len() < 1 {
        CodecError::TruncatedBuffer
    } else if !spec_known_code(spec_type_nibble(s)) {
        CodecError::UnknownMessageType
    } else if s.len() < spec_required_len(spec_type_nibble(s)) {
        CodecError::TruncatedBuffer
    } else {
        CodecError::UnsupportedMessageType
    }
}

/// Field-by-field relation between a buffer and the Basic ID message it
/// carries.
pub open spec fn spec_basic_id_fields(s: Seq<u8>, b: BasicId) -> bool
    recommends
        s.len() >= 22,
{
    &&& b.id_type == IdType::spec_from_code((s[1] as int / 16) as u8)
    &&& b.ua_type == UAType::spec_from_code((s[1] as int % 16) as u8)
    &&& b.uas_id@ == s.subrange(2, 22)
}

/// Field-by-field relation between a buffer and the Location message it
/// carries.
pub open spec fn spec_location_fields(s: Seq<u8>, l: Location) -> bool
    recommends
        s.len() >= 25,
{
    let status = s[1] as int;
    &&& l.operational_status == OperationalStatus::spec_from_code(((status / 8) % 8) as u8)
    &&& l.height_type == HeightType::spec_from_code(((status / 4) % 2) as u8)
    &&& l.track_direction == track_from_byte((status / 2) % 2 == 1, s[2])
    &&& l.speed_cm_s == speed_from_byte(status % 2 == 1, s[3])
    &&& l.vertical_speed_cm_s == vertical_speed_from_byte(s[4])
    &&& l.latitude_deg_e7 == i32_of_u32(spec_u32_from_le_bytes(s.subrange(5, 9)))
    &&& l.longitude_deg_e7 == i32_of_u32(spec_u32_from_le_bytes(s.subrange(9, 13)))
    &&& l.pressure_altitude_cm == altitude_from_field(spec_u16_from_le_bytes(s.subrange(13, 15)))
    &&& l.geodetic_altitude_cm == altitude_from_field(spec_u16_from_le_bytes(s.subrange(15, 17)))
    &&& l.height_cm == altitude_from_field(spec_u16_from_le_bytes(s.subrange(17, 19)))
    &&& l.vertical_accuracy == VerticalAccuracy::spec_from_code((s[19] as int / 16) as u8)
    &&& l.horizontal_accuracy == HorizontalAccuracy::spec_from_code((s[19] as int % 16) as u8)
    &&& l.baro_altitude_accuracy == VerticalAccuracy::spec_from_code((s[20] as int / 16) as u8)
    &&& l.speed_accuracy == SpeedAccuracy::spec_from_code((s[20] as int % 16) as u8)
    &&& l.timestamp_ds == spec_u16_from_le_bytes(s.subrange(21, 23))
    &&& l.timestamp_accuracy_ds == ts_accuracy_from_byte(s[23])
}

/// Field-by-field relation between a buffer and the Operator ID message it
/// carries.
pub open spec fn spec_operator_id_fields(s: Seq<u8>, o: OperatorId) -> bool
    recommends
        s.len() >= 22,
{
    &&& o.id_type == OperatorIdType::spec_from_code(s[1])
    &&& o.operator_id@ == s.subrange(2, 22)
}

/// Relation between a decodable buffer and the message it carries.  For a
/// given buffer exactly one message satisfies it.
pub open spec fn spec_decodes_to(s: Seq<u8>, m: RemoteIDMessage) -> bool
    recommends
        spec_decodable(s),
{
    let t = spec_type_nibble(s);
    if t == 0 {
        m matches RemoteIDMessage::BasicID(b) && spec_basic_id_fields(s, b)
    } else if t == 1 {
        m matches RemoteIDMessage::Location(l) && spec_location_fields(s, l)
    } else if t == 5 {
        m matches RemoteIDMessage::OperatorId(o) && spec_operator_id_fields(s, o)
    } else {
        false
    }
}

/// Copy the fixed-width identifier out of a message body.
fn read_id(buf: &[u8]) -> (id: [u8; 20])
    requires
        buf@.len() >= 22,
    ensures
        id@ == buf@.subrange(2, 22),
{
    let mut id = [0u8; 20];
    let mut i: usize = 0;
    while i < 20
        invariant
            buf@.len() >= 22,
            i <= 20,
            forall|j: int| 0 <= j < i ==> id@[j] == buf@[2 + j],
        decreases 20 - i,
    {
        id[i] = buf[2 + i];
        i = i + 1;
    }
    assert(id@ =~= buf@.subrange(2, 22));
    id
}

fn decode_basic_id(buf: &[u8]) -> (b: BasicId)
    requires
        buf@.len() >= 22,
    ensures
        spec_basic_id_fields(buf@, b),
{
    let code_byte = buf[1];
    BasicId {
        id_type: IdType::from_code(code_byte / 16),
        ua_type: UAType::from_code(code_byte % 16),
        uas_id: read_id(buf),
    }
}

fn decode_location(buf: &[u8]) -> (l: Location)
    requires
        buf@.len() >= 25,
    ensures
        spec_location_fields(buf@, l),
{
    let status = buf[1];
    let ew: bool = (status / 2) % 2 == 1;
    let multiplier: bool = status % 2 == 1;
    let accuracy_byte = buf[19];
    let second_accuracy_byte = buf[20];
    let ts_accuracy = buf[23];
    Location {
        operational_status: OperationalStatus::from_code((status / 8) % 8),
        height_type: HeightType::from_code((status / 4) % 2),
        track_direction: decode_track(ew, buf[2]),
        speed_cm_s: decode_speed(multiplier, buf[3]),
        vertical_speed_cm_s: decode_vertical_speed(buf[4]),
        latitude_deg_e7: wire_to_i32(u32_from_le_bytes(slice_subrange(buf, 5, 9))),
        longitude_deg_e7: wire_to_i32(u32_from_le_bytes(slice_subrange(buf, 9, 13))),
        pressure_altitude_cm: decode_altitude(u16_from_le_bytes(slice_subrange(buf, 13, 15))),
        geodetic_altitude_cm: decode_altitude(u16_from_le_bytes(slice_subrange(buf, 15, 17))),
        height_cm: decode_altitude(u16_from_le_bytes(slice_subrange(buf, 17, 19))),
        vertical_accuracy: VerticalAccuracy::from_code(accuracy_byte / 16),
        horizontal_accuracy: HorizontalAccuracy::from_code(accuracy_byte % 16),
        baro_altitude_accuracy: VerticalAccuracy::from_code(second_accuracy_byte / 16),
        speed_accuracy: SpeedAccuracy::from_code(second_accuracy_byte % 16),
        timestamp_ds: u16_from_le_bytes(slice_subrange(buf, 21, 23)),
        timestamp_accuracy_ds: if ts_accuracy == 0 {
            None
        } else {
            Some(ts_accuracy)
        },
    }
}

fn decode_operator_id(buf: &[u8]) -> (o: OperatorId)
    requires
        buf@.len() >= 22,
    ensures
        spec_operator_id_fields(buf@, o),
{
    OperatorId { id_type: OperatorIdType::from_code(buf[1]), operator_id: read_id(buf) }
}

/// Decode a message body.  Succeeds on exactly the buffers that carry an
/// implemented message of sufficient length; everything else is reported as
/// the specific decode failure, and the caller decides what to do with it.
pub fn from_message_buffer(buf: &[u8]) -> (r: Result<RemoteIDMessage, CodecError>)
    ensures
        spec_decodable(buf@) <==> r is Ok,
        r matches Ok(m) ==> spec_decodes_to(buf@, m),
        r matches Err(e) ==> e == spec_decode_error(buf@),
{
    if buf.len() < 1 {
        return Err(CodecError::TruncatedBuffer);
    }
    match MessageType::from_code(buf[0] / 16) {
        MessageType::BasicId => {
            if buf.len() < 22 {
                Err(CodecError::TruncatedBuffer)
            } else {
                Ok(RemoteIDMessage::BasicID(decode_basic_id(buf)))
            }
        },
        MessageType::Location => {
            if buf.len() < 25 {
                Err(CodecError::TruncatedBuffer)
            } else {
                Ok(RemoteIDMessage::Location(decode_location(buf)))
            }
        },
        MessageType::OperatorId => {
            if buf.len() < 22 {
                Err(CodecError::TruncatedBuffer)
            } else {
                Ok(RemoteIDMessage::OperatorId(decode_operator_id(buf)))
            }
        },
        MessageType::Invalid => Err(CodecError::UnknownMessageType),
        _ => {
            if buf.len() < 25 {
                Err(CodecError::TruncatedBuffer)
            } else {
                Err(CodecError::UnsupportedMessageType)
            }
        },
    }
}

/// Decode a full service-data frame as received from a radio stack: the
/// 2-byte advertising header is skipped and the message body decoded.
pub fn from_service_data(data: &[u8]) -> (r: Result<RemoteIDMessage, CodecError>)
    ensures
        data@.len() < 2 ==> (r matches Err(e) && e == CodecError::TruncatedBuffer),
        data@.len() >= 2 ==> {
            &&& (spec_decodable(data@.skip(2)) <==> r is Ok)
            &&& (r matches Ok(m) ==> spec_decodes_to(data@.skip(2), m))
            &&& (r matches Err(e) ==> e == spec_decode_error(data@.skip(2)))
        },
{
    if data.len() < 2 {
        return Err(CodecError::TruncatedBuffer);
    }
    let body = slice_subrange(data, 2, data.len());
    assert(body@ =~= data@.skip(2));
    from_message_buffer(body)
}

} // verus!
