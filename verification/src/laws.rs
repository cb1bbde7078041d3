//! The codec's guarantees, stated and proved once for all messages:
//! decoding is deterministic, encoding is monotone in speed, and every
//! implemented message survives a wire round trip up to its fields'
//! quantization steps.

use vstd::prelude::*;

verus! {

broadcast use vstd::array::group_array_axioms;

use vstd::arithmetic::div_mod::lemma_div_is_ordered;
use vstd::bytes::{lemma_auto_spec_u16_to_from_le_bytes, lemma_auto_spec_u32_to_from_le_bytes};
use crate::basic_id::BasicId;
use crate::decode::{spec_decodable, spec_decodes_to, spec_type_nibble};
use crate::encode::{
    spec_encode_basic_id, spec_encode_location, spec_encode_message, spec_encode_operator_id,
    spec_service_data,
};
use crate::location::Location;
use crate::message::RemoteIDMessage;
use crate::operator_id::OperatorId;
use crate::scale::{speed_multiplier, speed_to_byte};

/// A buffer carries at most one message: whatever two values the decode
/// relation admits for the same bytes are the same message.
pub proof fn lemma_decode_deterministic(s: Seq<u8>, m1: RemoteIDMessage, m2: RemoteIDMessage)
    requires
        spec_decodable(s),
        spec_decodes_to(s, m1),
        spec_decodes_to(s, m2),
    ensures
        m1 == m2,
{
    let t = spec_type_nibble(s);
    if t == 0 {
        let b1 = m1->BasicID_0;
        let b2 = m2->BasicID_0;
        assert(b1.uas_id =~= b2.uas_id);
    } else if t == 5 {
        let o1 = m1->OperatorId_0;
        let o2 = m2->OperatorId_0;
        assert(o1.operator_id =~= o2.operator_id);
    }
}

/// Round trip for Basic ID messages: the encoded body decodes, and decodes
/// only to the original message — every field of a Basic ID is carried
/// exactly.
pub proof fn lemma_basic_id_round_trip(b: BasicId)
    ensures
        spec_decodable(spec_encode_basic_id(b)),
        forall|m: RemoteIDMessage|
            spec_decodes_to(spec_encode_basic_id(b), m) ==> m == RemoteIDMessage::BasicID(b),
{
    let s = spec_encode_basic_id(b);
    assert(s.len() == 25);
    assert(spec_type_nibble(s) == 0);
    assert forall|m: RemoteIDMessage|
        spec_decodes_to(s, m) implies m == RemoteIDMessage::BasicID(b) by {
        let b2 = m->BasicID_0;
        assert(s[1] == (b.id_type.spec_code() * 16 + b.ua_type.spec_code()) as u8);
        assert(b2.id_type == b.id_type);
        assert(b2.ua_type == b.ua_type);
        assert(s.subrange(2, 22) =~= b.uas_id@);
        assert(b2.uas_id =~= b.uas_id);
    }
}

/// Round trip for Operator ID messages: the encoded body decodes, and
/// decodes only to the original message — every field of a well-formed
/// Operator ID is carried exactly.
pub proof fn lemma_operator_id_round_trip(o: OperatorId)
    requires
        o.wf(),
    ensures
        spec_decodable(spec_encode_operator_id(o)),
        forall|m: RemoteIDMessage|
            spec_decodes_to(spec_encode_operator_id(o), m) ==> m == RemoteIDMessage::OperatorId(o),
{
    let s = spec_encode_operator_id(o);
    assert(s.len() == 25);
    assert(spec_type_nibble(s) == 5);
    assert forall|m: RemoteIDMessage|
        spec_decodes_to(s, m) implies m == RemoteIDMessage::OperatorId(o) by {
        let o2 = m->OperatorId_0;
        assert(s[1] == o.id_type.spec_code());
        assert(o2.id_type == o.id_type);
        assert(s.subrange(2, 22) =~= o.operator_id@);
        assert(o2.operator_id =~= o.operator_id);
    }
}

/// Round trip for Location messages: the encoded body decodes, and decodes
/// only to the quantized image of the original — enumerated fields,
/// coordinates, the track direction and the timestamp exactly, every other
/// quantity moved down to its step boundary (see `Location::quantize`).
#[verifier::rlimit(100)]
pub proof fn lemma_location_round_trip(l: Location)
    requires
        l.wf(),
    ensures
        spec_decodable(spec_encode_location(l)),
        forall|m: RemoteIDMessage|
            spec_decodes_to(spec_encode_location(l), m) ==> m == RemoteIDMessage::Location(
                l.quantize(),
            ),
{
    lemma_auto_spec_u16_to_from_le_bytes();
    lemma_auto_spec_u32_to_from_le_bytes();
    crate::scale::lemma_coordinate_round_trip(l.latitude_deg_e7);
    crate::scale::lemma_coordinate_round_trip(l.longitude_deg_e7);
    let s = spec_encode_location(l);
    assert(s.len() == 25);
    assert(spec_type_nibble(s) == 1);
    assert forall|m: RemoteIDMessage|
        spec_decodes_to(s, m) implies m == RemoteIDMessage::Location(l.quantize()) by {
        let l2 = m->Location_0;
        let q = l.quantize();
        let op = l.operational_status.spec_code() as int;
        let ht = l.height_type.spec_code() as int;
        let ew = crate::scale::track_ew_flag(l.track_direction as int) as int;
        let sm = speed_multiplier(l.speed_cm_s as int) as int;
        assert(s[1] == (op * 8 + ht * 4 + ew * 2 + sm) as u8);
        assert(op <= 4 && ht <= 1 && ew <= 1 && sm <= 1);
        let status = s[1] as int;
        assert((status / 8) % 8 == op);
        assert((status / 4) % 2 == ht);
        assert((status / 2) % 2 == ew);
        assert(status % 2 == sm);
        assert(l2.operational_status == q.operational_status);
        assert(l2.height_type == q.height_type);
        assert(l2.track_direction == q.track_direction);
        assert(l2.speed_cm_s == q.speed_cm_s);
        assert(l2.vertical_speed_cm_s == q.vertical_speed_cm_s);
        assert(s.subrange(5, 9) =~= vstd::bytes::spec_u32_to_le_bytes(
            crate::scale::u32_of_i32(l.latitude_deg_e7),
        ));
        assert(l2.latitude_deg_e7 == q.latitude_deg_e7);
        assert(s.subrange(9, 13) =~= vstd::bytes::spec_u32_to_le_bytes(
            crate::scale::u32_of_i32(l.longitude_deg_e7),
        ));
        assert(l2.longitude_deg_e7 == q.longitude_deg_e7);
        assert(s.subrange(13, 15) =~= vstd::bytes::spec_u16_to_le_bytes(
            crate::scale::altitude_to_field(l.pressure_altitude_cm as int),
        ));
        assert(l2.pressure_altitude_cm == q.pressure_altitude_cm);
        assert(s.subrange(15, 17) =~= vstd::bytes::spec_u16_to_le_bytes(
            crate::scale::altitude_to_field(l.geodetic_altitude_cm as int),
        ));
        assert(l2.geodetic_altitude_cm == q.geodetic_altitude_cm);
        assert(s.subrange(17, 19) =~= vstd::bytes::spec_u16_to_le_bytes(
            crate::scale::altitude_to_field(l.height_cm as int),
        ));
        assert(l2.height_cm == q.height_cm);
        let va = l.vertical_accuracy.spec_code() as int;
        let ha = l.horizontal_accuracy.spec_code() as int;
        assert(s[19] == (va * 16 + ha) as u8);
        assert(va <= 6 && ha <= 12);
        assert((s[19] as int) / 16 == va && (s[19] as int) % 16 == ha);
        assert(l2.vertical_accuracy == q.vertical_accuracy);
        assert(l2.horizontal_accuracy == q.horizontal_accuracy);
        let ba = l.baro_altitude_accuracy.spec_code() as int;
        let sa = l.speed_accuracy.spec_code() as int;
        assert(s[20] == (ba * 16 + sa) as u8);
        assert(ba <= 6 && sa <= 4);
        assert((s[20] as int) / 16 == ba && (s[20] as int) % 16 == sa);
        assert(l2.baro_altitude_accuracy == q.baro_altitude_accuracy);
        assert(l2.speed_accuracy == q.speed_accuracy);
        assert(s.subrange(21, 23) =~= vstd::bytes::spec_u16_to_le_bytes(l.timestamp_ds));
        assert(l2.timestamp_ds == q.timestamp_ds);
        assert(s[23] == crate::scale::ts_accuracy_to_byte(l.timestamp_accuracy_ds));
        assert(l2.timestamp_accuracy_ds == q.timestamp_accuracy_ds);
    }
}

/// Round trip through a full service-data frame, for every counter value:
/// the frame built for an implemented message strips back to its body, that
/// body decodes, and it decodes only to the quantized image of the message.
/// The counter does not influence what comes back.
pub proof fn lemma_service_data_round_trip(msg: RemoteIDMessage, counter: u8)
    requires
        msg.wf(),
        msg.spec_implemented(),
    ensures
        spec_service_data(msg, counter).skip(2) == spec_encode_message(msg),
        spec_decodable(spec_encode_message(msg)),
        forall|m: RemoteIDMessage|
            spec_decodes_to(spec_encode_message(msg), m) ==> m == msg.quantize(),
{
    assert(spec_service_data(msg, counter).skip(2) =~= spec_encode_message(msg));
    match msg {
        RemoteIDMessage::BasicID(b) => lemma_basic_id_round_trip(b),
        RemoteIDMessage::Location(l) => lemma_location_round_trip(l),
        RemoteIDMessage::OperatorId(o) => lemma_operator_id_round_trip(o),
        _ => (),
    }
}

/// What "up to the quantization step" means: within the documented ranges
/// the round-tripped image keeps every enumerated field, the coordinates,
/// the track direction, the timestamp and its accuracy exactly, and moves
/// each remaining quantity down by less than one step — 4 m/s for speeds on
/// the fine scale, 0.75 m/s above the threshold, 0.5 m/s for the vertical
/// speed, 0.5 m for the altitudes.
pub proof fn lemma_quantize_within_step(l: Location)
    requires
        l.in_range(),
    ensures
        ({
            let q = l.quantize();
            &&& q.operational_status == l.operational_status
            &&& q.height_type == l.height_type
            &&& q.horizontal_accuracy == l.horizontal_accuracy
            &&& q.vertical_accuracy == l.vertical_accuracy
            &&& q.baro_altitude_accuracy == l.baro_altitude_accuracy
            &&& q.speed_accuracy == l.speed_accuracy
            &&& q.track_direction == l.track_direction
            &&& q.latitude_deg_e7 == l.latitude_deg_e7
            &&& q.longitude_deg_e7 == l.longitude_deg_e7
            &&& q.timestamp_ds == l.timestamp_ds
            &&& q.timestamp_accuracy_ds == l.timestamp_accuracy_ds
            &&& l.speed_cm_s - (if l.speed_cm_s <= 6375 {
                400int
            } else {
                75int
            }) < q.speed_cm_s <= l.speed_cm_s
            &&& l.vertical_speed_cm_s - 50 < q.vertical_speed_cm_s <= l.vertical_speed_cm_s
            &&& l.pressure_altitude_cm - 50 < q.pressure_altitude_cm <= l.pressure_altitude_cm
            &&& l.geodetic_altitude_cm - 50 < q.geodetic_altitude_cm <= l.geodetic_altitude_cm
            &&& l.height_cm - 50 < q.height_cm <= l.height_cm
        }),
{
    crate::scale::lemma_track_round_trip(l.track_direction as int);
    crate::scale::lemma_speed_round_trip(l.speed_cm_s as int);
    crate::scale::lemma_vertical_speed_round_trip(l.vertical_speed_cm_s as int);
    crate::scale::lemma_altitude_round_trip(l.pressure_altitude_cm as int);
    crate::scale::lemma_altitude_round_trip(l.geodetic_altitude_cm as int);
    crate::scale::lemma_altitude_round_trip(l.height_cm as int);
}

/// Speed encoding is monotone: as the speed grows, the speed-multiplier
/// flag never falls, and while the flag is unchanged the encoded byte never
/// falls.  The step size changes at the 63.75 m/s threshold, and the byte
/// restarts from 0 there — so the byte alone is ordered only together with
/// the flag.
pub proof fn lemma_speed_encoding_monotonic(s1: int, s2: int)
    requires
        0 <= s1 <= s2,
    ensures
        speed_multiplier(s1) <= speed_multiplier(s2),
        speed_multiplier(s1) == speed_multiplier(s2) ==> speed_to_byte(s1) <= speed_to_byte(s2),
{
    if s2 <= 6375 {
        lemma_div_is_ordered(s1, s2, 400);
    } else if 6375 < s1 {
        if s2 < 25425 {
            lemma_div_is_ordered(s1 - 6375, s2 - 6375, 75);
        } else if s1 < 25425 {
            lemma_div_is_ordered(s1 - 6375, 19049, 75);
        }
    }
}

} // verus!
