//! Scaled-value conversions between physical quantities and their fixed-point
//! wire fields.
//!
//! Every physical quantity of the data model is held as an integer in a unit
//! fine enough for the wire format (centimetres, centimetres per second,
//! tenths of a second, 1e-7 degrees).  Each conversion here is a pure
//! function; the `*_to_*` direction is used by the encoder, the `*_from_*`
//! direction by the decoder, and the lemmas state how far a value can move on
//! a round trip (its quantization step).

use vstd::prelude::*;

verus! {

use vstd::arithmetic::div_mod::lemma_fundamental_div_mod;

/// Speed above which the wire format switches from 0.25 m/s steps to
/// 0.75 m/s steps, in cm/s.
pub const SPEED_LOW_MAX_CM_S: u32 = 6375;

/// Least speed that the wire format can no longer represent, in cm/s.
pub const SPEED_HIGH_LIMIT_CM_S: u32 = 25425;

/// Wire code standing for a speed too large to represent.
pub const SPEED_SENTINEL: u8 = 254;

/// The speed-multiplier flag: set when the speed exceeds the range of the
/// fine-grained scale.
pub open spec fn speed_multiplier(speed_cm_s: int) -> u8 {
    if speed_cm_s > 6375 {
        1
    } else {
        0
    }
}

/// Forward speed scale: 4 m/s steps below the threshold, 0.75 m/s steps
/// above it, and a sentinel beyond the representable range.
pub open spec fn speed_to_byte(speed_cm_s: int) -> u8 {
    if speed_cm_s <= 6375 {
        (speed_cm_s / 400) as u8
    } else if speed_cm_s < 25425 {
        ((speed_cm_s - 6375) / 75) as u8
    } else {
        254u8
    }
}

/// Inverse speed scale, selected by the speed-multiplier flag.
pub open spec fn speed_from_byte(multiplied: bool, code: u8) -> u32 {
    if multiplied {
        (6375 + code * 75) as u32
    } else {
        (code * 400) as u32
    }
}

/// Vertical speed scale: one wire step is 50 cm/s, saturating at the top.
pub open spec fn vertical_speed_to_byte(v_cm_s: int) -> u8 {
    if v_cm_s / 50 > 255 {
        255u8
    } else {
        (v_cm_s / 50) as u8
    }
}

/// Inverse vertical speed scale.
pub open spec fn vertical_speed_from_byte(code: u8) -> u16 {
    (code * 50) as u16
}

/// Altitude scale: one wire step is 50 cm, offset so that -1000 m maps to 0,
/// clamped to the 16-bit field.
pub open spec fn altitude_to_field(alt_cm: int) -> u16 {
    let q = (alt_cm + 100000) / 50;
    if q < 0 {
        0u16
    } else if q > 65535 {
        65535u16
    } else {
        q as u16
    }
}

/// Inverse altitude scale.
pub open spec fn altitude_from_field(field: u16) -> i32 {
    (field * 50 - 100000) as i32
}

/// The east/west direction-segment flag: set when the track direction
/// exceeds 180 degrees.
pub open spec fn track_ew_flag(track_deg: int) -> u8 {
    if track_deg > 180 {
        1
    } else {
        0
    }
}

/// Forward track scale: directions above 180 degrees are stored reduced by
/// 180, to be recovered through the east/west flag.
pub open spec fn track_to_byte(track_deg: int) -> u8
    recommends
        0 <= track_deg <= 360,
{
    if track_deg > 180 {
        (track_deg - 180) as u8
    } else {
        track_deg as u8
    }
}

/// Inverse track scale, selected by the east/west flag.
pub open spec fn track_from_byte(ew: bool, code: u8) -> u16 {
    if ew {
        (code + 180) as u16
    } else {
        code as u16
    }
}

/// Two's-complement image of a signed coordinate in the unsigned 32-bit
/// wire field.
pub open spec fn u32_of_i32(v: i32) -> u32 {
    if v >= 0 {
        v as u32
    } else {
        (v + 0x1_0000_0000) as u32
    }
}

/// Signed coordinate recovered from its two's-complement wire field.
pub open spec fn i32_of_u32(v: u32) -> i32 {
    if v < 0x8000_0000 {
        v as i32
    } else {
        (v - 0x1_0000_0000) as i32
    }
}

/// Timestamp-accuracy byte: tenths of a second, with 0 standing for
/// "not reported".
pub open spec fn ts_accuracy_to_byte(acc: Option<u8>) -> u8 {
    match acc {
        Some(v) => v,
        None => 0u8,
    }
}

/// Inverse of the timestamp-accuracy byte; 0 folds to "not reported".
pub open spec fn ts_accuracy_from_byte(code: u8) -> Option<u8> {
    if code == 0 {
        None
    } else {
        Some(code)
    }
}

pub fn encode_speed(speed_cm_s: u32) -> (r: u8)
    ensures
        r == speed_to_byte(speed_cm_s as int),
{
    if speed_cm_s <= SPEED_LOW_MAX_CM_S {
        (speed_cm_s / 400) as u8
    } else if speed_cm_s < SPEED_HIGH_LIMIT_CM_S {
        ((speed_cm_s - SPEED_LOW_MAX_CM_S) / 75) as u8
    } else {
        SPEED_SENTINEL
    }
}

pub fn decode_speed(multiplied: bool, code: u8) -> (r: u32)
    ensures
        r == speed_from_byte(multiplied, code),
{
    if multiplied {
        6375 + (code as u32) * 75
    } else {
        (code as u32) * 400
    }
}

pub fn encode_vertical_speed(v_cm_s: u16) -> (r: u8)
    ensures
        r == vertical_speed_to_byte(v_cm_s as int),
{
    let q = v_cm_s / 50;
    if q > 255 {
        255
    } else {
        q as u8
    }
}

pub fn decode_vertical_speed(code: u8) -> (r: u16)
    ensures
        r == vertical_speed_from_byte(code),
{
    (code as u16) * 50
}

pub fn encode_altitude(alt_cm: i32) -> (r: u16)
    ensures
        r == altitude_to_field(alt_cm as int),
{
    let shifted: i64 = (alt_cm as i64) + 100000;
    if shifted < 0 {
        0
    } else {
        let q = (shifted as u64) / 50;
        if q > 65535 {
            65535
        } else {
            q as u16
        }
    }
}

pub fn decode_altitude(field: u16) -> (r: i32)
    ensures
        r == altitude_from_field(field),
{
    let v: i64 = (field as i64) * 50 - 100000;
    v as i32
}

pub fn encode_track(track_deg: u16) -> (r: u8)
    requires
        track_deg <= 360,
    ensures
        r == track_to_byte(track_deg as int),
{
    if track_deg > 180 {
        (track_deg - 180) as u8
    } else {
        track_deg as u8
    }
}

pub fn decode_track(ew: bool, code: u8) -> (r: u16)
    ensures
        r == track_from_byte(ew, code),
{
    if ew {
        (code as u16) + 180
    } else {
        code as u16
    }
}

pub fn i32_to_wire(v: i32) -> (r: u32)
    ensures
        r == u32_of_i32(v),
{
    if v >= 0 {
        v as u32
    } else {
        ((v as i64) + 0x1_0000_0000i64) as u32
    }
}

pub fn wire_to_i32(v: u32) -> (r: i32)
    ensures
        r == i32_of_u32(v),
{
    if v < 0x8000_0000 {
        v as i32
    } else {
        ((v as i64) - 0x1_0000_0000i64) as i32
    }
}

/// The wire coordinate encoding loses nothing: every signed 32-bit
/// coordinate survives the two's-complement round trip.
pub proof fn lemma_coordinate_round_trip(v: i32)
    ensures
        i32_of_u32(u32_of_i32(v)) == v,
{
}

/// A track direction within its documented range survives its round trip
/// exactly.
pub proof fn lemma_track_round_trip(track_deg: int)
    requires
        0 <= track_deg <= 360,
    ensures
        track_from_byte(track_ew_flag(track_deg) == 1, track_to_byte(track_deg)) == track_deg,
{
}

/// On a round trip a speed within the representable range moves down to the
/// nearest step boundary; beyond the range it comes back as the top value.
pub proof fn lemma_speed_round_trip(speed_cm_s: int)
    requires
        0 <= speed_cm_s,
    ensures
        ({
            let back = speed_from_byte(
                speed_multiplier(speed_cm_s) == 1,
                speed_to_byte(speed_cm_s),
            );
            &&& speed_cm_s <= 6375 ==> back == speed_cm_s - speed_cm_s % 400
            &&& 6375 < speed_cm_s < 25425 ==> back == speed_cm_s - (speed_cm_s - 6375) % 75
            &&& speed_cm_s >= 25425 ==> back == 25425
        }),
{
    if speed_cm_s <= 6375 {
        lemma_fundamental_div_mod(speed_cm_s, 400);
    } else if speed_cm_s < 25425 {
        lemma_fundamental_div_mod(speed_cm_s - 6375, 75);
    }
}

/// On a round trip a vertical speed moves down to the nearest 50 cm/s
/// boundary, or saturates at the largest representable value.
pub proof fn lemma_vertical_speed_round_trip(v_cm_s: int)
    requires
        0 <= v_cm_s,
    ensures
        ({
            let back = vertical_speed_from_byte(vertical_speed_to_byte(v_cm_s));
            &&& v_cm_s < 12800 ==> back == v_cm_s - v_cm_s % 50
            &&& v_cm_s >= 12800 ==> back == 12750
        }),
{
    lemma_fundamental_div_mod(v_cm_s, 50);
}

/// On a round trip an altitude within the documented range moves down to
/// the nearest 50 cm boundary.
pub proof fn lemma_altitude_round_trip(alt_cm: int)
    requires
        -100000 <= alt_cm <= 3176750,
    ensures
        altitude_from_field(altitude_to_field(alt_cm)) == alt_cm - (alt_cm + 100000) % 50,
        alt_cm - 50 < altitude_from_field(altitude_to_field(alt_cm)) <= alt_cm,
{
    lemma_fundamental_div_mod(alt_cm + 100000, 50);
}

} // verus!
