//! The Location/Vector message: position, speeds, altitudes and the small
//! enumerated code tables that qualify them.
//!
//! Every enumerated field maps to a closed sub-range of byte values.  Decoding
//! a byte outside the sub-range folds to the field's `Unknown` value (a
//! receiver must stay tolerant of reserved codes); encoding `Unknown` always
//! yields 0.

use vstd::prelude::*;

verus! {

use crate::scale::{
    speed_multiplier, speed_to_byte, track_ew_flag, track_to_byte, vertical_speed_to_byte,
    altitude_to_field, ts_accuracy_to_byte,
};

/// Vertical accuracy class; also reused for the barometric-altitude
/// accuracy field.  Codes 0 through 6; anything else folds to `Unknown`.
#[allow(non_camel_case_types)]
#[derive(Debug, Copy, Clone, PartialEq, Eq, Structural)]
pub enum VerticalAccuracy {
    /// >= 150 m or unknown
    Unknown,
    LessThan_150_m,
    LessThan_45_m,
    LessThan_25_m,
    LessThan_10_m,
    LessThan_3_m,
    LessThan_1_m,
}

impl VerticalAccuracy {
    pub open spec fn spec_code(self) -> u8 {
        match self {
            VerticalAccuracy::Unknown => 0,
            VerticalAccuracy::LessThan_150_m => 1,
            VerticalAccuracy::LessThan_45_m => 2,
            VerticalAccuracy::LessThan_25_m => 3,
            VerticalAccuracy::LessThan_10_m => 4,
            VerticalAccuracy::LessThan_3_m => 5,
            VerticalAccuracy::LessThan_1_m => 6,
        }
    }

    pub open spec fn spec_from_code(code: u8) -> Self {
        match code {
            0u8 => VerticalAccuracy::Unknown,
            1u8 => VerticalAccuracy::LessThan_150_m,
            2u8 => VerticalAccuracy::LessThan_45_m,
            3u8 => VerticalAccuracy::LessThan_25_m,
            4u8 => VerticalAccuracy::LessThan_10_m,
            5u8 => VerticalAccuracy::LessThan_3_m,
            6u8 => VerticalAccuracy::LessThan_1_m,
            _ => VerticalAccuracy::Unknown,
        }
    }

    pub fn to_code(self) -> (r: u8)
        ensures
            r == self.spec_code(),
            r <= 6,
    {
        match self {
            VerticalAccuracy::Unknown => 0,
            VerticalAccuracy::LessThan_150_m => 1,
            VerticalAccuracy::LessThan_45_m => 2,
            VerticalAccuracy::LessThan_25_m => 3,
            VerticalAccuracy::LessThan_10_m => 4,
            VerticalAccuracy::LessThan_3_m => 5,
            VerticalAccuracy::LessThan_1_m => 6,
        }
    }

    /// Total on every byte: reserved codes fold to `Unknown`, they are not
    /// an error.
    pub fn from_code(code: u8) -> (r: Self)
        ensures
            r == Self::spec_from_code(code),
    {
        match code {
            0 => VerticalAccuracy::Unknown,
            1 => VerticalAccuracy::LessThan_150_m,
            2 => VerticalAccuracy::LessThan_45_m,
            3 => VerticalAccuracy::LessThan_25_m,
            4 => VerticalAccuracy::LessThan_10_m,
            5 => VerticalAccuracy::LessThan_3_m,
            6 => VerticalAccuracy::LessThan_1_m,
            _ => VerticalAccuracy::Unknown,
        }
    }
}

/// Horizontal accuracy class.  Codes 0 through 12; anything else folds to
/// `Unknown`.
#[allow(non_camel_case_types)]
#[derive(Debug, Copy, Clone, PartialEq, Eq, Structural)]
pub enum HorizontalAccuracy {
    /// >= 18.52 km (10 NM) or unknown
    Unknown,
    /// < 18.52 km
    LessThan_10_NM,
    /// < 7.408 km
    LessThan_4_NM,
    /// < 3.704 km
    LessThan_2_NM,
    /// < 1852 m
    LessThan_1_NM,
    /// < 926 m
    LessThan_half_NM,
    /// < 555.6 m
    LessThan_third_NM,
    /// < 185.2 m
    LessThan_tenth_NM,
    /// < 92.6 m
    LessThan_twentieth_NM,
    /// < 30 m
    LessThan_30_m,
    /// < 10 m
    LessThan_10_m,
    /// < 3 m
    LessThan_3_m,
    /// < 1 m
    LessThan_1_m,
}

impl HorizontalAccuracy {
    pub open spec fn spec_code(self) -> u8 {
        match self {
            HorizontalAccuracy::Unknown => 0,
            HorizontalAccuracy::LessThan_10_NM => 1,
            HorizontalAccuracy::LessThan_4_NM => 2,
            HorizontalAccuracy::LessThan_2_NM => 3,
            HorizontalAccuracy::LessThan_1_NM => 4,
            HorizontalAccuracy::LessThan_half_NM => 5,
            HorizontalAccuracy::LessThan_third_NM => 6,
            HorizontalAccuracy::LessThan_tenth_NM => 7,
            HorizontalAccuracy::LessThan_twentieth_NM => 8,
            HorizontalAccuracy::LessThan_30_m => 9,
            HorizontalAccuracy::LessThan_10_m => 10,
            HorizontalAccuracy::LessThan_3_m => 11,
            HorizontalAccuracy::LessThan_1_m => 12,
        }
    }

    pub open spec fn spec_from_code(code: u8) -> Self {
        match code {
            0u8 => HorizontalAccuracy::Unknown,
            1u8 => HorizontalAccuracy::LessThan_10_NM,
            2u8 => HorizontalAccuracy::LessThan_4_NM,
            3u8 => HorizontalAccuracy::LessThan_2_NM,
            4u8 => HorizontalAccuracy::LessThan_1_NM,
            5u8 => HorizontalAccuracy::LessThan_half_NM,
            6u8 => HorizontalAccuracy::LessThan_third_NM,
            7u8 => HorizontalAccuracy::LessThan_tenth_NM,
            8u8 => HorizontalAccuracy::LessThan_twentieth_NM,
            9u8 => HorizontalAccuracy::LessThan_30_m,
            10u8 => HorizontalAccuracy::LessThan_10_m,
            11u8 => HorizontalAccuracy::LessThan_3_m,
            12u8 => HorizontalAccuracy::LessThan_1_m,
            _ => HorizontalAccuracy::Unknown,
        }
    }

    pub fn to_code(self) -> (r: u8)
        ensures
            r == self.spec_code(),
            r <= 12,
    {
        match self {
            HorizontalAccuracy::Unknown => 0,
            HorizontalAccuracy::LessThan_10_NM => 1,
            HorizontalAccuracy::LessThan_4_NM => 2,
            HorizontalAccuracy::LessThan_2_NM => 3,
            HorizontalAccuracy::LessThan_1_NM => 4,
            HorizontalAccuracy::LessThan_half_NM => 5,
            HorizontalAccuracy::LessThan_third_NM => 6,
            HorizontalAccuracy::LessThan_tenth_NM => 7,
            HorizontalAccuracy::LessThan_twentieth_NM => 8,
            HorizontalAccuracy::LessThan_30_m => 9,
            HorizontalAccuracy::LessThan_10_m => 10,
            HorizontalAccuracy::LessThan_3_m => 11,
            HorizontalAccuracy::LessThan_1_m => 12,
        }
    }

    /// Total on every byte: reserved codes fold to `Unknown`.
    pub fn from_code(code: u8) -> (r: Self)
        ensures
            r == Self::spec_from_code(code),
    {
        match code {
            0 => HorizontalAccuracy::Unknown,
            1 => HorizontalAccuracy::LessThan_10_NM,
            2 => HorizontalAccuracy::LessThan_4_NM,
            3 => HorizontalAccuracy::LessThan_2_NM,
            4 => HorizontalAccuracy::LessThan_1_NM,
            5 => HorizontalAccuracy::LessThan_half_NM,
            6 => HorizontalAccuracy::LessThan_third_NM,
            7 => HorizontalAccuracy::LessThan_tenth_NM,
            8 => HorizontalAccuracy::LessThan_twentieth_NM,
            9 => HorizontalAccuracy::LessThan_30_m,
            10 => HorizontalAccuracy::LessThan_10_m,
            11 => HorizontalAccuracy::LessThan_3_m,
            12 => HorizontalAccuracy::LessThan_1_m,
            _ => HorizontalAccuracy::Unknown,
        }
    }
}

/// Speed accuracy class.  Codes 0 through 4; anything else folds to
/// `Unknown`.
#[allow(non_camel_case_types)]
#[derive(Debug, Copy, Clone, PartialEq, Eq, Structural)]
pub enum SpeedAccuracy {
    /// >= 10 m/s or unknown
    Unknown,
    /// < 10 m/s
    LessThan_10_mps,
    /// < 3 m/s
    LessThan_3_mps,
    /// < 1 m/s
    LessThan_1_mps,
    /// < 0.3 m/s
    LessThan_third_mps,
}

impl SpeedAccuracy {
    pub open spec fn spec_code(self) -> u8 {
        match self {
            SpeedAccuracy::Unknown => 0,
            SpeedAccuracy::LessThan_10_mps => 1,
            SpeedAccuracy::LessThan_3_mps => 2,
            SpeedAccuracy::LessThan_1_mps => 3,
            SpeedAccuracy::LessThan_third_mps => 4,
        }
    }

    pub open spec fn spec_from_code(code: u8) -> Self {
        match code {
            0u8 => SpeedAccuracy::Unknown,
            1u8 => SpeedAccuracy::LessThan_10_mps,
            2u8 => SpeedAccuracy::LessThan_3_mps,
            3u8 => SpeedAccuracy::LessThan_1_mps,
            4u8 => SpeedAccuracy::LessThan_third_mps,
            _ => SpeedAccuracy::Unknown,
        }
    }

    pub fn to_code(self) -> (r: u8)
        ensures
            r == self.spec_code(),
            r <= 4,
    {
        match self {
            SpeedAccuracy::Unknown => 0,
            SpeedAccuracy::LessThan_10_mps => 1,
            SpeedAccuracy::LessThan_3_mps => 2,
            SpeedAccuracy::LessThan_1_mps => 3,
            SpeedAccuracy::LessThan_third_mps => 4,
        }
    }

    /// Total on every byte: reserved codes fold to `Unknown`.
    pub fn from_code(code: u8) -> (r: Self)
        ensures
            r == Self::spec_from_code(code),
    {
        match code {
            0 => SpeedAccuracy::Unknown,
            1 => SpeedAccuracy::LessThan_10_mps,
            2 => SpeedAccuracy::LessThan_3_mps,
            3 => SpeedAccuracy::LessThan_1_mps,
            4 => SpeedAccuracy::LessThan_third_mps,
            _ => SpeedAccuracy::Unknown,
        }
    }
}

/// Operational status of the aircraft.  Codes 0 through 4; anything else
/// folds to `Undeclared`.
#[derive(Debug, Copy, Clone, PartialEq, Eq, Structural)]
pub enum OperationalStatus {
    Undeclared,
    Ground,
    Airborne,
    Emergency,
    RemoteIdSystemFailure,
}

impl OperationalStatus {
    pub open spec fn spec_code(self) -> u8 {
        match self {
            OperationalStatus::Undeclared => 0,
            OperationalStatus::Ground => 1,
            OperationalStatus::Airborne => 2,
            OperationalStatus::Emergency => 3,
            OperationalStatus::RemoteIdSystemFailure => 4,
        }
    }

    pub open spec fn spec_from_code(code: u8) -> Self {
        match code {
            1u8 => OperationalStatus::Ground,
            2u8 => OperationalStatus::Airborne,
            3u8 => OperationalStatus::Emergency,
            4u8 => OperationalStatus::RemoteIdSystemFailure,
            _ => OperationalStatus::Undeclared,
        }
    }

    pub fn to_code(self) -> (r: u8)
        ensures
            r == self.spec_code(),
            r <= 4,
    {
        match self {
            OperationalStatus::Undeclared => 0,
            OperationalStatus::Ground => 1,
            OperationalStatus::Airborne => 2,
            OperationalStatus::Emergency => 3,
            OperationalStatus::RemoteIdSystemFailure => 4,
        }
    }

    /// Total on every byte: reserved codes fold to `Undeclared`.
    pub fn from_code(code: u8) -> (r: Self)
        ensures
            r == Self::spec_from_code(code),
    {
        match code {
            1 => OperationalStatus::Ground,
            2 => OperationalStatus::Airborne,
            3 => OperationalStatus::Emergency,
            4 => OperationalStatus::RemoteIdSystemFailure,
            _ => OperationalStatus::Undeclared,
        }
    }
}

/// Reference surface for the height field.  A single wire bit; anything
/// else folds to `AboveTakeoff`.
#[derive(Debug, Copy, Clone, PartialEq, Eq, Structural)]
pub enum HeightType {
    AboveTakeoff,
    AboveGroundLevel,
}

impl HeightType {
    pub open spec fn spec_code(self) -> u8 {
        match self {
            HeightType::AboveTakeoff => 0,
            HeightType::AboveGroundLevel => 1,
        }
    }

    pub open spec fn spec_from_code(code: u8) -> Self {
        match code {
            1u8 => HeightType::AboveGroundLevel,
            _ => HeightType::AboveTakeoff,
        }
    }

    pub fn to_code(self) -> (r: u8)
        ensures
            r == self.spec_code(),
            r <= 1,
    {
        match self {
            HeightType::AboveTakeoff => 0,
            HeightType::AboveGroundLevel => 1,
        }
    }

    pub fn from_code(code: u8) -> (r: Self)
        ensures
            r == Self::spec_from_code(code),
    {
        match code {
            1 => HeightType::AboveGroundLevel,
            _ => HeightType::AboveTakeoff,
        }
    }
}

/// A Location/Vector message.
///
/// Physical quantities are held as fixed-point integers: speeds in cm/s,
/// altitudes and height in cm, coordinates in 1e-7 degrees, the timestamp in
/// tenths of a second since the start of the current hour, and the optional
/// timestamp accuracy in tenths of a second (`None` when not reported).
#[derive(Debug, Copy, Clone, PartialEq)]
pub struct Location {
    pub operational_status: OperationalStatus,
    pub height_type: HeightType,
    /// Ground speed in cm/s.
    pub speed_cm_s: u32,
    /// Vertical speed in cm/s.
    pub vertical_speed_cm_s: u16,
    /// Pressure altitude in cm.
    pub pressure_altitude_cm: i32,
    /// Geodetic altitude in cm.
    pub geodetic_altitude_cm: i32,
    /// Route course measured clockwise from true north, in whole degrees.
    pub track_direction: u16,
    pub horizontal_accuracy: HorizontalAccuracy,
    pub vertical_accuracy: VerticalAccuracy,
    /// Latitude in 1e-7 degrees; negative is the southern hemisphere.
    pub latitude_deg_e7: i32,
    /// Longitude in 1e-7 degrees; negative is the western hemisphere.
    pub longitude_deg_e7: i32,
    /// Height above the reference surface in cm.
    pub height_cm: i32,
    pub baro_altitude_accuracy: VerticalAccuracy,
    pub speed_accuracy: SpeedAccuracy,
    /// Tenths of a second since the start of the current hour.
    pub timestamp_ds: u16,
    /// Timestamp accuracy in tenths of a second; `None` when not reported.
    pub timestamp_accuracy_ds: Option<u8>,
}

impl Location {
    /// What the encoder demands: a track direction on the compass.
    pub open spec fn wf(self) -> bool {
        self.track_direction <= 360
    }

    /// The documented representable range of every field: within it a round
    /// trip moves each quantity by less than its quantization step.
    pub open spec fn in_range(self) -> bool {
        &&& self.wf()
        &&& self.speed_cm_s < 25425
        &&& self.vertical_speed_cm_s < 12800
        &&& -100000 <= self.pressure_altitude_cm <= 3176750
        &&& -100000 <= self.geodetic_altitude_cm <= 3176750
        &&& -100000 <= self.height_cm <= 3176750
        &&& self.timestamp_accuracy_ds != Some(0u8)
    }

    /// The value that survives a round trip through the wire: every
    /// quantity lands on the step boundary at or below it.
    pub open spec fn quantize(self) -> Location {
        Location {
            speed_cm_s: crate::scale::speed_from_byte(
                speed_multiplier(self.speed_cm_s as int) == 1,
                speed_to_byte(self.speed_cm_s as int),
            ),
            vertical_speed_cm_s: crate::scale::vertical_speed_from_byte(
                vertical_speed_to_byte(self.vertical_speed_cm_s as int),
            ),
            pressure_altitude_cm: crate::scale::altitude_from_field(
                altitude_to_field(self.pressure_altitude_cm as int),
            ),
            geodetic_altitude_cm: crate::scale::altitude_from_field(
                altitude_to_field(self.geodetic_altitude_cm as int),
            ),
            height_cm: crate::scale::altitude_from_field(
                altitude_to_field(self.height_cm as int),
            ),
            track_direction: crate::scale::track_from_byte(
                track_ew_flag(self.track_direction as int) == 1,
                track_to_byte(self.track_direction as int),
            ),
            timestamp_accuracy_ds: crate::scale::ts_accuracy_from_byte(
                ts_accuracy_to_byte(self.timestamp_accuracy_ds),
            ),
            ..self
        }
    }
}

} // verus!
