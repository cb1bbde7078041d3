//! The Basic ID message: what kind of identifier the aircraft broadcasts,
//! what kind of aircraft it is, and the 20-byte identifier itself.

use vstd::prelude::*;

verus! {

/// Kind of identifier carried in the `uas_id` buffer.  Codes 0 through 4;
/// reserved codes fold to `NotDeclared` on decode.
#[derive(Debug, Copy, Clone, PartialEq, Eq, Structural)]
pub enum IdType {
    NotDeclared,
    SerialNumber,
    CaaRegistrationId,
    UtmAssignedUuid,
    SpecificSessionId,
}

impl IdType {
    pub open spec fn spec_code(self) -> u8 {
        match self {
            IdType::NotDeclared => 0,
            IdType::SerialNumber => 1,
            IdType::CaaRegistrationId => 2,
            IdType::UtmAssignedUuid => 3,
            IdType::SpecificSessionId => 4,
        }
    }

    pub open spec fn spec_from_code(code: u8) -> Self {
        match code {
            1u8 => IdType::SerialNumber,
            2u8 => IdType::CaaRegistrationId,
            3u8 => IdType::UtmAssignedUuid,
            4u8 => IdType::SpecificSessionId,
            _ => IdType::NotDeclared,
        }
    }

    pub fn to_code(self) -> (r: u8)
        ensures
            r == self.spec_code(),
            r <= 4,
    {
        match self {
            IdType::NotDeclared => 0,
            IdType::SerialNumber => 1,
            IdType::CaaRegistrationId => 2,
            IdType::UtmAssignedUuid => 3,
            IdType::SpecificSessionId => 4,
        }
    }

    /// Total on every nibble: reserved codes fold to `NotDeclared`.
    pub fn from_code(code: u8) -> (r: Self)
        ensures
            r == Self::spec_from_code(code),
    {
        match code {
            1 => IdType::SerialNumber,
            2 => IdType::CaaRegistrationId,
            3 => IdType::UtmAssignedUuid,
            4 => IdType::SpecificSessionId,
            _ => IdType::NotDeclared,
        }
    }
}

/// Kind of unmanned aircraft.  All sixteen nibble values are defined, so
/// this field decodes exactly.
#[derive(Debug, Copy, Clone, PartialEq, Eq, Structural)]
pub enum UAType {
    NotDeclared,
    Aeroplane,
    Helicopter,
    Gyroplane,
    HybridLift,
    Ornithopter,
    Glider,
    Kite,
    FreeBalloon,
    CaptiveBalloon,
    Airship,
    FreeFallParachute,
    Rocket,
    TetheredPoweredAircraft,
    GroundObstacle,
    Other,
}

impl UAType {
    pub open spec fn spec_code(self) -> u8 {
        match self {
            UAType::NotDeclared => 0,
            UAType::Aeroplane => 1,
            UAType::Helicopter => 2,
            UAType::Gyroplane => 3,
            UAType::HybridLift => 4,
            UAType::Ornithopter => 5,
            UAType::Glider => 6,
            UAType::Kite => 7,
            UAType::FreeBalloon => 8,
            UAType::CaptiveBalloon => 9,
            UAType::Airship => 10,
            UAType::FreeFallParachute => 11,
            UAType::Rocket => 12,
            UAType::TetheredPoweredAircraft => 13,
            UAType::GroundObstacle => 14,
            UAType::Other => 15,
        }
    }

    pub open spec fn spec_from_code(code: u8) -> Self {
        match code {
            0u8 => UAType::NotDeclared,
            1u8 => UAType::Aeroplane,
            2u8 => UAType::Helicopter,
            3u8 => UAType::Gyroplane,
            4u8 => UAType::HybridLift,
            5u8 => UAType::Ornithopter,
            6u8 => UAType::Glider,
            7u8 => UAType::Kite,
            8u8 => UAType::FreeBalloon,
            9u8 => UAType::CaptiveBalloon,
            10u8 => UAType::Airship,
            11u8 => UAType::FreeFallParachute,
            12u8 => UAType::Rocket,
            13u8 => UAType::TetheredPoweredAircraft,
            14u8 => UAType::GroundObstacle,
            _ => UAType::Other,
        }
    }

    pub fn to_code(self) -> (r: u8)
        ensures
            r == self.spec_code(),
            r <= 15,
    {
        match self {
            UAType::NotDeclared => 0,
            UAType::Aeroplane => 1,
            UAType::Helicopter => 2,
            UAType::Gyroplane => 3,
            UAType::HybridLift => 4,
            UAType::Ornithopter => 5,
            UAType::Glider => 6,
            UAType::Kite => 7,
            UAType::FreeBalloon => 8,
            UAType::CaptiveBalloon => 9,
            UAType::Airship => 10,
            UAType::FreeFallParachute => 11,
            UAType::Rocket => 12,
            UAType::TetheredPoweredAircraft => 13,
            UAType::GroundObstacle => 14,
            UAType::Other => 15,
        }
    }

    pub fn from_code(code: u8) -> (r: Self)
        ensures
            r == Self::spec_from_code(code),
    {
        match code {
            0 => UAType::NotDeclared,
            1 => UAType::Aeroplane,
            2 => UAType::Helicopter,
            3 => UAType::Gyroplane,
            4 => UAType::HybridLift,
            5 => UAType::Ornithopter,
            6 => UAType::Glider,
            7 => UAType::Kite,
            8 => UAType::FreeBalloon,
            9 => UAType::CaptiveBalloon,
            10 => UAType::Airship,
            11 => UAType::FreeFallParachute,
            12 => UAType::Rocket,
            13 => UAType::TetheredPoweredAircraft,
            14 => UAType::GroundObstacle,
            _ => UAType::Other,
        }
    }
}

/// A Basic ID message.  The identifier buffer is always exactly 20 bytes on
/// the wire; see `copy_to_id` for the padding and truncation rule.
#[derive(Debug, Copy, Clone, PartialEq)]
pub struct BasicId {
    pub id_type: IdType,
    pub ua_type: UAType,
    pub uas_id: [u8; 20],
}

} // verus!
