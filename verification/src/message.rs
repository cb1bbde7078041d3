//! The closed set of Remote ID message variants, the 4-bit wire code that
//! selects among them, and the codec's error type.

use vstd::prelude::*;

verus! {

use crate::basic_id::BasicId;
use crate::location::Location;
use crate::operator_id::OperatorId;

/// Why an encode or decode call failed.
///
/// Field-level out-of-range codes are not errors — they fold to each field's
/// `Unknown` value — so these three cover everything the codec can refuse.
#[derive(Debug, Copy, Clone, PartialEq, Eq, Structural)]
pub enum CodecError {
    /// The encoder was handed a variant it does not implement.
    UnsupportedMessageType,
    /// The decoder saw a message-type nibble outside the known set.
    UnknownMessageType,
    /// The decoder was handed fewer bytes than the message needs.
    TruncatedBuffer,
}

/// The 4-bit message-type code carried in the high nibble of the first
/// message byte.
#[derive(Debug, Copy, Clone, PartialEq, Eq, Structural)]
pub enum MessageType {
    BasicId,
    Location,
    Auth,
    SelfId,
    System,
    OperatorId,
    MessagePack,
    Invalid,
}

impl MessageType {
    pub open spec fn spec_from_code(code: u8) -> Self {
        match code {
            0u8 => MessageType::BasicId,
            1u8 => MessageType::Location,
            2u8 => MessageType::Auth,
            3u8 => MessageType::SelfId,
            4u8 => MessageType::System,
            5u8 => MessageType::OperatorId,
            15u8 => MessageType::MessagePack,
            _ => MessageType::Invalid,
        }
    }

    /// Total on every nibble; a code outside the table gives `Invalid`,
    /// which the decoder reports as an unknown message type.
    pub fn from_code(code: u8) -> (r: Self)
        ensures
            r == Self::spec_from_code(code),
    {
        match code {
            0 => MessageType::BasicId,
            1 => MessageType::Location,
            2 => MessageType::Auth,
            3 => MessageType::SelfId,
            4 => MessageType::System,
            5 => MessageType::OperatorId,
            15 => MessageType::MessagePack,
            _ => MessageType::Invalid,
        }
    }
}

/// A Remote ID broadcast message.  Exactly one variant is active per
/// encoded frame; the variant is carried on the wire as the message-type
/// nibble.
///
/// The codec implements `BasicID`, `Location` and `OperatorId`.  The
/// remaining variants are part of the closed wire code table; asking the
/// encoder for one of them is a recoverable `UnsupportedMessageType` error,
/// never an abort.
#[derive(Debug, Copy, Clone, PartialEq)]
pub enum RemoteIDMessage {
    BasicID(BasicId),
    Location(Location),
    Auth,
    SelfId,
    System,
    OperatorId(OperatorId),
    MessagePack,
}

impl RemoteIDMessage {
    /// The message-type nibble this variant is carried under.
    pub open spec fn spec_type_code(self) -> u8 {
        match self {
            RemoteIDMessage::BasicID(_) => 0,
            RemoteIDMessage::Location(_) => 1,
            RemoteIDMessage::Auth => 2,
            RemoteIDMessage::SelfId => 3,
            RemoteIDMessage::System => 4,
            RemoteIDMessage::OperatorId(_) => 5,
            RemoteIDMessage::MessagePack => 15,
        }
    }

    /// Whether the codec implements this variant.
    pub open spec fn spec_implemented(self) -> bool {
        match self {
            RemoteIDMessage::BasicID(_) => true,
            RemoteIDMessage::Location(_) => true,
            RemoteIDMessage::OperatorId(_) => true,
            _ => false,
        }
    }

    /// What the encoder demands of a message's fields.
    pub open spec fn wf(self) -> bool {
        match self {
            RemoteIDMessage::Location(l) => l.wf(),
            RemoteIDMessage::OperatorId(o) => o.wf(),
            _ => true,
        }
    }

    /// The message that survives a wire round trip: every physical quantity
    /// of a Location message lands on its step boundary, everything else is
    /// carried exactly.
    pub open spec fn quantize(self) -> Self {
        match self {
            RemoteIDMessage::Location(l) => RemoteIDMessage::Location(l.quantize()),
            _ => self,
        }
    }
}

} // verus!
