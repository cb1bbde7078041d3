//! Codec for unmanned-aircraft Remote ID broadcast messages.
//!
//! A Remote ID frame is a fixed 25-byte message body carried, together with a
//! 2-byte advertising header, as Bluetooth Legacy Advertising service data.
//! The library turns typed message values into those bytes and received bytes
//! back into typed messages, and proves that the two directions are inverses
//! up to each field's documented quantization step.

use vstd::prelude::*;

pub mod basic_id;
pub mod bits;
pub mod codec;
pub mod decode;
pub mod encode;
pub mod laws;
pub mod location;
pub mod message;
pub mod operator_id;
pub mod scale;

verus! {

/// Application code identifying Open Drone ID service data (first frame byte).
pub const OPEN_DRONE_ID_AD_CODE: u8 = 13;

/// Fixed width of identifier fields on the wire.
pub const MAX_ID_BYTE_SIZE: usize = 20;

/// 128-bit Bluetooth service UUID under which Remote ID frames are broadcast.
pub const REMOTE_ID_SERVICE_UUID: u128 = 0x0000fffa_0000_1000_8000_00805f9b34fb;

} // verus!
