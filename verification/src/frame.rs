//! The frame value and its transport type.
//!
//! A complete frame combines a transport type, a raw buffer id, a sequence
//! number and an optional feature payload. The payload catalogue is owned by
//! the codec that serializes frames, so the frame is generic over the payload
//! type and passes it through uninterpreted.

use vstd::prelude::*;

verus! {

/// The transport delivery semantics of a frame.
#[derive(Clone, Copy, Debug, PartialEq, Eq, Structural)]
pub enum FrameType {
    Uninitialized,
    Ack,
    Data,
    LowLatency,
    DataWithAck,
    Max,
}

/// The wire byte each transport type stands for.
pub open spec fn frame_type_raw_id(t: FrameType) -> u8 {
    match t {
        FrameType::Uninitialized => 0,
        FrameType::Ack => 1,
        FrameType::Data => 2,
        FrameType::LowLatency => 3,
        FrameType::DataWithAck => 4,
        FrameType::Max => 5,
    }
}

impl FrameType {
    /// The wire byte of this transport type.
    pub fn raw_id(self) -> (r: u8)
        ensures
            r == frame_type_raw_id(self),
    {
        match self {
            FrameType::Uninitialized => 0,
            FrameType::Ack => 1,
            FrameType::Data => 2,
            FrameType::LowLatency => 3,
            FrameType::DataWithAck => 4,
            FrameType::Max => 5,
        }
    }
}

/// A complete frame: transport type, raw buffer id, sequence number and
/// optional feature payload, ready to hand to the codec.
#[derive(Clone, Debug, PartialEq, Eq)]
pub struct FrameData<F> {
    pub frame_type: FrameType,
    pub buffer_id: u8,
    pub sequence_id: u8,
    pub feature: Option<F>,
}

} // verus!
