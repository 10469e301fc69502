//! The frame builder: a typestate chain from empty to complete frame.
//!
//! Each construction stage is a distinct type, and each operation consumes
//! the current stage and returns the next, so a chain that sets fields out
//! of order does not type-check: the transport type comes first, then the
//! buffer (directly by raw id, or through a send or receive role), and last
//! the feature payload with its sequence number. No operation can fail: a
//! chain that type-checks always yields a frame with exactly the fields it
//! set.

use vstd::prelude::*;

use crate::buffers::ReceiveBufferId;
use crate::buffers::SendBufferId;
use crate::buffers::receive_raw_id;
use crate::buffers::send_raw_id;
use crate::frame::FrameData;
use crate::frame::FrameType;

verus! {

/// The empty starting stage: no field set yet.
pub struct SetFrameType {}

/// Stage after the transport type is set; a buffer comes next.
pub struct SetBufferId {
    pub frame_type: FrameType,
}

/// Stage after a direct raw buffer id; the feature payload comes next.
pub struct SetFeature {
    pub frame_type: FrameType,
    pub buffer_id: u8,
}

/// Stage after a send role chose the buffer; the feature payload comes next.
pub struct SendFeature {
    pub frame_type: FrameType,
    pub send_buffer_id: SendBufferId,
}

/// Stage after a receive role chose the buffer; the feature payload comes
/// next.
pub struct ReceiveFeature {
    pub frame_type: FrameType,
    pub receive_buffer_id: ReceiveBufferId,
}

/// Marker for the types that are construction stages of the builder.
pub trait FrameState {

}

impl FrameState for SetFrameType {

}

impl FrameState for SetBufferId {

}

impl FrameState for SetFeature {

}

impl FrameState for SendFeature {

}

impl FrameState for ReceiveFeature {

}

impl<F> FrameState for FrameData<F> {

}

/// A frame under construction, at stage `S`.
pub struct Frame<S: FrameState> {
    pub state: S,
}

/// The frame a direct chain builds: type `t`, raw buffer id `b`, sequence
/// `s` and feature `f`.
pub open spec fn direct_frame<F>(t: FrameType, b: u8, s: u8, f: F) -> FrameData<F> {
    FrameData { frame_type: t, buffer_id: b, sequence_id: s, feature: Some(f) }
}

/// The frame a send-role chain builds: the buffer id comes from the
/// send-role table.
pub open spec fn send_frame<F>(t: FrameType, role: SendBufferId, s: u8, f: F) -> FrameData<F> {
    direct_frame(t, send_raw_id(role), s, f)
}

/// The frame a receive-role chain builds: the buffer id comes from the
/// receive-role table.
pub open spec fn receive_frame<F>(t: FrameType, role: ReceiveBufferId, s: u8, f: F) -> FrameData<
    F,
> {
    direct_frame(t, receive_raw_id(role), s, f)
}

impl Frame<SetFrameType> {
    /// Start a fresh chain with no field set.
    pub fn new() -> (r: Frame<SetFrameType>)
        ensures
            r == (Frame::<SetFrameType> { state: SetFrameType {  } }),
    {
        Frame { state: SetFrameType {  } }
    }

    /// Set the transport type; the buffer must be chosen next.
    pub fn frame_type(self, frame_type: FrameType) -> (r: Frame<SetBufferId>)
        ensures
            r.state.frame_type == frame_type,
    {
        Frame { state: SetBufferId { frame_type } }
    }
}

impl Frame<SetBufferId> {
    /// Choose the buffer through a send role from the send-role table.
    pub fn send(self, send: SendBufferId) -> (r: Frame<SendFeature>)
        ensures
            r.state.frame_type == self.state.frame_type,
            r.state.send_buffer_id == send,
    {
        Frame {
            state: SendFeature { frame_type: self.state.frame_type, send_buffer_id: send },
        }
    }

    /// Choose the buffer through a receive role from the receive-role table.
    pub fn receive(self, receive: ReceiveBufferId) -> (r: Frame<ReceiveFeature>)
        ensures
            r.state.frame_type == self.state.frame_type,
            r.state.receive_buffer_id == receive,
    {
        Frame {
            state: ReceiveFeature { frame_type: self.state.frame_type, receive_buffer_id: receive },
        }
    }

    /// Choose the buffer directly by its raw id.
    pub fn buffer_id(self, buffer_id: u8) -> (r: Frame<SetFeature>)
        ensures
            r.state.frame_type == self.state.frame_type,
            r.state.buffer_id == buffer_id,
    {
        Frame {
            state: SetFeature { frame_type: self.state.frame_type, buffer_id },
        }
    }
}

impl Frame<SetFeature> {
    /// Attach the feature payload and sequence number, completing the frame.
    pub fn feature<F>(self, sequence: u8, feature: F) -> (r: FrameData<F>)
        ensures
            r == direct_frame(self.state.frame_type, self.state.buffer_id, sequence, feature),
    {
        FrameData {
            frame_type: self.state.frame_type,
            buffer_id: self.state.buffer_id,
            sequence_id: sequence,
            feature: Some(feature),
        }
    }
}

impl Frame<SendFeature> {
    /// Attach the feature payload and sequence number; the buffer id is the
    /// send role's raw id.
    pub fn feature<F>(self, sequence: u8, feature: F) -> (r: FrameData<F>)
        ensures
            r == send_frame(self.state.frame_type, self.state.send_buffer_id, sequence, feature),
            r.buffer_id == send_raw_id(self.state.send_buffer_id),
    {
        FrameData {
            frame_type: self.state.frame_type,
            buffer_id: self.state.send_buffer_id.raw_id(),
            sequence_id: sequence,
            feature: Some(feature),
        }
    }
}

impl Frame<ReceiveFeature> {
    /// Attach the feature payload and sequence number; the buffer id is the
    /// receive role's raw id.
    pub fn feature<F>(self, sequence: u8, feature: F) -> (r: FrameData<F>)
        ensures
            r == receive_frame(
                self.state.frame_type,
                self.state.receive_buffer_id,
                sequence,
                feature,
            ),
            r.buffer_id == receive_raw_id(self.state.receive_buffer_id),
    {
        FrameData {
            frame_type: self.state.frame_type,
            buffer_id: self.state.receive_buffer_id.raw_id(),
            sequence_id: sequence,
            feature: Some(feature),
        }
    }
}

/// Law: a direct chain is lossless: two chains build the same frame only if
/// they set the same transport type, buffer id, sequence and feature.
pub proof fn lemma_direct_frame_lossless<F>(
    t1: FrameType,
    b1: u8,
    s1: u8,
    f1: F,
    t2: FrameType,
    b2: u8,
    s2: u8,
    f2: F,
)
    requires
        direct_frame(t1, b1, s1, f1) == direct_frame(t2, b2, s2, f2),
    ensures
        t1 == t2,
        b1 == b2,
        s1 == s2,
        f1 == f2,
{
}

/// Law: a send-role chain through Acknowledge builds the very frame a direct
/// chain on raw buffer id 11 builds.
pub proof fn lemma_send_acknowledge_equivalence<F>(t: FrameType, s: u8, f: F)
    ensures
        send_frame(t, SendBufferId::Acknowledge, s, f) == direct_frame(t, 11, s, f),
        send_frame(t, SendBufferId::Acknowledge, s, f).buffer_id == 11,
{
}

/// Law: a receive-role chain through Acknowledge builds the frame a direct
/// chain on raw buffer id 139 builds, and that frame differs from the
/// send-role Acknowledge frame: the identically named roles route to
/// different buffers.
pub proof fn lemma_receive_acknowledge_distinct<F>(t: FrameType, s: u8, f: F)
    ensures
        receive_frame(t, ReceiveBufferId::Acknowledge, s, f) == direct_frame(t, 139, s, f),
        receive_frame(t, ReceiveBufferId::Acknowledge, s, f).buffer_id == 139,
        receive_frame(t, ReceiveBufferId::Acknowledge, s, f) != send_frame(
            t,
            SendBufferId::Acknowledge,
            s,
            f,
        ),
{
}

} // verus!
