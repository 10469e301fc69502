//! Symbolic buffer roles and their fixed raw wire ids.
//!
//! A frame travels on a numbered buffer (channel). Call sites pick a
//! purpose-named role; the tables here translate it to the raw protocol
//! buffer id. The two tables are direction-dependent: a send role and a
//! receive role may map to different raw ids even under the same name
//! (Acknowledge is 11 when sending, 139 when receiving).

use vstd::prelude::*;

verus! {

/// A buffer role for frames sent to the device.
#[derive(Clone, Copy, Debug, PartialEq, Eq, Structural)]
pub enum SendBufferId {
    Pong,
    NoAcknowledge,
    Acknowledge,
    Emergency,
    VideoAcknowledge,
}

/// A buffer role for frames received from the device.
#[derive(Clone, Copy, Debug, PartialEq, Eq, Structural)]
pub enum ReceiveBufferId {
    Ping,
    Video,
    Event,
    Navigation,
    Acknowledge,
}

/// The send-role table: the raw wire id each send role stands for.
pub open spec fn send_raw_id(role: SendBufferId) -> u8 {
    match role {
        SendBufferId::Pong => 1,
        SendBufferId::NoAcknowledge => 10,
        SendBufferId::Acknowledge => 11,
        SendBufferId::Emergency => 12,
        SendBufferId::VideoAcknowledge => 13,
    }
}

/// The receive-role table: the raw wire id each receive role stands for.
pub open spec fn receive_raw_id(role: ReceiveBufferId) -> u8 {
    match role {
        ReceiveBufferId::Ping => 0,
        ReceiveBufferId::Video => 125,
        ReceiveBufferId::Event => 126,
        ReceiveBufferId::Navigation => 127,
        ReceiveBufferId::Acknowledge => 139,
    }
}

impl SendBufferId {
    /// Look the role up in the send-role table.
    pub fn raw_id(self) -> (r: u8)
        ensures
            r == send_raw_id(self),
    {
        match self {
            SendBufferId::Pong => 1,
            SendBufferId::NoAcknowledge => 10,
            SendBufferId::Acknowledge => 11,
            SendBufferId::Emergency => 12,
            SendBufferId::VideoAcknowledge => 13,
        }
    }
}

impl ReceiveBufferId {
    /// Look the role up in the receive-role table.
    pub fn raw_id(self) -> (r: u8)
        ensures
            r == receive_raw_id(self),
    {
        match self {
            ReceiveBufferId::Ping => 0,
            ReceiveBufferId::Video => 125,
            ReceiveBufferId::Event => 126,
            ReceiveBufferId::Navigation => 127,
            ReceiveBufferId::Acknowledge => 139,
        }
    }
}

/// Law: each send role maps to its fixed raw wire id.
pub proof fn lemma_send_table_values()
    ensures
        send_raw_id(SendBufferId::Pong) == 1,
        send_raw_id(SendBufferId::NoAcknowledge) == 10,
        send_raw_id(SendBufferId::Acknowledge) == 11,
        send_raw_id(SendBufferId::Emergency) == 12,
        send_raw_id(SendBufferId::VideoAcknowledge) == 13,
{
}

/// Law: each receive role maps to its fixed raw wire id.
pub proof fn lemma_receive_table_values()
    ensures
        receive_raw_id(ReceiveBufferId::Ping) == 0,
        receive_raw_id(ReceiveBufferId::Video) == 125,
        receive_raw_id(ReceiveBufferId::Event) == 126,
        receive_raw_id(ReceiveBufferId::Navigation) == 127,
        receive_raw_id(ReceiveBufferId::Acknowledge) == 139,
{
}

/// Law: the send-role table is injective; no two send roles share a raw id.
pub proof fn lemma_send_table_injective(a: SendBufferId, b: SendBufferId)
    ensures
        send_raw_id(a) == send_raw_id(b) ==> a == b,
{
}

/// Law: the receive-role table is injective; no two receive roles share a
/// raw id.
pub proof fn lemma_receive_table_injective(a: ReceiveBufferId, b: ReceiveBufferId)
    ensures
        receive_raw_id(a) == receive_raw_id(b) ==> a == b,
{
}

} // verus!
