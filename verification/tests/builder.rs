use frame_builder::Frame;
use frame_builder::FrameType;
use frame_builder::ReceiveBufferId;
use frame_builder::SendBufferId;

#[derive(Debug, Clone, Copy, PartialEq, Eq)]
enum TestFeature {
    JumpingSumoAnimJump,
    Ping,
}

#[test]
fn build_a_frame() {
    let feature = TestFeature::JumpingSumoAnimJump;

    let frame = Frame::new()
        .frame_type(FrameType::DataWithAck)
        .send(SendBufferId::Acknowledge)
        .feature(1, feature);

    let message: [u8; 15] = [
        0x4, 0xb, 0x1, 0xf, 0x0, 0x0, 0x0, 0x3, 0x2, 0x3, 0x0, 0x0, 0x0, 0x0, 0x0,
    ];

    // The length field at bytes 3 to 7 covers the whole message.
    let buf_len = u32::from_le_bytes([message[3], message[4], message[5], message[6]]);
    assert_eq!(buf_len as usize, message.len());

    // The header bytes the builder is responsible for: transport type,
    // buffer id and sequence number.
    assert_eq!(frame.frame_type.raw_id(), message[0]);
    assert_eq!(frame.buffer_id, message[1]);
    assert_eq!(frame.sequence_id, message[2]);
    assert!(frame.feature.is_some());
}

#[test]
fn send_role_table() {
    assert_eq!(SendBufferId::Pong.raw_id(), 1);
    assert_eq!(SendBufferId::NoAcknowledge.raw_id(), 10);
    assert_eq!(SendBufferId::Acknowledge.raw_id(), 11);
    assert_eq!(SendBufferId::Emergency.raw_id(), 12);
    assert_eq!(SendBufferId::VideoAcknowledge.raw_id(), 13);
}

#[test]
fn receive_role_table() {
    assert_eq!(ReceiveBufferId::Ping.raw_id(), 0);
    assert_eq!(ReceiveBufferId::Video.raw_id(), 125);
    assert_eq!(ReceiveBufferId::Event.raw_id(), 126);
    assert_eq!(ReceiveBufferId::Navigation.raw_id(), 127);
    assert_eq!(ReceiveBufferId::Acknowledge.raw_id(), 139);
}

#[test]
fn send_role_table_is_injective() {
    let ids = vec![
        SendBufferId::Pong.raw_id(),
        SendBufferId::NoAcknowledge.raw_id(),
        SendBufferId::Acknowledge.raw_id(),
        SendBufferId::Emergency.raw_id(),
        SendBufferId::VideoAcknowledge.raw_id(),
    ];
    for i in 0..ids.len() {
        for j in 0..ids.len() {
            if i != j {
                assert_ne!(ids[i], ids[j]);
            }
        }
    }
}

#[test]
fn receive_role_table_is_injective() {
    let ids = vec![
        ReceiveBufferId::Ping.raw_id(),
        ReceiveBufferId::Video.raw_id(),
        ReceiveBufferId::Event.raw_id(),
        ReceiveBufferId::Navigation.raw_id(),
        ReceiveBufferId::Acknowledge.raw_id(),
    ];
    for i in 0..ids.len() {
        for j in 0..ids.len() {
            if i != j {
                assert_ne!(ids[i], ids[j]);
            }
        }
    }
}

#[test]
fn direct_chain_preserves_fields() {
    let frame = Frame::new()
        .frame_type(FrameType::Data)
        .buffer_id(10)
        .feature(42, TestFeature::Ping);

    assert_eq!(frame.frame_type, FrameType::Data);
    assert_eq!(frame.buffer_id, 10);
    assert_eq!(frame.sequence_id, 42);
    assert_eq!(frame.feature, Some(TestFeature::Ping));
}

#[test]
fn send_acknowledge_matches_direct_eleven() {
    let through_role = Frame::new()
        .frame_type(FrameType::DataWithAck)
        .send(SendBufferId::Acknowledge)
        .feature(7, TestFeature::Ping);

    let direct = Frame::new()
        .frame_type(FrameType::DataWithAck)
        .buffer_id(11)
        .feature(7, TestFeature::Ping);

    assert_eq!(through_role.buffer_id, 11);
    assert_eq!(through_role, direct);
}

#[test]
fn receive_acknowledge_is_distinct_from_send() {
    let received = Frame::new()
        .frame_type(FrameType::DataWithAck)
        .receive(ReceiveBufferId::Acknowledge)
        .feature(7, TestFeature::Ping);

    let sent = Frame::new()
        .frame_type(FrameType::DataWithAck)
        .send(SendBufferId::Acknowledge)
        .feature(7, TestFeature::Ping);

    let direct = Frame::new()
        .frame_type(FrameType::DataWithAck)
        .buffer_id(139)
        .feature(7, TestFeature::Ping);

    assert_eq!(received.buffer_id, 139);
    assert_eq!(received, direct);
    assert_ne!(received, sent);
}

#[test]
fn frame_type_wire_bytes() {
    assert_eq!(FrameType::Uninitialized.raw_id(), 0);
    assert_eq!(FrameType::Ack.raw_id(), 1);
    assert_eq!(FrameType::Data.raw_id(), 2);
    assert_eq!(FrameType::LowLatency.raw_id(), 3);
    assert_eq!(FrameType::DataWithAck.raw_id(), 4);
    assert_eq!(FrameType::Max.raw_id(), 5);
}

#[test]
fn sequence_number_edges() {
    let low = Frame::new()
        .frame_type(FrameType::Ack)
        .receive(ReceiveBufferId::Ping)
        .feature(0, TestFeature::Ping);
    assert_eq!(low.sequence_id, 0);
    assert_eq!(low.buffer_id, 0);

    let high = Frame::new()
        .frame_type(FrameType::LowLatency)
        .send(SendBufferId::Pong)
        .feature(255, TestFeature::Ping);
    assert_eq!(high.sequence_id, 255);
    assert_eq!(high.buffer_id, 1);
}
