use tftp_core::packet::{ACKPacket, DATAPacket, ERRORPacket};
use tftp_core::session::{
    ReceiverPhase, ReceiverSession, ReceiverVerdict, SenderPhase, SenderSession, SenderVerdict,
    TransferAbort,
};

fn data_bytes(block: u16, payload: &[u8]) -> Vec<u8> {
    DATAPacket::build(block, payload).unwrap().as_bytes()
}

fn ack_bytes(block: u16) -> Vec<u8> {
    ACKPacket { block }.as_bytes()
}

fn illegal_op() -> Vec<u8> {
    ERRORPacket::IllegalTftpOperation.as_bytes()
}

#[test]
fn receiver_skipped_block_aborts() {
    // Blocks 1 and 2 are delivered and acknowledged; block 4, skipping 3,
    // aborts the session with a protocol error.
    let mut session = ReceiverSession::new();
    let full = vec![7_u8; 512];

    match session.handle_packet(&data_bytes(1, &full)) {
        ReceiverVerdict::Deliver { payload, ack, last } => {
            assert_eq!(payload, full);
            assert_eq!(ack, ack_bytes(1));
            assert!(!last);
        }
        other => panic!("block 1 not delivered: {:?}", other),
    }
    match session.handle_packet(&data_bytes(2, &full)) {
        ReceiverVerdict::Deliver { payload, ack, last } => {
            assert_eq!(payload, full);
            assert_eq!(ack, ack_bytes(2));
            assert!(!last);
        }
        other => panic!("block 2 not delivered: {:?}", other),
    }
    match session.handle_packet(&data_bytes(4, &full)) {
        ReceiverVerdict::Abort(TransferAbort::Protocol { reply }) => {
            assert_eq!(reply, illegal_op());
        }
        other => panic!("block 4 not refused: {:?}", other),
    }
    assert_eq!(session.phase, ReceiverPhase::Aborted);
}

#[test]
fn receiver_short_block_completes() {
    let mut session = ReceiverSession::new();
    match session.handle_packet(&data_bytes(1, &[1, 2, 3])) {
        ReceiverVerdict::Deliver { payload, ack, last } => {
            assert_eq!(payload, vec![1, 2, 3]);
            assert_eq!(ack, ack_bytes(1));
            assert!(last);
        }
        other => panic!("short block not delivered: {:?}", other),
    }
    assert_eq!(session.phase, ReceiverPhase::Done);
}

#[test]
fn receiver_peer_error_ends_unanswered() {
    let mut session = ReceiverSession::new();
    match session.handle_packet(&ERRORPacket::DiskFull.as_bytes()) {
        ReceiverVerdict::Abort(TransferAbort::Peer { error }) => {
            assert_eq!(error, ERRORPacket::DiskFull);
        }
        other => panic!("peer error not surfaced: {:?}", other),
    }
    assert_eq!(session.phase, ReceiverPhase::Aborted);
}

#[test]
fn receiver_malformed_packet_aborts() {
    let mut session = ReceiverSession::new();
    match session.handle_packet(&[0, 9, 1]) {
        ReceiverVerdict::Abort(TransferAbort::Protocol { reply }) => {
            assert_eq!(reply, illegal_op());
        }
        other => panic!("garbage not refused: {:?}", other),
    }
}

#[test]
fn receiver_unexpected_kind_aborts() {
    // An ACK is not what a receiver waits for.
    let mut session = ReceiverSession::new();
    assert!(matches!(
        session.handle_packet(&ack_bytes(1)),
        ReceiverVerdict::Abort(TransferAbort::Protocol { .. })
    ));
}

#[test]
fn sender_three_blocks_then_done() {
    // A source yielding 512, 512, 300 bytes sends blocks 1..=3 and the
    // session ends with block 3 acknowledged.
    let mut session = SenderSession::new();
    let full = vec![9_u8; 512];
    let short = vec![9_u8; 300];

    let pkt1 = session.prepare_data(&full);
    assert_eq!(pkt1, data_bytes(1, &full));
    assert_eq!(session.handle_reply(&ack_bytes(1)), SenderVerdict::Continue);

    let pkt2 = session.prepare_data(&full);
    assert_eq!(pkt2, data_bytes(2, &full));
    assert_eq!(session.handle_reply(&ack_bytes(2)), SenderVerdict::Continue);

    let pkt3 = session.prepare_data(&short);
    assert_eq!(pkt3, data_bytes(3, &short));
    assert_eq!(session.handle_reply(&ack_bytes(3)), SenderVerdict::Finished);
    assert_eq!(session.phase, SenderPhase::Done);
}

#[test]
fn sender_exact_multiple_ends_with_empty_block() {
    // A source yielding exactly 512, 512 bytes still terminates with an
    // empty data block 3, as RFC 1350 requires.
    let mut session = SenderSession::new();
    let full = vec![1_u8; 512];

    session.prepare_data(&full);
    assert_eq!(session.handle_reply(&ack_bytes(1)), SenderVerdict::Continue);
    session.prepare_data(&full);
    assert_eq!(session.handle_reply(&ack_bytes(2)), SenderVerdict::Continue);

    // The source is exhausted: the next read yields no bytes, and the
    // empty chunk becomes the terminal block.
    let pkt3 = session.prepare_data(&[]);
    assert_eq!(pkt3, vec![0, 3, 0, 3]);
    assert_eq!(session.handle_reply(&ack_bytes(3)), SenderVerdict::Finished);
    assert_eq!(session.phase, SenderPhase::Done);
}

#[test]
fn sender_wrong_ack_block_aborts() {
    let mut session = SenderSession::new();
    session.prepare_data(&[1, 2]);
    match session.handle_reply(&ack_bytes(2)) {
        SenderVerdict::Abort(TransferAbort::Protocol { reply }) => {
            assert_eq!(reply, illegal_op());
        }
        other => panic!("wrong ack not refused: {:?}", other),
    }
    assert_eq!(session.phase, SenderPhase::Aborted);
}

#[test]
fn sender_peer_error_ends_unanswered() {
    let mut session = SenderSession::new();
    session.prepare_data(&[1, 2]);
    match session.handle_reply(&ERRORPacket::NotDefined(String::from("full")).as_bytes()) {
        SenderVerdict::Abort(TransferAbort::Peer { error }) => {
            assert_eq!(error, ERRORPacket::NotDefined(String::from("full")));
        }
        other => panic!("peer error not surfaced: {:?}", other),
    }
}

#[test]
fn sender_malformed_reply_aborts() {
    let mut session = SenderSession::new();
    session.prepare_data(&[1, 2]);
    assert!(matches!(
        session.handle_reply(&[0]),
        SenderVerdict::Abort(TransferAbort::Protocol { .. })
    ));
}

#[test]
fn sender_after_write_request_expects_ack_zero() {
    let mut session = SenderSession::new_after_write_request();
    assert_eq!(session.handle_reply(&ack_bytes(0)), SenderVerdict::Continue);
    assert_eq!(session.block, 1);
    assert_eq!(session.phase, SenderPhase::Ready);
}

#[test]
fn sender_after_write_request_refuses_other_ack() {
    let mut session = SenderSession::new_after_write_request();
    assert!(matches!(
        session.handle_reply(&ack_bytes(1)),
        SenderVerdict::Abort(TransferAbort::Protocol { .. })
    ));
}
