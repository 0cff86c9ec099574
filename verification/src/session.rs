//! The per-transfer state machine: one value per file transfer, advanced
//! once per exchanged block, in either role.
//!
//! The session never touches a socket: the caller passes in the bytes it
//! received and sends out the bytes the session hands back.  Block numbers
//! are enforced in strict sequence, a payload shorter than a full block
//! ends the transfer, a peer error ends it silently, and everything else
//! aborts it with an Illegal-TFTP-Operation reply.

use vstd::prelude::*;
use vstd::utf8::{decode_utf8, encode_utf8};
use crate::packet::{
    ack_block, ack_ok, data_block, data_ok, data_payload, error_code, error_message_bytes,
    error_ok, lemma_opcode_discrimination, spec_ack_bytes, spec_data_bytes, spec_error_bytes,
    spec_error_code, ACKPacket, DATAPacket, ERRORPacket, TFTPPacket,
};
use crate::wire::BLOCK_SIZE;

verus! {

/// The reply that aborts a session on a protocol violation.
pub open spec fn spec_illegal_op_bytes() -> Seq<u8> {
    spec_error_bytes(4, encode_utf8("Illegal TFTP operation."@))
}

/// Why a transfer ended before completion.
#[derive(Debug, PartialEq)]
pub enum TransferAbort {
    /// The peer broke the protocol (malformed packet, unexpected kind, or
    /// an out-of-sequence block): send `reply` to it, then end.
    Protocol { reply: Vec<u8> },
    /// The peer sent an error packet: end without answering it.
    Peer { error: ERRORPacket },
}

/// Where a sender stands in its send/acknowledge cycle.
#[derive(Clone, Copy, Debug, PartialEq, Eq, Structural)]
pub enum SenderPhase {
    /// Ready to send the data block numbered `block`.
    Ready,
    /// A data block is in flight; its acknowledgement is awaited.
    AwaitingAck,
    /// The final block was acknowledged: the transfer succeeded.
    Done,
    /// The transfer ended early.
    Aborted,
}

/// What a sender should do after processing a reply.
#[derive(Debug, PartialEq)]
pub enum SenderVerdict {
    /// The block was acknowledged; send the next one.
    Continue,
    /// The final block was acknowledged; the transfer is complete.
    Finished,
    /// The transfer is over without completing.
    Abort(TransferAbort),
}

/// The sending half of a transfer: the server answering a read request, or
/// the client performing a write.
pub struct SenderSession {
    /// Number of the block being sent or awaited.
    pub block: u16,
    /// The block in flight was shorter than a full block, so its
    /// acknowledgement completes the transfer.
    pub awaiting_final: bool,
    pub phase: SenderPhase,
}

impl SenderSession {
    /// A sender about to send block 1: the server side of a read request.
    pub fn new() -> (s: SenderSession)
        ensures
            s.block == 1,
            s.phase == SenderPhase::Ready,
    {
        SenderSession { block: 1, awaiting_final: false, phase: SenderPhase::Ready }
    }

    /// A sender whose write request is on the wire: the acknowledgement
    /// expected first carries block 0, and block 1 follows it.
    pub fn new_after_write_request() -> (s: SenderSession)
        ensures
            s.block == 0,
            s.awaiting_final == false,
            s.phase == SenderPhase::AwaitingAck,
    {
        SenderSession { block: 0, awaiting_final: false, phase: SenderPhase::AwaitingAck }
    }

    /// Frames the current block around the bytes read from the data source.
    /// A chunk shorter than a full block is the final block.
    pub fn prepare_data(&mut self, chunk: &[u8]) -> (pkt: Vec<u8>)
        requires
            old(self).phase == SenderPhase::Ready,
            chunk@.len() <= BLOCK_SIZE,
        ensures
            pkt@ == spec_data_bytes(old(self).block, chunk@),
            final(self).block == old(self).block,
            final(self).phase == SenderPhase::AwaitingAck,
            final(self).awaiting_final == (chunk@.len() < BLOCK_SIZE),
    {
        let packet = match DATAPacket::build(self.block, chunk) {
            Ok(p) => p,
            Err(_) => {
                proof {
                    assert(false);
                }
                vstd::pervasive::unreached()
            },
        };
        self.awaiting_final = chunk.len() < BLOCK_SIZE;
        self.phase = SenderPhase::AwaitingAck;
        packet.as_bytes()
    }

    /// Consumes the reply to the block in flight.  The matching
    /// acknowledgement either completes the transfer (after a final block)
    /// or moves the sender to the next block; a peer error ends the session
    /// unanswered; anything else aborts it with an illegal-operation reply,
    /// as does an acknowledged full block at the last representable number,
    /// which no further block can follow.
    pub fn handle_reply(&mut self, reply: &[u8]) -> (v: SenderVerdict)
        requires
            old(self).phase == SenderPhase::AwaitingAck,
        ensures
            (ack_ok(reply@) && ack_block(reply@) == old(self).block && old(self).awaiting_final)
                ==> (v == SenderVerdict::Finished && final(self).phase == SenderPhase::Done),
            (ack_ok(reply@) && ack_block(reply@) == old(self).block && !old(self).awaiting_final
                && old(self).block < u16::MAX) ==> (v == SenderVerdict::Continue
                && final(self).phase == SenderPhase::Ready
                && final(self).block == old(self).block + 1),
            (ack_ok(reply@) && ack_block(reply@) == old(self).block && !old(self).awaiting_final
                && old(self).block == u16::MAX) ==> (v matches SenderVerdict::Abort(
                TransferAbort::Protocol { reply: r },
            ) && r@ == spec_illegal_op_bytes() && final(self).phase == SenderPhase::Aborted),
            error_ok(reply@) ==> (v matches SenderVerdict::Abort(TransferAbort::Peer { error: e })
                && spec_error_code(&e) == error_code(reply@) && (error_code(reply@) == 0 ==> (
            e matches ERRORPacket::NotDefined(m) && m@ == decode_utf8(error_message_bytes(reply@))))
                && final(self).phase == SenderPhase::Aborted),
            (!error_ok(reply@) && !(ack_ok(reply@) && ack_block(reply@) == old(self).block)) ==> (
            v matches SenderVerdict::Abort(TransferAbort::Protocol { reply: r }) && r@
                == spec_illegal_op_bytes() && final(self).phase == SenderPhase::Aborted),
    {
        proof {
            lemma_opcode_discrimination(reply@);
        }
        match TFTPPacket::parse(reply) {
            Ok(TFTPPacket::ACK(ack)) => {
                if ack.block == self.block {
                    if self.awaiting_final {
                        self.phase = SenderPhase::Done;
                        SenderVerdict::Finished
                    } else if self.block == u16::MAX {
                        self.phase = SenderPhase::Aborted;
                        SenderVerdict::Abort(TransferAbort::Protocol {
                            reply: ERRORPacket::IllegalTftpOperation.as_bytes(),
                        })
                    } else {
                        self.block = self.block + 1;
                        self.phase = SenderPhase::Ready;
                        SenderVerdict::Continue
                    }
                } else {
                    self.phase = SenderPhase::Aborted;
                    SenderVerdict::Abort(TransferAbort::Protocol {
                        reply: ERRORPacket::IllegalTftpOperation.as_bytes(),
                    })
                }
            },
            Ok(TFTPPacket::ERROR(error)) => {
                self.phase = SenderPhase::Aborted;
                SenderVerdict::Abort(TransferAbort::Peer { error })
            },
            _ => {
                self.phase = SenderPhase::Aborted;
                SenderVerdict::Abort(TransferAbort::Protocol {
                    reply: ERRORPacket::IllegalTftpOperation.as_bytes(),
                })
            },
        }
    }
}

/// Where a receiver stands in its receive/acknowledge cycle.
#[derive(Clone, Copy, Debug, PartialEq, Eq, Structural)]
pub enum ReceiverPhase {
    /// Waiting for the data block numbered `expected_block`.
    Receiving,
    /// A short block arrived and was acknowledged: the transfer succeeded.
    Done,
    /// The transfer ended early.
    Aborted,
}

/// What a receiver should do after processing a packet.
#[derive(Debug, PartialEq)]
pub enum ReceiverVerdict {
    /// The expected block arrived: write `payload` to the data sink and
    /// send `ack`; `last` marks the final block of the transfer.
    Deliver { payload: Vec<u8>, ack: Vec<u8>, last: bool },
    /// The transfer is over without completing.
    Abort(TransferAbort),
}

/// The receiving half of a transfer: the server answering a write request,
/// or the client performing a read.
pub struct ReceiverSession {
    /// Number of the next data block the peer owes.
    pub expected_block: u16,
    pub phase: ReceiverPhase,
}

impl ReceiverSession {
    /// A receiver awaiting block 1, the first data block of any transfer.
    pub fn new() -> (s: ReceiverSession)
        ensures
            s.expected_block == 1,
            s.phase == ReceiverPhase::Receiving,
    {
        ReceiverSession { expected_block: 1, phase: ReceiverPhase::Receiving }
    }

    /// Consumes one packet from the peer.  The expected data block is
    /// delivered and acknowledged, and a short one completes the transfer;
    /// a peer error ends the session unanswered; anything else — a
    /// malformed packet, an unexpected kind, or a block out of sequence —
    /// aborts it with an illegal-operation reply, as does a full block at
    /// the last representable number, which no further block can follow.
    pub fn handle_packet(&mut self, bytes: &[u8]) -> (v: ReceiverVerdict)
        requires
            old(self).phase == ReceiverPhase::Receiving,
        ensures
            (data_ok(bytes@) && data_block(bytes@) == old(self).expected_block && data_payload(
                bytes@,
            ).len() < BLOCK_SIZE) ==> (v matches ReceiverVerdict::Deliver { payload, ack, last }
                && payload@ == data_payload(bytes@) && ack@ == spec_ack_bytes(
                old(self).expected_block,
            ) && last && final(self).phase == ReceiverPhase::Done),
            (data_ok(bytes@) && data_block(bytes@) == old(self).expected_block && data_payload(
                bytes@,
            ).len() == BLOCK_SIZE && old(self).expected_block < u16::MAX) ==> (
            v matches ReceiverVerdict::Deliver { payload, ack, last } && payload@ == data_payload(
                bytes@,
            ) && ack@ == spec_ack_bytes(old(self).expected_block) && !last && final(self).phase
                == ReceiverPhase::Receiving
                && final(self).expected_block == old(self).expected_block + 1),
            (data_ok(bytes@) && data_block(bytes@) == old(self).expected_block && data_payload(
                bytes@,
            ).len() == BLOCK_SIZE && old(self).expected_block == u16::MAX) ==> (
            v matches ReceiverVerdict::Abort(TransferAbort::Protocol { reply: r }) && r@
                == spec_illegal_op_bytes() && final(self).phase == ReceiverPhase::Aborted),
            (data_ok(bytes@) && data_block(bytes@) != old(self).expected_block) ==> (
            v matches ReceiverVerdict::Abort(TransferAbort::Protocol { reply: r }) && r@
                == spec_illegal_op_bytes() && final(self).phase == ReceiverPhase::Aborted),
            error_ok(bytes@) ==> (v matches ReceiverVerdict::Abort(TransferAbort::Peer { error: e })
                && spec_error_code(&e) == error_code(bytes@) && (error_code(bytes@) == 0 ==> (
            e matches ERRORPacket::NotDefined(m) && m@ == decode_utf8(error_message_bytes(bytes@))))
                && final(self).phase == ReceiverPhase::Aborted),
            (!data_ok(bytes@) && !error_ok(bytes@)) ==> (v matches ReceiverVerdict::Abort(
                TransferAbort::Protocol { reply: r },
            ) && r@ == spec_illegal_op_bytes() && final(self).phase == ReceiverPhase::Aborted),
    {
        proof {
            lemma_opcode_discrimination(bytes@);
        }
        match TFTPPacket::parse(bytes) {
            Ok(TFTPPacket::DATA(data)) => {
                if data.block != self.expected_block {
                    self.phase = ReceiverPhase::Aborted;
                    return ReceiverVerdict::Abort(TransferAbort::Protocol {
                        reply: ERRORPacket::IllegalTftpOperation.as_bytes(),
                    });
                }
                let ack = ACKPacket { block: data.block }.as_bytes();
                if data.data.len() < BLOCK_SIZE {
                    self.phase = ReceiverPhase::Done;
                    ReceiverVerdict::Deliver { payload: data.data, ack, last: true }
                } else if self.expected_block == u16::MAX {
                    self.phase = ReceiverPhase::Aborted;
                    ReceiverVerdict::Abort(TransferAbort::Protocol {
                        reply: ERRORPacket::IllegalTftpOperation.as_bytes(),
                    })
                } else {
                    self.expected_block = self.expected_block + 1;
                    ReceiverVerdict::Deliver { payload: data.data, ack, last: false }
                }
            },
            Ok(TFTPPacket::ERROR(error)) => {
                self.phase = ReceiverPhase::Aborted;
                ReceiverVerdict::Abort(TransferAbort::Peer { error })
            },
            _ => {
                self.phase = ReceiverPhase::Aborted;
                ReceiverVerdict::Abort(TransferAbort::Protocol {
                    reply: ERRORPacket::IllegalTftpOperation.as_bytes(),
                })
            },
        }
    }
}

} // verus!
