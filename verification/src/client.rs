//! The client driver's decisions: building the initial request that opens
//! a transfer.  The first reply is then fed to the matching session — a
//! `ReceiverSession` for a read, whose first expected packet is data block
//! 1, or a `SenderSession` created after the write request, whose first
//! expected packet is the acknowledgement of block 0.

use vstd::prelude::*;
use vstd::string::StringSliceAdditionalSpecFns;
use vstd::utf8::encode_utf8;
use crate::packet::{spec_request_bytes, RRQPacket, WRQPacket};
use crate::wire::{valid_text_bytes, OPCODE_RRQ, OPCODE_WRQ};

verus! {

/// The two operations a client can ask of a server.
#[derive(Clone, Copy, Debug, PartialEq, Eq, Structural)]
pub enum ClientAction {
    /// Download the named file.
    Read,
    /// Upload the named file.
    Write,
}

/// The opcode that opens each client action.
pub open spec fn action_opcode(action: ClientAction) -> u16 {
    match action {
        ClientAction::Read => OPCODE_RRQ,
        ClientAction::Write => OPCODE_WRQ,
    }
}

/// The mode field this client always requests: the bytes of `"octet"`.
pub open spec fn octet_mode_bytes() -> Seq<u8> {
    seq![111u8, 99u8, 116u8, 101u8, 116u8]
}

/// Builds the request datagram that opens a transfer: a read or write
/// request for the given filename in octet mode.  Fails exactly on a
/// filename that cannot be framed (empty, or containing a NUL byte).
pub fn build_initial_request(action: ClientAction, filename: &str) -> (r: Result<Vec<u8>, String>)
    ensures
        r is Ok <==> valid_text_bytes(filename.spec_bytes()),
        r matches Ok(b) ==> b@ == spec_request_bytes(
            action_opcode(action),
            filename.spec_bytes(),
            octet_mode_bytes(),
        ),
        r matches Err(e) ==> e@ == "Invalid filename or mode"@,
{
    let mode = "octet";
    proof {
        reveal_strlit("octet");
        assert(vstd::utf8::is_ascii_chars(mode@));
        vstd::utf8::is_ascii_chars_encode_utf8(mode@);
        assert(mode.spec_bytes() =~= octet_mode_bytes());
    }
    match action {
        ClientAction::Read => RRQPacket::create_rrq_packet(filename, mode),
        ClientAction::Write => WRQPacket::create_wrq_packet(filename, mode),
    }
}

} // verus!
