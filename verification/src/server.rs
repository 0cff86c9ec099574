//! The server dispatcher's decision: what to do with one datagram that
//! arrived on the well-known port.  A valid read or write request in octet
//! mode with a safe filename starts a transfer; everything else is
//! rejected with an error packet, and never brings the server down.

use vstd::prelude::*;
use vstd::string::StringSliceAdditionalSpecFns;
use vstd::utf8::{decode_utf8, decode_utf8_encode_utf8, encode_utf8};
use crate::packet::{
    lemma_opcode_discrimination, request_fields, rrq_ok, spec_error_bytes, wrq_ok, ERRORPacket,
    TFTPPacket,
};
use crate::wire::valid_text_bytes;

verus! {

/// The byte field names the octet transfer mode, compared without regard
/// to ASCII case.
pub open spec fn is_octet_mode(b: Seq<u8>) -> bool {
    &&& b.len() == 5
    &&& (b[0] == 111 || b[0] == 79)
    &&& (b[1] == 99 || b[1] == 67)
    &&& (b[2] == 116 || b[2] == 84)
    &&& (b[3] == 101 || b[3] == 69)
    &&& (b[4] == 116 || b[4] == 84)
}

/// The byte field can serve as a filename under the serving root: it is a
/// single non-empty path component, with no separator and no traversal.
pub open spec fn safe_filename(b: Seq<u8>) -> bool {
    &&& valid_text_bytes(b)
    &&& (forall|i: int| 0 <= i < b.len() ==> b[i] != 47 && b[i] != 92)
    &&& b != seq![46u8]
    &&& b != seq![46u8, 46u8]
}

/// Checks the octet-mode spelling, ignoring ASCII case.
pub fn mode_is_octet(mode: &str) -> (r: bool)
    ensures
        r == is_octet_mode(mode.spec_bytes()),
{
    let b = mode.as_bytes();
    b.len() == 5 && (b[0] == 111 || b[0] == 79) && (b[1] == 99 || b[1] == 67) && (b[2] == 116 || b[2]
        == 84) && (b[3] == 101 || b[3] == 69) && (b[4] == 116 || b[4] == 84)
}

/// Checks that a requested filename is a single safe path component.
pub fn filename_is_safe(filename: &str) -> (r: bool)
    ensures
        r == safe_filename(filename.spec_bytes()),
{
    let b = filename.as_bytes();
    if b.len() == 0 {
        return false;
    }
    if b.len() == 1 && b[0] == 46 {
        proof {
            assert(b@ =~= seq![46u8]);
        }
        return false;
    }
    if b.len() == 2 && b[0] == 46 && b[1] == 46 {
        proof {
            assert(b@ =~= seq![46u8, 46u8]);
        }
        return false;
    }
    let mut j: usize = 0;
    while j < b.len()
        invariant
            j <= b@.len(),
            b@ == filename.spec_bytes(),
            forall|k: int| 0 <= k < j ==> b@[k] != 0 && b@[k] != 47 && b@[k] != 92,
        decreases b@.len() - j,
    {
        let c = b[j];
        if c == 0 || c == 47 || c == 92 {
            return false;
        }
        j += 1;
    }
    proof {
        if filename.spec_bytes() =~= seq![46u8] {
        }
        if filename.spec_bytes() =~= seq![46u8, 46u8] {
        }
    }
    true
}

/// A transfer the dispatcher has accepted.
#[derive(Debug, PartialEq)]
pub enum TransferRequest {
    /// Serve the named file to the peer.
    Read { filename: String },
    /// Store what the peer sends under the named file.
    Write { filename: String },
}

/// What to do with one datagram received on the well-known port.
#[derive(Debug, PartialEq)]
pub enum DispatchDecision {
    /// A valid request: run a transfer session for it on a fresh socket.
    Start(TransferRequest),
    /// Anything else: send `reply` to the source address and keep
    /// listening.
    Reject { reply: Vec<u8> },
}

/// Decides what one incoming datagram starts.  Only a read or write
/// request in octet mode naming a safe filename starts a session; a
/// request in another mode or with an unsafe filename is answered with an
/// error packet, and a datagram that is no request at all with an
/// illegal-operation error.
pub fn dispatch_request(data: &[u8]) -> (d: DispatchDecision)
    ensures
        !(rrq_ok(data@) || wrq_ok(data@)) ==> (d matches DispatchDecision::Reject { reply } && reply@
            == spec_error_bytes(4, encode_utf8("Illegal TFTP operation."@))),
        (rrq_ok(data@) || wrq_ok(data@)) ==> ({
            let fields = request_fields(data@).unwrap();
            &&& !is_octet_mode(fields.1) ==> (d matches DispatchDecision::Reject { reply } && reply@
                == spec_error_bytes(
                0,
                encode_utf8("The server supports only the 'octet' mode"@),
            ))
            &&& (is_octet_mode(fields.1) && !safe_filename(fields.0)) ==> (
            d matches DispatchDecision::Reject { reply } && reply@ == spec_error_bytes(
                0,
                encode_utf8("Invalid Filename"@),
            ))
            &&& (is_octet_mode(fields.1) && safe_filename(fields.0) && rrq_ok(data@)) ==> (
            d matches DispatchDecision::Start(TransferRequest::Read { filename }) && filename@
                == decode_utf8(fields.0))
            &&& (is_octet_mode(fields.1) && safe_filename(fields.0) && wrq_ok(data@)) ==> (
            d matches DispatchDecision::Start(TransferRequest::Write { filename }) && filename@
                == decode_utf8(fields.0))
        }),
{
    proof {
        lemma_opcode_discrimination(data@);
    }
    let (filename, mode, is_read): (String, String, bool) = match TFTPPacket::parse(data) {
        Ok(TFTPPacket::RRQ(p)) => (p.filename, p.mode, true),
        Ok(TFTPPacket::WRQ(p)) => (p.filename, p.mode, false),
        _ => {
            return DispatchDecision::Reject {
                reply: ERRORPacket::IllegalTftpOperation.as_bytes(),
            };
        },
    };
    proof {
        let fields = request_fields(data@).unwrap();
        decode_utf8_encode_utf8(fields.0);
        decode_utf8_encode_utf8(fields.1);
    }
    if !mode_is_octet(mode.as_str()) {
        return DispatchDecision::Reject {
            reply: ERRORPacket::NotDefined(
                "The server supports only the 'octet' mode".to_owned(),
            ).as_bytes(),
        };
    }
    if !filename_is_safe(filename.as_str()) {
        return DispatchDecision::Reject {
            reply: ERRORPacket::NotDefined("Invalid Filename".to_owned()).as_bytes(),
        };
    }
    if is_read {
        DispatchDecision::Start(TransferRequest::Read { filename })
    } else {
        DispatchDecision::Start(TransferRequest::Write { filename })
    }
}

} // verus!
