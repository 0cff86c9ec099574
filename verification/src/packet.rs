//! The TFTP packet codec: the five packet kinds of RFC 1350, each with an
//! encoder and a decoder proved against a specification of the byte layout,
//! and an opcode-dispatched decoder over all five.
//!
//! Decoding is total: every decoder accepts an arbitrary byte slice and
//! returns an error instead of panicking on malformed or truncated input.

use vstd::prelude::*;
use vstd::string::StringSliceAdditionalSpecFns;
use vstd::utf8::{decode_utf8, encode_utf8, encode_utf8_valid_utf8, valid_utf8};
use crate::text::{bytes_to_text, is_valid_text};
use crate::wire::{
    be16, find_nul, lemma_find_nul_found, lemma_find_nul_none, lemma_find_nul_props,
    lemma_word_at_be16, append_bytes, push_word, read_word, valid_text_bytes, word_at,
    BLOCK_SIZE, OPCODE_ACK, OPCODE_DATA, OPCODE_ERROR, OPCODE_RRQ, OPCODE_WRQ,
};

verus! {

/// Byte layout of a request packet: opcode, filename, NUL, mode, NUL.
pub open spec fn spec_request_bytes(opcode: u16, filename: Seq<u8>, mode: Seq<u8>) -> Seq<u8> {
    be16(opcode) + filename + seq![0u8] + mode + seq![0u8]
}

/// The filename and mode byte fields of a request packet, if both
/// NUL terminators are present.
pub open spec fn request_fields(data: Seq<u8>) -> Option<(Seq<u8>, Seq<u8>)> {
    match find_nul(data, 2) {
        Some(i) => match find_nul(data, i + 1) {
            Some(j) => Some((data.subrange(2, i), data.subrange(i + 1, j))),
            None => None,
        },
        None => None,
    }
}

/// A buffer decodes as a request with the given opcode: it carries that
/// opcode, both fields are NUL-terminated, and both decode as text.
pub open spec fn request_ok(data: Seq<u8>, opcode: u16) -> bool {
    &&& data.len() >= 2
    &&& word_at(data, 0) == opcode
    &&& match request_fields(data) {
        Some(fm) => valid_utf8(fm.0) && valid_utf8(fm.1),
        None => false,
    }
}

/// A buffer decodes as a read request.
pub open spec fn rrq_ok(data: Seq<u8>) -> bool {
    request_ok(data, OPCODE_RRQ)
}

/// A buffer decodes as a write request.
pub open spec fn wrq_ok(data: Seq<u8>) -> bool {
    request_ok(data, OPCODE_WRQ)
}

/// Collects the bytes from `start` up to the first NUL; `None` when no NUL
/// byte follows.
fn scan_field(data: &[u8], start: usize) -> (r: Option<(Vec<u8>, usize)>)
    requires
        start <= data@.len(),
    ensures
        match r {
            Some(p) => {
                &&& find_nul(data@, start as int) == Some(p.1 as int)
                &&& p.0@ == data@.subrange(start as int, p.1 as int)
                &&& start <= p.1 < data@.len()
            },
            None => find_nul(data@, start as int) is None,
        },
{
    let mut i: usize = start;
    let mut field: Vec<u8> = Vec::new();
    while i < data.len()
        invariant
            start <= i <= data@.len(),
            field@ == data@.subrange(start as int, i as int),
            forall|k: int| start <= k < i ==> data@[k] != 0,
        decreases data@.len() - i,
    {
        let b = data[i];
        if b == 0 {
            proof {
                lemma_find_nul_found(data@, start as int, i as int);
            }
            return Some((field, i));
        }
        field.push(b);
        i += 1;
        proof {
            assert(field@ =~= data@.subrange(start as int, i as int));
        }
    }
    proof {
        lemma_find_nul_none(data@, start as int);
    }
    None
}

/// Decodes the two text fields of a request carrying the given opcode.
fn parse_request(data: &[u8], opcode: u16) -> (r: Option<(String, String)>)
    ensures
        r is Some <==> request_ok(data@, opcode),
        r matches Some(fm) ==> request_fields(data@) matches Some(fields)
            && fm.0@ == decode_utf8(fields.0) && fm.1@ == decode_utf8(fields.1),
{
    if data.len() < 2 {
        return None;
    }
    let op = read_word(data, 0);
    if op != opcode {
        return None;
    }
    let (filename_bytes, filename_end) = match scan_field(data, 2) {
        Some(x) => x,
        None => {
            return None;
        },
    };
    let (mode_bytes, _mode_end) = match scan_field(data, filename_end + 1) {
        Some(x) => x,
        None => {
            return None;
        },
    };
    let filename = match bytes_to_text(filename_bytes) {
        Some(s) => s,
        None => {
            return None;
        },
    };
    let mode = match bytes_to_text(mode_bytes) {
        Some(s) => s,
        None => {
            return None;
        },
    };
    Some((filename, mode))
}

/// Encodes a request packet from validated text fields.
fn encode_request(opcode: u16, filename: &str, mode: &str) -> (r: Result<Vec<u8>, String>)
    ensures
        r is Ok <==> valid_text_bytes(filename.spec_bytes()) && valid_text_bytes(mode.spec_bytes()),
        r matches Ok(b) ==> b@ == spec_request_bytes(opcode, filename.spec_bytes(), mode.spec_bytes()),
        r matches Err(e) ==> e@ == "Invalid filename or mode"@,
{
    if !is_valid_text(filename) || !is_valid_text(mode) {
        return Err("Invalid filename or mode".to_owned());
    }
    let mut packet: Vec<u8> = Vec::new();
    push_word(&mut packet, opcode);
    append_bytes(&mut packet, filename.as_bytes());
    packet.push(0);
    append_bytes(&mut packet, mode.as_bytes());
    packet.push(0);
    proof {
        assert(packet@ =~= spec_request_bytes(opcode, filename.spec_bytes(), mode.spec_bytes()));
    }
    Ok(packet)
}

/// A TFTP read request.
#[derive(Debug, PartialEq)]
pub struct RRQPacket {
    pub filename: String,
    pub mode: String,
}

impl RRQPacket {
    /// Encodes a read request for the given filename and mode, rejecting
    /// fields that cannot be framed (empty, or containing a NUL byte).
    pub fn create_rrq_packet(filename: &str, mode: &str) -> (r: Result<Vec<u8>, String>)
        ensures
            r is Ok <==> valid_text_bytes(filename.spec_bytes()) && valid_text_bytes(
                mode.spec_bytes(),
            ),
            r matches Ok(b) ==> b@ == spec_request_bytes(
                OPCODE_RRQ,
                filename.spec_bytes(),
                mode.spec_bytes(),
            ),
            r matches Err(e) ==> e@ == "Invalid filename or mode"@,
    {
        encode_request(OPCODE_RRQ, filename, mode)
    }

    /// Decodes a read request; fails exactly on buffers that do not carry
    /// a well-formed RRQ.
    pub fn parse(data: &[u8]) -> (r: Result<RRQPacket, String>)
        ensures
            r is Ok <==> rrq_ok(data@),
            r matches Ok(p) ==> request_fields(data@) matches Some(fields)
                && p.filename@ == decode_utf8(fields.0) && p.mode@ == decode_utf8(fields.1),
            r matches Err(e) ==> e@ == "Invalid RRQ packet"@,
    {
        match parse_request(data, OPCODE_RRQ) {
            Some((filename, mode)) => Ok(RRQPacket { filename, mode }),
            None => Err("Invalid RRQ packet".to_owned()),
        }
    }
}

/// A TFTP write request.
#[derive(Debug, PartialEq)]
pub struct WRQPacket {
    pub filename: String,
    pub mode: String,
}

impl WRQPacket {
    /// Encodes a write request for the given filename and mode, rejecting
    /// fields that cannot be framed (empty, or containing a NUL byte).
    pub fn create_wrq_packet(filename: &str, mode: &str) -> (r: Result<Vec<u8>, String>)
        ensures
            r is Ok <==> valid_text_bytes(filename.spec_bytes()) && valid_text_bytes(
                mode.spec_bytes(),
            ),
            r matches Ok(b) ==> b@ == spec_request_bytes(
                OPCODE_WRQ,
                filename.spec_bytes(),
                mode.spec_bytes(),
            ),
            r matches Err(e) ==> e@ == "Invalid filename or mode"@,
    {
        encode_request(OPCODE_WRQ, filename, mode)
    }

    /// Decodes a write request; fails exactly on buffers that do not carry
    /// a well-formed WRQ.
    pub fn parse(data: &[u8]) -> (r: Result<WRQPacket, String>)
        ensures
            r is Ok <==> wrq_ok(data@),
            r matches Ok(p) ==> request_fields(data@) matches Some(fields)
                && p.filename@ == decode_utf8(fields.0) && p.mode@ == decode_utf8(fields.1),
            r matches Err(e) ==> e@ == "Invalid WRQ packet"@,
    {
        match parse_request(data, OPCODE_WRQ) {
            Some((filename, mode)) => Ok(WRQPacket { filename, mode }),
            None => Err("Invalid WRQ packet".to_owned()),
        }
    }
}

/// Byte layout of a data packet: opcode, block number, payload.
pub open spec fn spec_data_bytes(block: u16, payload: Seq<u8>) -> Seq<u8> {
    be16(OPCODE_DATA) + be16(block) + payload
}

/// A buffer decodes as a data packet: at least opcode and block number,
/// carrying the DATA opcode.
pub open spec fn data_ok(data: Seq<u8>) -> bool {
    data.len() >= 4 && word_at(data, 0) == OPCODE_DATA
}

/// The block number of a data packet.
pub open spec fn data_block(data: Seq<u8>) -> u16 {
    word_at(data, 2)
}

/// The payload of a data packet: everything after the header, capped at
/// 512 bytes (trailing bytes beyond offset 516 are ignored).
pub open spec fn data_payload(data: Seq<u8>) -> Seq<u8> {
    if data.len() <= 516 {
        data.subrange(4, data.len() as int)
    } else {
        data.subrange(4, 516)
    }
}

/// A TFTP data packet: one block of up to 512 payload bytes.  A payload
/// shorter than 512 bytes marks the final block of a transfer.
#[derive(Debug, PartialEq)]
pub struct DATAPacket {
    pub block: u16,
    pub data: Vec<u8>,
}

impl DATAPacket {
    /// The payload fits in one block.
    pub open spec fn wf(&self) -> bool {
        self.data@.len() <= BLOCK_SIZE
    }

    /// Builds a data packet, rejecting a payload longer than one block.
    pub fn build(block: u16, payload: &[u8]) -> (r: Result<DATAPacket, String>)
        ensures
            r is Ok <==> payload@.len() <= BLOCK_SIZE,
            r matches Ok(p) ==> p.block == block && p.data@ == payload@,
            r matches Err(e) ==> e@ == "DATA payload exceeds one block"@,
    {
        if payload.len() > BLOCK_SIZE {
            return Err("DATA payload exceeds one block".to_owned());
        }
        let mut data: Vec<u8> = Vec::new();
        append_bytes(&mut data, payload);
        Ok(DATAPacket { block, data })
    }

    /// The payload carried by this packet.
    pub fn get_data(&self) -> (r: &[u8])
        ensures
            r@ == self.data@,
    {
        self.data.as_slice()
    }

    /// Decodes a data packet; fails exactly on buffers that do not carry a
    /// well-formed DATA packet.  Trailing bytes beyond offset 516 are
    /// ignored rather than rejected: a deliberate policy choice, so that an
    /// over-long datagram yields the block it starts with.
    pub fn parse(data: &[u8]) -> (r: Result<DATAPacket, String>)
        ensures
            r is Ok <==> data_ok(data@),
            r matches Ok(p) ==> p.block == data_block(data@) && p.data@ == data_payload(data@)
                && p.wf(),
            r matches Err(e) ==> e@ == "Invalid TFTP DATA packet"@,
    {
        if data.len() < 4 {
            return Err("Invalid TFTP DATA packet".to_owned());
        }
        let opcode = read_word(data, 0);
        if opcode != OPCODE_DATA {
            return Err("Invalid TFTP DATA packet".to_owned());
        }
        let block = read_word(data, 2);
        let end: usize = if data.len() <= 516 {
            data.len()
        } else {
            516
        };
        let mut payload: Vec<u8> = Vec::new();
        let mut i: usize = 4;
        while i < end
            invariant
                4 <= i <= end <= data@.len(),
                payload@ == data@.subrange(4, i as int),
            decreases end - i,
        {
            payload.push(data[i]);
            i += 1;
            proof {
                assert(payload@ =~= data@.subrange(4, i as int));
            }
        }
        Ok(DATAPacket { block, data: payload })
    }

    /// Encodes this packet for the wire.
    pub fn as_bytes(&self) -> (r: Vec<u8>)
        requires
            self.wf(),
        ensures
            r@ == spec_data_bytes(self.block, self.data@),
    {
        let mut packet: Vec<u8> = Vec::new();
        push_word(&mut packet, OPCODE_DATA);
        push_word(&mut packet, self.block);
        append_bytes(&mut packet, self.data.as_slice());
        proof {
            assert(packet@ =~= spec_data_bytes(self.block, self.data@));
        }
        packet
    }
}

/// Byte layout of an acknowledgement: opcode and block number.
pub open spec fn spec_ack_bytes(block: u16) -> Seq<u8> {
    be16(OPCODE_ACK) + be16(block)
}

/// A buffer decodes as an acknowledgement: at least opcode and block
/// number, carrying the ACK opcode.  Trailing bytes are ignored.
pub open spec fn ack_ok(data: Seq<u8>) -> bool {
    data.len() >= 4 && word_at(data, 0) == OPCODE_ACK
}

/// The block number of an acknowledgement.
pub open spec fn ack_block(data: Seq<u8>) -> u16 {
    word_at(data, 2)
}

/// A TFTP acknowledgement of the data block with the same number; block 0
/// acknowledges a write request.
#[derive(Debug, PartialEq)]
pub struct ACKPacket {
    pub block: u16,
}

impl ACKPacket {
    /// Decodes an acknowledgement; fails exactly on buffers that do not
    /// carry a well-formed ACK.
    pub fn parse(data: &[u8]) -> (r: Result<ACKPacket, String>)
        ensures
            r is Ok <==> ack_ok(data@),
            r matches Ok(p) ==> p.block == ack_block(data@),
            r matches Err(e) ==> e@ == "Invalid TFTP ACK packet"@,
    {
        if data.len() < 4 {
            return Err("Invalid TFTP ACK packet".to_owned());
        }
        let opcode = read_word(data, 0);
        if opcode != OPCODE_ACK {
            return Err("Invalid TFTP ACK packet".to_owned());
        }
        let block = read_word(data, 2);
        Ok(ACKPacket { block })
    }

    /// Encodes this acknowledgement for the wire.
    pub fn as_bytes(&self) -> (r: Vec<u8>)
        ensures
            r@ == spec_ack_bytes(self.block),
    {
        let mut packet: Vec<u8> = Vec::new();
        push_word(&mut packet, OPCODE_ACK);
        push_word(&mut packet, self.block);
        proof {
            assert(packet@ =~= spec_ack_bytes(self.block));
        }
        packet
    }
}

/// Byte layout of an error packet: opcode, error code, message, NUL.
pub open spec fn spec_error_bytes(code: u16, message: Seq<u8>) -> Seq<u8> {
    be16(OPCODE_ERROR) + be16(code) + message + seq![0u8]
}

/// A buffer decodes as an error packet: the ERROR opcode, a code in 0..=7,
/// and for code 0 a NUL-terminated message that decodes as text.  Codes
/// 1..=7 carry a fixed meaning, so their message bytes are not inspected.
pub open spec fn error_ok(data: Seq<u8>) -> bool {
    &&& data.len() >= 4
    &&& word_at(data, 0) == OPCODE_ERROR
    &&& {
        let code = word_at(data, 2);
        if code == 0 {
            match find_nul(data, 4) {
                Some(i) => valid_utf8(data.subrange(4, i)),
                None => false,
            }
        } else {
            code <= 7
        }
    }
}

/// The error code of an error packet.
pub open spec fn error_code(data: Seq<u8>) -> u16 {
    word_at(data, 2)
}

/// The message bytes of a code-0 error packet.
pub open spec fn error_message_bytes(data: Seq<u8>) -> Seq<u8> {
    data.subrange(4, find_nul(data, 4).unwrap())
}

/// A TFTP error packet, by error code.  Codes 1 through 7 have the fixed
/// meanings of RFC 1350; code 0 carries a free-text message.
#[derive(Debug, PartialEq)]
pub enum ERRORPacket {
    NotDefined(String),
    FileNotFound,
    AccessViolation,
    DiskFull,
    IllegalTftpOperation,
    UnknownTransferID,
    FileAlreadyExists,
    NoSuchUser,
}

/// The wire code of each error packet kind.
pub open spec fn spec_error_code(e: &ERRORPacket) -> u16 {
    match e {
        ERRORPacket::NotDefined(_) => 0,
        ERRORPacket::FileNotFound => 1,
        ERRORPacket::AccessViolation => 2,
        ERRORPacket::DiskFull => 3,
        ERRORPacket::IllegalTftpOperation => 4,
        ERRORPacket::UnknownTransferID => 5,
        ERRORPacket::FileAlreadyExists => 6,
        ERRORPacket::NoSuchUser => 7,
    }
}

/// The message text of each error packet kind.
pub open spec fn spec_error_message(e: &ERRORPacket) -> Seq<char> {
    match e {
        ERRORPacket::NotDefined(m) => m@,
        ERRORPacket::FileNotFound => "File not found."@,
        ERRORPacket::AccessViolation => "Access violation."@,
        ERRORPacket::DiskFull => "Disk full or allocation exceeded."@,
        ERRORPacket::IllegalTftpOperation => "Illegal TFTP operation."@,
        ERRORPacket::UnknownTransferID => "Unknown transfer ID."@,
        ERRORPacket::FileAlreadyExists => "File already exists."@,
        ERRORPacket::NoSuchUser => "No such user."@,
    }
}

impl ERRORPacket {
    /// A free-text message can be framed: its encoding holds no NUL byte.
    pub open spec fn wf(&self) -> bool {
        match self {
            ERRORPacket::NotDefined(m) => forall|i: int|
                0 <= i < encode_utf8(m@).len() ==> encode_utf8(m@)[i] != 0,
            _ => true,
        }
    }

    /// Encodes an error packet from an arbitrary code and message.
    pub fn create_custom_error_packet(error_code: u16, error_message: &str) -> (r: Vec<u8>)
        ensures
            r@ == spec_error_bytes(error_code, error_message.spec_bytes()),
    {
        let mut packet: Vec<u8> = Vec::new();
        push_word(&mut packet, OPCODE_ERROR);
        push_word(&mut packet, error_code);
        append_bytes(&mut packet, error_message.as_bytes());
        packet.push(0);
        proof {
            assert(packet@ =~= spec_error_bytes(error_code, error_message.spec_bytes()));
        }
        packet
    }

    /// Encodes this error packet for the wire.
    pub fn as_bytes(&self) -> (r: Vec<u8>)
        ensures
            r@ == spec_error_bytes(spec_error_code(self), encode_utf8(spec_error_message(self))),
    {
        match self {
            Self::NotDefined(error_message) => Self::create_custom_error_packet(
                0,
                error_message.as_str(),
            ),
            Self::FileNotFound => Self::create_custom_error_packet(1, "File not found."),
            Self::AccessViolation => Self::create_custom_error_packet(2, "Access violation."),
            Self::DiskFull => Self::create_custom_error_packet(
                3,
                "Disk full or allocation exceeded.",
            ),
            Self::IllegalTftpOperation => Self::create_custom_error_packet(
                4,
                "Illegal TFTP operation.",
            ),
            Self::UnknownTransferID => Self::create_custom_error_packet(5, "Unknown transfer ID."),
            Self::FileAlreadyExists => Self::create_custom_error_packet(6, "File already exists."),
            Self::NoSuchUser => Self::create_custom_error_packet(7, "No such user."),
        }
    }

    /// Decodes an error packet; fails exactly on buffers that do not carry
    /// a well-formed ERROR packet.
    pub fn parse(data: &[u8]) -> (r: Result<ERRORPacket, String>)
        ensures
            r is Ok <==> error_ok(data@),
            r matches Ok(e) ==> spec_error_code(&e) == error_code(data@),
            r matches Ok(e) ==> (error_code(data@) == 0 ==> (e matches ERRORPacket::NotDefined(m)
                && m@ == decode_utf8(error_message_bytes(data@)))),
            r matches Err(e) ==> e@ == "Invalid ERROR packet"@,
    {
        if data.len() < 4 {
            return Err("Invalid ERROR packet".to_owned());
        }
        let opcode = read_word(data, 0);
        if opcode != OPCODE_ERROR {
            return Err("Invalid ERROR packet".to_owned());
        }
        let errcode = read_word(data, 2);
        match errcode {
            0 => {
                let (message_bytes, _end) = match scan_field(data, 4) {
                    Some(x) => x,
                    None => {
                        return Err("Invalid ERROR packet".to_owned());
                    },
                };
                match bytes_to_text(message_bytes) {
                    Some(message) => Ok(Self::NotDefined(message)),
                    None => Err("Invalid ERROR packet".to_owned()),
                }
            },
            1 => Ok(Self::FileNotFound),
            2 => Ok(Self::AccessViolation),
            3 => Ok(Self::DiskFull),
            4 => Ok(Self::IllegalTftpOperation),
            5 => Ok(Self::UnknownTransferID),
            6 => Ok(Self::FileAlreadyExists),
            7 => Ok(Self::NoSuchUser),
            _ => Err("Invalid ERROR packet".to_owned()),
        }
    }

    /// The human-readable message this error packet carries.
    pub fn get_error_message(&self) -> (r: String)
        ensures
            r@ == spec_error_message(self),
    {
        match self {
            Self::NotDefined(error_message) => error_message.clone(),
            Self::FileNotFound => "File not found.".to_owned(),
            Self::AccessViolation => "Access violation.".to_owned(),
            Self::DiskFull => "Disk full or allocation exceeded.".to_owned(),
            Self::IllegalTftpOperation => "Illegal TFTP operation.".to_owned(),
            Self::UnknownTransferID => "Unknown transfer ID.".to_owned(),
            Self::FileAlreadyExists => "File already exists.".to_owned(),
            Self::NoSuchUser => "No such user.".to_owned(),
        }
    }
}

/// A buffer decodes as some TFTP packet.
pub open spec fn packet_ok(data: Seq<u8>) -> bool {
    rrq_ok(data) || wrq_ok(data) || data_ok(data) || ack_ok(data) || error_ok(data)
}

/// Any of the five TFTP packets of RFC 1350.
#[derive(Debug, PartialEq)]
pub enum TFTPPacket {
    RRQ(RRQPacket),
    WRQ(WRQPacket),
    DATA(DATAPacket),
    ACK(ACKPacket),
    ERROR(ERRORPacket),
}

impl TFTPPacket {
    /// Decodes any TFTP packet, dispatching on the opcode field first so
    /// that a buffer is only ever interpreted as the kind its opcode names.
    pub fn parse(data: &[u8]) -> (r: Result<TFTPPacket, String>)
        ensures
            r is Ok <==> packet_ok(data@),
            r matches Ok(p) ==> match p {
                TFTPPacket::RRQ(q) => rrq_ok(data@) && (request_fields(data@) matches Some(fields)
                    && q.filename@ == decode_utf8(fields.0) && q.mode@ == decode_utf8(fields.1)),
                TFTPPacket::WRQ(q) => wrq_ok(data@) && (request_fields(data@) matches Some(fields)
                    && q.filename@ == decode_utf8(fields.0) && q.mode@ == decode_utf8(fields.1)),
                TFTPPacket::DATA(q) => data_ok(data@) && q.block == data_block(data@)
                    && q.data@ == data_payload(data@),
                TFTPPacket::ACK(q) => ack_ok(data@) && q.block == ack_block(data@),
                TFTPPacket::ERROR(q) => error_ok(data@) && spec_error_code(&q) == error_code(data@)
                    && (error_code(data@) == 0 ==> (q matches ERRORPacket::NotDefined(m)
                    && m@ == decode_utf8(error_message_bytes(data@)))),
            },
            rrq_ok(data@) ==> r matches Ok(TFTPPacket::RRQ(_)),
            wrq_ok(data@) ==> r matches Ok(TFTPPacket::WRQ(_)),
            data_ok(data@) ==> r matches Ok(TFTPPacket::DATA(_)),
            ack_ok(data@) ==> r matches Ok(TFTPPacket::ACK(_)),
            error_ok(data@) ==> r matches Ok(TFTPPacket::ERROR(_)),
            r matches Err(e) ==> e@ == "Invalid TFTP Packet"@,
    {
        if data.len() < 2 {
            return Err("Invalid TFTP Packet".to_owned());
        }
        let opcode = read_word(data, 0);
        match opcode {
            1 => match RRQPacket::parse(data) {
                Ok(rrq) => Ok(Self::RRQ(rrq)),
                Err(_) => Err("Invalid TFTP Packet".to_owned()),
            },
            2 => match WRQPacket::parse(data) {
                Ok(wrq) => Ok(Self::WRQ(wrq)),
                Err(_) => Err("Invalid TFTP Packet".to_owned()),
            },
            3 => match DATAPacket::parse(data) {
                Ok(d) => Ok(Self::DATA(d)),
                Err(_) => Err("Invalid TFTP Packet".to_owned()),
            },
            4 => match ACKPacket::parse(data) {
                Ok(ack) => Ok(Self::ACK(ack)),
                Err(_) => Err("Invalid TFTP Packet".to_owned()),
            },
            5 => match ERRORPacket::parse(data) {
                Ok(err) => Ok(Self::ERROR(err)),
                Err(_) => Err("Invalid TFTP Packet".to_owned()),
            },
            _ => Err("Invalid TFTP Packet".to_owned()),
        }
    }
}

/// Encoding a request and decoding the result yields the original fields.
proof fn lemma_request_round_trip(opcode: u16, filename: Seq<char>, mode: Seq<char>)
    requires
        valid_text_bytes(encode_utf8(filename)),
        valid_text_bytes(encode_utf8(mode)),
    ensures
        ({
            let bytes = spec_request_bytes(opcode, encode_utf8(filename), encode_utf8(mode));
            &&& request_ok(bytes, opcode)
            &&& request_fields(bytes) == Some((encode_utf8(filename), encode_utf8(mode)))
            &&& decode_utf8(encode_utf8(filename)) == filename
            &&& decode_utf8(encode_utf8(mode)) == mode
        }),
{
    let fb = encode_utf8(filename);
    let mb = encode_utf8(mode);
    let bytes = spec_request_bytes(opcode, fb, mb);
    let fend = 2 + fb.len() as int;
    let mend = fend + 1 + mb.len() as int;
    assert(bytes.len() == mend + 1);
    assert(bytes[0] == be16(opcode)[0] && bytes[1] == be16(opcode)[1]);
    lemma_word_at_be16(opcode, bytes, 0);
    assert(bytes[fend] == 0);
    assert(bytes[mend] == 0);
    assert(forall|k: int| 2 <= k < fend ==> bytes[k] == fb[k - 2]);
    assert(forall|k: int| fend + 1 <= k < mend ==> bytes[k] == mb[k - fend - 1]);
    lemma_find_nul_found(bytes, 2, fend);
    lemma_find_nul_found(bytes, fend + 1, mend);
    assert(bytes.subrange(2, fend) =~= fb);
    assert(bytes.subrange(fend + 1, mend) =~= mb);
    encode_utf8_valid_utf8(filename);
    encode_utf8_valid_utf8(mode);
    vstd::utf8::encode_utf8_decode_utf8(filename);
    vstd::utf8::encode_utf8_decode_utf8(mode);
}

/// Round trip for read requests: the bytes `create_rrq_packet` produces for
/// any valid filename and mode decode back to exactly those fields.
pub proof fn lemma_rrq_round_trip(filename: Seq<char>, mode: Seq<char>)
    requires
        valid_text_bytes(encode_utf8(filename)),
        valid_text_bytes(encode_utf8(mode)),
    ensures
        ({
            let bytes = spec_request_bytes(OPCODE_RRQ, encode_utf8(filename), encode_utf8(mode));
            &&& rrq_ok(bytes)
            &&& request_fields(bytes) == Some((encode_utf8(filename), encode_utf8(mode)))
            &&& decode_utf8(encode_utf8(filename)) == filename
            &&& decode_utf8(encode_utf8(mode)) == mode
        }),
{
    lemma_request_round_trip(OPCODE_RRQ, filename, mode);
}

/// Round trip for write requests: the bytes `create_wrq_packet` produces
/// for any valid filename and mode decode back to exactly those fields.
pub proof fn lemma_wrq_round_trip(filename: Seq<char>, mode: Seq<char>)
    requires
        valid_text_bytes(encode_utf8(filename)),
        valid_text_bytes(encode_utf8(mode)),
    ensures
        ({
            let bytes = spec_request_bytes(OPCODE_WRQ, encode_utf8(filename), encode_utf8(mode));
            &&& wrq_ok(bytes)
            &&& request_fields(bytes) == Some((encode_utf8(filename), encode_utf8(mode)))
            &&& decode_utf8(encode_utf8(filename)) == filename
            &&& decode_utf8(encode_utf8(mode)) == mode
        }),
{
    lemma_request_round_trip(OPCODE_WRQ, filename, mode);
}

/// Round trip for data packets: any payload of at most one block, empty and
/// full blocks included, decodes back unchanged with its block number.
pub proof fn lemma_data_round_trip(block: u16, payload: Seq<u8>)
    requires
        payload.len() <= BLOCK_SIZE,
    ensures
        ({
            let bytes = spec_data_bytes(block, payload);
            &&& data_ok(bytes)
            &&& data_block(bytes) == block
            &&& data_payload(bytes) == payload
        }),
{
    let bytes = spec_data_bytes(block, payload);
    assert(bytes[0] == be16(OPCODE_DATA)[0] && bytes[1] == be16(OPCODE_DATA)[1]);
    assert(bytes[2] == be16(block)[0] && bytes[3] == be16(block)[1]);
    lemma_word_at_be16(OPCODE_DATA, bytes, 0);
    lemma_word_at_be16(block, bytes, 2);
    assert(data_payload(bytes) =~= payload);
}

/// Round trip for acknowledgements: the block number always decodes back.
pub proof fn lemma_ack_round_trip(block: u16)
    ensures
        ({
            let bytes = spec_ack_bytes(block);
            &&& ack_ok(bytes)
            &&& ack_block(bytes) == block
        }),
{
    let bytes = spec_ack_bytes(block);
    assert(bytes[0] == be16(OPCODE_ACK)[0] && bytes[1] == be16(OPCODE_ACK)[1]);
    assert(bytes[2] == be16(block)[0] && bytes[3] == be16(block)[1]);
    lemma_word_at_be16(OPCODE_ACK, bytes, 0);
    lemma_word_at_be16(block, bytes, 2);
}

/// Round trip for error packets: the bytes `as_bytes` produces for any
/// well-formed error packet decode back to its code, and for code 0 to its
/// message.
pub proof fn lemma_error_round_trip(e: &ERRORPacket)
    requires
        e.wf(),
    ensures
        ({
            let bytes = spec_error_bytes(spec_error_code(e), encode_utf8(spec_error_message(e)));
            &&& error_ok(bytes)
            &&& error_code(bytes) == spec_error_code(e)
            &&& (spec_error_code(e) == 0 ==> decode_utf8(error_message_bytes(bytes))
                == spec_error_message(e))
        }),
{
    let code = spec_error_code(e);
    let msg = encode_utf8(spec_error_message(e));
    let bytes = spec_error_bytes(code, msg);
    let mend = 4 + msg.len() as int;
    assert(bytes[0] == be16(OPCODE_ERROR)[0] && bytes[1] == be16(OPCODE_ERROR)[1]);
    assert(bytes[2] == be16(code)[0] && bytes[3] == be16(code)[1]);
    lemma_word_at_be16(OPCODE_ERROR, bytes, 0);
    lemma_word_at_be16(code, bytes, 2);
    if code == 0 {
        assert(bytes[mend] == 0);
        assert(forall|k: int| 4 <= k < mend ==> bytes[k] == msg[k - 4]);
        lemma_find_nul_found(bytes, 4, mend);
        assert(bytes.subrange(4, mend) =~= msg);
        encode_utf8_valid_utf8(spec_error_message(e));
        vstd::utf8::encode_utf8_decode_utf8(spec_error_message(e));
    }
}

/// A buffer is only ever accepted as the packet kind its opcode names: no
/// two of the five decoders accept the same bytes.
pub proof fn lemma_opcode_discrimination(data: Seq<u8>)
    ensures
        rrq_ok(data) ==> !(wrq_ok(data) || data_ok(data) || ack_ok(data) || error_ok(data)),
        wrq_ok(data) ==> !(rrq_ok(data) || data_ok(data) || ack_ok(data) || error_ok(data)),
        data_ok(data) ==> !(rrq_ok(data) || wrq_ok(data) || ack_ok(data) || error_ok(data)),
        ack_ok(data) ==> !(rrq_ok(data) || wrq_ok(data) || data_ok(data) || error_ok(data)),
        error_ok(data) ==> !(rrq_ok(data) || wrq_ok(data) || data_ok(data) || ack_ok(data)),
{
}

/// No buffer shorter than a packet header decodes as any packet kind:
/// every decoder reports an error instead.
pub proof fn lemma_short_buffer_rejected(data: Seq<u8>)
    requires
        data.len() < 4,
    ensures
        !rrq_ok(data),
        !wrq_ok(data),
        !data_ok(data),
        !ack_ok(data),
        !error_ok(data),
        !packet_ok(data),
{
    lemma_find_nul_props(data, 2);
    match find_nul(data, 2) {
        Some(i) => {
            lemma_find_nul_props(data, i + 1);
        },
        None => {},
    }
}

} // verus!
