use tftp_core::packet::{ACKPacket, DATAPacket, ERRORPacket, RRQPacket, TFTPPacket, WRQPacket};

fn data_bytes(block: u16, payload: &[u8]) -> Vec<u8> {
    DATAPacket::build(block, payload).unwrap().as_bytes()
}

#[test]
fn rrq_round_trip() {
    let bytes = RRQPacket::create_rrq_packet("notes.txt", "octet").unwrap();
    assert_eq!(bytes[0], 0);
    assert_eq!(bytes[1], 1);
    let p = RRQPacket::parse(&bytes).unwrap();
    assert_eq!(p.filename, "notes.txt");
    assert_eq!(p.mode, "octet");
}

#[test]
fn wrq_round_trip() {
    let bytes = WRQPacket::create_wrq_packet("x.bin", "octet").unwrap();
    assert_eq!(bytes[0], 0);
    assert_eq!(bytes[1], 2);
    let p = WRQPacket::parse(&bytes).unwrap();
    assert_eq!(p.filename, "x.bin");
    assert_eq!(p.mode, "octet");
}

#[test]
fn rrq_round_trip_multibyte_text() {
    let bytes = RRQPacket::create_rrq_packet("héllo — ñ.txt", "octet").unwrap();
    let p = RRQPacket::parse(&bytes).unwrap();
    assert_eq!(p.filename, "héllo — ñ.txt");
    assert_eq!(p.mode, "octet");
}

#[test]
fn error_round_trip_multibyte_message() {
    let e = ERRORPacket::NotDefined(String::from("nöt deféined — ✗"));
    assert_eq!(ERRORPacket::parse(&e.as_bytes()).unwrap(), e);
}

#[test]
fn empty_fields_rejected_at_construction() {
    assert!(RRQPacket::create_rrq_packet("", "octet").is_err());
    assert!(RRQPacket::create_rrq_packet("notes.txt", "").is_err());
    assert!(WRQPacket::create_wrq_packet("", "octet").is_err());
    assert!(WRQPacket::create_wrq_packet("x.bin", "").is_err());
}

#[test]
fn nul_in_field_rejected_at_construction() {
    assert!(RRQPacket::create_rrq_packet("a\u{0}b", "octet").is_err());
    assert!(WRQPacket::create_wrq_packet("x.bin", "oc\u{0}tet").is_err());
}

#[test]
fn rrq_exact_wire_layout() {
    let bytes = RRQPacket::create_rrq_packet("ab", "cd").unwrap();
    assert_eq!(bytes, vec![0, 1, b'a', b'b', 0, b'c', b'd', 0]);
}

#[test]
fn request_missing_terminator_rejected() {
    // Opcode and filename, but no NUL ends the mode field.
    assert!(RRQPacket::parse(&[0, 1, b'a', 0, b'o']).is_err());
    // No NUL at all after the opcode.
    assert!(RRQPacket::parse(&[0, 1, b'a', b'b']).is_err());
    assert!(WRQPacket::parse(&[0, 2, b'a', 0, b'o']).is_err());
}

#[test]
fn request_invalid_utf8_rejected() {
    // 0xFF can never start a UTF-8 sequence.
    assert!(RRQPacket::parse(&[0, 1, 0xFF, 0, b'o', 0]).is_err());
    assert!(WRQPacket::parse(&[0, 2, b'a', 0, 0xFF, 0]).is_err());
}

#[test]
fn data_round_trip_empty_payload() {
    let bytes = data_bytes(7, &[]);
    assert_eq!(bytes, vec![0, 3, 0, 7]);
    let p = DATAPacket::parse(&bytes).unwrap();
    assert_eq!(p.block, 7);
    assert_eq!(p.data, Vec::<u8>::new());
}

#[test]
fn data_round_trip_full_block() {
    let payload = vec![0xAB_u8; 512];
    let bytes = data_bytes(1, &payload);
    assert_eq!(bytes.len(), 516);
    let p = DATAPacket::parse(&bytes).unwrap();
    assert_eq!(p.block, 1);
    assert_eq!(p.data, payload);
}

#[test]
fn data_round_trip_short_block() {
    let payload: Vec<u8> = (0..188).map(|i| i as u8).collect();
    let p = DATAPacket::parse(&data_bytes(2, &payload)).unwrap();
    assert_eq!(p.block, 2);
    assert_eq!(p.data, payload);
}

#[test]
fn data_build_oversize_rejected() {
    assert!(DATAPacket::build(1, &[0_u8; 513]).is_err());
    assert!(DATAPacket::build(1, &[0_u8; 512]).is_ok());
}

#[test]
fn data_block_number_is_big_endian() {
    let bytes = data_bytes(0x0102, &[9]);
    assert_eq!(bytes, vec![0, 3, 1, 2, 9]);
}

#[test]
fn data_trailing_bytes_ignored() {
    // 520 bytes: the payload is cut at offset 516, the rest is ignored.
    let mut raw = vec![0_u8, 3, 0, 1];
    raw.extend(std::iter::repeat(5_u8).take(516));
    let p = DATAPacket::parse(&raw).unwrap();
    assert_eq!(p.block, 1);
    assert_eq!(p.data, vec![5_u8; 512]);
}

#[test]
fn ack_round_trip() {
    let bytes = ACKPacket { block: 0xBEEF }.as_bytes();
    assert_eq!(bytes, vec![0, 4, 0xBE, 0xEF]);
    let p = ACKPacket::parse(&bytes).unwrap();
    assert_eq!(p.block, 0xBEEF);
}

#[test]
fn error_round_trip_all_kinds() {
    let kinds = [
        ERRORPacket::NotDefined(String::from("disk on fire")),
        ERRORPacket::FileNotFound,
        ERRORPacket::AccessViolation,
        ERRORPacket::DiskFull,
        ERRORPacket::IllegalTftpOperation,
        ERRORPacket::UnknownTransferID,
        ERRORPacket::FileAlreadyExists,
        ERRORPacket::NoSuchUser,
    ];
    for kind in kinds {
        let bytes = kind.as_bytes();
        let parsed = ERRORPacket::parse(&bytes).unwrap();
        assert_eq!(parsed, kind);
    }
}

#[test]
fn error_round_trip_empty_message() {
    let e = ERRORPacket::NotDefined(String::new());
    assert_eq!(ERRORPacket::parse(&e.as_bytes()).unwrap(), e);
}

#[test]
fn error_exact_wire_layout() {
    let bytes = ERRORPacket::FileNotFound.as_bytes();
    let mut expected = vec![0_u8, 5, 0, 1];
    expected.extend_from_slice(b"File not found.");
    expected.push(0);
    assert_eq!(bytes, expected);
}

#[test]
fn error_code_out_of_range_rejected() {
    assert!(ERRORPacket::parse(&[0, 5, 0, 8, 0]).is_err());
    assert!(ERRORPacket::parse(&[0, 5, 1, 0, 0]).is_err());
}

#[test]
fn error_code_zero_needs_terminated_message() {
    assert!(ERRORPacket::parse(&[0, 5, 0, 0, b'h', b'i']).is_err());
    assert!(ERRORPacket::parse(&[0, 5, 0, 0, b'h', b'i', 0]).is_ok());
}

#[test]
fn error_messages() {
    assert_eq!(ERRORPacket::FileNotFound.get_error_message(), "File not found.");
    assert_eq!(ERRORPacket::IllegalTftpOperation.get_error_message(), "Illegal TFTP operation.");
    assert_eq!(
        ERRORPacket::NotDefined(String::from("oops")).get_error_message(),
        "oops"
    );
}

#[test]
fn custom_error_packet_layout() {
    let bytes = ERRORPacket::create_custom_error_packet(4, "bad");
    assert_eq!(bytes, vec![0, 5, 0, 4, b'b', b'a', b'd', 0]);
}

#[test]
fn short_buffers_always_rejected() {
    // Arbitrary byte slices of length 0..4 decode as nothing, crashing
    // nowhere.
    let raw = [0_u8, 1, 0, 3, 4, 0, 5, 255];
    for len in 0..4 {
        for start in 0..4 {
            let slice = &raw[start..start + len];
            assert!(RRQPacket::parse(slice).is_err());
            assert!(WRQPacket::parse(slice).is_err());
            assert!(DATAPacket::parse(slice).is_err());
            assert!(ACKPacket::parse(slice).is_err());
            assert!(ERRORPacket::parse(slice).is_err());
            assert!(TFTPPacket::parse(slice).is_err());
        }
    }
}

#[test]
fn opcode_discrimination() {
    let rrq = RRQPacket::create_rrq_packet("f", "octet").unwrap();
    let wrq = WRQPacket::create_wrq_packet("f", "octet").unwrap();
    let data = data_bytes(1, &[1, 2, 3]);
    let ack = ACKPacket { block: 4 }.as_bytes();
    let err = ERRORPacket::FileNotFound.as_bytes();

    // An ACK is never accepted as any other kind.
    assert!(RRQPacket::parse(&ack).is_err());
    assert!(WRQPacket::parse(&ack).is_err());
    assert!(DATAPacket::parse(&ack).is_err());
    assert!(ERRORPacket::parse(&ack).is_err());

    // And vice versa for each other opcode.
    assert!(WRQPacket::parse(&rrq).is_err());
    assert!(DATAPacket::parse(&rrq).is_err());
    assert!(ACKPacket::parse(&rrq).is_err());
    assert!(ERRORPacket::parse(&rrq).is_err());

    assert!(RRQPacket::parse(&wrq).is_err());
    assert!(DATAPacket::parse(&wrq).is_err());
    assert!(ACKPacket::parse(&wrq).is_err());
    assert!(ERRORPacket::parse(&wrq).is_err());

    assert!(RRQPacket::parse(&data).is_err());
    assert!(WRQPacket::parse(&data).is_err());
    assert!(ACKPacket::parse(&data).is_err());
    assert!(ERRORPacket::parse(&data).is_err());

    assert!(RRQPacket::parse(&err).is_err());
    assert!(WRQPacket::parse(&err).is_err());
    assert!(DATAPacket::parse(&err).is_err());
    assert!(ACKPacket::parse(&err).is_err());
}

#[test]
fn dispatching_parse_follows_opcode() {
    let rrq = RRQPacket::create_rrq_packet("f", "octet").unwrap();
    assert!(matches!(TFTPPacket::parse(&rrq), Ok(TFTPPacket::RRQ(_))));
    let wrq = WRQPacket::create_wrq_packet("f", "octet").unwrap();
    assert!(matches!(TFTPPacket::parse(&wrq), Ok(TFTPPacket::WRQ(_))));
    let data = data_bytes(1, &[1]);
    assert!(matches!(TFTPPacket::parse(&data), Ok(TFTPPacket::DATA(_))));
    let ack = ACKPacket { block: 1 }.as_bytes();
    assert!(matches!(TFTPPacket::parse(&ack), Ok(TFTPPacket::ACK(_))));
    let err = ERRORPacket::DiskFull.as_bytes();
    assert!(matches!(TFTPPacket::parse(&err), Ok(TFTPPacket::ERROR(_))));
    // An unknown opcode is rejected outright.
    assert!(TFTPPacket::parse(&[0, 9, 0, 0]).is_err());
    assert_eq!(
        TFTPPacket::parse(&[0, 9, 0, 0]).unwrap_err(),
        "Invalid TFTP Packet"
    );
}
