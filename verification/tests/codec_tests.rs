use brlapi_server::codec::{
    decode_client_packet, decode_server_packet, encode_client_packet, encode_server_packet,
};
use brlapi_server::keycode::{Keycode, KeycodeType};
use brlapi_server::packets::{
    AuthType, ClientPacket, ClientPacketData, ErrorCode, PacketType, ParameterRequestFlags,
    ParameterValueFlags, ServerPacket, ServerPacketData,
};

fn client_round_trip(p: ClientPacket) {
    let bytes = encode_client_packet(&p);
    let back = decode_client_packet(&bytes).expect("canonical encoding decodes");
    assert_eq!(back, p);
    // the canonical form is unique: re-encoding reproduces the bytes
    assert_eq!(encode_client_packet(&back), bytes);
}

fn server_round_trip(p: ServerPacket) {
    let bytes = encode_server_packet(&p);
    let back = decode_server_packet(&bytes).expect("canonical encoding decodes");
    assert_eq!(back, p);
    assert_eq!(encode_server_packet(&back), bytes);
}

#[test]
fn client_simple_variants_round_trip() {
    client_round_trip(ClientPacket {
        ty: PacketType::Version,
        data: ClientPacketData::Version { version: 8 },
    });
    client_round_trip(ClientPacket {
        ty: PacketType::GetDriverName,
        data: ClientPacketData::GetDriverName,
    });
    client_round_trip(ClientPacket {
        ty: PacketType::GetModelId,
        data: ClientPacketData::GetModelId,
    });
    client_round_trip(ClientPacket {
        ty: PacketType::GetDisplaySize,
        data: ClientPacketData::GetDisplaySize,
    });
    client_round_trip(ClientPacket {
        ty: PacketType::SetFocus,
        data: ClientPacketData::SetFocus { tty: 42 },
    });
    client_round_trip(ClientPacket {
        ty: PacketType::LeaveTtyMode,
        data: ClientPacketData::LeaveTtyMode,
    });
    client_round_trip(ClientPacket {
        ty: PacketType::Synchronize,
        data: ClientPacketData::Synchronize,
    });
    client_round_trip(ClientPacket {
        ty: PacketType::Packet,
        data: ClientPacketData::Packet { packet: vec![1, 2, 3, 4, 5] },
    });
}

#[test]
fn client_auth_round_trip() {
    client_round_trip(ClientPacket {
        ty: PacketType::Auth,
        data: ClientPacketData::Auth { auth_type: AuthType::Key, key: b"s3cret".to_vec() },
    });
}

#[test]
fn client_structured_variants_round_trip() {
    client_round_trip(ClientPacket {
        ty: PacketType::EnterTtyMode,
        data: ClientPacketData::EnterTtyMode {
            ttys: vec![1, 2, 3],
            driver: b"drv".to_vec(),
        },
    });
    client_round_trip(ClientPacket {
        ty: PacketType::IgnoreKeyRanges,
        data: ClientPacketData::IgnoreKeyRanges {
            ranges: vec![(0, 10), (0xdead, 0xbeef)],
        },
    });
    client_round_trip(ClientPacket {
        ty: PacketType::AcceptKeyRanges,
        data: ClientPacketData::AcceptKeyRanges { ranges: vec![] },
    });
    client_round_trip(ClientPacket {
        ty: PacketType::EnterRawMode,
        data: ClientPacketData::EnterRawMode { driver: b"xw".to_vec() },
    });
    client_round_trip(ClientPacket {
        ty: PacketType::SuspendDriver,
        data: ClientPacketData::SuspendDriver { driver: vec![] },
    });
    client_round_trip(ClientPacket {
        ty: PacketType::ParameterRequest,
        data: ClientPacketData::ParameterRequest {
            flags: ParameterRequestFlags { bits: 0x103 },
            parameter: 9,
            sub_parameter: 0x1122_3344_5566_7788,
        },
    });
    client_round_trip(ClientPacket {
        ty: PacketType::ParameterValue,
        data: ClientPacketData::ParameterValue {
            flags: ParameterValueFlags { bits: 1 },
            parameter: 2,
            sub_parameter: 3,
            value: vec![9, 8, 7],
        },
    });
}

#[test]
fn client_write_round_trips() {
    // every optional field present
    client_round_trip(ClientPacket {
        ty: PacketType::Write,
        data: ClientPacketData::Write {
            display_number: Some(1),
            region: Some((5, 3)),
            text: Some(b"abc".to_vec()),
            and: Some(vec![0xff, 0x0f, 0xf0]),
            or: Some(vec![1, 2, 3]),
            cursor: Some(2),
            charset: Some(b"UTF-8".to_vec()),
        },
    });
    // sparse combinations
    client_round_trip(ClientPacket {
        ty: PacketType::Write,
        data: ClientPacketData::Write {
            display_number: None,
            region: None,
            text: Some(b"hello".to_vec()),
            and: None,
            or: None,
            cursor: None,
            charset: None,
        },
    });
    client_round_trip(ClientPacket {
        ty: PacketType::Write,
        data: ClientPacketData::Write {
            display_number: None,
            region: Some((1, 0)),
            text: None,
            and: Some(vec![]),
            or: Some(vec![]),
            cursor: Some(0),
            charset: None,
        },
    });
}

#[test]
fn server_variants_round_trip() {
    server_round_trip(ServerPacket { ty: PacketType::Ack, data: ServerPacketData::Ack });
    server_round_trip(ServerPacket {
        ty: PacketType::Version,
        data: ServerPacketData::Version { version: 8 },
    });
    server_round_trip(ServerPacket {
        ty: PacketType::Error,
        data: ServerPacketData::Error {
            code: ErrorCode::AuthenticationFailed,
            packet_type: PacketType::Auth,
            packet_data: vec![1, 2],
        },
    });
    server_round_trip(ServerPacket {
        ty: PacketType::Exception,
        data: ServerPacketData::Exception { packet: vec![3, 4, 5] },
    });
    server_round_trip(ServerPacket {
        ty: PacketType::Key,
        data: ServerPacketData::Key {
            key: Keycode::new(0x123, KeycodeType::BrailleCommand, 0x5),
        },
    });
    server_round_trip(ServerPacket {
        ty: PacketType::Auth,
        data: ServerPacketData::Auth {
            auth_types: vec![AuthType::NoAuth, AuthType::Key, AuthType::Credentials],
        },
    });
    server_round_trip(ServerPacket {
        ty: PacketType::GetDriverName,
        data: ServerPacketData::GetDriverName { driver: b"virtual".to_vec() },
    });
    server_round_trip(ServerPacket {
        ty: PacketType::GetModelId,
        data: ServerPacketData::GetModelId { model: b"model-1".to_vec() },
    });
    server_round_trip(ServerPacket {
        ty: PacketType::GetDisplaySize,
        data: ServerPacketData::GetDisplaySize { width: 40, height: 1 },
    });
    server_round_trip(ServerPacket {
        ty: PacketType::ParameterValue,
        data: ServerPacketData::ParameterValue {
            flags: ParameterValueFlags { bits: 0 },
            parameter: 1,
            sub_parameter: 2,
            value: vec![],
        },
    });
    server_round_trip(ServerPacket {
        ty: PacketType::ParameterUpdate,
        data: ServerPacketData::ParameterUpdate {
            flags: ParameterValueFlags { bits: 1 },
            parameter: 1,
            sub_parameter: 2,
            value: vec![0xaa],
        },
    });
}

#[test]
fn frame_size_is_payload_length() {
    let p = ClientPacket {
        ty: PacketType::EnterTtyMode,
        data: ClientPacketData::EnterTtyMode { ttys: vec![7], driver: b"x".to_vec() },
    };
    let bytes = encode_client_packet(&p);
    let size = u32::from_be_bytes([bytes[0], bytes[1], bytes[2], bytes[3]]) as usize;
    assert_eq!(size, bytes.len() - 8);
    assert_eq!(size, 8 + 4 + 1);
}

#[test]
fn key_packet_wire_form() {
    let p = ServerPacket {
        ty: PacketType::Key,
        data: ServerPacketData::Key {
            key: Keycode::new(0x123, KeycodeType::BrailleCommand, 0x5),
        },
    };
    let bytes = encode_server_packet(&p);
    assert_eq!(
        bytes,
        vec![0, 0, 0, 8, 0, 0, 0, 0x6b, 0x00, 0x00, 0x00, 0x05, 0x20, 0x00, 0x01, 0x23]
    );
}

#[test]
fn decode_rejects_short_frames_as_eof() {
    assert_eq!(decode_client_packet(&[]), Err(ErrorCode::UnexpectedEof));
    assert_eq!(decode_client_packet(&[0, 0, 0]), Err(ErrorCode::UnexpectedEof));
    // the declared size runs past the frame
    assert_eq!(
        decode_client_packet(&[0, 0, 0, 5, 0, 0, 0, 0x77]),
        Err(ErrorCode::UnexpectedEof)
    );
    assert_eq!(decode_server_packet(&[0, 0]), Err(ErrorCode::UnexpectedEof));
}

#[test]
fn decode_rejects_bad_frames_as_invalid() {
    // trailing bytes past the declared size
    assert_eq!(
        decode_client_packet(&[0, 0, 0, 0, 0, 0, 0, 0x76, 9]),
        Err(ErrorCode::InvalidPacket)
    );
    // unknown magic
    assert_eq!(
        decode_client_packet(&[0, 0, 0, 0, 0, 0, 0, 0xff]),
        Err(ErrorCode::InvalidPacket)
    );
    // a Version frame must carry exactly four payload bytes
    assert_eq!(
        decode_client_packet(&[0, 0, 0, 2, 0, 0, 0, 0x76, 0, 8]),
        Err(ErrorCode::InvalidPacket)
    );
    // a server-only type has no client form
    assert_eq!(
        decode_client_packet(&[0, 0, 0, 0, 0, 0, 0, 0x41]),
        Err(ErrorCode::InvalidPacket)
    );
}

#[test]
fn write_with_mask_but_no_region_is_invalid() {
    // flags word announces And without Region
    assert_eq!(
        decode_client_packet(&[0, 0, 0, 4, 0, 0, 0, 0x77, 0, 0, 0, 8]),
        Err(ErrorCode::InvalidPacket)
    );
    // same for Or
    assert_eq!(
        decode_client_packet(&[0, 0, 0, 4, 0, 0, 0, 0x77, 0, 0, 0, 16]),
        Err(ErrorCode::InvalidPacket)
    );
}

#[test]
fn client_auth_must_use_key_method() {
    // Auth response naming the None method: magic \0\0\0N, then a key
    let bytes = [0, 0, 0, 6, 0, 0, 0, 0x61, 0, 0, 0, 0x4e, 0x61, 0];
    assert_eq!(decode_client_packet(&bytes), Err(ErrorCode::InvalidPacket));
}

#[test]
fn undefined_flag_bits_are_discarded() {
    // a Write frame whose flag word carries an undefined bit: it decodes,
    // the bit is gone, and the re-encoding is canonical
    let bytes = [0, 0, 0, 4, 0, 0, 0, 0x77, 0, 0, 0x10, 0];
    let p = decode_client_packet(&bytes).expect("decodes");
    match &p.data {
        ClientPacketData::Write { display_number, region, text, and, or, cursor, charset } => {
            assert!(display_number.is_none());
            assert!(region.is_none());
            assert!(text.is_none());
            assert!(and.is_none());
            assert!(or.is_none());
            assert!(cursor.is_none());
            assert!(charset.is_none());
        },
        _ => panic!("expected a Write"),
    }
    let re = encode_client_packet(&p);
    assert_eq!(re, vec![0, 0, 0, 4, 0, 0, 0, 0x77, 0, 0, 0, 0]);
}

#[test]
fn error_code_values() {
    assert_eq!(ErrorCode::Success.code(), 0);
    assert_eq!(ErrorCode::InvalidPacket.code(), 7);
    assert_eq!(ErrorCode::BadProtocolVersion.code(), 13);
    assert_eq!(ErrorCode::AuthenticationFailed.code(), 17);
    assert_eq!(ErrorCode::from_code(14), Some(ErrorCode::UnexpectedEof));
    assert_eq!(ErrorCode::from_code(19), None);
}

#[test]
fn canonical_bytes_re_encode_exactly() {
    // a handcrafted canonical ParameterRequest frame survives
    // decode-then-encode byte for byte
    let bytes = [
        0, 0, 0, 16, 0, 0, 0x50, 0x52, 0, 0, 0x03, 0x03, 0, 0, 0, 9, 0, 0, 0, 0, 0, 0, 0, 7,
    ];
    let p = decode_client_packet(&bytes).expect("decodes");
    assert_eq!(encode_client_packet(&p), bytes.to_vec());
}

#[test]
fn server_decode_failures_classify() {
    // an unknown error code in an Error frame
    assert_eq!(
        decode_server_packet(&[0, 0, 0, 8, 0, 0, 0, 0x65, 0, 0, 0, 99, 0, 0, 0, 0x61]),
        Err(ErrorCode::InvalidPacket)
    );
    // an auth list whose length is no multiple of four
    assert_eq!(
        decode_server_packet(&[0, 0, 0, 2, 0, 0, 0, 0x61, 0, 0x4b]),
        Err(ErrorCode::InvalidPacket)
    );
    // an auth list with an unknown method magic
    assert_eq!(
        decode_server_packet(&[0, 0, 0, 4, 0, 0, 0, 0x61, 0, 0, 0, 0x51]),
        Err(ErrorCode::InvalidPacket)
    );
    // a driver name without its terminating NUL
    assert_eq!(
        decode_server_packet(&[0, 0, 0, 2, 0, 0, 0, 0x6e, 0x61, 0x62]),
        Err(ErrorCode::InvalidPacket)
    );
}

#[test]
fn empty_lists_round_trip() {
    client_round_trip(ClientPacket {
        ty: PacketType::EnterTtyMode,
        data: ClientPacketData::EnterTtyMode { ttys: vec![], driver: vec![] },
    });
    server_round_trip(ServerPacket {
        ty: PacketType::Auth,
        data: ServerPacketData::Auth { auth_types: vec![] },
    });
}
