use brlapi_server::codec::{decode_client_packet, encode_server_packet};
use brlapi_server::display::{Command, DisplayState};
use brlapi_server::packets::{
    AuthType, ClientPacket, ClientPacketData, ErrorCode, PacketType, ServerPacketData,
};
use brlapi_server::session::{
    auth_announcement, build_write_commands, decode_write_text, dispatch_packet, error_packet,
    greeting_packet, handle_auth_packet, handle_version_packet, DispatchAction, SessionState,
    WriteFault,
};

#[test]
fn version_handshake_bytes() {
    // the greeting on the wire
    let greeting = encode_server_packet(&greeting_packet());
    assert_eq!(greeting, vec![0, 0, 0, 4, 0, 0, 0, 0x76, 0, 0, 0, 8]);
    // the client echoes the same bytes
    let client = decode_client_packet(&greeting).expect("a version frame decodes");
    assert_eq!(client.data, ClientPacketData::Version { version: 8 });
    // with no key configured, the announcement names the None method
    let step = handle_version_packet(&client, false);
    assert_eq!(step.state, SessionState::Ready);
    let announce = encode_server_packet(&step.reply.unwrap());
    assert_eq!(announce, vec![0, 0, 0, 4, 0, 0, 0, 0x61, 0, 0, 0, 0x4e]);
}

#[test]
fn no_auth_announcement_skips_authentication() {
    // auth_types = [None] authenticates without any client Auth packet
    let announce = auth_announcement(false);
    assert_eq!(
        announce.data,
        ServerPacketData::Auth { auth_types: vec![AuthType::NoAuth] }
    );
    let client = decode_client_packet(&[0, 0, 0, 4, 0, 0, 0, 0x76, 0, 0, 0, 8]).unwrap();
    assert_eq!(handle_version_packet(&client, false).state, SessionState::Ready);
    assert_eq!(
        handle_version_packet(&client, true).state,
        SessionState::AwaitingAuth
    );
}

#[test]
fn version_mismatch_errors_and_closes() {
    let wrong = ClientPacket {
        ty: PacketType::Version,
        data: ClientPacketData::Version { version: 7 },
    };
    let step = handle_version_packet(&wrong, false);
    assert_eq!(step.state, SessionState::Closed);
    let reply = step.reply.unwrap();
    match reply.data {
        ServerPacketData::Error { code, packet_type, .. } => {
            assert_eq!(code, ErrorCode::BadProtocolVersion);
            assert_eq!(packet_type, PacketType::Version);
        },
        _ => panic!("expected an error reply"),
    }
}

#[test]
fn auth_mismatch_then_success() {
    let key = String::from("s3cret");
    let wrong = ClientPacket {
        ty: PacketType::Auth,
        data: ClientPacketData::Auth { auth_type: AuthType::Key, key: b"wrong".to_vec() },
    };
    let step = handle_auth_packet(&wrong, &key);
    assert_eq!(step.state, SessionState::AwaitingAuth);
    match step.reply.unwrap().data {
        ServerPacketData::Error { code, .. } => assert_eq!(code, ErrorCode::AuthenticationFailed),
        _ => panic!("expected an error reply"),
    }
    let right = ClientPacket {
        ty: PacketType::Auth,
        data: ClientPacketData::Auth { auth_type: AuthType::Key, key: b"s3cret".to_vec() },
    };
    let step = handle_auth_packet(&right, &key);
    assert_eq!(step.state, SessionState::Ready);
    let ack = encode_server_packet(&step.reply.unwrap());
    assert_eq!(ack, vec![0, 0, 0, 0, 0, 0, 0, 0x41]);
}

#[test]
fn non_auth_packet_during_auth_closes() {
    let key = String::from("k");
    let other = ClientPacket {
        ty: PacketType::GetDisplaySize,
        data: ClientPacketData::GetDisplaySize,
    };
    let step = handle_auth_packet(&other, &key);
    assert_eq!(step.state, SessionState::Closed);
}

#[test]
fn get_display_size_reply_bytes() {
    let request = decode_client_packet(&[0, 0, 0, 0, 0, 0, 0, 0x73]).unwrap();
    let action = dispatch_packet(request, &b"virtual".to_vec(), &b"model".to_vec(), 40, 1);
    match action {
        DispatchAction::Reply(reply) => {
            let bytes = encode_server_packet(&reply);
            assert_eq!(
                bytes,
                vec![0, 0, 0, 8, 0, 0, 0, 0x73, 0, 0, 0, 0x28, 0, 0, 0, 1]
            );
        },
        _ => panic!("expected a reply"),
    }
}

#[test]
fn metadata_and_acknowledged_requests() {
    let driver = b"virtual".to_vec();
    let model = b"m1".to_vec();
    let name_req = decode_client_packet(&[0, 0, 0, 0, 0, 0, 0, 0x6e]).unwrap();
    match dispatch_packet(name_req, &driver, &model, 40, 1) {
        DispatchAction::Reply(reply) => {
            assert_eq!(
                reply.data,
                ServerPacketData::GetDriverName { driver: b"virtual".to_vec() }
            );
        },
        _ => panic!("expected a reply"),
    }
    // a recognised request outside the implemented set is acknowledged
    let focus = decode_client_packet(&[0, 0, 0, 4, 0, 0, 0, 0x46, 0, 0, 0, 1]).unwrap();
    match dispatch_packet(focus, &driver, &model, 40, 1) {
        DispatchAction::Reply(reply) => assert_eq!(reply.data, ServerPacketData::Ack),
        _ => panic!("expected a reply"),
    }
}

#[test]
fn write_text_decodes_as_utf8_without_charset() {
    let text = Some(vec![0x41u8]);
    let decoded = decode_write_text(&text, &None).unwrap().unwrap();
    assert_eq!(decoded, "A");
    // invalid UTF-8 is replaced, not refused
    let bad = Some(vec![0xffu8, 0x41]);
    let decoded = decode_write_text(&bad, &None).unwrap().unwrap();
    assert_eq!(decoded, "\u{fffd}A");
    // a multi-byte sequence decodes to one character
    let two = Some(vec![0xc3u8, 0xa9]);
    let decoded = decode_write_text(&two, &None).unwrap().unwrap();
    assert_eq!(decoded, "\u{e9}");
}

#[test]
fn write_text_decodes_under_named_charset() {
    // 0xe9 in latin-1 is é; handing the bytes back unchanged would be
    // invalid UTF-8
    let text = Some(vec![0xe9u8]);
    let charset = Some(b"ISO-8859-1".to_vec());
    let decoded = decode_write_text(&text, &charset).unwrap().unwrap();
    assert_eq!(decoded, "\u{e9}");
}

#[test]
fn unknown_charset_is_an_invalid_parameter() {
    let text = Some(vec![0x41u8]);
    let charset = Some(b"no-such-charset-xyz".to_vec());
    assert_eq!(
        decode_write_text(&text, &charset),
        Err(ErrorCode::InvalidParameter)
    );
}

#[test]
fn write_scenario_single_cell_with_cursor() {
    // Write "A" at position 1 with cursor 1 on a 40x1 display, with the
    // translation yielding U+2801 (dot 1)
    let bytes = [
        0, 0, 0, 0x15, 0, 0, 0, 0x77, 0, 0, 0, 0x26, 0, 0, 0, 1, 0, 0, 0, 1, 0, 0, 0, 1, 0x41,
        0, 0, 0, 1,
    ];
    let packet = decode_client_packet(&bytes).expect("the Write frame decodes");
    let action = dispatch_packet(packet, &b"virtual".to_vec(), &b"m".to_vec(), 40, 1);
    let req = match action {
        DispatchAction::Write(w) => w,
        _ => panic!("expected a Write"),
    };
    assert_eq!(req.region, Some((1, 1)));
    assert_eq!(req.cursor, Some(1));
    let decoded = decode_write_text(&req.text, &req.charset).unwrap();
    assert_eq!(decoded.as_deref(), Some("A"));
    let translated = Some(String::from("\u{2801}"));
    let (cursor_cmd, section_cmd) = build_write_commands(
        &req.region,
        &decoded,
        &translated,
        &req.and,
        &req.or,
        &req.cursor,
    )
    .expect("the write is accepted");
    // region start 1 maps to cell 0; cursor 1 maps to position 0
    assert_eq!(cursor_cmd, Some(Command::SetCursor { position: Some(0) }));
    assert_eq!(
        section_cmd,
        Some(Command::SetBrailleMatrixSection { start: 0, length: 1, braille: vec![0x01] })
    );
    let (mut display, _) = DisplayState::new(40, 1);
    let (snap1, _) = display.apply(&cursor_cmd.unwrap());
    assert!(snap1.is_some());
    let (snap2, _) = display.apply(&section_cmd.unwrap());
    let published = snap2.unwrap();
    assert_eq!(published.len(), 40);
    assert_eq!(published[0], 0xc1);
    assert!(published[1..].iter().all(|&c| c == 0));
    assert_eq!(display.braille_matrix[0], 0x01);
    assert_eq!(display.cursor_position, Some(0));
}

#[test]
fn write_masks_apply_over_translation() {
    // cells = (translation AND and) OR or over a three-cell region
    let region = Some((1u32, 3u32));
    let translated = Some(String::from("\u{2803}\u{28ff}"));
    let and = Some(vec![0x01u8, 0x0f, 0xff]);
    let or = Some(vec![0x80u8, 0x00, 0x40]);
    let (cursor_cmd, section_cmd) =
        build_write_commands(&region, &None, &translated, &and, &or, &None).unwrap();
    assert_eq!(cursor_cmd, None);
    match section_cmd.unwrap() {
        Command::SetBrailleMatrixSection { start, length, braille } => {
            assert_eq!(start, 0);
            assert_eq!(length, 3);
            assert_eq!(braille, vec![(0x03 & 0x01) | 0x80, 0xff & 0x0f, 0x40]);
        },
        _ => panic!("expected a section command"),
    }
}

#[test]
fn write_region_defaults_to_text_length() {
    let decoded = Some(String::from("hey"));
    let translated = Some(String::from("\u{2801}\u{2802}"));
    let (_, section_cmd) =
        build_write_commands(&None, &decoded, &translated, &None, &None, &None).unwrap();
    match section_cmd.unwrap() {
        Command::SetBrailleMatrixSection { start, length, braille } => {
            assert_eq!(start, 0);
            assert_eq!(length, 3);
            // two translated cells, one blank pad
            assert_eq!(braille, vec![0x01, 0x02, 0x00]);
        },
        _ => panic!("expected a section command"),
    }
}

#[test]
fn write_cursor_zero_clears() {
    let (cursor_cmd, section_cmd) =
        build_write_commands(&None, &None, &None, &None, &None, &Some(0)).unwrap();
    assert_eq!(cursor_cmd, Some(Command::SetCursor { position: None }));
    assert_eq!(section_cmd, None);
}

#[test]
fn write_faults() {
    // a region starting at zero is a protocol violation
    assert_eq!(
        build_write_commands(&Some((0, 1)), &None, &None, &None, &None, &None),
        Err(WriteFault::RegionStartZero)
    );
    // a translation outside the braille block is refused
    let translated = Some(String::from("x"));
    assert_eq!(
        build_write_commands(&Some((1, 1)), &None, &translated, &None, &None, &None),
        Err(WriteFault::TranslationOutOfRange)
    );
    // masks demand a region
    assert_eq!(
        build_write_commands(&None, &None, &None, &Some(vec![1]), &None, &None),
        Err(WriteFault::MaskWithoutRegion)
    );
    // and must match the region's length
    assert_eq!(
        build_write_commands(&Some((1, 2)), &None, &None, &Some(vec![1]), &None, &None),
        Err(WriteFault::MaskLengthMismatch)
    );
}

#[test]
fn error_packet_echoes_offending_type() {
    let e = error_packet(ErrorCode::InvalidPacket, PacketType::Write);
    let bytes = encode_server_packet(&e);
    assert_eq!(
        bytes,
        vec![0, 0, 0, 8, 0, 0, 0, 0x65, 0, 0, 0, 7, 0, 0, 0, 0x77]
    );
}

#[test]
fn auth_failure_error_bytes() {
    let key = String::from("s3cret");
    let wrong = ClientPacket {
        ty: PacketType::Auth,
        data: ClientPacketData::Auth { auth_type: AuthType::Key, key: b"wrong".to_vec() },
    };
    let step = handle_auth_packet(&wrong, &key);
    let bytes = encode_server_packet(&step.reply.unwrap());
    // Error { AuthenticationFailed } echoing the offending packet's type
    assert_eq!(
        bytes,
        vec![0, 0, 0, 8, 0, 0, 0, 0x65, 0, 0, 0, 0x11, 0, 0, 0, 0x61]
    );
}
