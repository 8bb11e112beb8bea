use brlapi_server::keycode::{BrailleCommand, Keycode, KeycodeFlags, KeycodeType};

#[test]
fn keycode_pack_unpack_round_trip() {
    let k = Keycode::new(0x1234_5678 & 0x1fff_ffff, KeycodeType::Keysym, 0x105);
    let word = k.pack();
    let back = Keycode::unpack(word);
    assert_eq!(back, k);

    let k2 = Keycode::new(0, KeycodeType::BrailleCommand, 0);
    assert_eq!(Keycode::unpack(k2.pack()), k2);

    let k3 = Keycode::new(0x1fff_ffff, KeycodeType::BrailleCommand, 0x1fff);
    assert_eq!(Keycode::unpack(k3.pack()), k3);
}

#[test]
fn keycode_flags_truncate_undefined_bits() {
    // bits beyond the defined mask are discarded on parse
    let f = KeycodeFlags::from_u32(0xffff_ffff);
    assert_eq!(f.into_u32(), 0x1fff);
    let f2 = KeycodeFlags::from_u32(0x2000);
    assert_eq!(f2.into_u32(), 0);
}

#[test]
fn keycode_type_tolerant_decode() {
    assert_eq!(KeycodeType::from_u8(0), KeycodeType::Keysym);
    assert_eq!(KeycodeType::from_u8(1), KeycodeType::BrailleCommand);
    // reserved kind values parse tolerantly as braille commands
    assert_eq!(KeycodeType::from_u8(5), KeycodeType::BrailleCommand);
    assert_eq!(KeycodeType::Keysym.into_u8(), 0);
    assert_eq!(KeycodeType::BrailleCommand.into_u8(), 1);
}

#[test]
fn keycode_word_layout() {
    // code 0x123, kind BrailleCommand, flags Shift | Control packs to the
    // documented 64-bit word
    let k = Keycode::new(0x123, KeycodeType::BrailleCommand, 0x5);
    assert_eq!(k.pack(), 0x0000_0005_2000_0123u64);
    let back = Keycode::unpack(0x0000_0005_2000_0123u64);
    assert_eq!(back.code, 0x123);
    assert_eq!(back.type_flags, KeycodeType::BrailleCommand);
    assert_eq!(back.flags.bits, 0x5);
}

#[test]
fn braille_command_zero_argument_round_trip() {
    let samples = [
        BrailleCommand::NoOp,
        BrailleCommand::LineUp,
        BrailleCommand::Top,
        BrailleCommand::Help,
        BrailleCommand::Paste,
        BrailleCommand::Refresh,
        BrailleCommand::ToggleAutoSpeakEmptyLines,
    ];
    for cmd in samples {
        assert_eq!(BrailleCommand::try_from_u32(cmd.into_u32()), Some(cmd));
        assert_eq!(BrailleCommand::from_u32(cmd.into_u32()), cmd);
    }
    assert_eq!(BrailleCommand::NoOp.into_u32(), 0);
    assert_eq!(BrailleCommand::ToggleAutoSpeakEmptyLines.into_u32(), 156);
}

#[test]
fn braille_command_argument_round_trip() {
    let samples = [
        BrailleCommand::RouteCursorToCharacter { column: 7 },
        BrailleCommand::SwitchToVirtualTerminal { terminal: 3 },
        BrailleCommand::GoToLine { row: 0xffff },
        BrailleCommand::Copy { start_column: 2, end_column: 9 },
        BrailleCommand::Append { start_column: 0, end_column: 255 },
        BrailleCommand::SetLanguageProfile { index: 1 },
    ];
    for cmd in samples {
        assert_eq!(BrailleCommand::try_from_u32(cmd.into_u32()), Some(cmd));
    }
    assert_eq!(
        BrailleCommand::RouteCursorToCharacter { column: 7 }.into_u32(),
        (1 << 16) | 7
    );
    assert_eq!(
        BrailleCommand::Copy { start_column: 2, end_column: 9 }.into_u32(),
        (16 << 16) | (2 << 8) | 9
    );
}

#[test]
fn braille_command_unknown_opcodes_rejected() {
    // a zero-argument opcode past the listed range
    assert_eq!(BrailleCommand::try_from_u32(157), None);
    // an argument opcode past the listed range
    assert_eq!(BrailleCommand::try_from_u32(24 << 16), None);
    assert_eq!(BrailleCommand::try_from_u32(0xffff_0000), None);
}
