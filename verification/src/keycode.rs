use vstd::prelude::*;

verus! {

// The 64-bit keycode word and its nested braille-command sub-encoding.
//
// A keycode packs, least-significant first, a 29-bit `code`, a 3-bit kind
// and a 32-bit flag word.  When the kind is `BrailleCommand`, the `code`
// further decodes, read as a 32-bit value: a zero high half selects a
// zero-argument opcode by the low half, and a high half in `1..=23`
// selects an argument-carrying opcode whose parameter is the low half.

/// Bits of the keycode flag word that carry a defined meaning; parsing
/// discards the rest.
pub const KEYCODE_FLAGS_MASK: u32 = 0x1fff;

/// The modifier/flag word of a keycode.  Several symbolic names of the
/// protocol share a bit (`Meta` is `Modifier1`, and so on); the word only
/// stores the bits.
#[derive(Clone, Copy, Debug, PartialEq, Eq, Structural)]
pub struct KeycodeFlags {
    pub bits: u32,
}

impl KeycodeFlags {
    /// Only defined flag bits are set.
    pub open spec fn wf(self) -> bool {
        self.bits & KEYCODE_FLAGS_MASK == self.bits
    }

    /// Keeps the defined flag bits of `value` and discards the rest.
    pub fn from_u32(value: u32) -> (r: Self)
        ensures
            r.bits == value & KEYCODE_FLAGS_MASK,
            r.wf(),
    {
        proof {
            assert((value & 0x1fff) & 0x1fff == value & 0x1fff) by (bit_vector);
        }
        KeycodeFlags { bits: value & KEYCODE_FLAGS_MASK }
    }

    pub fn into_u32(self) -> (r: u32)
        ensures
            r == self.bits,
    {
        self.bits
    }
}

/// The kind of event a keycode describes.
#[derive(Clone, Copy, Debug, PartialEq, Eq, Structural)]
pub enum KeycodeType {
    Keysym,
    BrailleCommand,
}

impl KeycodeType {
    pub open spec fn spec_into_u8(self) -> u8 {
        match self {
            KeycodeType::Keysym => 0,
            KeycodeType::BrailleCommand => 1,
        }
    }

    /// Zero selects `Keysym`; parsing tolerates every other value as
    /// `BrailleCommand`.
    pub open spec fn spec_from_u8(value: u8) -> KeycodeType {
        if value == 0 {
            KeycodeType::Keysym
        } else {
            KeycodeType::BrailleCommand
        }
    }

    pub fn from_u8(value: u8) -> (r: Self)
        ensures
            r == KeycodeType::spec_from_u8(value),
    {
        if value == 0 {
            KeycodeType::Keysym
        } else {
            KeycodeType::BrailleCommand
        }
    }

    pub fn into_u8(self) -> (r: u8)
        ensures
            r == self.spec_into_u8(),
    {
        match self {
            KeycodeType::Keysym => 0,
            KeycodeType::BrailleCommand => 1,
        }
    }
}

/// One key event: a 29-bit code, a kind, and a flag word, packed on the
/// wire into a single 64-bit big-endian integer.
#[derive(Clone, Copy, Debug, PartialEq, Eq, Structural)]
pub struct Keycode {
    pub code: u32,
    pub type_flags: KeycodeType,
    pub flags: KeycodeFlags,
}

impl Keycode {
    pub open spec fn wf(self) -> bool {
        self.code < 0x2000_0000u32 && self.flags.wf()
    }

    /// The packed 64-bit word: flags in bits 32..64, kind in bits 29..32,
    /// code in bits 0..29.
    pub open spec fn spec_pack(self) -> u64 {
        ((self.flags.bits as u64) << 32) | ((self.type_flags.spec_into_u8() as u64) << 29) | (
        self.code as u64)
    }

    pub open spec fn spec_unpack(word: u64) -> Keycode {
        Keycode {
            code: (word & 0x1fff_ffff) as u32,
            type_flags: KeycodeType::spec_from_u8(((word >> 29) & 0x7) as u8),
            flags: KeycodeFlags { bits: (((word >> 32) & 0xffff_ffff) as u32) & KEYCODE_FLAGS_MASK },
        }
    }

    /// Builds a well-formed keycode, discarding code bits past the 29th and
    /// undefined flag bits.
    pub fn new(code: u32, type_flags: KeycodeType, flags_bits: u32) -> (r: Keycode)
        ensures
            r.code == code & 0x1fff_ffff,
            r.type_flags == type_flags,
            r.flags.bits == flags_bits & KEYCODE_FLAGS_MASK,
            r.wf(),
    {
        proof {
            assert(code & 0x1fff_ffff < 0x2000_0000u32) by (bit_vector);
        }
        Keycode { code: code & 0x1fff_ffff, type_flags, flags: KeycodeFlags::from_u32(flags_bits) }
    }

    pub fn pack(&self) -> (word: u64)
        ensures
            word == self.spec_pack(),
    {
        ((self.flags.bits as u64) << 32) | ((self.type_flags.into_u8() as u64) << 29) | (self.code
            as u64)
    }

    pub fn unpack(word: u64) -> (r: Keycode)
        ensures
            r == Keycode::spec_unpack(word),
            r.wf(),
    {
        proof {
            assert(word & 0x1fff_ffff < 0x2000_0000u64 && (word >> 29) & 0x7 < 256 && (word >> 32)
                & 0xffff_ffff < 0x1_0000_0000u64 && ((((word >> 32) & 0xffff_ffff) as u32) & 0x1fff)
                & 0x1fff == (((word >> 32) & 0xffff_ffff) as u32) & 0x1fff) by (bit_vector);
        }
        Keycode {
            code: (word & 0x1fff_ffff) as u32,
            type_flags: KeycodeType::from_u8(((word >> 29) & 0x7) as u8),
            flags: KeycodeFlags { bits: (((word >> 32) & 0xffff_ffff) as u32) & KEYCODE_FLAGS_MASK },
        }
    }
}

/// Packing a well-formed keycode and unpacking the word reproduces the
/// keycode: code, kind and flags survive the round trip.
pub proof fn lemma_keycode_pack_unpack(k: Keycode)
    requires
        k.wf(),
    ensures
        Keycode::spec_unpack(k.spec_pack()) == k,
{
    let c = k.code;
    let f = k.flags.bits;
    let t = k.type_flags.spec_into_u8();
    assert(t == 0 || t == 1);
    assert({
        let w = ((f as u64) << 32) | ((t as u64) << 29) | (c as u64);
        (w & 0x1fff_ffff) as u32 == c && ((w >> 29) & 0x7) as u8 == t && ((((w >> 32) & 0xffff_ffff)
            as u32) & 0x1fff) == f
    }) by (bit_vector)
        requires
            c < 0x2000_0000u32,
            f & 0x1fff == f,
            t == 0 || t == 1,
    ;
}

/// Unpacking a word whose kind bits name a listed kind and whose flag
/// half carries only defined bits, then packing the result, reproduces
/// the word.
pub proof fn lemma_keycode_unpack_pack(word: u64)
    requires
        (word >> 29) & 0x7 < 2,
        ((word >> 32) & 0xffff_ffff) & 0x1fff == (word >> 32) & 0xffff_ffff,
    ensures
        Keycode::spec_unpack(word).spec_pack() == word,
{
    let k = Keycode::spec_unpack(word);
    let t = k.type_flags.spec_into_u8();
    assert(((word >> 29) & 0x7) as u8 == 0 ==> t == 0);
    assert(((word >> 29) & 0x7) as u8 != 0 ==> t == 1);
    assert({
        let c = (word & 0x1fff_ffff) as u32;
        let f = (((word >> 32) & 0xffff_ffff) as u32) & 0x1fff;
        ((f as u64) << 32) | ((t as u64) << 29) | (c as u64) == word
    }) by (bit_vector)
        requires
            (word >> 29) & 0x7 < 2,
            ((word >> 32) & 0xffff_ffff) & 0x1fff == (word >> 32) & 0xffff_ffff,
            ((word >> 29) & 0x7) as u8 == 0 ==> t == 0,
            ((word >> 29) & 0x7) as u8 != 0 ==> t == 1,
            t < 2,
    ;
}

/// Every unpacked keycode is well formed: the code is 29 bits and the
/// flags keep only defined bits.
pub proof fn lemma_unpack_wf(word: u64)
    ensures
        Keycode::spec_unpack(word).wf(),
{
    assert(word & 0x1fff_ffff < 0x2000_0000u64 && ((((word >> 32) & 0xffff_ffff) as u32) & 0x1fff)
        & 0x1fff == (((word >> 32) & 0xffff_ffff) as u32) & 0x1fff) by (bit_vector);
}

proof fn lemma_low_word(n: u32)
    by (bit_vector)
    requires
        n <= 0xffff,
    ensures
        n >> 16 == 0,
        n & 0xffff == n,
{
}

proof fn lemma_split_word(hi: u32, lo: u32)
    by (bit_vector)
    requires
        hi <= 0xffff,
        lo <= 0xffff,
    ensures
        ((hi << 16) | lo) >> 16 == hi,
        ((hi << 16) | lo) & 0xffff == lo,
{
}

proof fn lemma_u16_cast_round(x: u16)
    by (bit_vector)
    ensures
        (x as u32) as u16 == x,
        (x as u32) <= 0xffff,
{
}

proof fn lemma_byte_pair(hi: u8, lo: u8)
    by (bit_vector)
    ensures
        (((hi as u32) << 8) | (lo as u32)) <= 0xffff,
        ((((hi as u32) << 8) | (lo as u32)) >> 8) as u8 == hi,
        ((((hi as u32) << 8) | (lo as u32)) & 0xff) as u8 == lo,
{
}

/// A braille display command, carried in the 29-bit code of a keycode
/// whose kind is `BrailleCommand`.
#[derive(Clone, Copy, Debug, PartialEq, Eq, Structural)]
pub enum BrailleCommand {
    NoOp,
    LineUp,
    LineDown,
    SeveralLinesUp,
    SeveralLinesDown,
    PreviousDifferentLine,
    NextDifferentLine,
    PreviousDifferentAttributesLine,
    NextDifferentAttributesLine,
    Top,
    Bottom,
    TopLeft,
    BottomLeft,
    PreviousParagraph,
    NextParagraph,
    PreviousPrompt,
    NextPrompt,
    SearchBackwards,
    SearchForwards,
    PreviousCharacter,
    NextCharacter,
    PreviousHalfWindow,
    NextHalfWindow,
    PreviousFullWindow,
    NextFullWindow,
    PreviousFullWindowSkippingBlanks,
    NextFullWindowSkippingBlanks,
    LineBeginning,
    LineEnd,
    Home,
    Back,
    Return,
    ToggleFrozen,
    ToggleDisplayMode,
    Toggle8Dot,
    ToggleSlidingWindow,
    ToggleSkipIdenticalLines,
    ToggleSkipBlankWindows,
    ToggleScreenCursorVisibility,
    ToggleHideScreenCursor,
    ToggleTrackScreenCursor,
    ToggleScreenCursorStyle,
    ToggleScreenCursorBlink,
    ToggleAttributeUnderline,
    ToggleAttributeBlink,
    ToggleCapitalBlink,
    ToggleAlertTunes,
    ToggleAutoRepeat,
    ToggleAutoSpeak,
    Help,
    Info,
    LearnMode,
    PreferencesMenu,
    SavePreferences,
    LoadPreferences,
    MenuFirstItem,
    MenuLastItem,
    MenuPreviousItem,
    MenuNextItem,
    MenuPreviousSetting,
    MenuNextSetting,
    Mute,
    SpeechHome,
    SayLine,
    SayFromTop,
    SayToBottom,
    DecreaseSpeechRate,
    IncreaseSpeechRate,
    DecreaseSpeechVolume,
    IncreaseSpeechVolume,
    PreviousVirtualTerminal,
    NextVirtualTerminal,
    ScreenCursorToCurrentLine,
    Paste,
    RestartBrailleDriver,
    RestartSpeechDriver,
    BrailleDisplayOffline,
    CycleShift,
    CycleUpper,
    CycleControl,
    CycleMeta,
    ShowTime,
    PreviousMenuLevel,
    ToggleAutoSpeakSelectedLine,
    ToggleAutoSpeakSelectedCharacter,
    ToggleAutoSpeakInsertedCharacters,
    ToggleAutoSpeakDeletedCharacters,
    ToggleAutoSpeakReplacedCharacters,
    ToggleAutoSpeakCompletedWords,
    SpeakCurrentCharacter,
    SpeakPreviousCharacter,
    SpeakNextCharacter,
    SpeakCurrentWord,
    SpeakPreviousWord,
    SpeakNextWord,
    SpeakCurrentLine,
    SpeakPreviousLine,
    SpeakNextLine,
    SpeakFirstCharacter,
    SpeakLastCharacter,
    SpeakFirstLine,
    SpeakLastLine,
    DescribeCurrentCharacter,
    SpellCurrentWord,
    ScreenCursorToSpeechCursor,
    SpeakSpeechCursorLocation,
    ToggleSpeechCursorVisibility,
    SaveClipboard,
    RestoreClipboard,
    ToggleUnicodeBrailleInput,
    ToggleBrailleKeyboard,
    ClearModifiers,
    CycleAltGr,
    CycleGui,
    StopBrailleDriver,
    StartBrailleDriver,
    StopSpeechDriver,
    StartSpeechDriver,
    StopScreenDriver,
    StartScreenDriver,
    SelectPreviousVirtualTerminal,
    SelectNextVirtualTerminal,
    PreviousNonBlankWindow,
    NextNonBlankWindow,
    ToggleTouchNavigation,
    SpeakIndent,
    ToggleAutoSpeakIndent,
    Refresh,
    ShowStatusIndicators,
    ClearTextSelection,
    SelectAll,
    HostCopy,
    HostCut,
    HostPaste,
    GuiTitle,
    GuiBrailleActions,
    GuiHome,
    GuiBack,
    GuiDeviceSettings,
    GuiDeviceOptions,
    GuiApplicationsList,
    GuiApplicationMenu,
    GuiApplicationAlerts,
    GuiActiveArea,
    GuiPreviousArea,
    GuiNextArea,
    GuiFirstItem,
    GuiPreviousItem,
    GuiNextItem,
    GuiLastItem,
    DecreaseSpeechPitch,
    IncreaseSpeechPitch,
    SayAll,
    ToggleContracted,
    Toggle6DotComputerBraille,
    ResetPreferences,
    ToggleAutoSpeakEmptyLines,
    RouteCursorToCharacter { column: u16 },
    NewClipboardAtCharacter { column: u16 },
    AppendToCharacter { column: u16 },
    RectangularCopyToCharacter { column: u16 },
    LinearCopyToCharacter { column: u16 },
    SwitchToVirtualTerminal { terminal: u16 },
    PreviousIndent { column: u16 },
    NextIndent { column: u16 },
    DescribeCharacter { column: u16 },
    SetWindowLeft { column: u16 },
    SetMark { marker_number: u16 },
    GoToMark { marker_number: u16 },
    GoToLine { row: u16 },
    PreviousLineWithDifferentCharacter { column: u16 },
    NextLineWithDifferentCharacter { column: u16 },
    Copy { start_column: u8, end_column: u8 },
    Append { start_column: u8, end_column: u8 },
    PasteFromHistory { history_entry: u16 },
    SetTextTable { index: u16 },
    SetAttributesTable { index: u16 },
    SetContractionTable { index: u16 },
    SetKeyboardTable { index: u16 },
    SetLanguageProfile { index: u16 },
}

impl BrailleCommand {
    /// The zero-argument opcode selected by a low half of `lo`.
    pub open spec fn zero_arg_command(lo: u32) -> BrailleCommand
        recommends
            lo <= 156,
    {
        if lo == 0 {
            BrailleCommand::NoOp
        } else if lo == 1 {
            BrailleCommand::LineUp
        } else if lo == 2 {
            BrailleCommand::LineDown
        } else if lo == 3 {
            BrailleCommand::SeveralLinesUp
        } else if lo == 4 {
            BrailleCommand::SeveralLinesDown
        } else if lo == 5 {
            BrailleCommand::PreviousDifferentLine
        } else if lo == 6 {
            BrailleCommand::NextDifferentLine
        } else if lo == 7 {
            BrailleCommand::PreviousDifferentAttributesLine
        } else if lo == 8 {
            BrailleCommand::NextDifferentAttributesLine
        } else if lo == 9 {
            BrailleCommand::Top
        } else if lo == 10 {
            BrailleCommand::Bottom
        } else if lo == 11 {
            BrailleCommand::TopLeft
        } else if lo == 12 {
            BrailleCommand::BottomLeft
        } else if lo == 13 {
            BrailleCommand::PreviousParagraph
        } else if lo == 14 {
            BrailleCommand::NextParagraph
        } else if lo == 15 {
            BrailleCommand::PreviousPrompt
        } else if lo == 16 {
            BrailleCommand::NextPrompt
        } else if lo == 17 {
            BrailleCommand::SearchBackwards
        } else if lo == 18 {
            BrailleCommand::SearchForwards
        } else if lo == 19 {
            BrailleCommand::PreviousCharacter
        } else if lo == 20 {
            BrailleCommand::NextCharacter
        } else if lo == 21 {
            BrailleCommand::PreviousHalfWindow
        } else if lo == 22 {
            BrailleCommand::NextHalfWindow
        } else if lo == 23 {
            BrailleCommand::PreviousFullWindow
        } else if lo == 24 {
            BrailleCommand::NextFullWindow
        } else if lo == 25 {
            BrailleCommand::PreviousFullWindowSkippingBlanks
        } else if lo == 26 {
            BrailleCommand::NextFullWindowSkippingBlanks
        } else if lo == 27 {
            BrailleCommand::LineBeginning
        } else if lo == 28 {
            BrailleCommand::LineEnd
        } else if lo == 29 {
            BrailleCommand::Home
        } else if lo == 30 {
            BrailleCommand::Back
        } else if lo == 31 {
            BrailleCommand::Return
        } else if lo == 32 {
            BrailleCommand::ToggleFrozen
        } else if lo == 33 {
            BrailleCommand::ToggleDisplayMode
        } else if lo == 34 {
            BrailleCommand::Toggle8Dot
        } else if lo == 35 {
            BrailleCommand::ToggleSlidingWindow
        } else if lo == 36 {
            BrailleCommand::ToggleSkipIdenticalLines
        } else if lo == 37 {
            BrailleCommand::ToggleSkipBlankWindows
        } else if lo == 38 {
            BrailleCommand::ToggleScreenCursorVisibility
        } else if lo == 39 {
            BrailleCommand::ToggleHideScreenCursor
        } else if lo == 40 {
            BrailleCommand::ToggleTrackScreenCursor
        } else if lo == 41 {
            BrailleCommand::ToggleScreenCursorStyle
        } else if lo == 42 {
            BrailleCommand::ToggleScreenCursorBlink
        } else if lo == 43 {
            BrailleCommand::ToggleAttributeUnderline
        } else if lo == 44 {
            BrailleCommand::ToggleAttributeBlink
        } else if lo == 45 {
            BrailleCommand::ToggleCapitalBlink
        } else if lo == 46 {
            BrailleCommand::ToggleAlertTunes
        } else if lo == 47 {
            BrailleCommand::ToggleAutoRepeat
        } else if lo == 48 {
            BrailleCommand::ToggleAutoSpeak
        } else if lo == 49 {
            BrailleCommand::Help
        } else if lo == 50 {
            BrailleCommand::Info
        } else if lo == 51 {
            BrailleCommand::LearnMode
        } else if lo == 52 {
            BrailleCommand::PreferencesMenu
        } else if lo == 53 {
            BrailleCommand::SavePreferences
        } else if lo == 54 {
            BrailleCommand::LoadPreferences
        } else if lo == 55 {
            BrailleCommand::MenuFirstItem
        } else if lo == 56 {
            BrailleCommand::MenuLastItem
        } else if lo == 57 {
            BrailleCommand::MenuPreviousItem
        } else if lo == 58 {
            BrailleCommand::MenuNextItem
        } else if lo == 59 {
            BrailleCommand::MenuPreviousSetting
        } else if lo == 60 {
            BrailleCommand::MenuNextSetting
        } else if lo == 61 {
            BrailleCommand::Mute
        } else if lo == 62 {
            BrailleCommand::SpeechHome
        } else if lo == 63 {
            BrailleCommand::SayLine
        } else if lo == 64 {
            BrailleCommand::SayFromTop
        } else if lo == 65 {
            BrailleCommand::SayToBottom
        } else if lo == 66 {
            BrailleCommand::DecreaseSpeechRate
        } else if lo == 67 {
            BrailleCommand::IncreaseSpeechRate
        } else if lo == 68 {
            BrailleCommand::DecreaseSpeechVolume
        } else if lo == 69 {
            BrailleCommand::IncreaseSpeechVolume
        } else if lo == 70 {
            BrailleCommand::PreviousVirtualTerminal
        } else if lo == 71 {
            BrailleCommand::NextVirtualTerminal
        } else if lo == 72 {
            BrailleCommand::ScreenCursorToCurrentLine
        } else if lo == 73 {
            BrailleCommand::Paste
        } else if lo == 74 {
            BrailleCommand::RestartBrailleDriver
        } else if lo == 75 {
            BrailleCommand::RestartSpeechDriver
        } else if lo == 76 {
            BrailleCommand::BrailleDisplayOffline
        } else if lo == 77 {
            BrailleCommand::CycleShift
        } else if lo == 78 {
            BrailleCommand::CycleUpper
        } else if lo == 79 {
            BrailleCommand::CycleControl
        } else if lo == 80 {
            BrailleCommand::CycleMeta
        } else if lo == 81 {
            BrailleCommand::ShowTime
        } else if lo == 82 {
            BrailleCommand::PreviousMenuLevel
        } else if lo == 83 {
            BrailleCommand::ToggleAutoSpeakSelectedLine
        } else if lo == 84 {
            BrailleCommand::ToggleAutoSpeakSelectedCharacter
        } else if lo == 85 {
            BrailleCommand::ToggleAutoSpeakInsertedCharacters
        } else if lo == 86 {
            BrailleCommand::ToggleAutoSpeakDeletedCharacters
        } else if lo == 87 {
            BrailleCommand::ToggleAutoSpeakReplacedCharacters
        } else if lo == 88 {
            BrailleCommand::ToggleAutoSpeakCompletedWords
        } else if lo == 89 {
            BrailleCommand::SpeakCurrentCharacter
        } else if lo == 90 {
            BrailleCommand::SpeakPreviousCharacter
        } else if lo == 91 {
            BrailleCommand::SpeakNextCharacter
        } else if lo == 92 {
            BrailleCommand::SpeakCurrentWord
        } else if lo == 93 {
            BrailleCommand::SpeakPreviousWord
        } else if lo == 94 {
            BrailleCommand::SpeakNextWord
        } else if lo == 95 {
            BrailleCommand::SpeakCurrentLine
        } else if lo == 96 {
            BrailleCommand::SpeakPreviousLine
        } else if lo == 97 {
            BrailleCommand::SpeakNextLine
        } else if lo == 98 {
            BrailleCommand::SpeakFirstCharacter
        } else if lo == 99 {
            BrailleCommand::SpeakLastCharacter
        } else if lo == 100 {
            BrailleCommand::SpeakFirstLine
        } else if lo == 101 {
            BrailleCommand::SpeakLastLine
        } else if lo == 102 {
            BrailleCommand::DescribeCurrentCharacter
        } else if lo == 103 {
            BrailleCommand::SpellCurrentWord
        } else if lo == 104 {
            BrailleCommand::ScreenCursorToSpeechCursor
        } else if lo == 105 {
            BrailleCommand::SpeakSpeechCursorLocation
        } else if lo == 106 {
            BrailleCommand::ToggleSpeechCursorVisibility
        } else if lo == 107 {
            BrailleCommand::SaveClipboard
        } else if lo == 108 {
            BrailleCommand::RestoreClipboard
        } else if lo == 109 {
            BrailleCommand::ToggleUnicodeBrailleInput
        } else if lo == 110 {
            BrailleCommand::ToggleBrailleKeyboard
        } else if lo == 111 {
            BrailleCommand::ClearModifiers
        } else if lo == 112 {
            BrailleCommand::CycleAltGr
        } else if lo == 113 {
            BrailleCommand::CycleGui
        } else if lo == 114 {
            BrailleCommand::StopBrailleDriver
        } else if lo == 115 {
            BrailleCommand::StartBrailleDriver
        } else if lo == 116 {
            BrailleCommand::StopSpeechDriver
        } else if lo == 117 {
            BrailleCommand::StartSpeechDriver
        } else if lo == 118 {
            BrailleCommand::StopScreenDriver
        } else if lo == 119 {
            BrailleCommand::StartScreenDriver
        } else if lo == 120 {
            BrailleCommand::SelectPreviousVirtualTerminal
        } else if lo == 121 {
            BrailleCommand::SelectNextVirtualTerminal
        } else if lo == 122 {
            BrailleCommand::PreviousNonBlankWindow
        } else if lo == 123 {
            BrailleCommand::NextNonBlankWindow
        } else if lo == 124 {
            BrailleCommand::ToggleTouchNavigation
        } else if lo == 125 {
            BrailleCommand::SpeakIndent
        } else if lo == 126 {
            BrailleCommand::ToggleAutoSpeakIndent
        } else if lo == 127 {
            BrailleCommand::Refresh
        } else if lo == 128 {
            BrailleCommand::ShowStatusIndicators
        } else if lo == 129 {
            BrailleCommand::ClearTextSelection
        } else if lo == 130 {
            BrailleCommand::SelectAll
        } else if lo == 131 {
            BrailleCommand::HostCopy
        } else if lo == 132 {
            BrailleCommand::HostCut
        } else if lo == 133 {
            BrailleCommand::HostPaste
        } else if lo == 134 {
            BrailleCommand::GuiTitle
        } else if lo == 135 {
            BrailleCommand::GuiBrailleActions
        } else if lo == 136 {
            BrailleCommand::GuiHome
        } else if lo == 137 {
            BrailleCommand::GuiBack
        } else if lo == 138 {
            BrailleCommand::GuiDeviceSettings
        } else if lo == 139 {
            BrailleCommand::GuiDeviceOptions
        } else if lo == 140 {
            BrailleCommand::GuiApplicationsList
        } else if lo == 141 {
            BrailleCommand::GuiApplicationMenu
        } else if lo == 142 {
            BrailleCommand::GuiApplicationAlerts
        } else if lo == 143 {
            BrailleCommand::GuiActiveArea
        } else if lo == 144 {
            BrailleCommand::GuiPreviousArea
        } else if lo == 145 {
            BrailleCommand::GuiNextArea
        } else if lo == 146 {
            BrailleCommand::GuiFirstItem
        } else if lo == 147 {
            BrailleCommand::GuiPreviousItem
        } else if lo == 148 {
            BrailleCommand::GuiNextItem
        } else if lo == 149 {
            BrailleCommand::GuiLastItem
        } else if lo == 150 {
            BrailleCommand::DecreaseSpeechPitch
        } else if lo == 151 {
            BrailleCommand::IncreaseSpeechPitch
        } else if lo == 152 {
            BrailleCommand::SayAll
        } else if lo == 153 {
            BrailleCommand::ToggleContracted
        } else if lo == 154 {
            BrailleCommand::Toggle6DotComputerBraille
        } else if lo == 155 {
            BrailleCommand::ResetPreferences
        } else {
            BrailleCommand::ToggleAutoSpeakEmptyLines
        }
    }

    /// The 32-bit value read from the keycode `code` field for this
    /// command.
    pub open spec fn spec_into_u32(self) -> u32 {
        match self {
            BrailleCommand::NoOp => 0,
            BrailleCommand::LineUp => 1,
            BrailleCommand::LineDown => 2,
            BrailleCommand::SeveralLinesUp => 3,
            BrailleCommand::SeveralLinesDown => 4,
            BrailleCommand::PreviousDifferentLine => 5,
            BrailleCommand::NextDifferentLine => 6,
            BrailleCommand::PreviousDifferentAttributesLine => 7,
            BrailleCommand::NextDifferentAttributesLine => 8,
            BrailleCommand::Top => 9,
            BrailleCommand::Bottom => 10,
            BrailleCommand::TopLeft => 11,
            BrailleCommand::BottomLeft => 12,
            BrailleCommand::PreviousParagraph => 13,
            BrailleCommand::NextParagraph => 14,
            BrailleCommand::PreviousPrompt => 15,
            BrailleCommand::NextPrompt => 16,
            BrailleCommand::SearchBackwards => 17,
            BrailleCommand::SearchForwards => 18,
            BrailleCommand::PreviousCharacter => 19,
            BrailleCommand::NextCharacter => 20,
            BrailleCommand::PreviousHalfWindow => 21,
            BrailleCommand::NextHalfWindow => 22,
            BrailleCommand::PreviousFullWindow => 23,
            BrailleCommand::NextFullWindow => 24,
            BrailleCommand::PreviousFullWindowSkippingBlanks => 25,
            BrailleCommand::NextFullWindowSkippingBlanks => 26,
            BrailleCommand::LineBeginning => 27,
            BrailleCommand::LineEnd => 28,
            BrailleCommand::Home => 29,
            BrailleCommand::Back => 30,
            BrailleCommand::Return => 31,
            BrailleCommand::ToggleFrozen => 32,
            BrailleCommand::ToggleDisplayMode => 33,
            BrailleCommand::Toggle8Dot => 34,
            BrailleCommand::ToggleSlidingWindow => 35,
            BrailleCommand::ToggleSkipIdenticalLines => 36,
            BrailleCommand::ToggleSkipBlankWindows => 37,
            BrailleCommand::ToggleScreenCursorVisibility => 38,
            BrailleCommand::ToggleHideScreenCursor => 39,
            BrailleCommand::ToggleTrackScreenCursor => 40,
            BrailleCommand::ToggleScreenCursorStyle => 41,
            BrailleCommand::ToggleScreenCursorBlink => 42,
            BrailleCommand::ToggleAttributeUnderline => 43,
            BrailleCommand::ToggleAttributeBlink => 44,
            BrailleCommand::ToggleCapitalBlink => 45,
            BrailleCommand::ToggleAlertTunes => 46,
            BrailleCommand::ToggleAutoRepeat => 47,
            BrailleCommand::ToggleAutoSpeak => 48,
            BrailleCommand::Help => 49,
            BrailleCommand::Info => 50,
            BrailleCommand::LearnMode => 51,
            BrailleCommand::PreferencesMenu => 52,
            BrailleCommand::SavePreferences => 53,
            BrailleCommand::LoadPreferences => 54,
            BrailleCommand::MenuFirstItem => 55,
            BrailleCommand::MenuLastItem => 56,
            BrailleCommand::MenuPreviousItem => 57,
            BrailleCommand::MenuNextItem => 58,
            BrailleCommand::MenuPreviousSetting => 59,
            BrailleCommand::MenuNextSetting => 60,
            BrailleCommand::Mute => 61,
            BrailleCommand::SpeechHome => 62,
            BrailleCommand::SayLine => 63,
            BrailleCommand::SayFromTop => 64,
            BrailleCommand::SayToBottom => 65,
            BrailleCommand::DecreaseSpeechRate => 66,
            BrailleCommand::IncreaseSpeechRate => 67,
            BrailleCommand::DecreaseSpeechVolume => 68,
            BrailleCommand::IncreaseSpeechVolume => 69,
            BrailleCommand::PreviousVirtualTerminal => 70,
            BrailleCommand::NextVirtualTerminal => 71,
            BrailleCommand::ScreenCursorToCurrentLine => 72,
            BrailleCommand::Paste => 73,
            BrailleCommand::RestartBrailleDriver => 74,
            BrailleCommand::RestartSpeechDriver => 75,
            BrailleCommand::BrailleDisplayOffline => 76,
            BrailleCommand::CycleShift => 77,
            BrailleCommand::CycleUpper => 78,
            BrailleCommand::CycleControl => 79,
            BrailleCommand::CycleMeta => 80,
            BrailleCommand::ShowTime => 81,
            BrailleCommand::PreviousMenuLevel => 82,
            BrailleCommand::ToggleAutoSpeakSelectedLine => 83,
            BrailleCommand::ToggleAutoSpeakSelectedCharacter => 84,
            BrailleCommand::ToggleAutoSpeakInsertedCharacters => 85,
            BrailleCommand::ToggleAutoSpeakDeletedCharacters => 86,
            BrailleCommand::ToggleAutoSpeakReplacedCharacters => 87,
            BrailleCommand::ToggleAutoSpeakCompletedWords => 88,
            BrailleCommand::SpeakCurrentCharacter => 89,
            BrailleCommand::SpeakPreviousCharacter => 90,
            BrailleCommand::SpeakNextCharacter => 91,
            BrailleCommand::SpeakCurrentWord => 92,
            BrailleCommand::SpeakPreviousWord => 93,
            BrailleCommand::SpeakNextWord => 94,
            BrailleCommand::SpeakCurrentLine => 95,
            BrailleCommand::SpeakPreviousLine => 96,
            BrailleCommand::SpeakNextLine => 97,
            BrailleCommand::SpeakFirstCharacter => 98,
            BrailleCommand::SpeakLastCharacter => 99,
            BrailleCommand::SpeakFirstLine => 100,
            BrailleCommand::SpeakLastLine => 101,
            BrailleCommand::DescribeCurrentCharacter => 102,
            BrailleCommand::SpellCurrentWord => 103,
            BrailleCommand::ScreenCursorToSpeechCursor => 104,
            BrailleCommand::SpeakSpeechCursorLocation => 105,
            BrailleCommand::ToggleSpeechCursorVisibility => 106,
            BrailleCommand::SaveClipboard => 107,
            BrailleCommand::RestoreClipboard => 108,
            BrailleCommand::ToggleUnicodeBrailleInput => 109,
            BrailleCommand::ToggleBrailleKeyboard => 110,
            BrailleCommand::ClearModifiers => 111,
            BrailleCommand::CycleAltGr => 112,
            BrailleCommand::CycleGui => 113,
            BrailleCommand::StopBrailleDriver => 114,
            BrailleCommand::StartBrailleDriver => 115,
            BrailleCommand::StopSpeechDriver => 116,
            BrailleCommand::StartSpeechDriver => 117,
            BrailleCommand::StopScreenDriver => 118,
            BrailleCommand::StartScreenDriver => 119,
            BrailleCommand::SelectPreviousVirtualTerminal => 120,
            BrailleCommand::SelectNextVirtualTerminal => 121,
            BrailleCommand::PreviousNonBlankWindow => 122,
            BrailleCommand::NextNonBlankWindow => 123,
            BrailleCommand::ToggleTouchNavigation => 124,
            BrailleCommand::SpeakIndent => 125,
            BrailleCommand::ToggleAutoSpeakIndent => 126,
            BrailleCommand::Refresh => 127,
            BrailleCommand::ShowStatusIndicators => 128,
            BrailleCommand::ClearTextSelection => 129,
            BrailleCommand::SelectAll => 130,
            BrailleCommand::HostCopy => 131,
            BrailleCommand::HostCut => 132,
            BrailleCommand::HostPaste => 133,
            BrailleCommand::GuiTitle => 134,
            BrailleCommand::GuiBrailleActions => 135,
            BrailleCommand::GuiHome => 136,
            BrailleCommand::GuiBack => 137,
            BrailleCommand::GuiDeviceSettings => 138,
            BrailleCommand::GuiDeviceOptions => 139,
            BrailleCommand::GuiApplicationsList => 140,
            BrailleCommand::GuiApplicationMenu => 141,
            BrailleCommand::GuiApplicationAlerts => 142,
            BrailleCommand::GuiActiveArea => 143,
            BrailleCommand::GuiPreviousArea => 144,
            BrailleCommand::GuiNextArea => 145,
            BrailleCommand::GuiFirstItem => 146,
            BrailleCommand::GuiPreviousItem => 147,
            BrailleCommand::GuiNextItem => 148,
            BrailleCommand::GuiLastItem => 149,
            BrailleCommand::DecreaseSpeechPitch => 150,
            BrailleCommand::IncreaseSpeechPitch => 151,
            BrailleCommand::SayAll => 152,
            BrailleCommand::ToggleContracted => 153,
            BrailleCommand::Toggle6DotComputerBraille => 154,
            BrailleCommand::ResetPreferences => 155,
            BrailleCommand::ToggleAutoSpeakEmptyLines => 156,
            BrailleCommand::RouteCursorToCharacter { column } => (1u32 << 16) | (column as u32),
            BrailleCommand::NewClipboardAtCharacter { column } => (2u32 << 16) | (column as u32),
            BrailleCommand::AppendToCharacter { column } => (3u32 << 16) | (column as u32),
            BrailleCommand::RectangularCopyToCharacter { column } => (4u32 << 16) | (column as u32),
            BrailleCommand::LinearCopyToCharacter { column } => (5u32 << 16) | (column as u32),
            BrailleCommand::SwitchToVirtualTerminal { terminal } => (6u32 << 16) | (terminal as u32),
            BrailleCommand::PreviousIndent { column } => (7u32 << 16) | (column as u32),
            BrailleCommand::NextIndent { column } => (8u32 << 16) | (column as u32),
            BrailleCommand::DescribeCharacter { column } => (9u32 << 16) | (column as u32),
            BrailleCommand::SetWindowLeft { column } => (10u32 << 16) | (column as u32),
            BrailleCommand::SetMark { marker_number } => (11u32 << 16) | (marker_number as u32),
            BrailleCommand::GoToMark { marker_number } => (12u32 << 16) | (marker_number as u32),
            BrailleCommand::GoToLine { row } => (13u32 << 16) | (row as u32),
            BrailleCommand::PreviousLineWithDifferentCharacter { column } => (14u32 << 16) | (column as u32),
            BrailleCommand::NextLineWithDifferentCharacter { column } => (15u32 << 16) | (column as u32),
            BrailleCommand::Copy { start_column, end_column } => (16u32 << 16) | (((start_column as u32) << 8) | (end_column as u32)),
            BrailleCommand::Append { start_column, end_column } => (17u32 << 16) | (((start_column as u32) << 8) | (end_column as u32)),
            BrailleCommand::PasteFromHistory { history_entry } => (18u32 << 16) | (history_entry as u32),
            BrailleCommand::SetTextTable { index } => (19u32 << 16) | (index as u32),
            BrailleCommand::SetAttributesTable { index } => (20u32 << 16) | (index as u32),
            BrailleCommand::SetContractionTable { index } => (21u32 << 16) | (index as u32),
            BrailleCommand::SetKeyboardTable { index } => (22u32 << 16) | (index as u32),
            BrailleCommand::SetLanguageProfile { index } => (23u32 << 16) | (index as u32),
        }
    }

    /// Decodes a 32-bit value into a command; an unknown opcode yields
    /// `None`.
    pub open spec fn spec_from_u32(value: u32) -> Option<BrailleCommand> {
        let hi = value >> 16;
        let lo = value & 0xffff;
        if hi == 0 {
            if lo <= 156 {
                Some(BrailleCommand::zero_arg_command(lo))
            } else {
                None
            }
        } else if hi == 1 {
            Some(BrailleCommand::RouteCursorToCharacter { column: lo as u16 })
        } else if hi == 2 {
            Some(BrailleCommand::NewClipboardAtCharacter { column: lo as u16 })
        } else if hi == 3 {
            Some(BrailleCommand::AppendToCharacter { column: lo as u16 })
        } else if hi == 4 {
            Some(BrailleCommand::RectangularCopyToCharacter { column: lo as u16 })
        } else if hi == 5 {
            Some(BrailleCommand::LinearCopyToCharacter { column: lo as u16 })
        } else if hi == 6 {
            Some(BrailleCommand::SwitchToVirtualTerminal { terminal: lo as u16 })
        } else if hi == 7 {
            Some(BrailleCommand::PreviousIndent { column: lo as u16 })
        } else if hi == 8 {
            Some(BrailleCommand::NextIndent { column: lo as u16 })
        } else if hi == 9 {
            Some(BrailleCommand::DescribeCharacter { column: lo as u16 })
        } else if hi == 10 {
            Some(BrailleCommand::SetWindowLeft { column: lo as u16 })
        } else if hi == 11 {
            Some(BrailleCommand::SetMark { marker_number: lo as u16 })
        } else if hi == 12 {
            Some(BrailleCommand::GoToMark { marker_number: lo as u16 })
        } else if hi == 13 {
            Some(BrailleCommand::GoToLine { row: lo as u16 })
        } else if hi == 14 {
            Some(BrailleCommand::PreviousLineWithDifferentCharacter { column: lo as u16 })
        } else if hi == 15 {
            Some(BrailleCommand::NextLineWithDifferentCharacter { column: lo as u16 })
        } else if hi == 16 {
            Some(BrailleCommand::Copy { start_column: (lo >> 8) as u8, end_column: (lo & 0xff) as u8 })
        } else if hi == 17 {
            Some(BrailleCommand::Append { start_column: (lo >> 8) as u8, end_column: (lo & 0xff) as u8 })
        } else if hi == 18 {
            Some(BrailleCommand::PasteFromHistory { history_entry: lo as u16 })
        } else if hi == 19 {
            Some(BrailleCommand::SetTextTable { index: lo as u16 })
        } else if hi == 20 {
            Some(BrailleCommand::SetAttributesTable { index: lo as u16 })
        } else if hi == 21 {
            Some(BrailleCommand::SetContractionTable { index: lo as u16 })
        } else if hi == 22 {
            Some(BrailleCommand::SetKeyboardTable { index: lo as u16 })
        } else if hi == 23 {
            Some(BrailleCommand::SetLanguageProfile { index: lo as u16 })
        } else {
            None
        }
    }

    pub fn into_u32(self) -> (r: u32)
        ensures
            r == self.spec_into_u32(),
    {
        match self {
            BrailleCommand::NoOp => 0,
            BrailleCommand::LineUp => 1,
            BrailleCommand::LineDown => 2,
            BrailleCommand::SeveralLinesUp => 3,
            BrailleCommand::SeveralLinesDown => 4,
            BrailleCommand::PreviousDifferentLine => 5,
            BrailleCommand::NextDifferentLine => 6,
            BrailleCommand::PreviousDifferentAttributesLine => 7,
            BrailleCommand::NextDifferentAttributesLine => 8,
            BrailleCommand::Top => 9,
            BrailleCommand::Bottom => 10,
            BrailleCommand::TopLeft => 11,
            BrailleCommand::BottomLeft => 12,
            BrailleCommand::PreviousParagraph => 13,
            BrailleCommand::NextParagraph => 14,
            BrailleCommand::PreviousPrompt => 15,
            BrailleCommand::NextPrompt => 16,
            BrailleCommand::SearchBackwards => 17,
            BrailleCommand::SearchForwards => 18,
            BrailleCommand::PreviousCharacter => 19,
            BrailleCommand::NextCharacter => 20,
            BrailleCommand::PreviousHalfWindow => 21,
            BrailleCommand::NextHalfWindow => 22,
            BrailleCommand::PreviousFullWindow => 23,
            BrailleCommand::NextFullWindow => 24,
            BrailleCommand::PreviousFullWindowSkippingBlanks => 25,
            BrailleCommand::NextFullWindowSkippingBlanks => 26,
            BrailleCommand::LineBeginning => 27,
            BrailleCommand::LineEnd => 28,
            BrailleCommand::Home => 29,
            BrailleCommand::Back => 30,
            BrailleCommand::Return => 31,
            BrailleCommand::ToggleFrozen => 32,
            BrailleCommand::ToggleDisplayMode => 33,
            BrailleCommand::Toggle8Dot => 34,
            BrailleCommand::ToggleSlidingWindow => 35,
            BrailleCommand::ToggleSkipIdenticalLines => 36,
            BrailleCommand::ToggleSkipBlankWindows => 37,
            BrailleCommand::ToggleScreenCursorVisibility => 38,
            BrailleCommand::ToggleHideScreenCursor => 39,
            BrailleCommand::ToggleTrackScreenCursor => 40,
            BrailleCommand::ToggleScreenCursorStyle => 41,
            BrailleCommand::ToggleScreenCursorBlink => 42,
            BrailleCommand::ToggleAttributeUnderline => 43,
            BrailleCommand::ToggleAttributeBlink => 44,
            BrailleCommand::ToggleCapitalBlink => 45,
            BrailleCommand::ToggleAlertTunes => 46,
            BrailleCommand::ToggleAutoRepeat => 47,
            BrailleCommand::ToggleAutoSpeak => 48,
            BrailleCommand::Help => 49,
            BrailleCommand::Info => 50,
            BrailleCommand::LearnMode => 51,
            BrailleCommand::PreferencesMenu => 52,
            BrailleCommand::SavePreferences => 53,
            BrailleCommand::LoadPreferences => 54,
            BrailleCommand::MenuFirstItem => 55,
            BrailleCommand::MenuLastItem => 56,
            BrailleCommand::MenuPreviousItem => 57,
            BrailleCommand::MenuNextItem => 58,
            BrailleCommand::MenuPreviousSetting => 59,
            BrailleCommand::MenuNextSetting => 60,
            BrailleCommand::Mute => 61,
            BrailleCommand::SpeechHome => 62,
            BrailleCommand::SayLine => 63,
            BrailleCommand::SayFromTop => 64,
            BrailleCommand::SayToBottom => 65,
            BrailleCommand::DecreaseSpeechRate => 66,
            BrailleCommand::IncreaseSpeechRate => 67,
            BrailleCommand::DecreaseSpeechVolume => 68,
            BrailleCommand::IncreaseSpeechVolume => 69,
            BrailleCommand::PreviousVirtualTerminal => 70,
            BrailleCommand::NextVirtualTerminal => 71,
            BrailleCommand::ScreenCursorToCurrentLine => 72,
            BrailleCommand::Paste => 73,
            BrailleCommand::RestartBrailleDriver => 74,
            BrailleCommand::RestartSpeechDriver => 75,
            BrailleCommand::BrailleDisplayOffline => 76,
            BrailleCommand::CycleShift => 77,
            BrailleCommand::CycleUpper => 78,
            BrailleCommand::CycleControl => 79,
            BrailleCommand::CycleMeta => 80,
            BrailleCommand::ShowTime => 81,
            BrailleCommand::PreviousMenuLevel => 82,
            BrailleCommand::ToggleAutoSpeakSelectedLine => 83,
            BrailleCommand::ToggleAutoSpeakSelectedCharacter => 84,
            BrailleCommand::ToggleAutoSpeakInsertedCharacters => 85,
            BrailleCommand::ToggleAutoSpeakDeletedCharacters => 86,
            BrailleCommand::ToggleAutoSpeakReplacedCharacters => 87,
            BrailleCommand::ToggleAutoSpeakCompletedWords => 88,
            BrailleCommand::SpeakCurrentCharacter => 89,
            BrailleCommand::SpeakPreviousCharacter => 90,
            BrailleCommand::SpeakNextCharacter => 91,
            BrailleCommand::SpeakCurrentWord => 92,
            BrailleCommand::SpeakPreviousWord => 93,
            BrailleCommand::SpeakNextWord => 94,
            BrailleCommand::SpeakCurrentLine => 95,
            BrailleCommand::SpeakPreviousLine => 96,
            BrailleCommand::SpeakNextLine => 97,
            BrailleCommand::SpeakFirstCharacter => 98,
            BrailleCommand::SpeakLastCharacter => 99,
            BrailleCommand::SpeakFirstLine => 100,
            BrailleCommand::SpeakLastLine => 101,
            BrailleCommand::DescribeCurrentCharacter => 102,
            BrailleCommand::SpellCurrentWord => 103,
            BrailleCommand::ScreenCursorToSpeechCursor => 104,
            BrailleCommand::SpeakSpeechCursorLocation => 105,
            BrailleCommand::ToggleSpeechCursorVisibility => 106,
            BrailleCommand::SaveClipboard => 107,
            BrailleCommand::RestoreClipboard => 108,
            BrailleCommand::ToggleUnicodeBrailleInput => 109,
            BrailleCommand::ToggleBrailleKeyboard => 110,
            BrailleCommand::ClearModifiers => 111,
            BrailleCommand::CycleAltGr => 112,
            BrailleCommand::CycleGui => 113,
            BrailleCommand::StopBrailleDriver => 114,
            BrailleCommand::StartBrailleDriver => 115,
            BrailleCommand::StopSpeechDriver => 116,
            BrailleCommand::StartSpeechDriver => 117,
            BrailleCommand::StopScreenDriver => 118,
            BrailleCommand::StartScreenDriver => 119,
            BrailleCommand::SelectPreviousVirtualTerminal => 120,
            BrailleCommand::SelectNextVirtualTerminal => 121,
            BrailleCommand::PreviousNonBlankWindow => 122,
            BrailleCommand::NextNonBlankWindow => 123,
            BrailleCommand::ToggleTouchNavigation => 124,
            BrailleCommand::SpeakIndent => 125,
            BrailleCommand::ToggleAutoSpeakIndent => 126,
            BrailleCommand::Refresh => 127,
            BrailleCommand::ShowStatusIndicators => 128,
            BrailleCommand::ClearTextSelection => 129,
            BrailleCommand::SelectAll => 130,
            BrailleCommand::HostCopy => 131,
            BrailleCommand::HostCut => 132,
            BrailleCommand::HostPaste => 133,
            BrailleCommand::GuiTitle => 134,
            BrailleCommand::GuiBrailleActions => 135,
            BrailleCommand::GuiHome => 136,
            BrailleCommand::GuiBack => 137,
            BrailleCommand::GuiDeviceSettings => 138,
            BrailleCommand::GuiDeviceOptions => 139,
            BrailleCommand::GuiApplicationsList => 140,
            BrailleCommand::GuiApplicationMenu => 141,
            BrailleCommand::GuiApplicationAlerts => 142,
            BrailleCommand::GuiActiveArea => 143,
            BrailleCommand::GuiPreviousArea => 144,
            BrailleCommand::GuiNextArea => 145,
            BrailleCommand::GuiFirstItem => 146,
            BrailleCommand::GuiPreviousItem => 147,
            BrailleCommand::GuiNextItem => 148,
            BrailleCommand::GuiLastItem => 149,
            BrailleCommand::DecreaseSpeechPitch => 150,
            BrailleCommand::IncreaseSpeechPitch => 151,
            BrailleCommand::SayAll => 152,
            BrailleCommand::ToggleContracted => 153,
            BrailleCommand::Toggle6DotComputerBraille => 154,
            BrailleCommand::ResetPreferences => 155,
            BrailleCommand::ToggleAutoSpeakEmptyLines => 156,
            BrailleCommand::RouteCursorToCharacter { column } => (1u32 << 16) | (column as u32),
            BrailleCommand::NewClipboardAtCharacter { column } => (2u32 << 16) | (column as u32),
            BrailleCommand::AppendToCharacter { column } => (3u32 << 16) | (column as u32),
            BrailleCommand::RectangularCopyToCharacter { column } => (4u32 << 16) | (column as u32),
            BrailleCommand::LinearCopyToCharacter { column } => (5u32 << 16) | (column as u32),
            BrailleCommand::SwitchToVirtualTerminal { terminal } => (6u32 << 16) | (terminal as u32),
            BrailleCommand::PreviousIndent { column } => (7u32 << 16) | (column as u32),
            BrailleCommand::NextIndent { column } => (8u32 << 16) | (column as u32),
            BrailleCommand::DescribeCharacter { column } => (9u32 << 16) | (column as u32),
            BrailleCommand::SetWindowLeft { column } => (10u32 << 16) | (column as u32),
            BrailleCommand::SetMark { marker_number } => (11u32 << 16) | (marker_number as u32),
            BrailleCommand::GoToMark { marker_number } => (12u32 << 16) | (marker_number as u32),
            BrailleCommand::GoToLine { row } => (13u32 << 16) | (row as u32),
            BrailleCommand::PreviousLineWithDifferentCharacter { column } => (14u32 << 16) | (column as u32),
            BrailleCommand::NextLineWithDifferentCharacter { column } => (15u32 << 16) | (column as u32),
            BrailleCommand::Copy { start_column, end_column } => (16u32 << 16) | (((start_column as u32) << 8) | (end_column as u32)),
            BrailleCommand::Append { start_column, end_column } => (17u32 << 16) | (((start_column as u32) << 8) | (end_column as u32)),
            BrailleCommand::PasteFromHistory { history_entry } => (18u32 << 16) | (history_entry as u32),
            BrailleCommand::SetTextTable { index } => (19u32 << 16) | (index as u32),
            BrailleCommand::SetAttributesTable { index } => (20u32 << 16) | (index as u32),
            BrailleCommand::SetContractionTable { index } => (21u32 << 16) | (index as u32),
            BrailleCommand::SetKeyboardTable { index } => (22u32 << 16) | (index as u32),
            BrailleCommand::SetLanguageProfile { index } => (23u32 << 16) | (index as u32),
        }
    }

    /// Total decoder: `None` exactly where the value is no listed opcode.
    pub fn try_from_u32(value: u32) -> (r: Option<BrailleCommand>)
        ensures
            r == BrailleCommand::spec_from_u32(value),
    {
        let hi = value >> 16;
        let lo = value & 0xffff;
        proof {
            assert(value & 0xffff <= 0xffff && (value & 0xffff) >> 8 <= 0xff) by (bit_vector);
        }
        if hi == 0 {
            if lo > 156 {
                None
            } else 
            if lo == 0 {
                Some(BrailleCommand::NoOp)
            } else
            if lo == 1 {
                Some(BrailleCommand::LineUp)
            } else
            if lo == 2 {
                Some(BrailleCommand::LineDown)
            } else
            if lo == 3 {
                Some(BrailleCommand::SeveralLinesUp)
            } else
            if lo == 4 {
                Some(BrailleCommand::SeveralLinesDown)
            } else
            if lo == 5 {
                Some(BrailleCommand::PreviousDifferentLine)
            } else
            if lo == 6 {
                Some(BrailleCommand::NextDifferentLine)
            } else
            if lo == 7 {
                Some(BrailleCommand::PreviousDifferentAttributesLine)
            } else
            if lo == 8 {
                Some(BrailleCommand::NextDifferentAttributesLine)
            } else
            if lo == 9 {
                Some(BrailleCommand::Top)
            } else
            if lo == 10 {
                Some(BrailleCommand::Bottom)
            } else
            if lo == 11 {
                Some(BrailleCommand::TopLeft)
            } else
            if lo == 12 {
                Some(BrailleCommand::BottomLeft)
            } else
            if lo == 13 {
                Some(BrailleCommand::PreviousParagraph)
            } else
            if lo == 14 {
                Some(BrailleCommand::NextParagraph)
            } else
            if lo == 15 {
                Some(BrailleCommand::PreviousPrompt)
            } else
            if lo == 16 {
                Some(BrailleCommand::NextPrompt)
            } else
            if lo == 17 {
                Some(BrailleCommand::SearchBackwards)
            } else
            if lo == 18 {
                Some(BrailleCommand::SearchForwards)
            } else
            if lo == 19 {
                Some(BrailleCommand::PreviousCharacter)
            } else
            if lo == 20 {
                Some(BrailleCommand::NextCharacter)
            } else
            if lo == 21 {
                Some(BrailleCommand::PreviousHalfWindow)
            } else
            if lo == 22 {
                Some(BrailleCommand::NextHalfWindow)
            } else
            if lo == 23 {
                Some(BrailleCommand::PreviousFullWindow)
            } else
            if lo == 24 {
                Some(BrailleCommand::NextFullWindow)
            } else
            if lo == 25 {
                Some(BrailleCommand::PreviousFullWindowSkippingBlanks)
            } else
            if lo == 26 {
                Some(BrailleCommand::NextFullWindowSkippingBlanks)
            } else
            if lo == 27 {
                Some(BrailleCommand::LineBeginning)
            } else
            if lo == 28 {
                Some(BrailleCommand::LineEnd)
            } else
            if lo == 29 {
                Some(BrailleCommand::Home)
            } else
            if lo == 30 {
                Some(BrailleCommand::Back)
            } else
            if lo == 31 {
                Some(BrailleCommand::Return)
            } else
            if lo == 32 {
                Some(BrailleCommand::ToggleFrozen)
            } else
            if lo == 33 {
                Some(BrailleCommand::ToggleDisplayMode)
            } else
            if lo == 34 {
                Some(BrailleCommand::Toggle8Dot)
            } else
            if lo == 35 {
                Some(BrailleCommand::ToggleSlidingWindow)
            } else
            if lo == 36 {
                Some(BrailleCommand::ToggleSkipIdenticalLines)
            } else
            if lo == 37 {
                Some(BrailleCommand::ToggleSkipBlankWindows)
            } else
            if lo == 38 {
                Some(BrailleCommand::ToggleScreenCursorVisibility)
            } else
            if lo == 39 {
                Some(BrailleCommand::ToggleHideScreenCursor)
            } else
            if lo == 40 {
                Some(BrailleCommand::ToggleTrackScreenCursor)
            } else
            if lo == 41 {
                Some(BrailleCommand::ToggleScreenCursorStyle)
            } else
            if lo == 42 {
                Some(BrailleCommand::ToggleScreenCursorBlink)
            } else
            if lo == 43 {
                Some(BrailleCommand::ToggleAttributeUnderline)
            } else
            if lo == 44 {
                Some(BrailleCommand::ToggleAttributeBlink)
            } else
            if lo == 45 {
                Some(BrailleCommand::ToggleCapitalBlink)
            } else
            if lo == 46 {
                Some(BrailleCommand::ToggleAlertTunes)
            } else
            if lo == 47 {
                Some(BrailleCommand::ToggleAutoRepeat)
            } else
            if lo == 48 {
                Some(BrailleCommand::ToggleAutoSpeak)
            } else
            if lo == 49 {
                Some(BrailleCommand::Help)
            } else
            if lo == 50 {
                Some(BrailleCommand::Info)
            } else
            if lo == 51 {
                Some(BrailleCommand::LearnMode)
            } else
            if lo == 52 {
                Some(BrailleCommand::PreferencesMenu)
            } else
            if lo == 53 {
                Some(BrailleCommand::SavePreferences)
            } else
            if lo == 54 {
                Some(BrailleCommand::LoadPreferences)
            } else
            if lo == 55 {
                Some(BrailleCommand::MenuFirstItem)
            } else
            if lo == 56 {
                Some(BrailleCommand::MenuLastItem)
            } else
            if lo == 57 {
                Some(BrailleCommand::MenuPreviousItem)
            } else
            if lo == 58 {
                Some(BrailleCommand::MenuNextItem)
            } else
            if lo == 59 {
                Some(BrailleCommand::MenuPreviousSetting)
            } else
            if lo == 60 {
                Some(BrailleCommand::MenuNextSetting)
            } else
            if lo == 61 {
                Some(BrailleCommand::Mute)
            } else
            if lo == 62 {
                Some(BrailleCommand::SpeechHome)
            } else
            if lo == 63 {
                Some(BrailleCommand::SayLine)
            } else
            if lo == 64 {
                Some(BrailleCommand::SayFromTop)
            } else
            if lo == 65 {
                Some(BrailleCommand::SayToBottom)
            } else
            if lo == 66 {
                Some(BrailleCommand::DecreaseSpeechRate)
            } else
            if lo == 67 {
                Some(BrailleCommand::IncreaseSpeechRate)
            } else
            if lo == 68 {
                Some(BrailleCommand::DecreaseSpeechVolume)
            } else
            if lo == 69 {
                Some(BrailleCommand::IncreaseSpeechVolume)
            } else
            if lo == 70 {
                Some(BrailleCommand::PreviousVirtualTerminal)
            } else
            if lo == 71 {
                Some(BrailleCommand::NextVirtualTerminal)
            } else
            if lo == 72 {
                Some(BrailleCommand::ScreenCursorToCurrentLine)
            } else
            if lo == 73 {
                Some(BrailleCommand::Paste)
            } else
            if lo == 74 {
                Some(BrailleCommand::RestartBrailleDriver)
            } else
            if lo == 75 {
                Some(BrailleCommand::RestartSpeechDriver)
            } else
            if lo == 76 {
                Some(BrailleCommand::BrailleDisplayOffline)
            } else
            if lo == 77 {
                Some(BrailleCommand::CycleShift)
            } else
            if lo == 78 {
                Some(BrailleCommand::CycleUpper)
            } else
            if lo == 79 {
                Some(BrailleCommand::CycleControl)
            } else
            if lo == 80 {
                Some(BrailleCommand::CycleMeta)
            } else
            if lo == 81 {
                Some(BrailleCommand::ShowTime)
            } else
            if lo == 82 {
                Some(BrailleCommand::PreviousMenuLevel)
            } else
            if lo == 83 {
                Some(BrailleCommand::ToggleAutoSpeakSelectedLine)
            } else
            if lo == 84 {
                Some(BrailleCommand::ToggleAutoSpeakSelectedCharacter)
            } else
            if lo == 85 {
                Some(BrailleCommand::ToggleAutoSpeakInsertedCharacters)
            } else
            if lo == 86 {
                Some(BrailleCommand::ToggleAutoSpeakDeletedCharacters)
            } else
            if lo == 87 {
                Some(BrailleCommand::ToggleAutoSpeakReplacedCharacters)
            } else
            if lo == 88 {
                Some(BrailleCommand::ToggleAutoSpeakCompletedWords)
            } else
            if lo == 89 {
                Some(BrailleCommand::SpeakCurrentCharacter)
            } else
            if lo == 90 {
                Some(BrailleCommand::SpeakPreviousCharacter)
            } else
            if lo == 91 {
                Some(BrailleCommand::SpeakNextCharacter)
            } else
            if lo == 92 {
                Some(BrailleCommand::SpeakCurrentWord)
            } else
            if lo == 93 {
                Some(BrailleCommand::SpeakPreviousWord)
            } else
            if lo == 94 {
                Some(BrailleCommand::SpeakNextWord)
            } else
            if lo == 95 {
                Some(BrailleCommand::SpeakCurrentLine)
            } else
            if lo == 96 {
                Some(BrailleCommand::SpeakPreviousLine)
            } else
            if lo == 97 {
                Some(BrailleCommand::SpeakNextLine)
            } else
            if lo == 98 {
                Some(BrailleCommand::SpeakFirstCharacter)
            } else
            if lo == 99 {
                Some(BrailleCommand::SpeakLastCharacter)
            } else
            if lo == 100 {
                Some(BrailleCommand::SpeakFirstLine)
            } else
            if lo == 101 {
                Some(BrailleCommand::SpeakLastLine)
            } else
            if lo == 102 {
                Some(BrailleCommand::DescribeCurrentCharacter)
            } else
            if lo == 103 {
                Some(BrailleCommand::SpellCurrentWord)
            } else
            if lo == 104 {
                Some(BrailleCommand::ScreenCursorToSpeechCursor)
            } else
            if lo == 105 {
                Some(BrailleCommand::SpeakSpeechCursorLocation)
            } else
            if lo == 106 {
                Some(BrailleCommand::ToggleSpeechCursorVisibility)
            } else
            if lo == 107 {
                Some(BrailleCommand::SaveClipboard)
            } else
            if lo == 108 {
                Some(BrailleCommand::RestoreClipboard)
            } else
            if lo == 109 {
                Some(BrailleCommand::ToggleUnicodeBrailleInput)
            } else
            if lo == 110 {
                Some(BrailleCommand::ToggleBrailleKeyboard)
            } else
            if lo == 111 {
                Some(BrailleCommand::ClearModifiers)
            } else
            if lo == 112 {
                Some(BrailleCommand::CycleAltGr)
            } else
            if lo == 113 {
                Some(BrailleCommand::CycleGui)
            } else
            if lo == 114 {
                Some(BrailleCommand::StopBrailleDriver)
            } else
            if lo == 115 {
                Some(BrailleCommand::StartBrailleDriver)
            } else
            if lo == 116 {
                Some(BrailleCommand::StopSpeechDriver)
            } else
            if lo == 117 {
                Some(BrailleCommand::StartSpeechDriver)
            } else
            if lo == 118 {
                Some(BrailleCommand::StopScreenDriver)
            } else
            if lo == 119 {
                Some(BrailleCommand::StartScreenDriver)
            } else
            if lo == 120 {
                Some(BrailleCommand::SelectPreviousVirtualTerminal)
            } else
            if lo == 121 {
                Some(BrailleCommand::SelectNextVirtualTerminal)
            } else
            if lo == 122 {
                Some(BrailleCommand::PreviousNonBlankWindow)
            } else
            if lo == 123 {
                Some(BrailleCommand::NextNonBlankWindow)
            } else
            if lo == 124 {
                Some(BrailleCommand::ToggleTouchNavigation)
            } else
            if lo == 125 {
                Some(BrailleCommand::SpeakIndent)
            } else
            if lo == 126 {
                Some(BrailleCommand::ToggleAutoSpeakIndent)
            } else
            if lo == 127 {
                Some(BrailleCommand::Refresh)
            } else
            if lo == 128 {
                Some(BrailleCommand::ShowStatusIndicators)
            } else
            if lo == 129 {
                Some(BrailleCommand::ClearTextSelection)
            } else
            if lo == 130 {
                Some(BrailleCommand::SelectAll)
            } else
            if lo == 131 {
                Some(BrailleCommand::HostCopy)
            } else
            if lo == 132 {
                Some(BrailleCommand::HostCut)
            } else
            if lo == 133 {
                Some(BrailleCommand::HostPaste)
            } else
            if lo == 134 {
                Some(BrailleCommand::GuiTitle)
            } else
            if lo == 135 {
                Some(BrailleCommand::GuiBrailleActions)
            } else
            if lo == 136 {
                Some(BrailleCommand::GuiHome)
            } else
            if lo == 137 {
                Some(BrailleCommand::GuiBack)
            } else
            if lo == 138 {
                Some(BrailleCommand::GuiDeviceSettings)
            } else
            if lo == 139 {
                Some(BrailleCommand::GuiDeviceOptions)
            } else
            if lo == 140 {
                Some(BrailleCommand::GuiApplicationsList)
            } else
            if lo == 141 {
                Some(BrailleCommand::GuiApplicationMenu)
            } else
            if lo == 142 {
                Some(BrailleCommand::GuiApplicationAlerts)
            } else
            if lo == 143 {
                Some(BrailleCommand::GuiActiveArea)
            } else
            if lo == 144 {
                Some(BrailleCommand::GuiPreviousArea)
            } else
            if lo == 145 {
                Some(BrailleCommand::GuiNextArea)
            } else
            if lo == 146 {
                Some(BrailleCommand::GuiFirstItem)
            } else
            if lo == 147 {
                Some(BrailleCommand::GuiPreviousItem)
            } else
            if lo == 148 {
                Some(BrailleCommand::GuiNextItem)
            } else
            if lo == 149 {
                Some(BrailleCommand::GuiLastItem)
            } else
            if lo == 150 {
                Some(BrailleCommand::DecreaseSpeechPitch)
            } else
            if lo == 151 {
                Some(BrailleCommand::IncreaseSpeechPitch)
            } else
            if lo == 152 {
                Some(BrailleCommand::SayAll)
            } else
            if lo == 153 {
                Some(BrailleCommand::ToggleContracted)
            } else
            if lo == 154 {
                Some(BrailleCommand::Toggle6DotComputerBraille)
            } else
            if lo == 155 {
                Some(BrailleCommand::ResetPreferences)
            } else
            {
                Some(BrailleCommand::ToggleAutoSpeakEmptyLines)
            }
        } else if hi == 1 {
            Some(BrailleCommand::RouteCursorToCharacter { column: lo as u16 })
        } else if hi == 2 {
            Some(BrailleCommand::NewClipboardAtCharacter { column: lo as u16 })
        } else if hi == 3 {
            Some(BrailleCommand::AppendToCharacter { column: lo as u16 })
        } else if hi == 4 {
            Some(BrailleCommand::RectangularCopyToCharacter { column: lo as u16 })
        } else if hi == 5 {
            Some(BrailleCommand::LinearCopyToCharacter { column: lo as u16 })
        } else if hi == 6 {
            Some(BrailleCommand::SwitchToVirtualTerminal { terminal: lo as u16 })
        } else if hi == 7 {
            Some(BrailleCommand::PreviousIndent { column: lo as u16 })
        } else if hi == 8 {
            Some(BrailleCommand::NextIndent { column: lo as u16 })
        } else if hi == 9 {
            Some(BrailleCommand::DescribeCharacter { column: lo as u16 })
        } else if hi == 10 {
            Some(BrailleCommand::SetWindowLeft { column: lo as u16 })
        } else if hi == 11 {
            Some(BrailleCommand::SetMark { marker_number: lo as u16 })
        } else if hi == 12 {
            Some(BrailleCommand::GoToMark { marker_number: lo as u16 })
        } else if hi == 13 {
            Some(BrailleCommand::GoToLine { row: lo as u16 })
        } else if hi == 14 {
            Some(BrailleCommand::PreviousLineWithDifferentCharacter { column: lo as u16 })
        } else if hi == 15 {
            Some(BrailleCommand::NextLineWithDifferentCharacter { column: lo as u16 })
        } else if hi == 16 {
            Some(BrailleCommand::Copy { start_column: (lo >> 8) as u8, end_column: (lo & 0xff) as u8 })
        } else if hi == 17 {
            Some(BrailleCommand::Append { start_column: (lo >> 8) as u8, end_column: (lo & 0xff) as u8 })
        } else if hi == 18 {
            Some(BrailleCommand::PasteFromHistory { history_entry: lo as u16 })
        } else if hi == 19 {
            Some(BrailleCommand::SetTextTable { index: lo as u16 })
        } else if hi == 20 {
            Some(BrailleCommand::SetAttributesTable { index: lo as u16 })
        } else if hi == 21 {
            Some(BrailleCommand::SetContractionTable { index: lo as u16 })
        } else if hi == 22 {
            Some(BrailleCommand::SetKeyboardTable { index: lo as u16 })
        } else if hi == 23 {
            Some(BrailleCommand::SetLanguageProfile { index: lo as u16 })
        } else {
            None
        }
    }

    /// Decoder for values known to carry a listed opcode, as the wire
    /// invariant guarantees of a braille-command keycode.
    pub fn from_u32(value: u32) -> (r: Self)
        requires
            BrailleCommand::spec_from_u32(value) is Some,
        ensures
            Some(r) == BrailleCommand::spec_from_u32(value),
    {
        if let Some(cmd) = BrailleCommand::try_from_u32(value) {
            cmd
        } else {
            proof {
                assert(false);
            }
            BrailleCommand::NoOp
        }
    }
}

/// Every listed opcode, with any argument value, survives the encode /
/// decode round trip of the braille-command sub-codec.
pub proof fn lemma_braille_command_round_trip(cmd: BrailleCommand)
    ensures
        BrailleCommand::spec_from_u32(cmd.spec_into_u32()) == Some(cmd),
{
    match cmd {
        BrailleCommand::NoOp => {
            lemma_low_word(0);
        },
        BrailleCommand::LineUp => {
            lemma_low_word(1);
        },
        BrailleCommand::LineDown => {
            lemma_low_word(2);
        },
        BrailleCommand::SeveralLinesUp => {
            lemma_low_word(3);
        },
        BrailleCommand::SeveralLinesDown => {
            lemma_low_word(4);
        },
        BrailleCommand::PreviousDifferentLine => {
            lemma_low_word(5);
        },
        BrailleCommand::NextDifferentLine => {
            lemma_low_word(6);
        },
        BrailleCommand::PreviousDifferentAttributesLine => {
            lemma_low_word(7);
        },
        BrailleCommand::NextDifferentAttributesLine => {
            lemma_low_word(8);
        },
        BrailleCommand::Top => {
            lemma_low_word(9);
        },
        BrailleCommand::Bottom => {
            lemma_low_word(10);
        },
        BrailleCommand::TopLeft => {
            lemma_low_word(11);
        },
        BrailleCommand::BottomLeft => {
            lemma_low_word(12);
        },
        BrailleCommand::PreviousParagraph => {
            lemma_low_word(13);
        },
        BrailleCommand::NextParagraph => {
            lemma_low_word(14);
        },
        BrailleCommand::PreviousPrompt => {
            lemma_low_word(15);
        },
        BrailleCommand::NextPrompt => {
            lemma_low_word(16);
        },
        BrailleCommand::SearchBackwards => {
            lemma_low_word(17);
        },
        BrailleCommand::SearchForwards => {
            lemma_low_word(18);
        },
        BrailleCommand::PreviousCharacter => {
            lemma_low_word(19);
        },
        BrailleCommand::NextCharacter => {
            lemma_low_word(20);
        },
        BrailleCommand::PreviousHalfWindow => {
            lemma_low_word(21);
        },
        BrailleCommand::NextHalfWindow => {
            lemma_low_word(22);
        },
        BrailleCommand::PreviousFullWindow => {
            lemma_low_word(23);
        },
        BrailleCommand::NextFullWindow => {
            lemma_low_word(24);
        },
        BrailleCommand::PreviousFullWindowSkippingBlanks => {
            lemma_low_word(25);
        },
        BrailleCommand::NextFullWindowSkippingBlanks => {
            lemma_low_word(26);
        },
        BrailleCommand::LineBeginning => {
            lemma_low_word(27);
        },
        BrailleCommand::LineEnd => {
            lemma_low_word(28);
        },
        BrailleCommand::Home => {
            lemma_low_word(29);
        },
        BrailleCommand::Back => {
            lemma_low_word(30);
        },
        BrailleCommand::Return => {
            lemma_low_word(31);
        },
        BrailleCommand::ToggleFrozen => {
            lemma_low_word(32);
        },
        BrailleCommand::ToggleDisplayMode => {
            lemma_low_word(33);
        },
        BrailleCommand::Toggle8Dot => {
            lemma_low_word(34);
        },
        BrailleCommand::ToggleSlidingWindow => {
            lemma_low_word(35);
        },
        BrailleCommand::ToggleSkipIdenticalLines => {
            lemma_low_word(36);
        },
        BrailleCommand::ToggleSkipBlankWindows => {
            lemma_low_word(37);
        },
        BrailleCommand::ToggleScreenCursorVisibility => {
            lemma_low_word(38);
        },
        BrailleCommand::ToggleHideScreenCursor => {
            lemma_low_word(39);
        },
        BrailleCommand::ToggleTrackScreenCursor => {
            lemma_low_word(40);
        },
        BrailleCommand::ToggleScreenCursorStyle => {
            lemma_low_word(41);
        },
        BrailleCommand::ToggleScreenCursorBlink => {
            lemma_low_word(42);
        },
        BrailleCommand::ToggleAttributeUnderline => {
            lemma_low_word(43);
        },
        BrailleCommand::ToggleAttributeBlink => {
            lemma_low_word(44);
        },
        BrailleCommand::ToggleCapitalBlink => {
            lemma_low_word(45);
        },
        BrailleCommand::ToggleAlertTunes => {
            lemma_low_word(46);
        },
        BrailleCommand::ToggleAutoRepeat => {
            lemma_low_word(47);
        },
        BrailleCommand::ToggleAutoSpeak => {
            lemma_low_word(48);
        },
        BrailleCommand::Help => {
            lemma_low_word(49);
        },
        BrailleCommand::Info => {
            lemma_low_word(50);
        },
        BrailleCommand::LearnMode => {
            lemma_low_word(51);
        },
        BrailleCommand::PreferencesMenu => {
            lemma_low_word(52);
        },
        BrailleCommand::SavePreferences => {
            lemma_low_word(53);
        },
        BrailleCommand::LoadPreferences => {
            lemma_low_word(54);
        },
        BrailleCommand::MenuFirstItem => {
            lemma_low_word(55);
        },
        BrailleCommand::MenuLastItem => {
            lemma_low_word(56);
        },
        BrailleCommand::MenuPreviousItem => {
            lemma_low_word(57);
        },
        BrailleCommand::MenuNextItem => {
            lemma_low_word(58);
        },
        BrailleCommand::MenuPreviousSetting => {
            lemma_low_word(59);
        },
        BrailleCommand::MenuNextSetting => {
            lemma_low_word(60);
        },
        BrailleCommand::Mute => {
            lemma_low_word(61);
        },
        BrailleCommand::SpeechHome => {
            lemma_low_word(62);
        },
        BrailleCommand::SayLine => {
            lemma_low_word(63);
        },
        BrailleCommand::SayFromTop => {
            lemma_low_word(64);
        },
        BrailleCommand::SayToBottom => {
            lemma_low_word(65);
        },
        BrailleCommand::DecreaseSpeechRate => {
            lemma_low_word(66);
        },
        BrailleCommand::IncreaseSpeechRate => {
            lemma_low_word(67);
        },
        BrailleCommand::DecreaseSpeechVolume => {
            lemma_low_word(68);
        },
        BrailleCommand::IncreaseSpeechVolume => {
            lemma_low_word(69);
        },
        BrailleCommand::PreviousVirtualTerminal => {
            lemma_low_word(70);
        },
        BrailleCommand::NextVirtualTerminal => {
            lemma_low_word(71);
        },
        BrailleCommand::ScreenCursorToCurrentLine => {
            lemma_low_word(72);
        },
        BrailleCommand::Paste => {
            lemma_low_word(73);
        },
        BrailleCommand::RestartBrailleDriver => {
            lemma_low_word(74);
        },
        BrailleCommand::RestartSpeechDriver => {
            lemma_low_word(75);
        },
        BrailleCommand::BrailleDisplayOffline => {
            lemma_low_word(76);
        },
        BrailleCommand::CycleShift => {
            lemma_low_word(77);
        },
        BrailleCommand::CycleUpper => {
            lemma_low_word(78);
        },
        BrailleCommand::CycleControl => {
            lemma_low_word(79);
        },
        BrailleCommand::CycleMeta => {
            lemma_low_word(80);
        },
        BrailleCommand::ShowTime => {
            lemma_low_word(81);
        },
        BrailleCommand::PreviousMenuLevel => {
            lemma_low_word(82);
        },
        BrailleCommand::ToggleAutoSpeakSelectedLine => {
            lemma_low_word(83);
        },
        BrailleCommand::ToggleAutoSpeakSelectedCharacter => {
            lemma_low_word(84);
        },
        BrailleCommand::ToggleAutoSpeakInsertedCharacters => {
            lemma_low_word(85);
        },
        BrailleCommand::ToggleAutoSpeakDeletedCharacters => {
            lemma_low_word(86);
        },
        BrailleCommand::ToggleAutoSpeakReplacedCharacters => {
            lemma_low_word(87);
        },
        BrailleCommand::ToggleAutoSpeakCompletedWords => {
            lemma_low_word(88);
        },
        BrailleCommand::SpeakCurrentCharacter => {
            lemma_low_word(89);
        },
        BrailleCommand::SpeakPreviousCharacter => {
            lemma_low_word(90);
        },
        BrailleCommand::SpeakNextCharacter => {
            lemma_low_word(91);
        },
        BrailleCommand::SpeakCurrentWord => {
            lemma_low_word(92);
        },
        BrailleCommand::SpeakPreviousWord => {
            lemma_low_word(93);
        },
        BrailleCommand::SpeakNextWord => {
            lemma_low_word(94);
        },
        BrailleCommand::SpeakCurrentLine => {
            lemma_low_word(95);
        },
        BrailleCommand::SpeakPreviousLine => {
            lemma_low_word(96);
        },
        BrailleCommand::SpeakNextLine => {
            lemma_low_word(97);
        },
        BrailleCommand::SpeakFirstCharacter => {
            lemma_low_word(98);
        },
        BrailleCommand::SpeakLastCharacter => {
            lemma_low_word(99);
        },
        BrailleCommand::SpeakFirstLine => {
            lemma_low_word(100);
        },
        BrailleCommand::SpeakLastLine => {
            lemma_low_word(101);
        },
        BrailleCommand::DescribeCurrentCharacter => {
            lemma_low_word(102);
        },
        BrailleCommand::SpellCurrentWord => {
            lemma_low_word(103);
        },
        BrailleCommand::ScreenCursorToSpeechCursor => {
            lemma_low_word(104);
        },
        BrailleCommand::SpeakSpeechCursorLocation => {
            lemma_low_word(105);
        },
        BrailleCommand::ToggleSpeechCursorVisibility => {
            lemma_low_word(106);
        },
        BrailleCommand::SaveClipboard => {
            lemma_low_word(107);
        },
        BrailleCommand::RestoreClipboard => {
            lemma_low_word(108);
        },
        BrailleCommand::ToggleUnicodeBrailleInput => {
            lemma_low_word(109);
        },
        BrailleCommand::ToggleBrailleKeyboard => {
            lemma_low_word(110);
        },
        BrailleCommand::ClearModifiers => {
            lemma_low_word(111);
        },
        BrailleCommand::CycleAltGr => {
            lemma_low_word(112);
        },
        BrailleCommand::CycleGui => {
            lemma_low_word(113);
        },
        BrailleCommand::StopBrailleDriver => {
            lemma_low_word(114);
        },
        BrailleCommand::StartBrailleDriver => {
            lemma_low_word(115);
        },
        BrailleCommand::StopSpeechDriver => {
            lemma_low_word(116);
        },
        BrailleCommand::StartSpeechDriver => {
            lemma_low_word(117);
        },
        BrailleCommand::StopScreenDriver => {
            lemma_low_word(118);
        },
        BrailleCommand::StartScreenDriver => {
            lemma_low_word(119);
        },
        BrailleCommand::SelectPreviousVirtualTerminal => {
            lemma_low_word(120);
        },
        BrailleCommand::SelectNextVirtualTerminal => {
            lemma_low_word(121);
        },
        BrailleCommand::PreviousNonBlankWindow => {
            lemma_low_word(122);
        },
        BrailleCommand::NextNonBlankWindow => {
            lemma_low_word(123);
        },
        BrailleCommand::ToggleTouchNavigation => {
            lemma_low_word(124);
        },
        BrailleCommand::SpeakIndent => {
            lemma_low_word(125);
        },
        BrailleCommand::ToggleAutoSpeakIndent => {
            lemma_low_word(126);
        },
        BrailleCommand::Refresh => {
            lemma_low_word(127);
        },
        BrailleCommand::ShowStatusIndicators => {
            lemma_low_word(128);
        },
        BrailleCommand::ClearTextSelection => {
            lemma_low_word(129);
        },
        BrailleCommand::SelectAll => {
            lemma_low_word(130);
        },
        BrailleCommand::HostCopy => {
            lemma_low_word(131);
        },
        BrailleCommand::HostCut => {
            lemma_low_word(132);
        },
        BrailleCommand::HostPaste => {
            lemma_low_word(133);
        },
        BrailleCommand::GuiTitle => {
            lemma_low_word(134);
        },
        BrailleCommand::GuiBrailleActions => {
            lemma_low_word(135);
        },
        BrailleCommand::GuiHome => {
            lemma_low_word(136);
        },
        BrailleCommand::GuiBack => {
            lemma_low_word(137);
        },
        BrailleCommand::GuiDeviceSettings => {
            lemma_low_word(138);
        },
        BrailleCommand::GuiDeviceOptions => {
            lemma_low_word(139);
        },
        BrailleCommand::GuiApplicationsList => {
            lemma_low_word(140);
        },
        BrailleCommand::GuiApplicationMenu => {
            lemma_low_word(141);
        },
        BrailleCommand::GuiApplicationAlerts => {
            lemma_low_word(142);
        },
        BrailleCommand::GuiActiveArea => {
            lemma_low_word(143);
        },
        BrailleCommand::GuiPreviousArea => {
            lemma_low_word(144);
        },
        BrailleCommand::GuiNextArea => {
            lemma_low_word(145);
        },
        BrailleCommand::GuiFirstItem => {
            lemma_low_word(146);
        },
        BrailleCommand::GuiPreviousItem => {
            lemma_low_word(147);
        },
        BrailleCommand::GuiNextItem => {
            lemma_low_word(148);
        },
        BrailleCommand::GuiLastItem => {
            lemma_low_word(149);
        },
        BrailleCommand::DecreaseSpeechPitch => {
            lemma_low_word(150);
        },
        BrailleCommand::IncreaseSpeechPitch => {
            lemma_low_word(151);
        },
        BrailleCommand::SayAll => {
            lemma_low_word(152);
        },
        BrailleCommand::ToggleContracted => {
            lemma_low_word(153);
        },
        BrailleCommand::Toggle6DotComputerBraille => {
            lemma_low_word(154);
        },
        BrailleCommand::ResetPreferences => {
            lemma_low_word(155);
        },
        BrailleCommand::ToggleAutoSpeakEmptyLines => {
            lemma_low_word(156);
        },
        BrailleCommand::RouteCursorToCharacter { column } => {
            lemma_u16_cast_round(column);
            lemma_split_word(1, column as u32);
        },
        BrailleCommand::NewClipboardAtCharacter { column } => {
            lemma_u16_cast_round(column);
            lemma_split_word(2, column as u32);
        },
        BrailleCommand::AppendToCharacter { column } => {
            lemma_u16_cast_round(column);
            lemma_split_word(3, column as u32);
        },
        BrailleCommand::RectangularCopyToCharacter { column } => {
            lemma_u16_cast_round(column);
            lemma_split_word(4, column as u32);
        },
        BrailleCommand::LinearCopyToCharacter { column } => {
            lemma_u16_cast_round(column);
            lemma_split_word(5, column as u32);
        },
        BrailleCommand::SwitchToVirtualTerminal { terminal } => {
            lemma_u16_cast_round(terminal);
            lemma_split_word(6, terminal as u32);
        },
        BrailleCommand::PreviousIndent { column } => {
            lemma_u16_cast_round(column);
            lemma_split_word(7, column as u32);
        },
        BrailleCommand::NextIndent { column } => {
            lemma_u16_cast_round(column);
            lemma_split_word(8, column as u32);
        },
        BrailleCommand::DescribeCharacter { column } => {
            lemma_u16_cast_round(column);
            lemma_split_word(9, column as u32);
        },
        BrailleCommand::SetWindowLeft { column } => {
            lemma_u16_cast_round(column);
            lemma_split_word(10, column as u32);
        },
        BrailleCommand::SetMark { marker_number } => {
            lemma_u16_cast_round(marker_number);
            lemma_split_word(11, marker_number as u32);
        },
        BrailleCommand::GoToMark { marker_number } => {
            lemma_u16_cast_round(marker_number);
            lemma_split_word(12, marker_number as u32);
        },
        BrailleCommand::GoToLine { row } => {
            lemma_u16_cast_round(row);
            lemma_split_word(13, row as u32);
        },
        BrailleCommand::PreviousLineWithDifferentCharacter { column } => {
            lemma_u16_cast_round(column);
            lemma_split_word(14, column as u32);
        },
        BrailleCommand::NextLineWithDifferentCharacter { column } => {
            lemma_u16_cast_round(column);
            lemma_split_word(15, column as u32);
        },
        BrailleCommand::Copy { start_column, end_column } => {
            lemma_byte_pair(start_column, end_column);
            lemma_split_word(16, ((start_column as u32) << 8) | (end_column as u32));
        },
        BrailleCommand::Append { start_column, end_column } => {
            lemma_byte_pair(start_column, end_column);
            lemma_split_word(17, ((start_column as u32) << 8) | (end_column as u32));
        },
        BrailleCommand::PasteFromHistory { history_entry } => {
            lemma_u16_cast_round(history_entry);
            lemma_split_word(18, history_entry as u32);
        },
        BrailleCommand::SetTextTable { index } => {
            lemma_u16_cast_round(index);
            lemma_split_word(19, index as u32);
        },
        BrailleCommand::SetAttributesTable { index } => {
            lemma_u16_cast_round(index);
            lemma_split_word(20, index as u32);
        },
        BrailleCommand::SetContractionTable { index } => {
            lemma_u16_cast_round(index);
            lemma_split_word(21, index as u32);
        },
        BrailleCommand::SetKeyboardTable { index } => {
            lemma_u16_cast_round(index);
            lemma_split_word(22, index as u32);
        },
        BrailleCommand::SetLanguageProfile { index } => {
            lemma_u16_cast_round(index);
            lemma_split_word(23, index as u32);
        },
    }
}

} // verus!
