use vstd::prelude::*;

use crate::keycode::{Keycode, KEYCODE_FLAGS_MASK};
use crate::wire::{enc_list, u32_be, u64_be};

verus! {

// The packet model of the protocol.  Every packet on the wire is
// `[size: u32][type: u32][payload: size bytes]`, all integers big-endian;
// the payload layout is determined by the type and, for `Write` and the
// parameter packets, by a leading flag word.
//
// Each executable packet type has a view with `Seq` fields; the encoding,
// the sizes and the well-formedness conditions are stated on the views.

/// Protocol version sent and required by the handshake.
pub const PROTOCOL_VERSION: u32 = 8;

/// Magic prefix of the raw-mode and suspend payloads.
pub const RAW_MODE_MAGIC: u64 = 0xdead_beef;

/// Error codes of the protocol, carried as a big-endian `u32`.
#[derive(Clone, Copy, Debug, PartialEq, Eq, Structural)]
pub enum ErrorCode {
    Success,
    NotEnoughMemory,
    TtyBusy,
    DeviceBusy,
    UnknownInstruction,
    IllegalInstruction,
    InvalidParameter,
    InvalidPacket,
    ConnectionRefused,
    OperationNotSupported,
    GetaddrinfoError,
    LibcError,
    UnknownTty,
    BadProtocolVersion,
    UnexpectedEof,
    EmptyKeyFile,
    DriverPacketTooLarge,
    AuthenticationFailed,
    ReadOnlyParameter,
}

impl ErrorCode {
    pub open spec fn spec_code(self) -> u32 {
        match self {
            ErrorCode::Success => 0,
            ErrorCode::NotEnoughMemory => 1,
            ErrorCode::TtyBusy => 2,
            ErrorCode::DeviceBusy => 3,
            ErrorCode::UnknownInstruction => 4,
            ErrorCode::IllegalInstruction => 5,
            ErrorCode::InvalidParameter => 6,
            ErrorCode::InvalidPacket => 7,
            ErrorCode::ConnectionRefused => 8,
            ErrorCode::OperationNotSupported => 9,
            ErrorCode::GetaddrinfoError => 10,
            ErrorCode::LibcError => 11,
            ErrorCode::UnknownTty => 12,
            ErrorCode::BadProtocolVersion => 13,
            ErrorCode::UnexpectedEof => 14,
            ErrorCode::EmptyKeyFile => 15,
            ErrorCode::DriverPacketTooLarge => 16,
            ErrorCode::AuthenticationFailed => 17,
            ErrorCode::ReadOnlyParameter => 18,
        }
    }

    pub open spec fn spec_from_code(value: u32) -> Option<ErrorCode> {
        if value == 0 {
            Some(ErrorCode::Success)
        } else if value == 1 {
            Some(ErrorCode::NotEnoughMemory)
        } else if value == 2 {
            Some(ErrorCode::TtyBusy)
        } else if value == 3 {
            Some(ErrorCode::DeviceBusy)
        } else if value == 4 {
            Some(ErrorCode::UnknownInstruction)
        } else if value == 5 {
            Some(ErrorCode::IllegalInstruction)
        } else if value == 6 {
            Some(ErrorCode::InvalidParameter)
        } else if value == 7 {
            Some(ErrorCode::InvalidPacket)
        } else if value == 8 {
            Some(ErrorCode::ConnectionRefused)
        } else if value == 9 {
            Some(ErrorCode::OperationNotSupported)
        } else if value == 10 {
            Some(ErrorCode::GetaddrinfoError)
        } else if value == 11 {
            Some(ErrorCode::LibcError)
        } else if value == 12 {
            Some(ErrorCode::UnknownTty)
        } else if value == 13 {
            Some(ErrorCode::BadProtocolVersion)
        } else if value == 14 {
            Some(ErrorCode::UnexpectedEof)
        } else if value == 15 {
            Some(ErrorCode::EmptyKeyFile)
        } else if value == 16 {
            Some(ErrorCode::DriverPacketTooLarge)
        } else if value == 17 {
            Some(ErrorCode::AuthenticationFailed)
        } else if value == 18 {
            Some(ErrorCode::ReadOnlyParameter)
        } else {
            None
        }
    }

    pub fn code(self) -> (r: u32)
        ensures
            r == self.spec_code(),
    {
        match self {
            ErrorCode::Success => 0,
            ErrorCode::NotEnoughMemory => 1,
            ErrorCode::TtyBusy => 2,
            ErrorCode::DeviceBusy => 3,
            ErrorCode::UnknownInstruction => 4,
            ErrorCode::IllegalInstruction => 5,
            ErrorCode::InvalidParameter => 6,
            ErrorCode::InvalidPacket => 7,
            ErrorCode::ConnectionRefused => 8,
            ErrorCode::OperationNotSupported => 9,
            ErrorCode::GetaddrinfoError => 10,
            ErrorCode::LibcError => 11,
            ErrorCode::UnknownTty => 12,
            ErrorCode::BadProtocolVersion => 13,
            ErrorCode::UnexpectedEof => 14,
            ErrorCode::EmptyKeyFile => 15,
            ErrorCode::DriverPacketTooLarge => 16,
            ErrorCode::AuthenticationFailed => 17,
            ErrorCode::ReadOnlyParameter => 18,
        }
    }

    pub fn from_code(value: u32) -> (r: Option<ErrorCode>)
        ensures
            r == ErrorCode::spec_from_code(value),
    {
        if value == 0 {
            Some(ErrorCode::Success)
        } else if value == 1 {
            Some(ErrorCode::NotEnoughMemory)
        } else if value == 2 {
            Some(ErrorCode::TtyBusy)
        } else if value == 3 {
            Some(ErrorCode::DeviceBusy)
        } else if value == 4 {
            Some(ErrorCode::UnknownInstruction)
        } else if value == 5 {
            Some(ErrorCode::IllegalInstruction)
        } else if value == 6 {
            Some(ErrorCode::InvalidParameter)
        } else if value == 7 {
            Some(ErrorCode::InvalidPacket)
        } else if value == 8 {
            Some(ErrorCode::ConnectionRefused)
        } else if value == 9 {
            Some(ErrorCode::OperationNotSupported)
        } else if value == 10 {
            Some(ErrorCode::GetaddrinfoError)
        } else if value == 11 {
            Some(ErrorCode::LibcError)
        } else if value == 12 {
            Some(ErrorCode::UnknownTty)
        } else if value == 13 {
            Some(ErrorCode::BadProtocolVersion)
        } else if value == 14 {
            Some(ErrorCode::UnexpectedEof)
        } else if value == 15 {
            Some(ErrorCode::EmptyKeyFile)
        } else if value == 16 {
            Some(ErrorCode::DriverPacketTooLarge)
        } else if value == 17 {
            Some(ErrorCode::AuthenticationFailed)
        } else if value == 18 {
            Some(ErrorCode::ReadOnlyParameter)
        } else {
            None
        }
    }
}

/// Authentication methods, carried as four-byte magics.
#[derive(Clone, Copy, Debug, PartialEq, Eq, Structural)]
pub enum AuthType {
    NoAuth,
    Key,
    Credentials,
}

impl AuthType {
    pub open spec fn spec_magic(self) -> u32 {
        match self {
            AuthType::NoAuth => 0x4e,
            AuthType::Key => 0x4b,
            AuthType::Credentials => 0x43,
        }
    }

    pub open spec fn spec_from_magic(value: u32) -> Option<AuthType> {
        if value == 0x4e {
            Some(AuthType::NoAuth)
        } else if value == 0x4b {
            Some(AuthType::Key)
        } else if value == 0x43 {
            Some(AuthType::Credentials)
        } else {
            None
        }
    }

    pub fn magic(self) -> (r: u32)
        ensures
            r == self.spec_magic(),
    {
        match self {
            AuthType::NoAuth => 0x4e,
            AuthType::Key => 0x4b,
            AuthType::Credentials => 0x43,
        }
    }

    pub fn from_magic(value: u32) -> (r: Option<AuthType>)
        ensures
            r == AuthType::spec_from_magic(value),
    {
        if value == 0x4e {
            Some(AuthType::NoAuth)
        } else if value == 0x4b {
            Some(AuthType::Key)
        } else if value == 0x43 {
            Some(AuthType::Credentials)
        } else {
            None
        }
    }
}

/// The closed set of packet types, each a four-byte magic.
#[derive(Clone, Copy, Debug, PartialEq, Eq, Structural)]
pub enum PacketType {
    Ack,
    Error,
    Exception,
    Key,
    Write,
    Packet,
    Version,
    Auth,
    GetDriverName,
    GetModelId,
    GetDisplaySize,
    EnterTtyMode,
    SetFocus,
    LeaveTtyMode,
    IgnoreKeyRanges,
    AcceptKeyRanges,
    EnterRawMode,
    LeaveRawMode,
    SuspendDriver,
    ResumeDriver,
    Synchronize,
    ParameterRequest,
    ParameterValue,
    ParameterUpdate,
}

impl PacketType {
    pub open spec fn spec_magic(self) -> u32 {
        match self {
            PacketType::Ack => 0x41,
            PacketType::Error => 0x65,
            PacketType::Exception => 0x45,
            PacketType::Key => 0x6b,
            PacketType::Write => 0x77,
            PacketType::Packet => 0x70,
            PacketType::Version => 0x76,
            PacketType::Auth => 0x61,
            PacketType::GetDriverName => 0x6e,
            PacketType::GetModelId => 0x64,
            PacketType::GetDisplaySize => 0x73,
            PacketType::EnterTtyMode => 0x74,
            PacketType::SetFocus => 0x46,
            PacketType::LeaveTtyMode => 0x4c,
            PacketType::IgnoreKeyRanges => 0x6d,
            PacketType::AcceptKeyRanges => 0x75,
            PacketType::EnterRawMode => 0x2a,
            PacketType::LeaveRawMode => 0x23,
            PacketType::SuspendDriver => 0x53,
            PacketType::ResumeDriver => 0x52,
            PacketType::Synchronize => 0x5a,
            PacketType::ParameterRequest => 0x5052,
            PacketType::ParameterValue => 0x5056,
            PacketType::ParameterUpdate => 0x5055,
        }
    }

    pub open spec fn spec_from_magic(value: u32) -> Option<PacketType> {
        if value == 0x41 {
            Some(PacketType::Ack)
        } else if value == 0x65 {
            Some(PacketType::Error)
        } else if value == 0x45 {
            Some(PacketType::Exception)
        } else if value == 0x6b {
            Some(PacketType::Key)
        } else if value == 0x77 {
            Some(PacketType::Write)
        } else if value == 0x70 {
            Some(PacketType::Packet)
        } else if value == 0x76 {
            Some(PacketType::Version)
        } else if value == 0x61 {
            Some(PacketType::Auth)
        } else if value == 0x6e {
            Some(PacketType::GetDriverName)
        } else if value == 0x64 {
            Some(PacketType::GetModelId)
        } else if value == 0x73 {
            Some(PacketType::GetDisplaySize)
        } else if value == 0x74 {
            Some(PacketType::EnterTtyMode)
        } else if value == 0x46 {
            Some(PacketType::SetFocus)
        } else if value == 0x4c {
            Some(PacketType::LeaveTtyMode)
        } else if value == 0x6d {
            Some(PacketType::IgnoreKeyRanges)
        } else if value == 0x75 {
            Some(PacketType::AcceptKeyRanges)
        } else if value == 0x2a {
            Some(PacketType::EnterRawMode)
        } else if value == 0x23 {
            Some(PacketType::LeaveRawMode)
        } else if value == 0x53 {
            Some(PacketType::SuspendDriver)
        } else if value == 0x52 {
            Some(PacketType::ResumeDriver)
        } else if value == 0x5a {
            Some(PacketType::Synchronize)
        } else if value == 0x5052 {
            Some(PacketType::ParameterRequest)
        } else if value == 0x5056 {
            Some(PacketType::ParameterValue)
        } else if value == 0x5055 {
            Some(PacketType::ParameterUpdate)
        } else {
            None
        }
    }

    pub fn magic(self) -> (r: u32)
        ensures
            r == self.spec_magic(),
    {
        match self {
            PacketType::Ack => 0x41,
            PacketType::Error => 0x65,
            PacketType::Exception => 0x45,
            PacketType::Key => 0x6b,
            PacketType::Write => 0x77,
            PacketType::Packet => 0x70,
            PacketType::Version => 0x76,
            PacketType::Auth => 0x61,
            PacketType::GetDriverName => 0x6e,
            PacketType::GetModelId => 0x64,
            PacketType::GetDisplaySize => 0x73,
            PacketType::EnterTtyMode => 0x74,
            PacketType::SetFocus => 0x46,
            PacketType::LeaveTtyMode => 0x4c,
            PacketType::IgnoreKeyRanges => 0x6d,
            PacketType::AcceptKeyRanges => 0x75,
            PacketType::EnterRawMode => 0x2a,
            PacketType::LeaveRawMode => 0x23,
            PacketType::SuspendDriver => 0x53,
            PacketType::ResumeDriver => 0x52,
            PacketType::Synchronize => 0x5a,
            PacketType::ParameterRequest => 0x5052,
            PacketType::ParameterValue => 0x5056,
            PacketType::ParameterUpdate => 0x5055,
        }
    }

    pub fn from_magic(value: u32) -> (r: Option<PacketType>)
        ensures
            r == PacketType::spec_from_magic(value),
    {
        if value == 0x41 {
            Some(PacketType::Ack)
        } else if value == 0x65 {
            Some(PacketType::Error)
        } else if value == 0x45 {
            Some(PacketType::Exception)
        } else if value == 0x6b {
            Some(PacketType::Key)
        } else if value == 0x77 {
            Some(PacketType::Write)
        } else if value == 0x70 {
            Some(PacketType::Packet)
        } else if value == 0x76 {
            Some(PacketType::Version)
        } else if value == 0x61 {
            Some(PacketType::Auth)
        } else if value == 0x6e {
            Some(PacketType::GetDriverName)
        } else if value == 0x64 {
            Some(PacketType::GetModelId)
        } else if value == 0x73 {
            Some(PacketType::GetDisplaySize)
        } else if value == 0x74 {
            Some(PacketType::EnterTtyMode)
        } else if value == 0x46 {
            Some(PacketType::SetFocus)
        } else if value == 0x4c {
            Some(PacketType::LeaveTtyMode)
        } else if value == 0x6d {
            Some(PacketType::IgnoreKeyRanges)
        } else if value == 0x75 {
            Some(PacketType::AcceptKeyRanges)
        } else if value == 0x2a {
            Some(PacketType::EnterRawMode)
        } else if value == 0x23 {
            Some(PacketType::LeaveRawMode)
        } else if value == 0x53 {
            Some(PacketType::SuspendDriver)
        } else if value == 0x52 {
            Some(PacketType::ResumeDriver)
        } else if value == 0x5a {
            Some(PacketType::Synchronize)
        } else if value == 0x5052 {
            Some(PacketType::ParameterRequest)
        } else if value == 0x5056 {
            Some(PacketType::ParameterValue)
        } else if value == 0x5055 {
            Some(PacketType::ParameterUpdate)
        } else {
            None
        }
    }
}

// Flag words.  Parsing keeps only the defined bits of each word; encoding
// emits the stored bits.

pub const WRITE_FLAG_DISPLAY_NUMBER: u32 = 1;

pub const WRITE_FLAG_REGION: u32 = 2;

pub const WRITE_FLAG_TEXT: u32 = 4;

pub const WRITE_FLAG_AND: u32 = 8;

pub const WRITE_FLAG_OR: u32 = 16;

pub const WRITE_FLAG_CURSOR: u32 = 32;

pub const WRITE_FLAG_CHARSET: u32 = 64;

/// All defined `Write` flag bits.
pub const WRITE_FLAGS_MASK: u32 = 0x7f;

/// The flag word of a `Write` packet; each defined bit announces one
/// optional payload field.
#[derive(Clone, Copy, Debug, PartialEq, Eq, Structural)]
pub struct WriteFlags {
    pub bits: u32,
}

impl WriteFlags {
    pub open spec fn wf(self) -> bool {
        self.bits & WRITE_FLAGS_MASK == self.bits
    }

    /// Keeps the defined flag bits of `value` and discards the rest.
    pub fn from_u32(value: u32) -> (r: Self)
        ensures
            r.bits == value & WRITE_FLAGS_MASK,
            r.wf(),
    {
        proof {
            assert((value & 0x7f) & 0x7f == value & 0x7f) by (bit_vector);
        }
        WriteFlags { bits: value & WRITE_FLAGS_MASK }
    }

    pub fn into_u32(self) -> (r: u32)
        ensures
            r == self.bits,
    {
        self.bits
    }
}

pub const PARAMETER_REQUEST_FLAG_GLOBAL: u32 = 1;

pub const PARAMETER_REQUEST_FLAG_INCLUDE_SELF: u32 = 2;

pub const PARAMETER_REQUEST_FLAG_GET: u32 = 0x100;

pub const PARAMETER_REQUEST_FLAG_SUBSCRIBE: u32 = 0x200;

pub const PARAMETER_REQUEST_FLAG_UNSUBSCRIBE: u32 = 0x400;

/// All defined parameter-request flag bits.
pub const PARAMETER_REQUEST_FLAGS_MASK: u32 = 0x703;

/// The flag word of a `ParameterRequest` packet.
#[derive(Clone, Copy, Debug, PartialEq, Eq, Structural)]
pub struct ParameterRequestFlags {
    pub bits: u32,
}

impl ParameterRequestFlags {
    pub open spec fn wf(self) -> bool {
        self.bits & PARAMETER_REQUEST_FLAGS_MASK == self.bits
    }

    /// Keeps the defined flag bits of `value` and discards the rest.
    pub fn from_u32(value: u32) -> (r: Self)
        ensures
            r.bits == value & PARAMETER_REQUEST_FLAGS_MASK,
            r.wf(),
    {
        proof {
            assert((value & 0x703) & 0x703 == value & 0x703) by (bit_vector);
        }
        ParameterRequestFlags { bits: value & PARAMETER_REQUEST_FLAGS_MASK }
    }

    pub fn into_u32(self) -> (r: u32)
        ensures
            r == self.bits,
    {
        self.bits
    }
}

/// All defined parameter-value flag bits.
pub const PARAMETER_VALUE_FLAGS_MASK: u32 = 1;

/// The flag word of a `ParameterValue` or `ParameterUpdate` packet.
#[derive(Clone, Copy, Debug, PartialEq, Eq, Structural)]
pub struct ParameterValueFlags {
    pub bits: u32,
}

impl ParameterValueFlags {
    pub open spec fn wf(self) -> bool {
        self.bits & PARAMETER_VALUE_FLAGS_MASK == self.bits
    }

    /// Keeps the defined flag bit of `value` and discards the rest.
    pub fn from_u32(value: u32) -> (r: Self)
        ensures
            r.bits == value & PARAMETER_VALUE_FLAGS_MASK,
            r.wf(),
    {
        proof {
            assert((value & 1) & 1 == value & 1) by (bit_vector);
        }
        ParameterValueFlags { bits: value & PARAMETER_VALUE_FLAGS_MASK }
    }

    pub fn into_u32(self) -> (r: u32)
        ensures
            r == self.bits,
    {
        self.bits
    }
}

/// The flag word that an encoded `Write` payload carries, computed from
/// which optional fields are present.
pub open spec fn spec_write_flags_word(
    display_number: bool,
    region: bool,
    text: bool,
    and: bool,
    or: bool,
    cursor: bool,
    charset: bool,
) -> u32 {
    (if display_number {
        WRITE_FLAG_DISPLAY_NUMBER
    } else {
        0
    }) | (if region {
        WRITE_FLAG_REGION
    } else {
        0
    }) | (if text {
        WRITE_FLAG_TEXT
    } else {
        0
    }) | (if and {
        WRITE_FLAG_AND
    } else {
        0
    }) | (if or {
        WRITE_FLAG_OR
    } else {
        0
    }) | (if cursor {
        WRITE_FLAG_CURSOR
    } else {
        0
    }) | (if charset {
        WRITE_FLAG_CHARSET
    } else {
        0
    })
}

/// The flag word a `Write` packet encodes to, given which optional fields
/// are present.
pub fn calculate_write_flags(
    display_number: &Option<u32>,
    region: &Option<(u32, u32)>,
    text: &Option<Vec<u8>>,
    and: &Option<Vec<u8>>,
    or: &Option<Vec<u8>>,
    cursor: &Option<u32>,
    charset: &Option<Vec<u8>>,
) -> (r: WriteFlags)
    ensures
        r.bits == spec_write_flags_word(
            display_number is Some,
            region is Some,
            text is Some,
            and is Some,
            or is Some,
            cursor is Some,
            charset is Some,
        ),
{
    let bits: u32 = (if display_number.is_some() {
        WRITE_FLAG_DISPLAY_NUMBER
    } else {
        0
    }) | (if region.is_some() {
        WRITE_FLAG_REGION
    } else {
        0
    }) | (if text.is_some() {
        WRITE_FLAG_TEXT
    } else {
        0
    }) | (if and.is_some() {
        WRITE_FLAG_AND
    } else {
        0
    }) | (if or.is_some() {
        WRITE_FLAG_OR
    } else {
        0
    }) | (if cursor.is_some() {
        WRITE_FLAG_CURSOR
    } else {
        0
    }) | (if charset.is_some() {
        WRITE_FLAG_CHARSET
    } else {
        0
    });
    WriteFlags { bits }
}

// The packets a client sends.

/// Payload of a packet received from a client, discriminated by the packet
/// type.
#[derive(Clone, Debug, PartialEq, Eq)]
pub enum ClientPacketData {
    Write {
        display_number: Option<u32>,
        region: Option<(u32, u32)>,
        text: Option<Vec<u8>>,
        and: Option<Vec<u8>>,
        or: Option<Vec<u8>>,
        cursor: Option<u32>,
        charset: Option<Vec<u8>>,
    },
    Packet { packet: Vec<u8> },
    Version { version: u32 },
    Auth { auth_type: AuthType, key: Vec<u8> },
    GetDriverName,
    GetModelId,
    GetDisplaySize,
    EnterTtyMode { ttys: Vec<u32>, driver: Vec<u8> },
    SetFocus { tty: u32 },
    LeaveTtyMode,
    IgnoreKeyRanges { ranges: Vec<(u64, u64)> },
    AcceptKeyRanges { ranges: Vec<(u64, u64)> },
    EnterRawMode { driver: Vec<u8> },
    LeaveRawMode,
    SuspendDriver { driver: Vec<u8> },
    ResumeDriver,
    Synchronize,
    ParameterRequest { flags: ParameterRequestFlags, parameter: u32, sub_parameter: u64 },
    ParameterValue {
        flags: ParameterValueFlags,
        parameter: u32,
        sub_parameter: u64,
        value: Vec<u8>,
    },
}

/// Mathematical model of `ClientPacketData`, with byte vectors as
/// sequences.
pub enum ClientPacketDataView {
    Write {
        display_number: Option<u32>,
        region: Option<(u32, u32)>,
        text: Option<Seq<u8>>,
        and: Option<Seq<u8>>,
        or: Option<Seq<u8>>,
        cursor: Option<u32>,
        charset: Option<Seq<u8>>,
    },
    Packet { packet: Seq<u8> },
    Version { version: u32 },
    Auth { auth_type: AuthType, key: Seq<u8> },
    GetDriverName,
    GetModelId,
    GetDisplaySize,
    EnterTtyMode { ttys: Seq<u32>, driver: Seq<u8> },
    SetFocus { tty: u32 },
    LeaveTtyMode,
    IgnoreKeyRanges { ranges: Seq<(u64, u64)> },
    AcceptKeyRanges { ranges: Seq<(u64, u64)> },
    EnterRawMode { driver: Seq<u8> },
    LeaveRawMode,
    SuspendDriver { driver: Seq<u8> },
    ResumeDriver,
    Synchronize,
    ParameterRequest { flags: ParameterRequestFlags, parameter: u32, sub_parameter: u64 },
    ParameterValue {
        flags: ParameterValueFlags,
        parameter: u32,
        sub_parameter: u64,
        value: Seq<u8>,
    },
}

pub open spec fn view_opt_bytes(o: &Option<Vec<u8>>) -> Option<Seq<u8>> {
    match o {
        Option::None => None,
        Option::Some(v) => Some(v@),
    }
}

impl View for ClientPacketData {
    type V = ClientPacketDataView;

    open spec fn view(&self) -> ClientPacketDataView {
        match self {
            ClientPacketData::Write { display_number, region, text, and, or, cursor, charset } => {
                ClientPacketDataView::Write {
                    display_number: *display_number,
                    region: *region,
                    text: view_opt_bytes(text),
                    and: view_opt_bytes(and),
                    or: view_opt_bytes(or),
                    cursor: *cursor,
                    charset: view_opt_bytes(charset),
                }
            },
            ClientPacketData::Packet { packet } => ClientPacketDataView::Packet { packet: packet@ },
            ClientPacketData::Version { version } => ClientPacketDataView::Version {
                version: *version,
            },
            ClientPacketData::Auth { auth_type, key } => ClientPacketDataView::Auth {
                auth_type: *auth_type,
                key: key@,
            },
            ClientPacketData::GetDriverName => ClientPacketDataView::GetDriverName,
            ClientPacketData::GetModelId => ClientPacketDataView::GetModelId,
            ClientPacketData::GetDisplaySize => ClientPacketDataView::GetDisplaySize,
            ClientPacketData::EnterTtyMode { ttys, driver } => ClientPacketDataView::EnterTtyMode {
                ttys: ttys@,
                driver: driver@,
            },
            ClientPacketData::SetFocus { tty } => ClientPacketDataView::SetFocus { tty: *tty },
            ClientPacketData::LeaveTtyMode => ClientPacketDataView::LeaveTtyMode,
            ClientPacketData::IgnoreKeyRanges { ranges } => ClientPacketDataView::IgnoreKeyRanges {
                ranges: ranges@,
            },
            ClientPacketData::AcceptKeyRanges { ranges } => ClientPacketDataView::AcceptKeyRanges {
                ranges: ranges@,
            },
            ClientPacketData::EnterRawMode { driver } => ClientPacketDataView::EnterRawMode {
                driver: driver@,
            },
            ClientPacketData::LeaveRawMode => ClientPacketDataView::LeaveRawMode,
            ClientPacketData::SuspendDriver { driver } => ClientPacketDataView::SuspendDriver {
                driver: driver@,
            },
            ClientPacketData::ResumeDriver => ClientPacketDataView::ResumeDriver,
            ClientPacketData::Synchronize => ClientPacketDataView::Synchronize,
            ClientPacketData::ParameterRequest { flags, parameter, sub_parameter } => {
                ClientPacketDataView::ParameterRequest {
                    flags: *flags,
                    parameter: *parameter,
                    sub_parameter: *sub_parameter,
                }
            },
            ClientPacketData::ParameterValue { flags, parameter, sub_parameter, value } => {
                ClientPacketDataView::ParameterValue {
                    flags: *flags,
                    parameter: *parameter,
                    sub_parameter: *sub_parameter,
                    value: value@,
                }
            },
        }
    }
}

// The packets the server sends.

/// Payload of a packet sent by the server, discriminated by the packet
/// type.
#[derive(Clone, Debug, PartialEq, Eq)]
pub enum ServerPacketData {
    Ack,
    Error { code: ErrorCode, packet_type: PacketType, packet_data: Vec<u8> },
    Exception { packet: Vec<u8> },
    Key { key: Keycode },
    Packet { packet: Vec<u8> },
    Version { version: u32 },
    Auth { auth_types: Vec<AuthType> },
    GetDriverName { driver: Vec<u8> },
    GetModelId { model: Vec<u8> },
    GetDisplaySize { width: u32, height: u32 },
    ParameterValue {
        flags: ParameterValueFlags,
        parameter: u32,
        sub_parameter: u64,
        value: Vec<u8>,
    },
    ParameterUpdate {
        flags: ParameterValueFlags,
        parameter: u32,
        sub_parameter: u64,
        value: Vec<u8>,
    },
}

/// Mathematical model of `ServerPacketData`.
pub enum ServerPacketDataView {
    Ack,
    Error { code: ErrorCode, packet_type: PacketType, packet_data: Seq<u8> },
    Exception { packet: Seq<u8> },
    Key { key: Keycode },
    Packet { packet: Seq<u8> },
    Version { version: u32 },
    Auth { auth_types: Seq<AuthType> },
    GetDriverName { driver: Seq<u8> },
    GetModelId { model: Seq<u8> },
    GetDisplaySize { width: u32, height: u32 },
    ParameterValue {
        flags: ParameterValueFlags,
        parameter: u32,
        sub_parameter: u64,
        value: Seq<u8>,
    },
    ParameterUpdate {
        flags: ParameterValueFlags,
        parameter: u32,
        sub_parameter: u64,
        value: Seq<u8>,
    },
}

impl View for ServerPacketData {
    type V = ServerPacketDataView;

    open spec fn view(&self) -> ServerPacketDataView {
        match self {
            ServerPacketData::Ack => ServerPacketDataView::Ack,
            ServerPacketData::Error { code, packet_type, packet_data } => {
                ServerPacketDataView::Error {
                    code: *code,
                    packet_type: *packet_type,
                    packet_data: packet_data@,
                }
            },
            ServerPacketData::Exception { packet } => ServerPacketDataView::Exception {
                packet: packet@,
            },
            ServerPacketData::Key { key } => ServerPacketDataView::Key { key: *key },
            ServerPacketData::Packet { packet } => ServerPacketDataView::Packet { packet: packet@ },
            ServerPacketData::Version { version } => ServerPacketDataView::Version {
                version: *version,
            },
            ServerPacketData::Auth { auth_types } => ServerPacketDataView::Auth {
                auth_types: auth_types@,
            },
            ServerPacketData::GetDriverName { driver } => ServerPacketDataView::GetDriverName {
                driver: driver@,
            },
            ServerPacketData::GetModelId { model } => ServerPacketDataView::GetModelId {
                model: model@,
            },
            ServerPacketData::GetDisplaySize { width, height } => {
                ServerPacketDataView::GetDisplaySize { width: *width, height: *height }
            },
            ServerPacketData::ParameterValue { flags, parameter, sub_parameter, value } => {
                ServerPacketDataView::ParameterValue {
                    flags: *flags,
                    parameter: *parameter,
                    sub_parameter: *sub_parameter,
                    value: value@,
                }
            },
            ServerPacketData::ParameterUpdate { flags, parameter, sub_parameter, value } => {
                ServerPacketDataView::ParameterUpdate {
                    flags: *flags,
                    parameter: *parameter,
                    sub_parameter: *sub_parameter,
                    value: value@,
                }
            },
        }
    }
}

/// A framed packet received from a client.
#[derive(Clone, Debug, PartialEq, Eq)]
pub struct ClientPacket {
    pub ty: PacketType,
    pub data: ClientPacketData,
}

pub struct ClientPacketView {
    pub ty: PacketType,
    pub data: ClientPacketDataView,
}

impl View for ClientPacket {
    type V = ClientPacketView;

    open spec fn view(&self) -> ClientPacketView {
        ClientPacketView { ty: self.ty, data: self.data@ }
    }
}

/// A framed packet sent by the server.
#[derive(Clone, Debug, PartialEq, Eq)]
pub struct ServerPacket {
    pub ty: PacketType,
    pub data: ServerPacketData,
}

pub struct ServerPacketView {
    pub ty: PacketType,
    pub data: ServerPacketDataView,
}

impl View for ServerPacket {
    type V = ServerPacketView;

    open spec fn view(&self) -> ServerPacketView {
        ServerPacketView { ty: self.ty, data: self.data@ }
    }
}

// Spec-level encodings.  `spec_size` is the payload length a variant
// declares and encodes to; `enc_payload` is the payload byte string; a
// frame is the size, the magic and the payload.

pub open spec fn enc_opt_u32(o: Option<u32>) -> Seq<u8> {
    match o {
        Option::Some(x) => u32_be(x),
        Option::None => Seq::empty(),
    }
}

pub open spec fn enc_opt_region(o: Option<(u32, u32)>) -> Seq<u8> {
    match o {
        Option::Some(r) => u32_be(r.0) + u32_be(r.1),
        Option::None => Seq::empty(),
    }
}

pub open spec fn enc_opt_len_bytes(o: Option<Seq<u8>>) -> Seq<u8> {
    match o {
        Option::Some(b) => u32_be(b.len() as u32) + b,
        Option::None => Seq::empty(),
    }
}

pub open spec fn enc_opt_bytes(o: Option<Seq<u8>>) -> Seq<u8> {
    match o {
        Option::Some(b) => b,
        Option::None => Seq::empty(),
    }
}

/// Item encoder of a `u32` list on the wire.
pub open spec fn u32_item_fn() -> spec_fn(u32) -> Seq<u8> {
    |x: u32| u32_be(x)
}

/// Item encoder of a key-range list on the wire.
pub open spec fn range_item_fn() -> spec_fn((u64, u64)) -> Seq<u8> {
    |r: (u64, u64)| u64_be(r.0) + u64_be(r.1)
}

/// Item encoder of an authentication-type list on the wire.
pub open spec fn auth_item_fn() -> spec_fn(AuthType) -> Seq<u8> {
    |a: AuthType| u32_be(a.spec_magic())
}

impl ClientPacketDataView {
    /// The packet type this payload belongs under.
    pub open spec fn spec_ty(self) -> PacketType {
        match self {
            ClientPacketDataView::Write { .. } => PacketType::Write,
            ClientPacketDataView::Packet { .. } => PacketType::Packet,
            ClientPacketDataView::Version { .. } => PacketType::Version,
            ClientPacketDataView::Auth { .. } => PacketType::Auth,
            ClientPacketDataView::GetDriverName => PacketType::GetDriverName,
            ClientPacketDataView::GetModelId => PacketType::GetModelId,
            ClientPacketDataView::GetDisplaySize => PacketType::GetDisplaySize,
            ClientPacketDataView::EnterTtyMode { .. } => PacketType::EnterTtyMode,
            ClientPacketDataView::SetFocus { .. } => PacketType::SetFocus,
            ClientPacketDataView::LeaveTtyMode => PacketType::LeaveTtyMode,
            ClientPacketDataView::IgnoreKeyRanges { .. } => PacketType::IgnoreKeyRanges,
            ClientPacketDataView::AcceptKeyRanges { .. } => PacketType::AcceptKeyRanges,
            ClientPacketDataView::EnterRawMode { .. } => PacketType::EnterRawMode,
            ClientPacketDataView::LeaveRawMode => PacketType::LeaveRawMode,
            ClientPacketDataView::SuspendDriver { .. } => PacketType::SuspendDriver,
            ClientPacketDataView::ResumeDriver => PacketType::ResumeDriver,
            ClientPacketDataView::Synchronize => PacketType::Synchronize,
            ClientPacketDataView::ParameterRequest { .. } => PacketType::ParameterRequest,
            ClientPacketDataView::ParameterValue { .. } => PacketType::ParameterValue,
        }
    }

    /// The payload length this variant encodes to and declares in its
    /// frame.
    pub open spec fn spec_size(self) -> int {
        match self {
            ClientPacketDataView::Write {
                display_number,
                region,
                text,
                and,
                or,
                cursor,
                charset,
            } => 4 + (if display_number is Some {
                4int
            } else {
                0int
            }) + (if region is Some {
                8int
            } else {
                0int
            }) + (match text {
                Option::Some(t) => 4 + t.len() as int,
                Option::None => 0int,
            }) + (match and {
                Option::Some(a) => a.len() as int,
                Option::None => 0int,
            }) + (match or {
                Option::Some(o) => o.len() as int,
                Option::None => 0int,
            }) + (if cursor is Some {
                4int
            } else {
                0int
            }) + (match charset {
                Option::Some(c) => 4 + c.len() as int,
                Option::None => 0int,
            }),
            ClientPacketDataView::Packet { packet } => packet.len() as int,
            ClientPacketDataView::Version { .. } => 4,
            ClientPacketDataView::Auth { key, .. } => 5 + key.len() as int,
            ClientPacketDataView::GetDriverName => 0,
            ClientPacketDataView::GetModelId => 0,
            ClientPacketDataView::GetDisplaySize => 0,
            ClientPacketDataView::EnterTtyMode { ttys, driver } => 8 + 4 * ttys.len() as int
                + driver.len() as int,
            ClientPacketDataView::SetFocus { .. } => 4,
            ClientPacketDataView::LeaveTtyMode => 0,
            ClientPacketDataView::IgnoreKeyRanges { ranges } => 16 * ranges.len() as int,
            ClientPacketDataView::AcceptKeyRanges { ranges } => 16 * ranges.len() as int,
            ClientPacketDataView::EnterRawMode { driver } => 9 + driver.len() as int,
            ClientPacketDataView::LeaveRawMode => 0,
            ClientPacketDataView::SuspendDriver { driver } => 9 + driver.len() as int,
            ClientPacketDataView::ResumeDriver => 0,
            ClientPacketDataView::Synchronize => 0,
            ClientPacketDataView::ParameterRequest { .. } => 16,
            ClientPacketDataView::ParameterValue { value, .. } => 16 + value.len() as int,
        }
    }

    /// The structural conditions a payload meets exactly when it can be
    /// framed: masked fields sized by the region, a `Key` authentication
    /// with a NUL-free key, raw-mode driver names of at most one length
    /// byte, flag words restricted to their defined bits, and a total
    /// size that fits the 32-bit size field.
    pub open spec fn wf(self) -> bool {
        &&& match self {
            ClientPacketDataView::Write { region, and, or, .. } => {
                &&& (and is Some ==> region is Some && and->0.len() == (region->0).1 as int)
                &&& (or is Some ==> region is Some && or->0.len() == (region->0).1 as int)
            },
            ClientPacketDataView::Auth { auth_type, key } => auth_type == AuthType::Key
                && !key.contains(0),
            ClientPacketDataView::EnterRawMode { driver } => driver.len() <= 255,
            ClientPacketDataView::SuspendDriver { driver } => driver.len() <= 255,
            ClientPacketDataView::ParameterRequest { flags, .. } => flags.wf(),
            ClientPacketDataView::ParameterValue { flags, .. } => flags.wf(),
            _ => true,
        }
        &&& self.spec_size() <= 0xffff_ffff
    }

    /// The payload bytes this variant encodes to.
    pub open spec fn enc_payload(self) -> Seq<u8> {
        match self {
            ClientPacketDataView::Write {
                display_number,
                region,
                text,
                and,
                or,
                cursor,
                charset,
            } => u32_be(
                spec_write_flags_word(
                    display_number is Some,
                    region is Some,
                    text is Some,
                    and is Some,
                    or is Some,
                    cursor is Some,
                    charset is Some,
                ),
            ) + enc_opt_u32(display_number) + enc_opt_region(region) + enc_opt_len_bytes(text)
                + enc_opt_bytes(and) + enc_opt_bytes(or) + enc_opt_u32(cursor) + enc_opt_len_bytes(
                charset,
            ),
            ClientPacketDataView::Packet { packet } => packet,
            ClientPacketDataView::Version { version } => u32_be(version),
            ClientPacketDataView::Auth { auth_type, key } => u32_be(auth_type.spec_magic()) + key
                + seq![0u8],
            ClientPacketDataView::GetDriverName => Seq::empty(),
            ClientPacketDataView::GetModelId => Seq::empty(),
            ClientPacketDataView::GetDisplaySize => Seq::empty(),
            ClientPacketDataView::EnterTtyMode { ttys, driver } => u32_be(ttys.len() as u32)
                + enc_list(ttys, u32_item_fn()) + u32_be(driver.len() as u32) + driver,
            ClientPacketDataView::SetFocus { tty } => u32_be(tty),
            ClientPacketDataView::LeaveTtyMode => Seq::empty(),
            ClientPacketDataView::IgnoreKeyRanges { ranges } => enc_list(ranges, range_item_fn()),
            ClientPacketDataView::AcceptKeyRanges { ranges } => enc_list(ranges, range_item_fn()),
            ClientPacketDataView::EnterRawMode { driver } => u64_be(RAW_MODE_MAGIC) + seq![
                driver.len() as u8,
            ] + driver,
            ClientPacketDataView::LeaveRawMode => Seq::empty(),
            ClientPacketDataView::SuspendDriver { driver } => u64_be(RAW_MODE_MAGIC) + seq![
                driver.len() as u8,
            ] + driver,
            ClientPacketDataView::ResumeDriver => Seq::empty(),
            ClientPacketDataView::Synchronize => Seq::empty(),
            ClientPacketDataView::ParameterRequest { flags, parameter, sub_parameter } => u32_be(
                flags.bits,
            ) + u32_be(parameter) + u64_be(sub_parameter),
            ClientPacketDataView::ParameterValue { flags, parameter, sub_parameter, value } => {
                u32_be(flags.bits) + u32_be(parameter) + u64_be(sub_parameter) + value
            },
        }
    }
}

impl ServerPacketDataView {
    /// The packet type this payload belongs under.
    pub open spec fn spec_ty(self) -> PacketType {
        match self {
            ServerPacketDataView::Ack => PacketType::Ack,
            ServerPacketDataView::Error { .. } => PacketType::Error,
            ServerPacketDataView::Exception { .. } => PacketType::Exception,
            ServerPacketDataView::Key { .. } => PacketType::Key,
            ServerPacketDataView::Packet { .. } => PacketType::Packet,
            ServerPacketDataView::Version { .. } => PacketType::Version,
            ServerPacketDataView::Auth { .. } => PacketType::Auth,
            ServerPacketDataView::GetDriverName { .. } => PacketType::GetDriverName,
            ServerPacketDataView::GetModelId { .. } => PacketType::GetModelId,
            ServerPacketDataView::GetDisplaySize { .. } => PacketType::GetDisplaySize,
            ServerPacketDataView::ParameterValue { .. } => PacketType::ParameterValue,
            ServerPacketDataView::ParameterUpdate { .. } => PacketType::ParameterUpdate,
        }
    }

    /// The payload length this variant encodes to and declares in its
    /// frame.
    pub open spec fn spec_size(self) -> int {
        match self {
            ServerPacketDataView::Ack => 0,
            ServerPacketDataView::Error { packet_data, .. } => 8 + packet_data.len() as int,
            ServerPacketDataView::Exception { packet } => packet.len() as int,
            ServerPacketDataView::Key { .. } => 8,
            ServerPacketDataView::Packet { packet } => packet.len() as int,
            ServerPacketDataView::Version { .. } => 4,
            ServerPacketDataView::Auth { auth_types } => 4 * auth_types.len() as int,
            ServerPacketDataView::GetDriverName { driver } => driver.len() as int + 1,
            ServerPacketDataView::GetModelId { model } => model.len() as int + 1,
            ServerPacketDataView::GetDisplaySize { .. } => 8,
            ServerPacketDataView::ParameterValue { value, .. } => 16 + value.len() as int,
            ServerPacketDataView::ParameterUpdate { value, .. } => 16 + value.len() as int,
        }
    }

    /// The structural conditions a server payload meets exactly when it
    /// can be framed: NUL-free driver and model strings, a well-formed
    /// keycode, flag words restricted to their defined bits, and a total
    /// size that fits the 32-bit size field.
    pub open spec fn wf(self) -> bool {
        &&& match self {
            ServerPacketDataView::Key { key } => key.wf(),
            ServerPacketDataView::GetDriverName { driver } => !driver.contains(0),
            ServerPacketDataView::GetModelId { model } => !model.contains(0),
            ServerPacketDataView::ParameterValue { flags, .. } => flags.wf(),
            ServerPacketDataView::ParameterUpdate { flags, .. } => flags.wf(),
            _ => true,
        }
        &&& self.spec_size() <= 0xffff_ffff
    }

    /// The payload bytes this variant encodes to.
    pub open spec fn enc_payload(self) -> Seq<u8> {
        match self {
            ServerPacketDataView::Ack => Seq::empty(),
            ServerPacketDataView::Error { code, packet_type, packet_data } => u32_be(
                code.spec_code(),
            ) + u32_be(packet_type.spec_magic()) + packet_data,
            ServerPacketDataView::Exception { packet } => packet,
            ServerPacketDataView::Key { key } => u64_be(key.spec_pack()),
            ServerPacketDataView::Packet { packet } => packet,
            ServerPacketDataView::Version { version } => u32_be(version),
            ServerPacketDataView::Auth { auth_types } => enc_list(auth_types, auth_item_fn()),
            ServerPacketDataView::GetDriverName { driver } => driver + seq![0u8],
            ServerPacketDataView::GetModelId { model } => model + seq![0u8],
            ServerPacketDataView::GetDisplaySize { width, height } => u32_be(width) + u32_be(
                height,
            ),
            ServerPacketDataView::ParameterValue { flags, parameter, sub_parameter, value } => {
                u32_be(flags.bits) + u32_be(parameter) + u64_be(sub_parameter) + value
            },
            ServerPacketDataView::ParameterUpdate { flags, parameter, sub_parameter, value } => {
                u32_be(flags.bits) + u32_be(parameter) + u64_be(sub_parameter) + value
            },
        }
    }
}

impl ClientPacketView {
    pub open spec fn wf(self) -> bool {
        self.data.wf() && self.ty == self.data.spec_ty()
    }

    /// The full frame: declared size, type magic, payload.
    pub open spec fn enc(self) -> Seq<u8> {
        u32_be(self.data.spec_size() as u32) + u32_be(self.ty.spec_magic())
            + self.data.enc_payload()
    }
}

impl ServerPacketView {
    pub open spec fn wf(self) -> bool {
        self.data.wf() && self.ty == self.data.spec_ty()
    }

    /// The full frame: declared size, type magic, payload.
    pub open spec fn enc(self) -> Seq<u8> {
        u32_be(self.data.spec_size() as u32) + u32_be(self.ty.spec_magic())
            + self.data.enc_payload()
    }
}

/// The payload of every variant encodes to exactly the length that
/// `spec_size` declares.
pub proof fn lemma_client_payload_len(d: ClientPacketDataView)
    ensures
        d.enc_payload().len() == d.spec_size(),
{
    match d {
        ClientPacketDataView::EnterTtyMode { ttys, .. } => {
            assert(forall|x: u32| (#[trigger] u32_item_fn()(x)).len() == 4);
            crate::wire::lemma_enc_list_len(ttys, u32_item_fn(), 4);
        },
        ClientPacketDataView::IgnoreKeyRanges { ranges } => {
            assert(forall|r: (u64, u64)| (#[trigger] range_item_fn()(r)).len() == 16);
            crate::wire::lemma_enc_list_len(ranges, range_item_fn(), 16);
        },
        ClientPacketDataView::AcceptKeyRanges { ranges } => {
            assert(forall|r: (u64, u64)| (#[trigger] range_item_fn()(r)).len() == 16);
            crate::wire::lemma_enc_list_len(ranges, range_item_fn(), 16);
        },
        _ => {},
    }
}

/// The payload of every server variant encodes to exactly the length that
/// `spec_size` declares.
pub proof fn lemma_server_payload_len(d: ServerPacketDataView)
    ensures
        d.enc_payload().len() == d.spec_size(),
{
    match d {
        ServerPacketDataView::Auth { auth_types } => {
            assert(forall|a: AuthType| (#[trigger] auth_item_fn()(a)).len() == 4);
            crate::wire::lemma_enc_list_len(auth_types, auth_item_fn(), 4);
        },
        _ => {},
    }
}

// Executable payload sizes, the lengths the encoder declares.

impl ClientPacketData {
    /// The payload length this packet encodes to.
    pub fn size(&self) -> (r: usize)
        requires
            self@.spec_size() <= 0xffff_ffff,
        ensures
            r == self@.spec_size(),
    {
        match self {
            ClientPacketData::Write { display_number, region, text, and, or, cursor, charset } => {
                let mut size: usize = 4;
                if display_number.is_some() {
                    size = size + 4;
                }
                if region.is_some() {
                    size = size + 8;
                }
                if let Some(text) = text {
                    size = size + 4 + text.len();
                }
                if let Some(and) = and {
                    size = size + and.len();
                }
                if let Some(or) = or {
                    size = size + or.len();
                }
                if cursor.is_some() {
                    size = size + 4;
                }
                if let Some(charset) = charset {
                    size = size + 4 + charset.len();
                }
                size
            },
            ClientPacketData::Packet { packet } => packet.len(),
            ClientPacketData::Version { .. } => 4,
            ClientPacketData::Auth { key, .. } => 5 + key.len(),
            ClientPacketData::GetDriverName => 0,
            ClientPacketData::GetModelId => 0,
            ClientPacketData::GetDisplaySize => 0,
            ClientPacketData::EnterTtyMode { ttys, driver } => 8 + 4 * ttys.len() + driver.len(),
            ClientPacketData::SetFocus { .. } => 4,
            ClientPacketData::LeaveTtyMode => 0,
            ClientPacketData::IgnoreKeyRanges { ranges } => 16 * ranges.len(),
            ClientPacketData::AcceptKeyRanges { ranges } => 16 * ranges.len(),
            ClientPacketData::EnterRawMode { driver } => 9 + driver.len(),
            ClientPacketData::LeaveRawMode => 0,
            ClientPacketData::SuspendDriver { driver } => 9 + driver.len(),
            ClientPacketData::ResumeDriver => 0,
            ClientPacketData::Synchronize => 0,
            ClientPacketData::ParameterRequest { .. } => 16,
            ClientPacketData::ParameterValue { value, .. } => 16 + value.len(),
        }
    }
}

impl ServerPacketData {
    /// The payload length this packet encodes to.
    pub fn size(&self) -> (r: usize)
        requires
            self@.spec_size() <= 0xffff_ffff,
        ensures
            r == self@.spec_size(),
    {
        match self {
            ServerPacketData::Ack => 0,
            ServerPacketData::Error { packet_data, .. } => 8 + packet_data.len(),
            ServerPacketData::Exception { packet } => packet.len(),
            ServerPacketData::Key { .. } => 8,
            ServerPacketData::Packet { packet } => packet.len(),
            ServerPacketData::Version { .. } => 4,
            ServerPacketData::Auth { auth_types } => 4 * auth_types.len(),
            ServerPacketData::GetDriverName { driver } => driver.len() + 1,
            ServerPacketData::GetModelId { model } => model.len() + 1,
            ServerPacketData::GetDisplaySize { .. } => 8,
            ServerPacketData::ParameterValue { value, .. } => 16 + value.len(),
            ServerPacketData::ParameterUpdate { value, .. } => 16 + value.len(),
        }
    }
}

/// Whether a byte vector contains a NUL byte.
fn contains_zero(v: &Vec<u8>) -> (r: bool)
    ensures
        r == v@.contains(0u8),
{
    let mut i: usize = 0;
    while i < v.len()
        invariant
            i <= v@.len(),
            forall|k: int| 0 <= k < i ==> v@[k] != 0,
        decreases v@.len() - i,
    {
        if v[i] == 0 {
            return true;
        }
        i = i + 1;
    }
    proof {
        assert forall|k: int| 0 <= k < v@.len() implies v@[k] != 0 by {}
        assert(!v@.contains(0u8));
    }
    false
}

impl ServerPacketData {
    /// The packet type this payload belongs under.
    pub fn packet_type(&self) -> (r: PacketType)
        ensures
            r == self@.spec_ty(),
    {
        match self {
            ServerPacketData::Ack => PacketType::Ack,
            ServerPacketData::Error { .. } => PacketType::Error,
            ServerPacketData::Exception { .. } => PacketType::Exception,
            ServerPacketData::Key { .. } => PacketType::Key,
            ServerPacketData::Packet { .. } => PacketType::Packet,
            ServerPacketData::Version { .. } => PacketType::Version,
            ServerPacketData::Auth { .. } => PacketType::Auth,
            ServerPacketData::GetDriverName { .. } => PacketType::GetDriverName,
            ServerPacketData::GetModelId { .. } => PacketType::GetModelId,
            ServerPacketData::GetDisplaySize { .. } => PacketType::GetDisplaySize,
            ServerPacketData::ParameterValue { .. } => PacketType::ParameterValue,
            ServerPacketData::ParameterUpdate { .. } => PacketType::ParameterUpdate,
        }
    }
}

impl ServerPacket {
    /// Decides well-formedness, for a caller that assembled the packet
    /// from unchecked parts and wants to encode it.
    pub fn check_wf(&self) -> (r: bool)
        ensures
            r == self@.wf(),
    {
        let ty_ok = self.ty == self.data.packet_type();
        if !ty_ok {
            return false;
        }
        match &self.data {
            ServerPacketData::Ack => true,
            ServerPacketData::Error { packet_data, .. } => packet_data.len() <= 0xffff_fff7,
            ServerPacketData::Exception { packet } => packet.len() <= 0xffff_ffff,
            ServerPacketData::Key { key } => {
                let bits_ok = key.flags.bits & KEYCODE_FLAGS_MASK == key.flags.bits;
                key.code < 0x2000_0000 && bits_ok
            },
            ServerPacketData::Packet { packet } => packet.len() <= 0xffff_ffff,
            ServerPacketData::Version { .. } => true,
            ServerPacketData::Auth { auth_types } => auth_types.len() <= 0x3fff_ffff,
            ServerPacketData::GetDriverName { driver } => driver.len() <= 0xffff_fffe
                && !contains_zero(driver),
            ServerPacketData::GetModelId { model } => model.len() <= 0xffff_fffe && !contains_zero(
                model,
            ),
            ServerPacketData::GetDisplaySize { .. } => true,
            ServerPacketData::ParameterValue { flags, value, .. } => flags.bits
                & PARAMETER_VALUE_FLAGS_MASK == flags.bits && value.len() <= 0xffff_ffef,
            ServerPacketData::ParameterUpdate { flags, value, .. } => flags.bits
                & PARAMETER_VALUE_FLAGS_MASK == flags.bits && value.len() <= 0xffff_ffef,
        }
    }
}

} // verus!
