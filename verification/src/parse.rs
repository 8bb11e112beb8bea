use vstd::prelude::*;

use crate::keycode::Keycode;
use crate::packets::{
    AuthType, ClientPacketDataView, ClientPacketView, ErrorCode, PacketType, ParameterRequestFlags,
    ParameterValueFlags, ServerPacketDataView, ServerPacketView, PARAMETER_REQUEST_FLAGS_MASK,
    PARAMETER_VALUE_FLAGS_MASK, RAW_MODE_MAGIC, WRITE_FLAGS_MASK, WRITE_FLAG_AND,
    WRITE_FLAG_CHARSET, WRITE_FLAG_CURSOR, WRITE_FLAG_DISPLAY_NUMBER, WRITE_FLAG_OR,
    WRITE_FLAG_REGION, WRITE_FLAG_TEXT,
};
use crate::wire::{be_u32, be_u64};

verus! {

// The parsing side of the codec, as spec functions: what byte strings
// decode to which packets.  A frame parses when its declared size matches
// its length exactly, its magic is known, and its payload parses under
// that magic to the declared end.

// Field-level steps.  Each returns the value read and the position after
// it, or `None` where the payload ends too early.

pub open spec fn parse_u32_at(pl: Seq<u8>, pos: int) -> Option<(u32, int)> {
    if 0 <= pos && pos + 4 <= pl.len() {
        Some((be_u32(pl.subrange(pos, pos + 4)), pos + 4))
    } else {
        None
    }
}

pub open spec fn parse_bytes_at(pl: Seq<u8>, pos: int, n: int) -> Option<(Seq<u8>, int)> {
    if 0 <= pos && 0 <= n && pos + n <= pl.len() {
        Some((pl.subrange(pos, pos + n), pos + n))
    } else {
        None
    }
}

pub open spec fn parse_opt_u32(pl: Seq<u8>, pos: int, present: bool) -> Option<
    (Option<u32>, int),
> {
    if !present {
        Some((None, pos))
    } else {
        match parse_u32_at(pl, pos) {
            Option::Some(r) => Some((Some(r.0), r.1)),
            Option::None => None,
        }
    }
}

pub open spec fn parse_opt_region(pl: Seq<u8>, pos: int, present: bool) -> Option<
    (Option<(u32, u32)>, int),
> {
    if !present {
        Some((None, pos))
    } else {
        match parse_u32_at(pl, pos) {
            Option::Some(r0) => match parse_u32_at(pl, r0.1) {
                Option::Some(r1) => Some((Some((r0.0, r1.0)), r1.1)),
                Option::None => None,
            },
            Option::None => None,
        }
    }
}

pub open spec fn parse_opt_len_bytes(pl: Seq<u8>, pos: int, present: bool) -> Option<
    (Option<Seq<u8>>, int),
> {
    if !present {
        Some((None, pos))
    } else {
        match parse_u32_at(pl, pos) {
            Option::Some(r0) => match parse_bytes_at(pl, r0.1, r0.0 as int) {
                Option::Some(r1) => Some((Some(r1.0), r1.1)),
                Option::None => None,
            },
            Option::None => None,
        }
    }
}

pub open spec fn parse_opt_bytes(pl: Seq<u8>, pos: int, present: bool, n: int) -> Option<
    (Option<Seq<u8>>, int),
> {
    if !present {
        Some((None, pos))
    } else {
        match parse_bytes_at(pl, pos, n) {
            Option::Some(r) => Some((Some(r.0), r.1)),
            Option::None => None,
        }
    }
}

/// First half of a `Write` payload parse: the flag word (kept to its
/// defined bits) and the display number, region and text fields it
/// announces.
pub open spec fn parse_write_head(pl: Seq<u8>) -> Option<
    (u32, Option<u32>, Option<(u32, u32)>, Option<Seq<u8>>, int),
> {
    match parse_u32_at(pl, 0) {
        Option::None => None,
        Option::Some(rf) => {
            let flags = rf.0 & WRITE_FLAGS_MASK;
            match parse_opt_u32(pl, rf.1, flags & WRITE_FLAG_DISPLAY_NUMBER != 0) {
                Option::None => None,
                Option::Some(r1) => match parse_opt_region(pl, r1.1, flags & WRITE_FLAG_REGION
                    != 0) {
                    Option::None => None,
                    Option::Some(r2) => match parse_opt_len_bytes(
                        pl,
                        r2.1,
                        flags & WRITE_FLAG_TEXT != 0,
                    ) {
                        Option::None => None,
                        Option::Some(r3) => Some((flags, r1.0, r2.0, r3.0, r3.1)),
                    },
                },
            }
        },
    }
}

/// Second half of a `Write` payload parse: the masks, sized by the
/// region, then cursor and charset, ending exactly at the payload end.
/// A mask announced without a region is refused.
pub open spec fn parse_write_tail(
    pl: Seq<u8>,
    flags: u32,
    display_number: Option<u32>,
    region: Option<(u32, u32)>,
    text: Option<Seq<u8>>,
    pos: int,
) -> Option<ClientPacketDataView> {
    if (flags & WRITE_FLAG_AND != 0 || flags & WRITE_FLAG_OR != 0) && region is None {
        None
    } else {
        let rlen = if region is Some {
            (region->0).1 as int
        } else {
            0int
        };
        match parse_opt_bytes(pl, pos, flags & WRITE_FLAG_AND != 0, rlen) {
            Option::None => None,
            Option::Some(r4) => match parse_opt_bytes(pl, r4.1, flags & WRITE_FLAG_OR != 0, rlen) {
                Option::None => None,
                Option::Some(r5) => match parse_opt_u32(pl, r5.1, flags & WRITE_FLAG_CURSOR != 0) {
                    Option::None => None,
                    Option::Some(r6) => match parse_opt_len_bytes(
                        pl,
                        r6.1,
                        flags & WRITE_FLAG_CHARSET != 0,
                    ) {
                        Option::None => None,
                        Option::Some(r7) => {
                            if r7.1 == pl.len() {
                                Some(
                                    ClientPacketDataView::Write {
                                        display_number,
                                        region,
                                        text,
                                        and: r4.0,
                                        or: r5.0,
                                        cursor: r6.0,
                                        charset: r7.0,
                                    },
                                )
                            } else {
                                None
                            }
                        },
                    },
                },
            },
        }
    }
}

/// Parse of a `Write` payload.  The optional fields are reconstructed
/// from the defined bits of the leading flag word alone.
pub open spec fn parse_write_payload(pl: Seq<u8>) -> Option<ClientPacketDataView> {
    match parse_write_head(pl) {
        Option::None => None,
        Option::Some(h) => parse_write_tail(pl, h.0, h.1, h.2, h.3, h.4),
    }
}

/// Parse of a client `Auth` payload: the `Key` method magic, then the key
/// bytes, NUL-terminated at the exact end of the payload.
pub open spec fn parse_client_auth_payload(pl: Seq<u8>) -> Option<ClientPacketDataView> {
    if pl.len() < 5 {
        None
    } else {
        match AuthType::spec_from_magic(be_u32(pl.subrange(0, 4))) {
            Option::Some(AuthType::Key) => {
                let key = pl.subrange(4, pl.len() - 1);
                if pl[pl.len() - 1] == 0 && !key.contains(0) {
                    Some(ClientPacketDataView::Auth { auth_type: AuthType::Key, key })
                } else {
                    None
                }
            },
            _ => None,
        }
    }
}

/// Parse of an `EnterTtyMode` payload: a counted list of ttys, then a
/// counted driver name, ending exactly at the payload end.
pub open spec fn parse_enter_tty_payload(pl: Seq<u8>) -> Option<ClientPacketDataView> {
    if pl.len() < 8 {
        None
    } else {
        let m = be_u32(pl.subrange(0, 4)) as int;
        if 8 + 4 * m > pl.len() {
            None
        } else {
            let dlen = be_u32(pl.subrange(4 + 4 * m, 8 + 4 * m)) as int;
            if 8 + 4 * m + dlen != pl.len() {
                None
            } else {
                Some(
                    ClientPacketDataView::EnterTtyMode {
                        ttys: Seq::new(
                            m as nat,
                            |i: int| be_u32(pl.subrange(4 + 4 * i, 4 + 4 * i + 4)),
                        ),
                        driver: pl.subrange(8 + 4 * m, pl.len() as int),
                    },
                )
            }
        }
    }
}

/// Parse of a key-range list: sixteen bytes for each range.
pub open spec fn parse_ranges_payload(pl: Seq<u8>) -> Option<Seq<(u64, u64)>> {
    if pl.len() % 16 == 0 {
        Some(
            Seq::new(
                (pl.len() / 16) as nat,
                |i: int|
                    (
                        be_u64(pl.subrange(16 * i, 16 * i + 8)),
                        be_u64(pl.subrange(16 * i + 8, 16 * i + 16)),
                    ),
            ),
        )
    } else {
        None
    }
}

/// Parse of a raw-mode or suspend payload: the fixed magic, one length
/// byte, and the driver name ending exactly at the payload end.
pub open spec fn parse_raw_payload(pl: Seq<u8>) -> Option<Seq<u8>> {
    if pl.len() >= 9 && be_u64(pl.subrange(0, 8)) == RAW_MODE_MAGIC && 9 + pl[8] as int
        == pl.len() {
        Some(pl.subrange(9, pl.len() as int))
    } else {
        None
    }
}

/// Parse of a client payload under its packet type.
pub open spec fn parse_client_payload(ty: PacketType, pl: Seq<u8>) -> Option<
    ClientPacketDataView,
> {
    match ty {
        PacketType::Write => parse_write_payload(pl),
        PacketType::Packet => Some(ClientPacketDataView::Packet { packet: pl }),
        PacketType::Version => if pl.len() == 4 {
            Some(ClientPacketDataView::Version { version: be_u32(pl) })
        } else {
            None
        },
        PacketType::Auth => parse_client_auth_payload(pl),
        PacketType::GetDriverName => if pl.len() == 0 {
            Some(ClientPacketDataView::GetDriverName)
        } else {
            None
        },
        PacketType::GetModelId => if pl.len() == 0 {
            Some(ClientPacketDataView::GetModelId)
        } else {
            None
        },
        PacketType::GetDisplaySize => if pl.len() == 0 {
            Some(ClientPacketDataView::GetDisplaySize)
        } else {
            None
        },
        PacketType::EnterTtyMode => parse_enter_tty_payload(pl),
        PacketType::SetFocus => if pl.len() == 4 {
            Some(ClientPacketDataView::SetFocus { tty: be_u32(pl) })
        } else {
            None
        },
        PacketType::LeaveTtyMode => if pl.len() == 0 {
            Some(ClientPacketDataView::LeaveTtyMode)
        } else {
            None
        },
        PacketType::IgnoreKeyRanges => match parse_ranges_payload(pl) {
            Option::Some(ranges) => Some(ClientPacketDataView::IgnoreKeyRanges { ranges }),
            Option::None => None,
        },
        PacketType::AcceptKeyRanges => match parse_ranges_payload(pl) {
            Option::Some(ranges) => Some(ClientPacketDataView::AcceptKeyRanges { ranges }),
            Option::None => None,
        },
        PacketType::EnterRawMode => match parse_raw_payload(pl) {
            Option::Some(driver) => Some(ClientPacketDataView::EnterRawMode { driver }),
            Option::None => None,
        },
        PacketType::LeaveRawMode => if pl.len() == 0 {
            Some(ClientPacketDataView::LeaveRawMode)
        } else {
            None
        },
        PacketType::SuspendDriver => match parse_raw_payload(pl) {
            Option::Some(driver) => Some(ClientPacketDataView::SuspendDriver { driver }),
            Option::None => None,
        },
        PacketType::ResumeDriver => if pl.len() == 0 {
            Some(ClientPacketDataView::ResumeDriver)
        } else {
            None
        },
        PacketType::Synchronize => if pl.len() == 0 {
            Some(ClientPacketDataView::Synchronize)
        } else {
            None
        },
        PacketType::ParameterRequest => if pl.len() == 16 {
            Some(
                ClientPacketDataView::ParameterRequest {
                    flags: ParameterRequestFlags {
                        bits: be_u32(pl.subrange(0, 4)) & PARAMETER_REQUEST_FLAGS_MASK,
                    },
                    parameter: be_u32(pl.subrange(4, 8)),
                    sub_parameter: be_u64(pl.subrange(8, 16)),
                },
            )
        } else {
            None
        },
        PacketType::ParameterValue => if pl.len() >= 16 {
            Some(
                ClientPacketDataView::ParameterValue {
                    flags: ParameterValueFlags {
                        bits: be_u32(pl.subrange(0, 4)) & PARAMETER_VALUE_FLAGS_MASK,
                    },
                    parameter: be_u32(pl.subrange(4, 8)),
                    sub_parameter: be_u64(pl.subrange(8, 16)),
                    value: pl.subrange(16, pl.len() as int),
                },
            )
        } else {
            None
        },
        _ => None,
    }
}

/// Parse of a server payload under its packet type.
pub open spec fn parse_server_payload(ty: PacketType, pl: Seq<u8>) -> Option<
    ServerPacketDataView,
> {
    match ty {
        PacketType::Ack => if pl.len() == 0 {
            Some(ServerPacketDataView::Ack)
        } else {
            None
        },
        PacketType::Error => if pl.len() >= 8 {
            match ErrorCode::spec_from_code(be_u32(pl.subrange(0, 4))) {
                Option::Some(code) => match PacketType::spec_from_magic(be_u32(pl.subrange(4, 8))) {
                    Option::Some(packet_type) => Some(
                        ServerPacketDataView::Error {
                            code,
                            packet_type,
                            packet_data: pl.subrange(8, pl.len() as int),
                        },
                    ),
                    Option::None => None,
                },
                Option::None => None,
            }
        } else {
            None
        },
        PacketType::Exception => Some(ServerPacketDataView::Exception { packet: pl }),
        PacketType::Key => if pl.len() == 8 {
            Some(ServerPacketDataView::Key { key: Keycode::spec_unpack(be_u64(pl)) })
        } else {
            None
        },
        PacketType::Packet => Some(ServerPacketDataView::Packet { packet: pl }),
        PacketType::Version => if pl.len() == 4 {
            Some(ServerPacketDataView::Version { version: be_u32(pl) })
        } else {
            None
        },
        PacketType::Auth => if pl.len() % 4 == 0 && (forall|i: int|
            0 <= i < pl.len() / 4 ==> AuthType::spec_from_magic(
                be_u32(#[trigger] pl.subrange(4 * i, 4 * i + 4)),
            ) is Some) {
            Some(
                ServerPacketDataView::Auth {
                    auth_types: Seq::new(
                        (pl.len() / 4) as nat,
                        |i: int|
                            AuthType::spec_from_magic(be_u32(pl.subrange(4 * i, 4 * i + 4)))->0,
                    ),
                },
            )
        } else {
            None
        },
        PacketType::GetDriverName => if pl.len() >= 1 && pl[pl.len() - 1] == 0 && !pl.subrange(
            0,
            pl.len() - 1,
        ).contains(0) {
            Some(ServerPacketDataView::GetDriverName { driver: pl.subrange(0, pl.len() - 1) })
        } else {
            None
        },
        PacketType::GetModelId => if pl.len() >= 1 && pl[pl.len() - 1] == 0 && !pl.subrange(
            0,
            pl.len() - 1,
        ).contains(0) {
            Some(ServerPacketDataView::GetModelId { model: pl.subrange(0, pl.len() - 1) })
        } else {
            None
        },
        PacketType::GetDisplaySize => if pl.len() == 8 {
            Some(
                ServerPacketDataView::GetDisplaySize {
                    width: be_u32(pl.subrange(0, 4)),
                    height: be_u32(pl.subrange(4, 8)),
                },
            )
        } else {
            None
        },
        PacketType::ParameterValue => if pl.len() >= 16 {
            Some(
                ServerPacketDataView::ParameterValue {
                    flags: ParameterValueFlags {
                        bits: be_u32(pl.subrange(0, 4)) & PARAMETER_VALUE_FLAGS_MASK,
                    },
                    parameter: be_u32(pl.subrange(4, 8)),
                    sub_parameter: be_u64(pl.subrange(8, 16)),
                    value: pl.subrange(16, pl.len() as int),
                },
            )
        } else {
            None
        },
        PacketType::ParameterUpdate => if pl.len() >= 16 {
            Some(
                ServerPacketDataView::ParameterUpdate {
                    flags: ParameterValueFlags {
                        bits: be_u32(pl.subrange(0, 4)) & PARAMETER_VALUE_FLAGS_MASK,
                    },
                    parameter: be_u32(pl.subrange(4, 8)),
                    sub_parameter: be_u64(pl.subrange(8, 16)),
                    value: pl.subrange(16, pl.len() as int),
                },
            )
        } else {
            None
        },
        _ => None,
    }
}

/// Parse of a full client frame.
pub open spec fn spec_parse_client(bytes: Seq<u8>) -> Option<ClientPacketView> {
    if bytes.len() < 8 {
        None
    } else {
        let size = be_u32(bytes.subrange(0, 4)) as int;
        if bytes.len() != 8 + size {
            None
        } else {
            match PacketType::spec_from_magic(be_u32(bytes.subrange(4, 8))) {
                Option::None => None,
                Option::Some(ty) => match parse_client_payload(
                    ty,
                    bytes.subrange(8, bytes.len() as int),
                ) {
                    Option::None => None,
                    Option::Some(data) => Some(ClientPacketView { ty, data }),
                },
            }
        }
    }
}

/// Parse of a full server frame.
pub open spec fn spec_parse_server(bytes: Seq<u8>) -> Option<ServerPacketView> {
    if bytes.len() < 8 {
        None
    } else {
        let size = be_u32(bytes.subrange(0, 4)) as int;
        if bytes.len() != 8 + size {
            None
        } else {
            match PacketType::spec_from_magic(be_u32(bytes.subrange(4, 8))) {
                Option::None => None,
                Option::Some(ty) => match parse_server_payload(
                    ty,
                    bytes.subrange(8, bytes.len() as int),
                ) {
                    Option::None => None,
                    Option::Some(data) => Some(ServerPacketView { ty, data }),
                },
            }
        }
    }
}

/// The error a failed decode reports: a frame cut short is
/// `UnexpectedEof`; everything else is `InvalidPacket`.
pub open spec fn spec_decode_failure(bytes: Seq<u8>) -> ErrorCode {
    if bytes.len() < 8 {
        ErrorCode::UnexpectedEof
    } else if bytes.len() < 8 + be_u32(bytes.subrange(0, 4)) as int {
        ErrorCode::UnexpectedEof
    } else {
        ErrorCode::InvalidPacket
    }
}

/// The payload-level face of `canon_client_frame`: the flag word of the
/// payload, where its type has one, carries no undefined bits.
pub open spec fn canon_client_payload(ty: PacketType, pl: Seq<u8>) -> bool {
    if pl.len() >= 4 {
        let word = be_u32(pl.subrange(0, 4));
        if ty == PacketType::Write {
            word & WRITE_FLAGS_MASK == word
        } else if ty == PacketType::ParameterRequest {
            word & PARAMETER_REQUEST_FLAGS_MASK == word
        } else if ty == PacketType::ParameterValue {
            word & PARAMETER_VALUE_FLAGS_MASK == word
        } else {
            true
        }
    } else {
        true
    }
}

/// The payload-level face of `canon_server_frame`: flag words and the
/// keycode word carry no undefined bits.
pub open spec fn canon_server_payload(ty: PacketType, pl: Seq<u8>) -> bool {
    if ty == PacketType::Key {
        pl.len() == 8 ==> {
            let word = be_u64(pl);
            ((word >> 29) & 0x7) < 2 && ((word >> 32) & 0xffff_ffff) & 0x1fff == (word >> 32)
                & 0xffff_ffff
        }
    } else if ty == PacketType::ParameterValue || ty == PacketType::ParameterUpdate {
        pl.len() >= 4 ==> {
            let word = be_u32(pl.subrange(0, 4));
            word & PARAMETER_VALUE_FLAGS_MASK == word
        }
    } else {
        true
    }
}

/// A parsed client frame re-encodes to the very same bytes unless a flag
/// word carried undefined bits, which parsing discards.  This predicate
/// says the flag words are clean.
pub open spec fn canon_client_frame(bytes: Seq<u8>) -> bool {
    if bytes.len() >= 12 {
        let ty = PacketType::spec_from_magic(be_u32(bytes.subrange(4, 8)));
        let word = be_u32(bytes.subrange(8, 12));
        if ty == Some(PacketType::Write) {
            word & WRITE_FLAGS_MASK == word
        } else if ty == Some(PacketType::ParameterRequest) {
            word & PARAMETER_REQUEST_FLAGS_MASK == word
        } else if ty == Some(PacketType::ParameterValue) {
            word & PARAMETER_VALUE_FLAGS_MASK == word
        } else {
            true
        }
    } else {
        true
    }
}

/// The flag words and the keycode word of a server frame carry no
/// undefined bits, so parsing discards nothing.
pub open spec fn canon_server_frame(bytes: Seq<u8>) -> bool {
    if bytes.len() >= 12 {
        let ty = PacketType::spec_from_magic(be_u32(bytes.subrange(4, 8)));
        if ty == Some(PacketType::Key) {
            bytes.len() == 16 ==> {
                let word = be_u64(bytes.subrange(8, 16));
                ((word >> 29) & 0x7) < 2 && ((word >> 32) & 0xffff_ffff) & 0x1fff == (word >> 32)
                    & 0xffff_ffff
            }
        } else if ty == Some(PacketType::ParameterValue) || ty == Some(
            PacketType::ParameterUpdate,
        ) {
            let word = be_u32(bytes.subrange(8, 12));
            word & PARAMETER_VALUE_FLAGS_MASK == word
        } else {
            true
        }
    } else {
        true
    }
}

} // verus!
