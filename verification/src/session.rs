use vstd::prelude::*;

use crate::display::CommandView;
use crate::display::Command;
use crate::packets::{
    view_opt_bytes, AuthType, ClientPacket, ClientPacketData, ClientPacketDataView, ErrorCode,
    PacketType, ServerPacket, ServerPacketData, ServerPacketDataView, PROTOCOL_VERSION,
};
use crate::text::{
    apply_masks, braille_cells_of, braille_cells_ok, charset_decode_lossy, spec_braille_cells,
    spec_masked_cells, utf8_lossy, utf8_lossy_of,
};
use crate::wire::subslice_vec;
use vstd::string::StringSliceAdditionalSpecFns;

verus! {

// The per-connection protocol: greeting, version check, authentication,
// and the dispatch of requests.  Each function here is one decision of
// the session state machine; the surrounding loop only reads packets,
// sends replies and forwards display commands.

/// The states a session passes through.
#[derive(Clone, Copy, Debug, PartialEq, Eq, Structural)]
pub enum SessionState {
    AwaitingVersion,
    AwaitingAuth,
    Ready,
    Closed,
}

/// One step of the session state machine: the state entered, and the
/// reply to send first.
pub struct SessionStep {
    pub state: SessionState,
    pub reply: Option<ServerPacket>,
}

/// The error reply a protocol violation draws: the code, and the type of
/// the offending packet echoed back with an empty payload.
pub fn error_packet(code: ErrorCode, offending: PacketType) -> (r: ServerPacket)
    ensures
        r@.wf(),
        r@.ty == PacketType::Error,
        r@.data == (ServerPacketDataView::Error {
            code,
            packet_type: offending,
            packet_data: Seq::<u8>::empty(),
        }),
{
    let p = ServerPacket {
        ty: PacketType::Error,
        data: ServerPacketData::Error { code, packet_type: offending, packet_data: Vec::new() },
    };
    proof {
        assert(p@.data->packet_data =~= Seq::<u8>::empty());
    }
    p
}

/// The greeting sent on accept: the server's protocol version.
pub fn greeting_packet() -> (r: ServerPacket)
    ensures
        r@.wf(),
        r@.ty == PacketType::Version,
        r@.data == (ServerPacketDataView::Version { version: PROTOCOL_VERSION }),
{
    ServerPacket {
        ty: PacketType::Version,
        data: ServerPacketData::Version { version: PROTOCOL_VERSION },
    }
}

/// The authentication methods announced after the handshake: a shared
/// key where one is configured, nothing otherwise.
pub fn auth_announcement(has_key: bool) -> (r: ServerPacket)
    ensures
        r@.wf(),
        r@.ty == PacketType::Auth,
        r@.data == (ServerPacketDataView::Auth {
            auth_types: seq![
                if has_key {
                    AuthType::Key
                } else {
                    AuthType::NoAuth
                },
            ],
        }),
{
    let mut auth_types: Vec<AuthType> = Vec::new();
    if has_key {
        auth_types.push(AuthType::Key);
    } else {
        auth_types.push(AuthType::NoAuth);
    }
    let p = ServerPacket { ty: PacketType::Auth, data: ServerPacketData::Auth { auth_types } };
    proof {
        assert(p@.data->auth_types =~= seq![
            if has_key {
                AuthType::Key
            } else {
                AuthType::NoAuth
            },
        ]);
    }
    p
}

/// Decides the version handshake.  The right version moves the session
/// on — straight past authentication when no key is configured — and the
/// announcement is sent; anything else draws `BadProtocolVersion` and
/// closes the session, which reads nothing further.
pub fn handle_version_packet(p: &ClientPacket, has_key: bool) -> (r: SessionStep)
    ensures
        ({
            let ok = p@.data matches ClientPacketDataView::Version { version } && version
                == PROTOCOL_VERSION;
            if ok {
                &&& r.state == (if has_key {
                    SessionState::AwaitingAuth
                } else {
                    SessionState::Ready
                })
                &&& r.reply matches Some(a) && a@.wf() && a@.data
                    == (ServerPacketDataView::Auth {
                    auth_types: seq![
                        if has_key {
                            AuthType::Key
                        } else {
                            AuthType::NoAuth
                        },
                    ],
                })
            } else {
                &&& r.state == SessionState::Closed
                &&& r.reply matches Some(e) && e@.wf() && e@.data
                    == (ServerPacketDataView::Error {
                    code: ErrorCode::BadProtocolVersion,
                    packet_type: p@.ty,
                    packet_data: Seq::<u8>::empty(),
                })
            }
        }),
{
    match &p.data {
        ClientPacketData::Version { version } if *version == PROTOCOL_VERSION => {
            let state = if has_key {
                SessionState::AwaitingAuth
            } else {
                SessionState::Ready
            };
            SessionStep { state, reply: Some(auth_announcement(has_key)) }
        },
        _ => {
            SessionStep {
                state: SessionState::Closed,
                reply: Some(error_packet(ErrorCode::BadProtocolVersion, p.ty)),
            }
        },
    }
}

/// Decides one authentication attempt against the configured key.  A
/// `Key` authentication whose key reads (as lossy UTF-8) as the secret is
/// accepted with `Ack`; a wrong key draws `AuthenticationFailed` and the
/// session stays open for another attempt; any other packet draws
/// `BadProtocolVersion` and closes the session.
pub fn handle_auth_packet(p: &ClientPacket, key: &String) -> (r: SessionStep)
    ensures
        ({
            match p@.data {
                ClientPacketDataView::Auth { key: kb, .. } => {
                    if utf8_lossy_of(kb) == key@ {
                        &&& r.state == SessionState::Ready
                        &&& r.reply matches Some(a) && a@.wf() && a@.data
                            == ServerPacketDataView::Ack
                    } else {
                        &&& r.state == SessionState::AwaitingAuth
                        &&& r.reply matches Some(e) && e@.wf() && e@.data
                            == (ServerPacketDataView::Error {
                            code: ErrorCode::AuthenticationFailed,
                            packet_type: p@.ty,
                            packet_data: Seq::<u8>::empty(),
                        })
                    }
                },
                _ => {
                    &&& r.state == SessionState::Closed
                    &&& r.reply matches Some(e) && e@.wf() && e@.data
                        == (ServerPacketDataView::Error {
                        code: ErrorCode::BadProtocolVersion,
                        packet_type: p@.ty,
                        packet_data: Seq::<u8>::empty(),
                    })
                },
            }
        }),
{
    match &p.data {
        ClientPacketData::Auth { key: client_key, .. } => {
            let presented = utf8_lossy(client_key);
            if presented == *key {
                SessionStep {
                    state: SessionState::Ready,
                    reply: Some(ServerPacket { ty: PacketType::Ack, data: ServerPacketData::Ack }),
                }
            } else {
                SessionStep {
                    state: SessionState::AwaitingAuth,
                    reply: Some(error_packet(ErrorCode::AuthenticationFailed, p.ty)),
                }
            }
        },
        _ => {
            SessionStep {
                state: SessionState::Closed,
                reply: Some(error_packet(ErrorCode::BadProtocolVersion, p.ty)),
            }
        },
    }
}

/// The fields of a `Write` request handed on for processing.
pub struct WriteRequest {
    pub display_number: Option<u32>,
    pub region: Option<(u32, u32)>,
    pub text: Option<Vec<u8>>,
    pub and: Option<Vec<u8>>,
    pub or: Option<Vec<u8>>,
    pub cursor: Option<u32>,
    pub charset: Option<Vec<u8>>,
}

/// What the dispatch of one request decides: a reply on the wire, or a
/// `Write` to process against the display.
pub enum DispatchAction {
    Reply(ServerPacket),
    Write(WriteRequest),
}

/// Dispatches one request of an authenticated session.  The metadata
/// requests are answered from the cached backend values, a `Write` is
/// handed on for processing, and every other recognised request is
/// acknowledged, the tty, raw-mode and parameter machinery being accepted
/// on the wire but not acted upon.
pub fn dispatch_packet(
    p: ClientPacket,
    driver_name: &Vec<u8>,
    model_id: &Vec<u8>,
    columns: u8,
    lines: u8,
) -> (r: DispatchAction)
    requires
        !driver_name@.contains(0),
        driver_name@.len() + 1 <= 0xffff_ffff,
        !model_id@.contains(0),
        model_id@.len() + 1 <= 0xffff_ffff,
    ensures
        ({
            match p@.data {
                ClientPacketDataView::Write { .. } => r matches DispatchAction::Write(w)
                    && view_opt_bytes(&w.text) == p@.data->text && w.region == p@.data->region
                    && view_opt_bytes(&w.and) == p@.data->and && view_opt_bytes(&w.or) == p@.data
                    ->or && w.cursor == p@.data->cursor && view_opt_bytes(&w.charset) == p@.data
                    ->charset && w.display_number == p@.data->display_number,
                ClientPacketDataView::GetDriverName => r matches DispatchAction::Reply(sp) && sp@.wf()
                    && sp@.data == (ServerPacketDataView::GetDriverName { driver: driver_name@ }),
                ClientPacketDataView::GetModelId => r matches DispatchAction::Reply(sp) && sp@.wf()
                    && sp@.data == (ServerPacketDataView::GetModelId { model: model_id@ }),
                ClientPacketDataView::GetDisplaySize => r matches DispatchAction::Reply(sp)
                    && sp@.wf() && sp@.data == (ServerPacketDataView::GetDisplaySize {
                    width: columns as u32,
                    height: lines as u32,
                }),
                _ => r matches DispatchAction::Reply(sp) && sp@.wf() && sp@.data
                    == ServerPacketDataView::Ack,
            }
        }),
{
    match p.data {
        ClientPacketData::Write { display_number, region, text, and, or, cursor, charset } => {
            DispatchAction::Write(
                WriteRequest { display_number, region, text, and, or, cursor, charset },
            )
        },
        ClientPacketData::GetDriverName => {
            let driver = subslice_vec(driver_name.as_slice(), 0, driver_name.len());
            proof {
                assert(driver@ =~= driver_name@);
            }
            DispatchAction::Reply(
                ServerPacket {
                    ty: PacketType::GetDriverName,
                    data: ServerPacketData::GetDriverName { driver },
                },
            )
        },
        ClientPacketData::GetModelId => {
            let model = subslice_vec(model_id.as_slice(), 0, model_id.len());
            proof {
                assert(model@ =~= model_id@);
            }
            DispatchAction::Reply(
                ServerPacket {
                    ty: PacketType::GetModelId,
                    data: ServerPacketData::GetModelId { model },
                },
            )
        },
        ClientPacketData::GetDisplaySize => {
            DispatchAction::Reply(
                ServerPacket {
                    ty: PacketType::GetDisplaySize,
                    data: ServerPacketData::GetDisplaySize {
                        width: columns as u32,
                        height: lines as u32,
                    },
                },
            )
        },
        _ => {
            DispatchAction::Reply(ServerPacket { ty: PacketType::Ack, data: ServerPacketData::Ack })
        },
    }
}

/// Decodes the text of a `Write` for translation: absent text stays
/// absent; text without a charset reads as lossy UTF-8; text under a
/// named charset goes through the platform converter, whose unknown
/// charsets surface as `InvalidParameter`.
pub fn decode_write_text(text: &Option<Vec<u8>>, charset: &Option<Vec<u8>>) -> (r: Result<
    Option<String>,
    ErrorCode,
>)
    ensures
        match r {
            Result::Ok(s) => {
                &&& (s is Some) == (text is Some)
                &&& (text is Some && charset is None ==> s->0@ == utf8_lossy_of(text->0@))
            },
            Result::Err(e) => text is Some && charset is Some && e == ErrorCode::InvalidParameter,
        },
{
    match text {
        Option::None => Ok(None),
        Option::Some(t) => {
            match charset {
                Option::None => Ok(Some(utf8_lossy(t))),
                Option::Some(cs) => {
                    let name = utf8_lossy(cs);
                    match charset_decode_lossy(t, name.as_str()) {
                        Option::Some(s) => Ok(Some(s)),
                        Option::None => Err(ErrorCode::InvalidParameter),
                    }
                },
            }
        },
    }
}

/// What stops a `Write` from reaching the display.
#[derive(Clone, Copy, Debug, PartialEq, Eq, Structural)]
pub enum WriteFault {
    MaskWithoutRegion,
    MaskLengthMismatch,
    RegionStartZero,
    TranslationOutOfRange,
}

/// The cursor position a `Write` requests: zero clears the cursor, any
/// other value names a one-based cell.
pub open spec fn spec_cursor_position(cursor: u32) -> Option<u16> {
    if cursor == 0 {
        None
    } else {
        Some(((cursor - 1) as u32) as u16)
    }
}

/// The display commands one `Write` turns into, in the order they are
/// issued: first the cursor update, then the matrix section, each only
/// where the request carries it.  The region is one-based on the wire
/// and zero-based here; without a region, the decoded text's byte length
/// sizes the section; the section's cells are the translated text,
/// padded and truncated to the region, under the optional masks.
pub open spec fn spec_write_commands(
    region: Option<(u32, u32)>,
    decoded_len: Option<int>,
    trans: Option<Seq<char>>,
    and: Option<Seq<u8>>,
    or: Option<Seq<u8>>,
    cursor: Option<u32>,
) -> Result<(Option<CommandView>, Option<CommandView>), WriteFault> {
    if (and is Some || or is Some) && region is None {
        Err(WriteFault::MaskWithoutRegion)
    } else if region matches Some(rg) && rg.0 == 0 {
        Err(WriteFault::RegionStartZero)
    } else {
        let start0 = match region {
            Option::Some(rg) => (rg.0 - 1) as u32,
            Option::None => 0u32,
        };
        let length = match region {
            Option::Some(rg) => rg.1,
            Option::None => match decoded_len {
                Option::Some(n) => n as u32,
                Option::None => 0u32,
            },
        };
        if and matches Some(a) && a.len() != length as int {
            Err(WriteFault::MaskLengthMismatch)
        } else if or matches Some(o) && o.len() != length as int {
            Err(WriteFault::MaskLengthMismatch)
        } else {
            let trans_chars = match trans {
                Option::Some(t) => t,
                Option::None => Seq::<char>::empty(),
            };
            if !braille_cells_ok(trans_chars, length as int) {
                Err(WriteFault::TranslationOutOfRange)
            } else {
                let cells = spec_masked_cells(
                    spec_braille_cells(trans_chars, length as int),
                    and,
                    or,
                );
                let cursor_cmd = match cursor {
                    Option::Some(c) => Some(
                        CommandView::SetCursor { position: spec_cursor_position(c) },
                    ),
                    Option::None => None,
                };
                let section_cmd = if length != 0 {
                    Some(
                        CommandView::SetBrailleMatrixSection {
                            start: start0 as u16,
                            length: length as u16,
                            braille: cells,
                        },
                    )
                } else {
                    None
                };
                Ok((cursor_cmd, section_cmd))
            }
        }
    }
}

/// Builds the display commands of one `Write`, exactly as the model
/// says: the cursor command first, then the section command.
pub fn build_write_commands(
    region: &Option<(u32, u32)>,
    decoded: &Option<String>,
    translated: &Option<String>,
    and: &Option<Vec<u8>>,
    or: &Option<Vec<u8>>,
    cursor: &Option<u32>,
) -> (r: Result<(Option<Command>, Option<Command>), WriteFault>)
    ensures
        ({
            let spec_r = spec_write_commands(
                *region,
                match decoded {
                    Option::Some(s) => Some(vstd::utf8::encode_utf8(s@).len() as usize as int),
                    Option::None => None,
                },
                match translated {
                    Option::Some(s) => Some(s@),
                    Option::None => None,
                },
                view_opt_bytes(and),
                view_opt_bytes(or),
                *cursor,
            );
            match r {
                Result::Ok(cmds) => spec_r == Ok::<
                    (Option<CommandView>, Option<CommandView>),
                    WriteFault,
                >(
                    (
                        match cmds.0 {
                            Option::Some(c) => Some(c@),
                            Option::None => None::<CommandView>,
                        },
                        match cmds.1 {
                            Option::Some(c) => Some(c@),
                            Option::None => None::<CommandView>,
                        },
                    ),
                ),
                Result::Err(f) => spec_r == Err::<
                    (Option<CommandView>, Option<CommandView>),
                    WriteFault,
                >(f),
            }
        }),
{
    if (and.is_some() || or.is_some()) && region.is_none() {
        return Err(WriteFault::MaskWithoutRegion);
    }
    if let Some(rg) = region {
        if rg.0 == 0 {
            return Err(WriteFault::RegionStartZero);
        }
    }
    let start0: u32 = match region {
        Option::Some(rg) => rg.0 - 1,
        Option::None => 0,
    };
    let length: u32 = match region {
        Option::Some(rg) => rg.1,
        Option::None => match decoded {
            Option::Some(s) => {
                let st = s.as_str();
                let n = st.len();
                proof {
                    assert(n == vstd::utf8::encode_utf8(s@).len() as usize);
                }
                #[verifier::truncate] (n as u32)
            },
            Option::None => 0,
        },
    };
    if let Some(a) = and {
        if a.len() != length as usize {
            return Err(WriteFault::MaskLengthMismatch);
        }
    }
    if let Some(o) = or {
        if o.len() != length as usize {
            return Err(WriteFault::MaskLengthMismatch);
        }
    }
    let empty_string = String::new();
    let trans_ref: &String = match translated {
        Option::Some(t) => t,
        Option::None => &empty_string,
    };
    let mut cells = match braille_cells_of(trans_ref, length as usize) {
        Option::Some(c) => c,
        Option::None => {
            return Err(WriteFault::TranslationOutOfRange);
        },
    };
    apply_masks(&mut cells, and, or);
    let cursor_cmd = match cursor {
        Option::Some(c) => {
            let position = if *c == 0 {
                None
            } else {
                Some(#[verifier::truncate] ((*c - 1) as u16))
            };
            Some(Command::SetCursor { position })
        },
        Option::None => None,
    };
    let section_cmd = if length != 0 {
        Some(
            Command::SetBrailleMatrixSection {
                start: #[verifier::truncate] (start0 as u16),
                length: #[verifier::truncate] (length as u16),
                braille: cells,
            },
        )
    } else {
        None
    };
    proof {
        let dl = match decoded {
            Option::Some(s) => Some(vstd::utf8::encode_utf8(s@).len() as usize as int),
            Option::None => None::<int>,
        };
        let tr = match translated {
            Option::Some(s) => Some(s@),
            Option::None => None::<Seq<char>>,
        };
        let spec_r = spec_write_commands(
            *region,
            dl,
            tr,
            view_opt_bytes(and),
            view_opt_bytes(or),
            *cursor,
        );
        let trans_chars = match tr {
            Option::Some(t) => t,
            Option::None => Seq::<char>::empty(),
        };
        let spec_length: u32 = match *region {
            Option::Some(rg) => rg.1,
            Option::None => match dl {
                Option::Some(n) => n as u32,
                Option::None => 0u32,
            },
        };
        assert(spec_length == length);
        assert(braille_cells_ok(trans_chars, length as int));
        assert(spec_r is Ok);
        let spec_cells = spec_masked_cells(
            spec_braille_cells(trans_chars, length as int),
            view_opt_bytes(and),
            view_opt_bytes(or),
        );
        assert(cells@ == spec_cells);
        assert(spec_r->Ok_0.1 == (match section_cmd {
            Option::Some(c) => Some(c@),
            Option::None => None::<CommandView>,
        }));
        assert(spec_r->Ok_0.0 == (match cursor_cmd {
            Option::Some(c) => Some(c@),
            Option::None => None::<CommandView>,
        }));
    }
    Ok((cursor_cmd, section_cmd))
}


/// The effect of one accepted `Write` on the matrix: the cells of the
/// written region become the translated text under the AND and OR masks,
/// and every cell outside the region is unchanged.
pub proof fn lemma_write_matrix_effect(
    s: crate::display::DisplayStateView,
    start: u16,
    length: u16,
    braille: Seq<u8>,
)
    requires
        s.wf(),
        (CommandView::SetBrailleMatrixSection { start, length, braille }).valid_for(s),
    ensures
        ({
            let s2 = crate::display::spec_apply(
                s,
                CommandView::SetBrailleMatrixSection { start, length, braille },
            ).0;
            &&& s2.braille_matrix.len() == s.braille_matrix.len()
            &&& forall|i: int|
                start as int <= i < start as int + length as int ==> s2.braille_matrix[i]
                    == braille[i - start as int]
            &&& forall|i: int|
                0 <= i < s.braille_matrix.len() && !(start as int <= i < start as int
                    + length as int) ==> s2.braille_matrix[i] == s.braille_matrix[i]
        }),
{
}

/// The cells an accepted `Write` carries into the matrix, cell by cell:
/// the translated character's dots where the text reaches, blank
/// otherwise, ANDed and ORed with the masks where they are present.
pub proof fn lemma_write_cells_formula(
    trans: Seq<char>,
    length: int,
    and: Option<Seq<u8>>,
    or: Option<Seq<u8>>,
    i: int,
)
    requires
        0 <= i < length,
        crate::text::braille_cells_ok(trans, length),
    ensures
        ({
            let cells = spec_masked_cells(spec_braille_cells(trans, length), and, or);
            &&& cells.len() == length
            &&& cells[i] == crate::text::masked_cell(
                if i < trans.len() {
                    crate::text::braille_cell(trans[i])
                } else {
                    0u8
                },
                and,
                or,
                i,
            )
        }),
{
}

} // verus!
