use vstd::prelude::*;

use crate::keycode::Keycode;
use crate::laws::{lemma_client_parse_sound, lemma_server_parse_sound};
use crate::packets::{
    calculate_write_flags, enc_opt_bytes, enc_opt_len_bytes, enc_opt_region, enc_opt_u32,
    view_opt_bytes, AuthType, ClientPacket, ClientPacketData, ErrorCode, PacketType,
    ParameterRequestFlags, ParameterValueFlags, ServerPacket, ServerPacketData, RAW_MODE_MAGIC,
};
use crate::parse::{
    parse_client_auth_payload, parse_client_payload, parse_enter_tty_payload, parse_ranges_payload,
    parse_raw_payload, parse_server_payload, parse_write_head, parse_write_payload,
    parse_write_tail, spec_decode_failure, spec_parse_client, spec_parse_server,
};
use crate::parse::{
    parse_opt_bytes, parse_opt_len_bytes, parse_opt_region, parse_opt_u32,
};
use crate::wire::{
    be_u32, be_u64, enc_list, lemma_enc_list_take_succ, lemma_take_full, push_bytes, push_u32_be,
    push_u64_be, read_u32_be, read_u64_be, subslice_vec,
};

verus! {

// The executable codec.  Encoding emits exactly the frame the encoding
// specification describes; decoding returns exactly what the parsing
// specification yields, or the error the failure classification names.

/// Encodes a well-formed client packet into its frame.
pub fn encode_client_packet(p: &ClientPacket) -> (r: Vec<u8>)
    requires
        p@.wf(),
    ensures
        r@ == p@.enc(),
{
    let mut out: Vec<u8> = Vec::new();
    let size = p.data.size();
    push_u32_be(&mut out, size as u32);
    push_u32_be(&mut out, p.ty.magic());
    encode_client_payload(&p.data, &mut out);
    proof {
        assert(out@ =~= p@.enc());
    }
    out
}

/// Encodes a well-formed server packet into its frame.
pub fn encode_server_packet(p: &ServerPacket) -> (r: Vec<u8>)
    requires
        p@.wf(),
    ensures
        r@ == p@.enc(),
{
    let mut out: Vec<u8> = Vec::new();
    let size = p.data.size();
    push_u32_be(&mut out, size as u32);
    push_u32_be(&mut out, p.ty.magic());
    encode_server_payload(&p.data, &mut out);
    proof {
        assert(out@ =~= p@.enc());
    }
    out
}

/// Appends the payload bytes of a client packet.
#[verifier::spinoff_prover]
#[verifier::rlimit(100)]
fn encode_client_payload(data: &ClientPacketData, out: &mut Vec<u8>)
    requires
        data@.wf(),
    ensures
        final(out)@ == old(out)@ + data@.enc_payload(),
{
    match data {
        ClientPacketData::Write { .. } => {
            encode_write_payload(data, out);
        },
        ClientPacketData::Packet { packet } => {
            push_bytes(out, packet);
        },
        ClientPacketData::Version { version } => {
            push_u32_be(out, *version);
        },
        ClientPacketData::Auth { auth_type, key } => {
            push_u32_be(out, auth_type.magic());
            push_bytes(out, key);
            out.push(0);
            proof {
                assert(out@ =~= old(out)@ + data@.enc_payload());
            }
        },
        ClientPacketData::GetDriverName => {
            proof {
                assert(out@ =~= old(out)@ + data@.enc_payload());
            }
        },
        ClientPacketData::GetModelId => {
            proof {
                assert(out@ =~= old(out)@ + data@.enc_payload());
            }
        },
        ClientPacketData::GetDisplaySize => {
            proof {
                assert(out@ =~= old(out)@ + data@.enc_payload());
            }
        },
        ClientPacketData::EnterTtyMode { ttys, driver } => {
            push_u32_be(out, ttys.len() as u32);
            push_u32_list(out, ttys);
            push_u32_be(out, driver.len() as u32);
            push_bytes(out, driver);
            proof {
                assert(out@ =~= old(out)@ + data@.enc_payload());
            }
        },
        ClientPacketData::SetFocus { tty } => {
            push_u32_be(out, *tty);
        },
        ClientPacketData::LeaveTtyMode => {
            proof {
                assert(out@ =~= old(out)@ + data@.enc_payload());
            }
        },
        ClientPacketData::IgnoreKeyRanges { ranges } => {
            push_range_list(out, ranges);
        },
        ClientPacketData::AcceptKeyRanges { ranges } => {
            push_range_list(out, ranges);
        },
        ClientPacketData::EnterRawMode { driver } => {
            push_u64_be(out, RAW_MODE_MAGIC);
            out.push(driver.len() as u8);
            push_bytes(out, driver);
            proof {
                assert(out@ =~= old(out)@ + data@.enc_payload());
            }
        },
        ClientPacketData::LeaveRawMode => {
            proof {
                assert(out@ =~= old(out)@ + data@.enc_payload());
            }
        },
        ClientPacketData::SuspendDriver { driver } => {
            push_u64_be(out, RAW_MODE_MAGIC);
            out.push(driver.len() as u8);
            push_bytes(out, driver);
            proof {
                assert(out@ =~= old(out)@ + data@.enc_payload());
            }
        },
        ClientPacketData::ResumeDriver => {
            proof {
                assert(out@ =~= old(out)@ + data@.enc_payload());
            }
        },
        ClientPacketData::Synchronize => {
            proof {
                assert(out@ =~= old(out)@ + data@.enc_payload());
            }
        },
        ClientPacketData::ParameterRequest { flags, parameter, sub_parameter } => {
            push_u32_be(out, flags.bits);
            push_u32_be(out, *parameter);
            push_u64_be(out, *sub_parameter);
            proof {
                assert(out@ =~= old(out)@ + data@.enc_payload());
            }
        },
        ClientPacketData::ParameterValue { flags, parameter, sub_parameter, value } => {
            push_u32_be(out, flags.bits);
            push_u32_be(out, *parameter);
            push_u64_be(out, *sub_parameter);
            push_bytes(out, value);
            proof {
                assert(out@ =~= old(out)@ + data@.enc_payload());
            }
        },
    }
}

/// Eight chunks appended one at a time form the concatenation of the
/// eight chunks.
proof fn lemma_concat8_assoc(
    base: Seq<u8>,
    c0: Seq<u8>,
    c1: Seq<u8>,
    c2: Seq<u8>,
    c3: Seq<u8>,
    c4: Seq<u8>,
    c5: Seq<u8>,
    c6: Seq<u8>,
    c7: Seq<u8>,
)
    ensures
        base + c0 + c1 + c2 + c3 + c4 + c5 + c6 + c7 == base + (c0 + c1 + c2 + c3 + c4 + c5 + c6
            + c7),
{
    assert(base + c0 + c1 + c2 + c3 + c4 + c5 + c6 + c7 =~= base + (c0 + c1 + c2 + c3 + c4 + c5
        + c6 + c7));
}

/// The encoding of an optional `u32` field.
fn enc_opt_u32_vec(o: &Option<u32>) -> (r: Vec<u8>)
    ensures
        r@ == enc_opt_u32(*o),
{
    let mut r: Vec<u8> = Vec::new();
    if let Some(x) = o {
        push_u32_be(&mut r, *x);
    }
    proof {
        assert(r@ =~= enc_opt_u32(*o));
    }
    r
}

/// The encoding of an optional region field.
fn enc_opt_region_vec(o: &Option<(u32, u32)>) -> (r: Vec<u8>)
    ensures
        r@ == enc_opt_region(*o),
{
    let mut r: Vec<u8> = Vec::new();
    if let Some(reg) = o {
        push_u32_be(&mut r, reg.0);
        push_u32_be(&mut r, reg.1);
    }
    proof {
        assert(r@ =~= enc_opt_region(*o));
    }
    r
}

/// The encoding of an optional counted byte field.
fn enc_opt_len_bytes_vec(o: &Option<Vec<u8>>) -> (r: Vec<u8>)
    requires
        o is Some ==> o->0@.len() <= 0xffff_ffff,
    ensures
        r@ == enc_opt_len_bytes(view_opt_bytes(o)),
{
    let mut r: Vec<u8> = Vec::new();
    if let Some(b) = o {
        push_u32_be(&mut r, b.len() as u32);
        push_bytes(&mut r, b);
    }
    proof {
        assert(r@ =~= enc_opt_len_bytes(view_opt_bytes(o)));
    }
    r
}

/// The encoding of an optional raw byte field.
fn enc_opt_bytes_vec(o: &Option<Vec<u8>>) -> (r: Vec<u8>)
    ensures
        r@ == enc_opt_bytes(view_opt_bytes(o)),
{
    let mut r: Vec<u8> = Vec::new();
    if let Some(b) = o {
        push_bytes(&mut r, b);
    }
    proof {
        assert(r@ =~= enc_opt_bytes(view_opt_bytes(o)));
    }
    r
}

/// Appends the payload bytes of a `Write` packet: the flag word computed
/// from the present fields, then each present field in declaration order.
#[verifier::spinoff_prover]
#[verifier::rlimit(100)]
fn encode_write_payload(data: &ClientPacketData, out: &mut Vec<u8>)
    requires
        data@.wf(),
        data@ is Write,
    ensures
        final(out)@ == old(out)@ + data@.enc_payload(),
{
    match data {
        ClientPacketData::Write { display_number, region, text, and, or, cursor, charset } => {
            let flags = calculate_write_flags(display_number, region, text, and, or, cursor,
                charset);
            push_u32_be(out, flags.bits);
            let v1 = enc_opt_u32_vec(display_number);
            push_bytes(out, &v1);
            let v2 = enc_opt_region_vec(region);
            push_bytes(out, &v2);
            let v3 = enc_opt_len_bytes_vec(text);
            push_bytes(out, &v3);
            let v4 = enc_opt_bytes_vec(and);
            push_bytes(out, &v4);
            let v5 = enc_opt_bytes_vec(or);
            push_bytes(out, &v5);
            let v6 = enc_opt_u32_vec(cursor);
            push_bytes(out, &v6);
            let v7 = enc_opt_len_bytes_vec(charset);
            push_bytes(out, &v7);
            proof {
                lemma_concat8_assoc(
                    old(out)@,
                    crate::wire::u32_be(flags.bits),
                    v1@,
                    v2@,
                    v3@,
                    v4@,
                    v5@,
                    v6@,
                    v7@,
                );
            }
        },
        _ => {
            proof {
                assert(false);
            }
        },
    }
}

/// Appends the payload bytes of a server packet./// Appends the payload bytes of a server packet.
#[verifier::spinoff_prover]
#[verifier::rlimit(100)]
fn encode_server_payload(data: &ServerPacketData, out: &mut Vec<u8>)
    requires
        data@.wf(),
    ensures
        final(out)@ == old(out)@ + data@.enc_payload(),
{
    match data {
        ServerPacketData::Ack => {
            proof {
                assert(out@ =~= old(out)@ + data@.enc_payload());
            }
        },
        ServerPacketData::Error { code, packet_type, packet_data } => {
            push_u32_be(out, code.code());
            push_u32_be(out, packet_type.magic());
            push_bytes(out, packet_data);
            proof {
                assert(out@ =~= old(out)@ + data@.enc_payload());
            }
        },
        ServerPacketData::Exception { packet } => {
            push_bytes(out, packet);
        },
        ServerPacketData::Key { key } => {
            push_u64_be(out, key.pack());
        },
        ServerPacketData::Packet { packet } => {
            push_bytes(out, packet);
        },
        ServerPacketData::Version { version } => {
            push_u32_be(out, *version);
        },
        ServerPacketData::Auth { auth_types } => {
            push_auth_list(out, auth_types);
        },
        ServerPacketData::GetDriverName { driver } => {
            push_bytes(out, driver);
            out.push(0);
            proof {
                assert(out@ =~= old(out)@ + data@.enc_payload());
            }
        },
        ServerPacketData::GetModelId { model } => {
            push_bytes(out, model);
            out.push(0);
            proof {
                assert(out@ =~= old(out)@ + data@.enc_payload());
            }
        },
        ServerPacketData::GetDisplaySize { width, height } => {
            push_u32_be(out, *width);
            push_u32_be(out, *height);
            proof {
                assert(out@ =~= old(out)@ + data@.enc_payload());
            }
        },
        ServerPacketData::ParameterValue { flags, parameter, sub_parameter, value } => {
            push_u32_be(out, flags.bits);
            push_u32_be(out, *parameter);
            push_u64_be(out, *sub_parameter);
            push_bytes(out, value);
            proof {
                assert(out@ =~= old(out)@ + data@.enc_payload());
            }
        },
        ServerPacketData::ParameterUpdate { flags, parameter, sub_parameter, value } => {
            push_u32_be(out, flags.bits);
            push_u32_be(out, *parameter);
            push_u64_be(out, *sub_parameter);
            push_bytes(out, value);
            proof {
                assert(out@ =~= old(out)@ + data@.enc_payload());
            }
        },
    }
}

/// Appends each `u32` of a list, big-endian.
fn push_u32_list(out: &mut Vec<u8>, items: &Vec<u32>)
    ensures
        final(out)@ == old(out)@ + enc_list(items@, crate::packets::u32_item_fn()),
{
    let mut i: usize = 0;
    proof {
        assert(items@.take(0) =~= Seq::<u32>::empty());
        assert(out@ =~= out@ + enc_list(items@.take(0), crate::packets::u32_item_fn()));
    }
    while i < items.len()
        invariant
            i <= items@.len(),
            out@ == old(out)@ + enc_list(items@.take(i as int), crate::packets::u32_item_fn()),
        decreases items@.len() - i,
    {
        push_u32_be(out, items[i]);
        proof {
            lemma_enc_list_take_succ(items@, crate::packets::u32_item_fn(), i as int);
            assert(out@ =~= old(out)@ + enc_list(
                items@.take(i + 1),
                crate::packets::u32_item_fn(),
            ));
        }
        i = i + 1;
    }
    proof {
        lemma_take_full(items@);
    }
}

/// Appends each key range of a list as two big-endian `u64`s.
fn push_range_list(out: &mut Vec<u8>, items: &Vec<(u64, u64)>)
    ensures
        final(out)@ == old(out)@ + enc_list(items@, crate::packets::range_item_fn()),
{
    let mut i: usize = 0;
    proof {
        assert(items@.take(0) =~= Seq::<(u64, u64)>::empty());
        assert(out@ =~= out@ + enc_list(items@.take(0), crate::packets::range_item_fn()));
    }
    while i < items.len()
        invariant
            i <= items@.len(),
            out@ == old(out)@ + enc_list(items@.take(i as int), crate::packets::range_item_fn()),
        decreases items@.len() - i,
    {
        let item = items[i];
        push_u64_be(out, item.0);
        push_u64_be(out, item.1);
        proof {
            lemma_enc_list_take_succ(items@, crate::packets::range_item_fn(), i as int);
            assert(out@ =~= old(out)@ + enc_list(
                items@.take(i + 1),
                crate::packets::range_item_fn(),
            ));
        }
        i = i + 1;
    }
    proof {
        lemma_take_full(items@);
    }
}

/// Appends the magic of each authentication type of a list.
fn push_auth_list(out: &mut Vec<u8>, items: &Vec<AuthType>)
    ensures
        final(out)@ == old(out)@ + enc_list(items@, crate::packets::auth_item_fn()),
{
    let mut i: usize = 0;
    proof {
        assert(items@.take(0) =~= Seq::<AuthType>::empty());
        assert(out@ =~= out@ + enc_list(items@.take(0), crate::packets::auth_item_fn()));
    }
    while i < items.len()
        invariant
            i <= items@.len(),
            out@ == old(out)@ + enc_list(items@.take(i as int), crate::packets::auth_item_fn()),
        decreases items@.len() - i,
    {
        push_u32_be(out, items[i].magic());
        proof {
            lemma_enc_list_take_succ(items@, crate::packets::auth_item_fn(), i as int);
            assert(out@ =~= old(out)@ + enc_list(
                items@.take(i + 1),
                crate::packets::auth_item_fn(),
            ));
        }
        i = i + 1;
    }
    proof {
        lemma_take_full(items@);
    }
}

// The decoding side.

/// Reads an optional big-endian `u32` field.
fn read_opt_u32(pl: &Vec<u8>, pos: usize, present: bool) -> (r: Option<(Option<u32>, usize)>)
    requires
        pos <= pl@.len(),
    ensures
        match r {
            Option::Some(v) => parse_opt_u32(pl@, pos as int, present) == Some((v.0, v.1 as int))
                && pos <= v.1 <= pl@.len(),
            Option::None => parse_opt_u32(pl@, pos as int, present) is None,
        },
{
    if !present {
        Some((None, pos))
    } else if pl.len() - pos >= 4 {
        let x = read_u32_be(pl.as_slice(), pos);
        Some((Some(x), pos + 4))
    } else {
        None
    }
}

/// Reads an optional region field: two big-endian `u32`s.
fn read_opt_region(pl: &Vec<u8>, pos: usize, present: bool) -> (r: Option<
    (Option<(u32, u32)>, usize),
>)
    requires
        pos <= pl@.len(),
    ensures
        match r {
            Option::Some(v) => parse_opt_region(pl@, pos as int, present) == Some(
                (v.0, v.1 as int),
            ) && pos <= v.1 <= pl@.len(),
            Option::None => parse_opt_region(pl@, pos as int, present) is None,
        },
{
    if !present {
        Some((None, pos))
    } else if pl.len() - pos >= 8 {
        let a = read_u32_be(pl.as_slice(), pos);
        let b = read_u32_be(pl.as_slice(), pos + 4);
        Some((Some((a, b)), pos + 8))
    } else {
        None
    }
}

/// Reads an optional counted byte field: a big-endian `u32` length, then
/// that many bytes.
fn read_opt_len_bytes(pl: &Vec<u8>, pos: usize, present: bool) -> (r: Option<
    (Option<Vec<u8>>, usize),
>)
    requires
        pos <= pl@.len(),
    ensures
        match r {
            Option::Some(v) => parse_opt_len_bytes(pl@, pos as int, present) == Some(
                (view_opt_bytes(&v.0), v.1 as int),
            ) && pos <= v.1 <= pl@.len(),
            Option::None => parse_opt_len_bytes(pl@, pos as int, present) is None,
        },
{
    if !present {
        Some((None, pos))
    } else if pl.len() - pos >= 4 {
        let n = read_u32_be(pl.as_slice(), pos) as usize;
        if pl.len() - (pos + 4) >= n {
            let b = subslice_vec(pl.as_slice(), pos + 4, pos + 4 + n);
            Some((Some(b), pos + 4 + n))
        } else {
            None
        }
    } else {
        None
    }
}

/// Reads an optional raw byte field of a known width.
fn read_opt_bytes(pl: &Vec<u8>, pos: usize, present: bool, n: usize) -> (r: Option<
    (Option<Vec<u8>>, usize),
>)
    requires
        pos <= pl@.len(),
    ensures
        match r {
            Option::Some(v) => parse_opt_bytes(pl@, pos as int, present, n as int) == Some(
                (view_opt_bytes(&v.0), v.1 as int),
            ) && pos <= v.1 <= pl@.len(),
            Option::None => parse_opt_bytes(pl@, pos as int, present, n as int) is None,
        },
{
    if !present {
        Some((None, pos))
    } else if pl.len() - pos >= n {
        let b = subslice_vec(pl.as_slice(), pos, pos + n);
        Some((Some(b), pos + n))
    } else {
        None
    }
}

/// Decodes a `Write` payload under the flag bits of its leading word.
#[verifier::spinoff_prover]
#[verifier::rlimit(100)]
fn decode_write_payload(pl: &Vec<u8>) -> (r: Option<ClientPacketData>)
    ensures
        match r {
            Option::Some(d) => parse_write_payload(pl@) == Some(d@),
            Option::None => parse_write_payload(pl@) is None,
        },
{
    if pl.len() < 4 {
        return None;
    }
    let raw = read_u32_be(pl.as_slice(), 0);
    let flags = raw & crate::packets::WRITE_FLAGS_MASK;
    let (display_number, pos) = match read_opt_u32(
        pl,
        4,
        flags & crate::packets::WRITE_FLAG_DISPLAY_NUMBER != 0,
    ) {
        Some(v) => v,
        None => {
            return None;
        },
    };
    let (region, pos) = match read_opt_region(
        pl,
        pos,
        flags & crate::packets::WRITE_FLAG_REGION != 0,
    ) {
        Some(v) => v,
        None => {
            return None;
        },
    };
    let (text, pos) = match read_opt_len_bytes(
        pl,
        pos,
        flags & crate::packets::WRITE_FLAG_TEXT != 0,
    ) {
        Some(v) => v,
        None => {
            return None;
        },
    };
    if (flags & crate::packets::WRITE_FLAG_AND != 0 || flags & crate::packets::WRITE_FLAG_OR != 0)
        && region.is_none() {
        return None;
    }
    let rlen: usize = match region {
        Some(rg) => rg.1 as usize,
        None => 0,
    };
    let (and, pos) = match read_opt_bytes(
        pl,
        pos,
        flags & crate::packets::WRITE_FLAG_AND != 0,
        rlen,
    ) {
        Some(v) => v,
        None => {
            return None;
        },
    };
    let (or, pos) = match read_opt_bytes(
        pl,
        pos,
        flags & crate::packets::WRITE_FLAG_OR != 0,
        rlen,
    ) {
        Some(v) => v,
        None => {
            return None;
        },
    };
    let (cursor, pos) = match read_opt_u32(
        pl,
        pos,
        flags & crate::packets::WRITE_FLAG_CURSOR != 0,
    ) {
        Some(v) => v,
        None => {
            return None;
        },
    };
    let (charset, pos) = match read_opt_len_bytes(
        pl,
        pos,
        flags & crate::packets::WRITE_FLAG_CHARSET != 0,
    ) {
        Some(v) => v,
        None => {
            return None;
        },
    };
    if pos != pl.len() {
        return None;
    }
    Some(ClientPacketData::Write { display_number, region, text, and, or, cursor, charset })
}

/// Decodes a client `Auth` payload: the `Key` magic, then the key bytes
/// up to the terminating NUL.
fn decode_client_auth(pl: &Vec<u8>) -> (r: Option<ClientPacketData>)
    ensures
        match r {
            Option::Some(d) => parse_client_auth_payload(pl@) == Some(d@),
            Option::None => parse_client_auth_payload(pl@) is None,
        },
{
    if pl.len() < 5 {
        return None;
    }
    let magic = read_u32_be(pl.as_slice(), 0);
    proof {
        assert(pl@.subrange(0int, 4int) == pl@.subrange(0int, 0int + 4));
    }
    match AuthType::from_magic(magic) {
        Some(AuthType::Key) => {},
        _ => {
            return None;
        },
    }
    if pl[pl.len() - 1] != 0 {
        return None;
    }
    let end = pl.len() - 1;
    let mut i: usize = 4;
    while i < end
        invariant
            4 <= i <= end < pl@.len(),
            forall|k: int| 4 <= k < i ==> pl@[k] != 0,
        decreases end - i,
    {
        if pl[i] == 0 {
            proof {
                assert(pl@.subrange(4, pl@.len() - 1)[i - 4] == 0);
                assert(pl@.subrange(4, pl@.len() - 1).contains(0));
            }
            return None;
        }
        i = i + 1;
    }
    let key = subslice_vec(pl.as_slice(), 4, end);
    proof {
        let ks = pl@.subrange(4, pl@.len() - 1);
        assert forall|k: int| 0 <= k < ks.len() implies ks[k] != 0 by {
            assert(ks[k] == pl@[4 + k]);
        }
        assert(!ks.contains(0));
    }
    Some(ClientPacketData::Auth { auth_type: AuthType::Key, key })
}

/// Decodes an `EnterTtyMode` payload: a counted tty list, then a counted
/// driver name.
#[verifier::spinoff_prover]
#[verifier::rlimit(100)]
fn decode_enter_tty(pl: &Vec<u8>) -> (r: Option<ClientPacketData>)
    ensures
        match r {
            Option::Some(d) => parse_enter_tty_payload(pl@) == Some(d@),
            Option::None => parse_enter_tty_payload(pl@) is None,
        },
{
    if pl.len() < 8 {
        return None;
    }
    let m = read_u32_be(pl.as_slice(), 0) as usize;
    if m > (pl.len() - 8) / 4 {
        proof {
            assert(8 + 4 * (m as int) > pl@.len());
        }
        return None;
    }
    proof {
        assert(8 + 4 * (m as int) <= pl@.len());
    }
    let dlen_off = 4 + 4 * m;
    let dlen = read_u32_be(pl.as_slice(), dlen_off) as usize;
    if dlen != pl.len() - (8 + 4 * m) {
        proof {
            assert(8 + 4 * (m as int) + dlen as int != pl@.len());
        }
        return None;
    }
    let mut ttys: Vec<u32> = Vec::new();
    let mut i: usize = 0;
    let mut pos: usize = 4;
    while i < m
        invariant
            i <= m,
            pos == 4 + 4 * (i as int),
            8 + 4 * (m as int) <= pl@.len(),
            pl@.len() <= usize::MAX,
            ttys@.len() == i,
            forall|k: int|
                0 <= k < i ==> ttys@[k] == be_u32(#[trigger] pl@.subrange(4 + 4 * k, 4 + 4 * k + 4)),
        decreases m - i,
    {
        let x = read_u32_be(pl.as_slice(), pos);
        ttys.push(x);
        pos = pos + 4;
        i = i + 1;
    }
    let driver = subslice_vec(pl.as_slice(), 8 + 4 * m, pl.len());
    proof {
        let spec_ttys = Seq::new(
            m as nat,
            |k: int| be_u32(pl@.subrange(4 + 4 * k, 4 + 4 * k + 4)),
        );
        assert(ttys@ =~= spec_ttys);
    }
    Some(ClientPacketData::EnterTtyMode { ttys, driver })
}

/// Decodes a key-range list: sixteen bytes per range.
#[verifier::spinoff_prover]
#[verifier::rlimit(100)]
fn decode_ranges(pl: &Vec<u8>) -> (r: Option<Vec<(u64, u64)>>)
    ensures
        match r {
            Option::Some(v) => parse_ranges_payload(pl@) == Some(v@),
            Option::None => parse_ranges_payload(pl@) is None,
        },
{
    if pl.len() % 16 != 0 {
        return None;
    }
    let m = pl.len() / 16;
    let mut ranges: Vec<(u64, u64)> = Vec::new();
    let mut i: usize = 0;
    let mut pos: usize = 0;
    while i < m
        invariant
            i <= m,
            pos == 16 * (i as int),
            pl@.len() <= usize::MAX,
            m == pl@.len() / 16,
            pl@.len() % 16 == 0,
            16 * (m as int) == pl@.len(),
            ranges@.len() == i,
            forall|k: int|
                0 <= k < i ==> ranges@[k] == (
                    be_u64(#[trigger] pl@.subrange(16 * k, 16 * k + 8)),
                    be_u64(pl@.subrange(16 * k + 8, 16 * k + 16)),
                ),
        decreases m - i,
    {
        let a = read_u64_be(pl.as_slice(), pos);
        let b = read_u64_be(pl.as_slice(), pos + 8);
        ranges.push((a, b));
        pos = pos + 16;
        i = i + 1;
    }
    proof {
        let spec_ranges = Seq::new(
            (pl@.len() / 16) as nat,
            |k: int|
                (
                    be_u64(pl@.subrange(16 * k, 16 * k + 8)),
                    be_u64(pl@.subrange(16 * k + 8, 16 * k + 16)),
                ),
        );
        assert(ranges@ =~= spec_ranges);
    }
    Some(ranges)
}

/// Decodes a raw-mode or suspend payload: the fixed magic, one length
/// byte, and the driver name.
fn decode_raw(pl: &Vec<u8>) -> (r: Option<Vec<u8>>)
    ensures
        match r {
            Option::Some(v) => parse_raw_payload(pl@) == Some(v@),
            Option::None => parse_raw_payload(pl@) is None,
        },
{
    if pl.len() < 9 {
        return None;
    }
    let magic = read_u64_be(pl.as_slice(), 0);
    proof {
        assert(pl@.subrange(0int, 8int) == pl@.subrange(0int, 0int + 8));
    }
    if magic != RAW_MODE_MAGIC {
        return None;
    }
    let dlen = pl[8] as usize;
    if dlen != pl.len() - 9 {
        return None;
    }
    Some(subslice_vec(pl.as_slice(), 9, pl.len()))
}

/// Decodes a client payload under its packet type.
#[verifier::spinoff_prover]
#[verifier::rlimit(100)]
fn decode_client_payload(ty: PacketType, pl: &Vec<u8>) -> (r: Option<ClientPacketData>)
    ensures
        match r {
            Option::Some(d) => parse_client_payload(ty, pl@) == Some(d@),
            Option::None => parse_client_payload(ty, pl@) is None,
        },
{
    match ty {
        PacketType::Write => decode_write_payload(pl),
        PacketType::Packet => {
            let packet = subslice_vec(pl.as_slice(), 0, pl.len());
            proof {
                assert(packet@ =~= pl@);
            }
            Some(ClientPacketData::Packet { packet })
        },
        PacketType::Version => {
            if pl.len() == 4 {
                let version = read_u32_be(pl.as_slice(), 0);
                proof {
                    assert(pl@.subrange(0int, 0int + 4) =~= pl@);
                }
                Some(ClientPacketData::Version { version })
            } else {
                None
            }
        },
        PacketType::Auth => decode_client_auth(pl),
        PacketType::GetDriverName => {
            if pl.len() == 0 {
                Some(ClientPacketData::GetDriverName)
            } else {
                None
            }
        },
        PacketType::GetModelId => {
            if pl.len() == 0 {
                Some(ClientPacketData::GetModelId)
            } else {
                None
            }
        },
        PacketType::GetDisplaySize => {
            if pl.len() == 0 {
                Some(ClientPacketData::GetDisplaySize)
            } else {
                None
            }
        },
        PacketType::EnterTtyMode => decode_enter_tty(pl),
        PacketType::SetFocus => {
            if pl.len() == 4 {
                let tty = read_u32_be(pl.as_slice(), 0);
                proof {
                    assert(pl@.subrange(0int, 0int + 4) =~= pl@);
                }
                Some(ClientPacketData::SetFocus { tty })
            } else {
                None
            }
        },
        PacketType::LeaveTtyMode => {
            if pl.len() == 0 {
                Some(ClientPacketData::LeaveTtyMode)
            } else {
                None
            }
        },
        PacketType::IgnoreKeyRanges => {
            match decode_ranges(pl) {
                Some(ranges) => Some(ClientPacketData::IgnoreKeyRanges { ranges }),
                None => None,
            }
        },
        PacketType::AcceptKeyRanges => {
            match decode_ranges(pl) {
                Some(ranges) => Some(ClientPacketData::AcceptKeyRanges { ranges }),
                None => None,
            }
        },
        PacketType::EnterRawMode => {
            match decode_raw(pl) {
                Some(driver) => Some(ClientPacketData::EnterRawMode { driver }),
                None => None,
            }
        },
        PacketType::LeaveRawMode => {
            if pl.len() == 0 {
                Some(ClientPacketData::LeaveRawMode)
            } else {
                None
            }
        },
        PacketType::SuspendDriver => {
            match decode_raw(pl) {
                Some(driver) => Some(ClientPacketData::SuspendDriver { driver }),
                None => None,
            }
        },
        PacketType::ResumeDriver => {
            if pl.len() == 0 {
                Some(ClientPacketData::ResumeDriver)
            } else {
                None
            }
        },
        PacketType::Synchronize => {
            if pl.len() == 0 {
                Some(ClientPacketData::Synchronize)
            } else {
                None
            }
        },
        PacketType::ParameterRequest => {
            if pl.len() == 16 {
                let flags = ParameterRequestFlags::from_u32(read_u32_be(pl.as_slice(), 0));
                let parameter = read_u32_be(pl.as_slice(), 4);
                let sub_parameter = read_u64_be(pl.as_slice(), 8);
                proof {
                    assert(pl@.subrange(0int, 0int + 4) == pl@.subrange(0int, 4int));
                    assert(pl@.subrange(4int, 4int + 4) == pl@.subrange(4int, 8int));
                    assert(pl@.subrange(8int, 8int + 8) == pl@.subrange(8int, 16int));
                }
                Some(ClientPacketData::ParameterRequest { flags, parameter, sub_parameter })
            } else {
                None
            }
        },
        PacketType::ParameterValue => {
            if pl.len() >= 16 {
                let flags = ParameterValueFlags::from_u32(read_u32_be(pl.as_slice(), 0));
                let parameter = read_u32_be(pl.as_slice(), 4);
                let sub_parameter = read_u64_be(pl.as_slice(), 8);
                let value = subslice_vec(pl.as_slice(), 16, pl.len());
                proof {
                    assert(pl@.subrange(0int, 0int + 4) == pl@.subrange(0int, 4int));
                    assert(pl@.subrange(4int, 4int + 4) == pl@.subrange(4int, 8int));
                    assert(pl@.subrange(8int, 8int + 8) == pl@.subrange(8int, 16int));
                }
                Some(ClientPacketData::ParameterValue { flags, parameter, sub_parameter, value })
            } else {
                None
            }
        },
        _ => None,
    }
}

/// Decodes a server payload under its packet type.
#[verifier::spinoff_prover]
#[verifier::rlimit(100)]
fn decode_server_payload(ty: PacketType, pl: &Vec<u8>) -> (r: Option<ServerPacketData>)
    ensures
        match r {
            Option::Some(d) => parse_server_payload(ty, pl@) == Some(d@),
            Option::None => parse_server_payload(ty, pl@) is None,
        },
{
    match ty {
        PacketType::Ack => {
            if pl.len() == 0 {
                Some(ServerPacketData::Ack)
            } else {
                None
            }
        },
        PacketType::Error => {
            if pl.len() >= 8 {
                let code = match ErrorCode::from_code(read_u32_be(pl.as_slice(), 0)) {
                    Some(c) => c,
                    None => {
                        proof {
                            assert(pl@.subrange(0int, 0int + 4) == pl@.subrange(0int, 4int));
                        }
                        return None;
                    },
                };
                let packet_type = match PacketType::from_magic(read_u32_be(pl.as_slice(), 4)) {
                    Some(t) => t,
                    None => {
                        proof {
                            assert(pl@.subrange(0int, 0int + 4) == pl@.subrange(0int, 4int));
                            assert(pl@.subrange(4int, 4int + 4) == pl@.subrange(4int, 8int));
                        }
                        return None;
                    },
                };
                let packet_data = subslice_vec(pl.as_slice(), 8, pl.len());
                proof {
                    assert(pl@.subrange(0int, 0int + 4) == pl@.subrange(0int, 4int));
                    assert(pl@.subrange(4int, 4int + 4) == pl@.subrange(4int, 8int));
                }
                Some(ServerPacketData::Error { code, packet_type, packet_data })
            } else {
                None
            }
        },
        PacketType::Exception => {
            let packet = subslice_vec(pl.as_slice(), 0, pl.len());
            proof {
                assert(packet@ =~= pl@);
            }
            Some(ServerPacketData::Exception { packet })
        },
        PacketType::Key => {
            if pl.len() == 8 {
                let word = read_u64_be(pl.as_slice(), 0);
                proof {
                    assert(pl@.subrange(0int, 0int + 8) =~= pl@);
                }
                Some(ServerPacketData::Key { key: Keycode::unpack(word) })
            } else {
                None
            }
        },
        PacketType::Packet => {
            let packet = subslice_vec(pl.as_slice(), 0, pl.len());
            proof {
                assert(packet@ =~= pl@);
            }
            Some(ServerPacketData::Packet { packet })
        },
        PacketType::Version => {
            if pl.len() == 4 {
                let version = read_u32_be(pl.as_slice(), 0);
                proof {
                    assert(pl@.subrange(0int, 0int + 4) =~= pl@);
                }
                Some(ServerPacketData::Version { version })
            } else {
                None
            }
        },
        PacketType::Auth => decode_server_auth(pl),
        PacketType::GetDriverName => {
            match decode_nul_string(pl) {
                Some(driver) => Some(ServerPacketData::GetDriverName { driver }),
                None => None,
            }
        },
        PacketType::GetModelId => {
            match decode_nul_string(pl) {
                Some(model) => Some(ServerPacketData::GetModelId { model }),
                None => None,
            }
        },
        PacketType::GetDisplaySize => {
            if pl.len() == 8 {
                let width = read_u32_be(pl.as_slice(), 0);
                let height = read_u32_be(pl.as_slice(), 4);
                proof {
                    assert(pl@.subrange(0int, 0int + 4) == pl@.subrange(0int, 4int));
                    assert(pl@.subrange(4int, 4int + 4) == pl@.subrange(4int, 8int));
                }
                Some(ServerPacketData::GetDisplaySize { width, height })
            } else {
                None
            }
        },
        PacketType::ParameterValue => {
            if pl.len() >= 16 {
                let flags = ParameterValueFlags::from_u32(read_u32_be(pl.as_slice(), 0));
                let parameter = read_u32_be(pl.as_slice(), 4);
                let sub_parameter = read_u64_be(pl.as_slice(), 8);
                let value = subslice_vec(pl.as_slice(), 16, pl.len());
                proof {
                    assert(pl@.subrange(0int, 0int + 4) == pl@.subrange(0int, 4int));
                    assert(pl@.subrange(4int, 4int + 4) == pl@.subrange(4int, 8int));
                    assert(pl@.subrange(8int, 8int + 8) == pl@.subrange(8int, 16int));
                }
                Some(ServerPacketData::ParameterValue { flags, parameter, sub_parameter, value })
            } else {
                None
            }
        },
        PacketType::ParameterUpdate => {
            if pl.len() >= 16 {
                let flags = ParameterValueFlags::from_u32(read_u32_be(pl.as_slice(), 0));
                let parameter = read_u32_be(pl.as_slice(), 4);
                let sub_parameter = read_u64_be(pl.as_slice(), 8);
                let value = subslice_vec(pl.as_slice(), 16, pl.len());
                proof {
                    assert(pl@.subrange(0int, 0int + 4) == pl@.subrange(0int, 4int));
                    assert(pl@.subrange(4int, 4int + 4) == pl@.subrange(4int, 8int));
                    assert(pl@.subrange(8int, 8int + 8) == pl@.subrange(8int, 16int));
                }
                Some(ServerPacketData::ParameterUpdate { flags, parameter, sub_parameter, value })
            } else {
                None
            }
        },
        _ => None,
    }
}

/// Decodes a server `Auth` payload: a list of four-byte method magics.
#[verifier::spinoff_prover]
#[verifier::rlimit(100)]
fn decode_server_auth(pl: &Vec<u8>) -> (r: Option<ServerPacketData>)
    ensures
        match r {
            Option::Some(d) => parse_server_payload(PacketType::Auth, pl@) == Some(d@),
            Option::None => parse_server_payload(PacketType::Auth, pl@) is None,
        },
{
    if pl.len() % 4 != 0 {
        return None;
    }
    let m = pl.len() / 4;
    let mut auth_types: Vec<AuthType> = Vec::new();
    let mut i: usize = 0;
    let mut pos: usize = 0;
    while i < m
        invariant
            i <= m,
            pos == 4 * (i as int),
            pl@.len() <= usize::MAX,
            m == pl@.len() / 4,
            pl@.len() % 4 == 0,
            4 * (m as int) == pl@.len(),
            auth_types@.len() == i,
            forall|k: int|
                0 <= k < i ==> AuthType::spec_from_magic(
                    be_u32(#[trigger] pl@.subrange(4 * k, 4 * k + 4)),
                ) == Some(auth_types@[k]),
        decreases m - i,
    {
        let word = read_u32_be(pl.as_slice(), pos);
        match AuthType::from_magic(word) {
            Some(a) => {
                auth_types.push(a);
            },
            None => {
                proof {
                    assert(AuthType::spec_from_magic(
                        be_u32(pl@.subrange(4 * (i as int), 4 * (i as int) + 4)),
                    ) is None);
                }
                return None;
            },
        }
        pos = pos + 4;
        i = i + 1;
    }
    proof {
        assert forall|k: int| 0 <= k < pl@.len() / 4 implies AuthType::spec_from_magic(
            be_u32(#[trigger] pl@.subrange(4 * k, 4 * k + 4)),
        ) is Some by {}
        let spec_list = Seq::new(
            (pl@.len() / 4) as nat,
            |k: int| AuthType::spec_from_magic(be_u32(pl@.subrange(4 * k, 4 * k + 4)))->0,
        );
        assert(auth_types@ =~= spec_list);
    }
    Some(ServerPacketData::Auth { auth_types })
}

/// Decodes a NUL-terminated string payload: the bytes before the final
/// NUL, which must be the only one.
fn decode_nul_string(pl: &Vec<u8>) -> (r: Option<Vec<u8>>)
    ensures
        match r {
            Option::Some(v) => pl@.len() >= 1 && pl@[pl@.len() - 1] == 0 && !pl@.subrange(
                0,
                pl@.len() - 1,
            ).contains(0) && v@ == pl@.subrange(0, pl@.len() - 1),
            Option::None => !(pl@.len() >= 1 && pl@[pl@.len() - 1] == 0 && !pl@.subrange(
                0,
                pl@.len() - 1,
            ).contains(0)),
        },
{
    if pl.len() < 1 {
        return None;
    }
    if pl[pl.len() - 1] != 0 {
        return None;
    }
    let end = pl.len() - 1;
    let mut i: usize = 0;
    while i < end
        invariant
            i <= end < pl@.len(),
            forall|k: int| 0 <= k < i ==> pl@[k] != 0,
        decreases end - i,
    {
        if pl[i] == 0 {
            proof {
                assert(pl@.subrange(0, pl@.len() - 1)[i as int] == 0);
                assert(pl@.subrange(0, pl@.len() - 1).contains(0));
            }
            return None;
        }
        i = i + 1;
    }
    let v = subslice_vec(pl.as_slice(), 0, end);
    proof {
        let ks = pl@.subrange(0, pl@.len() - 1);
        assert forall|k: int| 0 <= k < ks.len() implies ks[k] != 0 by {
            assert(ks[k] == pl@[k]);
        }
        assert(!ks.contains(0));
    }
    Some(v)
}

/// Decodes one full client frame: the declared size must match the frame
/// exactly, the magic must be known, and the payload must parse to its
/// end.  A frame cut short is `UnexpectedEof`; every other failure is
/// `InvalidPacket`.
pub fn decode_client_packet(bytes: &[u8]) -> (r: Result<ClientPacket, ErrorCode>)
    ensures
        match r {
            Result::Ok(p) => spec_parse_client(bytes@) == Some(p@) && p@.wf(),
            Result::Err(e) => spec_parse_client(bytes@) is None && e == spec_decode_failure(
                bytes@,
            ),
        },
{
    if bytes.len() < 8 {
        return Err(ErrorCode::UnexpectedEof);
    }
    let size = read_u32_be(bytes, 0) as usize;
    if bytes.len() - 8 < size {
        return Err(ErrorCode::UnexpectedEof);
    }
    if bytes.len() - 8 > size {
        return Err(ErrorCode::InvalidPacket);
    }
    let magic = read_u32_be(bytes, 4);
    let ty = match PacketType::from_magic(magic) {
        Some(t) => t,
        None => {
            return Err(ErrorCode::InvalidPacket);
        },
    };
    let pl = subslice_vec(bytes, 8, bytes.len());
    match decode_client_payload(ty, &pl) {
        Some(data) => {
            proof {
                lemma_client_parse_sound(bytes@);
            }
            Ok(ClientPacket { ty, data })
        },
        None => Err(ErrorCode::InvalidPacket),
    }
}

/// Decodes one full server frame, under the same rules as the client
/// side.
pub fn decode_server_packet(bytes: &[u8]) -> (r: Result<ServerPacket, ErrorCode>)
    ensures
        match r {
            Result::Ok(p) => spec_parse_server(bytes@) == Some(p@) && p@.wf(),
            Result::Err(e) => spec_parse_server(bytes@) is None && e == spec_decode_failure(
                bytes@,
            ),
        },
{
    if bytes.len() < 8 {
        return Err(ErrorCode::UnexpectedEof);
    }
    let size = read_u32_be(bytes, 0) as usize;
    if bytes.len() - 8 < size {
        return Err(ErrorCode::UnexpectedEof);
    }
    if bytes.len() - 8 > size {
        return Err(ErrorCode::InvalidPacket);
    }
    let magic = read_u32_be(bytes, 4);
    let ty = match PacketType::from_magic(magic) {
        Some(t) => t,
        None => {
            return Err(ErrorCode::InvalidPacket);
        },
    };
    let pl = subslice_vec(bytes, 8, bytes.len());
    match decode_server_payload(ty, &pl) {
        Some(data) => {
            proof {
                lemma_server_parse_sound(bytes@);
            }
            Ok(ServerPacket { ty, data })
        },
        None => Err(ErrorCode::InvalidPacket),
    }
}

} // verus!
