use vstd::prelude::*;

use crate::keycode::Keycode;
use crate::packets::{
    auth_item_fn, enc_opt_bytes, enc_opt_len_bytes, enc_opt_region, enc_opt_u32,
    lemma_client_payload_len, lemma_server_payload_len, range_item_fn, spec_write_flags_word,
    u32_item_fn, AuthType, ClientPacketDataView, ClientPacketView, ErrorCode, PacketType,
    ServerPacketDataView, ServerPacketView, PARAMETER_REQUEST_FLAGS_MASK,
    PARAMETER_VALUE_FLAGS_MASK, RAW_MODE_MAGIC, WRITE_FLAGS_MASK, WRITE_FLAG_AND,
    WRITE_FLAG_CHARSET, WRITE_FLAG_CURSOR, WRITE_FLAG_DISPLAY_NUMBER, WRITE_FLAG_OR,
    WRITE_FLAG_REGION, WRITE_FLAG_TEXT,
};
use crate::parse::{
    canon_client_frame, canon_client_payload, canon_server_frame, canon_server_payload,
    parse_bytes_at, parse_client_auth_payload,
    parse_client_payload, parse_enter_tty_payload,
    parse_opt_bytes, parse_opt_len_bytes, parse_opt_region, parse_opt_u32, parse_ranges_payload,
    parse_raw_payload, parse_server_payload, parse_u32_at, parse_write_head, parse_write_payload,
    parse_write_tail, spec_parse_client,
    spec_parse_server,
};
use crate::wire::{
    be_u32, be_u64, enc_list, lemma_be_u32_round, lemma_be_u64_round, lemma_chunks_of_enc_list,
    lemma_enc_list_index, lemma_enc_list_len, lemma_enc_list_of_chunks, lemma_u32_be_round,
    lemma_u64_be_round, u32_be, u64_be,
};

verus! {

// The round-trip laws of the codec.  Parsing the encoding of any
// well-formed packet yields that packet back; the encoding of anything a
// byte string parses to is that byte string again, as long as its flag
// words carried no undefined bits; and the declared size of every frame
// is the length of the bytes after the eight-byte header.

/// Every packet type is recovered from its own magic.
pub proof fn lemma_packet_magic_round(ty: PacketType)
    ensures
        PacketType::spec_from_magic(ty.spec_magic()) == Some(ty),
{
}

/// A known magic determines its packet type's encoding.
pub proof fn lemma_packet_magic_inverse(value: u32)
    requires
        PacketType::spec_from_magic(value) is Some,
    ensures
        PacketType::spec_from_magic(value)->0.spec_magic() == value,
{
}

/// Every authentication type is recovered from its own magic.
pub proof fn lemma_auth_magic_round(a: AuthType)
    ensures
        AuthType::spec_from_magic(a.spec_magic()) == Some(a),
{
}

/// A known magic determines its authentication type's encoding.
pub proof fn lemma_auth_magic_inverse(value: u32)
    requires
        AuthType::spec_from_magic(value) is Some,
    ensures
        AuthType::spec_from_magic(value)->0.spec_magic() == value,
{
}

/// Every error code is recovered from its own numeric value.
pub proof fn lemma_error_code_round(c: ErrorCode)
    ensures
        ErrorCode::spec_from_code(c.spec_code()) == Some(c),
{
}

/// A known numeric value determines its error code's encoding.
pub proof fn lemma_error_code_inverse(value: u32)
    requires
        ErrorCode::spec_from_code(value) is Some,
    ensures
        ErrorCode::spec_from_code(value)->0.spec_code() == value,
{
}

/// The flag word computed for a `Write` payload has exactly the defined
/// bits of the fields that are present.
proof fn lemma_write_flags_word_props(
    d: bool,
    r: bool,
    t: bool,
    an: bool,
    o: bool,
    c: bool,
    cs: bool,
)
    ensures
        ({
            let w = spec_write_flags_word(d, r, t, an, o, c, cs);
            &&& w & WRITE_FLAGS_MASK == w
            &&& (w & 1 != 0) == d
            &&& (w & 2 != 0) == r
            &&& (w & 4 != 0) == t
            &&& (w & 8 != 0) == an
            &&& (w & 16 != 0) == o
            &&& (w & 32 != 0) == c
            &&& (w & 64 != 0) == cs
        }),
{
    let w = spec_write_flags_word(d, r, t, an, o, c, cs);
    assert({
        let v = (if d {
            1u32
        } else {
            0u32
        }) | (if r {
            2u32
        } else {
            0u32
        }) | (if t {
            4u32
        } else {
            0u32
        }) | (if an {
            8u32
        } else {
            0u32
        }) | (if o {
            16u32
        } else {
            0u32
        }) | (if c {
            32u32
        } else {
            0u32
        }) | (if cs {
            64u32
        } else {
            0u32
        });
        &&& v & 0x7f == v
        &&& (v & 1 != 0) == d
        &&& (v & 2 != 0) == r
        &&& (v & 4 != 0) == t
        &&& (v & 8 != 0) == an
        &&& (v & 16 != 0) == o
        &&& (v & 32 != 0) == c
        &&& (v & 64 != 0) == cs
    }) by (bit_vector);
}

/// A flag word without undefined bits is recomputed unchanged from the
/// presence of the fields it announces.
proof fn lemma_write_flags_word_rebuild(w: u32)
    requires
        w & WRITE_FLAGS_MASK == w,
    ensures
        spec_write_flags_word(
            w & 1 != 0,
            w & 2 != 0,
            w & 4 != 0,
            w & 8 != 0,
            w & 16 != 0,
            w & 32 != 0,
            w & 64 != 0,
        ) == w,
{
    assert({
        let v = (if w & 1 != 0 {
            1u32
        } else {
            0u32
        }) | (if w & 2 != 0 {
            2u32
        } else {
            0u32
        }) | (if w & 4 != 0 {
            4u32
        } else {
            0u32
        }) | (if w & 8 != 0 {
            8u32
        } else {
            0u32
        }) | (if w & 16 != 0 {
            16u32
        } else {
            0u32
        }) | (if w & 32 != 0 {
            32u32
        } else {
            0u32
        }) | (if w & 64 != 0 {
            64u32
        } else {
            0u32
        });
        w & 0x7f == w ==> v == w
    }) by (bit_vector);
}

/// A subrange that ends within the left part of a concatenation reads
/// from the left part alone.
proof fn lemma_prefix_subrange(x: Seq<u8>, y: Seq<u8>, a: int, b: int)
    requires
        0 <= a <= b <= x.len(),
    ensures
        (x + y).subrange(a, b) == x.subrange(a, b),
{
    assert((x + y).subrange(a, b) =~= x.subrange(a, b));
}

/// The bytes appended to a sequence stand at its old length.
proof fn lemma_suffix_chunk(x: Seq<u8>, y: Seq<u8>)
    ensures
        (x + y).subrange(x.len() as int, x.len() + y.len() as int) == y,
{
    assert((x + y).subrange(x.len() as int, x.len() + y.len() as int) =~= y);
}

proof fn lemma_parse_u32_step(pl: Seq<u8>, pos: int, x: u32)
    requires
        0 <= pos,
        pos + 4 <= pl.len(),
        pl.subrange(pos, pos + 4) == u32_be(x),
    ensures
        parse_u32_at(pl, pos) == Some((x, pos + 4)),
{
    lemma_u32_be_round(x);
}

proof fn lemma_parse_opt_u32_step(pl: Seq<u8>, pos: int, o: Option<u32>)
    requires
        0 <= pos <= pl.len(),
        o is Some ==> pos + 4 <= pl.len() && pl.subrange(pos, pos + 4) == u32_be(o->0),
    ensures
        parse_opt_u32(pl, pos, o is Some) == Some(
            (
                o,
                pos + (if o is Some {
                    4int
                } else {
                    0int
                }),
            ),
        ),
{
    if o is Some {
        lemma_parse_u32_step(pl, pos, o->0);
    }
}

proof fn lemma_parse_opt_region_step(pl: Seq<u8>, pos: int, o: Option<(u32, u32)>)
    requires
        0 <= pos <= pl.len(),
        o is Some ==> pos + 8 <= pl.len() && pl.subrange(pos, pos + 8) == enc_opt_region(o),
    ensures
        parse_opt_region(pl, pos, o is Some) == Some(
            (
                o,
                pos + (if o is Some {
                    8int
                } else {
                    0int
                }),
            ),
        ),
{
    if o is Some {
        let chunk = pl.subrange(pos, pos + 8);
        assert(pl.subrange(pos, pos + 4) =~= chunk.subrange(0, 4));
        assert(pl.subrange(pos + 4, pos + 8) =~= chunk.subrange(4, 8));
        lemma_prefix_subrange(u32_be((o->0).0), u32_be((o->0).1), 0, 4);
        assert(u32_be((o->0).0).subrange(0, 4) =~= u32_be((o->0).0));
        lemma_suffix_chunk(u32_be((o->0).0), u32_be((o->0).1));
        lemma_parse_u32_step(pl, pos, (o->0).0);
        lemma_parse_u32_step(pl, pos + 4, (o->0).1);
    }
}

proof fn lemma_parse_opt_len_bytes_step(pl: Seq<u8>, pos: int, o: Option<Seq<u8>>)
    requires
        0 <= pos <= pl.len(),
        o is Some ==> o->0.len() <= 0xffff_ffff && pos + 4 + o->0.len() <= pl.len()
            && pl.subrange(pos, pos + 4 + o->0.len() as int) == enc_opt_len_bytes(o),
    ensures
        parse_opt_len_bytes(pl, pos, o is Some) == Some(
            (
                o,
                pos + (if o is Some {
                    4 + o->0.len() as int
                } else {
                    0int
                }),
            ),
        ),
{
    if o is Some {
        let b = o->0;
        let chunk = pl.subrange(pos, pos + 4 + b.len() as int);
        assert(pl.subrange(pos, pos + 4) =~= chunk.subrange(0, 4));
        assert(pl.subrange(pos + 4, pos + 4 + b.len() as int) =~= chunk.subrange(
            4,
            4 + b.len() as int,
        ));
        lemma_prefix_subrange(u32_be(b.len() as u32), b, 0, 4);
        assert(u32_be(b.len() as u32).subrange(0, 4) =~= u32_be(b.len() as u32));
        lemma_suffix_chunk(u32_be(b.len() as u32), b);
        lemma_parse_u32_step(pl, pos, b.len() as u32);
        assert((b.len() as u32) as int == b.len() as int);
        assert(parse_bytes_at(pl, pos + 4, b.len() as int) == Some((b, pos + 4 + b.len() as int)));
    }
}

proof fn lemma_parse_opt_bytes_step(pl: Seq<u8>, pos: int, o: Option<Seq<u8>>, n: int)
    requires
        0 <= pos <= pl.len(),
        0 <= n,
        o is Some ==> o->0.len() == n && pos + n <= pl.len() && pl.subrange(pos, pos + n) == o->0,
    ensures
        parse_opt_bytes(pl, pos, o is Some, n) == Some(
            (
                o,
                pos + (if o is Some {
                    n
                } else {
                    0int
                }),
            ),
        ),
{
}

/// The eight consecutive chunks of an encoded `Write` payload.
spec fn write_chunk(d: ClientPacketDataView, i: int) -> Seq<u8> {
    match d {
        ClientPacketDataView::Write { display_number, region, text, and, or, cursor, charset } => {
            if i == 0 {
                u32_be(
                    spec_write_flags_word(
                        display_number is Some,
                        region is Some,
                        text is Some,
                        and is Some,
                        or is Some,
                        cursor is Some,
                        charset is Some,
                    ),
                )
            } else if i == 1 {
                enc_opt_u32(display_number)
            } else if i == 2 {
                enc_opt_region(region)
            } else if i == 3 {
                enc_opt_len_bytes(text)
            } else if i == 4 {
                enc_opt_bytes(and)
            } else if i == 5 {
                enc_opt_bytes(or)
            } else if i == 6 {
                enc_opt_u32(cursor)
            } else {
                enc_opt_len_bytes(charset)
            }
        },
        _ => Seq::empty(),
    }
}

/// Offset of chunk `i` within an encoded `Write` payload.
spec fn write_off(d: ClientPacketDataView, i: int) -> int
    decreases i,
{
    if i <= 0 {
        0
    } else {
        write_off(d, i - 1) + write_chunk(d, i - 1).len()
    }
}

/// The payload of a `Write` is its eight chunks in order.
proof fn lemma_write_chunk_at(d: ClientPacketDataView, i: int)
    requires
        d is Write,
        0 <= i < 8,
    ensures
        write_off(d, 8) == d.enc_payload().len(),
        write_off(d, i + 1) == write_off(d, i) + write_chunk(d, i).len(),
        d.enc_payload().subrange(write_off(d, i), write_off(d, i + 1)) == write_chunk(d, i),
{
    reveal_with_fuel(write_off, 10);
    let pl = d.enc_payload();
    let s0 = write_chunk(d, 0);
    let s1 = s0 + write_chunk(d, 1);
    let s2 = s1 + write_chunk(d, 2);
    let s3 = s2 + write_chunk(d, 3);
    let s4 = s3 + write_chunk(d, 4);
    let s5 = s4 + write_chunk(d, 5);
    let s6 = s5 + write_chunk(d, 6);
    let s7 = s6 + write_chunk(d, 7);
    assert(pl == s7);
    assert(s0.len() == write_off(d, 1) && s1.len() == write_off(d, 2) && s2.len() == write_off(
        d,
        3,
    ) && s3.len() == write_off(d, 4) && s4.len() == write_off(d, 5) && s5.len() == write_off(d, 6)
        && s6.len() == write_off(d, 7) && s7.len() == write_off(d, 8));
    let a = write_off(d, i);
    let b = write_off(d, i + 1);
    if i == 0 {
        assert(s0.subrange(0, s0.len() as int) =~= s0);
    } else if i == 1 {
        lemma_suffix_chunk(s0, write_chunk(d, 1));
    } else if i == 2 {
        lemma_suffix_chunk(s1, write_chunk(d, 2));
    } else if i == 3 {
        lemma_suffix_chunk(s2, write_chunk(d, 3));
    } else if i == 4 {
        lemma_suffix_chunk(s3, write_chunk(d, 4));
    } else if i == 5 {
        lemma_suffix_chunk(s4, write_chunk(d, 5));
    } else if i == 6 {
        lemma_suffix_chunk(s5, write_chunk(d, 6));
    } else {
        lemma_suffix_chunk(s6, write_chunk(d, 7));
    }
    if b <= s0.len() {
        lemma_prefix_subrange(s0, write_chunk(d, 1), a, b);
    }
    if b <= s1.len() {
        lemma_prefix_subrange(s1, write_chunk(d, 2), a, b);
    }
    if b <= s2.len() {
        lemma_prefix_subrange(s2, write_chunk(d, 3), a, b);
    }
    if b <= s3.len() {
        lemma_prefix_subrange(s3, write_chunk(d, 4), a, b);
    }
    if b <= s4.len() {
        lemma_prefix_subrange(s4, write_chunk(d, 5), a, b);
    }
    if b <= s5.len() {
        lemma_prefix_subrange(s5, write_chunk(d, 6), a, b);
    }
    if b <= s6.len() {
        lemma_prefix_subrange(s6, write_chunk(d, 7), a, b);
    }
}

/// The first half of the parse of an encoded `Write` yields the flag
/// word and the first three optional fields.
#[verifier::spinoff_prover]
#[verifier::rlimit(100)]
proof fn lemma_write_head_round(d: ClientPacketDataView)
    requires
        d.wf(),
        d is Write,
    ensures
        d matches ClientPacketDataView::Write { display_number, region, text, .. }
            ==> parse_write_head(d.enc_payload()) == Some(
            (
                spec_write_flags_word(
                    display_number is Some,
                    region is Some,
                    text is Some,
                    d->and is Some,
                    d->or is Some,
                    d->cursor is Some,
                    d->charset is Some,
                ),
                display_number,
                region,
                text,
                write_off(d, 4),
            ),
        ),
{
    let pl = d.enc_payload();
    if let ClientPacketDataView::Write { display_number, region, text, and, or, cursor, charset }
        = d {
        let w = spec_write_flags_word(
            display_number is Some,
            region is Some,
            text is Some,
            and is Some,
            or is Some,
            cursor is Some,
            charset is Some,
        );
        lemma_write_flags_word_props(
            display_number is Some,
            region is Some,
            text is Some,
            and is Some,
            or is Some,
            cursor is Some,
            charset is Some,
        );
        lemma_write_chunk_at(d, 0);
        lemma_write_chunk_at(d, 1);
        lemma_write_chunk_at(d, 2);
        lemma_write_chunk_at(d, 3);
        let o1 = write_off(d, 1);
        let o2 = write_off(d, 2);
        let o3 = write_off(d, 3);
        let o4 = write_off(d, 4);
        assert(write_off(d, 0) == 0);
        assert(pl.subrange(0, 4) == u32_be(w));
        lemma_parse_u32_step(pl, 0, w);
        assert(w & WRITE_FLAGS_MASK == w);
        lemma_parse_opt_u32_step(pl, o1, display_number);
        lemma_parse_opt_region_step(pl, o2, region);
        lemma_parse_opt_len_bytes_step(pl, o3, text);
        assert(parse_write_head(pl) == Some((w, display_number, region, text, o4)));
    }
}

/// The second half of the parse of an encoded `Write` yields the packet.
#[verifier::spinoff_prover]
#[verifier::rlimit(100)]
proof fn lemma_write_tail_round(d: ClientPacketDataView)
    requires
        d.wf(),
        d is Write,
    ensures
        d matches ClientPacketDataView::Write { display_number, region, text, .. }
            ==> parse_write_tail(
            d.enc_payload(),
            spec_write_flags_word(
                display_number is Some,
                region is Some,
                text is Some,
                d->and is Some,
                d->or is Some,
                d->cursor is Some,
                d->charset is Some,
            ),
            display_number,
            region,
            text,
            write_off(d, 4),
        ) == Some(d),
{
    let pl = d.enc_payload();
    if let ClientPacketDataView::Write { display_number, region, text, and, or, cursor, charset }
        = d {
        let w = spec_write_flags_word(
            display_number is Some,
            region is Some,
            text is Some,
            and is Some,
            or is Some,
            cursor is Some,
            charset is Some,
        );
        lemma_write_flags_word_props(
            display_number is Some,
            region is Some,
            text is Some,
            and is Some,
            or is Some,
            cursor is Some,
            charset is Some,
        );
        lemma_write_chunk_at(d, 0);
        lemma_write_chunk_at(d, 1);
        lemma_write_chunk_at(d, 2);
        lemma_write_chunk_at(d, 3);
        lemma_write_chunk_at(d, 4);
        lemma_write_chunk_at(d, 5);
        lemma_write_chunk_at(d, 6);
        lemma_write_chunk_at(d, 7);
        let o4 = write_off(d, 4);
        let o5 = write_off(d, 5);
        let o6 = write_off(d, 6);
        let o7 = write_off(d, 7);
        let o8 = write_off(d, 8);
        assert(write_off(d, 0) == 0);
        let rlen = if region is Some {
            (region->0).1 as int
        } else {
            0int
        };
        lemma_parse_opt_bytes_step(pl, o4, and, rlen);
        lemma_parse_opt_bytes_step(pl, o5, or, rlen);
        lemma_parse_opt_u32_step(pl, o6, cursor);
        lemma_parse_opt_len_bytes_step(pl, o7, charset);
        assert(parse_write_tail(pl, w, display_number, region, text, o4) == Some(d));
    }
}

/// Parsing the encoded payload of a well-formed `Write` yields its
/// fields back.
#[verifier::spinoff_prover]
proof fn lemma_write_payload_round(d: ClientPacketDataView)
    requires
        d.wf(),
        d is Write,
    ensures
        parse_write_payload(d.enc_payload()) == Some(d),
{
    lemma_write_head_round(d);
    lemma_write_tail_round(d);
}

/// Parsing the encoded payload of any well-formed client variant yields
/// that variant back.
#[verifier::spinoff_prover]
#[verifier::rlimit(100)]
proof fn lemma_client_payload_round(d: ClientPacketDataView)
    requires
        d.wf(),
    ensures
        parse_client_payload(d.spec_ty(), d.enc_payload()) == Some(d),
{
    let pl = d.enc_payload();
    lemma_client_payload_len(d);
    match d {
        ClientPacketDataView::Write { .. } => {
            lemma_write_payload_round(d);
        },
        ClientPacketDataView::Packet { packet } => {},
        ClientPacketDataView::Version { version } => {
            lemma_u32_be_round(version);
        },
        ClientPacketDataView::Auth { auth_type, key } => {
            lemma_u32_be_round(auth_type.spec_magic());
            assert(pl.subrange(0, 4) =~= u32_be(auth_type.spec_magic()));
            assert(pl[pl.len() - 1] == 0);
            assert(pl.subrange(4, pl.len() - 1) =~= key);
            assert(parse_client_auth_payload(pl) == Some(d));
        },
        ClientPacketDataView::GetDriverName => {},
        ClientPacketDataView::GetModelId => {},
        ClientPacketDataView::GetDisplaySize => {},
        ClientPacketDataView::EnterTtyMode { ttys, driver } => {
            assert(forall|x: u32| (#[trigger] u32_item_fn()(x)).len() == 4);
            lemma_enc_list_len(ttys, u32_item_fn(), 4);
            let lst = enc_list(ttys, u32_item_fn());
            let m = ttys.len() as int;
            lemma_u32_be_round(ttys.len() as u32);
            lemma_u32_be_round(driver.len() as u32);
            assert(pl.len() == 8 + 4 * m + driver.len());
            assert(pl.subrange(0, 4) =~= u32_be(ttys.len() as u32));
            assert((ttys.len() as u32) as int == m);
            assert(pl.subrange(4 + 4 * m, 8 + 4 * m) =~= u32_be(driver.len() as u32));
            assert((driver.len() as u32) as int == driver.len() as int);
            assert(pl.subrange(8 + 4 * m, pl.len() as int) =~= driver);
            assert forall|x: u32| #[trigger] be_u32(u32_item_fn()(x)) == x by {
                lemma_u32_be_round(x);
            }
            lemma_chunks_of_enc_list(ttys, u32_item_fn(), |b: Seq<u8>| be_u32(b), 4);
            let parsed = Seq::new(m as nat, |i: int| be_u32(pl.subrange(4 + 4 * i, 4 + 4 * i + 4)));
            assert forall|i: int| 0 <= i < m implies parsed[i] == ttys[i] by {
                assert(pl.subrange(4 + 4 * i, 4 + 4 * i + 4) =~= lst.subrange(4 * i, 4 * i + 4));
                assert(Seq::new(
                    ttys.len(),
                    |i: int| be_u32(lst.subrange(4 * i, 4 * i + 4)),
                )[i] == ttys[i]);
            }
            assert(parsed =~= ttys);
            assert(parse_enter_tty_payload(pl) == Some(d));
        },
        ClientPacketDataView::SetFocus { tty } => {
            lemma_u32_be_round(tty);
        },
        ClientPacketDataView::LeaveTtyMode => {},
        ClientPacketDataView::IgnoreKeyRanges { ranges } => {
            lemma_ranges_payload_round(ranges);
        },
        ClientPacketDataView::AcceptKeyRanges { ranges } => {
            lemma_ranges_payload_round(ranges);
        },
        ClientPacketDataView::EnterRawMode { driver } => {
            lemma_raw_payload_round(driver);
        },
        ClientPacketDataView::LeaveRawMode => {},
        ClientPacketDataView::SuspendDriver { driver } => {
            lemma_raw_payload_round(driver);
        },
        ClientPacketDataView::ResumeDriver => {},
        ClientPacketDataView::Synchronize => {},
        ClientPacketDataView::ParameterRequest { flags, parameter, sub_parameter } => {
            lemma_u32_be_round(flags.bits);
            lemma_u32_be_round(parameter);
            lemma_u64_be_round(sub_parameter);
            assert(pl.subrange(0, 4) =~= u32_be(flags.bits));
            assert(pl.subrange(4, 8) =~= u32_be(parameter));
            assert(pl.subrange(8, 16) =~= u64_be(sub_parameter));
        },
        ClientPacketDataView::ParameterValue { flags, parameter, sub_parameter, value } => {
            lemma_u32_be_round(flags.bits);
            lemma_u32_be_round(parameter);
            lemma_u64_be_round(sub_parameter);
            assert(pl.subrange(0, 4) =~= u32_be(flags.bits));
            assert(pl.subrange(4, 8) =~= u32_be(parameter));
            assert(pl.subrange(8, 16) =~= u64_be(sub_parameter));
            assert(pl.subrange(16, pl.len() as int) =~= value);
        },
    }
}

/// The encoded list of key ranges parses back to the same ranges.
proof fn lemma_ranges_payload_round(ranges: Seq<(u64, u64)>)
    ensures
        parse_ranges_payload(enc_list(ranges, range_item_fn())) == Some(ranges),
{
    let pl = enc_list(ranges, range_item_fn());
    assert(forall|r: (u64, u64)| (#[trigger] range_item_fn()(r)).len() == 16);
    lemma_enc_list_len(ranges, range_item_fn(), 16);
    let m = ranges.len() as int;
    assert(pl.len() % 16 == 0);
    let parsed = Seq::new(
        (pl.len() / 16) as nat,
        |i: int|
            (be_u64(pl.subrange(16 * i, 16 * i + 8)), be_u64(pl.subrange(16 * i + 8, 16 * i + 16))),
    );
    assert forall|i: int| 0 <= i < m implies parsed[i] == ranges[i] by {
        lemma_enc_list_index(ranges, range_item_fn(), 16, i);
        let chunk = pl.subrange(16 * i, 16 * i + 16);
        assert(chunk == range_item_fn()(ranges[i]));
        lemma_u64_be_round(ranges[i].0);
        lemma_u64_be_round(ranges[i].1);
        assert(pl.subrange(16 * i, 16 * i + 8) =~= chunk.subrange(0, 8));
        assert(pl.subrange(16 * i + 8, 16 * i + 16) =~= chunk.subrange(8, 16));
        assert(chunk.subrange(0, 8) =~= u64_be(ranges[i].0));
        assert(chunk.subrange(8, 16) =~= u64_be(ranges[i].1));
    }
    assert(parsed =~= ranges);
}

/// The encoded raw-mode payload parses back to the same driver name.
proof fn lemma_raw_payload_round(driver: Seq<u8>)
    requires
        driver.len() <= 255,
    ensures
        parse_raw_payload(u64_be(RAW_MODE_MAGIC) + seq![driver.len() as u8] + driver) == Some(
            driver,
        ),
{
    let pl = u64_be(RAW_MODE_MAGIC) + seq![driver.len() as u8] + driver;
    lemma_u64_be_round(RAW_MODE_MAGIC);
    assert(pl.subrange(0, 8) =~= u64_be(RAW_MODE_MAGIC));
    assert(pl[8] == driver.len() as u8);
    assert((driver.len() as u8) as int == driver.len() as int);
    assert(pl.subrange(9, pl.len() as int) =~= driver);
}

/// Parsing the encoding of any well-formed client packet yields that
/// packet: the round trip `decode(encode(p)) == p`, stated of the frame.
pub proof fn lemma_client_round_trip(p: ClientPacketView)
    requires
        p.wf(),
    ensures
        spec_parse_client(p.enc()) == Some(p),
{
    let bytes = p.enc();
    lemma_client_payload_len(p.data);
    let size = p.data.spec_size();
    lemma_u32_be_round(size as u32);
    lemma_u32_be_round(p.ty.spec_magic());
    assert(bytes.len() == 8 + size);
    assert(bytes.subrange(0, 4) =~= u32_be(size as u32));
    assert(bytes.subrange(4, 8) =~= u32_be(p.ty.spec_magic()));
    assert((size as u32) as int == size);
    lemma_packet_magic_round(p.ty);
    assert(bytes.subrange(8, bytes.len() as int) =~= p.data.enc_payload());
    lemma_client_payload_round(p.data);
    assert(spec_parse_client(bytes) == Some(ClientPacketView { ty: p.ty, data: p.data }));
    assert(ClientPacketView { ty: p.ty, data: p.data } == p);
}

/// A sequence is the concatenation of its two parts at any cut.
proof fn lemma_split2(s: Seq<u8>, p: int)
    requires
        0 <= p <= s.len(),
    ensures
        s == s.subrange(0, p) + s.subrange(p, s.len() as int),
{
    assert(s =~= s.subrange(0, p) + s.subrange(p, s.len() as int));
}

/// A sequence is the concatenation of its three parts at any two cuts.
proof fn lemma_split3(s: Seq<u8>, p: int, q: int)
    requires
        0 <= p <= q <= s.len(),
    ensures
        s == s.subrange(0, p) + s.subrange(p, q) + s.subrange(q, s.len() as int),
{
    assert(s =~= s.subrange(0, p) + s.subrange(p, q) + s.subrange(q, s.len() as int));
}

/// A sequence is the concatenation of its four parts at any three cuts.
proof fn lemma_split4(s: Seq<u8>, p: int, q: int, r: int)
    requires
        0 <= p <= q <= r <= s.len(),
    ensures
        s == s.subrange(0, p) + s.subrange(p, q) + s.subrange(q, r) + s.subrange(
            r,
            s.len() as int,
        ),
{
    assert(s =~= s.subrange(0, p) + s.subrange(p, q) + s.subrange(q, r) + s.subrange(
        r,
        s.len() as int,
    ));
}

/// Parsing the encoded payload of any well-formed server variant yields
/// that variant back.
#[verifier::spinoff_prover]
#[verifier::rlimit(100)]
proof fn lemma_server_payload_round(d: ServerPacketDataView)
    requires
        d.wf(),
    ensures
        parse_server_payload(d.spec_ty(), d.enc_payload()) == Some(d),
{
    let pl = d.enc_payload();
    lemma_server_payload_len(d);
    match d {
        ServerPacketDataView::Ack => {},
        ServerPacketDataView::Error { code, packet_type, packet_data } => {
            lemma_u32_be_round(code.spec_code());
            lemma_u32_be_round(packet_type.spec_magic());
            lemma_error_code_round(code);
            lemma_packet_magic_round(packet_type);
            let a = u32_be(code.spec_code());
            let b = u32_be(packet_type.spec_magic());
            lemma_prefix_subrange(a + b, packet_data, 0, 4);
            lemma_prefix_subrange(a, b, 0, 4);
            assert(a.subrange(0, 4) =~= a);
            lemma_prefix_subrange(a + b, packet_data, 4, 8);
            lemma_suffix_chunk(a, b);
            lemma_suffix_chunk(a + b, packet_data);
            assert(pl.subrange(0, 4) == a);
            assert(pl.subrange(4, 8) == b);
            assert(pl.subrange(8, pl.len() as int) == packet_data);
        },
        ServerPacketDataView::Exception { packet } => {},
        ServerPacketDataView::Key { key } => {
            lemma_u64_be_round(key.spec_pack());
            crate::keycode::lemma_keycode_pack_unpack(key);
        },
        ServerPacketDataView::Packet { packet } => {},
        ServerPacketDataView::Version { version } => {
            lemma_u32_be_round(version);
        },
        ServerPacketDataView::Auth { auth_types } => {
            assert(forall|a: AuthType| (#[trigger] auth_item_fn()(a)).len() == 4);
            lemma_enc_list_len(auth_types, auth_item_fn(), 4);
            let m = auth_types.len() as int;
            assert(pl.len() % 4 == 0);
            assert(pl.len() / 4 == m);
            assert forall|i: int| 0 <= i < m implies AuthType::spec_from_magic(
                be_u32(#[trigger] pl.subrange(4 * i, 4 * i + 4)),
            ) == Some(auth_types[i]) by {
                lemma_enc_list_index(auth_types, auth_item_fn(), 4, i);
                lemma_u32_be_round(auth_types[i].spec_magic());
                lemma_auth_magic_round(auth_types[i]);
            }
            let parsed = Seq::new(
                (pl.len() / 4) as nat,
                |i: int| AuthType::spec_from_magic(be_u32(pl.subrange(4 * i, 4 * i + 4)))->0,
            );
            assert(parsed =~= auth_types);
        },
        ServerPacketDataView::GetDriverName { driver } => {
            assert(pl[pl.len() - 1] == 0);
            assert(pl.subrange(0, pl.len() - 1) =~= driver);
        },
        ServerPacketDataView::GetModelId { model } => {
            assert(pl[pl.len() - 1] == 0);
            assert(pl.subrange(0, pl.len() - 1) =~= model);
        },
        ServerPacketDataView::GetDisplaySize { width, height } => {
            lemma_u32_be_round(width);
            lemma_u32_be_round(height);
            lemma_prefix_subrange(u32_be(width), u32_be(height), 0, 4);
            assert(u32_be(width).subrange(0, 4) =~= u32_be(width));
            lemma_suffix_chunk(u32_be(width), u32_be(height));
        },
        ServerPacketDataView::ParameterValue { flags, parameter, sub_parameter, value } => {
            lemma_parameter_header_round(pl, flags.bits, parameter, sub_parameter, value);
        },
        ServerPacketDataView::ParameterUpdate { flags, parameter, sub_parameter, value } => {
            lemma_parameter_header_round(pl, flags.bits, parameter, sub_parameter, value);
        },
    }
}

/// The sixteen-byte parameter header and its trailing value stand at
/// their offsets in the encoded payload.
proof fn lemma_parameter_header_round(
    pl: Seq<u8>,
    bits: u32,
    parameter: u32,
    sub_parameter: u64,
    value: Seq<u8>,
)
    requires
        pl == u32_be(bits) + u32_be(parameter) + u64_be(sub_parameter) + value,
    ensures
        pl.len() == 16 + value.len(),
        pl.subrange(0, 4) == u32_be(bits),
        pl.subrange(4, 8) == u32_be(parameter),
        pl.subrange(8, 16) == u64_be(sub_parameter),
        pl.subrange(16, pl.len() as int) == value,
        be_u32(pl.subrange(0, 4)) == bits,
        be_u32(pl.subrange(4, 8)) == parameter,
        be_u64(pl.subrange(8, 16)) == sub_parameter,
{
    let a = u32_be(bits);
    let b = u32_be(parameter);
    let c = u64_be(sub_parameter);
    lemma_u32_be_round(bits);
    lemma_u32_be_round(parameter);
    lemma_u64_be_round(sub_parameter);
    lemma_suffix_chunk(a + b + c, value);
    lemma_prefix_subrange(a + b + c, value, 0, 4);
    lemma_prefix_subrange(a + b, c, 0, 4);
    lemma_prefix_subrange(a, b, 0, 4);
    assert(a.subrange(0, 4) =~= a);
    lemma_prefix_subrange(a + b + c, value, 4, 8);
    lemma_prefix_subrange(a + b, c, 4, 8);
    lemma_suffix_chunk(a, b);
    lemma_prefix_subrange(a + b + c, value, 8, 16);
    lemma_suffix_chunk(a + b, c);
}

/// Parsing the encoding of any well-formed server packet yields that
/// packet: the round trip `decode(encode(p)) == p`, stated of the frame.
pub proof fn lemma_server_round_trip(p: ServerPacketView)
    requires
        p.wf(),
    ensures
        spec_parse_server(p.enc()) == Some(p),
{
    let bytes = p.enc();
    lemma_server_payload_len(p.data);
    let size = p.data.spec_size();
    lemma_u32_be_round(size as u32);
    lemma_u32_be_round(p.ty.spec_magic());
    assert(bytes.len() == 8 + size);
    assert(bytes.subrange(0, 4) =~= u32_be(size as u32));
    assert(bytes.subrange(4, 8) =~= u32_be(p.ty.spec_magic()));
    assert((size as u32) as int == size);
    lemma_packet_magic_round(p.ty);
    assert(bytes.subrange(8, bytes.len() as int) =~= p.data.enc_payload());
    lemma_server_payload_round(p.data);
    assert(spec_parse_server(bytes) == Some(ServerPacketView { ty: p.ty, data: p.data }));
    assert(ServerPacketView { ty: p.ty, data: p.data } == p);
}

/// For every packet, client or server, the declared size in the frame
/// header is the length of the bytes after the eight-byte header.
pub proof fn lemma_client_frame_size(p: ClientPacketView)
    requires
        p.wf(),
    ensures
        p.enc().len() == 8 + p.data.spec_size(),
        be_u32(p.enc().subrange(0, 4)) == p.data.spec_size() as u32,
{
    lemma_client_payload_len(p.data);
    lemma_u32_be_round(p.data.spec_size() as u32);
    assert(p.enc().subrange(0, 4) =~= u32_be(p.data.spec_size() as u32));
}

/// The server-side size law: the declared size is the length of the
/// bytes after the header.
pub proof fn lemma_server_frame_size(p: ServerPacketView)
    requires
        p.wf(),
    ensures
        p.enc().len() == 8 + p.data.spec_size(),
        be_u32(p.enc().subrange(0, 4)) == p.data.spec_size() as u32,
{
    lemma_server_payload_len(p.data);
    lemma_u32_be_round(p.data.spec_size() as u32);
    assert(p.enc().subrange(0, 4) =~= u32_be(p.data.spec_size() as u32));
}

// The soundness direction: whatever parses is well formed, declares its
// exact length, and, when its flag words were clean, re-encodes to the
// very bytes it was parsed from.

proof fn lemma_parse_opt_u32_inv(pl: Seq<u8>, pos: int, present: bool)
    requires
        parse_opt_u32(pl, pos, present) is Some,
    ensures
        ({
            let r = parse_opt_u32(pl, pos, present)->0;
            &&& (r.0 is Some) == present
            &&& r.1 == pos + (if present {
                4int
            } else {
                0int
            })
            &&& (present ==> 0 <= pos && pos + 4 <= pl.len() && u32_be(r.0->0) == pl.subrange(
                pos,
                pos + 4,
            ))
        }),
{
    if present {
        lemma_be_u32_round(pl.subrange(pos, pos + 4));
    }
}

proof fn lemma_parse_opt_region_inv(pl: Seq<u8>, pos: int, present: bool)
    requires
        parse_opt_region(pl, pos, present) is Some,
    ensures
        ({
            let r = parse_opt_region(pl, pos, present)->0;
            &&& (r.0 is Some) == present
            &&& r.1 == pos + (if present {
                8int
            } else {
                0int
            })
            &&& (present ==> 0 <= pos && pos + 8 <= pl.len() && u32_be((r.0->0).0) == pl.subrange(
                pos,
                pos + 4,
            ) && u32_be((r.0->0).1) == pl.subrange(pos + 4, pos + 8))
        }),
{
    if present {
        lemma_be_u32_round(pl.subrange(pos, pos + 4));
        lemma_be_u32_round(pl.subrange(pos + 4, pos + 8));
    }
}

proof fn lemma_parse_opt_len_bytes_inv(pl: Seq<u8>, pos: int, present: bool)
    requires
        parse_opt_len_bytes(pl, pos, present) is Some,
    ensures
        ({
            let r = parse_opt_len_bytes(pl, pos, present)->0;
            &&& (r.0 is Some) == present
            &&& (!present ==> r.1 == pos)
            &&& (present ==> 0 <= pos && pos + 4 <= pl.len() && r.0->0.len() <= 0xffff_ffff && r.1
                == pos + 4 + r.0->0.len() && r.1 <= pl.len() && u32_be(r.0->0.len() as u32)
                == pl.subrange(pos, pos + 4) && r.0->0 == pl.subrange(pos + 4, r.1))
        }),
{
    if present {
        lemma_be_u32_round(pl.subrange(pos, pos + 4));
        let word = be_u32(pl.subrange(pos, pos + 4));
        let r = parse_opt_len_bytes(pl, pos, present)->0;
        assert(r.0->0.len() == word as int);
        assert((r.0->0.len() as u32) == word);
    }
}

proof fn lemma_parse_opt_bytes_inv(pl: Seq<u8>, pos: int, present: bool, n: int)
    requires
        parse_opt_bytes(pl, pos, present, n) is Some,
    ensures
        ({
            let r = parse_opt_bytes(pl, pos, present, n)->0;
            &&& (r.0 is Some) == present
            &&& r.1 == pos + (if present {
                n
            } else {
                0int
            })
            &&& (present ==> 0 <= pos && 0 <= n && pos + n <= pl.len() && r.0->0.len() == n && r.0
                ->0 == pl.subrange(pos, pos + n))
        }),
{
}

/// A sequence is the concatenation of its eight parts at any seven cuts.
#[verifier::spinoff_prover]
proof fn lemma_split8(s: Seq<u8>, p1: int, p2: int, p3: int, p4: int, p5: int, p6: int, p7: int)
    requires
        0 <= p1 <= p2 <= p3 <= p4 <= p5 <= p6 <= p7 <= s.len(),
    ensures
        s == s.subrange(0, p1) + s.subrange(p1, p2) + s.subrange(p2, p3) + s.subrange(p3, p4)
            + s.subrange(p4, p5) + s.subrange(p5, p6) + s.subrange(p6, p7) + s.subrange(
            p7,
            s.len() as int,
        ),
{
    assert(s =~= s.subrange(0, p1) + s.subrange(p1, p2) + s.subrange(p2, p3) + s.subrange(p3, p4)
        + s.subrange(p4, p5) + s.subrange(p5, p6) + s.subrange(p6, p7) + s.subrange(
        p7,
        s.len() as int,
    ));
}

/// Whatever a `Write` payload parses to is well formed, declares the
/// payload's exact length, and lies in the payload chunk by chunk.
#[verifier::spinoff_prover]
#[verifier::rlimit(100)]
proof fn lemma_write_payload_sound_chunks(pl: Seq<u8>)
    requires
        parse_write_payload(pl) is Some,
        pl.len() <= 0xffff_ffff,
    ensures
        ({
            let d = parse_write_payload(pl)->0;
            &&& d is Write
            &&& d.wf()
            &&& d.spec_size() == pl.len()
            &&& write_off(d, 8) == pl.len()
            &&& be_u32(pl.subrange(0, 4)) & WRITE_FLAGS_MASK == spec_write_flags_word(
                d->display_number is Some,
                d->region is Some,
                d->text is Some,
                d->and is Some,
                d->or is Some,
                d->cursor is Some,
                d->charset is Some,
            )
            &&& pl.subrange(write_off(d, 1), write_off(d, 2)) == write_chunk(d, 1)
            &&& pl.subrange(write_off(d, 2), write_off(d, 3)) == write_chunk(d, 2)
            &&& pl.subrange(write_off(d, 3), write_off(d, 4)) == write_chunk(d, 3)
            &&& pl.subrange(write_off(d, 4), write_off(d, 5)) == write_chunk(d, 4)
            &&& pl.subrange(write_off(d, 5), write_off(d, 6)) == write_chunk(d, 5)
            &&& pl.subrange(write_off(d, 6), write_off(d, 7)) == write_chunk(d, 6)
            &&& pl.subrange(write_off(d, 7), write_off(d, 8)) == write_chunk(d, 7)
        }),
{
    let d = parse_write_payload(pl)->0;
    let h = parse_write_head(pl)->0;
    let flags = h.0;
    let dn = h.1;
    let region = h.2;
    let text = h.3;
    let pos = h.4;
    lemma_be_u32_round(pl.subrange(0, 4));
    let w0 = be_u32(pl.subrange(0, 4));
    assert((w0 & 0x7f) & 0x7f == w0 & 0x7f) by (bit_vector);
    assert(flags & WRITE_FLAGS_MASK == flags);
    lemma_parse_opt_u32_inv(pl, 4, flags & WRITE_FLAG_DISPLAY_NUMBER != 0);
    let p2 = 4 + (if dn is Some {
        4int
    } else {
        0int
    });
    lemma_parse_opt_region_inv(pl, p2, flags & WRITE_FLAG_REGION != 0);
    let p3 = p2 + (if region is Some {
        8int
    } else {
        0int
    });
    lemma_parse_opt_len_bytes_inv(pl, p3, flags & WRITE_FLAG_TEXT != 0);
    assert(pos == p3 + (if text is Some {
        4 + text->0.len() as int
    } else {
        0int
    }));
    let rlen = if region is Some {
        (region->0).1 as int
    } else {
        0int
    };
    lemma_parse_opt_bytes_inv(pl, pos, flags & WRITE_FLAG_AND != 0, rlen);
    let and = (parse_opt_bytes(pl, pos, flags & WRITE_FLAG_AND != 0, rlen)->0).0;
    let p5 = pos + (if and is Some {
        rlen
    } else {
        0int
    });
    lemma_parse_opt_bytes_inv(pl, p5, flags & WRITE_FLAG_OR != 0, rlen);
    let or = (parse_opt_bytes(pl, p5, flags & WRITE_FLAG_OR != 0, rlen)->0).0;
    let p6 = p5 + (if or is Some {
        rlen
    } else {
        0int
    });
    lemma_parse_opt_u32_inv(pl, p6, flags & WRITE_FLAG_CURSOR != 0);
    let cursor = (parse_opt_u32(pl, p6, flags & WRITE_FLAG_CURSOR != 0)->0).0;
    let p7 = p6 + (if cursor is Some {
        4int
    } else {
        0int
    });
    lemma_parse_opt_len_bytes_inv(pl, p7, flags & WRITE_FLAG_CHARSET != 0);
    let charset = (parse_opt_len_bytes(pl, p7, flags & WRITE_FLAG_CHARSET != 0)->0).0;
    let p8 = p7 + (if charset is Some {
        4 + charset->0.len() as int
    } else {
        0int
    });
    assert(p8 == pl.len());
    assert(d == ClientPacketDataView::Write {
        display_number: dn,
        region,
        text,
        and,
        or,
        cursor,
        charset,
    });
    assert(d.wf());
    assert(d.spec_size() == pl.len());
    lemma_write_flags_word_props(
        dn is Some,
        region is Some,
        text is Some,
        and is Some,
        or is Some,
        cursor is Some,
        charset is Some,
    );
    let wr = spec_write_flags_word(
        dn is Some,
        region is Some,
        text is Some,
        and is Some,
        or is Some,
        cursor is Some,
        charset is Some,
    );
    assert(wr == flags) by {
        assert({
            let a = w0 & 0x7f;
            (wr & 1 != 0 == (a & 1 != 0)) && (wr & 2 != 0 == (a & 2 != 0)) && (wr & 4 != 0 == (a
                & 4 != 0)) && (wr & 8 != 0 == (a & 8 != 0)) && (wr & 16 != 0 == (a & 16 != 0)) && (
            wr & 32 != 0 == (a & 32 != 0)) && (wr & 64 != 0 == (a & 64 != 0)) && wr & 0x7f == wr
                ==> wr == a
        }) by (bit_vector);
    }
    assert(write_off(d, 0) == 0);
    assert(write_off(d, 1) == 4);
    assert(write_off(d, 2) == p2);
    assert(write_off(d, 3) == p3);
    assert(write_off(d, 4) == pos);
    assert(write_off(d, 5) == p5);
    assert(write_off(d, 6) == p6);
    assert(write_off(d, 7) == p7);
    assert(write_off(d, 8) == p8);
    assert(pl.subrange(4, p2) == write_chunk(d, 1)) by {
        if dn is None {
            assert(pl.subrange(4, 4) =~= Seq::<u8>::empty());
        }
    }
    assert(pl.subrange(p2, p3) == write_chunk(d, 2)) by {
        if region is Some {
            assert(pl.subrange(p2, p3) =~= pl.subrange(p2, p2 + 4) + pl.subrange(p2 + 4, p2 + 8));
        } else {
            assert(pl.subrange(p2, p2) =~= Seq::<u8>::empty());
        }
    }
    assert(pl.subrange(p3, pos) == write_chunk(d, 3)) by {
        if text is Some {
            assert(pl.subrange(p3, pos) =~= pl.subrange(p3, p3 + 4) + pl.subrange(p3 + 4, pos));
        } else {
            assert(pl.subrange(p3, p3) =~= Seq::<u8>::empty());
        }
    }
    assert(pl.subrange(pos, p5) == write_chunk(d, 4)) by {
        if and is None {
            assert(pl.subrange(pos, pos) =~= Seq::<u8>::empty());
        }
    }
    assert(pl.subrange(p5, p6) == write_chunk(d, 5)) by {
        if or is None {
            assert(pl.subrange(p5, p5) =~= Seq::<u8>::empty());
        }
    }
    assert(pl.subrange(p6, p7) == write_chunk(d, 6)) by {
        if cursor is None {
            assert(pl.subrange(p6, p6) =~= Seq::<u8>::empty());
        }
    }
    assert(pl.subrange(p7, p8) == write_chunk(d, 7)) by {
        if charset is Some {
            assert(pl.subrange(p7, p8) =~= pl.subrange(p7, p7 + 4) + pl.subrange(p7 + 4, p8));
        } else {
            assert(pl.subrange(p7, p7) =~= Seq::<u8>::empty());
        }
    }
}

/// Whatever a `Write` payload parses to is well formed, declares the
/// payload's exact length and, when the flag word was clean, re-encodes
/// to the payload.
#[verifier::spinoff_prover]
#[verifier::rlimit(100)]
proof fn lemma_write_payload_sound(pl: Seq<u8>)
    requires
        parse_write_payload(pl) is Some,
        pl.len() <= 0xffff_ffff,
    ensures
        ({
            let d = parse_write_payload(pl)->0;
            &&& d is Write
            &&& d.wf()
            &&& d.spec_size() == pl.len()
            &&& (canon_client_payload(PacketType::Write, pl) ==> d.enc_payload() == pl)
        }),
{
    let d = parse_write_payload(pl)->0;
    lemma_write_payload_sound_chunks(pl);
    if canon_client_payload(PacketType::Write, pl) {
        let w0 = be_u32(pl.subrange(0, 4));
        assert(w0 & WRITE_FLAGS_MASK == w0);
        assert(write_chunk(d, 0) == pl.subrange(0, 4)) by {
            lemma_be_u32_round(pl.subrange(0, 4));
        }
        lemma_write_chunk_at(d, 0);
        lemma_write_chunk_at(d, 1);
        lemma_write_chunk_at(d, 2);
        lemma_write_chunk_at(d, 3);
        lemma_write_chunk_at(d, 4);
        lemma_write_chunk_at(d, 5);
        lemma_write_chunk_at(d, 6);
        lemma_write_chunk_at(d, 7);
        lemma_split8(
            pl,
            write_off(d, 1),
            write_off(d, 2),
            write_off(d, 3),
            write_off(d, 4),
            write_off(d, 5),
            write_off(d, 6),
            write_off(d, 7),
        );
        assert(d.enc_payload() == write_chunk(d, 0) + write_chunk(d, 1) + write_chunk(d, 2)
            + write_chunk(d, 3) + write_chunk(d, 4) + write_chunk(d, 5) + write_chunk(d, 6)
            + write_chunk(d, 7));
        assert(write_off(d, 1) == 0 + write_chunk(d, 0).len());
        assert(pl.subrange(0, write_off(d, 1)) == write_chunk(d, 0)) by {
            assert(pl.subrange(0, 4) == write_chunk(d, 0));
        }
        assert(d.enc_payload() == pl);
    }
}

/// Masking twice is masking once.
proof fn lemma_mask_idem(w: u32, m: u32)
    by (bit_vector)
    ensures
        (w & m) & m == w & m,
{
}

/// The encoded list of four-byte chunks of a `u32` list is the byte
/// string the chunks were read from.
proof fn lemma_u32_chunks_sound(pl: Seq<u8>, m: int)
    requires
        m >= 0,
        pl.len() == 4 * m,
    ensures
        enc_list(Seq::new(m as nat, |i: int| be_u32(pl.subrange(4 * i, 4 * i + 4))), u32_item_fn())
            == pl,
{
    let g = |b2: Seq<u8>| be_u32(b2);
    assert forall|b: Seq<u8>| b.len() == 4 implies #[trigger] u32_item_fn()(g(b)) == b by {
        lemma_be_u32_round(b);
    }
    lemma_enc_list_of_chunks(pl, u32_item_fn(), g, 4, m);
    let s1 = Seq::new(m as nat, |i: int| be_u32(pl.subrange(4 * i, 4 * i + 4)));
    let s2 = Seq::new(m as nat, |i: int| g(pl.subrange(4 * i, 4 * i + 4)));
    assert(s1 =~= s2);
}

/// Whatever any client payload parses to is well formed, declares the
/// payload's exact length and, when its flag word was clean, re-encodes
/// to the payload.
#[verifier::spinoff_prover]
#[verifier::rlimit(100)]
proof fn lemma_client_payload_sound(ty: PacketType, pl: Seq<u8>)
    requires
        parse_client_payload(ty, pl) is Some,
        pl.len() <= 0xffff_ffff,
    ensures
        ({
            let d = parse_client_payload(ty, pl)->0;
            &&& d.wf()
            &&& d.spec_ty() == ty
            &&& d.spec_size() == pl.len()
            &&& (canon_client_payload(ty, pl) ==> d.enc_payload() == pl)
        }),
{
    let d = parse_client_payload(ty, pl)->0;
    match ty {
        PacketType::Write => {
            lemma_write_payload_sound(pl);
        },
        PacketType::Packet => {},
        PacketType::Version => {
            lemma_be_u32_round(pl);
        },
        PacketType::Auth => {
            lemma_be_u32_round(pl.subrange(0, 4));
            lemma_auth_magic_inverse(be_u32(pl.subrange(0, 4)));
            lemma_split2(pl, 4);
            assert(pl.subrange(4, pl.len() as int) =~= pl.subrange(4, pl.len() - 1) + seq![
                pl[pl.len() - 1],
            ]);
            assert(d.enc_payload() == pl.subrange(0, 4) + (pl.subrange(4, pl.len() - 1) + seq![
                0u8,
            ]));
            assert(pl.subrange(0, 4) + (pl.subrange(4, pl.len() - 1) + seq![0u8]) =~= pl.subrange(
                0,
                4,
            ) + pl.subrange(4, pl.len() - 1) + seq![pl[pl.len() - 1]]);
        },
        PacketType::GetDriverName => {
            assert(d.enc_payload() =~= pl);
        },
        PacketType::GetModelId => {
            assert(d.enc_payload() =~= pl);
        },
        PacketType::GetDisplaySize => {
            assert(d.enc_payload() =~= pl);
        },
        PacketType::EnterTtyMode => {
            lemma_enter_tty_sound(pl);
        },
        PacketType::SetFocus => {
            lemma_be_u32_round(pl);
        },
        PacketType::IgnoreKeyRanges => {
            lemma_ranges_sound(pl);
        },
        PacketType::AcceptKeyRanges => {
            lemma_ranges_sound(pl);
        },
        PacketType::EnterRawMode => {
            lemma_raw_sound(pl);
        },
        PacketType::LeaveTtyMode => {
            assert(d.enc_payload() =~= pl);
        },
        PacketType::LeaveRawMode => {
            assert(d.enc_payload() =~= pl);
        },
        PacketType::SuspendDriver => {
            lemma_raw_sound(pl);
        },
        PacketType::ResumeDriver => {
            assert(d.enc_payload() =~= pl);
        },
        PacketType::Synchronize => {
            assert(d.enc_payload() =~= pl);
        },
        PacketType::ParameterRequest => {
            lemma_mask_idem(be_u32(pl.subrange(0, 4)), PARAMETER_REQUEST_FLAGS_MASK);
            if canon_client_payload(ty, pl) {
                lemma_parameter_16_sound(pl);
            }
        },
        PacketType::ParameterValue => {
            lemma_mask_idem(be_u32(pl.subrange(0, 4)), PARAMETER_VALUE_FLAGS_MASK);
            if canon_client_payload(ty, pl) {
                lemma_parameter_value_sound(pl);
            }
        },
        _ => {},
    }
}

/// A sixteen-byte parameter-request payload re-encodes to itself when its
/// flag word is clean.
proof fn lemma_parameter_16_sound(pl: Seq<u8>)
    requires
        pl.len() == 16,
    ensures
        u32_be(be_u32(pl.subrange(0, 4))) + u32_be(be_u32(pl.subrange(4, 8))) + u64_be(
            be_u64(pl.subrange(8, 16)),
        ) == pl,
{
    lemma_be_u32_round(pl.subrange(0, 4));
    lemma_be_u32_round(pl.subrange(4, 8));
    lemma_be_u64_round(pl.subrange(8, 16));
    lemma_split3(pl, 4, 8);
}

/// A parameter-value payload re-encodes to itself when its flag word is
/// clean.
proof fn lemma_parameter_value_sound(pl: Seq<u8>)
    requires
        pl.len() >= 16,
    ensures
        u32_be(be_u32(pl.subrange(0, 4))) + u32_be(be_u32(pl.subrange(4, 8))) + u64_be(
            be_u64(pl.subrange(8, 16)),
        ) + pl.subrange(16, pl.len() as int) == pl,
{
    lemma_be_u32_round(pl.subrange(0, 4));
    lemma_be_u32_round(pl.subrange(4, 8));
    lemma_be_u64_round(pl.subrange(8, 16));
    lemma_split4(pl, 4, 8, 16);
}

/// Whatever an `EnterTtyMode` payload parses to re-encodes to the
/// payload, and its declared size is the payload length.
#[verifier::spinoff_prover]
#[verifier::rlimit(100)]
proof fn lemma_enter_tty_sound(pl: Seq<u8>)
    requires
        parse_enter_tty_payload(pl) is Some,
        pl.len() <= 0xffff_ffff,
    ensures
        ({
            let d = parse_enter_tty_payload(pl)->0;
            &&& d.wf()
            &&& d is EnterTtyMode
            &&& d.spec_size() == pl.len()
            &&& d.enc_payload() == pl
        }),
{
    let d = parse_enter_tty_payload(pl)->0;
    let m = be_u32(pl.subrange(0, 4)) as int;
    let dlen = be_u32(pl.subrange(4 + 4 * m, 8 + 4 * m)) as int;
    if let ClientPacketDataView::EnterTtyMode { ttys, driver } = d {
        assert(ttys.len() == m);
        assert(driver.len() == dlen);
        assert(d.spec_size() == pl.len());
        lemma_be_u32_round(pl.subrange(0, 4));
        lemma_be_u32_round(pl.subrange(4 + 4 * m, 8 + 4 * m));
        assert((ttys.len() as u32) as int == m);
        assert((driver.len() as u32) as int == dlen);
        let mid = pl.subrange(4, 4 + 4 * m);
        assert(mid.len() == 4 * m);
        lemma_u32_chunks_sound(mid, m);
        let parsed = Seq::new(m as nat, |i: int| be_u32(pl.subrange(4 + 4 * i, 4 + 4 * i + 4)));
        let chunked = Seq::new(m as nat, |i: int| be_u32(mid.subrange(4 * i, 4 * i + 4)));
        assert forall|i: int| 0 <= i < m implies parsed[i] == chunked[i] by {
            assert(pl.subrange(4 + 4 * i, 4 + 4 * i + 4) =~= mid.subrange(4 * i, 4 * i + 4));
        }
        assert(ttys =~= chunked);
        assert(enc_list(ttys, u32_item_fn()) == mid);
        lemma_split4(pl, 4, 4 + 4 * m, 8 + 4 * m);
        assert(u32_be(ttys.len() as u32) == pl.subrange(0, 4));
        assert(u32_be(driver.len() as u32) == pl.subrange(4 + 4 * m, 8 + 4 * m));
        assert(d.enc_payload() == pl);
    }
}

/// Whatever a key-range payload parses to re-encodes to the payload.
#[verifier::spinoff_prover]
#[verifier::rlimit(100)]
proof fn lemma_ranges_sound(pl: Seq<u8>)
    requires
        parse_ranges_payload(pl) is Some,
    ensures
        ({
            let ranges = parse_ranges_payload(pl)->0;
            &&& 16 * ranges.len() == pl.len()
            &&& enc_list(ranges, range_item_fn()) == pl
        }),
{
    let ranges = parse_ranges_payload(pl)->0;
    let m = (pl.len() / 16) as int;
    assert(pl.len() == 16 * m);
    let g = |b: Seq<u8>| (be_u64(b.subrange(0, 8)), be_u64(b.subrange(8, 16)));
    assert forall|b: Seq<u8>| b.len() == 16 implies #[trigger] range_item_fn()(g(b)) == b by {
        lemma_be_u64_round(b.subrange(0, 8));
        lemma_be_u64_round(b.subrange(8, 16));
        lemma_split2(b, 8);
    }
    lemma_enc_list_of_chunks(pl, range_item_fn(), g, 16, m);
    let chunked = Seq::new(m as nat, |i: int| g(pl.subrange(16 * i, 16 * i + 16)));
    assert forall|i: int| 0 <= i < m implies ranges[i] == chunked[i] by {
        let chunk = pl.subrange(16 * i, 16 * i + 16);
        assert(pl.subrange(16 * i, 16 * i + 8) =~= chunk.subrange(0, 8));
        assert(pl.subrange(16 * i + 8, 16 * i + 16) =~= chunk.subrange(8, 16));
    }
    assert(ranges =~= chunked);
}

/// Whatever a raw-mode payload parses to re-encodes to the payload.
proof fn lemma_raw_sound(pl: Seq<u8>)
    requires
        parse_raw_payload(pl) is Some,
    ensures
        ({
            let driver = parse_raw_payload(pl)->0;
            &&& driver.len() <= 255
            &&& 9 + driver.len() == pl.len()
            &&& u64_be(RAW_MODE_MAGIC) + seq![driver.len() as u8] + driver == pl
        }),
{
    let driver = parse_raw_payload(pl)->0;
    lemma_be_u64_round(pl.subrange(0, 8));
    lemma_split3(pl, 8, 9);
    assert(pl.subrange(8, 9) =~= seq![pl[8]]);
    assert((driver.len() as u8) == pl[8]);
}

/// Whatever any server payload parses to is well formed, declares the
/// payload's exact length and, when its flag and keycode words were
/// clean, re-encodes to the payload.
#[verifier::spinoff_prover]
#[verifier::rlimit(100)]
proof fn lemma_server_payload_sound(ty: PacketType, pl: Seq<u8>)
    requires
        parse_server_payload(ty, pl) is Some,
        pl.len() <= 0xffff_ffff,
    ensures
        ({
            let d = parse_server_payload(ty, pl)->0;
            &&& d.wf()
            &&& d.spec_ty() == ty
            &&& d.spec_size() == pl.len()
            &&& (canon_server_payload(ty, pl) ==> d.enc_payload() == pl)
        }),
{
    let d = parse_server_payload(ty, pl)->0;
    match ty {
        PacketType::Ack => {
            assert(d.enc_payload() =~= pl);
        },
        PacketType::Error => {
            lemma_be_u32_round(pl.subrange(0, 4));
            lemma_be_u32_round(pl.subrange(4, 8));
            lemma_error_code_inverse(be_u32(pl.subrange(0, 4)));
            lemma_packet_magic_inverse(be_u32(pl.subrange(4, 8)));
            lemma_split3(pl, 4, 8);
        },
        PacketType::Exception => {},
        PacketType::Key => {
            crate::keycode::lemma_unpack_wf(be_u64(pl));
            if canon_server_payload(ty, pl) {
                crate::keycode::lemma_keycode_unpack_pack(be_u64(pl));
                lemma_be_u64_round(pl);
            }
        },
        PacketType::Packet => {},
        PacketType::Version => {
            lemma_be_u32_round(pl);
        },
        PacketType::Auth => {
            lemma_auth_list_sound(pl);
        },
        PacketType::GetDriverName => {
            lemma_split2(pl, pl.len() - 1);
            assert(pl.subrange(pl.len() - 1, pl.len() as int) =~= seq![0u8]);
        },
        PacketType::GetModelId => {
            lemma_split2(pl, pl.len() - 1);
            assert(pl.subrange(pl.len() - 1, pl.len() as int) =~= seq![0u8]);
        },
        PacketType::GetDisplaySize => {
            lemma_be_u32_round(pl.subrange(0, 4));
            lemma_be_u32_round(pl.subrange(4, 8));
            lemma_split2(pl, 4);
        },
        PacketType::ParameterValue => {
            lemma_mask_idem(be_u32(pl.subrange(0, 4)), PARAMETER_VALUE_FLAGS_MASK);
            if canon_server_payload(ty, pl) {
                lemma_parameter_value_sound(pl);
            }
        },
        PacketType::ParameterUpdate => {
            lemma_mask_idem(be_u32(pl.subrange(0, 4)), PARAMETER_VALUE_FLAGS_MASK);
            if canon_server_payload(ty, pl) {
                lemma_parameter_value_sound(pl);
            }
        },
        _ => {},
    }
}

/// Whatever an authentication-type list parses to re-encodes to the
/// payload it was read from.
#[verifier::spinoff_prover]
#[verifier::rlimit(100)]
proof fn lemma_auth_list_sound(pl: Seq<u8>)
    requires
        parse_server_payload(PacketType::Auth, pl) is Some,
    ensures
        ({
            let d = parse_server_payload(PacketType::Auth, pl)->0;
            &&& d is Auth
            &&& 4 * d->auth_types.len() == pl.len()
            &&& enc_list(d->auth_types, auth_item_fn()) == pl
        }),
{
    let d = parse_server_payload(PacketType::Auth, pl)->0;
    let auth_types = d->auth_types;
    let m = (pl.len() / 4) as int;
    assert(pl.len() == 4 * m);
    lemma_auth_enc_of_chunks(pl, m);
    let chunked = Seq::new(
        m as nat,
        |i: int| AuthType::spec_from_magic(be_u32(pl.subrange(4 * i, 4 * i + 4)))->0,
    );
    assert(auth_types =~= chunked);
}

/// Re-encoding the authentication types read from a payload of valid
/// four-byte magics reproduces the payload.
proof fn lemma_auth_enc_of_chunks(pl: Seq<u8>, m: int)
    requires
        m >= 0,
        pl.len() == 4 * m,
        forall|i: int|
            0 <= i < m ==> AuthType::spec_from_magic(
                be_u32(#[trigger] pl.subrange(4 * i, 4 * i + 4)),
            ) is Some,
    ensures
        enc_list(
            Seq::new(
                m as nat,
                |i: int| AuthType::spec_from_magic(be_u32(pl.subrange(4 * i, 4 * i + 4)))->0,
            ),
            auth_item_fn(),
        ) == pl,
    decreases m,
{
    let s = Seq::new(
        m as nat,
        |i: int| AuthType::spec_from_magic(be_u32(pl.subrange(4 * i, 4 * i + 4)))->0,
    );
    if m == 0 {
        assert(pl =~= Seq::<u8>::empty());
        assert(enc_list(s, auth_item_fn()) =~= pl);
    } else {
        let head = pl.subrange(0, 4);
        let tail = pl.subrange(4, pl.len() as int);
        assert(tail.len() == 4 * (m - 1)) by (nonlinear_arith)
            requires
                pl.len() == 4 * m,
                tail.len() == pl.len() - 4,
        ;
        assert forall|i: int|
            0 <= i < m - 1 implies AuthType::spec_from_magic(
            be_u32(#[trigger] tail.subrange(4 * i, 4 * i + 4)),
        ) is Some by {
            assert(tail.subrange(4 * i, 4 * i + 4) =~= pl.subrange(4 * (i + 1), 4 * (i + 1) + 4));
        }
        lemma_auth_enc_of_chunks(tail, m - 1);
        let s2 = Seq::new(
            (m - 1) as nat,
            |i: int| AuthType::spec_from_magic(be_u32(tail.subrange(4 * i, 4 * i + 4)))->0,
        );
        assert forall|i: int| 0 <= i < m - 1 implies s.drop_first()[i] == s2[i] by {
            assert(pl.subrange(4 * (i + 1), 4 * (i + 1) + 4) =~= tail.subrange(4 * i, 4 * i + 4));
        }
        assert(s.drop_first() =~= s2);
        assert(s[0] == AuthType::spec_from_magic(be_u32(head))->0);
        lemma_auth_magic_inverse(be_u32(head));
        lemma_be_u32_round(head);
        assert(auth_item_fn()(s[0]) == head);
        assert(enc_list(s, auth_item_fn()) == head + tail);
        assert(head + tail =~= pl);
    }
}

/// Whatever byte string parses as a client frame holds a well-formed
/// packet whose declared size is the length after the header; and, when
/// its flag words were clean, the packet re-encodes to the byte string:
/// the round trip `encode(decode(bytes)) == bytes`.
pub proof fn lemma_client_parse_sound(bytes: Seq<u8>)
    requires
        spec_parse_client(bytes) is Some,
    ensures
        ({
            let p = spec_parse_client(bytes)->0;
            &&& p.wf()
            &&& p.data.spec_size() == bytes.len() - 8
            &&& (canon_client_frame(bytes) ==> p.enc() == bytes)
        }),
{
    let p = spec_parse_client(bytes)->0;
    let size = be_u32(bytes.subrange(0, 4)) as int;
    let pl = bytes.subrange(8, bytes.len() as int);
    assert(pl.len() == size);
    lemma_client_payload_sound(p.ty, pl);
    if canon_client_frame(bytes) {
        assert(canon_client_payload(p.ty, pl)) by {
            if pl.len() >= 4 {
                assert(bytes.subrange(8, 12) =~= pl.subrange(0, 4));
            }
        }
        lemma_be_u32_round(bytes.subrange(0, 4));
        lemma_be_u32_round(bytes.subrange(4, 8));
        lemma_packet_magic_inverse(be_u32(bytes.subrange(4, 8)));
        assert(p.data.spec_size() as u32 == be_u32(bytes.subrange(0, 4)));
        lemma_split3(bytes, 4, 8);
        assert(p.enc() == bytes);
    }
}

/// The server-side counterpart: whatever parses as a server frame is
/// well formed and, when its words were clean, re-encodes to the bytes.
pub proof fn lemma_server_parse_sound(bytes: Seq<u8>)
    requires
        spec_parse_server(bytes) is Some,
    ensures
        ({
            let p = spec_parse_server(bytes)->0;
            &&& p.wf()
            &&& p.data.spec_size() == bytes.len() - 8
            &&& (canon_server_frame(bytes) ==> p.enc() == bytes)
        }),
{
    let p = spec_parse_server(bytes)->0;
    let size = be_u32(bytes.subrange(0, 4)) as int;
    let pl = bytes.subrange(8, bytes.len() as int);
    assert(pl.len() == size);
    lemma_server_payload_sound(p.ty, pl);
    if canon_server_frame(bytes) {
        assert(canon_server_payload(p.ty, pl)) by {
            if p.ty == PacketType::Key {
                if pl.len() == 8 {
                    assert(bytes.subrange(8, 16) =~= pl);
                }
            } else if p.ty == PacketType::ParameterValue || p.ty == PacketType::ParameterUpdate {
                if pl.len() >= 4 {
                    assert(bytes.subrange(8, 12) =~= pl.subrange(0, 4));
                }
            }
        }
        lemma_be_u32_round(bytes.subrange(0, 4));
        lemma_be_u32_round(bytes.subrange(4, 8));
        lemma_packet_magic_inverse(be_u32(bytes.subrange(4, 8)));
        assert(p.data.spec_size() as u32 == be_u32(bytes.subrange(0, 4)));
        lemma_split3(bytes, 4, 8);
        assert(p.enc() == bytes);
    }
}

} // verus!