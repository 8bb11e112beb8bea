use vstd::prelude::*;

verus! {

// Big-endian views of the machine integers that appear on the wire, together
// with the executable readers and writers the packet codec is built on.

pub open spec fn be_u32(b: Seq<u8>) -> u32
    recommends
        b.len() == 4,
{
    (((b[0] as u32) << 24) | ((b[1] as u32) << 16) | ((b[2] as u32) << 8) | (b[3] as u32)) as u32
}

pub open spec fn u32_be(x: u32) -> Seq<u8> {
    seq![
        ((x >> 24) & 0xff) as u8,
        ((x >> 16) & 0xff) as u8,
        ((x >> 8) & 0xff) as u8,
        (x & 0xff) as u8,
    ]
}

pub open spec fn be_u64(b: Seq<u8>) -> u64
    recommends
        b.len() == 8,
{
    (((b[0] as u64) << 56) | ((b[1] as u64) << 48) | ((b[2] as u64) << 40) | ((b[3] as u64)
        << 32) | ((b[4] as u64) << 24) | ((b[5] as u64) << 16) | ((b[6] as u64) << 8) | (
    b[7] as u64)) as u64
}

pub open spec fn u64_be(x: u64) -> Seq<u8> {
    seq![
        ((x >> 56) & 0xff) as u8,
        ((x >> 48) & 0xff) as u8,
        ((x >> 40) & 0xff) as u8,
        ((x >> 32) & 0xff) as u8,
        ((x >> 24) & 0xff) as u8,
        ((x >> 16) & 0xff) as u8,
        ((x >> 8) & 0xff) as u8,
        (x & 0xff) as u8,
    ]
}

/// Writing a `u32` big-endian and reading it back is the identity.
pub proof fn lemma_u32_be_round(x: u32)
    ensures
        u32_be(x).len() == 4,
        be_u32(u32_be(x)) == x,
{
    assert(((((x >> 24) & 0xff) as u8 as u32) << 24 | (((x >> 16) & 0xff) as u8 as u32) << 16 | (((
    x >> 8) & 0xff) as u8 as u32) << 8 | ((x & 0xff) as u8 as u32)) as u32 == x) by (bit_vector);
}

/// Reading four bytes as a big-endian `u32` and writing the value back
/// reproduces the bytes.
pub proof fn lemma_be_u32_round(b: Seq<u8>)
    requires
        b.len() == 4,
    ensures
        u32_be(be_u32(b)) == b,
{
    let b0 = b[0];
    let b1 = b[1];
    let b2 = b[2];
    let b3 = b[3];
    let x = be_u32(b);
    assert(x == (((b0 as u32) << 24) | ((b1 as u32) << 16) | ((b2 as u32) << 8) | (b3 as u32))
        as u32);
    assert({
        let y = (((b0 as u32) << 24) | ((b1 as u32) << 16) | ((b2 as u32) << 8) | (b3 as u32))
            as u32;
        ((y >> 24) & 0xff) as u8 == b0 && ((y >> 16) & 0xff) as u8 == b1 && ((y >> 8) & 0xff) as u8
            == b2 && (y & 0xff) as u8 == b3
    }) by (bit_vector);
    assert(u32_be(x) =~= b);
}

/// Writing a `u64` big-endian and reading it back is the identity.
pub proof fn lemma_u64_be_round(x: u64)
    ensures
        u64_be(x).len() == 8,
        be_u64(u64_be(x)) == x,
{
    assert(((((x >> 56) & 0xff) as u8 as u64) << 56 | (((x >> 48) & 0xff) as u8 as u64) << 48 | (((
    x >> 40) & 0xff) as u8 as u64) << 40 | (((x >> 32) & 0xff) as u8 as u64) << 32 | (((x >> 24)
        & 0xff) as u8 as u64) << 24 | (((x >> 16) & 0xff) as u8 as u64) << 16 | (((x >> 8) & 0xff)
        as u8 as u64) << 8 | ((x & 0xff) as u8 as u64)) as u64 == x) by (bit_vector);
}

/// Reading eight bytes as a big-endian `u64` and writing the value back
/// reproduces the bytes.
pub proof fn lemma_be_u64_round(b: Seq<u8>)
    requires
        b.len() == 8,
    ensures
        u64_be(be_u64(b)) == b,
{
    let b0 = b[0];
    let b1 = b[1];
    let b2 = b[2];
    let b3 = b[3];
    let b4 = b[4];
    let b5 = b[5];
    let b6 = b[6];
    let b7 = b[7];
    let x = be_u64(b);
    assert(x == (((b0 as u64) << 56) | ((b1 as u64) << 48) | ((b2 as u64) << 40) | ((b3 as u64)
        << 32) | ((b4 as u64) << 24) | ((b5 as u64) << 16) | ((b6 as u64) << 8) | (b7 as u64))
        as u64);
    assert({
        let y = (((b0 as u64) << 56) | ((b1 as u64) << 48) | ((b2 as u64) << 40) | ((b3 as u64)
            << 32) | ((b4 as u64) << 24) | ((b5 as u64) << 16) | ((b6 as u64) << 8) | (b7 as u64))
            as u64;
        ((y >> 56) & 0xff) as u8 == b0 && ((y >> 48) & 0xff) as u8 == b1 && ((y >> 40) & 0xff)
            as u8 == b2 && ((y >> 32) & 0xff) as u8 == b3 && ((y >> 24) & 0xff) as u8 == b4 && ((y
            >> 16) & 0xff) as u8 == b5 && ((y >> 8) & 0xff) as u8 == b6 && (y & 0xff) as u8 == b7
    }) by (bit_vector);
    assert(u64_be(x) =~= b);
}

pub fn read_u32_be(bytes: &[u8], pos: usize) -> (x: u32)
    requires
        pos + 4 <= bytes@.len(),
    ensures
        x == be_u32(bytes@.subrange(pos as int, pos as int + 4)),
{
    let b0 = bytes[pos];
    let b1 = bytes[pos + 1];
    let b2 = bytes[pos + 2];
    let b3 = bytes[pos + 3];
    let x = (((b0 as u32) << 24) | ((b1 as u32) << 16) | ((b2 as u32) << 8) | (b3 as u32)) as u32;
    proof {
        let s = bytes@.subrange(pos as int, pos as int + 4);
        assert(s[0] == b0 && s[1] == b1 && s[2] == b2 && s[3] == b3);
    }
    x
}

pub fn read_u64_be(bytes: &[u8], pos: usize) -> (x: u64)
    requires
        pos + 8 <= bytes@.len(),
    ensures
        x == be_u64(bytes@.subrange(pos as int, pos as int + 8)),
{
    let b0 = bytes[pos];
    let b1 = bytes[pos + 1];
    let b2 = bytes[pos + 2];
    let b3 = bytes[pos + 3];
    let b4 = bytes[pos + 4];
    let b5 = bytes[pos + 5];
    let b6 = bytes[pos + 6];
    let b7 = bytes[pos + 7];
    let x = (((b0 as u64) << 56) | ((b1 as u64) << 48) | ((b2 as u64) << 40) | ((b3 as u64) << 32)
        | ((b4 as u64) << 24) | ((b5 as u64) << 16) | ((b6 as u64) << 8) | (b7 as u64)) as u64;
    proof {
        let s = bytes@.subrange(pos as int, pos as int + 8);
        assert(s[0] == b0 && s[1] == b1 && s[2] == b2 && s[3] == b3 && s[4] == b4 && s[5] == b5
            && s[6] == b6 && s[7] == b7);
    }
    x
}

pub fn push_u32_be(out: &mut Vec<u8>, x: u32)
    ensures
        final(out)@ == old(out)@ + u32_be(x),
{
    proof {
        assert((x >> 24) & 0xff < 256 && (x >> 16) & 0xff < 256 && (x >> 8) & 0xff < 256 && x
            & 0xff < 256) by (bit_vector);
    }
    out.push(((x >> 24) & 0xff) as u8);
    out.push(((x >> 16) & 0xff) as u8);
    out.push(((x >> 8) & 0xff) as u8);
    out.push((x & 0xff) as u8);
    proof {
        assert(out@ =~= old(out)@ + u32_be(x));
    }
}

pub fn push_u64_be(out: &mut Vec<u8>, x: u64)
    ensures
        final(out)@ == old(out)@ + u64_be(x),
{
    proof {
        assert((x >> 56) & 0xff < 256 && (x >> 48) & 0xff < 256 && (x >> 40) & 0xff < 256 && (x
            >> 32) & 0xff < 256 && (x >> 24) & 0xff < 256 && (x >> 16) & 0xff < 256 && (x >> 8)
            & 0xff < 256 && x & 0xff < 256) by (bit_vector);
    }
    out.push(((x >> 56) & 0xff) as u8);
    out.push(((x >> 48) & 0xff) as u8);
    out.push(((x >> 40) & 0xff) as u8);
    out.push(((x >> 32) & 0xff) as u8);
    out.push(((x >> 24) & 0xff) as u8);
    out.push(((x >> 16) & 0xff) as u8);
    out.push(((x >> 8) & 0xff) as u8);
    out.push((x & 0xff) as u8);
    proof {
        assert(out@ =~= old(out)@ + u64_be(x));
    }
}

/// Concatenation of the encodings of a list's items, in order.
pub open spec fn enc_list<T>(s: Seq<T>, f: spec_fn(T) -> Seq<u8>) -> Seq<u8>
    decreases s.len(),
{
    if s.len() == 0 {
        Seq::empty()
    } else {
        f(s[0]) + enc_list(s.drop_first(), f)
    }
}

/// A list of items that each encode to `k` bytes encodes to `k` bytes per
/// item.
pub proof fn lemma_enc_list_len<T>(s: Seq<T>, f: spec_fn(T) -> Seq<u8>, k: int)
    requires
        forall|t: T| (#[trigger] f(t)).len() == k,
    ensures
        enc_list(s, f).len() == k * s.len(),
    decreases s.len(),
{
    if s.len() == 0 {
    } else {
        lemma_enc_list_len(s.drop_first(), f, k);
        assert(k + k * (s.len() - 1) == k * s.len()) by (nonlinear_arith);
    }
}

/// Within the encoding of a list, the bytes of item `i` stand at offset
/// `k * i`.
pub proof fn lemma_enc_list_index<T>(s: Seq<T>, f: spec_fn(T) -> Seq<u8>, k: int, i: int)
    requires
        forall|t: T| (#[trigger] f(t)).len() == k,
        0 <= i < s.len(),
    ensures
        enc_list(s, f).subrange(k * i, k * i + k) == f(s[i]),
    decreases i,
{
    lemma_enc_list_len(s, f, k);
    lemma_enc_list_len(s.drop_first(), f, k);
    assert(0 <= k * i && k * i + k <= k * s.len()) by (nonlinear_arith)
        requires
            0 <= i < s.len(),
            k >= 0,
    ;
    if i == 0 {
        assert(k * i == 0) by (nonlinear_arith)
            requires
                i == 0,
        ;
        assert(enc_list(s, f).subrange(0, k) =~= f(s[0]));
    } else {
        lemma_enc_list_index(s.drop_first(), f, k, i - 1);
        assert(k * (i - 1) == k * i - k) by (nonlinear_arith);
        assert(enc_list(s, f).subrange(k * i, k * i + k) =~= enc_list(s.drop_first(), f).subrange(
            k * i - k,
            k * i,
        ));
        assert(s.drop_first()[i - 1] == s[i]);
    }
}

/// Decoding each `k`-byte chunk of a byte string and re-encoding the
/// chunks reproduces the byte string.
pub proof fn lemma_enc_list_of_chunks<T>(
    pl: Seq<u8>,
    f: spec_fn(T) -> Seq<u8>,
    g: spec_fn(Seq<u8>) -> T,
    k: int,
    m: int,
)
    requires
        k > 0,
        m >= 0,
        pl.len() == k * m,
        forall|b: Seq<u8>| b.len() == k ==> #[trigger] f(g(b)) == b,
    ensures
        enc_list(Seq::new(m as nat, |i: int| g(pl.subrange(k * i, k * i + k))), f) == pl,
    decreases m,
{
    let s = Seq::new(m as nat, |i: int| g(pl.subrange(k * i, k * i + k)));
    if m == 0 {
        assert(pl =~= Seq::<u8>::empty());
        assert(enc_list(s, f) =~= pl);
    } else {
        assert(k * m >= k * 1 && k * (m - 1) == k * m - k) by (nonlinear_arith)
            requires
                k > 0,
                m >= 1,
        ;
        let head = pl.subrange(0, k);
        let tail = pl.subrange(k, pl.len() as int);
        lemma_enc_list_of_chunks(tail, f, g, k, m - 1);
        let s2 = Seq::new((m - 1) as nat, |i: int| g(tail.subrange(k * i, k * i + k)));
        assert forall|i: int| 0 <= i < m - 1 implies s.drop_first()[i] == s2[i] by {
            assert(k * (i + 1) == k * i + k && k * (i + 1) + k <= k * m) by (nonlinear_arith)
                requires
                    k > 0,
                    0 <= i < m - 1,
            ;
            assert(pl.subrange(k * (i + 1), k * (i + 1) + k) =~= tail.subrange(k * i, k * i + k));
        }
        assert(s.drop_first() =~= s2);
        assert(s[0] == g(head));
        assert(f(g(head)) == head);
        assert(enc_list(s, f) == head + tail);
        assert(head + tail =~= pl);
    }
}

/// Decoding the encoding of a list, chunk by chunk, yields the original
/// items.
pub proof fn lemma_chunks_of_enc_list<T>(
    s: Seq<T>,
    f: spec_fn(T) -> Seq<u8>,
    g: spec_fn(Seq<u8>) -> T,
    k: int,
)
    requires
        k > 0,
        forall|t: T| (#[trigger] f(t)).len() == k,
        forall|t: T| #[trigger] g(f(t)) == t,
    ensures
        Seq::new(s.len(), |i: int| g(enc_list(s, f).subrange(k * i, k * i + k))) == s,
{
    let r = Seq::new(s.len(), |i: int| g(enc_list(s, f).subrange(k * i, k * i + k)));
    assert forall|i: int| 0 <= i < s.len() implies r[i] == s[i] by {
        lemma_enc_list_index(s, f, k, i);
    }
    assert(r =~= s);
}

/// One more item extends the encoding of a list prefix by that item's
/// bytes.
pub proof fn lemma_enc_list_take_succ<T>(s: Seq<T>, f: spec_fn(T) -> Seq<u8>, i: int)
    requires
        0 <= i < s.len(),
    ensures
        enc_list(s.take(i + 1), f) == enc_list(s.take(i), f) + f(s[i]),
    decreases i,
{
    if i == 0 {
        assert(s.take(0) =~= Seq::<T>::empty());
        assert(s.take(1).len() == 1 && s.take(1)[0] == s[0]);
        assert(s.take(1).drop_first().len() == 0);
        assert(enc_list(s.take(1).drop_first(), f) == Seq::<u8>::empty());
        assert(enc_list(s.take(1), f) == f(s.take(1)[0]) + enc_list(s.take(1).drop_first(), f));
        assert(f(s[0]) + Seq::<u8>::empty() =~= f(s[0]));
        assert(enc_list(s.take(0), f) + f(s[0]) =~= f(s[0]));
    } else {
        lemma_enc_list_take_succ(s.drop_first(), f, i - 1);
        assert(s.take(i + 1).drop_first() =~= s.drop_first().take(i));
        assert(s.take(i).drop_first() =~= s.drop_first().take(i - 1));
        assert(s.take(i + 1)[0] == s[0] && s.take(i)[0] == s[0]);
        assert(s.drop_first()[i - 1] == s[i]);
        assert(enc_list(s.take(i + 1), f) == f(s[0]) + enc_list(s.drop_first().take(i), f));
        assert(enc_list(s.take(i), f) == f(s[0]) + enc_list(s.drop_first().take(i - 1), f));
        assert(f(s[0]) + (enc_list(s.drop_first().take(i - 1), f) + f(s[i])) =~= (f(s[0])
            + enc_list(s.drop_first().take(i - 1), f)) + f(s[i]));
    }
}

/// Taking a whole list is the list.
pub proof fn lemma_take_full<T>(s: Seq<T>)
    ensures
        s.take(s.len() as int) == s,
{
    assert(s.take(s.len() as int) =~= s);
}

/// Appends a byte vector's contents.
pub fn push_bytes(out: &mut Vec<u8>, b: &Vec<u8>)
    ensures
        final(out)@ == old(out)@ + b@,
{
    let mut i: usize = 0;
    while i < b.len()
        invariant
            i <= b@.len(),
            out@ == old(out)@ + b@.subrange(0, i as int),
        decreases b@.len() - i,
    {
        out.push(b[i]);
        proof {
            assert(out@ =~= old(out)@ + b@.subrange(0, i + 1));
        }
        i = i + 1;
    }
    proof {
        assert(out@ =~= old(out)@ + b@);
    }
}

/// Copies a range of a byte slice into a fresh vector.
pub fn subslice_vec(bytes: &[u8], from: usize, to: usize) -> (r: Vec<u8>)
    requires
        from <= to <= bytes@.len(),
    ensures
        r@ == bytes@.subrange(from as int, to as int),
{
    let mut r: Vec<u8> = Vec::new();
    let mut i: usize = from;
    while i < to
        invariant
            from <= i <= to <= bytes@.len(),
            r@ == bytes@.subrange(from as int, i as int),
        decreases to - i,
    {
        r.push(bytes[i]);
        proof {
            assert(r@ =~= bytes@.subrange(from as int, i + 1));
        }
        i = i + 1;
    }
    r
}

} // verus!
