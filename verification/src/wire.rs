//! Little-endian wire primitives.
//!
//! Every integer crosses the wire least-significant byte first; variable
//! length data carries a 32-bit length prefix.  Each primitive has a
//! mathematical encoder and decoder, and the executable pair is proved to
//! match them exactly; the decoders consume from an arbitrary position so
//! that message decoders compose.

use vstd::prelude::*;

verus! {

/// The bytes of `x`, least significant first.
pub open spec fn enc_u16(x: u16) -> Seq<u8> {
    seq![(x % 256) as u8, (x / 256) as u8]
}

/// The bytes of `x`, least significant first.
pub open spec fn enc_u32(x: u32) -> Seq<u8> {
    seq![
        (x % 256) as u8,
        ((x / 256) % 256) as u8,
        ((x / 65536) % 256) as u8,
        (x / 16777216) as u8,
    ]
}

/// The bytes of `x`, least significant first.
pub open spec fn enc_u64(x: u64) -> Seq<u8> {
    seq![
        (x % 256) as u8,
        ((x / 256) % 256) as u8,
        ((x / 65536) % 256) as u8,
        ((x / 16777216) % 256) as u8,
        ((x / 0x100000000) % 256) as u8,
        ((x / 0x10000000000) % 256) as u8,
        ((x / 0x1000000000000) % 256) as u8,
        (x / 0x100000000000000) as u8,
    ]
}

/// The unsigned 32-bit pattern standing for `x` in two's complement.
pub open spec fn i32_bits(x: i32) -> u32 {
    if x >= 0 {
        x as u32
    } else {
        (x + 0x100000000) as u32
    }
}

/// The signed value a 32-bit pattern stands for in two's complement.
pub open spec fn i32_of_bits(b: u32) -> i32 {
    if b < 0x80000000 {
        b as i32
    } else {
        (b - 0x100000000) as i32
    }
}

/// The bytes of `x`, two's complement, least significant first.
pub open spec fn enc_i32(x: i32) -> Seq<u8> {
    enc_u32(i32_bits(x))
}

/// One byte read at `pos`.
pub open spec fn dec_u8(b: Seq<u8>, pos: int) -> Option<(u8, int)> {
    if 0 <= pos && pos + 1 <= b.len() {
        Some((b[pos], pos + 1))
    } else {
        None
    }
}

/// Two bytes read at `pos`, least significant first.
pub open spec fn dec_u16(b: Seq<u8>, pos: int) -> Option<(u16, int)> {
    if 0 <= pos && pos + 2 <= b.len() {
        Some(((b[pos] + 256 * (b[pos + 1] as int)) as u16, pos + 2))
    } else {
        None
    }
}

/// Four bytes read at `pos`, least significant first.
pub open spec fn dec_u32(b: Seq<u8>, pos: int) -> Option<(u32, int)> {
    if 0 <= pos && pos + 4 <= b.len() {
        Some(
            (
                (b[pos] + 256 * (b[pos + 1] as int) + 65536 * (b[pos + 2] as int)
                    + 16777216 * (b[pos + 3] as int)) as u32,
                pos + 4,
            ),
        )
    } else {
        None
    }
}

/// Eight bytes read at `pos`, least significant first.
pub open spec fn dec_u64(b: Seq<u8>, pos: int) -> Option<(u64, int)> {
    if 0 <= pos && pos + 8 <= b.len() {
        Some(
            (
                (b[pos] + 256 * (b[pos + 1] as int) + 65536 * (b[pos + 2] as int)
                    + 16777216 * (b[pos + 3] as int) + 0x100000000 * (b[pos + 4] as int)
                    + 0x10000000000 * (b[pos + 5] as int) + 0x1000000000000 * (b[pos + 6] as int)
                    + 0x100000000000000 * (b[pos + 7] as int)) as u64,
                pos + 8,
            ),
        )
    } else {
        None
    }
}

/// A signed 32-bit value read at `pos`.
pub open spec fn dec_i32(b: Seq<u8>, pos: int) -> Option<(i32, int)> {
    match dec_u32(b, pos) {
        Some((bits, p)) => Some((i32_of_bits(bits), p)),
        None => None,
    }
}

/// `n` raw bytes read at `pos`.
pub open spec fn dec_raw(b: Seq<u8>, pos: int, n: int) -> Option<(Seq<u8>, int)> {
    if 0 <= pos && 0 <= n && pos + n <= b.len() {
        Some((b.subrange(pos, pos + n), pos + n))
    } else {
        None
    }
}

/// Append the two bytes of `x`.
pub fn put_u16(out: &mut Vec<u8>, x: u16)
    ensures
        final(out)@ == old(out)@ + enc_u16(x),
{
    out.push((x % 256) as u8);
    out.push((x / 256) as u8);
    proof {
        assert(out@ =~= old(out)@ + enc_u16(x));
    }
}

/// Append the four bytes of `x`.
pub fn put_u32(out: &mut Vec<u8>, x: u32)
    ensures
        final(out)@ == old(out)@ + enc_u32(x),
{
    out.push((x % 256) as u8);
    out.push(((x / 256) % 256) as u8);
    out.push(((x / 65536) % 256) as u8);
    out.push((x / 16777216) as u8);
    proof {
        assert(out@ =~= old(out)@ + enc_u32(x));
    }
}

/// Append the eight bytes of `x`.
pub fn put_u64(out: &mut Vec<u8>, x: u64)
    ensures
        final(out)@ == old(out)@ + enc_u64(x),
{
    out.push((x % 256) as u8);
    out.push(((x / 256) % 256) as u8);
    out.push(((x / 65536) % 256) as u8);
    out.push(((x / 16777216) % 256) as u8);
    out.push(((x / 0x100000000) % 256) as u8);
    out.push(((x / 0x10000000000) % 256) as u8);
    out.push(((x / 0x1000000000000) % 256) as u8);
    out.push((x / 0x100000000000000) as u8);
    proof {
        assert(out@ =~= old(out)@ + enc_u64(x));
    }
}

/// Append the four bytes of `x`, two's complement.
pub fn put_i32(out: &mut Vec<u8>, x: i32)
    ensures
        final(out)@ == old(out)@ + enc_i32(x),
{
    let bits: u32 = if x >= 0 {
        x as u32
    } else {
        ((x as i64) + 0x100000000) as u32
    };
    proof {
        assert(bits == i32_bits(x));
    }
    put_u32(out, bits);
}

/// Read one byte.
pub fn get_u8(b: &Vec<u8>, pos: usize) -> (r: Option<(u8, usize)>)
    ensures
        match r {
            Some(p) => dec_u8(b@, pos as int) == Some((p.0, p.1 as int)),
            None => dec_u8(b@, pos as int) is None,
        },
{
    if pos < b.len() {
        Some((b[pos], pos + 1))
    } else {
        None
    }
}

/// Read two bytes, least significant first.
pub fn get_u16(b: &Vec<u8>, pos: usize) -> (r: Option<(u16, usize)>)
    ensures
        match r {
            Some(p) => dec_u16(b@, pos as int) == Some((p.0, p.1 as int)),
            None => dec_u16(b@, pos as int) is None,
        },
{
    if b.len() >= 2 && pos <= b.len() - 2 {
        let v: u16 = b[pos] as u16 + 256 * (b[pos + 1] as u16);
        Some((v, pos + 2))
    } else {
        None
    }
}

/// Read four bytes, least significant first.
pub fn get_u32(b: &Vec<u8>, pos: usize) -> (r: Option<(u32, usize)>)
    ensures
        match r {
            Some(p) => dec_u32(b@, pos as int) == Some((p.0, p.1 as int)),
            None => dec_u32(b@, pos as int) is None,
        },
{
    if b.len() >= 4 && pos <= b.len() - 4 {
        let v: u32 = b[pos] as u32 + 256 * (b[pos + 1] as u32) + 65536 * (b[pos + 2] as u32)
            + 16777216 * (b[pos + 3] as u32);
        Some((v, pos + 4))
    } else {
        None
    }
}

/// Read eight bytes, least significant first.
pub fn get_u64(b: &Vec<u8>, pos: usize) -> (r: Option<(u64, usize)>)
    ensures
        match r {
            Some(p) => dec_u64(b@, pos as int) == Some((p.0, p.1 as int)),
            None => dec_u64(b@, pos as int) is None,
        },
{
    if b.len() >= 8 && pos <= b.len() - 8 {
        let v: u64 = b[pos] as u64 + 256 * (b[pos + 1] as u64) + 65536 * (b[pos + 2] as u64)
            + 16777216 * (b[pos + 3] as u64) + 0x100000000 * (b[pos + 4] as u64)
            + 0x10000000000 * (b[pos + 5] as u64) + 0x1000000000000 * (b[pos + 6] as u64)
            + 0x100000000000000 * (b[pos + 7] as u64);
        Some((v, pos + 8))
    } else {
        None
    }
}

/// Read a signed 32-bit value.
pub fn get_i32(b: &Vec<u8>, pos: usize) -> (r: Option<(i32, usize)>)
    ensures
        match r {
            Some(p) => dec_i32(b@, pos as int) == Some((p.0, p.1 as int)),
            None => dec_i32(b@, pos as int) is None,
        },
{
    match get_u32(b, pos) {
        Some((bits, p)) => {
            let v: i32 = if bits < 0x80000000 {
                bits as i32
            } else {
                ((bits as i64) - 0x100000000) as i32
            };
            proof {
                assert(v == i32_of_bits(bits));
            }
            Some((v, p))
        },
        None => None,
    }
}

/// Read `n` raw bytes.
pub fn get_raw(b: &Vec<u8>, pos: usize, n: usize) -> (r: Option<(Vec<u8>, usize)>)
    ensures
        match r {
            Some(p) => dec_raw(b@, pos as int, n as int) == Some((p.0@, p.1 as int)),
            None => dec_raw(b@, pos as int, n as int) is None,
        },
{
    if n <= b.len() && pos <= b.len() - n {
        let mut out: Vec<u8> = Vec::new();
        let mut i: usize = 0;
        while i < n
            invariant
                i <= n,
                pos + n <= b@.len(),
                b@.len() <= usize::MAX,
                out@ == b@.subrange(pos as int, pos + i),
            decreases n - i,
        {
            out.push(b[pos + i]);
            proof {
                assert(out@ =~= b@.subrange(pos as int, pos + i + 1));
            }
            i += 1;
        }
        Some((out, pos + n))
    } else {
        None
    }
}

/// The frame of a message: its length, then its bytes.
pub open spec fn enc_frame(payload: Seq<u8>) -> Seq<u8> {
    enc_u32(payload.len() as u32) + payload
}

/// A frame read at `pos`: the framed bytes and the position past them.
pub open spec fn dec_frame(b: Seq<u8>, pos: int) -> Option<(Seq<u8>, int)> {
    match dec_u32(b, pos) {
        Some((len, p)) => dec_raw(b, p, len as int),
        None => None,
    }
}

/// Append a message's frame: its length, then its bytes.
pub fn put_frame(out: &mut Vec<u8>, payload: &Vec<u8>)
    requires
        payload@.len() <= u32::MAX,
    ensures
        final(out)@ == old(out)@ + enc_frame(payload@),
{
    put_u32(out, payload.len() as u32);
    let mut i: usize = 0;
    while i < payload.len()
        invariant
            i <= payload@.len(),
            out@ == old(out)@ + enc_u32(payload@.len() as u32) + payload@.take(i as int),
        decreases payload.len() - i,
    {
        out.push(payload[i]);
        proof {
            assert(out@ =~= old(out)@ + enc_u32(payload@.len() as u32) + payload@.take(i + 1));
        }
        i += 1;
    }
    proof {
        assert(out@ =~= old(out)@ + enc_frame(payload@));
    }
}

/// Read one frame.
pub fn get_frame(b: &Vec<u8>, pos: usize) -> (r: Option<(Vec<u8>, usize)>)
    ensures
        match r {
            Some(p) => dec_frame(b@, pos as int) == Some((p.0@, p.1 as int)),
            None => dec_frame(b@, pos as int) is None,
        },
{
    match get_u32(b, pos) {
        Some((len, p)) => get_raw(b, p, len as usize),
        None => None,
    }
}

/// A framed message decodes back from its frame.
pub proof fn lemma_frame_round_trip(b: Seq<u8>, pos: int, payload: Seq<u8>)
    requires
        0 <= pos,
        payload.len() <= u32::MAX,
        pos + 4 + payload.len() <= b.len(),
        b.subrange(pos, pos + 4 + payload.len()) == enc_frame(payload),
    ensures
        dec_frame(b, pos) == Some((payload, pos + 4 + payload.len())),
{
    let e = enc_frame(payload);
    lemma_sub_piece(b, pos, e, 0, 4);
    assert(e.subrange(0, 4) =~= enc_u32(payload.len() as u32));
    lemma_u32_round_trip(b, pos, payload.len() as u32);
    lemma_sub_piece(b, pos, e, 4, e.len() as int);
    assert(e.subrange(4, e.len() as int) =~= payload);
}

/// A piece of an encoding placed at `pos` in a buffer stands at its offset
/// in the buffer.
pub proof fn lemma_sub_piece(b: Seq<u8>, pos: int, e: Seq<u8>, a: int, c: int)
    requires
        0 <= pos,
        pos + e.len() <= b.len(),
        b.subrange(pos, pos + e.len()) == e,
        0 <= a <= c <= e.len(),
    ensures
        b.subrange(pos + a, pos + c) == e.subrange(a, c),
{
    assert(b.subrange(pos + a, pos + c) =~= b.subrange(pos, pos + e.len()).subrange(a, c));
}

/// Every two's-complement pattern decodes back to its value.
pub proof fn lemma_i32_bits_round_trip(x: i32)
    ensures
        i32_of_bits(i32_bits(x)) == x,
{
}

/// A 16-bit value decodes back from its encoding, wherever it stands in a
/// buffer.
pub proof fn lemma_u16_round_trip(b: Seq<u8>, pos: int, x: u16)
    requires
        0 <= pos,
        pos + 2 <= b.len(),
        b.subrange(pos, pos + 2) == enc_u16(x),
    ensures
        dec_u16(b, pos) == Some((x, pos + 2)),
{
    assert(b[pos] == enc_u16(x)[0]);
    assert(b[pos + 1] == enc_u16(x)[1]);
    assert(x % 256 + 256 * (x / 256) == x) by {
        vstd::arithmetic::div_mod::lemma_fundamental_div_mod(x as int, 256);
    }
}

/// A 32-bit value decodes back from its encoding.
pub proof fn lemma_u32_round_trip(b: Seq<u8>, pos: int, x: u32)
    requires
        0 <= pos,
        pos + 4 <= b.len(),
        b.subrange(pos, pos + 4) == enc_u32(x),
    ensures
        dec_u32(b, pos) == Some((x, pos + 4)),
{
    assert(b[pos] == enc_u32(x)[0]);
    assert(b[pos + 1] == enc_u32(x)[1]);
    assert(b[pos + 2] == enc_u32(x)[2]);
    assert(b[pos + 3] == enc_u32(x)[3]);
    let xi = x as int;
    assert(x % 256 + 256 * ((x / 256) % 256) + 65536 * ((x / 65536) % 256) + 16777216 * (x
        / 16777216) == x) by {
        vstd::arithmetic::div_mod::lemma_fundamental_div_mod(xi, 256);
        vstd::arithmetic::div_mod::lemma_fundamental_div_mod(xi / 256, 256);
        vstd::arithmetic::div_mod::lemma_fundamental_div_mod(xi / 65536, 256);
        vstd::arithmetic::div_mod::lemma_div_denominator(xi, 256, 256);
        vstd::arithmetic::div_mod::lemma_div_denominator(xi, 65536, 256);
    };
}

/// A 64-bit value decodes back from its encoding.
pub proof fn lemma_u64_round_trip(b: Seq<u8>, pos: int, x: u64)
    requires
        0 <= pos,
        pos + 8 <= b.len(),
        b.subrange(pos, pos + 8) == enc_u64(x),
    ensures
        dec_u64(b, pos) == Some((x, pos + 8)),
{
    assert(b[pos] == enc_u64(x)[0]);
    assert(b[pos + 1] == enc_u64(x)[1]);
    assert(b[pos + 2] == enc_u64(x)[2]);
    assert(b[pos + 3] == enc_u64(x)[3]);
    assert(b[pos + 4] == enc_u64(x)[4]);
    assert(b[pos + 5] == enc_u64(x)[5]);
    assert(b[pos + 6] == enc_u64(x)[6]);
    assert(b[pos + 7] == enc_u64(x)[7]);
    let xi = x as int;
    assert(x % 256 + 256 * ((x / 256) % 256) + 65536 * ((x / 65536) % 256) + 16777216 * ((x
        / 16777216) % 256) + 0x100000000 * ((x / 0x100000000) % 256) + 0x10000000000 * ((x
        / 0x10000000000) % 256) + 0x1000000000000 * ((x / 0x1000000000000) % 256)
        + 0x100000000000000 * (x / 0x100000000000000) == x) by {
        vstd::arithmetic::div_mod::lemma_fundamental_div_mod(xi, 256);
        vstd::arithmetic::div_mod::lemma_fundamental_div_mod(xi / 256, 256);
        vstd::arithmetic::div_mod::lemma_fundamental_div_mod(xi / 65536, 256);
        vstd::arithmetic::div_mod::lemma_fundamental_div_mod(xi / 16777216, 256);
        vstd::arithmetic::div_mod::lemma_fundamental_div_mod(xi / 0x100000000, 256);
        vstd::arithmetic::div_mod::lemma_fundamental_div_mod(xi / 0x10000000000, 256);
        vstd::arithmetic::div_mod::lemma_fundamental_div_mod(xi / 0x1000000000000, 256);
        vstd::arithmetic::div_mod::lemma_div_denominator(xi, 256, 256);
        vstd::arithmetic::div_mod::lemma_div_denominator(xi, 65536, 256);
        vstd::arithmetic::div_mod::lemma_div_denominator(xi, 16777216, 256);
        vstd::arithmetic::div_mod::lemma_div_denominator(xi, 0x100000000, 256);
        vstd::arithmetic::div_mod::lemma_div_denominator(xi, 0x10000000000, 256);
        vstd::arithmetic::div_mod::lemma_div_denominator(xi, 0x1000000000000, 256);
    };
}

/// A signed 32-bit value decodes back from its encoding.
pub proof fn lemma_i32_round_trip(b: Seq<u8>, pos: int, x: i32)
    requires
        0 <= pos,
        pos + 4 <= b.len(),
        b.subrange(pos, pos + 4) == enc_i32(x),
    ensures
        dec_i32(b, pos) == Some((x, pos + 4)),
{
    lemma_u32_round_trip(b, pos, i32_bits(x));
}

/// Raw bytes decode back from wherever they stand.
pub proof fn lemma_raw_round_trip(b: Seq<u8>, pos: int, s: Seq<u8>)
    requires
        0 <= pos,
        pos + s.len() <= b.len(),
        b.subrange(pos, pos + s.len()) == s,
    ensures
        dec_raw(b, pos, s.len() as int) == Some((s, pos + s.len())),
{
}

} // verus!
