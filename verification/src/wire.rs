//! Byte-level primitives of the wire format: little-endian encodings of
//! the scalar field types, front-consuming readers over byte sequences,
//! and the lemmas that reading undoes writing.

use vstd::prelude::*;

verus! {

/// Little-endian bytes of a `u8`.
pub open spec fn enc_u8(v: u8) -> Seq<u8> {
    seq![v]
}

/// Little-endian bytes of a `u16`.
pub open spec fn enc_u16(v: u16) -> Seq<u8> {
    seq![(v & 0xff) as u8, ((v >> 8) & 0xff) as u8]
}

/// Little-endian bytes of a `u32`.
pub open spec fn enc_u32(v: u32) -> Seq<u8> {
    seq![
        (v & 0xff) as u8,
        ((v >> 8) & 0xff) as u8,
        ((v >> 16) & 0xff) as u8,
        ((v >> 24) & 0xff) as u8,
    ]
}

/// Little-endian bytes of a `u64`.
pub open spec fn enc_u64(v: u64) -> Seq<u8> {
    seq![
        (v & 0xff) as u8,
        ((v >> 8) & 0xff) as u8,
        ((v >> 16) & 0xff) as u8,
        ((v >> 24) & 0xff) as u8,
        ((v >> 32) & 0xff) as u8,
        ((v >> 40) & 0xff) as u8,
        ((v >> 48) & 0xff) as u8,
        ((v >> 56) & 0xff) as u8,
    ]
}

/// Little-endian bytes of an `i8`.
pub open spec fn enc_i8(v: i8) -> Seq<u8> {
    seq![v as u8]
}

/// Little-endian bytes of an `i32`.
pub open spec fn enc_i32(v: i32) -> Seq<u8> {
    enc_u32(v as u32)
}

/// Read a `u8` from the front of a byte sequence.
pub open spec fn peel_u8(s: Seq<u8>) -> Option<(u8, Seq<u8>)> {
    if s.len() >= 1 {
        Some((s[0], s.skip(1)))
    } else {
        None
    }
}

/// Read a `u16` from the front of a byte sequence.
pub open spec fn peel_u16(s: Seq<u8>) -> Option<(u16, Seq<u8>)> {
    if s.len() >= 2 {
        Some(((s[0] as u16) | ((s[1] as u16) << 8), s.skip(2)))
    } else {
        None
    }
}

/// Read a `u32` from the front of a byte sequence.
pub open spec fn peel_u32(s: Seq<u8>) -> Option<(u32, Seq<u8>)> {
    if s.len() >= 4 {
        Some(
            (
                (s[0] as u32) | ((s[1] as u32) << 8) | ((s[2] as u32) << 16) | ((s[3] as u32)
                    << 24),
                s.skip(4),
            ),
        )
    } else {
        None
    }
}

/// Read a `u64` from the front of a byte sequence.
pub open spec fn peel_u64(s: Seq<u8>) -> Option<(u64, Seq<u8>)> {
    if s.len() >= 8 {
        Some(
            (
                (s[0] as u64) | ((s[1] as u64) << 8) | ((s[2] as u64) << 16) | ((s[3] as u64)
                    << 24) | ((s[4] as u64) << 32) | ((s[5] as u64) << 40) | ((s[6] as u64) << 48)
                    | ((s[7] as u64) << 56),
                s.skip(8),
            ),
        )
    } else {
        None
    }
}

/// Read an `i8` from the front of a byte sequence.
pub open spec fn peel_i8(s: Seq<u8>) -> Option<(i8, Seq<u8>)> {
    match peel_u8(s) {
        Some((b, rest)) => Some((b as i8, rest)),
        None => None,
    }
}

/// Read an `i32` from the front of a byte sequence.
pub open spec fn peel_i32(s: Seq<u8>) -> Option<(i32, Seq<u8>)> {
    match peel_u32(s) {
        Some((w, rest)) => Some((w as i32, rest)),
        None => None,
    }
}

/// Reading a `u8` undoes writing one.
pub proof fn lemma_peel_u8(v: u8, rest: Seq<u8>)
    ensures
        peel_u8(enc_u8(v) + rest) == Some((v, rest)),
{
    let s = enc_u8(v) + rest;
    assert(s.skip(1) =~= rest);
}

/// Reading a `u16` undoes writing one.
pub proof fn lemma_peel_u16(v: u16, rest: Seq<u8>)
    ensures
        peel_u16(enc_u16(v) + rest) == Some((v, rest)),
{
    let s = enc_u16(v) + rest;
    assert((((v & 0xff) as u8) as u16) | ((((v >> 8) & 0xff) as u8) as u16) << 8 == v)
        by (bit_vector);
    assert(s.skip(2) =~= rest);
}

/// Reading a `u32` undoes writing one.
pub proof fn lemma_peel_u32(v: u32, rest: Seq<u8>)
    ensures
        peel_u32(enc_u32(v) + rest) == Some((v, rest)),
{
    let s = enc_u32(v) + rest;
    assert((((v & 0xff) as u8) as u32) | ((((v >> 8) & 0xff) as u8) as u32) << 8 | ((((v >> 16)
        & 0xff) as u8) as u32) << 16 | ((((v >> 24) & 0xff) as u8) as u32) << 24 == v)
        by (bit_vector);
    assert(s.skip(4) =~= rest);
}

/// Reading a `u64` undoes writing one.
pub proof fn lemma_peel_u64(v: u64, rest: Seq<u8>)
    ensures
        peel_u64(enc_u64(v) + rest) == Some((v, rest)),
{
    let s = enc_u64(v) + rest;
    assert((((v & 0xff) as u8) as u64) | ((((v >> 8) & 0xff) as u8) as u64) << 8 | ((((v >> 16)
        & 0xff) as u8) as u64) << 16 | ((((v >> 24) & 0xff) as u8) as u64) << 24 | ((((v >> 32)
        & 0xff) as u8) as u64) << 32 | ((((v >> 40) & 0xff) as u8) as u64) << 40 | ((((v >> 48)
        & 0xff) as u8) as u64) << 48 | ((((v >> 56) & 0xff) as u8) as u64) << 56 == v)
        by (bit_vector);
    assert(s.skip(8) =~= rest);
}

/// Reading an `i8` undoes writing one.
pub proof fn lemma_peel_i8(v: i8, rest: Seq<u8>)
    ensures
        peel_i8(enc_i8(v) + rest) == Some((v, rest)),
{
    lemma_peel_u8(v as u8, rest);
    assert((v as u8) as i8 == v) by (bit_vector);
}

/// Reading an `i32` undoes writing one.
pub proof fn lemma_peel_i32(v: i32, rest: Seq<u8>)
    ensures
        peel_i32(enc_i32(v) + rest) == Some((v, rest)),
{
    lemma_peel_u32(v as u32, rest);
    assert((v as u32) as i32 == v) by (bit_vector);
}

/// Append the little-endian bytes of a `u8`.
pub fn push_u8(buf: &mut Vec<u8>, v: u8)
    ensures
        final(buf)@ == old(buf)@ + enc_u8(v),
{
    buf.push(v);
    proof {
        assert(buf@ =~= old(buf)@ + enc_u8(v));
    }
}

/// Append the little-endian bytes of a `u16`.
pub fn push_u16(buf: &mut Vec<u8>, v: u16)
    ensures
        final(buf)@ == old(buf)@ + enc_u16(v),
{
    buf.push((v & 0xff) as u8);
    buf.push(((v >> 8) & 0xff) as u8);
    proof {
        assert(buf@ =~= old(buf)@ + enc_u16(v));
    }
}

/// Append the little-endian bytes of a `u32`.
pub fn push_u32(buf: &mut Vec<u8>, v: u32)
    ensures
        final(buf)@ == old(buf)@ + enc_u32(v),
{
    buf.push((v & 0xff) as u8);
    buf.push(((v >> 8) & 0xff) as u8);
    buf.push(((v >> 16) & 0xff) as u8);
    buf.push(((v >> 24) & 0xff) as u8);
    proof {
        assert(buf@ =~= old(buf)@ + enc_u32(v));
    }
}

/// Append the little-endian bytes of a `u64`.
pub fn push_u64(buf: &mut Vec<u8>, v: u64)
    ensures
        final(buf)@ == old(buf)@ + enc_u64(v),
{
    buf.push((v & 0xff) as u8);
    buf.push(((v >> 8) & 0xff) as u8);
    buf.push(((v >> 16) & 0xff) as u8);
    buf.push(((v >> 24) & 0xff) as u8);
    buf.push(((v >> 32) & 0xff) as u8);
    buf.push(((v >> 40) & 0xff) as u8);
    buf.push(((v >> 48) & 0xff) as u8);
    buf.push(((v >> 56) & 0xff) as u8);
    proof {
        assert(buf@ =~= old(buf)@ + enc_u64(v));
    }
}

/// Append the little-endian bytes of an `i8`.
pub fn push_i8(buf: &mut Vec<u8>, v: i8)
    ensures
        final(buf)@ == old(buf)@ + enc_i8(v),
{
    buf.push(v as u8);
    proof {
        assert(buf@ =~= old(buf)@ + enc_i8(v));
    }
}

/// Append the little-endian bytes of an `i32`.
pub fn push_i32(buf: &mut Vec<u8>, v: i32)
    ensures
        final(buf)@ == old(buf)@ + enc_i32(v),
{
    push_u32(buf, v as u32);
}

/// Read the `u8` at `pos`.
pub fn read_u8(buf: &Vec<u8>, pos: usize) -> (r: u8)
    requires
        pos + 1 <= buf@.len(),
    ensures
        peel_u8(buf@.skip(pos as int)) == Some((r, buf@.skip(pos as int + 1))),
{
    let r = buf[pos];
    proof {
        let s = buf@.skip(pos as int);
        assert(s[0] == buf@[pos as int]);
        assert(s.skip(1) =~= buf@.skip(pos as int + 1));
    }
    r
}

/// Read the `u16` at `pos`.
pub fn read_u16(buf: &Vec<u8>, pos: usize) -> (r: u16)
    requires
        pos + 2 <= buf@.len(),
    ensures
        peel_u16(buf@.skip(pos as int)) == Some((r, buf@.skip(pos as int + 2))),
{
    let n = buf.len();
    let b0 = buf[pos];
    let b1 = buf[pos + 1];
    let r = (b0 as u16) | ((b1 as u16) << 8);
    proof {
        let s = buf@.skip(pos as int);
        assert(s[0] == buf@[pos as int]);
        assert(s[1] == buf@[pos as int + 1]);
        assert(s.skip(2) =~= buf@.skip(pos as int + 2));
    }
    r
}

/// Read the `u32` at `pos`.
pub fn read_u32(buf: &Vec<u8>, pos: usize) -> (r: u32)
    requires
        pos + 4 <= buf@.len(),
    ensures
        peel_u32(buf@.skip(pos as int)) == Some((r, buf@.skip(pos as int + 4))),
{
    let n = buf.len();
    let b0 = buf[pos];
    let b1 = buf[pos + 1];
    let b2 = buf[pos + 2];
    let b3 = buf[pos + 3];
    let r = (b0 as u32) | ((b1 as u32) << 8) | ((b2 as u32) << 16) | ((b3 as u32) << 24);
    proof {
        let s = buf@.skip(pos as int);
        assert(s[0] == buf@[pos as int]);
        assert(s[1] == buf@[pos as int + 1]);
        assert(s[2] == buf@[pos as int + 2]);
        assert(s[3] == buf@[pos as int + 3]);
        assert(s.skip(4) =~= buf@.skip(pos as int + 4));
    }
    r
}

/// Read the `u64` at `pos`.
pub fn read_u64(buf: &Vec<u8>, pos: usize) -> (r: u64)
    requires
        pos + 8 <= buf@.len(),
    ensures
        peel_u64(buf@.skip(pos as int)) == Some((r, buf@.skip(pos as int + 8))),
{
    let n = buf.len();
    let b0 = buf[pos];
    let b1 = buf[pos + 1];
    let b2 = buf[pos + 2];
    let b3 = buf[pos + 3];
    let b4 = buf[pos + 4];
    let b5 = buf[pos + 5];
    let b6 = buf[pos + 6];
    let b7 = buf[pos + 7];
    let r = (b0 as u64) | ((b1 as u64) << 8) | ((b2 as u64) << 16) | ((b3 as u64) << 24) | ((
    b4 as u64) << 32) | ((b5 as u64) << 40) | ((b6 as u64) << 48) | ((b7 as u64) << 56);
    proof {
        let s = buf@.skip(pos as int);
        assert(s[0] == buf@[pos as int]);
        assert(s[1] == buf@[pos as int + 1]);
        assert(s[2] == buf@[pos as int + 2]);
        assert(s[3] == buf@[pos as int + 3]);
        assert(s[4] == buf@[pos as int + 4]);
        assert(s[5] == buf@[pos as int + 5]);
        assert(s[6] == buf@[pos as int + 6]);
        assert(s[7] == buf@[pos as int + 7]);
        assert(s.skip(8) =~= buf@.skip(pos as int + 8));
    }
    r
}

/// Read the `i8` at `pos`.
pub fn read_i8(buf: &Vec<u8>, pos: usize) -> (r: i8)
    requires
        pos + 1 <= buf@.len(),
    ensures
        peel_i8(buf@.skip(pos as int)) == Some((r, buf@.skip(pos as int + 1))),
{
    let b = read_u8(buf, pos);
    b as i8
}

/// Read the `i32` at `pos`.
pub fn read_i32(buf: &Vec<u8>, pos: usize) -> (r: i32)
    requires
        pos + 4 <= buf@.len(),
    ensures
        peel_i32(buf@.skip(pos as int)) == Some((r, buf@.skip(pos as int + 4))),
{
    let w = read_u32(buf, pos);
    w as i32
}

} // verus!
