use vstd::prelude::*;

verus! {

/// Arithmetic meaning of the byte-level bit operations used by the codecs.
pub proof fn lemma_u8_split3(x: u8)
    by (bit_vector)
    ensures
        x & 7 == x % 8,
        x >> 3 == x / 8,
        (x >> 3) & 7 == (x / 8) % 8,
{
}

/// Packing two 3-bit fields into one byte and reading them back.
pub proof fn lemma_u8_pack3(lo: u8, hi: u8)
    by (bit_vector)
    requires
        lo < 8,
        hi < 8,
    ensures
        (hi << 3) | lo == hi * 8 + lo,
        ((hi << 3) | lo) & 7 == lo,
        (((hi << 3) | lo) >> 3) & 7 == hi,
{
}

/// Unpacking the fields of a packed CANIOT identifier gives them back, and
/// the packed identifier fits in 11 bits.
pub proof fn lemma_u16_id_pack(c: u16, s: u16, a: u16, t: u16, d: u16, e: u16)
    by (bit_vector)
    requires
        c < 8,
        s < 8,
        a < 2,
        t < 2,
        d < 2,
        e < 4,
    ensures
        ({
            let v = (c << 3u16) | (s << 6u16) | a | (t << 1u16) | (d << 2u16) | (e << 9u16);
            &&& v <= 0x7ff
            &&& (v >> 3u16) & 7 == c
            &&& (v >> 6u16) & 7 == s
            &&& v & 1 == a
            &&& (v >> 1u16) & 1 == t
            &&& (v >> 2u16) & 1 == d
            &&& (v >> 9u16) & 3 == e
        }),
{
}

/// Packing the fields of an 11-bit raw identifier gives it back; every field
/// is in range.
pub proof fn lemma_u16_id_unpack(v: u16)
    by (bit_vector)
    requires
        v <= 0x7ff,
    ensures
        (((v >> 3u16) & 7) << 3u16) | (((v >> 6u16) & 7) << 6u16) | (v & 1) | (((v >> 1u16) & 1)
            << 1u16) | (((v >> 2u16) & 1) << 2u16) | (((v >> 9u16) & 3) << 9u16) == v,
{
}

/// Every field of a raw identifier is in range.
pub proof fn lemma_u16_id_ranges(v: u16)
    by (bit_vector)
    ensures
        (v >> 3u16) & 7 < 8,
        (v >> 6u16) & 7 < 8,
        v & 1 < 2,
        (v >> 1u16) & 1 < 2,
        (v >> 2u16) & 1 < 2,
        (v >> 9u16) & 3 < 4,
{
}

/// Reading and setting a 3-bit field at bit offset `off` of byte `a`, whose
/// high bits continue in byte `b` when the field straddles the two bytes.
pub proof fn lemma_xps_field(a: u8, b: u8, off: u8, x: u8)
    by (bit_vector)
    requires
        off < 8,
        x < 8,
    ensures
        (a >> off) & 7u8 < 8,
        off >= 6 ==> ((a >> off) & 7u8) | ((b & (0xffu8 >> ((8 - (3 - ((8 - off) as u8))) as u8)))
            << ((8 - off) as u8)) < 8,
        off <= 5 ==> (((a | (x << off)) >> off) & 7u8) == ((a >> off) & 7u8) | (x & 7u8),
        off >= 6 ==> (((a | (x << off)) >> off) & 7u8) == ((a >> off) & 7u8) | (x & (0xffu8
            >> off)),
        off >= 6 ==> ((((a | (x << off)) >> off) & 7u8) | (((b | (x >> ((8 - off) as u8))) & (0xffu8
            >> ((8 - (3 - ((8 - off) as u8))) as u8))) << ((8 - off) as u8))) == (((a >> off) & 7u8)
            | ((b & (0xffu8 >> ((8 - (3 - ((8 - off) as u8))) as u8))) << ((8 - off) as u8))) | (x
            & 7u8),
{
}

/// The fields of a class 0 command read from its two bytes are 3-bit
/// values, and reading the bytes built from four 3-bit values gives them back.
pub proof fn lemma_class0_command(b0: u8, b1: u8, coc1: u8, coc2: u8, crl1: u8, crl2: u8)
    by (bit_vector)
    ensures
        b0 & 7u8 < 8,
        (b0 & 0x38u8) >> 3u8 < 8,
        ((b0 & 0xc0u8) >> 6u8) | ((b1 & 1u8) << 2u8) < 8,
        (b1 & 0x0eu8) >> 1u8 < 8,
        (coc1 < 8 && coc2 < 8 && crl1 < 8 && crl2 < 8 && b0 == (coc1 | (coc2 << 3u8) | ((crl1
            & 3u8) << 6u8)) && b1 == (((crl1 & 4u8) >> 2u8) | (crl2 << 1u8))) ==> (b0 & 7u8 == coc1
            && (b0 & 0x38u8) >> 3u8 == coc2 && ((b0 & 0xc0u8) >> 6u8) | ((b1 & 1u8) << 2u8) == crl1
            && (b1 & 0x0eu8) >> 1u8 == crl2),
{
}

/// Packing the five flags of a system command in a byte, built flag by flag,
/// and reading them back.
pub proof fn lemma_sys_command(h: bool, s: bool, wr: bool, we: bool, f: bool)
    by (bit_vector)
    ensures
        ({
            let b = ((if h { 1u8 } else { 0u8 }) | ((if s { 1u8 } else { 0u8 }) << 1u8) | ((if wr {
                1u8
            } else {
                0u8
            }) << 2u8) | ((if we { 1u8 } else { 0u8 }) << 3u8) | ((if f { 1u8 } else { 0u8 })
                << 5u8)) as u8;
            &&& (((((0u8 | (if h { 1u8 } else { 0u8 })) | ((if s { 1u8 } else { 0u8 }) << 1u8)) | ((if wr {
                1u8
            } else {
                0u8
            }) << 2u8)) | ((if we { 1u8 } else { 0u8 }) << 3u8)) | ((if f { 1u8 } else { 0u8 })
                << 5u8)) == b
            &&& (b & ((1u8 << 0u8) as u8) != 0) == h
            &&& (b & ((1u8 << 1u8) as u8) != 0) == s
            &&& (b & ((1u8 << 2u8) as u8) != 0) == wr
            &&& (b & ((1u8 << 3u8) as u8) != 0) == we
            &&& (b & ((1u8 << 5u8) as u8) != 0) == f
        }),
{
}

/// Or-ing the bits of a 3-bit field into a byte leaves the bits of another
/// field of the same byte, or of a field that straddles it, unchanged.
pub proof fn lemma_field_frame_bits(c: u8, x: u8, op: u8, oq: u8)
    by (bit_vector)
    requires
        x < 8,
        op < 8,
        oq < 8,
    ensures
        (op + 3 <= oq || oq + 3 <= op) ==> ((c | ((x << op) as u8)) >> oq) & 7u8 == (c >> oq)
            & 7u8,
        (oq >= 6 && op + 5 >= oq) ==> ((c | ((x << op) as u8)) & ((0xffu8 >> ((8 - (3 - ((8
            - oq) as u8))) as u8)) as u8)) == c & ((0xffu8 >> ((8 - (3 - ((8 - oq) as u8))) as u8))
            as u8),
        (op >= 6 && oq + 5 >= op) ==> ((c | (x >> ((8 - op) as u8))) >> oq) & 7u8 == (c >> oq)
            & 7u8,
        (0u8 >> oq) & 7u8 == 0,
        oq >= 6 ==> ((0u8 & ((0xffu8 >> ((8 - (3 - ((8 - oq) as u8))) as u8)) as u8)) << ((8
            - oq) as u8)) == 0,
        0u8 | 0u8 == 0,
        0u8 | (x & 7u8) == x,
        x < 4 ==> 0u8 | (x & (0xffu8 >> 6u8)) == x,
{
}

/// The 3-bit field at bit offset `off` of byte `a` (continued in byte `b` when
/// it straddles the two bytes) is made of single bits, lowest first; a field
/// cut at the end of the data keeps only the bits inside.
pub proof fn lemma_field_single_bits(a: u8, b: u8, off: u8, x: u8)
    by (bit_vector)
    requires
        off < 8,
    ensures
        off <= 5 ==> (a >> off) & 7u8 == ((a >> off) & 1u8) + 2 * ((a >> ((off + 1) as u8)) & 1u8)
            + 4 * ((a >> ((off + 2) as u8)) & 1u8),
        off == 6 ==> ((((a >> off) & 7u8) | ((b & ((0xffu8 >> ((8 - (3 - ((8 - off) as u8)))
            as u8)) as u8)) << ((8 - off) as u8))) as u8) == ((a >> off) & 1u8) + 2 * ((a >> ((off
            + 1) as u8)) & 1u8) + 4 * ((b >> 0u8) & 1u8),
        off == 7 ==> ((((a >> off) & 7u8) | ((b & ((0xffu8 >> ((8 - (3 - ((8 - off) as u8)))
            as u8)) as u8)) << ((8 - off) as u8))) as u8) == ((a >> off) & 1u8) + 2 * ((b >> 0u8)
            & 1u8) + 4 * ((b >> 1u8) & 1u8),
        off == 6 ==> (a >> off) & 7u8 == ((a >> off) & 1u8) + 2 * ((a >> ((off + 1) as u8)) & 1u8),
        0u8 | (x & (0xffu8 >> 6u8)) == x % 4,
{
}

} // verus!
