use vstd::prelude::*;

verus! {

/// The bit `k` set when `b` holds.
pub open spec fn spec_bit(b: bool, k: u8) -> u8 {
    if b {
        (1u8 << k) as u8
    } else {
        0u8
    }
}

/// Eight flags packed in a byte, the first in bit 0.
pub open spec fn spec_pack8(
    b0: bool,
    b1: bool,
    b2: bool,
    b3: bool,
    b4: bool,
    b5: bool,
    b6: bool,
    b7: bool,
) -> u8 {
    spec_bit(b0, 0) | spec_bit(b1, 1) | spec_bit(b2, 2) | spec_bit(b3, 3) | spec_bit(b4, 4)
        | spec_bit(b5, 5) | spec_bit(b6, 6) | spec_bit(b7, 7)
}

/// Whether bit `k` of `byte` is set.
pub open spec fn spec_has_bit(byte: u8, k: u8) -> bool {
    byte & ((1u8 << k) as u8) != 0
}

fn bit(b: bool, k: u8) -> (r: u8)
    requires
        k < 8,
    ensures
        r == spec_bit(b, k),
{
    if b {
        1u8 << k
    } else {
        0u8
    }
}

/// Packs eight flags in a byte, the first in bit 0.
pub fn pack8(
    b0: bool,
    b1: bool,
    b2: bool,
    b3: bool,
    b4: bool,
    b5: bool,
    b6: bool,
    b7: bool,
) -> (r: u8)
    ensures
        r == spec_pack8(b0, b1, b2, b3, b4, b5, b6, b7),
{
    bit(b0, 0) | bit(b1, 1) | bit(b2, 2) | bit(b3, 3) | bit(b4, 4) | bit(b5, 5) | bit(b6, 6) | bit(
        b7,
        7,
    )
}

/// Whether bit `k` of `byte` is set.
pub fn has_bit(byte: u8, k: u8) -> (r: bool)
    requires
        k < 8,
    ensures
        r == spec_has_bit(byte, k),
{
    byte & (1u8 << k) != 0
}

/// Each flag packed in a byte is read back from its bit.
pub proof fn lemma_pack8(
    b0: bool,
    b1: bool,
    b2: bool,
    b3: bool,
    b4: bool,
    b5: bool,
    b6: bool,
    b7: bool,
)
    by (bit_vector)
    ensures
        ({
            let v = spec_pack8(b0, b1, b2, b3, b4, b5, b6, b7);
            &&& spec_has_bit(v, 0) == b0
            &&& spec_has_bit(v, 1) == b1
            &&& spec_has_bit(v, 2) == b2
            &&& spec_has_bit(v, 3) == b3
            &&& spec_has_bit(v, 4) == b4
            &&& spec_has_bit(v, 5) == b5
            &&& spec_has_bit(v, 6) == b6
            &&& spec_has_bit(v, 7) == b7
        }),
{
}

/// Four 10-bit temperature values packed in 5 bytes: the first takes
/// bits 0..10, the second bits 10..20, the third bits 20..30, the fourth
/// bits 30..40 (little-endian).
pub open spec fn spec_pack_temps(t0: u16, t1: u16, t2: u16, t3: u16) -> Seq<u8> {
    seq![
        t0 as u8,
        (((t0 >> 8u16) as u8) | ((t1 as u8) << 2u8)) as u8,
        (((t1 as u8) >> 6u8) | (((t1 >> 8u16) as u8) << 2u8) | ((t2 as u8) << 4u8)) as u8,
        (((t2 as u8) >> 4u8) | (((t2 >> 8u16) as u8) << 4u8) | ((t3 as u8) << 6u8)) as u8,
        (((t3 as u8) >> 2u8) | (((t3 >> 8u16) as u8) << 6u8)) as u8,
    ]
}

/// The first 10-bit value of the packing, from its two bytes.
pub open spec fn spec_unpack_t0(p0: u8, p1: u8) -> u16 {
    ((p0 as u16) | (((p1 & 3u8) as u16) << 8u16)) as u16
}

/// The second 10-bit value of the packing, from its two bytes.
pub open spec fn spec_unpack_t1(p1: u8, p2: u8) -> u16 {
    ((((p1 >> 2u8) | ((p2 & 3u8) << 6u8)) as u16) | ((((p2 & 0x0cu8) >> 2u8) as u16) << 8u16)) as u16
}

/// The third 10-bit value of the packing, from its two bytes.
pub open spec fn spec_unpack_t2(p2: u8, p3: u8) -> u16 {
    ((((p2 >> 4u8) | ((p3 & 0x0fu8) << 4u8)) as u16) | ((((p3 & 0x30u8) >> 4u8) as u16) << 8u16)) as u16
}

/// The fourth 10-bit value of the packing, from its two bytes.
pub open spec fn spec_unpack_t3(p3: u8, p4: u8) -> u16 {
    ((((p3 >> 6u8) | ((p4 & 0x3fu8) << 2u8)) as u16) | ((((p4 & 0xc0u8) >> 6u8) as u16) << 8u16)) as u16
}

/// Unpacking four packed 10-bit values gives them back.
pub proof fn lemma_temps_roundtrip(t0: u16, t1: u16, t2: u16, t3: u16)
    by (bit_vector)
    requires
        t0 < 1024,
        t1 < 1024,
        t2 < 1024,
        t3 < 1024,
    ensures
        ({
            let p0 = t0 as u8;
            let p1 = (((t0 >> 8u16) as u8) | ((t1 as u8) << 2u8)) as u8;
            let p2 = (((t1 as u8) >> 6u8) | (((t1 >> 8u16) as u8) << 2u8) | ((t2 as u8) << 4u8)) as u8;
            let p3 = (((t2 as u8) >> 4u8) | (((t2 >> 8u16) as u8) << 4u8) | ((t3 as u8) << 6u8)) as u8;
            let p4 = (((t3 as u8) >> 2u8) | (((t3 >> 8u16) as u8) << 6u8)) as u8;
            &&& ((p0 as u16) | (((p1 & 3u8) as u16) << 8u16)) as u16 == t0
            &&& ((((p1 >> 2u8) | ((p2 & 3u8) << 6u8)) as u16) | ((((p2 & 0x0cu8) >> 2u8) as u16)
                << 8u16)) as u16 == t1
            &&& ((((p2 >> 4u8) | ((p3 & 0x0fu8) << 4u8)) as u16) | ((((p3 & 0x30u8) >> 4u8) as u16)
                << 8u16)) as u16 == t2
            &&& ((((p3 >> 6u8) | ((p4 & 0x3fu8) << 2u8)) as u16) | ((((p4 & 0xc0u8) >> 6u8) as u16)
                << 8u16)) as u16 == t3
        }),
{
}

/// Packs four 10-bit temperature values in 5 bytes, appended to `out`.
pub fn pack_temps(out: &mut Vec<u8>, t0: u16, t1: u16, t2: u16, t3: u16)
    ensures
        final(out)@ == old(out)@ + spec_pack_temps(t0, t1, t2, t3),
{
    let l0 = t0 as u8;
    let h0 = (t0 >> 8) as u8;
    let l1 = t1 as u8;
    let h1 = (t1 >> 8) as u8;
    let l2 = t2 as u8;
    let h2 = (t2 >> 8) as u8;
    let l3 = t3 as u8;
    let h3 = (t3 >> 8) as u8;
    let ghost before = out@;
    out.push(l0);
    out.push(h0 | (l1 << 2));
    out.push((l1 >> 6) | (h1 << 2) | (l2 << 4));
    out.push((l2 >> 4) | (h2 << 4) | (l3 << 6));
    out.push((l3 >> 2) | (h3 << 6));
    proof {
        assert(out@ =~= before + spec_pack_temps(t0, t1, t2, t3));
    }
}

/// The first 10-bit value of the packing, from its two bytes.
pub fn unpack_t0(p0: u8, p1: u8) -> (r: u16)
    ensures
        r == spec_unpack_t0(p0, p1),
{
    (p0 as u16) | (((p1 & 3) as u16) << 8)
}

/// The second 10-bit value of the packing, from its two bytes.
pub fn unpack_t1(p1: u8, p2: u8) -> (r: u16)
    ensures
        r == spec_unpack_t1(p1, p2),
{
    (((p1 >> 2) | ((p2 & 3) << 6)) as u16) | ((((p2 & 0x0c) >> 2) as u16) << 8)
}

/// The third 10-bit value of the packing, from its two bytes.
pub fn unpack_t2(p2: u8, p3: u8) -> (r: u16)
    ensures
        r == spec_unpack_t2(p2, p3),
{
    (((p2 >> 4) | ((p3 & 0x0f) << 4)) as u16) | ((((p3 & 0x30) >> 4) as u16) << 8)
}

/// The fourth 10-bit value of the packing, from its two bytes.
pub fn unpack_t3(p3: u8, p4: u8) -> (r: u16)
    ensures
        r == spec_unpack_t3(p3, p4),
{
    (((p3 >> 6) | ((p4 & 0x3f) << 2)) as u16) | ((((p4 & 0xc0) >> 6) as u16) << 8)
}

/// A bit test of a byte is a test of the mask of that bit.
pub proof fn lemma_has_bit_masks(b: u8)
    by (bit_vector)
    ensures
        spec_has_bit(b, 0) == (b & 0x01 != 0),
        spec_has_bit(b, 1) == (b & 0x02 != 0),
        spec_has_bit(b, 2) == (b & 0x04 != 0),
        spec_has_bit(b, 3) == (b & 0x08 != 0),
        spec_has_bit(b, 4) == (b & 0x10 != 0),
        spec_has_bit(b, 5) == (b & 0x20 != 0),
        spec_has_bit(b, 6) == (b & 0x40 != 0),
        spec_has_bit(b, 7) == (b & 0x80 != 0),
{
}

/// The four 10-bit values read from five packed bytes, as arithmetic on the
/// bytes: the first is byte 0 with the low two bits of byte 1 above it, the
/// second the high six bits of byte 1 with the low four bits of byte 2 above
/// them, the third the high four bits of byte 2 with the low six bits of byte 3
/// above them, the fourth the high two bits of byte 3 with byte 4 above them.
pub proof fn lemma_unpack_temps_arith(p0: u8, p1: u8, p2: u8, p3: u8, p4: u8)
    by (bit_vector)
    ensures
        spec_unpack_t0(p0, p1) == p0 + 256 * (p1 % 4),
        spec_unpack_t1(p1, p2) == p1 / 4 + 64 * (p2 % 16),
        spec_unpack_t2(p2, p3) == p2 / 16 + 16 * (p3 % 64),
        spec_unpack_t3(p3, p4) == p3 / 64 + 4 * p4,
{
}

} // verus!
