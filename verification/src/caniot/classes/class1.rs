use vstd::prelude::*;

use super::super::bits::{lemma_field_frame_bits, lemma_field_single_bits};
use super::super::datatypes::{
    lemma_field_at_bits, lemma_field_of_zeros, lemma_set_zero_field, spec_bit_at, lemma_temperature_u10_roundtrip,
    lemma_xps_from_value, lemma_xps_set_frame, lemma_xps_value_bound, spec_field_at,
    spec_field_in, spec_field_mask, spec_set_field_at, spec_xps_at, Temperature, Xps,
};
use super::super::error::ProtocolError;
use super::super::payloads::{AsPayload, ClCd, Payload, Ty};
use super::super::protocol::{Endpoint, ResponseData};
use super::codec::{
    has_bit, lemma_has_bit_masks, lemma_pack8, lemma_temps_roundtrip, lemma_unpack_temps_arith, pack8, pack_temps, spec_has_bit, spec_pack8,
    spec_pack_temps, spec_unpack_t0, spec_unpack_t1, spec_unpack_t2, spec_unpack_t3, unpack_t0,
    unpack_t1, unpack_t2, unpack_t3,
};
use super::traits::{Class, ClassCommandTrait};

verus! {

/// Number of inputs/outputs of a class 1 board.
pub const CLASS1_IO_COUNT: usize = 19;

/// Telemetry of a class 1 board: the state of its 19 inputs/outputs
/// (PC0-3, PD0-3, EIO0-7, PB0, PE0-1) and four temperatures.
#[derive(Debug, Clone, Copy, PartialEq, Eq)]
pub struct Telemetry {
    pub ios: [bool; 19],
    pub temp_in: Temperature,
    pub temp_out: [Temperature; 3],
}

impl Default for Telemetry {
    fn default() -> (r: Telemetry)
        ensures
            forall|i: int| 0 <= i < 19 ==> !#[trigger] r.ios[i],
            r.temp_in.0 is None,
            r.temp_out[0].0 is None && r.temp_out[1].0 is None && r.temp_out[2].0 is None,
    {
        Telemetry {
            ios: [false; 19],
            temp_in: Temperature(None),
            temp_out: [Temperature(None), Temperature(None), Temperature(None)],
        }
    }
}

impl Telemetry {
    /// The 8 bytes of the telemetry: the 19 inputs/outputs in bytes 0..3
    /// (the first in bit 0 of byte 0), then the four 10-bit temperatures packed.
    pub open spec fn spec_encode(self) -> Seq<u8> {
        seq![
            spec_pack8(self.ios[0], self.ios[1], self.ios[2], self.ios[3], self.ios[4], self.ios[5], self.ios[6], self.ios[7]),
            spec_pack8(self.ios[8], self.ios[9], self.ios[10], self.ios[11], self.ios[12], self.ios[13], self.ios[14], self.ios[15]),
            spec_pack8(self.ios[16], self.ios[17], self.ios[18], false, false, false, false, false),
        ] + spec_pack_temps(
            self.temp_in.spec_to_raw_u10(),
            self.temp_out[0].spec_to_raw_u10(),
            self.temp_out[1].spec_to_raw_u10(),
            self.temp_out[2].spec_to_raw_u10(),
        )
    }

    /// The telemetry carried by the bytes `p` (at least 8).
    pub open spec fn spec_decode(p: Seq<u8>) -> Telemetry {
        Telemetry {
            ios: [
                spec_has_bit(p[0], 0),
                spec_has_bit(p[0], 1),
                spec_has_bit(p[0], 2),
                spec_has_bit(p[0], 3),
                spec_has_bit(p[0], 4),
                spec_has_bit(p[0], 5),
                spec_has_bit(p[0], 6),
                spec_has_bit(p[0], 7),
                spec_has_bit(p[1], 0),
                spec_has_bit(p[1], 1),
                spec_has_bit(p[1], 2),
                spec_has_bit(p[1], 3),
                spec_has_bit(p[1], 4),
                spec_has_bit(p[1], 5),
                spec_has_bit(p[1], 6),
                spec_has_bit(p[1], 7),
                spec_has_bit(p[2], 0),
                spec_has_bit(p[2], 1),
                spec_has_bit(p[2], 2),
            ],
            temp_in: Temperature::spec_from_raw_u10(spec_unpack_t0(p[3], p[4])),
            temp_out: [
                Temperature::spec_from_raw_u10(spec_unpack_t1(p[4], p[5])),
                Temperature::spec_from_raw_u10(spec_unpack_t2(p[5], p[6])),
                Temperature::spec_from_raw_u10(spec_unpack_t3(p[6], p[7])),
            ],
        }
    }

    /// The result of decoding the bytes `p`: refused below 8 bytes.
    pub open spec fn try_from_raw_spec(p: Seq<u8>) -> Result<Telemetry, ProtocolError> {
        if p.len() >= 8 {
            Ok(Telemetry::spec_decode(p))
        } else {
            Err(ProtocolError::PayloadDecodeError)
        }
    }

    /// Every temperature is kept exactly by its 10-bit encoding.
    pub open spec fn spec_temps_exact(self) -> bool {
        &&& self.temp_in.spec_u10_exact()
        &&& self.temp_out[0].spec_u10_exact()
        &&& self.temp_out[1].spec_u10_exact()
        &&& self.temp_out[2].spec_u10_exact()
    }

    /// Encodes the telemetry.
    #[verifier::spinoff_prover]
    #[verifier::rlimit(100)]
    pub fn to_raw_vec(&self) -> (r: Vec<u8>)
        ensures
            r@ == self.spec_encode(),
            r@.len() == 8,
    {
        let ios = &self.ios;
        let b0 = pack8(ios[0], ios[1], ios[2], ios[3], ios[4], ios[5], ios[6], ios[7]);
        let b1 = pack8(ios[8], ios[9], ios[10], ios[11], ios[12], ios[13], ios[14], ios[15]);
        let b2 = pack8(ios[16], ios[17], ios[18], false, false, false, false, false);
        let mut payload: Vec<u8> = Vec::with_capacity(8);
        payload.push(b0);
        payload.push(b1);
        payload.push(b2);
        let ghost head = payload@;
        proof {
            assert(head =~= seq![b0, b1, b2]);
        }
        let t0 = self.temp_in.to_raw_u10();
        let t1 = self.temp_out[0].to_raw_u10();
        let t2 = self.temp_out[1].to_raw_u10();
        let t3 = self.temp_out[2].to_raw_u10();
        pack_temps(&mut payload, t0, t1, t2, t3);
        proof {
            assert(payload@ == seq![b0, b1, b2] + spec_pack_temps(t0, t1, t2, t3));
        }
        payload
    }

    /// Encodes the telemetry as a telemetry payload.
    pub fn to_payload(&self) -> (r: Payload<Ty>)
        ensures
            r@ == self.spec_encode(),
    {
        let v = self.to_raw_vec();
        Payload::new_unchecked(v.as_slice())
    }

    /// The telemetry response carrying this telemetry on the board-control endpoint.
    pub fn to_response(self) -> (r: ResponseData)
        ensures
            r matches ResponseData::Telemetry { endpoint, payload } && endpoint
                == Endpoint::BoardControl && payload@ == self.spec_encode(),
    {
        ResponseData::Telemetry { endpoint: Endpoint::BoardControl, payload: self.to_payload() }
    }

    /// Decodes a telemetry from the bytes of a payload: refused when they are
    /// more than a payload holds (8 bytes), else decoded as a payload is.
    pub fn try_from_raw(p: &[u8]) -> (r: Result<Telemetry, ProtocolError>)
        ensures
            p@.len() > 8 ==> r == Err::<Telemetry, ProtocolError>(ProtocolError::BufferSizeError),
            p@.len() == 8 ==> r == Ok::<Telemetry, ProtocolError>(Telemetry::spec_decode(p@)),
            p@.len() < 8 ==> r == Err::<Telemetry, ProtocolError>(ProtocolError::PayloadDecodeError),
    {
        if p.len() > 8 {
            Err(ProtocolError::BufferSizeError)
        } else {
            Telemetry::decode_bytes(p)
        }
    }

    /// Decodes a telemetry from at least 8 bytes.
    fn decode_bytes(p: &[u8]) -> (r: Result<Telemetry, ProtocolError>)
        ensures
            p@.len() >= 8 ==> r == Ok::<Telemetry, ProtocolError>(Telemetry::spec_decode(p@)),
            p@.len() < 8 ==> r == Err::<Telemetry, ProtocolError>(
                ProtocolError::PayloadDecodeError,
            ),
    {
        if p.len() >= 8 {
            let t = Telemetry {
                ios: [
                    has_bit(p[0], 0),
                    has_bit(p[0], 1),
                    has_bit(p[0], 2),
                    has_bit(p[0], 3),
                    has_bit(p[0], 4),
                    has_bit(p[0], 5),
                    has_bit(p[0], 6),
                    has_bit(p[0], 7),
                    has_bit(p[1], 0),
                    has_bit(p[1], 1),
                    has_bit(p[1], 2),
                    has_bit(p[1], 3),
                    has_bit(p[1], 4),
                    has_bit(p[1], 5),
                    has_bit(p[1], 6),
                    has_bit(p[1], 7),
                    has_bit(p[2], 0),
                    has_bit(p[2], 1),
                    has_bit(p[2], 2),
                ],
                temp_in: Temperature::from_raw_u10(unpack_t0(p[3], p[4])),
                temp_out: [
                    Temperature::from_raw_u10(unpack_t1(p[4], p[5])),
                    Temperature::from_raw_u10(unpack_t2(p[5], p[6])),
                    Temperature::from_raw_u10(unpack_t3(p[6], p[7])),
                ],
            };
            proof {
                assert(t.ios =~= Telemetry::spec_decode(p@).ios);
            }
            Ok(t)
        } else {
            Err(ProtocolError::PayloadDecodeError)
        }
    }

    /// Decodes a telemetry payload (at least 8 bytes).
    pub fn try_from(payload: &Payload<Ty>) -> (r: Result<Telemetry, ProtocolError>)
        ensures
            payload@.len() >= 8 ==> r == Ok::<Telemetry, ProtocolError>(
                Telemetry::spec_decode(payload@),
            ),
            payload@.len() < 8 ==> r == Err::<Telemetry, ProtocolError>(
                ProtocolError::PayloadDecodeError,
            ),
    {
        Telemetry::decode_bytes(payload.data())
    }
}

/// Decoding the encoding of a class 1 telemetry gives it back when its
/// temperatures are kept exactly by their 10-bit encoding.
pub proof fn lemma_telemetry_roundtrip(t: Telemetry)
    requires
        t.spec_temps_exact(),
    ensures
        t.spec_encode().len() == 8,
        Telemetry::spec_decode(t.spec_encode()) == t,
{
    let p = t.spec_encode();
    lemma_pack8(t.ios[0], t.ios[1], t.ios[2], t.ios[3], t.ios[4], t.ios[5], t.ios[6], t.ios[7]);
    lemma_pack8(t.ios[8], t.ios[9], t.ios[10], t.ios[11], t.ios[12], t.ios[13], t.ios[14], t.ios[15]);
    lemma_pack8(t.ios[16], t.ios[17], t.ios[18], false, false, false, false, false);
    lemma_temperature_u10_roundtrip(t.temp_in);
    lemma_temperature_u10_roundtrip(t.temp_out[0]);
    lemma_temperature_u10_roundtrip(t.temp_out[1]);
    lemma_temperature_u10_roundtrip(t.temp_out[2]);
    lemma_temps_roundtrip(
        t.temp_in.spec_to_raw_u10(),
        t.temp_out[0].spec_to_raw_u10(),
        t.temp_out[1].spec_to_raw_u10(),
        t.temp_out[2].spec_to_raw_u10(),
    );
    let d = Telemetry::spec_decode(p);
    assert(d.ios =~= t.ios);
    assert(d.temp_out =~= t.temp_out);
}

/// How class 1 telemetry bytes decode: the 19 inputs/outputs come from bit 0
/// of byte 0 up, eight per byte; bytes 3..8 hold the four 10-bit temperature
/// values (inside, then the three outside ones), each little-endian after the
/// previous.
pub proof fn lemma_telemetry_decode_layout(p: Seq<u8>)
    requires
        p.len() >= 8,
    ensures
        ({
            let t = Telemetry::spec_decode(p);
            &&& t.ios[0] == (p[0] & 0x01 != 0)
            &&& t.ios[1] == (p[0] & 0x02 != 0)
            &&& t.ios[2] == (p[0] & 0x04 != 0)
            &&& t.ios[3] == (p[0] & 0x08 != 0)
            &&& t.ios[4] == (p[0] & 0x10 != 0)
            &&& t.ios[5] == (p[0] & 0x20 != 0)
            &&& t.ios[6] == (p[0] & 0x40 != 0)
            &&& t.ios[7] == (p[0] & 0x80 != 0)
            &&& t.ios[8] == (p[1] & 0x01 != 0)
            &&& t.ios[9] == (p[1] & 0x02 != 0)
            &&& t.ios[10] == (p[1] & 0x04 != 0)
            &&& t.ios[11] == (p[1] & 0x08 != 0)
            &&& t.ios[12] == (p[1] & 0x10 != 0)
            &&& t.ios[13] == (p[1] & 0x20 != 0)
            &&& t.ios[14] == (p[1] & 0x40 != 0)
            &&& t.ios[15] == (p[1] & 0x80 != 0)
            &&& t.ios[16] == (p[2] & 0x01 != 0)
            &&& t.ios[17] == (p[2] & 0x02 != 0)
            &&& t.ios[18] == (p[2] & 0x04 != 0)
            &&& t.temp_in == Temperature::spec_from_raw_u10((p[3] + 256 * (p[4] % 4)) as u16)
            &&& t.temp_out[0] == Temperature::spec_from_raw_u10((p[4] / 4 + 64 * (p[5] % 16)) as u16)
            &&& t.temp_out[1] == Temperature::spec_from_raw_u10((p[5] / 16 + 16 * (p[6] % 64)) as u16)
            &&& t.temp_out[2] == Temperature::spec_from_raw_u10((p[6] / 64 + 4 * p[7]) as u16)
        }),
{
    lemma_has_bit_masks(p[0]);
    lemma_has_bit_masks(p[1]);
    lemma_has_bit_masks(p[2]);
    lemma_unpack_temps_arith(p[3], p[4], p[5], p[6], p[7]);
}

/// How class 1 telemetry encodes, on 8 bytes: the 19 inputs/outputs from bit 0
/// of byte 0 up, eight per byte; bytes 3..8 hold the 10-bit values of the
/// inside temperature and of the three outside ones, each little-endian after
/// the previous.
pub proof fn lemma_telemetry_encode_layout(t: Telemetry)
    ensures
        ({
            let e = t.spec_encode();
            &&& e.len() == 8
            &&& (e[0] & 0x01 != 0) == t.ios[0]
            &&& (e[0] & 0x02 != 0) == t.ios[1]
            &&& (e[0] & 0x04 != 0) == t.ios[2]
            &&& (e[0] & 0x08 != 0) == t.ios[3]
            &&& (e[0] & 0x10 != 0) == t.ios[4]
            &&& (e[0] & 0x20 != 0) == t.ios[5]
            &&& (e[0] & 0x40 != 0) == t.ios[6]
            &&& (e[0] & 0x80 != 0) == t.ios[7]
            &&& (e[1] & 0x01 != 0) == t.ios[8]
            &&& (e[1] & 0x02 != 0) == t.ios[9]
            &&& (e[1] & 0x04 != 0) == t.ios[10]
            &&& (e[1] & 0x08 != 0) == t.ios[11]
            &&& (e[1] & 0x10 != 0) == t.ios[12]
            &&& (e[1] & 0x20 != 0) == t.ios[13]
            &&& (e[1] & 0x40 != 0) == t.ios[14]
            &&& (e[1] & 0x80 != 0) == t.ios[15]
            &&& (e[2] & 0x01 != 0) == t.ios[16]
            &&& (e[2] & 0x02 != 0) == t.ios[17]
            &&& (e[2] & 0x04 != 0) == t.ios[18]
            &&& e[3] + 256 * (e[4] % 4) == t.temp_in.spec_to_raw_u10()
            &&& e[4] / 4 + 64 * (e[5] % 16) == t.temp_out[0].spec_to_raw_u10()
            &&& e[5] / 16 + 16 * (e[6] % 64) == t.temp_out[1].spec_to_raw_u10()
            &&& e[6] / 64 + 4 * e[7] == t.temp_out[2].spec_to_raw_u10()
        }),
{
    let e = t.spec_encode();
    lemma_pack8(t.ios[0], t.ios[1], t.ios[2], t.ios[3], t.ios[4], t.ios[5], t.ios[6], t.ios[7]);
    lemma_pack8(t.ios[8], t.ios[9], t.ios[10], t.ios[11], t.ios[12], t.ios[13], t.ios[14], t.ios[15]);
    lemma_pack8(t.ios[16], t.ios[17], t.ios[18], false, false, false, false, false);
    lemma_has_bit_masks(e[0]);
    lemma_has_bit_masks(e[1]);
    lemma_has_bit_masks(e[2]);
    lemma_temperature_u10_roundtrip(t.temp_in);
    lemma_temperature_u10_roundtrip(t.temp_out[0]);
    lemma_temperature_u10_roundtrip(t.temp_out[1]);
    lemma_temperature_u10_roundtrip(t.temp_out[2]);
    lemma_temps_roundtrip(
        t.temp_in.spec_to_raw_u10(),
        t.temp_out[0].spec_to_raw_u10(),
        t.temp_out[1].spec_to_raw_u10(),
        t.temp_out[2].spec_to_raw_u10(),
    );
    lemma_unpack_temps_arith(e[3], e[4], e[5], e[6], e[7]);
}

/// The inputs/outputs of a class 1 board, in the order of their command fields.
#[derive(Debug, Clone, Copy, PartialEq, Eq, Structural)]
pub enum Class1CommandFields {
    Poc0,
    Poc1,
    Poc2,
    Poc3,
    Pd0,
    Pd1,
    Pd2,
    Pd3,
    Eio0,
    Eio1,
    Eio2,
    Eio3,
    Eio4,
    Eio5,
    Eio6,
    Eio7,
    Pb0,
    Ee0,
    Ee1,
}

impl Class1CommandFields {
    /// Position of the field in the command.
    pub open spec fn spec_index(self) -> usize {
        match self {
            Class1CommandFields::Poc0 => 0,
            Class1CommandFields::Poc1 => 1,
            Class1CommandFields::Poc2 => 2,
            Class1CommandFields::Poc3 => 3,
            Class1CommandFields::Pd0 => 4,
            Class1CommandFields::Pd1 => 5,
            Class1CommandFields::Pd2 => 6,
            Class1CommandFields::Pd3 => 7,
            Class1CommandFields::Eio0 => 8,
            Class1CommandFields::Eio1 => 9,
            Class1CommandFields::Eio2 => 10,
            Class1CommandFields::Eio3 => 11,
            Class1CommandFields::Eio4 => 12,
            Class1CommandFields::Eio5 => 13,
            Class1CommandFields::Eio6 => 14,
            Class1CommandFields::Eio7 => 15,
            Class1CommandFields::Pb0 => 16,
            Class1CommandFields::Ee0 => 17,
            Class1CommandFields::Ee1 => 18,
        }
    }

    /// Position of the field in the command.
    pub fn index(&self) -> (r: usize)
        ensures
            r == self.spec_index(),
            r < CLASS1_IO_COUNT,
    {
        match self {
            Class1CommandFields::Poc0 => 0,
            Class1CommandFields::Poc1 => 1,
            Class1CommandFields::Poc2 => 2,
            Class1CommandFields::Poc3 => 3,
            Class1CommandFields::Pd0 => 4,
            Class1CommandFields::Pd1 => 5,
            Class1CommandFields::Pd2 => 6,
            Class1CommandFields::Pd3 => 7,
            Class1CommandFields::Eio0 => 8,
            Class1CommandFields::Eio1 => 9,
            Class1CommandFields::Eio2 => 10,
            Class1CommandFields::Eio3 => 11,
            Class1CommandFields::Eio4 => 12,
            Class1CommandFields::Eio5 => 13,
            Class1CommandFields::Eio6 => 14,
            Class1CommandFields::Eio7 => 15,
            Class1CommandFields::Pb0 => 16,
            Class1CommandFields::Ee0 => 17,
            Class1CommandFields::Ee1 => 18,
        }
    }

    /// The field at position `i`; `None` past the last one.
    pub fn from_index(i: usize) -> (r: Option<Class1CommandFields>)
        ensures
            r matches Some(f) ==> f.spec_index() == i,
            r is None <==> i >= CLASS1_IO_COUNT,
    {
        match i {
            0 => Some(Class1CommandFields::Poc0),
            1 => Some(Class1CommandFields::Poc1),
            2 => Some(Class1CommandFields::Poc2),
            3 => Some(Class1CommandFields::Poc3),
            4 => Some(Class1CommandFields::Pd0),
            5 => Some(Class1CommandFields::Pd1),
            6 => Some(Class1CommandFields::Pd2),
            7 => Some(Class1CommandFields::Pd3),
            8 => Some(Class1CommandFields::Eio0),
            9 => Some(Class1CommandFields::Eio1),
            10 => Some(Class1CommandFields::Eio2),
            11 => Some(Class1CommandFields::Eio3),
            12 => Some(Class1CommandFields::Eio4),
            13 => Some(Class1CommandFields::Eio5),
            14 => Some(Class1CommandFields::Eio6),
            15 => Some(Class1CommandFields::Eio7),
            16 => Some(Class1CommandFields::Pb0),
            17 => Some(Class1CommandFields::Ee0),
            18 => Some(Class1CommandFields::Ee1),
            _ => None,
        }
    }
}

/// Command of a class 1 board: one output command per input/output.
#[derive(Debug, Clone, Copy, PartialEq, Eq)]
pub struct Command {
    pub ios: [Xps; 19],
}

impl Default for Command {
    fn default() -> (r: Command)
        ensures
            forall|i: int| 0 <= i < 19 ==> #[trigger] r.ios[i] == Xps::NoAction,
    {
        Command { ios: [Xps::NoAction; 19] }
    }
}

/// The 7 command bytes after the first `k` fields are set, starting from zeros.
pub open spec fn spec_encode_fields(ios: Seq<Xps>, k: nat) -> Seq<u8>
    decreases k,
{
    if k == 0 {
        seq![0u8, 0u8, 0u8, 0u8, 0u8, 0u8, 0u8]
    } else {
        spec_set_field_at(
            spec_encode_fields(ios, (k - 1) as nat),
            ios[k - 1].spec_value(),
            k - 1,
        )
    }
}

/// Setting fields keeps the 7 bytes.
pub proof fn lemma_encode_fields_len(ios: Seq<Xps>, k: nat)
    requires
        k <= 19,
    ensures
        spec_encode_fields(ios, k).len() == 7,
    decreases k,
{
    if k > 0 {
        lemma_encode_fields_len(ios, (k - 1) as nat);
    }
}

/// What the fields of the bytes built from the first `k` commands hold:
/// the code of each command set so far (the last field keeps its two low
/// bits), zero for the others.
proof fn lemma_encode_fields_read(ios: Seq<Xps>, k: nat, q: int)
    requires
        k <= 19,
        0 <= q < 19,
    ensures
        spec_field_at(spec_encode_fields(ios, k), q) == if q < k {
            0u8 | (ios[q].spec_value() & spec_field_mask(7, q))
        } else {
            0u8
        },
    decreases k,
{
    lemma_encode_fields_len(ios, k);
    if k == 0 {
        lemma_field_of_zeros(spec_encode_fields(ios, 0), q);
    } else {
        let p = k - 1;
        let prev = spec_encode_fields(ios, (k - 1) as nat);
        lemma_encode_fields_len(ios, (k - 1) as nat);
        lemma_encode_fields_read(ios, (k - 1) as nat, q);
        lemma_xps_value_bound(ios[p]);
        if q == p {
            lemma_set_zero_field(prev, ios[p].spec_value(), p);
        } else {
            lemma_xps_set_frame(prev, ios[p].spec_value(), p, q);
        }
    }
}

/// Decoding the encoding of a class 1 command gives each output command
/// back; the last field has room for two bits only, so it comes back when
/// its code is below 4.
pub proof fn lemma_command_roundtrip(c: Command)
    ensures
        forall|i: int|
            0 <= i < 18 ==> #[trigger] Command::spec_decode(c.spec_encode()).ios[i] == c.ios[i],
        c.ios[18].spec_value() < 4 ==> Command::spec_decode(c.spec_encode()).ios[18] == c.ios[18],
{
    reveal(spec_xps_at);
    let e = c.spec_encode();
    assert forall|i: int| 0 <= i < 18 implies #[trigger] Command::spec_decode(e).ios[i]
        == c.ios[i] by {
        lemma_encode_fields_read(c.ios@, 19, i);
        lemma_xps_value_bound(c.ios[i]);
        lemma_field_frame_bits(0, c.ios[i].spec_value(), 0, 0);
        lemma_xps_from_value(c.ios[i]);
    }
    if c.ios[18].spec_value() < 4 {
        lemma_encode_fields_read(c.ios@, 19, 18);
        lemma_field_frame_bits(0, c.ios[18].spec_value(), 0, 0);
        lemma_xps_from_value(c.ios[18]);
    }
}

impl Command {
    /// The 7 bytes of the command: field `i` holds the 3-bit code of
    /// `ios[i]` at bits `3 * i ..` (the last field keeps its low 2 bits).
    pub open spec fn spec_encode(self) -> Seq<u8> {
        spec_encode_fields(self.ios@, 19)
    }

    /// The command carried by the bytes `p` (at least 7): the command of
    /// each 3-bit field.
    pub open spec fn spec_decode(p: Seq<u8>) -> Command {
        Command { ios: [
            spec_xps_at(p, 0),
            spec_xps_at(p, 1),
            spec_xps_at(p, 2),
            spec_xps_at(p, 3),
            spec_xps_at(p, 4),
            spec_xps_at(p, 5),
            spec_xps_at(p, 6),
            spec_xps_at(p, 7),
            spec_xps_at(p, 8),
            spec_xps_at(p, 9),
            spec_xps_at(p, 10),
            spec_xps_at(p, 11),
            spec_xps_at(p, 12),
            spec_xps_at(p, 13),
            spec_xps_at(p, 14),
            spec_xps_at(p, 15),
            spec_xps_at(p, 16),
            spec_xps_at(p, 17),
            spec_xps_at(p, 18),
        ] }
    }

    /// Encodes the command.
    pub fn to_raw_vec(&self) -> (r: Vec<u8>)
        ensures
            r@ == self.spec_encode(),
    {
        let mut payload: Vec<u8> = Vec::with_capacity(7);
        let mut j: usize = 0;
        while j < 7
            invariant
                j <= 7,
                payload@.len() == j,
                forall|k: int| 0 <= k < j ==> #[trigger] payload@[k] == 0u8,
            decreases 7 - j,
        {
            payload.push(0);
            j = j + 1;
        }
        proof {
            assert(payload@ =~= spec_encode_fields(self.ios@, 0));
        }
        let mut i: usize = 0;
        while i < CLASS1_IO_COUNT
            invariant
                i <= CLASS1_IO_COUNT,
                payload@ == spec_encode_fields(self.ios@, i as nat),
            decreases CLASS1_IO_COUNT - i,
        {
            proof {
                lemma_encode_fields_len(self.ios@, i as nat);
            }
            let field = self.ios[i];
            let r = field.set_at(payload.as_mut_slice(), i);
            i = i + 1;
        }
        payload
    }

    /// Encodes the command as a class command payload.
    pub fn into(self) -> (r: Payload<ClCd>)
        ensures
            r@ == self.spec_encode(),
    {
        proof {
            lemma_encode_fields_len(self.ios@, 19);
        }
        let v = self.to_raw_vec();
        Payload::new_unchecked(v.as_slice())
    }

    /// Decodes a command from the bytes of a payload: refused when they are
    /// more than a payload holds (7 bytes), else decoded as a payload is.
    pub fn try_from_raw(p: &[u8]) -> (r: Result<Command, ProtocolError>)
        ensures
            p@.len() > 7 ==> r == Err::<Command, ProtocolError>(ProtocolError::BufferSizeError),
            p@.len() == 7 ==> r == Ok::<Command, ProtocolError>(Command::spec_decode(p@)),
            p@.len() < 7 ==> r == Err::<Command, ProtocolError>(ProtocolError::PayloadDecodeError),
    {
        if p.len() > 7 {
            Err(ProtocolError::BufferSizeError)
        } else {
            Command::decode_bytes(p)
        }
    }

    /// Decodes a command from at least 7 bytes.
    #[verifier::spinoff_prover]
    #[verifier::rlimit(100)]
    fn decode_bytes(p: &[u8]) -> (r: Result<Command, ProtocolError>)
        ensures
            p@.len() >= 7 ==> r == Ok::<Command, ProtocolError>(Command::spec_decode(p@)),
            p@.len() < 7 ==> r == Err::<Command, ProtocolError>(ProtocolError::PayloadDecodeError),
    {
        if p.len() < 7 {
            return Err(ProtocolError::PayloadDecodeError);
        }
        let mut ios = [Xps::NoAction; 19];
        let mut i: usize = 0;
        while i < CLASS1_IO_COUNT
            invariant
                i <= CLASS1_IO_COUNT,
                p@.len() >= 7,
                forall|k: int| 0 <= k < i ==> #[trigger] ios[k] == spec_xps_at(p@, k),
            decreases CLASS1_IO_COUNT - i,
        {
            let x = match Xps::get_at(p, i) {
                Ok(x) => x,
                Err(_) => Xps::NoAction,
            };
            ios[i] = x;
            i = i + 1;
        }
        let c = Command { ios };
        proof {
            assert(c.ios =~= Command::spec_decode(p@).ios);
        }
        Ok(c)
    }

    /// Decodes a class command payload (at least 7 bytes).
    pub fn try_from(payload: &Payload<ClCd>) -> (r: Result<Command, ProtocolError>)
        ensures
            payload@.len() >= 7 ==> r == Ok::<Command, ProtocolError>(
                Command::spec_decode(payload@),
            ),
            payload@.len() < 7 ==> r == Err::<Command, ProtocolError>(
                ProtocolError::PayloadDecodeError,
            ),
    {
        Command::decode_bytes(payload.data())
    }
}

impl ClassCommandTrait for Command {
    open spec fn spec_encode(&self) -> Seq<u8> {
        Command::spec_encode(*self)
    }

    fn to_payload(&self) -> (r: Payload<ClCd>) {
        proof {
            lemma_encode_fields_len(self.ios@, 19);
        }
        let v = self.to_raw_vec();
        Payload::new_unchecked(v.as_slice())
    }
}

/// How a class 1 command lays out its output commands in its 7 bytes: bits
/// `3 * k`, `3 * k + 1` and `3 * k + 2` (counting from bit 0 of byte 0) hold the
/// code of output `k`, lowest first; the last output (k = 18) keeps the two low
/// bits of its code, in bits 54 and 55.
pub proof fn lemma_command_encode_layout(c: Command, k: int)
    requires
        0 <= k < 19,
    ensures
        ({
            let e = c.spec_encode();
            &&& e.len() == 7
            &&& k < 18 ==> spec_bit_at(e, 3 * k) + 2 * spec_bit_at(e, 3 * k + 1) + 4 * spec_bit_at(
                e,
                3 * k + 2,
            ) == c.ios[k].spec_value()
            &&& k == 18 ==> spec_bit_at(e, 54) + 2 * spec_bit_at(e, 55) == c.ios[18].spec_value()
                % 4
        }),
{
    let e = c.spec_encode();
    let v = c.ios[k].spec_value();
    lemma_encode_fields_len(c.ios@, 19);
    lemma_encode_fields_read(c.ios@, 19, k);
    assert(c.ios@[k] == c.ios[k]);
    lemma_xps_value_bound(c.ios[k]);
    lemma_field_frame_bits(0, v, 0, 0);
    if k < 18 {
        lemma_field_at_bits(e, k);
    } else {
        lemma_field_single_bits(e[6], 0, 6, v);
    }
}

/// Decoding at least 7 bytes reads the command of each of the first 18
/// outputs from bits `3 * k`, `3 * k + 1` and `3 * k + 2`, lowest first.
pub proof fn lemma_command_decode_layout(p: Seq<u8>, k: int)
    requires
        0 <= k < 18,
        p.len() >= 7,
    ensures
        Command::spec_decode(p).ios[k] == Xps::spec_from_u8(
            (spec_bit_at(p, 3 * k) + 2 * spec_bit_at(p, 3 * k + 1) + 4 * spec_bit_at(p, 3 * k + 2))
                as u8,
        ),
{
    reveal(spec_xps_at);
    lemma_field_at_bits(p, k);
    assert(Command::spec_decode(p).ios[k] == spec_xps_at(p, k));
}

/// The class 1 board.
pub struct Class1;

impl Class for Class1 {
    type Telemetry = Telemetry;
    type Command = Command;
}

impl Class1 {
    /// Class identifier of the board.
    pub const CLASS_ID: u8 = 1;
}


impl AsPayload<Ty> for Telemetry {
    open spec fn spec_payload_bytes(&self) -> Seq<u8> {
        self.spec_encode()
    }

    open spec fn spec_from_payload_bytes(data: Seq<u8>) -> Result<Telemetry, ProtocolError> {
        Telemetry::try_from_raw_spec(data)
    }

    fn to_payload(&self) -> (r: Payload<Ty>) {
        Telemetry::to_payload(self)
    }

    fn to_raw_vec(&self) -> (r: Vec<u8>) {
        Telemetry::to_raw_vec(self)
    }

    fn try_from_raw(data: &[u8]) -> (r: Result<Telemetry, ProtocolError>) {
        Telemetry::try_from_raw(data)
    }
}

impl AsPayload<ClCd> for Command {
    open spec fn spec_payload_bytes(&self) -> Seq<u8> {
        self.spec_encode()
    }

    open spec fn spec_from_payload_bytes(data: Seq<u8>) -> Result<Command, ProtocolError> {
        if data.len() >= 7 {
            Ok(Command::spec_decode(data))
        } else {
            Err(ProtocolError::PayloadDecodeError)
        }
    }

    fn to_payload(&self) -> (r: Payload<ClCd>) {
        <Command as ClassCommandTrait>::to_payload(self)
    }

    fn to_raw_vec(&self) -> (r: Vec<u8>) {
        Command::to_raw_vec(self)
    }

    fn try_from_raw(data: &[u8]) -> (r: Result<Command, ProtocolError>) {
        Command::try_from_raw(data)
    }
}

} // verus!
