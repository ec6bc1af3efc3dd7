use vstd::prelude::*;

use super::super::bits::lemma_class0_command;
use super::super::datatypes::{lemma_temperature_u10_roundtrip, lemma_xps_value_bound, Temperature, Xps};
use super::super::error::ProtocolError;
use super::super::payloads::{AsPayload, ClCd, Payload, Ty};
use super::super::protocol::{Endpoint, ResponseData};
use super::codec::{
    has_bit, lemma_has_bit_masks, lemma_pack8, lemma_temps_roundtrip, lemma_unpack_temps_arith, pack8, pack_temps, spec_has_bit, spec_pack8,
    spec_pack_temps, spec_unpack_t0, spec_unpack_t1, spec_unpack_t2, spec_unpack_t3, unpack_t0,
    unpack_t1, unpack_t2, unpack_t3,
};
use super::traits::{Class, ClassCommandTrait};

verus! {

/// Telemetry of a class 0 board: two open-collector outputs, two relays,
/// four inputs, the pulse state of each output, and four temperatures.
#[derive(Debug, Clone, Copy, PartialEq, Eq)]
pub struct Telemetry {
    pub oc1: bool,
    pub oc2: bool,
    pub rl1: bool,
    pub rl2: bool,
    pub in1: bool,
    pub in2: bool,
    pub in3: bool,
    pub in4: bool,
    pub poc1: bool,
    pub poc2: bool,
    pub prl1: bool,
    pub prl2: bool,
    pub temp_in: Temperature,
    pub temp_out: [Temperature; 3],
}

impl Default for Telemetry {
    fn default() -> (r: Telemetry)
        ensures
            !r.oc1 && !r.oc2 && !r.rl1 && !r.rl2 && !r.in1 && !r.in2 && !r.in3 && !r.in4,
            !r.poc1 && !r.poc2 && !r.prl1 && !r.prl2,
            r.temp_in.0 is None,
            r.temp_out[0].0 is None && r.temp_out[1].0 is None && r.temp_out[2].0 is None,
    {
        Telemetry {
            oc1: false,
            oc2: false,
            rl1: false,
            rl2: false,
            in1: false,
            in2: false,
            in3: false,
            in4: false,
            poc1: false,
            poc2: false,
            prl1: false,
            prl2: false,
            temp_in: Temperature(None),
            temp_out: [Temperature(None), Temperature(None), Temperature(None)],
        }
    }
}

impl Telemetry {
    /// The 7 bytes of the telemetry: outputs and inputs in byte 0, pulse
    /// states in byte 1, then the four 10-bit temperatures packed.
    pub open spec fn spec_encode(self) -> Seq<u8> {
        seq![
            spec_pack8(self.oc1, self.oc2, self.rl1, self.rl2, self.in1, self.in2, self.in3, self.in4),
            spec_pack8(self.poc1, self.poc2, self.prl1, self.prl2, false, false, false, false),
        ] + spec_pack_temps(
            self.temp_in.spec_to_raw_u10(),
            self.temp_out[0].spec_to_raw_u10(),
            self.temp_out[1].spec_to_raw_u10(),
            self.temp_out[2].spec_to_raw_u10(),
        )
    }

    /// The telemetry carried by the bytes `p` (at least 7).
    pub open spec fn spec_decode(p: Seq<u8>) -> Telemetry {
        Telemetry {
            oc1: spec_has_bit(p[0], 0),
            oc2: spec_has_bit(p[0], 1),
            rl1: spec_has_bit(p[0], 2),
            rl2: spec_has_bit(p[0], 3),
            in1: spec_has_bit(p[0], 4),
            in2: spec_has_bit(p[0], 5),
            in3: spec_has_bit(p[0], 6),
            in4: spec_has_bit(p[0], 7),
            poc1: spec_has_bit(p[1], 0),
            poc2: spec_has_bit(p[1], 1),
            prl1: spec_has_bit(p[1], 2),
            prl2: spec_has_bit(p[1], 3),
            temp_in: Temperature::spec_from_raw_u10(spec_unpack_t0(p[2], p[3])),
            temp_out: [
                Temperature::spec_from_raw_u10(spec_unpack_t1(p[3], p[4])),
                Temperature::spec_from_raw_u10(spec_unpack_t2(p[4], p[5])),
                Temperature::spec_from_raw_u10(spec_unpack_t3(p[5], p[6])),
            ],
        }
    }

    /// The result of decoding the bytes `p`: refused below 7 bytes.
    pub open spec fn try_from_raw_spec(p: Seq<u8>) -> Result<Telemetry, ProtocolError> {
        if p.len() >= 7 {
            Ok(Telemetry::spec_decode(p))
        } else {
            Err(ProtocolError::PayloadDecodeError)
        }
    }

    /// Every temperature is kept exactly by its 10-bit encoding.
    pub open spec fn spec_temps_exact(self) -> bool {
        &&& self.temp_in.spec_u10_exact()
        &&& self.temp_out[0].spec_u10_exact()
        &&& self.temp_out[1].spec_u10_exact()
        &&& self.temp_out[2].spec_u10_exact()
    }

    /// Encodes the telemetry.
    pub fn to_raw_vec(&self) -> (r: Vec<u8>)
        ensures
            r@ == self.spec_encode(),
            r@.len() == 7,
    {
        let mut payload: Vec<u8> = Vec::with_capacity(7);
        payload.push(
            pack8(self.oc1, self.oc2, self.rl1, self.rl2, self.in1, self.in2, self.in3, self.in4),
        );
        payload.push(pack8(self.poc1, self.poc2, self.prl1, self.prl2, false, false, false, false));
        let ghost head = payload@;
        pack_temps(
            &mut payload,
            self.temp_in.to_raw_u10(),
            self.temp_out[0].to_raw_u10(),
            self.temp_out[1].to_raw_u10(),
            self.temp_out[2].to_raw_u10(),
        );
        proof {
            assert(payload@ =~= self.spec_encode());
        }
        payload
    }

    /// Encodes the telemetry as a telemetry payload.
    pub fn to_payload(&self) -> (r: Payload<Ty>)
        ensures
            r@ == self.spec_encode(),
    {
        let v = self.to_raw_vec();
        Payload::new_unchecked(v.as_slice())
    }

    /// Encodes the telemetry.
    pub fn into(self) -> (r: Vec<u8>)
        ensures
            r@ == self.spec_encode(),
    {
        self.to_raw_vec()
    }

    /// The telemetry response carrying this telemetry on the board-control endpoint.
    pub fn to_response(self) -> (r: ResponseData)
        ensures
            r matches ResponseData::Telemetry { endpoint, payload } && endpoint
                == Endpoint::BoardControl && payload@ == self.spec_encode(),
    {
        ResponseData::Telemetry { endpoint: Endpoint::BoardControl, payload: self.to_payload() }
    }

    /// Decodes a telemetry from the bytes of a payload: refused when they are
    /// more than a payload holds (8 bytes), else decoded as a payload is.
    pub fn try_from_raw(p: &[u8]) -> (r: Result<Telemetry, ProtocolError>)
        ensures
            p@.len() > 8 ==> r == Err::<Telemetry, ProtocolError>(ProtocolError::BufferSizeError),
            7 <= p@.len() <= 8 ==> r == Ok::<Telemetry, ProtocolError>(Telemetry::spec_decode(p@)),
            p@.len() < 7 ==> r == Err::<Telemetry, ProtocolError>(ProtocolError::PayloadDecodeError),
    {
        if p.len() > 8 {
            Err(ProtocolError::BufferSizeError)
        } else {
            Telemetry::decode_bytes(p)
        }
    }

    /// Decodes a telemetry from at least 7 bytes.
    fn decode_bytes(p: &[u8]) -> (r: Result<Telemetry, ProtocolError>)
        ensures
            p@.len() >= 7 ==> r == Ok::<Telemetry, ProtocolError>(Telemetry::spec_decode(p@)),
            p@.len() < 7 ==> r == Err::<Telemetry, ProtocolError>(
                ProtocolError::PayloadDecodeError,
            ),
    {
        if p.len() >= 7 {
            Ok(Telemetry {
                oc1: has_bit(p[0], 0),
                oc2: has_bit(p[0], 1),
                rl1: has_bit(p[0], 2),
                rl2: has_bit(p[0], 3),
                in1: has_bit(p[0], 4),
                in2: has_bit(p[0], 5),
                in3: has_bit(p[0], 6),
                in4: has_bit(p[0], 7),
                poc1: has_bit(p[1], 0),
                poc2: has_bit(p[1], 1),
                prl1: has_bit(p[1], 2),
                prl2: has_bit(p[1], 3),
                temp_in: Temperature::from_raw_u10(unpack_t0(p[2], p[3])),
                temp_out: [
                    Temperature::from_raw_u10(unpack_t1(p[3], p[4])),
                    Temperature::from_raw_u10(unpack_t2(p[4], p[5])),
                    Temperature::from_raw_u10(unpack_t3(p[5], p[6])),
                ],
            })
        } else {
            Err(ProtocolError::PayloadDecodeError)
        }
    }

    /// Decodes a telemetry payload (at least 7 bytes).
    pub fn try_from(payload: &Payload<Ty>) -> (r: Result<Telemetry, ProtocolError>)
        ensures
            payload@.len() >= 7 ==> r == Ok::<Telemetry, ProtocolError>(
                Telemetry::spec_decode(payload@),
            ),
            payload@.len() < 7 ==> r == Err::<Telemetry, ProtocolError>(
                ProtocolError::PayloadDecodeError,
            ),
    {
        Telemetry::decode_bytes(payload.data())
    }
}

/// Decoding the encoding of a class 0 telemetry gives it back when its
/// temperatures are kept exactly by their 10-bit encoding.
pub proof fn lemma_telemetry_roundtrip(t: Telemetry)
    requires
        t.spec_temps_exact(),
    ensures
        t.spec_encode().len() == 7,
        Telemetry::spec_decode(t.spec_encode()) == t,
{
    let p = t.spec_encode();
    lemma_pack8(t.oc1, t.oc2, t.rl1, t.rl2, t.in1, t.in2, t.in3, t.in4);
    lemma_pack8(t.poc1, t.poc2, t.prl1, t.prl2, false, false, false, false);
    lemma_temperature_u10_roundtrip(t.temp_in);
    lemma_temperature_u10_roundtrip(t.temp_out[0]);
    lemma_temperature_u10_roundtrip(t.temp_out[1]);
    lemma_temperature_u10_roundtrip(t.temp_out[2]);
    lemma_temps_roundtrip(
        t.temp_in.spec_to_raw_u10(),
        t.temp_out[0].spec_to_raw_u10(),
        t.temp_out[1].spec_to_raw_u10(),
        t.temp_out[2].spec_to_raw_u10(),
    );
    let d = Telemetry::spec_decode(p);
    assert(d.temp_out =~= t.temp_out);
}

/// How class 0 telemetry bytes decode: byte 0 holds OC1, OC2, RL1, RL2 and
/// IN1..IN4 from bit 0 up; bits 0..4 of byte 1 hold the pulse states of OC1,
/// OC2, RL1 and RL2; bytes 2..7 hold the four 10-bit temperature values
/// (inside, then the three outside ones), each little-endian after the previous.
pub proof fn lemma_telemetry_decode_layout(p: Seq<u8>)
    requires
        p.len() >= 7,
    ensures
        ({
            let t = Telemetry::spec_decode(p);
            &&& t.oc1 == (p[0] & 0x01 != 0)
            &&& t.oc2 == (p[0] & 0x02 != 0)
            &&& t.rl1 == (p[0] & 0x04 != 0)
            &&& t.rl2 == (p[0] & 0x08 != 0)
            &&& t.in1 == (p[0] & 0x10 != 0)
            &&& t.in2 == (p[0] & 0x20 != 0)
            &&& t.in3 == (p[0] & 0x40 != 0)
            &&& t.in4 == (p[0] & 0x80 != 0)
            &&& t.poc1 == (p[1] & 0x01 != 0)
            &&& t.poc2 == (p[1] & 0x02 != 0)
            &&& t.prl1 == (p[1] & 0x04 != 0)
            &&& t.prl2 == (p[1] & 0x08 != 0)
            &&& t.temp_in == Temperature::spec_from_raw_u10((p[2] + 256 * (p[3] % 4)) as u16)
            &&& t.temp_out[0] == Temperature::spec_from_raw_u10((p[3] / 4 + 64 * (p[4] % 16)) as u16)
            &&& t.temp_out[1] == Temperature::spec_from_raw_u10((p[4] / 16 + 16 * (p[5] % 64)) as u16)
            &&& t.temp_out[2] == Temperature::spec_from_raw_u10((p[5] / 64 + 4 * p[6]) as u16)
        }),
{
    lemma_has_bit_masks(p[0]);
    lemma_has_bit_masks(p[1]);
    lemma_unpack_temps_arith(p[2], p[3], p[4], p[5], p[6]);
}

/// How class 0 telemetry encodes, on 7 bytes: byte 0 holds OC1, OC2, RL1,
/// RL2 and IN1..IN4 from bit 0 up; bits 0..4 of byte 1 hold the pulse states
/// of OC1, OC2, RL1 and RL2; bytes 2..7 hold the 10-bit values of the inside
/// temperature and of the three outside ones, each little-endian after the
/// previous.
pub proof fn lemma_telemetry_encode_layout(t: Telemetry)
    ensures
        ({
            let e = t.spec_encode();
            &&& e.len() == 7
            &&& (e[0] & 0x01 != 0) == t.oc1
            &&& (e[0] & 0x02 != 0) == t.oc2
            &&& (e[0] & 0x04 != 0) == t.rl1
            &&& (e[0] & 0x08 != 0) == t.rl2
            &&& (e[0] & 0x10 != 0) == t.in1
            &&& (e[0] & 0x20 != 0) == t.in2
            &&& (e[0] & 0x40 != 0) == t.in3
            &&& (e[0] & 0x80 != 0) == t.in4
            &&& (e[1] & 0x01 != 0) == t.poc1
            &&& (e[1] & 0x02 != 0) == t.poc2
            &&& (e[1] & 0x04 != 0) == t.prl1
            &&& (e[1] & 0x08 != 0) == t.prl2
            &&& e[2] + 256 * (e[3] % 4) == t.temp_in.spec_to_raw_u10()
            &&& e[3] / 4 + 64 * (e[4] % 16) == t.temp_out[0].spec_to_raw_u10()
            &&& e[4] / 16 + 16 * (e[5] % 64) == t.temp_out[1].spec_to_raw_u10()
            &&& e[5] / 64 + 4 * e[6] == t.temp_out[2].spec_to_raw_u10()
        }),
{
    let e = t.spec_encode();
    lemma_pack8(t.oc1, t.oc2, t.rl1, t.rl2, t.in1, t.in2, t.in3, t.in4);
    lemma_pack8(t.poc1, t.poc2, t.prl1, t.prl2, false, false, false, false);
    lemma_has_bit_masks(e[0]);
    lemma_has_bit_masks(e[1]);
    lemma_temperature_u10_roundtrip(t.temp_in);
    lemma_temperature_u10_roundtrip(t.temp_out[0]);
    lemma_temperature_u10_roundtrip(t.temp_out[1]);
    lemma_temperature_u10_roundtrip(t.temp_out[2]);
    lemma_temps_roundtrip(
        t.temp_in.spec_to_raw_u10(),
        t.temp_out[0].spec_to_raw_u10(),
        t.temp_out[1].spec_to_raw_u10(),
        t.temp_out[2].spec_to_raw_u10(),
    );
    lemma_unpack_temps_arith(e[2], e[3], e[4], e[5], e[6]);
}

/// Command of a class 0 board: one output command per output.
#[derive(Debug, Clone, Copy, PartialEq, Eq, Structural)]
pub struct Command {
    pub coc1: Xps,
    pub coc2: Xps,
    pub crl1: Xps,
    pub crl2: Xps,
}

impl Default for Command {
    fn default() -> (r: Command)
        ensures
            r.coc1 == Xps::NoAction && r.coc2 == Xps::NoAction && r.crl1 == Xps::NoAction
                && r.crl2 == Xps::NoAction,
    {
        Command {
            coc1: Xps::NoAction,
            coc2: Xps::NoAction,
            crl1: Xps::NoAction,
            crl2: Xps::NoAction,
        }
    }
}

/// First byte of a class 0 command: `coc1` in bits 0..3, `coc2` in bits
/// 3..6, the low two bits of `crl1` in bits 6..8.
pub open spec fn spec_command_byte0(coc1: u8, coc2: u8, crl1: u8) -> u8 {
    (coc1 | (coc2 << 3u8) | ((crl1 & 3u8) << 6u8)) as u8
}

/// Second byte of a class 0 command: the high bit of `crl1` in bit 0,
/// `crl2` in bits 1..4.
pub open spec fn spec_command_byte1(crl1: u8, crl2: u8) -> u8 {
    (((crl1 & 4u8) >> 2u8) | (crl2 << 1u8)) as u8
}

impl Command {
    /// The 7 bytes of the command.
    pub open spec fn spec_encode(self) -> Seq<u8> {
        seq![
            spec_command_byte0(self.coc1.spec_value(), self.coc2.spec_value(), self.crl1.spec_value()),
            spec_command_byte1(self.crl1.spec_value(), self.crl2.spec_value()),
            0u8,
            0u8,
            0u8,
            0u8,
            0u8,
        ]
    }

    /// The command carried by the bytes `p` (at least 2).
    pub open spec fn spec_decode(p: Seq<u8>) -> Command {
        Command {
            coc1: Xps::spec_from_u8(p[0] & 7u8),
            coc2: Xps::spec_from_u8(((p[0] & 0x38u8) >> 3u8) as u8),
            crl1: Xps::spec_from_u8((((p[0] & 0xc0u8) >> 6u8) | ((p[1] & 1u8) << 2u8)) as u8),
            crl2: Xps::spec_from_u8(((p[1] & 0x0eu8) >> 1u8) as u8),
        }
    }

    /// Whether sending the command changes something on the board.
    pub fn has_effect(&self) -> (r: bool)
        ensures
            r == (self.coc1 != Xps::NoAction || self.coc2 != Xps::NoAction || self.crl1
                != Xps::NoAction || self.crl2 != Xps::NoAction),
    {
        self.coc1 != Xps::NoAction || self.coc2 != Xps::NoAction || self.crl1 != Xps::NoAction
            || self.crl2 != Xps::NoAction
    }

    /// Encodes the command.
    pub fn to_raw_vec(&self) -> (r: Vec<u8>)
        ensures
            r@ == self.spec_encode(),
    {
        let coc1 = self.coc1.to_u8();
        let coc2 = self.coc2.to_u8();
        let crl1 = self.crl1.to_u8();
        let crl2 = self.crl2.to_u8();
        let mut payload: Vec<u8> = Vec::with_capacity(7);
        payload.push(coc1 | (coc2 << 3) | ((crl1 & 0b11) << 6));
        payload.push(((crl1 & 0b100) >> 2) | (crl2 << 1));
        payload.push(0);
        payload.push(0);
        payload.push(0);
        payload.push(0);
        payload.push(0);
        proof {
            assert(payload@ =~= self.spec_encode());
        }
        payload
    }

    /// Decodes a command from the bytes of a payload: refused when they are
    /// more than a payload holds (7 bytes), else decoded as a payload is.
    pub fn try_from_raw(p: &[u8]) -> (r: Result<Command, ProtocolError>)
        ensures
            p@.len() > 7 ==> r == Err::<Command, ProtocolError>(ProtocolError::BufferSizeError),
            2 <= p@.len() <= 7 ==> r == Ok::<Command, ProtocolError>(Command::spec_decode(p@)),
            p@.len() < 2 ==> r == Err::<Command, ProtocolError>(ProtocolError::PayloadDecodeError),
    {
        if p.len() > 7 {
            Err(ProtocolError::BufferSizeError)
        } else {
            Command::decode_bytes(p)
        }
    }

    /// Decodes a command from at least 2 bytes.
    fn decode_bytes(p: &[u8]) -> (r: Result<Command, ProtocolError>)
        ensures
            p@.len() >= 2 ==> r == Ok::<Command, ProtocolError>(Command::spec_decode(p@)),
            p@.len() < 2 ==> r == Err::<Command, ProtocolError>(ProtocolError::PayloadDecodeError),
    {
        if p.len() >= 2 {
            proof {
                lemma_class0_command(p@[0], p@[1], 0, 0, 0, 0);
            }
            let coc1 = Xps::from_u8(p[0] & 0b0000_0111);
            let coc2 = Xps::from_u8((p[0] & 0b0011_1000) >> 3);
            let crl1 = Xps::from_u8(((p[0] & 0b1100_0000) >> 6) | ((p[1] & 0b0000_0001) << 2));
            let crl2 = Xps::from_u8((p[1] & 0b0000_1110) >> 1);
            match (coc1, coc2, crl1, crl2) {
                (Some(coc1), Some(coc2), Some(crl1), Some(crl2)) => Ok(
                    Command { coc1, coc2, crl1, crl2 },
                ),
                _ => Err(ProtocolError::PayloadDecodeError),
            }
        } else {
            Err(ProtocolError::PayloadDecodeError)
        }
    }

    /// Decodes a class command payload (at least 2 bytes).
    pub fn try_from(payload: &Payload<ClCd>) -> (r: Result<Command, ProtocolError>)
        ensures
            payload@.len() >= 2 ==> r == Ok::<Command, ProtocolError>(
                Command::spec_decode(payload@),
            ),
            payload@.len() < 2 ==> r == Err::<Command, ProtocolError>(
                ProtocolError::PayloadDecodeError,
            ),
    {
        Command::decode_bytes(payload.data())
    }
}

impl ClassCommandTrait for Command {
    open spec fn spec_encode(&self) -> Seq<u8> {
        Command::spec_encode(*self)
    }

    fn to_payload(&self) -> (r: Payload<ClCd>) {
        let v = self.to_raw_vec();
        Payload::new_unchecked(v.as_slice())
    }
}

/// Decoding the encoding of a class 0 command gives it back.
pub proof fn lemma_command_roundtrip(c: Command)
    ensures
        c.spec_encode().len() == 7,
        Command::spec_decode(c.spec_encode()) == c,
{
    let p = c.spec_encode();
    lemma_class0_command(
        p[0],
        p[1],
        c.coc1.spec_value(),
        c.coc2.spec_value(),
        c.crl1.spec_value(),
        c.crl2.spec_value(),
    );
}

/// The arithmetic of the two bytes of a class 0 command: OC1 in bits 0..3,
/// OC2 in bits 3..6, RL1 in bits 6..9 and RL2 in bits 9..12 of the bytes read
/// as a little-endian number.
proof fn lemma_command_bytes_arith(coc1: u8, coc2: u8, crl1: u8, crl2: u8, b0: u8, b1: u8)
    by (bit_vector)
    requires
        coc1 < 8,
        coc2 < 8,
        crl1 < 8,
        crl2 < 8,
    ensures
        spec_command_byte0(coc1, coc2, crl1) + 256 * spec_command_byte1(crl1, crl2) == coc1 + 8
            * coc2 + 64 * crl1 + 512 * crl2,
        b0 & 7u8 == (b0 + 256 * b1) % 8,
        (b0 & 0x38u8) >> 3u8 == ((b0 + 256 * b1) / 8) % 8,
        ((b0 & 0xc0u8) >> 6u8) | ((b1 & 1u8) << 2u8) == ((b0 + 256 * b1) / 64) % 8,
        (b1 & 0x0eu8) >> 1u8 == ((b0 + 256 * b1) / 512) % 8,
{
}

/// How a class 0 command lays out its output commands: read as a
/// little-endian number, its first two bytes hold the codes of OC1, OC2, RL1
/// and RL2 in bits 0..3, 3..6, 6..9 and 9..12, and the other five bytes are
/// zero; decoding reads each output's command from the same bits.
pub proof fn lemma_command_layout(c: Command, p: Seq<u8>)
    requires
        p.len() >= 2,
    ensures
        ({
            let e = c.spec_encode();
            &&& e.len() == 7
            &&& e[0] + 256 * e[1] == c.coc1.spec_value() + 8 * c.coc2.spec_value() + 64
                * c.crl1.spec_value() + 512 * c.crl2.spec_value()
            &&& e[2] == 0 && e[3] == 0 && e[4] == 0 && e[5] == 0 && e[6] == 0
        }),
        ({
            let d = Command::spec_decode(p);
            let v = p[0] + 256 * p[1];
            &&& d.coc1 == Xps::spec_from_u8((v % 8) as u8)
            &&& d.coc2 == Xps::spec_from_u8(((v / 8) % 8) as u8)
            &&& d.crl1 == Xps::spec_from_u8(((v / 64) % 8) as u8)
            &&& d.crl2 == Xps::spec_from_u8(((v / 512) % 8) as u8)
        }),
{
    lemma_xps_value_bound(c.coc1);
    lemma_xps_value_bound(c.coc2);
    lemma_xps_value_bound(c.crl1);
    lemma_xps_value_bound(c.crl2);
    lemma_command_bytes_arith(
        c.coc1.spec_value(),
        c.coc2.spec_value(),
        c.crl1.spec_value(),
        c.crl2.spec_value(),
        p[0],
        p[1],
    );
}

/// The class 0 board.
pub struct Class0;

impl Class for Class0 {
    type Telemetry = Telemetry;
    type Command = Command;
}

impl Class0 {
    /// Class identifier of the board.
    pub const CLASS_ID: u8 = 0;
}


impl AsPayload<Ty> for Telemetry {
    open spec fn spec_payload_bytes(&self) -> Seq<u8> {
        self.spec_encode()
    }

    open spec fn spec_from_payload_bytes(data: Seq<u8>) -> Result<Telemetry, ProtocolError> {
        Telemetry::try_from_raw_spec(data)
    }

    fn to_payload(&self) -> (r: Payload<Ty>) {
        Telemetry::to_payload(self)
    }

    fn to_raw_vec(&self) -> (r: Vec<u8>) {
        Telemetry::to_raw_vec(self)
    }

    fn try_from_raw(data: &[u8]) -> (r: Result<Telemetry, ProtocolError>) {
        Telemetry::try_from_raw(data)
    }
}

impl AsPayload<ClCd> for Command {
    open spec fn spec_payload_bytes(&self) -> Seq<u8> {
        self.spec_encode()
    }

    open spec fn spec_from_payload_bytes(data: Seq<u8>) -> Result<Command, ProtocolError> {
        if data.len() >= 2 {
            Ok(Command::spec_decode(data))
        } else {
            Err(ProtocolError::PayloadDecodeError)
        }
    }

    fn to_payload(&self) -> (r: Payload<ClCd>) {
        <Command as ClassCommandTrait>::to_payload(self)
    }

    fn to_raw_vec(&self) -> (r: Vec<u8>) {
        Command::to_raw_vec(self)
    }

    fn try_from_raw(data: &[u8]) -> (r: Result<Command, ProtocolError>) {
        Command::try_from_raw(data)
    }
}

} // verus!
