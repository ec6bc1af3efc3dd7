use vstd::prelude::*;

use super::bits::{lemma_field_frame_bits, lemma_field_single_bits, lemma_xps_field};
use super::error::ProtocolError;
use super::random::random_u16;

verus! {

/// A temperature in hundredths of a degree Celsius, or no valid value.
#[derive(Debug, Clone, Copy, PartialEq, Eq, Structural)]
pub struct Temperature(pub Option<i16>);

/// Lowest valid temperature (-28 °C) in hundredths of a degree.
pub const TEMPERATURE_MIN: i16 = -2800;

/// Highest valid temperature (72 °C) in hundredths of a degree.
pub const TEMPERATURE_MAX: i16 = 7200;

/// Largest valid raw 10-bit temperature value.
pub const VALUE_U10_MAX_VALID: u16 = 1000;

/// Division by 10 rounding toward zero (the integer division of the hardware).
pub open spec fn spec_div10_toward_zero(v: int) -> int {
    if v >= 0 {
        v / 10
    } else {
        -((-v) / 10)
    }
}

/// `v` kept within `lo..=hi`.
pub open spec fn spec_clamp(v: int, lo: int, hi: int) -> int {
    if v < lo {
        lo
    } else if v > hi {
        hi
    } else {
        v
    }
}

impl Temperature {
    /// The temperature `val` (hundredths of °C), invalid outside -28..=72 °C.
    pub open spec fn spec_new(val: i16) -> Temperature {
        if val < TEMPERATURE_MIN || val > TEMPERATURE_MAX {
            Temperature(None)
        } else {
            Temperature(Some(val))
        }
    }

    /// The temperature of a raw 16-bit value: 0 and 0xffff mark an invalid value.
    pub open spec fn spec_from_raw_u16(raw: u16) -> Temperature {
        if raw == 0xffff || raw == 0 {
            Temperature(None)
        } else {
            Temperature(Some(raw as i16))
        }
    }

    /// The temperature of a raw 10-bit value: tenths of a degree above
    /// -28 °C (0 is -28 °C); 0x3ff and values above 1000 mark an invalid value.
    pub open spec fn spec_from_raw_u10(raw: u16) -> Temperature {
        if raw == 0x3ff || raw > VALUE_U10_MAX_VALID {
            Temperature(None)
        } else {
            Temperature(Some((raw * 10 - 2800) as i16))
        }
    }

    /// The raw 16-bit value of a temperature; 0xffff when invalid.
    pub open spec fn spec_to_raw_u16(self) -> u16 {
        match self.0 {
            Some(v) => v as u16,
            None => 0xffff,
        }
    }

    /// The raw 10-bit value of a temperature: tenths of a degree (rounded
    /// toward zero) kept within -28..=72 °C, shifted by 28 °C; 0x3ff when invalid.
    pub open spec fn spec_to_raw_u10(self) -> u16 {
        match self.0 {
            Some(v) => (spec_clamp(spec_div10_toward_zero(v as int), -280, 720) + 280) as u16,
            None => 0x3ff,
        }
    }

    /// The temperature is kept exactly by its 10-bit encoding: invalid, or a
    /// whole number of tenths of a degree within -28..=72 °C.
    pub open spec fn spec_u10_exact(self) -> bool {
        match self.0 {
            Some(v) => v % 10 == 0 && -2800 <= v <= 7200,
            None => true,
        }
    }

    /// A temperature from hundredths of a degree; invalid outside -28..=72 °C.
    pub fn new(val: i16) -> (r: Temperature)
        ensures
            r == Temperature::spec_new(val),
    {
        if val < TEMPERATURE_MIN || val > TEMPERATURE_MAX {
            Temperature(None)
        } else {
            Temperature(Some(val))
        }
    }

    /// Decodes a raw 16-bit temperature.
    pub fn from_raw_u16(raw: u16) -> (r: Temperature)
        ensures
            r == Temperature::spec_from_raw_u16(raw),
    {
        if raw == 0xffff || raw == 0 {
            Temperature(None)
        } else {
            Temperature(Some(raw as i16))
        }
    }

    /// Decodes a raw 10-bit temperature.
    pub fn from_raw_u10(raw: u16) -> (r: Temperature)
        ensures
            r == Temperature::spec_from_raw_u10(raw),
    {
        if raw == 0x3ff || raw > VALUE_U10_MAX_VALID {
            Temperature(None)
        } else {
            Temperature(Some((raw * 10) as i16 - 2800))
        }
    }

    /// Encodes the temperature on 16 bits.
    pub fn to_raw_u16(&self) -> (r: u16)
        ensures
            r == self.spec_to_raw_u16(),
    {
        match self.0 {
            Some(val) => val as u16,
            None => 0xffff,
        }
    }

    /// The 16-bit encoding, little-endian.
    pub fn to_raw_u16_bytes(&self) -> (r: [u8; 2])
        ensures
            r[0] == self.spec_to_raw_u16() as u8,
            r[1] == (self.spec_to_raw_u16() >> 8u16) as u8,
    {
        let raw = self.to_raw_u16();
        [raw as u8, (raw >> 8) as u8]
    }

    /// Encodes the temperature on 10 bits.
    pub fn to_raw_u10(&self) -> (r: u16)
        ensures
            r == self.spec_to_raw_u10(),
            r <= 0x3ff,
    {
        match self.0 {
            Some(val) => {
                let v = val as i32;
                let tenths: i32 = if v >= 0 {
                    v / 10
                } else {
                    -((-v) / 10)
                };
                let clamped: i32 = if tenths < -280 {
                    -280
                } else if tenths > 720 {
                    720
                } else {
                    tenths
                };
                (clamped + 280) as u16
            },
            None => 0x3ff,
        }
    }

    /// The 10-bit encoding, little-endian on two bytes.
    pub fn to_raw_u10_bytes(&self) -> (r: [u8; 2])
        ensures
            r[0] == self.spec_to_raw_u10() as u8,
            r[1] == (self.spec_to_raw_u10() >> 8u16) as u8,
    {
        let raw = self.to_raw_u10();
        [raw as u8, (raw >> 8) as u8]
    }

    /// The invalid temperature.
    pub fn invalid() -> (r: Temperature)
        ensures
            r.0 is None,
    {
        Temperature(None)
    }

    /// A temperature drawn at random over the 10-bit range.
    pub fn random_full_range() -> (r: Temperature)
        ensures
            exists|raw: u16| raw < VALUE_U10_MAX_VALID && r == Temperature::spec_from_raw_u10(raw),
    {
        let raw = random_u16() % VALUE_U10_MAX_VALID;
        Temperature::from_raw_u10(raw)
    }
}

impl Default for Temperature {
    fn default() -> (r: Temperature)
        ensures
            r.0 is None,
    {
        Temperature(None)
    }
}

/// A temperature that its 10-bit encoding keeps exactly is decoded back
/// from it; every 10-bit encoding fits in 10 bits.
pub proof fn lemma_temperature_u10_roundtrip(t: Temperature)
    ensures
        t.spec_to_raw_u10() <= 0x3ff,
        t.spec_u10_exact() ==> Temperature::spec_from_raw_u10(t.spec_to_raw_u10()) == t,
{
}

/// Command for an output: nothing, set, reset, toggle, return to default,
/// pulse on, pulse off, or cancel a pulse.
#[derive(Debug, Clone, Copy, PartialEq, Eq, Structural)]
pub enum Xps {
    NoAction,
    SetOn,
    SetOff,
    Toggle,
    Reset,
    PulseOn,
    PulseOff,
    PulseCancel,
}

/// The 3-bit field at `position` (bits `3 * position ..`) of `data`, read
/// little-endian; a field that runs past the end keeps its low bits only.
pub open spec fn spec_field_at(data: Seq<u8>, position: int) -> u8 {
    let lsb_index = position * 3;
    let off = (lsb_index % 8) as u8;
    let n = lsb_index / 8;
    let low = (data[n] >> off) & 7u8;
    if 8 - off < 3 && n + 1 < data.len() {
        let avail = (8 - off) as u8;
        let mask = (0xffu8 >> (8 - (3 - avail)) as u8) as u8;
        (low | ((data[n + 1] & mask) << avail)) as u8
    } else {
        low
    }
}

/// The command whose code is in the 3-bit field at `position` of `data`.
#[verifier::opaque]
pub open spec fn spec_xps_at(data: Seq<u8>, position: int) -> Xps {
    Xps::spec_from_u8(spec_field_at(data, position))
}

/// `data` with the bits of the 3-bit value `x` set (or-ed) at `position`; the
/// bits that run past the end are dropped.
pub open spec fn spec_set_field_at(data: Seq<u8>, x: u8, position: int) -> Seq<u8> {
    let lsb_index = position * 3;
    let off = (lsb_index % 8) as u8;
    let n = lsb_index / 8;
    let d1 = data.update(n, data[n] | ((x << off) as u8));
    if 8 - off < 3 && n + 1 < data.len() {
        d1.update(n + 1, data[n + 1] | (x >> ((8 - off) as u8)))
    } else {
        d1
    }
}

/// The field at `position` lies inside a buffer of `len` bytes.
pub open spec fn spec_field_in(len: int, position: int) -> bool {
    0 <= position && (position * 3) / 8 < len
}

/// The bits of a field at `position` that a buffer of `len` bytes keeps.
pub open spec fn spec_field_mask(len: int, position: int) -> u8 {
    let off = ((position * 3) % 8) as u8;
    if 8 - off < 3 && (position * 3) / 8 + 1 >= len {
        0xffu8 >> off
    } else {
        7
    }
}

impl Xps {
    /// The 3-bit code of the command.
    pub open spec fn spec_value(self) -> u8 {
        match self {
            Xps::NoAction => 0,
            Xps::SetOn => 1,
            Xps::SetOff => 2,
            Xps::Toggle => 3,
            Xps::Reset => 4,
            Xps::PulseOn => 5,
            Xps::PulseOff => 6,
            Xps::PulseCancel => 7,
        }
    }

    /// The command with code `v` (taken modulo 8).
    pub open spec fn spec_from_u8(v: u8) -> Xps {
        let v = v % 8;
        if v == 0 {
            Xps::NoAction
        } else if v == 1 {
            Xps::SetOn
        } else if v == 2 {
            Xps::SetOff
        } else if v == 3 {
            Xps::Toggle
        } else if v == 4 {
            Xps::Reset
        } else if v == 5 {
            Xps::PulseOn
        } else if v == 6 {
            Xps::PulseOff
        } else {
            Xps::PulseCancel
        }
    }

    /// The 3-bit code of the command.
    pub fn to_u8(&self) -> (r: u8)
        ensures
            r == self.spec_value(),
            r < 8,
    {
        match self {
            Xps::NoAction => 0,
            Xps::SetOn => 1,
            Xps::SetOff => 2,
            Xps::Toggle => 3,
            Xps::Reset => 4,
            Xps::PulseOn => 5,
            Xps::PulseOff => 6,
            Xps::PulseCancel => 7,
        }
    }

    /// Decodes a command code; `None` above 7.
    pub fn from_u8(v: u8) -> (r: Option<Xps>)
        ensures
            v < 8 ==> r == Some(Xps::spec_from_u8(v)),
            v >= 8 ==> r is None,
    {
        match v {
            0 => Some(Xps::NoAction),
            1 => Some(Xps::SetOn),
            2 => Some(Xps::SetOff),
            3 => Some(Xps::Toggle),
            4 => Some(Xps::Reset),
            5 => Some(Xps::PulseOn),
            6 => Some(Xps::PulseOff),
            7 => Some(Xps::PulseCancel),
            _ => None,
        }
    }

    /// Sets (or-s) the command code in the 3-bit field at `position` of `data`.
    pub fn set_at(&self, data: &mut [u8], position: usize) -> (r: Result<(), ProtocolError>)
        requires
            position * 3 <= usize::MAX,
            spec_field_in(old(data)@.len() as int, position as int),
        ensures
            r is Ok,
            final(data)@ == spec_set_field_at(old(data)@, self.spec_value(), position as int),
    {
        let len = data.len();
        let lsb_index = position * 3;
        let lsb_offset = (lsb_index % 8) as u8;
        let lsb_available_size = 8 - lsb_offset;
        let byte_n = lsb_index / 8;
        let xps = self.to_u8();
        let low = data[byte_n] | ((xps << lsb_offset) as u8);
        data[byte_n] = low;
        if lsb_available_size < 3 && (byte_n + 1) < len {
            let high = data[byte_n + 1] | (xps >> lsb_available_size);
            data[byte_n + 1] = high;
        }
        Ok(())
    }

    /// Reads the command whose code is in the 3-bit field at `position` of `data`.
    pub fn get_at(data: &[u8], position: usize) -> (r: Result<Xps, ProtocolError>)
        requires
            position * 3 <= usize::MAX,
            spec_field_in(data@.len() as int, position as int),
        ensures
            r == Ok::<Xps, ProtocolError>(spec_xps_at(data@, position as int)),
    {
        reveal(spec_xps_at);
        let len = data.len();
        let lsb_index = position * 3;
        let lsb_offset = (lsb_index % 8) as u8;
        let lsb_available_size = 8 - lsb_offset;
        let byte_n = lsb_index / 8;
        let mut xps: u8 = (data[byte_n] >> lsb_offset) & 0x7;
        if lsb_available_size < 3 && (byte_n + 1) < len {
            let msb_remaining_size = 3 - lsb_available_size;
            let mask: u8 = 0xff >> (8 - msb_remaining_size);
            xps = xps | ((data[byte_n + 1] & mask) << lsb_available_size);
        }
        proof {
            lemma_xps_field(data@[byte_n as int], 0, lsb_offset, 0);
            if lsb_available_size < 3 && (byte_n + 1) < len {
                lemma_xps_field(data@[byte_n as int], data@[byte_n + 1], lsb_offset, 0);
            }
        }
        match Xps::from_u8(xps) {
            Some(x) => Ok(x),
            None => Err(ProtocolError::PayloadDecodeError),
        }
    }
}

impl Default for Xps {
    fn default() -> (r: Xps)
        ensures
            r == Xps::NoAction,
    {
        Xps::NoAction
    }
}

/// Setting a command in a field and reading that field back gives the
/// command or-ed with what the field held, keeping the bits that fit in the
/// buffer.
pub proof fn lemma_xps_set_get(data: Seq<u8>, x: u8, position: int)
    requires
        x < 8,
        spec_field_in(data.len() as int, position),
    ensures
        spec_set_field_at(data, x, position).len() == data.len(),
        spec_field_at(spec_set_field_at(data, x, position), position) == spec_field_at(
            data,
            position,
        ) | (x & spec_field_mask(data.len() as int, position)),
        spec_field_at(data, position) < 8,
{
    let lsb_index = position * 3;
    let off = (lsb_index % 8) as u8;
    let n = lsb_index / 8;
    let next: u8 = if n + 1 < data.len() {
        data[n + 1]
    } else {
        0
    };
    lemma_xps_field(data[n], next, off, x);
}

/// Bit `j` of the bytes `data`, counting from bit 0 of the first byte.
pub open spec fn spec_bit_at(data: Seq<u8>, j: int) -> u8 {
    (data[j / 8] >> ((j % 8) as u8)) & 1u8
}

/// A 3-bit field inside the data is made of bits `3 * position`,
/// `3 * position + 1` and `3 * position + 2`, lowest first.
pub proof fn lemma_field_at_bits(data: Seq<u8>, position: int)
    requires
        0 <= position,
        3 * position + 3 <= 8 * data.len(),
    ensures
        spec_field_at(data, position) == spec_bit_at(data, 3 * position) + 2 * spec_bit_at(
            data,
            3 * position + 1,
        ) + 4 * spec_bit_at(data, 3 * position + 2),
{
    let off = ((position * 3) % 8) as u8;
    let n = (position * 3) / 8;
    let b = if n + 1 < data.len() {
        data[n + 1]
    } else {
        0u8
    };
    lemma_field_single_bits(data[n], b, off, 0);
}

/// Setting the field at `p` leaves every other field unchanged.
pub proof fn lemma_xps_set_frame(data: Seq<u8>, x: u8, p: int, q: int)
    requires
        x < 8,
        spec_field_in(data.len() as int, p),
        spec_field_in(data.len() as int, q),
        p != q,
    ensures
        spec_field_at(spec_set_field_at(data, x, p), q) == spec_field_at(data, q),
{
    let e = spec_set_field_at(data, x, p);
    let op = ((p * 3) % 8) as u8;
    let np = (p * 3) / 8;
    let oq = ((q * 3) % 8) as u8;
    let nq = (q * 3) / 8;
    assert(e.len() == data.len());
    lemma_field_frame_bits(data[nq], x, op, oq);
    if nq + 1 < data.len() {
        lemma_field_frame_bits(data[nq + 1], x, op, oq);
    }
    if np == nq {
        assert(op + 3 <= oq || oq + 3 <= op);
    }
    if np == nq + 1 {
        assert(op + 5 >= oq);
    }
    if nq == np + 1 {
        assert(oq + 5 >= op);
    }
}

/// Every field of bytes that are all zero is zero.
pub proof fn lemma_field_of_zeros(data: Seq<u8>, q: int)
    requires
        spec_field_in(data.len() as int, q),
        forall|i: int| 0 <= i < data.len() ==> #[trigger] data[i] == 0,
    ensures
        spec_field_at(data, q) == 0,
{
    let oq = ((q * 3) % 8) as u8;
    lemma_field_frame_bits(0, 0, 0, oq);
}

/// A 3-bit value or-ed into a zero field is read back, but for the bits
/// that run past the end of the data.
pub proof fn lemma_set_zero_field(data: Seq<u8>, x: u8, p: int)
    requires
        x < 8,
        spec_field_in(data.len() as int, p),
        spec_field_at(data, p) == 0,
    ensures
        spec_field_at(spec_set_field_at(data, x, p), p) == 0u8 | (x & spec_field_mask(
            data.len() as int,
            p,
        )),
{
    lemma_xps_set_get(data, x, p);
}

/// The code of a command is a 3-bit value.
pub proof fn lemma_xps_value_bound(x: Xps)
    ensures
        x.spec_value() < 8,
{
}

/// A command is decoded back from its code.
pub proof fn lemma_xps_from_value(x: Xps)
    ensures
        Xps::spec_from_u8(x.spec_value()) == x,
{
}

/// The code of each output command is fixed by the protocol: NoAction 0,
/// SetOn 1, SetOff 2, Toggle 3, Reset 4, PulseOn 5, PulseOff 6, PulseCancel 7;
/// and a 3-bit code decodes to the command that has that code.
pub proof fn lemma_xps_codes(x: Xps, v: u8)
    ensures
        (x == Xps::NoAction) == (x.spec_value() == 0),
        (x == Xps::SetOn) == (x.spec_value() == 1),
        (x == Xps::SetOff) == (x.spec_value() == 2),
        (x == Xps::Toggle) == (x.spec_value() == 3),
        (x == Xps::Reset) == (x.spec_value() == 4),
        (x == Xps::PulseOn) == (x.spec_value() == 5),
        (x == Xps::PulseOff) == (x.spec_value() == 6),
        (x == Xps::PulseCancel) == (x.spec_value() == 7),
        v < 8 ==> Xps::spec_from_u8(v).spec_value() == v,
{
}

/// Toggle-set-reset command of a boolean output.
#[derive(Debug, Clone, Copy, PartialEq, Eq, Structural)]
pub enum TS {
    NoAction,
    SetOn,
    Reset,
    Toggle,
}

impl TS {
    /// Decodes a command code; `None` above 3.
    pub fn from_u8(v: u8) -> (r: Option<TS>)
        ensures
            v == 0 ==> r == Some(TS::NoAction),
            v == 1 ==> r == Some(TS::SetOn),
            v == 2 ==> r == Some(TS::Reset),
            v == 3 ==> r == Some(TS::Toggle),
            v > 3 ==> r is None,
    {
        match v {
            0 => Some(TS::NoAction),
            1 => Some(TS::SetOn),
            2 => Some(TS::Reset),
            3 => Some(TS::Toggle),
            _ => None,
        }
    }
}

impl Default for TS {
    fn default() -> (r: TS)
        ensures
            r == TS::NoAction,
    {
        TS::NoAction
    }
}

/// Set-reset-pulse command of a boolean output.
#[derive(Debug, Clone, Copy, PartialEq, Eq, Structural)]
pub enum TSP {
    NoAction,
    SetOn,
    Reset,
    Pulse,
}

impl TSP {
    /// Decodes a command code; `None` above 3.
    pub fn from_u8(v: u8) -> (r: Option<TSP>)
        ensures
            v == 0 ==> r == Some(TSP::NoAction),
            v == 1 ==> r == Some(TSP::SetOn),
            v == 2 ==> r == Some(TSP::Reset),
            v == 3 ==> r == Some(TSP::Pulse),
            v > 3 ==> r is None,
    {
        match v {
            0 => Some(TSP::NoAction),
            1 => Some(TSP::SetOn),
            2 => Some(TSP::Reset),
            3 => Some(TSP::Pulse),
            _ => None,
        }
    }
}

impl Default for TSP {
    fn default() -> (r: TSP)
        ensures
            r == TSP::NoAction,
    {
        TSP::NoAction
    }
}

/// Operating mode of a heater.
#[derive(Debug, Clone, Copy, PartialEq, Eq, Structural)]
pub enum HeatingMode {
    NoMode,
    Comfort,
    ComfortMin1,
    ComfortMin2,
    EnergySaving,
    FrostProtection,
    Stop,
}

impl HeatingMode {
    /// The code of the mode.
    pub open spec fn spec_value(self) -> u8 {
        match self {
            HeatingMode::NoMode => 0,
            HeatingMode::Comfort => 1,
            HeatingMode::ComfortMin1 => 2,
            HeatingMode::ComfortMin2 => 3,
            HeatingMode::EnergySaving => 4,
            HeatingMode::FrostProtection => 5,
            HeatingMode::Stop => 6,
        }
    }

    /// Decodes a mode code; `None` above 6.
    pub fn from_u8(v: u8) -> (r: Option<HeatingMode>)
        ensures
            r matches Some(m) ==> m.spec_value() == v,
            r is None <==> v > 6,
    {
        match v {
            0 => Some(HeatingMode::NoMode),
            1 => Some(HeatingMode::Comfort),
            2 => Some(HeatingMode::ComfortMin1),
            3 => Some(HeatingMode::ComfortMin2),
            4 => Some(HeatingMode::EnergySaving),
            5 => Some(HeatingMode::FrostProtection),
            6 => Some(HeatingMode::Stop),
            _ => None,
        }
    }

    /// The code of the mode.
    pub fn to_u8(&self) -> (r: u8)
        ensures
            r == self.spec_value(),
    {
        match self {
            HeatingMode::NoMode => 0,
            HeatingMode::Comfort => 1,
            HeatingMode::ComfortMin1 => 2,
            HeatingMode::ComfortMin2 => 3,
            HeatingMode::EnergySaving => 4,
            HeatingMode::FrostProtection => 5,
            HeatingMode::Stop => 6,
        }
    }

    /// Whether the heater heats in this mode (every mode but `NoMode` and `Stop`).
    pub fn heater_on(&self) -> (r: bool)
        ensures
            r == !(*self == HeatingMode::NoMode || *self == HeatingMode::Stop),
    {
        match self {
            HeatingMode::NoMode | HeatingMode::Stop => false,
            _ => true,
        }
    }
}

impl Default for HeatingMode {
    fn default() -> (r: HeatingMode)
        ensures
            r == HeatingMode::NoMode,
    {
        HeatingMode::NoMode
    }
}

} // verus!
