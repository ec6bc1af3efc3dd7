use vstd::prelude::*;

use super::bits::lemma_sys_command;
use super::classes::class0::{spec_command_byte0, spec_command_byte1};
use super::classes::codec::{has_bit, lemma_has_bit_masks, spec_has_bit};
use super::types::{Class0Command, Class0Payload, SystemCommand};

verus! {

/// The 16-bit value of two little-endian bytes, as a signed number.
pub open spec fn spec_i16_le(lo: u8, hi: u8) -> i16 {
    ((lo as u16) | ((hi as u16) << 8u16)) as i16
}

fn i16_le(lo: u8, hi: u8) -> (r: i16)
    ensures
        r == spec_i16_le(lo, hi),
{
    ((lo as u16) | ((hi as u16) << 8)) as i16
}

/// The class 0 telemetry read from the bytes `p` (at least 7) by the first decoder.
pub open spec fn spec_decode_cls0_telemetry(p: Seq<u8>) -> Class0Payload {
    Class0Payload {
        oc1: spec_has_bit(p[0], 0),
        oc2: spec_has_bit(p[0], 1),
        rl1: spec_has_bit(p[0], 2),
        rl2: spec_has_bit(p[0], 3),
        in1: spec_has_bit(p[0], 4),
        in2: spec_has_bit(p[0], 5),
        in3: spec_has_bit(p[0], 6),
        in4: spec_has_bit(p[0], 7),
        poc1: spec_has_bit(p[1], 0),
        puc2: spec_has_bit(p[1], 1),
        prl1: spec_has_bit(p[1], 2),
        prl2: spec_has_bit(p[1], 3),
        temp_in: spec_i16_le(p[2], p[3] & 3u8),
        temp_out: [
            spec_i16_le(p[3] >> 2u8, p[4] & 0x0fu8),
            spec_i16_le(p[4] >> 4u8, p[5] & 0x0fu8),
            spec_i16_le(p[5] >> 6u8, p[6] & 0x03u8),
        ],
    }
}

/// Reads a class 0 telemetry from at least 7 bytes.
pub fn decode_cls0_telemetry(payload: &[u8]) -> (r: Option<Class0Payload>)
    requires
        payload@.len() >= 7,
    ensures
        r == Some(spec_decode_cls0_telemetry(payload@)),
{
    let t = Class0Payload {
        oc1: has_bit(payload[0], 0),
        oc2: has_bit(payload[0], 1),
        rl1: has_bit(payload[0], 2),
        rl2: has_bit(payload[0], 3),
        in1: has_bit(payload[0], 4),
        in2: has_bit(payload[0], 5),
        in3: has_bit(payload[0], 6),
        in4: has_bit(payload[0], 7),
        poc1: has_bit(payload[1], 0),
        puc2: has_bit(payload[1], 1),
        prl1: has_bit(payload[1], 2),
        prl2: has_bit(payload[1], 3),
        temp_in: i16_le(payload[2], payload[3] & 0b0000_0011),
        temp_out: [
            i16_le(payload[3] >> 2, payload[4] & 0b0000_1111),
            i16_le(payload[4] >> 4, payload[5] & 0b0000_1111),
            i16_le(payload[5] >> 6, payload[6] & 0b0000_0011),
        ],
    };
    proof {
        assert(t.temp_out =~= spec_decode_cls0_telemetry(payload@).temp_out);
    }
    Some(t)
}

/// The system byte of a command: hardware reset in bit 0, software reset in
/// bit 1, watchdog reset in bit 2, watchdog enable in bit 3, factory reset in bit 5.
pub open spec fn spec_sys_byte(s: SystemCommand) -> u8 {
    ((if s.hardware_reset { 1u8 } else { 0u8 }) | ((if s.software_reset { 1u8 } else { 0u8 }) << 1u8)
        | ((if s.watchdog_reset { 1u8 } else { 0u8 }) << 2u8) | ((if s.watchdog_enable { 1u8 } else { 0u8 })
        << 3u8) | ((if s.factory_reset { 1u8 } else { 0u8 }) << 5u8)) as u8
}

fn flag(b: bool) -> (r: u8)
    ensures
        r == (if b { 1u8 } else { 0u8 }),
{
    if b {
        1
    } else {
        0
    }
}

/// Encodes the system part of a command in one byte.
pub fn encode_sys_command(sysc: SystemCommand) -> (r: u8)
    ensures
        r == spec_sys_byte(sysc),
{
    let mut payload = 0u8;
    payload = payload | flag(sysc.hardware_reset);
    payload = payload | (flag(sysc.software_reset) << 1);
    payload = payload | (flag(sysc.watchdog_reset) << 2);
    payload = payload | (flag(sysc.watchdog_enable) << 3);
    payload = payload | (flag(sysc.factory_reset) << 5);
    proof {
        lemma_sys_command(
            sysc.hardware_reset,
            sysc.software_reset,
            sysc.watchdog_reset,
            sysc.watchdog_enable,
            sysc.factory_reset,
        );
    }
    payload
}

/// Reads the system part of a command from its byte.
pub fn decode_sys_command(byte: u8) -> (r: SystemCommand)
    ensures
        r == (SystemCommand {
            hardware_reset: spec_has_bit(byte, 0),
            software_reset: spec_has_bit(byte, 1),
            watchdog_reset: spec_has_bit(byte, 2),
            watchdog_enable: spec_has_bit(byte, 3),
            factory_reset: spec_has_bit(byte, 5),
        }),
{
    SystemCommand {
        hardware_reset: has_bit(byte, 0),
        software_reset: has_bit(byte, 1),
        watchdog_reset: has_bit(byte, 2),
        watchdog_enable: has_bit(byte, 3),
        factory_reset: has_bit(byte, 5),
    }
}

/// Encodes a class 0 board command on 8 bytes: the outputs in bytes 0..2,
/// the system part in byte 7.
pub fn encode_cls0_command(command: Class0Command) -> (r: [u8; 8])
    ensures
        r@ == seq![
            spec_command_byte0(command.coc1.spec_value(), command.coc2.spec_value(), command.crl1.spec_value()),
            spec_command_byte1(command.crl1.spec_value(), command.crl2.spec_value()),
            0u8,
            0u8,
            0u8,
            0u8,
            0u8,
            spec_sys_byte(command.sys),
        ],
{
    let coc1 = command.coc1.to_u8();
    let coc2 = command.coc2.to_u8();
    let crl1 = command.crl1.to_u8();
    let crl2 = command.crl2.to_u8();
    let payload: [u8; 8] = [
        coc1 | (coc2 << 3) | ((crl1 & 0b11) << 6),
        ((crl1 & 0b100) >> 2) | (crl2 << 1),
        0,
        0,
        0,
        0,
        0,
        encode_sys_command(command.sys),
    ];
    proof {
        assert(payload@ =~= seq![
            spec_command_byte0(coc1, coc2, crl1),
            spec_command_byte1(crl1, crl2),
            0u8,
            0u8,
            0u8,
            0u8,
            0u8,
            spec_sys_byte(command.sys),
        ]);
    }
    payload
}

/// Reading the system byte of a system command gives it back.
pub proof fn lemma_sys_command_roundtrip(s: SystemCommand)
    ensures
        ({
            let b = spec_sys_byte(s);
            &&& spec_has_bit(b, 0) == s.hardware_reset
            &&& spec_has_bit(b, 1) == s.software_reset
            &&& spec_has_bit(b, 2) == s.watchdog_reset
            &&& spec_has_bit(b, 3) == s.watchdog_enable
            &&& spec_has_bit(b, 5) == s.factory_reset
        }),
{
    lemma_sys_command(
        s.hardware_reset,
        s.software_reset,
        s.watchdog_reset,
        s.watchdog_enable,
        s.factory_reset,
    );
}

/// The flags of a system command in its byte: hardware reset in bit 0 (mask
/// 0x01), software reset in bit 1 (0x02), watchdog reset in bit 2 (0x04),
/// watchdog enable in bit 3 (0x08) and factory reset in bit 5 (0x20); decoding
/// a byte reads each flag from the same bit.
pub proof fn lemma_sys_command_layout(s: SystemCommand, byte: u8)
    ensures
        ({
            let b = spec_sys_byte(s);
            &&& (b & 0x01 != 0) == s.hardware_reset
            &&& (b & 0x02 != 0) == s.software_reset
            &&& (b & 0x04 != 0) == s.watchdog_reset
            &&& (b & 0x08 != 0) == s.watchdog_enable
            &&& (b & 0x20 != 0) == s.factory_reset
        }),
        spec_has_bit(byte, 0) == (byte & 0x01 != 0),
        spec_has_bit(byte, 1) == (byte & 0x02 != 0),
        spec_has_bit(byte, 2) == (byte & 0x04 != 0),
        spec_has_bit(byte, 3) == (byte & 0x08 != 0),
        spec_has_bit(byte, 5) == (byte & 0x20 != 0),
{
    lemma_sys_command_roundtrip(s);
    lemma_has_bit_masks(spec_sys_byte(s));
    lemma_has_bit_masks(byte);
}

} // verus!
