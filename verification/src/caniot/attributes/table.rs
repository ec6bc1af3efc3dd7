use vstd::prelude::*;

use super::base::{AttrId, AttrKey, AttrKind, AttrMeta};
use super::parsed::{get_meta_by_key, lemma_table_sizes, spec_all_metas, spec_meta_by_key};
use super::values::{
    parse_bytes_part, parse_config_flags, parse_device_id, parse_hex32, parse_i16, parse_i32,
    parse_location, parse_milliseconds, parse_partial_commit_hash, parse_reset_reason,
    parse_seconds, parse_text, parse_timestamp, parse_timezone, parse_u16, parse_u32, parse_u8,
    parse_version, spec_all_ascii, spec_ascii_chars, spec_le4, spec_reset_reason, spec_trim_nul,
    spec_utf8_lossy,
};

use super::display::{
    bytes_part_text, commit_hash_text, config_flags_text, device_id_text, hex32_text,
    location_text, milliseconds_text, seconds_text, signed_text, spec_bytes_part_text,
    spec_commit_hash_text, spec_config_flags_text, spec_device_id_text, spec_hex32_text,
    spec_location_text, spec_milliseconds_text, spec_seconds_text, spec_text_part_text,
    spec_timestamp_text, spec_timezone_text, spec_unsigned_text, spec_version_text,
    text_part_text, timestamp_text, timezone_text, unsigned_text, version_text,
};
use super::super::textfmt::spec_signed_decimal;

verus! {

/// The decoded value of an attribute part, by kind.
#[derive(Debug, Clone, PartialEq, Eq)]
pub enum AttrValue {
    U8(u8),
    U16(u16),
    I16(i16),
    U32(u32),
    I32(i32),
    DeviceId { raw: u8, class: u8, sid: u8 },
    Version { caniot: u8, application: u8 },
    TextPart { part: u8, text: String },
    Timestamp(u32),
    Seconds(u32),
    Milliseconds(u32),
    ConfigFlags {
        error_response: bool,
        telemetry_delay_random: bool,
        telemetry_endpoint: u8,
        telemetry_periodic_enabled: bool,
    },
    Timezone(i32),
    Location { region: String, country: String },
    ResetReason(&'static str),
    BytesPart { part: u8, bytes: Vec<u8> },
    Hex32(u32),
    PartialCommitHash { raw: u32, bytes: [u8; 4] },
}

impl AttrValue {
    /// Whether this is the value of kind `kind` that the raw content `raw`
    /// of part `key` decodes to.
    pub open spec fn spec_is_parse_of(&self, kind: AttrKind, key: AttrKey, raw: u32) -> bool {
        match kind {
            AttrKind::U8 => *self == AttrValue::U8(raw as u8),
            AttrKind::U16 => *self == AttrValue::U16(raw as u16),
            AttrKind::I16 => *self == AttrValue::I16((raw as u16) as i16),
            AttrKind::U32 => *self == AttrValue::U32(raw),
            AttrKind::I32 => *self == AttrValue::I32(raw as i32),
            AttrKind::DeviceId => *self == AttrValue::DeviceId {
                raw: raw as u8,
                class: ((raw as u8) >> 3u8) & 7u8,
                sid: (raw as u8) & 7u8,
            },
            AttrKind::Version => *self == AttrValue::Version {
                caniot: ((raw >> 8u32) & 0xffu32) as u8,
                application: (raw & 0xffu32) as u8,
            },
            AttrKind::Text => self matches AttrValue::TextPart { part, text } && part == key.part
                && text@ == spec_trim_nul(spec_utf8_lossy(spec_le4(raw))),
            AttrKind::Timestamp => *self == AttrValue::Timestamp(raw),
            AttrKind::Seconds => *self == AttrValue::Seconds(raw),
            AttrKind::Milliseconds => *self == AttrValue::Milliseconds(raw),
            AttrKind::ConfigFlags => *self == AttrValue::ConfigFlags {
                error_response: raw & 1u32 != 0,
                telemetry_delay_random: raw & 2u32 != 0,
                telemetry_endpoint: ((raw >> 2u32) & 3u32) as u8,
                telemetry_periodic_enabled: raw & 16u32 != 0,
            },
            AttrKind::Timezone => *self == AttrValue::Timezone(raw as i32),
            AttrKind::Location => self matches AttrValue::Location { region, country } && region@
                == spec_utf8_lossy(spec_le4(raw).subrange(0, 2)) && country@ == spec_utf8_lossy(
                spec_le4(raw).subrange(2, 4),
            ),
            AttrKind::ResetReason => self matches AttrValue::ResetReason(reason) && reason@
                == spec_reset_reason(raw),
            AttrKind::Bytes => self matches AttrValue::BytesPart { part, bytes } && part
                == key.part && bytes@ == spec_le4(raw),
            AttrKind::Hex32 => *self == AttrValue::Hex32(raw),
            AttrKind::PartialCommitHash => self matches AttrValue::PartialCommitHash {
                raw: r,
                bytes,
            } && r == raw && bytes@ == spec_le4(raw),
        }
    }

    /// Decodes the raw content `raw` of part `key` as a value of kind `kind`.
    pub fn parse(kind: AttrKind, key: AttrKey, raw: u32) -> (r: AttrValue)
        ensures
            r.spec_is_parse_of(kind, key, raw),
            kind == AttrKind::Text && spec_all_ascii(spec_le4(raw)) ==> (r matches AttrValue::TextPart {
                text,
                ..
            } && text@ == spec_trim_nul(spec_ascii_chars(spec_le4(raw)))),
            kind == AttrKind::Location && spec_all_ascii(spec_le4(raw).subrange(0, 2)) ==> (
            r matches AttrValue::Location { region, .. } && region@ == spec_ascii_chars(
                spec_le4(raw).subrange(0, 2),
            )),
            kind == AttrKind::Location && spec_all_ascii(spec_le4(raw).subrange(2, 4)) ==> (
            r matches AttrValue::Location { country, .. } && country@ == spec_ascii_chars(
                spec_le4(raw).subrange(2, 4),
            )),
    {
        match kind {
            AttrKind::U8 => AttrValue::U8(parse_u8(key, raw).value),
            AttrKind::U16 => AttrValue::U16(parse_u16(key, raw).value),
            AttrKind::I16 => AttrValue::I16(parse_i16(key, raw).value),
            AttrKind::U32 => AttrValue::U32(parse_u32(key, raw).value),
            AttrKind::I32 => AttrValue::I32(parse_i32(key, raw).value),
            AttrKind::DeviceId => {
                let v = parse_device_id(key, raw);
                AttrValue::DeviceId { raw: v.raw, class: v.class, sid: v.sid }
            },
            AttrKind::Version => {
                let v = parse_version(key, raw);
                AttrValue::Version { caniot: v.caniot, application: v.application }
            },
            AttrKind::Text => {
                let v = parse_text(key, raw);
                AttrValue::TextPart { part: v.part, text: v.text }
            },
            AttrKind::Timestamp => AttrValue::Timestamp(parse_timestamp(key, raw).epoch_seconds),
            AttrKind::Seconds => AttrValue::Seconds(parse_seconds(key, raw).seconds),
            AttrKind::Milliseconds => AttrValue::Milliseconds(
                parse_milliseconds(key, raw).milliseconds,
            ),
            AttrKind::ConfigFlags => {
                let v = parse_config_flags(key, raw);
                AttrValue::ConfigFlags {
                    error_response: v.error_response,
                    telemetry_delay_random: v.telemetry_delay_random,
                    telemetry_endpoint: v.telemetry_endpoint,
                    telemetry_periodic_enabled: v.telemetry_periodic_enabled,
                }
            },
            AttrKind::Timezone => AttrValue::Timezone(parse_timezone(key, raw).offset_seconds),
            AttrKind::Location => {
                let v = parse_location(key, raw);
                AttrValue::Location { region: v.region, country: v.country }
            },
            AttrKind::ResetReason => AttrValue::ResetReason(parse_reset_reason(key, raw).reason),
            AttrKind::Bytes => {
                let v = parse_bytes_part(key, raw);
                AttrValue::BytesPart { part: v.part, bytes: v.bytes }
            },
            AttrKind::Hex32 => AttrValue::Hex32(parse_hex32(key, raw).value),
            AttrKind::PartialCommitHash => {
                let v = parse_partial_commit_hash(key, raw);
                AttrValue::PartialCommitHash { raw: v.raw, bytes: v.bytes }
            },
        }
    }
}

/// A decoded attribute part: its description, its key, its raw content and
/// its value.
#[derive(Debug, Clone)]
pub struct Attribute {
    pub meta: AttrMeta,
    pub key: AttrKey,
    pub raw: u32,
    pub value: AttrValue,
}

impl Attribute {
    /// The name of the attribute.
    pub fn display_name(&self) -> (r: &'static str)
        ensures
            r == self.meta.display_name,
    {
        self.meta.display_name
    }

    /// Whether the attribute can be read.
    pub fn is_readable(&self) -> (r: bool)
        ensures
            r == self.meta.read,
    {
        self.meta.read
    }

    /// Whether the attribute can be written.
    pub fn is_writable(&self) -> (r: bool)
        ensures
            r == self.meta.write,
    {
        self.meta.write
    }

    /// Whether the attribute is kept across resets.
    pub fn is_persistent(&self) -> (r: bool)
        ensures
            r == self.meta.persistent,
    {
        self.meta.persistent
    }
}

impl AttrMeta {
    /// Decodes the raw content `raw` of the part `key` of this attribute;
    /// `None` when `key` is not one of its parts.
    pub fn parse(self, key: u16, raw: u32) -> (r: Option<Attribute>)
        requires
            self.size + 3 <= 255,
        ensures
            !self.spec_contains_key(AttrKey::spec_new(key)) ==> r is None,
            self.spec_contains_key(AttrKey::spec_new(key)) ==> (r matches Some(a) && a.meta == self
                && a.key == AttrKey::spec_new(key) && a.raw == raw && a.value.spec_is_parse_of(
                self.kind,
                AttrKey::spec_new(key),
                raw,
            )),
    {
        let key = AttrKey::new(key);
        if !self.contains_key(key) {
            return None;
        }
        Some(Attribute { meta: self, key, raw, value: AttrValue::parse(self.kind, key, raw) })
    }
}

/// Decodes the raw content `raw` of the attribute part `key`; `None` when
/// no attribute has that key.
pub fn parse_attr(key: u16, raw: u32) -> (r: Option<Attribute>)
    ensures
        r is Some <==> spec_meta_by_key(key) is Some,
        r matches Some(a) ==> a.meta == spec_meta_by_key(key)->0 && a.key == AttrKey::spec_new(key)
            && a.raw == raw && a.value.spec_is_parse_of(a.meta.kind, AttrKey::spec_new(key), raw),
{
    let meta = match get_meta_by_key(key) {
        Some(m) => m,
        None => {
            return None;
        },
    };
    proof {
        lemma_meta_by_key_found(key);
    }
    meta.parse(key, raw)
}

/// A description found for a key contains that key and comes from the table.
pub proof fn lemma_meta_by_key_found(key: u16)
    ensures
        spec_meta_by_key(key) matches Some(m) ==> m.spec_contains_key(AttrKey::spec_new(key))
            && m.size <= 32,
{
    lemma_table_sizes();
    lemma_find_by_key_found(spec_all_metas(), AttrKey::spec_new(key));
}

proof fn lemma_find_by_key_found(metas: Seq<AttrMeta>, key: AttrKey)
    requires
        forall|i: int| 0 <= i < metas.len() ==> (#[trigger] metas[i]).size <= 32,
    ensures
        super::parsed::spec_find_by_key(metas, key) matches Some(m) ==> m.spec_contains_key(key)
            && m.size <= 32,
    decreases metas.len(),
{
    if metas.len() > 0 {
        let rest = metas.drop_first();
        assert forall|i: int| 0 <= i < rest.len() implies (#[trigger] rest[i]).size <= 32 by {
            assert(rest[i] == metas[i + 1]);
        }
        lemma_find_by_key_found(rest, key);
    }
}

impl AttrId {
    /// The description of the attribute.
    pub fn meta(self) -> (r: Option<AttrMeta>)
        ensures
            r == spec_meta_by_key(self.spec_key()),
    {
        get_meta_by_key(self.key())
    }

    /// Decodes the raw content `raw` of part 0 of the attribute.
    pub fn parse(self, raw: u32) -> (r: Option<Attribute>)
        ensures
            r is Some <==> spec_meta_by_key(self.spec_key()) is Some,
            r matches Some(a) ==> a.meta == spec_meta_by_key(self.spec_key())->0 && a.key
                == AttrKey::spec_new(self.spec_key()) && a.raw == raw && a.value.spec_is_parse_of(
                a.meta.kind,
                AttrKey::spec_new(self.spec_key()),
                raw,
            ),
    {
        parse_attr(self.key(), raw)
    }
}


impl AttrValue {
    /// The text that shows the value.
    pub open spec fn spec_display(&self) -> Seq<char> {
        match self {
            AttrValue::U8(v) => spec_unsigned_text(*v as nat, 2),
            AttrValue::U16(v) => spec_unsigned_text(*v as nat, 4),
            AttrValue::I16(v) => spec_signed_decimal(*v as int),
            AttrValue::U32(v) => spec_unsigned_text(*v as nat, 8),
            AttrValue::I32(v) => spec_signed_decimal(*v as int),
            AttrValue::DeviceId { raw, class, sid } => spec_device_id_text(*raw, *class, *sid),
            AttrValue::Version { caniot, application } => spec_version_text(*caniot, *application),
            AttrValue::TextPart { part, text } => spec_text_part_text(*part, text@),
            AttrValue::Timestamp(ts) => spec_timestamp_text(*ts),
            AttrValue::Seconds(v) => spec_seconds_text(*v),
            AttrValue::Milliseconds(v) => spec_milliseconds_text(*v),
            AttrValue::ConfigFlags {
                error_response,
                telemetry_delay_random,
                telemetry_endpoint,
                telemetry_periodic_enabled,
            } => spec_config_flags_text(
                *error_response,
                *telemetry_delay_random,
                *telemetry_endpoint,
                *telemetry_periodic_enabled,
            ),
            AttrValue::Timezone(v) => spec_timezone_text(*v),
            AttrValue::Location { region, country } => spec_location_text(region@, country@),
            AttrValue::ResetReason(reason) => reason@,
            AttrValue::BytesPart { part, bytes } => spec_bytes_part_text(*part, bytes@),
            AttrValue::Hex32(v) => spec_hex32_text(*v),
            AttrValue::PartialCommitHash { bytes, .. } => spec_commit_hash_text(bytes@),
        }
    }

    /// The text that shows the value: numbers in decimal (unsigned ones also
    /// in hexadecimal), dates in UTC, durations in days, hours, minutes and
    /// seconds, flags as `name=0|1`, bytes in hexadecimal.
    pub fn to_display_string(&self) -> (r: String)
        ensures
            r@ == self.spec_display(),
    {
        match self {
            AttrValue::U8(v) => unsigned_text(*v as u64, 2),
            AttrValue::U16(v) => unsigned_text(*v as u64, 4),
            AttrValue::I16(v) => signed_text(*v as i64),
            AttrValue::U32(v) => unsigned_text(*v as u64, 8),
            AttrValue::I32(v) => signed_text(*v as i64),
            AttrValue::DeviceId { raw, class, sid } => device_id_text(*raw, *class, *sid),
            AttrValue::Version { caniot, application } => version_text(*caniot, *application),
            AttrValue::TextPart { part, text } => text_part_text(*part, text.as_str()),
            AttrValue::Timestamp(ts) => timestamp_text(*ts),
            AttrValue::Seconds(v) => seconds_text(*v),
            AttrValue::Milliseconds(v) => milliseconds_text(*v),
            AttrValue::ConfigFlags {
                error_response,
                telemetry_delay_random,
                telemetry_endpoint,
                telemetry_periodic_enabled,
            } => config_flags_text(
                *error_response,
                *telemetry_delay_random,
                *telemetry_endpoint,
                *telemetry_periodic_enabled,
            ),
            AttrValue::Timezone(v) => timezone_text(*v),
            AttrValue::Location { region, country } => location_text(
                region.as_str(),
                country.as_str(),
            ),
            AttrValue::ResetReason(reason) => (*reason).to_owned(),
            AttrValue::BytesPart { part, bytes } => bytes_part_text(*part, bytes.as_slice()),
            AttrValue::Hex32(v) => hex32_text(*v),
            AttrValue::PartialCommitHash { bytes, .. } => commit_hash_text(bytes.as_slice()),
        }
    }
}

} // verus!
