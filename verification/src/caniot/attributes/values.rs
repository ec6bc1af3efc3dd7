use vstd::prelude::*;
use vstd::string::{StrSliceExecFns, StringExecFns};

use super::base::AttrKey;
use super::display::{
    bytes_part_text, commit_hash_text, config_flags_text, device_id_text, hex32_text,
    location_text, milliseconds_text, seconds_text, signed_text, spec_bytes_part_text,
    spec_commit_hash_text, spec_config_flags_text, spec_device_id_text, spec_hex32_text,
    spec_location_text, spec_milliseconds_text, spec_seconds_text, spec_text_part_text,
    spec_timestamp_text, spec_timezone_text, spec_unsigned_text, spec_version_text,
    text_part_text, timestamp_text, timezone_text, unsigned_text, version_text,
};
use super::super::textfmt::spec_signed_decimal;

verus! {

/// A value decoded from the raw 32-bit content of an attribute.
pub trait ParsedValue {
    /// Whether this value is what the raw content `raw` of the attribute part `key` decodes to.
    spec fn spec_is_parse_of(&self, key: AttrKey, raw: u32) -> bool;

    /// The text that shows the value.
    spec fn spec_display(&self) -> Seq<char>;

    /// The text that shows the value.
    fn to_display_string(&self) -> (r: String)
        ensures
            r@ == self.spec_display(),
    ;
}

/// The four little-endian bytes of `raw`.
pub open spec fn spec_le4(raw: u32) -> Seq<u8> {
    seq![raw as u8, (raw >> 8u32) as u8, (raw >> 16u32) as u8, (raw >> 24u32) as u8]
}

fn le4(raw: u32) -> (r: [u8; 4])
    ensures
        r@ == spec_le4(raw),
{
    let r = [raw as u8, (raw >> 8) as u8, (raw >> 16) as u8, (raw >> 24) as u8];
    proof {
        assert(r@ =~= spec_le4(raw));
    }
    r
}

/// The characters that `String::from_utf8_lossy` decodes from `bytes`.
pub uninterp spec fn spec_utf8_lossy(bytes: Seq<u8>) -> Seq<char>;

/// Calls `String::from_utf8_lossy`: decodes `bytes` as UTF-8, replacing
/// invalid sequences. The result is named by `spec_utf8_lossy`; what its
/// documentation gives plainly is stated too: bytes that are all ASCII are
/// valid UTF-8 and decode each to the character of the same code.
#[verifier::external_body]
fn utf8_lossy(bytes: &[u8]) -> (r: String)
    ensures
        r@ == spec_utf8_lossy(bytes@),
        (forall|i: int| 0 <= i < bytes@.len() ==> #[trigger] bytes@[i] < 0x80) ==> r@ =~= Seq::new(
            bytes@.len(),
            |i: int| bytes@[i] as char,
        ),
{
    String::from_utf8_lossy(bytes).into_owned()
}

/// Whether every byte of `bytes` is an ASCII code.
pub open spec fn spec_all_ascii(bytes: Seq<u8>) -> bool {
    forall|i: int| 0 <= i < bytes.len() ==> #[trigger] bytes[i] < 0x80
}

/// The characters whose codes are the bytes `bytes`.
pub open spec fn spec_ascii_chars(bytes: Seq<u8>) -> Seq<char> {
    Seq::new(bytes.len(), |i: int| bytes[i] as char)
}

/// `s` without its trailing NUL characters.
pub open spec fn spec_trim_nul(s: Seq<char>) -> Seq<char>
    decreases s.len(),
{
    if s.len() > 0 && s.last() == '\0' {
        spec_trim_nul(s.drop_last())
    } else {
        s
    }
}

/// Removes the trailing NUL characters of `s`.
fn trim_trailing_nul(s: String) -> (r: String)
    ensures
        r@ == spec_trim_nul(s@),
{
    let n = s.as_str().unicode_len();
    let mut end = n;
    proof {
        assert(s@.subrange(0, n as int) =~= s@);
    }
    while end > 0 && s.as_str().get_char(end - 1) == '\0'
        invariant
            end <= n,
            n == s@.len(),
            spec_trim_nul(s@.subrange(0, end as int)) == spec_trim_nul(s@),
        decreases end,
    {
        proof {
            assert(s@.subrange(0, end as int).drop_last() =~= s@.subrange(0, end - 1));
        }
        end = end - 1;
    }
    String::from_str(s.as_str().substring_char(0, end))
}

/// An 8-bit unsigned value.
#[derive(Debug, Clone, PartialEq, Eq, Structural)]
pub struct U8Value {
    pub value: u8,
}

/// A 16-bit unsigned value.
#[derive(Debug, Clone, PartialEq, Eq, Structural)]
pub struct U16Value {
    pub value: u16,
}

/// A 16-bit signed value.
#[derive(Debug, Clone, PartialEq, Eq, Structural)]
pub struct I16Value {
    pub value: i16,
}

/// A 32-bit unsigned value.
#[derive(Debug, Clone, PartialEq, Eq, Structural)]
pub struct U32Value {
    pub value: u32,
}

/// A 32-bit signed value.
#[derive(Debug, Clone, PartialEq, Eq, Structural)]
pub struct I32Value {
    pub value: i32,
}

/// A device identifier byte, with its class (bits 3..6) and sub identifier (bits 0..3).
#[derive(Debug, Clone, PartialEq, Eq, Structural)]
pub struct DeviceIdValue {
    pub raw: u8,
    pub class: u8,
    pub sid: u8,
}

/// The CANIOT protocol version and the application version.
#[derive(Debug, Clone, PartialEq, Eq, Structural)]
pub struct VersionValue {
    pub caniot: u8,
    pub application: u8,
}

/// Four characters of a text attribute, at part `part`.
#[derive(Debug, Clone, PartialEq, Eq)]
pub struct TextPartValue {
    pub part: u8,
    pub text: String,
}

/// A date, in seconds since the Unix epoch.
#[derive(Debug, Clone, PartialEq, Eq, Structural)]
pub struct TimestampValue {
    pub epoch_seconds: u32,
}

/// A duration in seconds.
#[derive(Debug, Clone, PartialEq, Eq, Structural)]
pub struct SecondsValue {
    pub seconds: u32,
}

/// A duration in milliseconds.
#[derive(Debug, Clone, PartialEq, Eq, Structural)]
pub struct MillisecondsValue {
    pub milliseconds: u32,
}

/// The configuration flags of a device.
#[derive(Debug, Clone, PartialEq, Eq, Structural)]
pub struct ConfigFlagsValue {
    pub error_response: bool,
    pub telemetry_delay_random: bool,
    pub telemetry_endpoint: u8,
    pub telemetry_periodic_enabled: bool,
}

/// A time zone, as an offset from UTC in seconds.
#[derive(Debug, Clone, PartialEq, Eq, Structural)]
pub struct TimezoneValue {
    pub offset_seconds: i32,
}

/// A location: a two-letter region and a two-letter country.
#[derive(Debug, Clone, PartialEq, Eq)]
pub struct LocationValue {
    pub region: String,
    pub country: String,
}

/// The reason of the last reset.
#[derive(Debug, Clone, PartialEq, Eq)]
pub struct ResetReasonValue {
    pub reason: &'static str,
}

/// Four bytes of a binary attribute, at part `part`.
#[derive(Debug, Clone, PartialEq, Eq)]
pub struct BytesPartValue {
    pub part: u8,
    pub bytes: Vec<u8>,
}

/// A 32-bit value shown in hexadecimal.
#[derive(Debug, Clone, PartialEq, Eq, Structural)]
pub struct Hex32Value {
    pub value: u32,
}

/// The first four bytes of a commit hash, with the raw value they come from.
#[derive(Debug, Clone, PartialEq, Eq)]
pub struct PartialCommitHashValue {
    pub raw: u32,
    pub bytes: [u8; 4],
}

impl ParsedValue for U8Value {
    open spec fn spec_is_parse_of(&self, key: AttrKey, raw: u32) -> bool {
        self.value == raw as u8
    }

    open spec fn spec_display(&self) -> Seq<char> {
        spec_unsigned_text(self.value as nat, 2)
    }

    fn to_display_string(&self) -> (r: String) {
        unsigned_text(self.value as u64, 2)
    }
}

impl ParsedValue for U16Value {
    open spec fn spec_is_parse_of(&self, key: AttrKey, raw: u32) -> bool {
        self.value == raw as u16
    }

    open spec fn spec_display(&self) -> Seq<char> {
        spec_unsigned_text(self.value as nat, 4)
    }

    fn to_display_string(&self) -> (r: String) {
        unsigned_text(self.value as u64, 4)
    }
}

impl ParsedValue for I16Value {
    open spec fn spec_is_parse_of(&self, key: AttrKey, raw: u32) -> bool {
        self.value == (raw as u16) as i16
    }

    open spec fn spec_display(&self) -> Seq<char> {
        spec_signed_decimal(self.value as int)
    }

    fn to_display_string(&self) -> (r: String) {
        signed_text(self.value as i64)
    }
}

impl ParsedValue for U32Value {
    open spec fn spec_is_parse_of(&self, key: AttrKey, raw: u32) -> bool {
        self.value == raw
    }

    open spec fn spec_display(&self) -> Seq<char> {
        spec_unsigned_text(self.value as nat, 8)
    }

    fn to_display_string(&self) -> (r: String) {
        unsigned_text(self.value as u64, 8)
    }
}

impl ParsedValue for I32Value {
    open spec fn spec_is_parse_of(&self, key: AttrKey, raw: u32) -> bool {
        self.value == raw as i32
    }

    open spec fn spec_display(&self) -> Seq<char> {
        spec_signed_decimal(self.value as int)
    }

    fn to_display_string(&self) -> (r: String) {
        signed_text(self.value as i64)
    }
}

impl ParsedValue for DeviceIdValue {
    open spec fn spec_is_parse_of(&self, key: AttrKey, raw: u32) -> bool {
        &&& self.raw == raw as u8
        &&& self.class == ((raw as u8) >> 3u8) & 7u8
        &&& self.sid == (raw as u8) & 7u8
    }

    open spec fn spec_display(&self) -> Seq<char> {
        spec_device_id_text(self.raw, self.class, self.sid)
    }

    fn to_display_string(&self) -> (r: String) {
        device_id_text(self.raw, self.class, self.sid)
    }
}

impl ParsedValue for VersionValue {
    open spec fn spec_is_parse_of(&self, key: AttrKey, raw: u32) -> bool {
        &&& self.caniot == ((raw >> 8u32) & 0xffu32) as u8
        &&& self.application == (raw & 0xffu32) as u8
    }

    open spec fn spec_display(&self) -> Seq<char> {
        spec_version_text(self.caniot, self.application)
    }

    fn to_display_string(&self) -> (r: String) {
        version_text(self.caniot, self.application)
    }
}

impl ParsedValue for TextPartValue {
    open spec fn spec_is_parse_of(&self, key: AttrKey, raw: u32) -> bool {
        &&& self.part == key.part
        &&& self.text@ == spec_trim_nul(spec_utf8_lossy(spec_le4(raw)))
    }

    open spec fn spec_display(&self) -> Seq<char> {
        spec_text_part_text(self.part, self.text@)
    }

    fn to_display_string(&self) -> (r: String) {
        text_part_text(self.part, self.text.as_str())
    }
}

impl ParsedValue for TimestampValue {
    open spec fn spec_is_parse_of(&self, key: AttrKey, raw: u32) -> bool {
        self.epoch_seconds == raw
    }

    open spec fn spec_display(&self) -> Seq<char> {
        spec_timestamp_text(self.epoch_seconds)
    }

    fn to_display_string(&self) -> (r: String) {
        timestamp_text(self.epoch_seconds)
    }
}

impl ParsedValue for SecondsValue {
    open spec fn spec_is_parse_of(&self, key: AttrKey, raw: u32) -> bool {
        self.seconds == raw
    }

    open spec fn spec_display(&self) -> Seq<char> {
        spec_seconds_text(self.seconds)
    }

    fn to_display_string(&self) -> (r: String) {
        seconds_text(self.seconds)
    }
}

impl ParsedValue for MillisecondsValue {
    open spec fn spec_is_parse_of(&self, key: AttrKey, raw: u32) -> bool {
        self.milliseconds == raw
    }

    open spec fn spec_display(&self) -> Seq<char> {
        spec_milliseconds_text(self.milliseconds)
    }

    fn to_display_string(&self) -> (r: String) {
        milliseconds_text(self.milliseconds)
    }
}

impl ParsedValue for ConfigFlagsValue {
    open spec fn spec_is_parse_of(&self, key: AttrKey, raw: u32) -> bool {
        &&& self.error_response == (raw & 1u32 != 0)
        &&& self.telemetry_delay_random == (raw & 2u32 != 0)
        &&& self.telemetry_endpoint == ((raw >> 2u32) & 3u32) as u8
        &&& self.telemetry_periodic_enabled == (raw & 16u32 != 0)
    }

    open spec fn spec_display(&self) -> Seq<char> {
        spec_config_flags_text(self.error_response, self.telemetry_delay_random, self.telemetry_endpoint, self.telemetry_periodic_enabled)
    }

    fn to_display_string(&self) -> (r: String) {
        config_flags_text(self.error_response, self.telemetry_delay_random, self.telemetry_endpoint, self.telemetry_periodic_enabled)
    }
}

impl ParsedValue for TimezoneValue {
    open spec fn spec_is_parse_of(&self, key: AttrKey, raw: u32) -> bool {
        self.offset_seconds == raw as i32
    }

    open spec fn spec_display(&self) -> Seq<char> {
        spec_timezone_text(self.offset_seconds)
    }

    fn to_display_string(&self) -> (r: String) {
        timezone_text(self.offset_seconds)
    }
}

impl ParsedValue for LocationValue {
    open spec fn spec_is_parse_of(&self, key: AttrKey, raw: u32) -> bool {
        &&& self.region@ == spec_utf8_lossy(spec_le4(raw).subrange(0, 2))
        &&& self.country@ == spec_utf8_lossy(spec_le4(raw).subrange(2, 4))
    }

    open spec fn spec_display(&self) -> Seq<char> {
        spec_location_text(self.region@, self.country@)
    }

    fn to_display_string(&self) -> (r: String) {
        location_text(self.region.as_str(), self.country.as_str())
    }
}

/// The name of reset reason `raw`.
pub open spec fn spec_reset_reason(raw: u32) -> Seq<char> {
    if raw == 0 {
        "unknown"@
    } else if raw == 1 {
        "power-on"@
    } else if raw == 2 {
        "watchdog"@
    } else if raw == 3 {
        "external"@
    } else if raw == 4 {
        "brown-out"@
    } else {
        "invalid"@
    }
}

impl ParsedValue for ResetReasonValue {
    open spec fn spec_is_parse_of(&self, key: AttrKey, raw: u32) -> bool {
        self.reason@ == spec_reset_reason(raw)
    }

    open spec fn spec_display(&self) -> Seq<char> {
        self.reason@
    }

    fn to_display_string(&self) -> (r: String) {
        self.reason.to_owned()
    }
}

impl ParsedValue for BytesPartValue {
    open spec fn spec_is_parse_of(&self, key: AttrKey, raw: u32) -> bool {
        &&& self.part == key.part
        &&& self.bytes@ == spec_le4(raw)
    }

    open spec fn spec_display(&self) -> Seq<char> {
        spec_bytes_part_text(self.part, self.bytes@)
    }

    fn to_display_string(&self) -> (r: String) {
        bytes_part_text(self.part, self.bytes.as_slice())
    }
}

impl ParsedValue for Hex32Value {
    open spec fn spec_is_parse_of(&self, key: AttrKey, raw: u32) -> bool {
        self.value == raw
    }

    open spec fn spec_display(&self) -> Seq<char> {
        spec_hex32_text(self.value)
    }

    fn to_display_string(&self) -> (r: String) {
        hex32_text(self.value)
    }
}

impl ParsedValue for PartialCommitHashValue {
    open spec fn spec_is_parse_of(&self, key: AttrKey, raw: u32) -> bool {
        &&& self.raw == raw
        &&& self.bytes@ == spec_le4(raw)
    }

    open spec fn spec_display(&self) -> Seq<char> {
        spec_commit_hash_text(self.bytes@)
    }

    fn to_display_string(&self) -> (r: String) {
        commit_hash_text(self.bytes.as_slice())
    }
}

/// Decodes an 8-bit unsigned value (the low byte).
pub fn parse_u8(key: AttrKey, raw: u32) -> (r: U8Value)
    ensures
        r.spec_is_parse_of(key, raw),
{
    U8Value { value: raw as u8 }
}

/// Decodes a 16-bit unsigned value (the low 16 bits).
pub fn parse_u16(key: AttrKey, raw: u32) -> (r: U16Value)
    ensures
        r.spec_is_parse_of(key, raw),
{
    U16Value { value: raw as u16 }
}

/// Decodes a 16-bit signed value (the low 16 bits, two's complement).
pub fn parse_i16(key: AttrKey, raw: u32) -> (r: I16Value)
    ensures
        r.spec_is_parse_of(key, raw),
{
    I16Value { value: (raw as u16) as i16 }
}

/// Decodes a 32-bit unsigned value.
pub fn parse_u32(key: AttrKey, raw: u32) -> (r: U32Value)
    ensures
        r.spec_is_parse_of(key, raw),
{
    U32Value { value: raw }
}

/// Decodes a 32-bit signed value (two's complement).
pub fn parse_i32(key: AttrKey, raw: u32) -> (r: I32Value)
    ensures
        r.spec_is_parse_of(key, raw),
{
    I32Value { value: raw as i32 }
}

/// Decodes a device identifier byte.
pub fn parse_device_id(key: AttrKey, raw: u32) -> (r: DeviceIdValue)
    ensures
        r.spec_is_parse_of(key, raw),
{
    let did = raw as u8;
    DeviceIdValue { raw: did, class: (did >> 3) & 0x07, sid: did & 0x07 }
}

/// Decodes the protocol version (byte 1) and application version (byte 0).
pub fn parse_version(key: AttrKey, raw: u32) -> (r: VersionValue)
    ensures
        r.spec_is_parse_of(key, raw),
{
    VersionValue { caniot: ((raw >> 8) & 0xff) as u8, application: (raw & 0xff) as u8 }
}

/// Decodes four characters of text (little-endian bytes as UTF-8, trailing
/// NUL characters removed).
pub fn parse_text(key: AttrKey, raw: u32) -> (r: TextPartValue)
    ensures
        r.spec_is_parse_of(key, raw),
        spec_all_ascii(spec_le4(raw)) ==> r.text@ == spec_trim_nul(spec_ascii_chars(spec_le4(raw))),
{
    let bytes = le4(raw);
    let decoded = utf8_lossy(&bytes);
    proof {
        if spec_all_ascii(spec_le4(raw)) {
            assert(decoded@ =~= spec_ascii_chars(spec_le4(raw)));
        }
    }
    let text = trim_trailing_nul(decoded);
    TextPartValue { part: key.part, text }
}

/// Decodes a date in seconds since the Unix epoch.
pub fn parse_timestamp(key: AttrKey, raw: u32) -> (r: TimestampValue)
    ensures
        r.spec_is_parse_of(key, raw),
{
    TimestampValue { epoch_seconds: raw }
}

/// Decodes a duration in seconds.
pub fn parse_seconds(key: AttrKey, raw: u32) -> (r: SecondsValue)
    ensures
        r.spec_is_parse_of(key, raw),
{
    SecondsValue { seconds: raw }
}

/// Decodes a duration in milliseconds.
pub fn parse_milliseconds(key: AttrKey, raw: u32) -> (r: MillisecondsValue)
    ensures
        r.spec_is_parse_of(key, raw),
{
    MillisecondsValue { milliseconds: raw }
}

/// Decodes the configuration flags: error response in bit 0, random
/// telemetry delay in bit 1, telemetry endpoint in bits 2..4, periodic
/// telemetry in bit 4.
pub fn parse_config_flags(key: AttrKey, raw: u32) -> (r: ConfigFlagsValue)
    ensures
        r.spec_is_parse_of(key, raw),
{
    ConfigFlagsValue {
        error_response: raw & 1 != 0,
        telemetry_delay_random: raw & 2 != 0,
        telemetry_endpoint: ((raw >> 2) & 0x03) as u8,
        telemetry_periodic_enabled: raw & 16 != 0,
    }
}

/// Decodes a time zone offset in seconds (two's complement).
pub fn parse_timezone(key: AttrKey, raw: u32) -> (r: TimezoneValue)
    ensures
        r.spec_is_parse_of(key, raw),
{
    TimezoneValue { offset_seconds: raw as i32 }
}

/// Decodes a location: bytes 0..2 the region, bytes 2..4 the country.
pub fn parse_location(key: AttrKey, raw: u32) -> (r: LocationValue)
    ensures
        r.spec_is_parse_of(key, raw),
        spec_all_ascii(spec_le4(raw).subrange(0, 2)) ==> r.region@ == spec_ascii_chars(
            spec_le4(raw).subrange(0, 2),
        ),
        spec_all_ascii(spec_le4(raw).subrange(2, 4)) ==> r.country@ == spec_ascii_chars(
            spec_le4(raw).subrange(2, 4),
        ),
{
    let b = le4(raw);
    let region = utf8_lossy(&b[0..2]);
    let country = utf8_lossy(&b[2..4]);
    proof {
        let lo = spec_le4(raw).subrange(0, 2);
        let hi = spec_le4(raw).subrange(2, 4);
        if spec_all_ascii(lo) {
            assert(region@ =~= spec_ascii_chars(lo));
        }
        if spec_all_ascii(hi) {
            assert(country@ =~= spec_ascii_chars(hi));
        }
    }
    LocationValue { region, country }
}

/// Decodes the reason of the last reset.
pub fn parse_reset_reason(key: AttrKey, raw: u32) -> (r: ResetReasonValue)
    ensures
        r.spec_is_parse_of(key, raw),
{
    let reason = match raw {
        0 => "unknown",
        1 => "power-on",
        2 => "watchdog",
        3 => "external",
        4 => "brown-out",
        _ => "invalid",
    };
    ResetReasonValue { reason }
}

/// Decodes four bytes of a binary attribute.
pub fn parse_bytes_part(key: AttrKey, raw: u32) -> (r: BytesPartValue)
    ensures
        r.spec_is_parse_of(key, raw),
{
    let b = le4(raw);
    let mut bytes: Vec<u8> = Vec::with_capacity(4);
    bytes.push(b[0]);
    bytes.push(b[1]);
    bytes.push(b[2]);
    bytes.push(b[3]);
    proof {
        assert(bytes@ =~= spec_le4(raw));
    }
    BytesPartValue { part: key.part, bytes }
}

/// Decodes a 32-bit value shown in hexadecimal.
pub fn parse_hex32(key: AttrKey, raw: u32) -> (r: Hex32Value)
    ensures
        r.spec_is_parse_of(key, raw),
{
    Hex32Value { value: raw }
}

/// Decodes the first four bytes of a commit hash.
pub fn parse_partial_commit_hash(key: AttrKey, raw: u32) -> (r: PartialCommitHashValue)
    ensures
        r.spec_is_parse_of(key, raw),
{
    PartialCommitHashValue { raw, bytes: le4(raw) }
}

} // verus!
