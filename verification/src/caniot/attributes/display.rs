use vstd::prelude::*;

use super::base::{AttrId, AttrKey, Section};
use super::parsed::spec_meta_by_key;
use super::table::Attribute;
use super::super::textfmt::{
    push_char, push_decimal, push_padded, push_signed, push_str, spec_decimal, spec_hex,
    spec_date_pattern, spec_signed_decimal, spec_str_debug, spec_utc_date_text, spec_zero_pad, str_debug,
    utc_date_text,
};

verus! {

/// An unsigned value in decimal, then in upper-case hexadecimal on
/// `width` digits: `"{} / 0x{:0width$X}"`.
pub open spec fn spec_unsigned_text(v: nat, width: nat) -> Seq<char> {
    spec_decimal(v) + " / 0x"@ + spec_zero_pad(spec_hex(v, true), width)
}

/// A device identifier byte in hexadecimal, with its class and sub
/// identifier.
pub open spec fn spec_device_id_text(raw: u8, class: u8, sid: u8) -> Seq<char> {
    "0x"@ + spec_zero_pad(spec_hex(raw as nat, true), 2) + " (class "@ + spec_decimal(class as nat)
        + ", sid "@ + spec_decimal(sid as nat) + ")"@
}

/// The protocol version and the application version.
pub open spec fn spec_version_text(caniot: u8, application: u8) -> Seq<char> {
    "CANIOT "@ + spec_decimal(caniot as nat) + ", firmware "@ + spec_decimal(application as nat)
}

/// A text part: its index, then the text quoted as std's `Debug` does.
pub open spec fn spec_text_part_text(part: u8, text: Seq<char>) -> Seq<char> {
    "part "@ + spec_decimal(part as nat) + ": "@ + spec_str_debug(text)
}

/// A date: `not set` for 0, else the UTC date and time, or the seconds
/// when there is no such date.
pub open spec fn spec_timestamp_text(epoch_seconds: u32) -> Seq<char> {
    if epoch_seconds == 0 {
        "not set"@
    } else {
        match spec_utc_date_text(epoch_seconds as i64, spec_date_pattern()) {
            Some(t) => t + " UTC"@,
            None => spec_decimal(epoch_seconds as nat) + " epoch-s"@,
        }
    }
}

/// A duration in days (when there is at least one), hours, minutes and
/// seconds.
pub open spec fn spec_seconds_text(v: u32) -> Seq<char> {
    let days = v / 86_400;
    let hours = (v % 86_400) / 3_600;
    let minutes = (v % 3_600) / 60;
    let seconds = v % 60;
    let hms = spec_decimal(hours as nat) + "h "@ + spec_decimal(minutes as nat) + "m "@
        + spec_decimal(seconds as nat) + "s"@;
    if days > 0 {
        spec_decimal(days as nat) + "d "@ + hms
    } else {
        hms
    }
}

/// A duration in milliseconds.
pub open spec fn spec_milliseconds_text(v: u32) -> Seq<char> {
    spec_decimal(v as nat) + " ms"@
}

/// A flag as `1` or `0`.
pub open spec fn spec_flag_text(b: bool) -> Seq<char> {
    if b {
        seq!['1']
    } else {
        seq!['0']
    }
}

/// The configuration flags, each as `name=value`.
pub open spec fn spec_config_flags_text(
    error_response: bool,
    telemetry_delay_random: bool,
    telemetry_endpoint: u8,
    telemetry_periodic_enabled: bool,
) -> Seq<char> {
    "error_response="@ + spec_flag_text(error_response) + ", telemetry_delay_random="@
        + spec_flag_text(telemetry_delay_random) + ", telemetry_endpoint="@ + spec_decimal(
        telemetry_endpoint as nat,
    ) + ", telemetry_periodic_enabled="@ + spec_flag_text(telemetry_periodic_enabled)
}

/// The absolute value of `v`.
pub open spec fn spec_abs(v: int) -> nat {
    if v < 0 {
        (-v) as nat
    } else {
        v as nat
    }
}

/// A time zone offset as a sign and hours and minutes on two digits each.
pub open spec fn spec_timezone_text(offset_seconds: i32) -> Seq<char> {
    let abs = spec_abs(offset_seconds as int);
    seq![
        if offset_seconds >= 0 {
            '+'
        } else {
            '-'
        },
    ] + spec_zero_pad(spec_decimal(abs / 3_600), 2) + ":"@ + spec_zero_pad(
        spec_decimal((abs % 3_600) / 60),
        2,
    )
}

/// A location as `region/country`.
pub open spec fn spec_location_text(region: Seq<char>, country: Seq<char>) -> Seq<char> {
    region + "/"@ + country
}

/// Bytes in lower-case hexadecimal, two digits each.
pub open spec fn spec_hex_bytes(bytes: Seq<u8>) -> Seq<char>
    decreases bytes.len(),
{
    if bytes.len() == 0 {
        Seq::empty()
    } else {
        spec_hex_bytes(bytes.drop_last()) + spec_zero_pad(spec_hex(bytes.last() as nat, false), 2)
    }
}

/// A binary part: its index, then its bytes in hexadecimal.
pub open spec fn spec_bytes_part_text(part: u8, bytes: Seq<u8>) -> Seq<char> {
    "part "@ + spec_decimal(part as nat) + ": "@ + spec_hex_bytes(bytes)
}

/// A 32-bit value in upper-case hexadecimal on 8 digits.
pub open spec fn spec_hex32_text(v: u32) -> Seq<char> {
    "0x"@ + spec_zero_pad(spec_hex(v as nat, true), 8)
}

/// The first bytes of a commit hash in hexadecimal, then `...`.
pub open spec fn spec_commit_hash_text(bytes: Seq<u8>) -> Seq<char> {
    spec_hex_bytes(bytes) + "..."@
}

/// Formats an unsigned value; see [`spec_unsigned_text`].
pub fn unsigned_text(v: u64, width: usize) -> (r: String)
    ensures
        r@ == spec_unsigned_text(v as nat, width as nat),
{
    let mut s = String::new();
    push_decimal(&mut s, v);
    push_str(&mut s, " / 0x");
    push_padded(&mut s, v, 16, width, true);
    proof {
        assert(s@ =~= spec_unsigned_text(v as nat, width as nat));
    }
    s
}

/// Formats a signed value in decimal.
pub fn signed_text(v: i64) -> (r: String)
    ensures
        r@ == spec_signed_decimal(v as int),
{
    let mut s = String::new();
    push_signed(&mut s, v);
    proof {
        assert(s@ =~= spec_signed_decimal(v as int));
    }
    s
}

/// Formats a device identifier byte; see [`spec_device_id_text`].
pub fn device_id_text(raw: u8, class: u8, sid: u8) -> (r: String)
    ensures
        r@ == spec_device_id_text(raw, class, sid),
{
    let mut s = String::new();
    push_str(&mut s, "0x");
    push_padded(&mut s, raw as u64, 16, 2, true);
    push_str(&mut s, " (class ");
    push_decimal(&mut s, class as u64);
    push_str(&mut s, ", sid ");
    push_decimal(&mut s, sid as u64);
    push_str(&mut s, ")");
    proof {
        assert(s@ =~= spec_device_id_text(raw, class, sid));
    }
    s
}

/// Formats the versions; see [`spec_version_text`].
pub fn version_text(caniot: u8, application: u8) -> (r: String)
    ensures
        r@ == spec_version_text(caniot, application),
{
    let mut s = String::new();
    push_str(&mut s, "CANIOT ");
    push_decimal(&mut s, caniot as u64);
    push_str(&mut s, ", firmware ");
    push_decimal(&mut s, application as u64);
    proof {
        assert(s@ =~= spec_version_text(caniot, application));
    }
    s
}

/// Formats a text part; see [`spec_text_part_text`].
pub fn text_part_text(part: u8, text: &str) -> (r: String)
    ensures
        r@ == spec_text_part_text(part, text@),
{
    let mut s = String::new();
    push_str(&mut s, "part ");
    push_decimal(&mut s, part as u64);
    push_str(&mut s, ": ");
    let quoted = str_debug(text);
    push_str(&mut s, quoted.as_str());
    proof {
        assert(s@ =~= spec_text_part_text(part, text@));
    }
    s
}

/// Formats a date; see [`spec_timestamp_text`].
pub fn timestamp_text(epoch_seconds: u32) -> (r: String)
    ensures
        r@ == spec_timestamp_text(epoch_seconds),
{
    let mut s = String::new();
    if epoch_seconds == 0 {
        push_str(&mut s, "not set");
    } else {
        match utc_date_text(epoch_seconds as i64, "%Y-%m-%d %H:%M:%S") {
            Some(t) => {
                push_str(&mut s, t.as_str());
                push_str(&mut s, " UTC");
            },
            None => {
                push_decimal(&mut s, epoch_seconds as u64);
                push_str(&mut s, " epoch-s");
            },
        }
    }
    proof {
        assert(s@ =~= spec_timestamp_text(epoch_seconds));
    }
    s
}

/// Formats a duration in seconds; see [`spec_seconds_text`].
pub fn seconds_text(v: u32) -> (r: String)
    ensures
        r@ == spec_seconds_text(v),
{
    let days = v / 86_400;
    let hours = (v % 86_400) / 3_600;
    let minutes = (v % 3_600) / 60;
    let seconds = v % 60;
    let mut s = String::new();
    if days > 0 {
        push_decimal(&mut s, days as u64);
        push_str(&mut s, "d ");
    }
    push_decimal(&mut s, hours as u64);
    push_str(&mut s, "h ");
    push_decimal(&mut s, minutes as u64);
    push_str(&mut s, "m ");
    push_decimal(&mut s, seconds as u64);
    push_str(&mut s, "s");
    proof {
        assert(s@ =~= spec_seconds_text(v));
    }
    s
}

/// Formats a duration in milliseconds; see [`spec_milliseconds_text`].
pub fn milliseconds_text(v: u32) -> (r: String)
    ensures
        r@ == spec_milliseconds_text(v),
{
    let mut s = String::new();
    push_decimal(&mut s, v as u64);
    push_str(&mut s, " ms");
    proof {
        assert(s@ =~= spec_milliseconds_text(v));
    }
    s
}

fn push_flag(s: &mut String, b: bool)
    ensures
        final(s)@ == old(s)@ + spec_flag_text(b),
{
    push_char(s, if b { '1' } else { '0' });
    proof {
        assert(s@ =~= old(s)@ + spec_flag_text(b));
    }
}

/// Formats the configuration flags; see [`spec_config_flags_text`].
pub fn config_flags_text(
    error_response: bool,
    telemetry_delay_random: bool,
    telemetry_endpoint: u8,
    telemetry_periodic_enabled: bool,
) -> (r: String)
    ensures
        r@ == spec_config_flags_text(
            error_response,
            telemetry_delay_random,
            telemetry_endpoint,
            telemetry_periodic_enabled,
        ),
{
    let mut s = String::new();
    push_str(&mut s, "error_response=");
    push_flag(&mut s, error_response);
    push_str(&mut s, ", telemetry_delay_random=");
    push_flag(&mut s, telemetry_delay_random);
    push_str(&mut s, ", telemetry_endpoint=");
    push_decimal(&mut s, telemetry_endpoint as u64);
    push_str(&mut s, ", telemetry_periodic_enabled=");
    push_flag(&mut s, telemetry_periodic_enabled);
    proof {
        assert(s@ =~= spec_config_flags_text(
            error_response,
            telemetry_delay_random,
            telemetry_endpoint,
            telemetry_periodic_enabled,
        ));
    }
    s
}

/// Formats a time zone offset; see [`spec_timezone_text`].
pub fn timezone_text(offset_seconds: i32) -> (r: String)
    ensures
        r@ == spec_timezone_text(offset_seconds),
{
    let abs: u32 = if offset_seconds >= 0 {
        offset_seconds as u32
    } else if offset_seconds == i32::MIN {
        0x8000_0000u32
    } else {
        (-offset_seconds) as u32
    };
    let mut s = String::new();
    push_char(&mut s, if offset_seconds >= 0 { '+' } else { '-' });
    push_padded(&mut s, (abs / 3_600) as u64, 10, 2, true);
    push_str(&mut s, ":");
    push_padded(&mut s, ((abs % 3_600) / 60) as u64, 10, 2, true);
    proof {
        assert(abs as nat == spec_abs(offset_seconds as int));
        assert(s@ =~= spec_timezone_text(offset_seconds));
    }
    s
}

/// Formats a location; see [`spec_location_text`].
pub fn location_text(region: &str, country: &str) -> (r: String)
    ensures
        r@ == spec_location_text(region@, country@),
{
    let mut s = String::new();
    push_str(&mut s, region);
    push_str(&mut s, "/");
    push_str(&mut s, country);
    proof {
        assert(s@ =~= spec_location_text(region@, country@));
    }
    s
}

/// Appends bytes in lower-case hexadecimal, two digits each.
fn push_hex_bytes(s: &mut String, bytes: &[u8])
    ensures
        final(s)@ == old(s)@ + spec_hex_bytes(bytes@),
{
    let mut i: usize = 0;
    while i < bytes.len()
        invariant
            i <= bytes@.len(),
            s@ == old(s)@ + spec_hex_bytes(bytes@.subrange(0, i as int)),
        decreases bytes@.len() - i,
    {
        push_padded(s, bytes[i] as u64, 16, 2, false);
        proof {
            assert(bytes@.subrange(0, i + 1).drop_last() =~= bytes@.subrange(0, i as int));
            assert(s@ =~= old(s)@ + spec_hex_bytes(bytes@.subrange(0, i + 1)));
        }
        i = i + 1;
    }
    proof {
        assert(bytes@.subrange(0, bytes@.len() as int) =~= bytes@);
    }
}

/// Formats a binary part; see [`spec_bytes_part_text`].
pub fn bytes_part_text(part: u8, bytes: &[u8]) -> (r: String)
    ensures
        r@ == spec_bytes_part_text(part, bytes@),
{
    let mut s = String::new();
    push_str(&mut s, "part ");
    push_decimal(&mut s, part as u64);
    push_str(&mut s, ": ");
    push_hex_bytes(&mut s, bytes);
    proof {
        assert(s@ =~= spec_bytes_part_text(part, bytes@));
    }
    s
}

/// Formats a 32-bit value in hexadecimal; see [`spec_hex32_text`].
pub fn hex32_text(v: u32) -> (r: String)
    ensures
        r@ == spec_hex32_text(v),
{
    let mut s = String::new();
    push_str(&mut s, "0x");
    push_padded(&mut s, v as u64, 16, 8, true);
    proof {
        assert(s@ =~= spec_hex32_text(v));
    }
    s
}

/// Formats the first bytes of a commit hash; see [`spec_commit_hash_text`].
pub fn commit_hash_text(bytes: &[u8]) -> (r: String)
    ensures
        r@ == spec_commit_hash_text(bytes@),
{
    let mut s = String::new();
    push_hex_bytes(&mut s, bytes);
    push_str(&mut s, "...");
    proof {
        assert(s@ =~= spec_commit_hash_text(bytes@));
    }
    s
}


/// The name of a section.
pub open spec fn spec_section_name(section: Section) -> Seq<char> {
    match section {
        Section::Identification => "Identification"@,
        Section::System => "System"@,
        Section::Config => "Configuration"@,
        Section::Diag => "Diagnostics"@,
        Section::Unknown => "Unknown"@,
    }
}

impl AttrKey {
    /// The key in hexadecimal, then its section, attribute and part.
    pub open spec fn spec_display(self) -> Seq<char> {
        "0x"@ + spec_zero_pad(spec_hex(self.raw as nat, true), 4) + " ("@ + spec_section_name(
            self.section,
        ) + "/"@ + spec_decimal(self.attr as nat) + "/"@ + spec_decimal(self.part as nat) + ")"@
    }

    /// The key in hexadecimal, then its section, attribute and part.
    pub fn to_display_string(self) -> (r: String)
        ensures
            r@ == self.spec_display(),
    {
        let mut s = String::new();
        push_str(&mut s, "0x");
        push_padded(&mut s, self.raw as u64, 16, 4, true);
        push_str(&mut s, " (");
        push_str(&mut s, self.section.name());
        push_str(&mut s, "/");
        push_decimal(&mut s, self.attr as u64);
        push_str(&mut s, "/");
        push_decimal(&mut s, self.part as u64);
        push_str(&mut s, ")");
        proof {
            assert(s@ =~= self.spec_display());
        }
        s
    }
}

impl AttrId {
    /// The name of the attribute and its key in hexadecimal; the key alone
    /// when the table has no such attribute.
    pub open spec fn spec_display(self) -> Seq<char> {
        let hex = "0x"@ + spec_zero_pad(spec_hex(self.spec_key() as nat, true), 4);
        match spec_meta_by_key(self.spec_key()) {
            Some(m) => m.display_name@ + " / "@ + hex,
            None => hex,
        }
    }

    /// The name of the attribute and its key in hexadecimal; the key alone
    /// when the table has no such attribute.
    pub fn to_display_string(self) -> (r: String)
        ensures
            r@ == self.spec_display(),
    {
        let key = self.key();
        let mut s = String::new();
        match self.meta() {
            Some(m) => {
                push_str(&mut s, m.display_name);
                push_str(&mut s, " / ");
            },
            None => {},
        }
        push_str(&mut s, "0x");
        push_padded(&mut s, key as u64, 16, 4, true);
        proof {
            assert(s@ =~= self.spec_display());
        }
        s
    }
}

/// The access of an attribute: `rw`, `ro`, `wo` or `--`.
pub open spec fn spec_access_text(read: bool, write: bool) -> Seq<char> {
    if read && write {
        "rw"@
    } else if read {
        "ro"@
    } else if write {
        "wo"@
    } else {
        "--"@
    }
}

impl Attribute {
    /// The name of the attribute, its access and its value.
    pub open spec fn spec_display(&self) -> Seq<char> {
        self.meta.display_name@ + " ["@ + spec_access_text(self.meta.read, self.meta.write)
            + "] = "@ + self.value.spec_display()
    }

    /// The name of the attribute, its access and its value.
    pub fn to_display_string(&self) -> (r: String)
        ensures
            r@ == self.spec_display(),
    {
        let access = if self.meta.read && self.meta.write {
            "rw"
        } else if self.meta.read {
            "ro"
        } else if self.meta.write {
            "wo"
        } else {
            "--"
        };
        let mut s = String::new();
        push_str(&mut s, self.meta.display_name);
        push_str(&mut s, " [");
        push_str(&mut s, access);
        push_str(&mut s, "] = ");
        let v = self.value.to_display_string();
        push_str(&mut s, v.as_str());
        proof {
            assert(s@ =~= self.spec_display());
        }
        s
    }
}

} // verus!
