use vstd::prelude::*;

use super::values::ParsedValue;

verus! {

/// Section of an attribute key (bits 12..16).
#[derive(Debug, Clone, Copy, PartialEq, Eq, Structural)]
pub enum Section {
    Identification,
    System,
    Config,
    Diag,
    Unknown,
}

impl Section {
    /// The section numbered `v`; numbers above 3 give `Unknown`.
    pub open spec fn spec_from_u8(v: u8) -> Section {
        if v == 0 {
            Section::Identification
        } else if v == 1 {
            Section::System
        } else if v == 2 {
            Section::Config
        } else if v == 3 {
            Section::Diag
        } else {
            Section::Unknown
        }
    }

    /// The number of the section; 0xff for `Unknown`.
    pub open spec fn spec_to_u8(self) -> u8 {
        match self {
            Section::Identification => 0,
            Section::System => 1,
            Section::Config => 2,
            Section::Diag => 3,
            Section::Unknown => 0xff,
        }
    }

    /// The section numbered `v`; numbers above 3 give `Unknown`.
    pub fn from_u8(v: u8) -> (r: Section)
        ensures
            r == Section::spec_from_u8(v),
    {
        match v {
            0 => Section::Identification,
            1 => Section::System,
            2 => Section::Config,
            3 => Section::Diag,
            _ => Section::Unknown,
        }
    }

    /// The number of the section; 0xff for `Unknown`.
    pub fn to_u8(self) -> (r: u8)
        ensures
            r == self.spec_to_u8(),
    {
        match self {
            Section::Identification => 0,
            Section::System => 1,
            Section::Config => 2,
            Section::Diag => 3,
            Section::Unknown => 0xff,
        }
    }

    /// The name of the section.
    pub fn name(&self) -> (r: &'static str)
        ensures
            *self == Section::Identification ==> r@ == "Identification"@,
            *self == Section::System ==> r@ == "System"@,
            *self == Section::Config ==> r@ == "Configuration"@,
            *self == Section::Diag ==> r@ == "Diagnostics"@,
            *self == Section::Unknown ==> r@ == "Unknown"@,
    {
        match self {
            Section::Identification => "Identification",
            Section::System => "System",
            Section::Config => "Configuration",
            Section::Diag => "Diagnostics",
            Section::Unknown => "Unknown",
        }
    }
}

/// An attribute key: the raw 16-bit key, its section (bits 12..16), its
/// attribute number (bits 4..12) and its part (bits 0..4).
#[derive(Debug, Clone, Copy, PartialEq, Eq, Structural)]
pub struct AttrKey {
    pub raw: u16,
    pub section: Section,
    pub attr: u8,
    pub part: u8,
}

impl AttrKey {
    /// The decomposition of the raw key `raw`.
    pub open spec fn spec_new(raw: u16) -> AttrKey {
        AttrKey {
            raw,
            section: Section::spec_from_u8(((raw >> 12u16) & 0x0f) as u8),
            attr: ((raw >> 4u16) & 0xff) as u8,
            part: (raw & 0x0f) as u8,
        }
    }

    /// Decomposes a raw key.
    pub fn new(raw: u16) -> (r: AttrKey)
        ensures
            r == AttrKey::spec_new(raw),
    {
        AttrKey {
            raw,
            section: Section::from_u8(((raw >> 12) & 0x0f) as u8),
            attr: ((raw >> 4) & 0xff) as u8,
            part: (raw & 0x0f) as u8,
        }
    }

    /// The key of part 0 of the same attribute.
    pub fn root(self) -> (r: u16)
        ensures
            r == self.raw & 0xfff0,
    {
        self.raw & 0xfff0
    }
}

/// The attributes of a CANIOT device.
#[derive(Debug, Clone, Copy, PartialEq, Eq, Structural)]
pub enum AttrId {
    IdNodeId,
    IdVersion,
    IdName,
    IdMagicNumber,
    IdBuildDate,
    IdBuildCommit,
    IdFeatures,
    SystemUptimeSynced,
    SystemTime,
    SystemUptime,
    SystemStartTime,
    SystemLastTelemetry,
    SystemReceivedTotal,
    SystemReceivedReadAttribute,
    SystemReceivedWriteAttribute,
    SystemReceivedCommand,
    SystemReceivedRequestTelemetry,
    SystemReceivedIgnored,
    SystemLastTelemetryMsMod,
    SystemSentTotal,
    SystemSentTelemetry,
    SystemUnused4,
    SystemLastCommandError,
    SystemLastTelemetryError,
    SystemUnused5,
    SystemBattery,
    ConfigTelemetryPeriod,
    ConfigTelemetryDelay,
    ConfigTelemetryDelayMin,
    ConfigTelemetryDelayMax,
    ConfigFlags,
    ConfigTimezone,
    ConfigLocation,
    ConfigCls0GpioPulseDurationOc1,
    ConfigCls0GpioPulseDurationOc2,
    ConfigCls0GpioPulseDurationRl1,
    ConfigCls0GpioPulseDurationRl2,
    ConfigCls0GpioOutputsDefault,
    ConfigCls0GpioTelemetryOnChange,
    ConfigCls1GpioPulseDurationPc0,
    ConfigCls1GpioPulseDurationPc1,
    ConfigCls1GpioPulseDurationPc2,
    ConfigCls1GpioPulseDurationPc3,
    ConfigCls1GpioPulseDurationPd0,
    ConfigCls1GpioPulseDurationPd1,
    ConfigCls1GpioPulseDurationPd2,
    ConfigCls1GpioPulseDurationPd3,
    ConfigCls1GpioPulseDurationPei0,
    ConfigCls1GpioPulseDurationPei1,
    ConfigCls1GpioPulseDurationPei2,
    ConfigCls1GpioPulseDurationPei3,
    ConfigCls1GpioPulseDurationPei4,
    ConfigCls1GpioPulseDurationPei5,
    ConfigCls1GpioPulseDurationPei6,
    ConfigCls1GpioPulseDurationPei7,
    ConfigCls1GpioPulseDurationPb0,
    ConfigCls1GpioPulseDurationPe0,
    ConfigCls1GpioPulseDurationPe1,
    ConfigCls1GpioPulseDurationReserved,
    ConfigCls1GpioDirections,
    ConfigCls1GpioOutputsDefault,
    ConfigCls1GpioTelemetryOnChange,
    DiagResetCount,
    DiagLastResetReason,
    DiagResetCountUnknown,
    DiagResetCountPowerOn,
    DiagResetCountWatchdog,
    DiagResetCountExternal,
    DiagLastRuntimeUptime,
    DiagLastRuntimeUptimeTotal,
    DiagLastResetStreakCount,
    DiagResetCountBrownOut,
    DiagBootSignal,
}

impl AttrId {
    /// The key of part 0 of the attribute.
    pub open spec fn spec_key(self) -> u16 {
        match self {
            AttrId::IdNodeId => 0x0000,
            AttrId::IdVersion => 0x0010,
            AttrId::IdName => 0x0020,
            AttrId::IdMagicNumber => 0x0030,
            AttrId::IdBuildDate => 0x0040,
            AttrId::IdBuildCommit => 0x0050,
            AttrId::IdFeatures => 0x0060,
            AttrId::SystemUptimeSynced => 0x1000,
            AttrId::SystemTime => 0x1010,
            AttrId::SystemUptime => 0x1020,
            AttrId::SystemStartTime => 0x1030,
            AttrId::SystemLastTelemetry => 0x1040,
            AttrId::SystemReceivedTotal => 0x1050,
            AttrId::SystemReceivedReadAttribute => 0x1060,
            AttrId::SystemReceivedWriteAttribute => 0x1070,
            AttrId::SystemReceivedCommand => 0x1080,
            AttrId::SystemReceivedRequestTelemetry => 0x1090,
            AttrId::SystemReceivedIgnored => 0x10a0,
            AttrId::SystemLastTelemetryMsMod => 0x10b0,
            AttrId::SystemSentTotal => 0x10c0,
            AttrId::SystemSentTelemetry => 0x10d0,
            AttrId::SystemUnused4 => 0x10e0,
            AttrId::SystemLastCommandError => 0x10f0,
            AttrId::SystemLastTelemetryError => 0x1100,
            AttrId::SystemUnused5 => 0x1110,
            AttrId::SystemBattery => 0x1120,
            AttrId::ConfigTelemetryPeriod => 0x2000,
            AttrId::ConfigTelemetryDelay => 0x2010,
            AttrId::ConfigTelemetryDelayMin => 0x2020,
            AttrId::ConfigTelemetryDelayMax => 0x2030,
            AttrId::ConfigFlags => 0x2040,
            AttrId::ConfigTimezone => 0x2050,
            AttrId::ConfigLocation => 0x2060,
            AttrId::ConfigCls0GpioPulseDurationOc1 => 0x2070,
            AttrId::ConfigCls0GpioPulseDurationOc2 => 0x2080,
            AttrId::ConfigCls0GpioPulseDurationRl1 => 0x2090,
            AttrId::ConfigCls0GpioPulseDurationRl2 => 0x20a0,
            AttrId::ConfigCls0GpioOutputsDefault => 0x20b0,
            AttrId::ConfigCls0GpioTelemetryOnChange => 0x20c0,
            AttrId::ConfigCls1GpioPulseDurationPc0 => 0x20d0,
            AttrId::ConfigCls1GpioPulseDurationPc1 => 0x20e0,
            AttrId::ConfigCls1GpioPulseDurationPc2 => 0x20f0,
            AttrId::ConfigCls1GpioPulseDurationPc3 => 0x2100,
            AttrId::ConfigCls1GpioPulseDurationPd0 => 0x2110,
            AttrId::ConfigCls1GpioPulseDurationPd1 => 0x2120,
            AttrId::ConfigCls1GpioPulseDurationPd2 => 0x2130,
            AttrId::ConfigCls1GpioPulseDurationPd3 => 0x2140,
            AttrId::ConfigCls1GpioPulseDurationPei0 => 0x2150,
            AttrId::ConfigCls1GpioPulseDurationPei1 => 0x2160,
            AttrId::ConfigCls1GpioPulseDurationPei2 => 0x2170,
            AttrId::ConfigCls1GpioPulseDurationPei3 => 0x2180,
            AttrId::ConfigCls1GpioPulseDurationPei4 => 0x2190,
            AttrId::ConfigCls1GpioPulseDurationPei5 => 0x21a0,
            AttrId::ConfigCls1GpioPulseDurationPei6 => 0x21b0,
            AttrId::ConfigCls1GpioPulseDurationPei7 => 0x21c0,
            AttrId::ConfigCls1GpioPulseDurationPb0 => 0x21d0,
            AttrId::ConfigCls1GpioPulseDurationPe0 => 0x21e0,
            AttrId::ConfigCls1GpioPulseDurationPe1 => 0x21f0,
            AttrId::ConfigCls1GpioPulseDurationReserved => 0x2200,
            AttrId::ConfigCls1GpioDirections => 0x2210,
            AttrId::ConfigCls1GpioOutputsDefault => 0x2220,
            AttrId::ConfigCls1GpioTelemetryOnChange => 0x2230,
            AttrId::DiagResetCount => 0x3000,
            AttrId::DiagLastResetReason => 0x3010,
            AttrId::DiagResetCountUnknown => 0x3020,
            AttrId::DiagResetCountPowerOn => 0x3030,
            AttrId::DiagResetCountWatchdog => 0x3040,
            AttrId::DiagResetCountExternal => 0x3050,
            AttrId::DiagLastRuntimeUptime => 0x3060,
            AttrId::DiagLastRuntimeUptimeTotal => 0x3070,
            AttrId::DiagLastResetStreakCount => 0x3080,
            AttrId::DiagResetCountBrownOut => 0x3090,
            AttrId::DiagBootSignal => 0x3100,
        }
    }

    /// The key of part 0 of the attribute.
    pub fn key(self) -> (r: u16)
        ensures
            r == self.spec_key(),
    {
        match self {
            AttrId::IdNodeId => 0x0000,
            AttrId::IdVersion => 0x0010,
            AttrId::IdName => 0x0020,
            AttrId::IdMagicNumber => 0x0030,
            AttrId::IdBuildDate => 0x0040,
            AttrId::IdBuildCommit => 0x0050,
            AttrId::IdFeatures => 0x0060,
            AttrId::SystemUptimeSynced => 0x1000,
            AttrId::SystemTime => 0x1010,
            AttrId::SystemUptime => 0x1020,
            AttrId::SystemStartTime => 0x1030,
            AttrId::SystemLastTelemetry => 0x1040,
            AttrId::SystemReceivedTotal => 0x1050,
            AttrId::SystemReceivedReadAttribute => 0x1060,
            AttrId::SystemReceivedWriteAttribute => 0x1070,
            AttrId::SystemReceivedCommand => 0x1080,
            AttrId::SystemReceivedRequestTelemetry => 0x1090,
            AttrId::SystemReceivedIgnored => 0x10a0,
            AttrId::SystemLastTelemetryMsMod => 0x10b0,
            AttrId::SystemSentTotal => 0x10c0,
            AttrId::SystemSentTelemetry => 0x10d0,
            AttrId::SystemUnused4 => 0x10e0,
            AttrId::SystemLastCommandError => 0x10f0,
            AttrId::SystemLastTelemetryError => 0x1100,
            AttrId::SystemUnused5 => 0x1110,
            AttrId::SystemBattery => 0x1120,
            AttrId::ConfigTelemetryPeriod => 0x2000,
            AttrId::ConfigTelemetryDelay => 0x2010,
            AttrId::ConfigTelemetryDelayMin => 0x2020,
            AttrId::ConfigTelemetryDelayMax => 0x2030,
            AttrId::ConfigFlags => 0x2040,
            AttrId::ConfigTimezone => 0x2050,
            AttrId::ConfigLocation => 0x2060,
            AttrId::ConfigCls0GpioPulseDurationOc1 => 0x2070,
            AttrId::ConfigCls0GpioPulseDurationOc2 => 0x2080,
            AttrId::ConfigCls0GpioPulseDurationRl1 => 0x2090,
            AttrId::ConfigCls0GpioPulseDurationRl2 => 0x20a0,
            AttrId::ConfigCls0GpioOutputsDefault => 0x20b0,
            AttrId::ConfigCls0GpioTelemetryOnChange => 0x20c0,
            AttrId::ConfigCls1GpioPulseDurationPc0 => 0x20d0,
            AttrId::ConfigCls1GpioPulseDurationPc1 => 0x20e0,
            AttrId::ConfigCls1GpioPulseDurationPc2 => 0x20f0,
            AttrId::ConfigCls1GpioPulseDurationPc3 => 0x2100,
            AttrId::ConfigCls1GpioPulseDurationPd0 => 0x2110,
            AttrId::ConfigCls1GpioPulseDurationPd1 => 0x2120,
            AttrId::ConfigCls1GpioPulseDurationPd2 => 0x2130,
            AttrId::ConfigCls1GpioPulseDurationPd3 => 0x2140,
            AttrId::ConfigCls1GpioPulseDurationPei0 => 0x2150,
            AttrId::ConfigCls1GpioPulseDurationPei1 => 0x2160,
            AttrId::ConfigCls1GpioPulseDurationPei2 => 0x2170,
            AttrId::ConfigCls1GpioPulseDurationPei3 => 0x2180,
            AttrId::ConfigCls1GpioPulseDurationPei4 => 0x2190,
            AttrId::ConfigCls1GpioPulseDurationPei5 => 0x21a0,
            AttrId::ConfigCls1GpioPulseDurationPei6 => 0x21b0,
            AttrId::ConfigCls1GpioPulseDurationPei7 => 0x21c0,
            AttrId::ConfigCls1GpioPulseDurationPb0 => 0x21d0,
            AttrId::ConfigCls1GpioPulseDurationPe0 => 0x21e0,
            AttrId::ConfigCls1GpioPulseDurationPe1 => 0x21f0,
            AttrId::ConfigCls1GpioPulseDurationReserved => 0x2200,
            AttrId::ConfigCls1GpioDirections => 0x2210,
            AttrId::ConfigCls1GpioOutputsDefault => 0x2220,
            AttrId::ConfigCls1GpioTelemetryOnChange => 0x2230,
            AttrId::DiagResetCount => 0x3000,
            AttrId::DiagLastResetReason => 0x3010,
            AttrId::DiagResetCountUnknown => 0x3020,
            AttrId::DiagResetCountPowerOn => 0x3030,
            AttrId::DiagResetCountWatchdog => 0x3040,
            AttrId::DiagResetCountExternal => 0x3050,
            AttrId::DiagLastRuntimeUptime => 0x3060,
            AttrId::DiagLastRuntimeUptimeTotal => 0x3070,
            AttrId::DiagLastResetStreakCount => 0x3080,
            AttrId::DiagResetCountBrownOut => 0x3090,
            AttrId::DiagBootSignal => 0x3100,
        }
    }

    /// The decomposition of the key of the attribute.
    pub fn attr_key(self) -> (r: AttrKey)
        ensures
            r == AttrKey::spec_new(self.spec_key()),
    {
        AttrKey::new(self.key())
    }
}

/// How the raw content of an attribute is decoded.
#[derive(Debug, Clone, Copy, PartialEq, Eq, Structural)]
pub enum AttrKind {
    U8,
    U16,
    I16,
    U32,
    I32,
    DeviceId,
    Version,
    Text,
    Timestamp,
    Seconds,
    Milliseconds,
    ConfigFlags,
    Timezone,
    Location,
    ResetReason,
    Bytes,
    Hex32,
    PartialCommitHash,
}

/// Description of an attribute: identity, name, size in bytes, access,
/// persistence, section and kind of value.
#[derive(Debug, Clone, Copy)]
pub struct AttrMeta {
    pub id: AttrId,
    pub display_name: &'static str,
    pub size: u8,
    pub read: bool,
    pub write: bool,
    pub persistent: bool,
    pub section: Section,
    pub kind: AttrKind,
}

impl AttrMeta {
    /// The number of 4-byte parts of the attribute.
    pub open spec fn spec_parts(self) -> int {
        (self.size + 3) / 4
    }

    /// Whether `key` is the key of one of the parts of the attribute.
    pub open spec fn spec_contains_key(self, key: AttrKey) -> bool {
        let my = AttrKey::spec_new(self.id.spec_key());
        my.section.spec_to_u8() == key.section.spec_to_u8() && my.attr == key.attr && key.part
            < self.spec_parts()
    }

    /// The key of part 0 of the attribute.
    pub fn key(self) -> (r: u16)
        ensures
            r == self.id.spec_key(),
    {
        self.id.key()
    }

    /// The number of 4-byte parts of the attribute.
    pub fn parts(self) -> (r: u8)
        requires
            self.size + 3 <= 255,
        ensures
            r == self.spec_parts(),
    {
        (self.size + 3) / 4
    }

    /// Whether `key` is the key of one of the parts of the attribute.
    pub fn contains_key(self, key: AttrKey) -> (r: bool)
        requires
            self.size + 3 <= 255,
        ensures
            r == self.spec_contains_key(key),
    {
        let my = self.id.attr_key();
        my.section.to_u8() == key.section.to_u8() && my.attr == key.attr && key.part < self.parts()
    }

    /// The key of part `part` of the attribute; `None` past the last part.
    pub fn part_key(self, part: u8) -> (r: Option<u16>)
        requires
            self.size + 3 <= 255,
        ensures
            part < self.spec_parts() ==> r == Some((self.id.spec_key() + part) as u16),
            part >= self.spec_parts() ==> r is None,
    {
        if part < self.parts() {
            Some(self.key() + part as u16)
        } else {
            None
        }
    }
}

/// An attribute of the table: its description, and how its raw content is decoded.
pub trait Attribute {
    /// The decoded value.
    type Value: ParsedValue;

    /// The description of the attribute.
    spec fn spec_meta() -> AttrMeta;

    /// The description of the attribute.
    fn meta() -> (r: AttrMeta)
        ensures
            r == Self::spec_meta(),
    ;

    /// Decodes the raw content `raw` of the part `key` of the attribute.
    fn parse_value(key: AttrKey, raw: u32) -> (r: Self::Value)
        ensures
            r.spec_is_parse_of(key, raw),
    ;
}

} // verus!
