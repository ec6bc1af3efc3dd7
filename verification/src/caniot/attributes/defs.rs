use vstd::prelude::*;

use super::base::{AttrId, AttrKey, AttrKind, AttrMeta, Attribute, Section};
use super::values::{
    BytesPartValue, ConfigFlagsValue, DeviceIdValue, Hex32Value, I16Value, LocationValue, MillisecondsValue, PartialCommitHashValue, ResetReasonValue, SecondsValue, TextPartValue, TimestampValue, TimezoneValue, U16Value, U32Value, U8Value, VersionValue, parse_bytes_part, parse_config_flags, parse_device_id, parse_hex32, parse_i16, parse_location, parse_milliseconds, parse_partial_commit_hash, parse_reset_reason, parse_seconds, parse_text, parse_timestamp, parse_timezone, parse_u16, parse_u32, parse_u8, parse_version,
};

verus! {

/// The attribute "Device ID".
#[derive(Debug, Clone, Copy, PartialEq, Eq, Structural)]
pub struct IdNodeIdAttr;

impl Attribute for IdNodeIdAttr {
    type Value = DeviceIdValue;

    open spec fn spec_meta() -> AttrMeta {
        AttrMeta {
            id: AttrId::IdNodeId,
            display_name: "Device ID",
            size: 1,
            read: true,
            write: false,
            persistent: false,
            section: Section::Identification,
            kind: AttrKind::DeviceId,
        }
    }

    fn meta() -> (r: AttrMeta) {
        AttrMeta {
            id: AttrId::IdNodeId,
            display_name: "Device ID",
            size: 1,
            read: true,
            write: false,
            persistent: false,
            section: Section::Identification,
            kind: AttrKind::DeviceId,
        }
    }

    fn parse_value(key: AttrKey, raw: u32) -> (r: Self::Value) {
        parse_device_id(key, raw)
    }
}

/// The attribute "Firmware version".
#[derive(Debug, Clone, Copy, PartialEq, Eq, Structural)]
pub struct IdVersionAttr;

impl Attribute for IdVersionAttr {
    type Value = VersionValue;

    open spec fn spec_meta() -> AttrMeta {
        AttrMeta {
            id: AttrId::IdVersion,
            display_name: "Firmware version",
            size: 2,
            read: true,
            write: false,
            persistent: false,
            section: Section::Identification,
            kind: AttrKind::Version,
        }
    }

    fn meta() -> (r: AttrMeta) {
        AttrMeta {
            id: AttrId::IdVersion,
            display_name: "Firmware version",
            size: 2,
            read: true,
            write: false,
            persistent: false,
            section: Section::Identification,
            kind: AttrKind::Version,
        }
    }

    fn parse_value(key: AttrKey, raw: u32) -> (r: Self::Value) {
        parse_version(key, raw)
    }
}

/// The attribute "Device name".
#[derive(Debug, Clone, Copy, PartialEq, Eq, Structural)]
pub struct IdNameAttr;

impl Attribute for IdNameAttr {
    type Value = TextPartValue;

    open spec fn spec_meta() -> AttrMeta {
        AttrMeta {
            id: AttrId::IdName,
            display_name: "Device name",
            size: 32,
            read: true,
            write: false,
            persistent: false,
            section: Section::Identification,
            kind: AttrKind::Text,
        }
    }

    fn meta() -> (r: AttrMeta) {
        AttrMeta {
            id: AttrId::IdName,
            display_name: "Device name",
            size: 32,
            read: true,
            write: false,
            persistent: false,
            section: Section::Identification,
            kind: AttrKind::Text,
        }
    }

    fn parse_value(key: AttrKey, raw: u32) -> (r: Self::Value) {
        parse_text(key, raw)
    }
}

/// The attribute "Device magic number".
#[derive(Debug, Clone, Copy, PartialEq, Eq, Structural)]
pub struct IdMagicNumberAttr;

impl Attribute for IdMagicNumberAttr {
    type Value = Hex32Value;

    open spec fn spec_meta() -> AttrMeta {
        AttrMeta {
            id: AttrId::IdMagicNumber,
            display_name: "Device magic number",
            size: 4,
            read: true,
            write: false,
            persistent: false,
            section: Section::Identification,
            kind: AttrKind::Hex32,
        }
    }

    fn meta() -> (r: AttrMeta) {
        AttrMeta {
            id: AttrId::IdMagicNumber,
            display_name: "Device magic number",
            size: 4,
            read: true,
            write: false,
            persistent: false,
            section: Section::Identification,
            kind: AttrKind::Hex32,
        }
    }

    fn parse_value(key: AttrKey, raw: u32) -> (r: Self::Value) {
        parse_hex32(key, raw)
    }
}

/// The attribute "Firmware build date".
#[derive(Debug, Clone, Copy, PartialEq, Eq, Structural)]
pub struct IdBuildDateAttr;

impl Attribute for IdBuildDateAttr {
    type Value = TimestampValue;

    open spec fn spec_meta() -> AttrMeta {
        AttrMeta {
            id: AttrId::IdBuildDate,
            display_name: "Firmware build date",
            size: 4,
            read: true,
            write: false,
            persistent: false,
            section: Section::Identification,
            kind: AttrKind::Timestamp,
        }
    }

    fn meta() -> (r: AttrMeta) {
        AttrMeta {
            id: AttrId::IdBuildDate,
            display_name: "Firmware build date",
            size: 4,
            read: true,
            write: false,
            persistent: false,
            section: Section::Identification,
            kind: AttrKind::Timestamp,
        }
    }

    fn parse_value(key: AttrKey, raw: u32) -> (r: Self::Value) {
        parse_timestamp(key, raw)
    }
}

/// The attribute "Firmware build commit".
#[derive(Debug, Clone, Copy, PartialEq, Eq, Structural)]
pub struct IdBuildCommitAttr;

impl Attribute for IdBuildCommitAttr {
    type Value = BytesPartValue;

    open spec fn spec_meta() -> AttrMeta {
        AttrMeta {
            id: AttrId::IdBuildCommit,
            display_name: "Firmware build commit",
            size: 20,
            read: true,
            write: false,
            persistent: false,
            section: Section::Identification,
            kind: AttrKind::Bytes,
        }
    }

    fn meta() -> (r: AttrMeta) {
        AttrMeta {
            id: AttrId::IdBuildCommit,
            display_name: "Firmware build commit",
            size: 20,
            read: true,
            write: false,
            persistent: false,
            section: Section::Identification,
            kind: AttrKind::Bytes,
        }
    }

    fn parse_value(key: AttrKey, raw: u32) -> (r: Self::Value) {
        parse_bytes_part(key, raw)
    }
}

/// The attribute "Firmware features".
#[derive(Debug, Clone, Copy, PartialEq, Eq, Structural)]
pub struct IdFeaturesAttr;

impl Attribute for IdFeaturesAttr {
    type Value = BytesPartValue;

    open spec fn spec_meta() -> AttrMeta {
        AttrMeta {
            id: AttrId::IdFeatures,
            display_name: "Firmware features",
            size: 16,
            read: true,
            write: false,
            persistent: false,
            section: Section::Identification,
            kind: AttrKind::Bytes,
        }
    }

    fn meta() -> (r: AttrMeta) {
        AttrMeta {
            id: AttrId::IdFeatures,
            display_name: "Firmware features",
            size: 16,
            read: true,
            write: false,
            persistent: false,
            section: Section::Identification,
            kind: AttrKind::Bytes,
        }
    }

    fn parse_value(key: AttrKey, raw: u32) -> (r: Self::Value) {
        parse_bytes_part(key, raw)
    }
}

/// The attribute "Last time synchronization uptime".
#[derive(Debug, Clone, Copy, PartialEq, Eq, Structural)]
pub struct SystemUptimeSyncedAttr;

impl Attribute for SystemUptimeSyncedAttr {
    type Value = SecondsValue;

    open spec fn spec_meta() -> AttrMeta {
        AttrMeta {
            id: AttrId::SystemUptimeSynced,
            display_name: "Last time synchronization uptime",
            size: 4,
            read: true,
            write: false,
            persistent: false,
            section: Section::System,
            kind: AttrKind::Seconds,
        }
    }

    fn meta() -> (r: AttrMeta) {
        AttrMeta {
            id: AttrId::SystemUptimeSynced,
            display_name: "Last time synchronization uptime",
            size: 4,
            read: true,
            write: false,
            persistent: false,
            section: Section::System,
            kind: AttrKind::Seconds,
        }
    }

    fn parse_value(key: AttrKey, raw: u32) -> (r: Self::Value) {
        parse_seconds(key, raw)
    }
}

/// The attribute "Current time".
#[derive(Debug, Clone, Copy, PartialEq, Eq, Structural)]
pub struct SystemTimeAttr;

impl Attribute for SystemTimeAttr {
    type Value = TimestampValue;

    open spec fn spec_meta() -> AttrMeta {
        AttrMeta {
            id: AttrId::SystemTime,
            display_name: "Current time",
            size: 4,
            read: true,
            write: true,
            persistent: false,
            section: Section::System,
            kind: AttrKind::Timestamp,
        }
    }

    fn meta() -> (r: AttrMeta) {
        AttrMeta {
            id: AttrId::SystemTime,
            display_name: "Current time",
            size: 4,
            read: true,
            write: true,
            persistent: false,
            section: Section::System,
            kind: AttrKind::Timestamp,
        }
    }

    fn parse_value(key: AttrKey, raw: u32) -> (r: Self::Value) {
        parse_timestamp(key, raw)
    }
}

/// The attribute "System uptime".
#[derive(Debug, Clone, Copy, PartialEq, Eq, Structural)]
pub struct SystemUptimeAttr;

impl Attribute for SystemUptimeAttr {
    type Value = SecondsValue;

    open spec fn spec_meta() -> AttrMeta {
        AttrMeta {
            id: AttrId::SystemUptime,
            display_name: "System uptime",
            size: 4,
            read: true,
            write: false,
            persistent: false,
            section: Section::System,
            kind: AttrKind::Seconds,
        }
    }

    fn meta() -> (r: AttrMeta) {
        AttrMeta {
            id: AttrId::SystemUptime,
            display_name: "System uptime",
            size: 4,
            read: true,
            write: false,
            persistent: false,
            section: Section::System,
            kind: AttrKind::Seconds,
        }
    }

    fn parse_value(key: AttrKey, raw: u32) -> (r: Self::Value) {
        parse_seconds(key, raw)
    }
}

/// The attribute "System start time".
#[derive(Debug, Clone, Copy, PartialEq, Eq, Structural)]
pub struct SystemStartTimeAttr;

impl Attribute for SystemStartTimeAttr {
    type Value = TimestampValue;

    open spec fn spec_meta() -> AttrMeta {
        AttrMeta {
            id: AttrId::SystemStartTime,
            display_name: "System start time",
            size: 4,
            read: true,
            write: false,
            persistent: false,
            section: Section::System,
            kind: AttrKind::Timestamp,
        }
    }

    fn meta() -> (r: AttrMeta) {
        AttrMeta {
            id: AttrId::SystemStartTime,
            display_name: "System start time",
            size: 4,
            read: true,
            write: false,
            persistent: false,
            section: Section::System,
            kind: AttrKind::Timestamp,
        }
    }

    fn parse_value(key: AttrKey, raw: u32) -> (r: Self::Value) {
        parse_timestamp(key, raw)
    }
}

/// The attribute "Last telemetry time".
#[derive(Debug, Clone, Copy, PartialEq, Eq, Structural)]
pub struct SystemLastTelemetryAttr;

impl Attribute for SystemLastTelemetryAttr {
    type Value = TimestampValue;

    open spec fn spec_meta() -> AttrMeta {
        AttrMeta {
            id: AttrId::SystemLastTelemetry,
            display_name: "Last telemetry time",
            size: 4,
            read: true,
            write: false,
            persistent: false,
            section: Section::System,
            kind: AttrKind::Timestamp,
        }
    }

    fn meta() -> (r: AttrMeta) {
        AttrMeta {
            id: AttrId::SystemLastTelemetry,
            display_name: "Last telemetry time",
            size: 4,
            read: true,
            write: false,
            persistent: false,
            section: Section::System,
            kind: AttrKind::Timestamp,
        }
    }

    fn parse_value(key: AttrKey, raw: u32) -> (r: Self::Value) {
        parse_timestamp(key, raw)
    }
}

/// The attribute "Received frames".
#[derive(Debug, Clone, Copy, PartialEq, Eq, Structural)]
pub struct SystemReceivedTotalAttr;

impl Attribute for SystemReceivedTotalAttr {
    type Value = U32Value;

    open spec fn spec_meta() -> AttrMeta {
        AttrMeta {
            id: AttrId::SystemReceivedTotal,
            display_name: "Received frames",
            size: 4,
            read: true,
            write: false,
            persistent: false,
            section: Section::System,
            kind: AttrKind::U32,
        }
    }

    fn meta() -> (r: AttrMeta) {
        AttrMeta {
            id: AttrId::SystemReceivedTotal,
            display_name: "Received frames",
            size: 4,
            read: true,
            write: false,
            persistent: false,
            section: Section::System,
            kind: AttrKind::U32,
        }
    }

    fn parse_value(key: AttrKey, raw: u32) -> (r: Self::Value) {
        parse_u32(key, raw)
    }
}

/// The attribute "Received read-attribute requests".
#[derive(Debug, Clone, Copy, PartialEq, Eq, Structural)]
pub struct SystemReceivedReadAttributeAttr;

impl Attribute for SystemReceivedReadAttributeAttr {
    type Value = U32Value;

    open spec fn spec_meta() -> AttrMeta {
        AttrMeta {
            id: AttrId::SystemReceivedReadAttribute,
            display_name: "Received read-attribute requests",
            size: 4,
            read: true,
            write: false,
            persistent: false,
            section: Section::System,
            kind: AttrKind::U32,
        }
    }

    fn meta() -> (r: AttrMeta) {
        AttrMeta {
            id: AttrId::SystemReceivedReadAttribute,
            display_name: "Received read-attribute requests",
            size: 4,
            read: true,
            write: false,
            persistent: false,
            section: Section::System,
            kind: AttrKind::U32,
        }
    }

    fn parse_value(key: AttrKey, raw: u32) -> (r: Self::Value) {
        parse_u32(key, raw)
    }
}

/// The attribute "Received write-attribute requests".
#[derive(Debug, Clone, Copy, PartialEq, Eq, Structural)]
pub struct SystemReceivedWriteAttributeAttr;

impl Attribute for SystemReceivedWriteAttributeAttr {
    type Value = U32Value;

    open spec fn spec_meta() -> AttrMeta {
        AttrMeta {
            id: AttrId::SystemReceivedWriteAttribute,
            display_name: "Received write-attribute requests",
            size: 4,
            read: true,
            write: false,
            persistent: false,
            section: Section::System,
            kind: AttrKind::U32,
        }
    }

    fn meta() -> (r: AttrMeta) {
        AttrMeta {
            id: AttrId::SystemReceivedWriteAttribute,
            display_name: "Received write-attribute requests",
            size: 4,
            read: true,
            write: false,
            persistent: false,
            section: Section::System,
            kind: AttrKind::U32,
        }
    }

    fn parse_value(key: AttrKey, raw: u32) -> (r: Self::Value) {
        parse_u32(key, raw)
    }
}

/// The attribute "Received commands".
#[derive(Debug, Clone, Copy, PartialEq, Eq, Structural)]
pub struct SystemReceivedCommandAttr;

impl Attribute for SystemReceivedCommandAttr {
    type Value = U32Value;

    open spec fn spec_meta() -> AttrMeta {
        AttrMeta {
            id: AttrId::SystemReceivedCommand,
            display_name: "Received commands",
            size: 4,
            read: true,
            write: false,
            persistent: false,
            section: Section::System,
            kind: AttrKind::U32,
        }
    }

    fn meta() -> (r: AttrMeta) {
        AttrMeta {
            id: AttrId::SystemReceivedCommand,
            display_name: "Received commands",
            size: 4,
            read: true,
            write: false,
            persistent: false,
            section: Section::System,
            kind: AttrKind::U32,
        }
    }

    fn parse_value(key: AttrKey, raw: u32) -> (r: Self::Value) {
        parse_u32(key, raw)
    }
}

/// The attribute "Received telemetry requests".
#[derive(Debug, Clone, Copy, PartialEq, Eq, Structural)]
pub struct SystemReceivedRequestTelemetryAttr;

impl Attribute for SystemReceivedRequestTelemetryAttr {
    type Value = U32Value;

    open spec fn spec_meta() -> AttrMeta {
        AttrMeta {
            id: AttrId::SystemReceivedRequestTelemetry,
            display_name: "Received telemetry requests",
            size: 4,
            read: true,
            write: false,
            persistent: false,
            section: Section::System,
            kind: AttrKind::U32,
        }
    }

    fn meta() -> (r: AttrMeta) {
        AttrMeta {
            id: AttrId::SystemReceivedRequestTelemetry,
            display_name: "Received telemetry requests",
            size: 4,
            read: true,
            write: false,
            persistent: false,
            section: Section::System,
            kind: AttrKind::U32,
        }
    }

    fn parse_value(key: AttrKey, raw: u32) -> (r: Self::Value) {
        parse_u32(key, raw)
    }
}

/// The attribute "Ignored received frames".
#[derive(Debug, Clone, Copy, PartialEq, Eq, Structural)]
pub struct SystemReceivedIgnoredAttr;

impl Attribute for SystemReceivedIgnoredAttr {
    type Value = U32Value;

    open spec fn spec_meta() -> AttrMeta {
        AttrMeta {
            id: AttrId::SystemReceivedIgnored,
            display_name: "Ignored received frames",
            size: 4,
            read: true,
            write: false,
            persistent: false,
            section: Section::System,
            kind: AttrKind::U32,
        }
    }

    fn meta() -> (r: AttrMeta) {
        AttrMeta {
            id: AttrId::SystemReceivedIgnored,
            display_name: "Ignored received frames",
            size: 4,
            read: true,
            write: false,
            persistent: false,
            section: Section::System,
            kind: AttrKind::U32,
        }
    }

    fn parse_value(key: AttrKey, raw: u32) -> (r: Self::Value) {
        parse_u32(key, raw)
    }
}

/// The attribute "Last telemetry millisecond counter".
#[derive(Debug, Clone, Copy, PartialEq, Eq, Structural)]
pub struct SystemLastTelemetryMsModAttr;

impl Attribute for SystemLastTelemetryMsModAttr {
    type Value = MillisecondsValue;

    open spec fn spec_meta() -> AttrMeta {
        AttrMeta {
            id: AttrId::SystemLastTelemetryMsMod,
            display_name: "Last telemetry millisecond counter",
            size: 4,
            read: true,
            write: false,
            persistent: false,
            section: Section::System,
            kind: AttrKind::Milliseconds,
        }
    }

    fn meta() -> (r: AttrMeta) {
        AttrMeta {
            id: AttrId::SystemLastTelemetryMsMod,
            display_name: "Last telemetry millisecond counter",
            size: 4,
            read: true,
            write: false,
            persistent: false,
            section: Section::System,
            kind: AttrKind::Milliseconds,
        }
    }

    fn parse_value(key: AttrKey, raw: u32) -> (r: Self::Value) {
        parse_milliseconds(key, raw)
    }
}

/// The attribute "Sent frames".
#[derive(Debug, Clone, Copy, PartialEq, Eq, Structural)]
pub struct SystemSentTotalAttr;

impl Attribute for SystemSentTotalAttr {
    type Value = U32Value;

    open spec fn spec_meta() -> AttrMeta {
        AttrMeta {
            id: AttrId::SystemSentTotal,
            display_name: "Sent frames",
            size: 4,
            read: true,
            write: false,
            persistent: false,
            section: Section::System,
            kind: AttrKind::U32,
        }
    }

    fn meta() -> (r: AttrMeta) {
        AttrMeta {
            id: AttrId::SystemSentTotal,
            display_name: "Sent frames",
            size: 4,
            read: true,
            write: false,
            persistent: false,
            section: Section::System,
            kind: AttrKind::U32,
        }
    }

    fn parse_value(key: AttrKey, raw: u32) -> (r: Self::Value) {
        parse_u32(key, raw)
    }
}

/// The attribute "Sent telemetry frames".
#[derive(Debug, Clone, Copy, PartialEq, Eq, Structural)]
pub struct SystemSentTelemetryAttr;

impl Attribute for SystemSentTelemetryAttr {
    type Value = U32Value;

    open spec fn spec_meta() -> AttrMeta {
        AttrMeta {
            id: AttrId::SystemSentTelemetry,
            display_name: "Sent telemetry frames",
            size: 4,
            read: true,
            write: false,
            persistent: false,
            section: Section::System,
            kind: AttrKind::U32,
        }
    }

    fn meta() -> (r: AttrMeta) {
        AttrMeta {
            id: AttrId::SystemSentTelemetry,
            display_name: "Sent telemetry frames",
            size: 4,
            read: true,
            write: false,
            persistent: false,
            section: Section::System,
            kind: AttrKind::U32,
        }
    }

    fn parse_value(key: AttrKey, raw: u32) -> (r: Self::Value) {
        parse_u32(key, raw)
    }
}

/// The attribute "Reserved system field 4".
#[derive(Debug, Clone, Copy, PartialEq, Eq, Structural)]
pub struct SystemUnused4Attr;

impl Attribute for SystemUnused4Attr {
    type Value = U32Value;

    open spec fn spec_meta() -> AttrMeta {
        AttrMeta {
            id: AttrId::SystemUnused4,
            display_name: "Reserved system field 4",
            size: 4,
            read: true,
            write: false,
            persistent: false,
            section: Section::System,
            kind: AttrKind::U32,
        }
    }

    fn meta() -> (r: AttrMeta) {
        AttrMeta {
            id: AttrId::SystemUnused4,
            display_name: "Reserved system field 4",
            size: 4,
            read: true,
            write: false,
            persistent: false,
            section: Section::System,
            kind: AttrKind::U32,
        }
    }

    fn parse_value(key: AttrKey, raw: u32) -> (r: Self::Value) {
        parse_u32(key, raw)
    }
}

/// The attribute "Last command error".
#[derive(Debug, Clone, Copy, PartialEq, Eq, Structural)]
pub struct SystemLastCommandErrorAttr;

impl Attribute for SystemLastCommandErrorAttr {
    type Value = I16Value;

    open spec fn spec_meta() -> AttrMeta {
        AttrMeta {
            id: AttrId::SystemLastCommandError,
            display_name: "Last command error",
            size: 2,
            read: true,
            write: false,
            persistent: false,
            section: Section::System,
            kind: AttrKind::I16,
        }
    }

    fn meta() -> (r: AttrMeta) {
        AttrMeta {
            id: AttrId::SystemLastCommandError,
            display_name: "Last command error",
            size: 2,
            read: true,
            write: false,
            persistent: false,
            section: Section::System,
            kind: AttrKind::I16,
        }
    }

    fn parse_value(key: AttrKey, raw: u32) -> (r: Self::Value) {
        parse_i16(key, raw)
    }
}

/// The attribute "Last telemetry error".
#[derive(Debug, Clone, Copy, PartialEq, Eq, Structural)]
pub struct SystemLastTelemetryErrorAttr;

impl Attribute for SystemLastTelemetryErrorAttr {
    type Value = I16Value;

    open spec fn spec_meta() -> AttrMeta {
        AttrMeta {
            id: AttrId::SystemLastTelemetryError,
            display_name: "Last telemetry error",
            size: 2,
            read: true,
            write: false,
            persistent: false,
            section: Section::System,
            kind: AttrKind::I16,
        }
    }

    fn meta() -> (r: AttrMeta) {
        AttrMeta {
            id: AttrId::SystemLastTelemetryError,
            display_name: "Last telemetry error",
            size: 2,
            read: true,
            write: false,
            persistent: false,
            section: Section::System,
            kind: AttrKind::I16,
        }
    }

    fn parse_value(key: AttrKey, raw: u32) -> (r: Self::Value) {
        parse_i16(key, raw)
    }
}

/// The attribute "Reserved system field 5".
#[derive(Debug, Clone, Copy, PartialEq, Eq, Structural)]
pub struct SystemUnused5Attr;

impl Attribute for SystemUnused5Attr {
    type Value = I16Value;

    open spec fn spec_meta() -> AttrMeta {
        AttrMeta {
            id: AttrId::SystemUnused5,
            display_name: "Reserved system field 5",
            size: 2,
            read: true,
            write: false,
            persistent: false,
            section: Section::System,
            kind: AttrKind::I16,
        }
    }

    fn meta() -> (r: AttrMeta) {
        AttrMeta {
            id: AttrId::SystemUnused5,
            display_name: "Reserved system field 5",
            size: 2,
            read: true,
            write: false,
            persistent: false,
            section: Section::System,
            kind: AttrKind::I16,
        }
    }

    fn parse_value(key: AttrKey, raw: u32) -> (r: Self::Value) {
        parse_i16(key, raw)
    }
}

/// The attribute "Battery level".
#[derive(Debug, Clone, Copy, PartialEq, Eq, Structural)]
pub struct SystemBatteryAttr;

impl Attribute for SystemBatteryAttr {
    type Value = U8Value;

    open spec fn spec_meta() -> AttrMeta {
        AttrMeta {
            id: AttrId::SystemBattery,
            display_name: "Battery level",
            size: 1,
            read: true,
            write: false,
            persistent: false,
            section: Section::System,
            kind: AttrKind::U8,
        }
    }

    fn meta() -> (r: AttrMeta) {
        AttrMeta {
            id: AttrId::SystemBattery,
            display_name: "Battery level",
            size: 1,
            read: true,
            write: false,
            persistent: false,
            section: Section::System,
            kind: AttrKind::U8,
        }
    }

    fn parse_value(key: AttrKey, raw: u32) -> (r: Self::Value) {
        parse_u8(key, raw)
    }
}

/// The attribute "Telemetry period".
#[derive(Debug, Clone, Copy, PartialEq, Eq, Structural)]
pub struct ConfigTelemetryPeriodAttr;

impl Attribute for ConfigTelemetryPeriodAttr {
    type Value = MillisecondsValue;

    open spec fn spec_meta() -> AttrMeta {
        AttrMeta {
            id: AttrId::ConfigTelemetryPeriod,
            display_name: "Telemetry period",
            size: 4,
            read: true,
            write: true,
            persistent: true,
            section: Section::Config,
            kind: AttrKind::Milliseconds,
        }
    }

    fn meta() -> (r: AttrMeta) {
        AttrMeta {
            id: AttrId::ConfigTelemetryPeriod,
            display_name: "Telemetry period",
            size: 4,
            read: true,
            write: true,
            persistent: true,
            section: Section::Config,
            kind: AttrKind::Milliseconds,
        }
    }

    fn parse_value(key: AttrKey, raw: u32) -> (r: Self::Value) {
        parse_milliseconds(key, raw)
    }
}

/// The attribute "Telemetry delay".
#[derive(Debug, Clone, Copy, PartialEq, Eq, Structural)]
pub struct ConfigTelemetryDelayAttr;

impl Attribute for ConfigTelemetryDelayAttr {
    type Value = MillisecondsValue;

    open spec fn spec_meta() -> AttrMeta {
        AttrMeta {
            id: AttrId::ConfigTelemetryDelay,
            display_name: "Telemetry delay",
            size: 2,
            read: true,
            write: true,
            persistent: true,
            section: Section::Config,
            kind: AttrKind::Milliseconds,
        }
    }

    fn meta() -> (r: AttrMeta) {
        AttrMeta {
            id: AttrId::ConfigTelemetryDelay,
            display_name: "Telemetry delay",
            size: 2,
            read: true,
            write: true,
            persistent: true,
            section: Section::Config,
            kind: AttrKind::Milliseconds,
        }
    }

    fn parse_value(key: AttrKey, raw: u32) -> (r: Self::Value) {
        parse_milliseconds(key, raw)
    }
}

/// The attribute "Minimum telemetry delay".
#[derive(Debug, Clone, Copy, PartialEq, Eq, Structural)]
pub struct ConfigTelemetryDelayMinAttr;

impl Attribute for ConfigTelemetryDelayMinAttr {
    type Value = MillisecondsValue;

    open spec fn spec_meta() -> AttrMeta {
        AttrMeta {
            id: AttrId::ConfigTelemetryDelayMin,
            display_name: "Minimum telemetry delay",
            size: 2,
            read: true,
            write: true,
            persistent: true,
            section: Section::Config,
            kind: AttrKind::Milliseconds,
        }
    }

    fn meta() -> (r: AttrMeta) {
        AttrMeta {
            id: AttrId::ConfigTelemetryDelayMin,
            display_name: "Minimum telemetry delay",
            size: 2,
            read: true,
            write: true,
            persistent: true,
            section: Section::Config,
            kind: AttrKind::Milliseconds,
        }
    }

    fn parse_value(key: AttrKey, raw: u32) -> (r: Self::Value) {
        parse_milliseconds(key, raw)
    }
}

/// The attribute "Maximum telemetry delay".
#[derive(Debug, Clone, Copy, PartialEq, Eq, Structural)]
pub struct ConfigTelemetryDelayMaxAttr;

impl Attribute for ConfigTelemetryDelayMaxAttr {
    type Value = MillisecondsValue;

    open spec fn spec_meta() -> AttrMeta {
        AttrMeta {
            id: AttrId::ConfigTelemetryDelayMax,
            display_name: "Maximum telemetry delay",
            size: 2,
            read: true,
            write: true,
            persistent: true,
            section: Section::Config,
            kind: AttrKind::Milliseconds,
        }
    }

    fn meta() -> (r: AttrMeta) {
        AttrMeta {
            id: AttrId::ConfigTelemetryDelayMax,
            display_name: "Maximum telemetry delay",
            size: 2,
            read: true,
            write: true,
            persistent: true,
            section: Section::Config,
            kind: AttrKind::Milliseconds,
        }
    }

    fn parse_value(key: AttrKey, raw: u32) -> (r: Self::Value) {
        parse_milliseconds(key, raw)
    }
}

/// The attribute "Configuration flags".
#[derive(Debug, Clone, Copy, PartialEq, Eq, Structural)]
pub struct ConfigFlagsAttr;

impl Attribute for ConfigFlagsAttr {
    type Value = ConfigFlagsValue;

    open spec fn spec_meta() -> AttrMeta {
        AttrMeta {
            id: AttrId::ConfigFlags,
            display_name: "Configuration flags",
            size: 1,
            read: true,
            write: true,
            persistent: true,
            section: Section::Config,
            kind: AttrKind::ConfigFlags,
        }
    }

    fn meta() -> (r: AttrMeta) {
        AttrMeta {
            id: AttrId::ConfigFlags,
            display_name: "Configuration flags",
            size: 1,
            read: true,
            write: true,
            persistent: true,
            section: Section::Config,
            kind: AttrKind::ConfigFlags,
        }
    }

    fn parse_value(key: AttrKey, raw: u32) -> (r: Self::Value) {
        parse_config_flags(key, raw)
    }
}

/// The attribute "Device timezone".
#[derive(Debug, Clone, Copy, PartialEq, Eq, Structural)]
pub struct ConfigTimezoneAttr;

impl Attribute for ConfigTimezoneAttr {
    type Value = TimezoneValue;

    open spec fn spec_meta() -> AttrMeta {
        AttrMeta {
            id: AttrId::ConfigTimezone,
            display_name: "Device timezone",
            size: 4,
            read: true,
            write: true,
            persistent: true,
            section: Section::Config,
            kind: AttrKind::Timezone,
        }
    }

    fn meta() -> (r: AttrMeta) {
        AttrMeta {
            id: AttrId::ConfigTimezone,
            display_name: "Device timezone",
            size: 4,
            read: true,
            write: true,
            persistent: true,
            section: Section::Config,
            kind: AttrKind::Timezone,
        }
    }

    fn parse_value(key: AttrKey, raw: u32) -> (r: Self::Value) {
        parse_timezone(key, raw)
    }
}

/// The attribute "Device location".
#[derive(Debug, Clone, Copy, PartialEq, Eq, Structural)]
pub struct ConfigLocationAttr;

impl Attribute for ConfigLocationAttr {
    type Value = LocationValue;

    open spec fn spec_meta() -> AttrMeta {
        AttrMeta {
            id: AttrId::ConfigLocation,
            display_name: "Device location",
            size: 4,
            read: true,
            write: true,
            persistent: true,
            section: Section::Config,
            kind: AttrKind::Location,
        }
    }

    fn meta() -> (r: AttrMeta) {
        AttrMeta {
            id: AttrId::ConfigLocation,
            display_name: "Device location",
            size: 4,
            read: true,
            write: true,
            persistent: true,
            section: Section::Config,
            kind: AttrKind::Location,
        }
    }

    fn parse_value(key: AttrKey, raw: u32) -> (r: Self::Value) {
        parse_location(key, raw)
    }
}

/// The attribute "Class 0 OC1 pulse duration".
#[derive(Debug, Clone, Copy, PartialEq, Eq, Structural)]
pub struct ConfigCls0GpioPulseDurationOc1Attr;

impl Attribute for ConfigCls0GpioPulseDurationOc1Attr {
    type Value = MillisecondsValue;

    open spec fn spec_meta() -> AttrMeta {
        AttrMeta {
            id: AttrId::ConfigCls0GpioPulseDurationOc1,
            display_name: "Class 0 OC1 pulse duration",
            size: 4,
            read: true,
            write: true,
            persistent: true,
            section: Section::Config,
            kind: AttrKind::Milliseconds,
        }
    }

    fn meta() -> (r: AttrMeta) {
        AttrMeta {
            id: AttrId::ConfigCls0GpioPulseDurationOc1,
            display_name: "Class 0 OC1 pulse duration",
            size: 4,
            read: true,
            write: true,
            persistent: true,
            section: Section::Config,
            kind: AttrKind::Milliseconds,
        }
    }

    fn parse_value(key: AttrKey, raw: u32) -> (r: Self::Value) {
        parse_milliseconds(key, raw)
    }
}

/// The attribute "Class 0 OC2 pulse duration".
#[derive(Debug, Clone, Copy, PartialEq, Eq, Structural)]
pub struct ConfigCls0GpioPulseDurationOc2Attr;

impl Attribute for ConfigCls0GpioPulseDurationOc2Attr {
    type Value = MillisecondsValue;

    open spec fn spec_meta() -> AttrMeta {
        AttrMeta {
            id: AttrId::ConfigCls0GpioPulseDurationOc2,
            display_name: "Class 0 OC2 pulse duration",
            size: 4,
            read: true,
            write: true,
            persistent: true,
            section: Section::Config,
            kind: AttrKind::Milliseconds,
        }
    }

    fn meta() -> (r: AttrMeta) {
        AttrMeta {
            id: AttrId::ConfigCls0GpioPulseDurationOc2,
            display_name: "Class 0 OC2 pulse duration",
            size: 4,
            read: true,
            write: true,
            persistent: true,
            section: Section::Config,
            kind: AttrKind::Milliseconds,
        }
    }

    fn parse_value(key: AttrKey, raw: u32) -> (r: Self::Value) {
        parse_milliseconds(key, raw)
    }
}

/// The attribute "Class 0 relay 1 pulse duration".
#[derive(Debug, Clone, Copy, PartialEq, Eq, Structural)]
pub struct ConfigCls0GpioPulseDurationRl1Attr;

impl Attribute for ConfigCls0GpioPulseDurationRl1Attr {
    type Value = MillisecondsValue;

    open spec fn spec_meta() -> AttrMeta {
        AttrMeta {
            id: AttrId::ConfigCls0GpioPulseDurationRl1,
            display_name: "Class 0 relay 1 pulse duration",
            size: 4,
            read: true,
            write: true,
            persistent: true,
            section: Section::Config,
            kind: AttrKind::Milliseconds,
        }
    }

    fn meta() -> (r: AttrMeta) {
        AttrMeta {
            id: AttrId::ConfigCls0GpioPulseDurationRl1,
            display_name: "Class 0 relay 1 pulse duration",
            size: 4,
            read: true,
            write: true,
            persistent: true,
            section: Section::Config,
            kind: AttrKind::Milliseconds,
        }
    }

    fn parse_value(key: AttrKey, raw: u32) -> (r: Self::Value) {
        parse_milliseconds(key, raw)
    }
}

/// The attribute "Class 0 relay 2 pulse duration".
#[derive(Debug, Clone, Copy, PartialEq, Eq, Structural)]
pub struct ConfigCls0GpioPulseDurationRl2Attr;

impl Attribute for ConfigCls0GpioPulseDurationRl2Attr {
    type Value = MillisecondsValue;

    open spec fn spec_meta() -> AttrMeta {
        AttrMeta {
            id: AttrId::ConfigCls0GpioPulseDurationRl2,
            display_name: "Class 0 relay 2 pulse duration",
            size: 4,
            read: true,
            write: true,
            persistent: true,
            section: Section::Config,
            kind: AttrKind::Milliseconds,
        }
    }

    fn meta() -> (r: AttrMeta) {
        AttrMeta {
            id: AttrId::ConfigCls0GpioPulseDurationRl2,
            display_name: "Class 0 relay 2 pulse duration",
            size: 4,
            read: true,
            write: true,
            persistent: true,
            section: Section::Config,
            kind: AttrKind::Milliseconds,
        }
    }

    fn parse_value(key: AttrKey, raw: u32) -> (r: Self::Value) {
        parse_milliseconds(key, raw)
    }
}

/// The attribute "Class 0 default output states".
#[derive(Debug, Clone, Copy, PartialEq, Eq, Structural)]
pub struct ConfigCls0GpioOutputsDefaultAttr;

impl Attribute for ConfigCls0GpioOutputsDefaultAttr {
    type Value = Hex32Value;

    open spec fn spec_meta() -> AttrMeta {
        AttrMeta {
            id: AttrId::ConfigCls0GpioOutputsDefault,
            display_name: "Class 0 default output states",
            size: 4,
            read: true,
            write: true,
            persistent: true,
            section: Section::Config,
            kind: AttrKind::Hex32,
        }
    }

    fn meta() -> (r: AttrMeta) {
        AttrMeta {
            id: AttrId::ConfigCls0GpioOutputsDefault,
            display_name: "Class 0 default output states",
            size: 4,
            read: true,
            write: true,
            persistent: true,
            section: Section::Config,
            kind: AttrKind::Hex32,
        }
    }

    fn parse_value(key: AttrKey, raw: u32) -> (r: Self::Value) {
        parse_hex32(key, raw)
    }
}

/// The attribute "Class 0 telemetry-on-change mask".
#[derive(Debug, Clone, Copy, PartialEq, Eq, Structural)]
pub struct ConfigCls0GpioTelemetryOnChangeAttr;

impl Attribute for ConfigCls0GpioTelemetryOnChangeAttr {
    type Value = Hex32Value;

    open spec fn spec_meta() -> AttrMeta {
        AttrMeta {
            id: AttrId::ConfigCls0GpioTelemetryOnChange,
            display_name: "Class 0 telemetry-on-change mask",
            size: 4,
            read: true,
            write: true,
            persistent: true,
            section: Section::Config,
            kind: AttrKind::Hex32,
        }
    }

    fn meta() -> (r: AttrMeta) {
        AttrMeta {
            id: AttrId::ConfigCls0GpioTelemetryOnChange,
            display_name: "Class 0 telemetry-on-change mask",
            size: 4,
            read: true,
            write: true,
            persistent: true,
            section: Section::Config,
            kind: AttrKind::Hex32,
        }
    }

    fn parse_value(key: AttrKey, raw: u32) -> (r: Self::Value) {
        parse_hex32(key, raw)
    }
}

/// The attribute "Class 1 PC0 pulse duration".
#[derive(Debug, Clone, Copy, PartialEq, Eq, Structural)]
pub struct ConfigCls1GpioPulseDurationPc0Attr;

impl Attribute for ConfigCls1GpioPulseDurationPc0Attr {
    type Value = MillisecondsValue;

    open spec fn spec_meta() -> AttrMeta {
        AttrMeta {
            id: AttrId::ConfigCls1GpioPulseDurationPc0,
            display_name: "Class 1 PC0 pulse duration",
            size: 4,
            read: true,
            write: true,
            persistent: true,
            section: Section::Config,
            kind: AttrKind::Milliseconds,
        }
    }

    fn meta() -> (r: AttrMeta) {
        AttrMeta {
            id: AttrId::ConfigCls1GpioPulseDurationPc0,
            display_name: "Class 1 PC0 pulse duration",
            size: 4,
            read: true,
            write: true,
            persistent: true,
            section: Section::Config,
            kind: AttrKind::Milliseconds,
        }
    }

    fn parse_value(key: AttrKey, raw: u32) -> (r: Self::Value) {
        parse_milliseconds(key, raw)
    }
}

/// The attribute "Class 1 PC1 pulse duration".
#[derive(Debug, Clone, Copy, PartialEq, Eq, Structural)]
pub struct ConfigCls1GpioPulseDurationPc1Attr;

impl Attribute for ConfigCls1GpioPulseDurationPc1Attr {
    type Value = MillisecondsValue;

    open spec fn spec_meta() -> AttrMeta {
        AttrMeta {
            id: AttrId::ConfigCls1GpioPulseDurationPc1,
            display_name: "Class 1 PC1 pulse duration",
            size: 4,
            read: true,
            write: true,
            persistent: true,
            section: Section::Config,
            kind: AttrKind::Milliseconds,
        }
    }

    fn meta() -> (r: AttrMeta) {
        AttrMeta {
            id: AttrId::ConfigCls1GpioPulseDurationPc1,
            display_name: "Class 1 PC1 pulse duration",
            size: 4,
            read: true,
            write: true,
            persistent: true,
            section: Section::Config,
            kind: AttrKind::Milliseconds,
        }
    }

    fn parse_value(key: AttrKey, raw: u32) -> (r: Self::Value) {
        parse_milliseconds(key, raw)
    }
}

/// The attribute "Class 1 PC2 pulse duration".
#[derive(Debug, Clone, Copy, PartialEq, Eq, Structural)]
pub struct ConfigCls1GpioPulseDurationPc2Attr;

impl Attribute for ConfigCls1GpioPulseDurationPc2Attr {
    type Value = MillisecondsValue;

    open spec fn spec_meta() -> AttrMeta {
        AttrMeta {
            id: AttrId::ConfigCls1GpioPulseDurationPc2,
            display_name: "Class 1 PC2 pulse duration",
            size: 4,
            read: true,
            write: true,
            persistent: true,
            section: Section::Config,
            kind: AttrKind::Milliseconds,
        }
    }

    fn meta() -> (r: AttrMeta) {
        AttrMeta {
            id: AttrId::ConfigCls1GpioPulseDurationPc2,
            display_name: "Class 1 PC2 pulse duration",
            size: 4,
            read: true,
            write: true,
            persistent: true,
            section: Section::Config,
            kind: AttrKind::Milliseconds,
        }
    }

    fn parse_value(key: AttrKey, raw: u32) -> (r: Self::Value) {
        parse_milliseconds(key, raw)
    }
}

/// The attribute "Class 1 PC3 pulse duration".
#[derive(Debug, Clone, Copy, PartialEq, Eq, Structural)]
pub struct ConfigCls1GpioPulseDurationPc3Attr;

impl Attribute for ConfigCls1GpioPulseDurationPc3Attr {
    type Value = MillisecondsValue;

    open spec fn spec_meta() -> AttrMeta {
        AttrMeta {
            id: AttrId::ConfigCls1GpioPulseDurationPc3,
            display_name: "Class 1 PC3 pulse duration",
            size: 4,
            read: true,
            write: true,
            persistent: true,
            section: Section::Config,
            kind: AttrKind::Milliseconds,
        }
    }

    fn meta() -> (r: AttrMeta) {
        AttrMeta {
            id: AttrId::ConfigCls1GpioPulseDurationPc3,
            display_name: "Class 1 PC3 pulse duration",
            size: 4,
            read: true,
            write: true,
            persistent: true,
            section: Section::Config,
            kind: AttrKind::Milliseconds,
        }
    }

    fn parse_value(key: AttrKey, raw: u32) -> (r: Self::Value) {
        parse_milliseconds(key, raw)
    }
}

/// The attribute "Class 1 PD0 pulse duration".
#[derive(Debug, Clone, Copy, PartialEq, Eq, Structural)]
pub struct ConfigCls1GpioPulseDurationPd0Attr;

impl Attribute for ConfigCls1GpioPulseDurationPd0Attr {
    type Value = MillisecondsValue;

    open spec fn spec_meta() -> AttrMeta {
        AttrMeta {
            id: AttrId::ConfigCls1GpioPulseDurationPd0,
            display_name: "Class 1 PD0 pulse duration",
            size: 4,
            read: true,
            write: true,
            persistent: true,
            section: Section::Config,
            kind: AttrKind::Milliseconds,
        }
    }

    fn meta() -> (r: AttrMeta) {
        AttrMeta {
            id: AttrId::ConfigCls1GpioPulseDurationPd0,
            display_name: "Class 1 PD0 pulse duration",
            size: 4,
            read: true,
            write: true,
            persistent: true,
            section: Section::Config,
            kind: AttrKind::Milliseconds,
        }
    }

    fn parse_value(key: AttrKey, raw: u32) -> (r: Self::Value) {
        parse_milliseconds(key, raw)
    }
}

/// The attribute "Class 1 PD1 pulse duration".
#[derive(Debug, Clone, Copy, PartialEq, Eq, Structural)]
pub struct ConfigCls1GpioPulseDurationPd1Attr;

impl Attribute for ConfigCls1GpioPulseDurationPd1Attr {
    type Value = MillisecondsValue;

    open spec fn spec_meta() -> AttrMeta {
        AttrMeta {
            id: AttrId::ConfigCls1GpioPulseDurationPd1,
            display_name: "Class 1 PD1 pulse duration",
            size: 4,
            read: true,
            write: true,
            persistent: true,
            section: Section::Config,
            kind: AttrKind::Milliseconds,
        }
    }

    fn meta() -> (r: AttrMeta) {
        AttrMeta {
            id: AttrId::ConfigCls1GpioPulseDurationPd1,
            display_name: "Class 1 PD1 pulse duration",
            size: 4,
            read: true,
            write: true,
            persistent: true,
            section: Section::Config,
            kind: AttrKind::Milliseconds,
        }
    }

    fn parse_value(key: AttrKey, raw: u32) -> (r: Self::Value) {
        parse_milliseconds(key, raw)
    }
}

/// The attribute "Class 1 PD2 pulse duration".
#[derive(Debug, Clone, Copy, PartialEq, Eq, Structural)]
pub struct ConfigCls1GpioPulseDurationPd2Attr;

impl Attribute for ConfigCls1GpioPulseDurationPd2Attr {
    type Value = MillisecondsValue;

    open spec fn spec_meta() -> AttrMeta {
        AttrMeta {
            id: AttrId::ConfigCls1GpioPulseDurationPd2,
            display_name: "Class 1 PD2 pulse duration",
            size: 4,
            read: true,
            write: true,
            persistent: true,
            section: Section::Config,
            kind: AttrKind::Milliseconds,
        }
    }

    fn meta() -> (r: AttrMeta) {
        AttrMeta {
            id: AttrId::ConfigCls1GpioPulseDurationPd2,
            display_name: "Class 1 PD2 pulse duration",
            size: 4,
            read: true,
            write: true,
            persistent: true,
            section: Section::Config,
            kind: AttrKind::Milliseconds,
        }
    }

    fn parse_value(key: AttrKey, raw: u32) -> (r: Self::Value) {
        parse_milliseconds(key, raw)
    }
}

/// The attribute "Class 1 PD3 pulse duration".
#[derive(Debug, Clone, Copy, PartialEq, Eq, Structural)]
pub struct ConfigCls1GpioPulseDurationPd3Attr;

impl Attribute for ConfigCls1GpioPulseDurationPd3Attr {
    type Value = MillisecondsValue;

    open spec fn spec_meta() -> AttrMeta {
        AttrMeta {
            id: AttrId::ConfigCls1GpioPulseDurationPd3,
            display_name: "Class 1 PD3 pulse duration",
            size: 4,
            read: true,
            write: true,
            persistent: true,
            section: Section::Config,
            kind: AttrKind::Milliseconds,
        }
    }

    fn meta() -> (r: AttrMeta) {
        AttrMeta {
            id: AttrId::ConfigCls1GpioPulseDurationPd3,
            display_name: "Class 1 PD3 pulse duration",
            size: 4,
            read: true,
            write: true,
            persistent: true,
            section: Section::Config,
            kind: AttrKind::Milliseconds,
        }
    }

    fn parse_value(key: AttrKey, raw: u32) -> (r: Self::Value) {
        parse_milliseconds(key, raw)
    }
}

/// The attribute "Class 1 PEI0 pulse duration".
#[derive(Debug, Clone, Copy, PartialEq, Eq, Structural)]
pub struct ConfigCls1GpioPulseDurationPei0Attr;

impl Attribute for ConfigCls1GpioPulseDurationPei0Attr {
    type Value = MillisecondsValue;

    open spec fn spec_meta() -> AttrMeta {
        AttrMeta {
            id: AttrId::ConfigCls1GpioPulseDurationPei0,
            display_name: "Class 1 PEI0 pulse duration",
            size: 4,
            read: true,
            write: true,
            persistent: true,
            section: Section::Config,
            kind: AttrKind::Milliseconds,
        }
    }

    fn meta() -> (r: AttrMeta) {
        AttrMeta {
            id: AttrId::ConfigCls1GpioPulseDurationPei0,
            display_name: "Class 1 PEI0 pulse duration",
            size: 4,
            read: true,
            write: true,
            persistent: true,
            section: Section::Config,
            kind: AttrKind::Milliseconds,
        }
    }

    fn parse_value(key: AttrKey, raw: u32) -> (r: Self::Value) {
        parse_milliseconds(key, raw)
    }
}

/// The attribute "Class 1 PEI1 pulse duration".
#[derive(Debug, Clone, Copy, PartialEq, Eq, Structural)]
pub struct ConfigCls1GpioPulseDurationPei1Attr;

impl Attribute for ConfigCls1GpioPulseDurationPei1Attr {
    type Value = MillisecondsValue;

    open spec fn spec_meta() -> AttrMeta {
        AttrMeta {
            id: AttrId::ConfigCls1GpioPulseDurationPei1,
            display_name: "Class 1 PEI1 pulse duration",
            size: 4,
            read: true,
            write: true,
            persistent: true,
            section: Section::Config,
            kind: AttrKind::Milliseconds,
        }
    }

    fn meta() -> (r: AttrMeta) {
        AttrMeta {
            id: AttrId::ConfigCls1GpioPulseDurationPei1,
            display_name: "Class 1 PEI1 pulse duration",
            size: 4,
            read: true,
            write: true,
            persistent: true,
            section: Section::Config,
            kind: AttrKind::Milliseconds,
        }
    }

    fn parse_value(key: AttrKey, raw: u32) -> (r: Self::Value) {
        parse_milliseconds(key, raw)
    }
}

/// The attribute "Class 1 PEI2 pulse duration".
#[derive(Debug, Clone, Copy, PartialEq, Eq, Structural)]
pub struct ConfigCls1GpioPulseDurationPei2Attr;

impl Attribute for ConfigCls1GpioPulseDurationPei2Attr {
    type Value = MillisecondsValue;

    open spec fn spec_meta() -> AttrMeta {
        AttrMeta {
            id: AttrId::ConfigCls1GpioPulseDurationPei2,
            display_name: "Class 1 PEI2 pulse duration",
            size: 4,
            read: true,
            write: true,
            persistent: true,
            section: Section::Config,
            kind: AttrKind::Milliseconds,
        }
    }

    fn meta() -> (r: AttrMeta) {
        AttrMeta {
            id: AttrId::ConfigCls1GpioPulseDurationPei2,
            display_name: "Class 1 PEI2 pulse duration",
            size: 4,
            read: true,
            write: true,
            persistent: true,
            section: Section::Config,
            kind: AttrKind::Milliseconds,
        }
    }

    fn parse_value(key: AttrKey, raw: u32) -> (r: Self::Value) {
        parse_milliseconds(key, raw)
    }
}

/// The attribute "Class 1 PEI3 pulse duration".
#[derive(Debug, Clone, Copy, PartialEq, Eq, Structural)]
pub struct ConfigCls1GpioPulseDurationPei3Attr;

impl Attribute for ConfigCls1GpioPulseDurationPei3Attr {
    type Value = MillisecondsValue;

    open spec fn spec_meta() -> AttrMeta {
        AttrMeta {
            id: AttrId::ConfigCls1GpioPulseDurationPei3,
            display_name: "Class 1 PEI3 pulse duration",
            size: 4,
            read: true,
            write: true,
            persistent: true,
            section: Section::Config,
            kind: AttrKind::Milliseconds,
        }
    }

    fn meta() -> (r: AttrMeta) {
        AttrMeta {
            id: AttrId::ConfigCls1GpioPulseDurationPei3,
            display_name: "Class 1 PEI3 pulse duration",
            size: 4,
            read: true,
            write: true,
            persistent: true,
            section: Section::Config,
            kind: AttrKind::Milliseconds,
        }
    }

    fn parse_value(key: AttrKey, raw: u32) -> (r: Self::Value) {
        parse_milliseconds(key, raw)
    }
}

/// The attribute "Class 1 PEI4 pulse duration".
#[derive(Debug, Clone, Copy, PartialEq, Eq, Structural)]
pub struct ConfigCls1GpioPulseDurationPei4Attr;

impl Attribute for ConfigCls1GpioPulseDurationPei4Attr {
    type Value = MillisecondsValue;

    open spec fn spec_meta() -> AttrMeta {
        AttrMeta {
            id: AttrId::ConfigCls1GpioPulseDurationPei4,
            display_name: "Class 1 PEI4 pulse duration",
            size: 4,
            read: true,
            write: true,
            persistent: true,
            section: Section::Config,
            kind: AttrKind::Milliseconds,
        }
    }

    fn meta() -> (r: AttrMeta) {
        AttrMeta {
            id: AttrId::ConfigCls1GpioPulseDurationPei4,
            display_name: "Class 1 PEI4 pulse duration",
            size: 4,
            read: true,
            write: true,
            persistent: true,
            section: Section::Config,
            kind: AttrKind::Milliseconds,
        }
    }

    fn parse_value(key: AttrKey, raw: u32) -> (r: Self::Value) {
        parse_milliseconds(key, raw)
    }
}

/// The attribute "Class 1 PEI5 pulse duration".
#[derive(Debug, Clone, Copy, PartialEq, Eq, Structural)]
pub struct ConfigCls1GpioPulseDurationPei5Attr;

impl Attribute for ConfigCls1GpioPulseDurationPei5Attr {
    type Value = MillisecondsValue;

    open spec fn spec_meta() -> AttrMeta {
        AttrMeta {
            id: AttrId::ConfigCls1GpioPulseDurationPei5,
            display_name: "Class 1 PEI5 pulse duration",
            size: 4,
            read: true,
            write: true,
            persistent: true,
            section: Section::Config,
            kind: AttrKind::Milliseconds,
        }
    }

    fn meta() -> (r: AttrMeta) {
        AttrMeta {
            id: AttrId::ConfigCls1GpioPulseDurationPei5,
            display_name: "Class 1 PEI5 pulse duration",
            size: 4,
            read: true,
            write: true,
            persistent: true,
            section: Section::Config,
            kind: AttrKind::Milliseconds,
        }
    }

    fn parse_value(key: AttrKey, raw: u32) -> (r: Self::Value) {
        parse_milliseconds(key, raw)
    }
}

/// The attribute "Class 1 PEI6 pulse duration".
#[derive(Debug, Clone, Copy, PartialEq, Eq, Structural)]
pub struct ConfigCls1GpioPulseDurationPei6Attr;

impl Attribute for ConfigCls1GpioPulseDurationPei6Attr {
    type Value = MillisecondsValue;

    open spec fn spec_meta() -> AttrMeta {
        AttrMeta {
            id: AttrId::ConfigCls1GpioPulseDurationPei6,
            display_name: "Class 1 PEI6 pulse duration",
            size: 4,
            read: true,
            write: true,
            persistent: true,
            section: Section::Config,
            kind: AttrKind::Milliseconds,
        }
    }

    fn meta() -> (r: AttrMeta) {
        AttrMeta {
            id: AttrId::ConfigCls1GpioPulseDurationPei6,
            display_name: "Class 1 PEI6 pulse duration",
            size: 4,
            read: true,
            write: true,
            persistent: true,
            section: Section::Config,
            kind: AttrKind::Milliseconds,
        }
    }

    fn parse_value(key: AttrKey, raw: u32) -> (r: Self::Value) {
        parse_milliseconds(key, raw)
    }
}

/// The attribute "Class 1 PEI7 pulse duration".
#[derive(Debug, Clone, Copy, PartialEq, Eq, Structural)]
pub struct ConfigCls1GpioPulseDurationPei7Attr;

impl Attribute for ConfigCls1GpioPulseDurationPei7Attr {
    type Value = MillisecondsValue;

    open spec fn spec_meta() -> AttrMeta {
        AttrMeta {
            id: AttrId::ConfigCls1GpioPulseDurationPei7,
            display_name: "Class 1 PEI7 pulse duration",
            size: 4,
            read: true,
            write: true,
            persistent: true,
            section: Section::Config,
            kind: AttrKind::Milliseconds,
        }
    }

    fn meta() -> (r: AttrMeta) {
        AttrMeta {
            id: AttrId::ConfigCls1GpioPulseDurationPei7,
            display_name: "Class 1 PEI7 pulse duration",
            size: 4,
            read: true,
            write: true,
            persistent: true,
            section: Section::Config,
            kind: AttrKind::Milliseconds,
        }
    }

    fn parse_value(key: AttrKey, raw: u32) -> (r: Self::Value) {
        parse_milliseconds(key, raw)
    }
}

/// The attribute "Class 1 PB0 pulse duration".
#[derive(Debug, Clone, Copy, PartialEq, Eq, Structural)]
pub struct ConfigCls1GpioPulseDurationPb0Attr;

impl Attribute for ConfigCls1GpioPulseDurationPb0Attr {
    type Value = MillisecondsValue;

    open spec fn spec_meta() -> AttrMeta {
        AttrMeta {
            id: AttrId::ConfigCls1GpioPulseDurationPb0,
            display_name: "Class 1 PB0 pulse duration",
            size: 4,
            read: true,
            write: true,
            persistent: true,
            section: Section::Config,
            kind: AttrKind::Milliseconds,
        }
    }

    fn meta() -> (r: AttrMeta) {
        AttrMeta {
            id: AttrId::ConfigCls1GpioPulseDurationPb0,
            display_name: "Class 1 PB0 pulse duration",
            size: 4,
            read: true,
            write: true,
            persistent: true,
            section: Section::Config,
            kind: AttrKind::Milliseconds,
        }
    }

    fn parse_value(key: AttrKey, raw: u32) -> (r: Self::Value) {
        parse_milliseconds(key, raw)
    }
}

/// The attribute "Class 1 PE0 pulse duration".
#[derive(Debug, Clone, Copy, PartialEq, Eq, Structural)]
pub struct ConfigCls1GpioPulseDurationPe0Attr;

impl Attribute for ConfigCls1GpioPulseDurationPe0Attr {
    type Value = MillisecondsValue;

    open spec fn spec_meta() -> AttrMeta {
        AttrMeta {
            id: AttrId::ConfigCls1GpioPulseDurationPe0,
            display_name: "Class 1 PE0 pulse duration",
            size: 4,
            read: true,
            write: true,
            persistent: true,
            section: Section::Config,
            kind: AttrKind::Milliseconds,
        }
    }

    fn meta() -> (r: AttrMeta) {
        AttrMeta {
            id: AttrId::ConfigCls1GpioPulseDurationPe0,
            display_name: "Class 1 PE0 pulse duration",
            size: 4,
            read: true,
            write: true,
            persistent: true,
            section: Section::Config,
            kind: AttrKind::Milliseconds,
        }
    }

    fn parse_value(key: AttrKey, raw: u32) -> (r: Self::Value) {
        parse_milliseconds(key, raw)
    }
}

/// The attribute "Class 1 PE1 pulse duration".
#[derive(Debug, Clone, Copy, PartialEq, Eq, Structural)]
pub struct ConfigCls1GpioPulseDurationPe1Attr;

impl Attribute for ConfigCls1GpioPulseDurationPe1Attr {
    type Value = MillisecondsValue;

    open spec fn spec_meta() -> AttrMeta {
        AttrMeta {
            id: AttrId::ConfigCls1GpioPulseDurationPe1,
            display_name: "Class 1 PE1 pulse duration",
            size: 4,
            read: true,
            write: true,
            persistent: true,
            section: Section::Config,
            kind: AttrKind::Milliseconds,
        }
    }

    fn meta() -> (r: AttrMeta) {
        AttrMeta {
            id: AttrId::ConfigCls1GpioPulseDurationPe1,
            display_name: "Class 1 PE1 pulse duration",
            size: 4,
            read: true,
            write: true,
            persistent: true,
            section: Section::Config,
            kind: AttrKind::Milliseconds,
        }
    }

    fn parse_value(key: AttrKey, raw: u32) -> (r: Self::Value) {
        parse_milliseconds(key, raw)
    }
}

/// The attribute "Class 1 reserved pulse duration".
#[derive(Debug, Clone, Copy, PartialEq, Eq, Structural)]
pub struct ConfigCls1GpioPulseDurationReservedAttr;

impl Attribute for ConfigCls1GpioPulseDurationReservedAttr {
    type Value = MillisecondsValue;

    open spec fn spec_meta() -> AttrMeta {
        AttrMeta {
            id: AttrId::ConfigCls1GpioPulseDurationReserved,
            display_name: "Class 1 reserved pulse duration",
            size: 4,
            read: true,
            write: true,
            persistent: true,
            section: Section::Config,
            kind: AttrKind::Milliseconds,
        }
    }

    fn meta() -> (r: AttrMeta) {
        AttrMeta {
            id: AttrId::ConfigCls1GpioPulseDurationReserved,
            display_name: "Class 1 reserved pulse duration",
            size: 4,
            read: true,
            write: true,
            persistent: true,
            section: Section::Config,
            kind: AttrKind::Milliseconds,
        }
    }

    fn parse_value(key: AttrKey, raw: u32) -> (r: Self::Value) {
        parse_milliseconds(key, raw)
    }
}

/// The attribute "Class 1 GPIO directions".
#[derive(Debug, Clone, Copy, PartialEq, Eq, Structural)]
pub struct ConfigCls1GpioDirectionsAttr;

impl Attribute for ConfigCls1GpioDirectionsAttr {
    type Value = Hex32Value;

    open spec fn spec_meta() -> AttrMeta {
        AttrMeta {
            id: AttrId::ConfigCls1GpioDirections,
            display_name: "Class 1 GPIO directions",
            size: 4,
            read: true,
            write: true,
            persistent: true,
            section: Section::Config,
            kind: AttrKind::Hex32,
        }
    }

    fn meta() -> (r: AttrMeta) {
        AttrMeta {
            id: AttrId::ConfigCls1GpioDirections,
            display_name: "Class 1 GPIO directions",
            size: 4,
            read: true,
            write: true,
            persistent: true,
            section: Section::Config,
            kind: AttrKind::Hex32,
        }
    }

    fn parse_value(key: AttrKey, raw: u32) -> (r: Self::Value) {
        parse_hex32(key, raw)
    }
}

/// The attribute "Class 1 default output states".
#[derive(Debug, Clone, Copy, PartialEq, Eq, Structural)]
pub struct ConfigCls1GpioOutputsDefaultAttr;

impl Attribute for ConfigCls1GpioOutputsDefaultAttr {
    type Value = Hex32Value;

    open spec fn spec_meta() -> AttrMeta {
        AttrMeta {
            id: AttrId::ConfigCls1GpioOutputsDefault,
            display_name: "Class 1 default output states",
            size: 4,
            read: true,
            write: true,
            persistent: true,
            section: Section::Config,
            kind: AttrKind::Hex32,
        }
    }

    fn meta() -> (r: AttrMeta) {
        AttrMeta {
            id: AttrId::ConfigCls1GpioOutputsDefault,
            display_name: "Class 1 default output states",
            size: 4,
            read: true,
            write: true,
            persistent: true,
            section: Section::Config,
            kind: AttrKind::Hex32,
        }
    }

    fn parse_value(key: AttrKey, raw: u32) -> (r: Self::Value) {
        parse_hex32(key, raw)
    }
}

/// The attribute "Class 1 telemetry-on-change mask".
#[derive(Debug, Clone, Copy, PartialEq, Eq, Structural)]
pub struct ConfigCls1GpioTelemetryOnChangeAttr;

impl Attribute for ConfigCls1GpioTelemetryOnChangeAttr {
    type Value = Hex32Value;

    open spec fn spec_meta() -> AttrMeta {
        AttrMeta {
            id: AttrId::ConfigCls1GpioTelemetryOnChange,
            display_name: "Class 1 telemetry-on-change mask",
            size: 4,
            read: true,
            write: true,
            persistent: true,
            section: Section::Config,
            kind: AttrKind::Hex32,
        }
    }

    fn meta() -> (r: AttrMeta) {
        AttrMeta {
            id: AttrId::ConfigCls1GpioTelemetryOnChange,
            display_name: "Class 1 telemetry-on-change mask",
            size: 4,
            read: true,
            write: true,
            persistent: true,
            section: Section::Config,
            kind: AttrKind::Hex32,
        }
    }

    fn parse_value(key: AttrKey, raw: u32) -> (r: Self::Value) {
        parse_hex32(key, raw)
    }
}

/// The attribute "Reset count".
#[derive(Debug, Clone, Copy, PartialEq, Eq, Structural)]
pub struct DiagResetCountAttr;

impl Attribute for DiagResetCountAttr {
    type Value = U16Value;

    open spec fn spec_meta() -> AttrMeta {
        AttrMeta {
            id: AttrId::DiagResetCount,
            display_name: "Reset count",
            size: 2,
            read: true,
            write: false,
            persistent: false,
            section: Section::Diag,
            kind: AttrKind::U16,
        }
    }

    fn meta() -> (r: AttrMeta) {
        AttrMeta {
            id: AttrId::DiagResetCount,
            display_name: "Reset count",
            size: 2,
            read: true,
            write: false,
            persistent: false,
            section: Section::Diag,
            kind: AttrKind::U16,
        }
    }

    fn parse_value(key: AttrKey, raw: u32) -> (r: Self::Value) {
        parse_u16(key, raw)
    }
}

/// The attribute "Last reset reason".
#[derive(Debug, Clone, Copy, PartialEq, Eq, Structural)]
pub struct DiagLastResetReasonAttr;

impl Attribute for DiagLastResetReasonAttr {
    type Value = ResetReasonValue;

    open spec fn spec_meta() -> AttrMeta {
        AttrMeta {
            id: AttrId::DiagLastResetReason,
            display_name: "Last reset reason",
            size: 2,
            read: true,
            write: false,
            persistent: false,
            section: Section::Diag,
            kind: AttrKind::ResetReason,
        }
    }

    fn meta() -> (r: AttrMeta) {
        AttrMeta {
            id: AttrId::DiagLastResetReason,
            display_name: "Last reset reason",
            size: 2,
            read: true,
            write: false,
            persistent: false,
            section: Section::Diag,
            kind: AttrKind::ResetReason,
        }
    }

    fn parse_value(key: AttrKey, raw: u32) -> (r: Self::Value) {
        parse_reset_reason(key, raw)
    }
}

/// The attribute "Unknown reset count".
#[derive(Debug, Clone, Copy, PartialEq, Eq, Structural)]
pub struct DiagResetCountUnknownAttr;

impl Attribute for DiagResetCountUnknownAttr {
    type Value = U16Value;

    open spec fn spec_meta() -> AttrMeta {
        AttrMeta {
            id: AttrId::DiagResetCountUnknown,
            display_name: "Unknown reset count",
            size: 2,
            read: true,
            write: false,
            persistent: false,
            section: Section::Diag,
            kind: AttrKind::U16,
        }
    }

    fn meta() -> (r: AttrMeta) {
        AttrMeta {
            id: AttrId::DiagResetCountUnknown,
            display_name: "Unknown reset count",
            size: 2,
            read: true,
            write: false,
            persistent: false,
            section: Section::Diag,
            kind: AttrKind::U16,
        }
    }

    fn parse_value(key: AttrKey, raw: u32) -> (r: Self::Value) {
        parse_u16(key, raw)
    }
}

/// The attribute "Power-on reset count".
#[derive(Debug, Clone, Copy, PartialEq, Eq, Structural)]
pub struct DiagResetCountPowerOnAttr;

impl Attribute for DiagResetCountPowerOnAttr {
    type Value = U16Value;

    open spec fn spec_meta() -> AttrMeta {
        AttrMeta {
            id: AttrId::DiagResetCountPowerOn,
            display_name: "Power-on reset count",
            size: 2,
            read: true,
            write: false,
            persistent: false,
            section: Section::Diag,
            kind: AttrKind::U16,
        }
    }

    fn meta() -> (r: AttrMeta) {
        AttrMeta {
            id: AttrId::DiagResetCountPowerOn,
            display_name: "Power-on reset count",
            size: 2,
            read: true,
            write: false,
            persistent: false,
            section: Section::Diag,
            kind: AttrKind::U16,
        }
    }

    fn parse_value(key: AttrKey, raw: u32) -> (r: Self::Value) {
        parse_u16(key, raw)
    }
}

/// The attribute "Watchdog reset count".
#[derive(Debug, Clone, Copy, PartialEq, Eq, Structural)]
pub struct DiagResetCountWatchdogAttr;

impl Attribute for DiagResetCountWatchdogAttr {
    type Value = U16Value;

    open spec fn spec_meta() -> AttrMeta {
        AttrMeta {
            id: AttrId::DiagResetCountWatchdog,
            display_name: "Watchdog reset count",
            size: 2,
            read: true,
            write: false,
            persistent: false,
            section: Section::Diag,
            kind: AttrKind::U16,
        }
    }

    fn meta() -> (r: AttrMeta) {
        AttrMeta {
            id: AttrId::DiagResetCountWatchdog,
            display_name: "Watchdog reset count",
            size: 2,
            read: true,
            write: false,
            persistent: false,
            section: Section::Diag,
            kind: AttrKind::U16,
        }
    }

    fn parse_value(key: AttrKey, raw: u32) -> (r: Self::Value) {
        parse_u16(key, raw)
    }
}

/// The attribute "External reset count".
#[derive(Debug, Clone, Copy, PartialEq, Eq, Structural)]
pub struct DiagResetCountExternalAttr;

impl Attribute for DiagResetCountExternalAttr {
    type Value = U16Value;

    open spec fn spec_meta() -> AttrMeta {
        AttrMeta {
            id: AttrId::DiagResetCountExternal,
            display_name: "External reset count",
            size: 2,
            read: true,
            write: false,
            persistent: false,
            section: Section::Diag,
            kind: AttrKind::U16,
        }
    }

    fn meta() -> (r: AttrMeta) {
        AttrMeta {
            id: AttrId::DiagResetCountExternal,
            display_name: "External reset count",
            size: 2,
            read: true,
            write: false,
            persistent: false,
            section: Section::Diag,
            kind: AttrKind::U16,
        }
    }

    fn parse_value(key: AttrKey, raw: u32) -> (r: Self::Value) {
        parse_u16(key, raw)
    }
}

/// The attribute "Last runtime uptime".
#[derive(Debug, Clone, Copy, PartialEq, Eq, Structural)]
pub struct DiagLastRuntimeUptimeAttr;

impl Attribute for DiagLastRuntimeUptimeAttr {
    type Value = SecondsValue;

    open spec fn spec_meta() -> AttrMeta {
        AttrMeta {
            id: AttrId::DiagLastRuntimeUptime,
            display_name: "Last runtime uptime",
            size: 4,
            read: true,
            write: false,
            persistent: false,
            section: Section::Diag,
            kind: AttrKind::Seconds,
        }
    }

    fn meta() -> (r: AttrMeta) {
        AttrMeta {
            id: AttrId::DiagLastRuntimeUptime,
            display_name: "Last runtime uptime",
            size: 4,
            read: true,
            write: false,
            persistent: false,
            section: Section::Diag,
            kind: AttrKind::Seconds,
        }
    }

    fn parse_value(key: AttrKey, raw: u32) -> (r: Self::Value) {
        parse_seconds(key, raw)
    }
}

/// The attribute "Total runtime uptime".
#[derive(Debug, Clone, Copy, PartialEq, Eq, Structural)]
pub struct DiagLastRuntimeUptimeTotalAttr;

impl Attribute for DiagLastRuntimeUptimeTotalAttr {
    type Value = SecondsValue;

    open spec fn spec_meta() -> AttrMeta {
        AttrMeta {
            id: AttrId::DiagLastRuntimeUptimeTotal,
            display_name: "Total runtime uptime",
            size: 4,
            read: true,
            write: false,
            persistent: false,
            section: Section::Diag,
            kind: AttrKind::Seconds,
        }
    }

    fn meta() -> (r: AttrMeta) {
        AttrMeta {
            id: AttrId::DiagLastRuntimeUptimeTotal,
            display_name: "Total runtime uptime",
            size: 4,
            read: true,
            write: false,
            persistent: false,
            section: Section::Diag,
            kind: AttrKind::Seconds,
        }
    }

    fn parse_value(key: AttrKey, raw: u32) -> (r: Self::Value) {
        parse_seconds(key, raw)
    }
}

/// The attribute "Reset streak count".
#[derive(Debug, Clone, Copy, PartialEq, Eq, Structural)]
pub struct DiagLastResetStreakCountAttr;

impl Attribute for DiagLastResetStreakCountAttr {
    type Value = U16Value;

    open spec fn spec_meta() -> AttrMeta {
        AttrMeta {
            id: AttrId::DiagLastResetStreakCount,
            display_name: "Reset streak count",
            size: 2,
            read: true,
            write: false,
            persistent: false,
            section: Section::Diag,
            kind: AttrKind::U16,
        }
    }

    fn meta() -> (r: AttrMeta) {
        AttrMeta {
            id: AttrId::DiagLastResetStreakCount,
            display_name: "Reset streak count",
            size: 2,
            read: true,
            write: false,
            persistent: false,
            section: Section::Diag,
            kind: AttrKind::U16,
        }
    }

    fn parse_value(key: AttrKey, raw: u32) -> (r: Self::Value) {
        parse_u16(key, raw)
    }
}

/// The attribute "Brown-out reset count".
#[derive(Debug, Clone, Copy, PartialEq, Eq, Structural)]
pub struct DiagResetCountBrownOutAttr;

impl Attribute for DiagResetCountBrownOutAttr {
    type Value = U16Value;

    open spec fn spec_meta() -> AttrMeta {
        AttrMeta {
            id: AttrId::DiagResetCountBrownOut,
            display_name: "Brown-out reset count",
            size: 2,
            read: true,
            write: false,
            persistent: false,
            section: Section::Diag,
            kind: AttrKind::U16,
        }
    }

    fn meta() -> (r: AttrMeta) {
        AttrMeta {
            id: AttrId::DiagResetCountBrownOut,
            display_name: "Brown-out reset count",
            size: 2,
            read: true,
            write: false,
            persistent: false,
            section: Section::Diag,
            kind: AttrKind::U16,
        }
    }

    fn parse_value(key: AttrKey, raw: u32) -> (r: Self::Value) {
        parse_u16(key, raw)
    }
}

/// The attribute "Boot signal".
#[derive(Debug, Clone, Copy, PartialEq, Eq, Structural)]
pub struct DiagBootSignalAttr;

impl Attribute for DiagBootSignalAttr {
    type Value = PartialCommitHashValue;

    open spec fn spec_meta() -> AttrMeta {
        AttrMeta {
            id: AttrId::DiagBootSignal,
            display_name: "Boot signal",
            size: 4,
            read: true,
            write: true,
            persistent: false,
            section: Section::Diag,
            kind: AttrKind::PartialCommitHash,
        }
    }

    fn meta() -> (r: AttrMeta) {
        AttrMeta {
            id: AttrId::DiagBootSignal,
            display_name: "Boot signal",
            size: 4,
            read: true,
            write: true,
            persistent: false,
            section: Section::Diag,
            kind: AttrKind::PartialCommitHash,
        }
    }

    fn parse_value(key: AttrKey, raw: u32) -> (r: Self::Value) {
        parse_partial_commit_hash(key, raw)
    }
}

} // verus!
