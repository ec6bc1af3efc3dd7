use vstd::prelude::*;

use super::base::{AttrId, AttrKey, AttrMeta, Attribute};
use super::defs::{
    IdNodeIdAttr, IdVersionAttr, IdNameAttr, IdMagicNumberAttr, IdBuildDateAttr, IdBuildCommitAttr, IdFeaturesAttr, SystemUptimeSyncedAttr, SystemTimeAttr, SystemUptimeAttr, SystemStartTimeAttr, SystemLastTelemetryAttr, SystemReceivedTotalAttr, SystemReceivedReadAttributeAttr, SystemReceivedWriteAttributeAttr, SystemReceivedCommandAttr, SystemReceivedRequestTelemetryAttr, SystemReceivedIgnoredAttr, SystemLastTelemetryMsModAttr, SystemSentTotalAttr, SystemSentTelemetryAttr, SystemUnused4Attr, SystemLastCommandErrorAttr, SystemLastTelemetryErrorAttr, SystemUnused5Attr, SystemBatteryAttr, ConfigTelemetryPeriodAttr, ConfigTelemetryDelayAttr, ConfigTelemetryDelayMinAttr, ConfigTelemetryDelayMaxAttr, ConfigFlagsAttr, ConfigTimezoneAttr, ConfigLocationAttr, ConfigCls0GpioPulseDurationOc1Attr, ConfigCls0GpioPulseDurationOc2Attr, ConfigCls0GpioPulseDurationRl1Attr, ConfigCls0GpioPulseDurationRl2Attr, ConfigCls0GpioOutputsDefaultAttr, ConfigCls0GpioTelemetryOnChangeAttr, ConfigCls1GpioPulseDurationPc0Attr, ConfigCls1GpioPulseDurationPc1Attr, ConfigCls1GpioPulseDurationPc2Attr, ConfigCls1GpioPulseDurationPc3Attr, ConfigCls1GpioPulseDurationPd0Attr, ConfigCls1GpioPulseDurationPd1Attr, ConfigCls1GpioPulseDurationPd2Attr, ConfigCls1GpioPulseDurationPd3Attr, ConfigCls1GpioPulseDurationPei0Attr, ConfigCls1GpioPulseDurationPei1Attr, ConfigCls1GpioPulseDurationPei2Attr, ConfigCls1GpioPulseDurationPei3Attr, ConfigCls1GpioPulseDurationPei4Attr, ConfigCls1GpioPulseDurationPei5Attr, ConfigCls1GpioPulseDurationPei6Attr, ConfigCls1GpioPulseDurationPei7Attr, ConfigCls1GpioPulseDurationPb0Attr, ConfigCls1GpioPulseDurationPe0Attr, ConfigCls1GpioPulseDurationPe1Attr, ConfigCls1GpioPulseDurationReservedAttr, ConfigCls1GpioDirectionsAttr, ConfigCls1GpioOutputsDefaultAttr, ConfigCls1GpioTelemetryOnChangeAttr, DiagResetCountAttr, DiagLastResetReasonAttr, DiagResetCountUnknownAttr, DiagResetCountPowerOnAttr, DiagResetCountWatchdogAttr, DiagResetCountExternalAttr, DiagLastRuntimeUptimeAttr, DiagLastRuntimeUptimeTotalAttr, DiagLastResetStreakCountAttr, DiagResetCountBrownOutAttr, DiagBootSignalAttr,
};
use super::values::ParsedValue;
use super::super::text::{eq_ignore_ascii_case, spec_eq_ignore_ascii_case};

verus! {

/// The value of an attribute part, decoded according to its attribute.
pub enum ParsedAttributeValue {
    IdNodeId(<IdNodeIdAttr as Attribute>::Value),
    IdVersion(<IdVersionAttr as Attribute>::Value),
    IdName(<IdNameAttr as Attribute>::Value),
    IdMagicNumber(<IdMagicNumberAttr as Attribute>::Value),
    IdBuildDate(<IdBuildDateAttr as Attribute>::Value),
    IdBuildCommit(<IdBuildCommitAttr as Attribute>::Value),
    IdFeatures(<IdFeaturesAttr as Attribute>::Value),
    SystemUptimeSynced(<SystemUptimeSyncedAttr as Attribute>::Value),
    SystemTime(<SystemTimeAttr as Attribute>::Value),
    SystemUptime(<SystemUptimeAttr as Attribute>::Value),
    SystemStartTime(<SystemStartTimeAttr as Attribute>::Value),
    SystemLastTelemetry(<SystemLastTelemetryAttr as Attribute>::Value),
    SystemReceivedTotal(<SystemReceivedTotalAttr as Attribute>::Value),
    SystemReceivedReadAttribute(<SystemReceivedReadAttributeAttr as Attribute>::Value),
    SystemReceivedWriteAttribute(<SystemReceivedWriteAttributeAttr as Attribute>::Value),
    SystemReceivedCommand(<SystemReceivedCommandAttr as Attribute>::Value),
    SystemReceivedRequestTelemetry(<SystemReceivedRequestTelemetryAttr as Attribute>::Value),
    SystemReceivedIgnored(<SystemReceivedIgnoredAttr as Attribute>::Value),
    SystemLastTelemetryMsMod(<SystemLastTelemetryMsModAttr as Attribute>::Value),
    SystemSentTotal(<SystemSentTotalAttr as Attribute>::Value),
    SystemSentTelemetry(<SystemSentTelemetryAttr as Attribute>::Value),
    SystemUnused4(<SystemUnused4Attr as Attribute>::Value),
    SystemLastCommandError(<SystemLastCommandErrorAttr as Attribute>::Value),
    SystemLastTelemetryError(<SystemLastTelemetryErrorAttr as Attribute>::Value),
    SystemUnused5(<SystemUnused5Attr as Attribute>::Value),
    SystemBattery(<SystemBatteryAttr as Attribute>::Value),
    ConfigTelemetryPeriod(<ConfigTelemetryPeriodAttr as Attribute>::Value),
    ConfigTelemetryDelay(<ConfigTelemetryDelayAttr as Attribute>::Value),
    ConfigTelemetryDelayMin(<ConfigTelemetryDelayMinAttr as Attribute>::Value),
    ConfigTelemetryDelayMax(<ConfigTelemetryDelayMaxAttr as Attribute>::Value),
    ConfigFlags(<ConfigFlagsAttr as Attribute>::Value),
    ConfigTimezone(<ConfigTimezoneAttr as Attribute>::Value),
    ConfigLocation(<ConfigLocationAttr as Attribute>::Value),
    ConfigCls0GpioPulseDurationOc1(<ConfigCls0GpioPulseDurationOc1Attr as Attribute>::Value),
    ConfigCls0GpioPulseDurationOc2(<ConfigCls0GpioPulseDurationOc2Attr as Attribute>::Value),
    ConfigCls0GpioPulseDurationRl1(<ConfigCls0GpioPulseDurationRl1Attr as Attribute>::Value),
    ConfigCls0GpioPulseDurationRl2(<ConfigCls0GpioPulseDurationRl2Attr as Attribute>::Value),
    ConfigCls0GpioOutputsDefault(<ConfigCls0GpioOutputsDefaultAttr as Attribute>::Value),
    ConfigCls0GpioTelemetryOnChange(<ConfigCls0GpioTelemetryOnChangeAttr as Attribute>::Value),
    ConfigCls1GpioPulseDurationPc0(<ConfigCls1GpioPulseDurationPc0Attr as Attribute>::Value),
    ConfigCls1GpioPulseDurationPc1(<ConfigCls1GpioPulseDurationPc1Attr as Attribute>::Value),
    ConfigCls1GpioPulseDurationPc2(<ConfigCls1GpioPulseDurationPc2Attr as Attribute>::Value),
    ConfigCls1GpioPulseDurationPc3(<ConfigCls1GpioPulseDurationPc3Attr as Attribute>::Value),
    ConfigCls1GpioPulseDurationPd0(<ConfigCls1GpioPulseDurationPd0Attr as Attribute>::Value),
    ConfigCls1GpioPulseDurationPd1(<ConfigCls1GpioPulseDurationPd1Attr as Attribute>::Value),
    ConfigCls1GpioPulseDurationPd2(<ConfigCls1GpioPulseDurationPd2Attr as Attribute>::Value),
    ConfigCls1GpioPulseDurationPd3(<ConfigCls1GpioPulseDurationPd3Attr as Attribute>::Value),
    ConfigCls1GpioPulseDurationPei0(<ConfigCls1GpioPulseDurationPei0Attr as Attribute>::Value),
    ConfigCls1GpioPulseDurationPei1(<ConfigCls1GpioPulseDurationPei1Attr as Attribute>::Value),
    ConfigCls1GpioPulseDurationPei2(<ConfigCls1GpioPulseDurationPei2Attr as Attribute>::Value),
    ConfigCls1GpioPulseDurationPei3(<ConfigCls1GpioPulseDurationPei3Attr as Attribute>::Value),
    ConfigCls1GpioPulseDurationPei4(<ConfigCls1GpioPulseDurationPei4Attr as Attribute>::Value),
    ConfigCls1GpioPulseDurationPei5(<ConfigCls1GpioPulseDurationPei5Attr as Attribute>::Value),
    ConfigCls1GpioPulseDurationPei6(<ConfigCls1GpioPulseDurationPei6Attr as Attribute>::Value),
    ConfigCls1GpioPulseDurationPei7(<ConfigCls1GpioPulseDurationPei7Attr as Attribute>::Value),
    ConfigCls1GpioPulseDurationPb0(<ConfigCls1GpioPulseDurationPb0Attr as Attribute>::Value),
    ConfigCls1GpioPulseDurationPe0(<ConfigCls1GpioPulseDurationPe0Attr as Attribute>::Value),
    ConfigCls1GpioPulseDurationPe1(<ConfigCls1GpioPulseDurationPe1Attr as Attribute>::Value),
    ConfigCls1GpioPulseDurationReserved(<ConfigCls1GpioPulseDurationReservedAttr as Attribute>::Value),
    ConfigCls1GpioDirections(<ConfigCls1GpioDirectionsAttr as Attribute>::Value),
    ConfigCls1GpioOutputsDefault(<ConfigCls1GpioOutputsDefaultAttr as Attribute>::Value),
    ConfigCls1GpioTelemetryOnChange(<ConfigCls1GpioTelemetryOnChangeAttr as Attribute>::Value),
    DiagResetCount(<DiagResetCountAttr as Attribute>::Value),
    DiagLastResetReason(<DiagLastResetReasonAttr as Attribute>::Value),
    DiagResetCountUnknown(<DiagResetCountUnknownAttr as Attribute>::Value),
    DiagResetCountPowerOn(<DiagResetCountPowerOnAttr as Attribute>::Value),
    DiagResetCountWatchdog(<DiagResetCountWatchdogAttr as Attribute>::Value),
    DiagResetCountExternal(<DiagResetCountExternalAttr as Attribute>::Value),
    DiagLastRuntimeUptime(<DiagLastRuntimeUptimeAttr as Attribute>::Value),
    DiagLastRuntimeUptimeTotal(<DiagLastRuntimeUptimeTotalAttr as Attribute>::Value),
    DiagLastResetStreakCount(<DiagLastResetStreakCountAttr as Attribute>::Value),
    DiagResetCountBrownOut(<DiagResetCountBrownOutAttr as Attribute>::Value),
    DiagBootSignal(<DiagBootSignalAttr as Attribute>::Value),
}

/// The description of attribute `id` in the table.
pub open spec fn spec_attr_meta(id: AttrId) -> AttrMeta {
    match id {
        AttrId::IdNodeId => IdNodeIdAttr::spec_meta(),
        AttrId::IdVersion => IdVersionAttr::spec_meta(),
        AttrId::IdName => IdNameAttr::spec_meta(),
        AttrId::IdMagicNumber => IdMagicNumberAttr::spec_meta(),
        AttrId::IdBuildDate => IdBuildDateAttr::spec_meta(),
        AttrId::IdBuildCommit => IdBuildCommitAttr::spec_meta(),
        AttrId::IdFeatures => IdFeaturesAttr::spec_meta(),
        AttrId::SystemUptimeSynced => SystemUptimeSyncedAttr::spec_meta(),
        AttrId::SystemTime => SystemTimeAttr::spec_meta(),
        AttrId::SystemUptime => SystemUptimeAttr::spec_meta(),
        AttrId::SystemStartTime => SystemStartTimeAttr::spec_meta(),
        AttrId::SystemLastTelemetry => SystemLastTelemetryAttr::spec_meta(),
        AttrId::SystemReceivedTotal => SystemReceivedTotalAttr::spec_meta(),
        AttrId::SystemReceivedReadAttribute => SystemReceivedReadAttributeAttr::spec_meta(),
        AttrId::SystemReceivedWriteAttribute => SystemReceivedWriteAttributeAttr::spec_meta(),
        AttrId::SystemReceivedCommand => SystemReceivedCommandAttr::spec_meta(),
        AttrId::SystemReceivedRequestTelemetry => SystemReceivedRequestTelemetryAttr::spec_meta(),
        AttrId::SystemReceivedIgnored => SystemReceivedIgnoredAttr::spec_meta(),
        AttrId::SystemLastTelemetryMsMod => SystemLastTelemetryMsModAttr::spec_meta(),
        AttrId::SystemSentTotal => SystemSentTotalAttr::spec_meta(),
        AttrId::SystemSentTelemetry => SystemSentTelemetryAttr::spec_meta(),
        AttrId::SystemUnused4 => SystemUnused4Attr::spec_meta(),
        AttrId::SystemLastCommandError => SystemLastCommandErrorAttr::spec_meta(),
        AttrId::SystemLastTelemetryError => SystemLastTelemetryErrorAttr::spec_meta(),
        AttrId::SystemUnused5 => SystemUnused5Attr::spec_meta(),
        AttrId::SystemBattery => SystemBatteryAttr::spec_meta(),
        AttrId::ConfigTelemetryPeriod => ConfigTelemetryPeriodAttr::spec_meta(),
        AttrId::ConfigTelemetryDelay => ConfigTelemetryDelayAttr::spec_meta(),
        AttrId::ConfigTelemetryDelayMin => ConfigTelemetryDelayMinAttr::spec_meta(),
        AttrId::ConfigTelemetryDelayMax => ConfigTelemetryDelayMaxAttr::spec_meta(),
        AttrId::ConfigFlags => ConfigFlagsAttr::spec_meta(),
        AttrId::ConfigTimezone => ConfigTimezoneAttr::spec_meta(),
        AttrId::ConfigLocation => ConfigLocationAttr::spec_meta(),
        AttrId::ConfigCls0GpioPulseDurationOc1 => ConfigCls0GpioPulseDurationOc1Attr::spec_meta(),
        AttrId::ConfigCls0GpioPulseDurationOc2 => ConfigCls0GpioPulseDurationOc2Attr::spec_meta(),
        AttrId::ConfigCls0GpioPulseDurationRl1 => ConfigCls0GpioPulseDurationRl1Attr::spec_meta(),
        AttrId::ConfigCls0GpioPulseDurationRl2 => ConfigCls0GpioPulseDurationRl2Attr::spec_meta(),
        AttrId::ConfigCls0GpioOutputsDefault => ConfigCls0GpioOutputsDefaultAttr::spec_meta(),
        AttrId::ConfigCls0GpioTelemetryOnChange => ConfigCls0GpioTelemetryOnChangeAttr::spec_meta(),
        AttrId::ConfigCls1GpioPulseDurationPc0 => ConfigCls1GpioPulseDurationPc0Attr::spec_meta(),
        AttrId::ConfigCls1GpioPulseDurationPc1 => ConfigCls1GpioPulseDurationPc1Attr::spec_meta(),
        AttrId::ConfigCls1GpioPulseDurationPc2 => ConfigCls1GpioPulseDurationPc2Attr::spec_meta(),
        AttrId::ConfigCls1GpioPulseDurationPc3 => ConfigCls1GpioPulseDurationPc3Attr::spec_meta(),
        AttrId::ConfigCls1GpioPulseDurationPd0 => ConfigCls1GpioPulseDurationPd0Attr::spec_meta(),
        AttrId::ConfigCls1GpioPulseDurationPd1 => ConfigCls1GpioPulseDurationPd1Attr::spec_meta(),
        AttrId::ConfigCls1GpioPulseDurationPd2 => ConfigCls1GpioPulseDurationPd2Attr::spec_meta(),
        AttrId::ConfigCls1GpioPulseDurationPd3 => ConfigCls1GpioPulseDurationPd3Attr::spec_meta(),
        AttrId::ConfigCls1GpioPulseDurationPei0 => ConfigCls1GpioPulseDurationPei0Attr::spec_meta(),
        AttrId::ConfigCls1GpioPulseDurationPei1 => ConfigCls1GpioPulseDurationPei1Attr::spec_meta(),
        AttrId::ConfigCls1GpioPulseDurationPei2 => ConfigCls1GpioPulseDurationPei2Attr::spec_meta(),
        AttrId::ConfigCls1GpioPulseDurationPei3 => ConfigCls1GpioPulseDurationPei3Attr::spec_meta(),
        AttrId::ConfigCls1GpioPulseDurationPei4 => ConfigCls1GpioPulseDurationPei4Attr::spec_meta(),
        AttrId::ConfigCls1GpioPulseDurationPei5 => ConfigCls1GpioPulseDurationPei5Attr::spec_meta(),
        AttrId::ConfigCls1GpioPulseDurationPei6 => ConfigCls1GpioPulseDurationPei6Attr::spec_meta(),
        AttrId::ConfigCls1GpioPulseDurationPei7 => ConfigCls1GpioPulseDurationPei7Attr::spec_meta(),
        AttrId::ConfigCls1GpioPulseDurationPb0 => ConfigCls1GpioPulseDurationPb0Attr::spec_meta(),
        AttrId::ConfigCls1GpioPulseDurationPe0 => ConfigCls1GpioPulseDurationPe0Attr::spec_meta(),
        AttrId::ConfigCls1GpioPulseDurationPe1 => ConfigCls1GpioPulseDurationPe1Attr::spec_meta(),
        AttrId::ConfigCls1GpioPulseDurationReserved => ConfigCls1GpioPulseDurationReservedAttr::spec_meta(),
        AttrId::ConfigCls1GpioDirections => ConfigCls1GpioDirectionsAttr::spec_meta(),
        AttrId::ConfigCls1GpioOutputsDefault => ConfigCls1GpioOutputsDefaultAttr::spec_meta(),
        AttrId::ConfigCls1GpioTelemetryOnChange => ConfigCls1GpioTelemetryOnChangeAttr::spec_meta(),
        AttrId::DiagResetCount => DiagResetCountAttr::spec_meta(),
        AttrId::DiagLastResetReason => DiagLastResetReasonAttr::spec_meta(),
        AttrId::DiagResetCountUnknown => DiagResetCountUnknownAttr::spec_meta(),
        AttrId::DiagResetCountPowerOn => DiagResetCountPowerOnAttr::spec_meta(),
        AttrId::DiagResetCountWatchdog => DiagResetCountWatchdogAttr::spec_meta(),
        AttrId::DiagResetCountExternal => DiagResetCountExternalAttr::spec_meta(),
        AttrId::DiagLastRuntimeUptime => DiagLastRuntimeUptimeAttr::spec_meta(),
        AttrId::DiagLastRuntimeUptimeTotal => DiagLastRuntimeUptimeTotalAttr::spec_meta(),
        AttrId::DiagLastResetStreakCount => DiagLastResetStreakCountAttr::spec_meta(),
        AttrId::DiagResetCountBrownOut => DiagResetCountBrownOutAttr::spec_meta(),
        AttrId::DiagBootSignal => DiagBootSignalAttr::spec_meta(),
    }
}

/// The attribute table, in key order.
pub open spec fn spec_all_metas() -> Seq<AttrMeta> {
    seq![
        IdNodeIdAttr::spec_meta(),
        IdVersionAttr::spec_meta(),
        IdNameAttr::spec_meta(),
        IdMagicNumberAttr::spec_meta(),
        IdBuildDateAttr::spec_meta(),
        IdBuildCommitAttr::spec_meta(),
        IdFeaturesAttr::spec_meta(),
        SystemUptimeSyncedAttr::spec_meta(),
        SystemTimeAttr::spec_meta(),
        SystemUptimeAttr::spec_meta(),
        SystemStartTimeAttr::spec_meta(),
        SystemLastTelemetryAttr::spec_meta(),
        SystemReceivedTotalAttr::spec_meta(),
        SystemReceivedReadAttributeAttr::spec_meta(),
        SystemReceivedWriteAttributeAttr::spec_meta(),
        SystemReceivedCommandAttr::spec_meta(),
        SystemReceivedRequestTelemetryAttr::spec_meta(),
        SystemReceivedIgnoredAttr::spec_meta(),
        SystemLastTelemetryMsModAttr::spec_meta(),
        SystemSentTotalAttr::spec_meta(),
        SystemSentTelemetryAttr::spec_meta(),
        SystemUnused4Attr::spec_meta(),
        SystemLastCommandErrorAttr::spec_meta(),
        SystemLastTelemetryErrorAttr::spec_meta(),
        SystemUnused5Attr::spec_meta(),
        SystemBatteryAttr::spec_meta(),
        ConfigTelemetryPeriodAttr::spec_meta(),
        ConfigTelemetryDelayAttr::spec_meta(),
        ConfigTelemetryDelayMinAttr::spec_meta(),
        ConfigTelemetryDelayMaxAttr::spec_meta(),
        ConfigFlagsAttr::spec_meta(),
        ConfigTimezoneAttr::spec_meta(),
        ConfigLocationAttr::spec_meta(),
        ConfigCls0GpioPulseDurationOc1Attr::spec_meta(),
        ConfigCls0GpioPulseDurationOc2Attr::spec_meta(),
        ConfigCls0GpioPulseDurationRl1Attr::spec_meta(),
        ConfigCls0GpioPulseDurationRl2Attr::spec_meta(),
        ConfigCls0GpioOutputsDefaultAttr::spec_meta(),
        ConfigCls0GpioTelemetryOnChangeAttr::spec_meta(),
        ConfigCls1GpioPulseDurationPc0Attr::spec_meta(),
        ConfigCls1GpioPulseDurationPc1Attr::spec_meta(),
        ConfigCls1GpioPulseDurationPc2Attr::spec_meta(),
        ConfigCls1GpioPulseDurationPc3Attr::spec_meta(),
        ConfigCls1GpioPulseDurationPd0Attr::spec_meta(),
        ConfigCls1GpioPulseDurationPd1Attr::spec_meta(),
        ConfigCls1GpioPulseDurationPd2Attr::spec_meta(),
        ConfigCls1GpioPulseDurationPd3Attr::spec_meta(),
        ConfigCls1GpioPulseDurationPei0Attr::spec_meta(),
        ConfigCls1GpioPulseDurationPei1Attr::spec_meta(),
        ConfigCls1GpioPulseDurationPei2Attr::spec_meta(),
        ConfigCls1GpioPulseDurationPei3Attr::spec_meta(),
        ConfigCls1GpioPulseDurationPei4Attr::spec_meta(),
        ConfigCls1GpioPulseDurationPei5Attr::spec_meta(),
        ConfigCls1GpioPulseDurationPei6Attr::spec_meta(),
        ConfigCls1GpioPulseDurationPei7Attr::spec_meta(),
        ConfigCls1GpioPulseDurationPb0Attr::spec_meta(),
        ConfigCls1GpioPulseDurationPe0Attr::spec_meta(),
        ConfigCls1GpioPulseDurationPe1Attr::spec_meta(),
        ConfigCls1GpioPulseDurationReservedAttr::spec_meta(),
        ConfigCls1GpioDirectionsAttr::spec_meta(),
        ConfigCls1GpioOutputsDefaultAttr::spec_meta(),
        ConfigCls1GpioTelemetryOnChangeAttr::spec_meta(),
        DiagResetCountAttr::spec_meta(),
        DiagLastResetReasonAttr::spec_meta(),
        DiagResetCountUnknownAttr::spec_meta(),
        DiagResetCountPowerOnAttr::spec_meta(),
        DiagResetCountWatchdogAttr::spec_meta(),
        DiagResetCountExternalAttr::spec_meta(),
        DiagLastRuntimeUptimeAttr::spec_meta(),
        DiagLastRuntimeUptimeTotalAttr::spec_meta(),
        DiagLastResetStreakCountAttr::spec_meta(),
        DiagResetCountBrownOutAttr::spec_meta(),
        DiagBootSignalAttr::spec_meta(),
    ]
}

/// The first description in `metas` that contains `key`.
pub open spec fn spec_find_by_key(metas: Seq<AttrMeta>, key: AttrKey) -> Option<AttrMeta>
    decreases metas.len(),
{
    if metas.len() == 0 {
        None
    } else if metas[0].spec_contains_key(key) {
        Some(metas[0])
    } else {
        spec_find_by_key(metas.drop_first(), key)
    }
}

/// The first description in `metas` whose name equals `name` up to ASCII case.
pub open spec fn spec_find_by_name(metas: Seq<AttrMeta>, name: Seq<char>) -> Option<AttrMeta>
    decreases metas.len(),
{
    if metas.len() == 0 {
        None
    } else if spec_eq_ignore_ascii_case(metas[0].display_name@, name) {
        Some(metas[0])
    } else {
        spec_find_by_name(metas.drop_first(), name)
    }
}

/// The description of the attribute that the raw key `key` addresses.
pub open spec fn spec_meta_by_key(key: u16) -> Option<AttrMeta> {
    spec_find_by_key(spec_all_metas(), AttrKey::spec_new(key))
}

impl ParsedAttributeValue {
    /// The attribute of the value.
    pub open spec fn spec_id(&self) -> AttrId {
        match self {
            ParsedAttributeValue::IdNodeId(_) => AttrId::IdNodeId,
            ParsedAttributeValue::IdVersion(_) => AttrId::IdVersion,
            ParsedAttributeValue::IdName(_) => AttrId::IdName,
            ParsedAttributeValue::IdMagicNumber(_) => AttrId::IdMagicNumber,
            ParsedAttributeValue::IdBuildDate(_) => AttrId::IdBuildDate,
            ParsedAttributeValue::IdBuildCommit(_) => AttrId::IdBuildCommit,
            ParsedAttributeValue::IdFeatures(_) => AttrId::IdFeatures,
            ParsedAttributeValue::SystemUptimeSynced(_) => AttrId::SystemUptimeSynced,
            ParsedAttributeValue::SystemTime(_) => AttrId::SystemTime,
            ParsedAttributeValue::SystemUptime(_) => AttrId::SystemUptime,
            ParsedAttributeValue::SystemStartTime(_) => AttrId::SystemStartTime,
            ParsedAttributeValue::SystemLastTelemetry(_) => AttrId::SystemLastTelemetry,
            ParsedAttributeValue::SystemReceivedTotal(_) => AttrId::SystemReceivedTotal,
            ParsedAttributeValue::SystemReceivedReadAttribute(_) => AttrId::SystemReceivedReadAttribute,
            ParsedAttributeValue::SystemReceivedWriteAttribute(_) => AttrId::SystemReceivedWriteAttribute,
            ParsedAttributeValue::SystemReceivedCommand(_) => AttrId::SystemReceivedCommand,
            ParsedAttributeValue::SystemReceivedRequestTelemetry(_) => AttrId::SystemReceivedRequestTelemetry,
            ParsedAttributeValue::SystemReceivedIgnored(_) => AttrId::SystemReceivedIgnored,
            ParsedAttributeValue::SystemLastTelemetryMsMod(_) => AttrId::SystemLastTelemetryMsMod,
            ParsedAttributeValue::SystemSentTotal(_) => AttrId::SystemSentTotal,
            ParsedAttributeValue::SystemSentTelemetry(_) => AttrId::SystemSentTelemetry,
            ParsedAttributeValue::SystemUnused4(_) => AttrId::SystemUnused4,
            ParsedAttributeValue::SystemLastCommandError(_) => AttrId::SystemLastCommandError,
            ParsedAttributeValue::SystemLastTelemetryError(_) => AttrId::SystemLastTelemetryError,
            ParsedAttributeValue::SystemUnused5(_) => AttrId::SystemUnused5,
            ParsedAttributeValue::SystemBattery(_) => AttrId::SystemBattery,
            ParsedAttributeValue::ConfigTelemetryPeriod(_) => AttrId::ConfigTelemetryPeriod,
            ParsedAttributeValue::ConfigTelemetryDelay(_) => AttrId::ConfigTelemetryDelay,
            ParsedAttributeValue::ConfigTelemetryDelayMin(_) => AttrId::ConfigTelemetryDelayMin,
            ParsedAttributeValue::ConfigTelemetryDelayMax(_) => AttrId::ConfigTelemetryDelayMax,
            ParsedAttributeValue::ConfigFlags(_) => AttrId::ConfigFlags,
            ParsedAttributeValue::ConfigTimezone(_) => AttrId::ConfigTimezone,
            ParsedAttributeValue::ConfigLocation(_) => AttrId::ConfigLocation,
            ParsedAttributeValue::ConfigCls0GpioPulseDurationOc1(_) => AttrId::ConfigCls0GpioPulseDurationOc1,
            ParsedAttributeValue::ConfigCls0GpioPulseDurationOc2(_) => AttrId::ConfigCls0GpioPulseDurationOc2,
            ParsedAttributeValue::ConfigCls0GpioPulseDurationRl1(_) => AttrId::ConfigCls0GpioPulseDurationRl1,
            ParsedAttributeValue::ConfigCls0GpioPulseDurationRl2(_) => AttrId::ConfigCls0GpioPulseDurationRl2,
            ParsedAttributeValue::ConfigCls0GpioOutputsDefault(_) => AttrId::ConfigCls0GpioOutputsDefault,
            ParsedAttributeValue::ConfigCls0GpioTelemetryOnChange(_) => AttrId::ConfigCls0GpioTelemetryOnChange,
            ParsedAttributeValue::ConfigCls1GpioPulseDurationPc0(_) => AttrId::ConfigCls1GpioPulseDurationPc0,
            ParsedAttributeValue::ConfigCls1GpioPulseDurationPc1(_) => AttrId::ConfigCls1GpioPulseDurationPc1,
            ParsedAttributeValue::ConfigCls1GpioPulseDurationPc2(_) => AttrId::ConfigCls1GpioPulseDurationPc2,
            ParsedAttributeValue::ConfigCls1GpioPulseDurationPc3(_) => AttrId::ConfigCls1GpioPulseDurationPc3,
            ParsedAttributeValue::ConfigCls1GpioPulseDurationPd0(_) => AttrId::ConfigCls1GpioPulseDurationPd0,
            ParsedAttributeValue::ConfigCls1GpioPulseDurationPd1(_) => AttrId::ConfigCls1GpioPulseDurationPd1,
            ParsedAttributeValue::ConfigCls1GpioPulseDurationPd2(_) => AttrId::ConfigCls1GpioPulseDurationPd2,
            ParsedAttributeValue::ConfigCls1GpioPulseDurationPd3(_) => AttrId::ConfigCls1GpioPulseDurationPd3,
            ParsedAttributeValue::ConfigCls1GpioPulseDurationPei0(_) => AttrId::ConfigCls1GpioPulseDurationPei0,
            ParsedAttributeValue::ConfigCls1GpioPulseDurationPei1(_) => AttrId::ConfigCls1GpioPulseDurationPei1,
            ParsedAttributeValue::ConfigCls1GpioPulseDurationPei2(_) => AttrId::ConfigCls1GpioPulseDurationPei2,
            ParsedAttributeValue::ConfigCls1GpioPulseDurationPei3(_) => AttrId::ConfigCls1GpioPulseDurationPei3,
            ParsedAttributeValue::ConfigCls1GpioPulseDurationPei4(_) => AttrId::ConfigCls1GpioPulseDurationPei4,
            ParsedAttributeValue::ConfigCls1GpioPulseDurationPei5(_) => AttrId::ConfigCls1GpioPulseDurationPei5,
            ParsedAttributeValue::ConfigCls1GpioPulseDurationPei6(_) => AttrId::ConfigCls1GpioPulseDurationPei6,
            ParsedAttributeValue::ConfigCls1GpioPulseDurationPei7(_) => AttrId::ConfigCls1GpioPulseDurationPei7,
            ParsedAttributeValue::ConfigCls1GpioPulseDurationPb0(_) => AttrId::ConfigCls1GpioPulseDurationPb0,
            ParsedAttributeValue::ConfigCls1GpioPulseDurationPe0(_) => AttrId::ConfigCls1GpioPulseDurationPe0,
            ParsedAttributeValue::ConfigCls1GpioPulseDurationPe1(_) => AttrId::ConfigCls1GpioPulseDurationPe1,
            ParsedAttributeValue::ConfigCls1GpioPulseDurationReserved(_) => AttrId::ConfigCls1GpioPulseDurationReserved,
            ParsedAttributeValue::ConfigCls1GpioDirections(_) => AttrId::ConfigCls1GpioDirections,
            ParsedAttributeValue::ConfigCls1GpioOutputsDefault(_) => AttrId::ConfigCls1GpioOutputsDefault,
            ParsedAttributeValue::ConfigCls1GpioTelemetryOnChange(_) => AttrId::ConfigCls1GpioTelemetryOnChange,
            ParsedAttributeValue::DiagResetCount(_) => AttrId::DiagResetCount,
            ParsedAttributeValue::DiagLastResetReason(_) => AttrId::DiagLastResetReason,
            ParsedAttributeValue::DiagResetCountUnknown(_) => AttrId::DiagResetCountUnknown,
            ParsedAttributeValue::DiagResetCountPowerOn(_) => AttrId::DiagResetCountPowerOn,
            ParsedAttributeValue::DiagResetCountWatchdog(_) => AttrId::DiagResetCountWatchdog,
            ParsedAttributeValue::DiagResetCountExternal(_) => AttrId::DiagResetCountExternal,
            ParsedAttributeValue::DiagLastRuntimeUptime(_) => AttrId::DiagLastRuntimeUptime,
            ParsedAttributeValue::DiagLastRuntimeUptimeTotal(_) => AttrId::DiagLastRuntimeUptimeTotal,
            ParsedAttributeValue::DiagLastResetStreakCount(_) => AttrId::DiagLastResetStreakCount,
            ParsedAttributeValue::DiagResetCountBrownOut(_) => AttrId::DiagResetCountBrownOut,
            ParsedAttributeValue::DiagBootSignal(_) => AttrId::DiagBootSignal,
        }
    }

    /// Whether this is the value that the raw content `raw` of part `key` decodes to.
    pub open spec fn spec_is_parse_of(&self, key: AttrKey, raw: u32) -> bool {
        match self {
            ParsedAttributeValue::IdNodeId(v) => v.spec_is_parse_of(key, raw),
            ParsedAttributeValue::IdVersion(v) => v.spec_is_parse_of(key, raw),
            ParsedAttributeValue::IdName(v) => v.spec_is_parse_of(key, raw),
            ParsedAttributeValue::IdMagicNumber(v) => v.spec_is_parse_of(key, raw),
            ParsedAttributeValue::IdBuildDate(v) => v.spec_is_parse_of(key, raw),
            ParsedAttributeValue::IdBuildCommit(v) => v.spec_is_parse_of(key, raw),
            ParsedAttributeValue::IdFeatures(v) => v.spec_is_parse_of(key, raw),
            ParsedAttributeValue::SystemUptimeSynced(v) => v.spec_is_parse_of(key, raw),
            ParsedAttributeValue::SystemTime(v) => v.spec_is_parse_of(key, raw),
            ParsedAttributeValue::SystemUptime(v) => v.spec_is_parse_of(key, raw),
            ParsedAttributeValue::SystemStartTime(v) => v.spec_is_parse_of(key, raw),
            ParsedAttributeValue::SystemLastTelemetry(v) => v.spec_is_parse_of(key, raw),
            ParsedAttributeValue::SystemReceivedTotal(v) => v.spec_is_parse_of(key, raw),
            ParsedAttributeValue::SystemReceivedReadAttribute(v) => v.spec_is_parse_of(key, raw),
            ParsedAttributeValue::SystemReceivedWriteAttribute(v) => v.spec_is_parse_of(key, raw),
            ParsedAttributeValue::SystemReceivedCommand(v) => v.spec_is_parse_of(key, raw),
            ParsedAttributeValue::SystemReceivedRequestTelemetry(v) => v.spec_is_parse_of(key, raw),
            ParsedAttributeValue::SystemReceivedIgnored(v) => v.spec_is_parse_of(key, raw),
            ParsedAttributeValue::SystemLastTelemetryMsMod(v) => v.spec_is_parse_of(key, raw),
            ParsedAttributeValue::SystemSentTotal(v) => v.spec_is_parse_of(key, raw),
            ParsedAttributeValue::SystemSentTelemetry(v) => v.spec_is_parse_of(key, raw),
            ParsedAttributeValue::SystemUnused4(v) => v.spec_is_parse_of(key, raw),
            ParsedAttributeValue::SystemLastCommandError(v) => v.spec_is_parse_of(key, raw),
            ParsedAttributeValue::SystemLastTelemetryError(v) => v.spec_is_parse_of(key, raw),
            ParsedAttributeValue::SystemUnused5(v) => v.spec_is_parse_of(key, raw),
            ParsedAttributeValue::SystemBattery(v) => v.spec_is_parse_of(key, raw),
            ParsedAttributeValue::ConfigTelemetryPeriod(v) => v.spec_is_parse_of(key, raw),
            ParsedAttributeValue::ConfigTelemetryDelay(v) => v.spec_is_parse_of(key, raw),
            ParsedAttributeValue::ConfigTelemetryDelayMin(v) => v.spec_is_parse_of(key, raw),
            ParsedAttributeValue::ConfigTelemetryDelayMax(v) => v.spec_is_parse_of(key, raw),
            ParsedAttributeValue::ConfigFlags(v) => v.spec_is_parse_of(key, raw),
            ParsedAttributeValue::ConfigTimezone(v) => v.spec_is_parse_of(key, raw),
            ParsedAttributeValue::ConfigLocation(v) => v.spec_is_parse_of(key, raw),
            ParsedAttributeValue::ConfigCls0GpioPulseDurationOc1(v) => v.spec_is_parse_of(key, raw),
            ParsedAttributeValue::ConfigCls0GpioPulseDurationOc2(v) => v.spec_is_parse_of(key, raw),
            ParsedAttributeValue::ConfigCls0GpioPulseDurationRl1(v) => v.spec_is_parse_of(key, raw),
            ParsedAttributeValue::ConfigCls0GpioPulseDurationRl2(v) => v.spec_is_parse_of(key, raw),
            ParsedAttributeValue::ConfigCls0GpioOutputsDefault(v) => v.spec_is_parse_of(key, raw),
            ParsedAttributeValue::ConfigCls0GpioTelemetryOnChange(v) => v.spec_is_parse_of(key, raw),
            ParsedAttributeValue::ConfigCls1GpioPulseDurationPc0(v) => v.spec_is_parse_of(key, raw),
            ParsedAttributeValue::ConfigCls1GpioPulseDurationPc1(v) => v.spec_is_parse_of(key, raw),
            ParsedAttributeValue::ConfigCls1GpioPulseDurationPc2(v) => v.spec_is_parse_of(key, raw),
            ParsedAttributeValue::ConfigCls1GpioPulseDurationPc3(v) => v.spec_is_parse_of(key, raw),
            ParsedAttributeValue::ConfigCls1GpioPulseDurationPd0(v) => v.spec_is_parse_of(key, raw),
            ParsedAttributeValue::ConfigCls1GpioPulseDurationPd1(v) => v.spec_is_parse_of(key, raw),
            ParsedAttributeValue::ConfigCls1GpioPulseDurationPd2(v) => v.spec_is_parse_of(key, raw),
            ParsedAttributeValue::ConfigCls1GpioPulseDurationPd3(v) => v.spec_is_parse_of(key, raw),
            ParsedAttributeValue::ConfigCls1GpioPulseDurationPei0(v) => v.spec_is_parse_of(key, raw),
            ParsedAttributeValue::ConfigCls1GpioPulseDurationPei1(v) => v.spec_is_parse_of(key, raw),
            ParsedAttributeValue::ConfigCls1GpioPulseDurationPei2(v) => v.spec_is_parse_of(key, raw),
            ParsedAttributeValue::ConfigCls1GpioPulseDurationPei3(v) => v.spec_is_parse_of(key, raw),
            ParsedAttributeValue::ConfigCls1GpioPulseDurationPei4(v) => v.spec_is_parse_of(key, raw),
            ParsedAttributeValue::ConfigCls1GpioPulseDurationPei5(v) => v.spec_is_parse_of(key, raw),
            ParsedAttributeValue::ConfigCls1GpioPulseDurationPei6(v) => v.spec_is_parse_of(key, raw),
            ParsedAttributeValue::ConfigCls1GpioPulseDurationPei7(v) => v.spec_is_parse_of(key, raw),
            ParsedAttributeValue::ConfigCls1GpioPulseDurationPb0(v) => v.spec_is_parse_of(key, raw),
            ParsedAttributeValue::ConfigCls1GpioPulseDurationPe0(v) => v.spec_is_parse_of(key, raw),
            ParsedAttributeValue::ConfigCls1GpioPulseDurationPe1(v) => v.spec_is_parse_of(key, raw),
            ParsedAttributeValue::ConfigCls1GpioPulseDurationReserved(v) => v.spec_is_parse_of(key, raw),
            ParsedAttributeValue::ConfigCls1GpioDirections(v) => v.spec_is_parse_of(key, raw),
            ParsedAttributeValue::ConfigCls1GpioOutputsDefault(v) => v.spec_is_parse_of(key, raw),
            ParsedAttributeValue::ConfigCls1GpioTelemetryOnChange(v) => v.spec_is_parse_of(key, raw),
            ParsedAttributeValue::DiagResetCount(v) => v.spec_is_parse_of(key, raw),
            ParsedAttributeValue::DiagLastResetReason(v) => v.spec_is_parse_of(key, raw),
            ParsedAttributeValue::DiagResetCountUnknown(v) => v.spec_is_parse_of(key, raw),
            ParsedAttributeValue::DiagResetCountPowerOn(v) => v.spec_is_parse_of(key, raw),
            ParsedAttributeValue::DiagResetCountWatchdog(v) => v.spec_is_parse_of(key, raw),
            ParsedAttributeValue::DiagResetCountExternal(v) => v.spec_is_parse_of(key, raw),
            ParsedAttributeValue::DiagLastRuntimeUptime(v) => v.spec_is_parse_of(key, raw),
            ParsedAttributeValue::DiagLastRuntimeUptimeTotal(v) => v.spec_is_parse_of(key, raw),
            ParsedAttributeValue::DiagLastResetStreakCount(v) => v.spec_is_parse_of(key, raw),
            ParsedAttributeValue::DiagResetCountBrownOut(v) => v.spec_is_parse_of(key, raw),
            ParsedAttributeValue::DiagBootSignal(v) => v.spec_is_parse_of(key, raw),
        }
    }

    /// The description of the attribute of the value.
    pub fn get_meta(&self) -> (r: AttrMeta)
        ensures
            r == spec_attr_meta(self.spec_id()),
    {
        match self {
            ParsedAttributeValue::IdNodeId(_) => IdNodeIdAttr::meta(),
            ParsedAttributeValue::IdVersion(_) => IdVersionAttr::meta(),
            ParsedAttributeValue::IdName(_) => IdNameAttr::meta(),
            ParsedAttributeValue::IdMagicNumber(_) => IdMagicNumberAttr::meta(),
            ParsedAttributeValue::IdBuildDate(_) => IdBuildDateAttr::meta(),
            ParsedAttributeValue::IdBuildCommit(_) => IdBuildCommitAttr::meta(),
            ParsedAttributeValue::IdFeatures(_) => IdFeaturesAttr::meta(),
            ParsedAttributeValue::SystemUptimeSynced(_) => SystemUptimeSyncedAttr::meta(),
            ParsedAttributeValue::SystemTime(_) => SystemTimeAttr::meta(),
            ParsedAttributeValue::SystemUptime(_) => SystemUptimeAttr::meta(),
            ParsedAttributeValue::SystemStartTime(_) => SystemStartTimeAttr::meta(),
            ParsedAttributeValue::SystemLastTelemetry(_) => SystemLastTelemetryAttr::meta(),
            ParsedAttributeValue::SystemReceivedTotal(_) => SystemReceivedTotalAttr::meta(),
            ParsedAttributeValue::SystemReceivedReadAttribute(_) => SystemReceivedReadAttributeAttr::meta(),
            ParsedAttributeValue::SystemReceivedWriteAttribute(_) => SystemReceivedWriteAttributeAttr::meta(),
            ParsedAttributeValue::SystemReceivedCommand(_) => SystemReceivedCommandAttr::meta(),
            ParsedAttributeValue::SystemReceivedRequestTelemetry(_) => SystemReceivedRequestTelemetryAttr::meta(),
            ParsedAttributeValue::SystemReceivedIgnored(_) => SystemReceivedIgnoredAttr::meta(),
            ParsedAttributeValue::SystemLastTelemetryMsMod(_) => SystemLastTelemetryMsModAttr::meta(),
            ParsedAttributeValue::SystemSentTotal(_) => SystemSentTotalAttr::meta(),
            ParsedAttributeValue::SystemSentTelemetry(_) => SystemSentTelemetryAttr::meta(),
            ParsedAttributeValue::SystemUnused4(_) => SystemUnused4Attr::meta(),
            ParsedAttributeValue::SystemLastCommandError(_) => SystemLastCommandErrorAttr::meta(),
            ParsedAttributeValue::SystemLastTelemetryError(_) => SystemLastTelemetryErrorAttr::meta(),
            ParsedAttributeValue::SystemUnused5(_) => SystemUnused5Attr::meta(),
            ParsedAttributeValue::SystemBattery(_) => SystemBatteryAttr::meta(),
            ParsedAttributeValue::ConfigTelemetryPeriod(_) => ConfigTelemetryPeriodAttr::meta(),
            ParsedAttributeValue::ConfigTelemetryDelay(_) => ConfigTelemetryDelayAttr::meta(),
            ParsedAttributeValue::ConfigTelemetryDelayMin(_) => ConfigTelemetryDelayMinAttr::meta(),
            ParsedAttributeValue::ConfigTelemetryDelayMax(_) => ConfigTelemetryDelayMaxAttr::meta(),
            ParsedAttributeValue::ConfigFlags(_) => ConfigFlagsAttr::meta(),
            ParsedAttributeValue::ConfigTimezone(_) => ConfigTimezoneAttr::meta(),
            ParsedAttributeValue::ConfigLocation(_) => ConfigLocationAttr::meta(),
            ParsedAttributeValue::ConfigCls0GpioPulseDurationOc1(_) => ConfigCls0GpioPulseDurationOc1Attr::meta(),
            ParsedAttributeValue::ConfigCls0GpioPulseDurationOc2(_) => ConfigCls0GpioPulseDurationOc2Attr::meta(),
            ParsedAttributeValue::ConfigCls0GpioPulseDurationRl1(_) => ConfigCls0GpioPulseDurationRl1Attr::meta(),
            ParsedAttributeValue::ConfigCls0GpioPulseDurationRl2(_) => ConfigCls0GpioPulseDurationRl2Attr::meta(),
            ParsedAttributeValue::ConfigCls0GpioOutputsDefault(_) => ConfigCls0GpioOutputsDefaultAttr::meta(),
            ParsedAttributeValue::ConfigCls0GpioTelemetryOnChange(_) => ConfigCls0GpioTelemetryOnChangeAttr::meta(),
            ParsedAttributeValue::ConfigCls1GpioPulseDurationPc0(_) => ConfigCls1GpioPulseDurationPc0Attr::meta(),
            ParsedAttributeValue::ConfigCls1GpioPulseDurationPc1(_) => ConfigCls1GpioPulseDurationPc1Attr::meta(),
            ParsedAttributeValue::ConfigCls1GpioPulseDurationPc2(_) => ConfigCls1GpioPulseDurationPc2Attr::meta(),
            ParsedAttributeValue::ConfigCls1GpioPulseDurationPc3(_) => ConfigCls1GpioPulseDurationPc3Attr::meta(),
            ParsedAttributeValue::ConfigCls1GpioPulseDurationPd0(_) => ConfigCls1GpioPulseDurationPd0Attr::meta(),
            ParsedAttributeValue::ConfigCls1GpioPulseDurationPd1(_) => ConfigCls1GpioPulseDurationPd1Attr::meta(),
            ParsedAttributeValue::ConfigCls1GpioPulseDurationPd2(_) => ConfigCls1GpioPulseDurationPd2Attr::meta(),
            ParsedAttributeValue::ConfigCls1GpioPulseDurationPd3(_) => ConfigCls1GpioPulseDurationPd3Attr::meta(),
            ParsedAttributeValue::ConfigCls1GpioPulseDurationPei0(_) => ConfigCls1GpioPulseDurationPei0Attr::meta(),
            ParsedAttributeValue::ConfigCls1GpioPulseDurationPei1(_) => ConfigCls1GpioPulseDurationPei1Attr::meta(),
            ParsedAttributeValue::ConfigCls1GpioPulseDurationPei2(_) => ConfigCls1GpioPulseDurationPei2Attr::meta(),
            ParsedAttributeValue::ConfigCls1GpioPulseDurationPei3(_) => ConfigCls1GpioPulseDurationPei3Attr::meta(),
            ParsedAttributeValue::ConfigCls1GpioPulseDurationPei4(_) => ConfigCls1GpioPulseDurationPei4Attr::meta(),
            ParsedAttributeValue::ConfigCls1GpioPulseDurationPei5(_) => ConfigCls1GpioPulseDurationPei5Attr::meta(),
            ParsedAttributeValue::ConfigCls1GpioPulseDurationPei6(_) => ConfigCls1GpioPulseDurationPei6Attr::meta(),
            ParsedAttributeValue::ConfigCls1GpioPulseDurationPei7(_) => ConfigCls1GpioPulseDurationPei7Attr::meta(),
            ParsedAttributeValue::ConfigCls1GpioPulseDurationPb0(_) => ConfigCls1GpioPulseDurationPb0Attr::meta(),
            ParsedAttributeValue::ConfigCls1GpioPulseDurationPe0(_) => ConfigCls1GpioPulseDurationPe0Attr::meta(),
            ParsedAttributeValue::ConfigCls1GpioPulseDurationPe1(_) => ConfigCls1GpioPulseDurationPe1Attr::meta(),
            ParsedAttributeValue::ConfigCls1GpioPulseDurationReserved(_) => ConfigCls1GpioPulseDurationReservedAttr::meta(),
            ParsedAttributeValue::ConfigCls1GpioDirections(_) => ConfigCls1GpioDirectionsAttr::meta(),
            ParsedAttributeValue::ConfigCls1GpioOutputsDefault(_) => ConfigCls1GpioOutputsDefaultAttr::meta(),
            ParsedAttributeValue::ConfigCls1GpioTelemetryOnChange(_) => ConfigCls1GpioTelemetryOnChangeAttr::meta(),
            ParsedAttributeValue::DiagResetCount(_) => DiagResetCountAttr::meta(),
            ParsedAttributeValue::DiagLastResetReason(_) => DiagLastResetReasonAttr::meta(),
            ParsedAttributeValue::DiagResetCountUnknown(_) => DiagResetCountUnknownAttr::meta(),
            ParsedAttributeValue::DiagResetCountPowerOn(_) => DiagResetCountPowerOnAttr::meta(),
            ParsedAttributeValue::DiagResetCountWatchdog(_) => DiagResetCountWatchdogAttr::meta(),
            ParsedAttributeValue::DiagResetCountExternal(_) => DiagResetCountExternalAttr::meta(),
            ParsedAttributeValue::DiagLastRuntimeUptime(_) => DiagLastRuntimeUptimeAttr::meta(),
            ParsedAttributeValue::DiagLastRuntimeUptimeTotal(_) => DiagLastRuntimeUptimeTotalAttr::meta(),
            ParsedAttributeValue::DiagLastResetStreakCount(_) => DiagLastResetStreakCountAttr::meta(),
            ParsedAttributeValue::DiagResetCountBrownOut(_) => DiagResetCountBrownOutAttr::meta(),
            ParsedAttributeValue::DiagBootSignal(_) => DiagBootSignalAttr::meta(),
        }
    }
}

/// The attribute table, in key order.
#[verifier::spinoff_prover]
#[verifier::rlimit(100)]
pub fn all_attr_metas() -> (r: Vec<AttrMeta>)
    ensures
        r@ == spec_all_metas(),
{
    let mut v: Vec<AttrMeta> = Vec::with_capacity(73);
    v.push(IdNodeIdAttr::meta());
    v.push(IdVersionAttr::meta());
    v.push(IdNameAttr::meta());
    v.push(IdMagicNumberAttr::meta());
    v.push(IdBuildDateAttr::meta());
    v.push(IdBuildCommitAttr::meta());
    v.push(IdFeaturesAttr::meta());
    v.push(SystemUptimeSyncedAttr::meta());
    v.push(SystemTimeAttr::meta());
    v.push(SystemUptimeAttr::meta());
    v.push(SystemStartTimeAttr::meta());
    v.push(SystemLastTelemetryAttr::meta());
    v.push(SystemReceivedTotalAttr::meta());
    v.push(SystemReceivedReadAttributeAttr::meta());
    v.push(SystemReceivedWriteAttributeAttr::meta());
    v.push(SystemReceivedCommandAttr::meta());
    v.push(SystemReceivedRequestTelemetryAttr::meta());
    v.push(SystemReceivedIgnoredAttr::meta());
    v.push(SystemLastTelemetryMsModAttr::meta());
    v.push(SystemSentTotalAttr::meta());
    v.push(SystemSentTelemetryAttr::meta());
    v.push(SystemUnused4Attr::meta());
    v.push(SystemLastCommandErrorAttr::meta());
    v.push(SystemLastTelemetryErrorAttr::meta());
    v.push(SystemUnused5Attr::meta());
    v.push(SystemBatteryAttr::meta());
    v.push(ConfigTelemetryPeriodAttr::meta());
    v.push(ConfigTelemetryDelayAttr::meta());
    v.push(ConfigTelemetryDelayMinAttr::meta());
    v.push(ConfigTelemetryDelayMaxAttr::meta());
    v.push(ConfigFlagsAttr::meta());
    v.push(ConfigTimezoneAttr::meta());
    v.push(ConfigLocationAttr::meta());
    v.push(ConfigCls0GpioPulseDurationOc1Attr::meta());
    v.push(ConfigCls0GpioPulseDurationOc2Attr::meta());
    v.push(ConfigCls0GpioPulseDurationRl1Attr::meta());
    v.push(ConfigCls0GpioPulseDurationRl2Attr::meta());
    v.push(ConfigCls0GpioOutputsDefaultAttr::meta());
    v.push(ConfigCls0GpioTelemetryOnChangeAttr::meta());
    v.push(ConfigCls1GpioPulseDurationPc0Attr::meta());
    v.push(ConfigCls1GpioPulseDurationPc1Attr::meta());
    v.push(ConfigCls1GpioPulseDurationPc2Attr::meta());
    v.push(ConfigCls1GpioPulseDurationPc3Attr::meta());
    v.push(ConfigCls1GpioPulseDurationPd0Attr::meta());
    v.push(ConfigCls1GpioPulseDurationPd1Attr::meta());
    v.push(ConfigCls1GpioPulseDurationPd2Attr::meta());
    v.push(ConfigCls1GpioPulseDurationPd3Attr::meta());
    v.push(ConfigCls1GpioPulseDurationPei0Attr::meta());
    v.push(ConfigCls1GpioPulseDurationPei1Attr::meta());
    v.push(ConfigCls1GpioPulseDurationPei2Attr::meta());
    v.push(ConfigCls1GpioPulseDurationPei3Attr::meta());
    v.push(ConfigCls1GpioPulseDurationPei4Attr::meta());
    v.push(ConfigCls1GpioPulseDurationPei5Attr::meta());
    v.push(ConfigCls1GpioPulseDurationPei6Attr::meta());
    v.push(ConfigCls1GpioPulseDurationPei7Attr::meta());
    v.push(ConfigCls1GpioPulseDurationPb0Attr::meta());
    v.push(ConfigCls1GpioPulseDurationPe0Attr::meta());
    v.push(ConfigCls1GpioPulseDurationPe1Attr::meta());
    v.push(ConfigCls1GpioPulseDurationReservedAttr::meta());
    v.push(ConfigCls1GpioDirectionsAttr::meta());
    v.push(ConfigCls1GpioOutputsDefaultAttr::meta());
    v.push(ConfigCls1GpioTelemetryOnChangeAttr::meta());
    v.push(DiagResetCountAttr::meta());
    v.push(DiagLastResetReasonAttr::meta());
    v.push(DiagResetCountUnknownAttr::meta());
    v.push(DiagResetCountPowerOnAttr::meta());
    v.push(DiagResetCountWatchdogAttr::meta());
    v.push(DiagResetCountExternalAttr::meta());
    v.push(DiagLastRuntimeUptimeAttr::meta());
    v.push(DiagLastRuntimeUptimeTotalAttr::meta());
    v.push(DiagLastResetStreakCountAttr::meta());
    v.push(DiagResetCountBrownOutAttr::meta());
    v.push(DiagBootSignalAttr::meta());
    v
}

/// The attribute table, in key order.
pub fn iter_attrs() -> (r: Vec<AttrMeta>)
    ensures
        r@ == spec_all_metas(),
{
    all_attr_metas()
}

/// Every description of the table has a size of at most 32 bytes.
pub proof fn lemma_table_sizes()
    ensures
        spec_all_metas().len() == 73,
        forall|i: int| 0 <= i < 73 ==> (#[trigger] spec_all_metas()[i]).size <= 32,
{
}

/// The description of the attribute that the raw key `key` addresses
/// (any of its parts); `None` when no attribute has that key.
pub fn get_meta_by_key(key: u16) -> (r: Option<AttrMeta>)
    ensures
        r == spec_meta_by_key(key),
{
    let k = AttrKey::new(key);
    let metas = all_attr_metas();
    proof {
        lemma_table_sizes();
        assert(metas@.subrange(0, 73) =~= metas@);
    }
    let mut i: usize = 0;
    while i < metas.len()
        invariant
            i <= metas@.len(),
            metas@ == spec_all_metas(),
            k == AttrKey::spec_new(key),
            spec_find_by_key(metas@.subrange(i as int, metas@.len() as int), k) == spec_meta_by_key(
                key,
            ),
        decreases metas@.len() - i,
    {
        proof {
            lemma_table_sizes();
            assert(metas@.subrange(i as int, metas@.len() as int).drop_first() =~= metas@.subrange(
                i + 1,
                metas@.len() as int,
            ));
        }
        let m = metas[i];
        if m.contains_key(k) {
            return Some(m);
        }
        i = i + 1;
    }
    None
}

/// The description of the attribute named `display_name` (ASCII case
/// ignored); `None` when no attribute has that name.
pub fn get_meta_by_display_name(display_name: &str) -> (r: Option<AttrMeta>)
    ensures
        r == spec_find_by_name(spec_all_metas(), display_name@),
{
    let metas = all_attr_metas();
    proof {
        assert(metas@.subrange(0, metas@.len() as int) =~= metas@);
    }
    let mut i: usize = 0;
    while i < metas.len()
        invariant
            i <= metas@.len(),
            metas@ == spec_all_metas(),
            spec_find_by_name(metas@.subrange(i as int, metas@.len() as int), display_name@)
                == spec_find_by_name(spec_all_metas(), display_name@),
        decreases metas@.len() - i,
    {
        proof {
            assert(metas@.subrange(i as int, metas@.len() as int).drop_first() =~= metas@.subrange(
                i + 1,
                metas@.len() as int,
            ));
        }
        let m = metas[i];
        if eq_ignore_ascii_case(m.display_name, display_name) {
            return Some(m);
        }
        i = i + 1;
    }
    None
}

/// Decodes the raw content `raw` of the attribute part `key`; `None` when
/// no attribute has that key.
pub fn parse_attr_value(key: u16, raw: u32) -> (r: Option<ParsedAttributeValue>)
    ensures
        r is Some <==> spec_meta_by_key(key) is Some,
        r matches Some(v) ==> v.spec_id() == spec_meta_by_key(key)->0.id && v.spec_is_parse_of(
            AttrKey::spec_new(key),
            raw,
        ),
{
    let attr_key = AttrKey::new(key);
    let meta = match get_meta_by_key(key) {
        Some(m) => m,
        None => {
            return None;
        },
    };
    match meta.id {
        AttrId::IdNodeId => Some(ParsedAttributeValue::IdNodeId(IdNodeIdAttr::parse_value(attr_key, raw))),
        AttrId::IdVersion => Some(ParsedAttributeValue::IdVersion(IdVersionAttr::parse_value(attr_key, raw))),
        AttrId::IdName => Some(ParsedAttributeValue::IdName(IdNameAttr::parse_value(attr_key, raw))),
        AttrId::IdMagicNumber => Some(ParsedAttributeValue::IdMagicNumber(IdMagicNumberAttr::parse_value(attr_key, raw))),
        AttrId::IdBuildDate => Some(ParsedAttributeValue::IdBuildDate(IdBuildDateAttr::parse_value(attr_key, raw))),
        AttrId::IdBuildCommit => Some(ParsedAttributeValue::IdBuildCommit(IdBuildCommitAttr::parse_value(attr_key, raw))),
        AttrId::IdFeatures => Some(ParsedAttributeValue::IdFeatures(IdFeaturesAttr::parse_value(attr_key, raw))),
        AttrId::SystemUptimeSynced => Some(ParsedAttributeValue::SystemUptimeSynced(SystemUptimeSyncedAttr::parse_value(attr_key, raw))),
        AttrId::SystemTime => Some(ParsedAttributeValue::SystemTime(SystemTimeAttr::parse_value(attr_key, raw))),
        AttrId::SystemUptime => Some(ParsedAttributeValue::SystemUptime(SystemUptimeAttr::parse_value(attr_key, raw))),
        AttrId::SystemStartTime => Some(ParsedAttributeValue::SystemStartTime(SystemStartTimeAttr::parse_value(attr_key, raw))),
        AttrId::SystemLastTelemetry => Some(ParsedAttributeValue::SystemLastTelemetry(SystemLastTelemetryAttr::parse_value(attr_key, raw))),
        AttrId::SystemReceivedTotal => Some(ParsedAttributeValue::SystemReceivedTotal(SystemReceivedTotalAttr::parse_value(attr_key, raw))),
        AttrId::SystemReceivedReadAttribute => Some(ParsedAttributeValue::SystemReceivedReadAttribute(SystemReceivedReadAttributeAttr::parse_value(attr_key, raw))),
        AttrId::SystemReceivedWriteAttribute => Some(ParsedAttributeValue::SystemReceivedWriteAttribute(SystemReceivedWriteAttributeAttr::parse_value(attr_key, raw))),
        AttrId::SystemReceivedCommand => Some(ParsedAttributeValue::SystemReceivedCommand(SystemReceivedCommandAttr::parse_value(attr_key, raw))),
        AttrId::SystemReceivedRequestTelemetry => Some(ParsedAttributeValue::SystemReceivedRequestTelemetry(SystemReceivedRequestTelemetryAttr::parse_value(attr_key, raw))),
        AttrId::SystemReceivedIgnored => Some(ParsedAttributeValue::SystemReceivedIgnored(SystemReceivedIgnoredAttr::parse_value(attr_key, raw))),
        AttrId::SystemLastTelemetryMsMod => Some(ParsedAttributeValue::SystemLastTelemetryMsMod(SystemLastTelemetryMsModAttr::parse_value(attr_key, raw))),
        AttrId::SystemSentTotal => Some(ParsedAttributeValue::SystemSentTotal(SystemSentTotalAttr::parse_value(attr_key, raw))),
        AttrId::SystemSentTelemetry => Some(ParsedAttributeValue::SystemSentTelemetry(SystemSentTelemetryAttr::parse_value(attr_key, raw))),
        AttrId::SystemUnused4 => Some(ParsedAttributeValue::SystemUnused4(SystemUnused4Attr::parse_value(attr_key, raw))),
        AttrId::SystemLastCommandError => Some(ParsedAttributeValue::SystemLastCommandError(SystemLastCommandErrorAttr::parse_value(attr_key, raw))),
        AttrId::SystemLastTelemetryError => Some(ParsedAttributeValue::SystemLastTelemetryError(SystemLastTelemetryErrorAttr::parse_value(attr_key, raw))),
        AttrId::SystemUnused5 => Some(ParsedAttributeValue::SystemUnused5(SystemUnused5Attr::parse_value(attr_key, raw))),
        AttrId::SystemBattery => Some(ParsedAttributeValue::SystemBattery(SystemBatteryAttr::parse_value(attr_key, raw))),
        AttrId::ConfigTelemetryPeriod => Some(ParsedAttributeValue::ConfigTelemetryPeriod(ConfigTelemetryPeriodAttr::parse_value(attr_key, raw))),
        AttrId::ConfigTelemetryDelay => Some(ParsedAttributeValue::ConfigTelemetryDelay(ConfigTelemetryDelayAttr::parse_value(attr_key, raw))),
        AttrId::ConfigTelemetryDelayMin => Some(ParsedAttributeValue::ConfigTelemetryDelayMin(ConfigTelemetryDelayMinAttr::parse_value(attr_key, raw))),
        AttrId::ConfigTelemetryDelayMax => Some(ParsedAttributeValue::ConfigTelemetryDelayMax(ConfigTelemetryDelayMaxAttr::parse_value(attr_key, raw))),
        AttrId::ConfigFlags => Some(ParsedAttributeValue::ConfigFlags(ConfigFlagsAttr::parse_value(attr_key, raw))),
        AttrId::ConfigTimezone => Some(ParsedAttributeValue::ConfigTimezone(ConfigTimezoneAttr::parse_value(attr_key, raw))),
        AttrId::ConfigLocation => Some(ParsedAttributeValue::ConfigLocation(ConfigLocationAttr::parse_value(attr_key, raw))),
        AttrId::ConfigCls0GpioPulseDurationOc1 => Some(ParsedAttributeValue::ConfigCls0GpioPulseDurationOc1(ConfigCls0GpioPulseDurationOc1Attr::parse_value(attr_key, raw))),
        AttrId::ConfigCls0GpioPulseDurationOc2 => Some(ParsedAttributeValue::ConfigCls0GpioPulseDurationOc2(ConfigCls0GpioPulseDurationOc2Attr::parse_value(attr_key, raw))),
        AttrId::ConfigCls0GpioPulseDurationRl1 => Some(ParsedAttributeValue::ConfigCls0GpioPulseDurationRl1(ConfigCls0GpioPulseDurationRl1Attr::parse_value(attr_key, raw))),
        AttrId::ConfigCls0GpioPulseDurationRl2 => Some(ParsedAttributeValue::ConfigCls0GpioPulseDurationRl2(ConfigCls0GpioPulseDurationRl2Attr::parse_value(attr_key, raw))),
        AttrId::ConfigCls0GpioOutputsDefault => Some(ParsedAttributeValue::ConfigCls0GpioOutputsDefault(ConfigCls0GpioOutputsDefaultAttr::parse_value(attr_key, raw))),
        AttrId::ConfigCls0GpioTelemetryOnChange => Some(ParsedAttributeValue::ConfigCls0GpioTelemetryOnChange(ConfigCls0GpioTelemetryOnChangeAttr::parse_value(attr_key, raw))),
        AttrId::ConfigCls1GpioPulseDurationPc0 => Some(ParsedAttributeValue::ConfigCls1GpioPulseDurationPc0(ConfigCls1GpioPulseDurationPc0Attr::parse_value(attr_key, raw))),
        AttrId::ConfigCls1GpioPulseDurationPc1 => Some(ParsedAttributeValue::ConfigCls1GpioPulseDurationPc1(ConfigCls1GpioPulseDurationPc1Attr::parse_value(attr_key, raw))),
        AttrId::ConfigCls1GpioPulseDurationPc2 => Some(ParsedAttributeValue::ConfigCls1GpioPulseDurationPc2(ConfigCls1GpioPulseDurationPc2Attr::parse_value(attr_key, raw))),
        AttrId::ConfigCls1GpioPulseDurationPc3 => Some(ParsedAttributeValue::ConfigCls1GpioPulseDurationPc3(ConfigCls1GpioPulseDurationPc3Attr::parse_value(attr_key, raw))),
        AttrId::ConfigCls1GpioPulseDurationPd0 => Some(ParsedAttributeValue::ConfigCls1GpioPulseDurationPd0(ConfigCls1GpioPulseDurationPd0Attr::parse_value(attr_key, raw))),
        AttrId::ConfigCls1GpioPulseDurationPd1 => Some(ParsedAttributeValue::ConfigCls1GpioPulseDurationPd1(ConfigCls1GpioPulseDurationPd1Attr::parse_value(attr_key, raw))),
        AttrId::ConfigCls1GpioPulseDurationPd2 => Some(ParsedAttributeValue::ConfigCls1GpioPulseDurationPd2(ConfigCls1GpioPulseDurationPd2Attr::parse_value(attr_key, raw))),
        AttrId::ConfigCls1GpioPulseDurationPd3 => Some(ParsedAttributeValue::ConfigCls1GpioPulseDurationPd3(ConfigCls1GpioPulseDurationPd3Attr::parse_value(attr_key, raw))),
        AttrId::ConfigCls1GpioPulseDurationPei0 => Some(ParsedAttributeValue::ConfigCls1GpioPulseDurationPei0(ConfigCls1GpioPulseDurationPei0Attr::parse_value(attr_key, raw))),
        AttrId::ConfigCls1GpioPulseDurationPei1 => Some(ParsedAttributeValue::ConfigCls1GpioPulseDurationPei1(ConfigCls1GpioPulseDurationPei1Attr::parse_value(attr_key, raw))),
        AttrId::ConfigCls1GpioPulseDurationPei2 => Some(ParsedAttributeValue::ConfigCls1GpioPulseDurationPei2(ConfigCls1GpioPulseDurationPei2Attr::parse_value(attr_key, raw))),
        AttrId::ConfigCls1GpioPulseDurationPei3 => Some(ParsedAttributeValue::ConfigCls1GpioPulseDurationPei3(ConfigCls1GpioPulseDurationPei3Attr::parse_value(attr_key, raw))),
        AttrId::ConfigCls1GpioPulseDurationPei4 => Some(ParsedAttributeValue::ConfigCls1GpioPulseDurationPei4(ConfigCls1GpioPulseDurationPei4Attr::parse_value(attr_key, raw))),
        AttrId::ConfigCls1GpioPulseDurationPei5 => Some(ParsedAttributeValue::ConfigCls1GpioPulseDurationPei5(ConfigCls1GpioPulseDurationPei5Attr::parse_value(attr_key, raw))),
        AttrId::ConfigCls1GpioPulseDurationPei6 => Some(ParsedAttributeValue::ConfigCls1GpioPulseDurationPei6(ConfigCls1GpioPulseDurationPei6Attr::parse_value(attr_key, raw))),
        AttrId::ConfigCls1GpioPulseDurationPei7 => Some(ParsedAttributeValue::ConfigCls1GpioPulseDurationPei7(ConfigCls1GpioPulseDurationPei7Attr::parse_value(attr_key, raw))),
        AttrId::ConfigCls1GpioPulseDurationPb0 => Some(ParsedAttributeValue::ConfigCls1GpioPulseDurationPb0(ConfigCls1GpioPulseDurationPb0Attr::parse_value(attr_key, raw))),
        AttrId::ConfigCls1GpioPulseDurationPe0 => Some(ParsedAttributeValue::ConfigCls1GpioPulseDurationPe0(ConfigCls1GpioPulseDurationPe0Attr::parse_value(attr_key, raw))),
        AttrId::ConfigCls1GpioPulseDurationPe1 => Some(ParsedAttributeValue::ConfigCls1GpioPulseDurationPe1(ConfigCls1GpioPulseDurationPe1Attr::parse_value(attr_key, raw))),
        AttrId::ConfigCls1GpioPulseDurationReserved => Some(ParsedAttributeValue::ConfigCls1GpioPulseDurationReserved(ConfigCls1GpioPulseDurationReservedAttr::parse_value(attr_key, raw))),
        AttrId::ConfigCls1GpioDirections => Some(ParsedAttributeValue::ConfigCls1GpioDirections(ConfigCls1GpioDirectionsAttr::parse_value(attr_key, raw))),
        AttrId::ConfigCls1GpioOutputsDefault => Some(ParsedAttributeValue::ConfigCls1GpioOutputsDefault(ConfigCls1GpioOutputsDefaultAttr::parse_value(attr_key, raw))),
        AttrId::ConfigCls1GpioTelemetryOnChange => Some(ParsedAttributeValue::ConfigCls1GpioTelemetryOnChange(ConfigCls1GpioTelemetryOnChangeAttr::parse_value(attr_key, raw))),
        AttrId::DiagResetCount => Some(ParsedAttributeValue::DiagResetCount(DiagResetCountAttr::parse_value(attr_key, raw))),
        AttrId::DiagLastResetReason => Some(ParsedAttributeValue::DiagLastResetReason(DiagLastResetReasonAttr::parse_value(attr_key, raw))),
        AttrId::DiagResetCountUnknown => Some(ParsedAttributeValue::DiagResetCountUnknown(DiagResetCountUnknownAttr::parse_value(attr_key, raw))),
        AttrId::DiagResetCountPowerOn => Some(ParsedAttributeValue::DiagResetCountPowerOn(DiagResetCountPowerOnAttr::parse_value(attr_key, raw))),
        AttrId::DiagResetCountWatchdog => Some(ParsedAttributeValue::DiagResetCountWatchdog(DiagResetCountWatchdogAttr::parse_value(attr_key, raw))),
        AttrId::DiagResetCountExternal => Some(ParsedAttributeValue::DiagResetCountExternal(DiagResetCountExternalAttr::parse_value(attr_key, raw))),
        AttrId::DiagLastRuntimeUptime => Some(ParsedAttributeValue::DiagLastRuntimeUptime(DiagLastRuntimeUptimeAttr::parse_value(attr_key, raw))),
        AttrId::DiagLastRuntimeUptimeTotal => Some(ParsedAttributeValue::DiagLastRuntimeUptimeTotal(DiagLastRuntimeUptimeTotalAttr::parse_value(attr_key, raw))),
        AttrId::DiagLastResetStreakCount => Some(ParsedAttributeValue::DiagLastResetStreakCount(DiagLastResetStreakCountAttr::parse_value(attr_key, raw))),
        AttrId::DiagResetCountBrownOut => Some(ParsedAttributeValue::DiagResetCountBrownOut(DiagResetCountBrownOutAttr::parse_value(attr_key, raw))),
        AttrId::DiagBootSignal => Some(ParsedAttributeValue::DiagBootSignal(DiagBootSignalAttr::parse_value(attr_key, raw))),
    }
}


impl ParsedAttributeValue {
    /// The text that shows the value, as its kind of value shows it.
    pub open spec fn spec_display(&self) -> Seq<char> {
        match self {
            ParsedAttributeValue::IdNodeId(v) => v.spec_display(),
            ParsedAttributeValue::IdVersion(v) => v.spec_display(),
            ParsedAttributeValue::IdName(v) => v.spec_display(),
            ParsedAttributeValue::IdMagicNumber(v) => v.spec_display(),
            ParsedAttributeValue::IdBuildDate(v) => v.spec_display(),
            ParsedAttributeValue::IdBuildCommit(v) => v.spec_display(),
            ParsedAttributeValue::IdFeatures(v) => v.spec_display(),
            ParsedAttributeValue::SystemUptimeSynced(v) => v.spec_display(),
            ParsedAttributeValue::SystemTime(v) => v.spec_display(),
            ParsedAttributeValue::SystemUptime(v) => v.spec_display(),
            ParsedAttributeValue::SystemStartTime(v) => v.spec_display(),
            ParsedAttributeValue::SystemLastTelemetry(v) => v.spec_display(),
            ParsedAttributeValue::SystemReceivedTotal(v) => v.spec_display(),
            ParsedAttributeValue::SystemReceivedReadAttribute(v) => v.spec_display(),
            ParsedAttributeValue::SystemReceivedWriteAttribute(v) => v.spec_display(),
            ParsedAttributeValue::SystemReceivedCommand(v) => v.spec_display(),
            ParsedAttributeValue::SystemReceivedRequestTelemetry(v) => v.spec_display(),
            ParsedAttributeValue::SystemReceivedIgnored(v) => v.spec_display(),
            ParsedAttributeValue::SystemLastTelemetryMsMod(v) => v.spec_display(),
            ParsedAttributeValue::SystemSentTotal(v) => v.spec_display(),
            ParsedAttributeValue::SystemSentTelemetry(v) => v.spec_display(),
            ParsedAttributeValue::SystemUnused4(v) => v.spec_display(),
            ParsedAttributeValue::SystemLastCommandError(v) => v.spec_display(),
            ParsedAttributeValue::SystemLastTelemetryError(v) => v.spec_display(),
            ParsedAttributeValue::SystemUnused5(v) => v.spec_display(),
            ParsedAttributeValue::SystemBattery(v) => v.spec_display(),
            ParsedAttributeValue::ConfigTelemetryPeriod(v) => v.spec_display(),
            ParsedAttributeValue::ConfigTelemetryDelay(v) => v.spec_display(),
            ParsedAttributeValue::ConfigTelemetryDelayMin(v) => v.spec_display(),
            ParsedAttributeValue::ConfigTelemetryDelayMax(v) => v.spec_display(),
            ParsedAttributeValue::ConfigFlags(v) => v.spec_display(),
            ParsedAttributeValue::ConfigTimezone(v) => v.spec_display(),
            ParsedAttributeValue::ConfigLocation(v) => v.spec_display(),
            ParsedAttributeValue::ConfigCls0GpioPulseDurationOc1(v) => v.spec_display(),
            ParsedAttributeValue::ConfigCls0GpioPulseDurationOc2(v) => v.spec_display(),
            ParsedAttributeValue::ConfigCls0GpioPulseDurationRl1(v) => v.spec_display(),
            ParsedAttributeValue::ConfigCls0GpioPulseDurationRl2(v) => v.spec_display(),
            ParsedAttributeValue::ConfigCls0GpioOutputsDefault(v) => v.spec_display(),
            ParsedAttributeValue::ConfigCls0GpioTelemetryOnChange(v) => v.spec_display(),
            ParsedAttributeValue::ConfigCls1GpioPulseDurationPc0(v) => v.spec_display(),
            ParsedAttributeValue::ConfigCls1GpioPulseDurationPc1(v) => v.spec_display(),
            ParsedAttributeValue::ConfigCls1GpioPulseDurationPc2(v) => v.spec_display(),
            ParsedAttributeValue::ConfigCls1GpioPulseDurationPc3(v) => v.spec_display(),
            ParsedAttributeValue::ConfigCls1GpioPulseDurationPd0(v) => v.spec_display(),
            ParsedAttributeValue::ConfigCls1GpioPulseDurationPd1(v) => v.spec_display(),
            ParsedAttributeValue::ConfigCls1GpioPulseDurationPd2(v) => v.spec_display(),
            ParsedAttributeValue::ConfigCls1GpioPulseDurationPd3(v) => v.spec_display(),
            ParsedAttributeValue::ConfigCls1GpioPulseDurationPei0(v) => v.spec_display(),
            ParsedAttributeValue::ConfigCls1GpioPulseDurationPei1(v) => v.spec_display(),
            ParsedAttributeValue::ConfigCls1GpioPulseDurationPei2(v) => v.spec_display(),
            ParsedAttributeValue::ConfigCls1GpioPulseDurationPei3(v) => v.spec_display(),
            ParsedAttributeValue::ConfigCls1GpioPulseDurationPei4(v) => v.spec_display(),
            ParsedAttributeValue::ConfigCls1GpioPulseDurationPei5(v) => v.spec_display(),
            ParsedAttributeValue::ConfigCls1GpioPulseDurationPei6(v) => v.spec_display(),
            ParsedAttributeValue::ConfigCls1GpioPulseDurationPei7(v) => v.spec_display(),
            ParsedAttributeValue::ConfigCls1GpioPulseDurationPb0(v) => v.spec_display(),
            ParsedAttributeValue::ConfigCls1GpioPulseDurationPe0(v) => v.spec_display(),
            ParsedAttributeValue::ConfigCls1GpioPulseDurationPe1(v) => v.spec_display(),
            ParsedAttributeValue::ConfigCls1GpioPulseDurationReserved(v) => v.spec_display(),
            ParsedAttributeValue::ConfigCls1GpioDirections(v) => v.spec_display(),
            ParsedAttributeValue::ConfigCls1GpioOutputsDefault(v) => v.spec_display(),
            ParsedAttributeValue::ConfigCls1GpioTelemetryOnChange(v) => v.spec_display(),
            ParsedAttributeValue::DiagResetCount(v) => v.spec_display(),
            ParsedAttributeValue::DiagLastResetReason(v) => v.spec_display(),
            ParsedAttributeValue::DiagResetCountUnknown(v) => v.spec_display(),
            ParsedAttributeValue::DiagResetCountPowerOn(v) => v.spec_display(),
            ParsedAttributeValue::DiagResetCountWatchdog(v) => v.spec_display(),
            ParsedAttributeValue::DiagResetCountExternal(v) => v.spec_display(),
            ParsedAttributeValue::DiagLastRuntimeUptime(v) => v.spec_display(),
            ParsedAttributeValue::DiagLastRuntimeUptimeTotal(v) => v.spec_display(),
            ParsedAttributeValue::DiagLastResetStreakCount(v) => v.spec_display(),
            ParsedAttributeValue::DiagResetCountBrownOut(v) => v.spec_display(),
            ParsedAttributeValue::DiagBootSignal(v) => v.spec_display(),
        }
    }

    /// The text that shows the value, as its kind of value shows it.
    pub fn to_display_string(&self) -> (r: String)
        ensures
            r@ == self.spec_display(),
    {
        match self {
            ParsedAttributeValue::IdNodeId(v) => v.to_display_string(),
            ParsedAttributeValue::IdVersion(v) => v.to_display_string(),
            ParsedAttributeValue::IdName(v) => v.to_display_string(),
            ParsedAttributeValue::IdMagicNumber(v) => v.to_display_string(),
            ParsedAttributeValue::IdBuildDate(v) => v.to_display_string(),
            ParsedAttributeValue::IdBuildCommit(v) => v.to_display_string(),
            ParsedAttributeValue::IdFeatures(v) => v.to_display_string(),
            ParsedAttributeValue::SystemUptimeSynced(v) => v.to_display_string(),
            ParsedAttributeValue::SystemTime(v) => v.to_display_string(),
            ParsedAttributeValue::SystemUptime(v) => v.to_display_string(),
            ParsedAttributeValue::SystemStartTime(v) => v.to_display_string(),
            ParsedAttributeValue::SystemLastTelemetry(v) => v.to_display_string(),
            ParsedAttributeValue::SystemReceivedTotal(v) => v.to_display_string(),
            ParsedAttributeValue::SystemReceivedReadAttribute(v) => v.to_display_string(),
            ParsedAttributeValue::SystemReceivedWriteAttribute(v) => v.to_display_string(),
            ParsedAttributeValue::SystemReceivedCommand(v) => v.to_display_string(),
            ParsedAttributeValue::SystemReceivedRequestTelemetry(v) => v.to_display_string(),
            ParsedAttributeValue::SystemReceivedIgnored(v) => v.to_display_string(),
            ParsedAttributeValue::SystemLastTelemetryMsMod(v) => v.to_display_string(),
            ParsedAttributeValue::SystemSentTotal(v) => v.to_display_string(),
            ParsedAttributeValue::SystemSentTelemetry(v) => v.to_display_string(),
            ParsedAttributeValue::SystemUnused4(v) => v.to_display_string(),
            ParsedAttributeValue::SystemLastCommandError(v) => v.to_display_string(),
            ParsedAttributeValue::SystemLastTelemetryError(v) => v.to_display_string(),
            ParsedAttributeValue::SystemUnused5(v) => v.to_display_string(),
            ParsedAttributeValue::SystemBattery(v) => v.to_display_string(),
            ParsedAttributeValue::ConfigTelemetryPeriod(v) => v.to_display_string(),
            ParsedAttributeValue::ConfigTelemetryDelay(v) => v.to_display_string(),
            ParsedAttributeValue::ConfigTelemetryDelayMin(v) => v.to_display_string(),
            ParsedAttributeValue::ConfigTelemetryDelayMax(v) => v.to_display_string(),
            ParsedAttributeValue::ConfigFlags(v) => v.to_display_string(),
            ParsedAttributeValue::ConfigTimezone(v) => v.to_display_string(),
            ParsedAttributeValue::ConfigLocation(v) => v.to_display_string(),
            ParsedAttributeValue::ConfigCls0GpioPulseDurationOc1(v) => v.to_display_string(),
            ParsedAttributeValue::ConfigCls0GpioPulseDurationOc2(v) => v.to_display_string(),
            ParsedAttributeValue::ConfigCls0GpioPulseDurationRl1(v) => v.to_display_string(),
            ParsedAttributeValue::ConfigCls0GpioPulseDurationRl2(v) => v.to_display_string(),
            ParsedAttributeValue::ConfigCls0GpioOutputsDefault(v) => v.to_display_string(),
            ParsedAttributeValue::ConfigCls0GpioTelemetryOnChange(v) => v.to_display_string(),
            ParsedAttributeValue::ConfigCls1GpioPulseDurationPc0(v) => v.to_display_string(),
            ParsedAttributeValue::ConfigCls1GpioPulseDurationPc1(v) => v.to_display_string(),
            ParsedAttributeValue::ConfigCls1GpioPulseDurationPc2(v) => v.to_display_string(),
            ParsedAttributeValue::ConfigCls1GpioPulseDurationPc3(v) => v.to_display_string(),
            ParsedAttributeValue::ConfigCls1GpioPulseDurationPd0(v) => v.to_display_string(),
            ParsedAttributeValue::ConfigCls1GpioPulseDurationPd1(v) => v.to_display_string(),
            ParsedAttributeValue::ConfigCls1GpioPulseDurationPd2(v) => v.to_display_string(),
            ParsedAttributeValue::ConfigCls1GpioPulseDurationPd3(v) => v.to_display_string(),
            ParsedAttributeValue::ConfigCls1GpioPulseDurationPei0(v) => v.to_display_string(),
            ParsedAttributeValue::ConfigCls1GpioPulseDurationPei1(v) => v.to_display_string(),
            ParsedAttributeValue::ConfigCls1GpioPulseDurationPei2(v) => v.to_display_string(),
            ParsedAttributeValue::ConfigCls1GpioPulseDurationPei3(v) => v.to_display_string(),
            ParsedAttributeValue::ConfigCls1GpioPulseDurationPei4(v) => v.to_display_string(),
            ParsedAttributeValue::ConfigCls1GpioPulseDurationPei5(v) => v.to_display_string(),
            ParsedAttributeValue::ConfigCls1GpioPulseDurationPei6(v) => v.to_display_string(),
            ParsedAttributeValue::ConfigCls1GpioPulseDurationPei7(v) => v.to_display_string(),
            ParsedAttributeValue::ConfigCls1GpioPulseDurationPb0(v) => v.to_display_string(),
            ParsedAttributeValue::ConfigCls1GpioPulseDurationPe0(v) => v.to_display_string(),
            ParsedAttributeValue::ConfigCls1GpioPulseDurationPe1(v) => v.to_display_string(),
            ParsedAttributeValue::ConfigCls1GpioPulseDurationReserved(v) => v.to_display_string(),
            ParsedAttributeValue::ConfigCls1GpioDirections(v) => v.to_display_string(),
            ParsedAttributeValue::ConfigCls1GpioOutputsDefault(v) => v.to_display_string(),
            ParsedAttributeValue::ConfigCls1GpioTelemetryOnChange(v) => v.to_display_string(),
            ParsedAttributeValue::DiagResetCount(v) => v.to_display_string(),
            ParsedAttributeValue::DiagLastResetReason(v) => v.to_display_string(),
            ParsedAttributeValue::DiagResetCountUnknown(v) => v.to_display_string(),
            ParsedAttributeValue::DiagResetCountPowerOn(v) => v.to_display_string(),
            ParsedAttributeValue::DiagResetCountWatchdog(v) => v.to_display_string(),
            ParsedAttributeValue::DiagResetCountExternal(v) => v.to_display_string(),
            ParsedAttributeValue::DiagLastRuntimeUptime(v) => v.to_display_string(),
            ParsedAttributeValue::DiagLastRuntimeUptimeTotal(v) => v.to_display_string(),
            ParsedAttributeValue::DiagLastResetStreakCount(v) => v.to_display_string(),
            ParsedAttributeValue::DiagResetCountBrownOut(v) => v.to_display_string(),
            ParsedAttributeValue::DiagBootSignal(v) => v.to_display_string(),
        }
    }
}

} // verus!
