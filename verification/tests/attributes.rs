use caniot_controller::caniot::attributes::base::Attribute;
use caniot_controller::caniot::attributes::defs::{ConfigFlagsAttr, IdNodeIdAttr};
use caniot_controller::caniot::attributes::{
    get_meta_by_display_name, get_meta_by_key, iter_attrs, parse_attr, parse_attr_value, AttrId,
    AttrKey, AttrValue, Section,
};

#[test]
fn key_decoding() {
    let key = AttrKey::new(0x3047);

    assert_eq!(key.section, Section::Diag);
    assert_eq!(key.attr, 0x04);
    assert_eq!(key.part, 0x07);
    assert_eq!(key.root(), 0x3040);
}

#[test]
fn attr_id_parse() {
    let attr = AttrId::ConfigFlags.parse(0b1_10_1).unwrap();

    assert_eq!(attr.display_name(), "Configuration flags");

    match attr.value {
        AttrValue::ConfigFlags {
            error_response,
            telemetry_delay_random,
            telemetry_endpoint,
            telemetry_periodic_enabled,
        } => {
            assert!(error_response);
            assert!(!telemetry_delay_random);
            assert_eq!(telemetry_endpoint, 3);
            assert!(!telemetry_periodic_enabled);
        }
        _ => panic!("invalid attr value"),
    }
}

#[test]
fn multipart_contains_valid_parts_only() {
    let meta = AttrId::IdName.meta().unwrap();

    assert_eq!(meta.parts(), 8);
    assert!(meta.contains_key(AttrKey::new(0x0020)));
    assert!(meta.contains_key(AttrKey::new(0x0027)));
    assert!(!meta.contains_key(AttrKey::new(0x0028)));
}

#[test]
fn single_part_does_not_accept_part_one() {
    let meta = AttrId::ConfigFlags.meta().unwrap();

    assert_eq!(meta.parts(), 1);
    assert!(meta.contains_key(AttrKey::new(0x2040)));
    assert!(!meta.contains_key(AttrKey::new(0x2041)));
}

#[test]
fn lookup_by_part_key() {
    let meta = get_meta_by_key(0x0053).unwrap();

    assert_eq!(meta.id, AttrId::IdBuildCommit);
    assert_eq!(meta.display_name, "Firmware build commit");
}

#[test]
fn lookup_by_display_name() {
    let meta = get_meta_by_display_name("battery level").unwrap();

    assert_eq!(meta.id, AttrId::SystemBattery);
}

#[test]
fn trait_meta_and_section_are_consistent() {
    assert_eq!(IdNodeIdAttr::meta().section, Section::Identification);
}

#[test]
fn parse_config_flags_works() {
    let v = ConfigFlagsAttr::parse_value(AttrKey::new(AttrId::ConfigFlags.key()), 0b1_10_1);

    assert!(v.error_response);
    assert!(!v.telemetry_delay_random);
    assert_eq!(v.telemetry_endpoint, 3);
    assert!(!v.telemetry_periodic_enabled);
}

#[test]
fn enum_references_attr_impls() {
    let parsed = parse_attr_value(AttrId::ConfigTimezone.key(), 3600).unwrap();
    let meta = parsed.get_meta();

    assert_eq!(meta.id, AttrId::ConfigTimezone);
    assert_eq!(meta.display_name, "Device timezone");
}

#[test]
fn lookup_of_unknown_key_fails() {
    assert!(get_meta_by_key(0x3ff0).is_none());
    assert!(get_meta_by_display_name("no such attribute").is_none());
    assert!(parse_attr_value(0x3ff0, 0).is_none());
}

#[test]
fn lookup_by_display_name_ignores_case() {
    let meta = get_meta_by_display_name("BATTERY LEVEL").unwrap();
    assert_eq!(meta.id, AttrId::SystemBattery);
}

#[test]
fn every_part_key_finds_its_attribute() {
    let meta = AttrId::IdName.meta().unwrap();
    for part in 0..meta.parts() {
        let key = meta.part_key(part).unwrap();
        assert_eq!(get_meta_by_key(key).unwrap().id, AttrId::IdName);
    }
    assert!(meta.part_key(meta.parts()).is_none());
}

#[test]
fn test_attributes() {
    assert_eq!(get_meta_by_key(0x0000).unwrap().id, AttrId::IdNodeId);

    let parts = AttrId::IdBuildCommit.meta().unwrap().parts() as u16;
    assert_eq!(parts, 5);
    for part in 0..parts {
        assert_eq!(get_meta_by_key(0x0050 + part).unwrap().id, AttrId::IdBuildCommit);
    }
    assert!(get_meta_by_key(0x0050 + parts).is_none());
}

#[test]
fn table_is_consistent() {
    let metas = iter_attrs();
    assert_eq!(metas.len(), 73);
    for (i, m) in metas.iter().enumerate() {
        let key = m.key();
        assert_eq!(key & 0x000f, 0);
        assert!(key >> 12 <= 3);
        assert_eq!(AttrKey::new(key).section, m.section);
        assert!(1 <= m.parts() && m.parts() <= 8);
        assert!(m.read);
        assert_eq!(m.persistent, m.section == Section::Config);
        assert_eq!(
            m.write,
            m.section == Section::Config
                || m.id == AttrId::SystemTime
                || m.id == AttrId::DiagBootSignal
        );
        let found = m.id.meta().unwrap();
        assert_eq!(found.id, m.id);
        assert_eq!(found.display_name, m.display_name);
        for (j, other) in metas.iter().enumerate() {
            assert_eq!(i == j, other.id == m.id);
            assert_eq!(i == j, other.key() == key);
        }
        for part in 0..m.parts() {
            let part_key = m.part_key(part).unwrap();
            let k = AttrKey::new(part_key);
            assert_eq!(k.part, part);
            assert_eq!(k.root(), key);
            assert!(m.contains_key(k));
            assert_eq!(get_meta_by_key(part_key).unwrap().id, m.id);
        }
    }
}

#[test]
fn lookup_finds_a_key_only_inside_an_attribute() {
    for key in [0x0028u16, 0x0055, 0x2041, 0x4000] {
        assert!(get_meta_by_key(key).is_none());
        assert!(parse_attr_value(key, 0).is_none());
        assert!(iter_attrs().iter().all(|m| !m.contains_key(AttrKey::new(key))));
    }
    let value = parse_attr_value(0x0022, 7).unwrap();
    assert_eq!(value.get_meta().id, get_meta_by_key(0x0022).unwrap().id);
    assert!(value.get_meta().contains_key(AttrKey::new(0x0022)));
}

#[test]
fn access_follows_the_section() {
    let time = parse_attr(0x1010, 0).unwrap();
    assert!(time.is_readable() && time.is_writable() && !time.is_persistent());
    let period = parse_attr(0x2000, 0).unwrap();
    assert!(period.is_writable() && period.is_persistent());
    let uptime = parse_attr(0x1020, 0).unwrap();
    assert!(uptime.is_readable() && !uptime.is_writable() && !uptime.is_persistent());
    let boot = parse_attr(0x3100, 0).unwrap();
    assert!(boot.is_writable() && !boot.is_persistent());
}
