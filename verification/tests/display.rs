use caniot_controller::caniot::attributes::values::{
    BytesPartValue, DeviceIdValue, Hex32Value, I16Value, I32Value, LocationValue,
    MillisecondsValue, ParsedValue, PartialCommitHashValue, SecondsValue, TextPartValue,
    TimestampValue, TimezoneValue, U16Value, U32Value, U8Value, VersionValue,
};
use caniot_controller::caniot::attributes::{parse_attr_value, AttrId, AttrKey, AttrValue};
use caniot_controller::caniot::textfmt::format_payload;

#[test]
fn numbers_are_shown_in_decimal_and_hexadecimal() {
    assert_eq!(U8Value { value: 10 }.to_display_string(), "10 / 0x0A");
    assert_eq!(U16Value { value: 300 }.to_display_string(), "300 / 0x012C");
    assert_eq!(
        U32Value { value: 0x12345678 }.to_display_string(),
        "305419896 / 0x12345678"
    );
    assert_eq!(I16Value { value: -5 }.to_display_string(), "-5");
    assert_eq!(I32Value { value: i32::MIN }.to_display_string(), "-2147483648");
    assert_eq!(Hex32Value { value: 0xab }.to_display_string(), "0x000000AB");
}

#[test]
fn identifiers_and_versions_are_shown() {
    assert_eq!(
        DeviceIdValue { raw: 0x0B, class: 1, sid: 3 }.to_display_string(),
        "0x0B (class 1, sid 3)"
    );
    assert_eq!(
        VersionValue { caniot: 1, application: 2 }.to_display_string(),
        "CANIOT 1, firmware 2"
    );
    assert_eq!(
        TextPartValue { part: 1, text: "ab".to_string() }.to_display_string(),
        "part 1: \"ab\""
    );
}

#[test]
fn times_are_shown() {
    assert_eq!(TimestampValue { epoch_seconds: 0 }.to_display_string(), "not set");
    assert_eq!(
        TimestampValue { epoch_seconds: 1431648000 }.to_display_string(),
        "2015-05-15 00:00:00 UTC"
    );
    assert_eq!(SecondsValue { seconds: 90061 }.to_display_string(), "1d 1h 1m 1s");
    assert_eq!(SecondsValue { seconds: 3661 }.to_display_string(), "1h 1m 1s");
    assert_eq!(MillisecondsValue { milliseconds: 5 }.to_display_string(), "5 ms");
    assert_eq!(TimezoneValue { offset_seconds: 3600 }.to_display_string(), "+01:00");
    assert_eq!(TimezoneValue { offset_seconds: -5400 }.to_display_string(), "-01:30");
}

#[test]
fn bytes_and_places_are_shown() {
    assert_eq!(
        LocationValue { region: "EU".to_string(), country: "FR".to_string() }.to_display_string(),
        "EU/FR"
    );
    assert_eq!(
        BytesPartValue { part: 2, bytes: vec![0xde, 0xad, 0xbe, 0xef] }.to_display_string(),
        "part 2: deadbeef"
    );
    assert_eq!(
        PartialCommitHashValue { raw: 0xcdab3412, bytes: [0x12, 0x34, 0xab, 0xcd] }
            .to_display_string(),
        "1234abcd..."
    );
}

#[test]
fn attributes_are_shown() {
    assert_eq!(AttrKey::new(0x3047).to_display_string(), "0x3047 (Diagnostics/4/7)");
    assert_eq!(
        AttrId::ConfigFlags.to_display_string(),
        "Configuration flags / 0x2040"
    );
    let attr = AttrId::ConfigFlags.parse(0b1_10_1).unwrap();
    assert_eq!(
        attr.to_display_string(),
        "Configuration flags [rw] = error_response=1, telemetry_delay_random=0, telemetry_endpoint=3, telemetry_periodic_enabled=0"
    );
    let v = parse_attr_value(AttrId::ConfigTimezone.key(), 3600).unwrap();
    assert_eq!(v.to_display_string(), "+01:00");
    assert_eq!(AttrValue::Milliseconds(7).to_display_string(), "7 ms");
    assert_eq!(AttrValue::ResetReason("watchdog").to_display_string(), "watchdog");
}

#[test]
fn payload_bytes_are_shown() {
    assert_eq!(format_payload(&[0x0a, 0xff, 0]), "0a ff 00");
    assert_eq!(format_payload(&[]), "");
}
