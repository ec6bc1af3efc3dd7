use caniot_controller::caniot::attributes::values::parse_text;
use caniot_controller::caniot::attributes::AttrKey;
use caniot_controller::caniot::text::eq_ignore_ascii_case;
use caniot_controller::caniot::types::SystemCommand;
use caniot_controller::caniot::{
    build_attribute_write_request, build_command_request, decode_cls0_telemetry,
    encode_sys_command, parse_error_payload, CaniotError, ConversionError, DeviceId, Endpoint,
    ErrorCode, ErrorSource, Id, Payload, ProtocolError, Request, RequestData, Response,
    ResponseData, Ty,
};
use caniot_controller::caniot::classes::{blc_parse_telemetry_as_class, boardlc_parse_telemetry_as_class};
use caniot_controller::caniot::decenc::decode_sys_command;

#[test]
fn device_id_roundtrip_on_values() {
    for v in 0..=0x3fu8 {
        let did = DeviceId::try_from_u8(v).unwrap();
        assert_eq!(did.to_u8(), v);
    }
    assert_eq!(DeviceId::try_from_u8(0x40), Err(ProtocolError::DeviceIdCreationError));
    assert_eq!(DeviceId::try_new(8, 0), Err(ProtocolError::DeviceIdCreationError));
    assert!(DeviceId::broadcast().is_broadcast());
    assert_eq!(DeviceId::broadcast().to_u8(), 0x3f);
}

#[test]
fn id_roundtrip_on_values() {
    for raw in 0..0x800u16 {
        assert_eq!(Id::from_u16(raw).to_u16(), raw);
    }
}

#[test]
fn error_code_roundtrip_on_values() {
    assert_eq!(ErrorCode::Ehandlert.value(), 0x3a08);
    assert_eq!(ErrorCode::from_i32(0x3a08), Some(ErrorCode::Ehandlert));
    assert_eq!(ErrorCode::from_i32(0), Some(ErrorCode::NoError));
    assert_eq!(ErrorCode::from_i32(12345), None);
    let e = CaniotError::from_i32(ErrorCode::Eframe.value()).unwrap();
    assert_eq!(e.value(), ErrorCode::Eframe.value());
}

#[test]
fn request_frame_roundtrip_on_values() {
    let did = DeviceId::try_new(3, 5).unwrap();
    let req = build_command_request(did, Endpoint::Application1, vec![1, 2, 3]);
    let id = req.get_can_id();
    let bytes = req.get_can_payload();
    let back = Request::try_from_can(Some(id), &bytes).unwrap();
    assert_eq!(back.device_id, did);
    match back.data {
        RequestData::Command { endpoint, payload } => {
            assert_eq!(endpoint, Endpoint::Application1);
            assert_eq!(payload.data(), &[1, 2, 3]);
        }
        _ => panic!("command expected"),
    }

    let req = build_attribute_write_request(did, 0x2000, 0x01020304);
    let back = Request::try_from_can(Some(req.get_can_id()), &req.get_can_payload()).unwrap();
    assert!(matches!(back.data, RequestData::AttributeWrite { key: 0x2000, value: 0x01020304 }));
    assert!(matches!(
        Request::try_from_can(None, &[]),
        Err(ConversionError::NotValidId)
    ));
}

#[test]
fn response_frame_roundtrip_on_values() {
    let did = DeviceId::try_new(1, 2).unwrap();
    let resp = Response {
        device_id: did,
        data: ResponseData::Telemetry {
            endpoint: Endpoint::BoardControl,
            payload: Payload::<Ty>::new(&[9, 8, 7]).unwrap(),
        },
    };
    let back = Response::try_from_can(Some(resp.get_can_id()), &resp.get_can_payload()).unwrap();
    assert_eq!(back.device_id, did);
    assert!(back.is_telemetry());

    let resp = Response {
        device_id: did,
        data: ResponseData::Attribute { key: 0x1020, value: 77 },
    };
    let back = Response::try_from_can(Some(resp.get_can_id()), &resp.get_can_payload()).unwrap();
    assert!(back.is_attribute());
    assert!(matches!(back.data, ResponseData::Attribute { key: 0x1020, value: 77 }));
    // a request identifier is no response
    let req = build_command_request(did, Endpoint::Application1, vec![]);
    assert!(matches!(
        Response::try_from_can(Some(req.get_can_id()), &[]),
        Err(ConversionError::NotValidResponse)
    ));
}

#[test]
fn error_payload_decoding() {
    let code = ErrorCode::Enoattr.value() as u32;
    let mut bytes = code.to_le_bytes().to_vec();
    bytes.extend_from_slice(&0x2000u32.to_le_bytes());
    let d = parse_error_payload(None, &bytes).unwrap();
    assert!(matches!(
        d,
        ResponseData::Error { source: ErrorSource::Attribute(Some(0x2000)), error: Some(ErrorCode::Enoattr) }
    ));
    let d = parse_error_payload(Some(Endpoint::BoardControl), &[]).unwrap();
    assert!(matches!(
        d,
        ResponseData::Error { source: ErrorSource::Telemetry(Endpoint::BoardControl, None), error: None }
    ));
}

#[test]
fn payload_size_limit() {
    assert!(Payload::<Ty>::new(&[0; 8]).is_ok());
    assert_eq!(
        Payload::<Ty>::new(&[0; 9]).unwrap_err(),
        ProtocolError::BufferSizeError
    );
    assert_eq!(Payload::<Ty>::max_size(), 8);
}

#[test]
fn sys_command_roundtrip_on_values() {
    let s = SystemCommand {
        hardware_reset: true,
        software_reset: false,
        watchdog_reset: true,
        watchdog_enable: false,
        factory_reset: true,
    };
    let b = encode_sys_command(s);
    assert_eq!(b, 0b0010_0101);
    assert_eq!(decode_sys_command(b), s);
}

#[test]
fn class0_payload_decoding() {
    let p = decode_cls0_telemetry(&[0b0001_0001, 0, 0, 0, 0, 0, 0]).unwrap();
    assert!(p.oc1 && p.in1 && !p.oc2);
}

#[test]
fn text_decoding_and_case() {
    let v = parse_text(AttrKey::new(0x0021), u32::from_le_bytes(*b"ab\0\0"));
    assert_eq!(v.text, "ab");
    assert_eq!(v.part, 1);
    assert!(eq_ignore_ascii_case("Battery Level", "battery level"));
    assert!(!eq_ignore_ascii_case("battery", "battery level"));
}

#[test]
fn conversion_errors() {
    let did = DeviceId::try_new(1, 2).unwrap();
    let resp = Response {
        device_id: did,
        data: ResponseData::Attribute { key: 1, value: 2 },
    };
    assert!(matches!(
        Request::try_from_can(Some(resp.get_can_id()), &resp.get_can_payload()),
        Err(ConversionError::NotValidRequest)
    ));
    assert_eq!(Endpoint::try_from_i32(9), Err(ConversionError::NotValidEndpoint));
    assert_eq!(Endpoint::try_from_i32(3), Ok(Endpoint::BoardControl));
}

#[test]
fn unsupported_class_is_refused() {
    let pl = Payload::<Ty>::new(&[0; 8]).unwrap();
    assert_eq!(
        boardlc_parse_telemetry_as_class(2, &pl).unwrap_err(),
        ProtocolError::UnsupportedClass
    );
    assert_eq!(
        blc_parse_telemetry_as_class(7, &pl).unwrap_err(),
        ProtocolError::UnsupportedClass
    );
}
