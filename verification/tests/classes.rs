use caniot_controller::caniot::classes::{blc_parse_telemetry, boardlc_parse_telemetry, class0, class1};
use caniot_controller::caniot::{AsPayload, ClCd, Payload, ProtocolError, Temperature, Ty, Xps};

#[test]
fn class0_test_telemetry() {
    let telem = class0::Telemetry::default();
    let ser: Vec<u8> = telem.into();
    assert_eq!(ser.len(), 7);
    assert_eq!(ser, vec![0, 0, 255, 255, 255, 255, 255]);

    let mut telem = class0::Telemetry::default();
    telem.oc1 = true;
    let ser: Vec<u8> = telem.into();
    assert_eq!(ser, vec![1, 0, 255, 255, 255, 255, 255]);

    let mut telem = class0::Telemetry::default();
    telem.in1 = true;
    let ser: Vec<u8> = telem.into();
    assert_eq!(ser, vec![16, 0, 255, 255, 255, 255, 255]);
}

#[test]
fn class1_test_telemetry() {
    let telem = class1::Telemetry::default();
    let ser = telem.to_raw_vec();
    assert_eq!(ser.len(), 8);
    assert_eq!(ser, vec![0, 0, 0, 255, 255, 255, 255, 255]);

    for i in 0..class1::Telemetry::default().ios.len() {
        let mut telem = class1::Telemetry::default();
        telem.ios[i] = true;
        let ser = telem.to_raw_vec();
        assert_eq!(ser.len(), 8);
        assert_eq!(ser[i / 8], 1 << (i % 8));
    }

    let temps = [
        Temperature::new(-1100),
        Temperature::new(0),
        Temperature::new(3300),
        Temperature::new(4400),
    ];

    for i in 0..=2 {
        for temp in temps.iter() {
            let mut telem = class1::Telemetry::default();
            telem.temp_out[i] = *temp;
            let ser = telem.to_raw_vec();

            let pl = Payload::<Ty>::try_from(ser).unwrap();
            let deser = class1::Telemetry::try_from(&pl);
            assert_eq!(deser.is_ok(), true);

            let deser = deser.unwrap();
            assert_eq!(deser.temp_out[i], *temp);
        }
    }
}

#[test]
fn command() {
    let mut cmd = class1::Command::default();
    for i in 0..class1::CLASS1_IO_COUNT {
        Xps::from_u8((i & 0x7) as u8).map(|x| cmd.ios[i] = x);
    }

    let ser = cmd.to_raw_vec();
    assert_eq!(ser.len(), 7);

    let deser = class1::Command::try_from_raw(&ser);
    assert_eq!(deser.is_ok(), true);

    let deser = deser.unwrap();
    for i in 0..class1::CLASS1_IO_COUNT {
        assert_eq!(deser.ios[i], cmd.ios[i]);
    }
}

#[test]
fn class0_telemetry_roundtrip_on_values() {
    let mut telem = class0::Telemetry::default();
    telem.oc2 = true;
    telem.in4 = true;
    telem.prl1 = true;
    telem.temp_in = Temperature::new(2150);
    telem.temp_out[0] = Temperature::new(-500);
    let ser = telem.to_raw_vec();
    let back = class0::Telemetry::try_from_raw(&ser).unwrap();
    assert_eq!(back, telem);
}

#[test]
fn class0_telemetry_too_short_is_refused() {
    assert_eq!(
        class0::Telemetry::try_from_raw(&[0, 0, 0]),
        Err(ProtocolError::PayloadDecodeError)
    );
}

#[test]
fn class0_command_roundtrip_on_values() {
    let cmd = class0::Command {
        coc1: Xps::SetOn,
        coc2: Xps::Toggle,
        crl1: Xps::PulseOn,
        crl2: Xps::PulseCancel,
    };
    let ser = cmd.to_raw_vec();
    let back = class0::Command::try_from_raw(&ser).unwrap();
    assert_eq!(back, cmd);
    assert!(back.has_effect());
    assert_eq!(
        class0::Command::try_from_raw(&[1]),
        Err(ProtocolError::PayloadDecodeError)
    );
}

#[test]
fn payload_sized_decoding() {
    assert_eq!(
        class0::Telemetry::try_from_raw(&[0; 9]),
        Err(ProtocolError::BufferSizeError)
    );
    assert_eq!(
        class0::Command::try_from_raw(&[0; 8]),
        Err(ProtocolError::BufferSizeError)
    );
    assert_eq!(
        class1::Telemetry::try_from_raw(&[0; 7]),
        Err(ProtocolError::PayloadDecodeError)
    );
    let cmd = class0::Command {
        coc1: Xps::Reset,
        coc2: Xps::NoAction,
        crl1: Xps::SetOff,
        crl2: Xps::PulseOff,
    };
    let p = <class0::Command as AsPayload<ClCd>>::to_payload(&cmd);
    assert_eq!(p.len(), 7);
    let back =
        <class0::Command as AsPayload<ClCd>>::try_from_raw(p.data())
            .unwrap();
    assert_eq!(back, cmd);
}

#[test]
fn parse_telemetry_by_class() {
    let mut telem = class0::Telemetry::default();
    telem.rl2 = true;
    let pl = Payload::<Ty>::try_from(telem.to_raw_vec()).unwrap();
    let back = boardlc_parse_telemetry::<class0::Class0>(&pl).unwrap();
    assert_eq!(back, telem);
    let back = blc_parse_telemetry::<class0::Class0>(&pl).unwrap();
    assert_eq!(back, telem);
    assert_eq!(
        boardlc_parse_telemetry::<class1::Class1>(&pl).unwrap_err(),
        ProtocolError::PayloadDecodeError
    );
}
