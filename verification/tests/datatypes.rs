use caniot_controller::caniot::{Temperature, Xps};

fn set_cmp(xps: Xps, len: usize, pos: usize, expected: &[u8]) {
    let mut data = [0_u8; 8];
    let data = &mut data[..len];
    assert!(xps.set_at(data, pos).is_ok());
    assert_eq!(&data[..len], expected);
}

#[test]
fn datatypes_test_set_xps() {
    set_cmp(Xps::NoAction, 1, 1, &[0b0000_0000]);
    set_cmp(Xps::PulseCancel, 1, 0, &[0b0000_0111]);
    set_cmp(Xps::PulseCancel, 1, 1, &[0b0011_1000]);
    set_cmp(Xps::PulseCancel, 1, 2, &[0b1100_0000]);
    set_cmp(Xps::PulseCancel, 2, 2, &[0b1100_0000, 0b0000_0001]);
    set_cmp(Xps::PulseCancel, 2, 3, &[0b0000_0000, 0b0000_1110]);
    set_cmp(Xps::PulseCancel, 2, 4, &[0b0000_0000, 0b0111_0000]);
    set_cmp(Xps::PulseCancel, 2, 5, &[0b0000_0000, 0b1000_0000]);
    set_cmp(
        Xps::PulseCancel,
        3,
        5,
        &[0b0000_0000, 0b1000_0000, 0b0000_0011],
    );
    set_cmp(
        Xps::PulseCancel,
        3,
        6,
        &[0b0000_0000, 0b0000_0000, 0b0001_1100],
    );
    set_cmp(
        Xps::PulseCancel,
        3,
        7,
        &[0b0000_0000, 0b0000_0000, 0b1110_0000],
    );
}

fn get_cmp(payload: &[u8], pos: usize, expected: Xps) {
    let result = Xps::get_at(payload, pos);
    assert!(result.is_ok());

    let xps = result.unwrap();
    assert_eq!(xps, expected);
}

#[test]
fn get_xps() {
    get_cmp(&[0b0000_0000], 1, Xps::NoAction);
    get_cmp(&[0b0000_0111], 0, Xps::PulseCancel);
    get_cmp(&[0b0011_1000], 1, Xps::PulseCancel);
    get_cmp(&[0b1100_0000, 0b0000_0001], 2, Xps::PulseCancel);
    get_cmp(&[0b0000_0000, 0b0000_1110], 3, Xps::PulseCancel);
    get_cmp(&[0b0000_0000, 0b0111_0000], 4, Xps::PulseCancel);
    get_cmp(
        &[0b0000_0000, 0b1000_0000, 0b0000_0011],
        5,
        Xps::PulseCancel,
    );
    get_cmp(
        &[0b0000_0000, 0b0000_0000, 0b0001_1100],
        6,
        Xps::PulseCancel,
    );
    get_cmp(
        &[0b0000_0000, 0b0000_0000, 0b1110_0000],
        7,
        Xps::PulseCancel,
    );
}

#[test]
fn payloads_test_set_xps() {
    fn test(xps: Xps, len: usize, pos: usize, expected: &[u8]) {
        let mut data = [0_u8; 8];
        let data = &mut data[..len];
        xps.set_at(data, pos).unwrap();
        assert_eq!(&data[..len], expected);
    }

    test(Xps::NoAction, 1, 1, &[0b0000_0000]);
    test(Xps::PulseCancel, 1, 0, &[0b0000_0111]);
    test(Xps::PulseCancel, 1, 1, &[0b0011_1000]);
    test(Xps::PulseCancel, 1, 2, &[0b1100_0000]);
    test(Xps::PulseCancel, 2, 2, &[0b1100_0000, 0b0000_0001]);
    test(Xps::PulseCancel, 2, 3, &[0b0000_0000, 0b0000_1110]);
    test(Xps::PulseCancel, 2, 4, &[0b0000_0000, 0b0111_0000]);
    test(Xps::PulseCancel, 2, 5, &[0b0000_0000, 0b1000_0000]);
    test(
        Xps::PulseCancel,
        3,
        5,
        &[0b0000_0000, 0b1000_0000, 0b0000_0011],
    );
    test(
        Xps::PulseCancel,
        3,
        6,
        &[0b0000_0000, 0b0000_0000, 0b0001_1100],
    );
    test(
        Xps::PulseCancel,
        3,
        7,
        &[0b0000_0000, 0b0000_0000, 0b1110_0000],
    );
}

#[test]
fn xps_set_then_get() {
    for pos in 0..16 {
        let mut data = [0_u8; 6];
        Xps::Reset.set_at(&mut data, pos).unwrap();
        assert_eq!(Xps::get_at(&data, pos), Ok(Xps::Reset));
    }
}

#[test]
fn temperature() {
    assert_eq!(Temperature::from_raw_u10(0), Temperature::new(-2800));
    assert_eq!(Temperature::from_raw_u10(1000), Temperature::new(7200));
    assert_eq!(Temperature::from_raw_u10(1001), Temperature::invalid());
    assert_eq!(Temperature::from_raw_u10(0).to_raw_u10(), 0);
    assert_eq!(Temperature::from_raw_u10(1000).to_raw_u10(), 1000);
    assert_eq!(
        Temperature::from_raw_u10(1001).to_raw_u10(),
        Temperature::invalid().to_raw_u10()
    );
    assert_eq!(
        Temperature::from_raw_u10(1023).to_raw_u10(),
        Temperature::invalid().to_raw_u10()
    );
}

#[test]
fn temperature_u10_roundtrip_on_values() {
    assert_eq!(Temperature::from_raw_u10(1).to_raw_u10(), 1);
    assert_eq!(Temperature::from_raw_u10(1), Temperature::new(-2790));
    assert_eq!(Temperature::from_raw_u10(0x3ff), Temperature::invalid());
    assert_eq!(Temperature::invalid().to_raw_u10(), 0x3ff);
    assert_eq!(Temperature::new(-2800).to_raw_u10(), 0);
}
