use caniot_controller::bus::{CanInterface, EmuPoll};
use caniot_controller::caniot::emu::{
    Behavior, BoardControlBehavior, Class0Behavior, CounterBehavior, DemoController, Device, DeviceBehavior,
    EchoBehavior, EmuRequest, EmuXps, GarageController, HeatersController,
    OutdoorAlarmController,
};
use caniot_controller::caniot::emu::nodes::Door;
use caniot_controller::caniot::emu::{
    emu_pool1_add_devices_to_iface, emu_pool2_realistic_add_devices_to_iface,
};
use caniot_controller::caniot::{
    build_attribute_read_request_data, build_attribute_write_request_data,
    build_command_request_data, build_telemetry_request_data, DeviceId, Endpoint, ErrorCode,
    ErrorSource, HeatingMode, ResponseData, Xps,
};

#[test]
fn test_xps_simple() {
    let now = 0;
    let mut xps = EmuXps::new(false, false, None);
    assert_eq!(xps.get_state(), false);
    assert_eq!(xps.supports_pulse(), false);
    assert_eq!(xps.pulse_pending(), false);
    assert_eq!(xps.pulse_expired(now), false);
    assert_eq!(xps.time_to_pulse_expire(now), None);
    assert_eq!(xps.pulse_process(now), None);

    xps.apply(&Xps::SetOn, now);
    assert_eq!(xps.get_state(), true);

    xps.apply(&Xps::SetOff, now);
    assert_eq!(xps.get_state(), false);

    xps.apply(&Xps::SetOn, now);
    assert_eq!(xps.get_state(), true);

    xps.apply(&Xps::NoAction, now);
    assert_eq!(xps.get_state(), true);

    xps.apply(&Xps::Reset, now);
    assert_eq!(xps.get_state(), false);
}

#[test]
fn test_xps_pulse() {
    let duration = 100;
    let start = 1_000;
    let mut xps = EmuXps::new(false, false, Some(duration));

    assert_eq!(xps.get_state(), false);
    assert_eq!(xps.supports_pulse(), true);
    assert_eq!(xps.pulse_pending(), false);
    assert_eq!(xps.pulse_expired(start), false);
    assert_eq!(xps.time_to_pulse_expire(start), None);
    assert_eq!(xps.pulse_process(start), None);

    xps.apply(&Xps::PulseOn, start);
    assert_eq!(xps.get_state(), true);
    assert_eq!(xps.pulse_pending(), true);
    assert_eq!(xps.pulse_expired(start), false);

    let later = start + duration;

    assert_eq!(xps.pulse_expired(later), true);
    assert_eq!(xps.pulse_process(later), Some(false));
    assert_eq!(xps.get_state(), false);
    assert_eq!(xps.pulse_pending(), false);
    assert_eq!(xps.pulse_expired(later), false);
    assert_eq!(xps.time_to_pulse_expire(later), None);
}

#[test]
fn xps_pulse_time_left() {
    let mut xps = EmuXps::new(false, true, Some(100));
    xps.apply(&Xps::PulseOff, 10);
    assert_eq!(xps.get_state(), false);
    assert_eq!(xps.time_to_pulse_expire(40), Some(70));
    assert_eq!(xps.ttl(200), Some(0));
    assert_eq!(xps.pulse_process(50), None);
    assert_eq!(xps.pulse_process(110), Some(true));
    assert_eq!(xps.get_state(), true);
    // a pulse is refused by an output without pulse support
    let mut plain = EmuXps::new(false, false, None);
    plain.apply(&Xps::PulseOn, 0);
    assert_eq!(plain.get_state(), false);
    assert_eq!(plain.pulse_pending(), false);
}

#[test]
fn door_moves_and_completes() {
    let mut door = Door::Closed;
    door.pulse_relay(0);
    assert_eq!(door, Door::Opening(Some(0)));
    assert_eq!(door.get_time_to_complete_ms(4_000), Some(6_000));
    door.update_state(9_999);
    assert_eq!(door, Door::Opening(Some(0)));
    door.update_state(10_000);
    assert_eq!(door, Door::Open);
    assert!(door.is_open());
    door.pulse_relay(20_000);
    assert_eq!(door, Door::Closing(Some(20_000)));
    // a pulse stops a moving door, the next one moves it back
    door.pulse_relay(21_000);
    assert_eq!(door, Door::Opening(None));
    door.pulse_relay(22_000);
    assert_eq!(door, Door::Closing(Some(22_000)));
}

fn telemetry_payload(resp: &ResponseData) -> Vec<u8> {
    match resp {
        ResponseData::Telemetry { payload, .. } => payload.data().to_vec(),
        _ => panic!("not a telemetry"),
    }
}

#[test]
fn device_new_sends_board_telemetry_first() {
    let mut dev = Device::new(9, Some(5_000), 0);
    assert_eq!(dev.did, DeviceId { class: 1, sub_id: 1 });
    assert_eq!(dev.telemetries_requested, vec![Endpoint::BoardControl]);
    // the board control behavior answers no telemetry
    let resp = dev.process(None, 0).unwrap();
    assert_eq!(resp.device_id, dev.did);
    assert!(matches!(
        resp.data,
        ResponseData::Error {
            source: ErrorSource::Telemetry(Endpoint::BoardControl, None),
            error: Some(ErrorCode::Ehandlert),
        }
    ));
    assert!(dev.telemetries_requested.is_empty());
    assert_eq!(dev.last_telemetry, Some(0));
    assert!(dev.process(None, 1).is_none());
    assert_eq!(dev.get_time_to_next_device_process(1), Some(4_999));
}

#[test]
fn device_attributes() {
    let mut dev = Device::new(9, None, 100);
    let resp = dev.process(Some(&build_attribute_read_request_data(0x0000)), 150).unwrap();
    assert!(matches!(resp.data, ResponseData::Attribute { key: 0x0000, value: 9 }));
    let resp = dev.process(Some(&build_attribute_read_request_data(0x1020)), 150).unwrap();
    assert!(matches!(resp.data, ResponseData::Attribute { key: 0x1020, value: 50 }));
    let resp = dev.process(Some(&build_attribute_read_request_data(0x2000)), 150).unwrap();
    assert!(matches!(
        resp.data,
        ResponseData::Error { source: ErrorSource::Attribute(Some(0x2000)), error: Some(ErrorCode::Enoattr) }
    ));
    let resp = dev
        .process(Some(&build_attribute_write_request_data(0x2000, 3_000)), 150)
        .unwrap();
    assert!(matches!(resp.data, ResponseData::Attribute { key: 0x2000, value: 3_000 }));
    assert_eq!(dev.telemetry_interval, Some(3_000));
    let resp = dev.process(Some(&build_attribute_read_request_data(0x2000)), 150).unwrap();
    assert!(matches!(resp.data, ResponseData::Attribute { key: 0x2000, value: 3_000 }));
    let resp = dev
        .process(Some(&build_attribute_write_request_data(0x0000, 1)), 150)
        .unwrap();
    assert!(matches!(
        resp.data,
        ResponseData::Error { source: ErrorSource::Attribute(Some(0x0000)), error: Some(ErrorCode::Ereadonly) }
    ));
}

#[test]
fn device_counter_and_echo() {
    let mut dev = Device::new(2, None, 0);
    dev.add_behavior(DeviceBehavior::Counter(CounterBehavior::default()));
    let resp = dev
        .process(Some(&build_telemetry_request_data(Endpoint::ApplicationDefault)), 0)
        .unwrap();
    assert_eq!(telemetry_payload(&resp.data), vec![0, 0, 0, 0]);
    let resp = dev
        .process(Some(&build_command_request_data(Endpoint::ApplicationDefault, vec![1, 2])), 0)
        .unwrap();
    assert_eq!(telemetry_payload(&resp.data), vec![0, 0, 0, 1]);

    let mut dev = Device::new(3, None, 0);
    dev.add_behavior(DeviceBehavior::Echo(EchoBehavior::default()));
    let resp = dev
        .process(Some(&build_telemetry_request_data(Endpoint::ApplicationDefault)), 0)
        .unwrap();
    assert!(matches!(resp.data, ResponseData::Error { error: Some(ErrorCode::Ehandlert), .. }));
    let resp = dev
        .process(Some(&build_command_request_data(Endpoint::Application1, vec![7, 8, 9])), 0)
        .unwrap();
    assert_eq!(telemetry_payload(&resp.data), vec![7, 8, 9]);
}

#[test]
fn device_board_command_counts_resets() {
    let mut dev = Device::new(4, None, 0);
    let resp = dev
        .process(Some(&build_command_request_data(Endpoint::BoardControl, vec![0, 0, 0, 0, 0, 0, 0, 1])), 0)
        .unwrap();
    // the board control accepts it, then no behavior answers the telemetry
    assert!(matches!(resp.data, ResponseData::Error { error: Some(ErrorCode::Ehandlert), .. }));
    match &dev.behavior[0] {
        DeviceBehavior::BoardControl(BoardControlBehavior { reset_count, did }) => {
            assert_eq!(*reset_count, 1);
            assert_eq!(*did, Some(dev.did));
        }
        _ => panic!("board control expected first"),
    }
    // a short command finds no handler
    let resp = dev
        .process(Some(&build_command_request_data(Endpoint::BoardControl, vec![0])), 0)
        .unwrap();
    assert!(matches!(resp.data, ResponseData::Error { error: Some(ErrorCode::Ehandlerc), .. }));
}

#[test]
fn demo_controller_status() {
    let mut dev = Device::new(0, None, 0);
    dev.add_behavior(DeviceBehavior::Demo(DemoController::new()));
    dev.add_behavior(DeviceBehavior::Counter(CounterBehavior::default()));
    let mut b = DemoController::new();
    let mut terminate = false;
    assert_eq!(b.on_command(&Endpoint::ApplicationDefault, vec![0], &mut terminate, 0), None);
    assert_eq!(b.on_telemetry(&Endpoint::ApplicationDefault, 0), Some(vec![0]));
    // through the device: the demo node switches, the counter answers
    let resp = dev
        .process(Some(&build_command_request_data(Endpoint::ApplicationDefault, vec![0])), 0)
        .unwrap();
    assert_eq!(telemetry_payload(&resp.data), vec![0, 0, 0, 1]);
    match &dev.behavior[1] {
        DeviceBehavior::Demo(d) => assert!(!d.status),
        _ => panic!("demo expected"),
    }
}

#[test]
fn garage_on_device() {
    let mut dev = Device::new(0, None, 0);
    dev.add_behavior(DeviceBehavior::Garage(GarageController::default()));
    dev.telemetries_requested.clear();
    // pulse relay 1: the left door opens
    let resp = dev
        .process(Some(&build_command_request_data(Endpoint::BoardControl, vec![0b0100_0000, 0b0000_0001])), 0)
        .unwrap();
    let p = telemetry_payload(&resp.data);
    assert_eq!(p.len(), 7);
    // in1 (nc) and in3 (left door) set
    assert_eq!(p[0], 0b0101_0000);
    assert_eq!(dev.get_time_to_next_device_process(4_000), Some(6_000));
    assert!(dev.process(None, 5_000).is_none());
    // the move completes: processing asks for a board telemetry
    assert!(dev.process(None, 10_000).is_none());
    match &dev.behavior[1] {
        DeviceBehavior::Garage(g) => assert_eq!(g.left_door, Door::Open),
        _ => panic!("garage expected"),
    }
    assert_eq!(dev.telemetries_requested, vec![Endpoint::BoardControl]);
    let resp = dev.process(None, 10_001).unwrap();
    assert_eq!(telemetry_payload(&resp.data)[0], 0b0101_0000);
    // a full 8-byte board command is taken by the board control first
    let resp = dev
        .process(Some(&build_command_request_data(Endpoint::BoardControl, vec![0b0100_0000, 0, 0, 0, 0, 0, 0, 0])), 20_000)
        .unwrap();
    assert!(matches!(resp.data, ResponseData::Telemetry { .. }));
    match &dev.behavior[1] {
        DeviceBehavior::Garage(g) => assert_eq!(g.left_door, Door::Open),
        _ => panic!("garage expected"),
    }
    // on its own, the garage refuses it: more than a class command holds
    let mut g = GarageController::default();
    let mut terminate = false;
    assert_eq!(
        g.on_command(&Endpoint::BoardControl, vec![0b0100_0000, 0, 0, 0, 0, 0, 0, 0], &mut terminate, 0),
        Some(ErrorCode::Eframe)
    );
    assert_eq!(g.left_door, Door::Closed);
    // a one-byte payload is no class 0 command
    let resp = dev
        .process(Some(&build_command_request_data(Endpoint::BoardControl, vec![1])), 0)
        .unwrap();
    assert!(matches!(resp.data, ResponseData::Error { error: Some(ErrorCode::Eframe), .. }));
}

#[test]
fn outdoor_alarm_requests() {
    let mut dev = Device::new(0, None, 0);
    dev.add_behavior(DeviceBehavior::OutdoorAlarm(OutdoorAlarmController::new()));
    dev.telemetries_requested.clear();
    dev.handle_emu_event(EmuRequest::OutdoorAlarmPresence);
    assert!(dev.process_requested);
    assert!(dev.process(None, 0).is_none());
    assert!(!dev.process_requested);
    let resp = dev.process(None, 1).unwrap();
    let p = telemetry_payload(&resp.data);
    // in1 and in2 set
    assert_eq!(p[0] & 0b0011_0000, 0b0011_0000);
    // presence is one-shot
    let resp = dev
        .process(Some(&build_telemetry_request_data(Endpoint::BoardControl)), 2)
        .unwrap();
    assert_eq!(telemetry_payload(&resp.data)[0] & 0b0011_0000, 0);
    // pulse the siren (relay 1)
    let resp = dev
        .process(Some(&build_command_request_data(Endpoint::BoardControl, vec![0b0100_0000, 0b0000_0001])), 100)
        .unwrap();
    let p = telemetry_payload(&resp.data);
    assert_eq!(p[0] & 0b0000_0100, 0b0000_0100);
    assert_eq!(p[1] & 0b0000_0100, 0b0000_0100);
    assert_eq!(dev.get_time_to_next_device_process(200), Some(19_900));
}

#[test]
fn heaters_modes() {
    let mut h = HeatersController::new();
    h.apply_modes([HeatingMode::Comfort, HeatingMode::NoMode, HeatingMode::FrostProtection, HeatingMode::NoMode]);
    assert_eq!(h.modes, [HeatingMode::Comfort, HeatingMode::Stop, HeatingMode::FrostProtection, HeatingMode::Stop]);
    let mut terminate = false;
    assert_eq!(h.on_command(&Endpoint::ApplicationDefault, vec![], &mut terminate, 0), Some(ErrorCode::NoError));
}

#[test]
fn emulated_bus_answers_requests() {
    let mut bus = CanInterface::new();
    let mut dev = Device::new(9, None, 0);
    dev.add_behavior(DeviceBehavior::Counter(CounterBehavior::default()));
    dev.telemetries_requested.clear();
    bus.add_device(dev);
    bus.add_device(Device::new(10, None, 0));
    // telemetry query (type 0, query, read, endpoint 0) to device 9
    let req = caniot_controller::caniot::build_telemetry_request(
        DeviceId { class: 1, sub_id: 1 },
        Endpoint::ApplicationDefault,
    );
    let id = req.get_can_id();
    assert!(bus.send(Some(id), &[], 0));
    assert_eq!(bus.get_stats().tx, 1);
    match bus.recv_poll(0) {
        EmuPoll::Frame(resp) => {
            assert_eq!(resp.device_id, DeviceId { class: 1, sub_id: 1 });
            assert_eq!(telemetry_payload(&resp.data), vec![0, 0, 0, 0]);
        }
        _ => panic!("a frame was expected"),
    }
    // an extended identifier is no request
    assert!(!bus.send(None, &[], 0));
    // device 10 still has its first board telemetry queued
    match bus.recv_poll(1) {
        EmuPoll::Frame(resp) => assert_eq!(resp.device_id, DeviceId { class: 2, sub_id: 1 }),
        _ => panic!("a frame was expected"),
    }
    match bus.recv_poll(2) {
        EmuPoll::Wait(t) => assert_eq!(t, None),
        _ => panic!("nothing was expected"),
    }
    assert!(bus.ioctl(0xFFFF_0001, 1, 3));
    assert!(!bus.ioctl(7, 0, 3));
    assert_eq!(EmuRequest::from_code_or_default(9), EmuRequest::OutdoorAlarmClear);
}

#[test]
fn emulated_pools() {
    let mut bus = CanInterface::new();
    emu_pool1_add_devices_to_iface(&mut bus, 0);
    assert_eq!(bus.devices.len(), 14);
    assert_eq!(bus.devices[13].did, DeviceId::try_from_u8(20).unwrap());
    emu_pool2_realistic_add_devices_to_iface(&mut bus, 0);
    assert_eq!(bus.devices.len(), 16);
    assert_eq!(
        bus.devices[14].telemetries_requested,
        vec![Endpoint::BoardControl, Endpoint::ApplicationDefault]
    );
    // the first device answers its board telemetry request first
    match bus.recv_poll(0) {
        EmuPoll::Frame(resp) => assert_eq!(resp.device_id, DeviceId::try_from_u8(1).unwrap()),
        _ => panic!("a frame was expected"),
    }
}

#[test]
fn class0_board_commands_are_not_implemented() {
    let mut dev = Device::new(8, None, 0);
    dev.add_behavior(DeviceBehavior::Class0(Class0Behavior::default()));
    let resp = dev
        .process(Some(&build_command_request_data(Endpoint::BoardControl, vec![1, 0])), 0)
        .unwrap();
    assert!(matches!(resp.data, ResponseData::Error { error: Some(ErrorCode::Enimpl), .. }));
    // its board telemetry: the outputs as kept, two outside sensors absent
    let resp = dev
        .process(Some(&build_telemetry_request_data(Endpoint::BoardControl)), 0)
        .unwrap();
    let p = telemetry_payload(&resp.data);
    assert_eq!(p.len(), 7);
    assert_eq!(p[0] & 0x0f, 0);
    assert_eq!(p[1], 0);
}
