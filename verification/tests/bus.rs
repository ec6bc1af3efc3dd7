use caniot_controller::bus::{
    export_can_stats, CanConfig, CanStats, RecvOutcome, CAN_IOCTL_SEND_EMU_EVENT,
};

#[test]
fn can_config_default() {
    assert_eq!(CanConfig::default().interface, "can0");
}

#[test]
fn can_stats_counting() {
    let mut s = CanStats::default();
    assert_eq!((s.rx, s.tx, s.err, s.unhandled), (0, 0, 0, 0));
    s.count_sent();
    assert!(s.count_received(RecvOutcome::DataFrame));
    assert!(!s.count_received(RecvOutcome::RemoteFrame));
    assert!(!s.count_received(RecvOutcome::ErrorFrame));
    assert!(!s.count_received(RecvOutcome::Failure));
    assert_eq!((s.rx, s.tx, s.err, s.unhandled), (1, 1, 1, 2));
    assert_eq!(CAN_IOCTL_SEND_EMU_EVENT, 0xFFFF_0001);
}

#[test]
fn can_stats_export() {
    let s = CanStats { rx: 12, tx: 3, err: 0, unhandled: 1040 };
    assert_eq!(
        export_can_stats(&s),
        "can_rx 12\ncan_tx 3\ncan_err 0\ncan_unhandled 1040\n"
    );
}
