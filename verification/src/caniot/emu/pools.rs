use vstd::prelude::*;

use super::super::device_id::DeviceId;
use super::super::protocol::Endpoint;
use super::behavior::{
    BoardControlBehavior, Class0Behavior, Class1Behavior, CounterBehavior, EchoBehavior,
    RandomBehavior,
};
use super::device::Device;
use super::dispatch::DeviceBehavior;
use super::nodes::demo::DemoController;
use super::nodes::heaters::HeatersController;
use crate::bus::emu::CanInterface;

verus! {

/// Whether `d` is a device `id` just started at `now`, sending a board
/// telemetry every `interval` milliseconds, with the board control
/// behavior followed by a behavior of the kind `kind` tells.
pub open spec fn spec_simple_device(d: Device, id: u8, interval: u64, now: u64, kind: int) -> bool {
    &&& d.did == (DeviceId { class: id % 8, sub_id: id / 8 })
    &&& d.telemetry_interval == Some(interval)
    &&& d.telemetry_endpoint == Endpoint::BoardControl
    &&& d.telemetries_requested@ == seq![Endpoint::BoardControl]
    &&& d.start_time == now
    &&& d.last_telemetry is None
    &&& !d.process_requested
    &&& d.behavior@.len() == 2
    &&& d.behavior@[0] == DeviceBehavior::BoardControl(
        BoardControlBehavior { did: Some(d.did), reset_count: 0 },
    )
    &&& kind == 0 ==> d.behavior@[1] == DeviceBehavior::Counter(CounterBehavior { count: 0 })
    &&& kind == 1 ==> (d.behavior@[1] matches DeviceBehavior::Echo(e) && e.spec_last() is None)
    &&& kind == 2 ==> d.behavior@[1] is Random
}

fn simple_device(id: u8, interval: u64, now: u64, kind: u8) -> (r: Device)
    requires
        id <= 0x3f,
        kind <= 2,
    ensures
        spec_simple_device(r, id, interval, now, kind as int),
{
    let mut d = Device::new(id, Some(interval), now);
    let behavior = if kind == 0 {
        DeviceBehavior::Counter(CounterBehavior { count: 0 })
    } else if kind == 1 {
        DeviceBehavior::Echo(EchoBehavior::new())
    } else {
        DeviceBehavior::Random(RandomBehavior())
    };
    d.add_behavior(behavior);
    d
}

/// Connects the first emulated devices to the bus, started at `now`, each
/// sending a telemetry every 5 seconds: device 1 counts the commands it
/// receives, device 2 echoes them, device 3 and devices 10 to 20 send
/// random telemetry.
pub fn emu_pool1_add_devices_to_iface(iface: &mut CanInterface, now: u64)
    ensures
        final(iface).stats == old(iface).stats,
        final(iface).to_recv_msgq@ == old(iface).to_recv_msgq@,
        final(iface).devices@.len() == old(iface).devices@.len() + 14,
        forall|j: int|
            0 <= j < old(iface).devices@.len() ==> #[trigger] final(iface).devices@[j] == old(
                iface,
            ).devices@[j],
        spec_simple_device(final(iface).devices@[old(iface).devices@.len() as int], 1, 5_000, now, 0),
        spec_simple_device(
            final(iface).devices@[old(iface).devices@.len() + 1int],
            2,
            5_000,
            now,
            1,
        ),
        spec_simple_device(
            final(iface).devices@[old(iface).devices@.len() + 2int],
            3,
            5_000,
            now,
            2,
        ),
        forall|k: int|
            0 <= k < 11 ==> spec_simple_device(
                #[trigger] final(iface).devices@[old(iface).devices@.len() + 3int + k],
                (10 + k) as u8,
                5_000,
                now,
                2,
            ),
{
    let ghost n: int = iface.devices@.len() as int;
    iface.add_device(simple_device(1, 5_000, now, 0));
    iface.add_device(simple_device(2, 5_000, now, 1));
    iface.add_device(simple_device(3, 5_000, now, 2));
    let mut i: u8 = 10;
    while i <= 20
        invariant
            10 <= i <= 21,
            iface.stats == old(iface).stats,
            iface.to_recv_msgq@ == old(iface).to_recv_msgq@,
            n == old(iface).devices@.len(),
            iface.devices@.len() == n + 3 + (i - 10),
            forall|j: int| 0 <= j < n ==> #[trigger] iface.devices@[j] == old(iface).devices@[j],
            spec_simple_device(iface.devices@[n as int], 1, 5_000, now, 0),
            spec_simple_device(iface.devices@[n + 1int], 2, 5_000, now, 1),
            spec_simple_device(iface.devices@[n + 2int], 3, 5_000, now, 2),
            forall|k: int|
                0 <= k < i - 10 ==> spec_simple_device(
                    #[trigger] iface.devices@[n + 3int + k],
                    (10 + k) as u8,
                    5_000,
                    now,
                    2,
                ),
        decreases 21 - i,
    {
        iface.add_device(simple_device(i, 5_000, now, 2));
        i = i + 1;
    }
}

/// Connects the realistic emulated devices to the bus, started at `now`,
/// each sending a board telemetry every 30 seconds: a heaters controller
/// (class 1, sub identifier 0) that sends its application telemetry first,
/// and a demonstration node (class 0, sub identifier 0).
pub fn emu_pool2_realistic_add_devices_to_iface(iface: &mut CanInterface, now: u64)
    ensures
        final(iface).stats == old(iface).stats,
        final(iface).to_recv_msgq@ == old(iface).to_recv_msgq@,
        final(iface).devices@.len() == old(iface).devices@.len() + 2,
        forall|j: int|
            0 <= j < old(iface).devices@.len() ==> #[trigger] final(iface).devices@[j] == old(
                iface,
            ).devices@[j],
        ({
            let h = final(iface).devices@[old(iface).devices@.len() as int];
            &&& h.did == (DeviceId { class: 1, sub_id: 0 })
            &&& h.telemetry_interval == Some(30_000u64)
            &&& h.telemetry_endpoint == Endpoint::BoardControl
            &&& h.telemetries_requested@ == seq![Endpoint::BoardControl, Endpoint::ApplicationDefault]
            &&& h.behavior@.len() == 3
            &&& h.behavior@[1] is Class1
            &&& h.behavior@[2] is Heaters
        }),
        ({
            let d = final(iface).devices@[old(iface).devices@.len() + 1int];
            &&& d.did == (DeviceId { class: 0, sub_id: 0 })
            &&& d.telemetry_interval == Some(30_000u64)
            &&& d.telemetry_endpoint == Endpoint::BoardControl
            &&& d.telemetries_requested@ == seq![Endpoint::BoardControl]
            &&& d.behavior@.len() == 3
            &&& d.behavior@[1] is Class0
            &&& d.behavior@[2] matches DeviceBehavior::Demo(demo) && demo.status
        }),
{
    let heaters_id = DeviceId { class: 1, sub_id: 0 }.to_u8();
    let mut heaters_controller = Device::new(heaters_id, Some(30_000), now);
    heaters_controller.request_telemetry(Endpoint::ApplicationDefault);
    heaters_controller.set_telemetry_endpoint(Endpoint::BoardControl);
    heaters_controller.add_behavior(DeviceBehavior::Class1(Class1Behavior {}));
    heaters_controller.add_behavior(DeviceBehavior::Heaters(HeatersController::new()));
    iface.add_device(heaters_controller);

    let demo_id = DeviceId { class: 0, sub_id: 0 }.to_u8();
    let mut demo_controller = Device::new(demo_id, Some(30_000), now);
    demo_controller.add_behavior(
        DeviceBehavior::Class0(Class0Behavior { oc1: false, oc2: false, rl1: false, rl2: false }),
    );
    demo_controller.set_telemetry_endpoint(Endpoint::BoardControl);
    demo_controller.add_behavior(DeviceBehavior::Demo(DemoController::new()));
    iface.add_device(demo_controller);
}

} // verus!
