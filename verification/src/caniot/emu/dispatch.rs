use vstd::prelude::*;

use super::super::classes::class0;
use super::super::classes::class1;
use super::super::device_id::DeviceId;
use super::super::error::ErrorCode;
use super::super::protocol::Endpoint;
use super::behavior::{
    spec_class0_board_telemetry, spec_sys_command, spec_u32_be_bytes, Behavior,
    BoardControlBehavior, Class0Behavior, Class1Behavior, CounterBehavior, EchoBehavior,
    EmuRequest, RandomBehavior,
};
use super::helpers::spec_min_ttl;
use super::nodes::demo::DemoController;
use super::nodes::garage::{spec_garage_telemetry, GarageController};
use super::nodes::heaters::HeatersController;
use super::nodes::outdoor_alarm::{spec_alarm_telemetry, OutdoorAlarmController};

verus! {

/// One of the behaviors an emulated device can have.
#[derive(Debug)]
pub enum DeviceBehavior {
    Counter(CounterBehavior),
    Echo(EchoBehavior),
    Random(RandomBehavior),
    BoardControl(BoardControlBehavior),
    Class0(Class0Behavior),
    Class1(Class1Behavior),
    Demo(DemoController),
    Garage(GarageController),
    Heaters(HeatersController),
    OutdoorAlarm(OutdoorAlarmController),
}

impl DeviceBehavior {
    /// Whether the behavior can run on the device `did`: the class 0 and
    /// class 1 boards only on devices of their class.
    pub open spec fn spec_accepts(self, did: DeviceId) -> bool {
        match self {
            DeviceBehavior::Class0(_) => did.class == 0,
            DeviceBehavior::Class1(_) => did.class == 1,
            _ => true,
        }
    }

    /// The behavior once initialized for the device `did`: the board
    /// control records it.
    pub open spec fn spec_with_did(self, did: DeviceId) -> DeviceBehavior {
        match self {
            DeviceBehavior::BoardControl(b) => DeviceBehavior::BoardControl(
                BoardControlBehavior { did: Some(did), reset_count: b.reset_count },
            ),
            _ => self,
        }
    }

    /// Whether the behavior answers a telemetry request on `endpoint`.
    pub open spec fn spec_answers_telemetry(self, endpoint: Endpoint) -> bool {
        match self {
            DeviceBehavior::Counter(_) => true,
            DeviceBehavior::Echo(b) => b.spec_last() is Some,
            DeviceBehavior::Random(_) => true,
            DeviceBehavior::BoardControl(_) => false,
            DeviceBehavior::Class0(_) => endpoint == Endpoint::BoardControl,
            DeviceBehavior::Class1(_) => endpoint == Endpoint::BoardControl,
            DeviceBehavior::Demo(_) => true,
            DeviceBehavior::Garage(_) => endpoint == Endpoint::BoardControl,
            DeviceBehavior::Heaters(_) => false,
            DeviceBehavior::OutdoorAlarm(_) => endpoint == Endpoint::BoardControl,
        }
    }

    /// Whether answering a telemetry request on `endpoint` with the
    /// payload `p` may leave the behavior as `new`.
    pub open spec fn spec_telemetry(self, endpoint: Endpoint, new: DeviceBehavior, p: Seq<u8>) -> bool {
        &&& p.len() <= 8
        &&& match self {
            DeviceBehavior::Counter(b) => new == self && p == spec_u32_be_bytes(b.count),
            DeviceBehavior::Echo(b) => new matches DeviceBehavior::Echo(nb) && nb.spec_last() is None
                && b.spec_last() == Some(p),
            DeviceBehavior::Random(_) => new == self && p.len() == 4,
            DeviceBehavior::BoardControl(_) => false,
            DeviceBehavior::Class0(b) => new == self && exists|t: class0::Telemetry|
                spec_class0_board_telemetry(t, b.oc1, b.oc2, b.rl1, b.rl2) && p == t.spec_encode(),
            DeviceBehavior::Class1(_) => new == self && exists|t: class1::Telemetry|
                t.temp_out[1].0 is None && t.temp_out[2].0 is None && p == t.spec_encode(),
            DeviceBehavior::Demo(b) => new == self && p == seq![if b.status { 1u8 } else { 0u8 }],
            DeviceBehavior::Garage(b) => new == self && exists|t: class0::Telemetry|
                spec_garage_telemetry(t, b) && p == t.spec_encode(),
            DeviceBehavior::Heaters(_) => false,
            DeviceBehavior::OutdoorAlarm(b) => {
                &&& new matches DeviceBehavior::OutdoorAlarm(nb) && nb.light1 == b.light1
                    && nb.light2 == b.light2 && nb.siren == b.siren && !nb.presence_sensors[0]
                    && !nb.presence_sensors[1] && nb.sabotage == b.sabotage
                &&& exists|t: class0::Telemetry| spec_alarm_telemetry(t, b) && p == t.spec_encode()
            },
        }
    }

    /// Whether the behavior answers the command `payload` on `endpoint`.
    pub open spec fn spec_handles_command(self, endpoint: Endpoint, payload: Seq<u8>) -> bool {
        match self {
            DeviceBehavior::Counter(_) => true,
            DeviceBehavior::Echo(_) => true,
            DeviceBehavior::Random(_) => true,
            DeviceBehavior::BoardControl(_) => spec_sys_command(payload) is Some,
            DeviceBehavior::Class0(_) => endpoint == Endpoint::BoardControl,
            DeviceBehavior::Class1(_) => endpoint == Endpoint::BoardControl,
            DeviceBehavior::Demo(_) => false,
            DeviceBehavior::Garage(_) => endpoint == Endpoint::BoardControl,
            DeviceBehavior::Heaters(_) => true,
            DeviceBehavior::OutdoorAlarm(_) => endpoint == Endpoint::BoardControl,
        }
    }

    /// Whether handling the command `payload` on `endpoint` at `now` leaves
    /// the behavior as `new` with the answer `r`.
    pub open spec fn spec_command(
        self,
        endpoint: Endpoint,
        payload: Seq<u8>,
        now: u64,
        new: DeviceBehavior,
        r: Option<ErrorCode>,
    ) -> bool {
        &&& (r is Some) == self.spec_handles_command(endpoint, payload)
        &&& match self {
            DeviceBehavior::Counter(b) => new == DeviceBehavior::Counter(
                CounterBehavior { count: b.count.wrapping_add(1) },
            ) && r == Some(ErrorCode::NoError),
            DeviceBehavior::Echo(_) => new matches DeviceBehavior::Echo(nb) && nb.spec_last() == Some(
                payload,
            ) && r == Some(ErrorCode::NoError),
            DeviceBehavior::Random(_) => new == self && r == Some(ErrorCode::NoError),
            DeviceBehavior::BoardControl(b) => match spec_sys_command(payload) {
                Some(sys) => r == Some(ErrorCode::NoError) && new == DeviceBehavior::BoardControl(
                    BoardControlBehavior {
                        did: b.did,
                        reset_count: if sys.hardware_reset {
                            b.reset_count.wrapping_add(1)
                        } else {
                            b.reset_count
                        },
                    },
                ),
                None => new == self,
            },
            DeviceBehavior::Class0(_) => new == self && (endpoint == Endpoint::BoardControl ==> r
                == Some(ErrorCode::Enimpl)),
            DeviceBehavior::Class1(_) => new == self && (endpoint == Endpoint::BoardControl ==> r
                == Some(ErrorCode::NoError)),
            DeviceBehavior::Demo(b) => new == DeviceBehavior::Demo(
                DemoController {
                    status: if payload.len() >= 1 {
                        payload[0] != 0
                    } else {
                        b.status
                    },
                },
            ),
            DeviceBehavior::Garage(b) => if endpoint != Endpoint::BoardControl {
                new == self
            } else {
                match b.spec_after_command(payload, now) {
                    Some(g) => r == Some(ErrorCode::NoError) && new == DeviceBehavior::Garage(g),
                    None => r == Some(ErrorCode::Eframe) && new == self,
                }
            },
            DeviceBehavior::Heaters(_) => new == self && r == Some(ErrorCode::NoError),
            DeviceBehavior::OutdoorAlarm(b) => if endpoint != Endpoint::BoardControl {
                new == self
            } else if payload.len() < 2 || payload.len() > 7 {
                new == self && r == Some(ErrorCode::Eframe)
            } else {
                let c = class0::Command::spec_decode(payload);
                &&& r == Some(ErrorCode::NoError)
                &&& new matches DeviceBehavior::OutdoorAlarm(nb)
                &&& nb.light1@ == b.light1@.spec_apply(c.coc1, now)
                &&& nb.light2@ == b.light2@.spec_apply(c.coc2, now)
                &&& nb.siren@ == b.siren@.spec_apply(c.crl1, now)
                &&& nb.presence_sensors == b.presence_sensors
                &&& nb.sabotage == b.sabotage
            },
        }
    }

    /// The endpoint whose telemetry the behavior asks for when processed.
    pub open spec fn spec_process_endpoint(self) -> Option<Endpoint> {
        match self {
            DeviceBehavior::Garage(_) => Some(Endpoint::BoardControl),
            DeviceBehavior::OutdoorAlarm(_) => Some(Endpoint::BoardControl),
            _ => None,
        }
    }

    /// Whether processing the behavior at `now` leaves it as `new`.
    pub open spec fn spec_process(self, now: u64, new: DeviceBehavior) -> bool {
        match self {
            DeviceBehavior::Garage(b) => new == DeviceBehavior::Garage(
                GarageController {
                    left_door: b.left_door.spec_update_state(now),
                    right_door: b.right_door.spec_update_state(now),
                    gate_open: b.gate_open,
                },
            ),
            DeviceBehavior::OutdoorAlarm(b) => {
                &&& new matches DeviceBehavior::OutdoorAlarm(nb)
                &&& nb.light1@ == b.light1@.spec_after_pulse_process(now)
                &&& nb.light2@ == b.light2@.spec_after_pulse_process(now)
                &&& nb.siren@ == b.siren@.spec_after_pulse_process(now)
                &&& nb.presence_sensors == b.presence_sensors
                &&& nb.sabotage == b.sabotage
            },
            _ => new == self,
        }
    }

    /// Time left before the behavior needs to be processed, if it does.
    pub open spec fn spec_remaining(self, now: u64) -> Option<u64> {
        match self {
            DeviceBehavior::Garage(b) => spec_min_ttl(
                b.left_door.spec_time_to_complete(now),
                b.right_door.spec_time_to_complete(now),
            ),
            DeviceBehavior::OutdoorAlarm(b) => spec_min_ttl(
                spec_min_ttl(
                    b.light1@.spec_time_to_pulse_expire(now),
                    b.light2@.spec_time_to_pulse_expire(now),
                ),
                b.siren@.spec_time_to_pulse_expire(now),
            ),
            _ => None,
        }
    }

    /// Whether the behavior asks to be processed after a request of the
    /// emulation environment: only the outdoor alarm reacts to them.
    pub open spec fn spec_emu_answer(self, event: EmuRequest) -> bool {
        self is OutdoorAlarm
    }

    /// Whether the request `event` of the emulation environment leaves the
    /// behavior as `new` with the answer `r`.
    pub open spec fn spec_emu_request(self, event: EmuRequest, new: DeviceBehavior, r: bool) -> bool {
        match self {
            DeviceBehavior::OutdoorAlarm(b) => {
                &&& r
                &&& new matches DeviceBehavior::OutdoorAlarm(nb)
                &&& nb.light1 == b.light1 && nb.light2 == b.light2 && nb.siren == b.siren
                &&& event == EmuRequest::OutdoorAlarmClear ==> !nb.presence_sensors[0]
                    && !nb.presence_sensors[1] && !nb.sabotage
                &&& event == EmuRequest::OutdoorAlarmPresence ==> nb.presence_sensors[0]
                    && nb.presence_sensors[1] && nb.sabotage == b.sabotage
                &&& event == EmuRequest::OutdoorAlarmSabotage ==> nb.presence_sensors
                    == b.presence_sensors && nb.sabotage
            },
            _ => new == self && !r,
        }
    }
}

impl Behavior for DeviceBehavior {
    open spec fn spec_accepts_did(&self, did: DeviceId) -> bool {
        self.spec_accepts(did)
    }

    fn set_did(&mut self, did: &DeviceId)
        ensures
            *final(self) == old(self).spec_with_did(*did),
    {
        match self {
            DeviceBehavior::Counter(b) => b.set_did(did),
            DeviceBehavior::Echo(b) => b.set_did(did),
            DeviceBehavior::Random(b) => b.set_did(did),
            DeviceBehavior::BoardControl(b) => b.set_did(did),
            DeviceBehavior::Class0(b) => b.set_did(did),
            DeviceBehavior::Class1(b) => b.set_did(did),
            DeviceBehavior::Demo(b) => b.set_did(did),
            DeviceBehavior::Garage(b) => b.set_did(did),
            DeviceBehavior::Heaters(b) => b.set_did(did),
            DeviceBehavior::OutdoorAlarm(b) => b.set_did(did),
        }
    }

    fn on_telemetry(&mut self, endpoint: &Endpoint, now: u64) -> (r: Option<Vec<u8>>)
        ensures
            !old(self).spec_answers_telemetry(*endpoint) ==> r is None && *final(self) == *old(
                self,
            ),
            old(self).spec_answers_telemetry(*endpoint) ==> (r matches Some(p) && old(
                self,
            ).spec_telemetry(*endpoint, *final(self), p@)),
    {
        match self {
            DeviceBehavior::Counter(b) => b.on_telemetry(endpoint, now),
            DeviceBehavior::Echo(b) => b.on_telemetry(endpoint, now),
            DeviceBehavior::Random(b) => b.on_telemetry(endpoint, now),
            DeviceBehavior::BoardControl(b) => b.on_telemetry(endpoint, now),
            DeviceBehavior::Class0(b) => b.on_telemetry(endpoint, now),
            DeviceBehavior::Class1(b) => b.on_telemetry(endpoint, now),
            DeviceBehavior::Demo(b) => b.on_telemetry(endpoint, now),
            DeviceBehavior::Garage(b) => b.on_telemetry(endpoint, now),
            DeviceBehavior::Heaters(b) => b.on_telemetry(endpoint, now),
            DeviceBehavior::OutdoorAlarm(b) => b.on_telemetry(endpoint, now),
        }
    }

    fn on_command(
        &mut self,
        endpoint: &Endpoint,
        payload: Vec<u8>,
        terminate: &mut bool,
        now: u64,
    ) -> (r: Option<ErrorCode>)
        ensures
            *final(terminate) == *old(terminate),
            old(self).spec_command(*endpoint, payload@, now, *final(self), r),
    {
        match self {
            DeviceBehavior::Counter(b) => b.on_command(endpoint, payload, terminate, now),
            DeviceBehavior::Echo(b) => b.on_command(endpoint, payload, terminate, now),
            DeviceBehavior::Random(b) => b.on_command(endpoint, payload, terminate, now),
            DeviceBehavior::BoardControl(b) => b.on_command(endpoint, payload, terminate, now),
            DeviceBehavior::Class0(b) => b.on_command(endpoint, payload, terminate, now),
            DeviceBehavior::Class1(b) => b.on_command(endpoint, payload, terminate, now),
            DeviceBehavior::Demo(b) => b.on_command(endpoint, payload, terminate, now),
            DeviceBehavior::Garage(b) => b.on_command(endpoint, payload, terminate, now),
            DeviceBehavior::Heaters(b) => b.on_command(endpoint, payload, terminate, now),
            DeviceBehavior::OutdoorAlarm(b) => b.on_command(endpoint, payload, terminate, now),
        }
    }

    fn on_read_attribute(&mut self, key: u16) -> (r: Option<u32>)
        ensures
            *final(self) == *old(self),
            (r is Some) == (*old(self) is Random),
    {
        match self {
            DeviceBehavior::Counter(b) => b.on_read_attribute(key),
            DeviceBehavior::Echo(b) => b.on_read_attribute(key),
            DeviceBehavior::Random(b) => b.on_read_attribute(key),
            DeviceBehavior::BoardControl(b) => b.on_read_attribute(key),
            DeviceBehavior::Class0(b) => b.on_read_attribute(key),
            DeviceBehavior::Class1(b) => b.on_read_attribute(key),
            DeviceBehavior::Demo(b) => b.on_read_attribute(key),
            DeviceBehavior::Garage(b) => b.on_read_attribute(key),
            DeviceBehavior::Heaters(b) => b.on_read_attribute(key),
            DeviceBehavior::OutdoorAlarm(b) => b.on_read_attribute(key),
        }
    }

    fn on_write_attribute(&mut self, key: u16, value: u32) -> (r: Option<ErrorCode>)
        ensures
            *final(self) == *old(self),
            r == (if *old(self) is Random {
                Some(ErrorCode::NoError)
            } else {
                None::<ErrorCode>
            }),
    {
        match self {
            DeviceBehavior::Counter(b) => b.on_write_attribute(key, value),
            DeviceBehavior::Echo(b) => b.on_write_attribute(key, value),
            DeviceBehavior::Random(b) => b.on_write_attribute(key, value),
            DeviceBehavior::BoardControl(b) => b.on_write_attribute(key, value),
            DeviceBehavior::Class0(b) => b.on_write_attribute(key, value),
            DeviceBehavior::Class1(b) => b.on_write_attribute(key, value),
            DeviceBehavior::Demo(b) => b.on_write_attribute(key, value),
            DeviceBehavior::Garage(b) => b.on_write_attribute(key, value),
            DeviceBehavior::Heaters(b) => b.on_write_attribute(key, value),
            DeviceBehavior::OutdoorAlarm(b) => b.on_write_attribute(key, value),
        }
    }

    fn process(&mut self, now: u64) -> (r: Option<Endpoint>)
        ensures
            old(self).spec_process(now, *final(self)),
            r == old(self).spec_process_endpoint(),
    {
        match self {
            DeviceBehavior::Counter(b) => b.process(now),
            DeviceBehavior::Echo(b) => b.process(now),
            DeviceBehavior::Random(b) => b.process(now),
            DeviceBehavior::BoardControl(b) => b.process(now),
            DeviceBehavior::Class0(b) => b.process(now),
            DeviceBehavior::Class1(b) => b.process(now),
            DeviceBehavior::Demo(b) => b.process(now),
            DeviceBehavior::Garage(b) => b.process(now),
            DeviceBehavior::Heaters(b) => b.process(now),
            DeviceBehavior::OutdoorAlarm(b) => b.process(now),
        }
    }

    fn get_remaining_to_event_ms(&self, now: u64) -> (r: Option<u64>)
        ensures
            r == self.spec_remaining(now),
    {
        match self {
            DeviceBehavior::Counter(b) => b.get_remaining_to_event_ms(now),
            DeviceBehavior::Echo(b) => b.get_remaining_to_event_ms(now),
            DeviceBehavior::Random(b) => b.get_remaining_to_event_ms(now),
            DeviceBehavior::BoardControl(b) => b.get_remaining_to_event_ms(now),
            DeviceBehavior::Class0(b) => b.get_remaining_to_event_ms(now),
            DeviceBehavior::Class1(b) => b.get_remaining_to_event_ms(now),
            DeviceBehavior::Demo(b) => b.get_remaining_to_event_ms(now),
            DeviceBehavior::Garage(b) => b.get_remaining_to_event_ms(now),
            DeviceBehavior::Heaters(b) => b.get_remaining_to_event_ms(now),
            DeviceBehavior::OutdoorAlarm(b) => b.get_remaining_to_event_ms(now),
        }
    }

    fn on_emu_request(&mut self, event: EmuRequest) -> (r: bool)
        ensures
            old(self).spec_emu_request(event, *final(self), r),
            r == old(self).spec_emu_answer(event),
    {
        match self {
            DeviceBehavior::Counter(b) => b.on_emu_request(event),
            DeviceBehavior::Echo(b) => b.on_emu_request(event),
            DeviceBehavior::Random(b) => b.on_emu_request(event),
            DeviceBehavior::BoardControl(b) => b.on_emu_request(event),
            DeviceBehavior::Class0(b) => b.on_emu_request(event),
            DeviceBehavior::Class1(b) => b.on_emu_request(event),
            DeviceBehavior::Demo(b) => b.on_emu_request(event),
            DeviceBehavior::Garage(b) => b.on_emu_request(event),
            DeviceBehavior::Heaters(b) => b.on_emu_request(event),
            DeviceBehavior::OutdoorAlarm(b) => b.on_emu_request(event),
        }
    }
}


/// A behavior that echoes commands sends back, as its next telemetry, the
/// last command it received.
pub proof fn lemma_echo_gives_back_command(
    b: DeviceBehavior,
    endpoint: Endpoint,
    payload: Seq<u8>,
    now: u64,
    mid: DeviceBehavior,
    r: Option<ErrorCode>,
    telemetry_endpoint: Endpoint,
    new: DeviceBehavior,
    p: Seq<u8>,
)
    requires
        b is Echo,
        b.spec_command(endpoint, payload, now, mid, r),
        mid.spec_telemetry(telemetry_endpoint, new, p),
    ensures
        r == Some(ErrorCode::NoError),
        mid.spec_answers_telemetry(telemetry_endpoint),
        p == payload,
        !new.spec_answers_telemetry(telemetry_endpoint),
{
}

/// A counting behavior counts each command it receives and sends the count
/// as its telemetry.
pub proof fn lemma_counter_counts_commands(
    b: DeviceBehavior,
    endpoint: Endpoint,
    payload: Seq<u8>,
    now: u64,
    mid: DeviceBehavior,
    r: Option<ErrorCode>,
    telemetry_endpoint: Endpoint,
    new: DeviceBehavior,
    p: Seq<u8>,
)
    requires
        b matches DeviceBehavior::Counter(c) && c.count < u32::MAX,
        b.spec_command(endpoint, payload, now, mid, r),
        mid.spec_telemetry(telemetry_endpoint, new, p),
    ensures
        r == Some(ErrorCode::NoError),
        b matches DeviceBehavior::Counter(c) && p == spec_u32_be_bytes((c.count + 1) as u32),
        new == mid,
{
}

} // verus!
