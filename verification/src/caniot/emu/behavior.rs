use vstd::prelude::*;

use super::super::classes::class0;
use super::super::classes::class1;
use super::super::datatypes::Temperature;
use super::super::decenc::decode_sys_command;
use super::super::device_id::DeviceId;
use super::super::error::ErrorCode;
use super::super::protocol::Endpoint;
use super::super::random::{random_bool, random_u32, random_u8};
use super::super::classes::codec::spec_has_bit;
use super::super::types::SystemCommand;

verus! {

/// Requests that the emulation environment sends to emulated devices.
#[derive(Debug, Clone, Copy, PartialEq, Eq, Structural)]
pub enum EmuRequest {
    OutdoorAlarmClear,
    OutdoorAlarmPresence,
    OutdoorAlarmSabotage,
}

impl EmuRequest {
    /// The request of code `code`: 0 clears the alarm, 1 detects a
    /// presence, 2 detects a sabotage; any other code clears the alarm.
    pub fn from_code_or_default(code: u32) -> (r: EmuRequest)
        ensures
            code == 1 ==> r == EmuRequest::OutdoorAlarmPresence,
            code == 2 ==> r == EmuRequest::OutdoorAlarmSabotage,
            code != 1 && code != 2 ==> r == EmuRequest::OutdoorAlarmClear,
    {
        match code {
            1 => EmuRequest::OutdoorAlarmPresence,
            2 => EmuRequest::OutdoorAlarmSabotage,
            _ => EmuRequest::OutdoorAlarmClear,
        }
    }
}

/// What an emulated device does: answers telemetry requests, handles
/// commands and attribute accesses, and reacts to the passing of time.
///
/// Times are in milliseconds on a clock chosen by the caller.
pub trait Behavior: Sized {
    /// Whether the behavior can run on the device `did`.
    spec fn spec_accepts_did(&self, did: DeviceId) -> bool;

    /// Initializes the behavior for the device `did`.
    fn set_did(&mut self, did: &DeviceId)
        requires
            old(self).spec_accepts_did(*did),
    ;

    /// The telemetry payload for `endpoint`, if the behavior answers it.
    fn on_telemetry(&mut self, endpoint: &Endpoint, now: u64) -> (r: Option<Vec<u8>>)
        ensures
            r matches Some(p) ==> p@.len() <= 8,
    ;

    /// Handles a command; `None` when the behavior does not handle it.
    /// A behavior sets `terminate` to let the next behaviors see the command too.
    fn on_command(
        &mut self,
        endpoint: &Endpoint,
        payload: Vec<u8>,
        terminate: &mut bool,
        now: u64,
    ) -> (r: Option<ErrorCode>)
        requires
            payload@.len() <= 8,
    ;

    /// Reads an attribute; `None` when the behavior does not have it.
    fn on_read_attribute(&mut self, key: u16) -> (r: Option<u32>);

    /// Writes an attribute; `None` when the behavior does not have it.
    fn on_write_attribute(&mut self, key: u16, value: u32) -> (r: Option<ErrorCode>);

    /// Lets time pass; returns the endpoint whose telemetry should be sent.
    fn process(&mut self, now: u64) -> (r: Option<Endpoint>);

    /// Time left before the behavior needs to be processed, if it does.
    fn get_remaining_to_event_ms(&self, now: u64) -> (r: Option<u64>);

    /// Handles a request of the emulation environment; returns whether the
    /// device should be processed now.
    fn on_emu_request(&mut self, event: EmuRequest) -> (r: bool);
}

/// The 4 big-endian bytes of `v`.
pub open spec fn spec_u32_be_bytes(v: u32) -> Seq<u8> {
    seq![(v >> 24u32) as u8, (v >> 16u32) as u8, (v >> 8u32) as u8, v as u8]
}

fn u32_be_bytes(v: u32) -> (r: Vec<u8>)
    ensures
        r@ == spec_u32_be_bytes(v),
{
    let r = vec![(v >> 24u32) as u8, (v >> 16u32) as u8, (v >> 8u32) as u8, v as u8];
    proof {
        assert(r@ =~= spec_u32_be_bytes(v));
    }
    r
}

/// Counts the commands it receives and sends the count as telemetry.
#[derive(Debug)]
pub struct CounterBehavior {
    pub count: u32,
}

impl Default for CounterBehavior {
    fn default() -> (r: CounterBehavior)
        ensures
            r.count == 0,
    {
        CounterBehavior { count: 0 }
    }
}

impl Behavior for CounterBehavior {
    open spec fn spec_accepts_did(&self, did: DeviceId) -> bool {
        true
    }

    fn set_did(&mut self, did: &DeviceId)
        ensures
            *final(self) == *old(self),
    {
    }

    fn on_telemetry(&mut self, endpoint: &Endpoint, now: u64) -> (r: Option<Vec<u8>>)
        ensures
            *final(self) == *old(self),
            r matches Some(p) && p@ == spec_u32_be_bytes(old(self).count),
    {
        Some(u32_be_bytes(self.count))
    }

    fn on_command(
        &mut self,
        endpoint: &Endpoint,
        payload: Vec<u8>,
        terminate: &mut bool,
        now: u64,
    ) -> (r: Option<ErrorCode>)
        ensures
            final(self).count == old(self).count.wrapping_add(1),
            *final(terminate) == *old(terminate),
            r == Some(ErrorCode::NoError),
    {
        self.count = self.count.wrapping_add(1);
        Some(ErrorCode::NoError)
    }

    fn on_read_attribute(&mut self, key: u16) -> (r: Option<u32>)
        ensures
            *final(self) == *old(self),
            r is None,
    {
        None
    }

    fn on_write_attribute(&mut self, key: u16, value: u32) -> (r: Option<ErrorCode>)
        ensures
            *final(self) == *old(self),
            r is None,
    {
        None
    }

    fn process(&mut self, now: u64) -> (r: Option<Endpoint>)
        ensures
            *final(self) == *old(self),
            r is None,
    {
        None
    }

    fn get_remaining_to_event_ms(&self, now: u64) -> (r: Option<u64>)
        ensures
            r is None,
    {
        None
    }

    fn on_emu_request(&mut self, event: EmuRequest) -> (r: bool)
        ensures
            *final(self) == *old(self),
            !r,
    {
        false
    }
}


/// Keeps the last command it received and sends it back, once, as telemetry.
#[derive(Debug)]
pub struct EchoBehavior {
    last_command: Option<Vec<u8>>,
}

impl EchoBehavior {
    #[verifier::type_invariant]
    closed spec fn inv(&self) -> bool {
        self.last_command matches Some(c) ==> c@.len() <= 8
    }

    /// The last command received and not yet sent back.
    pub closed spec fn spec_last(&self) -> Option<Seq<u8>> {
        match self.last_command {
            Some(c) => Some(c@),
            None => None,
        }
    }

    /// A behavior that has received no command.
    pub fn new() -> (r: EchoBehavior)
        ensures
            r.spec_last() is None,
    {
        EchoBehavior { last_command: None }
    }
}

impl Default for EchoBehavior {
    fn default() -> (r: EchoBehavior)
        ensures
            r.spec_last() is None,
    {
        EchoBehavior::new()
    }
}

impl Behavior for EchoBehavior {
    open spec fn spec_accepts_did(&self, did: DeviceId) -> bool {
        true
    }

    fn set_did(&mut self, did: &DeviceId)
        ensures
            *final(self) == *old(self),
    {
    }

    fn on_telemetry(&mut self, endpoint: &Endpoint, now: u64) -> (r: Option<Vec<u8>>)
        ensures
            final(self).spec_last() is None,
            old(self).spec_last() is None ==> r is None && *final(self) == *old(self),
            old(self).spec_last() matches Some(c) ==> (r matches Some(p) && p@ == c),
    {
        proof {
            use_type_invariant(&*self);
        }
        let mut taken: Option<Vec<u8>> = None;
        std::mem::swap(&mut taken, &mut self.last_command);
        taken
    }

    fn on_command(
        &mut self,
        endpoint: &Endpoint,
        payload: Vec<u8>,
        terminate: &mut bool,
        now: u64,
    ) -> (r: Option<ErrorCode>)
        ensures
            final(self).spec_last() == Some(payload@),
            *final(terminate) == *old(terminate),
            r == Some(ErrorCode::NoError),
    {
        self.last_command = Some(payload);
        Some(ErrorCode::NoError)
    }

    fn on_read_attribute(&mut self, key: u16) -> (r: Option<u32>)
        ensures
            *final(self) == *old(self),
            r is None,
    {
        None
    }

    fn on_write_attribute(&mut self, key: u16, value: u32) -> (r: Option<ErrorCode>)
        ensures
            *final(self) == *old(self),
            r is None,
    {
        None
    }

    fn process(&mut self, now: u64) -> (r: Option<Endpoint>)
        ensures
            *final(self) == *old(self),
            r is None,
    {
        None
    }

    fn get_remaining_to_event_ms(&self, now: u64) -> (r: Option<u64>)
        ensures
            r is None,
    {
        None
    }

    fn on_emu_request(&mut self, event: EmuRequest) -> (r: bool)
        ensures
            *final(self) == *old(self),
            !r,
    {
        false
    }
}

/// Sends random telemetry and accepts every command and attribute write.
#[derive(Debug)]
pub struct RandomBehavior();

impl Default for RandomBehavior {
    fn default() -> (r: RandomBehavior) {
        RandomBehavior()
    }
}

impl Behavior for RandomBehavior {
    open spec fn spec_accepts_did(&self, did: DeviceId) -> bool {
        true
    }

    fn set_did(&mut self, did: &DeviceId)
        ensures
            *final(self) == *old(self),
    {
    }

    fn on_telemetry(&mut self, endpoint: &Endpoint, now: u64) -> (r: Option<Vec<u8>>)
        ensures
            *final(self) == *old(self),
            r matches Some(p) && p@.len() == 4,
    {
        Some(vec![random_u8(), random_u8(), random_u8(), random_u8()])
    }

    fn on_command(
        &mut self,
        endpoint: &Endpoint,
        payload: Vec<u8>,
        terminate: &mut bool,
        now: u64,
    ) -> (r: Option<ErrorCode>)
        ensures
            *final(self) == *old(self),
            *final(terminate) == *old(terminate),
            r == Some(ErrorCode::NoError),
    {
        Some(ErrorCode::NoError)
    }

    fn on_read_attribute(&mut self, key: u16) -> (r: Option<u32>)
        ensures
            *final(self) == *old(self),
            r is Some,
    {
        Some(random_u32())
    }

    fn on_write_attribute(&mut self, key: u16, value: u32) -> (r: Option<ErrorCode>)
        ensures
            *final(self) == *old(self),
            r == Some(ErrorCode::NoError),
    {
        Some(ErrorCode::NoError)
    }

    fn process(&mut self, now: u64) -> (r: Option<Endpoint>)
        ensures
            *final(self) == *old(self),
            r is None,
    {
        None
    }

    fn get_remaining_to_event_ms(&self, now: u64) -> (r: Option<u64>)
        ensures
            r is None,
    {
        None
    }

    fn on_emu_request(&mut self, event: EmuRequest) -> (r: bool)
        ensures
            *final(self) == *old(self),
            !r,
    {
        false
    }
}

/// The system part of a board-level command: the last of its 8 bytes.
pub open spec fn spec_sys_command(payload: Seq<u8>) -> Option<SystemCommand> {
    if payload.len() >= 8 {
        Some(
            SystemCommand {
                hardware_reset: spec_has_bit(payload[7], 0),
                software_reset: spec_has_bit(payload[7], 1),
                watchdog_reset: spec_has_bit(payload[7], 2),
                watchdog_enable: spec_has_bit(payload[7], 3),
                factory_reset: spec_has_bit(payload[7], 5),
            },
        )
    } else {
        None
    }
}

/// Handles the system part of board-level commands: counts hardware resets.
#[derive(Debug)]
pub struct BoardControlBehavior {
    pub did: Option<DeviceId>,
    pub reset_count: u32,
}

impl Default for BoardControlBehavior {
    fn default() -> (r: BoardControlBehavior)
        ensures
            r.did is None,
            r.reset_count == 0,
    {
        BoardControlBehavior { did: None, reset_count: 0 }
    }
}

impl Behavior for BoardControlBehavior {
    open spec fn spec_accepts_did(&self, did: DeviceId) -> bool {
        true
    }

    fn set_did(&mut self, did: &DeviceId)
        ensures
            final(self).did == Some(*did),
            final(self).reset_count == old(self).reset_count,
    {
        self.did = Some(*did);
    }

    fn on_telemetry(&mut self, endpoint: &Endpoint, now: u64) -> (r: Option<Vec<u8>>)
        ensures
            *final(self) == *old(self),
            r is None,
    {
        None
    }

    fn on_command(
        &mut self,
        endpoint: &Endpoint,
        payload: Vec<u8>,
        terminate: &mut bool,
        now: u64,
    ) -> (r: Option<ErrorCode>)
        ensures
            *final(terminate) == *old(terminate),
            final(self).did == old(self).did,
            spec_sys_command(payload@) is None ==> r is None && final(self).reset_count == old(
                self,
            ).reset_count,
            spec_sys_command(payload@) matches Some(sys) ==> r == Some(ErrorCode::NoError) && (
            final(self).reset_count == if sys.hardware_reset {
                old(self).reset_count.wrapping_add(1)
            } else {
                old(self).reset_count
            }),
    {
        if payload.len() >= 8 {
            let sys = decode_sys_command(payload[7]);
            if sys.hardware_reset {
                self.reset_count = self.reset_count.wrapping_add(1);
            }
            Some(ErrorCode::NoError)
        } else {
            None
        }
    }

    fn on_read_attribute(&mut self, key: u16) -> (r: Option<u32>)
        ensures
            *final(self) == *old(self),
            r is None,
    {
        None
    }

    fn on_write_attribute(&mut self, key: u16, value: u32) -> (r: Option<ErrorCode>)
        ensures
            *final(self) == *old(self),
            r is None,
    {
        None
    }

    fn process(&mut self, now: u64) -> (r: Option<Endpoint>)
        ensures
            *final(self) == *old(self),
            r is None,
    {
        None
    }

    fn get_remaining_to_event_ms(&self, now: u64) -> (r: Option<u64>)
        ensures
            r is None,
    {
        None
    }

    fn on_emu_request(&mut self, event: EmuRequest) -> (r: bool)
        ensures
            *final(self) == *old(self),
            !r,
    {
        false
    }
}

/// Whether `t` is a class 0 telemetry as a class 0 board without sensors
/// behind its outputs sends it: outputs as given, no pulse under way, only
/// the first outside temperature sensor present.
pub open spec fn spec_class0_board_telemetry(
    t: class0::Telemetry,
    oc1: bool,
    oc2: bool,
    rl1: bool,
    rl2: bool,
) -> bool {
    &&& t.oc1 == oc1 && t.oc2 == oc2 && t.rl1 == rl1 && t.rl2 == rl2
    &&& !t.poc1 && !t.poc2 && !t.prl1 && !t.prl2
    &&& t.temp_out[1].0 is None && t.temp_out[2].0 is None
}

/// A class 0 board: random inputs and temperatures, outputs as kept;
/// commands on the board endpoint are not implemented.
#[derive(Debug)]
pub struct Class0Behavior {
    pub oc1: bool,
    pub oc2: bool,
    pub rl1: bool,
    pub rl2: bool,
}

impl Default for Class0Behavior {
    fn default() -> (r: Class0Behavior)
        ensures
            !r.oc1 && !r.oc2 && !r.rl1 && !r.rl2,
    {
        Class0Behavior { oc1: false, oc2: false, rl1: false, rl2: false }
    }
}

impl Behavior for Class0Behavior {
    open spec fn spec_accepts_did(&self, did: DeviceId) -> bool {
        did.class == 0
    }

    fn set_did(&mut self, did: &DeviceId)
        ensures
            *final(self) == *old(self),
    {
    }

    fn on_telemetry(&mut self, endpoint: &Endpoint, now: u64) -> (r: Option<Vec<u8>>)
        ensures
            *final(self) == *old(self),
            *endpoint != Endpoint::BoardControl ==> r is None,
            *endpoint == Endpoint::BoardControl ==> (r matches Some(p) && exists|
                t: class0::Telemetry,
            |
                spec_class0_board_telemetry(t, old(self).oc1, old(self).oc2, old(self).rl1, old(self).rl2) && p@
                    == t.spec_encode()),
    {
        if *endpoint == Endpoint::BoardControl {
            let t = class0::Telemetry {
                oc1: self.oc1,
                oc2: self.oc2,
                rl1: self.rl1,
                rl2: self.rl2,
                in1: random_bool(),
                in2: random_bool(),
                in3: random_bool(),
                in4: random_bool(),
                poc1: false,
                poc2: false,
                prl1: false,
                prl2: false,
                temp_in: Temperature::random_full_range(),
                temp_out: [Temperature::random_full_range(), Temperature::invalid(), Temperature::invalid()],
            };
            let p = t.to_raw_vec();
            assert(spec_class0_board_telemetry(t, self.oc1, self.oc2, self.rl1, self.rl2));
            Some(p)
        } else {
            None
        }
    }

    fn on_command(
        &mut self,
        endpoint: &Endpoint,
        payload: Vec<u8>,
        terminate: &mut bool,
        now: u64,
    ) -> (r: Option<ErrorCode>)
        ensures
            *final(self) == *old(self),
            *final(terminate) == *old(terminate),
            r == (if *endpoint == Endpoint::BoardControl {
                Some(ErrorCode::Enimpl)
            } else {
                None::<ErrorCode>
            }),
    {
        if *endpoint == Endpoint::BoardControl {
            Some(ErrorCode::Enimpl)
        } else {
            None
        }
    }

    fn on_read_attribute(&mut self, key: u16) -> (r: Option<u32>)
        ensures
            *final(self) == *old(self),
            r is None,
    {
        None
    }

    fn on_write_attribute(&mut self, key: u16, value: u32) -> (r: Option<ErrorCode>)
        ensures
            *final(self) == *old(self),
            r is None,
    {
        None
    }

    fn process(&mut self, now: u64) -> (r: Option<Endpoint>)
        ensures
            *final(self) == *old(self),
            r is None,
    {
        None
    }

    fn get_remaining_to_event_ms(&self, now: u64) -> (r: Option<u64>)
        ensures
            r is None,
    {
        None
    }

    fn on_emu_request(&mut self, event: EmuRequest) -> (r: bool)
        ensures
            *final(self) == *old(self),
            !r,
    {
        false
    }
}

/// A class 1 board: random inputs/outputs and temperatures; accepts every
/// command on the board endpoint.
#[derive(Debug)]
pub struct Class1Behavior {}

impl Default for Class1Behavior {
    fn default() -> (r: Class1Behavior) {
        Class1Behavior {}
    }
}

impl Behavior for Class1Behavior {
    open spec fn spec_accepts_did(&self, did: DeviceId) -> bool {
        did.class == 1
    }

    fn set_did(&mut self, did: &DeviceId)
        ensures
            *final(self) == *old(self),
    {
    }

    fn on_telemetry(&mut self, endpoint: &Endpoint, now: u64) -> (r: Option<Vec<u8>>)
        ensures
            *final(self) == *old(self),
            *endpoint != Endpoint::BoardControl ==> r is None,
            *endpoint == Endpoint::BoardControl ==> (r matches Some(p) && exists|
                t: class1::Telemetry,
            |
                t.temp_out[1].0 is None && t.temp_out[2].0 is None && p@ == t.spec_encode()),
    {
        if *endpoint == Endpoint::BoardControl {
            let t = class1::Telemetry {
                ios: [
                    random_bool(),
                    random_bool(),
                    random_bool(),
                    random_bool(),
                    random_bool(),
                    random_bool(),
                    random_bool(),
                    random_bool(),
                    random_bool(),
                    random_bool(),
                    random_bool(),
                    random_bool(),
                    random_bool(),
                    random_bool(),
                    random_bool(),
                    random_bool(),
                    random_bool(),
                    random_bool(),
                    random_bool(),
                ],
                temp_in: Temperature::random_full_range(),
                temp_out: [Temperature::random_full_range(), Temperature::invalid(), Temperature::invalid()],
            };
            let p = t.to_raw_vec();
            Some(p)
        } else {
            None
        }
    }

    fn on_command(
        &mut self,
        endpoint: &Endpoint,
        payload: Vec<u8>,
        terminate: &mut bool,
        now: u64,
    ) -> (r: Option<ErrorCode>)
        ensures
            *final(self) == *old(self),
            *final(terminate) == *old(terminate),
            r == (if *endpoint == Endpoint::BoardControl {
                Some(ErrorCode::NoError)
            } else {
                None::<ErrorCode>
            }),
    {
        if *endpoint == Endpoint::BoardControl {
            Some(ErrorCode::NoError)
        } else {
            None
        }
    }

    fn on_read_attribute(&mut self, key: u16) -> (r: Option<u32>)
        ensures
            *final(self) == *old(self),
            r is None,
    {
        None
    }

    fn on_write_attribute(&mut self, key: u16, value: u32) -> (r: Option<ErrorCode>)
        ensures
            *final(self) == *old(self),
            r is None,
    {
        None
    }

    fn process(&mut self, now: u64) -> (r: Option<Endpoint>)
        ensures
            *final(self) == *old(self),
            r is None,
    {
        None
    }

    fn get_remaining_to_event_ms(&self, now: u64) -> (r: Option<u64>)
        ensures
            r is None,
    {
        None
    }

    fn on_emu_request(&mut self, event: EmuRequest) -> (r: bool)
        ensures
            *final(self) == *old(self),
            !r,
    {
        false
    }
}

} // verus!
