use vstd::prelude::*;

use super::super::super::classes::class0;
use super::super::super::datatypes::Temperature;
use super::super::super::device_id::DeviceId;
use super::super::super::error::ErrorCode;
use super::super::super::protocol::Endpoint;
use super::super::behavior::{Behavior, EmuRequest};
use super::super::helpers::{min_ttl, spec_min_ttl, EmuXps, EmuXpsState};

verus! {

/// Duration of a light pulse, in milliseconds.
pub const LIGHTS_PULSE_DURATION_MS: u64 = 30_000;

/// Duration of a siren pulse, in milliseconds.
pub const SIREN_PULSE_DURATION_MS: u64 = 20_000;

/// Whether `t` is the telemetry of the alarm `a`: presence sensors on
/// inputs 1 and 2, sabotage on input 4, the lights on outputs 1 and 2,
/// the siren on relay 1, and the first outside temperature sensor only.
pub open spec fn spec_alarm_telemetry(t: class0::Telemetry, a: OutdoorAlarmController) -> bool {
    &&& t.in1 == a.presence_sensors[0] && t.in2 == a.presence_sensors[1]
    &&& !t.in3 && t.in4 == a.sabotage
    &&& t.oc1 == a.light1@.pin_state && t.poc1 == (a.light1@.pulse_time is Some)
    &&& t.oc2 == a.light2@.pin_state && t.poc2 == (a.light2@.pulse_time is Some)
    &&& t.rl1 == a.siren@.pin_state && t.prl1 == (a.siren@.pulse_time is Some)
    &&& !t.rl2 && !t.prl2
    &&& t.temp_out[1].0 is None && t.temp_out[2].0 is None
}

/// An outdoor alarm: two lights on outputs 1 and 2 and a siren on relay
/// 1, all pulsed; two presence sensors and a sabotage contact.
#[derive(Debug)]
pub struct OutdoorAlarmController {
    pub light1: EmuXps,
    pub light2: EmuXps,
    pub siren: EmuXps,
    pub presence_sensors: [bool; 2],
    pub sabotage: bool,
}

impl OutdoorAlarmController {
    /// Lights and siren off, returning to off after their pulses; nothing
    /// detected.
    pub fn new() -> (r: OutdoorAlarmController)
        ensures
            r.light1@ == (EmuXpsState {
                pin_state: false,
                pin_default: false,
                pulse_time: None,
                pulse_duration: Some(LIGHTS_PULSE_DURATION_MS),
            }),
            r.light2@ == r.light1@,
            r.siren@ == (EmuXpsState {
                pin_state: false,
                pin_default: false,
                pulse_time: None,
                pulse_duration: Some(SIREN_PULSE_DURATION_MS),
            }),
            !r.presence_sensors[0] && !r.presence_sensors[1],
            !r.sabotage,
    {
        OutdoorAlarmController {
            light1: EmuXps::new(false, false, Some(LIGHTS_PULSE_DURATION_MS)),
            light2: EmuXps::new(false, false, Some(LIGHTS_PULSE_DURATION_MS)),
            siren: EmuXps::new(false, false, Some(SIREN_PULSE_DURATION_MS)),
            presence_sensors: [false, false],
            sabotage: false,
        }
    }
}

impl Default for OutdoorAlarmController {
    fn default() -> (r: OutdoorAlarmController)
        ensures
            !r.presence_sensors[0] && !r.presence_sensors[1],
            !r.sabotage,
    {
        OutdoorAlarmController::new()
    }
}

impl Behavior for OutdoorAlarmController {
    open spec fn spec_accepts_did(&self, did: DeviceId) -> bool {
        true
    }

    fn set_did(&mut self, did: &DeviceId)
        ensures
            *final(self) == *old(self),
    {
    }

    /// Sends the state of the alarm; the presence detections are one-shot
    /// events and are cleared once sent.
    fn on_telemetry(&mut self, endpoint: &Endpoint, now: u64) -> (r: Option<Vec<u8>>)
        ensures
            *endpoint != Endpoint::BoardControl ==> r is None && *final(self) == *old(self),
            *endpoint == Endpoint::BoardControl ==> (r matches Some(p) && exists|
                t: class0::Telemetry,
            | spec_alarm_telemetry(t, *old(self)) && p@ == t.spec_encode()),
            *endpoint == Endpoint::BoardControl ==> final(self).light1 == old(self).light1
                && final(self).light2 == old(self).light2 && final(self).siren == old(self).siren
                && !final(self).presence_sensors[0] && !final(self).presence_sensors[1]
                && final(self).sabotage == old(self).sabotage,
    {
        if *endpoint == Endpoint::BoardControl {
            let t = class0::Telemetry {
                oc1: self.light1.get_state(),
                oc2: self.light2.get_state(),
                rl1: self.siren.get_state(),
                rl2: false,
                in1: self.presence_sensors[0],
                in2: self.presence_sensors[1],
                in3: false,
                in4: self.sabotage,
                poc1: self.light1.pulse_pending(),
                poc2: self.light2.pulse_pending(),
                prl1: self.siren.pulse_pending(),
                prl2: false,
                temp_in: Temperature::random_full_range(),
                temp_out: [
                    Temperature::random_full_range(),
                    Temperature::invalid(),
                    Temperature::invalid(),
                ],
            };
            let p = t.to_raw_vec();
            assert(spec_alarm_telemetry(t, *self));
            self.presence_sensors = [false, false];
            Some(p)
        } else {
            None
        }
    }

    /// Applies the output commands of a class 0 command to the lights and
    /// the siren; a payload that is no class 0 command (2 to 7 bytes) is a
    /// frame error.
    fn on_command(
        &mut self,
        endpoint: &Endpoint,
        payload: Vec<u8>,
        terminate: &mut bool,
        now: u64,
    ) -> (r: Option<ErrorCode>)
        ensures
            *final(terminate) == *old(terminate),
            *endpoint != Endpoint::BoardControl ==> r is None && *final(self) == *old(self),
            *endpoint == Endpoint::BoardControl && (payload@.len() < 2 || payload@.len() > 7) ==> r == Some(
                ErrorCode::Eframe,
            ) && *final(self) == *old(self),
            *endpoint == Endpoint::BoardControl && 2 <= payload@.len() <= 7 ==> ({
                let c = class0::Command::spec_decode(payload@);
                &&& r == Some(ErrorCode::NoError)
                &&& final(self).light1@ == old(self).light1@.spec_apply(c.coc1, now)
                &&& final(self).light2@ == old(self).light2@.spec_apply(c.coc2, now)
                &&& final(self).siren@ == old(self).siren@.spec_apply(c.crl1, now)
                &&& final(self).presence_sensors == old(self).presence_sensors
                &&& final(self).sabotage == old(self).sabotage
            }),
    {
        if *endpoint == Endpoint::BoardControl {
            match class0::Command::try_from_raw(payload.as_slice()) {
                Ok(command) => {
                    self.light1.apply(&command.coc1, now);
                    self.light2.apply(&command.coc2, now);
                    self.siren.apply(&command.crl1, now);
                    Some(ErrorCode::NoError)
                },
                Err(_) => Some(ErrorCode::Eframe),
            }
        } else {
            None
        }
    }

    fn on_read_attribute(&mut self, key: u16) -> (r: Option<u32>)
        ensures
            *final(self) == *old(self),
            r is None,
    {
        None
    }

    fn on_write_attribute(&mut self, key: u16, value: u32) -> (r: Option<ErrorCode>)
        ensures
            *final(self) == *old(self),
            r is None,
    {
        None
    }

    /// Ends the pulses that have lasted their duration; asks for a board
    /// telemetry.
    fn process(&mut self, now: u64) -> (r: Option<Endpoint>)
        ensures
            final(self).light1@ == old(self).light1@.spec_after_pulse_process(now),
            final(self).light2@ == old(self).light2@.spec_after_pulse_process(now),
            final(self).siren@ == old(self).siren@.spec_after_pulse_process(now),
            final(self).presence_sensors == old(self).presence_sensors,
            final(self).sabotage == old(self).sabotage,
            r == Some(Endpoint::BoardControl),
    {
        self.light1.pulse_process(now);
        self.light2.pulse_process(now);
        self.siren.pulse_process(now);
        Some(Endpoint::BoardControl)
    }

    /// Time left before the first pulse ends.
    fn get_remaining_to_event_ms(&self, now: u64) -> (r: Option<u64>)
        ensures
            r == spec_min_ttl(
                spec_min_ttl(
                    self.light1@.spec_time_to_pulse_expire(now),
                    self.light2@.spec_time_to_pulse_expire(now),
                ),
                self.siren@.spec_time_to_pulse_expire(now),
            ),
    {
        min_ttl(min_ttl(self.light1.ttl(now), self.light2.ttl(now)), self.siren.ttl(now))
    }

    /// Sets the sensors as the emulation environment asks: clears every
    /// detection, detects a presence, or detects a sabotage.
    fn on_emu_request(&mut self, event: EmuRequest) -> (r: bool)
        ensures
            r,
            final(self).light1 == old(self).light1,
            final(self).light2 == old(self).light2,
            final(self).siren == old(self).siren,
            event == EmuRequest::OutdoorAlarmClear ==> !final(self).presence_sensors[0]
                && !final(self).presence_sensors[1] && !final(self).sabotage,
            event == EmuRequest::OutdoorAlarmPresence ==> final(self).presence_sensors[0]
                && final(self).presence_sensors[1] && final(self).sabotage == old(self).sabotage,
            event == EmuRequest::OutdoorAlarmSabotage ==> final(self).presence_sensors == old(
                self,
            ).presence_sensors && final(self).sabotage,
    {
        match event {
            EmuRequest::OutdoorAlarmClear => {
                self.presence_sensors = [false, false];
                self.sabotage = false;
            },
            EmuRequest::OutdoorAlarmPresence => {
                self.presence_sensors = [true, true];
            },
            EmuRequest::OutdoorAlarmSabotage => {
                self.sabotage = true;
            },
        }
        true
    }
}

} // verus!
