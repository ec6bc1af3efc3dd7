use vstd::prelude::*;

use super::super::super::datatypes::HeatingMode;
use super::super::super::device_id::DeviceId;
use super::super::super::error::ErrorCode;
use super::super::super::protocol::Endpoint;
use super::super::behavior::{Behavior, EmuRequest};

verus! {

/// A heaters controller: the modes of its four heaters and the state of
/// the power supply.
///
/// It acknowledges every command; the encodings of its application
/// command and telemetry are not part of this library, so it sends no
/// telemetry of its own and commands are applied with
/// [`HeatersController::apply_modes`].
#[derive(Debug)]
pub struct HeatersController {
    pub modes: [HeatingMode; 4],
    pub power_status: bool,
}

impl HeatersController {
    /// All heaters stopped, power supply on.
    pub fn new() -> (r: HeatersController)
        ensures
            forall|i: int| 0 <= i < 4 ==> #[trigger] r.modes[i] == HeatingMode::Stop,
            r.power_status,
    {
        HeatersController {
            modes: [HeatingMode::Stop, HeatingMode::Stop, HeatingMode::Stop, HeatingMode::Stop],
            power_status: true,
        }
    }

    /// Sets each heater to the mode given for it, but where `NoMode` is
    /// given: that heater keeps its mode.
    pub fn apply_modes(&mut self, modes: [HeatingMode; 4])
        ensures
            final(self).power_status == old(self).power_status,
            forall|i: int|
                0 <= i < 4 ==> #[trigger] final(self).modes[i] == (if modes[i] == HeatingMode::NoMode {
                    old(self).modes[i]
                } else {
                    modes[i]
                }),
    {
        let mut new_modes = self.modes;
        let mut i: usize = 0;
        while i < 4
            invariant
                i <= 4,
                forall|j: int|
                    0 <= j < i ==> #[trigger] new_modes[j] == (if modes[j] == HeatingMode::NoMode {
                        old(self).modes[j]
                    } else {
                        modes[j]
                    }),
                forall|j: int| i <= j < 4 ==> #[trigger] new_modes[j] == old(self).modes[j],
                self.modes == old(self).modes,
                self.power_status == old(self).power_status,
            decreases 4 - i,
        {
            let m = modes[i];
            if m != HeatingMode::NoMode {
                new_modes.set(i, m);
            }
            i = i + 1;
        }
        self.modes = new_modes;
    }
}

impl Default for HeatersController {
    fn default() -> (r: HeatersController)
        ensures
            forall|i: int| 0 <= i < 4 ==> #[trigger] r.modes[i] == HeatingMode::Stop,
            r.power_status,
    {
        HeatersController::new()
    }
}

impl Behavior for HeatersController {
    open spec fn spec_accepts_did(&self, did: DeviceId) -> bool {
        true
    }

    fn set_did(&mut self, did: &DeviceId)
        ensures
            *final(self) == *old(self),
    {
    }

    fn on_telemetry(&mut self, endpoint: &Endpoint, now: u64) -> (r: Option<Vec<u8>>)
        ensures
            *final(self) == *old(self),
            r is None,
    {
        None
    }

    fn on_command(
        &mut self,
        endpoint: &Endpoint,
        payload: Vec<u8>,
        terminate: &mut bool,
        now: u64,
    ) -> (r: Option<ErrorCode>)
        ensures
            *final(self) == *old(self),
            *final(terminate) == *old(terminate),
            r == Some(ErrorCode::NoError),
    {
        Some(ErrorCode::NoError)
    }

    fn on_read_attribute(&mut self, key: u16) -> (r: Option<u32>)
        ensures
            *final(self) == *old(self),
            r is None,
    {
        None
    }

    fn on_write_attribute(&mut self, key: u16, value: u32) -> (r: Option<ErrorCode>)
        ensures
            *final(self) == *old(self),
            r is None,
    {
        None
    }

    fn process(&mut self, now: u64) -> (r: Option<Endpoint>)
        ensures
            *final(self) == *old(self),
            r is None,
    {
        None
    }

    fn get_remaining_to_event_ms(&self, now: u64) -> (r: Option<u64>)
        ensures
            r is None,
    {
        None
    }

    fn on_emu_request(&mut self, event: EmuRequest) -> (r: bool)
        ensures
            *final(self) == *old(self),
            !r,
    {
        false
    }
}

} // verus!
