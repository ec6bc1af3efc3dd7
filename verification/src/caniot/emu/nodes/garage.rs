use vstd::prelude::*;

use super::super::super::classes::class0;
use super::super::super::datatypes::{Temperature, Xps};
use super::super::super::device_id::DeviceId;
use super::super::super::error::ErrorCode;
use super::super::super::protocol::Endpoint;
use super::super::behavior::{Behavior, EmuRequest};
use super::super::helpers::{elapsed, min_ttl, spec_elapsed, spec_min_ttl};

verus! {

/// Time a door takes to open, in milliseconds.
pub const DOOR_OPENING_DURATION_MS: u64 = 10_000;

/// Time a door takes to close, in milliseconds.
pub const DOOR_CLOSING_DURATION_MS: u64 = 10_000;

/// A garage door driven by a relay pulse. A moving door records when it
/// started moving; `None` when it was stopped half-way.
#[derive(Debug, Clone, Copy, PartialEq, Eq, Structural)]
pub enum Door {
    Open,
    Closed,
    Opening(Option<u64>),
    Closing(Option<u64>),
}

impl Door {
    /// The door after a relay pulse at `now`: a still door starts moving
    /// the other way, a moving door stops, a stopped door moves back.
    pub open spec fn spec_pulse_relay(self, now: u64) -> Door {
        match self {
            Door::Open => Door::Closing(Some(now)),
            Door::Closed => Door::Opening(Some(now)),
            Door::Opening(None) => Door::Closing(Some(now)),
            Door::Closing(None) => Door::Opening(Some(now)),
            Door::Opening(Some(_)) => Door::Closing(None),
            Door::Closing(Some(_)) => Door::Opening(None),
        }
    }

    /// Time left before a moving door completes its move (0 once done);
    /// `None` for a door that is not moving.
    pub open spec fn spec_time_to_complete(self, now: u64) -> Option<u64> {
        match self {
            Door::Opening(Some(start)) => Some(
                if spec_elapsed(now, start) >= DOOR_OPENING_DURATION_MS {
                    0
                } else {
                    (DOOR_OPENING_DURATION_MS - spec_elapsed(now, start)) as u64
                },
            ),
            Door::Closing(Some(start)) => Some(
                if spec_elapsed(now, start) >= DOOR_CLOSING_DURATION_MS {
                    0
                } else {
                    (DOOR_CLOSING_DURATION_MS - spec_elapsed(now, start)) as u64
                },
            ),
            _ => None,
        }
    }

    /// The door at `now`: a move that has lasted its duration is complete.
    pub open spec fn spec_update_state(self, now: u64) -> Door {
        match self {
            Door::Opening(Some(start)) => if spec_elapsed(now, start) >= DOOR_OPENING_DURATION_MS {
                Door::Open
            } else {
                self
            },
            Door::Closing(Some(start)) => if spec_elapsed(now, start) >= DOOR_CLOSING_DURATION_MS {
                Door::Closed
            } else {
                self
            },
            _ => self,
        }
    }

    /// A relay pulse at `now`.
    pub fn pulse_relay(&mut self, now: u64)
        ensures
            *final(self) == old(self).spec_pulse_relay(now),
    {
        *self = match *self {
            Door::Open => Door::Closing(Some(now)),
            Door::Closed => Door::Opening(Some(now)),
            Door::Opening(None) => Door::Closing(Some(now)),
            Door::Closing(None) => Door::Opening(Some(now)),
            Door::Opening(Some(_)) => Door::Closing(None),
            Door::Closing(Some(_)) => Door::Opening(None),
        };
    }

    /// Time left before a moving door completes its move, in milliseconds.
    pub fn get_time_to_complete_ms(&self, now: u64) -> (r: Option<u64>)
        ensures
            r == self.spec_time_to_complete(now),
    {
        match *self {
            Door::Opening(Some(start)) => {
                let e = elapsed(now, start);
                if e >= DOOR_OPENING_DURATION_MS {
                    Some(0)
                } else {
                    Some(DOOR_OPENING_DURATION_MS - e)
                }
            },
            Door::Closing(Some(start)) => {
                let e = elapsed(now, start);
                if e >= DOOR_CLOSING_DURATION_MS {
                    Some(0)
                } else {
                    Some(DOOR_CLOSING_DURATION_MS - e)
                }
            },
            _ => None,
        }
    }

    /// Same as [`Door::get_time_to_complete_ms`].
    pub fn ttl(&self, now: u64) -> (r: Option<u64>)
        ensures
            r == self.spec_time_to_complete(now),
    {
        self.get_time_to_complete_ms(now)
    }

    /// Completes a move that has lasted its duration.
    pub fn update_state(&mut self, now: u64)
        ensures
            *final(self) == old(self).spec_update_state(now),
    {
        match *self {
            Door::Opening(Some(start)) => {
                if elapsed(now, start) >= DOOR_OPENING_DURATION_MS {
                    *self = Door::Open;
                }
            },
            Door::Closing(Some(start)) => {
                if elapsed(now, start) >= DOOR_CLOSING_DURATION_MS {
                    *self = Door::Closed;
                }
            },
            _ => {},
        }
    }

    /// Whether the door is not closed.
    pub fn is_open(&self) -> (r: bool)
        ensures
            r == !(*self == Door::Closed),
    {
        !matches!(*self, Door::Closed)
    }
}

/// A relay pulse on a still door starts it moving the other way; once the
/// move has lasted its duration, the door has nothing left to do and an
/// update completes the move.
pub proof fn lemma_door_move_completes(d: Door, start: u64, later: u64)
    requires
        d == Door::Open || d == Door::Closed,
        later >= start,
        later - start >= DOOR_OPENING_DURATION_MS,
    ensures
        d.spec_pulse_relay(start).spec_time_to_complete(later) == Some(0u64),
        d.spec_pulse_relay(start).spec_update_state(later) == if d == Door::Open {
            Door::Closed
        } else {
            Door::Open
        },
{
}

impl Default for Door {
    fn default() -> (r: Door)
        ensures
            r == Door::Closed,
    {
        Door::Closed
    }
}

/// Whether `t` is the telemetry of the garage `g`: input 1 unconnected
/// (high), input 2 the yard barrier, inputs 3 and 4 the doors, no output, no pulse,
/// no outside temperature.
pub open spec fn spec_garage_telemetry(t: class0::Telemetry, g: GarageController) -> bool {
    &&& t.in1 && t.in2 == g.gate_open
    &&& t.in3 == !(g.left_door == Door::Closed) && t.in4 == !(g.right_door == Door::Closed)
    &&& !t.oc1 && !t.oc2 && !t.rl1 && !t.rl2
    &&& !t.poc1 && !t.poc2 && !t.prl1 && !t.prl2
    &&& t.temp_out[0].0 is None && t.temp_out[1].0 is None && t.temp_out[2].0 is None
}

/// A garage: two doors driven by relays 1 and 2 and sensed on inputs 3 and
/// 4, and a yard barrier sensed on input 2.
#[derive(Debug)]
pub struct GarageController {
    pub left_door: Door,
    pub right_door: Door,
    pub gate_open: bool,
}

impl GarageController {
    /// Both doors closed, the yard barrier closed.
    pub fn new() -> (r: GarageController)
        ensures
            r.left_door == Door::Closed,
            r.right_door == Door::Closed,
            !r.gate_open,
    {
        GarageController { left_door: Door::Closed, right_door: Door::Closed, gate_open: false }
    }

    /// The garage after the command `payload` on the board endpoint at
    /// `now`; `None` when the payload is no class 0 command (2 to 7 bytes).
    pub open spec fn spec_after_command(self, payload: Seq<u8>, now: u64) -> Option<GarageController> {
        if 2 <= payload.len() <= 7 {
            let c = class0::Command::spec_decode(payload);
            Some(
                GarageController {
                    left_door: if c.crl1 == Xps::PulseOn {
                        self.left_door.spec_pulse_relay(now)
                    } else {
                        self.left_door
                    },
                    right_door: if c.crl2 == Xps::PulseOn {
                        self.right_door.spec_pulse_relay(now)
                    } else {
                        self.right_door
                    },
                    gate_open: self.gate_open,
                },
            )
        } else {
            None
        }
    }
}

impl Default for GarageController {
    fn default() -> (r: GarageController)
        ensures
            r.left_door == Door::Closed,
            r.right_door == Door::Closed,
            !r.gate_open,
    {
        GarageController::new()
    }
}

impl Behavior for GarageController {
    open spec fn spec_accepts_did(&self, did: DeviceId) -> bool {
        true
    }

    fn set_did(&mut self, did: &DeviceId)
        ensures
            *final(self) == *old(self),
    {
    }

    fn on_telemetry(&mut self, endpoint: &Endpoint, now: u64) -> (r: Option<Vec<u8>>)
        ensures
            *final(self) == *old(self),
            *endpoint != Endpoint::BoardControl ==> r is None,
            *endpoint == Endpoint::BoardControl ==> (r matches Some(p) && exists|
                t: class0::Telemetry,
            | spec_garage_telemetry(t, *old(self)) && p@ == t.spec_encode()),
    {
        if *endpoint == Endpoint::BoardControl {
            let t = class0::Telemetry {
                oc1: false,
                oc2: false,
                rl1: false,
                rl2: false,
                in1: true,
                in2: self.gate_open,
                in3: self.left_door.is_open(),
                in4: self.right_door.is_open(),
                poc1: false,
                poc2: false,
                prl1: false,
                prl2: false,
                temp_in: Temperature::random_full_range(),
                temp_out: [Temperature::invalid(), Temperature::invalid(), Temperature::invalid()],
            };
            let p = t.to_raw_vec();
            assert(spec_garage_telemetry(t, *self));
            Some(p)
        } else {
            None
        }
    }

    /// Pulses the relays that the class 0 command pulses on; a payload
    /// that is no class 0 command is a frame error.
    fn on_command(
        &mut self,
        endpoint: &Endpoint,
        payload: Vec<u8>,
        terminate: &mut bool,
        now: u64,
    ) -> (r: Option<ErrorCode>)
        ensures
            *final(terminate) == *old(terminate),
            *endpoint != Endpoint::BoardControl ==> r is None && *final(self) == *old(self),
            *endpoint == Endpoint::BoardControl ==> match old(self).spec_after_command(
                payload@,
                now,
            ) {
                Some(g) => r == Some(ErrorCode::NoError) && *final(self) == g,
                None => r == Some(ErrorCode::Eframe) && *final(self) == *old(self),
            },
    {
        if *endpoint == Endpoint::BoardControl {
            match class0::Command::try_from_raw(payload.as_slice()) {
                Ok(command) => {
                    if command.crl1 == Xps::PulseOn {
                        self.left_door.pulse_relay(now);
                    }
                    if command.crl2 == Xps::PulseOn {
                        self.right_door.pulse_relay(now);
                    }
                    Some(ErrorCode::NoError)
                },
                Err(_) => Some(ErrorCode::Eframe),
            }
        } else {
            None
        }
    }

    fn on_read_attribute(&mut self, key: u16) -> (r: Option<u32>)
        ensures
            *final(self) == *old(self),
            r is None,
    {
        None
    }

    fn on_write_attribute(&mut self, key: u16, value: u32) -> (r: Option<ErrorCode>)
        ensures
            *final(self) == *old(self),
            r is None,
    {
        None
    }

    /// Completes the door moves that have lasted their duration; asks for
    /// a board telemetry.
    fn process(&mut self, now: u64) -> (r: Option<Endpoint>)
        ensures
            final(self).left_door == old(self).left_door.spec_update_state(now),
            final(self).right_door == old(self).right_door.spec_update_state(now),
            final(self).gate_open == old(self).gate_open,
            r == Some(Endpoint::BoardControl),
    {
        self.left_door.update_state(now);
        self.right_door.update_state(now);
        Some(Endpoint::BoardControl)
    }

    /// Time left before the first door completes its move.
    fn get_remaining_to_event_ms(&self, now: u64) -> (r: Option<u64>)
        ensures
            r == spec_min_ttl(
                self.left_door.spec_time_to_complete(now),
                self.right_door.spec_time_to_complete(now),
            ),
    {
        min_ttl(self.left_door.ttl(now), self.right_door.ttl(now))
    }

    fn on_emu_request(&mut self, event: EmuRequest) -> (r: bool)
        ensures
            *final(self) == *old(self),
            !r,
    {
        false
    }
}

} // verus!
