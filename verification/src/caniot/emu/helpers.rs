use vstd::prelude::*;

use super::super::datatypes::Xps;

verus! {

/// Time elapsed from `since` to `now`, in milliseconds; 0 when `now` is earlier.
pub open spec fn spec_elapsed(now: u64, since: u64) -> u64 {
    if now >= since {
        (now - since) as u64
    } else {
        0
    }
}

/// Time elapsed from `since` to `now`, in milliseconds; 0 when `now` is earlier.
pub fn elapsed(now: u64, since: u64) -> (r: u64)
    ensures
        r == spec_elapsed(now, since),
{
    if now >= since {
        now - since
    } else {
        0
    }
}

/// The smaller of two optional durations; a missing one does not count.
pub open spec fn spec_min_ttl(a: Option<u64>, b: Option<u64>) -> Option<u64> {
    match (a, b) {
        (Some(x), Some(y)) => Some(
            if x <= y {
                x
            } else {
                y
            },
        ),
        (Some(x), None) => Some(x),
        (None, Some(y)) => Some(y),
        (None, None) => None,
    }
}

/// The smaller of two optional durations; a missing one does not count.
pub fn min_ttl(a: Option<u64>, b: Option<u64>) -> (r: Option<u64>)
    ensures
        r == spec_min_ttl(a, b),
{
    match (a, b) {
        (Some(x), Some(y)) => Some(
            if x <= y {
                x
            } else {
                y
            },
        ),
        (Some(x), None) => Some(x),
        (None, Some(y)) => Some(y),
        (None, None) => None,
    }
}

/// State of an emulated output.
#[derive(Debug, Clone, Copy, PartialEq, Eq, Structural)]
pub struct EmuXpsState {
    pub pin_state: bool,
    pub pin_default: bool,
    pub pulse_time: Option<u64>,
    pub pulse_duration: Option<u64>,
}

/// An emulated output: its state, its default state, and the pulse under
/// way (start time and duration, in milliseconds).
#[derive(Debug)]
pub struct EmuXps {
    pin_state: bool,
    pin_default: bool,
    pulse_time: Option<u64>,
    pulse_duration: Option<u64>,
}

impl View for EmuXps {
    type V = EmuXpsState;

    closed spec fn view(&self) -> EmuXpsState {
        EmuXpsState {
            pin_state: self.pin_state,
            pin_default: self.pin_default,
            pulse_time: self.pulse_time,
            pulse_duration: self.pulse_duration,
        }
    }
}

impl EmuXpsState {
    /// A pulse is only under way on an output that supports pulses.
    pub open spec fn wf(self) -> bool {
        self.pulse_time is Some ==> self.pulse_duration is Some
    }

    /// Whether the pulse under way has lasted its duration at time `now`.
    pub open spec fn spec_pulse_expired(self, now: u64) -> bool {
        match self.pulse_time {
            Some(t) => spec_elapsed(now, t) >= self.pulse_duration->0,
            None => false,
        }
    }

    /// Time left before the pulse under way ends (0 once it has ended).
    pub open spec fn spec_time_to_pulse_expire(self, now: u64) -> Option<u64> {
        match self.pulse_time {
            Some(t) => Some(
                if self.pulse_duration->0 >= spec_elapsed(now, t) {
                    (self.pulse_duration->0 - spec_elapsed(now, t)) as u64
                } else {
                    0
                },
            ),
            None => None,
        }
    }

    /// The state after starting a pulse to `pulse_state` at `now`; nothing
    /// changes on an output that does not support pulses.
    pub open spec fn spec_pulse(self, pulse_state: bool, now: u64) -> EmuXpsState {
        if self.pulse_duration is Some {
            EmuXpsState { pin_state: pulse_state, pulse_time: Some(now), ..self }
        } else {
            self
        }
    }

    /// The state after processing the pulse under way at `now`: a pulse
    /// that has lasted its duration ends and the output returns to its
    /// default state.
    pub open spec fn spec_after_pulse_process(self, now: u64) -> EmuXpsState {
        if self.spec_pulse_expired(now) {
            EmuXpsState { pulse_time: None, pin_state: self.pin_default, ..self }
        } else {
            self
        }
    }

    /// The state after applying `action` at `now`.
    pub open spec fn spec_apply(self, action: Xps, now: u64) -> EmuXpsState {
        match action {
            Xps::NoAction => self,
            Xps::SetOn => EmuXpsState { pin_state: true, ..self },
            Xps::SetOff => EmuXpsState { pin_state: false, ..self },
            Xps::Toggle => EmuXpsState { pin_state: !self.pin_state, ..self },
            Xps::Reset => EmuXpsState { pin_state: self.pin_default, pulse_time: None, ..self },
            Xps::PulseOn => self.spec_pulse(true, now),
            Xps::PulseOff => self.spec_pulse(false, now),
            Xps::PulseCancel => EmuXpsState { pulse_time: None, ..self },
        }
    }
}

impl EmuXps {
    #[verifier::type_invariant]
    closed spec fn inv(&self) -> bool {
        self@.wf()
    }

    /// An output in state `initial_state`, returning to `pin_default`, that
    /// supports pulses of `pulse_duration` milliseconds when one is given.
    pub fn new(initial_state: bool, pin_default: bool, pulse_duration: Option<u64>) -> (r: Self)
        ensures
            r@ == (EmuXpsState {
                pin_state: initial_state,
                pin_default,
                pulse_time: None,
                pulse_duration,
            }),
    {
        EmuXps { pin_state: initial_state, pin_default, pulse_time: None, pulse_duration }
    }

    /// Whether the output supports pulses.
    pub fn supports_pulse(&self) -> (r: bool)
        ensures
            r == self@.pulse_duration is Some,
    {
        self.pulse_duration.is_some()
    }

    /// Whether a pulse is under way.
    pub fn pulse_pending(&self) -> (r: bool)
        ensures
            r == self@.pulse_time is Some,
    {
        self.pulse_time.is_some()
    }

    /// Whether the pulse under way has lasted its duration at time `now`.
    pub fn pulse_expired(&self, now: u64) -> (r: bool)
        ensures
            r == self@.spec_pulse_expired(now),
            self@.wf(),
    {
        proof {
            use_type_invariant(self);
        }
        match self.pulse_time {
            Some(pulse_time) => match self.pulse_duration {
                Some(duration) => elapsed(now, pulse_time) >= duration,
                None => false,
            },
            None => false,
        }
    }

    /// Time left before the pulse under way ends (0 once it has ended);
    /// `None` when no pulse is under way.
    pub fn time_to_pulse_expire(&self, now: u64) -> (r: Option<u64>)
        ensures
            r == self@.spec_time_to_pulse_expire(now),
    {
        proof {
            use_type_invariant(self);
        }
        match self.pulse_time {
            Some(pulse_time) => {
                let duration = match self.pulse_duration {
                    Some(d) => d,
                    None => 0,
                };
                let e = elapsed(now, pulse_time);
                if duration >= e {
                    Some(duration - e)
                } else {
                    Some(0)
                }
            },
            None => None,
        }
    }

    /// Same as [`EmuXps::time_to_pulse_expire`].
    pub fn ttl(&self, now: u64) -> (r: Option<u64>)
        ensures
            r == self@.spec_time_to_pulse_expire(now),
    {
        self.time_to_pulse_expire(now)
    }

    /// Ends the pulse under way if it has lasted its duration: the output
    /// returns to its default state, which is returned.
    pub fn pulse_process(&mut self, now: u64) -> (r: Option<bool>)
        ensures
            final(self)@ == old(self)@.spec_after_pulse_process(now),
            old(self)@.spec_pulse_expired(now) ==> r == Some(old(self)@.pin_default),
            !old(self)@.spec_pulse_expired(now) ==> r is None,
    {
        if self.pulse_expired(now) {
            self.pulse_time = None;
            self.pin_state = self.pin_default;
            Some(self.pin_state)
        } else {
            None
        }
    }

    /// The state of the output.
    pub fn get_state(&self) -> (r: bool)
        ensures
            r == self@.pin_state,
    {
        self.pin_state
    }

    /// Starts a pulse to `pulse_state` at `now` on an output that supports pulses.
    pub fn pulse(&mut self, pulse_state: bool, now: u64)
        ensures
            final(self)@ == old(self)@.spec_pulse(pulse_state, now),
    {
        proof {
            use_type_invariant(&*self);
        }
        if self.supports_pulse() {
            self.pin_state = pulse_state;
            self.pulse_time = Some(now);
        }
    }

    /// Applies an output command at `now`.
    pub fn apply(&mut self, action: &Xps, now: u64)
        ensures
            final(self)@ == old(self)@.spec_apply(*action, now),
    {
        proof {
            use_type_invariant(&*self);
        }
        match action {
            Xps::NoAction => {},
            Xps::SetOn => {
                self.pin_state = true;
            },
            Xps::SetOff => {
                self.pin_state = false;
            },
            Xps::Toggle => {
                self.pin_state = !self.pin_state;
            },
            Xps::Reset => {
                self.pin_state = self.pin_default;
                self.pulse_time = None;
            },
            Xps::PulseOn => {
                self.pulse(true, now);
            },
            Xps::PulseOff => {
                self.pulse(false, now);
            },
            Xps::PulseCancel => {
                self.pulse_time = None;
            },
        }
    }
}

impl Default for EmuXps {
    fn default() -> (r: EmuXps)
        ensures
            r@ == (EmuXpsState {
                pin_state: false,
                pin_default: false,
                pulse_time: None,
                pulse_duration: None,
            }),
    {
        EmuXps::new(false, false, None)
    }
}

/// A pulse started on an output that supports pulses sets the output and
/// is under way; once its duration has elapsed, processing ends it and the
/// output returns to its default state.
pub proof fn lemma_pulse_cycle(s: EmuXpsState, pulse_state: bool, start: u64, later: u64)
    requires
        s.wf(),
        s.pulse_duration is Some,
        later >= start,
        later - start >= s.pulse_duration->0,
    ensures
        s.spec_pulse(pulse_state, start).pin_state == pulse_state,
        s.spec_pulse(pulse_state, start).pulse_time == Some(start),
        !s.spec_pulse(pulse_state, start).spec_pulse_expired(start) || s.pulse_duration->0 == 0,
        s.spec_pulse(pulse_state, start).spec_pulse_expired(later),
        s.spec_pulse(pulse_state, start).spec_time_to_pulse_expire(later) == Some(0u64),
{
}

} // verus!
