use vstd::prelude::*;

use super::super::super::device_id::DeviceId;
use super::super::super::error::ErrorCode;
use super::super::super::protocol::Endpoint;
use super::super::behavior::{Behavior, EmuRequest};

verus! {

/// A demonstration node: a status switched off by a command whose first
/// byte is 0 and on by any other, sent back as a one-byte telemetry.
#[derive(Debug)]
pub struct DemoController {
    pub status: bool,
}

impl DemoController {
    /// A node whose status is on.
    pub fn new() -> (r: DemoController)
        ensures
            r.status,
    {
        DemoController { status: true }
    }
}

impl Behavior for DemoController {
    open spec fn spec_accepts_did(&self, did: DeviceId) -> bool {
        true
    }

    fn set_did(&mut self, did: &DeviceId)
        ensures
            *final(self) == *old(self),
    {
    }

    fn on_telemetry(&mut self, endpoint: &Endpoint, now: u64) -> (r: Option<Vec<u8>>)
        ensures
            *final(self) == *old(self),
            r matches Some(p) && p@ == seq![if old(self).status { 1u8 } else { 0u8 }],
    {
        let v: u8 = if self.status {
            1
        } else {
            0
        };
        let r = vec![v];
        proof {
            assert(r@ =~= seq![v]);
        }
        Some(r)
    }

    /// Switches the status; the command is left to the other behaviors.
    fn on_command(
        &mut self,
        endpoint: &Endpoint,
        payload: Vec<u8>,
        terminate: &mut bool,
        now: u64,
    ) -> (r: Option<ErrorCode>)
        ensures
            *final(terminate) == *old(terminate),
            final(self).status == (if payload@.len() >= 1 {
                payload@[0] != 0
            } else {
                old(self).status
            }),
            r is None,
    {
        if payload.len() >= 1 {
            if payload[0] == 0 {
                self.status = false;
            } else {
                self.status = true;
            }
        }
        None
    }

    fn on_read_attribute(&mut self, key: u16) -> (r: Option<u32>)
        ensures
            *final(self) == *old(self),
            r is None,
    {
        None
    }

    fn on_write_attribute(&mut self, key: u16, value: u32) -> (r: Option<ErrorCode>)
        ensures
            *final(self) == *old(self),
            r is None,
    {
        None
    }

    fn process(&mut self, now: u64) -> (r: Option<Endpoint>)
        ensures
            *final(self) == *old(self),
            r is None,
    {
        None
    }

    fn get_remaining_to_event_ms(&self, now: u64) -> (r: Option<u64>)
        ensures
            r is None,
    {
        None
    }

    fn on_emu_request(&mut self, event: EmuRequest) -> (r: bool)
        ensures
            *final(self) == *old(self),
            !r,
    {
        false
    }
}

} // verus!
