use vstd::prelude::*;

use super::super::attributes::base::AttrId;
use super::super::attributes::parsed::{get_meta_by_key, spec_meta_by_key};
use super::super::device_id::DeviceId;
use super::super::error::ErrorCode;
use super::super::payloads::Payload;
use super::super::protocol::{Endpoint, ErrorSource, RequestData, Response, ResponseData};
use super::behavior::{Behavior, BoardControlBehavior, EmuRequest};
use super::dispatch::DeviceBehavior;
use super::helpers::{elapsed, min_ttl, spec_elapsed, spec_min_ttl};
use vstd::slice::slice_to_vec;

verus! {

/// Whether answering a telemetry request on `endpoint` turns the behaviors
/// `old` into `new` with the outcome `out`: the last behavior that answers
/// gives the payload, and the request fails when none answers.
pub open spec fn spec_telemetry_dispatch(
    old: Seq<DeviceBehavior>,
    endpoint: Endpoint,
    new: Seq<DeviceBehavior>,
    out: Result<Seq<u8>, ErrorCode>,
) -> bool {
    &&& new.len() == old.len()
    &&& match out {
        Ok(p) => exists|k: int|
            #![trigger old[k]]
            {
                &&& 0 <= k < old.len()
                &&& old[k].spec_answers_telemetry(endpoint)
                &&& forall|j: int| k < j < old.len() ==> !(#[trigger] old[j]).spec_answers_telemetry(endpoint)
                &&& old[k].spec_telemetry(endpoint, new[k], p)
                &&& forall|j: int| 0 <= j < old.len() && j != k ==> #[trigger] new[j] == old[j]
            },
        Err(e) => {
            &&& e == ErrorCode::Ehandlert
            &&& forall|j: int| 0 <= j < old.len() ==> !(#[trigger] old[j]).spec_answers_telemetry(endpoint)
            &&& new == old
        },
    }
}

/// Whether handing the command `payload` on `endpoint` to the behaviors
/// `old` in order turns them into `new`, with the answer `c` of the first
/// behavior that answers; the behaviors before it see the command too.
pub open spec fn spec_command_dispatch(
    old: Seq<DeviceBehavior>,
    endpoint: Endpoint,
    payload: Seq<u8>,
    now: u64,
    new: Seq<DeviceBehavior>,
    c: Option<ErrorCode>,
) -> bool {
    &&& new.len() == old.len()
    &&& match c {
        Some(code) => exists|k: int|
            #![trigger old[k]]
            {
                &&& 0 <= k < old.len()
                &&& forall|j: int|
                    0 <= j < k ==> (#[trigger] old[j]).spec_command(endpoint, payload, now, new[j], None)
                &&& old[k].spec_command(endpoint, payload, now, new[k], Some(code))
                &&& forall|j: int| k < j < old.len() ==> #[trigger] new[j] == old[j]
            },
        None => forall|j: int|
            0 <= j < old.len() ==> (#[trigger] old[j]).spec_command(endpoint, payload, now, new[j], None),
    }
}

/// The smallest time left before one of the behaviors `bs` needs to be
/// processed.
pub open spec fn spec_behaviors_ttl(bs: Seq<DeviceBehavior>, now: u64) -> Option<u64>
    decreases bs.len(),
{
    if bs.len() == 0 {
        None
    } else {
        spec_min_ttl(spec_behaviors_ttl(bs.drop_last(), now), bs.last().spec_remaining(now))
    }
}

/// The endpoints that processing the behaviors `bs` asks telemetry for,
/// the last behavior's first.
pub open spec fn spec_process_endpoints(bs: Seq<DeviceBehavior>) -> Seq<Endpoint>
    decreases bs.len(),
{
    if bs.len() == 0 {
        Seq::empty()
    } else {
        spec_process_endpoints(bs.drop_first()) + match bs[0].spec_process_endpoint() {
            Some(e) => seq![e],
            None => Seq::empty(),
        }
    }
}

/// Whether `resp` is what device `did` answers to a telemetry request or a
/// command on `endpoint` whose outcome is `out`.
pub open spec fn spec_telemetry_answer(
    resp: Response,
    did: DeviceId,
    endpoint: Endpoint,
    out: Result<Seq<u8>, ErrorCode>,
) -> bool {
    &&& resp.device_id == did
    &&& match out {
        Ok(p) => resp.data matches ResponseData::Telemetry { endpoint: e, payload } && e == endpoint
            && payload@ == p,
        Err(code) => resp.data == ResponseData::Error {
            source: ErrorSource::Telemetry(endpoint, None),
            error: Some(code),
        },
    }
}

/// An emulated CANIOT device: its identifier, its telemetry settings, the
/// telemetries it still has to send, and its behaviors in order.
///
/// Times are in milliseconds on a clock chosen by the caller.
#[derive(Debug)]
pub struct Device {
    pub did: DeviceId,
    pub telemetries_requested: Vec<Endpoint>,
    pub telemetry_interval: Option<u64>,
    pub telemetry_endpoint: Endpoint,
    pub start_time: u64,
    pub last_telemetry: Option<u64>,
    pub process_requested: bool,
    pub behavior: Vec<DeviceBehavior>,
}

impl Device {
    /// Whether `self` and `other` have the same identifier, telemetry
    /// settings and start time.
    pub open spec fn spec_same_settings(self, other: Device) -> bool {
        &&& self.did == other.did
        &&& self.telemetry_interval == other.telemetry_interval
        &&& self.telemetry_endpoint == other.telemetry_endpoint
        &&& self.start_time == other.start_time
    }

    /// The value of the attribute `key` at `now`: the node identifier, the
    /// uptime (in milliseconds, truncated to 32 bits) or the telemetry
    /// period; `None` for any other attribute.
    pub open spec fn spec_read_attribute(self, key: u16, now: u64) -> Option<u32> {
        match spec_meta_by_key(key) {
            Some(m) => match m.id {
                AttrId::IdNodeId => Some(self.did.spec_to_u8() as u32),
                AttrId::SystemUptime => Some(spec_elapsed(now, self.start_time) as u32),
                AttrId::ConfigTelemetryPeriod => match self.telemetry_interval {
                    Some(ms) => Some(ms as u32),
                    None => None,
                },
                _ => None,
            },
            None => None,
        }
    }

    /// Whether the attribute `key` can be written: the telemetry period only.
    pub open spec fn spec_writable(key: u16) -> bool {
        spec_meta_by_key(key) matches Some(m) && m.id == AttrId::ConfigTelemetryPeriod
    }

    /// Time left before the next periodic telemetry (0 when due); `None`
    /// when the device sends none.
    pub open spec fn spec_time_to_next_periodic_telemetry(self, now: u64) -> Option<u64> {
        match self.telemetry_interval {
            Some(interval) => match self.last_telemetry {
                Some(last) => Some(
                    if spec_elapsed(now, last) < interval {
                        (interval - spec_elapsed(now, last)) as u64
                    } else {
                        0
                    },
                ),
                None => Some(0),
            },
            None => None,
        }
    }

    /// Whether answering a telemetry request on `endpoint` at `now` turns
    /// the device `old` into `new` with the outcome `out`.
    pub open spec fn spec_handle_telemetry(
        old: Device,
        endpoint: Endpoint,
        now: u64,
        new: Device,
        out: Result<Seq<u8>, ErrorCode>,
    ) -> bool {
        &&& new.spec_same_settings(old)
        &&& new.telemetries_requested@ == old.telemetries_requested@
        &&& new.process_requested == old.process_requested
        &&& new.last_telemetry == Some(now)
        &&& spec_telemetry_dispatch(old.behavior@, endpoint, new.behavior@, out)
    }

    /// Whether handling the command `payload` on `endpoint` at `now` turns
    /// the device `old` into `new` with the outcome `out`: the first
    /// behavior that answers decides; on success the telemetry of the
    /// endpoint is the outcome.
    pub open spec fn spec_handle_command(
        old: Device,
        endpoint: Endpoint,
        payload: Seq<u8>,
        now: u64,
        new: Device,
        out: Result<Seq<u8>, ErrorCode>,
    ) -> bool {
        &&& new.spec_same_settings(old)
        &&& new.telemetries_requested@ == old.telemetries_requested@
        &&& new.process_requested == old.process_requested
        &&& exists|mid: Seq<DeviceBehavior>, c: Option<ErrorCode>|
            {
                &&& spec_command_dispatch(old.behavior@, endpoint, payload, now, mid, c)
                &&& match c {
                    None => out == Err::<Seq<u8>, ErrorCode>(ErrorCode::Ehandlerc) && new.behavior@
                        == mid && new.last_telemetry == old.last_telemetry,
                    Some(code) => if code != ErrorCode::NoError {
                        out == Err::<Seq<u8>, ErrorCode>(code) && new.behavior@ == mid
                            && new.last_telemetry == old.last_telemetry
                    } else {
                        new.last_telemetry == Some(now) && spec_telemetry_dispatch(
                            mid,
                            endpoint,
                            new.behavior@,
                            out,
                        )
                    },
                }
            }
    }

    /// Whether `self` and `other` are the same device in every respect.
    pub open spec fn spec_unchanged(self, other: Device) -> bool {
        &&& self.spec_same_settings(other)
        &&& self.telemetries_requested@ == other.telemetries_requested@
        &&& self.last_telemetry == other.last_telemetry
        &&& self.process_requested == other.process_requested
        &&& self.behavior@ == other.behavior@
    }

    /// Whether the device answers the request `req` at `now` with `r`,
    /// turning from `old` into `new`: attribute reads and writes are
    /// answered by the device itself, commands and telemetry requests by its
    /// behaviors.
    pub open spec fn spec_process_request(
        old: Device,
        req: RequestData,
        now: u64,
        new: Device,
        r: Option<Response>,
    ) -> bool {
        match req {
            RequestData::AttributeRead { key } => {
                &&& new.spec_unchanged(old)
                &&& r == Some(
                    Response {
                        device_id: old.did,
                        data: match old.spec_read_attribute(key, now) {
                            Some(value) => ResponseData::Attribute { key, value },
                            None => ResponseData::Error {
                                source: ErrorSource::Attribute(Some(key)),
                                error: Some(ErrorCode::Enoattr),
                            },
                        },
                    },
                )
            },
            RequestData::AttributeWrite { key, value } => {
                &&& new.did == old.did
                &&& new.telemetry_endpoint == old.telemetry_endpoint
                &&& new.start_time == old.start_time
                &&& new.telemetries_requested@ == old.telemetries_requested@
                &&& new.last_telemetry == old.last_telemetry
                &&& new.process_requested == old.process_requested
                &&& new.behavior@ == old.behavior@
                &&& if Device::spec_writable(key) {
                    &&& new.telemetry_interval == Some(value as u64)
                    &&& r == Some(
                        Response { device_id: old.did, data: ResponseData::Attribute { key, value } },
                    )
                } else {
                    &&& new.telemetry_interval == old.telemetry_interval
                    &&& r == Some(
                        Response {
                            device_id: old.did,
                            data: ResponseData::Error {
                                source: ErrorSource::Attribute(Some(key)),
                                error: Some(ErrorCode::Ereadonly),
                            },
                        },
                    )
                }
            },
            RequestData::Command { endpoint, payload } => exists|out: Result<Seq<u8>, ErrorCode>|
                {
                    &&& Device::spec_handle_command(old, endpoint, payload@, now, new, out)
                    &&& r matches Some(resp) && spec_telemetry_answer(resp, old.did, endpoint, out)
                },
            RequestData::Telemetry { endpoint } => exists|out: Result<Seq<u8>, ErrorCode>|
                {
                    &&& Device::spec_handle_telemetry(old, endpoint, now, new, out)
                    &&& r matches Some(resp) && spec_telemetry_answer(resp, old.did, endpoint, out)
                },
        }
    }

    /// Whether the device must process its behaviors at `now`: one of them
    /// has an event due, or processing was asked for.
    pub open spec fn spec_must_process(self, now: u64) -> bool {
        spec_behaviors_ttl(self.behavior@, now) == Some(0u64) || self.process_requested
    }

    /// Whether processing the behaviors at `now` turns the device `old`
    /// into `new`: each behavior is processed, and the telemetries they ask
    /// for are queued, the last behavior's first.
    pub open spec fn spec_process_behaviors(old: Device, now: u64, new: Device) -> bool {
        &&& new.spec_same_settings(old)
        &&& new.last_telemetry == old.last_telemetry
        &&& !new.process_requested
        &&& new.behavior@.len() == old.behavior@.len()
        &&& forall|j: int|
            0 <= j < old.behavior@.len() ==> (#[trigger] old.behavior@[j]).spec_process(
                now,
                new.behavior@[j],
            )
        &&& new.telemetries_requested@ == old.telemetries_requested@ + spec_process_endpoints(
            old.behavior@,
        )
    }

    /// Whether sending the last queued telemetry at `now` turns the device
    /// `old` into `new` with the answer `r`.
    pub open spec fn spec_send_queued(old: Device, now: u64, new: Device, r: Option<Response>) -> bool {
        let endpoint = old.telemetries_requested@.last();
        exists|out: Result<Seq<u8>, ErrorCode>|
            {
                &&& new.spec_same_settings(old)
                &&& new.telemetries_requested@ == old.telemetries_requested@.drop_last()
                &&& new.process_requested == old.process_requested
                &&& new.last_telemetry == Some(now)
                &&& spec_telemetry_dispatch(old.behavior@, endpoint, new.behavior@, out)
                &&& r matches Some(resp) && spec_telemetry_answer(resp, old.did, endpoint, out)
            }
    }

    /// Whether sending the periodic telemetry at `now` turns the device
    /// `old` into `new` with the answer `r`.
    pub open spec fn spec_send_periodic(old: Device, now: u64, new: Device, r: Option<Response>) -> bool {
        exists|out: Result<Seq<u8>, ErrorCode>|
            {
                &&& Device::spec_handle_telemetry(old, old.telemetry_endpoint, now, new, out)
                &&& r matches Some(resp) && spec_telemetry_answer(
                    resp,
                    old.did,
                    old.telemetry_endpoint,
                    out,
                )
            }
    }

    /// Whether a step without request at `now` turns the device `old` into
    /// `new` with the answer `r`: the behaviors are processed when one of
    /// them has an event due or processing was asked for; otherwise the
    /// last queued telemetry is sent; otherwise the periodic telemetry, when
    /// due; otherwise nothing happens.
    pub open spec fn spec_idle_step(old: Device, now: u64, new: Device, r: Option<Response>) -> bool {
        if old.spec_must_process(now) {
            Device::spec_process_behaviors(old, now, new) && r is None
        } else if old.telemetries_requested@.len() > 0 {
            Device::spec_send_queued(old, now, new, r)
        } else if old.spec_time_to_next_periodic_telemetry(now) == Some(0u64) {
            Device::spec_send_periodic(old, now, new, r)
        } else {
            r is None && new.spec_unchanged(old)
        }
    }

    /// Time left before the device needs to be processed: the smallest of
    /// the behaviors' and the periodic telemetry's.
    pub open spec fn spec_time_to_next_process(self, now: u64) -> Option<u64> {
        spec_min_ttl(
            spec_behaviors_ttl(self.behavior@, now),
            self.spec_time_to_next_periodic_telemetry(now),
        )
    }

    /// A device `id` sending a telemetry every `telemetry_interval`
    /// milliseconds, if given, started at `now`: it will send a board
    /// telemetry first, and it has the board control behavior.
    pub fn new(id: u8, telemetry_interval: Option<u64>, now: u64) -> (r: Device)
        requires
            id <= 0x3f,
        ensures
            r.did == (DeviceId { class: id % 8, sub_id: id / 8 }),
            r.telemetries_requested@ == seq![Endpoint::BoardControl],
            r.telemetry_interval == telemetry_interval,
            r.telemetry_endpoint == Endpoint::BoardControl,
            r.start_time == now,
            r.last_telemetry is None,
            !r.process_requested,
            r.behavior@ == seq![
                DeviceBehavior::BoardControl(BoardControlBehavior { did: Some(r.did), reset_count: 0 }),
            ],
    {
        let did = DeviceId::from_u8(id);
        let mut board_behavior = BoardControlBehavior { did: None, reset_count: 0 };
        board_behavior.set_did(&did);
        Device {
            did,
            telemetries_requested: vec![Endpoint::BoardControl],
            telemetry_interval,
            telemetry_endpoint: Endpoint::BoardControl,
            start_time: now,
            last_telemetry: None,
            process_requested: false,
            behavior: vec![DeviceBehavior::BoardControl(board_behavior)],
        }
    }

    /// Sets the endpoint of the periodic telemetry.
    pub fn set_telemetry_endpoint(&mut self, endpoint: Endpoint)
        ensures
            final(self).telemetry_endpoint == endpoint,
            final(self).did == old(self).did,
            final(self).telemetry_interval == old(self).telemetry_interval,
            final(self).start_time == old(self).start_time,
            final(self).telemetries_requested@ == old(self).telemetries_requested@,
            final(self).last_telemetry == old(self).last_telemetry,
            final(self).process_requested == old(self).process_requested,
            final(self).behavior@ == old(self).behavior@,
    {
        self.telemetry_endpoint = endpoint;
    }

    /// Sets the period of the telemetry, in milliseconds; `None` stops it.
    pub fn set_telemetry_interval(&mut self, interval: Option<u64>)
        ensures
            final(self).telemetry_interval == interval,
            final(self).did == old(self).did,
            final(self).telemetry_endpoint == old(self).telemetry_endpoint,
            final(self).start_time == old(self).start_time,
            final(self).telemetries_requested@ == old(self).telemetries_requested@,
            final(self).last_telemetry == old(self).last_telemetry,
            final(self).process_requested == old(self).process_requested,
            final(self).behavior@ == old(self).behavior@,
    {
        self.telemetry_interval = interval;
    }

    /// Asks for a telemetry on `endpoint`; the last asked for is sent first.
    pub fn request_telemetry(&mut self, endpoint: Endpoint)
        ensures
            final(self).telemetries_requested@ == old(self).telemetries_requested@.push(endpoint),
            final(self).spec_same_settings(*old(self)),
            final(self).last_telemetry == old(self).last_telemetry,
            final(self).process_requested == old(self).process_requested,
            final(self).behavior@ == old(self).behavior@,
    {
        self.telemetries_requested.push(endpoint);
    }

    /// Adds a behavior after the others, initialized for the device.
    pub fn add_behavior(&mut self, behavior: DeviceBehavior)
        requires
            behavior.spec_accepts(old(self).did),
        ensures
            final(self).behavior@ == old(self).behavior@.push(behavior.spec_with_did(old(self).did)),
            final(self).spec_same_settings(*old(self)),
            final(self).telemetries_requested@ == old(self).telemetries_requested@,
            final(self).last_telemetry == old(self).last_telemetry,
            final(self).process_requested == old(self).process_requested,
    {
        let mut behavior = behavior;
        behavior.set_did(&self.did);
        self.behavior.push(behavior);
    }

    /// Reads the attribute `key` at `now`; see [`Device::spec_read_attribute`].
    pub fn read_attribute(&self, key: u16, now: u64) -> (r: Option<u32>)
        ensures
            r == self.spec_read_attribute(key, now),
    {
        match get_meta_by_key(key) {
            Some(m) => match m.id {
                AttrId::IdNodeId => Some(self.did.to_u8() as u32),
                AttrId::SystemUptime => Some(elapsed(now, self.start_time) as u32),
                AttrId::ConfigTelemetryPeriod => match self.telemetry_interval {
                    Some(ms) => Some(ms as u32),
                    None => None,
                },
                _ => None,
            },
            None => None,
        }
    }

    /// Writes the attribute `key`: only the telemetry period can be
    /// written; returns whether it was.
    pub fn write_attribute(&mut self, key: u16, value: u32) -> (r: bool)
        ensures
            r == Device::spec_writable(key),
            r ==> final(self).telemetry_interval == Some(value as u64),
            !r ==> final(self).telemetry_interval == old(self).telemetry_interval,
            final(self).did == old(self).did,
            final(self).telemetry_endpoint == old(self).telemetry_endpoint,
            final(self).start_time == old(self).start_time,
            final(self).telemetries_requested@ == old(self).telemetries_requested@,
            final(self).last_telemetry == old(self).last_telemetry,
            final(self).process_requested == old(self).process_requested,
            final(self).behavior@ == old(self).behavior@,
    {
        match get_meta_by_key(key) {
            Some(m) => match m.id {
                AttrId::ConfigTelemetryPeriod => {
                    self.set_telemetry_interval(Some(value as u64));
                    true
                },
                _ => false,
            },
            None => false,
        }
    }

    /// Time left before the next periodic telemetry, in milliseconds.
    pub fn get_time_to_next_periodic_telemetry(&self, now: u64) -> (r: Option<u64>)
        ensures
            r == self.spec_time_to_next_periodic_telemetry(now),
    {
        match self.telemetry_interval {
            Some(interval) => match self.last_telemetry {
                Some(last) => {
                    let e = elapsed(now, last);
                    if e < interval {
                        Some(interval - e)
                    } else {
                        Some(0)
                    }
                },
                None => Some(0),
            },
            None => None,
        }
    }

    /// The smallest time left before one of the behaviors needs to be
    /// processed.
    pub fn behaviors_ttl(&self, now: u64) -> (r: Option<u64>)
        ensures
            r == spec_behaviors_ttl(self.behavior@, now),
    {
        let mut acc: Option<u64> = None;
        let mut i: usize = 0;
        while i < self.behavior.len()
            invariant
                i <= self.behavior@.len(),
                acc == spec_behaviors_ttl(self.behavior@.subrange(0, i as int), now),
            decreases self.behavior@.len() - i,
        {
            proof {
                assert(self.behavior@.subrange(0, i + 1).drop_last() =~= self.behavior@.subrange(
                    0,
                    i as int,
                ));
            }
            acc = min_ttl(acc, self.behavior[i].get_remaining_to_event_ms(now));
            i = i + 1;
        }
        proof {
            assert(self.behavior@.subrange(0, self.behavior@.len() as int) =~= self.behavior@);
        }
        acc
    }

    /// Time left before the device needs to be processed: the smallest of
    /// the behaviors' and the periodic telemetry's.
    pub fn get_time_to_next_device_process(&self, now: u64) -> (r: Option<u64>)
        ensures
            r == self.spec_time_to_next_process(now),
    {
        min_ttl(self.behaviors_ttl(now), self.get_time_to_next_periodic_telemetry(now))
    }

    /// Answers a telemetry request on `endpoint` at `now`: the behaviors
    /// are asked from the last one, and the first that answers gives the
    /// payload; `Ehandlert` when none answers.
    pub fn handle_telemetry(&mut self, endpoint: &Endpoint, now: u64) -> (r: Result<Vec<u8>, ErrorCode>)
        ensures
            Device::spec_handle_telemetry(
                *old(self),
                *endpoint,
                now,
                *final(self),
                match r {
                    Ok(p) => Ok(p@),
                    Err(e) => Err(e),
                },
            ),
            r matches Ok(p) ==> p@.len() <= 8,
    {
        self.last_telemetry = Some(now);
        let ghost old_bs = self.behavior@;
        let mut i: usize = self.behavior.len();
        while i > 0
            invariant
                i <= old_bs.len(),
                self.behavior@ == old_bs,
                old_bs == old(self).behavior@,
                self.spec_same_settings(*old(self)),
                self.telemetries_requested@ == old(self).telemetries_requested@,
                self.process_requested == old(self).process_requested,
                self.last_telemetry == Some(now),
                forall|j: int| i <= j < old_bs.len() ==> !(#[trigger] old_bs[j]).spec_answers_telemetry(*endpoint),
            decreases i,
        {
            i = i - 1;
            let r = self.behavior[i].on_telemetry(endpoint, now);
            match r {
                Some(p) => {
                    proof {
                        let k = i as int;
                        assert(old_bs[k].spec_answers_telemetry(*endpoint));
                        assert(old_bs[k].spec_telemetry(*endpoint, self.behavior@[k], p@));
                        assert(forall|j: int| 0 <= j < old_bs.len() && j != k ==> #[trigger] self.behavior@[j] == old_bs[j]);
                    }
                    return Ok(p);
                },
                None => {},
            }
        }
        proof {
            assert(self.behavior@ =~= old_bs);
        }
        Err(ErrorCode::Ehandlert)
    }

    /// Handles the command `payload` on `endpoint` at `now`: the behaviors
    /// see it in order until one answers; an error answer is the outcome,
    /// a success answer makes the telemetry of the endpoint the outcome;
    /// `Ehandlerc` when none answers.
    pub fn handle_command(&mut self, endpoint: &Endpoint, payload: &[u8], now: u64) -> (r: Result<
        Vec<u8>,
        ErrorCode,
    >)
        requires
            payload@.len() <= 8,
        ensures
            Device::spec_handle_command(
                *old(self),
                *endpoint,
                payload@,
                now,
                *final(self),
                match r {
                    Ok(p) => Ok(p@),
                    Err(e) => Err(e),
                },
            ),
            r matches Ok(p) ==> p@.len() <= 8,
    {
        let ghost old_bs = self.behavior@;
        let mut command_processed_once = false;
        let mut terminate = false;
        let mut i: usize = 0;
        while i < self.behavior.len()
            invariant_except_break
                !command_processed_once,
                forall|j: int|
                    0 <= j < i ==> (#[trigger] old_bs[j]).spec_command(
                        *endpoint,
                        payload@,
                        now,
                        self.behavior@[j],
                        None,
                    ),
                forall|j: int| i <= j < old_bs.len() ==> #[trigger] self.behavior@[j] == old_bs[j],
            invariant
                i <= old_bs.len(),
                self.behavior@.len() == old_bs.len(),
                old_bs == old(self).behavior@,
                !terminate,
                payload@.len() <= 8,
                self.spec_same_settings(*old(self)),
                self.telemetries_requested@ == old(self).telemetries_requested@,
                self.process_requested == old(self).process_requested,
                self.last_telemetry == old(self).last_telemetry,
            ensures
                !command_processed_once ==> spec_command_dispatch(
                    old_bs,
                    *endpoint,
                    payload@,
                    now,
                    self.behavior@,
                    None,
                ),
                command_processed_once ==> spec_command_dispatch(
                    old_bs,
                    *endpoint,
                    payload@,
                    now,
                    self.behavior@,
                    Some(ErrorCode::NoError),
                ),
            decreases old_bs.len() - i,
        {
            let ghost before = self.behavior@;
            let r = self.behavior[i].on_command(endpoint, slice_to_vec(payload), &mut terminate, now);
            match r {
                Some(error_code) => {
                    command_processed_once = true;
                    if error_code != ErrorCode::NoError {
                        proof {
                            let k = i as int;
                            assert(old_bs[k].spec_command(
                                *endpoint,
                                payload@,
                                now,
                                self.behavior@[k],
                                Some(error_code),
                            ));
                            assert(spec_command_dispatch(
                                old_bs,
                                *endpoint,
                                payload@,
                                now,
                                self.behavior@,
                                Some(error_code),
                            ));
                        }
                        return Err(error_code);
                    }
                    if !terminate {
                        proof {
                            let k = i as int;
                            assert(old_bs[k].spec_command(
                                *endpoint,
                                payload@,
                                now,
                                self.behavior@[k],
                                Some(ErrorCode::NoError),
                            ));
                        }
                        break ;
                    }
                },
                None => {},
            }
            i = i + 1;
        }
        if command_processed_once {
            let ghost mid = self.behavior@;
            let r = self.handle_telemetry(endpoint, now);
            proof {
                assert(spec_command_dispatch(
                    old_bs,
                    *endpoint,
                    payload@,
                    now,
                    mid,
                    Some(ErrorCode::NoError),
                ));
            }
            r
        } else {
            Err(ErrorCode::Ehandlerc)
        }
    }

    /// Processes every behavior at `now`, the last one first, and queues
    /// the telemetries they ask for.
    fn process_behaviors(&mut self, now: u64)
        ensures
            Device::spec_process_behaviors(*old(self), now, *final(self)),
    {
        self.process_requested = false;
        let ghost old_bs = self.behavior@;
        let mut endpoints: Vec<Endpoint> = Vec::new();
        let mut i: usize = self.behavior.len();
        while i > 0
            invariant
                i <= old_bs.len(),
                self.behavior@.len() == old_bs.len(),
                old_bs == old(self).behavior@,
                endpoints@ == spec_process_endpoints(old_bs.subrange(i as int, old_bs.len() as int)),
                forall|j: int| 0 <= j < i ==> #[trigger] self.behavior@[j] == old_bs[j],
                forall|j: int|
                    i <= j < old_bs.len() ==> (#[trigger] old_bs[j]).spec_process(now, self.behavior@[j]),
                self.spec_same_settings(*old(self)),
                self.telemetries_requested@ == old(self).telemetries_requested@,
                !self.process_requested,
                self.last_telemetry == old(self).last_telemetry,
            decreases i,
        {
            i = i - 1;
            proof {
                let s = old_bs.subrange(i as int, old_bs.len() as int);
                assert(s.drop_first() =~= old_bs.subrange(i + 1, old_bs.len() as int));
                assert(s[0] == old_bs[i as int]);
            }
            match self.behavior[i].process(now) {
                Some(e) => {
                    endpoints.push(e);
                },
                None => {},
            }
        }
        proof {
            assert(old_bs.subrange(0, old_bs.len() as int) =~= old_bs);
        }
        let mut k: usize = 0;
        while k < endpoints.len()
            invariant
                k <= endpoints@.len(),
                self.telemetries_requested@ == old(self).telemetries_requested@ + endpoints@.subrange(
                    0,
                    k as int,
                ),
                self.spec_same_settings(*old(self)),
                !self.process_requested,
                self.last_telemetry == old(self).last_telemetry,
                self.behavior@.len() == old_bs.len(),
                forall|j: int|
                    0 <= j < old_bs.len() ==> (#[trigger] old_bs[j]).spec_process(now, self.behavior@[j]),
            decreases endpoints@.len() - k,
        {
            let e = endpoints[k];
            self.request_telemetry(e);
            proof {
                assert(old(self).telemetries_requested@ + endpoints@.subrange(0, k + 1) =~= (
                old(self).telemetries_requested@ + endpoints@.subrange(0, k as int)).push(e));
            }
            k = k + 1;
        }
        proof {
            assert(endpoints@.subrange(0, endpoints@.len() as int) =~= endpoints@);
        }
    }

    /// Sends the telemetry of `endpoint` as a response, or the error on
    /// that endpoint.
    fn telemetry_response(
        &self,
        endpoint: Endpoint,
        outcome: Result<Vec<u8>, ErrorCode>,
    ) -> (r: Response)
        requires
            outcome matches Ok(p) ==> p@.len() <= 8,
        ensures
            spec_telemetry_answer(
                r,
                self.did,
                endpoint,
                match outcome {
                    Ok(p) => Ok(p@),
                    Err(e) => Err(e),
                },
            ),
    {
        match outcome {
            Ok(payload) => Response {
                device_id: self.did,
                data: ResponseData::Telemetry {
                    endpoint,
                    payload: Payload::new_unchecked(payload.as_slice()),
                },
            },
            Err(error) => Response {
                device_id: self.did,
                data: ResponseData::Error {
                    source: ErrorSource::Telemetry(endpoint, None),
                    error: Some(error),
                },
            },
        }
    }

    /// One step of the device at `now`.
    ///
    /// A request is answered: attribute reads and writes by the device,
    /// commands and telemetry requests by its behaviors. Without a
    /// request, the behaviors are processed when one of them has an event
    /// due or processing was asked for; otherwise the last queued telemetry
    /// is sent; otherwise the periodic telemetry, when due.
    pub fn process(&mut self, req: Option<&RequestData>, now: u64) -> (r: Option<Response>)
        ensures
            req matches Some(rd) ==> Device::spec_process_request(*old(self), *rd, now, *final(self), r),
            req is None ==> Device::spec_idle_step(*old(self), now, *final(self), r),
    {
        match req {
            Some(req) => match req {
                RequestData::AttributeRead { key } => {
                    let data = match self.read_attribute(*key, now) {
                        Some(value) => ResponseData::Attribute { key: *key, value },
                        None => ResponseData::Error {
                            source: ErrorSource::Attribute(Some(*key)),
                            error: Some(ErrorCode::Enoattr),
                        },
                    };
                    Some(Response { device_id: self.did, data })
                },
                RequestData::AttributeWrite { key, value } => {
                    let data = if self.write_attribute(*key, *value) {
                        ResponseData::Attribute { key: *key, value: *value }
                    } else {
                        ResponseData::Error {
                            source: ErrorSource::Attribute(Some(*key)),
                            error: Some(ErrorCode::Ereadonly),
                        }
                    };
                    Some(Response { device_id: self.did, data })
                },
                RequestData::Command { endpoint, payload } => {
                    let outcome = self.handle_command(endpoint, payload.data(), now);
                    let ghost out = match &outcome {
                        Ok(p) => Ok::<Seq<u8>, ErrorCode>(p@),
                        Err(e) => Err::<Seq<u8>, ErrorCode>(*e),
                    };
                    let resp = self.telemetry_response(*endpoint, outcome);
                    proof {
                        assert(spec_telemetry_answer(resp, old(self).did, *endpoint, out));
                    }
                    Some(resp)
                },
                RequestData::Telemetry { endpoint } => {
                    let outcome = self.handle_telemetry(endpoint, now);
                    let ghost out = match &outcome {
                        Ok(p) => Ok::<Seq<u8>, ErrorCode>(p@),
                        Err(e) => Err::<Seq<u8>, ErrorCode>(*e),
                    };
                    let resp = self.telemetry_response(*endpoint, outcome);
                    proof {
                        assert(spec_telemetry_answer(resp, old(self).did, *endpoint, out));
                    }
                    Some(resp)
                },
            },
            None => {
                let expired = match self.behaviors_ttl(now) {
                    Some(t) => t == 0,
                    None => false,
                };
                if expired || self.process_requested {
                    self.process_behaviors(now);
                    None
                } else if self.telemetries_requested.len() > 0 {
                    let endpoint = match self.telemetries_requested.pop() {
                        Some(e) => e,
                        None => Endpoint::BoardControl,
                    };
                    let outcome = self.handle_telemetry(&endpoint, now);
                    let ghost out = match &outcome {
                        Ok(p) => Ok::<Seq<u8>, ErrorCode>(p@),
                        Err(e) => Err::<Seq<u8>, ErrorCode>(*e),
                    };
                    let resp = self.telemetry_response(endpoint, outcome);
                    proof {
                        assert(spec_telemetry_answer(resp, old(self).did, endpoint, out));
                    }
                    Some(resp)
                } else {
                    let due = match self.get_time_to_next_periodic_telemetry(now) {
                        Some(t) => t == 0,
                        None => false,
                    };
                    if due {
                        let endpoint = self.telemetry_endpoint;
                        let outcome = self.handle_telemetry(&endpoint, now);
                        let ghost out = match &outcome {
                            Ok(p) => Ok::<Seq<u8>, ErrorCode>(p@),
                            Err(e) => Err::<Seq<u8>, ErrorCode>(*e),
                        };
                        let resp = self.telemetry_response(endpoint, outcome);
                        proof {
                            assert(spec_telemetry_answer(resp, old(self).did, endpoint, out));
                        }
                        Some(resp)
                    } else {
                        None
                    }
                }
            },
        }
    }

    /// Hands a request of the emulation environment to every behavior;
    /// processing is asked for when one of them wants it.
    pub fn handle_emu_event(&mut self, event: EmuRequest)
        ensures
            final(self).spec_same_settings(*old(self)),
            final(self).telemetries_requested@ == old(self).telemetries_requested@,
            final(self).last_telemetry == old(self).last_telemetry,
            final(self).behavior@.len() == old(self).behavior@.len(),
            forall|j: int|
                0 <= j < old(self).behavior@.len() ==> (#[trigger] old(self).behavior@[j]).spec_emu_request(
                    event,
                    final(self).behavior@[j],
                    old(self).behavior@[j].spec_emu_answer(event),
                ),
            final(self).process_requested == (old(self).process_requested || exists|j: int|
                0 <= j < old(self).behavior@.len() && (#[trigger] old(self).behavior@[j]).spec_emu_answer(
                    event,
                )),
    {
        let ghost old_bs = self.behavior@;
        let mut i: usize = 0;
        while i < self.behavior.len()
            invariant
                i <= old_bs.len(),
                self.behavior@.len() == old_bs.len(),
                old_bs == old(self).behavior@,
                forall|j: int| i <= j < old_bs.len() ==> #[trigger] self.behavior@[j] == old_bs[j],
                forall|j: int|
                    0 <= j < i ==> (#[trigger] old_bs[j]).spec_emu_request(
                        event,
                        self.behavior@[j],
                        old_bs[j].spec_emu_answer(event),
                    ),
                self.process_requested == (old(self).process_requested || exists|j: int|
                    0 <= j < i && (#[trigger] old_bs[j]).spec_emu_answer(event)),
                self.spec_same_settings(*old(self)),
                self.telemetries_requested@ == old(self).telemetries_requested@,
                self.last_telemetry == old(self).last_telemetry,
            decreases old_bs.len() - i,
        {
            let r = self.behavior[i].on_emu_request(event);
            self.process_requested = self.process_requested || r;
            proof {
                if r {
                    assert(old_bs[i as int].spec_emu_answer(event));
                }
            }
            i = i + 1;
        }
    }
}


/// What a device answers to reading an attribute is what was written to it
/// just before, for the attributes that can be written.
pub proof fn lemma_attribute_write_then_read(
    d0: Device,
    d1: Device,
    d2: Device,
    key: u16,
    value: u32,
    now1: u64,
    now2: u64,
    r1: Option<Response>,
    r2: Option<Response>,
)
    requires
        Device::spec_process_request(d0, RequestData::AttributeWrite { key, value }, now1, d1, r1),
        Device::spec_process_request(d1, RequestData::AttributeRead { key }, now2, d2, r2),
        Device::spec_writable(key),
    ensures
        r1 == Some(Response { device_id: d0.did, data: ResponseData::Attribute { key, value } }),
        r2 == Some(Response { device_id: d0.did, data: ResponseData::Attribute { key, value } }),
{
}

} // verus!
