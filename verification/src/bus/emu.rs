use vstd::prelude::*;

use super::iface::CanStats;
use crate::caniot::emu::{Device, EmuRequest};
use crate::caniot::emu::helpers::{min_ttl, spec_min_ttl};
use crate::caniot::protocol::{
    spec_request_data, spec_request_decodable, Direction, Id, Request, Response,
};

verus! {

/// The responses among `rs`, in order.
pub open spec fn spec_somes(rs: Seq<Option<Response>>) -> Seq<Response>
    decreases rs.len(),
{
    if rs.len() == 0 {
        Seq::empty()
    } else {
        spec_somes(rs.drop_last()) + match rs.last() {
            Some(resp) => seq![resp],
            None => Seq::empty(),
        }
    }
}

/// The smallest time left before one of the devices `ds` needs to be
/// processed.
pub open spec fn spec_devices_ttl(ds: Seq<Device>, now: u64) -> Option<u64>
    decreases ds.len(),
{
    if ds.len() == 0 {
        None
    } else {
        spec_min_ttl(spec_devices_ttl(ds.drop_last(), now), ds.last().spec_time_to_next_process(now))
    }
}

/// Whether the CAN frame with identifier `can_id` (`None` for an extended
/// identifier) and bytes `payload` is a request the emulated devices take.
pub open spec fn spec_accepted_request(can_id: Option<u16>, payload: Seq<u8>) -> bool {
    can_id matches Some(raw) && spec_request_decodable(Id::spec_from_u16(raw), payload)
        && Id::spec_from_u16(raw).direction == Direction::Query
}

/// The decoded request a frame carries, when `spec_accepted_request` holds.
pub open spec fn spec_is_request_of(req: Request, can_id: Option<u16>, payload: Seq<u8>) -> bool {
    let id = Id::spec_from_u16(can_id->0);
    req.device_id == id.device_id && spec_request_data(req.data, id, payload)
}

/// What polling the emulated bus gives: a frame to receive, or the time to
/// wait before polling again (`None`: no device has anything planned).
#[derive(Debug)]
pub enum EmuPoll {
    Frame(Response),
    Wait(Option<u64>),
}

/// An emulated CAN bus: emulated devices answer the requests sent on it,
/// and their responses and telemetries are received from it.
///
/// Times are in milliseconds on a clock chosen by the caller.
#[derive(Debug)]
pub struct CanInterface {
    pub stats: CanStats,
    pub devices: Vec<Device>,
    pub to_recv_msgq: Vec<Response>,
}

impl CanInterface {
    /// A bus without devices.
    pub fn new() -> (r: CanInterface)
        ensures
            r.stats == (CanStats { rx: 0, tx: 0, err: 0, unhandled: 0 }),
            r.devices@.len() == 0,
            r.to_recv_msgq@.len() == 0,
    {
        CanInterface { stats: CanStats::default(), devices: Vec::new(), to_recv_msgq: Vec::new() }
    }

    /// Connects a device to the bus.
    pub fn add_device(&mut self, device: Device)
        ensures
            final(self).devices@ == old(self).devices@.push(device),
            final(self).stats == old(self).stats,
            final(self).to_recv_msgq@ == old(self).to_recv_msgq@,
    {
        self.devices.push(device);
    }

    /// The counters of the bus.
    pub fn get_stats(&self) -> (r: CanStats)
        ensures
            r == self.stats,
    {
        self.stats
    }

    /// Sends a CAN frame at `now`: when it is a request, every device it
    /// is addressed to answers it, and the answers are queued for receipt.
    /// Returns whether the frame was a request.
    pub fn send(&mut self, can_id: Option<u16>, payload: &[u8], now: u64) -> (r: bool)
        requires
            old(self).stats.tx < usize::MAX,
        ensures
            final(self).stats == (CanStats { tx: (old(self).stats.tx + 1) as usize, ..old(self).stats }),
            r == spec_accepted_request(can_id, payload@),
            !r ==> final(self).devices@ == old(self).devices@ && final(self).to_recv_msgq@ == old(
                self,
            ).to_recv_msgq@,
            r ==> exists|req: Request, rs: Seq<Option<Response>>|
                {
                    &&& spec_is_request_of(req, can_id, payload@)
                    &&& rs.len() == old(self).devices@.len()
                    &&& final(self).devices@.len() == old(self).devices@.len()
                    &&& forall|j: int|
                        #![trigger old(self).devices@[j]]
                        0 <= j < old(self).devices@.len() ==> if old(self).devices@[j].did
                            == req.device_id {
                            Device::spec_process_request(
                                old(self).devices@[j],
                                req.data,
                                now,
                                final(self).devices@[j],
                                rs[j],
                            )
                        } else {
                            final(self).devices@[j] == old(self).devices@[j] && rs[j] is None
                        }
                    &&& final(self).to_recv_msgq@ == old(self).to_recv_msgq@ + spec_somes(rs)
                },
    {
        self.stats.count_sent();
        let raw = match can_id {
            Some(raw) => raw,
            None => {
                return false;
            },
        };
        if !Request::is_decodable(raw, payload) {
            return false;
        }
        let query = match Request::try_from_can(can_id, payload) {
            Ok(q) => q,
            Err(_) => {
                return false;
            },
        };
        let ghost old_ds = self.devices@;
        let ghost old_q = self.to_recv_msgq@;
        let ghost mut rs: Seq<Option<Response>> = Seq::empty();
        let mut i: usize = 0;
        while i < self.devices.len()
            invariant
                i <= old_ds.len(),
                self.devices@.len() == old_ds.len(),
                old_ds == old(self).devices@,
                old_q == old(self).to_recv_msgq@,
                spec_is_request_of(query, can_id, payload@),
                rs.len() == i,
                forall|j: int| i <= j < old_ds.len() ==> #[trigger] self.devices@[j] == old_ds[j],
                forall|j: int|
                    #![trigger old_ds[j]]
                    0 <= j < i ==> if old_ds[j].did == query.device_id {
                        Device::spec_process_request(old_ds[j], query.data, now, self.devices@[j], rs[j])
                    } else {
                        self.devices@[j] == old_ds[j] && rs[j] is None
                    },
                self.to_recv_msgq@ == old_q + spec_somes(rs),
                self.stats == (CanStats { tx: (old(self).stats.tx + 1) as usize, ..old(self).stats }),
            decreases old_ds.len() - i,
        {
            let ghost rs_before = rs;
            if self.devices[i].did == query.device_id {
                let resp = self.devices[i].process(Some(&query.data), now);
                proof {
                    rs = rs.push(resp);
                    assert(rs.drop_last() =~= rs_before);
                }
                match resp {
                    Some(resp) => {
                        self.to_recv_msgq.push(resp);
                    },
                    None => {},
                }
            } else {
                proof {
                    rs = rs.push(None);
                    assert(rs.drop_last() =~= rs_before);
                }
            }
            i = i + 1;
        }
        true
    }

    /// Hands a request of the emulation environment to every device at
    /// `now`, and lets each take a step at once; the answers are queued.
    pub fn send_emu_request(&mut self, event: EmuRequest, now: u64)
        ensures
            final(self).stats == old(self).stats,
            final(self).devices@.len() == old(self).devices@.len(),
            exists|mids: Seq<Device>, rs: Seq<Option<Response>>|
                #![trigger spec_somes(rs), mids.len()]
                {
                    &&& mids.len() == old(self).devices@.len() && rs.len() == mids.len()
                    &&& forall|j: int|
                        #![trigger mids[j]]
                        0 <= j < mids.len() ==> {
                            &&& mids[j].spec_same_settings(old(self).devices@[j])
                            &&& mids[j].telemetries_requested@ == old(
                                self,
                            ).devices@[j].telemetries_requested@
                            &&& mids[j].last_telemetry == old(self).devices@[j].last_telemetry
                            &&& mids[j].behavior@.len() == old(self).devices@[j].behavior@.len()
                            &&& mids[j].process_requested == (old(self).devices@[j].process_requested
                                || exists|b: int|
                                0 <= b < old(self).devices@[j].behavior@.len() && (#[trigger] old(
                                    self,
                                ).devices@[j].behavior@[b]).spec_emu_answer(event))
                            &&& Device::spec_idle_step(mids[j], now, final(self).devices@[j], rs[j])
                        }
                    &&& final(self).to_recv_msgq@ == old(self).to_recv_msgq@ + spec_somes(rs)
                },
    {
        let ghost old_ds = self.devices@;
        let ghost old_q = self.to_recv_msgq@;
        let ghost mut rs: Seq<Option<Response>> = Seq::empty();
        let ghost mut mids: Seq<Device> = Seq::empty();
        let mut i: usize = 0;
        while i < self.devices.len()
            invariant
                i <= old_ds.len(),
                self.devices@.len() == old_ds.len(),
                old_ds == old(self).devices@,
                old_q == old(self).to_recv_msgq@,
                rs.len() == i,
                mids.len() == i,
                forall|j: int| i <= j < old_ds.len() ==> #[trigger] self.devices@[j] == old_ds[j],
                forall|j: int|
                    #![trigger mids[j]]
                    0 <= j < i ==> {
                        &&& mids[j].spec_same_settings(old_ds[j])
                        &&& mids[j].telemetries_requested@ == old_ds[j].telemetries_requested@
                        &&& mids[j].last_telemetry == old_ds[j].last_telemetry
                        &&& mids[j].behavior@.len() == old_ds[j].behavior@.len()
                        &&& mids[j].process_requested == (old_ds[j].process_requested || exists|
                            b: int,
                        |
                            0 <= b < old_ds[j].behavior@.len() && (#[trigger] old_ds[j].behavior@[b]).spec_emu_answer(
                                event,
                            ))
                        &&& Device::spec_idle_step(mids[j], now, self.devices@[j], rs[j])
                    },
                self.to_recv_msgq@ == old_q + spec_somes(rs),
                self.stats == old(self).stats,
            decreases old_ds.len() - i,
        {
            let ghost rs_before = rs;
            self.devices[i].handle_emu_event(event);
            let ghost mid = self.devices@[i as int];
            let resp = self.devices[i].process(None, now);
            proof {
                rs = rs.push(resp);
                mids = mids.push(mid);
                assert(rs.drop_last() =~= rs_before);
            }
            match resp {
                Some(resp) => {
                    self.to_recv_msgq.push(resp);
                },
                None => {},
            }
            i = i + 1;
        }
    }

    /// Polls the bus at `now`: a queued answer is received first (the
    /// last queued first); otherwise each device takes a step without
    /// request until one of them sends something; otherwise the time to
    /// wait before the next device needs to be processed is returned.
    pub fn recv_poll(&mut self, now: u64) -> (r: EmuPoll)
        ensures
            final(self).stats == old(self).stats,
            old(self).to_recv_msgq@.len() > 0 ==> {
                &&& r matches EmuPoll::Frame(resp) && resp == old(self).to_recv_msgq@.last()
                &&& final(self).to_recv_msgq@ == old(self).to_recv_msgq@.drop_last()
                &&& final(self).devices@ == old(self).devices@
            },
            old(self).to_recv_msgq@.len() == 0 ==> {
                &&& final(self).to_recv_msgq@.len() == 0
                &&& final(self).devices@.len() == old(self).devices@.len()
                &&& match r {
                    EmuPoll::Frame(resp) => exists|k: int|
                        #![trigger old(self).devices@[k]]
                        {
                            &&& 0 <= k < old(self).devices@.len()
                            &&& forall|j: int|
                                0 <= j < k ==> Device::spec_idle_step(
                                    #[trigger] old(self).devices@[j],
                                    now,
                                    final(self).devices@[j],
                                    None,
                                )
                            &&& Device::spec_idle_step(
                                old(self).devices@[k],
                                now,
                                final(self).devices@[k],
                                Some(resp),
                            )
                            &&& forall|j: int|
                                k < j < old(self).devices@.len() ==> #[trigger] final(self).devices@[j]
                                    == old(self).devices@[j]
                        },
                    EmuPoll::Wait(t) => {
                        &&& forall|j: int|
                            0 <= j < old(self).devices@.len() ==> Device::spec_idle_step(
                                #[trigger] old(self).devices@[j],
                                now,
                                final(self).devices@[j],
                                None,
                            )
                        &&& t == spec_devices_ttl(final(self).devices@, now)
                    },
                }
            },
    {
        if self.to_recv_msgq.len() > 0 {
            match self.to_recv_msgq.pop() {
                Some(resp) => {
                    return EmuPoll::Frame(resp);
                },
                None => {},
            }
        }
        let ghost old_ds = self.devices@;
        let mut next: Option<u64> = None;
        let mut i: usize = 0;
        while i < self.devices.len()
            invariant
                i <= old_ds.len(),
                self.devices@.len() == old_ds.len(),
                old_ds == old(self).devices@,
                old(self).to_recv_msgq@.len() == 0,
                self.to_recv_msgq@.len() == 0,
                self.stats == old(self).stats,
                forall|j: int| i <= j < old_ds.len() ==> #[trigger] self.devices@[j] == old_ds[j],
                forall|j: int|
                    0 <= j < i ==> Device::spec_idle_step(
                        #[trigger] old_ds[j],
                        now,
                        self.devices@[j],
                        None,
                    ),
                next == spec_devices_ttl(self.devices@.subrange(0, i as int), now),
            decreases old_ds.len() - i,
        {
            let ghost prefix = self.devices@.subrange(0, i as int);
            let resp = self.devices[i].process(None, now);
            proof {
                assert(self.devices@.subrange(0, i as int) =~= prefix);
            }
            match resp {
                Some(resp) => {
                    proof {
                        let k = i as int;
                        assert(Device::spec_idle_step(old_ds[k], now, self.devices@[k], Some(resp)));
                    }
                    return EmuPoll::Frame(resp);
                },
                None => {},
            }
            proof {
                assert(self.devices@.subrange(0, i + 1).drop_last() =~= self.devices@.subrange(
                    0,
                    i as int,
                ));
            }
            next = min_ttl(next, self.devices[i].get_time_to_next_device_process(now));
            i = i + 1;
        }
        proof {
            assert(self.devices@.subrange(0, self.devices@.len() as int) =~= self.devices@);
        }
        EmuPoll::Wait(next)
    }

    /// Runs an `ioctl` command at `now`; returns whether the command is
    /// supported. [`super::CAN_IOCTL_SEND_EMU_EVENT`] hands the request
    /// whose code is `arg` to the devices.
    pub fn ioctl(&mut self, cmd: u32, arg: u32, now: u64) -> (r: bool)
        ensures
            r == (cmd == super::iface::CAN_IOCTL_SEND_EMU_EVENT),
            !r ==> final(self).devices@ == old(self).devices@ && final(self).to_recv_msgq@ == old(
                self,
            ).to_recv_msgq@ && final(self).stats == old(self).stats,
    {
        if cmd == super::iface::CAN_IOCTL_SEND_EMU_EVENT {
            let event = EmuRequest::from_code_or_default(arg);
            self.send_emu_request(event, now);
            true
        } else {
            false
        }
    }
}

} // verus!
