use vstd::prelude::*;

use crate::caniot::textfmt::{push_decimal, push_str, spec_decimal};

verus! {

/// The `ioctl` command that hands a request to the emulated devices; its
/// argument is the code of the request.
pub const CAN_IOCTL_SEND_EMU_EVENT: u32 = 0xFFFF_0001;

/// Configuration of a CAN interface: the name of the network interface.
#[derive(Debug, Clone)]
pub struct CanConfig {
    pub interface: String,
}

impl Default for CanConfig {
    fn default() -> (r: CanConfig)
        ensures
            r.interface@ == "can0"@,
    {
        CanConfig { interface: "can0".to_owned() }
    }
}

/// Counters of a CAN interface: frames received and sent, receive errors,
/// and frames received that are not data frames.
#[derive(Debug, Clone, Copy)]
pub struct CanStats {
    pub rx: usize,
    pub tx: usize,
    pub err: usize,
    pub unhandled: usize,
}

impl Default for CanStats {
    fn default() -> (r: CanStats)
        ensures
            r.rx == 0 && r.tx == 0 && r.err == 0 && r.unhandled == 0,
    {
        CanStats { rx: 0, tx: 0, err: 0, unhandled: 0 }
    }
}

/// What a receive on the CAN socket gave.
#[derive(Debug, Clone, Copy, PartialEq, Eq, Structural)]
pub enum RecvOutcome {
    DataFrame,
    RemoteFrame,
    ErrorFrame,
    Failure,
}

impl CanStats {
    /// Counts a frame sent.
    pub fn count_sent(&mut self)
        requires
            old(self).tx < usize::MAX,
        ensures
            *final(self) == (CanStats { tx: (old(self).tx + 1) as usize, ..*old(self) }),
    {
        self.tx = self.tx + 1;
    }

    /// Counts what a receive gave; returns whether it is a data frame, the
    /// only kind handed on.
    pub fn count_received(&mut self, outcome: RecvOutcome) -> (r: bool)
        requires
            outcome == RecvOutcome::DataFrame ==> old(self).rx < usize::MAX,
            outcome == RecvOutcome::RemoteFrame || outcome == RecvOutcome::ErrorFrame ==> old(
                self,
            ).unhandled < usize::MAX,
            outcome == RecvOutcome::Failure ==> old(self).err < usize::MAX,
        ensures
            r == (outcome == RecvOutcome::DataFrame),
            outcome == RecvOutcome::DataFrame ==> *final(self) == (CanStats {
                rx: (old(self).rx + 1) as usize,
                ..*old(self)
            }),
            outcome == RecvOutcome::RemoteFrame || outcome == RecvOutcome::ErrorFrame ==> *final(self)
                == (CanStats { unhandled: (old(self).unhandled + 1) as usize, ..*old(self) }),
            outcome == RecvOutcome::Failure ==> *final(self) == (CanStats {
                err: (old(self).err + 1) as usize,
                ..*old(self)
            }),
    {
        match outcome {
            RecvOutcome::DataFrame => {
                self.rx = self.rx + 1;
                true
            },
            RecvOutcome::RemoteFrame | RecvOutcome::ErrorFrame => {
                self.unhandled = self.unhandled + 1;
                false
            },
            RecvOutcome::Failure => {
                self.err = self.err + 1;
                false
            },
        }
    }
}


/// The counters in the Prometheus text format, one `name value` line each.
pub open spec fn spec_can_stats_text(stats: CanStats) -> Seq<char> {
    "can_rx "@ + spec_decimal(stats.rx as nat) + "\ncan_tx "@ + spec_decimal(stats.tx as nat)
        + "\ncan_err "@ + spec_decimal(stats.err as nat) + "\ncan_unhandled "@ + spec_decimal(
        stats.unhandled as nat,
    ) + "\n"@
}

/// Writes the counters in the Prometheus text format.
pub fn export_can_stats(stats: &CanStats) -> (r: String)
    ensures
        r@ == spec_can_stats_text(*stats),
{
    let mut s = String::new();
    push_str(&mut s, "can_rx ");
    push_decimal(&mut s, stats.rx as u64);
    push_str(&mut s, "\ncan_tx ");
    push_decimal(&mut s, stats.tx as u64);
    push_str(&mut s, "\ncan_err ");
    push_decimal(&mut s, stats.err as u64);
    push_str(&mut s, "\ncan_unhandled ");
    push_decimal(&mut s, stats.unhandled as u64);
    push_str(&mut s, "\n");
    proof {
        assert(s@ =~= spec_can_stats_text(*stats));
    }
    s
}

} // verus!
