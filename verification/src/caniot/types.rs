use vstd::prelude::*;

use super::datatypes::Xps;

verus! {

/// Telemetry of a class 0 board as read by the first decoder: outputs,
/// inputs, pulse states and the raw temperature fields.
#[derive(Debug, Clone, Copy, PartialEq, Eq)]
pub struct Class0Payload {
    pub oc1: bool,
    pub oc2: bool,
    pub rl1: bool,
    pub rl2: bool,
    pub in1: bool,
    pub in2: bool,
    pub in3: bool,
    pub in4: bool,
    pub poc1: bool,
    pub puc2: bool,
    pub prl1: bool,
    pub prl2: bool,
    pub temp_in: i16,
    pub temp_out: [i16; 3],
}

/// The system part of a board command.
#[derive(Debug, Clone, Copy, PartialEq, Eq, Structural)]
pub struct SystemCommand {
    pub hardware_reset: bool,
    pub software_reset: bool,
    pub watchdog_reset: bool,
    pub watchdog_enable: bool,
    pub factory_reset: bool,
}

impl Default for SystemCommand {
    fn default() -> (r: SystemCommand)
        ensures
            !r.hardware_reset && !r.software_reset && !r.watchdog_reset && !r.watchdog_enable
                && !r.factory_reset,
    {
        SystemCommand {
            hardware_reset: false,
            software_reset: false,
            watchdog_reset: false,
            watchdog_enable: false,
            factory_reset: false,
        }
    }
}

/// A class 0 board command: one output command per output and the system part.
#[derive(Debug, Clone, Copy, PartialEq, Eq, Structural)]
pub struct Class0Command {
    pub coc1: Xps,
    pub coc2: Xps,
    pub crl1: Xps,
    pub crl2: Xps,
    pub sys: SystemCommand,
}

} // verus!
