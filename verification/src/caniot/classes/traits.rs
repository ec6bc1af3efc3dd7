use vstd::prelude::*;

use super::super::payloads::{AsPayload, ClCd, Payload, Ty};
use super::super::protocol::{Endpoint, RequestData};

verus! {

/// A board-class command: its encoding, and the request that carries it.
pub trait ClassCommandTrait {
    /// The bytes of the encoded command.
    spec fn spec_encode(&self) -> Seq<u8>;

    /// Encodes the command as a class command payload.
    fn to_payload(&self) -> (r: Payload<ClCd>)
        ensures
            r@ == self.spec_encode(),
    ;

    /// The command request for the board-control endpoint that carries this command.
    fn into_request(&self) -> (r: RequestData)
        ensures
            r matches RequestData::Command { endpoint, payload } && endpoint
                == Endpoint::BoardControl && payload@ == self.spec_encode(),
    {
        RequestData::Command {
            endpoint: Endpoint::BoardControl,
            payload: self.to_payload().into_command_payload(),
        }
    }
}

/// A board class: the telemetry and the command of its boards.
pub trait Class {
    type Telemetry: AsPayload<Ty>;
    type Command: AsPayload<ClCd>;
}

/// Which temperature sensor of a board to read.
#[derive(Debug, Clone, Copy, PartialEq, Eq, Structural)]
pub enum TempSensType {
    BoardSensor,
    ExternalSensor(u8),
    AvgExternal,
    AnyExternal,
    Any,
}

} // verus!
