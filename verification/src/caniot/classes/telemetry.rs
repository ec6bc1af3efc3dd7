use vstd::prelude::*;

use super::super::datatypes::Temperature;
use super::super::error::ProtocolError;
use super::super::payloads::{AsPayload, Payload, Ty};
use super::traits::Class;
use super::class0;
use super::class1;

verus! {

/// Telemetry of a board, by board class.
#[derive(Debug, Clone, Copy)]
pub enum BoardClassTelemetry {
    Class0(class0::Telemetry),
    Class1(class1::Telemetry),
}

impl BoardClassTelemetry {
    /// The encoding of the telemetry of its class.
    pub open spec fn spec_encode(self) -> Seq<u8> {
        match self {
            BoardClassTelemetry::Class0(t) => t.spec_encode(),
            BoardClassTelemetry::Class1(t) => t.spec_encode(),
        }
    }

    /// The class of the board.
    pub fn class_id(&self) -> (r: u8)
        ensures
            r == (if self is Class0 {
                0u8
            } else {
                1u8
            }),
    {
        match self {
            BoardClassTelemetry::Class0(_) => 0,
            BoardClassTelemetry::Class1(_) => 1,
        }
    }

    /// The class 0 telemetry, if it is one.
    pub fn as_class0(&self) -> (r: Option<&class0::Telemetry>)
        ensures
            self matches BoardClassTelemetry::Class0(t) ==> r matches Some(x) && *x == t,
            self is Class1 ==> r is None,
    {
        match self {
            BoardClassTelemetry::Class0(telemetry) => Some(telemetry),
            _ => None,
        }
    }

    /// The class 1 telemetry, if it is one.
    pub fn as_class1(&self) -> (r: Option<&class1::Telemetry>)
        ensures
            self matches BoardClassTelemetry::Class1(t) ==> r matches Some(x) && *x == t,
            self is Class0 ==> r is None,
    {
        match self {
            BoardClassTelemetry::Class1(telemetry) => Some(telemetry),
            _ => None,
        }
    }

    /// Encodes the telemetry of its class as a telemetry payload.
    pub fn into(self) -> (r: Payload<Ty>)
        ensures
            r@ == self.spec_encode(),
    {
        match self {
            BoardClassTelemetry::Class0(t) => t.to_payload(),
            BoardClassTelemetry::Class1(t) => t.to_payload(),
        }
    }

    /// A payload alone does not tell the class of its board: always refused.
    pub fn try_from(_value: &Payload<Ty>) -> (r: Result<BoardClassTelemetry, ProtocolError>)
        ensures
            r == Err::<BoardClassTelemetry, ProtocolError>(ProtocolError::UnsupportedClass),
    {
        Err(ProtocolError::UnsupportedClass)
    }
}

/// Decodes a telemetry payload as the telemetry of board class `class`
/// (0 or 1); other classes are refused.
pub fn boardlc_parse_telemetry_as_class(class: u8, payload: &Payload<Ty>) -> (r: Result<
    BoardClassTelemetry,
    ProtocolError,
>)
    ensures
        class == 0 ==> r == match class0::Telemetry::try_from_raw_spec(payload@) {
            Ok(t) => Ok(BoardClassTelemetry::Class0(t)),
            Err(e) => Err::<BoardClassTelemetry, ProtocolError>(e),
        },
        class == 1 ==> r == match class1::Telemetry::try_from_raw_spec(payload@) {
            Ok(t) => Ok(BoardClassTelemetry::Class1(t)),
            Err(e) => Err::<BoardClassTelemetry, ProtocolError>(e),
        },
        class > 1 ==> r == Err::<BoardClassTelemetry, ProtocolError>(ProtocolError::UnsupportedClass),
{
    match class {
        0 => match class0::Telemetry::try_from(payload) {
            Ok(t) => Ok(BoardClassTelemetry::Class0(t)),
            Err(e) => Err(e),
        },
        1 => match class1::Telemetry::try_from(payload) {
            Ok(t) => Ok(BoardClassTelemetry::Class1(t)),
            Err(e) => Err(e),
        },
        _ => Err(ProtocolError::UnsupportedClass),
    }
}


/// The first valid temperature of `temps`; invalid when none is.
pub open spec fn spec_first_valid(temps: [Temperature; 3]) -> Temperature {
    if temps[0].0 is Some {
        temps[0]
    } else if temps[1].0 is Some {
        temps[1]
    } else {
        temps[2]
    }
}

/// The first valid temperature of `temps`; invalid when none is.
pub fn first_valid(temps: &[Temperature; 3]) -> (r: Temperature)
    ensures
        r == spec_first_valid(*temps),
{
    if temps[0].0.is_some() {
        temps[0]
    } else if temps[1].0.is_some() {
        temps[1]
    } else {
        temps[2]
    }
}

impl BoardClassTelemetry {
    /// The temperature of the board sensor.
    pub fn board_temperature(&self) -> (r: Temperature)
        ensures
            r == match *self {
                BoardClassTelemetry::Class0(t) => t.temp_in,
                BoardClassTelemetry::Class1(t) => t.temp_in,
            },
    {
        match self {
            BoardClassTelemetry::Class0(t) => t.temp_in,
            BoardClassTelemetry::Class1(t) => t.temp_in,
        }
    }

    /// The first valid temperature of the outside sensors; invalid when
    /// none is.
    pub fn outside_temperature(&self) -> (r: Temperature)
        ensures
            r == match *self {
                BoardClassTelemetry::Class0(t) => spec_first_valid(t.temp_out),
                BoardClassTelemetry::Class1(t) => spec_first_valid(t.temp_out),
            },
    {
        match self {
            BoardClassTelemetry::Class0(t) => first_valid(&t.temp_out),
            BoardClassTelemetry::Class1(t) => first_valid(&t.temp_out),
        }
    }
}


/// Decodes a telemetry payload as the telemetry of the board class `C`.
pub fn boardlc_parse_telemetry<C: Class>(payload: &Payload<Ty>) -> (r: Result<C::Telemetry, ProtocolError>)
    ensures
        r == <C::Telemetry as AsPayload<Ty>>::spec_from_payload_bytes(payload@),
{
    <C::Telemetry as AsPayload<Ty>>::try_from_raw(payload.data())
}

} // verus!
