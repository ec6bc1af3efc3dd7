use vstd::prelude::*;

use super::super::datatypes::Temperature;
use super::super::error::ProtocolError;
use super::super::payloads::{AsPayload, Payload, Ty};
use super::traits::Class;
use super::class0;
use super::class1;

verus! {

/// Telemetry of a board-level controller, by board class.
#[derive(Debug, Clone, Copy)]
pub enum BlcClassTelemetry {
    Class0(class0::Telemetry),
    Class1(class1::Telemetry),
}

impl BlcClassTelemetry {
    /// The encoding of the telemetry of its class.
    pub open spec fn spec_encode(self) -> Seq<u8> {
        match self {
            BlcClassTelemetry::Class0(t) => t.spec_encode(),
            BlcClassTelemetry::Class1(t) => t.spec_encode(),
        }
    }

    /// The class of the board.
    pub fn class_id(&self) -> (r: u8)
        ensures
            r == (if self is Class0 {
                0u8
            } else {
                1u8
            }),
    {
        match self {
            BlcClassTelemetry::Class0(_) => 0,
            BlcClassTelemetry::Class1(_) => 1,
        }
    }

    /// The class 0 telemetry, if it is one.
    pub fn as_class0(&self) -> (r: Option<&class0::Telemetry>)
        ensures
            self matches BlcClassTelemetry::Class0(t) ==> r matches Some(x) && *x == t,
            self is Class1 ==> r is None,
    {
        match self {
            BlcClassTelemetry::Class0(telemetry) => Some(telemetry),
            _ => None,
        }
    }

    /// The class 1 telemetry, if it is one.
    pub fn as_class1(&self) -> (r: Option<&class1::Telemetry>)
        ensures
            self matches BlcClassTelemetry::Class1(t) ==> r matches Some(x) && *x == t,
            self is Class0 ==> r is None,
    {
        match self {
            BlcClassTelemetry::Class1(telemetry) => Some(telemetry),
            _ => None,
        }
    }

    /// Encodes the telemetry of its class as a telemetry payload.
    pub fn into(self) -> (r: Payload<Ty>)
        ensures
            r@ == self.spec_encode(),
    {
        match self {
            BlcClassTelemetry::Class0(t) => t.to_payload(),
            BlcClassTelemetry::Class1(t) => t.to_payload(),
        }
    }

    /// A payload alone does not tell the class of its board: always refused.
    pub fn try_from(_value: &Payload<Ty>) -> (r: Result<BlcClassTelemetry, ProtocolError>)
        ensures
            r == Err::<BlcClassTelemetry, ProtocolError>(ProtocolError::UnsupportedClass),
    {
        Err(ProtocolError::UnsupportedClass)
    }
}

/// Decodes a telemetry payload as the telemetry of board class `class`
/// (0 or 1); other classes are refused.
pub fn blc_parse_telemetry_as_class(class: u8, payload: &Payload<Ty>) -> (r: Result<
    BlcClassTelemetry,
    ProtocolError,
>)
    ensures
        class == 0 ==> r == match class0::Telemetry::try_from_raw_spec(payload@) {
            Ok(t) => Ok(BlcClassTelemetry::Class0(t)),
            Err(e) => Err::<BlcClassTelemetry, ProtocolError>(e),
        },
        class == 1 ==> r == match class1::Telemetry::try_from_raw_spec(payload@) {
            Ok(t) => Ok(BlcClassTelemetry::Class1(t)),
            Err(e) => Err::<BlcClassTelemetry, ProtocolError>(e),
        },
        class > 1 ==> r == Err::<BlcClassTelemetry, ProtocolError>(ProtocolError::UnsupportedClass),
{
    match class {
        0 => match class0::Telemetry::try_from(payload) {
            Ok(t) => Ok(BlcClassTelemetry::Class0(t)),
            Err(e) => Err(e),
        },
        1 => match class1::Telemetry::try_from(payload) {
            Ok(t) => Ok(BlcClassTelemetry::Class1(t)),
            Err(e) => Err(e),
        },
        _ => Err(ProtocolError::UnsupportedClass),
    }
}


impl BlcClassTelemetry {
    /// The temperature of the board sensor.
    pub fn board_temperature(&self) -> (r: Temperature)
        ensures
            r == match *self {
                BlcClassTelemetry::Class0(t) => t.temp_in,
                BlcClassTelemetry::Class1(t) => t.temp_in,
            },
    {
        match self {
            BlcClassTelemetry::Class0(t) => t.temp_in,
            BlcClassTelemetry::Class1(t) => t.temp_in,
        }
    }
}


/// Decodes a telemetry payload as the telemetry of the board-level controller class `C`.
pub fn blc_parse_telemetry<C: Class>(payload: &Payload<Ty>) -> (r: Result<C::Telemetry, ProtocolError>)
    ensures
        r == <C::Telemetry as AsPayload<Ty>>::spec_from_payload_bytes(payload@),
{
    <C::Telemetry as AsPayload<Ty>>::try_from_raw(payload.data())
}

} // verus!
