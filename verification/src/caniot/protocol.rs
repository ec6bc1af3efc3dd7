use vstd::bytes::{
    spec_u16_from_le_bytes, spec_u16_to_le_bytes, spec_u32_from_le_bytes, spec_u32_to_le_bytes,
    u16_from_le_bytes, u16_to_le_bytes, u32_from_le_bytes, u32_to_le_bytes,
};
use vstd::bytes::{lemma_auto_spec_u16_to_from_le_bytes, lemma_auto_spec_u32_to_from_le_bytes};
use vstd::prelude::*;
use vstd::slice::slice_to_vec;

use super::bits::{lemma_u16_id_pack, lemma_u16_id_ranges, lemma_u16_id_unpack};
use super::device_id::DeviceId;
use super::error::{lemma_error_code_roundtrip, ErrorCode};
use super::payloads::{Cd, Payload, Ty};

verus! {

/// Acceptance value of the CAN filter that keeps response frames (bit 2 set).
pub const CANIOT_DEVICE_FILTER_ID: u32 = 0b100;

/// Mask of the CAN filter that keeps response frames (bit 2 is compared).
pub const CANIOT_DEVICE_FILTER_MASK: u32 = 0b100;

/// Kind of a frame: telemetry/command or attribute access.
#[derive(Debug, PartialEq, Eq, Clone, Copy, Structural)]
pub enum Type {
    Telemetry,
    Attribute,
}

/// Read or write access.
#[derive(Debug, PartialEq, Eq, Clone, Copy, Structural)]
pub enum Action {
    Write,
    Read,
}

/// Query (controller to device) or response (device to controller).
#[derive(Debug, PartialEq, Eq, Clone, Copy, Structural)]
pub enum Direction {
    Query,
    Response,
}

/// Endpoint of a telemetry or command frame.
#[derive(Debug, PartialEq, Eq, Clone, Copy, Structural)]
pub enum Endpoint {
    ApplicationDefault,
    Application1,
    Application2,
    BoardControl,
}

impl Type {
    /// The bit that encodes this kind.
    pub open spec fn spec_bit(self) -> u16 {
        match self {
            Type::Telemetry => 0,
            Type::Attribute => 1,
        }
    }

    /// The kind encoded by bit `b`.
    pub open spec fn spec_from_bit(b: int) -> Type {
        if b == 0 {
            Type::Telemetry
        } else {
            Type::Attribute
        }
    }

    /// Decodes a kind; `None` above 1.
    pub fn from_u8(v: u8) -> (r: Option<Type>)
        ensures
            v < 2 ==> r == Some(Type::spec_from_bit(v as int)),
            v >= 2 ==> r is None,
    {
        match v {
            0 => Some(Type::Telemetry),
            1 => Some(Type::Attribute),
            _ => None,
        }
    }

    /// The bit that encodes this kind.
    pub fn to_u16(self) -> (r: u16)
        ensures
            r == self.spec_bit(),
    {
        match self {
            Type::Telemetry => 0,
            Type::Attribute => 1,
        }
    }
}

impl Action {
    /// The bit that encodes this access.
    pub open spec fn spec_bit(self) -> u16 {
        match self {
            Action::Write => 0,
            Action::Read => 1,
        }
    }

    /// The access encoded by bit `b`.
    pub open spec fn spec_from_bit(b: int) -> Action {
        if b == 0 {
            Action::Write
        } else {
            Action::Read
        }
    }

    /// Decodes an access; `None` above 1.
    pub fn from_u8(v: u8) -> (r: Option<Action>)
        ensures
            v < 2 ==> r == Some(Action::spec_from_bit(v as int)),
            v >= 2 ==> r is None,
    {
        match v {
            0 => Some(Action::Write),
            1 => Some(Action::Read),
            _ => None,
        }
    }

    /// The bit that encodes this access.
    pub fn to_u16(self) -> (r: u16)
        ensures
            r == self.spec_bit(),
    {
        match self {
            Action::Write => 0,
            Action::Read => 1,
        }
    }
}

impl Direction {
    /// The bit that encodes this direction.
    pub open spec fn spec_bit(self) -> u16 {
        match self {
            Direction::Query => 0,
            Direction::Response => 1,
        }
    }

    /// The direction encoded by bit `b`.
    pub open spec fn spec_from_bit(b: int) -> Direction {
        if b == 0 {
            Direction::Query
        } else {
            Direction::Response
        }
    }

    /// Decodes a direction; `None` above 1.
    pub fn from_u8(v: u8) -> (r: Option<Direction>)
        ensures
            v < 2 ==> r == Some(Direction::spec_from_bit(v as int)),
            v >= 2 ==> r is None,
    {
        match v {
            0 => Some(Direction::Query),
            1 => Some(Direction::Response),
            _ => None,
        }
    }

    /// The bit that encodes this direction.
    pub fn to_u16(self) -> (r: u16)
        ensures
            r == self.spec_bit(),
    {
        match self {
            Direction::Query => 0,
            Direction::Response => 1,
        }
    }
}

impl Endpoint {
    /// The 2-bit number of this endpoint.
    pub open spec fn spec_bits(self) -> u16 {
        match self {
            Endpoint::ApplicationDefault => 0,
            Endpoint::Application1 => 1,
            Endpoint::Application2 => 2,
            Endpoint::BoardControl => 3,
        }
    }

    /// The endpoint numbered `b` (taken modulo 4).
    pub open spec fn spec_from_bits(b: int) -> Endpoint {
        if b == 0 {
            Endpoint::ApplicationDefault
        } else if b == 1 {
            Endpoint::Application1
        } else if b == 2 {
            Endpoint::Application2
        } else {
            Endpoint::BoardControl
        }
    }

    /// Decodes an endpoint number; `None` above 3.
    pub fn from_u8(v: u8) -> (r: Option<Endpoint>)
        ensures
            v < 4 ==> r == Some(Endpoint::spec_from_bits(v as int)),
            v >= 4 ==> r is None,
    {
        match v {
            0 => Some(Endpoint::ApplicationDefault),
            1 => Some(Endpoint::Application1),
            2 => Some(Endpoint::Application2),
            3 => Some(Endpoint::BoardControl),
            _ => None,
        }
    }

    /// Decodes an endpoint number; numbers other than 0..=3 are refused.
    pub fn try_from_i32(value: i32) -> (r: Result<Endpoint, ConversionError>)
        ensures
            0 <= value < 4 ==> r == Ok::<Endpoint, ConversionError>(
                Endpoint::spec_from_bits(value as int),
            ),
            !(0 <= value < 4) ==> r == Err::<Endpoint, ConversionError>(
                ConversionError::NotValidEndpoint,
            ),
    {
        match value {
            0 => Ok(Endpoint::ApplicationDefault),
            1 => Ok(Endpoint::Application1),
            2 => Ok(Endpoint::Application2),
            3 => Ok(Endpoint::BoardControl),
            _ => Err(ConversionError::NotValidEndpoint),
        }
    }

    /// The 2-bit number of this endpoint.
    pub fn to_u16(self) -> (r: u16)
        ensures
            r == self.spec_bits(),
    {
        match self {
            Endpoint::ApplicationDefault => 0,
            Endpoint::Application1 => 1,
            Endpoint::Application2 => 2,
            Endpoint::BoardControl => 3,
        }
    }

    /// Short label of the endpoint ("ep-0", "ep-1", "ep-2", "ep-c").
    pub fn label(&self) -> (r: &'static str)
        ensures
            *self == Endpoint::ApplicationDefault ==> r@ == "ep-0"@,
            *self == Endpoint::Application1 ==> r@ == "ep-1"@,
            *self == Endpoint::Application2 ==> r@ == "ep-2"@,
            *self == Endpoint::BoardControl ==> r@ == "ep-c"@,
    {
        match self {
            Endpoint::ApplicationDefault => "ep-0",
            Endpoint::Application1 => "ep-1",
            Endpoint::Application2 => "ep-2",
            Endpoint::BoardControl => "ep-c",
        }
    }
}

/// The fields of a CANIOT 11-bit CAN identifier.
#[derive(Debug, Clone, Copy, PartialEq, Eq, Structural)]
pub struct Id {
    pub device_id: DeviceId,
    pub direction: Direction,
    pub msg_type: Type,
    pub action: Action,
    pub endpoint: Endpoint,
}

impl Id {
    /// The device identifier fits in 6 bits.
    pub open spec fn wf(self) -> bool {
        self.device_id.wf()
    }

    /// The identifier decoded from the raw CAN identifier `id`: action in bit 0,
    /// kind in bit 1, direction in bit 2, device class in bits 3..6, sub
    /// identifier in bits 6..9 and endpoint in bits 9..11.
    pub open spec fn spec_from_u16(id: u16) -> Id {
        Id {
            device_id: DeviceId { class: ((id >> 3u16) & 7) as u8, sub_id: ((id >> 6u16) & 7) as u8 },
            action: Action::spec_from_bit((id & 1) as int),
            msg_type: Type::spec_from_bit(((id >> 1u16) & 1) as int),
            direction: Direction::spec_from_bit(((id >> 2u16) & 1) as int),
            endpoint: Endpoint::spec_from_bits(((id >> 9u16) & 3) as int),
        }
    }

    /// The raw CAN identifier of this identifier (the inverse layout).
    pub open spec fn spec_to_u16(self) -> u16 {
        ((self.device_id.class as u16) << 3u16) | ((self.device_id.sub_id as u16) << 6u16)
            | self.action.spec_bit() | (self.msg_type.spec_bit() << 1u16) | (
        self.direction.spec_bit() << 2u16) | (self.endpoint.spec_bits() << 9u16)
    }

    /// Decodes a raw CAN identifier (bits above 10 are ignored).
    pub fn from_u16(id: u16) -> (r: Id)
        ensures
            r == Id::spec_from_u16(id),
            r.wf(),
    {
        proof {
            lemma_u16_id_ranges(id);
        }
        let device_id = DeviceId { class: ((id >> 3) & 7) as u8, sub_id: ((id >> 6) & 7) as u8 };
        let action = match id & 0x1 {
            0 => Action::Write,
            _ => Action::Read,
        };
        let msg_type = match (id >> 1) & 0x1 {
            0 => Type::Telemetry,
            _ => Type::Attribute,
        };
        let direction = match (id >> 2) & 0x1 {
            0 => Direction::Query,
            _ => Direction::Response,
        };
        let endpoint = match (id >> 9) & 0x3 {
            0 => Endpoint::ApplicationDefault,
            1 => Endpoint::Application1,
            2 => Endpoint::Application2,
            _ => Endpoint::BoardControl,
        };
        Id { device_id, direction, msg_type, action, endpoint }
    }

    /// Encodes the identifier as a raw CAN identifier.
    pub fn to_u16(self) -> (r: u16)
        ensures
            r == self.spec_to_u16(),
            self.wf() ==> r <= 0x7ff,
    {
        let c = self.device_id.class as u16;
        let s = self.device_id.sub_id as u16;
        let a = self.action.to_u16();
        let t = self.msg_type.to_u16();
        let d = self.direction.to_u16();
        let e = self.endpoint.to_u16();
        proof {
            if self.wf() {
                lemma_u16_id_pack(c, s, a, t, d, e);
            }
        }
        (c << 3) | (s << 6) | a | (t << 1) | (d << 2) | (e << 9)
    }

    /// The endpoint of a telemetry identifier; `None` for attribute identifiers.
    pub fn get_endpoint(&self) -> (r: Option<Endpoint>)
        ensures
            r == self.spec_get_endpoint(),
    {
        match self.msg_type {
            Type::Telemetry => Some(self.endpoint),
            Type::Attribute => None,
        }
    }

    /// The endpoint of a telemetry identifier; `None` for attribute identifiers.
    pub open spec fn spec_get_endpoint(self) -> Option<Endpoint> {
        if self.msg_type == Type::Telemetry {
            Some(self.endpoint)
        } else {
            None
        }
    }
}

/// Decoding the encoding of a valid identifier gives it back, and encoding
/// the decoding of an 11-bit raw identifier gives the raw identifier back.
pub proof fn lemma_id_roundtrip(id: Id, raw: u16)
    requires
        id.wf(),
        raw <= 0x7ff,
    ensures
        Id::spec_from_u16(id.spec_to_u16()) == id,
        Id::spec_from_u16(raw).spec_to_u16() == raw,
{
    lemma_u16_id_pack(
        id.device_id.class as u16,
        id.device_id.sub_id as u16,
        id.action.spec_bit(),
        id.msg_type.spec_bit(),
        id.direction.spec_bit(),
        id.endpoint.spec_bits(),
    );
    lemma_u16_id_ranges(raw);
    lemma_u16_id_unpack(raw);
}

/// The layout of an encoded identifier: it fits in 11 bits, with the action in
/// bit 0 (set for a read), the kind in bit 1 (set for an attribute), the
/// direction in bit 2 (set for a response), the device class in bits 3..6, the
/// sub identifier in bits 6..9 (so bits 3..9 hold the 6-bit device identifier
/// `class + 8 * sub_id`) and the endpoint number in bits 9..11.
pub proof fn lemma_id_encode_layout(id: Id)
    requires
        id.wf(),
    ensures
        ({
            let raw = id.spec_to_u16();
            &&& raw <= 0x7ff
            &&& (raw & 1 == 1) == (id.action == Action::Read)
            &&& ((raw >> 1u16) & 1 == 1) == (id.msg_type == Type::Attribute)
            &&& ((raw >> 2u16) & 1 == 1) == (id.direction == Direction::Response)
            &&& (raw >> 3u16) & 7 == id.device_id.class
            &&& (raw >> 6u16) & 7 == id.device_id.sub_id
            &&& (raw >> 3u16) & 0x3f == id.device_id.class + 8 * id.device_id.sub_id
            &&& ((raw >> 9u16) & 3 == 0) == (id.endpoint == Endpoint::ApplicationDefault)
            &&& ((raw >> 9u16) & 3 == 1) == (id.endpoint == Endpoint::Application1)
            &&& ((raw >> 9u16) & 3 == 2) == (id.endpoint == Endpoint::Application2)
            &&& ((raw >> 9u16) & 3 == 3) == (id.endpoint == Endpoint::BoardControl)
        }),
{
    let raw = id.spec_to_u16();
    lemma_u16_id_pack(
        id.device_id.class as u16,
        id.device_id.sub_id as u16,
        id.action.spec_bit(),
        id.msg_type.spec_bit(),
        id.direction.spec_bit(),
        id.endpoint.spec_bits(),
    );
    assert((raw >> 3u16) & 0x3f == ((raw >> 3u16) & 7) + 8 * ((raw >> 6u16) & 7)) by (bit_vector);
}

/// How a raw CAN identifier decodes: the action from bit 0 (set for a read),
/// the kind from bit 1 (set for an attribute), the direction from bit 2 (set
/// for a response), the device class from bits 3..6, the sub identifier from
/// bits 6..9 and the endpoint from the number in bits 9..11.
pub proof fn lemma_id_decode_layout(raw: u16)
    ensures
        ({
            let id = Id::spec_from_u16(raw);
            &&& id.wf()
            &&& id.device_id.class == (raw >> 3u16) & 7
            &&& id.device_id.sub_id == (raw >> 6u16) & 7
            &&& (id.action == Action::Read) == (raw & 1 == 1)
            &&& (id.msg_type == Type::Attribute) == ((raw >> 1u16) & 1 == 1)
            &&& (id.direction == Direction::Response) == ((raw >> 2u16) & 1 == 1)
            &&& (id.endpoint == Endpoint::ApplicationDefault) == ((raw >> 9u16) & 3 == 0)
            &&& (id.endpoint == Endpoint::Application1) == ((raw >> 9u16) & 3 == 1)
            &&& (id.endpoint == Endpoint::Application2) == ((raw >> 9u16) & 3 == 2)
            &&& (id.endpoint == Endpoint::BoardControl) == ((raw >> 9u16) & 3 == 3)
        }),
{
    lemma_u16_id_ranges(raw);
}

/// How a request is put in a CAN frame: a query identifier for the device,
/// read with the telemetry kind for a telemetry request (no bytes), write with
/// the telemetry kind for a command (its bytes), read with the attribute kind
/// for an attribute read (the key, little-endian) and write with the attribute
/// kind for an attribute write (the key, then the value, little-endian); the
/// endpoint is the request's for telemetry and commands.
pub proof fn lemma_request_frame_layout(data: RequestData, device_id: DeviceId)
    ensures
        ({
            let id = data.spec_id(device_id);
            let p = data.spec_can_payload();
            &&& id.device_id == device_id
            &&& id.direction == Direction::Query
            &&& data matches RequestData::Telemetry { endpoint } ==> id.action == Action::Read
                && id.msg_type == Type::Telemetry && id.endpoint == endpoint && p.len() == 0
            &&& data matches RequestData::Command { endpoint, payload } ==> id.action
                == Action::Write && id.msg_type == Type::Telemetry && id.endpoint == endpoint && p
                == payload@
            &&& data matches RequestData::AttributeRead { key } ==> id.action == Action::Read
                && id.msg_type == Type::Attribute && p == spec_u16_to_le_bytes(key)
            &&& data matches RequestData::AttributeWrite { key, value } ==> id.action
                == Action::Write && id.msg_type == Type::Attribute && p == spec_u16_to_le_bytes(key)
                + spec_u32_to_le_bytes(value)
        }),
{
}

/// How a response is put in a CAN frame: a response identifier for the
/// device; read with the telemetry kind for a telemetry (its endpoint, its
/// bytes), read with the attribute kind for an attribute value (the key, then
/// the value, little-endian), and write for an error, with the telemetry kind
/// and its endpoint for an error about a telemetry or command, with the
/// attribute kind for an error about an attribute; an error frame holds the
/// error code little-endian, or four zero bytes when there is none.
pub proof fn lemma_response_frame_layout(data: ResponseData, device_id: DeviceId)
    ensures
        ({
            let id = data.spec_id(device_id);
            let p = data.spec_can_payload();
            &&& id.device_id == device_id
            &&& id.direction == Direction::Response
            &&& data matches ResponseData::Telemetry { endpoint, payload } ==> id.action
                == Action::Read && id.msg_type == Type::Telemetry && id.endpoint == endpoint && p
                == payload@
            &&& data matches ResponseData::Attribute { key, value } ==> id.action == Action::Read
                && id.msg_type == Type::Attribute && p == spec_u16_to_le_bytes(key)
                + spec_u32_to_le_bytes(value)
            &&& data matches ResponseData::Error { source, error } ==> {
                &&& id.action == Action::Write
                &&& source matches ErrorSource::Telemetry(endpoint, _) ==> id.msg_type
                    == Type::Telemetry && id.endpoint == endpoint
                &&& source is Attribute ==> id.msg_type == Type::Attribute
                &&& error matches Some(e) ==> p == spec_u32_to_le_bytes(e.spec_value() as u32)
                &&& error is None ==> p == seq![0u8, 0u8, 0u8, 0u8]
            }
        }),
{
}

/// A CANIOT frame: the device it concerns and its content.
#[derive(Debug, Clone)]
pub struct Frame<T> {
    pub device_id: DeviceId,
    pub data: T,
}

impl<T> Frame<T> {
    /// Builds a frame.
    pub fn new(device_id: DeviceId, data: T) -> (r: Self)
        ensures
            r.device_id == device_id,
            r.data == data,
    {
        Frame { device_id, data }
    }
}

/// A frame sent by the controller to a device.
pub type Request = Frame<RequestData>;

/// A frame sent by a device to the controller.
pub type Response = Frame<ResponseData>;

/// Content of a query frame.
#[derive(Debug, Clone)]
pub enum RequestData {
    Telemetry { endpoint: Endpoint },
    Command { endpoint: Endpoint, payload: Payload<Cd> },
    AttributeRead { key: u16 },
    AttributeWrite { key: u16, value: u32 },
}

/// What an error response answers: a telemetry/command on an endpoint, or
/// an attribute access, each with an optional argument.
#[derive(Debug, Clone, Copy, PartialEq, Eq, Structural)]
pub enum ErrorSource {
    Telemetry(Endpoint, Option<u32>),
    Attribute(Option<u16>),
}

/// Content of a response frame.
#[derive(Debug, Clone)]
pub enum ResponseData {
    Telemetry { endpoint: Endpoint, payload: Payload<Ty> },
    Attribute { key: u16, value: u32 },
    Error { source: ErrorSource, error: Option<ErrorCode> },
}

/// The error carried by an error response.
#[derive(Debug, Clone, Copy)]
pub struct ErrorData {
    pub error: ErrorCode,
}

/// Failures of the conversion between CAN frames and CANIOT frames.
#[derive(Debug, Clone, Copy, PartialEq, Eq, Structural)]
pub enum ConversionError {
    NotValidResponse,
    NotValidRequest,
    NotValidId,
    NotValidEndpoint,
}

/// Little-endian bytes of an attribute key followed by those of its value.
pub open spec fn spec_key_value_bytes(key: u16, value: u32) -> Seq<u8> {
    spec_u16_to_le_bytes(key) + spec_u32_to_le_bytes(value)
}

fn key_value_bytes(key: u16, value: u32) -> (r: Vec<u8>)
    ensures
        r@ == spec_key_value_bytes(key, value),
        r@.len() == 6,
{
    let mut data = u16_to_le_bytes(key);
    let mut tail = u32_to_le_bytes(value);
    data.append(&mut tail);
    data
}

impl RequestData {
    /// The bytes of the CAN frame that carries this content.
    pub open spec fn spec_can_payload(&self) -> Seq<u8> {
        match self {
            RequestData::Telemetry { .. } => Seq::empty(),
            RequestData::Command { payload, .. } => payload@,
            RequestData::AttributeRead { key } => spec_u16_to_le_bytes(*key),
            RequestData::AttributeWrite { key, value } => spec_key_value_bytes(*key, *value),
        }
    }

    /// The identifier of the CAN frame that carries this content to `device_id`.
    pub open spec fn spec_id(&self, device_id: DeviceId) -> Id {
        match self {
            RequestData::Telemetry { endpoint } => Id {
                device_id,
                direction: Direction::Query,
                msg_type: Type::Telemetry,
                action: Action::Read,
                endpoint: *endpoint,
            },
            RequestData::Command { endpoint, .. } => Id {
                device_id,
                direction: Direction::Query,
                msg_type: Type::Telemetry,
                action: Action::Write,
                endpoint: *endpoint,
            },
            RequestData::AttributeRead { .. } => Id {
                device_id,
                direction: Direction::Query,
                msg_type: Type::Attribute,
                action: Action::Read,
                endpoint: Endpoint::ApplicationDefault,
            },
            RequestData::AttributeWrite { .. } => Id {
                device_id,
                direction: Direction::Query,
                msg_type: Type::Attribute,
                action: Action::Write,
                endpoint: Endpoint::ApplicationDefault,
            },
        }
    }

    /// Same content: equal variants and fields, payloads compared by their bytes.
    pub open spec fn spec_same(&self, other: &RequestData) -> bool {
        match (self, other) {
            (RequestData::Telemetry { endpoint: a }, RequestData::Telemetry { endpoint: b }) => a
                == b,
            (
                RequestData::Command { endpoint: a, payload: p },
                RequestData::Command { endpoint: b, payload: q },
            ) => a == b && p@ == q@,
            (RequestData::AttributeRead { key: a }, RequestData::AttributeRead { key: b }) => a
                == b,
            (
                RequestData::AttributeWrite { key: a, value: v },
                RequestData::AttributeWrite { key: b, value: w },
            ) => a == b && v == w,
            _ => false,
        }
    }

    fn get_can_payload(&self) -> (r: Vec<u8>)
        ensures
            r@ == self.spec_can_payload(),
    {
        match self {
            RequestData::Telemetry { .. } => Vec::new(),
            RequestData::Command { payload, .. } => slice_to_vec(payload.data()),
            RequestData::AttributeRead { key } => u16_to_le_bytes(*key),
            RequestData::AttributeWrite { key, value } => key_value_bytes(*key, *value),
        }
    }

    fn get_id(&self, device_id: DeviceId) -> (r: Id)
        ensures
            r == self.spec_id(device_id),
    {
        match self {
            RequestData::Telemetry { endpoint } => Id {
                device_id,
                direction: Direction::Query,
                msg_type: Type::Telemetry,
                action: Action::Read,
                endpoint: *endpoint,
            },
            RequestData::Command { endpoint, .. } => Id {
                device_id,
                direction: Direction::Query,
                msg_type: Type::Telemetry,
                action: Action::Write,
                endpoint: *endpoint,
            },
            RequestData::AttributeRead { .. } => Id {
                device_id,
                direction: Direction::Query,
                msg_type: Type::Attribute,
                action: Action::Read,
                endpoint: Endpoint::ApplicationDefault,
            },
            RequestData::AttributeWrite { .. } => Id {
                device_id,
                direction: Direction::Query,
                msg_type: Type::Attribute,
                action: Action::Write,
                endpoint: Endpoint::ApplicationDefault,
            },
        }
    }
}

impl ResponseData {
    /// The content can be put in a CAN frame: an error response without an
    /// error code cannot carry an attribute key.
    pub open spec fn spec_encodable(&self) -> bool {
        !(self matches ResponseData::Error { source: ErrorSource::Attribute(Some(_)), error: None })
    }

    /// Whether a CAN frame can carry this content: every content but an
    /// attribute error with an argument and no error code.
    pub fn is_encodable(&self) -> (r: bool)
        ensures
            r == self.spec_encodable(),
    {
        match self {
            ResponseData::Error { source: ErrorSource::Attribute(Some(_)), error: None } => false,
            _ => true,
        }
    }

    /// The bytes of the CAN frame that carries this content.
    pub open spec fn spec_can_payload(&self) -> Seq<u8> {
        match self {
            ResponseData::Telemetry { payload, .. } => payload@,
            ResponseData::Attribute { key, value } => spec_key_value_bytes(*key, *value),
            ResponseData::Error { error, .. } => match error {
                Some(e) => spec_u32_to_le_bytes(e.spec_value() as u32),
                None => seq![0u8, 0u8, 0u8, 0u8],
            },
        }
    }

    /// The identifier of the CAN frame that carries this content from `device_id`.
    pub open spec fn spec_id(&self, device_id: DeviceId) -> Id {
        match self {
            ResponseData::Telemetry { endpoint, .. } => Id {
                device_id,
                direction: Direction::Response,
                msg_type: Type::Telemetry,
                action: Action::Read,
                endpoint: *endpoint,
            },
            ResponseData::Attribute { .. } => Id {
                device_id,
                direction: Direction::Response,
                msg_type: Type::Attribute,
                action: Action::Read,
                endpoint: Endpoint::ApplicationDefault,
            },
            ResponseData::Error { source, .. } => match source {
                ErrorSource::Telemetry(endpoint, _) => Id {
                    device_id,
                    direction: Direction::Response,
                    msg_type: Type::Telemetry,
                    action: Action::Write,
                    endpoint: *endpoint,
                },
                ErrorSource::Attribute(_) => Id {
                    device_id,
                    direction: Direction::Response,
                    msg_type: Type::Attribute,
                    action: Action::Write,
                    endpoint: Endpoint::ApplicationDefault,
                },
            },
        }
    }

    /// Same content: equal variants and fields, payloads compared by their bytes.
    pub open spec fn spec_same(&self, other: &ResponseData) -> bool {
        match (self, other) {
            (
                ResponseData::Telemetry { endpoint: a, payload: p },
                ResponseData::Telemetry { endpoint: b, payload: q },
            ) => a == b && p@ == q@,
            (
                ResponseData::Attribute { key: a, value: v },
                ResponseData::Attribute { key: b, value: w },
            ) => a == b && v == w,
            (
                ResponseData::Error { source: s, error: e },
                ResponseData::Error { source: t, error: f },
            ) => s == t && e == f,
            _ => false,
        }
    }

    fn to_data(&self) -> (r: Vec<u8>)
        requires
            self.spec_encodable(),
        ensures
            r@ == self.spec_can_payload(),
    {
        match self {
            ResponseData::Telemetry { payload, .. } => slice_to_vec(payload.data()),
            ResponseData::Attribute { key, value } => key_value_bytes(*key, *value),
            ResponseData::Error { error, .. } => {
                match error {
                    Some(err) => u32_to_le_bytes(err.value() as u32),
                    None => {
                        let mut data = Vec::new();
                        data.push(0u8);
                        data.push(0u8);
                        data.push(0u8);
                        data.push(0u8);
                        proof {
                            assert(data@ =~= seq![0u8, 0u8, 0u8, 0u8]);
                        }
                        data
                    },
                }
            },
        }
    }

    fn get_id(&self, device_id: DeviceId) -> (r: Id)
        ensures
            r == self.spec_id(device_id),
    {
        match self {
            ResponseData::Telemetry { endpoint, .. } => Id {
                device_id,
                direction: Direction::Response,
                msg_type: Type::Telemetry,
                action: Action::Read,
                endpoint: *endpoint,
            },
            ResponseData::Attribute { .. } => Id {
                device_id,
                direction: Direction::Response,
                msg_type: Type::Attribute,
                action: Action::Read,
                endpoint: Endpoint::ApplicationDefault,
            },
            ResponseData::Error { source, .. } => match source {
                ErrorSource::Telemetry(endpoint, _) => Id {
                    device_id,
                    direction: Direction::Response,
                    msg_type: Type::Telemetry,
                    action: Action::Write,
                    endpoint: *endpoint,
                },
                ErrorSource::Attribute(_) => Id {
                    device_id,
                    direction: Direction::Response,
                    msg_type: Type::Attribute,
                    action: Action::Write,
                    endpoint: Endpoint::ApplicationDefault,
                },
            },
        }
    }
}

/// The error response decoded from the bytes of an error frame: the error
/// code in bytes 0..4 when there are at least 4, the argument in bytes 4..8
/// when there are at least 8 (an attribute key keeps its low 16 bits).
pub open spec fn spec_error_payload(endpoint: Option<Endpoint>, payload: Seq<u8>) -> ResponseData {
    let error = if payload.len() >= 4 {
        ErrorCode::spec_from_i32(spec_u32_from_le_bytes(payload.subrange(0, 4)) as i32)
    } else {
        None
    };
    let arg = if payload.len() >= 8 {
        Some(spec_u32_from_le_bytes(payload.subrange(4, 8)))
    } else {
        None
    };
    let source = match endpoint {
        Some(ep) => ErrorSource::Telemetry(ep, arg),
        None => ErrorSource::Attribute(
            match arg {
                Some(x) => Some(x as u16),
                None => None,
            },
        ),
    };
    ResponseData::Error { source, error }
}

/// Decodes the payload of an error response frame.
pub fn parse_error_payload(endpoint: Option<Endpoint>, payload: &[u8]) -> (r: Result<
    ResponseData,
    ConversionError,
>)
    ensures
        r matches Ok(d) && d == spec_error_payload(endpoint, payload@),
{
    let len = payload.len();
    let error_code = if len >= 4 {
        ErrorCode::from_i32(u32_from_le_bytes(&payload[0..4]) as i32)
    } else {
        None
    };
    let arg = if len >= 8 {
        Some(u32_from_le_bytes(&payload[4..8]))
    } else {
        None
    };
    let source = match endpoint {
        Some(ep) => ErrorSource::Telemetry(ep, arg),
        None => ErrorSource::Attribute(
            match arg {
                Some(x) => Some(x as u16),
                None => None,
            },
        ),
    };
    Ok(ResponseData::Error { source, error: error_code })
}

/// Frames that the decoding of a response frame would refuse by panicking:
/// an attribute response shorter than 6 bytes.
pub open spec fn spec_response_decodable(id: Id, payload: Seq<u8>) -> bool {
    payload.len() <= 8 && ((id.direction == Direction::Response && id.action == Action::Read
        && id.msg_type == Type::Attribute) ==> payload.len() >= 6)
}

/// The response content that a CAN frame with identifier `id` and bytes
/// `payload` carries (for a response identifier).
pub open spec fn spec_response_data(d: ResponseData, id: Id, payload: Seq<u8>) -> bool {
    if id.action == Action::Read {
        match id.msg_type {
            Type::Telemetry => d matches ResponseData::Telemetry { endpoint, payload: p } && endpoint
                == id.endpoint && p@ == payload,
            Type::Attribute => d == ResponseData::Attribute {
                key: spec_u16_from_le_bytes(payload.subrange(0, 2)),
                value: spec_u32_from_le_bytes(payload.subrange(2, 6)),
            },
        }
    } else {
        d == spec_error_payload(id.spec_get_endpoint(), payload)
    }
}

/// Frames that the decoding of a request frame would refuse by panicking:
/// an attribute read shorter than 2 bytes, an attribute write shorter than 6.
pub open spec fn spec_request_decodable(id: Id, payload: Seq<u8>) -> bool {
    payload.len() <= 8 && ((id.direction == Direction::Query && id.msg_type == Type::Attribute)
        ==> payload.len() >= if id.action == Action::Read {
        2int
    } else {
        6int
    })
}

/// The request content that a CAN frame with identifier `id` and bytes
/// `payload` carries (for a query identifier).
pub open spec fn spec_request_data(d: RequestData, id: Id, payload: Seq<u8>) -> bool {
    match (id.msg_type, id.action) {
        (Type::Telemetry, Action::Read) => d == RequestData::Telemetry { endpoint: id.endpoint },
        (Type::Telemetry, Action::Write) => d matches RequestData::Command { endpoint, payload: p }
            && endpoint == id.endpoint && p@ == payload,
        (Type::Attribute, Action::Read) => d == RequestData::AttributeRead {
            key: spec_u16_from_le_bytes(payload.subrange(0, 2)),
        },
        (Type::Attribute, Action::Write) => d == RequestData::AttributeWrite {
            key: spec_u16_from_le_bytes(payload.subrange(0, 2)),
            value: spec_u32_from_le_bytes(payload.subrange(2, 6)),
        },
    }
}

impl Frame<RequestData> {
    /// Whether a CAN frame with identifier `can_id` and bytes `payload` can
    /// be decoded as a request: at most 8 bytes, and the key (and value) of
    /// an attribute query.
    pub fn is_decodable(can_id: u16, payload: &[u8]) -> (r: bool)
        ensures
            r == spec_request_decodable(Id::spec_from_u16(can_id), payload@),
    {
        let id = Id::from_u16(can_id);
        if payload.len() > 8 {
            false
        } else if id.direction == Direction::Query && id.msg_type == Type::Attribute {
            if id.action == Action::Read {
                payload.len() >= 2
            } else {
                payload.len() >= 6
            }
        } else {
            true
        }
    }

    /// The raw 11-bit CAN identifier of the frame (a standard identifier).
    pub fn get_can_id(&self) -> (r: u16)
        ensures
            r == self.data.spec_id(self.device_id).spec_to_u16(),
            self.device_id.wf() ==> r <= 0x7ff,
    {
        self.data.get_id(self.device_id).to_u16()
    }

    /// The bytes of the CAN frame.
    pub fn get_can_payload(&self) -> (r: Vec<u8>)
        ensures
            r@ == self.data.spec_can_payload(),
    {
        self.data.get_can_payload()
    }

    /// Decodes a CAN frame into a request; `can_id` is `None` for an extended identifier.
    pub fn try_from_can(can_id: Option<u16>, payload: &[u8]) -> (r: Result<
        Frame<RequestData>,
        ConversionError,
    >)
        requires
            can_id matches Some(raw) ==> spec_request_decodable(Id::spec_from_u16(raw), payload@),
        ensures
            can_id is None ==> r == Err::<Frame<RequestData>, ConversionError>(
                ConversionError::NotValidId,
            ),
            can_id matches Some(raw) ==> {
                let id = Id::spec_from_u16(raw);
                &&& id.direction == Direction::Response ==> r == Err::<
                    Frame<RequestData>,
                    ConversionError,
                >(ConversionError::NotValidRequest)
                &&& id.direction == Direction::Query ==> (r matches Ok(f) && f.device_id
                    == id.device_id && spec_request_data(f.data, id, payload@))
            },
    {
        let raw = match can_id {
            Some(raw) => raw,
            None => {
                return Err(ConversionError::NotValidId);
            },
        };
        let id = Id::from_u16(raw);
        match id.direction {
            Direction::Response => Err(ConversionError::NotValidRequest),
            Direction::Query => {
                let data = match (id.msg_type, id.action) {
                    (Type::Telemetry, Action::Read) => RequestData::Telemetry {
                        endpoint: id.endpoint,
                    },
                    (Type::Telemetry, Action::Write) => RequestData::Command {
                        endpoint: id.endpoint,
                        payload: Payload::new_unchecked(payload),
                    },
                    (Type::Attribute, Action::Read) => RequestData::AttributeRead {
                        key: u16_from_le_bytes(&payload[0..2]),
                    },
                    (Type::Attribute, Action::Write) => RequestData::AttributeWrite {
                        key: u16_from_le_bytes(&payload[0..2]),
                        value: u32_from_le_bytes(&payload[2..6]),
                    },
                };
                Ok(Frame { device_id: id.device_id, data })
            },
        }
    }
}

impl Frame<ResponseData> {
    /// Whether a CAN frame with identifier `can_id` and bytes `payload` can
    /// be decoded as a response: at most 8 bytes, and the key and value of
    /// an attribute response.
    pub fn is_decodable(can_id: u16, payload: &[u8]) -> (r: bool)
        ensures
            r == spec_response_decodable(Id::spec_from_u16(can_id), payload@),
    {
        let id = Id::from_u16(can_id);
        if payload.len() > 8 {
            false
        } else if id.direction == Direction::Response && id.action == Action::Read
            && id.msg_type == Type::Attribute {
            payload.len() >= 6
        } else {
            true
        }
    }

    /// The raw 11-bit CAN identifier of the frame (a standard identifier).
    pub fn get_can_id(&self) -> (r: u16)
        ensures
            r == self.data.spec_id(self.device_id).spec_to_u16(),
            self.device_id.wf() ==> r <= 0x7ff,
    {
        self.data.get_id(self.device_id).to_u16()
    }

    /// The bytes of the CAN frame.
    pub fn get_can_payload(&self) -> (r: Vec<u8>)
        requires
            self.data.spec_encodable(),
        ensures
            r@ == self.data.spec_can_payload(),
    {
        self.data.to_data()
    }

    /// Whether the response is a telemetry.
    pub fn is_telemetry(&self) -> (r: bool)
        ensures
            r == self.data is Telemetry,
    {
        match self.data {
            ResponseData::Telemetry { .. } => true,
            _ => false,
        }
    }

    /// Whether the response is an attribute value.
    pub fn is_attribute(&self) -> (r: bool)
        ensures
            r == self.data is Attribute,
    {
        match self.data {
            ResponseData::Attribute { .. } => true,
            _ => false,
        }
    }

    /// Decodes a CAN frame into a response; `can_id` is `None` for an extended identifier.
    pub fn try_from_can(can_id: Option<u16>, payload: &[u8]) -> (r: Result<
        Frame<ResponseData>,
        ConversionError,
    >)
        requires
            can_id matches Some(raw) ==> spec_response_decodable(Id::spec_from_u16(raw), payload@),
        ensures
            can_id is None ==> r == Err::<Frame<ResponseData>, ConversionError>(
                ConversionError::NotValidId,
            ),
            can_id matches Some(raw) ==> {
                let id = Id::spec_from_u16(raw);
                &&& id.direction == Direction::Query ==> r == Err::<
                    Frame<ResponseData>,
                    ConversionError,
                >(ConversionError::NotValidResponse)
                &&& id.direction == Direction::Response ==> (r matches Ok(f) && f.device_id
                    == id.device_id && spec_response_data(f.data, id, payload@))
            },
    {
        let raw = match can_id {
            Some(raw) => raw,
            None => {
                return Err(ConversionError::NotValidId);
            },
        };
        let id = Id::from_u16(raw);
        match id.direction {
            Direction::Query => Err(ConversionError::NotValidResponse),
            Direction::Response => {
                let data = match id.action {
                    Action::Read => match id.msg_type {
                        Type::Telemetry => ResponseData::Telemetry {
                            endpoint: id.endpoint,
                            payload: Payload::new_unchecked(payload),
                        },
                        Type::Attribute => ResponseData::Attribute {
                            key: u16_from_le_bytes(&payload[0..2]),
                            value: u32_from_le_bytes(&payload[2..6]),
                        },
                    },
                    Action::Write => {
                        let parsed = parse_error_payload(id.get_endpoint(), payload);
                        match parsed {
                            Ok(d) => d,
                            Err(e) => {
                                return Err(e);
                            },
                        }
                    },
                };
                Ok(Frame { device_id: id.device_id, data })
            },
        }
    }
}

/// A response whose content survives the trip through a CAN frame: a valid
/// device identifier, a payload that fits in a frame, and for an error, an
/// error code and no argument (the frame carries the code only).
pub open spec fn spec_response_roundtrips(r: Response) -> bool {
    &&& r.device_id.wf()
    &&& match r.data {
        ResponseData::Telemetry { payload, .. } => payload@.len() <= 8,
        ResponseData::Attribute { .. } => true,
        ResponseData::Error { source, error } => error is Some && match source {
            ErrorSource::Telemetry(_, arg) => arg is None,
            ErrorSource::Attribute(arg) => arg is None,
        },
    }
}

/// Decoding the CAN frame of a response gives the response back: the frame
/// can be decoded, it is a response frame, and the decoded content is the
/// same (for responses that a frame can carry whole).
pub proof fn lemma_response_frame_roundtrip(r: Response)
    requires
        spec_response_roundtrips(r),
    ensures
        r.data.spec_encodable(),
        ({
            let id = Id::spec_from_u16(r.data.spec_id(r.device_id).spec_to_u16());
            let p = r.data.spec_can_payload();
            &&& id == r.data.spec_id(r.device_id)
            &&& id.direction == Direction::Response
            &&& spec_response_decodable(id, p)
            &&& forall|d: ResponseData| spec_response_data(d, id, p) ==> d.spec_same(&r.data)
        }),
{
    let id = r.data.spec_id(r.device_id);
    lemma_id_roundtrip(id, 0);
    lemma_auto_spec_u16_to_from_le_bytes();
    lemma_auto_spec_u32_to_from_le_bytes();
    let p = r.data.spec_can_payload();
    match r.data {
        ResponseData::Attribute { key, value } => {
            assert(p.subrange(0, 2) =~= spec_u16_to_le_bytes(key));
            assert(p.subrange(2, 6) =~= spec_u32_to_le_bytes(value));
        },
        ResponseData::Error { source, error } => {
            let e = error->0;
            lemma_error_code_roundtrip(e);
            assert(p.subrange(0, 4) =~= p);
        },
        _ => {},
    }
}

/// A request whose content survives the trip through a CAN frame: a valid
/// device identifier and a payload that fits in a frame.
pub open spec fn spec_request_roundtrips(r: Request) -> bool {
    &&& r.device_id.wf()
    &&& match r.data {
        RequestData::Command { payload, .. } => payload@.len() <= 8,
        _ => true,
    }
}

/// Decoding the CAN frame of a request gives the request back.
pub proof fn lemma_request_frame_roundtrip(r: Request)
    requires
        spec_request_roundtrips(r),
    ensures
        ({
            let id = Id::spec_from_u16(r.data.spec_id(r.device_id).spec_to_u16());
            let p = r.data.spec_can_payload();
            &&& id == r.data.spec_id(r.device_id)
            &&& id.direction == Direction::Query
            &&& spec_request_decodable(id, p)
            &&& forall|d: RequestData| spec_request_data(d, id, p) ==> d.spec_same(&r.data)
        }),
{
    let id = r.data.spec_id(r.device_id);
    lemma_id_roundtrip(id, 0);
    lemma_auto_spec_u16_to_from_le_bytes();
    lemma_auto_spec_u32_to_from_le_bytes();
    let p = r.data.spec_can_payload();
    match r.data {
        RequestData::AttributeRead { key } => {
            assert(p.subrange(0, 2) =~= spec_u16_to_le_bytes(key));
        },
        RequestData::AttributeWrite { key, value } => {
            assert(p.subrange(0, 2) =~= spec_u16_to_le_bytes(key));
            assert(p.subrange(2, 6) =~= spec_u32_to_le_bytes(value));
        },
        _ => {},
    }
}

} // verus!
