pub mod bits;
pub mod device_id;
pub mod error;

pub use device_id::DeviceId;
pub use error::{CaniotError, ErrorCode, ProtocolError};
pub mod payloads;
pub use payloads::{AsPayload, Cd, ClCd, Payload, PayloadType, Ty};
pub mod protocol;
pub use protocol::{
    parse_error_payload, Action, ConversionError, Direction, Endpoint, ErrorData, ErrorSource,
    Frame, Id, Request, RequestData, Response, ResponseData, Type, CANIOT_DEVICE_FILTER_ID,
    CANIOT_DEVICE_FILTER_MASK,
};
pub mod datatypes;
pub mod random;
pub use datatypes::{HeatingMode, Temperature, Xps, TS, TSP};
pub mod classes;
pub mod helper;
pub use helper::{
    build_attribute_read_request, build_attribute_read_request_data,
    build_attribute_write_request, build_attribute_write_request_data, build_command_request,
    build_command_request_data, build_telemetry_request, build_telemetry_request_data,
    is_response_to, ResponseMatch,
};
pub mod decenc;
pub mod text;
pub mod textfmt;
pub mod types;
pub use decenc::{decode_cls0_telemetry, encode_cls0_command, encode_sys_command};
pub use types::{Class0Command, Class0Payload, SystemCommand};
pub mod attributes;
pub mod emu;
