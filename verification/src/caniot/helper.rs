use vstd::prelude::*;

use super::device_id::DeviceId;
use super::payloads::Payload;
use super::protocol::{Endpoint, ErrorSource, Frame, Request, RequestData, Response, ResponseData};

verus! {

/// The telemetry query of an endpoint.
pub fn build_telemetry_request_data(endpoint: Endpoint) -> (r: RequestData)
    ensures
        r == (RequestData::Telemetry { endpoint }),
{
    RequestData::Telemetry { endpoint }
}

/// The read query of an attribute.
pub fn build_attribute_read_request_data(key: u16) -> (r: RequestData)
    ensures
        r == (RequestData::AttributeRead { key }),
{
    RequestData::AttributeRead { key }
}

/// The write query of an attribute.
pub fn build_attribute_write_request_data(key: u16, value: u32) -> (r: RequestData)
    ensures
        r == (RequestData::AttributeWrite { key, value }),
{
    RequestData::AttributeWrite { key, value }
}

/// The command query of an endpoint; the payload holds at most 8 bytes.
pub fn build_command_request_data(endpoint: Endpoint, payload: Vec<u8>) -> (r: RequestData)
    requires
        payload@.len() <= 8,
    ensures
        r matches RequestData::Command { endpoint: e, payload: p } && e == endpoint && p@
            == payload@,
{
    RequestData::Command { endpoint, payload: Payload::new_unchecked(payload.as_slice()) }
}

/// The telemetry request of an endpoint of a device.
pub fn build_telemetry_request(device_id: DeviceId, endpoint: Endpoint) -> (r: Request)
    ensures
        r.device_id == device_id,
        r.data == (RequestData::Telemetry { endpoint }),
{
    Frame::new(device_id, build_telemetry_request_data(endpoint))
}

/// The attribute read request of a device.
pub fn build_attribute_read_request(device_id: DeviceId, key: u16) -> (r: Request)
    ensures
        r.device_id == device_id,
        r.data == (RequestData::AttributeRead { key }),
{
    Frame::new(device_id, build_attribute_read_request_data(key))
}

/// The attribute write request of a device.
pub fn build_attribute_write_request(device_id: DeviceId, key: u16, value: u32) -> (r: Request)
    ensures
        r.device_id == device_id,
        r.data == (RequestData::AttributeWrite { key, value }),
{
    Frame::new(device_id, build_attribute_write_request_data(key, value))
}

/// The command request of an endpoint of a device; the payload holds at most 8 bytes.
pub fn build_command_request(device_id: DeviceId, endpoint: Endpoint, payload: Vec<u8>) -> (r:
    Request)
    requires
        payload@.len() <= 8,
    ensures
        r.device_id == device_id,
        r.data matches RequestData::Command { endpoint: e, payload: p } && e == endpoint && p@
            == payload@,
{
    Frame::new(device_id, build_command_request_data(endpoint, payload))
}

/// How a response relates to a query: whether it answers it, and whether it is an error.
#[derive(Debug, Clone, Copy)]
pub struct ResponseMatch {
    is_response: bool,
    is_error: bool,
}

impl View for ResponseMatch {
    type V = (bool, bool);

    closed spec fn view(&self) -> (bool, bool) {
        (self.is_response, self.is_error)
    }
}

impl ResponseMatch {
    /// Builds a match.
    pub fn new(is_response: bool, is_error: bool) -> (r: Self)
        ensures
            r@ == (is_response, is_error),
    {
        ResponseMatch { is_response, is_error }
    }

    /// Whether the response answers the query.
    pub fn is_response(&self) -> (r: bool)
        ensures
            r == self@.0,
    {
        self.is_response
    }

    /// Whether the response is an error.
    pub fn is_error(&self) -> (r: bool)
        ensures
            r == self@.1,
    {
        self.is_error
    }

    /// Whether the response answers the query without error.
    pub fn is_valid_response(&self) -> (r: bool)
        ensures
            r == (self@.0 && !self@.1),
    {
        self.is_response && !self.is_error
    }

    /// Whether the response answers the query with an error.
    pub fn is_response_error(&self) -> (r: bool)
        ensures
            r == (self@.0 && self@.1),
    {
        self.is_response && self.is_error
    }
}

/// How a response relates to a telemetry or command query of an endpoint:
/// a telemetry of that endpoint answers it, an error about that endpoint
/// answers it with an error, any other error is an error that does not answer it.
pub open spec fn spec_match_telemetry_query(query_endpoint: Endpoint, response: ResponseData) -> (
    bool,
    bool,
) {
    match response {
        ResponseData::Telemetry { endpoint, .. } => (query_endpoint == endpoint, false),
        ResponseData::Error { source: ErrorSource::Telemetry(endpoint, _), .. } => (
            query_endpoint == endpoint,
            true,
        ),
        ResponseData::Error { .. } => (false, true),
        ResponseData::Attribute { .. } => (false, false),
    }
}

/// How a response relates to an attribute query of `key`: a value of that
/// key answers it, an attribute error about that key (or about no key in
/// particular) answers it with an error, any other error is an error that
/// does not answer it.
pub open spec fn spec_match_attribute_query(key: u16, response: ResponseData) -> (bool, bool) {
    match response {
        ResponseData::Telemetry { .. } => (false, false),
        ResponseData::Attribute { key: response_key, .. } => (key == response_key, false),
        ResponseData::Error { source: ErrorSource::Attribute(err_key), .. } => (
            match err_key {
                Some(k) => key == k,
                None => true,
            },
            true,
        ),
        ResponseData::Error { .. } => (false, true),
    }
}

/// How `response` relates to `query`: nothing when the query addresses
/// another device than the one that responded (unless it is a broadcast),
/// otherwise by the kind of the query.
pub open spec fn spec_is_response_to(query: Request, response: Response) -> (bool, bool) {
    if !(query.device_id.class == 7 && query.device_id.sub_id == 7) && query.device_id
        != response.device_id {
        (false, false)
    } else {
        match query.data {
            RequestData::Command { endpoint, .. } => spec_match_telemetry_query(
                endpoint,
                response.data,
            ),
            RequestData::Telemetry { endpoint } => spec_match_telemetry_query(
                endpoint,
                response.data,
            ),
            RequestData::AttributeWrite { key, .. } => spec_match_attribute_query(
                key,
                response.data,
            ),
            RequestData::AttributeRead { key } => spec_match_attribute_query(key, response.data),
        }
    }
}

fn response_match_any_telemetry_query(query_endpoint: Endpoint, response: &Response) -> (r:
    ResponseMatch)
    ensures
        r@ == spec_match_telemetry_query(query_endpoint, response.data),
{
    let (is_response, is_error) = match &response.data {
        ResponseData::Telemetry { endpoint: response_endpoint, .. } => (
            query_endpoint == *response_endpoint,
            false,
        ),
        ResponseData::Error { source: ErrorSource::Telemetry(endpoint, _), .. } => (
            query_endpoint == *endpoint,
            true,
        ),
        ResponseData::Error { .. } => (false, true),
        ResponseData::Attribute { .. } => (false, false),
    };
    ResponseMatch::new(is_response, is_error)
}

fn response_match_any_attribute_query(key: u16, response: &Response) -> (r: ResponseMatch)
    ensures
        r@ == spec_match_attribute_query(key, response.data),
{
    let (is_response, is_error) = match &response.data {
        ResponseData::Telemetry { .. } => (false, false),
        ResponseData::Attribute { key: response_key, .. } => (key == *response_key, false),
        ResponseData::Error { source: ErrorSource::Attribute(err_key), .. } => (
            match err_key {
                Some(err_key) => key == *err_key,
                None => true,
            },
            true,
        ),
        ResponseData::Error { .. } => (false, true),
    };
    ResponseMatch::new(is_response, is_error)
}

/// How `response` relates to `query`.
pub fn is_response_to(query: &Request, response: &Response) -> (r: ResponseMatch)
    ensures
        r@ == spec_is_response_to(*query, *response),
{
    if !query.device_id.is_broadcast() && query.device_id != response.device_id {
        return ResponseMatch::new(false, false);
    }
    match &query.data {
        RequestData::Command { endpoint, .. } => response_match_any_telemetry_query(
            *endpoint,
            response,
        ),
        RequestData::Telemetry { endpoint } => response_match_any_telemetry_query(
            *endpoint,
            response,
        ),
        RequestData::AttributeWrite { key, .. } => response_match_any_attribute_query(
            *key,
            response,
        ),
        RequestData::AttributeRead { key } => response_match_any_attribute_query(*key, response),
    }
}

/// A response that answers a query comes from the queried device, or the
/// query was a broadcast; a telemetry never answers an attribute query and
/// an attribute value never answers a telemetry or command query.
pub proof fn lemma_response_match_consistent(query: Request, response: Response)
    ensures
        spec_is_response_to(query, response).0 ==> (query.device_id == response.device_id || (
        query.device_id.class == 7 && query.device_id.sub_id == 7)),
        (query.data is AttributeRead || query.data is AttributeWrite) && response.data is Telemetry
            ==> spec_is_response_to(query, response) == (false, false),
        (query.data is Telemetry || query.data is Command) && response.data is Attribute
            ==> spec_is_response_to(query, response) == (false, false),
{
}

/// How a response from the queried device (or any response to a broadcast)
/// answers a query: an attribute value answers an attribute read or write
/// exactly when its key is the queried key, and a telemetry answers a
/// telemetry or command query exactly when it comes from the queried endpoint;
/// neither is an error. An attribute error answers an attribute query, as an
/// error, when it names the queried key or no key.
pub proof fn lemma_response_answers_query(query: Request, response: Response)
    requires
        query.device_id == response.device_id || (query.device_id.class == 7
            && query.device_id.sub_id == 7),
    ensures
        query.data matches RequestData::AttributeRead { key } ==> (response.data matches ResponseData::Attribute { key: rk, .. }
            ==> spec_is_response_to(query, response) == (key == rk, false)),
        query.data matches RequestData::AttributeWrite { key, .. } ==> (response.data matches ResponseData::Attribute { key: rk, .. }
            ==> spec_is_response_to(query, response) == (key == rk, false)),
        query.data matches RequestData::Telemetry { endpoint } ==> (response.data matches ResponseData::Telemetry { endpoint: re, .. }
            ==> spec_is_response_to(query, response) == (endpoint == re, false)),
        query.data matches RequestData::Command { endpoint, .. } ==> (response.data matches ResponseData::Telemetry { endpoint: re, .. }
            ==> spec_is_response_to(query, response) == (endpoint == re, false)),
        query.data matches RequestData::AttributeRead { key } ==> (response.data matches ResponseData::Error { source: ErrorSource::Attribute(ek), .. }
            ==> spec_is_response_to(query, response) == (ek is None || ek == Some(key), true)),
        query.data matches RequestData::AttributeWrite { key, .. } ==> (response.data matches ResponseData::Error { source: ErrorSource::Attribute(ek), .. }
            ==> spec_is_response_to(query, response) == (ek is None || ek == Some(key), true)),
{
}

} // verus!
