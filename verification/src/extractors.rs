//! Reading the BRP port, method and parameters out of a tool call.

use vstd::prelude::*;
use crate::error::BrpMcpError;
use crate::json::{JsonData, JsonValue, count_data, entries_data, u64_of};
use crate::params::{CallToolRequest, argument, extract_any_value, extract_optional_number, extract_required_number, parameter_error};

verus! {

/// The default port of the Bevy Remote Protocol.
pub const DEFAULT_BRP_PORT: u16 = 15702;

/// Result of parameter extraction.
pub struct ExtractedParams {
    /// The method name for dynamic handlers, None for static.
    pub method: Option<String>,
    /// The extracted parameters.
    pub params: Option<JsonValue>,
    /// The BRP port to use.
    pub port: u16,
}

/// The port a call asks for: the default where absent; an error where the
/// value is no unsigned integer or does not fit in 16 bits.
pub open spec fn port_of(request: CallToolRequest) -> Result<u16, Seq<char>> {
    match argument(request, "port"@) {
        None => Ok(DEFAULT_BRP_PORT),
        Some(v) => match u64_of(v) {
            Some(n) => if n <= u16::MAX { Ok(n as u16) } else { Err("Port number must be a valid u16"@) },
            None => Err("Invalid parameter '"@ + "port"@ + "'"@),
        },
    }
}

/// Extracts and validates the port of a call.
pub fn extract_port(request: &CallToolRequest) -> (r: Result<u16, BrpMcpError>)
    ensures
        match r {
            Ok(p) => port_of(*request) == Ok::<u16, Seq<char>>(p),
            Err(e) => port_of(*request) matches Err(m) && parameter_error(e, m),
        },
{
    let value = match extract_optional_number(request, "port", DEFAULT_BRP_PORT as u64) {
        Ok(v) => v,
        Err(e) => return Err(e),
    };
    if value <= u16::MAX as u64 {
        Ok(value as u16)
    } else {
        Err(BrpMcpError::ParameterExtraction(String::from_str("Port number must be a valid u16")))
    }
}

/// Extracts only the port.
pub struct SimplePortExtractor;

impl SimplePortExtractor {
    pub fn extract(&self, request: &CallToolRequest) -> (r: Result<ExtractedParams, BrpMcpError>)
        ensures
            match r {
                Ok(p) => port_of(*request) == Ok::<u16, Seq<char>>(p.port) && p.method is None && p.params is None,
                Err(e) => port_of(*request) matches Err(m) && parameter_error(e, m),
            },
    {
        let port = match extract_port(request) {
            Ok(p) => p,
            Err(e) => return Err(e),
        };
        Ok(ExtractedParams { method: None, params: None, port })
    }
}

/// Extracts the port and passes all arguments through as the parameters.
pub struct PassthroughExtractor;

impl PassthroughExtractor {
    pub fn extract(&self, request: &CallToolRequest) -> (r: Result<ExtractedParams, BrpMcpError>)
        ensures
            match r {
                Ok(p) => port_of(*request) == Ok::<u16, Seq<char>>(p.port) && p.method is None
                    && match request.arguments {
                        Some(m) => p.params matches Some(v) && v.data() == JsonData::Object(entries_data(m@)),
                        None => p.params is None,
                    },
                Err(e) => port_of(*request) matches Err(m) && parameter_error(e, m),
            },
    {
        let port = match extract_port(request) {
            Ok(p) => p,
            Err(e) => return Err(e),
        };
        let params = match &request.arguments {
            Some(m) => {
                Some(JsonValue::Object(crate::json::copy_entries(m)))
            },
            None => None,
        };
        Ok(ExtractedParams { method: None, params, port })
    }
}

/// Extracts the port and the entity of entity operations.
pub struct EntityParamExtractor {
    /// Whether entity is required.
    pub required: bool,
}

/// The parameters `{"entity": id}`.
pub open spec fn entity_params(id: nat) -> JsonData {
    JsonData::Object(seq![("entity"@, count_data(id))])
}

fn entity_object(id: u64) -> (r: JsonValue)
    ensures
        r.data() == entity_params(id as nat),
{
    let mut m: Vec<(String, JsonValue)> = Vec::new();
    let v = JsonValue::from_count(id as u128);
    let ghost vd = v.data();
    m.push((String::from_str("entity"), v));
    proof {
        crate::json::lemma_entries_data(m@);
        assert(entries_data(m@) =~= seq![("entity"@, vd)]);
    }
    JsonValue::Object(m)
}

impl EntityParamExtractor {
    pub fn extract(&self, request: &CallToolRequest) -> (r: Result<ExtractedParams, BrpMcpError>)
        ensures
            match r {
                Ok(p) => port_of(*request) == Ok::<u16, Seq<char>>(p.port) && p.method is None
                    && match argument(*request, "entity"@) {
                        Some(v) if u64_of(v) is Some => p.params matches Some(q)
                            && q.data() == entity_params(u64_of(v)->Some_0),
                        _ => !self.required && p.params is None,
                    },
                Err(e) => (port_of(*request) matches Err(m) && parameter_error(e, m))
                    || (port_of(*request) is Ok && self.required
                        && !(argument(*request, "entity"@) matches Some(v) && u64_of(v) is Some)
                        && parameter_error(e, "Missing required parameter: "@ + "entity"@)),
            },
    {
        let port = match extract_port(request) {
            Ok(p) => p,
            Err(e) => return Err(e),
        };
        let params = if self.required {
            let entity = match extract_required_number(request, "entity") {
                Ok(n) => n,
                Err(e) => return Err(e),
            };
            Some(entity_object(entity))
        } else {
            match extract_any_value(request, "entity") {
                Some(v) => match v.as_u64() {
                    Some(id) => Some(entity_object(id)),
                    None => None,
                },
                None => None,
            }
        };
        Ok(ExtractedParams { method: None, params, port })
    }
}

/// The extractor of `brp_execute` calls, whose arguments name the method.
pub struct BrpExecuteExtractor;

} // verus!
