//! The JSON reply that every tool sends, and how it is put together.

use vstd::prelude::*;
use crate::debug_mode::ResponseStatus;
use crate::json::{JsonData, JsonValue, count_data, entries_data, insert_entry, lemma_entries_data, object_insert, values_data};
use crate::text::{decimal, push_decimal};

verus! {

pub const JSON_FIELD_DATA: &'static str = "data";
pub const JSON_FIELD_DEBUG_INFO: &'static str = "debug_info";
pub const JSON_FIELD_FORMAT_CORRECTIONS: &'static str = "format_corrections";
pub const JSON_FIELD_ORIGINAL_ERROR: &'static str = "original_error";
pub const JSON_FIELD_ERROR_CODE: &'static str = "error_code";
pub const JSON_FIELD_METADATA: &'static str = "metadata";
pub const JSON_FIELD_METHOD: &'static str = "method";
pub const JSON_FIELD_PORT: &'static str = "port";
pub const JSON_FIELD_CODE: &'static str = "code";

/// The standard reply of every tool.
pub struct JsonResponse {
    pub status: ResponseStatus,
    pub message: String,
    pub data: Option<JsonValue>,
    pub brp_mcp_debug_info: Option<JsonValue>,
    pub brp_extras_debug_info: Option<JsonValue>,
}

/// The mathematical form of an optional value.
pub open spec fn opt_data(v: Option<JsonValue>) -> Option<JsonData> {
    match v {
        Some(x) => Some(x.data()),
        None => None,
    }
}

/// The mathematical form of a reply: status, message, data and the two
/// kinds of debug information.
pub open spec fn response_data(r: JsonResponse) -> (ResponseStatus, Seq<char>, Option<JsonData>, Option<JsonData>, Option<JsonData>) {
    (r.status, r.message@, opt_data(r.data), opt_data(r.brp_mcp_debug_info), opt_data(r.brp_extras_debug_info))
}

/// Builds a reply step by step.
pub struct ResponseBuilder {
    pub status: ResponseStatus,
    pub message: String,
    pub data: Option<JsonValue>,
    pub brp_mcp_debug_info: Option<JsonValue>,
    pub brp_extras_debug_info: Option<JsonValue>,
}

/// The mathematical form of a builder, as that of the reply it builds.
pub open spec fn builder_data(b: ResponseBuilder) -> (ResponseStatus, Seq<char>, Option<JsonData>, Option<JsonData>, Option<JsonData>) {
    (b.status, b.message@, opt_data(b.data), opt_data(b.brp_mcp_debug_info), opt_data(b.brp_extras_debug_info))
}

/// The data after a field is added: set in the data object, or a new object
/// holding only the field where the data is no object.
pub open spec fn with_field(data: Option<JsonData>, key: Seq<char>, v: JsonData) -> Option<JsonData> {
    match data {
        Some(JsonData::Object(s)) => Some(JsonData::Object(insert_entry(s, key, v))),
        _ => Some(JsonData::Object(seq![(key, v)])),
    }
}

impl ResponseBuilder {
    /// A builder of a success reply with an empty message.
    pub fn success() -> (r: ResponseBuilder)
        ensures
            builder_data(r) == (ResponseStatus::Success, Seq::<char>::empty(), None::<JsonData>, None::<JsonData>, None::<JsonData>),
    {
        ResponseBuilder { status: ResponseStatus::Success, message: String::new(), data: None, brp_mcp_debug_info: None, brp_extras_debug_info: None }
    }

    /// A builder of an error reply with an empty message.
    pub fn error() -> (r: ResponseBuilder)
        ensures
            builder_data(r) == (ResponseStatus::Error, Seq::<char>::empty(), None::<JsonData>, None::<JsonData>, None::<JsonData>),
    {
        ResponseBuilder { status: ResponseStatus::Error, message: String::new(), data: None, brp_mcp_debug_info: None, brp_extras_debug_info: None }
    }

    /// Sets the message.
    pub fn message(self, message: String) -> (r: ResponseBuilder)
        ensures
            builder_data(r) == (self.status, message@, opt_data(self.data), opt_data(self.brp_mcp_debug_info), opt_data(self.brp_extras_debug_info)),
    {
        ResponseBuilder { message, ..self }
    }

    /// Sets the data.
    pub fn data(self, data: JsonValue) -> (r: ResponseBuilder)
        ensures
            builder_data(r) == (self.status, self.message@, Some(data.data()), opt_data(self.brp_mcp_debug_info), opt_data(self.brp_extras_debug_info)),
    {
        ResponseBuilder { data: Some(data), ..self }
    }

    /// Adds a field to the data object, making one where there is none.
    pub fn add_field(self, key: &str, value: JsonValue) -> (r: ResponseBuilder)
        ensures
            builder_data(r) == (self.status, self.message@, with_field(opt_data(self.data), key@, value.data()),
                opt_data(self.brp_mcp_debug_info), opt_data(self.brp_extras_debug_info)),
    {
        let ResponseBuilder { status, message, data, brp_mcp_debug_info, brp_extras_debug_info } = self;
        let ghost vd = value.data();
        let new_data = match data {
            Some(JsonValue::Object(mut m)) => {
                object_insert(&mut m, String::from_str(key), value);
                JsonValue::Object(m)
            },
            _ => {
                let mut m: Vec<(String, JsonValue)> = Vec::new();
                m.push((String::from_str(key), value));
                proof {
                    lemma_entries_data(m@);
                    assert(entries_data(m@) =~= seq![(key@, vd)]);
                }
                JsonValue::Object(m)
            },
        };
        ResponseBuilder { status, message, data: Some(new_data), brp_mcp_debug_info, brp_extras_debug_info }
    }

    /// Puts the debug information given into the reply where debug mode is
    /// on; leaves the builder as it is where it is off.
    pub fn auto_inject_debug_info(self, debug_enabled: bool, brp_mcp_debug: Option<JsonValue>, brp_extras_debug: Option<JsonValue>) -> (r: ResponseBuilder)
        ensures
            builder_data(r) == if !debug_enabled {
                builder_data(self)
            } else {
                (self.status, self.message@, opt_data(self.data),
                    if brp_mcp_debug is Some { opt_data(brp_mcp_debug) } else { opt_data(self.brp_mcp_debug_info) },
                    if brp_extras_debug is Some { opt_data(brp_extras_debug) } else { opt_data(self.brp_extras_debug_info) })
            },
    {
        if !debug_enabled {
            return self;
        }
        let ResponseBuilder { status, message, data, brp_mcp_debug_info, brp_extras_debug_info } = self;
        let mcp = match brp_mcp_debug {
            Some(d) => Some(d),
            None => brp_mcp_debug_info,
        };
        let extras = match brp_extras_debug {
            Some(d) => Some(d),
            None => brp_extras_debug_info,
        };
        ResponseBuilder { status, message, data, brp_mcp_debug_info: mcp, brp_extras_debug_info: extras }
    }

    /// The reply built.
    pub fn build(self) -> (r: JsonResponse)
        ensures
            response_data(r) == builder_data(self),
    {
        JsonResponse {
            status: self.status,
            message: self.message,
            data: self.data,
            brp_mcp_debug_info: self.brp_mcp_debug_info,
            brp_extras_debug_info: self.brp_extras_debug_info,
        }
    }
}

/// The reply that lists what was found: `Found {n} {noun}`, with the items
/// under `member` and their count.
pub fn listing_response(member: &str, noun: &str, items: Vec<JsonValue>) -> (r: JsonResponse)
    ensures
        response_data(r) == (ResponseStatus::Success, "Found "@ + decimal(items@.len()) + " "@ + noun@,
            with_field(with_field(None, member@, JsonData::Array(values_data(items@))), "count"@, count_data(items@.len())),
            None::<JsonData>, None::<JsonData>),
{
    let count = items.len();
    let mut m = String::from_str("Found ");
    push_decimal(&mut m, count as u64);
    m.append(" ");
    m.append(noun);
    ResponseBuilder::success()
        .message(m)
        .add_field(member, JsonValue::Array(items))
        .add_field("count", JsonValue::from_count(count as u128))
        .build()
}

} // verus!
