//! The JSON-RPC requests sent to a Bevy app, and how its replies are read.

use vstd::prelude::*;
use crate::detection::BrpError;
use crate::json::{JsonData, JsonValue, count_data, lemma_entries_data, entries_data, insert_entry, object_insert, signed_data};
use crate::response::{JSON_FIELD_DATA, JSON_FIELD_ERROR_CODE, JSON_FIELD_METADATA};
use crate::response_formatter::{BrpMetadata, ResponseFormatter};
use crate::response::opt_data;
use crate::text::{chars_of, starts_with_chars};

verus! {

/// The JSON-RPC protocol version sent in every request.
pub const JSONRPC_VERSION: &'static str = "2.0";
/// The request id sent in every request.
pub const JSONRPC_DEFAULT_ID: u64 = 1;
/// The prefix of the methods of the `bevy_brp_extras` plugin.
pub const BRP_EXTRAS_PREFIX: &'static str = "brp_extras/";
/// The JSON-RPC code of a method the server does not know.
pub const METHOD_NOT_FOUND_CODE: i32 = -32601;

/// Result of a BRP operation.
pub enum BrpResult {
    /// Successful operation with optional data.
    Success(Option<JsonValue>),
    /// Error with code, message and optional data.
    Error(BrpError),
}

/// The JSON-RPC request for `method` with `params` (`null` where there are
/// none) and `id`; its members in key order.
pub open spec fn rpc_request(method: Seq<char>, params: Option<JsonData>, id: nat) -> JsonData {
    JsonData::Object(seq![
        ("id"@, count_data(id)),
        ("jsonrpc"@, JsonData::Str(JSONRPC_VERSION@)),
        ("method"@, JsonData::Str(method)),
        ("params"@, params_or_null(params)),
    ])
}

/// The params of a request, `null` where there are none.
pub open spec fn params_or_null(params: Option<JsonData>) -> JsonData {
    match params {
        Some(p) => p,
        None => JsonData::Null,
    }
}

/// Builder for raw JSON-RPC 2.0 requests.
pub struct BrpJsonRpcBuilder {
    pub method: String,
    pub params: Option<JsonValue>,
    pub id: u64,
}

impl BrpJsonRpcBuilder {
    /// A request for `method`, with no params and the default id.
    pub fn new(method: String) -> (r: BrpJsonRpcBuilder)
        ensures
            r.method@ == method@,
            r.params is None,
            r.id == JSONRPC_DEFAULT_ID,
    {
        BrpJsonRpcBuilder { method, params: None, id: JSONRPC_DEFAULT_ID }
    }

    /// Sets the raw params.
    pub fn params(self, params: JsonValue) -> (r: BrpJsonRpcBuilder)
        ensures
            r.method@ == self.method@,
            r.params == Some(params),
            r.id == self.id,
    {
        BrpJsonRpcBuilder { method: self.method, params: Some(params), id: self.id }
    }

    /// The JSON-RPC request.
    pub fn build(self) -> (r: JsonValue)
        ensures
            r.data() == rpc_request(self.method@, opt_data(self.params), self.id as nat),
    {
        let ghost pd = opt_data(self.params);
        let ghost md = self.method@;
        let params = match self.params {
            Some(p) => p,
            None => JsonValue::Null,
        };
        let ghost p = params.data();
        assert(p == params_or_null(pd));
        let id = JsonValue::from_count(self.id as u128);
        let entries = vec![
            (String::from_str("id"), id),
            (String::from_str("jsonrpc"), JsonValue::String(String::from_str(JSONRPC_VERSION))),
            (String::from_str("method"), JsonValue::String(self.method)),
            (String::from_str("params"), params),
        ];
        proof {
            lemma_entries_data(entries@);
            reveal_strlit("id");
            reveal_strlit("jsonrpc");
            reveal_strlit("method");
            reveal_strlit("params");
            assert(entries_data(entries@) =~= seq![
                ("id"@, count_data(self.id as nat)),
                ("jsonrpc"@, JsonData::Str(JSONRPC_VERSION@)),
                ("method"@, JsonData::Str(md)),
                ("params"@, p),
            ]);
        }
        let r = JsonValue::Object(entries);
        assert(r.data() == JsonData::Object(entries_data(entries@)));
        r
    }
}

/// The message of an error reply: for a method of `bevy_brp_extras` that the
/// app does not know, it says that the plugin is needed.
pub open spec fn reply_message(method: Seq<char>, code: i32, message: Seq<char>) -> Seq<char> {
    if code == METHOD_NOT_FOUND_CODE && BRP_EXTRAS_PREFIX@.len() <= method.len()
        && method.subrange(0, BRP_EXTRAS_PREFIX@.len() as int) == BRP_EXTRAS_PREFIX@ {
        message + ". This method requires the bevy_brp_extras crate to be added to your Bevy app with the BrpExtrasPlugin"@
    } else {
        message
    }
}

/// Reads a JSON-RPC reply to `method`: its error where it holds one, else
/// its result.
pub fn brp_result_from_reply(method: &str, result: Option<JsonValue>, error: Option<BrpError>) -> (r: BrpResult)
    ensures
        match error {
            Some(e) => r matches BrpResult::Error(x) && x.code == e.code
                && x.message@ == reply_message(method@, e.code, e.message@) && x.data == e.data,
            None => r == BrpResult::Success(result),
        },
{
    match error {
        Some(e) => {
            let mc = chars_of(method);
            let pc = chars_of(BRP_EXTRAS_PREFIX);
            let message = if e.code == METHOD_NOT_FOUND_CODE && starts_with_chars(mc.as_slice(), pc.as_slice()) {
                let mut m = e.message;
                m.append(". This method requires the bevy_brp_extras crate to be added to your Bevy app with the BrpExtrasPlugin");
                m
            } else {
                e.message
            };
            BrpResult::Error(BrpError { code: e.code, message, data: e.data })
        },
        None => BrpResult::Success(result),
    }
}

/// The parameters of a call of `brp_execute`.
pub struct BrpExecuteParams {
    pub method: String,
    pub params: Option<JsonValue>,
    pub port: u16,
}

/// Builds the parameters of a call of `brp_execute`.
pub struct BrpRequestBuilder {
    pub method: String,
    pub params: Option<JsonValue>,
    pub port: u16,
}

impl BrpRequestBuilder {
    /// A request for `method`, with no params, on the default port.
    pub fn new(method: String) -> (r: BrpRequestBuilder)
        ensures
            r.method@ == method@,
            r.params is None,
            r.port == crate::extractors::DEFAULT_BRP_PORT,
    {
        BrpRequestBuilder { method, params: None, port: crate::extractors::DEFAULT_BRP_PORT }
    }

    /// Sets the port.
    pub fn port(self, port: u16) -> (r: BrpRequestBuilder)
        ensures
            r.method == self.method,
            r.params == self.params,
            r.port == port,
    {
        BrpRequestBuilder { method: self.method, params: self.params, port }
    }

    /// The parameters built.
    pub fn build(self) -> (r: BrpExecuteParams)
        ensures
            r.method == self.method,
            r.params == self.params,
            r.port == self.port,
    {
        BrpExecuteParams { method: self.method, params: self.params, port: self.port }
    }
}

/// Builds a plain BRP reply object.
pub struct BrpResponseBuilder {
    pub status: &'static str,
    pub message: String,
    pub data: Option<JsonValue>,
    pub error_code: Option<i64>,
    pub metadata: Option<JsonValue>,
}

/// The reply object a builder makes: status and message, then the data,
/// the error code and the metadata where they are set.
pub open spec fn brp_reply(status: Seq<char>, message: Seq<char>, data: Option<JsonData>, code: Option<i64>, metadata: Option<JsonData>) -> JsonData {
    let base = seq![("message"@, JsonData::Str(message)), ("status"@, JsonData::Str(status))];
    let with_data = match data { Some(d) => insert_entry(base, JSON_FIELD_DATA@, d), None => base };
    let with_code = match code { Some(c) => insert_entry(with_data, JSON_FIELD_ERROR_CODE@, signed_data(c)), None => with_data };
    let with_meta = match metadata { Some(m) => insert_entry(with_code, JSON_FIELD_METADATA@, m), None => with_code };
    JsonData::Object(with_meta)
}

impl BrpResponseBuilder {
    /// A success reply with a message.
    pub fn success(message: String) -> (r: BrpResponseBuilder)
        ensures
            r.status@ == "success"@,
            r.message@ == message@,
            r.data is None && r.error_code is None && r.metadata is None,
    {
        BrpResponseBuilder { status: "success", message, data: None, error_code: None, metadata: None }
    }

    /// An error reply with a message.
    pub fn error(message: String) -> (r: BrpResponseBuilder)
        ensures
            r.status@ == "error"@,
            r.message@ == message@,
            r.data is None && r.error_code is None && r.metadata is None,
    {
        BrpResponseBuilder { status: "error", message, data: None, error_code: None, metadata: None }
    }

    /// Sets the data.
    pub fn data(self, data: JsonValue) -> (r: BrpResponseBuilder)
        ensures
            r.status == self.status && r.message == self.message && r.error_code == self.error_code
                && r.metadata == self.metadata && r.data == Some(data),
    {
        BrpResponseBuilder { data: Some(data), ..self }
    }

    /// Sets the error code.
    pub fn error_code(self, code: i64) -> (r: BrpResponseBuilder)
        ensures
            r.status == self.status && r.message == self.message && r.data == self.data
                && r.metadata == self.metadata && r.error_code == Some(code),
    {
        BrpResponseBuilder { error_code: Some(code), ..self }
    }

    /// Sets the metadata.
    pub fn metadata(self, metadata: JsonValue) -> (r: BrpResponseBuilder)
        ensures
            r.status == self.status && r.message == self.message && r.data == self.data
                && r.error_code == self.error_code && r.metadata == Some(metadata),
    {
        BrpResponseBuilder { metadata: Some(metadata), ..self }
    }

    /// The reply object.
    pub fn build(self) -> (r: JsonValue)
        ensures
            r.data() == brp_reply(self.status@, self.message@, opt_data(self.data), self.error_code, opt_data(self.metadata)),
    {
        let ghost (sd, md) = (self.status@, self.message@);
        let mut m = vec![
            (String::from_str("message"), JsonValue::String(self.message)),
            (String::from_str("status"), JsonValue::String(String::from_str(self.status))),
        ];
        proof {
            lemma_entries_data(m@);
            assert(entries_data(m@) =~= seq![("message"@, JsonData::Str(md)), ("status"@, JsonData::Str(sd))]);
        }
        match self.data {
            Some(d) => object_insert(&mut m, String::from_str(JSON_FIELD_DATA), d),
            None => {},
        }
        match self.error_code {
            Some(c) => object_insert(&mut m, String::from_str(JSON_FIELD_ERROR_CODE), JsonValue::from_i64(c)),
            None => {},
        }
        match self.metadata {
            Some(x) => object_insert(&mut m, String::from_str(JSON_FIELD_METADATA), x),
            None => {},
        }
        JsonValue::Object(m)
    }
}

/// Formats the result of a BRP request: its data (`null` where there is
/// none) as a success, or its error.
pub fn process_brp_response(brp_result: BrpResult, formatter: &ResponseFormatter, metadata: BrpMetadata, debug_enabled: bool) -> (r: crate::response::JsonResponse)
    ensures
        match brp_result {
            BrpResult::Success(d) => crate::response::response_data(r) == crate::response_formatter::success_reply(
                match formatter.config.success_template { Some(t) => Some(t@), None => None },
                crate::response_formatter::fields_data(formatter.config.success_fields@), formatter.context,
                match opt_data(d) { Some(x) => x, None => JsonData::Null }, debug_enabled),
            BrpResult::Error(e) => crate::response::response_data(r) == crate::response_formatter::formatted_error(
                formatter.config.use_default_error, crate::response_formatter::fields_data(formatter.config.error_metadata_fields@),
                e.code, e.message@, opt_data(e.data), metadata.method@, metadata.port, formatter.context, debug_enabled),
        },
{
    match brp_result {
        BrpResult::Success(data) => {
            let response_data = match data {
                Some(d) => d,
                None => JsonValue::Null,
            };
            formatter.format_success(&response_data, metadata, debug_enabled)
        },
        BrpResult::Error(error_info) => formatter.format_error(error_info, &metadata, debug_enabled),
    }
}

} // verus!
