//! Reading the arguments of a tool call.

use vstd::prelude::*;
use crate::error::{BrpMcpError, ErrorKind};
use crate::json::{JsonData, JsonValue, entries_data, field_of, lemma_values_data, lookup, object_get, u64_of, values_data};
use crate::text::texts_of;

verus! {

/// A tool call: the tool's name and its arguments, an object when given.
pub struct CallToolRequest {
    pub name: String,
    pub arguments: Option<Vec<(String, JsonValue)>>,
}

/// The argument `name` of a call.
pub open spec fn argument(request: CallToolRequest, name: Seq<char>) -> Option<JsonData> {
    match request.arguments {
        Some(m) => lookup(entries_data(m@), name),
        None => None,
    }
}

/// An error of parameter extraction carrying `message`.
pub open spec fn parameter_error(e: BrpMcpError, message: Seq<char>) -> bool {
    e.kind() == ErrorKind::ParameterExtraction && e.detail() == message
}

/// Extracts any value parameter from the request.
pub fn extract_any_value<'a>(request: &'a CallToolRequest, param_name: &str) -> (r: Option<&'a JsonValue>)
    ensures
        match r {
            Some(v) => argument(*request, param_name@) == Some(v.data()),
            None => argument(*request, param_name@) is None,
        },
{
    match &request.arguments {
        Some(m) => object_get(m, param_name),
        None => None,
    }
}

fn missing_parameter(param_name: &str) -> (e: BrpMcpError)
    ensures
        parameter_error(e, "Missing required parameter: "@ + param_name@),
{
    let mut m = String::from_str("Missing required parameter: ");
    m.append(param_name);
    BrpMcpError::ParameterExtraction(m)
}

fn invalid_parameter(param_name: &str) -> (e: BrpMcpError)
    ensures
        parameter_error(e, "Invalid parameter '"@ + param_name@ + "'"@),
{
    let mut m = String::from_str("Invalid parameter '");
    m.append(param_name);
    m.append("'");
    BrpMcpError::ParameterExtraction(m)
}

/// Extracts a required string parameter.
pub fn extract_required_string<'a>(request: &'a CallToolRequest, param_name: &str) -> (r: Result<&'a str, BrpMcpError>)
    ensures
        match r {
            Ok(s) => argument(*request, param_name@) == Some(JsonData::Str(s@)),
            Err(e) => !(argument(*request, param_name@) matches Some(JsonData::Str(_)))
                && parameter_error(e, "Missing required parameter: "@ + param_name@),
        },
{
    match extract_any_value(request, param_name) {
        Some(v) => match v.as_str() {
            Some(s) => Ok(s),
            None => Err(missing_parameter(param_name)),
        },
        None => Err(missing_parameter(param_name)),
    }
}

/// Extracts an optional string parameter, with a default.
pub fn extract_optional_string<'a>(request: &'a CallToolRequest, param_name: &str, default: &'a str) -> (r: &'a str)
    ensures
        r@ == match argument(*request, param_name@) {
            Some(JsonData::Str(s)) => s,
            _ => default@,
        },
{
    match extract_any_value(request, param_name) {
        Some(v) => match v.as_str() {
            Some(s) => s,
            None => default,
        },
        None => default,
    }
}

/// Extracts an optional number parameter, with a default; a given value
/// that is no unsigned integer is an error.
pub fn extract_optional_number(request: &CallToolRequest, param_name: &str, default: u64) -> (r: Result<u64, BrpMcpError>)
    ensures
        match argument(*request, param_name@) {
            None => r == Ok::<u64, BrpMcpError>(default),
            Some(v) => match u64_of(v) {
                Some(n) => r == Ok::<u64, BrpMcpError>(n as u64),
                None => r matches Err(e) && parameter_error(e, "Invalid parameter '"@ + param_name@ + "'"@),
            },
        },
{
    match extract_any_value(request, param_name) {
        None => Ok(default),
        Some(v) => match v.as_u64() {
            Some(n) => Ok(n),
            None => Err(invalid_parameter(param_name)),
        },
    }
}

/// Extracts an optional `u32` parameter, with a default.
pub fn extract_optional_u32(request: &CallToolRequest, param_name: &str, default: u32) -> (r: Result<u32, BrpMcpError>)
    ensures
        match argument(*request, param_name@) {
            None => r == Ok::<u32, BrpMcpError>(default),
            Some(v) => match u64_of(v) {
                Some(n) => if n <= u32::MAX {
                    r == Ok::<u32, BrpMcpError>(n as u32)
                } else {
                    r matches Err(e) && parameter_error(e, "Invalid parameter '"@ + param_name@ + "'"@)
                },
                None => r matches Err(e) && parameter_error(e, "Invalid parameter '"@ + param_name@ + "'"@),
            },
        },
{
    let value = match extract_optional_number(request, param_name, default as u64) {
        Ok(v) => v,
        Err(e) => return Err(e),
    };
    if value <= u32::MAX as u64 {
        Ok(value as u32)
    } else {
        Err(invalid_parameter(param_name))
    }
}

/// Extracts an optional port: absent gives `None`; a given value must be a
/// number from 1024 to 65535.
pub fn extract_optional_u16_from_request(request: &CallToolRequest, param_name: &str) -> (r: Result<Option<u16>, BrpMcpError>)
    ensures
        match argument(*request, param_name@) {
            None => r == Ok::<Option<u16>, BrpMcpError>(None),
            Some(v) => match u64_of(v) {
                Some(n) => if 1024 <= n <= u16::MAX {
                    r == Ok::<Option<u16>, BrpMcpError>(Some(n as u16))
                } else {
                    r matches Err(e) && parameter_error(e, "Invalid parameter '"@ + param_name@ + "'"@)
                },
                None => r matches Err(e) && parameter_error(e, "Invalid parameter '"@ + param_name@ + "'"@),
            },
        },
{
    match extract_any_value(request, param_name) {
        Some(v) => {
            let value = match v.as_u64() {
                Some(n) => n,
                None => return Err(invalid_parameter(param_name)),
            };
            if value > u16::MAX as u64 {
                return Err(invalid_parameter(param_name));
            }
            let port = value as u16;
            if port < 1024 {
                return Err(invalid_parameter(param_name));
            }
            Ok(Some(port))
        },
        None => Ok(None),
    }
}

/// Extracts a required number parameter.
pub fn extract_required_number(request: &CallToolRequest, param_name: &str) -> (r: Result<u64, BrpMcpError>)
    ensures
        match argument(*request, param_name@) {
            Some(v) if u64_of(v) is Some => r == Ok::<u64, BrpMcpError>(u64_of(v)->Some_0 as u64),
            _ => r matches Err(e) && parameter_error(e, "Missing required parameter: "@ + param_name@),
        },
{
    match extract_any_value(request, param_name) {
        Some(v) => match v.as_u64() {
            Some(n) => Ok(n),
            None => Err(missing_parameter(param_name)),
        },
        None => Err(missing_parameter(param_name)),
    }
}

/// The texts among array elements, where all elements are strings.
pub open spec fn all_strings(items: Seq<JsonData>) -> Option<Seq<Seq<char>>>
    decreases items.len(),
{
    if items.len() == 0 {
        Some(Seq::empty())
    } else {
        match (all_strings(items.drop_last()), items.last()) {
            (Some(prev), JsonData::Str(t)) => Some(prev.push(t)),
            _ => None,
        }
    }
}

proof fn lemma_all_strings_fail(items: Seq<JsonData>, k: int)
    requires
        0 < k <= items.len(),
        all_strings(items.subrange(0, k)) is None,
    ensures
        all_strings(items) is None,
    decreases items.len() - k,
{
    if k < items.len() {
        assert(items.subrange(0, k + 1).drop_last() =~= items.subrange(0, k));
        lemma_all_strings_fail(items, k + 1);
    } else {
        assert(items.subrange(0, k) =~= items);
    }
}

/// Extracts an optional array of strings: absent gives `None`; a value that
/// is not an array, or an element that is no string, is an error.
pub fn extract_optional_string_array_from_request(request: &CallToolRequest, param_name: &str) -> (r: Result<Option<Vec<String>>, BrpMcpError>)
    ensures
        match argument(*request, param_name@) {
            None => r matches Ok(None),
            Some(JsonData::Array(items)) => match all_strings(items) {
                Some(texts) => r matches Ok(Some(v)) && texts_of(v@) == texts,
                None => r matches Err(e) && parameter_error(e, "Invalid item in '"@ + param_name@ + "' array"@),
            },
            Some(_) => r matches Err(e) && parameter_error(e, "Invalid parameter '"@ + param_name@ + "'"@),
        },
{
    match extract_any_value(request, param_name) {
        None => Ok(None),
        Some(JsonValue::Array(items)) => {
            proof { lemma_values_data(items@); }
            let mut out: Vec<String> = Vec::new();
            let mut i: usize = 0;
            while i < items.len()
                invariant
                    argument(*request, param_name@) == Some(JsonData::Array(values_data(items@))),
                    i <= items.len(),
                    values_data(items@).len() == items@.len(),
                    forall|j: int| 0 <= j < items@.len() ==> #[trigger] values_data(items@)[j] == items@[j].data(),
                    all_strings(values_data(items@).subrange(0, i as int)) == Some(texts_of(out@)),
                decreases items.len() - i,
            {
                let ghost pre = values_data(items@).subrange(0, i + 1);
                assert(pre.drop_last() =~= values_data(items@).subrange(0, i as int));
                match &items[i] {
                    JsonValue::String(s) => {
                        let ghost before = out@;
                        out.push(s.clone());
                        assert(texts_of(out@) =~= texts_of(before).push(s@));
                    },
                    _ => {
                        proof { lemma_all_strings_fail(values_data(items@), i + 1); }
                        let mut m = String::from_str("Invalid item in '");
                        m.append(param_name);
                        m.append("' array");
                        return Err(BrpMcpError::ParameterExtraction(m));
                    },
                }
                i += 1;
            }
            assert(values_data(items@).subrange(0, items.len() as int) =~= values_data(items@));
            Ok(Some(out))
        },
        Some(_) => Err(invalid_parameter(param_name)),
    }
}

/// Extracts the optional workspace parameter: `None` where absent or empty.
pub fn extract_optional_workspace(request: &CallToolRequest) -> (r: Option<String>)
    ensures
        match argument(*request, "workspace"@) {
            Some(JsonData::Str(s)) if s.len() > 0 => r matches Some(w) && w@ == s,
            _ => r is None,
        },
{
    let workspace = extract_optional_string(request, "workspace", "");
    proof { reveal_strlit(""); }
    if workspace.unicode_len() == 0 {
        None
    } else {
        Some(String::from_str(workspace))
    }
}

/// The member `name` of an arguments value (`null` where it has none).
pub open spec fn member_of(arguments: JsonData, name: Seq<char>) -> JsonData {
    match field_of(arguments, name) {
        Some(v) => v,
        None => JsonData::Null,
    }
}

/// Extracts a required `u64` from an arguments value.
pub fn extract_required_u64(arguments: &JsonValue, field_name: &str, field_description: &str) -> (r: Result<u64, BrpMcpError>)
    ensures
        match u64_of(member_of(arguments.data(), field_name@)) {
            Some(n) => r == Ok::<u64, BrpMcpError>(n as u64),
            None => r matches Err(e) && parameter_error(e, "Missing "@ + field_description@ + " parameter"@),
        },
{
    let found = match arguments.get(field_name) {
        Some(v) => v.as_u64(),
        None => None,
    };
    match found {
        Some(n) => Ok(n),
        None => {
            let mut m = String::from_str("Missing ");
            m.append(field_description);
            m.append(" parameter");
            Err(BrpMcpError::ParameterExtraction(m))
        },
    }
}

/// Extracts a required `u32` from an arguments value.
pub fn extract_required_u32(arguments: &JsonValue, field_name: &str, field_description: &str) -> (r: Result<u32, BrpMcpError>)
    ensures
        match u64_of(member_of(arguments.data(), field_name@)) {
            Some(n) => if n <= u32::MAX {
                r == Ok::<u32, BrpMcpError>(n as u32)
            } else {
                r matches Err(e) && parameter_error(e, "Invalid "@ + field_description@ + " value"@)
            },
            None => r matches Err(e) && parameter_error(e, "Missing "@ + field_description@ + " parameter"@),
        },
{
    let n = match extract_required_u64(arguments, field_name, field_description) {
        Ok(n) => n,
        Err(e) => return Err(e),
    };
    if n <= u32::MAX as u64 {
        Ok(n as u32)
    } else {
        let mut m = String::from_str("Invalid ");
        m.append(field_description);
        m.append(" value");
        Err(BrpMcpError::ParameterExtraction(m))
    }
}

/// Extracts an optional `u16` from an arguments value, with a default for
/// values that are absent or do not fit.
pub fn extract_optional_u16(arguments: &JsonValue, field_name: &str, default_value: u16) -> (r: u16)
    ensures
        r == match u64_of(member_of(arguments.data(), field_name@)) {
            Some(n) => if n <= u16::MAX { n as u16 } else { default_value },
            None => default_value,
        },
{
    let found = match arguments.get(field_name) {
        Some(v) => v.as_u64(),
        None => None,
    };
    match found {
        Some(n) => if n <= u16::MAX as u64 { n as u16 } else { default_value },
        None => default_value,
    }
}

/// The texts among array elements, in order.
pub open spec fn strings_among(items: Seq<JsonData>) -> Seq<Seq<char>> {
    crate::detection::string_items(items)
}

/// Extracts the strings of an array member, skipping other elements;
/// `None` where the member is no array.
pub fn extract_optional_string_array(arguments: &JsonValue, field_name: &str) -> (r: Option<Vec<String>>)
    ensures
        match member_of(arguments.data(), field_name@) {
            JsonData::Array(items) => r matches Some(v) && texts_of(v@) == strings_among(items),
            _ => r is None,
        },
{
    match arguments.get(field_name) {
        Some(JsonValue::Array(items)) => {
            proof { lemma_values_data(items@); }
            let mut out: Vec<String> = Vec::new();
            let mut i: usize = 0;
            while i < items.len()
                invariant
                    i <= items.len(),
                    values_data(items@).len() == items@.len(),
                    forall|j: int| 0 <= j < items@.len() ==> #[trigger] values_data(items@)[j] == items@[j].data(),
                    texts_of(out@) == crate::detection::string_items(values_data(items@).subrange(0, i as int)),
                decreases items.len() - i,
            {
                let ghost before = values_data(items@).subrange(0, i as int);
                let ghost pre = values_data(items@).subrange(0, i + 1);
                assert(pre.drop_last() =~= before);
                if let JsonValue::String(s) = &items[i] {
                    let ghost o = out@;
                    out.push(s.clone());
                    assert(texts_of(out@) =~= texts_of(o).push(s@));
                }
                i += 1;
            }
            assert(values_data(items@).subrange(0, items.len() as int) =~= values_data(items@));
            Some(out)
        },
        _ => None,
    }
}

} // verus!
