//! Turning the outcome of a request to a Bevy app into the tool's reply:
//! which method is called, how format corrections and debug information are
//! added, and when a reply is too large to be sent inline.

use vstd::prelude::*;
use crate::detection::BrpError;
use crate::discovery::FormatCorrection;
use crate::engine::{EnhancedBrpResult, UNUSABLE_TYPE_MARK};
use crate::error::BrpMcpError;
use crate::extractors::ExtractedParams;
use crate::json::{JsonData, JsonValue, count_data, entries_data, insert_entry, keys_sorted, lemma_entries_data, lemma_insert_entry_lookup, lemma_insert_entry_sorted, lemma_values_data, lookup, object_insert, values_data};
use crate::json_text::{json_text, to_json_text, utf8_len, utf8_size};
use crate::pagination::MAX_RESPONSE_TOKENS;
use crate::response::{JsonResponse, opt_data, response_data, JSON_FIELD_DATA, JSON_FIELD_DEBUG_INFO, JSON_FIELD_FORMAT_CORRECTIONS, JSON_FIELD_ORIGINAL_ERROR};
use crate::response_formatter::{BrpMetadata, ResponseFormatter, fields_data, formatted_error, replace_all, replace_text};
use crate::text::{contains_text, decimal, decimal_string, has_substring, push_decimal_wide, texts_of};

verus! {

/// Characters of JSON text counted as one token.
pub const CHARS_PER_TOKEN: usize = 4;

/// The method to call: the one the call names, else the tool's own.
pub fn resolve_brp_method(extracted: &ExtractedParams, config_method: Option<&str>) -> (r: Result<String, BrpMcpError>)
    ensures
        match extracted.method {
            Some(m) => r matches Ok(s) && s@ == m@,
            None => match config_method {
                Some(c) => r matches Ok(s) && s@ == c@,
                None => r == Err::<String, BrpMcpError>(BrpMcpError::ParameterExtraction(r->Err_0->ParameterExtraction_0))
                    && r->Err_0->ParameterExtraction_0@ == "Missing BRP method specification"@,
            },
        },
{
    match &extracted.method {
        Some(m) => Ok(m.clone()),
        None => match config_method {
            Some(c) => Ok(String::from_str(c)),
            None => Err(BrpMcpError::ParameterExtraction(String::from_str("Missing BRP method specification"))),
        },
    }
}

/// A JSON array of texts.
pub open spec fn text_array(s: Seq<Seq<char>>) -> JsonData {
    JsonData::Array(Seq::new(s.len(), |i: int| JsonData::Str(s[i])))
}

/// The JSON array of some texts.
pub fn texts_json(items: &Vec<String>) -> (r: JsonValue)
    ensures
        r.data() == text_array(texts_of(items@)),
{
    let mut out: Vec<JsonValue> = Vec::new();
    let mut i: usize = 0;
    while i < items.len()
        invariant
            i <= items.len(),
            out@.len() == i,
            forall|j: int| 0 <= j < i ==> #[trigger] out@[j].data() == JsonData::Str(items@[j]@),
        decreases items.len() - i,
    {
        out.push(JsonValue::String(items[i].clone()));
        i += 1;
    }
    proof {
        lemma_values_data(out@);
        assert(values_data(out@) =~= Seq::new(texts_of(items@).len(), |j: int| JsonData::Str(texts_of(items@)[j])));
    }
    JsonValue::Array(out)
}

/// The JSON form of one format correction.
pub open spec fn correction_data(c: FormatCorrection) -> JsonData {
    JsonData::Object(seq![
        ("component"@, JsonData::Str(c.component@)),
        ("corrected_format"@, c.corrected_format.data()),
        ("hint"@, JsonData::Str(c.hint@)),
        ("original_format"@, c.original_format.data()),
    ])
}

/// The JSON array of some format corrections.
pub open spec fn corrections_data(s: Seq<FormatCorrection>) -> JsonData {
    JsonData::Array(Seq::new(s.len(), |i: int| correction_data(s[i])))
}

fn correction_json(c: &FormatCorrection) -> (r: JsonValue)
    ensures
        r.data() == correction_data(*c),
{
    let entries = vec![
        (String::from_str("component"), JsonValue::String(c.component.clone())),
        (String::from_str("corrected_format"), c.corrected_format.deep_copy()),
        (String::from_str("hint"), JsonValue::String(c.hint.clone())),
        (String::from_str("original_format"), c.original_format.deep_copy()),
    ];
    proof {
        lemma_entries_data(entries@);
        assert(entries_data(entries@) =~= seq![
            ("component"@, JsonData::Str(c.component@)),
            ("corrected_format"@, c.corrected_format.data()),
            ("hint"@, JsonData::Str(c.hint@)),
            ("original_format"@, c.original_format.data()),
        ]);
    }
    JsonValue::Object(entries)
}

/// The JSON array of some format corrections.
pub fn corrections_json(corrections: &Vec<FormatCorrection>) -> (r: JsonValue)
    ensures
        r.data() == corrections_data(corrections@),
{
    let mut out: Vec<JsonValue> = Vec::new();
    let mut i: usize = 0;
    while i < corrections.len()
        invariant
            i <= corrections.len(),
            out@.len() == i,
            forall|j: int| 0 <= j < i ==> #[trigger] out@[j].data() == correction_data(corrections@[j]),
        decreases corrections.len() - i,
    {
        out.push(correction_json(&corrections[i]));
        i += 1;
    }
    proof {
        lemma_values_data(out@);
        assert(values_data(out@) =~= Seq::new(corrections@.len(), |j: int| correction_data(corrections@[j])));
    }
    JsonValue::Array(out)
}

/// The reply data once format corrections and debug information are
/// added: members of an object reply, or a wrapping object around any other
/// reply. Debug information goes in only in debug mode.
pub open spec fn with_corrections(d: JsonData, corrections: Seq<FormatCorrection>, debug: Seq<Seq<char>>, debug_enabled: bool) -> JsonData {
    if corrections.len() == 0 && debug.len() == 0 {
        d
    } else {
        match d {
            JsonData::Object(m) => {
                let m1 = if debug.len() > 0 && debug_enabled {
                    insert_entry(m, JSON_FIELD_DEBUG_INFO@, text_array(debug))
                } else {
                    m
                };
                let m2 = if corrections.len() > 0 {
                    insert_entry(m1, JSON_FIELD_FORMAT_CORRECTIONS@, corrections_data(corrections))
                } else {
                    m1
                };
                JsonData::Object(m2)
            },
            _ => if debug_enabled {
                JsonData::Object(seq![
                    (JSON_FIELD_DATA@, d),
                    (JSON_FIELD_DEBUG_INFO@, text_array(debug)),
                    (JSON_FIELD_FORMAT_CORRECTIONS@, corrections_data(corrections)),
                ])
            } else {
                JsonData::Object(seq![
                    (JSON_FIELD_DATA@, d),
                    (JSON_FIELD_FORMAT_CORRECTIONS@, corrections_data(corrections)),
                ])
            },
        }
    }
}

/// The members of an object reply, and nothing for any other reply.
pub open spec fn reply_members(d: JsonData) -> Seq<(Seq<char>, JsonData)> {
    match d {
        JsonData::Object(m) => m,
        _ => Seq::empty(),
    }
}

/// Adding what format discovery found to an object reply keeps every other
/// member of the reply as it was, and adds the debug information only in
/// debug mode.
pub proof fn lemma_corrections_keep_reply(m: Seq<(Seq<char>, JsonData)>, corrections: Seq<FormatCorrection>,
    debug: Seq<Seq<char>>, debug_enabled: bool, k: Seq<char>)
    requires
        keys_sorted(m),
    ensures
        with_corrections(JsonData::Object(m), corrections, debug, debug_enabled) is Object,
        keys_sorted(reply_members(with_corrections(JsonData::Object(m), corrections, debug, debug_enabled))),
        k != JSON_FIELD_DEBUG_INFO@ && k != JSON_FIELD_FORMAT_CORRECTIONS@ ==>
            lookup(reply_members(with_corrections(JsonData::Object(m), corrections, debug, debug_enabled)), k) == lookup(m, k),
        !debug_enabled ==> lookup(reply_members(with_corrections(JsonData::Object(m), corrections, debug, debug_enabled)),
            JSON_FIELD_DEBUG_INFO@) == lookup(m, JSON_FIELD_DEBUG_INFO@),
{
    reveal_strlit("debug_info");
    reveal_strlit("format_corrections");
    assert(JSON_FIELD_DEBUG_INFO@ != JSON_FIELD_FORMAT_CORRECTIONS@) by {
        assert(JSON_FIELD_DEBUG_INFO@.len() != JSON_FIELD_FORMAT_CORRECTIONS@.len());
    }
    let r = with_corrections(JsonData::Object(m), corrections, debug, debug_enabled);
    if corrections.len() == 0 && debug.len() == 0 {
        assert(reply_members(r) == m);
    } else {
        let with_debug = debug.len() > 0 && debug_enabled;
        let m1 = if with_debug {
            insert_entry(m, JSON_FIELD_DEBUG_INFO@, text_array(debug))
        } else {
            m
        };
        if with_debug {
            lemma_insert_entry_sorted(m, JSON_FIELD_DEBUG_INFO@, text_array(debug));
            lemma_insert_entry_lookup(m, JSON_FIELD_DEBUG_INFO@, text_array(debug), k);
        }
        assert(keys_sorted(m1));
        if corrections.len() > 0 {
            let m2 = insert_entry(m1, JSON_FIELD_FORMAT_CORRECTIONS@, corrections_data(corrections));
            assert(reply_members(r) == m2);
            lemma_insert_entry_sorted(m1, JSON_FIELD_FORMAT_CORRECTIONS@, corrections_data(corrections));
            lemma_insert_entry_lookup(m1, JSON_FIELD_FORMAT_CORRECTIONS@, corrections_data(corrections), k);
            lemma_insert_entry_lookup(m1, JSON_FIELD_FORMAT_CORRECTIONS@, corrections_data(corrections), JSON_FIELD_DEBUG_INFO@);
        } else {
            assert(reply_members(r) == m1);
        }
    }
}

/// Adds format corrections and debug information to reply data.
pub fn add_format_corrections(response_data: &mut JsonValue, format_corrections: &Vec<FormatCorrection>, debug_info: &Vec<String>, debug_enabled: bool)
    ensures
        final(response_data).data() == with_corrections(old(response_data).data(), format_corrections@, texts_of(debug_info@), debug_enabled),
{
    if format_corrections.len() == 0 && debug_info.len() == 0 {
        return;
    }
    match response_data {
        JsonValue::Object(m) => {
            if debug_info.len() > 0 && debug_enabled {
                object_insert(m, String::from_str(JSON_FIELD_DEBUG_INFO), texts_json(debug_info));
            }
            if format_corrections.len() > 0 {
                object_insert(m, String::from_str(JSON_FIELD_FORMAT_CORRECTIONS), corrections_json(format_corrections));
            }
        },
        _ => {
            let mut inner = JsonValue::Null;
            std::mem::swap(&mut inner, response_data);
            let ghost d = inner.data();
            let corrections = corrections_json(format_corrections);
            let ghost cd = corrections.data();
            let entries = if debug_enabled {
                let debug = texts_json(debug_info);
                let ghost dd = debug.data();
                let e = vec![
                    (String::from_str(JSON_FIELD_DATA), inner),
                    (String::from_str(JSON_FIELD_DEBUG_INFO), debug),
                    (String::from_str(JSON_FIELD_FORMAT_CORRECTIONS), corrections),
                ];
                proof {
                    lemma_entries_data(e@);
                    assert(entries_data(e@) =~= seq![(JSON_FIELD_DATA@, d), (JSON_FIELD_DEBUG_INFO@, dd), (JSON_FIELD_FORMAT_CORRECTIONS@, cd)]);
                }
                e
            } else {
                let e = vec![
                    (String::from_str(JSON_FIELD_DATA), inner),
                    (String::from_str(JSON_FIELD_FORMAT_CORRECTIONS), corrections),
                ];
                proof {
                    lemma_entries_data(e@);
                    assert(entries_data(e@) =~= seq![(JSON_FIELD_DATA@, d), (JSON_FIELD_FORMAT_CORRECTIONS@, cd)]);
                }
                e
            };
            *response_data = JsonValue::Object(entries);
        },
    }
}

/// The first hint among the corrections that says a type cannot be used
/// with BRP.
pub open spec fn unusable_hint_from(s: Seq<FormatCorrection>, i: int) -> Option<Seq<char>>
    decreases s.len() - i,
{
    if i < 0 || i >= s.len() {
        None
    } else if has_substring(s[i].hint@, UNUSABLE_TYPE_MARK@) {
        Some(s[i].hint@)
    } else {
        unusable_hint_from(s, i + 1)
    }
}

fn unusable_hint(corrections: &Vec<FormatCorrection>) -> (r: Option<String>)
    ensures
        match r {
            Some(h) => unusable_hint_from(corrections@, 0) == Some(h@),
            None => unusable_hint_from(corrections@, 0) is None,
        },
{
    let mut i: usize = 0;
    while i < corrections.len()
        invariant
            i <= corrections.len(),
            unusable_hint_from(corrections@, 0) == unusable_hint_from(corrections@, i as int),
        decreases corrections.len() - i,
    {
        if contains_text(corrections[i].hint.as_str(), UNUSABLE_TYPE_MARK) {
            return Some(corrections[i].hint.clone());
        }
        i += 1;
    }
    None
}

/// The error data once discovery's findings are added: the first message,
/// where an unusable-type diagnostic replaced it; the debug information in
/// debug mode; the corrections. Data that is no object is left as it is.
pub open spec fn error_data_with(data: Option<JsonData>, original: Seq<char>, enhanced: bool,
    corrections: Seq<FormatCorrection>, debug: Seq<Seq<char>>, debug_enabled: bool) -> Option<JsonData>
{
    if debug.len() == 0 && corrections.len() == 0 && !enhanced {
        data
    } else {
        let base = match data { Some(d) => d, None => JsonData::Object(Seq::empty()) };
        match base {
            JsonData::Object(m) => {
                let m1 = if enhanced { insert_entry(m, JSON_FIELD_ORIGINAL_ERROR@, JsonData::Str(original)) } else { m };
                let m2 = if debug.len() > 0 && debug_enabled { insert_entry(m1, JSON_FIELD_DEBUG_INFO@, text_array(debug)) } else { m1 };
                let m3 = if corrections.len() > 0 {
                    insert_entry(m2, JSON_FIELD_FORMAT_CORRECTIONS@, corrections_data(corrections))
                } else {
                    m2
                };
                Some(JsonData::Object(m3))
            },
            _ => Some(base),
        }
    }
}

/// Formats an error reply, with what format discovery found: a diagnostic
/// that a type cannot be used with BRP replaces the message.
pub fn process_error_response(error_info: BrpError, enhanced_result: &EnhancedBrpResult, formatter: &ResponseFormatter,
    metadata: &BrpMetadata, debug_enabled: bool) -> (r: JsonResponse)
    ensures
        ({
            let hint = unusable_hint_from(enhanced_result.format_corrections@, 0);
            let message = match hint { Some(h) => h, None => error_info.message@ };
            let data = error_data_with(opt_data(error_info.data), error_info.message@, hint is Some,
                enhanced_result.format_corrections@, texts_of(enhanced_result.debug_info@), debug_enabled);
            response_data(r) == formatted_error(formatter.config.use_default_error, fields_data(formatter.config.error_metadata_fields@),
                error_info.code, message, data, metadata.method@, metadata.port, formatter.context, debug_enabled)
        }),
{
    let BrpError { code, message: original_message, data } = error_info;
    let hint = unusable_hint(&enhanced_result.format_corrections);
    let has_enhanced = hint.is_some();
    let message = match hint {
        Some(h) => h,
        None => original_message.clone(),
    };
    let corrections = &enhanced_result.format_corrections;
    let debug = &enhanced_result.debug_info;
    let data = if debug.len() > 0 || corrections.len() > 0 || has_enhanced {
        let mut data_obj = match data {
            Some(d) => d,
            None => JsonValue::Object(Vec::new()),
        };
        proof {
            lemma_entries_data(Seq::<(String, JsonValue)>::empty());
        }
        match &mut data_obj {
            JsonValue::Object(m) => {
                if has_enhanced {
                    object_insert(m, String::from_str(JSON_FIELD_ORIGINAL_ERROR), JsonValue::String(original_message));
                }
                if debug.len() > 0 && debug_enabled {
                    object_insert(m, String::from_str(JSON_FIELD_DEBUG_INFO), texts_json(debug));
                }
                if corrections.len() > 0 {
                    object_insert(m, String::from_str(JSON_FIELD_FORMAT_CORRECTIONS), corrections_json(corrections));
                }
            },
            _ => {},
        }
        Some(data_obj)
    } else {
        data
    };
    formatter.format_error(BrpError { code, message, data }, metadata, debug_enabled)
}

/// The number of tokens that a reply's JSON text is counted as.
pub open spec fn estimated_tokens_of(d: JsonData) -> nat {
    utf8_len(json_text(d)) / (CHARS_PER_TOKEN as nat)
}

/// The number of tokens that a reply's JSON text is counted as.
pub fn estimated_tokens(response_data: &JsonValue) -> (r: u128)
    ensures
        r as nat == estimated_tokens_of(response_data.data()),
{
    let text = to_json_text(response_data);
    utf8_size(text.as_str()) / 4
}

/// Whether a reply is too large to send inline.
pub open spec fn too_large(d: JsonData) -> bool {
    estimated_tokens_of(d) > MAX_RESPONSE_TOKENS as nat
}

/// The number of tokens of a reply too large to send inline; `None` for a
/// reply that can be sent as it is.
pub fn oversize_tokens(response_data: &JsonValue) -> (r: Option<u128>)
    ensures
        match r {
            Some(t) => too_large(response_data.data()) && t as nat == estimated_tokens_of(response_data.data()),
            None => !too_large(response_data.data()),
        },
{
    let tokens = estimated_tokens(response_data);
    if tokens > MAX_RESPONSE_TOKENS as u128 {
        Some(tokens)
    } else {
        None
    }
}

/// The name of the file a too large reply is saved to.
pub open spec fn response_file_name(method: Seq<char>, timestamp: nat) -> Seq<char> {
    "brp_response_"@ + replace_all(method, "/"@, "_"@) + "_"@ + decimal(timestamp) + ".json"@
}

/// The name of the file a too large reply of `method` is saved to.
pub fn large_response_filename(method: &str, timestamp: u64) -> (r: String)
    ensures
        r@ == response_file_name(method@, timestamp as nat),
{
    let mut name = String::from_str("brp_response_");
    proof { reveal_strlit("/"); }
    let sanitized = replace_text(method, "/", "_");
    name.append(sanitized.as_str());
    name.append("_");
    name.append(decimal_string(timestamp).as_str());
    name.append(".json");
    name
}

/// The reply sent in place of one too large: where it was saved, and how
/// to read it.
pub open spec fn large_response_reply(tokens: nat, filepath: Seq<char>) -> JsonData {
    JsonData::Object(seq![
        ("filepath"@, JsonData::Str(filepath)),
        ("instructions"@, JsonData::Str("Use Read tool to examine, Grep to search, or jq commands to filter the data."@)),
        ("message"@, JsonData::Str("Response too large ("@ + decimal(tokens) + " tokens). Saved to "@ + filepath)),
        ("status"@, JsonData::Str("success"@)),
    ])
}

/// The reply sent in place of one too large, saved to `filepath`.
pub fn large_response_fallback(tokens: u128, filepath: &str) -> (r: JsonValue)
    ensures
        r.data() == large_response_reply(tokens as nat, filepath@),
{
    let mut message = String::from_str("Response too large (");
    push_decimal_wide(&mut message, tokens);
    message.append(" tokens). Saved to ");
    message.append(filepath);
    let ghost md = message@;
    let entries = vec![
        (String::from_str("filepath"), JsonValue::String(String::from_str(filepath))),
        (String::from_str("instructions"), JsonValue::String(String::from_str(
            "Use Read tool to examine, Grep to search, or jq commands to filter the data."))),
        (String::from_str("message"), JsonValue::String(message)),
        (String::from_str("status"), JsonValue::String(String::from_str("success"))),
    ];
    proof {
        lemma_entries_data(entries@);
        assert(entries_data(entries@) =~= seq![
            ("filepath"@, JsonData::Str(filepath@)),
            ("instructions"@, JsonData::Str("Use Read tool to examine, Grep to search, or jq commands to filter the data."@)),
            ("message"@, JsonData::Str(md)),
            ("status"@, JsonData::Str("success"@)),
        ]);
    }
    JsonValue::Object(entries)
}

/// The data of a success reply: the result, `null` where there is none,
/// with what format discovery found added.
pub fn success_response_data(data: Option<JsonValue>, enhanced_result: &EnhancedBrpResult, debug_enabled: bool) -> (r: JsonValue)
    ensures
        r.data() == with_corrections(match opt_data(data) { Some(d) => d, None => JsonData::Null },
            enhanced_result.format_corrections@, texts_of(enhanced_result.debug_info@), debug_enabled),
{
    let mut response = match data {
        Some(d) => d,
        None => JsonValue::Null,
    };
    add_format_corrections(&mut response, &enhanced_result.format_corrections, &enhanced_result.debug_info, debug_enabled);
    response
}

} // verus!
