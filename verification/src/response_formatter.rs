//! The pieces of a tool reply: request metadata, message templates, and the
//! fields read out of a request or of the BRP reply.

use vstd::prelude::*;
use crate::json::{JsonData, JsonValue, code_data, copy_entries, count_data, field_of, insert_entry, lemma_entries_data, lemma_values_data, object_insert, object_remove, remove_key, values_data, entries_data};
use crate::response::{JsonResponse, ResponseBuilder, builder_data, opt_data, response_data, with_field};
use crate::detection::BrpError;
use crate::debug_mode::ResponseStatus;
use crate::discovery::object_of_items;
use crate::json_text::{json_text, to_json_text};
use crate::text::{chars_of, find_chars_from, find_from, lemma_find_from, push_chars, same_text, string_of, sub_chars};
use crate::tool_definitions::ExtractorType;

verus! {

/// Metadata about a BRP request for response formatting.
pub struct BrpMetadata {
    pub method: String,
    pub port: u16,
}

impl BrpMetadata {
    pub fn new(method: &str, port: u16) -> (r: BrpMetadata)
        ensures
            r.method@ == method@,
            r.port == port,
    {
        BrpMetadata { method: String::from_str(method), port }
    }
}

/// What a formatter knows of the request: its parameters and debug notes.
pub struct FormatterContext {
    pub params: Option<JsonValue>,
    pub brp_mcp_debug_info: Option<JsonValue>,
}

/// `s` with every occurrence of `pat` from position `from` on, left to
/// right and not overlapping, replaced by `rep` (`str::replace`).
pub open spec fn replace_from(s: Seq<char>, pat: Seq<char>, rep: Seq<char>, from: int) -> Seq<char>
    decreases s.len() - from,
{
    if from < 0 || from > s.len() || pat.len() == 0 {
        s.subrange(if 0 <= from <= s.len() { from } else { s.len() as int }, s.len() as int)
    } else {
        match find_from(s, pat, from) {
            Some(i) => if from <= i && i + pat.len() <= s.len() {
                s.subrange(from, i) + rep + replace_from(s, pat, rep, i + pat.len())
            } else {
                s.subrange(from, s.len() as int)
            },
            None => s.subrange(from, s.len() as int),
        }
    }
}

/// `s` with every occurrence of a non-empty `pat` replaced by `rep`.
pub open spec fn replace_all(s: Seq<char>, pat: Seq<char>, rep: Seq<char>) -> Seq<char> {
    replace_from(s, pat, rep, 0)
}

/// Replaces every occurrence of the non-empty `pat` in `s` by `rep`.
pub fn replace_text(s: &str, pat: &str, rep: &str) -> (r: String)
    requires
        pat@.len() > 0,
    ensures
        r@ == replace_all(s@, pat@, rep@),
{
    let sc = chars_of(s);
    let pc = chars_of(pat);
    let rc = chars_of(rep);
    let mut out = String::new();
    let mut from: usize = 0;
    assert(out@ + replace_from(sc@, pc@, rc@, 0) =~= replace_all(s@, pat@, rep@));
    loop
        invariant
            sc@ == s@,
            pc@ == pat@,
            rc@ == rep@,
            pc@.len() > 0,
            from <= sc.len(),
            out@ + replace_from(sc@, pc@, rc@, from as int) == replace_all(s@, pat@, rep@),
        decreases sc.len() - from,
    {
        match find_chars_from(sc.as_slice(), pc.as_slice(), from) {
            Some(i) => {
                proof { lemma_find_from(sc@, pc@, from as int); }
                let piece = sub_chars(sc.as_slice(), from, i);
                push_chars(&mut out, piece.as_slice());
                push_chars(&mut out, rc.as_slice());
                let ghost before = out@;
                assert(replace_from(sc@, pc@, rc@, from as int)
                    == sc@.subrange(from as int, i as int) + rc@ + replace_from(sc@, pc@, rc@, i + pc@.len()));
                from = i + pc.len();
            },
            None => {
                let piece = sub_chars(sc.as_slice(), from, sc.len());
                push_chars(&mut out, piece.as_slice());
                return out;
            },
        }
    }
}

/// How a value is written into a message: strings bare, numbers and booleans
/// as their text, anything else as its JSON text.
pub open spec fn replacement_text(d: JsonData) -> Seq<char> {
    match d {
        JsonData::Str(s) => s,
        JsonData::Number(t, _) => t,
        JsonData::Bool(b) => if b { "true"@ } else { "false"@ },
        _ => json_text(d),
    }
}

/// The template after each `{key}` placeholder of the entries, in order,
/// is replaced by the entry's value.
pub open spec fn fill_template(t: Seq<char>, entries: Seq<(Seq<char>, JsonData)>) -> Seq<char>
    decreases entries.len(),
{
    if entries.len() == 0 {
        t
    } else {
        replace_all(fill_template(t, entries.drop_last()), seq!['{'] + entries.last().0 + seq!['}'],
            replacement_text(entries.last().1))
    }
}

/// A template filled from an object of parameters; any other parameters
/// leave it unchanged.
pub open spec fn substituted(t: Seq<char>, params: Option<JsonData>) -> Seq<char> {
    match params {
        Some(JsonData::Object(entries)) => fill_template(t, entries),
        _ => t,
    }
}

fn replacement_of(v: &JsonValue) -> (r: String)
    ensures
        r@ == replacement_text(v.data()),
{
    match v {
        JsonValue::String(s) => s.clone(),
        JsonValue::Number(n) => n.text.clone(),
        JsonValue::Bool(b) => if *b { String::from_str("true") } else { String::from_str("false") },
        _ => to_json_text(v),
    }
}

/// Substitutes the `{key}` placeholders of a template with the values of
/// the parameters.
pub fn substitute_template(template: &str, params: Option<&JsonValue>) -> (r: String)
    ensures
        r@ == substituted(template@, match params { Some(p) => Some(p.data()), None => None }),
{
    let mut result = String::from_str(template);
    match params {
        Some(JsonValue::Object(entries)) => {
            proof { lemma_entries_data(entries@); }
            let mut i: usize = 0;
            while i < entries.len()
                invariant
                    i <= entries.len(),
                    entries_data(entries@).len() == entries@.len(),
                    forall|j: int| 0 <= j < entries@.len() ==> #[trigger] entries_data(entries@)[j]
                        == (entries@[j].0@, entries@[j].1.data()),
                    result@ == fill_template(template@, entries_data(entries@).subrange(0, i as int)),
                decreases entries.len() - i,
            {
                let ghost prefix = entries_data(entries@).subrange(0, i + 1);
                assert(prefix.drop_last() =~= entries_data(entries@).subrange(0, i as int));
                let mut placeholder = String::new();
                crate::text::push_char(&mut placeholder, '{');
                placeholder.append(entries[i].0.as_str());
                crate::text::push_char(&mut placeholder, '}');
                assert(placeholder@ =~= seq!['{'] + entries@[i as int].0@ + seq!['}']);
                let rep = replacement_of(&entries[i].1);
                result = replace_text(result.as_str(), placeholder.as_str(), rep.as_str());
                i += 1;
            }
            assert(entries_data(entries@).subrange(0, entries.len() as int) =~= entries_data(entries@));
        },
        _ => {},
    }
    result
}

/// A member of the request's parameters, or `null`.
pub open spec fn param_field(context: FormatterContext, name: Seq<char>) -> JsonData {
    match context.params {
        Some(p) => match field_of(p.data(), name) {
            Some(v) => v,
            None => JsonData::Null,
        },
        None => JsonData::Null,
    }
}

/// Extracts a field from the request context.
pub fn extract_field_from_context(field_name: &str, _data: &JsonValue, context: &FormatterContext) -> (r: JsonValue)
    ensures
        r.data() == param_field(*context, field_name@),
{
    match &context.params {
        Some(p) => match p.get(field_name) {
            Some(v) => v.deep_copy(),
            None => JsonValue::Null,
        },
        None => JsonValue::Null,
    }
}

/// Extracts the entity ID from the request parameters.
pub fn entity_from_params(data: &JsonValue, context: &FormatterContext) -> (r: JsonValue)
    ensures
        r.data() == param_field(*context, "entity"@),
{
    extract_field_from_context("entity", data, context)
}

/// Extracts the resource name from the request parameters.
pub fn resource_from_params(data: &JsonValue, context: &FormatterContext) -> (r: JsonValue)
    ensures
        r.data() == param_field(*context, "resource"@),
{
    extract_field_from_context("resource", data, context)
}

/// Extracts the components from the request parameters.
pub fn components_from_params(data: &JsonValue, context: &FormatterContext) -> (r: JsonValue)
    ensures
        r.data() == param_field(*context, "components"@),
{
    extract_field_from_context("components", data, context)
}

/// Passes the BRP response data through.
pub fn pass_through_data(data: &JsonValue, _context: &FormatterContext) -> (r: JsonValue)
    ensures
        r.data() == data.data(),
{
    data.deep_copy()
}

/// The number of elements of an array, 0 for anything else.
pub open spec fn array_len_of(d: JsonData) -> nat {
    match d {
        JsonData::Array(a) => a.len(),
        _ => 0,
    }
}

/// The count of elements of the reply: of its `data` member where it is an
/// object holding one, else of the reply itself.
pub open spec fn array_count_of(d: JsonData) -> nat {
    match d {
        JsonData::Object(s) => match field_of(d, "data"@) {
            Some(inner) => array_len_of(inner),
            None => 0,
        },
        _ => array_len_of(d),
    }
}

fn array_len(v: &JsonValue) -> (r: u64)
    ensures
        r as nat == array_len_of(v.data()),
{
    match v {
        JsonValue::Array(a) => {
            proof { lemma_values_data(a@); }
            a.len() as u64
        },
        _ => 0,
    }
}

/// Counts the elements of an array in the response data.
pub fn array_count(data: &JsonValue, _context: &FormatterContext) -> (r: JsonValue)
    ensures
        r.data() == count_data(array_count_of(data.data())),
{
    let n = match data {
        JsonValue::Object(_) => match data.get("data") {
            Some(inner) => array_len(inner),
            None => 0,
        },
        _ => array_len(data),
    };
    JsonValue::from_count(n as u128)
}

/// The `entity` member of a reply, or 0.
pub open spec fn entity_in_response(d: JsonData) -> JsonData {
    match field_of(d, "entity"@) {
        Some(v) => v,
        None => count_data(0),
    }
}

/// Extracts the entity from a response (for spawn), or 0.
pub fn extract_entity_from_response(data: &JsonValue, _context: &FormatterContext) -> (r: JsonValue)
    ensures
        r.data() == entity_in_response(data.data()),
{
    match data.get("entity") {
        Some(v) => v.deep_copy(),
        None => JsonValue::from_count(0u128),
    }
}

/// The number of members of the objects among the elements, summed.
pub open spec fn members_sum(items: Seq<JsonData>) -> nat
    decreases items.len(),
{
    if items.len() == 0 {
        0
    } else {
        members_sum(items.drop_last()) + match items.last() {
            JsonData::Object(s) => s.len(),
            _ => 0,
        }
    }
}

/// The total count of components over the entities of a query reply.
pub open spec fn query_component_count(d: JsonData) -> nat {
    match d {
        JsonData::Array(items) => members_sum(items),
        _ => 0,
    }
}

/// Counts the components over all entities of a query reply.
pub fn extract_query_component_count(data: &JsonValue, _context: &FormatterContext) -> (r: JsonValue)
    ensures
        r.data() == count_data(query_component_count(data.data())),
{
    let mut total: u128 = 0;
    if let JsonValue::Array(items) = data {
        proof { lemma_values_data(items@); }
        let mut i: usize = 0;
        while i < items.len()
            invariant
                *data == JsonValue::Array(*items),
                i <= items.len(),
                values_data(items@).len() == items@.len(),
                forall|j: int| 0 <= j < items@.len() ==> #[trigger] values_data(items@)[j] == items@[j].data(),
                total as nat == members_sum(values_data(items@).subrange(0, i as int)),
                total <= i * 0x1_0000_0000_0000_0000u128,
            decreases items.len() - i,
        {
            let ghost pre = values_data(items@).subrange(0, i + 1);
            assert(pre.drop_last() =~= values_data(items@).subrange(0, i as int));
            if let JsonValue::Object(m) = &items[i] {
                proof { lemma_entries_data(m@); }
                total = total + m.len() as u128;
            }
            i += 1;
        }
        assert(values_data(items@).subrange(0, items.len() as int) =~= values_data(items@));
    }
    JsonValue::from_count(total)
}

/// Passes the request parameters through, or `null`.
pub fn extract_query_params_from_context(_data: &JsonValue, context: &FormatterContext) -> (r: JsonValue)
    ensures
        r.data() == match context.params {
            Some(p) => p.data(),
            None => JsonData::Null,
        },
{
    match &context.params {
        Some(p) => p.deep_copy(),
        None => JsonValue::Null,
    }
}

/// The field extractors that tool definitions can name.
#[derive(Clone, Copy, PartialEq, Eq, Structural)]
pub enum FieldExtractor {
    EntityFromParams,
    ResourceFromParams,
    PassThroughData,
    PassThroughResult,
    ArrayCount,
    EntityFromResponse,
    QueryComponentCount,
    QueryParamsFromContext,
    ComponentsFromContext,
    EntitiesFromContext,
    ParentFromContext,
    PathFromContext,
    PortFromContext,
    Null,
}

/// The extractor that a definition's extractor type stands for.
pub open spec fn extractor_for(t: ExtractorType) -> FieldExtractor {
    match t {
        ExtractorType::EntityFromParams => FieldExtractor::EntityFromParams,
        ExtractorType::ResourceFromParams => FieldExtractor::ResourceFromParams,
        ExtractorType::PassThroughData => FieldExtractor::PassThroughData,
        ExtractorType::PassThroughResult => FieldExtractor::PassThroughResult,
        ExtractorType::EntityCountFromData => FieldExtractor::ArrayCount,
        ExtractorType::ComponentCountFromData => FieldExtractor::ArrayCount,
        ExtractorType::EntityFromResponse => FieldExtractor::EntityFromResponse,
        ExtractorType::QueryComponentCount => FieldExtractor::QueryComponentCount,
        ExtractorType::QueryParamsFromContext => FieldExtractor::QueryParamsFromContext,
        ExtractorType::ParamFromContext(name) => if name@ == "components"@ {
            FieldExtractor::ComponentsFromContext
        } else if name@ == "entities"@ {
            FieldExtractor::EntitiesFromContext
        } else if name@ == "parent"@ {
            FieldExtractor::ParentFromContext
        } else if name@ == "path"@ {
            FieldExtractor::PathFromContext
        } else if name@ == "port"@ {
            FieldExtractor::PortFromContext
        } else {
            FieldExtractor::Null
        },
    }
}

/// Converts an extractor type of a tool definition into the extractor it
/// stands for.
pub fn convert_extractor_type(extractor_type: &ExtractorType) -> (r: FieldExtractor)
    ensures
        r == extractor_for(*extractor_type),
{
    match extractor_type {
        ExtractorType::EntityFromParams => FieldExtractor::EntityFromParams,
        ExtractorType::ResourceFromParams => FieldExtractor::ResourceFromParams,
        ExtractorType::PassThroughData => FieldExtractor::PassThroughData,
        ExtractorType::PassThroughResult => FieldExtractor::PassThroughResult,
        ExtractorType::EntityCountFromData => FieldExtractor::ArrayCount,
        ExtractorType::ComponentCountFromData => FieldExtractor::ArrayCount,
        ExtractorType::EntityFromResponse => FieldExtractor::EntityFromResponse,
        ExtractorType::QueryComponentCount => FieldExtractor::QueryComponentCount,
        ExtractorType::QueryParamsFromContext => FieldExtractor::QueryParamsFromContext,
        ExtractorType::ParamFromContext(name) => {
            if same_text(name, "components") {
                FieldExtractor::ComponentsFromContext
            } else if same_text(name, "entities") {
                FieldExtractor::EntitiesFromContext
            } else if same_text(name, "parent") {
                FieldExtractor::ParentFromContext
            } else if same_text(name, "path") {
                FieldExtractor::PathFromContext
            } else if same_text(name, "port") {
                FieldExtractor::PortFromContext
            } else {
                FieldExtractor::Null
            }
        },
    }
}

/// What an extractor reads from a reply and its request.
pub open spec fn extracted(e: FieldExtractor, data: JsonData, context: FormatterContext) -> JsonData {
    match e {
        FieldExtractor::EntityFromParams => param_field(context, "entity"@),
        FieldExtractor::ResourceFromParams => param_field(context, "resource"@),
        FieldExtractor::PassThroughData => data,
        FieldExtractor::PassThroughResult => data,
        FieldExtractor::ArrayCount => count_data(array_count_of(data)),
        FieldExtractor::EntityFromResponse => entity_in_response(data),
        FieldExtractor::QueryComponentCount => count_data(query_component_count(data)),
        FieldExtractor::QueryParamsFromContext => match context.params {
            Some(p) => p.data(),
            None => JsonData::Null,
        },
        FieldExtractor::ComponentsFromContext => param_field(context, "components"@),
        FieldExtractor::EntitiesFromContext => param_field(context, "entities"@),
        FieldExtractor::ParentFromContext => param_field(context, "parent"@),
        FieldExtractor::PathFromContext => param_field(context, "path"@),
        FieldExtractor::PortFromContext => param_field(context, "port"@),
        FieldExtractor::Null => JsonData::Null,
    }
}

impl FieldExtractor {
    /// Reads the field from a reply and its request.
    pub fn extract(&self, data: &JsonValue, context: &FormatterContext) -> (r: JsonValue)
        ensures
            r.data() == extracted(*self, data.data(), *context),
    {
        match self {
            FieldExtractor::EntityFromParams => entity_from_params(data, context),
            FieldExtractor::ResourceFromParams => resource_from_params(data, context),
            FieldExtractor::PassThroughData => pass_through_data(data, context),
            FieldExtractor::PassThroughResult => data.deep_copy(),
            FieldExtractor::ArrayCount => array_count(data, context),
            FieldExtractor::EntityFromResponse => extract_entity_from_response(data, context),
            FieldExtractor::QueryComponentCount => extract_query_component_count(data, context),
            FieldExtractor::QueryParamsFromContext => extract_query_params_from_context(data, context),
            FieldExtractor::ComponentsFromContext => extract_field_from_context("components", data, context),
            FieldExtractor::EntitiesFromContext => extract_field_from_context("entities", data, context),
            FieldExtractor::ParentFromContext => extract_field_from_context("parent", data, context),
            FieldExtractor::PathFromContext => extract_field_from_context("path", data, context),
            FieldExtractor::PortFromContext => extract_field_from_context("port", data, context),
            FieldExtractor::Null => JsonValue::Null,
        }
    }
}

/// How a formatter shapes replies.
pub struct FormatterConfig {
    /// Template for success messages, with `{name}` placeholders.
    pub success_template: Option<String>,
    /// Fields added to success replies, each with its extractor.
    pub success_fields: Vec<(String, FieldExtractor)>,
    /// Fields added to the metadata of error replies.
    pub error_metadata_fields: Vec<(String, FieldExtractor)>,
    /// Whether errors use the default formatting.
    pub use_default_error: bool,
}

/// A formatter for one request.
pub struct ResponseFormatter {
    pub config: FormatterConfig,
    pub context: FormatterContext,
}

/// The names and extractors of configured fields.
pub open spec fn fields_data(v: Seq<(String, FieldExtractor)>) -> Seq<(Seq<char>, FieldExtractor)> {
    Seq::new(v.len(), |i: int| (v[i].0@, v[i].1))
}

/// The debug information that the app put in its reply: an array or a
/// string under `debug_info`.
pub open spec fn extras_debug_of(d: JsonData) -> Option<JsonData> {
    match field_of(d, "debug_info"@) {
        Some(x) => if x is Array || x is Str { Some(x) } else { None },
        None => None,
    }
}

/// The reply data without its debug information.
pub open spec fn without_debug(d: JsonData) -> JsonData {
    match d {
        JsonData::Object(s) => JsonData::Object(remove_key(s, "debug_info"@)),
        _ => d,
    }
}

/// The corrections that the reply data carries, where they form an array.
pub open spec fn corrections_of(d: JsonData) -> Option<JsonData> {
    match field_of(d, "format_corrections"@) {
        Some(x) => if x is Array { Some(x) } else { None },
        None => None,
    }
}

/// The data and template values after the configured fields are added.
pub open spec fn add_fields(
    fields: Seq<(Seq<char>, FieldExtractor)>,
    clean: JsonData,
    context: FormatterContext,
    data: Option<JsonData>,
    values: Seq<(Seq<char>, JsonData)>,
) -> (Option<JsonData>, Seq<(Seq<char>, JsonData)>)
    decreases fields.len(),
{
    if fields.len() == 0 {
        (data, values)
    } else {
        let (d, vals) = add_fields(fields.drop_last(), clean, context, data, values);
        let (name, e) = fields.last();
        let v = extracted(e, clean, context);
        (with_field(d, name, v), insert_entry(vals, name, v))
    }
}

/// The template values a request starts with: its parameters, where they
/// form an object.
pub open spec fn initial_values(context: FormatterContext) -> Seq<(Seq<char>, JsonData)> {
    match context.params {
        Some(p) => match p.data() {
            JsonData::Object(s) => object_of_items(s),
            _ => Seq::empty(),
        },
        None => Seq::empty(),
    }
}

/// The success reply for the reply data `d`.
pub open spec fn success_reply(
    template: Option<Seq<char>>,
    fields: Seq<(Seq<char>, FieldExtractor)>,
    context: FormatterContext,
    d: JsonData,
    debug_enabled: bool,
) -> (ResponseStatus, Seq<char>, Option<JsonData>, Option<JsonData>, Option<JsonData>) {
    let start_data = match corrections_of(d) {
        Some(c) => with_field(None, "format_corrections"@, c),
        None => None,
    };
    let (data, values) = add_fields(fields, without_debug(d), context, start_data, initial_values(context));
    let message = match template {
        Some(t) => fill_template(t, values),
        None => Seq::empty(),
    };
    let extras = extras_debug_of(d);
    let mcp = opt_data(context.brp_mcp_debug_info);
    (ResponseStatus::Success, message, data,
        if debug_enabled { mcp } else { None },
        if debug_enabled { extras } else { None })
}

fn extractor_of(v: &FieldExtractor) -> (r: FieldExtractor)
    ensures
        r == *v,
{
    match v {
        FieldExtractor::EntityFromParams => FieldExtractor::EntityFromParams,
        FieldExtractor::ResourceFromParams => FieldExtractor::ResourceFromParams,
        FieldExtractor::PassThroughData => FieldExtractor::PassThroughData,
        FieldExtractor::PassThroughResult => FieldExtractor::PassThroughResult,
        FieldExtractor::ArrayCount => FieldExtractor::ArrayCount,
        FieldExtractor::EntityFromResponse => FieldExtractor::EntityFromResponse,
        FieldExtractor::QueryComponentCount => FieldExtractor::QueryComponentCount,
        FieldExtractor::QueryParamsFromContext => FieldExtractor::QueryParamsFromContext,
        FieldExtractor::ComponentsFromContext => FieldExtractor::ComponentsFromContext,
        FieldExtractor::EntitiesFromContext => FieldExtractor::EntitiesFromContext,
        FieldExtractor::ParentFromContext => FieldExtractor::ParentFromContext,
        FieldExtractor::PathFromContext => FieldExtractor::PathFromContext,
        FieldExtractor::PortFromContext => FieldExtractor::PortFromContext,
        FieldExtractor::Null => FieldExtractor::Null,
    }
}

fn copy_opt(v: &Option<JsonValue>) -> (r: Option<JsonValue>)
    ensures
        opt_data(r) == opt_data(*v),
{
    match v {
        Some(x) => Some(x.deep_copy()),
        None => None,
    }
}

impl ResponseFormatter {
    pub fn new(config: FormatterConfig, context: FormatterContext) -> (r: ResponseFormatter)
        ensures
            r.config == config,
            r.context == context,
    {
        ResponseFormatter { config, context }
    }

    /// The success reply: corrections kept, debug information taken out of
    /// the data, the configured fields added, and the message filled from the
    /// request's parameters and those fields.
    pub fn build_success_response(&self, data: &JsonValue, debug_enabled: bool) -> (r: JsonResponse)
        ensures
            response_data(r) == success_reply(
                match self.config.success_template { Some(t) => Some(t@), None => None },
                fields_data(self.config.success_fields@), self.context, data.data(), debug_enabled),
    {
        let mut builder = ResponseBuilder::success();
        let mut template_values: Vec<(String, JsonValue)> = Vec::new();
        assert(entries_data(template_values@) =~= Seq::<(Seq<char>, JsonData)>::empty());
        if let Some(JsonValue::Object(params)) = &self.context.params {
            proof { lemma_entries_data(params@); }
            let mut i: usize = 0;
            while i < params.len()
                invariant
                    i <= params.len(),
                    entries_data(params@).len() == params@.len(),
                    forall|j: int| 0 <= j < params@.len() ==> #[trigger] entries_data(params@)[j] == (params@[j].0@, params@[j].1.data()),
                    entries_data(template_values@) == object_of_items(entries_data(params@).subrange(0, i as int)),
                decreases params.len() - i,
            {
                let ghost pre = entries_data(params@).subrange(0, i + 1);
                assert(pre.drop_last() =~= entries_data(params@).subrange(0, i as int));
                object_insert(&mut template_values, params[i].0.clone(), params[i].1.deep_copy());
                i += 1;
            }
            assert(entries_data(params@).subrange(0, params.len() as int) =~= entries_data(params@));
        }
        assert(entries_data(template_values@) == initial_values(self.context));
        let mut clean_data = data.deep_copy();
        let mut extras: Option<JsonValue> = None;
        if let JsonValue::Object(_) = data {
            match data.get("debug_info") {
                Some(d) => {
                    if let JsonValue::Array(_) = d {
                        extras = Some(d.deep_copy());
                    } else if let JsonValue::String(_) = d {
                        extras = Some(d.deep_copy());
                    }
                },
                None => {},
            }
            match data.get("format_corrections") {
                Some(c) => {
                    if let JsonValue::Array(_) = c {
                        builder = builder.add_field("format_corrections", c.deep_copy());
                    }
                },
                None => {},
            }
            if let JsonValue::Object(m) = &mut clean_data {
                object_remove(m, "debug_info");
            }
        }
        assert(clean_data.data() == without_debug(data.data()));
        assert(opt_data(extras) == extras_debug_of(data.data()));
        let ghost start_data = opt_data(builder.data);
        let fields = &self.config.success_fields;
        let mut i: usize = 0;
        while i < fields.len()
            invariant
                i <= fields.len(),
                clean_data.data() == without_debug(data.data()),
                builder.status == ResponseStatus::Success,
                builder.message@ == Seq::<char>::empty(),
                builder.brp_mcp_debug_info is None,
                builder.brp_extras_debug_info is None,
                (opt_data(builder.data), entries_data(template_values@)) == add_fields(
                    fields_data(fields@).subrange(0, i as int), without_debug(data.data()), self.context,
                    start_data, initial_values(self.context)),
            decreases fields.len() - i,
        {
            let ghost pre = fields_data(fields@).subrange(0, i + 1);
            assert(pre.drop_last() =~= fields_data(fields@).subrange(0, i as int));
            let e = extractor_of(&fields[i].1);
            let value = e.extract(&clean_data, &self.context);
            builder = builder.add_field(fields[i].0.as_str(), value.deep_copy());
            object_insert(&mut template_values, fields[i].0.clone(), value);
            i += 1;
        }
        assert(fields_data(fields@).subrange(0, fields.len() as int) =~= fields_data(fields@));
        match &self.config.success_template {
            Some(t) => {
                let params = JsonValue::Object(template_values);
                let message = substitute_template(t.as_str(), Some(&params));
                builder = builder.message(message);
            },
            None => {},
        }
        builder = builder.auto_inject_debug_info(debug_enabled, copy_opt(&self.context.brp_mcp_debug_info), extras);
        builder.build()
    }
}

/// The error code of invalid JSON-RPC requests.
pub const BRP_ERROR_CODE_INVALID_REQUEST: i32 = -32600;

/// The hint added to invalid-request errors about sequences.
pub const SEQUENCE_HINT: &'static str = "\nHint: Math types like Vec3 use array format [x,y,z], not objects {x:1,y:2,z:3}";

/// An error message with the sequence hint where the error is an invalid
/// request about an expected sequence.
pub open spec fn hinted_message(code: i32, m: Seq<char>) -> Seq<char> {
    if code == BRP_ERROR_CODE_INVALID_REQUEST && crate::text::has_substring(m, "expected a sequence of"@) {
        m + SEQUENCE_HINT@
    } else {
        m
    }
}

fn add_sequence_hint(error: &mut BrpError)
    ensures
        final(error).code == old(error).code,
        final(error).message@ == hinted_message(old(error).code, old(error).message@),
        opt_data(final(error).data) == opt_data(old(error).data),
{
    if error.code == BRP_ERROR_CODE_INVALID_REQUEST
        && crate::text::contains_text(error.message.as_str(), "expected a sequence of") {
        error.message.append(SEQUENCE_HINT);
    }
}

/// `{"method": ..., "port": ...}`.
pub open spec fn metadata_object(method: Seq<char>, port: u16) -> JsonData {
    JsonData::Object(insert_entry(insert_entry(Seq::empty(), "method"@, JsonData::Str(method)), "port"@, count_data(port as nat)))
}

fn metadata_value(metadata: &BrpMetadata) -> (r: JsonValue)
    ensures
        r.data() == metadata_object(metadata.method@, metadata.port),
{
    let mut m: Vec<(String, JsonValue)> = Vec::new();
    assert(entries_data(m@) =~= Seq::<(Seq<char>, JsonData)>::empty());
    object_insert(&mut m, String::from_str("method"), JsonValue::String(metadata.method.clone()));
    object_insert(&mut m, String::from_str("port"), JsonValue::from_count(metadata.port as u128));
    JsonValue::Object(m)
}

/// The default error reply: the message, the code, the error data (or
/// `null`) and the request's metadata.
pub open spec fn default_error_reply(code: i32, message: Seq<char>, data: Option<JsonData>, method: Seq<char>, port: u16)
    -> (ResponseStatus, Seq<char>, Option<JsonData>, Option<JsonData>, Option<JsonData>) {
    let m = hinted_message(code, message);
    let d1 = with_field(None, "error_code"@, code_data(code));
    let d2 = with_field(d1, "data"@, match data { Some(x) => x, None => JsonData::Null });
    let d3 = with_field(d2, "metadata"@, metadata_object(method, port));
    (ResponseStatus::Error, m, d3, None, None)
}

/// Formats an error the default way.
pub fn format_error_default(error: BrpError, metadata: &BrpMetadata) -> (r: JsonResponse)
    ensures
        response_data(r) == default_error_reply(error.code, error.message@, opt_data(error.data), metadata.method@, metadata.port),
{
    let mut error = error;
    add_sequence_hint(&mut error);
    build_default_error_response(&error, metadata)
}

fn build_default_error_response(error: &BrpError, metadata: &BrpMetadata) -> (r: JsonResponse)
    ensures
        response_data(r) == (ResponseStatus::Error, error.message@,
            with_field(with_field(with_field(None, "error_code"@, code_data(error.code)), "data"@,
                match opt_data(error.data) { Some(x) => x, None => JsonData::Null }),
                "metadata"@, metadata_object(metadata.method@, metadata.port)),
            None::<JsonData>, None::<JsonData>),
{
    let data = match &error.data {
        Some(d) => d.deep_copy(),
        None => JsonValue::Null,
    };
    ResponseBuilder::error()
        .message(error.message.clone())
        .add_field("error_code", JsonValue::from_code(error.code))
        .add_field("data", data)
        .add_field("metadata", metadata_value(metadata))
        .build()
}

/// The error data's entries other than `metadata`, each added as a field.
pub open spec fn merge_fields(data: Option<JsonData>, entries: Seq<(Seq<char>, JsonData)>) -> Option<JsonData>
    decreases entries.len(),
{
    if entries.len() == 0 {
        data
    } else {
        let d = merge_fields(data, entries.drop_last());
        if entries.last().0 == "metadata"@ { d } else { with_field(d, entries.last().0, entries.last().1) }
    }
}

/// The error reply built from an error, the metadata object and the method.
pub open spec fn error_reply(
    code: i32,
    message: Seq<char>,
    data: Option<JsonData>,
    metadata_obj: JsonData,
    method: Seq<char>,
    context: FormatterContext,
    debug_enabled: bool,
) -> (ResponseStatus, Seq<char>, Option<JsonData>, Option<JsonData>, Option<JsonData>) {
    let extras = match data {
        Some(d) => if d is Object { extras_debug_of(d) } else { None },
        None => None,
    };
    let clean = match data {
        Some(d) => Some(without_debug(d)),
        None => None,
    };
    let fields = if method == "brp_execute"@ {
        with_field(with_field(None, "code"@, code_data(code)), "data"@, match clean { Some(x) => x, None => JsonData::Null })
    } else {
        let base = with_field(with_field(None, "error_code"@, code_data(code)), "metadata"@, metadata_obj);
        match clean {
            Some(JsonData::Object(entries)) => merge_fields(base, entries),
            _ => base,
        }
    };
    (ResponseStatus::Error, message, fields,
        if debug_enabled { opt_data(context.brp_mcp_debug_info) } else { None },
        if debug_enabled { extras } else { None })
}

impl ResponseFormatter {
    /// The error reply: the message, the code, and the metadata with the
    /// error data's other entries (or, for `brp_execute`, the code and the
    /// data), debug information taken out of the data.
    pub fn build_error_response(&self, error: &BrpError, metadata_obj: JsonValue, metadata: &BrpMetadata, debug_enabled: bool) -> (r: JsonResponse)
        ensures
            response_data(r) == error_reply(error.code, error.message@, opt_data(error.data), metadata_obj.data(),
                metadata.method@, self.context, debug_enabled),
    {
        let mut builder = ResponseBuilder::error().message(error.message.clone());
        let mut clean = copy_opt(&error.data);
        let mut extras: Option<JsonValue> = None;
        if let Some(d) = &error.data {
            if let JsonValue::Object(_) = d {
                match d.get("debug_info") {
                    Some(x) => {
                        if let JsonValue::Array(_) = x {
                            extras = Some(x.deep_copy());
                        } else if let JsonValue::String(_) = x {
                            extras = Some(x.deep_copy());
                        }
                    },
                    None => {},
                }
                if let Some(JsonValue::Object(m)) = &mut clean {
                    object_remove(m, "debug_info");
                }
            }
        }
        assert(opt_data(clean) == match opt_data(error.data) { Some(d) => Some(without_debug(d)), None => None::<JsonData> });
        if crate::text::same_text(metadata.method.as_str(), "brp_execute") {
            let data = match clean {
                Some(c) => c,
                None => JsonValue::Null,
            };
            builder = builder.add_field("code", JsonValue::from_code(error.code)).add_field("data", data);
        } else {
            builder = builder.add_field("error_code", JsonValue::from_code(error.code)).add_field("metadata", metadata_obj);
            if let Some(JsonValue::Object(entries)) = &clean {
                proof { lemma_entries_data(entries@); }
                let ghost base = opt_data(builder.data);
                let mut i: usize = 0;
                while i < entries.len()
                    invariant
                        i <= entries.len(),
                        entries_data(entries@).len() == entries@.len(),
                        forall|j: int| 0 <= j < entries@.len() ==> #[trigger] entries_data(entries@)[j] == (entries@[j].0@, entries@[j].1.data()),
                        builder.status == ResponseStatus::Error,
                        builder.message@ == error.message@,
                        builder.brp_mcp_debug_info is None,
                        builder.brp_extras_debug_info is None,
                        opt_data(builder.data) == merge_fields(base, entries_data(entries@).subrange(0, i as int)),
                    decreases entries.len() - i,
                {
                    let ghost pre = entries_data(entries@).subrange(0, i + 1);
                    assert(pre.drop_last() =~= entries_data(entries@).subrange(0, i as int));
                    if !crate::text::same_text(entries[i].0.as_str(), "metadata") {
                        builder = builder.add_field(entries[i].0.as_str(), entries[i].1.deep_copy());
                    }
                    i += 1;
                }
                assert(entries_data(entries@).subrange(0, entries.len() as int) =~= entries_data(entries@));
            }
        }
        builder = builder.auto_inject_debug_info(debug_enabled, copy_opt(&self.context.brp_mcp_debug_info), extras);
        builder.build()
    }
}

/// The metadata entries with the configured error metadata fields set.
pub open spec fn metadata_fields(
    fields: Seq<(Seq<char>, FieldExtractor)>,
    context: FormatterContext,
    entries: Seq<(Seq<char>, JsonData)>,
) -> Seq<(Seq<char>, JsonData)>
    decreases fields.len(),
{
    if fields.len() == 0 {
        entries
    } else {
        insert_entry(metadata_fields(fields.drop_last(), context, entries), fields.last().0,
            extracted(fields.last().1, JsonData::Null, context))
    }
}

/// The reply to an error: the sequence hint added, then either the default
/// formatting or the configured one.
pub open spec fn formatted_error(
    use_default: bool,
    fields: Seq<(Seq<char>, FieldExtractor)>,
    code: i32,
    message: Seq<char>,
    data: Option<JsonData>,
    method: Seq<char>,
    port: u16,
    context: FormatterContext,
    debug_enabled: bool,
) -> (ResponseStatus, Seq<char>, Option<JsonData>, Option<JsonData>, Option<JsonData>) {
    let m = hinted_message(code, message);
    if use_default {
        default_error_reply(code, m, data, method, port)
    } else {
        let meta = match metadata_object(method, port) {
            JsonData::Object(entries) => JsonData::Object(metadata_fields(fields, context, entries)),
            other => other,
        };
        error_reply(code, m, data, meta, method, context, debug_enabled)
    }
}

impl ResponseFormatter {
    /// Formats an error reply.
    pub fn format_error(&self, error: BrpError, metadata: &BrpMetadata, debug_enabled: bool) -> (r: JsonResponse)
        ensures
            response_data(r) == formatted_error(self.config.use_default_error, fields_data(self.config.error_metadata_fields@),
                error.code, error.message@, opt_data(error.data), metadata.method@, metadata.port, self.context, debug_enabled),
    {
        let mut error = error;
        add_sequence_hint(&mut error);
        if self.config.use_default_error {
            return format_error_default(error, metadata);
        }
        let mut meta = metadata_value(metadata);
        let fields = &self.config.error_metadata_fields;
        if let JsonValue::Object(m) = &mut meta {
            let ghost start = entries_data(m@);
            let mut i: usize = 0;
            while i < fields.len()
                invariant
                    i <= fields.len(),
                    entries_data(m@) == metadata_fields(fields_data(fields@).subrange(0, i as int), self.context, start),
                decreases fields.len() - i,
            {
                let ghost pre = fields_data(fields@).subrange(0, i + 1);
                assert(pre.drop_last() =~= fields_data(fields@).subrange(0, i as int));
                let e = extractor_of(&fields[i].1);
                let value = e.extract(&JsonValue::Null, &self.context);
                object_insert(m, fields[i].0.clone(), value);
                i += 1;
            }
            assert(fields_data(fields@).subrange(0, fields.len() as int) =~= fields_data(fields@));
        }
        self.build_error_response(&error, meta, metadata, debug_enabled)
    }

    /// Formats a success reply.
    pub fn format_success(&self, data: &JsonValue, _metadata: BrpMetadata, debug_enabled: bool) -> (r: JsonResponse)
        ensures
            response_data(r) == success_reply(
                match self.config.success_template { Some(t) => Some(t@), None => None },
                fields_data(self.config.success_fields@), self.context, data.data(), debug_enabled),
    {
        self.build_success_response(data, debug_enabled)
    }
}

/// Makes formatters of one configuration.
pub struct ResponseFormatterFactory {
    pub config: FormatterConfig,
}

/// Configures a formatter factory.
pub struct ResponseFormatterBuilder {
    pub config: FormatterConfig,
}

fn one_field(name: &str, e: FieldExtractor) -> (r: Vec<(String, FieldExtractor)>)
    ensures
        fields_data(r@) == seq![(name@, e)],
{
    let mut v: Vec<(String, FieldExtractor)> = Vec::new();
    v.push((String::from_str(name), e));
    assert(fields_data(v@) =~= seq![(name@, e)]);
    v
}

impl ResponseFormatterFactory {
    /// For simple entity operations: errors name the entity of the request.
    pub fn entity_operation(_entity_field: &str) -> (r: ResponseFormatterBuilder)
        ensures
            r.config.success_template is None,
            r.config.success_fields@.len() == 0,
            fields_data(r.config.error_metadata_fields@) == seq![("entity"@, FieldExtractor::EntityFromParams)],
            !r.config.use_default_error,
    {
        ResponseFormatterBuilder { config: FormatterConfig {
            success_template: None,
            success_fields: Vec::new(),
            error_metadata_fields: one_field("entity", FieldExtractor::EntityFromParams),
            use_default_error: false,
        } }
    }

    /// For resource operations: errors name the resource of the request.
    pub fn resource_operation(_resource_field: &str) -> (r: ResponseFormatterBuilder)
        ensures
            r.config.success_template is None,
            r.config.success_fields@.len() == 0,
            fields_data(r.config.error_metadata_fields@) == seq![("resource"@, FieldExtractor::ResourceFromParams)],
            !r.config.use_default_error,
    {
        ResponseFormatterBuilder { config: FormatterConfig {
            success_template: None,
            success_fields: Vec::new(),
            error_metadata_fields: one_field("resource", FieldExtractor::ResourceFromParams),
            use_default_error: false,
        } }
    }

    /// Passes the reply data through under `data`.
    pub fn pass_through() -> (r: ResponseFormatterBuilder)
        ensures
            r.config.success_template matches Some(t) && t@ == "Operation completed successfully"@,
            fields_data(r.config.success_fields@) == seq![("data"@, FieldExtractor::PassThroughData)],
            r.config.error_metadata_fields@.len() == 0,
            r.config.use_default_error,
    {
        ResponseFormatterBuilder { config: FormatterConfig {
            success_template: Some(String::from_str("Operation completed successfully")),
            success_fields: one_field("data", FieldExtractor::PassThroughData),
            error_metadata_fields: Vec::new(),
            use_default_error: true,
        } }
    }

    /// For list operations.
    pub fn list_operation() -> (r: ResponseFormatterBuilder)
        ensures
            r.config.success_template is None,
            r.config.success_fields@.len() == 0,
            r.config.error_metadata_fields@.len() == 0,
            r.config.use_default_error,
    {
        ResponseFormatterBuilder { config: FormatterConfig {
            success_template: None,
            success_fields: Vec::new(),
            error_metadata_fields: Vec::new(),
            use_default_error: true,
        } }
    }

    /// A formatter of this configuration for one request.
    pub fn create(&self, context: FormatterContext) -> (r: ResponseFormatter)
        ensures
            r.context == context,
            r.config.use_default_error == self.config.use_default_error,
            match (r.config.success_template, self.config.success_template) {
                (Some(a), Some(b)) => a@ == b@,
                (None, None) => true,
                _ => false,
            },
            fields_data(r.config.success_fields@) == fields_data(self.config.success_fields@),
            fields_data(r.config.error_metadata_fields@) == fields_data(self.config.error_metadata_fields@),
    {
        ResponseFormatter::new(copy_config(&self.config), context)
    }
}

fn copy_fields(v: &Vec<(String, FieldExtractor)>) -> (r: Vec<(String, FieldExtractor)>)
    ensures
        fields_data(r@) == fields_data(v@),
{
    let mut out: Vec<(String, FieldExtractor)> = Vec::new();
    let mut i: usize = 0;
    while i < v.len()
        invariant
            i <= v.len(),
            fields_data(out@) == fields_data(v@).subrange(0, i as int),
        decreases v.len() - i,
    {
        let name = v[i].0.clone();
        let ex = extractor_of(&v[i].1);
        let ghost before = fields_data(out@);
        out.push((name, ex));
        assert(fields_data(out@) =~= before.push(fields_data(v@)[i as int]));
        assert(fields_data(out@) =~= fields_data(v@).subrange(0, i + 1));
        i += 1;
    }
    assert(fields_data(v@).subrange(0, v.len() as int) =~= fields_data(v@));
    out
}

fn copy_config(c: &FormatterConfig) -> (r: FormatterConfig)
    ensures
        r.use_default_error == c.use_default_error,
        match (r.success_template, c.success_template) {
            (Some(a), Some(b)) => a@ == b@,
            (None, None) => true,
            _ => false,
        },
        fields_data(r.success_fields@) == fields_data(c.success_fields@),
        fields_data(r.error_metadata_fields@) == fields_data(c.error_metadata_fields@),
{
    FormatterConfig {
        success_template: match &c.success_template {
            Some(t) => Some(t.clone()),
            None => None,
        },
        success_fields: copy_fields(&c.success_fields),
        error_metadata_fields: copy_fields(&c.error_metadata_fields),
        use_default_error: c.use_default_error,
    }
}

impl ResponseFormatterBuilder {
    /// Sets the success message template.
    pub fn with_template(self, template: String) -> (r: ResponseFormatterBuilder)
        ensures
            r.config.success_template matches Some(t) && t@ == template@,
            r.config.success_fields == self.config.success_fields,
            r.config.error_metadata_fields == self.config.error_metadata_fields,
            r.config.use_default_error == self.config.use_default_error,
    {
        let FormatterConfig { success_template: _, success_fields, error_metadata_fields, use_default_error } = self.config;
        ResponseFormatterBuilder { config: FormatterConfig { success_template: Some(template), success_fields, error_metadata_fields, use_default_error } }
    }

    /// Adds a field to the success reply.
    pub fn with_response_field(self, name: String, extractor: FieldExtractor) -> (r: ResponseFormatterBuilder)
        ensures
            fields_data(r.config.success_fields@) == fields_data(self.config.success_fields@).push((name@, extractor)),
            r.config.success_template == self.config.success_template,
            r.config.error_metadata_fields == self.config.error_metadata_fields,
            r.config.use_default_error == self.config.use_default_error,
    {
        let FormatterConfig { success_template, mut success_fields, error_metadata_fields, use_default_error } = self.config;
        let ghost before = fields_data(success_fields@);
        let ghost n = name@;
        success_fields.push((name, extractor));
        assert(fields_data(success_fields@) =~= before.push((n, extractor)));
        ResponseFormatterBuilder { config: FormatterConfig { success_template, success_fields, error_metadata_fields, use_default_error } }
    }

    /// Uses the default error formatting.
    pub fn with_default_error(self) -> (r: ResponseFormatterBuilder)
        ensures
            r.config.use_default_error,
            r.config.success_template == self.config.success_template,
            r.config.success_fields == self.config.success_fields,
            r.config.error_metadata_fields == self.config.error_metadata_fields,
    {
        let FormatterConfig { success_template, success_fields, error_metadata_fields, use_default_error: _ } = self.config;
        ResponseFormatterBuilder { config: FormatterConfig { success_template, success_fields, error_metadata_fields, use_default_error: true } }
    }

    /// The factory of this configuration.
    pub fn build(self) -> (r: ResponseFormatterFactory)
        ensures
            r.config == self.config,
    {
        ResponseFormatterFactory { config: self.config }
    }
}

} // verus!
