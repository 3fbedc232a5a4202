//! The format discovery engine: when a request to a Bevy app is refused for
//! the format of a typed value, the engine tries tier after tier to find a
//! format the app accepts, and sends the request again with it.
//!
//! The engine is a state machine. Each step names the request the app must
//! send next (`DiscoveryAction::Send`) or ends discovery; the app sends the
//! request and hands its outcome back to `FormatDiscovery::resume`.

use vstd::prelude::*;
use crate::brp_client::BrpResult;
use crate::detection::{BrpError, SerializationCheck, analyze_error_pattern, analyze_schema_for_type, crate_of, extract_crate_name, first_pattern_from, pattern_data_of, schema_check};
use crate::discovery::{BRP_METHOD_INSERT, BRP_METHOD_SPAWN, FormatCorrection, ParameterLocation, TierInfo, TierManager, TIER_DETERMINISTIC, TIER_DIRECT_DISCOVERY, TIER_GENERIC_FALLBACK, TIER_SERIALIZATION, apply_corrections, corrected_params, extract_type_items, get_parameter_location, is_discovery_method, is_type_format_error, location_of, supports_format_discovery, tier_info_to_debug_strings, type_items};
use crate::json::{JsonData, JsonValue, count_data, entries_data, field_of, lemma_entries_data, lemma_values_data, lookup, u64_of, values_data};
use crate::response::opt_data;
use crate::text::{concat2, concat3, contains_text, decimal_string, has_substring, same_text};
use crate::transformations::{apply_pattern_fix, fix_data, legacy_fix, pattern_fix, try_component_format_alternatives_legacy};

verus! {

pub const BRP_METHOD_REGISTRY_SCHEMA: &'static str = "bevy/registry/schema";
pub const BRP_METHOD_EXTRAS_DISCOVER_FORMAT: &'static str = "brp_extras/discover_format";
pub const BRP_METHOD_DESTROY: &'static str = "bevy/destroy";

/// The words of a serialization diagnostic that says a type cannot be sent.
pub const UNUSABLE_TYPE_MARK: &'static str = "cannot be used with BRP";
/// The hint of a format that the running app gave.
pub const DIRECT_DISCOVERY_HINT: &'static str = "Direct discovery from bevy_brp_extras";

/// The parameters of the registry schema query for one type: the
/// component and resource types of the type's crate.
pub open spec fn schema_request(t: Seq<char>) -> JsonData {
    JsonData::Object(seq![
        ("with_crates"@, JsonData::Array(seq![JsonData::Str(crate_of(t))])),
        ("with_types"@, JsonData::Array(seq![JsonData::Str("Component"@), JsonData::Str("Resource"@)])),
    ])
}

/// The parameters of the direct format query for one type.
pub open spec fn format_request(t: Seq<char>) -> JsonData {
    JsonData::Object(seq![("types"@, JsonData::Array(seq![JsonData::Str(t)]))])
}

/// The parameters of a test spawn of one component.
pub open spec fn spawn_request(t: Seq<char>, v: JsonData) -> JsonData {
    JsonData::Object(seq![("components"@, JsonData::Object(seq![(t, v)]))])
}

/// The parameters that destroy one entity.
pub open spec fn destroy_request(id: nat) -> JsonData {
    JsonData::Object(seq![("entity"@, count_data(id))])
}

fn text_value(s: String) -> (r: JsonValue)
    ensures
        r.data() == JsonData::Str(s@),
{
    JsonValue::String(s)
}

fn single_array(v: JsonValue) -> (r: JsonValue)
    ensures
        r.data() == JsonData::Array(seq![v.data()]),
{
    let ghost vd = v.data();
    let items = vec![v];
    proof {
        lemma_values_data(items@);
        assert(values_data(items@) =~= seq![vd]);
    }
    JsonValue::Array(items)
}

fn single_member(k: &str, v: JsonValue) -> (r: JsonValue)
    ensures
        r.data() == JsonData::Object(seq![(k@, v.data())]),
{
    let ghost vd = v.data();
    let entries = vec![(String::from_str(k), v)];
    proof {
        lemma_entries_data(entries@);
        assert(entries_data(entries@) =~= seq![(k@, vd)]);
    }
    JsonValue::Object(entries)
}

/// The parameters of the registry schema query for `type_path`.
pub fn schema_params(type_path: &str) -> (r: JsonValue)
    ensures
        r.data() == schema_request(type_path@),
{
    let krate = text_value(extract_crate_name(type_path));
    let ghost kd = krate.data();
    let crates = single_array(krate);
    let kinds_items = vec![text_value(String::from_str("Component")), text_value(String::from_str("Resource"))];
    proof {
        lemma_values_data(kinds_items@);
        reveal_strlit("Component");
        reveal_strlit("Resource");
        assert(values_data(kinds_items@) =~= seq![JsonData::Str("Component"@), JsonData::Str("Resource"@)]);
    }
    let kinds = JsonValue::Array(kinds_items);
    let ghost cd = crates.data();
    let ghost td = kinds.data();
    let entries = vec![(String::from_str("with_crates"), crates), (String::from_str("with_types"), kinds)];
    proof {
        lemma_entries_data(entries@);
        assert(entries_data(entries@) =~= seq![("with_crates"@, cd), ("with_types"@, td)]);
    }
    JsonValue::Object(entries)
}

/// The parameters of the direct format query for `type_path`.
pub fn format_params(type_path: &str) -> (r: JsonValue)
    ensures
        r.data() == format_request(type_path@),
{
    single_member("types", single_array(text_value(String::from_str(type_path))))
}

/// The parameters of a test spawn of `value` as component `type_path`.
pub fn spawn_params(type_path: &str, value: JsonValue) -> (r: JsonValue)
    ensures
        r.data() == spawn_request(type_path@, value.data()),
{
    single_member("components", single_member(type_path, value))
}

/// The parameters that destroy entity `id`.
pub fn destroy_params(id: u64) -> (r: JsonValue)
    ensures
        r.data() == destroy_request(id as nat),
{
    single_member("entity", JsonValue::from_count(id as u128))
}

/// What the reply to a registry schema query says of `t`: a diagnostic, or
/// the failure of the query.
pub open spec fn schema_outcome(t: Seq<char>, reply: Result<BrpResult, String>) -> Result<Seq<char>, Seq<char>> {
    match reply {
        Ok(BrpResult::Success(Some(d))) => schema_check(t, d.data()),
        Ok(BrpResult::Success(None)) => Ok("No schema data returned for type `"@ + t + "`"@),
        Ok(BrpResult::Error(e)) => Ok("Failed to query schema for type `"@ + t + "`: "@ + e.message@),
        Err(e) => Err(e@),
    }
}

/// Checks from the registry schema reply whether `type_path` supports the
/// reflection traits that BRP needs to send it.
pub fn check_type_serialization(type_path: &str, reply: Result<BrpResult, String>) -> (r: Result<SerializationCheck, String>)
    ensures
        match r {
            Ok(c) => schema_outcome(type_path@, reply) == Ok::<Seq<char>, Seq<char>>(c.diagnostic_message@),
            Err(e) => schema_outcome(type_path@, reply) == Err::<Seq<char>, Seq<char>>(e@),
        },
{
    match reply {
        Ok(BrpResult::Success(Some(schema_data))) => analyze_schema_for_type(type_path, &schema_data),
        Ok(BrpResult::Success(None)) => Ok(SerializationCheck {
            diagnostic_message: concat3("No schema data returned for type `", type_path, "`"),
        }),
        Ok(BrpResult::Error(err)) => {
            let mut m = concat3("Failed to query schema for type `", type_path, "`: ");
            m.append(err.message.as_str());
            Ok(SerializationCheck { diagnostic_message: m })
        },
        Err(e) => Err(e),
    }
}

/// The example spawn format that a direct format query reply gives for `t`.
pub open spec fn direct_format(t: Seq<char>, reply: Result<BrpResult, String>) -> Option<JsonData> {
    match reply {
        Ok(BrpResult::Success(Some(d))) => match field_of(d.data(), "formats"@) {
            Some(JsonData::Object(fs)) => match lookup(fs, t) {
                Some(info) => match field_of(info, "spawn_format"@) {
                    Some(sf) => field_of(sf, "example"@),
                    None => None,
                },
                None => None,
            },
            _ => None,
        },
        _ => None,
    }
}

/// Reads the example spawn format of `type_path` from a direct format
/// query reply.
pub fn direct_discovery_format(type_path: &str, reply: &Result<BrpResult, String>) -> (r: Option<JsonValue>)
    ensures
        opt_data(r) == direct_format(type_path@, *reply),
{
    match reply {
        Ok(BrpResult::Success(Some(data))) => match data.get("formats") {
            Some(JsonValue::Object(_)) => {
                let formats = data.get("formats").unwrap();
                match formats.get(type_path) {
                    Some(info) => match info.get("spawn_format") {
                        Some(sf) => match sf.get("example") {
                            Some(ex) => Some(ex.deep_copy()),
                            None => None,
                        },
                        None => None,
                    },
                    None => None,
                }
            },
            _ => None,
        },
        _ => None,
    }
}

/// What tiers 3 and 4 find for a value: the fix of the error's pattern,
/// else the first generic alternative.
pub open spec fn fallback_fix(t: Seq<char>, d: JsonData, message: Seq<char>) -> Option<(JsonData, Seq<char>)> {
    match first_pattern_from(0, message) {
        Some(p) => match pattern_fix(p, t, d) {
            Some(x) => Some(x),
            None => legacy_fix(t, d),
        },
        None => legacy_fix(t, d),
    }
}

/// The phase of a discovery: which reply it waits for.
#[derive(Debug, Clone, Copy, PartialEq, Eq, Structural)]
pub enum DiscoveryPhase {
    /// The reply to the request as the caller wrote it.
    AwaitInitial,
    /// The reply to the registry schema query of the current type.
    AwaitSchema,
    /// The reply to the direct format query of the current type.
    AwaitDirect,
    /// The reply to the test spawn of the current candidate.
    AwaitSpawnTest,
    /// The reply to the destruction of the test entity.
    AwaitCleanup,
    /// The reply to the request sent again with the corrections.
    AwaitRetry,
    /// Discovery is over.
    Done,
}

/// Response with format corrections.
pub struct EnhancedBrpResult {
    pub result: BrpResult,
    pub format_corrections: Vec<FormatCorrection>,
    pub debug_info: Vec<String>,
}

/// What the app does next.
pub enum DiscoveryAction {
    /// Send this request and hand its outcome to `FormatDiscovery::resume`.
    Send { method: String, params: Option<JsonValue> },
    /// Discovery is over with this result.
    Finish(EnhancedBrpResult),
    /// A request whose failure ends discovery failed: the app returns that
    /// failure.
    Fail,
}

/// The state of one format discovery.
pub struct FormatDiscovery {
    pub method: String,
    pub params: Option<JsonValue>,
    pub phase: DiscoveryPhase,
    /// The error of the first reply, once it came.
    pub original_error: Option<BrpError>,
    pub location: ParameterLocation,
    /// The typed values of the request, with their type names.
    pub items: Vec<(String, JsonValue)>,
    /// How many of them are done.
    pub index: usize,
    /// The tiers tried for the current type.
    pub tiers: TierManager,
    /// The format found for the current type, with its hint.
    pub candidate: Option<(JsonValue, String)>,
    /// The entity of the test spawn.
    pub test_entity: u64,
    pub corrections: Vec<FormatCorrection>,
    /// For each correction, the position of the typed value it corrects.
    pub sources: Ghost<Seq<int>>,
    /// The values to send, one per type done.
    pub corrected: Vec<(String, JsonValue)>,
    pub all_tiers: Vec<TierInfo>,
    pub debug_info: Vec<String>,
}

/// Whether a correction is of a typed value of the request: same type
/// name, and the value the caller sent as its original format.
pub open spec fn from_request(c: FormatCorrection, item: (String, JsonValue)) -> bool {
    c.component@ == item.0@ && c.original_format.data() == item.1.data()
}

/// Whether each correction is of the typed value of the request that
/// `sources` names for it, among the first `n`.
pub open spec fn sourced(corrections: Seq<FormatCorrection>, items: Seq<(String, JsonValue)>, sources: Seq<int>, n: int) -> bool {
    &&& sources.len() == corrections.len()
    &&& forall|j: int| 0 <= j < corrections.len() ==> 0 <= #[trigger] sources[j] < n
        && from_request(corrections[j], items[sources[j]])
}

/// The phases that work on one type.
pub open spec fn is_item_phase(p: DiscoveryPhase) -> bool {
    p == DiscoveryPhase::AwaitSchema || p == DiscoveryPhase::AwaitDirect
        || p == DiscoveryPhase::AwaitSpawnTest || p == DiscoveryPhase::AwaitCleanup
}

/// Whether discovery takes up a first reply: a type format error for a
/// method that supports discovery, on parameters that carry typed values.
pub open spec fn discovery_applies(method: Seq<char>, params: Option<JsonData>, reply: BrpResult) -> bool {
    &&& reply matches BrpResult::Error(e)
    &&& (e.code == crate::discovery::COMPONENT_FORMAT_ERROR_CODE || e.code == crate::discovery::RESOURCE_FORMAT_ERROR_CODE)
    &&& is_discovery_method(method)
    &&& params matches Some(p)
    &&& type_items(p, location_of(method)).len() > 0
}

/// Format discovery takes up only type format errors of the methods that
/// send typed values, on parameters that carry them: a success, any other
/// error and any other method are answered as they came.
pub proof fn lemma_discovery_scope(method: Seq<char>, params: Option<JsonData>, reply: BrpResult)
    ensures
        discovery_applies(method, params, reply) ==> {
            &&& reply is Error
            &&& (reply->Error_0.code == crate::discovery::COMPONENT_FORMAT_ERROR_CODE
                || reply->Error_0.code == crate::discovery::RESOURCE_FORMAT_ERROR_CODE)
            &&& is_discovery_method(method)
            &&& params is Some
        },
{
}

/// Whether a method's typed values first get the serialization check:
/// those of `bevy/insert` and `bevy/spawn`; every other method starts with
/// the direct format query.
pub open spec fn schema_first(method: Seq<char>) -> bool {
    method == BRP_METHOD_INSERT@ || method == BRP_METHOD_SPAWN@
}

/// The entity that the reply to a test spawn names.
pub open spec fn spawned_entity(reply: Result<BrpResult, String>) -> Option<nat> {
    match reply {
        Ok(BrpResult::Success(Some(d))) => match field_of(d.data(), "entity"@) {
            Some(e) => u64_of(e),
            None => None,
        },
        _ => None,
    }
}

impl FormatDiscovery {
    /// The consistency of a discovery state.
    pub open spec fn wf(&self) -> bool {
        &&& self.index <= self.items@.len()
        &&& self.corrected@.len() == self.index
        &&& forall|i: int| 0 <= i < self.index ==> #[trigger] self.corrected@[i].0@ == self.items@[i].0@
        &&& self.corrections@.len() <= self.index
        &&& sourced(self.corrections@, self.items@, self.sources@, self.index as int)
        &&& is_item_phase(self.phase) ==> self.index < self.items@.len()
        &&& (self.phase == DiscoveryPhase::AwaitSpawnTest || self.phase == DiscoveryPhase::AwaitCleanup)
            ==> self.candidate is Some
        &&& self.items@.len() > 0 ==> (self.params matches Some(p) && p.data() is Object)
        &&& self.phase == DiscoveryPhase::AwaitRetry
            ==> self.index == self.items@.len() && self.corrections@.len() > 0
        &&& (self.phase != DiscoveryPhase::AwaitInitial && self.phase != DiscoveryPhase::Done)
            ==> self.original_error is Some
    }

    /// The request that the current phase waits for: its method and params.
    pub open spec fn awaited(&self) -> (Seq<char>, Option<JsonData>) {
        match self.phase {
            DiscoveryPhase::AwaitInitial => (self.method@, opt_data(self.params)),
            DiscoveryPhase::AwaitSchema => (BRP_METHOD_REGISTRY_SCHEMA@, Some(schema_request(self.items@[self.index as int].0@))),
            DiscoveryPhase::AwaitDirect => (BRP_METHOD_EXTRAS_DISCOVER_FORMAT@, Some(format_request(self.items@[self.index as int].0@))),
            DiscoveryPhase::AwaitSpawnTest => (BRP_METHOD_SPAWN@, Some(spawn_request(
                self.items@[self.index as int].0@, self.candidate.unwrap().0.data()))),
            DiscoveryPhase::AwaitCleanup => (BRP_METHOD_DESTROY@, Some(destroy_request(self.test_entity as nat))),
            DiscoveryPhase::AwaitRetry => (self.method@, Some(corrected_params(
                self.params.unwrap().data(), self.location, entries_data(self.corrected@)))),
            DiscoveryPhase::Done => (Seq::empty(), None),
        }
    }

    /// What the tiers of the current type found: the value to send for the
    /// type, with the hint that tells the user why; where nothing was found,
    /// the value the caller wrote is kept.
    pub open spec fn found_value(found: Option<(JsonValue, String)>) -> Option<(JsonData, Seq<char>)> {
        match found {
            Some((v, h)) => Some((v.data(), h@)),
            None => None,
        }
    }

    /// The current type is recorded with `found` (or with the value the
    /// caller wrote, where nothing was found), and discovery moves on: to
    /// the next type, or, after the last one, to the retry with the
    /// corrections, or to the first error where there are none.
    pub open spec fn moves_on(&self, next: Self, found: Option<(JsonData, Seq<char>)>, a: DiscoveryAction) -> bool {
        let i = self.index as int;
        &&& next.items == self.items
        &&& next.index == self.index + 1
        &&& next.corrected@.drop_last() == self.corrected@
        &&& next.corrected@[i].0@ == self.items@[i].0@
        &&& next.corrected@[i].1.data() == (match found {
            Some(f) => f.0,
            None => self.items@[i].1.data(),
        })
        &&& next.corrections@.len() == self.corrections@.len() + (if found is Some { 1int } else { 0int })
        &&& found is Some ==> next.corrections@.drop_last() == self.corrections@
            && next.corrections@.last().component@ == self.items@[i].0@
            && next.corrections@.last().original_format.data() == self.items@[i].1.data()
            && next.corrections@.last().corrected_format.data() == found->Some_0.0
            && next.corrections@.last().hint@ == found->Some_0.1
        &&& found is None && next.corrections@.len() > 0 ==> next.corrections == self.corrections
        &&& next.index < next.items@.len() ==> (next.phase == DiscoveryPhase::AwaitSchema
            || next.phase == DiscoveryPhase::AwaitDirect)
            && (next.phase == DiscoveryPhase::AwaitSchema <==> schema_first(self.method@))
        &&& next.index == next.items@.len() && next.corrections@.len() > 0 ==> next.phase == DiscoveryPhase::AwaitRetry
        &&& next.index == next.items@.len() && next.corrections@.len() == 0 ==> (a matches DiscoveryAction::Finish(e)
            && e.result matches BrpResult::Error(x)
            && x.code == self.original_error.unwrap().code && x.message@ == self.original_error.unwrap().message@
            && opt_data(x.data) == opt_data(self.original_error.unwrap().data))
    }

    /// The current type is settled with what its tiers found: for a spawn,
    /// a value found is first tried in a test spawn; otherwise discovery
    /// moves on with it.
    pub open spec fn settles(&self, next: Self, found: Option<(JsonData, Seq<char>)>, a: DiscoveryAction) -> bool {
        if found is Some && self.method@ == BRP_METHOD_SPAWN@ {
            &&& next.phase == DiscoveryPhase::AwaitSpawnTest
            &&& next.items == self.items
            &&& next.index == self.index
            &&& next.corrected == self.corrected
            &&& next.corrections == self.corrections
            &&& next.candidate matches Some(c) && c.0.data() == found->Some_0.0 && c.1@ == found->Some_0.1
        } else {
            self.moves_on(next, found, a)
        }
    }

    /// What the serialization check finds for the current type: where the
    /// diagnostic says that the type cannot be used with BRP, the value
    /// written, sent on with the diagnostic as its hint, so that the user
    /// sees why; nothing otherwise.
    pub open spec fn schema_found(&self, diagnostic: Seq<char>) -> Option<(JsonData, Seq<char>)> {
        if has_substring(diagnostic, UNUSABLE_TYPE_MARK@) {
            Some((self.items@[self.index as int].1.data(), diagnostic))
        } else {
            None
        }
    }

    /// What the current type gets after the direct format query: the
    /// example format the running app gives, with a hint naming that source;
    /// else the fix of the error's pattern, else a generic alternative, each
    /// with its own hint.
    pub open spec fn direct_found(&self, reply: Result<BrpResult, String>) -> Option<(JsonData, Seq<char>)> {
        let i = self.index as int;
        let t = self.items@[i].0@;
        match direct_format(t, reply) {
            Some(f) => Some((f, DIRECT_DISCOVERY_HINT@)),
            None => fallback_fix(t, self.items@[i].1.data(), self.original_error.unwrap().message@),
        }
    }

    /// The step after the serialization check: the type is settled with
    /// what the check finds; where the schema could not be had at all, the
    /// direct format query comes next.
    pub open spec fn after_schema(&self, next: Self, reply: Result<BrpResult, String>, a: DiscoveryAction) -> bool {
        match schema_outcome(self.items@[self.index as int].0@, reply) {
            Ok(diagnostic) => self.settles(next, self.schema_found(diagnostic), a),
            Err(_) => {
                &&& next.phase == DiscoveryPhase::AwaitDirect
                &&& next.items == self.items
                &&& next.index == self.index
                &&& next.corrected == self.corrected
                &&& next.corrections == self.corrections
            },
        }
    }

    /// The step after the test spawn: where it made an entity, that entity
    /// is destroyed next; a spawn that succeeded without naming one records
    /// the candidate; a failed one records nothing for the type.
    pub open spec fn after_spawn_test(&self, next: Self, reply: Result<BrpResult, String>, a: DiscoveryAction) -> bool {
        match spawned_entity(reply) {
            Some(id) => {
                &&& next.phase == DiscoveryPhase::AwaitCleanup
                &&& next.test_entity == id
                &&& next.items == self.items
                &&& next.index == self.index
                &&& next.corrected == self.corrected
                &&& next.corrections == self.corrections
                &&& next.candidate == self.candidate
            },
            None => self.moves_on(next,
                if reply matches Ok(BrpResult::Success(Some(_))) { Self::found_value(self.candidate) } else { None }, a),
        }
    }

    /// How an action goes with the state after it: a request is the one the
    /// state waits for; discovery is over otherwise.
    pub open spec fn acts(&self, action: DiscoveryAction) -> bool {
        match action {
            DiscoveryAction::Send { method, params } => self.phase != DiscoveryPhase::Done
                && self.awaited() == (method@, opt_data(params)),
            _ => self.phase == DiscoveryPhase::Done,
        }
    }

    /// Starts a discovery for `method` with `params`: the request is first
    /// sent as written.
    pub fn start(method: String, params: Option<JsonValue>) -> (r: (FormatDiscovery, DiscoveryAction))
        ensures
            r.0.wf(),
            r.0.phase == DiscoveryPhase::AwaitInitial,
            r.0.method@ == method@,
            opt_data(r.0.params) == opt_data(params),
            r.0.acts(r.1),
            r.0.items@.len() == 0,
            r.0.index == 0,
            r.0.corrections@.len() == 0,
    {
        let mut debug_info: Vec<String> = Vec::new();
        debug_info.push(concat3("Format Discovery: Executing method '", method.as_str(), "'"));
        let send_params = match &params {
            Some(p) => Some(p.deep_copy()),
            None => None,
        };
        let send = DiscoveryAction::Send { method: method.clone(), params: send_params };
        let state = FormatDiscovery {
            method,
            params,
            phase: DiscoveryPhase::AwaitInitial,
            original_error: None,
            location: ParameterLocation::Components,
            items: Vec::new(),
            index: 0,
            tiers: TierManager::new(),
            candidate: None,
            test_entity: 0,
            corrections: Vec::new(),
            sources: Ghost(Seq::empty()),
            corrected: Vec::new(),
            all_tiers: Vec::new(),
            debug_info,
        };
        (state, send)
    }

    fn finish(&mut self, result: BrpResult) -> (a: DiscoveryAction)
        requires
            old(self).wf(),
        ensures
            final(self).wf(),
            final(self).phase == DiscoveryPhase::Done,
            final(self).method == old(self).method,
            final(self).params == old(self).params,
            final(self).items == old(self).items,
            final(self).index == old(self).index,
            final(self).corrected == old(self).corrected,
            a matches DiscoveryAction::Finish(e) && e.result == result
                && e.format_corrections@ == old(self).corrections@,
            final(self).corrections@.len() == 0,
    {
        self.phase = DiscoveryPhase::Done;
        let mut corrections: Vec<FormatCorrection> = Vec::new();
        std::mem::swap(&mut corrections, &mut self.corrections);
        let mut debug_info: Vec<String> = Vec::new();
        std::mem::swap(&mut debug_info, &mut self.debug_info);
        proof { self.sources@ = Seq::empty(); }
        DiscoveryAction::Finish(EnhancedBrpResult { result, format_corrections: corrections, debug_info })
    }

    fn original_error_copy(&self) -> (r: BrpError)
        requires
            self.original_error is Some,
        ensures
            r.code == self.original_error.unwrap().code,
            r.message@ == self.original_error.unwrap().message@,
            opt_data(r.data) == opt_data(self.original_error.unwrap().data),
    {
        let e = self.original_error.as_ref().unwrap();
        let data = match &e.data {
            Some(d) => Some(d.deep_copy()),
            None => None,
        };
        BrpError { code: e.code, message: e.message.clone(), data }
    }

    /// Starts the tiers of the current type: the serialization check for
    /// spawn and insert, the direct format query otherwise.
    fn begin_item(&mut self) -> (a: DiscoveryAction)
        requires
            old(self).wf(),
            old(self).index < old(self).items@.len(),
            old(self).original_error is Some,
            old(self).phase != DiscoveryPhase::AwaitRetry,
        ensures
            final(self).wf(),
            final(self).acts(a),
            final(self).phase == DiscoveryPhase::AwaitSchema || final(self).phase == DiscoveryPhase::AwaitDirect,
            final(self).phase == DiscoveryPhase::AwaitSchema
                <==> (old(self).method@ == BRP_METHOD_INSERT@ || old(self).method@ == BRP_METHOD_SPAWN@),
            final(self).method == old(self).method,
            final(self).params == old(self).params,
            final(self).original_error == old(self).original_error,
            final(self).items == old(self).items,
            final(self).index == old(self).index,
            final(self).corrections@.len() == old(self).corrections@.len(),
            final(self).corrections == old(self).corrections,
            final(self).corrected == old(self).corrected,
    {
        self.phase = DiscoveryPhase::AwaitDirect;
        self.tiers = TierManager::new();
        self.candidate = None;
        let type_path = self.items[self.index].0.clone();
        self.debug_info.push(concat3("Format Discovery: Checking type '", type_path.as_str(), "'"));
        if same_text(self.method.as_str(), BRP_METHOD_INSERT) || same_text(self.method.as_str(), BRP_METHOD_SPAWN) {
            self.tiers.start_tier(TIER_SERIALIZATION, "Serialization Diagnostics",
                concat2("Checking serialization support for type: ", type_path.as_str()));
            self.phase = DiscoveryPhase::AwaitSchema;
            DiscoveryAction::Send {
                method: String::from_str(BRP_METHOD_REGISTRY_SCHEMA),
                params: Some(schema_params(type_path.as_str())),
            }
        } else {
            self.start_direct()
        }
    }

    /// Starts tier 2: the direct format query of the current type.
    fn start_direct(&mut self) -> (a: DiscoveryAction)
        requires
            old(self).wf(),
            old(self).index < old(self).items@.len(),
            old(self).original_error is Some,
            old(self).phase != DiscoveryPhase::AwaitRetry,
        ensures
            final(self).wf(),
            final(self).acts(a),
            final(self).phase == DiscoveryPhase::AwaitDirect,
            final(self).method == old(self).method,
            final(self).params == old(self).params,
            final(self).original_error == old(self).original_error,
            final(self).items == old(self).items,
            final(self).index == old(self).index,
            final(self).candidate == old(self).candidate,
            final(self).corrections@.len() == old(self).corrections@.len(),
            final(self).corrections == old(self).corrections,
            final(self).corrected == old(self).corrected,
    {
        let type_path = self.items[self.index].0.clone();
        self.tiers.start_tier(TIER_DIRECT_DISCOVERY, "Direct Discovery",
            concat2("Calling brp_extras/discover_format for type: ", type_path.as_str()));
        self.phase = DiscoveryPhase::AwaitDirect;
        DiscoveryAction::Send {
            method: String::from_str(BRP_METHOD_EXTRAS_DISCOVER_FORMAT),
            params: Some(format_params(type_path.as_str())),
        }
    }
}

/// The name of a pattern's kind, as the tier report shows it.
pub open spec fn pattern_kind_name(p: crate::detection::ErrorPattern) -> Seq<char> {
    match p {
        crate::detection::ErrorPattern::TransformSequence { .. } => "TransformSequence"@,
        crate::detection::ErrorPattern::ExpectedType { .. } => "ExpectedType"@,
        crate::detection::ErrorPattern::MathTypeArray { .. } => "MathTypeArray"@,
        crate::detection::ErrorPattern::UnknownComponentType { .. } => "UnknownComponentType"@,
        crate::detection::ErrorPattern::TupleStructAccess { .. } => "TupleStructAccess"@,
        crate::detection::ErrorPattern::AccessError { .. } => "AccessError"@,
        crate::detection::ErrorPattern::TypeMismatch { .. } => "TypeMismatch"@,
        crate::detection::ErrorPattern::VariantTypeMismatch { .. } => "VariantTypeMismatch"@,
        crate::detection::ErrorPattern::MissingField { .. } => "MissingField"@,
        crate::detection::ErrorPattern::UnknownComponent { .. } => "UnknownComponent"@,
    }
}

/// The name of a pattern's kind, as the tier report shows it.
fn pattern_kind(p: &crate::detection::ErrorPattern) -> (r: &'static str)
    ensures
        r@ == pattern_kind_name(*p),
{
    match p {
        crate::detection::ErrorPattern::TransformSequence { .. } => "TransformSequence",
        crate::detection::ErrorPattern::ExpectedType { .. } => "ExpectedType",
        crate::detection::ErrorPattern::MathTypeArray { .. } => "MathTypeArray",
        crate::detection::ErrorPattern::UnknownComponentType { .. } => "UnknownComponentType",
        crate::detection::ErrorPattern::TupleStructAccess { .. } => "TupleStructAccess",
        crate::detection::ErrorPattern::AccessError { .. } => "AccessError",
        crate::detection::ErrorPattern::TypeMismatch { .. } => "TypeMismatch",
        crate::detection::ErrorPattern::VariantTypeMismatch { .. } => "VariantTypeMismatch",
        crate::detection::ErrorPattern::MissingField { .. } => "MissingField",
        crate::detection::ErrorPattern::UnknownComponent { .. } => "UnknownComponent",
    }
}

impl FormatDiscovery {
    /// Tiers 3 and 4 for the current type: the fix of the error's pattern,
    /// else a generic alternative.
    fn fallback_tiers(&mut self) -> (r: Option<(JsonValue, String)>)
        requires
            old(self).index < old(self).items@.len(),
            old(self).original_error is Some,
        ensures
            fix_data(r) == fallback_fix(old(self).items@[old(self).index as int].0@,
                old(self).items@[old(self).index as int].1.data(), old(self).original_error.unwrap().message@),
            final(self).method == old(self).method,
            final(self).params == old(self).params,
            final(self).phase == old(self).phase,
            final(self).original_error == old(self).original_error,
            final(self).items == old(self).items,
            final(self).index == old(self).index,
            final(self).candidate == old(self).candidate,
            final(self).test_entity == old(self).test_entity,
            final(self).corrections == old(self).corrections,
            final(self).sources == old(self).sources,
            final(self).corrected == old(self).corrected,
            final(self).location == old(self).location,
    {
        let i = self.index;
        let type_path = self.items[i].0.clone();
        let error = self.original_error_copy();
        let analysis = analyze_error_pattern(&error);
        match &analysis.pattern {
            Some(pattern) => {
                self.tiers.start_tier(TIER_DETERMINISTIC, "Deterministic Pattern Matching",
                    concat2("Matched pattern: ", pattern_kind(pattern)));
                let fixed = apply_pattern_fix(pattern, type_path.as_str(), &self.items[i].1);
                match fixed {
                    Some((value, hint)) => {
                        self.tiers.complete_tier(true, concat2("Applied pattern fix: ", hint.as_str()));
                        return Some((value, hint));
                    },
                    None => {},
                }
            },
            None => {},
        }
        self.tiers.start_tier(TIER_GENERIC_FALLBACK, "Generic Fallback", String::from_str("Trying generic format alternatives"));
        let fallback = try_component_format_alternatives_legacy(type_path.as_str(), &self.items[i].1, &error);
        if fallback.is_some() {
            self.tiers.complete_tier(true, String::from_str("Found generic format alternative"));
        } else {
            self.tiers.complete_tier(false, String::from_str("No generic alternative found"));
        }
        fallback
    }

    /// Records the outcome for the current type and moves to the next one.
    fn record(&mut self, found: Option<(JsonValue, String)>)
        requires
            old(self).wf(),
            old(self).index < old(self).items@.len(),
            old(self).phase != DiscoveryPhase::AwaitRetry,
        ensures
            final(self).index == old(self).index + 1,
            final(self).method == old(self).method,
            final(self).params == old(self).params,
            final(self).original_error == old(self).original_error,
            final(self).items == old(self).items,
            final(self).location == old(self).location,
            final(self).phase == DiscoveryPhase::Done,
            final(self).wf(),
            final(self).corrections@.len() == old(self).corrections@.len() + (if found is Some { 1int } else { 0int }),
            final(self).corrected@.drop_last() == old(self).corrected@,
            final(self).corrected@.last().0@ == old(self).items@[old(self).index as int].0@,
            final(self).corrected@.last().1.data() == (match found {
                Some((v, _)) => v.data(),
                None => old(self).items@[old(self).index as int].1.data(),
            }),
            final(self).corrected@.len() == final(self).index,
            forall|i: int| 0 <= i < final(self).index ==> #[trigger] final(self).corrected@[i].0@ == final(self).items@[i].0@,
            final(self).corrections@.len() <= final(self).index,
            found is None ==> final(self).corrections == old(self).corrections,
            found is Some ==> final(self).corrections@.drop_last() == old(self).corrections@
                && final(self).corrections@.last().component@ == old(self).items@[old(self).index as int].0@
                && final(self).corrections@.last().original_format.data() == old(self).items@[old(self).index as int].1.data()
                && final(self).corrections@.last().corrected_format.data() == found->Some_0.0.data()
                && final(self).corrections@.last().hint@ == found->Some_0.1@,
    {
        let i = self.index;
        let n = self.items.len();
        let type_path = self.items[i].0.clone();
        let ghost before = self.corrected@;
        let ghost old_corrections = self.corrections@;
        match found {
            Some((value, hint)) => {
                self.debug_info.push(concat3("Format Discovery: Found alternative for '", type_path.as_str(), "'"));
                let original = self.items[i].1.deep_copy();
                let sent = value.deep_copy();
                self.corrections.push(FormatCorrection {
                    component: type_path.clone(),
                    original_format: original,
                    corrected_format: value,
                    hint,
                });
                proof {
                    self.sources@ = self.sources@.push(i as int);
                    assert forall|j: int| 0 <= j < self.corrections@.len() implies 0 <= #[trigger] self.sources@[j] < i + 1
                        && from_request(self.corrections@[j], self.items@[self.sources@[j]]) by {
                        if j < old_corrections.len() {
                            assert(self.corrections@[j] == old_corrections[j]);
                        }
                    }
                }
                self.corrected.push((type_path, sent));
            },
            None => {
                self.debug_info.push(concat3("Format Discovery: No alternative found for '", type_path.as_str(), "'"));
                let original = self.items[i].1.deep_copy();
                self.corrected.push((type_path, original));
            },
        }
        assert(i < n);
        self.index = i + 1;
        self.phase = DiscoveryPhase::Done;
        assert(self.corrected@.drop_last() =~= before);
        assert forall|j: int| 0 <= j < self.index implies #[trigger] self.corrected@[j].0@ == self.items@[j].0@ by {
            if j < i {
                assert(self.corrected@[j] == before[j]);
            }
        }
    }

    /// Ends the tiers of the current type with what they found: a spawn
    /// candidate is tested first; anything else is recorded.
    fn item_found(&mut self, found: Option<(JsonValue, String)>) -> (a: DiscoveryAction)
        requires
            old(self).wf(),
            old(self).index < old(self).items@.len(),
            old(self).original_error is Some,
            old(self).phase != DiscoveryPhase::AwaitRetry,
        ensures
            final(self).phase != DiscoveryPhase::AwaitInitial,
            final(self).wf(),
            final(self).acts(a),
            final(self).method == old(self).method,
            final(self).items == old(self).items,
            final(self).index >= old(self).index,
            old(self).settles(*final(self), Self::found_value(found), a),
    {
        let i = self.index;
        let type_path = self.items[i].0.clone();
        let mut infos: Vec<TierInfo> = Vec::new();
        let mut k: usize = 0;
        while k < self.tiers.tiers.len()
            invariant
                k <= self.tiers.tiers@.len(),
            decreases self.tiers.tiers@.len() - k,
        {
            let mut action = String::from_str("[");
            action.append(type_path.as_str());
            action.append("] ");
            action.append(self.tiers.tiers[k].action.as_str());
            let info = TierInfo {
                tier: self.tiers.tiers[k].tier,
                tier_name: self.tiers.tiers[k].tier_name.clone(),
                action,
                success: self.tiers.tiers[k].success,
            };
            infos.push(info);
            k += 1;
        }
        self.all_tiers.append(&mut infos);
        match found {
            Some((value, hint)) => {
                if same_text(self.method.as_str(), BRP_METHOD_SPAWN) {
                    let params = spawn_params(type_path.as_str(), value.deep_copy());
                    self.candidate = Some((value, hint));
                    self.phase = DiscoveryPhase::AwaitSpawnTest;
                    DiscoveryAction::Send { method: String::from_str(BRP_METHOD_SPAWN), params: Some(params) }
                } else {
                    self.record(Some((value, hint)));
                    self.next_item()
                }
            },
            None => {
                self.record(None);
                self.next_item()
            },
        }
    }

    /// Moves on to the next type, or, once all are done, sends the request
    /// again with the corrections, or ends with the first error where no
    /// correction was found.
    fn next_item(&mut self) -> (a: DiscoveryAction)
        requires
            old(self).wf(),
            old(self).original_error is Some,
            old(self).phase != DiscoveryPhase::AwaitRetry,
        ensures
            final(self).phase != DiscoveryPhase::AwaitInitial,
            final(self).wf(),
            final(self).acts(a),
            final(self).method == old(self).method,
            final(self).items == old(self).items,
            final(self).index >= old(self).index,
            old(self).index == old(self).items@.len() && old(self).corrections@.len() == 0 ==> (
                a matches DiscoveryAction::Finish(e) && e.result matches BrpResult::Error(x)
                    && x.code == old(self).original_error.unwrap().code
                    && x.message@ == old(self).original_error.unwrap().message@
                    && opt_data(x.data) == opt_data(old(self).original_error.unwrap().data)),
            final(self).index == old(self).index,
            final(self).corrected == old(self).corrected,
            final(self).corrections@.len() > 0 ==> final(self).corrections == old(self).corrections,
            old(self).corrections@.len() > 0 ==> final(self).corrections == old(self).corrections,
            old(self).index < old(self).items@.len() ==> (final(self).phase == DiscoveryPhase::AwaitSchema
                || final(self).phase == DiscoveryPhase::AwaitDirect)
                && (final(self).phase == DiscoveryPhase::AwaitSchema <==> schema_first(old(self).method@)),
            old(self).index == old(self).items@.len() && old(self).corrections@.len() > 0
                ==> final(self).phase == DiscoveryPhase::AwaitRetry,
    {
        if self.index < self.items.len() {
            return self.begin_item();
        }
        let mut report = tier_info_to_debug_strings(self.all_tiers.as_slice());
        self.debug_info.append(&mut report);
        if self.corrections.len() == 0 {
            self.debug_info.push(String::from_str("Format Discovery: No corrections were possible"));
            let e = self.original_error_copy();
            return self.finish(BrpResult::Error(e));
        }
        let mut note = String::from_str("Format Discovery: Found ");
        note.append(decimal_string(self.corrections.len() as u64).as_str());
        note.append(" corrections, retrying request");
        self.debug_info.push(note);
        let corrected = apply_corrections(self.params.as_ref().unwrap(), self.location, &self.corrected);
        self.phase = DiscoveryPhase::AwaitRetry;
        DiscoveryAction::Send { method: self.method.clone(), params: Some(corrected) }
    }
}

impl FormatDiscovery {
    fn on_initial(&mut self, outcome: Result<BrpResult, String>) -> (a: DiscoveryAction)
        requires
            old(self).wf(),
            old(self).phase == DiscoveryPhase::AwaitInitial,
            old(self).items@.len() == 0,
            old(self).index == 0,
            old(self).corrections@.len() == 0,
        ensures
            final(self).phase != DiscoveryPhase::AwaitInitial,
            final(self).wf(),
            final(self).acts(a),
            final(self).method == old(self).method,
            outcome is Err ==> a is Fail,
            outcome is Ok && !discovery_applies(old(self).method@, opt_data(old(self).params), outcome->Ok_0) ==> (
                a matches DiscoveryAction::Finish(e) && e.result == outcome->Ok_0 && e.format_corrections@.len() == 0),
            outcome is Ok && discovery_applies(old(self).method@, opt_data(old(self).params), outcome->Ok_0) ==> {
                &&& a is Send
                &&& entries_data(final(self).items@) == type_items(old(self).params.unwrap().data(), location_of(old(self).method@))
                &&& final(self).index == 0
                &&& final(self).original_error == Some(outcome->Ok_0->Error_0)
                &&& (final(self).phase == DiscoveryPhase::AwaitSchema <==> schema_first(old(self).method@))
                &&& (final(self).phase == DiscoveryPhase::AwaitSchema || final(self).phase == DiscoveryPhase::AwaitDirect)
            },
    {
        match outcome {
            Err(_) => {
                self.phase = DiscoveryPhase::Done;
                DiscoveryAction::Fail
            },
            Ok(r) => match r {
                BrpResult::Error(e) => {
                    if is_type_format_error(&e) && supports_format_discovery(self.method.as_str()) && self.params.is_some() {
                        self.debug_info.push(String::from_str("Format Discovery: Error is type format error, attempting discovery"));
                        let location = get_parameter_location(self.method.as_str());
                        let items = extract_type_items(self.params.as_ref().unwrap(), location);
                        proof { lemma_entries_data(items@); }
                        if items.len() > 0 {
                            self.location = location;
                            self.items = items;
                            self.original_error = Some(e);
                            self.begin_item()
                        } else {
                            self.debug_info.push(String::from_str("Format Discovery: No type items found in params"));
                            self.finish(BrpResult::Error(e))
                        }
                    } else {
                        self.finish(BrpResult::Error(e))
                    }
                },
                other => {
                    self.debug_info.push(String::from_str("Format Discovery: Initial request succeeded, no discovery needed"));
                    self.finish(other)
                },
            },
        }
    }

    fn on_schema(&mut self, outcome: Result<BrpResult, String>) -> (a: DiscoveryAction)
        requires
            old(self).wf(),
            old(self).phase == DiscoveryPhase::AwaitSchema,
        ensures
            final(self).phase != DiscoveryPhase::AwaitInitial,
            final(self).wf(),
            final(self).acts(a),
            final(self).method == old(self).method,
            final(self).items == old(self).items,
            final(self).index >= old(self).index,
            old(self).after_schema(*final(self), outcome, a),
    {
        let i = self.index;
        let type_path = self.items[i].0.clone();
        match check_type_serialization(type_path.as_str(), outcome) {
            Ok(check) => {
                self.tiers.complete_tier(true, check.diagnostic_message.clone());
                if contains_text(check.diagnostic_message.as_str(), UNUSABLE_TYPE_MARK) {
                    let original = self.items[i].1.deep_copy();
                    self.item_found(Some((original, check.diagnostic_message)))
                } else {
                    self.item_found(None)
                }
            },
            Err(e) => {
                let mut action = concat3("Failed to query serialization info for ", type_path.as_str(), ": ");
                action.append(e.as_str());
                self.tiers.complete_tier(false, action);
                self.start_direct()
            },
        }
    }

    fn on_direct(&mut self, outcome: Result<BrpResult, String>) -> (a: DiscoveryAction)
        requires
            old(self).wf(),
            old(self).phase == DiscoveryPhase::AwaitDirect,
        ensures
            final(self).phase != DiscoveryPhase::AwaitInitial,
            final(self).wf(),
            final(self).acts(a),
            final(self).method == old(self).method,
            final(self).items == old(self).items,
            final(self).index >= old(self).index,
            old(self).settles(*final(self), old(self).direct_found(outcome), a),
    {
        let i = self.index;
        let type_path = self.items[i].0.clone();
        match direct_discovery_format(type_path.as_str(), &outcome) {
            Some(example) => {
                self.tiers.complete_tier(true, concat2("Direct discovery successful: found format for ", type_path.as_str()));
                self.item_found(Some((example, String::from_str(DIRECT_DISCOVERY_HINT))))
            },
            None => {
                self.tiers.complete_tier(false, String::from_str("Direct discovery unavailable or failed"));
                let found = self.fallback_tiers();
                self.item_found(found)
            },
        }
    }

    fn on_spawn_test(&mut self, outcome: Result<BrpResult, String>) -> (a: DiscoveryAction)
        requires
            old(self).wf(),
            old(self).phase == DiscoveryPhase::AwaitSpawnTest,
        ensures
            final(self).phase != DiscoveryPhase::AwaitInitial,
            final(self).wf(),
            final(self).acts(a),
            final(self).method == old(self).method,
            final(self).items == old(self).items,
            final(self).index >= old(self).index,
            old(self).after_spawn_test(*final(self), outcome, a),
    {
        match outcome {
            Ok(BrpResult::Success(Some(response))) => {
                let entity = match response.get("entity") {
                    Some(v) => v.as_u64(),
                    None => None,
                };
                match entity {
                    Some(id) => {
                        self.test_entity = id;
                        self.phase = DiscoveryPhase::AwaitCleanup;
                        DiscoveryAction::Send { method: String::from_str(BRP_METHOD_DESTROY), params: Some(destroy_params(id)) }
                    },
                    None => {
                        self.phase = DiscoveryPhase::Done;
                        let found = self.candidate.take();
                        self.record(found);
                        self.next_item()
                    },
                }
            },
            _ => {
                self.record(None);
                self.next_item()
            },
        }
    }

    /// Takes in the outcome of the request last sent: its reply, or the
    /// failure to get one. Returns what to do next.
    pub fn resume(&mut self, outcome: Result<BrpResult, String>) -> (a: DiscoveryAction)
        requires
            old(self).wf(),
            old(self).phase != DiscoveryPhase::Done,
            old(self).phase == DiscoveryPhase::AwaitInitial ==> old(self).items@.len() == 0
                && old(self).index == 0 && old(self).corrections@.len() == 0,
        ensures
            final(self).wf(),
            final(self).acts(a),
            final(self).method == old(self).method,
            final(self).phase != DiscoveryPhase::AwaitInitial,
            old(self).phase != DiscoveryPhase::AwaitInitial ==> final(self).items == old(self).items
                && final(self).index >= old(self).index,
            old(self).phase == DiscoveryPhase::AwaitInitial && outcome is Err ==> a is Fail,
            old(self).phase == DiscoveryPhase::AwaitInitial ==> (outcome is Ok
                && !discovery_applies(old(self).method@, opt_data(old(self).params), outcome->Ok_0) ==> (
                    a matches DiscoveryAction::Finish(e) && e.result == outcome->Ok_0 && e.format_corrections@.len() == 0)),
            old(self).phase == DiscoveryPhase::AwaitInitial ==> (outcome is Ok
                && discovery_applies(old(self).method@, opt_data(old(self).params), outcome->Ok_0) ==> (
                    a is Send && final(self).index == 0
                    && entries_data(final(self).items@) == type_items(old(self).params.unwrap().data(), location_of(old(self).method@))
                    && (final(self).phase == DiscoveryPhase::AwaitSchema || final(self).phase == DiscoveryPhase::AwaitDirect)
                    && (final(self).phase == DiscoveryPhase::AwaitSchema <==> schema_first(old(self).method@)))),
            old(self).phase == DiscoveryPhase::AwaitRetry && outcome is Err ==> a is Fail,
            old(self).phase == DiscoveryPhase::AwaitRetry ==> (outcome is Ok ==> (
                a matches DiscoveryAction::Finish(e) && e.result == outcome->Ok_0
                    && e.format_corrections@ == old(self).corrections@ && e.format_corrections@.len() > 0
                    && sourced(e.format_corrections@, old(self).items@, old(self).sources@, old(self).items@.len() as int))),
            old(self).phase == DiscoveryPhase::AwaitSchema ==> old(self).after_schema(*final(self), outcome, a),
            old(self).phase == DiscoveryPhase::AwaitDirect ==> old(self).settles(*final(self), old(self).direct_found(outcome), a),
            old(self).phase == DiscoveryPhase::AwaitSpawnTest ==> old(self).after_spawn_test(*final(self), outcome, a),
            old(self).phase == DiscoveryPhase::AwaitCleanup
                ==> old(self).moves_on(*final(self), Self::found_value(old(self).candidate), a),
    {
        match self.phase {
            DiscoveryPhase::AwaitInitial => self.on_initial(outcome),
            DiscoveryPhase::AwaitSchema => self.on_schema(outcome),
            DiscoveryPhase::AwaitDirect => self.on_direct(outcome),
            DiscoveryPhase::AwaitSpawnTest => self.on_spawn_test(outcome),
            DiscoveryPhase::AwaitCleanup => {
                self.phase = DiscoveryPhase::Done;
                let found = self.candidate.take();
                self.record(found);
                self.next_item()
            },
            DiscoveryPhase::AwaitRetry => match outcome {
                Ok(r) => self.finish(r),
                Err(_) => {
                    self.phase = DiscoveryPhase::Done;
                    DiscoveryAction::Fail
                },
            },
            DiscoveryPhase::Done => DiscoveryAction::Fail,
        }
    }
}

} // verus!
