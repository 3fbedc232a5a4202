//! The decisions of format discovery: which requests it applies to, where
//! their typed values sit, how corrections are put back, and how the tiers
//! that were tried are reported.

use vstd::prelude::*;
use crate::detection::BrpError;
use crate::json::{JsonData, JsonValue, copy_entries, entries_data, field_of, insert_entry, lemma_entries_data, object_get, object_insert};
use crate::text::{decimal, decimal_string, joined, join_texts, same_text, texts_of};

verus! {

/// Error code for component type format errors from BRP.
pub const COMPONENT_FORMAT_ERROR_CODE: i32 = -23402;
/// Error code for resource type format errors from BRP.
pub const RESOURCE_FORMAT_ERROR_CODE: i32 = -23501;

/// Tier constants for format discovery.
pub const TIER_SERIALIZATION: u8 = 1;
pub const TIER_DIRECT_DISCOVERY: u8 = 2;
pub const TIER_DETERMINISTIC: u8 = 3;
pub const TIER_GENERIC_FALLBACK: u8 = 4;

pub const BRP_METHOD_SPAWN: &'static str = "bevy/spawn";
pub const BRP_METHOD_INSERT: &'static str = "bevy/insert";
pub const BRP_METHOD_MUTATE_COMPONENT: &'static str = "bevy/mutate_component";
pub const BRP_METHOD_INSERT_RESOURCE: &'static str = "bevy/insert_resource";
pub const BRP_METHOD_MUTATE_RESOURCE: &'static str = "bevy/mutate_resource";

/// Detects whether an error is a type format error that can be fixed.
pub fn is_type_format_error(error: &BrpError) -> (r: bool)
    ensures
        r == (error.code == COMPONENT_FORMAT_ERROR_CODE || error.code == RESOURCE_FORMAT_ERROR_CODE),
{
    error.code == COMPONENT_FORMAT_ERROR_CODE || error.code == RESOURCE_FORMAT_ERROR_CODE
}

/// The methods that support format discovery (components and resources).
pub open spec fn is_discovery_method(m: Seq<char>) -> bool {
    m == BRP_METHOD_SPAWN@ || m == BRP_METHOD_INSERT@ || m == BRP_METHOD_MUTATE_COMPONENT@
        || m == BRP_METHOD_INSERT_RESOURCE@ || m == BRP_METHOD_MUTATE_RESOURCE@
}

/// Whether a method supports format discovery.
pub fn supports_format_discovery(method: &str) -> (r: bool)
    ensures
        r == is_discovery_method(method@),
{
    same_text(method, BRP_METHOD_SPAWN) || same_text(method, BRP_METHOD_INSERT)
        || same_text(method, BRP_METHOD_MUTATE_COMPONENT) || same_text(method, BRP_METHOD_INSERT_RESOURCE)
        || same_text(method, BRP_METHOD_MUTATE_RESOURCE)
}

/// Location of type items in method parameters.
#[derive(Debug, Clone, Copy, PartialEq, Eq, Structural)]
pub enum ParameterLocation {
    /// Type items are in a "components" object (spawn, insert).
    Components,
    /// Single type value in "value" field (`mutate_component`).
    ComponentValue,
    /// Single type value in "value" field (`insert_resource`, `mutate_resource`).
    ResourceValue,
}

/// Where a method's typed values sit.
pub open spec fn location_of(method: Seq<char>) -> ParameterLocation {
    if method == BRP_METHOD_MUTATE_COMPONENT@ {
        ParameterLocation::ComponentValue
    } else if method == BRP_METHOD_INSERT_RESOURCE@ || method == BRP_METHOD_MUTATE_RESOURCE@ {
        ParameterLocation::ResourceValue
    } else {
        ParameterLocation::Components
    }
}

/// Gets the parameter location for a given method.
pub fn get_parameter_location(method: &str) -> (r: ParameterLocation)
    ensures
        r == location_of(method@),
{
    if same_text(method, BRP_METHOD_MUTATE_COMPONENT) {
        ParameterLocation::ComponentValue
    } else if same_text(method, BRP_METHOD_INSERT_RESOURCE) || same_text(method, BRP_METHOD_MUTATE_RESOURCE) {
        ParameterLocation::ResourceValue
    } else {
        ParameterLocation::Components
    }
}

/// The single named value of a mutation or resource call: the type name
/// under `name_key` and the value under `value`.
pub open spec fn named_value(d: JsonData, name_key: Seq<char>) -> Seq<(Seq<char>, JsonData)> {
    match (field_of(d, name_key), field_of(d, "value"@)) {
        (Some(JsonData::Str(t)), Some(v)) => seq![(t, v)],
        _ => Seq::empty(),
    }
}

/// The typed values that a request's parameters carry, with their type
/// names.
pub open spec fn type_items(d: JsonData, location: ParameterLocation) -> Seq<(Seq<char>, JsonData)> {
    match location {
        ParameterLocation::Components => match field_of(d, "components"@) {
            Some(JsonData::Object(s)) => s,
            _ => Seq::empty(),
        },
        ParameterLocation::ComponentValue => named_value(d, "component"@),
        ParameterLocation::ResourceValue => named_value(d, "resource"@),
    }
}

/// Whether, where the parameters name a type under `key` and carry a value,
/// `items` is exactly that value under that name.
pub open spec fn names_the_value(d: JsonData, key: Seq<char>, items: Seq<(Seq<char>, JsonData)>) -> bool {
    match (field_of(d, key), field_of(d, "value"@)) {
        (Some(JsonData::Str(name)), Some(v)) => items == seq![(name, v)],
        _ => true,
    }
}

/// For `bevy/insert_resource` and `bevy/mutate_resource`, the typed value
/// of parameters that name a resource and carry a value is exactly that
/// value, under the resource's name.
pub proof fn lemma_resource_items(d: JsonData, resource: Seq<char>, v: JsonData)
    requires
        field_of(d, "resource"@) == Some(JsonData::Str(resource)),
        field_of(d, "value"@) == Some(v),
    ensures
        type_items(d, location_of(BRP_METHOD_INSERT_RESOURCE@)) == seq![(resource, v)],
        type_items(d, location_of(BRP_METHOD_MUTATE_RESOURCE@)) == seq![(resource, v)],
{
    reveal_strlit("bevy/mutate_component");
    reveal_strlit("bevy/insert_resource");
    reveal_strlit("bevy/mutate_resource");
    assert(BRP_METHOD_INSERT_RESOURCE@.len() != BRP_METHOD_MUTATE_COMPONENT@.len());
    assert(BRP_METHOD_MUTATE_RESOURCE@.len() != BRP_METHOD_MUTATE_COMPONENT@.len());
}

/// For `bevy/mutate_component`, the typed value of parameters that name a
/// component and carry a value is exactly that value, under the
/// component's name.
pub proof fn lemma_component_items(d: JsonData, component: Seq<char>, v: JsonData)
    requires
        field_of(d, "component"@) == Some(JsonData::Str(component)),
        field_of(d, "value"@) == Some(v),
    ensures
        type_items(d, location_of(BRP_METHOD_MUTATE_COMPONENT@)) == seq![(component, v)],
{
}

/// For `bevy/spawn` and `bevy/insert`, the typed values are the members of
/// the `components` object, each under its type name, in order.
pub proof fn lemma_components_items(d: JsonData, components: Seq<(Seq<char>, JsonData)>)
    requires
        field_of(d, "components"@) == Some(JsonData::Object(components)),
    ensures
        type_items(d, location_of(BRP_METHOD_SPAWN@)) == components,
        type_items(d, location_of(BRP_METHOD_INSERT@)) == components,
{
    reveal_strlit("bevy/spawn");
    reveal_strlit("bevy/insert");
    reveal_strlit("bevy/mutate_component");
    reveal_strlit("bevy/insert_resource");
    reveal_strlit("bevy/mutate_resource");
    assert(BRP_METHOD_SPAWN@.len() != BRP_METHOD_MUTATE_COMPONENT@.len());
    assert(BRP_METHOD_SPAWN@.len() != BRP_METHOD_INSERT_RESOURCE@.len());
    assert(BRP_METHOD_SPAWN@.len() != BRP_METHOD_MUTATE_RESOURCE@.len());
    assert(BRP_METHOD_INSERT@.len() != BRP_METHOD_MUTATE_COMPONENT@.len());
    assert(BRP_METHOD_INSERT@.len() != BRP_METHOD_INSERT_RESOURCE@.len());
    assert(BRP_METHOD_INSERT@.len() != BRP_METHOD_MUTATE_RESOURCE@.len());
}

fn named_value_of(params: &JsonValue, name_key: &str) -> (r: Vec<(String, JsonValue)>)
    ensures
        entries_data(r@) == named_value(params.data(), name_key@),
{
    let mut out: Vec<(String, JsonValue)> = Vec::new();
    match (params.get(name_key), params.get("value")) {
        (Some(JsonValue::String(t)), Some(v)) => {
            let c = v.deep_copy();
            let ghost cd = c.data();
            out.push((t.clone(), c));
            proof {
                lemma_entries_data(out@);
                assert(entries_data(out@) =~= seq![(t@, cd)]);
            }
        },
        _ => {
            assert(entries_data(out@) =~= Seq::<(Seq<char>, JsonData)>::empty());
        },
    }
    out
}

/// Extracts the type items based on the parameter location.
pub fn extract_type_items(params: &JsonValue, location: ParameterLocation) -> (r: Vec<(String, JsonValue)>)
    ensures
        entries_data(r@) == type_items(params.data(), location),
        location is ResourceValue ==> names_the_value(params.data(), "resource"@, entries_data(r@)),
        location is ComponentValue ==> names_the_value(params.data(), "component"@, entries_data(r@)),
{
    match location {
        ParameterLocation::Components => match params.get("components") {
            Some(JsonValue::Object(components)) => copy_entries(components),
            _ => {
                let out: Vec<(String, JsonValue)> = Vec::new();
                assert(entries_data(out@) =~= Seq::<(Seq<char>, JsonData)>::empty());
                out
            },
        },
        ParameterLocation::ComponentValue => named_value_of(params, "component"),
        ParameterLocation::ResourceValue => named_value_of(params, "resource"),
    }
}

/// Entries put one after another into an empty object.
pub open spec fn object_of_items(items: Seq<(Seq<char>, JsonData)>) -> Seq<(Seq<char>, JsonData)>
    decreases items.len(),
{
    if items.len() == 0 {
        Seq::empty()
    } else {
        insert_entry(object_of_items(items.drop_last()), items.last().0, items.last().1)
    }
}

/// A value with its member `k` set to `v`, as `value[k] = v` does on an
/// object or on `null`.
pub open spec fn with_member(d: JsonData, k: Seq<char>, v: JsonData) -> JsonData {
    match d {
        JsonData::Object(s) => JsonData::Object(insert_entry(s, k, v)),
        _ => JsonData::Object(seq![(k, v)]),
    }
}

/// The parameters rebuilt with corrected items: the `components` object
/// replaced, or the `value` member set to the first item.
pub open spec fn corrected_params(d: JsonData, location: ParameterLocation, items: Seq<(Seq<char>, JsonData)>) -> JsonData {
    match location {
        ParameterLocation::Components => with_member(d, "components"@, JsonData::Object(object_of_items(items))),
        _ => if items.len() > 0 { with_member(d, "value"@, items[0].1) } else { d },
    }
}

fn set_member(target: &mut JsonValue, key: &str, v: JsonValue)
    requires
        old(target).data() is Object || old(target).data() is Null,
    ensures
        final(target).data() == with_member(old(target).data(), key@, v.data()),
{
    match target {
        JsonValue::Object(m) => {
            object_insert(m, String::from_str(key), v);
        },
        _ => {
            let mut m: Vec<(String, JsonValue)> = Vec::new();
            let ghost vd = v.data();
            m.push((String::from_str(key), v));
            proof {
                lemma_entries_data(m@);
                assert(entries_data(m@) =~= seq![(key@, vd)]);
            }
            *target = JsonValue::Object(m);
        },
    }
}

/// Applies corrections to rebuild the parameters at the given location.
///
/// Setting a member of a value that is neither an object nor `null` panics
/// in `serde_json`; such parameters are left out.
pub fn apply_corrections(params: &JsonValue, location: ParameterLocation, corrected_items: &Vec<(String, JsonValue)>) -> (r: JsonValue)
    requires
        (location == ParameterLocation::Components || corrected_items.len() > 0)
            ==> (params.data() is Object || params.data() is Null),
    ensures
        r.data() == corrected_params(params.data(), location, entries_data(corrected_items@)),
{
    let mut corrected = params.deep_copy();
    proof { lemma_entries_data(corrected_items@); }
    match location {
        ParameterLocation::Components => {
            let mut components: Vec<(String, JsonValue)> = Vec::new();
            let mut i: usize = 0;
            while i < corrected_items.len()
                invariant
                    i <= corrected_items.len(),
                    entries_data(components@) == object_of_items(entries_data(corrected_items@.subrange(0, i as int))),
                decreases corrected_items.len() - i,
            {
                let ghost before = entries_data(corrected_items@.subrange(0, i as int));
                assert(corrected_items@.subrange(0, i + 1).drop_last() =~= corrected_items@.subrange(0, i as int));
                let ghost after = entries_data(corrected_items@.subrange(0, i + 1));
                assert(after.drop_last() =~= before);
                object_insert(&mut components, corrected_items[i].0.clone(), corrected_items[i].1.deep_copy());
                i += 1;
            }
            assert(corrected_items@.subrange(0, corrected_items.len() as int) =~= corrected_items@);
            set_member(&mut corrected, "components", JsonValue::Object(components));
        },
        _ => {
            if corrected_items.len() > 0 {
                set_member(&mut corrected, "value", corrected_items[0].1.deep_copy());
            }
        },
    }
    corrected
}

/// Tier information for debugging.
pub struct TierInfo {
    pub tier: u8,
    pub tier_name: String,
    pub action: String,
    pub success: bool,
}

/// The line that reports one tier.
pub open spec fn tier_line(t: TierInfo) -> Seq<char> {
    "  "@ + (if t.success { "SUCCESS"@ } else { "FAILED"@ }) + " Tier "@ + decimal(t.tier as nat) + ": "@
        + t.tier_name@ + " - "@ + t.action@
}

/// The numbers of the tiers that succeeded, in order.
pub open spec fn successful_tiers(s: Seq<TierInfo>) -> Seq<Seq<char>>
    decreases s.len(),
{
    if s.len() == 0 {
        Seq::empty()
    } else {
        let rest = successful_tiers(s.drop_last());
        if s.last().success { rest.push(decimal(s.last().tier as nat)) } else { rest }
    }
}

/// The debug lines for the tiers tried: a heading, one line per tier, and a
/// summary; nothing where no tier was tried.
pub open spec fn tier_report(s: Seq<TierInfo>) -> Seq<Seq<char>> {
    if s.len() == 0 {
        Seq::empty()
    } else {
        let summary = if successful_tiers(s).len() == 0 {
            "No tiers succeeded"@
        } else {
            "Successful tier(s): "@ + joined(successful_tiers(s), ", "@)
        };
        seq!["Tiered Format Discovery Results:"@] + Seq::new(s.len(), |i: int| tier_line(s[i])) + seq![summary]
    }
}

/// Converts tier information to debug strings.
pub fn tier_info_to_debug_strings(tier_info: &[TierInfo]) -> (r: Vec<String>)
    ensures
        texts_of(r@) == tier_report(tier_info@),
{
    let mut out: Vec<String> = Vec::new();
    if tier_info.len() == 0 {
        assert(texts_of(out@) =~= Seq::<Seq<char>>::empty());
        return out;
    }
    out.push(String::from_str("Tiered Format Discovery Results:"));
    let mut numbers: Vec<String> = Vec::new();
    let mut i: usize = 0;
    while i < tier_info.len()
        invariant
            i <= tier_info.len(),
            out@.len() == i + 1,
            out@[0]@ == "Tiered Format Discovery Results:"@,
            forall|j: int| 0 <= j < i ==> #[trigger] out@[j + 1]@ == tier_line(tier_info@[j]),
            texts_of(numbers@) == successful_tiers(tier_info@.subrange(0, i as int)),
        decreases tier_info.len() - i,
    {
        let info = &tier_info[i];
        let mut line = String::from_str("  ");
        line.append(if info.success { "SUCCESS" } else { "FAILED" });
        line.append(" Tier ");
        let digits = decimal_string(info.tier as u64);
        line.append(digits.as_str());
        line.append(": ");
        line.append(info.tier_name.as_str());
        line.append(" - ");
        line.append(info.action.as_str());
        assert(line@ == tier_line(tier_info@[i as int]));
        out.push(line);
        assert(tier_info@.subrange(0, i + 1).drop_last() =~= tier_info@.subrange(0, i as int));
        if info.success {
            let ghost before = numbers@;
            numbers.push(decimal_string(info.tier as u64));
            assert(texts_of(numbers@) =~= texts_of(before).push(decimal(info.tier as nat)));
        }
        i += 1;
    }
    assert(tier_info@.subrange(0, tier_info.len() as int) =~= tier_info@);
    let summary = if numbers.len() == 0 {
        String::from_str("No tiers succeeded")
    } else {
        let mut summary = String::from_str("Successful tier(s): ");
        let listed = join_texts(&numbers, ", ");
        summary.append(listed.as_str());
        summary
    };
    let ghost n: int = tier_info@.len() as int;
    let ghost rep = tier_report(tier_info@);
    assert(summary@ == rep[n + 1]);
    out.push(summary);
    assert forall|j: int| 0 <= j < n + 2 implies #[trigger] texts_of(out@)[j] == rep[j] by {
        if 1 <= j <= n {
            assert(out@[(j - 1) + 1]@ == tier_line(tier_info@[j - 1]));
        }
    }
    assert(texts_of(out@) =~= rep);
    out
}

/// Records the tiers of one discovery as they are started and completed.
pub struct TierManager {
    pub tiers: Vec<TierInfo>,
}

impl TierManager {
    /// A manager with no tier recorded.
    pub fn new() -> (r: TierManager)
        ensures
            r.tiers@.len() == 0,
    {
        TierManager { tiers: Vec::new() }
    }

    /// Records the start of a tier: it stands as failed until completed.
    pub fn start_tier(&mut self, tier: u8, tier_name: &str, action: String)
        ensures
            final(self).tiers@.len() == old(self).tiers@.len() + 1,
            final(self).tiers@.drop_last() == old(self).tiers@,
            final(self).tiers@.last().tier == tier,
            final(self).tiers@.last().tier_name@ == tier_name@,
            final(self).tiers@.last().action@ == action@,
            !final(self).tiers@.last().success,
    {
        self.tiers.push(TierInfo { tier, tier_name: String::from_str(tier_name), action, success: false });
        assert(self.tiers@.drop_last() =~= old(self).tiers@);
    }

    /// Records the outcome of the tier last started, with what it did.
    pub fn complete_tier(&mut self, success: bool, action: String)
        ensures
            final(self).tiers@.len() == old(self).tiers@.len(),
            old(self).tiers@.len() == 0 ==> final(self).tiers@ == old(self).tiers@,
            old(self).tiers@.len() > 0 ==> {
                &&& final(self).tiers@.drop_last() == old(self).tiers@.drop_last()
                &&& final(self).tiers@.last().tier == old(self).tiers@.last().tier
                &&& final(self).tiers@.last().tier_name@ == old(self).tiers@.last().tier_name@
                &&& final(self).tiers@.last().action@ == action@
                &&& final(self).tiers@.last().success == success
            },
    {
        let n = self.tiers.len();
        if n > 0 {
            let last = self.tiers.pop().unwrap();
            self.tiers.push(TierInfo { tier: last.tier, tier_name: last.tier_name, action, success });
            assert(self.tiers@.drop_last() =~= old(self).tiers@.drop_last());
        }
    }

    /// The tiers recorded, in order.
    pub fn into_vec(self) -> (r: Vec<TierInfo>)
        ensures
            r@ == self.tiers@,
    {
        self.tiers
    }
}

/// Format correction information for a type (component or resource).
pub struct FormatCorrection {
    pub component: String,
    pub original_format: JsonValue,
    pub corrected_format: JsonValue,
    pub hint: String,
}

} // verus!
