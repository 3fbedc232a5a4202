//! The tools the server announces: their names, descriptions and input
//! schemas, in name order.

use vstd::prelude::*;
use crate::json::{JsonData, JsonValue, entries_data, insert_entry, keys_sorted, lemma_insert_entry_lookup, lemma_insert_entry_sorted, lookup};
use crate::schema::{SchemaBuilder, any_type, property_schema};
use crate::text::{text_less, text_lt, texts_of, lemma_text_lt_total, lemma_text_lt_irreflexive};
use crate::tool_definitions::{BrpToolDef, ParamDef, ParamType, ParamView, ToolView, all_tool_views, get_all_tools, tool_views};
use crate::tools::{DESC_BRP_GET_WATCH, DESC_BRP_LIST_ACTIVE_WATCHES, DESC_BRP_LIST_WATCH, DESC_BRP_STOP_WATCH, DESC_PORT, DESC_SET_DEBUG_MODE, TOOL_BRP_GET_WATCH, TOOL_BRP_LIST_ACTIVE_WATCHES, TOOL_BRP_LIST_WATCH, TOOL_BRP_SET_DEBUG_MODE, TOOL_BRP_STOP_WATCH};

verus! {

/// A tool as the server announces it.
pub struct ToolRegistration {
    pub name: String,
    pub description: String,
    pub input_schema: JsonValue,
}

/// The schema type of a parameter type, and whether its items are strings.
pub open spec fn param_schema(p: ParamView) -> JsonData {
    match p.param_type {
        ParamType::Number => property_schema(JsonData::Str("number"@), false, p.description),
        ParamType::String => property_schema(JsonData::Str("string"@), false, p.description),
        ParamType::Boolean => property_schema(JsonData::Str("boolean"@), false, p.description),
        ParamType::StringArray => property_schema(JsonData::Str("array"@), true, p.description),
        ParamType::Any => property_schema(any_type(), false, p.description),
    }
}

/// The properties of the input schema of some parameters, added in order.
pub open spec fn params_properties(ps: Seq<ParamView>) -> Seq<(Seq<char>, JsonData)>
    decreases ps.len(),
{
    if ps.len() == 0 {
        Seq::empty()
    } else {
        insert_entry(params_properties(ps.drop_last()), ps.last().name, param_schema(ps.last()))
    }
}

/// The names of the required parameters, in order.
pub open spec fn required_names(ps: Seq<ParamView>) -> Seq<Seq<char>>
    decreases ps.len(),
{
    if ps.len() == 0 {
        Seq::empty()
    } else if ps.last().required {
        required_names(ps.drop_last()).push(ps.last().name)
    } else {
        required_names(ps.drop_last())
    }
}

/// Every required parameter of a tool is a property of its input schema,
/// and the properties are kept in key order.
pub proof fn lemma_required_are_properties(ps: Seq<ParamView>)
    ensures
        keys_sorted(params_properties(ps)),
        forall|r: Seq<char>| #[trigger] required_names(ps).contains(r) ==> lookup(params_properties(ps), r) is Some,
    decreases ps.len(),
{
    if ps.len() > 0 {
        let rest = ps.drop_last();
        let last = ps.last();
        lemma_required_are_properties(rest);
        lemma_insert_entry_sorted(params_properties(rest), last.name, param_schema(last));
        assert forall|r: Seq<char>| #[trigger] required_names(ps).contains(r) implies lookup(params_properties(ps), r) is Some by {
            lemma_insert_entry_lookup(params_properties(rest), last.name, param_schema(last), r);
            if r != last.name {
                let i = choose|i: int| 0 <= i < required_names(ps).len() && required_names(ps)[i] == r;
                if last.required {
                    assert(required_names(ps) == required_names(rest).push(last.name));
                    assert(required_names(rest)[i] == r);
                    assert(required_names(rest).contains(r));
                } else {
                    assert(required_names(rest).contains(r));
                }
            }
        }
    }
}

/// The input schema of a tool with some parameters.
pub open spec fn input_schema_of(ps: Seq<ParamView>) -> JsonData {
    JsonData::Object(
        if required_names(ps).len() > 0 {
            seq![
                ("properties"@, JsonData::Object(params_properties(ps))),
                ("required"@, crate::handler::text_array(required_names(ps))),
                ("type"@, JsonData::Str("object"@)),
            ]
        } else {
            seq![
                ("properties"@, JsonData::Object(params_properties(ps))),
                ("type"@, JsonData::Str("object"@)),
            ]
        })
}

/// The input schema of some parameters: one property per parameter, and
/// the required ones listed.
pub fn schema_of_params(params: &Vec<ParamDef>) -> (r: JsonValue)
    ensures
        r.data() == input_schema_of(params@.map_values(|p: ParamDef| p@)),
{
    let ghost views = params@.map_values(|p: ParamDef| p@);
    let mut builder = SchemaBuilder::new();
    let mut i: usize = 0;
    while i < params.len()
        invariant
            i <= params.len(),
            views == params@.map_values(|p: ParamDef| p@),
            entries_data(builder.properties@) == params_properties(views.subrange(0, i as int)),
            texts_of(builder.required@) == required_names(views.subrange(0, i as int)),
        decreases params.len() - i,
    {
        assert(views.subrange(0, i + 1).drop_last() =~= views.subrange(0, i as int));
        assert(views.subrange(0, i + 1).last() == params@[i as int]@);
        let p = &params[i];
        builder = match p.param_type {
            ParamType::Number => builder.add_number_property(p.name, p.description, p.required),
            ParamType::String => builder.add_string_property(p.name, p.description, p.required),
            ParamType::Boolean => builder.add_boolean_property(p.name, p.description, p.required),
            ParamType::StringArray => builder.add_string_array_property(p.name, p.description, p.required),
            ParamType::Any => builder.add_any_property(p.name, p.description, p.required),
        };
        i += 1;
    }
    assert(views.subrange(0, params.len() as int) =~= views);
    builder.build()
}

/// The announcement of a declared tool: its name and description, and an
/// input schema with one property per parameter.
pub fn generate_tool_registration(def: &BrpToolDef) -> (r: ToolRegistration)
    ensures
        r.name@ == def.name@,
        r.description@ == def.description@,
        r.input_schema.data() == input_schema_of(def@.params),
{
    ToolRegistration {
        name: String::from_str(def.name),
        description: String::from_str(def.description),
        input_schema: schema_of_params(&def.params),
    }
}

/// The announcement of a tool with its own handling.
fn custom_registration(name: &'static str, description: &'static str, params: Vec<ParamDef>) -> (r: ToolRegistration)
    ensures
        announced(r) == (name@, description@, input_schema_of(params@.map_values(|p: ParamDef| p@))),
{
    ToolRegistration { name: String::from_str(name), description: String::from_str(description), input_schema: schema_of_params(&params) }
}

/// A parameter as a mathematical value.
pub open spec fn param(name: Seq<char>, description: Seq<char>, required: bool, param_type: ParamType) -> ParamView {
    ParamView { name, description, required, param_type }
}

/// The announcements of the tools with their own handling: the two watch
/// starts, the watch stop, the list of active watches and the debug switch.
pub open spec fn custom_announcements() -> Seq<(Seq<char>, Seq<char>, JsonData)> {
    seq![
        (TOOL_BRP_GET_WATCH@, DESC_BRP_GET_WATCH@, input_schema_of(seq![
            param("entity"@, "The entity ID to watch for component changes"@, true, ParamType::Number),
            param("components"@, "Component types to watch"@, false, ParamType::StringArray),
            param("port"@, DESC_PORT@, false, ParamType::Number),
        ])),
        (TOOL_BRP_LIST_WATCH@, DESC_BRP_LIST_WATCH@, input_schema_of(seq![
            param("entity"@, "The entity ID to watch for component list changes"@, true, ParamType::Number),
            param("port"@, DESC_PORT@, false, ParamType::Number),
        ])),
        (TOOL_BRP_STOP_WATCH@, DESC_BRP_STOP_WATCH@, input_schema_of(seq![
            param("watch_id"@, "The watch ID to stop"@, true, ParamType::Number),
        ])),
        (TOOL_BRP_LIST_ACTIVE_WATCHES@, DESC_BRP_LIST_ACTIVE_WATCHES@, input_schema_of(Seq::empty())),
        (TOOL_BRP_SET_DEBUG_MODE@, DESC_SET_DEBUG_MODE@, input_schema_of(seq![
            param("enabled"@, "Whether debug mode is on"@, true, ParamType::Boolean),
        ])),
    ]
}

/// The announcements of the tools with their own handling.
pub fn custom_tools() -> (r: Vec<ToolRegistration>)
    ensures
        r@.map_values(|t: ToolRegistration| announced(t)) == custom_announcements(),
{
    let get_watch = vec![
        ParamDef { name: "entity", description: "The entity ID to watch for component changes", required: true, param_type: ParamType::Number },
        ParamDef { name: "components", description: "Component types to watch", required: false, param_type: ParamType::StringArray },
        ParamDef { name: "port", description: DESC_PORT, required: false, param_type: ParamType::Number },
    ];
    let list_watch = vec![
        ParamDef { name: "entity", description: "The entity ID to watch for component list changes", required: true, param_type: ParamType::Number },
        ParamDef { name: "port", description: DESC_PORT, required: false, param_type: ParamType::Number },
    ];
    let stop_watch = vec![
        ParamDef { name: "watch_id", description: "The watch ID to stop", required: true, param_type: ParamType::Number },
    ];
    let none: Vec<ParamDef> = Vec::new();
    let debug = vec![
        ParamDef { name: "enabled", description: "Whether debug mode is on", required: true, param_type: ParamType::Boolean },
    ];
    proof {
        assert(get_watch@.map_values(|p: ParamDef| p@) =~= custom_params_get_watch());
        assert(list_watch@.map_values(|p: ParamDef| p@) =~= custom_params_list_watch());
        assert(stop_watch@.map_values(|p: ParamDef| p@) =~= seq![
            param("watch_id"@, "The watch ID to stop"@, true, ParamType::Number)]);
        assert(debug@.map_values(|p: ParamDef| p@) =~= seq![
            param("enabled"@, "Whether debug mode is on"@, true, ParamType::Boolean)]);
        assert(none@.map_values(|p: ParamDef| p@) =~= Seq::<ParamView>::empty());
    }
    let r = vec![
        custom_registration(TOOL_BRP_GET_WATCH, DESC_BRP_GET_WATCH, get_watch),
        custom_registration(TOOL_BRP_LIST_WATCH, DESC_BRP_LIST_WATCH, list_watch),
        custom_registration(TOOL_BRP_STOP_WATCH, DESC_BRP_STOP_WATCH, stop_watch),
        custom_registration(TOOL_BRP_LIST_ACTIVE_WATCHES, DESC_BRP_LIST_ACTIVE_WATCHES, none),
        custom_registration(TOOL_BRP_SET_DEBUG_MODE, DESC_SET_DEBUG_MODE, debug),
    ];
    proof {
        assert(r@.map_values(|t: ToolRegistration| announced(t)) =~= custom_announcements());
    }
    r
}

spec fn custom_params_get_watch() -> Seq<ParamView> {
    seq![
        param("entity"@, "The entity ID to watch for component changes"@, true, ParamType::Number),
        param("components"@, "Component types to watch"@, false, ParamType::StringArray),
        param("port"@, DESC_PORT@, false, ParamType::Number),
    ]
}

spec fn custom_params_list_watch() -> Seq<ParamView> {
    seq![
        param("entity"@, "The entity ID to watch for component list changes"@, true, ParamType::Number),
        param("port"@, DESC_PORT@, false, ParamType::Number),
    ]
}

/// Whether announcements are in name order.
pub open spec fn in_name_order(s: Seq<ToolRegistration>) -> bool {
    forall|i: int, j: int| 0 <= i < j < s.len() ==> !text_lt((#[trigger] s[j]).name@, (#[trigger] s[i]).name@)
}

/// Whether `r` holds the announcements of `s`, each once: `perm` gives, for
/// each place of `r`, the place of `s` it comes from; announcements of the
/// same name keep the order they had in `s`.
pub open spec fn stable_reorder(s: Seq<ToolRegistration>, r: Seq<ToolRegistration>, perm: Seq<int>) -> bool {
    &&& perm.len() == r.len()
    &&& r.len() == s.len()
    &&& forall|k: int| 0 <= k < r.len() ==> 0 <= #[trigger] perm[k] < s.len() && r[k] == s[perm[k]]
    &&& forall|k: int, l: int| 0 <= k < l < r.len() ==> #[trigger] perm[k] != #[trigger] perm[l]
    &&& forall|k: int, l: int| 0 <= k < l < r.len() && r[k].name@ == r[l].name@ ==> #[trigger] perm[k] < #[trigger] perm[l]
}

/// Orders announcements by name; announcements of the same name keep their
/// order.
pub fn sort_by_name(tools: Vec<ToolRegistration>) -> (r: Vec<ToolRegistration>)
    ensures
        r@.to_multiset() =~= tools@.to_multiset(),
        r@.len() == tools@.len(),
        in_name_order(r@),
        exists|perm: Seq<int>| stable_reorder(tools@, r@, perm),
{
    broadcast use vstd::seq_lib::group_to_multiset_ensures;
    let ghost orig = tools@;
    let mut rest = tools;
    let mut out: Vec<ToolRegistration> = Vec::new();
    let ghost mut out_idx: Seq<int> = Seq::empty();
    let ghost mut rest_idx: Seq<int> = Seq::new(orig.len(), |i: int| i);
    while rest.len() > 0
        invariant
            out@.to_multiset().add(rest@.to_multiset()) =~= orig.to_multiset(),
            out@.len() + rest@.len() == orig.len(),
            in_name_order(out@),
            forall|i: int, j: int| 0 <= i < out@.len() && 0 <= j < rest@.len()
                ==> !text_lt((#[trigger] rest@[j]).name@, (#[trigger] out@[i]).name@),
            out_idx.len() == out@.len(),
            rest_idx.len() == rest@.len(),
            forall|k: int| 0 <= k < out@.len() ==> 0 <= #[trigger] out_idx[k] < orig.len() && out@[k] == orig[out_idx[k]],
            forall|j: int| 0 <= j < rest@.len() ==> 0 <= #[trigger] rest_idx[j] < orig.len() && rest@[j] == orig[rest_idx[j]],
            forall|j: int, l: int| 0 <= j < l < rest@.len() ==> #[trigger] rest_idx[j] < #[trigger] rest_idx[l],
            forall|k: int, l: int| 0 <= k < l < out@.len() ==> #[trigger] out_idx[k] != #[trigger] out_idx[l],
            forall|k: int, j: int| 0 <= k < out@.len() && 0 <= j < rest@.len() ==> #[trigger] out_idx[k] != #[trigger] rest_idx[j],
            forall|k: int, l: int| 0 <= k < l < out@.len() && out@[k].name@ == out@[l].name@
                ==> #[trigger] out_idx[k] < #[trigger] out_idx[l],
            forall|k: int, j: int| 0 <= k < out@.len() && 0 <= j < rest@.len() && out@[k].name@ == rest@[j].name@
                ==> #[trigger] out_idx[k] < #[trigger] rest_idx[j],
        decreases rest@.len(),
    {
        let mut best: usize = 0;
        let mut k: usize = 1;
        proof { lemma_text_lt_irreflexive(rest@[0].name@); }
        while k < rest.len()
            invariant
                1 <= k <= rest@.len(),
                best < k,
                forall|j: int| 0 <= j < k ==> !text_lt((#[trigger] rest@[j]).name@, rest@[best as int].name@),
                forall|j: int| 0 <= j < best ==> (#[trigger] rest@[j]).name@ != rest@[best as int].name@,
            decreases rest@.len() - k,
        {
            if text_less(rest[k].name.as_str(), rest[best].name.as_str()) {
                proof {
                    assert forall|j: int| 0 <= j < k implies !text_lt((#[trigger] rest@[j]).name@, rest@[k as int].name@) by {
                        if text_lt(rest@[j].name@, rest@[k as int].name@) {
                            crate::text::lemma_text_lt_transitive(rest@[j].name@, rest@[k as int].name@, rest@[best as int].name@);
                        }
                    }
                    assert forall|j: int| 0 <= j < k implies (#[trigger] rest@[j]).name@ != rest@[k as int].name@ by {
                        if rest@[j].name@ == rest@[k as int].name@ {
                            assert(!text_lt(rest@[j].name@, rest@[best as int].name@));
                        }
                    }
                    lemma_text_lt_irreflexive(rest@[k as int].name@);
                }
                best = k;
            }
            k += 1;
        }
        let ghost before_rest = rest@;
        let ghost before_out = out@;
        let ghost before_out_idx = out_idx;
        let ghost before_rest_idx = rest_idx;
        let item = rest.remove(best);
        assert(rest@ =~= before_rest.remove(best as int));
        out.push(item);
        assert(out@ =~= before_out.push(before_rest[best as int]));
        proof {
            out_idx = before_out_idx.push(before_rest_idx[best as int]);
            rest_idx = before_rest_idx.remove(best as int);
            let x = before_rest[best as int];
            vstd::seq_lib::to_multiset_remove(before_rest, best as int);
            vstd::seq_lib::to_multiset_build(before_out, x);
            vstd::seq_lib::to_multiset_contains(before_rest, x);
            assert(out@.to_multiset().add(rest@.to_multiset()) =~= before_out.to_multiset().add(before_rest.to_multiset()));
        }
        assert forall|i: int, j: int| 0 <= i < out@.len() && 0 <= j < rest@.len()
            implies !text_lt((#[trigger] rest@[j]).name@, (#[trigger] out@[i]).name@) by {
            if j < best {
                assert(rest@[j] == before_rest[j]);
            } else {
                assert(rest@[j] == before_rest[j + 1]);
            }
            if i < before_out.len() {
                assert(out@[i] == before_out[i]);
            }
        }
        assert forall|i: int, j: int| 0 <= i < j < out@.len()
            implies !text_lt((#[trigger] out@[j]).name@, (#[trigger] out@[i]).name@) by {
            if j < before_out.len() {
                assert(out@[i] == before_out[i]);
                assert(out@[j] == before_out[j]);
            } else {
                assert(out@[i] == before_out[i]);
                assert(out@[j] == before_rest[best as int]);
            }
        }
        assert forall|j: int| 0 <= j < rest@.len() implies 0 <= #[trigger] rest_idx[j] < orig.len() && rest@[j] == orig[rest_idx[j]] by {
            if j < best {
                assert(rest@[j] == before_rest[j] && rest_idx[j] == before_rest_idx[j]);
            } else {
                assert(rest@[j] == before_rest[j + 1] && rest_idx[j] == before_rest_idx[j + 1]);
            }
        }
        assert forall|k: int| 0 <= k < out@.len() implies 0 <= #[trigger] out_idx[k] < orig.len() && out@[k] == orig[out_idx[k]] by {
            if k < before_out.len() {
                assert(out@[k] == before_out[k] && out_idx[k] == before_out_idx[k]);
            }
        }
        assert forall|j: int, l: int| 0 <= j < l < rest@.len() implies #[trigger] rest_idx[j] < #[trigger] rest_idx[l] by {
            let jj = if j < best { j } else { j + 1 };
            let ll = if l < best { l } else { l + 1 };
            assert(rest_idx[j] == before_rest_idx[jj]);
            assert(rest_idx[l] == before_rest_idx[ll]);
        }
        assert forall|k: int, l: int| 0 <= k < l < out@.len() implies #[trigger] out_idx[k] != #[trigger] out_idx[l] by {
            if l < before_out.len() {
                assert(out_idx[k] == before_out_idx[k] && out_idx[l] == before_out_idx[l]);
            } else {
                assert(out_idx[k] == before_out_idx[k] && out_idx[l] == before_rest_idx[best as int]);
            }
        }
        assert forall|k: int, j: int| 0 <= k < out@.len() && 0 <= j < rest@.len() implies #[trigger] out_idx[k] != #[trigger] rest_idx[j] by {
            let jj = if j < best { j } else { j + 1 };
            assert(rest_idx[j] == before_rest_idx[jj]);
            if k < before_out.len() {
                assert(out_idx[k] == before_out_idx[k]);
            } else {
                assert(out_idx[k] == before_rest_idx[best as int]);
            }
        }
        assert forall|k: int, l: int| 0 <= k < l < out@.len() && out@[k].name@ == out@[l].name@
            implies #[trigger] out_idx[k] < #[trigger] out_idx[l] by {
            assert(out@[k] == before_out[k] && out_idx[k] == before_out_idx[k]);
            if l < before_out.len() {
                assert(out@[l] == before_out[l] && out_idx[l] == before_out_idx[l]);
            } else {
                assert(out@[l] == before_rest[best as int] && out_idx[l] == before_rest_idx[best as int]);
            }
        }
        assert forall|k: int, j: int| 0 <= k < out@.len() && 0 <= j < rest@.len() && out@[k].name@ == rest@[j].name@
            implies #[trigger] out_idx[k] < #[trigger] rest_idx[j] by {
            let jj = if j < best { j } else { j + 1 };
            assert(rest@[j] == before_rest[jj] && rest_idx[j] == before_rest_idx[jj]);
            if k < before_out.len() {
                assert(out@[k] == before_out[k] && out_idx[k] == before_out_idx[k]);
            } else {
                assert(out@[k] == before_rest[best as int] && out_idx[k] == before_rest_idx[best as int]);
                assert(jj > best);
            }
        }
    }
    assert(stable_reorder(orig, out@, out_idx));
    out
}

/// A tool's announcement as a mathematical value: name, description and
/// input schema.
pub open spec fn announced(t: ToolRegistration) -> (Seq<char>, Seq<char>, JsonData) {
    (t.name@, t.description@, t.input_schema.data())
}

/// The announcement of a declared tool.
pub open spec fn declared_announcement(v: ToolView) -> (Seq<char>, Seq<char>, JsonData) {
    (v.name, v.description, input_schema_of(v.params))
}

/// Whether `s` announces the declared tools, in the order they are
/// declared, followed by the tools with their own handling.
pub open spec fn announces_all(s: Seq<ToolRegistration>, custom: Seq<ToolRegistration>) -> bool {
    &&& s.len() == all_tool_views().len() + custom.len()
    &&& forall|i: int| 0 <= i < all_tool_views().len()
        ==> announced(#[trigger] s[i]) == declared_announcement(all_tool_views()[i])
    &&& forall|i: int| 0 <= i < custom.len() ==> #[trigger] s[all_tool_views().len() + i] == custom[i]
}

/// All tools the server announces: the declared tools and the tools with
/// their own handling, in name order.
pub fn register_tools(custom: Vec<ToolRegistration>) -> (r: Vec<ToolRegistration>)
    ensures
        r@.len() == all_tool_views().len() + custom@.len(),
        in_name_order(r@),
        exists|s: Seq<ToolRegistration>| announces_all(s, custom@) && #[trigger] s.to_multiset() == r@.to_multiset()
            && exists|perm: Seq<int>| stable_reorder(s, r@, perm),
{
    let defs = get_all_tools();
    assert(defs@.len() == tool_views(defs@).len());
    let mut tools: Vec<ToolRegistration> = Vec::new();
    let mut i: usize = 0;
    while i < defs.len()
        invariant
            i <= defs.len(),
            tools@.len() == i,
            tool_views(defs@) == all_tool_views(),
            forall|k: int| 0 <= k < i ==> announced(#[trigger] tools@[k]) == declared_announcement(all_tool_views()[k]),
        decreases defs.len() - i,
    {
        let t = generate_tool_registration(&defs[i]);
        assert(tool_views(defs@)[i as int] == defs@[i as int]@);
        tools.push(t);
        i += 1;
    }
    let ghost custom_view = custom@;
    let mut custom = custom;
    let ghost before = tools@;
    tools.append(&mut custom);
    assert(tools@ == before + custom_view);
    assert(announces_all(tools@, custom_view)) by {
        assert forall|k: int| 0 <= k < custom_view.len() implies #[trigger] tools@[all_tool_views().len() + k] == custom_view[k] by {
            assert(tools@[before.len() + k] == custom_view[k]);
        }
        assert forall|k: int| 0 <= k < all_tool_views().len() implies announced(#[trigger] tools@[k]) == declared_announcement(all_tool_views()[k]) by {
            assert(tools@[k] == before[k]);
        }
    }
    let ghost unsorted = tools@;
    let r = sort_by_name(tools);
    assert(announces_all(unsorted, custom_view) && unsorted.to_multiset() == r@.to_multiset()
        && exists|perm: Seq<int>| stable_reorder(unsorted, r@, perm));
    r
}

} // verus!
