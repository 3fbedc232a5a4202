//! The JSON schemas of tool inputs.

use vstd::prelude::*;
use crate::json::{JsonData, JsonValue, entries_data, insert_entry, lemma_entries_data, lemma_values_data, object_insert, values_data};
use crate::text::texts_of;

verus! {

/// Builds the JSON schema of a tool's input, property by property.
pub struct SchemaBuilder {
    pub properties: Vec<(String, JsonValue)>,
    pub required: Vec<String>,
}

/// The schema of one property: its type and description, and for an array
/// of strings the type of its items.
pub open spec fn property_schema(type_data: JsonData, string_items: bool, description: Seq<char>) -> JsonData {
    if string_items {
        JsonData::Object(seq![
            ("description"@, JsonData::Str(description)),
            ("items"@, JsonData::Object(seq![("type"@, JsonData::Str("string"@))])),
            ("type"@, type_data),
        ])
    } else {
        JsonData::Object(seq![
            ("description"@, JsonData::Str(description)),
            ("type"@, type_data),
        ])
    }
}

/// The type of a property that takes any JSON value.
pub open spec fn any_type() -> JsonData {
    JsonData::Array(seq![JsonData::Str("object"@), JsonData::Str("array"@), JsonData::Str("null"@)])
}

fn text(s: &str) -> (r: JsonValue)
    ensures
        r.data() == JsonData::Str(s@),
{
    JsonValue::String(String::from_str(s))
}

fn property(type_value: JsonValue, string_items: bool, description: &str) -> (r: JsonValue)
    ensures
        r.data() == property_schema(type_value.data(), string_items, description@),
{
    let ghost td = type_value.data();
    if string_items {
        let items = vec![(String::from_str("type"), text("string"))];
        proof {
            lemma_entries_data(items@);
            assert(entries_data(items@) =~= seq![("type"@, JsonData::Str("string"@))]);
        }
        let items_value = JsonValue::Object(items);
        let ghost id = items_value.data();
        let entries = vec![
            (String::from_str("description"), text(description)),
            (String::from_str("items"), items_value),
            (String::from_str("type"), type_value),
        ];
        proof {
            lemma_entries_data(entries@);
            assert(entries_data(entries@) =~= seq![("description"@, JsonData::Str(description@)), ("items"@, id), ("type"@, td)]);
        }
        JsonValue::Object(entries)
    } else {
        let entries = vec![
            (String::from_str("description"), text(description)),
            (String::from_str("type"), type_value),
        ];
        proof {
            lemma_entries_data(entries@);
            assert(entries_data(entries@) =~= seq![("description"@, JsonData::Str(description@)), ("type"@, td)]);
        }
        JsonValue::Object(entries)
    }
}

impl SchemaBuilder {
    /// A schema with no property.
    pub fn new() -> (r: SchemaBuilder)
        ensures
            r.properties@.len() == 0,
            r.required@.len() == 0,
    {
        SchemaBuilder { properties: Vec::new(), required: Vec::new() }
    }

    fn add(self, name: &str, prop: JsonValue, required: bool) -> (r: SchemaBuilder)
        ensures
            entries_data(r.properties@) == insert_entry(entries_data(self.properties@), name@, prop.data()),
            texts_of(r.required@) == if required { texts_of(self.required@).push(name@) } else { texts_of(self.required@) },
    {
        let mut properties = self.properties;
        let mut req = self.required;
        object_insert(&mut properties, String::from_str(name), prop);
        if required {
            let ghost before = req@;
            req.push(String::from_str(name));
            assert(texts_of(req@) =~= texts_of(before).push(name@));
        }
        SchemaBuilder { properties, required: req }
    }

    /// Adds a string property.
    pub fn add_string_property(self, name: &str, description: &str, required: bool) -> (r: SchemaBuilder)
        ensures
            entries_data(r.properties@) == insert_entry(entries_data(self.properties@), name@,
                property_schema(JsonData::Str("string"@), false, description@)),
            texts_of(r.required@) == if required { texts_of(self.required@).push(name@) } else { texts_of(self.required@) },
    {
        let p = property(text("string"), false, description);
        self.add(name, p, required)
    }

    /// Adds an array-of-strings property.
    pub fn add_string_array_property(self, name: &str, description: &str, required: bool) -> (r: SchemaBuilder)
        ensures
            entries_data(r.properties@) == insert_entry(entries_data(self.properties@), name@,
                property_schema(JsonData::Str("array"@), true, description@)),
            texts_of(r.required@) == if required { texts_of(self.required@).push(name@) } else { texts_of(self.required@) },
    {
        let p = property(text("array"), true, description);
        self.add(name, p, required)
    }

    /// Adds a number property.
    pub fn add_number_property(self, name: &str, description: &str, required: bool) -> (r: SchemaBuilder)
        ensures
            entries_data(r.properties@) == insert_entry(entries_data(self.properties@), name@,
                property_schema(JsonData::Str("number"@), false, description@)),
            texts_of(r.required@) == if required { texts_of(self.required@).push(name@) } else { texts_of(self.required@) },
    {
        let p = property(text("number"), false, description);
        self.add(name, p, required)
    }

    /// Adds a boolean property.
    pub fn add_boolean_property(self, name: &str, description: &str, required: bool) -> (r: SchemaBuilder)
        ensures
            entries_data(r.properties@) == insert_entry(entries_data(self.properties@), name@,
                property_schema(JsonData::Str("boolean"@), false, description@)),
            texts_of(r.required@) == if required { texts_of(self.required@).push(name@) } else { texts_of(self.required@) },
    {
        let p = property(text("boolean"), false, description);
        self.add(name, p, required)
    }

    /// Adds a property that takes an object, an array or null.
    pub fn add_any_property(self, name: &str, description: &str, required: bool) -> (r: SchemaBuilder)
        ensures
            entries_data(r.properties@) == insert_entry(entries_data(self.properties@), name@,
                property_schema(any_type(), false, description@)),
            texts_of(r.required@) == if required { texts_of(self.required@).push(name@) } else { texts_of(self.required@) },
    {
        let kinds = vec![text("object"), text("array"), text("null")];
        proof {
            lemma_values_data(kinds@);
            assert(values_data(kinds@) =~= seq![JsonData::Str("object"@), JsonData::Str("array"@), JsonData::Str("null"@)]);
        }
        let p = property(JsonValue::Array(kinds), false, description);
        self.add(name, p, required)
    }

    /// The schema: an object with the properties, and the required ones
    /// where there are any.
    pub fn build(self) -> (r: JsonValue)
        ensures
            r.data() == JsonData::Object(
                if self.required@.len() > 0 {
                    seq![
                        ("properties"@, JsonData::Object(entries_data(self.properties@))),
                        ("required"@, crate::handler::text_array(texts_of(self.required@))),
                        ("type"@, JsonData::Str("object"@)),
                    ]
                } else {
                    seq![
                        ("properties"@, JsonData::Object(entries_data(self.properties@))),
                        ("type"@, JsonData::Str("object"@)),
                    ]
                }),
    {
        let ghost pd = JsonData::Object(entries_data(self.properties@));
        let has_required = self.required.len() > 0;
        let req = crate::handler::texts_json(&self.required);
        let ghost rd = req.data();
        let props = JsonValue::Object(self.properties);
        if has_required {
            let entries = vec![
                (String::from_str("properties"), props),
                (String::from_str("required"), req),
                (String::from_str("type"), text("object")),
            ];
            proof {
                lemma_entries_data(entries@);
                assert(entries_data(entries@) =~= seq![("properties"@, pd), ("required"@, rd), ("type"@, JsonData::Str("object"@))]);
            }
            JsonValue::Object(entries)
        } else {
            let entries = vec![
                (String::from_str("properties"), props),
                (String::from_str("type"), text("object")),
            ];
            proof {
                lemma_entries_data(entries@);
                assert(entries_data(entries@) =~= seq![("properties"@, pd), ("type"@, JsonData::Str("object"@))]);
            }
            JsonValue::Object(entries)
        }
    }
}

} // verus!
