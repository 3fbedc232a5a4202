//! Rewriting a component or resource value into the shape that Bevy's error
//! message asks for.

use vstd::prelude::*;
use crate::detection::{BrpError, ErrorPattern, PatternData, parse_usize, parse_usize_spec, path_in_message, extract_path_from_error_context};
use crate::json::{JsonData, JsonNumber, JsonValue, SingleData, SingleText, entries_data, lemma_entries_data, lemma_values_data, lookup, object_get, object_insert, insert_entry, values_data, keys_sorted, lemma_insert_entry_lookup, lemma_insert_entry_sorted};
use crate::paths::{fix_tuple_struct_path, fixed_tuple_path};
use crate::text::{chars_of, decimal, decimal_string, has_substring, contains_text, joined, join_texts, same_text, string_of, texts_of};

verus! {

/// `` `t` expects {expected} format, not {found}``.
pub open spec fn type_format_message(t: Seq<char>, expected: Seq<char>, found: Seq<char>) -> Seq<char> {
    "`"@ + t + "` expects "@ + expected + " format, not "@ + found
}

/// Formats a type mismatch hint.
pub fn type_format_error(type_path: &str, expected: &str, found: &str) -> (r: String)
    ensures
        r@ == type_format_message(type_path@, expected@, found@),
{
    let mut s = String::from_str("`");
    s.append(type_path);
    s.append("` expects ");
    s.append(expected);
    s.append(" format, not ");
    s.append(found);
    s
}

/// `` `t` {array_type} expects array format``.
pub open spec fn expects_array_message(t: Seq<char>, array_type: Seq<char>) -> Seq<char> {
    "`"@ + t + "` "@ + array_type + " expects array format"@
}

/// Formats an array expectation hint.
pub fn type_expects_array(type_path: &str, array_type: &str) -> (r: String)
    ensures
        r@ == expects_array_message(type_path@, array_type@),
{
    let mut s = String::from_str("`");
    s.append(type_path);
    s.append("` ");
    s.append(array_type);
    s.append(" expects array format");
    s
}

/// The tuple path of a `LinearRgba` channel access; other paths unchanged.
pub open spec fn linear_rgba_path(p: Seq<char>) -> Seq<char> {
    if p == ".LinearRgba.red"@ || p == ".LinearRgba.r"@ {
        ".0.0"@
    } else if p == ".LinearRgba.green"@ || p == ".LinearRgba.g"@ {
        ".0.1"@
    } else if p == ".LinearRgba.blue"@ || p == ".LinearRgba.b"@ {
        ".0.2"@
    } else if p == ".LinearRgba.alpha"@ || p == ".LinearRgba.a"@ {
        ".0.3"@
    } else {
        p
    }
}

/// Rewrites the channel paths of the `LinearRgba` tuple variant.
pub fn fix_enum_tuple_path(path: &str) -> (r: String)
    ensures
        r@ == linear_rgba_path(path@),
{
    if same_text(path, ".LinearRgba.red") || same_text(path, ".LinearRgba.r") {
        String::from_str(".0.0")
    } else if same_text(path, ".LinearRgba.green") || same_text(path, ".LinearRgba.g") {
        String::from_str(".0.1")
    } else if same_text(path, ".LinearRgba.blue") || same_text(path, ".LinearRgba.b") {
        String::from_str(".0.2")
    } else if same_text(path, ".LinearRgba.alpha") || same_text(path, ".LinearRgba.a") {
        String::from_str(".0.3")
    } else {
        String::from_str(path)
    }
}

/// What a number becomes when read as a double, rounded to single precision
/// and written back: `None` where the value is not a number, or where the
/// rounded form is not known.
pub open spec fn narrowed(d: JsonData) -> Option<JsonData> {
    match d {
        JsonData::Number(_, SingleData::Text(t)) => Some(JsonData::Number(t, SingleData::Text(t))),
        JsonData::Number(_, SingleData::NotFinite) => Some(JsonData::Null),
        _ => None,
    }
}

/// The named members of an object, each narrowed, in the order of `names`.
pub open spec fn narrowed_fields(s: Seq<(Seq<char>, JsonData)>, names: Seq<Seq<char>>) -> Option<Seq<JsonData>>
    decreases names.len(),
{
    if names.len() == 0 {
        Some(Seq::empty())
    } else {
        match narrowed_fields(s, names.drop_last()) {
            Some(prev) => match lookup(s, names.last()) {
                Some(v) => match narrowed(v) {
                    Some(n) => Some(prev.push(n)),
                    None => None,
                },
                None => None,
            },
            None => None,
        }
    }
}

/// Whether every element is a number.
pub open spec fn all_numbers(a: Seq<JsonData>) -> bool {
    forall|i: int| 0 <= i < a.len() ==> #[trigger] a[i] is Number
}

/// An object's named members as an array of single-precision numbers; an
/// array of as many numbers as there are names, unchanged.
pub open spec fn array_form(d: JsonData, names: Seq<Seq<char>>) -> Option<JsonData> {
    match d {
        JsonData::Object(s) => match narrowed_fields(s, names) {
            Some(items) => Some(JsonData::Array(items)),
            None => None,
        },
        JsonData::Array(a) => if a.len() == names.len() && all_numbers(a) {
            Some(d)
        } else {
            None
        },
        _ => None,
    }
}

/// The texts of a slice of names.
pub open spec fn name_texts(names: Seq<&str>) -> Seq<Seq<char>> {
    Seq::new(names.len(), |i: int| names[i]@)
}

fn narrow(v: &JsonValue) -> (r: Option<JsonValue>)
    ensures
        match r {
            Some(n) => narrowed(v.data()) == Some(n.data()),
            None => narrowed(v.data()) is None,
        },
{
    match v {
        JsonValue::Number(n) => match &n.single {
            SingleText::Text(t) => Some(JsonValue::Number(JsonNumber {
                text: t.clone(),
                single: SingleText::Text(t.clone()),
            })),
            SingleText::NotFinite => Some(JsonValue::Null),
            SingleText::Unknown => None,
        },
        _ => None,
    }
}

/// Converts an object to the array of its members `field_names`, in that
/// order, each read as a number and rounded to single precision; an array of
/// as many numbers as there are names comes back unchanged.
///
/// A number built by this library has no known single-precision form, and
/// an object holding one under a name is not converted.
pub fn convert_to_array_format(value: &JsonValue, field_names: &[&str]) -> (r: Option<JsonValue>)
    ensures
        match r {
            Some(a) => array_form(value.data(), name_texts(field_names@)) == Some(a.data()),
            None => array_form(value.data(), name_texts(field_names@)) is None,
        },
{
    match value {
        JsonValue::Object(obj) => {
            let ghost s = entries_data(obj@);
            let ghost names = name_texts(field_names@);
            let mut out: Vec<JsonValue> = Vec::new();
            let mut i: usize = 0;
            while i < field_names.len()
                invariant
                    *value == JsonValue::Object(*obj),
                    i <= field_names.len(),
                    s == entries_data(obj@),
                    names == name_texts(field_names@),
                    narrowed_fields(s, names.subrange(0, i as int)) == Some(values_data(out@)),
                decreases field_names.len() - i,
            {
                assert(names.subrange(0, i + 1).drop_last() =~= names.subrange(0, i as int));
                assert(names.subrange(0, i + 1).last() == field_names@[i as int]@);
                let member = match object_get(obj, field_names[i]) {
                    Some(m) => m,
                    None => {
                        proof { lemma_narrowed_fields_fail(s, names, i as int + 1); }
                        return None;
                    },
                };
                let n = match narrow(member) {
                    Some(n) => n,
                    None => {
                        proof { lemma_narrowed_fields_fail(s, names, i as int + 1); }
                        return None;
                    },
                };
                assert(out@.push(n).drop_last() =~= out@);
                out.push(n);
                i += 1;
            }
            assert(names.subrange(0, names.len() as int) =~= names);
            Some(JsonValue::Array(out))
        },
        JsonValue::Array(arr) => {
            proof { lemma_values_data(arr@); }
            if arr.len() != field_names.len() {
                return None;
            }
            let mut i: usize = 0;
            while i < arr.len()
                invariant
                    *value == JsonValue::Array(*arr),
                    arr.len() == field_names.len(),
                    i <= arr.len(),
                    values_data(arr@).len() == arr@.len(),
                    forall|j: int| 0 <= j < arr@.len() ==> #[trigger] values_data(arr@)[j] == arr@[j].data(),
                    forall|j: int| 0 <= j < i ==> #[trigger] values_data(arr@)[j] is Number,
                decreases arr.len() - i,
            {
                match &arr[i] {
                    JsonValue::Number(_) => {},
                    _ => {
                        assert(!(values_data(arr@)[i as int] is Number));
                        return None;
                    },
                }
                i += 1;
            }
            Some(value.deep_copy())
        },
        _ => None,
    }
}

proof fn lemma_narrowed_fields_fail(s: Seq<(Seq<char>, JsonData)>, names: Seq<Seq<char>>, j: int)
    requires
        0 < j <= names.len(),
        narrowed_fields(s, names.subrange(0, j)) is None,
    ensures
        narrowed_fields(s, names) is None,
    decreases names.len() - j,
{
    if j < names.len() {
        assert(names.subrange(0, j + 1).drop_last() =~= names.subrange(0, j));
        lemma_narrowed_fields_fail(s, names, j + 1);
    } else {
        assert(names.subrange(0, j) =~= names);
    }
}

/// The component names of a Bevy math type, in order.
pub open spec fn math_fields(m: Seq<char>) -> Option<Seq<Seq<char>>> {
    if m == "Vec2"@ {
        Some(seq!["x"@, "y"@])
    } else if m == "Vec3"@ {
        Some(seq!["x"@, "y"@, "z"@])
    } else if m == "Vec4"@ || m == "Quat"@ {
        Some(seq!["x"@, "y"@, "z"@, "w"@])
    } else {
        None
    }
}

/// A math value in the array form of its type.
pub open spec fn math_array_form(d: JsonData, m: Seq<char>) -> Option<JsonData> {
    match math_fields(m) {
        Some(names) => array_form(d, names),
        None => None,
    }
}

/// Converts `Vec2`, `Vec3`, `Vec4` and `Quat` values to array format.
pub fn convert_to_math_type_array(value: &JsonValue, math_type: &str) -> (r: Option<JsonValue>)
    ensures
        match r {
            Some(a) => math_array_form(value.data(), math_type@) == Some(a.data()),
            None => math_array_form(value.data(), math_type@) is None,
        },
{
    if same_text(math_type, "Vec2") {
        let names: [&str; 2] = ["x", "y"];
        assert(name_texts(names@) =~= seq!["x"@, "y"@]);
        convert_to_array_format(value, &names)
    } else if same_text(math_type, "Vec3") {
        let names: [&str; 3] = ["x", "y", "z"];
        assert(name_texts(names@) =~= seq!["x"@, "y"@, "z"@]);
        convert_to_array_format(value, &names)
    } else if same_text(math_type, "Vec4") || same_text(math_type, "Quat") {
        let names: [&str; 4] = ["x", "y", "z", "w"];
        assert(name_texts(names@) =~= seq!["x"@, "y"@, "z"@, "w"@]);
        convert_to_array_format(value, &names)
    } else {
        None
    }
}

/// The text member `k` of an object's entries.
pub open spec fn string_member(s: Seq<(Seq<char>, JsonData)>, k: Seq<char>) -> Option<Seq<char>> {
    match lookup(s, k) {
        Some(JsonData::Str(t)) => Some(t),
        _ => None,
    }
}

/// The only entry of an object with exactly one.
pub open spec fn only_entry_of(d: JsonData) -> Option<(Seq<char>, JsonData)> {
    match d {
        JsonData::Object(s) => if s.len() == 1 { Some(s[0]) } else { None },
        _ => None,
    }
}

/// The first element of a non-empty array.
pub open spec fn first_item_of(d: JsonData) -> Option<JsonData> {
    match d {
        JsonData::Array(a) => if a.len() > 0 { Some(a[0]) } else { None },
        _ => None,
    }
}

/// `` from `k` field``.
pub open spec fn from_field(k: Seq<char>) -> Seq<char> {
    "from `"@ + k + "` field"@
}

/// A string read out of a value, with where it came from: the first of the
/// `name`, `value`, `text` and `label` members that holds a string, the only
/// member of an object, the only element of an array, or the string itself.
pub open spec fn extracted_string(d: JsonData) -> Option<(Seq<char>, Seq<char>)> {
    match d {
        JsonData::Object(s) => match string_member(s, "name"@) {
            Some(t) => Some((t, from_field("name"@))),
            None => match string_member(s, "value"@) {
                Some(t) => Some((t, from_field("value"@))),
                None => match string_member(s, "text"@) {
                    Some(t) => Some((t, from_field("text"@))),
                    None => match string_member(s, "label"@) {
                        Some(t) => Some((t, from_field("label"@))),
                        None => if s.len() == 1 && s[0].1 is Str {
                            Some((s[0].1->Str_0, from_field(s[0].0)))
                        } else {
                            None
                        },
                    },
                },
            },
        },
        JsonData::Array(a) => if a.len() == 1 && a[0] is Str {
            Some((a[0]->Str_0, "from single-element array"@))
        } else {
            None
        },
        JsonData::Str(t) => Some((t, "already string format"@)),
        _ => None,
    }
}

/// The mathematical form of a pair of strings.
pub open spec fn pair_data(r: Option<(String, String)>) -> Option<(Seq<char>, Seq<char>)> {
    match r {
        Some((a, b)) => Some((a@, b@)),
        None => None,
    }
}

/// The mathematical form of a corrected value and its hint.
pub open spec fn fix_data(r: Option<(JsonValue, String)>) -> Option<(JsonData, Seq<char>)> {
    match r {
        Some((v, h)) => Some((v.data(), h@)),
        None => None,
    }
}

fn string_member_of(obj: &Vec<(String, JsonValue)>, key: &str) -> (r: Option<String>)
    ensures
        match r {
            Some(t) => string_member(entries_data(obj@), key@) == Some(t@),
            None => string_member(entries_data(obj@), key@) is None,
        },
{
    match object_get(obj, key) {
        Some(JsonValue::String(t)) => Some(t.clone()),
        _ => None,
    }
}

fn only_entry(obj: &Vec<(String, JsonValue)>) -> (r: Option<(&String, &JsonValue)>)
    ensures
        match r {
            Some((k, v)) => entries_data(obj@).len() == 1 && entries_data(obj@)[0] == (k@, v.data()),
            None => entries_data(obj@).len() != 1,
        },
{
    proof { lemma_entries_data(obj@); }
    if obj.len() == 1 {
        Some((&obj[0].0, &obj[0].1))
    } else {
        None
    }
}

fn first_item(arr: &Vec<JsonValue>) -> (r: Option<&JsonValue>)
    ensures
        match r {
            Some(v) => values_data(arr@).len() > 0 && values_data(arr@)[0] == v.data(),
            None => values_data(arr@).len() == 0,
        },
{
    proof { lemma_values_data(arr@); }
    if arr.len() > 0 {
        Some(&arr[0])
    } else {
        None
    }
}

fn from_field_text(k: &str) -> (r: String)
    ensures
        r@ == from_field(k@),
{
    let mut s = String::from_str("from `");
    s.append(k);
    s.append("` field");
    s
}

/// Extracts a string value from the usual ways of writing one, with a note
/// on where it was found.
pub fn extract_string_value(value: &JsonValue) -> (r: Option<(String, String)>)
    ensures
        pair_data(r) == extracted_string(value.data()),
{
    match value {
        JsonValue::Object(obj) => {
            if let Some(t) = string_member_of(obj, "name") {
                return Some((t, from_field_text("name")));
            }
            if let Some(t) = string_member_of(obj, "value") {
                return Some((t, from_field_text("value")));
            }
            if let Some(t) = string_member_of(obj, "text") {
                return Some((t, from_field_text("text")));
            }
            if let Some(t) = string_member_of(obj, "label") {
                return Some((t, from_field_text("label")));
            }
            match only_entry(obj) {
                Some((k, JsonValue::String(t))) => Some((t.clone(), from_field_text(k.as_str()))),
                _ => None,
            }
        },
        JsonValue::Array(arr) => {
            proof { lemma_values_data(arr@); }
            if arr.len() == 1 {
                if let JsonValue::String(t) = &arr[0] {
                    return Some((t.clone(), String::from_str("from single-element array")));
                }
            }
            None
        },
        JsonValue::String(t) => Some((t.clone(), String::from_str("already string format"))),
        _ => None,
    }
}

/// `object`, `array` or `other`, after the shape of a value.
pub open spec fn shape_word(d: JsonData) -> Seq<char> {
    match d {
        JsonData::Object(_) => "object"@,
        JsonData::Array(_) => "array"@,
        _ => "other"@,
    }
}

/// A `Name` component written as a string.
pub open spec fn name_component_fix(t: Seq<char>, d: JsonData) -> Option<(JsonData, Seq<char>)> {
    match extracted_string(d) {
        Some((s, src)) => Some((JsonData::Str(s),
            "`"@ + t + " Name component` expects string format, extracted "@ + src + " (was "@ + shape_word(d) + ")"@)),
        None => None,
    }
}

/// A value written as the string it holds.
pub open spec fn string_format_fix(t: Seq<char>, d: JsonData) -> Option<(JsonData, Seq<char>)> {
    match extracted_string(d) {
        Some((s, src)) => Some((JsonData::Str(s), "`"@ + t + "` expects string format, extracted "@ + src)),
        None => None,
    }
}

/// The fix for a message that names the type it expected.
pub open spec fn expected_type_fix(t: Seq<char>, d: JsonData, expected: Seq<char>) -> Option<(JsonData, Seq<char>)> {
    if has_substring(expected, "::Name"@) || has_substring(expected, "::name::Name"@) {
        name_component_fix(t, d)
    } else if has_substring(expected, "String"@) {
        string_format_fix(t, d)
    } else {
        None
    }
}

fn shape_word_of(v: &JsonValue) -> (r: &'static str)
    ensures
        r@ == shape_word(v.data()),
{
    match v {
        JsonValue::Object(_) => "object",
        JsonValue::Array(_) => "array",
        _ => "other",
    }
}

fn apply_name_component_fix(type_path: &str, original_value: &JsonValue) -> (r: Option<(JsonValue, String)>)
    ensures
        fix_data(r) == name_component_fix(type_path@, original_value.data()),
{
    match extract_string_value(original_value) {
        Some((extracted, source)) => {
            let mut h = String::from_str("`");
            h.append(type_path);
            h.append(" Name component` expects string format, extracted ");
            h.append(source.as_str());
            h.append(" (was ");
            h.append(shape_word_of(original_value));
            h.append(")");
            Some((JsonValue::String(extracted), h))
        },
        None => None,
    }
}

fn convert_to_string_format(type_path: &str, original_value: &JsonValue) -> (r: Option<(JsonValue, String)>)
    ensures
        fix_data(r) == string_format_fix(type_path@, original_value.data()),
{
    match extract_string_value(original_value) {
        Some((extracted, source)) => {
            let mut h = String::from_str("`");
            h.append(type_path);
            h.append("` expects string format, extracted ");
            h.append(source.as_str());
            Some((JsonValue::String(extracted), h))
        },
        None => None,
    }
}

fn apply_expected_type_fix(type_path: &str, original_value: &JsonValue, expected_type: &str) -> (r: Option<(JsonValue, String)>)
    ensures
        fix_data(r) == expected_type_fix(type_path@, original_value.data(), expected_type@),
{
    if contains_text(expected_type, "::Name") || contains_text(expected_type, "::name::Name") {
        apply_name_component_fix(type_path, original_value)
    } else if contains_text(expected_type, "String") {
        convert_to_string_format(type_path, original_value)
    } else {
        None
    }
}

/// What the hint for a math type adds after the array expectation.
pub open spec fn math_suffix(m: Seq<char>) -> Option<Seq<char>> {
    if m == "Vec3"@ {
        Some(" [x, y, z]"@)
    } else if m == "Vec2"@ {
        Some(" [x, y]"@)
    } else if m == "Vec4"@ || m == "Quat"@ {
        Some(" [x, y, z, w]"@)
    } else {
        None
    }
}

/// A math value converted to its array form.
pub open spec fn math_type_array_fix(t: Seq<char>, d: JsonData, m: Seq<char>) -> Option<(JsonData, Seq<char>)> {
    match math_suffix(m) {
        Some(suffix) => match math_array_form(d, m) {
            Some(a) => Some((a, expects_array_message(t, m) + suffix)),
            None => None,
        },
        None => None,
    }
}

fn apply_math_type_array_fix(type_path: &str, original_value: &JsonValue, math_type: &str) -> (r: Option<(JsonValue, String)>)
    ensures
        fix_data(r) == math_type_array_fix(type_path@, original_value.data(), math_type@),
{
    let suffix = if same_text(math_type, "Vec3") {
        " [x, y, z]"
    } else if same_text(math_type, "Vec2") {
        " [x, y]"
    } else if same_text(math_type, "Vec4") || same_text(math_type, "Quat") {
        " [x, y, z, w]"
    } else {
        return None;
    };
    match convert_to_math_type_array(original_value, math_type) {
        Some(arr) => {
            let mut h = type_expects_array(type_path, math_type);
            h.append(suffix);
            Some((arr, h))
        },
        None => None,
    }
}

/// The text after its leading dots (`str::trim_start_matches('.')`).
pub open spec fn strip_dots(s: Seq<char>) -> Seq<char>
    decreases s.len(),
{
    if s.len() > 0 && s[0] == '.' {
        strip_dots(s.drop_first())
    } else {
        s
    }
}

fn trim_dots(s: &str) -> (r: String)
    ensures
        r@ == strip_dots(s@),
{
    let cs = chars_of(s);
    let mut i: usize = 0;
    assert(cs@.subrange(0, cs@.len() as int) =~= cs@);
    while i < cs.len() && cs[i] == '.'
        invariant
            i <= cs.len(),
            strip_dots(cs@) == strip_dots(cs@.subrange(i as int, cs@.len() as int)),
        decreases cs.len() - i,
    {
        let ghost rest = cs@.subrange(i as int, cs@.len() as int);
        assert(rest.drop_first() =~= cs@.subrange(i + 1, cs@.len() as int));
        i += 1;
    }
    let out = crate::text::sub_chars(cs.as_slice(), i, cs.len());
    string_of(out.as_slice())
}

/// A tuple struct value for an access at `field_path`: the only member of
/// an object, or the element of an array that the rewritten path indexes.
pub open spec fn tuple_struct_format_fix(t: Seq<char>, d: JsonData, field_path: Seq<char>) -> Option<(JsonData, Seq<char>)> {
    let fixed = fixed_tuple_path(field_path);
    match d {
        JsonData::Object(s) => if s.len() == 1 {
            Some((s[0].1, "`"@ + t + "` is a tuple struct, use numeric indices like .0 instead of named fields"@))
        } else {
            None
        },
        JsonData::Array(a) => match parse_usize_spec(strip_dots(fixed)) {
            Some(index) => if index < a.len() {
                Some((a[index as int], if fixed == field_path {
                    "`"@ + t + "` tuple struct element at index "@ + decimal(index) + " extracted"@
                } else {
                    "`"@ + t + "` tuple struct: converted '"@ + field_path + "' to '"@ + fixed + "' for element access"@
                }))
            } else {
                None
            },
            None => None,
        },
        _ => None,
    }
}

fn fix_tuple_struct_format(type_path: &str, original_value: &JsonValue, field_path: &str) -> (r: Option<(JsonValue, String)>)
    ensures
        fix_data(r) == tuple_struct_format_fix(type_path@, original_value.data(), field_path@),
{
    let fixed_path = fix_tuple_struct_path(field_path);
    match original_value {
        JsonValue::Object(obj) => match only_entry(obj) {
            Some((_, v)) => {
                let mut h = String::from_str("`");
                h.append(type_path);
                h.append("` is a tuple struct, use numeric indices like .0 instead of named fields");
                Some((v.deep_copy(), h))
            },
            None => None,
        },
        JsonValue::Array(arr) => {
            proof { lemma_values_data(arr@); }
            let trimmed = trim_dots(fixed_path.as_str());
            match parse_usize(trimmed.as_str()) {
                Some(index) => {
                    if index < arr.len() {
                        let mut h = String::from_str("`");
                        h.append(type_path);
                        if same_text(fixed_path.as_str(), field_path) {
                            h.append("` tuple struct element at index ");
                            let digits = decimal_string(index as u64);
                            h.append(digits.as_str());
                            h.append(" extracted");
                        } else {
                            h.append("` tuple struct: converted '");
                            h.append(field_path);
                            h.append("' to '");
                            h.append(fixed_path.as_str());
                            h.append("' for element access");
                        }
                        Some((arr[index].deep_copy(), h))
                    } else {
                        None
                    }
                },
                None => None,
            }
        },
        _ => None,
    }
}

/// The fix for an access error: where the message names a path that has a
/// tuple form, the value is kept and the hint gives the path to use; where
/// the path has none, the value is read as a tuple struct; where no path is
/// named, the access kind decides.
pub open spec fn access_error_fix(t: Seq<char>, d: JsonData, access: Seq<char>, error_type: Seq<char>) -> Option<(JsonData, Seq<char>)> {
    match path_in_message(error_type) {
        Some(p) => {
            let fixed = fixed_tuple_path(p);
            if fixed != p {
                Some((d, "`"@ + t + "` is a tuple struct: try using path `"@ + fixed + "` instead of `"@ + p + "`"@))
            } else {
                tuple_struct_format_fix(t, d, p)
            }
        },
        None => if access == "Field"@ || access == "FieldMut"@ {
            match only_entry_of(d) {
                Some((k, x)) => Some((x, "`"@ + t + "` AccessError with "@ + access + " access: converted field '"@ + k + "' to tuple access"@)),
                None => None,
            }
        } else if access == "TupleIndex"@ {
            match first_item_of(d) {
                Some(x) => Some((x, "`"@ + t + "` AccessError with "@ + access + " access: using first array element"@)),
                None => None,
            }
        } else {
            None
        },
    }
}

fn is_field_access(access: &str) -> (r: bool)
    ensures
        r == (access@ == "Field"@ || access@ == "FieldMut"@),
{
    same_text(access, "Field") || same_text(access, "FieldMut")
}

/// Fixes Bevy access errors.
pub fn fix_access_error(type_path: &str, original_value: &JsonValue, access: &str, error_type: &str) -> (r: Option<(JsonValue, String)>)
    ensures
        fix_data(r) == access_error_fix(type_path@, original_value.data(), access@, error_type@),
{
    match extract_path_from_error_context(error_type) {
        Some(path) => {
            let fixed = fix_tuple_struct_path(path.as_str());
            if !same_text(fixed.as_str(), path.as_str()) {
                let mut h = String::from_str("`");
                h.append(type_path);
                h.append("` is a tuple struct: try using path `");
                h.append(fixed.as_str());
                h.append("` instead of `");
                h.append(path.as_str());
                h.append("`");
                Some((original_value.deep_copy(), h))
            } else {
                fix_tuple_struct_format(type_path, original_value, path.as_str())
            }
        },
        None => {
            if is_field_access(access) {
                if let JsonValue::Object(obj) = original_value {
                    if let Some((k, v)) = only_entry(obj) {
                        let mut h = String::from_str("`");
                        h.append(type_path);
                        h.append("` AccessError with ");
                        h.append(access);
                        h.append(" access: converted field '");
                        h.append(k.as_str());
                        h.append("' to tuple access");
                        return Some((v.deep_copy(), h));
                    }
                }
                None
            } else if same_text(access, "TupleIndex") {
                if let JsonValue::Array(arr) = original_value {
                    if let Some(v) = first_item(arr) {
                        let mut h = String::from_str("`");
                        h.append(type_path);
                        h.append("` AccessError with ");
                        h.append(access);
                        h.append(" access: using first array element");
                        return Some((v.deep_copy(), h));
                    }
                }
                None
            } else {
                None
            }
        },
    }
}

/// The fix for a type mismatch: first by the pair of types, then by the
/// access kind.
pub open spec fn type_mismatch_fix(t: Seq<char>, d: JsonData, expected: Seq<char>, actual: Seq<char>, access: Seq<char>) -> Option<(JsonData, Seq<char>)> {
    let by_types = if expected == "struct"@ && actual == "tuple_struct"@ {
        match only_entry_of(d) {
            Some((k, x)) => Some((x, "`"@ + t + "` TypeMismatch: Expected "@ + expected + " access to access a "@ + actual
                + ", converted field '"@ + k + "' to tuple access"@)),
            None => None,
        }
    } else if expected == "tuple_struct"@ && actual == "struct"@ {
        match first_item_of(d) {
            Some(x) => Some((x, "`"@ + t + "` TypeMismatch: Expected "@ + expected + " access to access a "@ + actual
                + ", using first array element"@)),
            None => None,
        }
    } else if (expected == "variant"@ && actual == "tuple_struct"@) || (expected == "tuple_struct"@ && actual == "variant"@) {
        match only_entry_of(d) {
            Some((_, x)) => Some((x, "`"@ + t + "` TypeMismatch: Expected "@ + expected + ", found "@ + actual + ", extracting inner value"@)),
            None => match first_item_of(d) {
                Some(x) => Some((x, "`"@ + t + "` TypeMismatch: Expected "@ + expected + ", found "@ + actual + ", using first element"@)),
                None => None,
            },
        }
    } else {
        None
    };
    match by_types {
        Some(r) => Some(r),
        None => if access == "Field"@ || access == "FieldMut"@ {
            match only_entry_of(d) {
                Some((k, x)) => Some((x, "`"@ + t + "` TypeMismatch with "@ + access + " access: using field '"@ + k + "'"@)),
                None => None,
            }
        } else if access == "TupleIndex"@ {
            match first_item_of(d) {
                Some(x) => Some((x, "`"@ + t + "` TypeMismatch with "@ + access + " access: using array element"@)),
                None => None,
            }
        } else {
            None
        },
    }
}

fn hint_start(type_path: &str, rest: &str) -> (r: String)
    ensures
        r@ == "`"@ + type_path@ + rest@,
{
    let mut h = String::from_str("`");
    h.append(type_path);
    h.append(rest);
    h
}

fn fix_type_mismatch(type_path: &str, original_value: &JsonValue, expected: &str, actual: &str, access: &str) -> (r: Option<(JsonValue, String)>)
    ensures
        fix_data(r) == type_mismatch_fix(type_path@, original_value.data(), expected@, actual@, access@),
{
    if same_text(expected, "struct") && same_text(actual, "tuple_struct") {
        if let JsonValue::Object(obj) = original_value {
            if let Some((k, v)) = only_entry(obj) {
                let mut h = hint_start(type_path, "` TypeMismatch: Expected ");
                h.append(expected);
                h.append(" access to access a ");
                h.append(actual);
                h.append(", converted field '");
                h.append(k.as_str());
                h.append("' to tuple access");
                return Some((v.deep_copy(), h));
            }
        }
    } else if same_text(expected, "tuple_struct") && same_text(actual, "struct") {
        if let JsonValue::Array(arr) = original_value {
            if let Some(v) = first_item(arr) {
                let mut h = hint_start(type_path, "` TypeMismatch: Expected ");
                h.append(expected);
                h.append(" access to access a ");
                h.append(actual);
                h.append(", using first array element");
                return Some((v.deep_copy(), h));
            }
        }
    } else if (same_text(expected, "variant") && same_text(actual, "tuple_struct"))
        || (same_text(expected, "tuple_struct") && same_text(actual, "variant")) {
        match original_value {
            JsonValue::Object(obj) => {
                if let Some((_, v)) = only_entry(obj) {
                    let mut h = hint_start(type_path, "` TypeMismatch: Expected ");
                h.append(expected);
                    h.append(", found ");
                    h.append(actual);
                    h.append(", extracting inner value");
                    return Some((v.deep_copy(), h));
                }
            },
            JsonValue::Array(arr) => {
                if let Some(v) = first_item(arr) {
                    let mut h = hint_start(type_path, "` TypeMismatch: Expected ");
                h.append(expected);
                    h.append(", found ");
                    h.append(actual);
                    h.append(", using first element");
                    return Some((v.deep_copy(), h));
                }
            },
            _ => {},
        }
    }
    if is_field_access(access) {
        if let JsonValue::Object(obj) = original_value {
            if let Some((k, v)) = only_entry(obj) {
                let mut h = String::from_str("`");
                h.append(type_path);
                h.append("` TypeMismatch with ");
                h.append(access);
                h.append(" access: using field '");
                h.append(k.as_str());
                h.append("'");
                return Some((v.deep_copy(), h));
            }
        }
        None
    } else if same_text(access, "TupleIndex") {
        if let JsonValue::Array(arr) = original_value {
            if let Some(v) = first_item(arr) {
                let mut h = String::from_str("`");
                h.append(type_path);
                h.append("` TypeMismatch with ");
                h.append(access);
                h.append(" access: using array element");
                return Some((v.deep_copy(), h));
            }
        }
        None
    } else {
        None
    }
}

/// The fix for an enum variant mismatch: first by the pair of variant
/// kinds, then by the access kind.
pub open spec fn variant_mismatch_fix(t: Seq<char>, d: JsonData, expected: Seq<char>, actual: Seq<char>, access: Seq<char>) -> Option<(JsonData, Seq<char>)> {
    let by_kinds = if expected == "tuple"@ && actual == "struct"@ {
        match only_entry_of(d) {
            Some((k, x)) => Some((x, "`"@ + t + "` VariantTypeMismatch: Expected "@ + expected + " variant access to access a "@
                + actual + " variant, converted '"@ + k + "' to tuple variant format"@)),
            None => None,
        }
    } else if expected == "struct"@ && actual == "tuple"@ {
        match d {
            JsonData::Array(a) => if a.len() == 1 {
                Some((a[0], "`"@ + t + "` VariantTypeMismatch: Expected "@ + expected + " variant access to access a "@
                    + actual + " variant, converted array to struct variant format"@))
            } else {
                None
            },
            _ => None,
        }
    } else {
        None
    };
    match by_kinds {
        Some(r) => Some(r),
        None => if access == "Field"@ || access == "FieldMut"@ {
            match only_entry_of(d) {
                Some((_, x)) => Some((x, "`"@ + t + "` VariantTypeMismatch with "@ + access + " access: converted to variant element"@)),
                None => None,
            }
        } else if access == "TupleIndex"@ {
            match first_item_of(d) {
                Some(x) => Some((x, "`"@ + t + "` VariantTypeMismatch with "@ + access + " access: using variant element"@)),
                None => None,
            }
        } else {
            None
        },
    }
}

fn fix_variant_type_mismatch(type_path: &str, original_value: &JsonValue, expected: &str, actual: &str, access: &str) -> (r: Option<(JsonValue, String)>)
    ensures
        fix_data(r) == variant_mismatch_fix(type_path@, original_value.data(), expected@, actual@, access@),
{
    if same_text(expected, "tuple") && same_text(actual, "struct") {
        if let JsonValue::Object(obj) = original_value {
            if let Some((k, v)) = only_entry(obj) {
                let mut h = hint_start(type_path, "` VariantTypeMismatch: Expected ");
                h.append(expected);
                h.append(" variant access to access a ");
                h.append(actual);
                h.append(" variant, converted '");
                h.append(k.as_str());
                h.append("' to tuple variant format");
                return Some((v.deep_copy(), h));
            }
        }
    } else if same_text(expected, "struct") && same_text(actual, "tuple") {
        if let JsonValue::Array(arr) = original_value {
            proof { lemma_values_data(arr@); }
            if arr.len() == 1 {
                let mut h = hint_start(type_path, "` VariantTypeMismatch: Expected ");
                h.append(expected);
                h.append(" variant access to access a ");
                h.append(actual);
                h.append(" variant, converted array to struct variant format");
                return Some((arr[0].deep_copy(), h));
            }
        }
    }
    if is_field_access(access) {
        if let JsonValue::Object(obj) = original_value {
            if let Some((_, v)) = only_entry(obj) {
                let mut h = hint_start(type_path, "` VariantTypeMismatch with ");
                h.append(access);
                h.append(" access: converted to variant element");
                return Some((v.deep_copy(), h));
            }
        }
        None
    } else if same_text(access, "TupleIndex") {
        if let JsonValue::Array(arr) = original_value {
            if let Some(v) = first_item(arr) {
                let mut h = hint_start(type_path, "` VariantTypeMismatch with ");
                h.append(access);
                h.append(" access: using variant element");
                return Some((v.deep_copy(), h));
            }
        }
        None
    } else {
        None
    }
}

/// The fix for a missing field: a lower-case field that has a tuple index
/// reads that element (or the only member); an upper-case field reads the
/// variant it names (or the only member); else the only member or the first
/// element is used.
pub open spec fn missing_field_fix(t: Seq<char>, d: JsonData, f: Seq<char>) -> Option<(JsonData, Seq<char>)> {
    let dotted = "."@ + f;
    let fixed = fixed_tuple_path(dotted);
    let lower = f.len() > 0 && 'a' <= f[0] && f[0] <= 'z';
    let upper = f.len() > 0 && 'A' <= f[0] && f[0] <= 'Z';
    let as_tuple = if lower && fixed != dotted {
        match d {
            JsonData::Array(a) => if fixed.len() > 0 && fixed[0] == '.' {
                match parse_usize_spec(fixed.drop_first()) {
                    Some(index) => if index < a.len() {
                        Some((a[index as int], "`"@ + t + "` MissingField '"@ + f + "': converted to tuple struct index "@ + decimal(index)))
                    } else {
                        None
                    },
                    None => None,
                }
            } else {
                None
            },
            JsonData::Object(s) => if s.len() == 1 {
                Some((s[0].1, "`"@ + t + "` MissingField '"@ + f + "': converted object to tuple struct access"@))
            } else {
                None
            },
            _ => None,
        }
    } else {
        None
    };
    let as_variant = if upper {
        match d {
            JsonData::Object(s) => match lookup(s, f) {
                Some(x) => Some((x, "`"@ + t + "` MissingField '"@ + f + "': extracted enum variant value"@)),
                None => if s.len() == 1 {
                    Some((s[0].1, "`"@ + t + "` MissingField '"@ + f + "': used field '"@ + s[0].0 + "' instead"@))
                } else {
                    None
                },
            },
            _ => None,
        }
    } else {
        None
    };
    match as_tuple {
        Some(r) => Some(r),
        None => match as_variant {
            Some(r) => Some(r),
            None => match d {
                JsonData::Object(s) => if s.len() == 1 {
                    Some((s[0].1, "`"@ + t + "` MissingField '"@ + f + "': used available field '"@ + s[0].0 + "'"@))
                } else {
                    None
                },
                JsonData::Array(a) => if a.len() > 0 {
                    Some((a[0], "`"@ + t + "` MissingField '"@ + f + "': used first array element"@))
                } else {
                    None
                },
                _ => None,
            },
        },
    }
}

fn missing_field_start(type_path: &str, field_name: &str, rest: &str) -> (r: String)
    ensures
        r@ == "`"@ + type_path@ + "` MissingField '"@ + field_name@ + rest@,
{
    let mut h = hint_start(type_path, "` MissingField '");
    h.append(field_name);
    h.append(rest);
    h
}

fn fix_missing_field(type_path: &str, original_value: &JsonValue, field_name: &str) -> (r: Option<(JsonValue, String)>)
    ensures
        fix_data(r) == missing_field_fix(type_path@, original_value.data(), field_name@),
{
    let f = chars_of(field_name);
    let lower = f.len() > 0 && 'a' <= f[0] && f[0] <= 'z';
    let upper = f.len() > 0 && 'A' <= f[0] && f[0] <= 'Z';
    if lower {
        let dotted = crate::text::concat2(".", field_name);
        let fixed = fix_tuple_struct_path(dotted.as_str());
        if !same_text(fixed.as_str(), dotted.as_str()) {
            match original_value {
                JsonValue::Array(arr) => {
                    proof { lemma_values_data(arr@); }
                    let fc = chars_of(fixed.as_str());
                    if fc.len() > 0 && fc[0] == '.' {
                        let rest = string_of(crate::text::sub_chars(fc.as_slice(), 1, fc.len()).as_slice());
                        assert(rest@ =~= fixed@.drop_first());
                        if let Some(index) = parse_usize(rest.as_str()) {
                            if index < arr.len() {
                                let mut h = missing_field_start(type_path, field_name, "': converted to tuple struct index ");
                                let digits = decimal_string(index as u64);
                                h.append(digits.as_str());
                                return Some((arr[index].deep_copy(), h));
                            }
                        }
                    }
                },
                JsonValue::Object(obj) => {
                    if let Some((_, v)) = only_entry(obj) {
                        let h = missing_field_start(type_path, field_name, "': converted object to tuple struct access");
                        return Some((v.deep_copy(), h));
                    }
                },
                _ => {},
            }
        }
    }
    if upper {
        if let JsonValue::Object(obj) = original_value {
            if let Some(v) = object_get(obj, field_name) {
                let h = missing_field_start(type_path, field_name, "': extracted enum variant value");
                return Some((v.deep_copy(), h));
            } else if let Some((k, v)) = only_entry(obj) {
                let mut h = missing_field_start(type_path, field_name, "': used field '");
                h.append(k.as_str());
                h.append("' instead");
                return Some((v.deep_copy(), h));
            }
        }
    }
    match original_value {
        JsonValue::Object(obj) => match only_entry(obj) {
            Some((k, v)) => {
                let mut h = missing_field_start(type_path, field_name, "': used available field '");
                h.append(k.as_str());
                h.append("'");
                Some((v.deep_copy(), h))
            },
            None => None,
        },
        JsonValue::Array(arr) => match first_item(arr) {
            Some(v) => {
                let h = missing_field_start(type_path, field_name, "': used first array element");
                Some((v.deep_copy(), h))
            },
            None => None,
        },
        _ => None,
    }
}

/// One member of a transform: where the object holds `field`, it is put
/// in the corrected entries, in array form where it converts (with `hint`
/// noted), else unchanged.
pub open spec fn transform_member_step(
    acc: (Seq<(Seq<char>, JsonData)>, Seq<Seq<char>>),
    s: Seq<(Seq<char>, JsonData)>,
    field: Seq<char>,
    m: Seq<char>,
    hint: Seq<char>,
) -> (Seq<(Seq<char>, JsonData)>, Seq<Seq<char>>) {
    match lookup(s, field) {
        Some(v) => match math_array_form(v, m) {
            Some(a) => (insert_entry(acc.0, field, a), acc.1.push(hint)),
            None => (insert_entry(acc.0, field, v), acc.1),
        },
        None => acc,
    }
}

/// A transform written with its `translation` and `scale` as `Vec3` arrays
/// and its `rotation` as a `Quat` array.
pub open spec fn transform_sequence_fix(t: Seq<char>, d: JsonData, expected_count: nat) -> Option<(JsonData, Seq<char>)> {
    match d {
        JsonData::Object(s) => {
            let a1 = transform_member_step((Seq::empty(), Seq::empty()), s, "translation"@, "Vec3"@,
                "`translation` converted to Vec3 array format"@);
            let a2 = transform_member_step(a1, s, "scale"@, "Vec3"@, "`scale` converted to Vec3 array format"@);
            let a3 = transform_member_step(a2, s, "rotation"@, "Quat"@, "`rotation` converted to Quat array format"@);
            if a3.0.len() == 0 {
                None
            } else {
                Some((JsonData::Object(a3.0), "`"@ + t + "` Transform expected "@ + decimal(expected_count)
                    + " f32 values in sequence - "@ + joined(a3.1, ", "@)))
            }
        },
        _ => None,
    }
}

/// A transform's rotation written as an object of four numbers comes out as
/// the array of those numbers in the order `x`, `y`, `z`, `w`, each read at
/// single precision: a rotation is a quaternion, never cut to three values.
pub proof fn lemma_transform_rotation_is_quat(
    t: Seq<char>,
    s: Seq<(Seq<char>, JsonData)>,
    r: Seq<(Seq<char>, JsonData)>,
    n: nat,
    xs: (Seq<char>, Seq<char>),
    ys: (Seq<char>, Seq<char>),
    zs: (Seq<char>, Seq<char>),
    ws: (Seq<char>, Seq<char>),
)
    requires
        lookup(s, "rotation"@) == Some(JsonData::Object(r)),
        lookup(r, "x"@) == Some(JsonData::Number(xs.0, SingleData::Text(xs.1))),
        lookup(r, "y"@) == Some(JsonData::Number(ys.0, SingleData::Text(ys.1))),
        lookup(r, "z"@) == Some(JsonData::Number(zs.0, SingleData::Text(zs.1))),
        lookup(r, "w"@) == Some(JsonData::Number(ws.0, SingleData::Text(ws.1))),
    ensures
        transform_sequence_fix(t, JsonData::Object(s), n) matches Some((JsonData::Object(c), _))
            && lookup(c, "rotation"@) == Some(JsonData::Array(seq![
                JsonData::Number(xs.1, SingleData::Text(xs.1)),
                JsonData::Number(ys.1, SingleData::Text(ys.1)),
                JsonData::Number(zs.1, SingleData::Text(zs.1)),
                JsonData::Number(ws.1, SingleData::Text(ws.1)),
            ])),
{
    reveal_strlit("Quat");
    reveal_strlit("Vec2");
    reveal_strlit("Vec3");
    reveal_strlit("Vec4");
    let names = seq!["x"@, "y"@, "z"@, "w"@];
    assert("Quat"@[0] != "Vec2"@[0] && "Quat"@[0] != "Vec3"@[0]);
    assert("Quat"@ != "Vec2"@ && "Quat"@ != "Vec3"@);
    assert(math_fields("Quat"@) == Some(names));
    assert(names.drop_last() =~= seq!["x"@, "y"@, "z"@]);
    assert(names.drop_last().drop_last() =~= seq!["x"@, "y"@]);
    assert(names.drop_last().drop_last().drop_last() =~= seq!["x"@]);
    assert(names.drop_last().drop_last().drop_last().drop_last() =~= Seq::<Seq<char>>::empty());
    let arr = seq![
        JsonData::Number(xs.1, SingleData::Text(xs.1)),
        JsonData::Number(ys.1, SingleData::Text(ys.1)),
        JsonData::Number(zs.1, SingleData::Text(zs.1)),
        JsonData::Number(ws.1, SingleData::Text(ws.1)),
    ];
    assert(narrowed_fields(r, Seq::<Seq<char>>::empty()) == Some(Seq::<JsonData>::empty()));
    assert(seq!["x"@].drop_last() =~= Seq::<Seq<char>>::empty());
    assert(Seq::<JsonData>::empty().push(arr[0]) =~= seq![arr[0]]);
    assert(narrowed_fields(r, seq!["x"@]) == Some(seq![arr[0]]));
    assert(seq!["x"@, "y"@].drop_last() =~= seq!["x"@]);
    assert(seq![arr[0]].push(arr[1]) =~= seq![arr[0], arr[1]]);
    assert(narrowed_fields(r, seq!["x"@, "y"@]) == Some(seq![arr[0], arr[1]]));
    assert(seq!["x"@, "y"@, "z"@].drop_last() =~= seq!["x"@, "y"@]);
    assert(seq![arr[0], arr[1]].push(arr[2]) =~= seq![arr[0], arr[1], arr[2]]);
    assert(narrowed_fields(r, seq!["x"@, "y"@, "z"@]) == Some(seq![arr[0], arr[1], arr[2]]));
    assert(seq![arr[0], arr[1], arr[2]].push(arr[3]) =~= arr);
    assert(narrowed_fields(r, names) =~= Some(arr));
    assert(math_array_form(JsonData::Object(r), "Quat"@) == Some(JsonData::Array(arr)));
    let a1 = transform_member_step((Seq::empty(), Seq::empty()), s, "translation"@, "Vec3"@,
        "`translation` converted to Vec3 array format"@);
    let a2 = transform_member_step(a1, s, "scale"@, "Vec3"@, "`scale` converted to Vec3 array format"@);
    assert(keys_sorted(Seq::<(Seq<char>, JsonData)>::empty()));
    lemma_step_sorted((Seq::empty(), Seq::empty()), s, "translation"@, "Vec3"@, "`translation` converted to Vec3 array format"@);
    lemma_step_sorted(a1, s, "scale"@, "Vec3"@, "`scale` converted to Vec3 array format"@);
    lemma_insert_entry_lookup(a2.0, "rotation"@, JsonData::Array(arr), "rotation"@);
    let a3 = transform_member_step(a2, s, "rotation"@, "Quat"@, "`rotation` converted to Quat array format"@);
    assert(a3.0 == insert_entry(a2.0, "rotation"@, JsonData::Array(arr)));
    assert(a3.0.len() > 0);
}

/// One member step keeps the corrected entries in key order.
proof fn lemma_step_sorted(
    acc: (Seq<(Seq<char>, JsonData)>, Seq<Seq<char>>),
    s: Seq<(Seq<char>, JsonData)>,
    field: Seq<char>,
    m: Seq<char>,
    hint: Seq<char>,
)
    requires
        keys_sorted(acc.0),
    ensures
        keys_sorted(transform_member_step(acc, s, field, m, hint).0),
{
    match lookup(s, field) {
        Some(v) => match math_array_form(v, m) {
            Some(a) => lemma_insert_entry_sorted(acc.0, field, a),
            None => lemma_insert_entry_sorted(acc.0, field, v),
        },
        None => {},
    }
}

fn transform_member(
    corrected: &mut Vec<(String, JsonValue)>,
    hints: &mut Vec<String>,
    obj: &Vec<(String, JsonValue)>,
    field: &str,
    math_type: &str,
    hint: &str,
)
    ensures
        (entries_data(final(corrected)@), texts_of(final(hints)@)) == transform_member_step(
            (entries_data(old(corrected)@), texts_of(old(hints)@)), entries_data(obj@), field@, math_type@, hint@),
{
    match object_get(obj, field) {
        Some(v) => match convert_to_math_type_array(v, math_type) {
            Some(a) => {
                object_insert(corrected, String::from_str(field), a);
                let ghost before = hints@;
                hints.push(String::from_str(hint));
                assert(texts_of(hints@) =~= texts_of(before).push(hint@));
            },
            None => {
                object_insert(corrected, String::from_str(field), v.deep_copy());
            },
        },
        None => {},
    }
}

fn apply_transform_sequence_fix(type_path: &str, original_value: &JsonValue, expected_count: usize) -> (r: Option<(JsonValue, String)>)
    ensures
        fix_data(r) == transform_sequence_fix(type_path@, original_value.data(), expected_count as nat),
{
    let obj = match original_value {
        JsonValue::Object(obj) => obj,
        _ => return None,
    };
    let mut corrected: Vec<(String, JsonValue)> = Vec::new();
    let mut hints: Vec<String> = Vec::new();
    assert(entries_data(corrected@) =~= Seq::<(Seq<char>, JsonData)>::empty());
    assert(texts_of(hints@) =~= Seq::<Seq<char>>::empty());
    transform_member(&mut corrected, &mut hints, obj, "translation", "Vec3", "`translation` converted to Vec3 array format");
    transform_member(&mut corrected, &mut hints, obj, "scale", "Vec3", "`scale` converted to Vec3 array format");
    transform_member(&mut corrected, &mut hints, obj, "rotation", "Quat", "`rotation` converted to Quat array format");
    proof { lemma_entries_data(corrected@); }
    if corrected.len() == 0 {
        return None;
    }
    let mut h = hint_start(type_path, "` Transform expected ");
    let digits = decimal_string(expected_count as u64);
    h.append(digits.as_str());
    h.append(" f32 values in sequence - ");
    let listed = join_texts(&hints, ", ");
    h.append(listed.as_str());
    Some((JsonValue::Object(corrected), h))
}

/// The fix that a recognised error pattern calls for.
pub open spec fn pattern_fix(p: PatternData, t: Seq<char>, d: JsonData) -> Option<(JsonData, Seq<char>)> {
    match p {
        PatternData::TransformSequence(n) => transform_sequence_fix(t, d, n),
        PatternData::ExpectedType(e) => expected_type_fix(t, d, e),
        PatternData::MathTypeArray(m) => math_type_array_fix(t, d, m),
        PatternData::UnknownComponentType(_) => None,
        PatternData::UnknownComponent(_) => None,
        PatternData::TupleStructAccess(f) => tuple_struct_format_fix(t, d, f),
        PatternData::AccessError(a, e) => access_error_fix(t, d, a, e),
        PatternData::TypeMismatch(e, a, acc) => type_mismatch_fix(t, d, e, a, acc),
        PatternData::VariantTypeMismatch(e, a, acc) => variant_mismatch_fix(t, d, e, a, acc),
        PatternData::MissingField(f, _) => missing_field_fix(t, d, f),
    }
}

/// Applies the format correction that an error pattern calls for.
pub fn apply_pattern_fix(pattern: &ErrorPattern, type_path: &str, original_value: &JsonValue) -> (r: Option<(JsonValue, String)>)
    ensures
        fix_data(r) == pattern_fix(pattern.data(), type_path@, original_value.data()),
{
    match pattern {
        ErrorPattern::TransformSequence { expected_count } => apply_transform_sequence_fix(type_path, original_value, *expected_count),
        ErrorPattern::ExpectedType { expected_type } => apply_expected_type_fix(type_path, original_value, expected_type.as_str()),
        ErrorPattern::MathTypeArray { math_type } => apply_math_type_array_fix(type_path, original_value, math_type.as_str()),
        ErrorPattern::UnknownComponentType { .. } => None,
        ErrorPattern::UnknownComponent { .. } => None,
        ErrorPattern::TupleStructAccess { field_path } => fix_tuple_struct_format(type_path, original_value, field_path.as_str()),
        ErrorPattern::AccessError { access, error_type } => fix_access_error(type_path, original_value, access.as_str(), error_type.as_str()),
        ErrorPattern::TypeMismatch { expected, actual, access } =>
            fix_type_mismatch(type_path, original_value, expected.as_str(), actual.as_str(), access.as_str()),
        ErrorPattern::VariantTypeMismatch { expected, actual, access } =>
            fix_variant_type_mismatch(type_path, original_value, expected.as_str(), actual.as_str(), access.as_str()),
        ErrorPattern::MissingField { field_name, .. } => fix_missing_field(type_path, original_value, field_name.as_str()),
    }
}

/// Transformation types for generic format conversion.
#[derive(Debug, Clone, Copy, PartialEq, Eq, Structural)]
pub enum TransformationType {
    ObjectToString,
    ObjectToArray,
    ArrayToString,
    ArrayToObject,
}

/// The first of the `value`, `name`, `text` and `label` members that is a
/// string, else the only member where it is one.
pub open spec fn object_to_string(d: JsonData) -> Option<JsonData> {
    match d {
        JsonData::Object(s) => match string_member(s, "value"@) {
            Some(t) => Some(JsonData::Str(t)),
            None => match string_member(s, "name"@) {
                Some(t) => Some(JsonData::Str(t)),
                None => match string_member(s, "text"@) {
                    Some(t) => Some(JsonData::Str(t)),
                    None => match string_member(s, "label"@) {
                        Some(t) => Some(JsonData::Str(t)),
                        None => if s.len() == 1 && s[0].1 is Str { Some(s[0].1) } else { None },
                    },
                },
            },
        },
        _ => None,
    }
}

/// The values of the entries, in order.
pub open spec fn entry_values(s: Seq<(Seq<char>, JsonData)>) -> Seq<JsonData> {
    Seq::new(s.len(), |i: int| s[i].1)
}

/// The member values of a non-empty object, as an array.
pub open spec fn object_to_array(d: JsonData) -> Option<JsonData> {
    match d {
        JsonData::Object(s) => if s.len() > 0 { Some(JsonData::Array(entry_values(s))) } else { None },
        _ => None,
    }
}

/// The only element of an array, where it is a string.
pub open spec fn array_to_string(d: JsonData) -> Option<JsonData> {
    match d {
        JsonData::Array(a) => if a.len() == 1 && a[0] is Str { Some(a[0]) } else { None },
        _ => None,
    }
}

/// An array wrapped as the `items` member of an object.
pub open spec fn array_to_object(d: JsonData) -> Option<JsonData> {
    match d {
        JsonData::Array(_) => Some(JsonData::Object(seq![("items"@, d)])),
        _ => None,
    }
}

/// What a transformation makes of a value.
pub open spec fn transformed(d: JsonData, k: TransformationType) -> Option<JsonData> {
    match k {
        TransformationType::ObjectToString => object_to_string(d),
        TransformationType::ObjectToArray => object_to_array(d),
        TransformationType::ArrayToString => array_to_string(d),
        TransformationType::ArrayToObject => array_to_object(d),
    }
}

fn transform_object_to_string(value: &JsonValue) -> (r: Option<JsonValue>)
    ensures
        match r {
            Some(v) => object_to_string(value.data()) == Some(v.data()),
            None => object_to_string(value.data()) is None,
        },
{
    if let JsonValue::Object(obj) = value {
        if let Some(t) = string_member_of(obj, "value") {
            return Some(JsonValue::String(t));
        }
        if let Some(t) = string_member_of(obj, "name") {
            return Some(JsonValue::String(t));
        }
        if let Some(t) = string_member_of(obj, "text") {
            return Some(JsonValue::String(t));
        }
        if let Some(t) = string_member_of(obj, "label") {
            return Some(JsonValue::String(t));
        }
        if let Some((_, JsonValue::String(t))) = only_entry(obj) {
            return Some(JsonValue::String(t.clone()));
        }
    }
    None
}

fn transform_object_to_array(value: &JsonValue) -> (r: Option<JsonValue>)
    ensures
        match r {
            Some(v) => object_to_array(value.data()) == Some(v.data()),
            None => object_to_array(value.data()) is None,
        },
{
    if let JsonValue::Object(obj) = value {
        proof { lemma_entries_data(obj@); }
        let mut values: Vec<JsonValue> = Vec::new();
        let mut i: usize = 0;
        while i < obj.len()
            invariant
                *value == JsonValue::Object(*obj),
                i <= obj.len(),
                entries_data(obj@).len() == obj@.len(),
                forall|j: int| 0 <= j < obj@.len() ==> #[trigger] entries_data(obj@)[j] == (obj@[j].0@, obj@[j].1.data()),
                values_data(values@) == entry_values(entries_data(obj@)).subrange(0, i as int),
            decreases obj.len() - i,
        {
            let c = obj[i].1.deep_copy();
            assert(values@.push(c).drop_last() =~= values@);
            values.push(c);
            assert(values_data(values@) =~= entry_values(entries_data(obj@)).subrange(0, i + 1));
            i += 1;
        }
        if values.len() > 0 {
            assert(entry_values(entries_data(obj@)).subrange(0, obj.len() as int) =~= entry_values(entries_data(obj@)));
            return Some(JsonValue::Array(values));
        }
    }
    None
}

fn transform_array_to_string(value: &JsonValue) -> (r: Option<JsonValue>)
    ensures
        match r {
            Some(v) => array_to_string(value.data()) == Some(v.data()),
            None => array_to_string(value.data()) is None,
        },
{
    if let JsonValue::Array(arr) = value {
        proof { lemma_values_data(arr@); }
        if arr.len() == 1 {
            if let JsonValue::String(t) = &arr[0] {
                return Some(JsonValue::String(t.clone()));
            }
        }
    }
    None
}

fn transform_array_to_object(value: &JsonValue) -> (r: Option<JsonValue>)
    ensures
        match r {
            Some(v) => array_to_object(value.data()) == Some(v.data()),
            None => array_to_object(value.data()) is None,
        },
{
    if let JsonValue::Array(_) = value {
        let mut m: Vec<(String, JsonValue)> = Vec::new();
        let c = value.deep_copy();
        let ghost cd = c.data();
        m.push((String::from_str("items"), c));
        proof {
            lemma_entries_data(m@);
            assert(entries_data(m@) =~= seq![("items"@, cd)]);
        }
        return Some(JsonValue::Object(m));
    }
    None
}

/// Applies a transformation to convert between formats.
pub fn apply_transformation(value: &JsonValue, transformation: TransformationType) -> (r: Option<JsonValue>)
    ensures
        match r {
            Some(v) => transformed(value.data(), transformation) == Some(v.data()),
            None => transformed(value.data(), transformation) is None,
        },
{
    match transformation {
        TransformationType::ObjectToString => transform_object_to_string(value),
        TransformationType::ObjectToArray => transform_object_to_array(value),
        TransformationType::ArrayToString => transform_array_to_string(value),
        TransformationType::ArrayToObject => transform_array_to_object(value),
    }
}

/// The transformations worth trying on a value of this shape.
pub open spec fn possible_transformations(d: JsonData) -> Seq<TransformationType> {
    match d {
        JsonData::Object(_) => seq![TransformationType::ObjectToString, TransformationType::ObjectToArray],
        JsonData::Array(_) => seq![TransformationType::ArrayToString, TransformationType::ArrayToObject],
        _ => Seq::empty(),
    }
}

/// Gets the possible transformations based on the shape of the value.
pub fn get_possible_transformations(value: &JsonValue) -> (r: Vec<TransformationType>)
    ensures
        r@ == possible_transformations(value.data()),
{
    match value {
        JsonValue::Object(_) => {
            let v = vec![TransformationType::ObjectToString, TransformationType::ObjectToArray];
            assert(v@ =~= seq![TransformationType::ObjectToString, TransformationType::ObjectToArray]);
            v
        },
        JsonValue::Array(_) => {
            let v = vec![TransformationType::ArrayToString, TransformationType::ArrayToObject];
            assert(v@ =~= seq![TransformationType::ArrayToString, TransformationType::ArrayToObject]);
            v
        },
        _ => {
            let v: Vec<TransformationType> = Vec::new();
            assert(v@ =~= Seq::<TransformationType>::empty());
            v
        },
    }
}

/// The hint for a generic transformation.
pub open spec fn transformation_hint(t: Seq<char>, k: TransformationType) -> Seq<char> {
    match k {
        TransformationType::ObjectToString => type_format_message(t, "string"@, "object"@),
        TransformationType::ObjectToArray => type_format_message(t, "array"@, "object"@),
        TransformationType::ArrayToString => type_format_message(t, "string"@, "array"@),
        TransformationType::ArrayToObject => type_format_message(t, "object"@, "array"@),
    }
}

/// The first of the transformations from position `i` on that applies.
pub open spec fn first_transformation_from(t: Seq<char>, d: JsonData, ks: Seq<TransformationType>, i: int) -> Option<(JsonData, Seq<char>)>
    decreases ks.len() - i,
{
    if i < 0 || i >= ks.len() {
        None
    } else {
        match transformed(d, ks[i]) {
            Some(x) => Some((x, transformation_hint(t, ks[i]))),
            None => first_transformation_from(t, d, ks, i + 1),
        }
    }
}

/// The generic fallback: the first transformation for the value's shape
/// that applies.
pub open spec fn legacy_fix(t: Seq<char>, d: JsonData) -> Option<(JsonData, Seq<char>)> {
    first_transformation_from(t, d, possible_transformations(d), 0)
}

/// Tries the generic format alternatives for a value, in order.
pub fn try_component_format_alternatives_legacy(type_path: &str, original_value: &JsonValue, _error: &BrpError) -> (r: Option<(JsonValue, String)>)
    ensures
        fix_data(r) == legacy_fix(type_path@, original_value.data()),
{
    let transformations = get_possible_transformations(original_value);
    let mut i: usize = 0;
    while i < transformations.len()
        invariant
            i <= transformations.len(),
            transformations@ == possible_transformations(original_value.data()),
            legacy_fix(type_path@, original_value.data())
                == first_transformation_from(type_path@, original_value.data(), transformations@, i as int),
        decreases transformations.len() - i,
    {
        let k = transformations[i];
        if let Some(v) = apply_transformation(original_value, k) {
            let hint = match k {
                TransformationType::ObjectToString => type_format_error(type_path, "string", "object"),
                TransformationType::ObjectToArray => type_format_error(type_path, "array", "object"),
                TransformationType::ArrayToString => type_format_error(type_path, "string", "array"),
                TransformationType::ArrayToObject => type_format_error(type_path, "object", "array"),
            };
            return Some((v, hint));
        }
        i += 1;
    }
    None
}

} // verus!
