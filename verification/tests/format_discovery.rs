use bevy_brp_mcp::detection::{analyze_error_pattern, BrpError, ErrorPattern};
use bevy_brp_mcp::discovery::{is_type_format_error, COMPONENT_FORMAT_ERROR_CODE, RESOURCE_FORMAT_ERROR_CODE};
use bevy_brp_mcp::json::{JsonNumber, JsonValue, SingleText};
use bevy_brp_mcp::transformations::{
    apply_pattern_fix, convert_to_math_type_array, extract_string_value, fix_access_error,
};

fn parse(text: &str) -> serde_json::Value {
    serde_json::from_str(text).unwrap()
}

fn to_model(v: &serde_json::Value) -> JsonValue {
    match v {
        serde_json::Value::Null => JsonValue::Null,
        serde_json::Value::Bool(b) => JsonValue::Bool(*b),
        serde_json::Value::Number(n) => {
            let narrowed = serde_json::Value::from(n.as_f64().unwrap_or(0.0) as f32);
            let single = match narrowed {
                serde_json::Value::Number(m) => SingleText::Text(m.to_string()),
                _ => SingleText::NotFinite,
            };
            JsonValue::Number(JsonNumber { text: n.to_string(), single })
        }
        serde_json::Value::String(s) => JsonValue::String(s.clone()),
        serde_json::Value::Array(a) => JsonValue::Array(a.iter().map(to_model).collect()),
        serde_json::Value::Object(m) => {
            JsonValue::Object(m.iter().map(|(k, v)| (k.clone(), to_model(v))).collect())
        }
    }
}

fn from_model(v: &JsonValue) -> serde_json::Value {
    match v {
        JsonValue::Null => serde_json::Value::Null,
        JsonValue::Bool(b) => serde_json::Value::Bool(*b),
        JsonValue::Number(n) => serde_json::from_str(&n.text).unwrap(),
        JsonValue::String(s) => serde_json::Value::String(s.clone()),
        JsonValue::Array(a) => serde_json::Value::Array(a.iter().map(from_model).collect()),
        JsonValue::Object(m) => serde_json::Value::Object(
            m.iter().map(|(k, v)| (k.clone(), from_model(v))).collect(),
        ),
    }
}

fn brp_error(code: i32, message: &str) -> BrpError {
    BrpError { code, message: message.to_string(), data: None }
}

#[test]
fn test_analyze_error_pattern_tuple_struct_access() {
    let error = brp_error(
        COMPONENT_FORMAT_ERROR_CODE,
        "Error accessing element with Field access at path .LinearRgba.red",
    );
    let analysis = analyze_error_pattern(&error);
    assert!(analysis.pattern.is_some());
    if let Some(ErrorPattern::TupleStructAccess { field_path }) = analysis.pattern {
        assert_eq!(field_path, ".LinearRgba.red");
    } else {
        panic!("Expected TupleStructAccess pattern");
    }
}

#[test]
fn test_analyze_error_pattern_transform_sequence() {
    let error = brp_error(
        COMPONENT_FORMAT_ERROR_CODE,
        "Transform component expected a sequence of 3 f32 values",
    );
    let analysis = analyze_error_pattern(&error);
    assert!(analysis.pattern.is_some());
    if let Some(ErrorPattern::TransformSequence { expected_count }) = analysis.pattern {
        assert_eq!(expected_count, 3);
    } else {
        panic!("Expected TransformSequence pattern");
    }
}

#[test]
fn test_analyze_error_pattern_expected_type() {
    let error = brp_error(COMPONENT_FORMAT_ERROR_CODE, "expected `bevy_ecs::name::Name`");
    let analysis = analyze_error_pattern(&error);
    assert!(analysis.pattern.is_some());
    if let Some(ErrorPattern::ExpectedType { expected_type }) = analysis.pattern {
        assert_eq!(expected_type, "bevy_ecs::name::Name");
    } else {
        panic!("Expected ExpectedType pattern");
    }
}

#[test]
fn test_analyze_error_pattern_math_type_array() {
    let error = brp_error(COMPONENT_FORMAT_ERROR_CODE, "Vec3 expects array format");
    let analysis = analyze_error_pattern(&error);
    assert!(analysis.pattern.is_some());
    if let Some(ErrorPattern::MathTypeArray { math_type }) = analysis.pattern {
        assert_eq!(math_type, "Vec3");
    } else {
        panic!("Expected MathTypeArray pattern");
    }
}

#[test]
fn test_apply_pattern_fix_linear_rgba_case() {
    let pattern = ErrorPattern::TupleStructAccess { field_path: ".LinearRgba.red".to_string() };
    let original_value =
        to_model(&parse(r#"{"LinearRgba": { "red": 1.0, "green": 0.0, "blue": 0.0, "alpha": 1.0 }}"#));
    let result = apply_pattern_fix(&pattern, "bevy_render::color::Color", &original_value);
    assert!(result.is_some());
    let (corrected_value, hint) = result.unwrap();
    let corrected = from_model(&corrected_value);
    assert!(corrected.is_object());
    assert!(hint.contains("tuple struct"));
    assert!(hint.contains("numeric indices"));
    let obj = corrected.as_object().unwrap();
    assert!((obj.get("red").unwrap().as_f64().unwrap() - 1.0).abs() < f64::EPSILON);
    assert!((obj.get("green").unwrap().as_f64().unwrap() - 0.0).abs() < f64::EPSILON);
    assert!((obj.get("blue").unwrap().as_f64().unwrap() - 0.0).abs() < f64::EPSILON);
    assert!((obj.get("alpha").unwrap().as_f64().unwrap() - 1.0).abs() < f64::EPSILON);
}

#[test]
fn test_apply_pattern_fix_transform_sequence() {
    let pattern = ErrorPattern::TransformSequence { expected_count: 3 };
    let original_value = to_model(&parse(r#"{
        "translation": { "x": 1.0, "y": 2.0, "z": 3.0 },
        "rotation": { "x": 0.0, "y": 0.0, "z": 0.0, "w": 1.0 },
        "scale": { "x": 1.0, "y": 1.0, "z": 1.0 }
    }"#));
    let result = apply_pattern_fix(
        &pattern,
        "bevy_transform::components::transform::Transform",
        &original_value,
    );
    assert!(result.is_some());
    let (corrected_value, hint) = result.unwrap();
    let corrected = from_model(&corrected_value);
    assert!(corrected.is_object());
    assert!(hint.contains("Transform"));
    assert!(hint.contains("array format"));
    let corrected_obj = corrected.as_object().unwrap();
    if let Some(translation) = corrected_obj.get("translation") {
        assert!(translation.is_array());
        let arr = translation.as_array().unwrap();
        assert_eq!(arr.len(), 3);
    }
}

#[test]
fn test_apply_pattern_fix_expected_type_name() {
    let pattern = ErrorPattern::ExpectedType { expected_type: "bevy_ecs::name::Name".to_string() };
    let original_value = to_model(&parse(r#"{ "name": "TestEntity" }"#));
    let result = apply_pattern_fix(&pattern, "bevy_ecs::name::Name", &original_value);
    assert!(result.is_some());
    let (corrected_value, hint) = result.unwrap();
    assert_eq!(from_model(&corrected_value), parse(r#""TestEntity""#));
    assert!(hint.contains("Name component"));
    assert!(hint.contains("string format"));
}

#[test]
fn test_apply_pattern_fix_math_type_array() {
    let pattern = ErrorPattern::MathTypeArray { math_type: "Vec3".to_string() };
    let original_value = to_model(&parse(r#"{ "x": 1.0, "y": 2.0, "z": 3.0 }"#));
    let result = apply_pattern_fix(&pattern, "bevy_math::vector::Vec3", &original_value);
    assert!(result.is_some());
    let (corrected_value, hint) = result.unwrap();
    assert_eq!(from_model(&corrected_value), parse(r#"[1.0, 2.0, 3.0]"#));
    assert!(hint.contains("Vec3"));
    assert!(hint.contains("array format"));
    assert!(hint.contains("[x, y, z]"));
}

#[test]
fn test_extract_string_value() {
    assert_eq!(
        extract_string_value(&to_model(&parse(r#""direct_string""#))),
        Some(("direct_string".to_string(), "already string format".to_string()))
    );
    assert_eq!(
        extract_string_value(&to_model(&parse(r#"{"name": "test_name"}"#))),
        Some(("test_name".to_string(), "from `name` field".to_string()))
    );
    assert_eq!(
        extract_string_value(&to_model(&parse(r#"{"value": "test_value"}"#))),
        Some(("test_value".to_string(), "from `value` field".to_string()))
    );
    assert_eq!(
        extract_string_value(&to_model(&parse(r#"["single_element"]"#))),
        Some(("single_element".to_string(), "from single-element array".to_string()))
    );
    assert_eq!(
        extract_string_value(&to_model(&parse(r#"{"custom_field": "custom_value"}"#))),
        Some(("custom_value".to_string(), "from `custom_field` field".to_string()))
    );
}

#[test]
fn test_convert_to_math_type_array() {
    let result = convert_to_math_type_array(&to_model(&parse(r#"{ "x": 1.0, "y": 2.0, "z": 3.0 }"#)), "Vec3");
    assert_eq!(result.as_ref().map(from_model), Some(parse(r#"[1.0, 2.0, 3.0]"#)));
    let result = convert_to_math_type_array(&to_model(&parse(r#"{ "x": 5.0, "y": 6.0 }"#)), "Vec2");
    assert_eq!(result.as_ref().map(from_model), Some(parse(r#"[5.0, 6.0]"#)));
    let result = convert_to_math_type_array(
        &to_model(&parse(r#"{ "x": 0.0, "y": 0.0, "z": 0.0, "w": 1.0 }"#)),
        "Quat",
    );
    assert_eq!(result.as_ref().map(from_model), Some(parse(r#"[0.0, 0.0, 0.0, 1.0]"#)));
    let result = convert_to_math_type_array(&to_model(&parse(r#"[1.0, 2.0, 3.0]"#)), "Vec3");
    assert_eq!(result.as_ref().map(from_model), Some(parse(r#"[1.0, 2.0, 3.0]"#)));
    let result = convert_to_math_type_array(&to_model(&parse(r#"{ "x": 1.0 }"#)), "Vec3");
    assert!(result.is_none());
}

#[test]
fn test_is_type_format_error() {
    assert!(is_type_format_error(&brp_error(COMPONENT_FORMAT_ERROR_CODE, "Component type format error")));
    assert!(is_type_format_error(&brp_error(RESOURCE_FORMAT_ERROR_CODE, "Resource type format error")));
    assert!(!is_type_format_error(&brp_error(-32602, "Invalid params")));
}

#[test]
fn test_fix_access_error_path_suggestions() {
    let original = parse(r#"{"red": 1.0, "green": 0.5, "blue": 0.2, "alpha": 1.0}"#);
    let result = fix_access_error(
        "bevy_color::linear_rgba::LinearRgba",
        &to_model(&original),
        "Field",
        "Error accessing element with Field access at path .LinearRgba.red",
    );
    assert!(result.is_some());
    let (returned_value, hint) = result.unwrap();
    assert_eq!(from_model(&returned_value), original);
    assert!(hint.contains("try using path `.0.0` instead of `.LinearRgba.red`"));
}

#[test]
fn test_fix_access_error_math_field_suggestions() {
    let original = parse(r#"[1.0, 2.0, 3.0]"#);
    let result = fix_access_error(
        "bevy_math::vec3::Vec3",
        &to_model(&original),
        "Field",
        "Error accessing element with Field access at path .Vec3.x",
    );
    assert!(result.is_some());
    let (returned_value, hint) = result.unwrap();
    assert_eq!(from_model(&returned_value), original);
    assert!(hint.contains("try using path `.0.0` instead of `.Vec3.x`"));
}

#[test]
fn test_fix_access_error_generic_enum_suggestions() {
    let original = parse(r#"{"SomeColor": {"red": 1.0, "green": 0.5, "blue": 0.0, "alpha": 1.0}}"#);
    let result = fix_access_error(
        "some_crate::SomeEnum",
        &to_model(&original),
        "Field",
        "Error accessing element with Field access at path .SomeColor.green",
    );
    assert!(result.is_some());
    let (returned_value, hint) = result.unwrap();
    assert_eq!(from_model(&returned_value), original);
    assert!(hint.contains("try using path `.0.1` instead of `.SomeColor.green`"));
}

#[test]
fn test_fix_access_error_fallback_to_value_fixes() {
    let original = parse(r#"{"field_name": "some_value"}"#);
    let result = fix_access_error(
        "some_type::SomeType",
        &to_model(&original),
        "Field",
        "Error accessing element with Field access at path .unknown_path",
    );
    if let Some((_, hint)) = result {
        assert!(!hint.is_empty());
    }
}

#[test]
fn test_fix_access_error_simple_field_path() {
    let original = parse(r#"[1.0, 2.0, 3.0]"#);
    let result = fix_access_error(
        "some_type::TupleStruct",
        &to_model(&original),
        "Field",
        "Error accessing element with Field access at path .x",
    );
    assert!(result.is_some());
    let (returned_value, hint) = result.unwrap();
    assert_eq!(from_model(&returned_value), original);
    assert!(hint.contains("try using path `.0` instead of `.x`"));
}

#[test]
fn test_fix_access_error_integration_with_pattern_matching() {
    let error = brp_error(
        COMPONENT_FORMAT_ERROR_CODE,
        "Error accessing element with `Field` access: failed at path .LinearRgba.red",
    );
    let analysis = analyze_error_pattern(&error);
    assert!(analysis.pattern.is_some());
    let original = parse(r#"{"red": 1.0, "green": 0.5, "blue": 0.2, "alpha": 1.0}"#);
    let pattern = analysis.pattern.as_ref().unwrap();
    let result = apply_pattern_fix(pattern, "bevy_color::linear_rgba::LinearRgba", &to_model(&original));
    assert!(result.is_some());
    let (returned_value, hint) = result.unwrap();
    assert_eq!(from_model(&returned_value), original);
    assert!(hint.contains("try using path `.0.0` instead of `.LinearRgba.red`"));
}
