use bevy_brp_mcp::json::{JsonNumber, JsonValue, SingleText};
use bevy_brp_mcp::response_formatter::{
    array_count, components_from_params, convert_extractor_type, entity_from_params,
    extract_entity_from_response, extract_field_from_context, extract_query_component_count,
    extract_query_params_from_context, pass_through_data, resource_from_params,
    substitute_template, BrpMetadata, FormatterContext,
};
use bevy_brp_mcp::tool_definitions::ExtractorType;
use bevy_brp_mcp::formatting::{generate_empty_components_hint, BRP_REGISTRATION_REQUIREMENTS};

fn parse(text: &str) -> serde_json::Value {
    serde_json::from_str(text).unwrap()
}

fn to_model(v: &serde_json::Value) -> JsonValue {
    match v {
        serde_json::Value::Null => JsonValue::Null,
        serde_json::Value::Bool(b) => JsonValue::Bool(*b),
        serde_json::Value::Number(n) => {
            let narrowed = serde_json::Value::from(n.as_f64().unwrap_or(0.0) as f32);
            let single = match narrowed {
                serde_json::Value::Number(m) => SingleText::Text(m.to_string()),
                _ => SingleText::NotFinite,
            };
            JsonValue::Number(JsonNumber { text: n.to_string(), single })
        }
        serde_json::Value::String(s) => JsonValue::String(s.clone()),
        serde_json::Value::Array(a) => JsonValue::Array(a.iter().map(to_model).collect()),
        serde_json::Value::Object(m) => {
            JsonValue::Object(m.iter().map(|(k, v)| (k.clone(), to_model(v))).collect())
        }
    }
}

fn from_model(v: &JsonValue) -> serde_json::Value {
    match v {
        JsonValue::Null => serde_json::Value::Null,
        JsonValue::Bool(b) => serde_json::Value::Bool(*b),
        JsonValue::Number(n) => serde_json::from_str(&n.text).unwrap(),
        JsonValue::String(s) => serde_json::Value::String(s.clone()),
        JsonValue::Array(a) => serde_json::Value::Array(a.iter().map(from_model).collect()),
        JsonValue::Object(m) => serde_json::Value::Object(
            m.iter().map(|(k, v)| (k.clone(), from_model(v))).collect(),
        ),
    }
}



fn context(params: Option<&str>) -> FormatterContext {
    FormatterContext { params: params.map(|p| to_model(&parse(p))), brp_mcp_debug_info: None }
}

#[test]
fn test_substitute_template() {
    let params = to_model(&parse(r#"{"entity": 123, "name": "test_resource"}"#));
    let result = substitute_template("Entity {entity} with name {name}", Some(&params));
    assert_eq!(result, "Entity 123 with name test_resource");
    let result = substitute_template("No substitutions", Some(&params));
    assert_eq!(result, "No substitutions");
    let result = substitute_template("Missing {missing} placeholder", Some(&params));
    assert_eq!(result, "Missing {missing} placeholder");
}

#[test]
fn substitute_template_writes_other_values_as_json() {
    let params = to_model(&parse(r#"{"flag": true, "list": [1, "a"], "v": null}"#));
    let result = substitute_template("{flag} {list} {v} {flag}", Some(&params));
    assert_eq!(result, r#"true [1,"a"] null true"#);
    assert_eq!(substitute_template("{x}", None), "{x}");
}

#[test]
fn test_extractors() {
    let ctx = context(Some(r#"{"entity": 100, "resource": "TestResource"}"#));
    let data = to_model(&parse(r#"{"result": "success"}"#));
    assert_eq!(from_model(&entity_from_params(&data, &ctx)), parse("100"));
    assert_eq!(from_model(&resource_from_params(&data, &ctx)), parse(r#""TestResource""#));
    assert_eq!(from_model(&pass_through_data(&data, &ctx)), from_model(&data));
    assert_eq!(from_model(&array_count(&to_model(&parse("[1, 2, 3, 4, 5]")), &ctx)), parse("5"));
    assert_eq!(from_model(&array_count(&to_model(&parse("[]")), &ctx)), parse("0"));
    assert_eq!(from_model(&array_count(&to_model(&parse(r#"{"not": "array"}"#)), &ctx)), parse("0"));
    let components_context = context(Some(r#"{"components": ["Transform", "Sprite"]}"#));
    assert_eq!(
        from_model(&components_from_params(&data, &components_context)),
        parse(r#"["Transform", "Sprite"]"#)
    );
    assert_eq!(from_model(&components_from_params(&data, &ctx)), serde_json::Value::Null);
}

#[test]
fn array_count_reads_a_data_member() {
    let ctx = context(None);
    let wrapped = to_model(&parse(r#"{"data": [1, 2]}"#));
    assert_eq!(from_model(&array_count(&wrapped, &ctx)), parse("2"));
}

#[test]
fn test_convert_extractor_type_pass_through_result() {
    let extractor = convert_extractor_type(&ExtractorType::PassThroughResult);
    let test_data = parse(r#"{"key": "value"}"#);
    let result = extractor.extract(&to_model(&test_data), &context(None));
    assert_eq!(from_model(&result), test_data);
}

#[test]
fn test_convert_extractor_type_param_from_context() {
    let extractor = convert_extractor_type(&ExtractorType::ParamFromContext("components"));
    let ctx = context(Some(r#"{"components": ["Component1", "Component2"]}"#));
    let result = extractor.extract(&to_model(&parse("{}")), &ctx);
    assert_eq!(from_model(&result), parse(r#"["Component1", "Component2"]"#));
}

#[test]
fn test_convert_extractor_type_unknown_param() {
    let extractor = convert_extractor_type(&ExtractorType::ParamFromContext("unknown"));
    let ctx = context(Some(r#"{"components": ["Component1"]}"#));
    let result = extractor.extract(&to_model(&parse("{}")), &ctx);
    assert_eq!(from_model(&result), serde_json::Value::Null);
}

#[test]
fn test_convert_extractor_type_path_param() {
    let extractor = convert_extractor_type(&ExtractorType::ParamFromContext("path"));
    let ctx = context(Some(r#"{"path": "/tmp/screenshot.png", "port": 15702}"#));
    let result = extractor.extract(&to_model(&parse("{}")), &ctx);
    assert_eq!(from_model(&result), parse(r#""/tmp/screenshot.png""#));
}

#[test]
fn test_convert_extractor_type_port_param() {
    let extractor = convert_extractor_type(&ExtractorType::ParamFromContext("port"));
    let ctx = context(Some(r#"{"path": "/tmp/screenshot.png", "port": 15702}"#));
    let result = extractor.extract(&to_model(&parse("{}")), &ctx);
    assert_eq!(from_model(&result), parse("15702"));
}

#[test]
fn test_extract_entity_from_response() {
    let result = extract_entity_from_response(&to_model(&parse(r#"{"entity": 123}"#)), &context(None));
    assert_eq!(from_model(&result), parse("123"));
}

#[test]
fn test_extract_entity_from_response_missing() {
    let result = extract_entity_from_response(&to_model(&parse("{}")), &context(None));
    assert_eq!(from_model(&result), parse("0"));
}

#[test]
fn test_extract_query_component_count() {
    let data = to_model(&parse(r#"[{"Component1": {}, "Component2": {}}, {"Component1": {}}]"#));
    let result = extract_query_component_count(&data, &context(None));
    assert_eq!(from_model(&result), parse("3"));
}

#[test]
fn test_extract_query_params_from_context() {
    let test_params = r#"{"filter": {"with": ["Transform"]}}"#;
    let result = extract_query_params_from_context(&to_model(&parse("{}")), &context(Some(test_params)));
    assert_eq!(from_model(&result), parse(test_params));
}

#[test]
fn test_extract_field_from_context() {
    let data = to_model(&parse("{}"));
    let ctx = context(Some(r#"{"components": ["Transform"], "entity": 42}"#));
    assert_eq!(from_model(&extract_field_from_context("components", &data, &ctx)), parse(r#"["Transform"]"#));
    assert_eq!(from_model(&extract_field_from_context("entity", &data, &ctx)), parse("42"));
    assert_eq!(from_model(&extract_field_from_context("missing", &data, &ctx)), serde_json::Value::Null);
}

#[test]
fn metadata_keeps_method_and_port() {
    let m = BrpMetadata::new("bevy/destroy", 15702);
    assert_eq!(m.method, "bevy/destroy");
    assert_eq!(m.port, 15702);
}

#[test]
fn empty_components_hints() {
    let with_entity = generate_empty_components_hint(Some(42));
    assert!(with_entity.starts_with("No components found for entity 42. Possible reasons:\n1. The entity doesn't exist\n"));
    assert!(with_entity.ends_with(BRP_REGISTRATION_REQUIREMENTS));
    let general = generate_empty_components_hint(None);
    assert_eq!(
        general,
        format!("No components found. This usually means no components are properly configured for BRP.\n\n{BRP_REGISTRATION_REQUIREMENTS}")
    );
}
