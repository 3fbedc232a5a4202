use bevy_brp_mcp::cargo::validate_profile_name;
use bevy_brp_mcp::debug_mode::{apply_debug_request, is_debug_enabled, set_debug_mode, DebugMode, SetDebugModeParams};
use bevy_brp_mcp::detached::{get_session_info_path, get_session_log_path, get_session_prefix};
use bevy_brp_mcp::detection::{
    analyze_schema_for_type, extract_crate_name, extract_path_from_error_context,
    extract_path_from_position, parse_usize, BrpError,
};
use bevy_brp_mcp::discovery::{
    apply_corrections, extract_type_items, get_parameter_location, supports_format_discovery,
    tier_info_to_debug_strings, ParameterLocation, TierInfo, TierManager,
};
use bevy_brp_mcp::extractors::{EntityParamExtractor, PassthroughExtractor, SimplePortExtractor};
use bevy_brp_mcp::json::{JsonNumber, JsonValue, SingleText};
use bevy_brp_mcp::logs::{format_bytes, get_log_file_path, is_valid_log_filename, parse_log_filename};
use bevy_brp_mcp::params::{
    extract_optional_string_array_from_request, extract_optional_u16_from_request,
    extract_optional_workspace, extract_required_number, extract_required_string, CallToolRequest,
};
use bevy_brp_mcp::prompts::{text_response, PromptContent, PromptRegistry};
use bevy_brp_mcp::tool_definitions::{create_pagination_params, FormatterDef, FormatterType, ParamType};
use bevy_brp_mcp::transformations::{
    fix_enum_tuple_path, get_possible_transformations, try_component_format_alternatives_legacy,
    type_expects_array, type_format_error, TransformationType,
};

fn parse(text: &str) -> serde_json::Value {
    serde_json::from_str(text).unwrap()
}

fn to_model(v: &serde_json::Value) -> JsonValue {
    match v {
        serde_json::Value::Null => JsonValue::Null,
        serde_json::Value::Bool(b) => JsonValue::Bool(*b),
        serde_json::Value::Number(n) => {
            let narrowed = serde_json::Value::from(n.as_f64().unwrap_or(0.0) as f32);
            let single = match narrowed {
                serde_json::Value::Number(m) => SingleText::Text(m.to_string()),
                _ => SingleText::NotFinite,
            };
            JsonValue::Number(JsonNumber { text: n.to_string(), single })
        }
        serde_json::Value::String(s) => JsonValue::String(s.clone()),
        serde_json::Value::Array(a) => JsonValue::Array(a.iter().map(to_model).collect()),
        serde_json::Value::Object(m) => {
            JsonValue::Object(m.iter().map(|(k, v)| (k.clone(), to_model(v))).collect())
        }
    }
}

fn from_model(v: &JsonValue) -> serde_json::Value {
    match v {
        JsonValue::Null => serde_json::Value::Null,
        JsonValue::Bool(b) => serde_json::Value::Bool(*b),
        JsonValue::Number(n) => serde_json::from_str(&n.text).unwrap(),
        JsonValue::String(s) => serde_json::Value::String(s.clone()),
        JsonValue::Array(a) => serde_json::Value::Array(a.iter().map(from_model).collect()),
        JsonValue::Object(m) => serde_json::Value::Object(
            m.iter().map(|(k, v)| (k.clone(), from_model(v))).collect(),
        ),
    }
}



fn request(args: &str) -> CallToolRequest {
    let arguments = match to_model(&parse(args)) {
        JsonValue::Object(m) => Some(m),
        _ => None,
    };
    CallToolRequest { name: "tool".to_string(), arguments }
}

#[test]
fn log_filenames_follow_the_convention() {
    assert!(is_valid_log_filename("bevy_brp_mcp_my_app_1700000000.log"));
    assert!(!is_valid_log_filename("other_my_app_1.log"));
    assert!(!is_valid_log_filename("bevy_brp_mcp_my_app_1.txt"));
    assert_eq!(
        parse_log_filename("bevy_brp_mcp_my_app_1700000000.log"),
        Some(("my_app".to_string(), "1700000000".to_string()))
    );
    assert_eq!(parse_log_filename("bevy_brp_mcp_noseparator.log"), None);
    assert_eq!(parse_log_filename("not_a_log.txt"), None);
}

#[test]
fn byte_sizes_read_for_people() {
    assert_eq!(format_bytes(0), "0 B");
    assert_eq!(format_bytes(1023), "1023 B");
    assert_eq!(format_bytes(1024), "1.00 KB");
    assert_eq!(format_bytes(1536), "1.50 KB");
    assert_eq!(format_bytes(1024 * 1024 * 5 / 2), "2.50 MB");
    assert_eq!(format_bytes(3 * 1024 * 1024 * 1024), "3.00 GB");
    assert_eq!(format_bytes(5 * 1024 * 1024 * 1024 * 1024), "5120.00 GB");
    for b in [1025u64, 1100, 2047, 999_999, 123_456_789, 9_876_543_210, u64::MAX] {
        let mut size = b as f64;
        let mut unit = 0;
        let units = ["B", "KB", "MB", "GB"];
        while size >= 1024.0 && unit < 3 {
            size /= 1024.0;
            unit += 1;
        }
        let expected = if unit == 0 { format!("{b} B") } else { format!("{size:.2} {}", units[unit]) };
        assert_eq!(format_bytes(b), expected);
    }
}

#[test]
fn log_paths_join_the_directory() {
    assert_eq!(get_log_file_path("/tmp", "a.log"), "/tmp/a.log");
    assert_eq!(get_log_file_path("/tmp/", "a.log"), "/tmp/a.log");
    assert_eq!(get_log_file_path("/tmp", "/var/a.log"), "/var/a.log");
}

#[test]
fn profile_names_are_checked() {
    assert_eq!(validate_profile_name("release"), Ok(()));
    assert_eq!(validate_profile_name("my-profile_2"), Ok(()));
    assert_eq!(validate_profile_name("").unwrap_err(), "Profile name cannot be empty");
    assert_eq!(
        validate_profile_name("bad/name").unwrap_err(),
        "Profile name 'bad/name' contains invalid character '/'. Only alphanumeric characters, hyphens, and underscores are allowed."
    );
    let long = "a".repeat(65);
    assert_eq!(
        validate_profile_name(&long).unwrap_err(),
        format!("Profile name '{long}' is too long. Maximum length is 64 characters.")
    );
    assert_eq!(validate_profile_name(&"a".repeat(64)), Ok(()));
}

#[test]
fn session_files_are_named_after_app_and_port() {
    assert_eq!(get_session_prefix(), "bevy_brp_mcp_session");
    assert_eq!(
        get_session_info_path("/tmp", "game", 15702),
        "/tmp/bevy_brp_mcp_session_game_port_15702.json"
    );
    assert_eq!(
        get_session_log_path("/tmp", "game", 1700000000123),
        "/tmp/bevy_brp_mcp_session_game_1700000000123.log"
    );
}

#[test]
fn hint_formats() {
    assert_eq!(type_format_error("T", "string", "object"), "`T` expects string format, not object");
    assert_eq!(type_expects_array("T", "Vec3"), "`T` Vec3 expects array format");
    assert_eq!(fix_enum_tuple_path(".LinearRgba.alpha"), ".0.3");
    assert_eq!(fix_enum_tuple_path(".Srgba.red"), ".Srgba.red");
}

#[test]
fn paths_are_read_from_messages() {
    assert_eq!(
        extract_path_from_error_context("failed at path .foo.bar here"),
        Some(".foo.bar".to_string())
    );
    assert_eq!(extract_path_from_error_context("bad path '.a.b' given"), Some(".a.b".to_string()));
    assert_eq!(extract_path_from_error_context("bad path \"x.y\" given"), Some("x.y".to_string()));
    assert_eq!(extract_path_from_error_context("at path nodots"), None);
    assert_eq!(extract_path_from_error_context("no path here"), None);
    assert_eq!(extract_path_from_position("ab .c d", 3), Some(".c".to_string()));
    assert_eq!(extract_path_from_position("\u{e9} .c d", 3), Some(".c".to_string()));
    assert_eq!(extract_crate_name("bevy_transform::components::Transform"), "bevy_transform");
    assert_eq!(extract_crate_name("Plain"), "Plain");
}

#[test]
fn counts_parse_like_std() {
    assert_eq!(parse_usize("42"), Some(42));
    assert_eq!(parse_usize("+7"), Some(7));
    assert_eq!(parse_usize("+"), None);
    assert_eq!(parse_usize(""), None);
    assert_eq!(parse_usize("4a"), None);
    assert_eq!(parse_usize("99999999999999999999999"), None);
    assert_eq!(parse_usize(&usize::MAX.to_string()), Some(usize::MAX));
}

#[test]
fn schema_replies_are_read() {
    let ok = to_model(&parse(r#"{"my::T": {"reflectTypes": ["Component", "Serialize", "Deserialize"]}}"#));
    assert_eq!(analyze_schema_for_type("my::T", &ok).unwrap().diagnostic_message, "Type `my::T` has proper serialization support");
    let missing = to_model(&parse(r#"[{"typePath": "my::T", "reflectTypes": ["Component", "Serialize"]}]"#));
    assert_eq!(
        analyze_schema_for_type("my::T", &missing).unwrap().diagnostic_message,
        "Type `my::T` cannot be used with BRP because it lacks Deserialize trait(s). Available traits: Component, Serialize. To fix this, the type definition needs both #[derive(Serialize, Deserialize)] AND #[reflect(Serialize, Deserialize)] attributes."
    );
    let absent = to_model(&parse("{}"));
    assert_eq!(
        analyze_schema_for_type("my::T", &absent).unwrap().diagnostic_message,
        "Type `my::T` not found in registry schema. This type may not be registered with BRP or may not exist."
    );
    assert_eq!(
        analyze_schema_for_type("my::T", &to_model(&parse("3"))).err().unwrap(),
        "Schema response is neither an array nor an object"
    );
}

#[test]
fn typed_values_are_found_and_put_back() {
    assert!(supports_format_discovery("bevy/spawn"));
    assert!(!supports_format_discovery("bevy/get"));
    assert!(get_parameter_location("bevy/mutate_component") == ParameterLocation::ComponentValue);
    assert!(get_parameter_location("bevy/insert_resource") == ParameterLocation::ResourceValue);
    assert!(get_parameter_location("bevy/spawn") == ParameterLocation::Components);
    let params = to_model(&parse(r#"{"components": {"b::B": 1, "a::A": {"x": 1}}, "entity": 5}"#));
    let items = extract_type_items(&params, ParameterLocation::Components);
    let names: Vec<&str> = items.iter().map(|(n, _)| n.as_str()).collect();
    assert_eq!(names, vec!["a::A", "b::B"]);
    let corrected = vec![("a::A".to_string(), to_model(&parse("[1]"))), ("b::B".to_string(), to_model(&parse("2")))];
    let rebuilt = apply_corrections(&params, ParameterLocation::Components, &corrected);
    assert_eq!(from_model(&rebuilt), parse(r#"{"components": {"a::A": [1], "b::B": 2}, "entity": 5}"#));
    let mutation = to_model(&parse(r#"{"component": "c::C", "value": {"v": 1}, "path": ".v"}"#));
    let items = extract_type_items(&mutation, ParameterLocation::ComponentValue);
    assert_eq!(items.len(), 1);
    assert_eq!(items[0].0, "c::C");
    let rebuilt = apply_corrections(&mutation, ParameterLocation::ComponentValue, &vec![("c::C".to_string(), to_model(&parse("7")))]);
    assert_eq!(from_model(&rebuilt), parse(r#"{"component": "c::C", "value": 7, "path": ".v"}"#));
}

#[test]
fn tiers_are_reported() {
    assert!(tier_info_to_debug_strings(&[]).is_empty());
    let mut manager = TierManager::new();
    manager.start_tier(1, "Serialization Diagnostics", "checking".to_string());
    manager.complete_tier(false, "no schema".to_string());
    manager.start_tier(3, "Deterministic Pattern Matching", "matching".to_string());
    manager.complete_tier(true, "fixed".to_string());
    let tiers: Vec<TierInfo> = manager.into_vec();
    assert_eq!(
        tier_info_to_debug_strings(&tiers),
        vec![
            "Tiered Format Discovery Results:".to_string(),
            "  FAILED Tier 1: Serialization Diagnostics - no schema".to_string(),
            "  SUCCESS Tier 3: Deterministic Pattern Matching - fixed".to_string(),
            "Successful tier(s): 3".to_string(),
        ]
    );
    let failed = vec![TierInfo { tier: 4, tier_name: "Generic Fallback".to_string(), action: "none".to_string(), success: false }];
    assert_eq!(tier_info_to_debug_strings(&failed).last().unwrap(), "No tiers succeeded");
}

#[test]
fn legacy_alternatives_by_shape() {
    let error = BrpError { code: -23402, message: String::new(), data: None };
    let (v, hint) = try_component_format_alternatives_legacy("T", &to_model(&parse(r#"{"label": "x"}"#)), &error).unwrap();
    assert_eq!(from_model(&v), parse(r#""x""#));
    assert_eq!(hint, "`T` expects string format, not object");
    let (v, hint) = try_component_format_alternatives_legacy("T", &to_model(&parse(r#"{"a": 1, "b": 2}"#)), &error).unwrap();
    assert_eq!(from_model(&v), parse("[1, 2]"));
    assert_eq!(hint, "`T` expects array format, not object");
    let (v, hint) = try_component_format_alternatives_legacy("T", &to_model(&parse("[1]")), &error).unwrap();
    assert_eq!(from_model(&v), parse(r#"{"items": [1]}"#));
    assert_eq!(hint, "`T` expects object format, not array");
    assert!(try_component_format_alternatives_legacy("T", &to_model(&parse("{}")), &error).is_none());
    assert!(try_component_format_alternatives_legacy("T", &to_model(&parse("5")), &error).is_none());
    assert!(get_possible_transformations(&to_model(&parse("[]"))) == vec![TransformationType::ArrayToString, TransformationType::ArrayToObject]);
}

#[test]
fn call_arguments_are_read() {
    let req = request(r#"{"entity": 12, "name": "x", "port": 20000, "types": ["a", "b"], "bad": [1], "workspace": ""}"#);
    assert_eq!(extract_required_number(&req, "entity").unwrap(), 12);
    assert_eq!(extract_required_string(&req, "name").unwrap(), "x");
    assert_eq!(extract_required_string(&req, "missing").err().unwrap().detail_text(), "Missing required parameter: missing");
    assert_eq!(extract_optional_u16_from_request(&req, "port").unwrap(), Some(20000));
    assert_eq!(extract_optional_u16_from_request(&req, "nope").unwrap(), None);
    let low = request(r#"{"port": 80}"#);
    assert!(extract_optional_u16_from_request(&low, "port").is_err());
    assert_eq!(
        extract_optional_string_array_from_request(&req, "types").unwrap(),
        Some(vec!["a".to_string(), "b".to_string()])
    );
    assert_eq!(
        extract_optional_string_array_from_request(&req, "bad").err().unwrap().detail_text(),
        "Invalid item in 'bad' array"
    );
    assert_eq!(extract_optional_workspace(&req), None);
    assert_eq!(extract_optional_workspace(&request(r#"{"workspace": "ws"}"#)), Some("ws".to_string()));
}

#[test]
fn request_extractors_read_port_and_entity() {
    let req = request(r#"{"entity": 9, "port": 15800}"#);
    let p = SimplePortExtractor.extract(&req).unwrap();
    assert_eq!(p.port, 15800);
    assert!(p.params.is_none());
    let p = EntityParamExtractor { required: true }.extract(&req).unwrap();
    assert_eq!(from_model(p.params.as_ref().unwrap()), parse(r#"{"entity": 9}"#));
    let p = PassthroughExtractor.extract(&request("{}")).unwrap();
    assert_eq!(p.port, 15702);
    assert_eq!(from_model(p.params.as_ref().unwrap()), parse("{}"));
    let missing = EntityParamExtractor { required: true }.extract(&request("{}"));
    assert_eq!(missing.err().unwrap().detail_text(), "Missing required parameter: entity");
    let optional = EntityParamExtractor { required: false }.extract(&request("{}")).unwrap();
    assert!(optional.params.is_none());
    let too_big = SimplePortExtractor.extract(&request(r#"{"port": 70000}"#));
    assert_eq!(too_big.err().unwrap().detail_text(), "Port number must be a valid u16");
}

#[test]
fn prompts_answer_by_name() {
    let r = text_response("hello".to_string());
    assert_eq!(r.messages.len(), 1);
    assert_eq!(r.messages[0].role, "assistant");
    let PromptContent::Text { text } = &r.messages[0].content;
    assert_eq!(text, "hello");
    let registry = PromptRegistry::new();
    let listed = registry.list_prompts();
    assert_eq!(listed.len(), 1);
    assert_eq!(listed[0].name, "discover-brp-methods");
    let (description, response) = registry.get_prompt("discover-brp-methods").unwrap();
    assert_eq!(description, "List all available Bevy Remote Protocol methods and their capabilities");
    let PromptContent::Text { text } = &response.messages[0].content;
    assert!(text.contains("rpc.discover"));
    assert_eq!(registry.get_prompt("nope").err().unwrap(), "Prompt not found");
}

#[test]
fn debug_mode_switches() {
    let mut mode = DebugMode { enabled: false };
    assert!(!is_debug_enabled(&mode));
    let msg = set_debug_mode(&mut mode, &SetDebugModeParams { enabled: true });
    assert!(is_debug_enabled(&mode));
    assert_eq!(msg, "Debug mode enabled - format discovery debug info will be included in responses");
}

#[test]
fn tool_definition_defaults() {
    let f = FormatterDef::default();
    assert!(matches!(f.formatter_type, FormatterType::Simple));
    assert_eq!(f.template, "");
    assert!(f.response_fields.is_empty());
    let p = create_pagination_params();
    assert_eq!(p.len(), 1);
    assert_eq!(p[0].name, "page");
    assert!(!p[0].required);
    assert!(p[0].param_type == ParamType::Number);
}

#[test]
fn debug_mode_is_off_until_set_and_then_the_last_value_set() {
    let mut mode = DebugMode::new();
    assert!(!is_debug_enabled(&mode));
    for enabled in [true, true, false, true] {
        let message = set_debug_mode(&mut mode, &SetDebugModeParams { enabled });
        assert_eq!(is_debug_enabled(&mode), enabled);
        assert!(message.starts_with(if enabled { "Debug mode enabled" } else { "Debug mode disabled" }));
    }
    assert!(is_debug_enabled(&mode));
}

#[test]
fn debug_requests_set_the_last_value_asked_for_and_refusals_change_nothing() {
    let request = |arg: Option<JsonValue>| CallToolRequest {
        name: "set_debug_mode".to_string(),
        arguments: Some(arg.map(|v| vec![("enabled".to_string(), v)]).unwrap_or_default()),
    };
    let mut mode = DebugMode::new();
    let reply = apply_debug_request(&mut mode, &request(Some(JsonValue::Bool(true)))).unwrap();
    assert!(is_debug_enabled(&mode));
    assert!(reply.message.starts_with("Debug mode enabled"));
    match reply.data {
        Some(JsonValue::Object(m)) => {
            assert_eq!(m.len(), 1);
            assert_eq!(m[0].0, "debug_enabled");
            assert!(matches!(m[0].1, JsonValue::Bool(true)));
        }
        _ => panic!("reply without data"),
    }
    let refused = match apply_debug_request(&mut mode, &request(None)) {
        Err(e) => e,
        Ok(_) => panic!("a request without `enabled` was accepted"),
    };
    assert_eq!(refused.to_message(), "Parameter extraction failed: Validation failed for parameters: missing field `enabled`");
    assert!(is_debug_enabled(&mode));
    assert!(apply_debug_request(&mut mode, &request(Some(JsonValue::String("yes".to_string())))).is_err());
    assert!(is_debug_enabled(&mode));
    apply_debug_request(&mut mode, &request(Some(JsonValue::Bool(false)))).unwrap();
    assert!(!is_debug_enabled(&mode));
}

#[test]
fn log_names_parse_back_with_any_stamp_without_an_underscore() {
    assert_eq!(parse_log_filename("bevy_brp_mcp_my_app_v2.log"), Some(("my_app".to_string(), "v2".to_string())));
    assert_eq!(parse_log_filename("bevy_brp_mcp_game_.log"), Some(("game".to_string(), "".to_string())));
}
