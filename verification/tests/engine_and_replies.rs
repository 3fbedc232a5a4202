use bevy_brp_mcp::brp_client::{brp_result_from_reply, BrpJsonRpcBuilder, BrpResponseBuilder, BrpResult};
use bevy_brp_mcp::debug_mode::ResponseStatus;
use bevy_brp_mcp::detection::BrpError;
use bevy_brp_mcp::discovery::FormatCorrection;
use bevy_brp_mcp::engine::{DiscoveryAction, DiscoveryPhase, EnhancedBrpResult, FormatDiscovery};
use bevy_brp_mcp::handler::{
    add_format_corrections, estimated_tokens, large_response_filename, oversize_tokens, process_error_response, resolve_brp_method,
};
use bevy_brp_mcp::extractors::ExtractedParams;
use bevy_brp_mcp::json::{JsonNumber, JsonValue, SingleText};
use bevy_brp_mcp::log_files::{
    cleanup_filter, cleanup_message, count_lines, list_logs_message, parse_u128, read_log_message, select_log_lines, sort_newest_first,
    LogFileEntry,
};
use bevy_brp_mcp::registry::{custom_tools, generate_tool_registration, register_tools, ToolRegistration};
use bevy_brp_mcp::response_formatter::{
    BrpMetadata, FieldExtractor, FormatterConfig, FormatterContext, ResponseFormatter, ResponseFormatterFactory,
};
use bevy_brp_mcp::schema::SchemaBuilder;
use bevy_brp_mcp::tool_definitions::{
    get_all_tools, BrpToolDef, FormatterDef, FormatterType, HandlerType, ParamDef, ParamExtractorType, ParamType,
};
use bevy_brp_mcp::cargo_detector::{is_searched_dir, manifest_enables_brp, BinaryInfo, ExampleInfo};
use bevy_brp_mcp::detached::{launch_response, DetachedSession};
use bevy_brp_mcp::logs::{launch_log_filename, parse_log_filename};
use bevy_brp_mcp::response::listing_response;
use bevy_brp_mcp::watch::{
    active_watch_json, data_payloads, list_active_watches_response, message_updates, sse_payload, watch_log_filename, SseLineBuffer,
};
use bevy_brp_mcp::cargo::{current_dir_binary_outcome, not_in_roots};
use bevy_brp_mcp::error::{BrpMcpError, ProtocolErrorKind};

fn parse(text: &str) -> serde_json::Value {
    serde_json::from_str(text).unwrap()
}

fn to_model(v: &serde_json::Value) -> JsonValue {
    match v {
        serde_json::Value::Null => JsonValue::Null,
        serde_json::Value::Bool(b) => JsonValue::Bool(*b),
        serde_json::Value::Number(n) => {
            let narrowed = serde_json::Value::from(n.as_f64().unwrap_or(0.0) as f32);
            let single = match narrowed {
                serde_json::Value::Number(m) => SingleText::Text(m.to_string()),
                _ => SingleText::NotFinite,
            };
            JsonValue::Number(JsonNumber { text: n.to_string(), single })
        }
        serde_json::Value::String(s) => JsonValue::String(s.clone()),
        serde_json::Value::Array(a) => JsonValue::Array(a.iter().map(to_model).collect()),
        serde_json::Value::Object(m) => {
            JsonValue::Object(m.iter().map(|(k, v)| (k.clone(), to_model(v))).collect())
        }
    }
}

fn from_model(v: &JsonValue) -> serde_json::Value {
    match v {
        JsonValue::Null => serde_json::Value::Null,
        JsonValue::Bool(b) => serde_json::Value::Bool(*b),
        JsonValue::Number(n) => serde_json::from_str(&n.text).unwrap(),
        JsonValue::String(s) => serde_json::Value::String(s.clone()),
        JsonValue::Array(a) => serde_json::Value::Array(a.iter().map(from_model).collect()),
        JsonValue::Object(m) => serde_json::Value::Object(
            m.iter().map(|(k, v)| (k.clone(), from_model(v))).collect(),
        ),
    }
}

fn context(params: Option<&str>) -> FormatterContext {
    FormatterContext { params: params.map(|p| to_model(&parse(p))), brp_mcp_debug_info: None }
}

fn data_of(v: &Option<JsonValue>) -> serde_json::Value {
    v.as_ref().map(from_model).unwrap_or(serde_json::Value::Null)
}

#[test]
fn test_brp_error_creation() {
    let error = BrpError { code: -32600, message: "Invalid Request".to_string(), data: None };
    assert_eq!(error.code, -32600);
    assert_eq!(error.message, "Invalid Request");
    assert!(error.data.is_none());
}

#[test]
fn test_brp_result_success() {
    let result = BrpResult::Success(Some(to_model(&parse(r#"{"test": "value"}"#))));
    assert!(matches!(result, BrpResult::Success(_)));
}

#[test]
fn test_brp_result_error() {
    let error = BrpError { code: -1, message: "Test error".to_string(), data: None };
    let result = BrpResult::Error(error);
    assert!(matches!(result, BrpResult::Error(_)));
}

#[test]
fn json_rpc_requests_carry_version_method_id_and_params() {
    let request = BrpJsonRpcBuilder::new("bevy/list".to_string()).build();
    assert_eq!(from_model(&request), parse(r#"{"id": 1, "jsonrpc": "2.0", "method": "bevy/list", "params": null}"#));
    let request = BrpJsonRpcBuilder::new("bevy/get".to_string())
        .params(to_model(&parse(r#"{"entity": 7}"#)))
        .build();
    assert_eq!(from_model(&request), parse(r#"{"id": 1, "jsonrpc": "2.0", "method": "bevy/get", "params": {"entity": 7}}"#));
}

#[test]
fn missing_extras_methods_name_the_plugin() {
    let error = BrpError { code: -32601, message: "Method not found".to_string(), data: None };
    match brp_result_from_reply("brp_extras/screenshot", None, Some(error)) {
        BrpResult::Error(e) => {
            assert_eq!(e.code, -32601);
            assert_eq!(
                e.message,
                "Method not found. This method requires the bevy_brp_extras crate to be added to your Bevy app with the BrpExtrasPlugin"
            );
        }
        _ => panic!("expected an error"),
    }
    let error = BrpError { code: -32601, message: "Method not found".to_string(), data: None };
    match brp_result_from_reply("bevy/get", None, Some(error)) {
        BrpResult::Error(e) => assert_eq!(e.message, "Method not found"),
        _ => panic!("expected an error"),
    }
    assert!(matches!(brp_result_from_reply("bevy/get", None, None), BrpResult::Success(None)));
}

#[test]
fn brp_replies_hold_the_fields_set() {
    let reply = BrpResponseBuilder::error("Failed".to_string())
        .error_code(-32603)
        .data(to_model(&parse(r#"[1]"#)))
        .build();
    assert_eq!(from_model(&reply), parse(r#"{"data": [1], "error_code": -32603, "message": "Failed", "status": "error"}"#));
}

#[test]
fn test_configurable_formatter_success() {
    let config = FormatterConfig {
        success_template: Some("Successfully destroyed entity {entity}".to_string()),
        success_fields: vec![("destroyed_entity".to_string(), FieldExtractor::EntityFromParams)],
        error_metadata_fields: vec![],
        use_default_error: false,
    };
    let formatter = ResponseFormatter::new(config, context(Some(r#"{ "entity": 123 }"#)));
    let metadata = BrpMetadata::new("bevy/destroy", 15702);
    let result = formatter.format_success(&JsonValue::Null, metadata, false);
    assert!(matches!(result.status, ResponseStatus::Success));
    assert_eq!(result.message, "Successfully destroyed entity 123");
    assert_eq!(data_of(&result.data), parse(r#"{"destroyed_entity": 123}"#));
}

#[test]
fn test_configurable_formatter_error_with_metadata() {
    let config = FormatterConfig {
        success_template: None,
        success_fields: vec![],
        error_metadata_fields: vec![("entity".to_string(), FieldExtractor::EntityFromParams)],
        use_default_error: false,
    };
    let formatter = ResponseFormatter::new(config, context(Some(r#"{ "entity": 456 }"#)));
    let metadata = BrpMetadata::new("bevy/destroy", 15702);
    let error = BrpError { code: -32603, message: "Entity not found".to_string(), data: None };
    let result = formatter.format_error(error, &metadata, false);
    assert!(matches!(result.status, ResponseStatus::Error));
    assert_eq!(result.message, "Entity not found");
    assert_eq!(
        data_of(&result.data),
        parse(r#"{"error_code": -32603, "metadata": {"entity": 456, "method": "bevy/destroy", "port": 15702}}"#)
    );
}

#[test]
fn test_configurable_formatter_default_error() {
    let config = FormatterConfig {
        success_template: None,
        success_fields: vec![],
        error_metadata_fields: vec![],
        use_default_error: true,
    };
    let formatter = ResponseFormatter::new(config, context(None));
    let metadata = BrpMetadata::new("bevy/test", 15702);
    let error = BrpError {
        code: -32603,
        message: "Test error".to_string(),
        data: Some(to_model(&parse(r#"{"detail": "extra info"}"#))),
    };
    let result = formatter.format_error(error, &metadata, false);
    assert!(matches!(result.status, ResponseStatus::Error));
    assert_eq!(result.message, "Test error");
    assert_eq!(
        data_of(&result.data),
        parse(r#"{"data": {"detail": "extra info"}, "error_code": -32603, "metadata": {"method": "bevy/test", "port": 15702}}"#)
    );
}

#[test]
fn test_entity_operation_builder() {
    let factory = ResponseFormatterFactory::entity_operation("destroyed_entity")
        .with_template("Successfully destroyed entity {entity}".to_string())
        .with_response_field("destroyed_entity".to_string(), FieldExtractor::EntityFromParams)
        .build();
    let formatter = factory.create(context(Some(r#"{ "entity": 789 }"#)));
    let metadata = BrpMetadata::new("bevy/destroy", 15702);
    let result = formatter.format_success(&JsonValue::Null, metadata, false);
    assert_eq!(result.message, "Successfully destroyed entity 789");
    assert_eq!(data_of(&result.data), parse(r#"{"destroyed_entity": 789}"#));
}

#[test]
fn test_pass_through_builder() {
    let factory = ResponseFormatterFactory::pass_through().build();
    let formatter = factory.create(context(None));
    let metadata = BrpMetadata::new("bevy/query", 15702);
    let data = to_model(&parse(r#"[{"entity": 1}, {"entity": 2}]"#));
    let result = formatter.format_success(&data, metadata, false);
    assert_eq!(result.message, "Operation completed successfully");
    assert_eq!(data_of(&result.data), parse(r#"{"data": [{"entity": 1}, {"entity": 2}]}"#));
}

fn brp_error(code: i32, message: &str) -> BrpError {
    BrpError { code, message: message.to_string(), data: None }
}

fn sent(action: &DiscoveryAction) -> (String, serde_json::Value) {
    match action {
        DiscoveryAction::Send { method, params } => (method.clone(), data_of(params)),
        _ => panic!("expected a request"),
    }
}

#[test]
fn a_first_success_is_returned_as_it_came() {
    let params = to_model(&parse(r#"{"components": {"bevy_transform::components::transform::Transform": {}}}"#));
    let (mut discovery, action) = FormatDiscovery::start("bevy/spawn".to_string(), Some(params));
    assert_eq!(sent(&action).0, "bevy/spawn");
    let reply = BrpResult::Success(Some(to_model(&parse(r#"{"entity": 42}"#))));
    match discovery.resume(Ok(reply)) {
        DiscoveryAction::Finish(EnhancedBrpResult { result: BrpResult::Success(Some(d)), format_corrections, .. }) => {
            assert_eq!(from_model(&d), parse(r#"{"entity": 42}"#));
            assert!(format_corrections.is_empty());
        }
        _ => panic!("expected the first reply back"),
    }
}

#[test]
fn other_errors_are_returned_without_discovery() {
    let params = to_model(&parse(r#"{"entity": 1}"#));
    let (mut discovery, _) = FormatDiscovery::start("bevy/get".to_string(), Some(params));
    match discovery.resume(Ok(BrpResult::Error(brp_error(-23402, "Unknown component type")))) {
        DiscoveryAction::Finish(EnhancedBrpResult { result: BrpResult::Error(e), format_corrections, .. }) => {
            assert_eq!(e.code, -23402);
            assert!(format_corrections.is_empty());
        }
        _ => panic!("expected the first error back"),
    }
    let (mut discovery, _) = FormatDiscovery::start("bevy/spawn".to_string(), None);
    assert!(matches!(discovery.resume(Err("connection refused".to_string())), DiscoveryAction::Fail));
}

#[test]
fn a_mutation_is_sent_again_with_the_pattern_fix() {
    let params = to_model(&parse(
        r#"{"entity": 5, "component": "bevy_math::vector::Vec3", "path": "", "value": {"x": 1.0, "y": 2.0, "z": 3.0}}"#,
    ));
    let (mut discovery, _) = FormatDiscovery::start("bevy/mutate_component".to_string(), Some(params));
    let action = discovery.resume(Ok(BrpResult::Error(brp_error(-23402, "Vec3 expects array format"))));
    assert_eq!(discovery.phase, DiscoveryPhase::AwaitDirect);
    assert_eq!(sent(&action), ("brp_extras/discover_format".to_string(), parse(r#"{"types": ["bevy_math::vector::Vec3"]}"#)));
    let action = discovery.resume(Err("connection refused".to_string()));
    assert_eq!(discovery.phase, DiscoveryPhase::AwaitRetry);
    assert_eq!(
        sent(&action),
        (
            "bevy/mutate_component".to_string(),
            parse(r#"{"component": "bevy_math::vector::Vec3", "entity": 5, "path": "", "value": [1.0, 2.0, 3.0]}"#)
        )
    );
    match discovery.resume(Ok(BrpResult::Success(None))) {
        DiscoveryAction::Finish(EnhancedBrpResult { result: BrpResult::Success(None), format_corrections, .. }) => {
            assert_eq!(format_corrections.len(), 1);
            assert_eq!(format_corrections[0].component, "bevy_math::vector::Vec3");
            assert_eq!(from_model(&format_corrections[0].original_format), parse(r#"{"x": 1.0, "y": 2.0, "z": 3.0}"#));
            assert_eq!(from_model(&format_corrections[0].corrected_format), parse(r#"[1.0, 2.0, 3.0]"#));
        }
        _ => panic!("expected the reply to the corrected request"),
    }
}

#[test]
fn spawn_checks_serialization_then_tests_the_direct_format() {
    let params = to_model(&parse(r#"{"components": {"my_game::Health": {"value": 3}}}"#));
    let (mut discovery, _) = FormatDiscovery::start("bevy/spawn".to_string(), Some(params));
    let action = discovery.resume(Ok(BrpResult::Error(brp_error(-23402, "Unknown component type"))));
    assert_eq!(
        sent(&action),
        (
            "bevy/registry/schema".to_string(),
            parse(r#"{"with_crates": ["my_game"], "with_types": ["Component", "Resource"]}"#)
        )
    );
    let action = discovery.resume(Err("timeout".to_string()));
    assert_eq!(sent(&action).0, "brp_extras/discover_format");
    let formats = to_model(&parse(r#"{"formats": {"my_game::Health": {"spawn_format": {"example": 3}}}}"#));
    let action = discovery.resume(Ok(BrpResult::Success(Some(formats))));
    assert_eq!(sent(&action), ("bevy/spawn".to_string(), parse(r#"{"components": {"my_game::Health": 3}}"#)));
    let action = discovery.resume(Ok(BrpResult::Success(Some(to_model(&parse(r#"{"entity": 99}"#))))));
    assert_eq!(sent(&action), ("bevy/destroy".to_string(), parse(r#"{"entity": 99}"#)));
    let action = discovery.resume(Ok(BrpResult::Success(None)));
    assert_eq!(sent(&action), ("bevy/spawn".to_string(), parse(r#"{"components": {"my_game::Health": 3}}"#)));
    match discovery.resume(Ok(BrpResult::Success(Some(to_model(&parse(r#"{"entity": 100}"#)))))) {
        DiscoveryAction::Finish(r) => {
            assert_eq!(r.format_corrections.len(), 1);
            assert_eq!(r.format_corrections[0].hint, "Direct discovery from bevy_brp_extras");
        }
        _ => panic!("expected the reply to the corrected request"),
    }
}

#[test]
fn a_type_without_serialization_gets_the_diagnostic() {
    let params = to_model(&parse(r#"{"components": {"my_game::Secret": {}}}"#));
    let (mut discovery, _) = FormatDiscovery::start("bevy/insert".to_string(), Some(params));
    discovery.resume(Ok(BrpResult::Error(brp_error(-23402, "Unknown component type"))));
    let schema = to_model(&parse(r#"{"my_game::Secret": {"reflectTypes": ["Component"]}}"#));
    let action = discovery.resume(Ok(BrpResult::Success(Some(schema))));
    let (method, retried) = sent(&action);
    assert_eq!(method, "bevy/insert");
    assert_eq!(retried, parse(r#"{"components": {"my_game::Secret": {}}}"#));
    let error = brp_error(-23402, "Unknown component type");
    match discovery.resume(Ok(BrpResult::Error(error))) {
        DiscoveryAction::Finish(r) => {
            assert_eq!(r.format_corrections.len(), 1);
            assert!(r.format_corrections[0].hint.contains("cannot be used with BRP"));
            let formatter = ResponseFormatterFactory::list_operation().build().create(context(None));
            let metadata = BrpMetadata::new("bevy/insert", 15702);
            let reply = process_error_response(brp_error(-23402, "Unknown component type"), &r, &formatter, &metadata, false);
            assert!(reply.message.starts_with("Type `my_game::Secret` cannot be used with BRP because it lacks Serialize and Deserialize"));
            let data = data_of(&reply.data);
            assert_eq!(data["data"]["original_error"], parse(r#""Unknown component type""#));
        }
        _ => panic!("expected the reply to the resent request"),
    }
}

#[test]
fn corrections_are_added_to_reply_data() {
    let correction = FormatCorrection {
        component: "a::B".to_string(),
        original_format: to_model(&parse(r#"{"x": 1}"#)),
        corrected_format: to_model(&parse(r#"[1]"#)),
        hint: "as array".to_string(),
    };
    let mut data = to_model(&parse(r#"{"entity": 3}"#));
    add_format_corrections(&mut data, &vec![correction], &vec!["trace".to_string()], false);
    assert_eq!(
        from_model(&data),
        parse(r#"{"entity": 3, "format_corrections": [{"component": "a::B", "corrected_format": [1], "hint": "as array", "original_format": {"x": 1}}]}"#)
    );
    let mut data = to_model(&parse(r#"[1, 2]"#));
    add_format_corrections(&mut data, &vec![], &vec!["trace".to_string()], true);
    assert_eq!(from_model(&data), parse(r#"{"data": [1, 2], "debug_info": ["trace"], "format_corrections": []}"#));
    let mut data = to_model(&parse(r#"[1, 2]"#));
    add_format_corrections(&mut data, &vec![], &vec![], true);
    assert_eq!(from_model(&data), parse(r#"[1, 2]"#));
}

#[test]
fn methods_come_from_the_call_or_the_tool() {
    let dynamic = ExtractedParams { method: Some("bevy/query".to_string()), params: None, port: 15702 };
    assert_eq!(resolve_brp_method(&dynamic, Some("bevy/list")).unwrap(), "bevy/query");
    let fixed = ExtractedParams { method: None, params: None, port: 15702 };
    assert_eq!(resolve_brp_method(&fixed, Some("bevy/list")).unwrap(), "bevy/list");
    assert!(resolve_brp_method(&fixed, None).is_err());
}

#[test]
fn large_replies_are_measured_and_named() {
    assert_eq!(estimated_tokens(&to_model(&parse(r#""abcdefgh""#))), 2);
    assert_eq!(large_response_filename("bevy/query", 1700000000), "brp_response_bevy_query_1700000000.json");
}

#[test]
fn test_tools_are_registered_in_alphabetical_order() {
    let tools = register_tools(custom_tools());
    let names: Vec<&str> = tools.iter().map(|t| t.name.as_str()).collect();
    let mut sorted = names.clone();
    sorted.sort_unstable();
    assert_eq!(names, sorted);
    assert!(tools.len() > 20, "Expected at least 20 tools, got {}", tools.len());
}

#[test]
fn test_generate_tool_registration() {
    let def = BrpToolDef {
        name: "test_tool",
        description: "A test tool",
        handler: HandlerType::Brp { method: "test/method" },
        params: vec![
            ParamDef { name: "entity", description: "Entity ID", required: true, param_type: ParamType::Number },
            ParamDef { name: "optional_param", description: "Optional parameter", required: false, param_type: ParamType::String },
        ],
        param_extractor: ParamExtractorType::Passthrough,
        formatter: FormatterDef { formatter_type: FormatterType::Simple, template: "Test successful", response_fields: vec![] },
    };
    let tool = generate_tool_registration(&def);
    assert_eq!(tool.name, "test_tool");
    assert_eq!(tool.description, "A test tool");
    let schema = from_model(&tool.input_schema);
    assert_eq!(schema["type"], parse(r#""object""#));
    assert_eq!(schema["required"], parse(r#"["entity"]"#));
    assert_eq!(schema["properties"]["entity"], parse(r#"{"description": "Entity ID", "type": "number"}"#));
}

#[test]
fn every_declared_tool_but_local_ones_takes_a_port() {
    let tools = get_all_tools();
    assert_eq!(tools.len(), 27);
    for tool in &tools {
        if let HandlerType::Brp { .. } = tool.handler {
            assert!(tool.name.starts_with("bevy_") || tool.name.starts_with("brp_"));
            let last = tool.params.last().unwrap();
            assert_eq!(last.name, "port");
            assert!(!last.required);
        }
    }
    let mut names: Vec<&str> = tools.iter().map(|t| t.name).collect();
    names.sort_unstable();
    names.dedup();
    assert_eq!(names.len(), 27);
}

#[test]
fn tool_definitions_carry_their_parameters() {
    let tools = get_all_tools();
    let list = tools.iter().find(|d| d.name == "bevy_list").unwrap();
    assert!(matches!(list.handler, HandlerType::Brp { method: "bevy/list" }));
    assert_eq!(list.params.len(), 2);
    assert_eq!(list.params[0].name, "entity");
    assert!(!list.params[0].required);
    assert!(matches!(list.param_extractor, ParamExtractorType::Entity { required: false }));
    assert_eq!(list.formatter.template, "Listed {count} components");
    let read = tools.iter().find(|d| d.name == "read_log").unwrap();
    let params: Vec<(&str, bool)> = read.params.iter().map(|p| (p.name, p.required)).collect();
    assert_eq!(params, vec![("filename", true), ("keyword", false), ("tail_lines", false)]);
    let launch = tools.iter().find(|d| d.name == "launch_bevy_app").unwrap();
    let params: Vec<(&str, bool)> = launch.params.iter().map(|p| (p.name, p.required)).collect();
    assert_eq!(params, vec![("app_name", true), ("profile", false)]);
    let execute = tools.iter().find(|d| d.name == "brp_execute").unwrap();
    assert_eq!(execute.params[0].name, "method");
    assert!(execute.params[0].required);
}

#[test]
fn missing_values_are_answered_as_invalid_parameters() {
    let e = BrpMcpError::missing("BRP method specification");
    assert_eq!(e.to_message(), "Parameter extraction failed: Missing BRP method specification");
    let (kind, message) = e.protocol_error();
    assert_eq!(kind, ProtocolErrorKind::InvalidParams);
    assert_eq!(message, "Missing BRP method specification");
    let (kind, _) = BrpMcpError::FileOperation("x".to_string()).protocol_error();
    assert_eq!(kind, ProtocolErrorKind::InternalError);
    let (kind, _) = BrpMcpError::BrpCommunication("x".to_string()).protocol_error();
    assert_eq!(kind, ProtocolErrorKind::InvalidParams);
}

#[test]
fn the_current_directory_is_searched_without_roots() {
    assert_eq!(current_dir_binary_outcome("game", None, false, "debug"), Err("Binary 'game' not found".to_string()));
    assert_eq!(current_dir_binary_outcome("game", Some(false), true, "debug"), Err("Binary 'game' does not depend on Bevy".to_string()));
    assert_eq!(
        current_dir_binary_outcome("game", Some(true), false, "release"),
        Err("Binary 'game' found but not built. Run 'cargo build --profile release' to build it.".to_string())
    );
    assert_eq!(current_dir_binary_outcome("game", Some(true), true, "debug"), Ok(()));
    assert_eq!(not_in_roots("game"), "Binary 'game' not found in any of the provided roots or their subdirectories");
}

#[test]
fn each_data_line_with_a_result_is_logged_once_in_order() {
    let lines = vec![
        "data: {\"result\":1}".to_string(),
        "event: ping".to_string(),
        "data: not json".to_string(),
        "data: {\"id\":2}".to_string(),
        "data: {\"result\":{\"a\":3}}".to_string(),
    ];
    let payloads = data_payloads(&lines);
    assert_eq!(payloads, vec!["{\"result\":1}", "not json", "{\"id\":2}", "{\"result\":{\"a\":3}}"]);
    let messages: Vec<Option<JsonValue>> =
        payloads.iter().map(|p| serde_json::from_str::<serde_json::Value>(p).ok().map(|m| to_model(&m))).collect();
    let updates = message_updates(&messages);
    let updates: Vec<serde_json::Value> = updates.iter().map(from_model).collect();
    assert_eq!(updates, vec![parse("1"), parse(r#"{"a":3}"#)]);
}


#[test]
fn schemas_list_properties_and_required_ones() {
    let schema = SchemaBuilder::new()
        .add_string_property("app_name", "The app", true)
        .add_any_property("value", "Any value", false)
        .build();
    assert_eq!(
        from_model(&schema),
        parse(r#"{"properties": {"app_name": {"description": "The app", "type": "string"}, "value": {"description": "Any value", "type": ["object", "array", "null"]}}, "required": ["app_name"], "type": "object"}"#)
    );
}

fn entry(app: &str, timestamp: &str, modified: Option<(i64, u32)>) -> LogFileEntry {
    LogFileEntry {
        filename: format!("bevy_brp_mcp_{app}_{timestamp}.log"),
        app_name: app.to_string(),
        timestamp: timestamp.to_string(),
        path: format!("/tmp/bevy_brp_mcp_{app}_{timestamp}.log"),
        size_bytes: 2048,
        modified,
    }
}

#[test]
fn log_files_are_listed_newest_first() {
    let sorted = sort_newest_first(vec![entry("a", "100", None), entry("b", "300", None), entry("c", "x", None), entry("d", "200", None)]);
    let apps: Vec<&str> = sorted.iter().map(|e| e.app_name.as_str()).collect();
    assert_eq!(apps, vec!["b", "d", "a", "c"]);
    assert_eq!(parse_u128("+42"), Some(42));
    assert_eq!(parse_u128("4x"), None);
}

#[test]
fn cleanup_takes_old_files_of_the_app() {
    let now = (1_000_000, 0);
    assert!(cleanup_filter(&entry("game", "1", Some((1_000, 0))), "game", 60, now));
    assert!(!cleanup_filter(&entry("game", "1", Some((999_990, 0))), "game", 60, now));
    assert!(!cleanup_filter(&entry("other", "1", Some((1_000, 0))), "game", 0, now));
    assert!(cleanup_filter(&entry("other", "1", None), "", 60, now));
    let described = entry("game", "1700000000", None).to_json();
    assert_eq!(from_model(&described)["last_modified"], parse(r#""Unknown""#));
    assert_eq!(from_model(&described)["size_human"], parse(r#""2.00 KB""#));
    assert_eq!(from_model(&described)["timestamp"], parse("1700000000"));
}

#[test]
fn log_lines_are_filtered_and_tailed() {
    let lines: Vec<String> = vec!["INFO start".to_string(), "ERROR boom".to_string(), "info end".to_string()];
    assert_eq!(select_log_lines(&lines, "info", 0), "INFO start\ninfo end");
    assert_eq!(select_log_lines(&lines, "", 2), "ERROR boom\ninfo end");
    assert_eq!(select_log_lines(&lines, "", 5), "INFO start\nERROR boom\ninfo end");
    assert_eq!(count_lines("a\nb"), 2);
    assert_eq!(count_lines("a\n"), 1);
    assert_eq!(count_lines(""), 0);
}

#[test]
fn event_streams_are_cut_into_lines() {
    let mut buffer = SseLineBuffer::new();
    let lines = buffer.process_chunk(b"data: {\"a\":1}\r\n\n  \ndata: {\"b\"").unwrap();
    assert_eq!(lines, vec!["data: {\"a\":1}".to_string()]);
    assert_eq!(buffer.line_buffer, "data: {\"b\"");
    let lines = buffer.process_chunk(b":2}\n").unwrap();
    assert_eq!(lines, vec!["data: {\"b\":2}".to_string()]);
    assert_eq!(buffer.total_buffer_size, 0);
    assert!(buffer.process_chunk(&vec![b'a'; 1048577]).is_err());
    assert_eq!(sse_payload("data: {}"), Some("{}".to_string()));
    assert_eq!(sse_payload("event: x"), None);
    assert_eq!(watch_log_filename(3, "get", 12, 1700000000), "bevy_brp_mcp_watch_3_get_12_1700000000.log");
}

#[test]
fn launch_logs_are_listed_under_the_app_and_time() {
    let name = launch_log_filename("myapp", 1234567890);
    assert_eq!(name, "bevy_brp_mcp_myapp_1234567890.log");
    assert_eq!(parse_log_filename(&name), Some(("myapp".to_string(), "1234567890".to_string())));
    assert_eq!(parse_u128("1234567890"), Some(1234567890));
}

#[test]
fn active_watches_are_listed_with_their_count() {
    let w = active_watch_json(3, 12, "get", "/tmp/w.log", 15702);
    assert_eq!(
        from_model(&w),
        parse(r#"{ "watch_id": 3, "entity_id": 12, "watch_type": "get", "log_path": "/tmp/w.log", "port": 15702 }"#)
    );
    let r = list_active_watches_response(vec![w]);
    assert!(matches!(r.status, ResponseStatus::Success));
    assert_eq!(r.message, "Found 1 active watches");
    let data = data_of(&r.data);
    assert_eq!(data["count"], parse("1"));
    assert_eq!(data["watches"][0]["entity_id"], parse("12"));
    let empty = list_active_watches_response(Vec::new());
    assert_eq!(empty.message, "Found 0 active watches");
    assert_eq!(data_of(&empty.data), parse(r#"{ "watches": [], "count": 0 }"#));
}

#[test]
fn hidden_and_build_directories_are_not_searched() {
    assert!(is_searched_dir("game"));
    assert!(!is_searched_dir(".git"));
    assert!(!is_searched_dir("target"));
    assert!(is_searched_dir("targets"));
    assert!(is_searched_dir(""));
}

#[test]
fn manifests_naming_the_remote_plugins_enable_brp() {
    assert!(manifest_enables_brp("[dependencies]\nbevy = { version = \"0.16\", features = [\"bevy_remote\"] }"));
    assert!(manifest_enables_brp("bevy_brp_extras = \"0.1\""));
    assert!(!manifest_enables_brp("[dependencies]\nbevy = \"0.16\""));
}

#[test]
fn listings_count_what_they_list() {
    let app = BinaryInfo { name: "game".to_string(), workspace_root: "/w".to_string(), manifest_path: "/w/game/Cargo.toml".to_string() };
    let example = ExampleInfo { name: "demo".to_string(), package_name: "game".to_string() };
    let r = listing_response("apps", "Bevy apps", vec![app.to_json()]);
    assert!(matches!(r.status, ResponseStatus::Success));
    assert_eq!(r.message, "Found 1 Bevy apps");
    assert_eq!(
        data_of(&r.data),
        parse(r#"{ "apps": [{ "name": "game", "workspace_root": "/w", "manifest_path": "/w/game/Cargo.toml" }], "count": 1 }"#)
    );
    let e = listing_response("examples", "Bevy examples", vec![example.to_json()]);
    assert_eq!(e.message, "Found 1 Bevy examples");
    assert_eq!(data_of(&e.data), parse(r#"{ "examples": [{ "name": "demo", "package_name": "game" }], "count": 1 }"#));
}

#[test]
fn launches_report_the_process_port_and_log() {
    let session = DetachedSession { pid: 4321, port: 15702, log_file: "/tmp/bevy_brp_mcp_game_1.log".to_string() };
    let r = launch_response("Bevy app", "game", session);
    assert!(matches!(r.status, ResponseStatus::Success));
    assert_eq!(r.message, "Successfully launched Bevy app 'game' (PID: 4321)");
    assert_eq!(data_of(&r.data), parse(r#"{ "pid": 4321, "port": 15702, "log_file": "/tmp/bevy_brp_mcp_game_1.log" }"#));
}

#[test]
fn log_tool_messages_name_counts_and_files() {
    assert_eq!(list_logs_message(3), "Found 3 log files");
    assert_eq!(read_log_message("bevy_brp_mcp_game_1.log"), "Successfully read log file: bevy_brp_mcp_game_1.log");
    assert_eq!(cleanup_message(2), "Deleted 2 log files");
}

#[test]
fn only_replies_over_the_token_limit_are_oversize() {
    assert_eq!(oversize_tokens(&JsonValue::String("small".to_string())), None);
    let big = JsonValue::String("x".repeat(200_000));
    let tokens = estimated_tokens(&big);
    assert_eq!(tokens, 50_000);
    assert_eq!(oversize_tokens(&big), Some(50_000));
}

#[test]
fn tools_with_their_own_handling_are_announced_with_the_declared_ones() {
    let custom = custom_tools();
    let names: Vec<&str> = custom.iter().map(|t| t.name.as_str()).collect();
    assert_eq!(names, vec!["brp_get_watch", "brp_list_watch", "bevy_stop_watch", "bevy_list_active_watches", "set_debug_mode"]);
    let stop = from_model(&custom[2].input_schema);
    assert_eq!(stop["required"], parse(r#"["watch_id"]"#));
    let all = register_tools(custom_tools());
    assert_eq!(all.len(), 32);
    assert!(all.iter().any(|t| t.name == "bevy_query"));
    assert!(all.iter().any(|t| t.name == "set_debug_mode"));
}

#[test]
fn tools_of_the_same_name_keep_their_order() {
    let tool = |name: &str, description: &str| ToolRegistration {
        name: name.to_string(),
        description: description.to_string(),
        input_schema: JsonValue::Null,
    };
    let custom = vec![tool("zz_same", "first"), tool("aa_other", "x"), tool("zz_same", "second")];
    let all = register_tools(custom);
    let same: Vec<&str> = all.iter().filter(|t| t.name == "zz_same").map(|t| t.description.as_str()).collect();
    assert_eq!(same, vec!["first", "second"]);
    assert_eq!(all.first().unwrap().name, "aa_other");
}
