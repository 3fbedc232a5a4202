//! The names of the tools and of the BRP methods they call, their
//! descriptions, and the names of their parameters.

use vstd::prelude::*;

verus! {

/// The port of the Bevy Remote Protocol, as its parameter describes it.
pub const PORT_DESCRIPTION: &'static str = "The BRP port (default: 15702)";
pub const DESC_PORT: &'static str = "The BRP port (default: 15702)";

// BRP protocol methods.
pub const BRP_METHOD_LIST: &'static str = "bevy/list";
pub const BRP_METHOD_GET: &'static str = "bevy/get";
pub const BRP_METHOD_REMOVE: &'static str = "bevy/remove";
pub const BRP_METHOD_LIST_RESOURCES: &'static str = "bevy/list_resources";
pub const BRP_METHOD_GET_RESOURCE: &'static str = "bevy/get_resource";
pub const BRP_METHOD_REMOVE_RESOURCE: &'static str = "bevy/remove_resource";
pub const BRP_METHOD_RPC_DISCOVER: &'static str = "rpc.discover";
pub const BRP_METHOD_QUERY: &'static str = "bevy/query";
pub const BRP_METHOD_REPARENT: &'static str = "bevy/reparent";
pub const BRP_METHOD_GET_WATCH: &'static str = "bevy/get+watch";
pub const BRP_METHOD_LIST_WATCH: &'static str = "bevy/list+watch";
pub const BRP_METHOD_EXTRAS_SHUTDOWN: &'static str = "brp_extras/shutdown";
pub const BRP_METHOD_EXTRAS_SCREENSHOT: &'static str = "brp_extras/screenshot";

// Tool names.
pub const TOOL_BEVY_LIST: &'static str = "bevy_list";
pub const TOOL_BEVY_GET: &'static str = "bevy_get";
pub const TOOL_BEVY_DESTROY: &'static str = "bevy_destroy";
pub const TOOL_BEVY_INSERT: &'static str = "bevy_insert";
pub const TOOL_BEVY_REMOVE: &'static str = "bevy_remove";
pub const TOOL_BEVY_LIST_RESOURCES: &'static str = "bevy_list_resources";
pub const TOOL_BEVY_GET_RESOURCE: &'static str = "bevy_get_resource";
pub const TOOL_BEVY_INSERT_RESOURCE: &'static str = "bevy_insert_resource";
pub const TOOL_BEVY_REMOVE_RESOURCE: &'static str = "bevy_remove_resource";
pub const TOOL_BEVY_MUTATE_RESOURCE: &'static str = "bevy_mutate_resource";
pub const TOOL_BEVY_MUTATE_COMPONENT: &'static str = "bevy_mutate_component";
pub const TOOL_BEVY_RPC_DISCOVER: &'static str = "bevy_rpc_discover";
pub const TOOL_BEVY_QUERY: &'static str = "bevy_query";
pub const TOOL_BEVY_SPAWN: &'static str = "bevy_spawn";
pub const TOOL_BRP_EXECUTE: &'static str = "brp_execute";
pub const TOOL_BEVY_REGISTRY_SCHEMA: &'static str = "bevy_registry_schema";
pub const TOOL_BEVY_REPARENT: &'static str = "bevy_reparent";
pub const TOOL_BRP_EXTRAS_SHUTDOWN: &'static str = "brp_extras_shutdown";
pub const TOOL_BRP_EXTRAS_SCREENSHOT: &'static str = "brp_extras_screenshot";
pub const TOOL_BRP_EXTRAS_DISCOVER_FORMAT: &'static str = "brp_extras_discover_format";
pub const TOOL_BRP_STATUS: &'static str = "brp_status";
pub const TOOL_BRP_GET_WATCH: &'static str = "brp_get_watch";
pub const TOOL_BRP_LIST_WATCH: &'static str = "brp_list_watch";
pub const TOOL_BRP_STOP_WATCH: &'static str = "bevy_stop_watch";
pub const TOOL_BRP_LIST_ACTIVE_WATCHES: &'static str = "bevy_list_active_watches";
pub const TOOL_BRP_SET_DEBUG_MODE: &'static str = "set_debug_mode";
pub const TOOL_LIST_BEVY_APPS: &'static str = "list_bevy_apps";
pub const TOOL_LIST_BEVY_EXAMPLES: &'static str = "list_bevy_examples";
pub const TOOL_LIST_BRP_APPS: &'static str = "list_brp_apps";
pub const TOOL_LAUNCH_BEVY_APP: &'static str = "launch_bevy_app";
pub const TOOL_LAUNCH_BEVY_EXAMPLE: &'static str = "launch_bevy_example";
pub const TOOL_LIST_LOGS: &'static str = "list_logs";
pub const TOOL_READ_LOG: &'static str = "read_log";
pub const TOOL_CLEANUP_LOGS: &'static str = "cleanup_logs";

// Member and parameter names.
pub const JSON_FIELD_ENTITY: &'static str = "entity";
pub const JSON_FIELD_COMPONENT: &'static str = "component";
pub const JSON_FIELD_COMPONENTS: &'static str = "components";
pub const JSON_FIELD_COUNT: &'static str = "count";
pub const JSON_FIELD_DESTROYED_ENTITY: &'static str = "destroyed_entity";
pub const JSON_FIELD_PATH: &'static str = "path";
pub const JSON_FIELD_RESOURCE: &'static str = "resource";
pub const JSON_FIELD_RESOURCES: &'static str = "resources";
pub const JSON_FIELD_VALUE: &'static str = "value";
pub const PARAM_COMPONENT_COUNT: &'static str = "component_count";
pub const PARAM_DATA: &'static str = "data";
pub const PARAM_ENTITIES: &'static str = "entities";
pub const PARAM_ENTITY_COUNT: &'static str = "entity_count";
pub const PARAM_FILTER: &'static str = "filter";
pub const PARAM_FORMATS: &'static str = "formats";
pub const PARAM_METHOD: &'static str = "method";
pub const PARAM_PARAMS: &'static str = "params";
pub const PARAM_PARENT: &'static str = "parent";
pub const PARAM_QUERY_PARAMS: &'static str = "query_params";
pub const PARAM_RESULT: &'static str = "result";
pub const PARAM_SPAWNED_ENTITY: &'static str = "spawned_entity";
pub const PARAM_STRICT: &'static str = "strict";
pub const PARAM_TYPES: &'static str = "types";
pub const PARAM_WITH_CRATES: &'static str = "with_crates";
pub const PARAM_WITH_TYPES: &'static str = "with_types";
pub const PARAM_WITHOUT_CRATES: &'static str = "without_crates";
pub const PARAM_WITHOUT_TYPES: &'static str = "without_types";
pub const PARAM_PORT: &'static str = "port";
pub const PARAM_APP_NAME: &'static str = "app_name";
pub const PARAM_EXAMPLE_NAME: &'static str = "example_name";
pub const PARAM_PROFILE: &'static str = "profile";
pub const FILE_PATH: &'static str = "path";

// Tool descriptions.
pub const DESC_BEVY_LIST: &'static str = "List the components registered in a running Bevy app, or those of one entity, with the bevy/list BRP method.";
pub const DESC_BEVY_GET: &'static str = "Get the data of components of an entity with the bevy/get BRP method.";
pub const DESC_BEVY_DESTROY: &'static str = "Destroy an entity and all its components with the bevy/destroy BRP method.";
pub const DESC_BEVY_INSERT: &'static str = "Insert components into an entity with the bevy/insert BRP method; existing components of the same types are replaced.";
pub const DESC_BEVY_REMOVE: &'static str = "Remove components from an entity with the bevy/remove BRP method.";
pub const DESC_BEVY_LIST_RESOURCES: &'static str = "List the resources registered in a running Bevy app with the bevy/list_resources BRP method.";
pub const DESC_BEVY_GET_RESOURCE: &'static str = "Get the data of a resource with the bevy/get_resource BRP method.";
pub const DESC_BEVY_INSERT_RESOURCE: &'static str = "Insert or replace a resource with the bevy/insert_resource BRP method.";
pub const DESC_BEVY_REMOVE_RESOURCE: &'static str = "Remove a resource with the bevy/remove_resource BRP method.";
pub const DESC_BEVY_MUTATE_RESOURCE: &'static str = "Change one field of a resource, given by a path, with the bevy/mutate_resource BRP method.";
pub const DESC_BEVY_MUTATE_COMPONENT: &'static str = "Change one field of a component of an entity, given by a path, with the bevy/mutate_component BRP method.";
pub const DESC_BEVY_RPC_DISCOVER: &'static str = "List the BRP methods that a running Bevy app supports, with their descriptions, using rpc.discover.";
pub const DESC_BRP_EXTRAS_SHUTDOWN: &'static str = "Shut down a running Bevy app cleanly through the bevy_brp_extras plugin.";
pub const DESC_BRP_EXTRAS_SCREENSHOT: &'static str = "Capture a screenshot of the primary window of a running Bevy app and save it to a file, through the bevy_brp_extras plugin.";
pub const DESC_BRP_EXTRAS_DISCOVER_FORMAT: &'static str = "Get the exact JSON formats that spawn, insert and mutate calls expect for component types, through the bevy_brp_extras plugin.";
pub const DESC_BRP_GET_WATCH: &'static str = "Watch the components of an entity for changes; the updates are written to a log file.";
pub const DESC_BRP_LIST_WATCH: &'static str = "Watch the list of components of an entity for changes; the updates are written to a log file.";
pub const DESC_BRP_STOP_WATCH: &'static str = "Stop an active watch by its id.";
pub const DESC_BRP_LIST_ACTIVE_WATCHES: &'static str = "List the active watches.";
pub const DESC_SET_DEBUG_MODE: &'static str = "Turn debug mode on or off; in debug mode replies carry the debug information of format discovery.";
pub const DESC_LIST_BEVY_APPS: &'static str = "List the Bevy apps in the workspace, with their build state.";
pub const DESC_LIST_BEVY_EXAMPLES: &'static str = "List the Bevy examples in the workspace.";
pub const DESC_LIST_BRP_APPS: &'static str = "List the Bevy apps in the workspace that have the Bevy Remote Protocol enabled.";
pub const DESC_LAUNCH_BEVY_APP: &'static str = "Launch a Bevy app in the background, with its output written to a log file in the temporary directory.";
pub const DESC_LAUNCH_BEVY_EXAMPLE: &'static str = "Launch a Bevy example with cargo run --example in the background, with its output written to a log file in the temporary directory.";
pub const DESC_LIST_LOGS: &'static str = "List the log files that launched Bevy apps wrote in the temporary directory.";
pub const DESC_READ_LOG: &'static str = "Read a log file of a launched Bevy app, optionally only the lines with a keyword or the last lines.";
pub const DESC_CLEANUP_LOGS: &'static str = "Delete log files of launched Bevy apps, optionally only those of one app or those older than a given age.";
pub const DESC_BEVY_QUERY: &'static str = "Query entities using the bevy/query BRP method. This powerful tool allows you to search for entities based on their components, applying filters and returning component data. This tool wraps the bevy/query method for easier use.";
pub const DESC_BEVY_SPAWN: &'static str = "Spawn a new entity with components using the bevy/spawn BRP method. Creates a new entity in the Bevy world with the specified components.";
pub const DESC_BRP_EXECUTE: &'static str = "Execute any Bevy Remote Protocol (BRP) method on a running Bevy app. This tool allows you to send arbitrary BRP commands and receive responses.";
pub const DESC_BEVY_REGISTRY_SCHEMA: &'static str = "Get JSON schema information for registered types using the bevy/registry/schema BRP method. Retrieves type schema definitions from the Bevy app's reflection registry.";
pub const DESC_BEVY_REPARENT: &'static str = "Change the parent of an entity using the bevy/reparent BRP method. Modifies the hierarchical relationship between entities by setting or removing parent-child relationships.";

} // verus!
