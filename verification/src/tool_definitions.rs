//! Declarative descriptions of the server's tools: their parameters, how
//! their parameters are read, and how their replies are shaped.

use vstd::prelude::*;
use crate::tools::{BRP_METHOD_EXTRAS_SCREENSHOT, BRP_METHOD_GET, BRP_METHOD_GET_RESOURCE, BRP_METHOD_LIST, BRP_METHOD_LIST_RESOURCES, BRP_METHOD_QUERY, BRP_METHOD_REMOVE, BRP_METHOD_REMOVE_RESOURCE, BRP_METHOD_REPARENT, BRP_METHOD_RPC_DISCOVER, DESC_BEVY_DESTROY, DESC_BEVY_GET, DESC_BEVY_GET_RESOURCE, DESC_BEVY_INSERT, DESC_BEVY_INSERT_RESOURCE, DESC_BEVY_LIST, DESC_BEVY_LIST_RESOURCES, DESC_BEVY_MUTATE_COMPONENT, DESC_BEVY_MUTATE_RESOURCE, DESC_BEVY_QUERY, DESC_BEVY_REGISTRY_SCHEMA, DESC_BEVY_REMOVE, DESC_BEVY_REMOVE_RESOURCE, DESC_BEVY_REPARENT, DESC_BEVY_RPC_DISCOVER, DESC_BEVY_SPAWN, DESC_BRP_EXECUTE, DESC_BRP_EXTRAS_DISCOVER_FORMAT, DESC_BRP_EXTRAS_SCREENSHOT, DESC_CLEANUP_LOGS, DESC_LAUNCH_BEVY_APP, DESC_LAUNCH_BEVY_EXAMPLE, DESC_LIST_BEVY_APPS, DESC_LIST_BEVY_EXAMPLES, DESC_LIST_BRP_APPS, DESC_LIST_LOGS, DESC_PORT, DESC_READ_LOG, JSON_FIELD_COMPONENT, JSON_FIELD_COMPONENTS, JSON_FIELD_COUNT, JSON_FIELD_DESTROYED_ENTITY, JSON_FIELD_ENTITY, JSON_FIELD_PATH, JSON_FIELD_RESOURCE, JSON_FIELD_RESOURCES, JSON_FIELD_VALUE, PARAM_COMPONENT_COUNT, PARAM_DATA, PARAM_ENTITIES, PARAM_ENTITY_COUNT, PARAM_FILTER, PARAM_FORMATS, PARAM_METHOD, PARAM_PARAMS, PARAM_PARENT, PARAM_QUERY_PARAMS, PARAM_RESULT, PARAM_SPAWNED_ENTITY, PARAM_STRICT, PARAM_TYPES, PARAM_WITHOUT_CRATES, PARAM_WITHOUT_TYPES, PARAM_WITH_CRATES, PARAM_WITH_TYPES, TOOL_BEVY_DESTROY, TOOL_BEVY_GET, TOOL_BEVY_GET_RESOURCE, TOOL_BEVY_INSERT, TOOL_BEVY_INSERT_RESOURCE, TOOL_BEVY_LIST, TOOL_BEVY_LIST_RESOURCES, TOOL_BEVY_MUTATE_COMPONENT, TOOL_BEVY_MUTATE_RESOURCE, TOOL_BEVY_QUERY, TOOL_BEVY_REGISTRY_SCHEMA, TOOL_BEVY_REMOVE, TOOL_BEVY_REMOVE_RESOURCE, TOOL_BEVY_REPARENT, TOOL_BEVY_RPC_DISCOVER, TOOL_BEVY_SPAWN, TOOL_BRP_EXECUTE, TOOL_BRP_EXTRAS_DISCOVER_FORMAT, TOOL_BRP_EXTRAS_SCREENSHOT, TOOL_CLEANUP_LOGS, TOOL_LAUNCH_BEVY_APP, TOOL_LAUNCH_BEVY_EXAMPLE, TOOL_LIST_BEVY_APPS, TOOL_LIST_BEVY_EXAMPLES, TOOL_LIST_BRP_APPS, TOOL_LIST_LOGS, TOOL_READ_LOG};
use crate::response::{JSON_FIELD_DATA, JSON_FIELD_METADATA, JSON_FIELD_PORT};
use crate::discovery::{BRP_METHOD_INSERT, BRP_METHOD_INSERT_RESOURCE, BRP_METHOD_MUTATE_COMPONENT, BRP_METHOD_MUTATE_RESOURCE, BRP_METHOD_SPAWN};
use crate::engine::{BRP_METHOD_DESTROY, BRP_METHOD_EXTRAS_DISCOVER_FORMAT, BRP_METHOD_REGISTRY_SCHEMA};

verus! {

/// A parameter of a tool.
pub struct ParamDef {
    /// Parameter name as it appears in the API.
    pub name: &'static str,
    /// Description of the parameter.
    pub description: &'static str,
    /// Whether this parameter is required.
    pub required: bool,
    /// Type of the parameter.
    pub param_type: ParamType,
}

/// Types of parameters that can be defined.
#[derive(Clone, Copy, PartialEq, Eq, Structural)]
pub enum ParamType {
    /// A numeric parameter (typically entity IDs or ports).
    Number,
    /// A string parameter.
    String,
    /// A boolean parameter.
    Boolean,
    /// An array of strings.
    StringArray,
    /// Any JSON value (object, array, etc.).
    Any,
}

/// How the reply of a tool is formatted.
pub struct FormatterDef {
    /// Type of formatter to use.
    pub formatter_type: FormatterType,
    /// Template for success messages.
    pub template: &'static str,
    /// Fields to include in the response.
    pub response_fields: Vec<ResponseField>,
}

impl FormatterDef {
    /// The formatter of local tools that need no special formatting: simple,
    /// with an empty template and no response fields.
    pub fn default() -> (r: FormatterDef)
        ensures
            r.formatter_type is Simple,
            r.template@ == ""@,
            r.response_fields@.len() == 0,
            r@ == (FormatterView { formatter_type: FormatterTypeView::Simple, template: ""@, response_fields: Seq::empty() }),
    {
        let r = FormatterDef { formatter_type: FormatterType::Simple, template: "", response_fields: Vec::new() };
        proof {
            assert(r@.response_fields =~= Seq::<ResponseFieldView>::empty());
        }
        r
    }
}

/// Types of formatters available.
#[derive(Clone, Copy)]
pub enum FormatterType {
    /// Entity operation formatter.
    EntityOperation(&'static str),
    /// Resource operation formatter.
    ResourceOperation,
    /// Simple formatter (no special formatting).
    Simple,
}

/// A field to include in the response.
pub struct ResponseField {
    /// Name of the field in the response.
    pub name: &'static str,
    /// Type of extractor to use.
    pub extractor: ExtractorType,
}

/// Types of extractors for response fields.
#[derive(Clone, Copy)]
pub enum ExtractorType {
    /// Extract entity from params.
    EntityFromParams,
    /// Extract resource from params.
    ResourceFromParams,
    /// Pass through data from BRP response.
    PassThroughData,
    /// Pass through entire result.
    PassThroughResult,
    /// Extract entity count from data.
    EntityCountFromData,
    /// Extract component count from data.
    ComponentCountFromData,
    /// Extract entity from response data (for spawn operation).
    EntityFromResponse,
    /// Extract total component count from nested query results.
    QueryComponentCount,
    /// Extract query parameters from request context.
    QueryParamsFromContext,
    /// Extract specific parameter from request context.
    ParamFromContext(&'static str),
}

/// Type of parameter extractor to use.
#[derive(Clone, Copy, PartialEq, Eq, Structural)]
pub enum ParamExtractorType {
    /// Pass through all parameters.
    Passthrough,
    /// Extract entity parameter.
    Entity { required: bool },
    /// Extract resource parameter.
    Resource,
    /// Extract empty params.
    EmptyParams,
    /// Custom extractor for BRP execute (dynamic method).
    BrpExecute,
    /// Custom extractor for registry schema (parameter transformation).
    RegistrySchema,
}

/// Type of handler for the tool.
#[derive(Clone, Copy)]
pub enum HandlerType {
    /// Calls a BRP method.
    Brp { method: &'static str },
    /// Executes local logic.
    Local { handler: &'static str },
}

/// Complete definition of a tool.
pub struct BrpToolDef {
    /// Tool name.
    pub name: &'static str,
    /// Tool description.
    pub description: &'static str,
    /// Handler type (BRP or Local).
    pub handler: HandlerType,
    /// Parameters for the tool.
    pub params: Vec<ParamDef>,
    /// Parameter extractor type.
    pub param_extractor: ParamExtractorType,
    /// Response formatter definition.
    pub formatter: FormatterDef,
}

/// A parameter as a mathematical value.
pub struct ParamView {
    pub name: Seq<char>,
    pub description: Seq<char>,
    pub required: bool,
    pub param_type: ParamType,
}

/// What a tool runs, as a mathematical value.
pub enum HandlerView {
    Brp { method: Seq<char> },
    Local { handler: Seq<char> },
}

/// A formatter type as a mathematical value.
pub enum FormatterTypeView {
    EntityOperation(Seq<char>),
    ResourceOperation,
    Simple,
}

/// A response field extractor as a mathematical value.
pub enum ExtractorView {
    EntityFromParams,
    ResourceFromParams,
    PassThroughData,
    PassThroughResult,
    EntityCountFromData,
    ComponentCountFromData,
    EntityFromResponse,
    QueryComponentCount,
    QueryParamsFromContext,
    ParamFromContext(Seq<char>),
}

/// A response field as a mathematical value.
pub struct ResponseFieldView {
    pub name: Seq<char>,
    pub extractor: ExtractorView,
}

/// A formatter as a mathematical value.
pub struct FormatterView {
    pub formatter_type: FormatterTypeView,
    pub template: Seq<char>,
    pub response_fields: Seq<ResponseFieldView>,
}

/// A tool definition as a mathematical value: every field of it.
pub struct ToolView {
    pub name: Seq<char>,
    pub description: Seq<char>,
    pub handler: HandlerView,
    pub params: Seq<ParamView>,
    pub param_extractor: ParamExtractorType,
    pub formatter: FormatterView,
}

impl View for ParamDef {
    type V = ParamView;

    open spec fn view(&self) -> ParamView {
        ParamView { name: self.name@, description: self.description@, required: self.required, param_type: self.param_type }
    }
}

impl View for HandlerType {
    type V = HandlerView;

    open spec fn view(&self) -> HandlerView {
        match *self {
            HandlerType::Brp { method } => HandlerView::Brp { method: method@ },
            HandlerType::Local { handler } => HandlerView::Local { handler: handler@ },
        }
    }
}

impl View for FormatterType {
    type V = FormatterTypeView;

    open spec fn view(&self) -> FormatterTypeView {
        match *self {
            FormatterType::EntityOperation(f) => FormatterTypeView::EntityOperation(f@),
            FormatterType::ResourceOperation => FormatterTypeView::ResourceOperation,
            FormatterType::Simple => FormatterTypeView::Simple,
        }
    }
}

impl View for ExtractorType {
    type V = ExtractorView;

    open spec fn view(&self) -> ExtractorView {
        match *self {
            ExtractorType::EntityFromParams => ExtractorView::EntityFromParams,
            ExtractorType::ResourceFromParams => ExtractorView::ResourceFromParams,
            ExtractorType::PassThroughData => ExtractorView::PassThroughData,
            ExtractorType::PassThroughResult => ExtractorView::PassThroughResult,
            ExtractorType::EntityCountFromData => ExtractorView::EntityCountFromData,
            ExtractorType::ComponentCountFromData => ExtractorView::ComponentCountFromData,
            ExtractorType::EntityFromResponse => ExtractorView::EntityFromResponse,
            ExtractorType::QueryComponentCount => ExtractorView::QueryComponentCount,
            ExtractorType::QueryParamsFromContext => ExtractorView::QueryParamsFromContext,
            ExtractorType::ParamFromContext(k) => ExtractorView::ParamFromContext(k@),
        }
    }
}

impl View for ResponseField {
    type V = ResponseFieldView;

    open spec fn view(&self) -> ResponseFieldView {
        ResponseFieldView { name: self.name@, extractor: self.extractor@ }
    }
}

impl View for FormatterDef {
    type V = FormatterView;

    open spec fn view(&self) -> FormatterView {
        FormatterView {
            formatter_type: self.formatter_type@,
            template: self.template@,
            response_fields: self.response_fields@.map_values(|f: ResponseField| f@),
        }
    }
}

impl View for BrpToolDef {
    type V = ToolView;

    open spec fn view(&self) -> ToolView {
        ToolView {
            name: self.name@,
            description: self.description@,
            handler: self.handler@,
            params: self.params@.map_values(|p: ParamDef| p@),
            param_extractor: self.param_extractor,
            formatter: self.formatter@,
        }
    }
}

/// Some tool definitions as mathematical values, in order.
pub open spec fn tool_views(s: Seq<BrpToolDef>) -> Seq<ToolView> {
    s.map_values(|t: BrpToolDef| t@)
}

/// The pagination parameters of tool definitions: one optional `page` number.
pub fn create_pagination_params() -> (r: Vec<ParamDef>)
    ensures
        r@.len() == 1,
        r@[0].name@ == "page"@,
        r@[0].description@ == "Page number for pagination (0-based, default: 0)"@,
        !r@[0].required,
        r@[0].param_type == ParamType::Number,
{
    let mut v: Vec<ParamDef> = Vec::new();
    v.push(ParamDef {
        name: "page",
        description: "Page number for pagination (0-based, default: 0)",
        required: false,
        param_type: ParamType::Number,
    });
    v
}


/// The names of some tools, in order.
pub open spec fn tool_names(s: Seq<BrpToolDef>) -> Seq<Seq<char>> {
    Seq::new(s.len(), |i: int| s[i].name@)
}

/// What a handler runs: whether it is a BRP method, and the method's or the
/// local handler's name.
pub open spec fn handler_data(h: HandlerType) -> (bool, Seq<char>) {
    match h {
        HandlerType::Brp { method } => (true, method@),
        HandlerType::Local { handler } => (false, handler@),
    }
}

/// What some tools run, in order.
pub open spec fn tool_handlers(s: Seq<BrpToolDef>) -> Seq<(bool, Seq<char>)> {
    Seq::new(s.len(), |i: int| handler_data(s[i].handler))
}

/// How some tools read their parameters, in order.
pub open spec fn tool_extractors(s: Seq<BrpToolDef>) -> Seq<ParamExtractorType> {
    Seq::new(s.len(), |i: int| s[i].param_extractor)
}

/// The success templates of some tools, in order.
pub open spec fn tool_templates(s: Seq<BrpToolDef>) -> Seq<Seq<char>> {
    Seq::new(s.len(), |i: int| s[i].formatter.template@)
}

/// Whether a tool's last parameter is the optional numeric BRP port.
pub open spec fn ends_with_port(t: BrpToolDef) -> bool {
    &&& t.params@.len() > 0
    &&& t.params@.last().name@ == JSON_FIELD_PORT@
    &&& t.params@.last().description@ == DESC_PORT@
    &&& !t.params@.last().required
    &&& t.params@.last().param_type == ParamType::Number
}

/// The names of the standard tools, in order.
pub open spec fn standard_tool_names() -> Seq<Seq<char>> {
    seq![
        TOOL_BEVY_DESTROY@,
        TOOL_BEVY_GET@,
        TOOL_BEVY_LIST@,
        TOOL_BEVY_REMOVE@,
        TOOL_BEVY_INSERT@,
        TOOL_BEVY_GET_RESOURCE@,
        TOOL_BEVY_INSERT_RESOURCE@,
        TOOL_BEVY_REMOVE_RESOURCE@,
        TOOL_BEVY_MUTATE_COMPONENT@,
        TOOL_BEVY_MUTATE_RESOURCE@,
        TOOL_BEVY_LIST_RESOURCES@,
        TOOL_BEVY_RPC_DISCOVER@,
        TOOL_BRP_EXTRAS_DISCOVER_FORMAT@,
        TOOL_BRP_EXTRAS_SCREENSHOT@
    ]
}

/// The handlers of the standard tools, in order.
pub open spec fn standard_tool_handlers() -> Seq<(bool, Seq<char>)> {
    seq![
        (true, BRP_METHOD_DESTROY@),
        (true, BRP_METHOD_GET@),
        (true, BRP_METHOD_LIST@),
        (true, BRP_METHOD_REMOVE@),
        (true, BRP_METHOD_INSERT@),
        (true, BRP_METHOD_GET_RESOURCE@),
        (true, BRP_METHOD_INSERT_RESOURCE@),
        (true, BRP_METHOD_REMOVE_RESOURCE@),
        (true, BRP_METHOD_MUTATE_COMPONENT@),
        (true, BRP_METHOD_MUTATE_RESOURCE@),
        (true, BRP_METHOD_LIST_RESOURCES@),
        (true, BRP_METHOD_RPC_DISCOVER@),
        (true, BRP_METHOD_EXTRAS_DISCOVER_FORMAT@),
        (true, BRP_METHOD_EXTRAS_SCREENSHOT@)
    ]
}

/// The names of the special tools, in order.
pub open spec fn special_tool_names() -> Seq<Seq<char>> {
    seq![
        TOOL_BEVY_QUERY@,
        TOOL_BEVY_SPAWN@,
        TOOL_BRP_EXECUTE@,
        TOOL_BEVY_REGISTRY_SCHEMA@,
        TOOL_BEVY_REPARENT@
    ]
}

/// The handlers of the special tools, in order.
pub open spec fn special_tool_handlers() -> Seq<(bool, Seq<char>)> {
    seq![
        (true, BRP_METHOD_QUERY@),
        (true, BRP_METHOD_SPAWN@),
        (true, ""@),
        (true, BRP_METHOD_REGISTRY_SCHEMA@),
        (true, BRP_METHOD_REPARENT@)
    ]
}

/// The names of the log tools, in order.
pub open spec fn log_tool_names() -> Seq<Seq<char>> {
    seq![
        TOOL_LIST_LOGS@,
        TOOL_READ_LOG@,
        TOOL_CLEANUP_LOGS@
    ]
}

/// The handlers of the log tools, in order.
pub open spec fn log_tool_handlers() -> Seq<(bool, Seq<char>)> {
    seq![
        (false, "list_logs"@),
        (false, "read_log"@),
        (false, "cleanup_logs"@)
    ]
}

/// The names of the app tools, in order.
pub open spec fn app_tool_names() -> Seq<Seq<char>> {
    seq![
        TOOL_LIST_BEVY_APPS@,
        TOOL_LIST_BRP_APPS@,
        TOOL_LIST_BEVY_EXAMPLES@,
        TOOL_LAUNCH_BEVY_APP@,
        TOOL_LAUNCH_BEVY_EXAMPLE@
    ]
}

/// The handlers of the app tools, in order.
pub open spec fn app_tool_handlers() -> Seq<(bool, Seq<char>)> {
    seq![
        (false, "list_bevy_apps"@),
        (false, "list_brp_apps"@),
        (false, "list_bevy_examples"@),
        (false, "launch_bevy_app"@),
        (false, "launch_bevy_example"@)
    ]
}

/// The standard tools as mathematical values, in order.
pub open spec fn standard_tool_views() -> Seq<ToolView> {
    seq![
        ToolView {
            name:            TOOL_BEVY_DESTROY@,
            description:     DESC_BEVY_DESTROY@,
            handler:         HandlerView::Brp {
                method: BRP_METHOD_DESTROY@,
            },
            params:          seq![
                ParamView {
                    name:        JSON_FIELD_ENTITY@,
                    description: "The entity ID to destroy"@,
                    required:    true,
                    param_type:  ParamType::Number,
                },
                ParamView {
                    name:        JSON_FIELD_PORT@,
                    description: DESC_PORT@,
                    required:    false,
                    param_type:  ParamType::Number,
                }
            ],
            param_extractor: ParamExtractorType::Entity { required: true },
            formatter:       FormatterView {
                formatter_type:  FormatterTypeView::EntityOperation(JSON_FIELD_DESTROYED_ENTITY@),
                template:        "Successfully destroyed entity {entity}"@,
                response_fields: seq![ResponseFieldView {
                    name:      JSON_FIELD_DESTROYED_ENTITY@,
                    extractor: ExtractorView::EntityFromParams,
                }],
            },
        },
        ToolView {
            name:            TOOL_BEVY_GET@,
            description:     DESC_BEVY_GET@,
            handler:         HandlerView::Brp {
                method: BRP_METHOD_GET@,
            },
            params:          seq![
                ParamView {
                    name:        JSON_FIELD_ENTITY@,
                    description: "The entity ID to get component data from"@,
                    required:    true,
                    param_type:  ParamType::Number,
                },
                ParamView {
                    name:        JSON_FIELD_COMPONENTS@,
                    description: "Array of component types to retrieve. Each component must be a fully-qualified type name"@,
                    required:    true,
                    param_type:  ParamType::Any,
                },
                ParamView {
                    name:        JSON_FIELD_PORT@,
                    description: DESC_PORT@,
                    required:    false,
                    param_type:  ParamType::Number,
                }
            ],
            param_extractor: ParamExtractorType::Passthrough,
            formatter:       FormatterView {
                formatter_type:  FormatterTypeView::EntityOperation(JSON_FIELD_ENTITY@),
                template:        "Retrieved component data from entity {entity}"@,
                response_fields: seq![
                    ResponseFieldView {
                        name:      JSON_FIELD_ENTITY@,
                        extractor: ExtractorView::EntityFromParams,
                    },
                    ResponseFieldView {
                        name:      JSON_FIELD_COMPONENTS@,
                        extractor: ExtractorView::PassThroughData,
                    }
                ],
            },
        },
        ToolView {
            name:            TOOL_BEVY_LIST@,
            description:     DESC_BEVY_LIST@,
            handler:         HandlerView::Brp {
                method: BRP_METHOD_LIST@,
            },
            params:          seq![
                ParamView {
                    name:        JSON_FIELD_ENTITY@,
                    description: "Optional entity ID to list components for"@,
                    required:    false,
                    param_type:  ParamType::Number,
                },
                ParamView {
                    name:        JSON_FIELD_PORT@,
                    description: DESC_PORT@,
                    required:    false,
                    param_type:  ParamType::Number,
                }
            ],
            param_extractor: ParamExtractorType::Entity { required: false },
            formatter:       FormatterView {
                formatter_type:  FormatterTypeView::Simple,
                template:        "Listed {count} components"@,
                response_fields: seq![
                    ResponseFieldView {
                        name:      JSON_FIELD_COMPONENTS@,
                        extractor: ExtractorView::PassThroughData,
                    },
                    ResponseFieldView {
                        name:      JSON_FIELD_COUNT@,
                        extractor: ExtractorView::ComponentCountFromData,
                    }
                ],
            },
        },
        ToolView {
            name:            TOOL_BEVY_REMOVE@,
            description:     DESC_BEVY_REMOVE@,
            handler:         HandlerView::Brp {
                method: BRP_METHOD_REMOVE@,
            },
            params:          seq![
                ParamView {
                    name:        JSON_FIELD_ENTITY@,
                    description: "The entity ID to remove components from"@,
                    required:    true,
                    param_type:  ParamType::Number,
                },
                ParamView {
                    name:        JSON_FIELD_COMPONENTS@,
                    description: "Array of component type names to remove"@,
                    required:    true,
                    param_type:  ParamType::Any,
                },
                ParamView {
                    name:        JSON_FIELD_PORT@,
                    description: DESC_PORT@,
                    required:    false,
                    param_type:  ParamType::Number,
                }
            ],
            param_extractor: ParamExtractorType::Passthrough,
            formatter:       FormatterView {
                formatter_type:  FormatterTypeView::EntityOperation(JSON_FIELD_ENTITY@),
                template:        "Successfully removed components from entity {entity}"@,
                response_fields: seq![ResponseFieldView {
                    name:      JSON_FIELD_ENTITY@,
                    extractor: ExtractorView::EntityFromParams,
                }],
            },
        },
        ToolView {
            name:            TOOL_BEVY_INSERT@,
            description:     DESC_BEVY_INSERT@,
            handler:         HandlerView::Brp {
                method: BRP_METHOD_INSERT@,
            },
            params:          seq![
                ParamView {
                    name:        JSON_FIELD_ENTITY@,
                    description: "The entity ID to insert components into"@,
                    required:    true,
                    param_type:  ParamType::Number,
                },
                ParamView {
                    name:        JSON_FIELD_COMPONENTS@,
                    description: "Object containing component data to insert. Keys are component types, values are component data. Note: Math types use array format - Vec2: [x,y], Vec3: [x,y,z], Vec4/Quat: [x,y,z,w], not objects with named fields."@,
                    required:    true,
                    param_type:  ParamType::Any,
                },
                ParamView {
                    name:        JSON_FIELD_PORT@,
                    description: DESC_PORT@,
                    required:    false,
                    param_type:  ParamType::Number,
                }
            ],
            param_extractor: ParamExtractorType::Passthrough,
            formatter:       FormatterView {
                formatter_type:  FormatterTypeView::EntityOperation(JSON_FIELD_ENTITY@),
                template:        "Successfully inserted components into entity {entity}"@,
                response_fields: seq![ResponseFieldView {
                    name:      JSON_FIELD_ENTITY@,
                    extractor: ExtractorView::EntityFromParams,
                }],
            },
        },
        ToolView {
            name:            TOOL_BEVY_GET_RESOURCE@,
            description:     DESC_BEVY_GET_RESOURCE@,
            handler:         HandlerView::Brp {
                method: BRP_METHOD_GET_RESOURCE@,
            },
            params:          seq![
                ParamView {
                    name:        JSON_FIELD_RESOURCE@,
                    description: "The fully-qualified type name of the resource to get"@,
                    required:    true,
                    param_type:  ParamType::String,
                },
                ParamView {
                    name:        JSON_FIELD_PORT@,
                    description: DESC_PORT@,
                    required:    false,
                    param_type:  ParamType::Number,
                }
            ],
            param_extractor: ParamExtractorType::Resource,
            formatter:       FormatterView {
                formatter_type:  FormatterTypeView::ResourceOperation,
                template:        "Retrieved resource: {resource}"@,
                response_fields: seq![
                    ResponseFieldView {
                        name:      JSON_FIELD_RESOURCE@,
                        extractor: ExtractorView::ResourceFromParams,
                    },
                    ResponseFieldView {
                        name:      JSON_FIELD_DATA@,
                        extractor: ExtractorView::PassThroughData,
                    }
                ],
            },
        },
        ToolView {
            name:            TOOL_BEVY_INSERT_RESOURCE@,
            description:     DESC_BEVY_INSERT_RESOURCE@,
            handler:         HandlerView::Brp {
                method: BRP_METHOD_INSERT_RESOURCE@,
            },
            params:          seq![
                ParamView {
                    name:        JSON_FIELD_RESOURCE@,
                    description: "The fully-qualified type name of the resource to insert or update"@,
                    required:    true,
                    param_type:  ParamType::String,
                },
                ParamView {
                    name:        JSON_FIELD_VALUE@,
                    description: "The resource value to insert. Note: Math types use array format - Vec2: [x,y], Vec3: [x,y,z], Vec4/Quat: [x,y,z,w], not objects with named fields."@,
                    required:    true,
                    param_type:  ParamType::Any,
                },
                ParamView {
                    name:        JSON_FIELD_PORT@,
                    description: DESC_PORT@,
                    required:    false,
                    param_type:  ParamType::Number,
                }
            ],
            param_extractor: ParamExtractorType::Passthrough,
            formatter:       FormatterView {
                formatter_type:  FormatterTypeView::ResourceOperation,
                template:        "Successfully inserted/updated resource: {resource}"@,
                response_fields: seq![ResponseFieldView {
                    name:      JSON_FIELD_RESOURCE@,
                    extractor: ExtractorView::ResourceFromParams,
                }],
            },
        },
        ToolView {
            name:            TOOL_BEVY_REMOVE_RESOURCE@,
            description:     DESC_BEVY_REMOVE_RESOURCE@,
            handler:         HandlerView::Brp {
                method: BRP_METHOD_REMOVE_RESOURCE@,
            },
            params:          seq![
                ParamView {
                    name:        JSON_FIELD_RESOURCE@,
                    description: "The fully-qualified type name of the resource to remove"@,
                    required:    true,
                    param_type:  ParamType::String,
                },
                ParamView {
                    name:        JSON_FIELD_PORT@,
                    description: DESC_PORT@,
                    required:    false,
                    param_type:  ParamType::Number,
                }
            ],
            param_extractor: ParamExtractorType::Resource,
            formatter:       FormatterView {
                formatter_type:  FormatterTypeView::ResourceOperation,
                template:        "Successfully removed resource: {resource}"@,
                response_fields: seq![ResponseFieldView {
                    name:      JSON_FIELD_RESOURCE@,
                    extractor: ExtractorView::ResourceFromParams,
                }],
            },
        },
        ToolView {
            name:            TOOL_BEVY_MUTATE_COMPONENT@,
            description:     DESC_BEVY_MUTATE_COMPONENT@,
            handler:         HandlerView::Brp {
                method: BRP_METHOD_MUTATE_COMPONENT@,
            },
            params:          seq![
                ParamView {
                    name:        JSON_FIELD_ENTITY@,
                    description: "The entity ID containing the component to mutate"@,
                    required:    true,
                    param_type:  ParamType::Number,
                },
                ParamView {
                    name:        JSON_FIELD_COMPONENT@,
                    description: "The fully-qualified type name of the component to mutate"@,
                    required:    true,
                    param_type:  ParamType::String,
                },
                ParamView {
                    name:        JSON_FIELD_PATH@,
                    description: "The path to the field within the component (e.g., 'translation.x')"@,
                    required:    true,
                    param_type:  ParamType::String,
                },
                ParamView {
                    name:        JSON_FIELD_VALUE@,
                    description: "The new value for the field. Note: Math types use array format - Vec2: [x,y], Vec3: [x,y,z], Vec4/Quat: [x,y,z,w], not objects with named fields."@,
                    required:    true,
                    param_type:  ParamType::Any,
                },
                ParamView {
                    name:        JSON_FIELD_PORT@,
                    description: DESC_PORT@,
                    required:    false,
                    param_type:  ParamType::Number,
                }
            ],
            param_extractor: ParamExtractorType::Passthrough,
            formatter:       FormatterView {
                formatter_type:  FormatterTypeView::EntityOperation(JSON_FIELD_ENTITY@),
                template:        "Successfully mutated component on entity {entity}"@,
                response_fields: seq![ResponseFieldView {
                    name:      JSON_FIELD_ENTITY@,
                    extractor: ExtractorView::EntityFromParams,
                }],
            },
        },
        ToolView {
            name:            TOOL_BEVY_MUTATE_RESOURCE@,
            description:     DESC_BEVY_MUTATE_RESOURCE@,
            handler:         HandlerView::Brp {
                method: BRP_METHOD_MUTATE_RESOURCE@,
            },
            params:          seq![
                ParamView {
                    name:        JSON_FIELD_RESOURCE@,
                    description: "The fully-qualified type name of the resource to mutate"@,
                    required:    true,
                    param_type:  ParamType::String,
                },
                ParamView {
                    name:        JSON_FIELD_PATH@,
                    description: "The path to the field within the resource (e.g., 'settings.volume')"@,
                    required:    true,
                    param_type:  ParamType::String,
                },
                ParamView {
                    name:        JSON_FIELD_VALUE@,
                    description: "The new value for the field. Note: Math types use array format - Vec2: [x,y], Vec3: [x,y,z], Vec4/Quat: [x,y,z,w], not objects with named fields."@,
                    required:    true,
                    param_type:  ParamType::Any,
                },
                ParamView {
                    name:        JSON_FIELD_PORT@,
                    description: DESC_PORT@,
                    required:    false,
                    param_type:  ParamType::Number,
                }
            ],
            param_extractor: ParamExtractorType::Passthrough,
            formatter:       FormatterView {
                formatter_type:  FormatterTypeView::ResourceOperation,
                template:        "Successfully mutated resource: {resource}"@,
                response_fields: seq![ResponseFieldView {
                    name:      JSON_FIELD_RESOURCE@,
                    extractor: ExtractorView::ResourceFromParams,
                }],
            },
        },
        ToolView {
            name:            TOOL_BEVY_LIST_RESOURCES@,
            description:     DESC_BEVY_LIST_RESOURCES@,
            handler:         HandlerView::Brp {
                method: BRP_METHOD_LIST_RESOURCES@,
            },
            params:          seq![ParamView {
                name:        JSON_FIELD_PORT@,
                description: DESC_PORT@,
                required:    false,
                param_type:  ParamType::Number,
            }],
            param_extractor: ParamExtractorType::EmptyParams,
            formatter:       FormatterView {
                formatter_type:  FormatterTypeView::Simple,
                template:        "Listed {count} resources"@,
                response_fields: seq![
                    ResponseFieldView {
                        name:      JSON_FIELD_RESOURCES@,
                        extractor: ExtractorView::PassThroughData,
                    },
                    ResponseFieldView {
                        name:      JSON_FIELD_COUNT@,
                        extractor: ExtractorView::ComponentCountFromData,
                    }
                ],
            },
        },
        ToolView {
            name:            TOOL_BEVY_RPC_DISCOVER@,
            description:     DESC_BEVY_RPC_DISCOVER@,
            handler:         HandlerView::Brp {
                method: BRP_METHOD_RPC_DISCOVER@,
            },
            params:          seq![ParamView {
                name:        JSON_FIELD_PORT@,
                description: DESC_PORT@,
                required:    false,
                param_type:  ParamType::Number,
            }],
            param_extractor: ParamExtractorType::EmptyParams,
            formatter:       FormatterView {
                formatter_type:  FormatterTypeView::Simple,
                template:        "Retrieved BRP method discovery information"@,
                response_fields: seq![ResponseFieldView {
                    name:      JSON_FIELD_METADATA@,
                    extractor: ExtractorView::PassThroughResult,
                }],
            },
        },
        ToolView {
            name:            TOOL_BRP_EXTRAS_DISCOVER_FORMAT@,
            description:     DESC_BRP_EXTRAS_DISCOVER_FORMAT@,
            handler:         HandlerView::Brp {
                method: BRP_METHOD_EXTRAS_DISCOVER_FORMAT@,
            },
            params:          seq![
                ParamView {
                    name:        PARAM_TYPES@,
                    description: "Array of fully-qualified component type names to discover formats for"@,
                    required:    true,
                    param_type:  ParamType::StringArray,
                },
                ParamView {
                    name:        JSON_FIELD_PORT@,
                    description: DESC_PORT@,
                    required:    false,
                    param_type:  ParamType::Number,
                }
            ],
            param_extractor: ParamExtractorType::Passthrough,
            formatter:       FormatterView {
                formatter_type:  FormatterTypeView::Simple,
                template:        "Format discovery completed"@,
                response_fields: seq![ResponseFieldView {
                    name:      PARAM_FORMATS@,
                    extractor: ExtractorView::PassThroughData,
                }],
            },
        },
        ToolView {
            name:            TOOL_BRP_EXTRAS_SCREENSHOT@,
            description:     DESC_BRP_EXTRAS_SCREENSHOT@,
            handler:         HandlerView::Brp {
                method: BRP_METHOD_EXTRAS_SCREENSHOT@,
            },
            params:          seq![
                ParamView {
                    name:        JSON_FIELD_PATH@,
                    description: "File path where the screenshot should be saved"@,
                    required:    true,
                    param_type:  ParamType::String,
                },
                ParamView {
                    name:        JSON_FIELD_PORT@,
                    description: DESC_PORT@,
                    required:    false,
                    param_type:  ParamType::Number,
                }
            ],
            param_extractor: ParamExtractorType::Passthrough,
            formatter:       FormatterView {
                formatter_type:  FormatterTypeView::Simple,
                template:        "Successfully captured screenshot and saved to {path}"@,
                response_fields: seq![
                    ResponseFieldView {
                        name:      JSON_FIELD_PATH@,
                        extractor: ExtractorView::ParamFromContext(JSON_FIELD_PATH@),
                    },
                    ResponseFieldView {
                        name:      JSON_FIELD_PORT@,
                        extractor: ExtractorView::ParamFromContext(JSON_FIELD_PORT@),
                    }
                ],
            },
        },
    ]
}

/// The standard tools: plain operations on entities and resources, each
/// calling one BRP method with an optional port as its last parameter.
pub fn get_standard_tools() -> (r: Vec<BrpToolDef>)
    ensures
        tool_views(r@) == standard_tool_views(),
        tool_names(r@) == standard_tool_names(),
        tool_handlers(r@) == standard_tool_handlers(),
        tool_extractors(r@) == seq![
            ParamExtractorType::Entity { required: true },
            ParamExtractorType::Passthrough,
            ParamExtractorType::Entity { required: false },
            ParamExtractorType::Passthrough,
            ParamExtractorType::Passthrough,
            ParamExtractorType::Resource,
            ParamExtractorType::Passthrough,
            ParamExtractorType::Resource,
            ParamExtractorType::Passthrough,
            ParamExtractorType::Passthrough,
            ParamExtractorType::EmptyParams,
            ParamExtractorType::EmptyParams,
            ParamExtractorType::Passthrough,
            ParamExtractorType::Passthrough
        ],
        tool_templates(r@) == seq![
            "Successfully destroyed entity {entity}"@,
            "Retrieved component data from entity {entity}"@,
            "Listed {count} components"@,
            "Successfully removed components from entity {entity}"@,
            "Successfully inserted components into entity {entity}"@,
            "Retrieved resource: {resource}"@,
            "Successfully inserted/updated resource: {resource}"@,
            "Successfully removed resource: {resource}"@,
            "Successfully mutated component on entity {entity}"@,
            "Successfully mutated resource: {resource}"@,
            "Listed {count} resources"@,
            "Retrieved BRP method discovery information"@,
            "Format discovery completed"@,
            "Successfully captured screenshot and saved to {path}"@
        ],
        forall|i: int| 0 <= i < r@.len() ==> #[trigger] ends_with_port(r@[i]),
{
    let r = vec![
        BrpToolDef {
            name:            TOOL_BEVY_DESTROY,
            description:     DESC_BEVY_DESTROY,
            handler:         HandlerType::Brp {
                method: BRP_METHOD_DESTROY,
            },
            params:          vec![
                ParamDef {
                    name:        JSON_FIELD_ENTITY,
                    description: "The entity ID to destroy",
                    required:    true,
                    param_type:  ParamType::Number,
                },
                ParamDef {
                    name:        JSON_FIELD_PORT,
                    description: DESC_PORT,
                    required:    false,
                    param_type:  ParamType::Number,
                },
            ],
            param_extractor: ParamExtractorType::Entity { required: true },
            formatter:       FormatterDef {
                formatter_type:  FormatterType::EntityOperation(JSON_FIELD_DESTROYED_ENTITY),
                template:        "Successfully destroyed entity {entity}",
                response_fields: vec![ResponseField {
                    name:      JSON_FIELD_DESTROYED_ENTITY,
                    extractor: ExtractorType::EntityFromParams,
                }],
            },
        },
        BrpToolDef {
            name:            TOOL_BEVY_GET,
            description:     DESC_BEVY_GET,
            handler:         HandlerType::Brp {
                method: BRP_METHOD_GET,
            },
            params:          vec![
                ParamDef {
                    name:        JSON_FIELD_ENTITY,
                    description: "The entity ID to get component data from",
                    required:    true,
                    param_type:  ParamType::Number,
                },
                ParamDef {
                    name:        JSON_FIELD_COMPONENTS,
                    description: "Array of component types to retrieve. Each component must be a fully-qualified type name",
                    required:    true,
                    param_type:  ParamType::Any,
                },
                ParamDef {
                    name:        JSON_FIELD_PORT,
                    description: DESC_PORT,
                    required:    false,
                    param_type:  ParamType::Number,
                },
            ],
            param_extractor: ParamExtractorType::Passthrough,
            formatter:       FormatterDef {
                formatter_type:  FormatterType::EntityOperation(JSON_FIELD_ENTITY),
                template:        "Retrieved component data from entity {entity}",
                response_fields: vec![
                    ResponseField {
                        name:      JSON_FIELD_ENTITY,
                        extractor: ExtractorType::EntityFromParams,
                    },
                    ResponseField {
                        name:      JSON_FIELD_COMPONENTS,
                        extractor: ExtractorType::PassThroughData,
                    },
                ],
            },
        },
        BrpToolDef {
            name:            TOOL_BEVY_LIST,
            description:     DESC_BEVY_LIST,
            handler:         HandlerType::Brp {
                method: BRP_METHOD_LIST,
            },
            params:          vec![
                ParamDef {
                    name:        JSON_FIELD_ENTITY,
                    description: "Optional entity ID to list components for",
                    required:    false,
                    param_type:  ParamType::Number,
                },
                ParamDef {
                    name:        JSON_FIELD_PORT,
                    description: DESC_PORT,
                    required:    false,
                    param_type:  ParamType::Number,
                },
            ],
            param_extractor: ParamExtractorType::Entity { required: false },
            formatter:       FormatterDef {
                formatter_type:  FormatterType::Simple,
                template:        "Listed {count} components",
                response_fields: vec![
                    ResponseField {
                        name:      JSON_FIELD_COMPONENTS,
                        extractor: ExtractorType::PassThroughData,
                    },
                    ResponseField {
                        name:      JSON_FIELD_COUNT,
                        extractor: ExtractorType::ComponentCountFromData,
                    },
                ],
            },
        },
        BrpToolDef {
            name:            TOOL_BEVY_REMOVE,
            description:     DESC_BEVY_REMOVE,
            handler:         HandlerType::Brp {
                method: BRP_METHOD_REMOVE,
            },
            params:          vec![
                ParamDef {
                    name:        JSON_FIELD_ENTITY,
                    description: "The entity ID to remove components from",
                    required:    true,
                    param_type:  ParamType::Number,
                },
                ParamDef {
                    name:        JSON_FIELD_COMPONENTS,
                    description: "Array of component type names to remove",
                    required:    true,
                    param_type:  ParamType::Any,
                },
                ParamDef {
                    name:        JSON_FIELD_PORT,
                    description: DESC_PORT,
                    required:    false,
                    param_type:  ParamType::Number,
                },
            ],
            param_extractor: ParamExtractorType::Passthrough,
            formatter:       FormatterDef {
                formatter_type:  FormatterType::EntityOperation(JSON_FIELD_ENTITY),
                template:        "Successfully removed components from entity {entity}",
                response_fields: vec![ResponseField {
                    name:      JSON_FIELD_ENTITY,
                    extractor: ExtractorType::EntityFromParams,
                }],
            },
        },
        BrpToolDef {
            name:            TOOL_BEVY_INSERT,
            description:     DESC_BEVY_INSERT,
            handler:         HandlerType::Brp {
                method: BRP_METHOD_INSERT,
            },
            params:          vec![
                ParamDef {
                    name:        JSON_FIELD_ENTITY,
                    description: "The entity ID to insert components into",
                    required:    true,
                    param_type:  ParamType::Number,
                },
                ParamDef {
                    name:        JSON_FIELD_COMPONENTS,
                    description: "Object containing component data to insert. Keys are component types, values are component data. Note: Math types use array format - Vec2: [x,y], Vec3: [x,y,z], Vec4/Quat: [x,y,z,w], not objects with named fields.",
                    required:    true,
                    param_type:  ParamType::Any,
                },
                ParamDef {
                    name:        JSON_FIELD_PORT,
                    description: DESC_PORT,
                    required:    false,
                    param_type:  ParamType::Number,
                },
            ],
            param_extractor: ParamExtractorType::Passthrough,
            formatter:       FormatterDef {
                formatter_type:  FormatterType::EntityOperation(JSON_FIELD_ENTITY),
                template:        "Successfully inserted components into entity {entity}",
                response_fields: vec![ResponseField {
                    name:      JSON_FIELD_ENTITY,
                    extractor: ExtractorType::EntityFromParams,
                }],
            },
        },
        BrpToolDef {
            name:            TOOL_BEVY_GET_RESOURCE,
            description:     DESC_BEVY_GET_RESOURCE,
            handler:         HandlerType::Brp {
                method: BRP_METHOD_GET_RESOURCE,
            },
            params:          vec![
                ParamDef {
                    name:        JSON_FIELD_RESOURCE,
                    description: "The fully-qualified type name of the resource to get",
                    required:    true,
                    param_type:  ParamType::String,
                },
                ParamDef {
                    name:        JSON_FIELD_PORT,
                    description: DESC_PORT,
                    required:    false,
                    param_type:  ParamType::Number,
                },
            ],
            param_extractor: ParamExtractorType::Resource,
            formatter:       FormatterDef {
                formatter_type:  FormatterType::ResourceOperation,
                template:        "Retrieved resource: {resource}",
                response_fields: vec![
                    ResponseField {
                        name:      JSON_FIELD_RESOURCE,
                        extractor: ExtractorType::ResourceFromParams,
                    },
                    ResponseField {
                        name:      JSON_FIELD_DATA,
                        extractor: ExtractorType::PassThroughData,
                    },
                ],
            },
        },
        BrpToolDef {
            name:            TOOL_BEVY_INSERT_RESOURCE,
            description:     DESC_BEVY_INSERT_RESOURCE,
            handler:         HandlerType::Brp {
                method: BRP_METHOD_INSERT_RESOURCE,
            },
            params:          vec![
                ParamDef {
                    name:        JSON_FIELD_RESOURCE,
                    description: "The fully-qualified type name of the resource to insert or update",
                    required:    true,
                    param_type:  ParamType::String,
                },
                ParamDef {
                    name:        JSON_FIELD_VALUE,
                    description: "The resource value to insert. Note: Math types use array format - Vec2: [x,y], Vec3: [x,y,z], Vec4/Quat: [x,y,z,w], not objects with named fields.",
                    required:    true,
                    param_type:  ParamType::Any,
                },
                ParamDef {
                    name:        JSON_FIELD_PORT,
                    description: DESC_PORT,
                    required:    false,
                    param_type:  ParamType::Number,
                },
            ],
            param_extractor: ParamExtractorType::Passthrough,
            formatter:       FormatterDef {
                formatter_type:  FormatterType::ResourceOperation,
                template:        "Successfully inserted/updated resource: {resource}",
                response_fields: vec![ResponseField {
                    name:      JSON_FIELD_RESOURCE,
                    extractor: ExtractorType::ResourceFromParams,
                }],
            },
        },
        BrpToolDef {
            name:            TOOL_BEVY_REMOVE_RESOURCE,
            description:     DESC_BEVY_REMOVE_RESOURCE,
            handler:         HandlerType::Brp {
                method: BRP_METHOD_REMOVE_RESOURCE,
            },
            params:          vec![
                ParamDef {
                    name:        JSON_FIELD_RESOURCE,
                    description: "The fully-qualified type name of the resource to remove",
                    required:    true,
                    param_type:  ParamType::String,
                },
                ParamDef {
                    name:        JSON_FIELD_PORT,
                    description: DESC_PORT,
                    required:    false,
                    param_type:  ParamType::Number,
                },
            ],
            param_extractor: ParamExtractorType::Resource,
            formatter:       FormatterDef {
                formatter_type:  FormatterType::ResourceOperation,
                template:        "Successfully removed resource: {resource}",
                response_fields: vec![ResponseField {
                    name:      JSON_FIELD_RESOURCE,
                    extractor: ExtractorType::ResourceFromParams,
                }],
            },
        },
        BrpToolDef {
            name:            TOOL_BEVY_MUTATE_COMPONENT,
            description:     DESC_BEVY_MUTATE_COMPONENT,
            handler:         HandlerType::Brp {
                method: BRP_METHOD_MUTATE_COMPONENT,
            },
            params:          vec![
                ParamDef {
                    name:        JSON_FIELD_ENTITY,
                    description: "The entity ID containing the component to mutate",
                    required:    true,
                    param_type:  ParamType::Number,
                },
                ParamDef {
                    name:        JSON_FIELD_COMPONENT,
                    description: "The fully-qualified type name of the component to mutate",
                    required:    true,
                    param_type:  ParamType::String,
                },
                ParamDef {
                    name:        JSON_FIELD_PATH,
                    description: "The path to the field within the component (e.g., 'translation.x')",
                    required:    true,
                    param_type:  ParamType::String,
                },
                ParamDef {
                    name:        JSON_FIELD_VALUE,
                    description: "The new value for the field. Note: Math types use array format - Vec2: [x,y], Vec3: [x,y,z], Vec4/Quat: [x,y,z,w], not objects with named fields.",
                    required:    true,
                    param_type:  ParamType::Any,
                },
                ParamDef {
                    name:        JSON_FIELD_PORT,
                    description: DESC_PORT,
                    required:    false,
                    param_type:  ParamType::Number,
                },
            ],
            param_extractor: ParamExtractorType::Passthrough,
            formatter:       FormatterDef {
                formatter_type:  FormatterType::EntityOperation(JSON_FIELD_ENTITY),
                template:        "Successfully mutated component on entity {entity}",
                response_fields: vec![ResponseField {
                    name:      JSON_FIELD_ENTITY,
                    extractor: ExtractorType::EntityFromParams,
                }],
            },
        },
        BrpToolDef {
            name:            TOOL_BEVY_MUTATE_RESOURCE,
            description:     DESC_BEVY_MUTATE_RESOURCE,
            handler:         HandlerType::Brp {
                method: BRP_METHOD_MUTATE_RESOURCE,
            },
            params:          vec![
                ParamDef {
                    name:        JSON_FIELD_RESOURCE,
                    description: "The fully-qualified type name of the resource to mutate",
                    required:    true,
                    param_type:  ParamType::String,
                },
                ParamDef {
                    name:        JSON_FIELD_PATH,
                    description: "The path to the field within the resource (e.g., 'settings.volume')",
                    required:    true,
                    param_type:  ParamType::String,
                },
                ParamDef {
                    name:        JSON_FIELD_VALUE,
                    description: "The new value for the field. Note: Math types use array format - Vec2: [x,y], Vec3: [x,y,z], Vec4/Quat: [x,y,z,w], not objects with named fields.",
                    required:    true,
                    param_type:  ParamType::Any,
                },
                ParamDef {
                    name:        JSON_FIELD_PORT,
                    description: DESC_PORT,
                    required:    false,
                    param_type:  ParamType::Number,
                },
            ],
            param_extractor: ParamExtractorType::Passthrough,
            formatter:       FormatterDef {
                formatter_type:  FormatterType::ResourceOperation,
                template:        "Successfully mutated resource: {resource}",
                response_fields: vec![ResponseField {
                    name:      JSON_FIELD_RESOURCE,
                    extractor: ExtractorType::ResourceFromParams,
                }],
            },
        },
        BrpToolDef {
            name:            TOOL_BEVY_LIST_RESOURCES,
            description:     DESC_BEVY_LIST_RESOURCES,
            handler:         HandlerType::Brp {
                method: BRP_METHOD_LIST_RESOURCES,
            },
            params:          vec![ParamDef {
                name:        JSON_FIELD_PORT,
                description: DESC_PORT,
                required:    false,
                param_type:  ParamType::Number,
            }],
            param_extractor: ParamExtractorType::EmptyParams,
            formatter:       FormatterDef {
                formatter_type:  FormatterType::Simple,
                template:        "Listed {count} resources",
                response_fields: vec![
                    ResponseField {
                        name:      JSON_FIELD_RESOURCES,
                        extractor: ExtractorType::PassThroughData,
                    },
                    ResponseField {
                        name:      JSON_FIELD_COUNT,
                        extractor: ExtractorType::ComponentCountFromData,
                    },
                ],
            },
        },
        BrpToolDef {
            name:            TOOL_BEVY_RPC_DISCOVER,
            description:     DESC_BEVY_RPC_DISCOVER,
            handler:         HandlerType::Brp {
                method: BRP_METHOD_RPC_DISCOVER,
            },
            params:          vec![ParamDef {
                name:        JSON_FIELD_PORT,
                description: DESC_PORT,
                required:    false,
                param_type:  ParamType::Number,
            }],
            param_extractor: ParamExtractorType::EmptyParams,
            formatter:       FormatterDef {
                formatter_type:  FormatterType::Simple,
                template:        "Retrieved BRP method discovery information",
                response_fields: vec![ResponseField {
                    name:      JSON_FIELD_METADATA,
                    extractor: ExtractorType::PassThroughResult,
                }],
            },
        },
        BrpToolDef {
            name:            TOOL_BRP_EXTRAS_DISCOVER_FORMAT,
            description:     DESC_BRP_EXTRAS_DISCOVER_FORMAT,
            handler:         HandlerType::Brp {
                method: BRP_METHOD_EXTRAS_DISCOVER_FORMAT,
            },
            params:          vec![
                ParamDef {
                    name:        PARAM_TYPES,
                    description: "Array of fully-qualified component type names to discover formats for",
                    required:    true,
                    param_type:  ParamType::StringArray,
                },
                ParamDef {
                    name:        JSON_FIELD_PORT,
                    description: DESC_PORT,
                    required:    false,
                    param_type:  ParamType::Number,
                },
            ],
            param_extractor: ParamExtractorType::Passthrough,
            formatter:       FormatterDef {
                formatter_type:  FormatterType::Simple,
                template:        "Format discovery completed",
                response_fields: vec![ResponseField {
                    name:      PARAM_FORMATS,
                    extractor: ExtractorType::PassThroughData,
                }],
            },
        },
        BrpToolDef {
            name:            TOOL_BRP_EXTRAS_SCREENSHOT,
            description:     DESC_BRP_EXTRAS_SCREENSHOT,
            handler:         HandlerType::Brp {
                method: BRP_METHOD_EXTRAS_SCREENSHOT,
            },
            params:          vec![
                ParamDef {
                    name:        JSON_FIELD_PATH,
                    description: "File path where the screenshot should be saved",
                    required:    true,
                    param_type:  ParamType::String,
                },
                ParamDef {
                    name:        JSON_FIELD_PORT,
                    description: DESC_PORT,
                    required:    false,
                    param_type:  ParamType::Number,
                },
            ],
            param_extractor: ParamExtractorType::Passthrough,
            formatter:       FormatterDef {
                formatter_type:  FormatterType::Simple,
                template:        "Successfully captured screenshot and saved to {path}",
                response_fields: vec![
                    ResponseField {
                        name:      JSON_FIELD_PATH,
                        extractor: ExtractorType::ParamFromContext(JSON_FIELD_PATH),
                    },
                    ResponseField {
                        name:      JSON_FIELD_PORT,
                        extractor: ExtractorType::ParamFromContext(JSON_FIELD_PORT),
                    },
                ],
            },
        },
    ];
    proof {
        assert(r@.len() == 14);
        assert(r@[0].params@.map_values(|p: ParamDef| p@) =~= standard_tool_views()[0].params);
        assert(r@[0].formatter.response_fields@.map_values(|f: ResponseField| f@) =~= standard_tool_views()[0].formatter.response_fields);
        assert(tool_views(r@)[0] =~~= standard_tool_views()[0]);
        assert(r@[1].params@.map_values(|p: ParamDef| p@) =~= standard_tool_views()[1].params);
        assert(r@[1].formatter.response_fields@.map_values(|f: ResponseField| f@) =~= standard_tool_views()[1].formatter.response_fields);
        assert(tool_views(r@)[1] =~~= standard_tool_views()[1]);
        assert(r@[2].params@.map_values(|p: ParamDef| p@) =~= standard_tool_views()[2].params);
        assert(r@[2].formatter.response_fields@.map_values(|f: ResponseField| f@) =~= standard_tool_views()[2].formatter.response_fields);
        assert(tool_views(r@)[2] =~~= standard_tool_views()[2]);
        assert(r@[3].params@.map_values(|p: ParamDef| p@) =~= standard_tool_views()[3].params);
        assert(r@[3].formatter.response_fields@.map_values(|f: ResponseField| f@) =~= standard_tool_views()[3].formatter.response_fields);
        assert(tool_views(r@)[3] =~~= standard_tool_views()[3]);
        assert(r@[4].params@.map_values(|p: ParamDef| p@) =~= standard_tool_views()[4].params);
        assert(r@[4].formatter.response_fields@.map_values(|f: ResponseField| f@) =~= standard_tool_views()[4].formatter.response_fields);
        assert(tool_views(r@)[4] =~~= standard_tool_views()[4]);
        assert(r@[5].params@.map_values(|p: ParamDef| p@) =~= standard_tool_views()[5].params);
        assert(r@[5].formatter.response_fields@.map_values(|f: ResponseField| f@) =~= standard_tool_views()[5].formatter.response_fields);
        assert(tool_views(r@)[5] =~~= standard_tool_views()[5]);
        assert(r@[6].params@.map_values(|p: ParamDef| p@) =~= standard_tool_views()[6].params);
        assert(r@[6].formatter.response_fields@.map_values(|f: ResponseField| f@) =~= standard_tool_views()[6].formatter.response_fields);
        assert(tool_views(r@)[6] =~~= standard_tool_views()[6]);
        assert(r@[7].params@.map_values(|p: ParamDef| p@) =~= standard_tool_views()[7].params);
        assert(r@[7].formatter.response_fields@.map_values(|f: ResponseField| f@) =~= standard_tool_views()[7].formatter.response_fields);
        assert(tool_views(r@)[7] =~~= standard_tool_views()[7]);
        assert(r@[8].params@.map_values(|p: ParamDef| p@) =~= standard_tool_views()[8].params);
        assert(r@[8].formatter.response_fields@.map_values(|f: ResponseField| f@) =~= standard_tool_views()[8].formatter.response_fields);
        assert(tool_views(r@)[8] =~~= standard_tool_views()[8]);
        assert(r@[9].params@.map_values(|p: ParamDef| p@) =~= standard_tool_views()[9].params);
        assert(r@[9].formatter.response_fields@.map_values(|f: ResponseField| f@) =~= standard_tool_views()[9].formatter.response_fields);
        assert(tool_views(r@)[9] =~~= standard_tool_views()[9]);
        assert(r@[10].params@.map_values(|p: ParamDef| p@) =~= standard_tool_views()[10].params);
        assert(r@[10].formatter.response_fields@.map_values(|f: ResponseField| f@) =~= standard_tool_views()[10].formatter.response_fields);
        assert(tool_views(r@)[10] =~~= standard_tool_views()[10]);
        assert(r@[11].params@.map_values(|p: ParamDef| p@) =~= standard_tool_views()[11].params);
        assert(r@[11].formatter.response_fields@.map_values(|f: ResponseField| f@) =~= standard_tool_views()[11].formatter.response_fields);
        assert(tool_views(r@)[11] =~~= standard_tool_views()[11]);
        assert(r@[12].params@.map_values(|p: ParamDef| p@) =~= standard_tool_views()[12].params);
        assert(r@[12].formatter.response_fields@.map_values(|f: ResponseField| f@) =~= standard_tool_views()[12].formatter.response_fields);
        assert(tool_views(r@)[12] =~~= standard_tool_views()[12]);
        assert(r@[13].params@.map_values(|p: ParamDef| p@) =~= standard_tool_views()[13].params);
        assert(r@[13].formatter.response_fields@.map_values(|f: ResponseField| f@) =~= standard_tool_views()[13].formatter.response_fields);
        assert(tool_views(r@)[13] =~~= standard_tool_views()[13]);
        assert(tool_views(r@) =~= standard_tool_views());
    }
    r
}

/// The special tools as mathematical values, in order.
pub open spec fn special_tool_views() -> Seq<ToolView> {
    seq![
        ToolView {
            name:            TOOL_BEVY_QUERY@,
            description:     DESC_BEVY_QUERY@,
            handler:         HandlerView::Brp {
                method: BRP_METHOD_QUERY@,
            },
            params:          seq![
                ParamView {
                    name:        PARAM_DATA@,
                    description: "Object specifying what component data to retrieve. Properties: components (array), option (array), has (array)"@,
                    required:    true,
                    param_type:  ParamType::Any,
                },
                ParamView {
                    name:        PARAM_FILTER@,
                    description: "Object specifying which entities to query. Properties: with (array), without (array)"@,
                    required:    true,
                    param_type:  ParamType::Any,
                },
                ParamView {
                    name:        PARAM_STRICT@,
                    description: "If true, returns error on unknown component types (default: false)"@,
                    required:    false,
                    param_type:  ParamType::Boolean,
                },
                ParamView {
                    name:        JSON_FIELD_PORT@,
                    description: DESC_PORT@,
                    required:    false,
                    param_type:  ParamType::Number,
                }
            ],
            param_extractor: ParamExtractorType::Passthrough,
            formatter:       FormatterView {
                formatter_type:  FormatterTypeView::Simple,
                template:        "Query completed successfully"@,
                response_fields: seq![
                    ResponseFieldView {
                        name:      JSON_FIELD_DATA@,
                        extractor: ExtractorView::PassThroughData,
                    },
                    ResponseFieldView {
                        name:      PARAM_ENTITY_COUNT@,
                        extractor: ExtractorView::EntityCountFromData,
                    },
                    ResponseFieldView {
                        name:      PARAM_COMPONENT_COUNT@,
                        extractor: ExtractorView::QueryComponentCount,
                    },
                    ResponseFieldView {
                        name:      PARAM_QUERY_PARAMS@,
                        extractor: ExtractorView::QueryParamsFromContext,
                    }
                ],
            },
        },
        ToolView {
            name:            TOOL_BEVY_SPAWN@,
            description:     DESC_BEVY_SPAWN@,
            handler:         HandlerView::Brp {
                method: BRP_METHOD_SPAWN@,
            },
            params:          seq![
                ParamView {
                    name:        JSON_FIELD_COMPONENTS@,
                    description: "Object containing component data to spawn with. Keys are component types, values are component data. Note: Math types use array format - Vec2: [x,y], Vec3: [x,y,z], Vec4/Quat: [x,y,z,w], not objects with named fields."@,
                    required:    false,
                    param_type:  ParamType::Any,
                },
                ParamView {
                    name:        JSON_FIELD_PORT@,
                    description: DESC_PORT@,
                    required:    false,
                    param_type:  ParamType::Number,
                }
            ],
            param_extractor: ParamExtractorType::Passthrough,
            formatter:       FormatterView {
                formatter_type:  FormatterTypeView::EntityOperation(PARAM_SPAWNED_ENTITY@),
                template:        "Successfully spawned entity"@,
                response_fields: seq![
                    ResponseFieldView {
                        name:      PARAM_SPAWNED_ENTITY@,
                        extractor: ExtractorView::EntityFromResponse,
                    },
                    ResponseFieldView {
                        name:      JSON_FIELD_COMPONENTS@,
                        extractor: ExtractorView::ParamFromContext(JSON_FIELD_COMPONENTS@),
                    }
                ],
            },
        },
        ToolView {
            name:            TOOL_BRP_EXECUTE@,
            description:     DESC_BRP_EXECUTE@,
            handler:         HandlerView::Brp { method: ""@ },
            params:          seq![
                ParamView {
                    name:        PARAM_METHOD@,
                    description: "The BRP method to execute (e.g., 'rpc.discover', 'bevy/get', 'bevy/query')"@,
                    required:    true,
                    param_type:  ParamType::String,
                },
                ParamView {
                    name:        PARAM_PARAMS@,
                    description: "Optional parameters for the method, as a JSON object or array"@,
                    required:    false,
                    param_type:  ParamType::Any,
                },
                ParamView {
                    name:        JSON_FIELD_PORT@,
                    description: DESC_PORT@,
                    required:    false,
                    param_type:  ParamType::Number,
                }
            ],
            param_extractor: ParamExtractorType::BrpExecute,
            formatter:       FormatterView {
                formatter_type:  FormatterTypeView::Simple,
                template:        "Method executed successfully"@,
                response_fields: seq![ResponseFieldView {
                    name:      PARAM_RESULT@,
                    extractor: ExtractorView::PassThroughResult,
                }],
            },
        },
        ToolView {
            name:            TOOL_BEVY_REGISTRY_SCHEMA@,
            description:     DESC_BEVY_REGISTRY_SCHEMA@,
            handler:         HandlerView::Brp {
                method: BRP_METHOD_REGISTRY_SCHEMA@,
            },
            params:          seq![
                ParamView {
                    name:        PARAM_WITH_CRATES@,
                    description: "Include only types from these crates (e.g., [\"bevy_transform\", \"my_game\"])"@,
                    required:    false,
                    param_type:  ParamType::StringArray,
                },
                ParamView {
                    name:        PARAM_WITHOUT_CRATES@,
                    description: "Exclude types from these crates (e.g., [\"bevy_render\", \"bevy_pbr\"])"@,
                    required:    false,
                    param_type:  ParamType::StringArray,
                },
                ParamView {
                    name:        PARAM_WITH_TYPES@,
                    description: "Include only types with these reflect traits (e.g., [\"Component\", \"Resource\"])"@,
                    required:    false,
                    param_type:  ParamType::StringArray,
                },
                ParamView {
                    name:        PARAM_WITHOUT_TYPES@,
                    description: "Exclude types with these reflect traits (e.g., [\"RenderResource\"])"@,
                    required:    false,
                    param_type:  ParamType::StringArray,
                },
                ParamView {
                    name:        JSON_FIELD_PORT@,
                    description: DESC_PORT@,
                    required:    false,
                    param_type:  ParamType::Number,
                }
            ],
            param_extractor: ParamExtractorType::RegistrySchema,
            formatter:       FormatterView {
                formatter_type:  FormatterTypeView::Simple,
                template:        "Retrieved schema information"@,
                response_fields: seq![ResponseFieldView {
                    name:      JSON_FIELD_DATA@,
                    extractor: ExtractorView::PassThroughData,
                }],
            },
        },
        ToolView {
            name:            TOOL_BEVY_REPARENT@,
            description:     DESC_BEVY_REPARENT@,
            handler:         HandlerView::Brp {
                method: BRP_METHOD_REPARENT@,
            },
            params:          seq![
                ParamView {
                    name:        PARAM_ENTITIES@,
                    description: "Array of entity IDs to reparent"@,
                    required:    true,
                    param_type:  ParamType::Any,
                },
                ParamView {
                    name:        PARAM_PARENT@,
                    description: "The new parent entity ID (omit to remove parent)"@,
                    required:    false,
                    param_type:  ParamType::Number,
                },
                ParamView {
                    name:        JSON_FIELD_PORT@,
                    description: DESC_PORT@,
                    required:    false,
                    param_type:  ParamType::Number,
                }
            ],
            param_extractor: ParamExtractorType::Passthrough,
            formatter:       FormatterView {
                formatter_type:  FormatterTypeView::Simple,
                template:        "Successfully reparented entities"@,
                response_fields: seq![
                    ResponseFieldView {
                        name:      PARAM_ENTITIES@,
                        extractor: ExtractorView::ParamFromContext(PARAM_ENTITIES@),
                    },
                    ResponseFieldView {
                        name:      PARAM_PARENT@,
                        extractor: ExtractorView::ParamFromContext(PARAM_PARENT@),
                    }
                ],
            },
        },
    ]
}

/// The tools with special parameter or reply handling, each calling a BRP
/// method (`brp_execute` the one its call names) with an optional port as
/// its last parameter.
pub fn get_special_tools() -> (r: Vec<BrpToolDef>)
    ensures
        tool_views(r@) == special_tool_views(),
        tool_names(r@) == special_tool_names(),
        tool_handlers(r@) == special_tool_handlers(),
        tool_extractors(r@) == seq![
            ParamExtractorType::Passthrough,
            ParamExtractorType::Passthrough,
            ParamExtractorType::BrpExecute,
            ParamExtractorType::RegistrySchema,
            ParamExtractorType::Passthrough
        ],
        tool_templates(r@) == seq![
            "Query completed successfully"@,
            "Successfully spawned entity"@,
            "Method executed successfully"@,
            "Retrieved schema information"@,
            "Successfully reparented entities"@
        ],
        forall|i: int| 0 <= i < r@.len() ==> #[trigger] ends_with_port(r@[i]),
{
    let r = vec![
        BrpToolDef {
            name:            TOOL_BEVY_QUERY,
            description:     DESC_BEVY_QUERY,
            handler:         HandlerType::Brp {
                method: BRP_METHOD_QUERY,
            },
            params:          vec![
                ParamDef {
                    name:        PARAM_DATA,
                    description: "Object specifying what component data to retrieve. Properties: components (array), option (array), has (array)",
                    required:    true,
                    param_type:  ParamType::Any,
                },
                ParamDef {
                    name:        PARAM_FILTER,
                    description: "Object specifying which entities to query. Properties: with (array), without (array)",
                    required:    true,
                    param_type:  ParamType::Any,
                },
                ParamDef {
                    name:        PARAM_STRICT,
                    description: "If true, returns error on unknown component types (default: false)",
                    required:    false,
                    param_type:  ParamType::Boolean,
                },
                ParamDef {
                    name:        JSON_FIELD_PORT,
                    description: DESC_PORT,
                    required:    false,
                    param_type:  ParamType::Number,
                },
            ],
            param_extractor: ParamExtractorType::Passthrough,
            formatter:       FormatterDef {
                formatter_type:  FormatterType::Simple,
                template:        "Query completed successfully",
                response_fields: vec![
                    ResponseField {
                        name:      JSON_FIELD_DATA,
                        extractor: ExtractorType::PassThroughData,
                    },
                    ResponseField {
                        name:      PARAM_ENTITY_COUNT,
                        extractor: ExtractorType::EntityCountFromData,
                    },
                    ResponseField {
                        name:      PARAM_COMPONENT_COUNT,
                        extractor: ExtractorType::QueryComponentCount,
                    },
                    ResponseField {
                        name:      PARAM_QUERY_PARAMS,
                        extractor: ExtractorType::QueryParamsFromContext,
                    },
                ],
            },
        },
        BrpToolDef {
            name:            TOOL_BEVY_SPAWN,
            description:     DESC_BEVY_SPAWN,
            handler:         HandlerType::Brp {
                method: BRP_METHOD_SPAWN,
            },
            params:          vec![
                ParamDef {
                    name:        JSON_FIELD_COMPONENTS,
                    description: "Object containing component data to spawn with. Keys are component types, values are component data. Note: Math types use array format - Vec2: [x,y], Vec3: [x,y,z], Vec4/Quat: [x,y,z,w], not objects with named fields.",
                    required:    false,
                    param_type:  ParamType::Any,
                },
                ParamDef {
                    name:        JSON_FIELD_PORT,
                    description: DESC_PORT,
                    required:    false,
                    param_type:  ParamType::Number,
                },
            ],
            param_extractor: ParamExtractorType::Passthrough,
            formatter:       FormatterDef {
                formatter_type:  FormatterType::EntityOperation(PARAM_SPAWNED_ENTITY),
                template:        "Successfully spawned entity",
                response_fields: vec![
                    ResponseField {
                        name:      PARAM_SPAWNED_ENTITY,
                        extractor: ExtractorType::EntityFromResponse,
                    },
                    ResponseField {
                        name:      JSON_FIELD_COMPONENTS,
                        extractor: ExtractorType::ParamFromContext(JSON_FIELD_COMPONENTS),
                    },
                ],
            },
        },
        BrpToolDef {
            name:            TOOL_BRP_EXECUTE,
            description:     DESC_BRP_EXECUTE,
            handler:         HandlerType::Brp { method: "" },
            params:          vec![
                ParamDef {
                    name:        PARAM_METHOD,
                    description: "The BRP method to execute (e.g., 'rpc.discover', 'bevy/get', 'bevy/query')",
                    required:    true,
                    param_type:  ParamType::String,
                },
                ParamDef {
                    name:        PARAM_PARAMS,
                    description: "Optional parameters for the method, as a JSON object or array",
                    required:    false,
                    param_type:  ParamType::Any,
                },
                ParamDef {
                    name:        JSON_FIELD_PORT,
                    description: DESC_PORT,
                    required:    false,
                    param_type:  ParamType::Number,
                },
            ],
            param_extractor: ParamExtractorType::BrpExecute,
            formatter:       FormatterDef {
                formatter_type:  FormatterType::Simple,
                template:        "Method executed successfully",
                response_fields: vec![ResponseField {
                    name:      PARAM_RESULT,
                    extractor: ExtractorType::PassThroughResult,
                }],
            },
        },
        BrpToolDef {
            name:            TOOL_BEVY_REGISTRY_SCHEMA,
            description:     DESC_BEVY_REGISTRY_SCHEMA,
            handler:         HandlerType::Brp {
                method: BRP_METHOD_REGISTRY_SCHEMA,
            },
            params:          vec![
                ParamDef {
                    name:        PARAM_WITH_CRATES,
                    description: "Include only types from these crates (e.g., [\"bevy_transform\", \"my_game\"])",
                    required:    false,
                    param_type:  ParamType::StringArray,
                },
                ParamDef {
                    name:        PARAM_WITHOUT_CRATES,
                    description: "Exclude types from these crates (e.g., [\"bevy_render\", \"bevy_pbr\"])",
                    required:    false,
                    param_type:  ParamType::StringArray,
                },
                ParamDef {
                    name:        PARAM_WITH_TYPES,
                    description: "Include only types with these reflect traits (e.g., [\"Component\", \"Resource\"])",
                    required:    false,
                    param_type:  ParamType::StringArray,
                },
                ParamDef {
                    name:        PARAM_WITHOUT_TYPES,
                    description: "Exclude types with these reflect traits (e.g., [\"RenderResource\"])",
                    required:    false,
                    param_type:  ParamType::StringArray,
                },
                ParamDef {
                    name:        JSON_FIELD_PORT,
                    description: DESC_PORT,
                    required:    false,
                    param_type:  ParamType::Number,
                },
            ],
            param_extractor: ParamExtractorType::RegistrySchema,
            formatter:       FormatterDef {
                formatter_type:  FormatterType::Simple,
                template:        "Retrieved schema information",
                response_fields: vec![ResponseField {
                    name:      JSON_FIELD_DATA,
                    extractor: ExtractorType::PassThroughData,
                }],
            },
        },
        BrpToolDef {
            name:            TOOL_BEVY_REPARENT,
            description:     DESC_BEVY_REPARENT,
            handler:         HandlerType::Brp {
                method: BRP_METHOD_REPARENT,
            },
            params:          vec![
                ParamDef {
                    name:        PARAM_ENTITIES,
                    description: "Array of entity IDs to reparent",
                    required:    true,
                    param_type:  ParamType::Any,
                },
                ParamDef {
                    name:        PARAM_PARENT,
                    description: "The new parent entity ID (omit to remove parent)",
                    required:    false,
                    param_type:  ParamType::Number,
                },
                ParamDef {
                    name:        JSON_FIELD_PORT,
                    description: DESC_PORT,
                    required:    false,
                    param_type:  ParamType::Number,
                },
            ],
            param_extractor: ParamExtractorType::Passthrough,
            formatter:       FormatterDef {
                formatter_type:  FormatterType::Simple,
                template:        "Successfully reparented entities",
                response_fields: vec![
                    ResponseField {
                        name:      PARAM_ENTITIES,
                        extractor: ExtractorType::ParamFromContext(PARAM_ENTITIES),
                    },
                    ResponseField {
                        name:      PARAM_PARENT,
                        extractor: ExtractorType::ParamFromContext(PARAM_PARENT),
                    },
                ],
            },
        },
    ];
    proof {
        assert(r@.len() == 5);
        assert(r@[0].params@.map_values(|p: ParamDef| p@) =~= special_tool_views()[0].params);
        assert(r@[0].formatter.response_fields@.map_values(|f: ResponseField| f@) =~= special_tool_views()[0].formatter.response_fields);
        assert(tool_views(r@)[0] =~~= special_tool_views()[0]);
        assert(r@[1].params@.map_values(|p: ParamDef| p@) =~= special_tool_views()[1].params);
        assert(r@[1].formatter.response_fields@.map_values(|f: ResponseField| f@) =~= special_tool_views()[1].formatter.response_fields);
        assert(tool_views(r@)[1] =~~= special_tool_views()[1]);
        assert(r@[2].params@.map_values(|p: ParamDef| p@) =~= special_tool_views()[2].params);
        assert(r@[2].formatter.response_fields@.map_values(|f: ResponseField| f@) =~= special_tool_views()[2].formatter.response_fields);
        assert(tool_views(r@)[2] =~~= special_tool_views()[2]);
        assert(r@[3].params@.map_values(|p: ParamDef| p@) =~= special_tool_views()[3].params);
        assert(r@[3].formatter.response_fields@.map_values(|f: ResponseField| f@) =~= special_tool_views()[3].formatter.response_fields);
        assert(tool_views(r@)[3] =~~= special_tool_views()[3]);
        assert(r@[4].params@.map_values(|p: ParamDef| p@) =~= special_tool_views()[4].params);
        assert(r@[4].formatter.response_fields@.map_values(|f: ResponseField| f@) =~= special_tool_views()[4].formatter.response_fields);
        assert(tool_views(r@)[4] =~~= special_tool_views()[4]);
        assert(tool_views(r@) =~= special_tool_views());
    }
    r
}

/// The log tools as mathematical values, in order.
pub open spec fn log_tool_views() -> Seq<ToolView> {
    seq![
        ToolView {
            name:            TOOL_LIST_LOGS@,
            description:     DESC_LIST_LOGS@,
            handler:         HandlerView::Local {
                handler: "list_logs"@,
            },
            params:          seq![ParamView {
                name:        "app_name"@,
                description: "Optional filter to list logs for a specific app only"@,
                required:    false,
                param_type:  ParamType::String,
            }],
            param_extractor: ParamExtractorType::Passthrough,
            formatter:       FormatterView { formatter_type: FormatterTypeView::Simple, template: ""@, response_fields: Seq::empty() },
        },
        ToolView {
            name:            TOOL_READ_LOG@,
            description:     DESC_READ_LOG@,
            handler:         HandlerView::Local {
                handler: "read_log"@,
            },
            params:          seq![
                ParamView {
                    name:        "filename"@,
                    description: "The log filename (e.g., bevy_brp_mcp_myapp_1234567890.log)"@,
                    required:    true,
                    param_type:  ParamType::String,
                },
                ParamView {
                    name:        "keyword"@,
                    description: "Optional keyword to filter lines (case-insensitive)"@,
                    required:    false,
                    param_type:  ParamType::String,
                },
                ParamView {
                    name:        "tail_lines"@,
                    description: "Optional number of lines to read from the end of file"@,
                    required:    false,
                    param_type:  ParamType::Number,
                }
            ],
            param_extractor: ParamExtractorType::Passthrough,
            formatter:       FormatterView { formatter_type: FormatterTypeView::Simple, template: ""@, response_fields: Seq::empty() },
        },
        ToolView {
            name:            TOOL_CLEANUP_LOGS@,
            description:     DESC_CLEANUP_LOGS@,
            handler:         HandlerView::Local {
                handler: "cleanup_logs"@,
            },
            params:          seq![
                ParamView {
                    name:        "app_name"@,
                    description: "Optional filter to delete logs for a specific app only"@,
                    required:    false,
                    param_type:  ParamType::String,
                },
                ParamView {
                    name:        "older_than_seconds"@,
                    description: "Optional filter to delete logs older than N seconds"@,
                    required:    false,
                    param_type:  ParamType::Number,
                }
            ],
            param_extractor: ParamExtractorType::Passthrough,
            formatter:       FormatterView { formatter_type: FormatterTypeView::Simple, template: ""@, response_fields: Seq::empty() },
        },
    ]
}

/// The tools that manage the log files of launched apps, handled locally.
pub fn get_log_tools() -> (r: Vec<BrpToolDef>)
    ensures
        tool_views(r@) == log_tool_views(),
        tool_names(r@) == log_tool_names(),
        tool_handlers(r@) == log_tool_handlers(),
        tool_extractors(r@) == seq![
            ParamExtractorType::Passthrough,
            ParamExtractorType::Passthrough,
            ParamExtractorType::Passthrough
        ],
        forall|i: int| 0 <= i < r@.len() ==> (#[trigger] r@[i]).formatter.formatter_type is Simple
            && r@[i].formatter.template@ == ""@ && r@[i].formatter.response_fields@.len() == 0,
{
    let r = vec![
        BrpToolDef {
            name:            TOOL_LIST_LOGS,
            description:     DESC_LIST_LOGS,
            handler:         HandlerType::Local {
                handler: "list_logs",
            },
            params:          vec![ParamDef {
                name:        "app_name",
                description: "Optional filter to list logs for a specific app only",
                required:    false,
                param_type:  ParamType::String,
            }],
            param_extractor: ParamExtractorType::Passthrough,
            formatter:       FormatterDef::default(),
        },
        BrpToolDef {
            name:            TOOL_READ_LOG,
            description:     DESC_READ_LOG,
            handler:         HandlerType::Local {
                handler: "read_log",
            },
            params:          vec![
                ParamDef {
                    name:        "filename",
                    description: "The log filename (e.g., bevy_brp_mcp_myapp_1234567890.log)",
                    required:    true,
                    param_type:  ParamType::String,
                },
                ParamDef {
                    name:        "keyword",
                    description: "Optional keyword to filter lines (case-insensitive)",
                    required:    false,
                    param_type:  ParamType::String,
                },
                ParamDef {
                    name:        "tail_lines",
                    description: "Optional number of lines to read from the end of file",
                    required:    false,
                    param_type:  ParamType::Number,
                },
            ],
            param_extractor: ParamExtractorType::Passthrough,
            formatter:       FormatterDef::default(),
        },
        BrpToolDef {
            name:            TOOL_CLEANUP_LOGS,
            description:     DESC_CLEANUP_LOGS,
            handler:         HandlerType::Local {
                handler: "cleanup_logs",
            },
            params:          vec![
                ParamDef {
                    name:        "app_name",
                    description: "Optional filter to delete logs for a specific app only",
                    required:    false,
                    param_type:  ParamType::String,
                },
                ParamDef {
                    name:        "older_than_seconds",
                    description: "Optional filter to delete logs older than N seconds",
                    required:    false,
                    param_type:  ParamType::Number,
                },
            ],
            param_extractor: ParamExtractorType::Passthrough,
            formatter:       FormatterDef::default(),
        },
    ];
    proof {
        assert(r@.len() == 3);
        assert(r@[0].params@.map_values(|p: ParamDef| p@) =~= log_tool_views()[0].params);
        assert(r@[0].formatter.response_fields@.map_values(|f: ResponseField| f@) =~= log_tool_views()[0].formatter.response_fields);
        assert(tool_views(r@)[0] =~~= log_tool_views()[0]);
        assert(r@[1].params@.map_values(|p: ParamDef| p@) =~= log_tool_views()[1].params);
        assert(r@[1].formatter.response_fields@.map_values(|f: ResponseField| f@) =~= log_tool_views()[1].formatter.response_fields);
        assert(tool_views(r@)[1] =~~= log_tool_views()[1]);
        assert(r@[2].params@.map_values(|p: ParamDef| p@) =~= log_tool_views()[2].params);
        assert(r@[2].formatter.response_fields@.map_values(|f: ResponseField| f@) =~= log_tool_views()[2].formatter.response_fields);
        assert(tool_views(r@)[2] =~~= log_tool_views()[2]);
        assert(tool_views(r@) =~= log_tool_views());
    }
    r
}

/// The app tools as mathematical values, in order.
pub open spec fn app_tool_views() -> Seq<ToolView> {
    seq![
        ToolView {
            name:            TOOL_LIST_BEVY_APPS@,
            description:     DESC_LIST_BEVY_APPS@,
            handler:         HandlerView::Local {
                handler: "list_bevy_apps"@,
            },
            params:          Seq::empty(),
            param_extractor: ParamExtractorType::EmptyParams,
            formatter:       FormatterView { formatter_type: FormatterTypeView::Simple, template: ""@, response_fields: Seq::empty() },
        },
        ToolView {
            name:            TOOL_LIST_BRP_APPS@,
            description:     DESC_LIST_BRP_APPS@,
            handler:         HandlerView::Local {
                handler: "list_brp_apps"@,
            },
            params:          Seq::empty(),
            param_extractor: ParamExtractorType::EmptyParams,
            formatter:       FormatterView { formatter_type: FormatterTypeView::Simple, template: ""@, response_fields: Seq::empty() },
        },
        ToolView {
            name:            TOOL_LIST_BEVY_EXAMPLES@,
            description:     DESC_LIST_BEVY_EXAMPLES@,
            handler:         HandlerView::Local {
                handler: "list_bevy_examples"@,
            },
            params:          Seq::empty(),
            param_extractor: ParamExtractorType::EmptyParams,
            formatter:       FormatterView { formatter_type: FormatterTypeView::Simple, template: ""@, response_fields: Seq::empty() },
        },
        ToolView {
            name:            TOOL_LAUNCH_BEVY_APP@,
            description:     DESC_LAUNCH_BEVY_APP@,
            handler:         HandlerView::Local {
                handler: "launch_bevy_app"@,
            },
            params:          seq![
                ParamView {
                    name:        "app_name"@,
                    description: "Name of the Bevy app to launch"@,
                    required:    true,
                    param_type:  ParamType::String,
                },
                ParamView {
                    name:        "profile"@,
                    description: "Build profile to use (debug or release)"@,
                    required:    false,
                    param_type:  ParamType::String,
                }
            ],
            param_extractor: ParamExtractorType::Passthrough,
            formatter:       FormatterView { formatter_type: FormatterTypeView::Simple, template: ""@, response_fields: Seq::empty() },
        },
        ToolView {
            name:            TOOL_LAUNCH_BEVY_EXAMPLE@,
            description:     DESC_LAUNCH_BEVY_EXAMPLE@,
            handler:         HandlerView::Local {
                handler: "launch_bevy_example"@,
            },
            params:          seq![
                ParamView {
                    name:        "example_name"@,
                    description: "Name of the Bevy example to launch"@,
                    required:    true,
                    param_type:  ParamType::String,
                },
                ParamView {
                    name:        "profile"@,
                    description: "Build profile to use (debug or release)"@,
                    required:    false,
                    param_type:  ParamType::String,
                }
            ],
            param_extractor: ParamExtractorType::Passthrough,
            formatter:       FormatterView { formatter_type: FormatterTypeView::Simple, template: ""@, response_fields: Seq::empty() },
        },
    ]
}

/// The tools that find and launch Bevy apps and examples, handled locally.
pub fn get_app_tools() -> (r: Vec<BrpToolDef>)
    ensures
        tool_views(r@) == app_tool_views(),
        tool_names(r@) == app_tool_names(),
        tool_handlers(r@) == app_tool_handlers(),
        tool_extractors(r@) == seq![
            ParamExtractorType::EmptyParams,
            ParamExtractorType::EmptyParams,
            ParamExtractorType::EmptyParams,
            ParamExtractorType::Passthrough,
            ParamExtractorType::Passthrough
        ],
        forall|i: int| 0 <= i < r@.len() ==> (#[trigger] r@[i]).formatter.formatter_type is Simple
            && r@[i].formatter.template@ == ""@ && r@[i].formatter.response_fields@.len() == 0,
{
    let r = vec![
        BrpToolDef {
            name:            TOOL_LIST_BEVY_APPS,
            description:     DESC_LIST_BEVY_APPS,
            handler:         HandlerType::Local {
                handler: "list_bevy_apps",
            },
            params:          vec![],
            param_extractor: ParamExtractorType::EmptyParams,
            formatter:       FormatterDef::default(),
        },
        BrpToolDef {
            name:            TOOL_LIST_BRP_APPS,
            description:     DESC_LIST_BRP_APPS,
            handler:         HandlerType::Local {
                handler: "list_brp_apps",
            },
            params:          vec![],
            param_extractor: ParamExtractorType::EmptyParams,
            formatter:       FormatterDef::default(),
        },
        BrpToolDef {
            name:            TOOL_LIST_BEVY_EXAMPLES,
            description:     DESC_LIST_BEVY_EXAMPLES,
            handler:         HandlerType::Local {
                handler: "list_bevy_examples",
            },
            params:          vec![],
            param_extractor: ParamExtractorType::EmptyParams,
            formatter:       FormatterDef::default(),
        },
        BrpToolDef {
            name:            TOOL_LAUNCH_BEVY_APP,
            description:     DESC_LAUNCH_BEVY_APP,
            handler:         HandlerType::Local {
                handler: "launch_bevy_app",
            },
            params:          vec![
                ParamDef {
                    name:        "app_name",
                    description: "Name of the Bevy app to launch",
                    required:    true,
                    param_type:  ParamType::String,
                },
                ParamDef {
                    name:        "profile",
                    description: "Build profile to use (debug or release)",
                    required:    false,
                    param_type:  ParamType::String,
                },
            ],
            param_extractor: ParamExtractorType::Passthrough,
            formatter:       FormatterDef::default(),
        },
        BrpToolDef {
            name:            TOOL_LAUNCH_BEVY_EXAMPLE,
            description:     DESC_LAUNCH_BEVY_EXAMPLE,
            handler:         HandlerType::Local {
                handler: "launch_bevy_example",
            },
            params:          vec![
                ParamDef {
                    name:        "example_name",
                    description: "Name of the Bevy example to launch",
                    required:    true,
                    param_type:  ParamType::String,
                },
                ParamDef {
                    name:        "profile",
                    description: "Build profile to use (debug or release)",
                    required:    false,
                    param_type:  ParamType::String,
                },
            ],
            param_extractor: ParamExtractorType::Passthrough,
            formatter:       FormatterDef::default(),
        },
    ];
    proof {
        assert(r@.len() == 5);
        assert(r@[0].params@.map_values(|p: ParamDef| p@) =~= app_tool_views()[0].params);
        assert(r@[0].formatter.response_fields@.map_values(|f: ResponseField| f@) =~= app_tool_views()[0].formatter.response_fields);
        assert(tool_views(r@)[0] =~~= app_tool_views()[0]);
        assert(r@[1].params@.map_values(|p: ParamDef| p@) =~= app_tool_views()[1].params);
        assert(r@[1].formatter.response_fields@.map_values(|f: ResponseField| f@) =~= app_tool_views()[1].formatter.response_fields);
        assert(tool_views(r@)[1] =~~= app_tool_views()[1]);
        assert(r@[2].params@.map_values(|p: ParamDef| p@) =~= app_tool_views()[2].params);
        assert(r@[2].formatter.response_fields@.map_values(|f: ResponseField| f@) =~= app_tool_views()[2].formatter.response_fields);
        assert(tool_views(r@)[2] =~~= app_tool_views()[2]);
        assert(r@[3].params@.map_values(|p: ParamDef| p@) =~= app_tool_views()[3].params);
        assert(r@[3].formatter.response_fields@.map_values(|f: ResponseField| f@) =~= app_tool_views()[3].formatter.response_fields);
        assert(tool_views(r@)[3] =~~= app_tool_views()[3]);
        assert(r@[4].params@.map_values(|p: ParamDef| p@) =~= app_tool_views()[4].params);
        assert(r@[4].formatter.response_fields@.map_values(|f: ResponseField| f@) =~= app_tool_views()[4].formatter.response_fields);
        assert(tool_views(r@)[4] =~~= app_tool_views()[4]);
        assert(tool_views(r@) =~= app_tool_views());
    }
    r
}

/// All tool definitions as mathematical values: the standard, special, log
/// and app tools, in that order.
pub open spec fn all_tool_views() -> Seq<ToolView> {
    standard_tool_views() + special_tool_views() + log_tool_views() + app_tool_views()
}

/// All tools: the standard, special, log and app tools, in that order.
pub fn get_all_tools() -> (r: Vec<BrpToolDef>)
    ensures
        tool_names(r@) == standard_tool_names() + special_tool_names() + log_tool_names() + app_tool_names(),
        tool_handlers(r@) == standard_tool_handlers() + special_tool_handlers() + log_tool_handlers() + app_tool_handlers(),
        forall|i: int| 0 <= i < standard_tool_names().len() + special_tool_names().len() ==> #[trigger] ends_with_port(r@[i]),
        tool_views(r@) == all_tool_views(),
{
    let mut tools: Vec<BrpToolDef> = Vec::new();
    let mut standard = get_standard_tools();
    let mut special = get_special_tools();
    let mut log = get_log_tools();
    let mut app = get_app_tools();
    let ghost (s1, s2, s3, s4) = (standard@, special@, log@, app@);
    tools.append(&mut standard);
    tools.append(&mut special);
    tools.append(&mut log);
    tools.append(&mut app);
    assert(tools@ == s1 + s2 + s3 + s4);
    assert(tool_names(tools@) =~= tool_names(s1) + tool_names(s2) + tool_names(s3) + tool_names(s4));
    assert(tool_handlers(tools@) =~= tool_handlers(s1) + tool_handlers(s2) + tool_handlers(s3) + tool_handlers(s4));
    assert(tool_views(tools@) =~= tool_views(s1) + tool_views(s2) + tool_views(s3) + tool_views(s4));
    assert forall|i: int| 0 <= i < s1.len() + s2.len() implies #[trigger] ends_with_port(tools@[i]) by {
        if i < s1.len() {
            assert(tools@[i] == s1[i]);
        } else {
            assert(tools@[i] == s2[i - s1.len()]);
        }
    }
    tools
}

/// Whether a name begins with `p`.
pub open spec fn begins_with(name: Seq<char>, p: Seq<char>) -> bool {
    p.len() <= name.len() && name.subrange(0, p.len() as int) == p
}

/// The names of all tools, in order.
pub open spec fn all_tool_names() -> Seq<Seq<char>> {
    standard_tool_names() + special_tool_names() + log_tool_names() + app_tool_names()
}

/// Every tool that calls the Bevy Remote Protocol is named `bevy_...` or
/// `brp_...` (the `bevy_brp_extras` ones `brp_extras_...`).
pub proof fn lemma_brp_tool_names_prefixed()
    ensures
        forall|i: int| 0 <= i < (standard_tool_names() + special_tool_names()).len()
            ==> #[trigger] begins_with((standard_tool_names() + special_tool_names())[i], "bevy_"@)
                || begins_with((standard_tool_names() + special_tool_names())[i], "brp_"@),
{
    reveal_strlit("bevy_");
    reveal_strlit("brp_");
    reveal_strlit("bevy_destroy");
    reveal_strlit("bevy_get");
    reveal_strlit("bevy_list");
    reveal_strlit("bevy_remove");
    reveal_strlit("bevy_insert");
    reveal_strlit("bevy_get_resource");
    reveal_strlit("bevy_insert_resource");
    reveal_strlit("bevy_remove_resource");
    reveal_strlit("bevy_mutate_component");
    reveal_strlit("bevy_mutate_resource");
    reveal_strlit("bevy_list_resources");
    reveal_strlit("bevy_rpc_discover");
    reveal_strlit("brp_extras_discover_format");
    reveal_strlit("brp_extras_screenshot");
    reveal_strlit("bevy_query");
    reveal_strlit("bevy_spawn");
    reveal_strlit("brp_execute");
    reveal_strlit("bevy_registry_schema");
    reveal_strlit("bevy_reparent");
    let all = standard_tool_names() + special_tool_names();
    assert forall|i: int| 0 <= i < all.len()
        implies #[trigger] begins_with(all[i], "bevy_"@) || begins_with(all[i], "brp_"@) by {
        if all[i][1] == 'e' {
            assert(all[i].subrange(0, 5) =~= "bevy_"@);
        } else {
            assert(all[i].subrange(0, 4) =~= "brp_"@);
        }
    }
}

/// No two tools share a name, so a tool is found by its name alone.
pub proof fn lemma_tool_names_distinct()
    ensures
        forall|i: int, j: int| 0 <= i < j < all_tool_names().len() ==> all_tool_names()[i] != all_tool_names()[j],
{
    reveal_strlit("bevy_destroy");
    reveal_strlit("bevy_get");
    reveal_strlit("bevy_list");
    reveal_strlit("bevy_remove");
    reveal_strlit("bevy_insert");
    reveal_strlit("bevy_get_resource");
    reveal_strlit("bevy_insert_resource");
    reveal_strlit("bevy_remove_resource");
    reveal_strlit("bevy_mutate_component");
    reveal_strlit("bevy_mutate_resource");
    reveal_strlit("bevy_list_resources");
    reveal_strlit("bevy_rpc_discover");
    reveal_strlit("brp_extras_discover_format");
    reveal_strlit("brp_extras_screenshot");
    reveal_strlit("bevy_query");
    reveal_strlit("bevy_spawn");
    reveal_strlit("brp_execute");
    reveal_strlit("bevy_registry_schema");
    reveal_strlit("bevy_reparent");
    reveal_strlit("list_logs");
    reveal_strlit("read_log");
    reveal_strlit("cleanup_logs");
    reveal_strlit("list_bevy_apps");
    reveal_strlit("list_brp_apps");
    reveal_strlit("list_bevy_examples");
    reveal_strlit("launch_bevy_app");
    reveal_strlit("launch_bevy_example");
    let n = all_tool_names();
    assert(n =~= seq!["bevy_destroy"@, "bevy_get"@, "bevy_list"@, "bevy_remove"@, "bevy_insert"@, "bevy_get_resource"@, "bevy_insert_resource"@, "bevy_remove_resource"@, "bevy_mutate_component"@, "bevy_mutate_resource"@, "bevy_list_resources"@, "bevy_rpc_discover"@, "brp_extras_discover_format"@, "brp_extras_screenshot"@, "bevy_query"@, "bevy_spawn"@, "brp_execute"@, "bevy_registry_schema"@, "bevy_reparent"@, "list_logs"@, "read_log"@, "cleanup_logs"@, "list_bevy_apps"@, "list_brp_apps"@, "list_bevy_examples"@, "launch_bevy_app"@, "launch_bevy_example"@]);
    assert forall|i: int, j: int| 0 <= i < j < n.len() implies n[i] != n[j] by {
        if n[i].len() == n[j].len() {
            if i == 0 && j == 21 {
                assert(n[0][0] != n[21][0]);
            } else if i == 1 && j == 20 {
                assert(n[1][0] != n[20][0]);
            } else if i == 2 && j == 19 {
                assert(n[2][0] != n[19][0]);
            } else if i == 3 && j == 4 {
                assert(n[3][5] != n[4][5]);
            } else if i == 3 && j == 16 {
                assert(n[3][1] != n[16][1]);
            } else if i == 4 && j == 16 {
                assert(n[4][1] != n[16][1]);
            } else if i == 5 && j == 11 {
                assert(n[5][5] != n[11][5]);
            } else if i == 6 && j == 7 {
                assert(n[6][5] != n[7][5]);
            } else if i == 6 && j == 9 {
                assert(n[6][5] != n[9][5]);
            } else if i == 6 && j == 17 {
                assert(n[6][5] != n[17][5]);
            } else if i == 7 && j == 9 {
                assert(n[7][5] != n[9][5]);
            } else if i == 7 && j == 17 {
                assert(n[7][7] != n[17][7]);
            } else if i == 8 && j == 13 {
                assert(n[8][1] != n[13][1]);
            } else if i == 9 && j == 17 {
                assert(n[9][5] != n[17][5]);
            } else if i == 10 && j == 26 {
                assert(n[10][0] != n[26][0]);
            } else if i == 14 && j == 15 {
                assert(n[14][5] != n[15][5]);
            } else if i == 18 && j == 23 {
                assert(n[18][0] != n[23][0]);
            }
        }
    }
}

} // verus!
