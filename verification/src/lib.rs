//! Verified core of a Model Context Protocol server for the Bevy Remote Protocol.

pub mod text;
pub mod paths;
pub mod error;
pub mod json;
pub mod detection;
pub mod transformations;
pub mod discovery;
pub mod logs;
pub mod cargo;
pub mod cargo_detector;
pub mod detached;
pub mod tool_definitions;
pub mod prompts;
pub mod debug_mode;
pub mod json_text;
pub mod pagination;
pub mod response_formatter;
pub mod formatting;
pub mod params;
pub mod extractors;
pub mod response;
pub mod brp_client;
pub mod engine;
pub mod handler;
pub mod tools;
pub mod log_files;
pub mod watch;
pub mod schema;
pub mod registry;
pub mod tool_generator;
