//! Names and records of apps launched in the background.

use vstd::prelude::*;
use crate::logs::joined_path;
use crate::debug_mode::ResponseStatus;
use crate::json::{JsonData, JsonValue, count_data};
use crate::response::{JsonResponse, ResponseBuilder, response_data, with_field};
use crate::text::{decimal, push_decimal, push_decimal_wide};

verus! {

/// Session information for a detached app.
pub struct DetachedSession {
    pub pid: u32,
    pub port: u16,
    pub log_file: String,
}

/// Persistent session information stored in the temp directory; the start
/// time is counted in seconds and nanoseconds since the Unix epoch.
pub struct SessionInfo {
    pub pid: u32,
    pub port: u16,
    pub log_file: String,
    pub start_time_secs: u64,
    pub start_time_nanos: u32,
    pub app_name: String,
}

pub open spec fn session_prefix() -> Seq<char> {
    "bevy_brp_mcp_session"@
}

/// The prefix of the names of all session files.
pub fn get_session_prefix() -> (r: &'static str)
    ensures
        r@ == session_prefix(),
{
    "bevy_brp_mcp_session"
}

/// `{prefix}_{app}_port_{port}.json`.
pub open spec fn session_info_name(app: Seq<char>, port: u16) -> Seq<char> {
    session_prefix() + "_"@ + app + "_port_"@ + decimal(port as nat) + ".json"@
}

/// `{prefix}_{app}_{timestamp}.log`.
pub open spec fn session_log_name(app: Seq<char>, timestamp: u128) -> Seq<char> {
    session_prefix() + "_"@ + app + "_"@ + decimal(timestamp as nat) + ".log"@
}

/// The path of the session info file of an app on a port, in `temp_dir`.
pub fn get_session_info_path(temp_dir: &str, app_name: &str, port: u16) -> (r: String)
    ensures
        r@ == joined_path(temp_dir@, session_info_name(app_name@, port)),
{
    let mut name = String::from_str(get_session_prefix());
    name.append("_");
    name.append(app_name);
    name.append("_port_");
    push_decimal(&mut name, port as u64);
    name.append(".json");
    crate::logs::get_log_file_path(temp_dir, name.as_str())
}

/// The path of a session log file with a given timestamp, in `temp_dir`.
pub fn get_session_log_path(temp_dir: &str, app_name: &str, timestamp: u128) -> (r: String)
    ensures
        r@ == joined_path(temp_dir@, session_log_name(app_name@, timestamp)),
{
    let mut name = String::from_str(get_session_prefix());
    name.append("_");
    name.append(app_name);
    name.append("_");
    push_decimal_wide(&mut name, timestamp);
    name.append(".log");
    crate::logs::get_log_file_path(temp_dir, name.as_str())
}

/// The reply to a launch: what was started, under which name and process,
/// with the session's process, port and log file.
pub fn launch_response(what: &str, name: &str, session: DetachedSession) -> (r: JsonResponse)
    ensures
        response_data(r) == (ResponseStatus::Success,
            "Successfully launched "@ + what@ + " '"@ + name@ + "' (PID: "@ + decimal(session.pid as nat) + ")"@,
            with_field(with_field(with_field(None, "pid"@, count_data(session.pid as nat)),
                "port"@, count_data(session.port as nat)), "log_file"@, JsonData::Str(session.log_file@)),
            None::<JsonData>, None::<JsonData>),
{
    let mut m = String::from_str("Successfully launched ");
    m.append(what);
    m.append(" '");
    m.append(name);
    m.append("' (PID: ");
    push_decimal(&mut m, session.pid as u64);
    m.append(")");
    ResponseBuilder::success()
        .message(m)
        .add_field("pid", JsonValue::from_count(session.pid as u128))
        .add_field("port", JsonValue::from_count(session.port as u128))
        .add_field("log_file", JsonValue::String(session.log_file))
        .build()
}

} // verus!
