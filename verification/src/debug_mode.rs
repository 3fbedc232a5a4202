//! Whether format discovery reports what it did.

use vstd::prelude::*;
use crate::error::{BrpMcpError, ErrorKind};
use crate::json::{JsonData, JsonValue};
use crate::params::{CallToolRequest, argument, extract_any_value};
use crate::response::{JsonResponse, ResponseBuilder, response_data, with_field};

verus! {

/// The server's debug switch.
pub struct DebugMode {
    pub enabled: bool,
}

impl DebugMode {
    /// Debug mode as the server starts: off.
    pub fn new() -> (r: DebugMode)
        ensures
            !r.enabled,
    {
        DebugMode { enabled: false }
    }
}

/// Whether debug mode is currently enabled.
pub fn is_debug_enabled(mode: &DebugMode) -> (r: bool)
    ensures
        r == mode.enabled,
{
    mode.enabled
}

/// The parameters of the request that sets debug mode.
pub struct SetDebugModeParams {
    pub enabled: bool,
}

pub open spec fn debug_mode_message(enabled: bool) -> Seq<char> {
    if enabled {
        "Debug mode enabled - format discovery debug info will be included in responses"@
    } else {
        "Debug mode disabled - format discovery debug info will be excluded from responses"@
    }
}

/// Sets debug mode as asked, and says what it is now.
pub fn set_debug_mode(mode: &mut DebugMode, params: &SetDebugModeParams) -> (r: String)
    ensures
        final(mode).enabled == params.enabled,
        r@ == debug_mode_message(params.enabled),
{
    mode.enabled = params.enabled;
    if params.enabled {
        String::from_str("Debug mode enabled - format discovery debug info will be included in responses")
    } else {
        String::from_str("Debug mode disabled - format discovery debug info will be excluded from responses")
    }
}

/// The value a request to set debug mode asks for: its `enabled` argument,
/// where that is a boolean.
pub open spec fn requested_debug(request: CallToolRequest) -> Option<bool> {
    match argument(request, "enabled"@) {
        Some(JsonData::Bool(b)) => Some(b),
        _ => None,
    }
}

/// Handles a request to set debug mode: where its `enabled` argument is a
/// boolean, debug mode is set to it and the reply says so; otherwise the
/// request is refused and debug mode stays as it was.
pub fn apply_debug_request(mode: &mut DebugMode, request: &CallToolRequest) -> (r: Result<JsonResponse, BrpMcpError>)
    ensures
        match requested_debug(*request) {
            Some(b) => {
                &&& final(mode).enabled == b
                &&& r matches Ok(reply) && response_data(reply) == (ResponseStatus::Success, debug_mode_message(b),
                    with_field(None, "debug_enabled"@, JsonData::Bool(b)), None::<JsonData>, None::<JsonData>)
            },
            None => {
                &&& *final(mode) == *old(mode)
                &&& r matches Err(e) && e.kind() == ErrorKind::ParameterExtraction
                    && (argument(*request, "enabled"@) is None
                    ==> e.detail() == "Validation failed for parameters: missing field `enabled`"@)
            },
        },
{
    let enabled = match extract_any_value(request, "enabled") {
        Some(JsonValue::Bool(b)) => *b,
        Some(_) => return Err(BrpMcpError::validation_failed("parameters", "invalid type: expected a boolean for `enabled`")),
        None => {
            proof {
                reveal_strlit("Validation failed for ");
                reveal_strlit("parameters");
                reveal_strlit(": ");
                reveal_strlit("missing field `enabled`");
                reveal_strlit("Validation failed for parameters: missing field `enabled`");
                assert("Validation failed for "@ + "parameters"@ + ": "@ + "missing field `enabled`"@
                    =~= "Validation failed for parameters: missing field `enabled`"@);
            }
            return Err(BrpMcpError::validation_failed("parameters", "missing field `enabled`"));
        },
    };
    let message = set_debug_mode(mode, &SetDebugModeParams { enabled });
    Ok(ResponseBuilder::success().message(message).add_field("debug_enabled", JsonValue::Bool(enabled)).build())
}

/// Debug mode after some requests to set it, from the server's start: the
/// value of the last request that asked for one, off where none did.
pub open spec fn debug_after(requests: Seq<CallToolRequest>) -> bool
    decreases requests.len(),
{
    if requests.len() == 0 {
        false
    } else {
        match requested_debug(requests.last()) {
            Some(b) => b,
            None => debug_after(requests.drop_last()),
        }
    }
}

/// Whether `modes` are the debug modes from the server's start through some
/// requests: off at first, then each as `apply_debug_request` leaves it.
pub open spec fn debug_history(modes: Seq<DebugMode>, requests: Seq<CallToolRequest>) -> bool {
    &&& modes.len() == requests.len() + 1
    &&& !modes[0].enabled
    &&& forall|i: int| 0 <= i < requests.len() ==> #[trigger] modes[i + 1].enabled == match requested_debug(requests[i]) {
        Some(b) => b,
        None => modes[i].enabled,
    }
}

/// Over any run of requests to set debug mode, debug mode reads as the value
/// of the last request that asked for one, and as off where none did; a
/// refused request changes nothing.
pub proof fn lemma_debug_mode_follows_requests(modes: Seq<DebugMode>, requests: Seq<CallToolRequest>)
    requires
        debug_history(modes, requests),
    ensures
        modes.last().enabled == debug_after(requests),
    decreases requests.len(),
{
    if requests.len() > 0 {
        let n = requests.len() - 1;
        let shorter = modes.drop_last();
        assert(requests.drop_last().len() == n);
        assert forall|i: int| 0 <= i < n implies #[trigger] shorter[i + 1].enabled == match requested_debug(requests.drop_last()[i]) {
            Some(b) => b,
            None => shorter[i].enabled,
        } by {
            assert(shorter[i + 1] == modes[i + 1]);
            assert(shorter[i] == modes[i]);
            assert(requests.drop_last()[i] == requests[i]);
        }
        lemma_debug_mode_follows_requests(shorter, requests.drop_last());
        assert(modes[n + 1].enabled == match requested_debug(requests[n]) { Some(b) => b, None => modes[n].enabled });
    }
}

/// Response status types.
#[derive(Debug, Clone, Copy, PartialEq, Eq, Structural)]
pub enum ResponseStatus {
    Success,
    Error,
}

} // verus!
