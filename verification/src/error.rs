//! The server's error categories and the builders that word its messages.

use vstd::prelude::*;
use crate::text::{concat2, concat3, concat4, concat5, contains_text, decimal, decimal_string, has_substring};

verus! {

/// Internal error types for detailed error categorization.
#[derive(Debug, Clone)]
pub enum BrpMcpError {
    MutexPoisoned(String),
    BrpCommunication(String),
    FormatDiscovery(String),
    FileOperation(String),
    InvalidState(String),
    Configuration(String),
    WatchOperation(String),
    ProcessManagement(String),
    ParameterExtraction(String),
    LogOperation(String),
    General(String),
}

/// The category of an error, without its message.
#[derive(Debug, Clone, Copy, PartialEq, Eq, Structural)]
pub enum ErrorKind {
    MutexPoisoned,
    BrpCommunication,
    FormatDiscovery,
    FileOperation,
    InvalidState,
    Configuration,
    WatchOperation,
    ProcessManagement,
    ParameterExtraction,
    LogOperation,
    General,
}

impl BrpMcpError {
    /// The category of this error.
    pub open spec fn kind(self) -> ErrorKind {
        match self {
            BrpMcpError::MutexPoisoned(_) => ErrorKind::MutexPoisoned,
            BrpMcpError::BrpCommunication(_) => ErrorKind::BrpCommunication,
            BrpMcpError::FormatDiscovery(_) => ErrorKind::FormatDiscovery,
            BrpMcpError::FileOperation(_) => ErrorKind::FileOperation,
            BrpMcpError::InvalidState(_) => ErrorKind::InvalidState,
            BrpMcpError::Configuration(_) => ErrorKind::Configuration,
            BrpMcpError::WatchOperation(_) => ErrorKind::WatchOperation,
            BrpMcpError::ProcessManagement(_) => ErrorKind::ProcessManagement,
            BrpMcpError::ParameterExtraction(_) => ErrorKind::ParameterExtraction,
            BrpMcpError::LogOperation(_) => ErrorKind::LogOperation,
            BrpMcpError::General(_) => ErrorKind::General,
        }
    }

    /// The detail message this error carries.
    pub open spec fn detail(self) -> Seq<char> {
        match self {
            BrpMcpError::MutexPoisoned(m) => m@,
            BrpMcpError::BrpCommunication(m) => m@,
            BrpMcpError::FormatDiscovery(m) => m@,
            BrpMcpError::FileOperation(m) => m@,
            BrpMcpError::InvalidState(m) => m@,
            BrpMcpError::Configuration(m) => m@,
            BrpMcpError::WatchOperation(m) => m@,
            BrpMcpError::ProcessManagement(m) => m@,
            BrpMcpError::ParameterExtraction(m) => m@,
            BrpMcpError::LogOperation(m) => m@,
            BrpMcpError::General(m) => m@,
        }
    }
}

/// The text a kind's display form puts before the detail message.
pub open spec fn kind_prefix(k: ErrorKind) -> Seq<char> {
    match k {
        ErrorKind::MutexPoisoned => "Mutex poisoned: "@,
        ErrorKind::BrpCommunication => "BRP communication failed: "@,
        ErrorKind::FormatDiscovery => "Format discovery error: "@,
        ErrorKind::FileOperation => "File operation failed: "@,
        ErrorKind::InvalidState => "Invalid state: "@,
        ErrorKind::Configuration => "Configuration error: "@,
        ErrorKind::WatchOperation => "Watch operation failed: "@,
        ErrorKind::ProcessManagement => "Process management error: "@,
        ErrorKind::ParameterExtraction => "Parameter extraction failed: "@,
        ErrorKind::LogOperation => "Log operation failed: "@,
        ErrorKind::General => Seq::empty(),
    }
}

/// The category a free-form message falls into, by the words it contains.
pub open spec fn category_of(m: Seq<char>) -> ErrorKind {
    if has_substring(m, "watch"@) || has_substring(m, "subscription"@) {
        ErrorKind::WatchOperation
    } else if has_substring(m, "process"@) || has_substring(m, "kill"@) || has_substring(m, "launch"@) {
        ErrorKind::ProcessManagement
    } else if has_substring(m, "file"@) || has_substring(m, "log"@) || has_substring(m, "read"@)
        || has_substring(m, "write"@) {
        ErrorKind::LogOperation
    } else if has_substring(m, "parameter"@) || has_substring(m, "extract"@) || has_substring(m, "invalid"@) {
        ErrorKind::ParameterExtraction
    } else {
        ErrorKind::General
    }
}

impl BrpMcpError {
    /// Builds an error of the given kind with the given message.
    pub fn of_kind(kind: ErrorKind, message: String) -> (e: BrpMcpError)
        ensures
            e.kind() == kind,
            e.detail() == message@,
    {
        match kind {
            ErrorKind::MutexPoisoned => BrpMcpError::MutexPoisoned(message),
            ErrorKind::BrpCommunication => BrpMcpError::BrpCommunication(message),
            ErrorKind::FormatDiscovery => BrpMcpError::FormatDiscovery(message),
            ErrorKind::FileOperation => BrpMcpError::FileOperation(message),
            ErrorKind::InvalidState => BrpMcpError::InvalidState(message),
            ErrorKind::Configuration => BrpMcpError::Configuration(message),
            ErrorKind::WatchOperation => BrpMcpError::WatchOperation(message),
            ErrorKind::ProcessManagement => BrpMcpError::ProcessManagement(message),
            ErrorKind::ParameterExtraction => BrpMcpError::ParameterExtraction(message),
            ErrorKind::LogOperation => BrpMcpError::LogOperation(message),
            ErrorKind::General => BrpMcpError::General(message),
        }
    }

    /// Categorize an error message by its content.
    pub fn categorize_error(message: &str) -> (e: BrpMcpError)
        ensures
            e.kind() == category_of(message@),
            e.detail() == message@,
    {
        let kind = if contains_text(message, "watch") || contains_text(message, "subscription") {
            ErrorKind::WatchOperation
        } else if contains_text(message, "process") || contains_text(message, "kill") || contains_text(message, "launch") {
            ErrorKind::ProcessManagement
        } else if contains_text(message, "file") || contains_text(message, "log") || contains_text(message, "read")
            || contains_text(message, "write") {
            ErrorKind::LogOperation
        } else if contains_text(message, "parameter") || contains_text(message, "extract") || contains_text(message, "invalid") {
            ErrorKind::ParameterExtraction
        } else {
            ErrorKind::General
        };
        BrpMcpError::of_kind(kind, String::from_str(message))
    }

    /// Create a "Failed to X" error with the variant its wording suggests.
    pub fn failed_to(action: &str, details: &str) -> (e: BrpMcpError)
        ensures
            e.detail() == "Failed to "@ + action@ + ": "@ + details@,
            e.kind() == category_of(e.detail()),
    {
        let m = concat4("Failed to ", action, ": ", details);
        BrpMcpError::categorize_error(m.as_str())
    }

    /// Create a "Cannot X" error with the variant its wording suggests.
    pub fn cannot(action: &str, reason: &str) -> (e: BrpMcpError)
        ensures
            e.detail() == "Cannot "@ + action@ + ": "@ + reason@,
            e.kind() == category_of(e.detail()),
    {
        let m = concat4("Cannot ", action, ": ", reason);
        BrpMcpError::categorize_error(m.as_str())
    }

    /// Create an "Invalid X" error.
    pub fn invalid(what: &str, details: &str) -> (e: BrpMcpError)
        ensures
            e.kind() == ErrorKind::ParameterExtraction,
            e.detail() == "Invalid "@ + what@ + ": "@ + details@,
    {
        BrpMcpError::ParameterExtraction(concat4("Invalid ", what, ": ", details))
    }

    /// Create a "Missing X" error.
    pub fn missing(what: &str) -> (e: BrpMcpError)
        ensures
            e.kind() == ErrorKind::ParameterExtraction,
            e.detail() == "Missing "@ + what@,
    {
        BrpMcpError::ParameterExtraction(concat2("Missing ", what))
    }

    /// Create an "Unexpected X" error with the variant its wording suggests.
    pub fn unexpected(what: &str, details: &str) -> (e: BrpMcpError)
        ensures
            e.detail() == "Unexpected "@ + what@ + ": "@ + details@,
            e.kind() == category_of(e.detail()),
    {
        let m = concat4("Unexpected ", what, ": ", details);
        BrpMcpError::categorize_error(m.as_str())
    }

    /// Create an error for an IO operation on a path (given as its display text).
    pub fn io_failed(operation: &str, path: &str, error: &str) -> (e: BrpMcpError)
        ensures
            e.kind() == ErrorKind::LogOperation,
            e.detail() == "Failed to "@ + operation@ + " "@ + path@ + ": "@ + error@,
    {
        let mut m = concat4("Failed to ", operation, " ", path);
        m.append(": ");
        m.append(error);
        BrpMcpError::LogOperation(m)
    }

    /// Create an error for a process operation.
    pub fn process_failed(operation: &str, process: &str, error: &str) -> (e: BrpMcpError)
        ensures
            e.kind() == ErrorKind::ProcessManagement,
            e.detail() == "Failed to "@ + operation@ + " process '"@ + process@ + "': "@ + error@,
    {
        let mut m = concat5("Failed to ", operation, " process '", process, "': ");
        m.append(error);
        BrpMcpError::ProcessManagement(m)
    }

    /// Create an error for a watch operation, naming the entity when there is one.
    pub fn watch_failed(operation: &str, entity: Option<u32>, error: &str) -> (e: BrpMcpError)
        ensures
            e.kind() == ErrorKind::WatchOperation,
            entity is None ==> e.detail() == "Failed to "@ + operation@ + ": "@ + error@,
            entity matches Some(id) ==> e.detail() == "Failed to "@ + operation@ + " for entity "@
                + decimal(id as nat) + ": "@ + error@,
    {
        match entity {
            None => BrpMcpError::WatchOperation(concat4("Failed to ", operation, ": ", error)),
            Some(id) => {
                let digits = decimal_string(id as u64);
                let mut m = concat4("Failed to ", operation, " for entity ", digits.as_str());
                m.append(": ");
                m.append(error);
                BrpMcpError::WatchOperation(m)
            },
        }
    }

    /// Create an error for a failed BRP request.
    pub fn brp_request_failed(operation: &str, error: &str) -> (e: BrpMcpError)
        ensures
            e.kind() == ErrorKind::BrpCommunication,
            e.detail() == "Failed to "@ + operation@ + " BRP request: "@ + error@,
    {
        let mut m = concat3("Failed to ", operation, " BRP request: ");
        m.append(error);
        BrpMcpError::BrpCommunication(m)
    }

    /// Create an error for a validation failure.
    pub fn validation_failed(what: &str, reason: &str) -> (e: BrpMcpError)
        ensures
            e.kind() == ErrorKind::ParameterExtraction,
            e.detail() == "Validation failed for "@ + what@ + ": "@ + reason@,
    {
        BrpMcpError::ParameterExtraction(concat4("Validation failed for ", what, ": ", reason))
    }

    /// Create an error for a stream whose limit was exceeded.
    pub fn stream_failed(operation: &str, limit: &str) -> (e: BrpMcpError)
        ensures
            e.kind() == ErrorKind::WatchOperation,
            e.detail() == "Failed to "@ + operation@ + ": limit "@ + limit@ + " exceeded"@,
    {
        BrpMcpError::WatchOperation(concat5("Failed to ", operation, ": limit ", limit, " exceeded"))
    }

    /// The error's category.
    pub fn error_kind(&self) -> (k: ErrorKind)
        ensures
            k == self.kind(),
    {
        match self {
            BrpMcpError::MutexPoisoned(_) => ErrorKind::MutexPoisoned,
            BrpMcpError::BrpCommunication(_) => ErrorKind::BrpCommunication,
            BrpMcpError::FormatDiscovery(_) => ErrorKind::FormatDiscovery,
            BrpMcpError::FileOperation(_) => ErrorKind::FileOperation,
            BrpMcpError::InvalidState(_) => ErrorKind::InvalidState,
            BrpMcpError::Configuration(_) => ErrorKind::Configuration,
            BrpMcpError::WatchOperation(_) => ErrorKind::WatchOperation,
            BrpMcpError::ProcessManagement(_) => ErrorKind::ProcessManagement,
            BrpMcpError::ParameterExtraction(_) => ErrorKind::ParameterExtraction,
            BrpMcpError::LogOperation(_) => ErrorKind::LogOperation,
            BrpMcpError::General(_) => ErrorKind::General,
        }
    }

    /// The detail message carried by the error.
    pub fn detail_text(&self) -> (s: &str)
        ensures
            s@ == self.detail(),
    {
        match self {
            BrpMcpError::MutexPoisoned(m) => m.as_str(),
            BrpMcpError::BrpCommunication(m) => m.as_str(),
            BrpMcpError::FormatDiscovery(m) => m.as_str(),
            BrpMcpError::FileOperation(m) => m.as_str(),
            BrpMcpError::InvalidState(m) => m.as_str(),
            BrpMcpError::Configuration(m) => m.as_str(),
            BrpMcpError::WatchOperation(m) => m.as_str(),
            BrpMcpError::ProcessManagement(m) => m.as_str(),
            BrpMcpError::ParameterExtraction(m) => m.as_str(),
            BrpMcpError::LogOperation(m) => m.as_str(),
            BrpMcpError::General(m) => m.as_str(),
        }
    }

    /// The error's display text: its category's prefix followed by its message
    /// (what `to_string` gives).
    pub fn to_message(&self) -> (s: String)
        ensures
            s@ == kind_prefix(self.kind()) + self.detail(),
    {
        let prefix = match self {
            BrpMcpError::MutexPoisoned(_) => "Mutex poisoned: ",
            BrpMcpError::BrpCommunication(_) => "BRP communication failed: ",
            BrpMcpError::FormatDiscovery(_) => "Format discovery error: ",
            BrpMcpError::FileOperation(_) => "File operation failed: ",
            BrpMcpError::InvalidState(_) => "Invalid state: ",
            BrpMcpError::Configuration(_) => "Configuration error: ",
            BrpMcpError::WatchOperation(_) => "Watch operation failed: ",
            BrpMcpError::ProcessManagement(_) => "Process management error: ",
            BrpMcpError::ParameterExtraction(_) => "Parameter extraction failed: ",
            BrpMcpError::LogOperation(_) => "Log operation failed: ",
            BrpMcpError::General(_) => "",
        };
        proof {
            if self.kind() == ErrorKind::General {
                reveal_strlit("");
                assert(prefix@ =~= Seq::<char>::empty());
            }
        }
        concat2(prefix, self.detail_text())
    }
}

/// The kind of protocol error that answers a failed tool call.
#[derive(Debug, Clone, Copy, PartialEq, Eq, Structural)]
pub enum ProtocolErrorKind {
    /// The call's parameters were wrong (`invalid_params`).
    InvalidParams,
    /// The server failed (`internal_error`).
    InternalError,
}

/// Which protocol error answers an error of a kind: communication, format
/// discovery, configuration and parameter errors are the caller's; the rest
/// are the server's.
pub open spec fn protocol_kind(k: ErrorKind) -> ProtocolErrorKind {
    match k {
        ErrorKind::BrpCommunication | ErrorKind::FormatDiscovery | ErrorKind::Configuration
            | ErrorKind::ParameterExtraction => ProtocolErrorKind::InvalidParams,
        _ => ProtocolErrorKind::InternalError,
    }
}

impl BrpMcpError {
    /// The protocol error that answers this error: its kind, and the detail
    /// message without the category's prefix.
    pub fn protocol_error(&self) -> (r: (ProtocolErrorKind, String))
        ensures
            r.0 == protocol_kind(self.kind()),
            r.1@ == self.detail(),
    {
        let kind = match self {
            BrpMcpError::BrpCommunication(_) | BrpMcpError::FormatDiscovery(_) | BrpMcpError::Configuration(_)
                | BrpMcpError::ParameterExtraction(_) => ProtocolErrorKind::InvalidParams,
            _ => ProtocolErrorKind::InternalError,
        };
        (kind, String::from_str(self.detail_text()))
    }
}

} // verus!
