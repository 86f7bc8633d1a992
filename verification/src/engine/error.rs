//! Error types: the unified error of the assistant and the user-facing
//! message each error is shown with.
use vstd::prelude::*;
use crate::text::{contains_str, has_infix, owned, push_all};

verus! {

/// What the assistant reads of a failed HTTP request: its message and
/// whether it timed out or failed to connect.
#[derive(Clone, Debug)]
pub struct HttpFailure {
    pub message: String,
    pub is_timeout: bool,
    pub is_connect: bool,
}

/// Main error type
#[derive(Debug)]
pub enum IDorisError {
    /// API-related errors (network, authentication, rate limits)
    ApiError(String),
    /// Model-related errors (loading, initialization, inference)
    ModelError(String),
    /// Configuration errors (missing keys, invalid values)
    ConfigError(String),
    /// Database errors
    DatabaseError(String),
    /// File I/O errors, by their message
    IoError(String),
    /// JSON serialization/deserialization errors, by their message
    JsonError(String),
    /// HTTP request errors
    HttpError(HttpFailure),
    /// Generic error with message
    Other(String),
}

/// The text an error displays as.
pub open spec fn display_text(e: IDorisError) -> Seq<char> {
    match e {
        IDorisError::ApiError(m) => "API Error: "@ + m@,
        IDorisError::ModelError(m) => "Model Error: "@ + m@,
        IDorisError::ConfigError(m) => "Configuration Error: "@ + m@,
        IDorisError::DatabaseError(m) => "Database Error: "@ + m@,
        IDorisError::IoError(m) => "I/O Error: "@ + m@,
        IDorisError::JsonError(m) => "JSON Error: "@ + m@,
        IDorisError::HttpError(h) => "HTTP Error: "@ + h.message@,
        IDorisError::Other(m) => "Error: "@ + m@,
    }
}

/// The message shown to the user for an error.
pub open spec fn user_text(e: IDorisError) -> Seq<char> {
    match e {
        IDorisError::ApiError(m) => if has_infix(m@, "401"@) || has_infix(m@, "authentication"@) {
            "Authentication failed. Please check your API keys in Settings."@
        } else if has_infix(m@, "429"@) || has_infix(m@, "rate limit"@) {
            "API rate limit exceeded. Please try again in a few minutes."@
        } else if has_infix(m@, "timeout"@) {
            "Request timed out. Please check your internet connection and try again."@
        } else {
            "API request failed: "@ + m@
        },
        IDorisError::ModelError(m) => if has_infix(m@, "not found"@) || has_infix(m@, "not cached"@) {
            "Model not found. Please download it from Settings > Models."@
        } else if has_infix(m@, "out of memory"@) || has_infix(m@, "OOM"@) {
            "Not enough memory to load the model. Try a smaller model or close other applications."@
        } else {
            "Model error: "@ + m@
        },
        IDorisError::ConfigError(m) => if has_infix(m@, "missing"@) || has_infix(m@, "not configured"@) {
            "Configuration missing: "@ + m@ + ". Please check Settings."@
        } else {
            "Configuration error: "@ + m@
        },
        IDorisError::DatabaseError(m) => "Database error: "@ + m@
            + ". Your data is safe, but the operation failed."@,
        IDorisError::IoError(m) => "File operation failed: "@ + m@,
        IDorisError::JsonError(_) => "Data format error. The response from the server was invalid."@,
        IDorisError::HttpError(h) => if h.is_timeout {
            "Connection timed out. Please check your internet connection."@
        } else if h.is_connect {
            "Could not connect to the service. Please check your internet connection."@
        } else {
            "Network error: "@ + h.message@
        },
        IDorisError::Other(m) => m@,
    }
}

impl IDorisError {
    /// The text the error displays as (its `Display` rendering).
    pub fn to_string(&self) -> (s: String)
        ensures
            s@ == display_text(*self),
    {
        let (prefix, m) = match self {
            IDorisError::ApiError(m) => ("API Error: ", m),
            IDorisError::ModelError(m) => ("Model Error: ", m),
            IDorisError::ConfigError(m) => ("Configuration Error: ", m),
            IDorisError::DatabaseError(m) => ("Database Error: ", m),
            IDorisError::IoError(m) => ("I/O Error: ", m),
            IDorisError::JsonError(m) => ("JSON Error: ", m),
            IDorisError::HttpError(h) => ("HTTP Error: ", &h.message),
            IDorisError::Other(m) => ("Error: ", m),
        };
        let mut s = owned(prefix);
        push_all(&mut s, m.as_str());
        s
    }
}

impl From<String> for IDorisError {
    fn from(msg: String) -> (e: Self)
        ensures
            e == IDorisError::Other(msg),
    {
        IDorisError::Other(msg)
    }
}

impl vstd::std_specs::convert::FromSpecImpl<String> for IDorisError {
    open spec fn obeys_from_spec() -> bool {
        true
    }

    open spec fn from_spec(v: String) -> Self {
        IDorisError::Other(v)
    }
}

impl From<&str> for IDorisError {
    fn from(msg: &str) -> (e: Self)
        ensures
            e matches IDorisError::Other(m) && m@ == msg@,
    {
        IDorisError::Other(owned(msg))
    }
}

impl vstd::std_specs::convert::FromSpecImpl<&str> for IDorisError {
    open spec fn obeys_from_spec() -> bool {
        false
    }

    open spec fn from_spec(v: &str) -> Self {
        IDorisError::Other(owned_spec(v))
    }
}

/// Some string whose text is that of `v`.
pub open spec fn owned_spec(v: &str) -> String {
    choose|s: String| s@ == v@
}

/// Extension trait for user-friendly error messages
pub trait UserFriendlyError {
    /// Convert technical error to user-friendly message
    fn user_message(&self) -> String;
}

impl UserFriendlyError for IDorisError {
    fn user_message(&self) -> (s: String)
        ensures
            s@ == user_text(*self),
    {
        match self {
            IDorisError::ApiError(msg) => {
                if contains_str(msg.as_str(), "401") || contains_str(msg.as_str(), "authentication") {
                    owned("Authentication failed. Please check your API keys in Settings.")
                } else if contains_str(msg.as_str(), "429") || contains_str(msg.as_str(), "rate limit") {
                    owned("API rate limit exceeded. Please try again in a few minutes.")
                } else if contains_str(msg.as_str(), "timeout") {
                    owned("Request timed out. Please check your internet connection and try again.")
                } else {
                    let mut s = owned("API request failed: ");
                    push_all(&mut s, msg.as_str());
                    s
                }
            },
            IDorisError::ModelError(msg) => {
                if contains_str(msg.as_str(), "not found") || contains_str(msg.as_str(), "not cached") {
                    owned("Model not found. Please download it from Settings > Models.")
                } else if contains_str(msg.as_str(), "out of memory") || contains_str(msg.as_str(), "OOM") {
                    owned("Not enough memory to load the model. Try a smaller model or close other applications.")
                } else {
                    let mut s = owned("Model error: ");
                    push_all(&mut s, msg.as_str());
                    s
                }
            },
            IDorisError::ConfigError(msg) => {
                if contains_str(msg.as_str(), "missing") || contains_str(msg.as_str(), "not configured") {
                    let mut s = owned("Configuration missing: ");
                    push_all(&mut s, msg.as_str());
                    push_all(&mut s, ". Please check Settings.");
                    s
                } else {
                    let mut s = owned("Configuration error: ");
                    push_all(&mut s, msg.as_str());
                    s
                }
            },
            IDorisError::DatabaseError(msg) => {
                let mut s = owned("Database error: ");
                push_all(&mut s, msg.as_str());
                push_all(&mut s, ". Your data is safe, but the operation failed.");
                s
            },
            IDorisError::IoError(msg) => {
                let mut s = owned("File operation failed: ");
                push_all(&mut s, msg.as_str());
                s
            },
            IDorisError::JsonError(_) => owned("Data format error. The response from the server was invalid."),
            IDorisError::HttpError(h) => {
                if h.is_timeout {
                    owned("Connection timed out. Please check your internet connection.")
                } else if h.is_connect {
                    owned("Could not connect to the service. Please check your internet connection.")
                } else {
                    let mut s = owned("Network error: ");
                    push_all(&mut s, h.message.as_str());
                    s
                }
            },
            IDorisError::Other(msg) => msg.clone(),
        }
    }
}

} // verus!
