//! The one error type of the library.

use vstd::prelude::*;
use vstd::string::StringExecFns;

verus! {

/// What went wrong, by the part of the system that failed, with a detail text.
#[derive(Debug, Clone, PartialEq, Eq)]
pub enum AppError {
    Audio(String),
    WebSocket(String),
    Api(String),
    Input(String),
    Permission(String),
    Config(String),
    State(String),
    Io(String),
    Serialization(String),
}

impl AppError {
    /// The heading under which errors of this kind are reported.
    pub open spec fn spec_prefix(&self) -> Seq<char> {
        match self {
            AppError::Audio(_) => "Audio error: "@,
            AppError::WebSocket(_) => "WebSocket error: "@,
            AppError::Api(_) => "API error: "@,
            AppError::Input(_) => "Input error: "@,
            AppError::Permission(_) => "Permission error: "@,
            AppError::Config(_) => "Configuration error: "@,
            AppError::State(_) => "State error: "@,
            AppError::Io(_) => "IO error: "@,
            AppError::Serialization(_) => "Serialization error: "@,
        }
    }

    /// The detail text carried by the error.
    pub open spec fn spec_detail(&self) -> Seq<char> {
        match self {
            AppError::Audio(d) => d@,
            AppError::WebSocket(d) => d@,
            AppError::Api(d) => d@,
            AppError::Input(d) => d@,
            AppError::Permission(d) => d@,
            AppError::Config(d) => d@,
            AppError::State(d) => d@,
            AppError::Io(d) => d@,
            AppError::Serialization(d) => d@,
        }
    }

    /// The detail text carried by the error.
    pub fn detail(&self) -> (d: &str)
        ensures
            d@ == self.spec_detail(),
    {
        match self {
            AppError::Audio(d) => d.as_str(),
            AppError::WebSocket(d) => d.as_str(),
            AppError::Api(d) => d.as_str(),
            AppError::Input(d) => d.as_str(),
            AppError::Permission(d) => d.as_str(),
            AppError::Config(d) => d.as_str(),
            AppError::State(d) => d.as_str(),
            AppError::Io(d) => d.as_str(),
            AppError::Serialization(d) => d.as_str(),
        }
    }

    /// The heading under which errors of this kind are reported.
    pub fn prefix(&self) -> (p: &'static str)
        ensures
            p@ == self.spec_prefix(),
    {
        match self {
            AppError::Audio(_) => "Audio error: ",
            AppError::WebSocket(_) => "WebSocket error: ",
            AppError::Api(_) => "API error: ",
            AppError::Input(_) => "Input error: ",
            AppError::Permission(_) => "Permission error: ",
            AppError::Config(_) => "Configuration error: ",
            AppError::State(_) => "State error: ",
            AppError::Io(_) => "IO error: ",
            AppError::Serialization(_) => "Serialization error: ",
        }
    }

    /// The text shown to the user: the heading followed by the detail.
    pub fn message(&self) -> (m: String)
        ensures
            m@ == self.spec_prefix() + self.spec_detail(),
    {
        String::from_str(self.prefix()).concat(self.detail())
    }
}

} // verus!
