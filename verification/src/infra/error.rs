//! Error type shared across OBS, storage, and controller boundaries.

use vstd::prelude::*;
use crate::text::{join2, owned};

verus! {

/// Application-level error normalized for controller/UI handling.
#[derive(Debug, Clone, PartialEq, Eq)]
pub enum AppError {
    /// OBS WebSocket connection setup failed.
    Connection(String),
    /// OBS accepted the connection but a request failed.
    Request(String),
    /// Local configuration failed validation or persistence.
    Config(String),
    /// Local storage or secret-service operation failed.
    Storage(String),
}

/// Text of an error: its kind, then the upstream detail.
pub open spec fn error_text(e: AppError) -> Seq<char> {
    match e {
        AppError::Connection(d) => "OBS connection failed: "@ + d@,
        AppError::Request(d) => "OBS request failed: "@ + d@,
        AppError::Config(d) => "Configuration error: "@ + d@,
        AppError::Storage(d) => "Storage error: "@ + d@,
    }
}

impl AppError {
    /// Normalize an upstream connection error from its text.
    pub fn connection(error: &str) -> (e: AppError)
        ensures
            e matches AppError::Connection(d) && d@ == error@,
    {
        AppError::Connection(owned(error))
    }

    /// Normalize an upstream OBS request error from its text.
    pub fn request(error: &str) -> (e: AppError)
        ensures
            e matches AppError::Request(d) && d@ == error@,
    {
        AppError::Request(owned(error))
    }

    /// Normalize a configuration validation or persistence error from its
    /// text.
    pub fn config(error: &str) -> (e: AppError)
        ensures
            e matches AppError::Config(d) && d@ == error@,
    {
        AppError::Config(owned(error))
    }

    /// Normalize a local storage or secret-service error from its text.
    pub fn storage(error: &str) -> (e: AppError)
        ensures
            e matches AppError::Storage(d) && d@ == error@,
    {
        AppError::Storage(owned(error))
    }

    /// The error's display text, e.g. `OBS connection failed: refused`.
    pub fn to_string(&self) -> (s: String)
        ensures
            s@ == error_text(*self),
    {
        match self {
            AppError::Connection(d) => join2("OBS connection failed: ", d.as_str()),
            AppError::Request(d) => join2("OBS request failed: ", d.as_str()),
            AppError::Config(d) => join2("Configuration error: ", d.as_str()),
            AppError::Storage(d) => join2("Storage error: ", d.as_str()),
        }
    }

    /// User-facing rendering of this error. The embedded detail (often raw
    /// text from OBS or another upstream library) is shown as it came.
    pub fn user_message(&self) -> (s: String)
        ensures
            s@ == error_text(*self),
    {
        self.to_string()
    }

    /// Concise notification title for user-visible error toasts.
    pub fn notification_title(&self) -> (s: String)
        ensures
            s@ == "SceneDeck error: "@ + error_text(*self),
    {
        let message = self.user_message();
        join2("SceneDeck error: ", message.as_str())
    }
}

} // verus!
