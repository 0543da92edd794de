//! The badge that is handed back for a request, and the errors that end one.

use std::sync::Arc;
use vstd::prelude::*;
use vstd::string::StringExecFns;

verus! {

/// The badge: a label, a message, and whether the badge reports an error.
#[derive(Clone, Debug, PartialEq, Eq)]
pub struct EndpointResponse {
    pub schema_version: i8,
    pub label: String,
    pub message: String,
    pub is_error: bool,
}

/// The view of an [`EndpointResponse`].
pub struct ResponseView {
    pub schema_version: int,
    pub label: Seq<char>,
    pub message: Seq<char>,
    pub is_error: bool,
}

impl DeepView for EndpointResponse {
    type V = ResponseView;

    open spec fn deep_view(&self) -> ResponseView {
        ResponseView {
            schema_version: self.schema_version as int,
            label: self.label@,
            message: self.message@,
            is_error: self.is_error,
        }
    }
}

impl Default for EndpointResponse {
    /// Schema version 1, no error, and placeholder texts.
    fn default() -> (response: EndpointResponse)
        ensures
            response.deep_view() == (ResponseView {
                schema_version: 1,
                label: "Default Label"@,
                message: "Default Message"@,
                is_error: false,
            }),
    {
        EndpointResponse {
            schema_version: 1,
            label: String::from_str("Default Label"),
            message: String::from_str("Default Message"),
            is_error: false,
        }
    }
}

/// Why a request ended without a verdict. Each variant carries the
/// human-readable text of what went wrong.
#[derive(Clone, Debug, PartialEq, Eq)]
pub enum EndpointError {
    /// The base URL, or the base URL joined with a path, is no valid URL.
    UrlParse(String),
    /// A glob pattern is malformed.
    Pattern(String),
    /// The server could not be reached or did not answer.
    Transport(String),
    /// The server's answer does not have the expected shape.
    Decode(String),
}

impl EndpointError {
    /// The text that the error carries.
    pub open spec fn message_view(self) -> Seq<char> {
        match self {
            EndpointError::UrlParse(text) => text@,
            EndpointError::Pattern(text) => text@,
            EndpointError::Transport(text) => text@,
            EndpointError::Decode(text) => text@,
        }
    }

    /// The label under which the error is shown.
    pub open spec fn label_view(self) -> Seq<char> {
        match self {
            EndpointError::UrlParse(_) => "URL Parse Error"@,
            EndpointError::Pattern(_) => "Glob Parse Error"@,
            EndpointError::Transport(_) => "Request Error"@,
            EndpointError::Decode(_) => "Request Error"@,
        }
    }

    /// The badge that reports the error.
    pub open spec fn response_view(self) -> ResponseView {
        ResponseView {
            schema_version: 1,
            label: self.label_view(),
            message: self.message_view(),
            is_error: true,
        }
    }

    /// The text that the error carries.
    pub fn message(&self) -> (text: &str)
        ensures
            text@ == self.message_view(),
    {
        match self {
            EndpointError::UrlParse(text) => text.as_str(),
            EndpointError::Pattern(text) => text.as_str(),
            EndpointError::Transport(text) => text.as_str(),
            EndpointError::Decode(text) => text.as_str(),
        }
    }

    /// The label under which the error is shown.
    pub fn label(&self) -> (text: &'static str)
        ensures
            text@ == self.label_view(),
    {
        match self {
            EndpointError::UrlParse(_) => "URL Parse Error",
            EndpointError::Pattern(_) => "Glob Parse Error",
            EndpointError::Transport(_) => "Request Error",
            EndpointError::Decode(_) => "Request Error",
        }
    }

    /// A copy of the error.
    pub fn duplicate(&self) -> (copy: EndpointError)
        ensures
            copy == *self,
    {
        match self {
            EndpointError::UrlParse(text) => EndpointError::UrlParse(text.clone()),
            EndpointError::Pattern(text) => EndpointError::Pattern(text.clone()),
            EndpointError::Transport(text) => EndpointError::Transport(text.clone()),
            EndpointError::Decode(text) => EndpointError::Decode(text.clone()),
        }
    }

    /// Turns the error into the badge that reports it: the error flag set,
    /// the label of the error's kind, and the error's text as the message.
    pub fn into_response(self) -> (response: EndpointResponse)
        ensures
            response.deep_view() == self.response_view(),
    {
        let label = String::from_str(self.label());
        let message = match self {
            EndpointError::UrlParse(text) => text,
            EndpointError::Pattern(text) => text,
            EndpointError::Transport(text) => text,
            EndpointError::Decode(text) => text,
        };
        EndpointResponse { schema_version: 1, label, message, is_error: true }
    }
}

/// What a caller receives of a fetch that it shared with others and that
/// failed: a copy of the one error with which the fetch ended, so that all
/// who waited for the fetch receive the same failure.
pub fn shared_failure(error: &Arc<EndpointError>) -> (received: EndpointError)
    ensures
        received == **error,
{
    let failure: &EndpointError = &**error;
    failure.duplicate()
}

} // verus!
