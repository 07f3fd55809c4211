//! The ways in which a chat exchange fails.

use vstd::prelude::*;

verus! {

/// The diagnostic of a body that is valid JSON but fits neither payload.
pub const UNRECOGNISED_PAYLOAD: &'static str =
    "response body is neither a completion payload nor an error payload";

/// The diagnostic of a completion payload whose `choices` array is empty.
pub const NO_CHOICES: &'static str = "completion payload holds no choices";

/// The description of a missing credential.
pub const MISSING_CREDENTIAL: &'static str = "the API credential is not configured";

/// Why a chat exchange produced no reply. Nothing is retried or swallowed
/// here: each failure is handed to the caller as one of these.
#[derive(Debug, Clone, PartialEq, Eq)]
pub enum ApiClientError {
    /// No credential was supplied when the client was built.
    Configuration,
    /// The transport could not complete the exchange; holds its description.
    Transport(String),
    /// The provider answered with a structured error.
    Api { message: String, code: String },
    /// The body is not one of the two known payloads, or is a completion
    /// without a choice; holds the diagnostic.
    MalformedResponse(String),
}

pub enum ApiClientErrorView {
    Configuration,
    Transport(Seq<char>),
    Api { message: Seq<char>, code: Seq<char> },
    MalformedResponse(Seq<char>),
}

impl ApiClientErrorView {
    /// The one-line description of the failure.
    pub open spec fn description(self) -> Seq<char> {
        match self {
            ApiClientErrorView::Configuration => MISSING_CREDENTIAL@,
            ApiClientErrorView::Transport(failure) => failure,
            ApiClientErrorView::Api { message, code } => "API Error: "@ + message + " (Code: "@
                + code + ")"@,
            ApiClientErrorView::MalformedResponse(diagnostic) => diagnostic,
        }
    }
}

impl View for ApiClientError {
    type V = ApiClientErrorView;

    open spec fn view(&self) -> ApiClientErrorView {
        match self {
            ApiClientError::Configuration => ApiClientErrorView::Configuration,
            ApiClientError::Transport(failure) => ApiClientErrorView::Transport(failure@),
            ApiClientError::Api { message, code } => ApiClientErrorView::Api {
                message: message@,
                code: code@,
            },
            ApiClientError::MalformedResponse(diagnostic) => ApiClientErrorView::MalformedResponse(
                diagnostic@,
            ),
        }
    }
}

impl ApiClientError {
    /// Renders the failure as one line of text.
    pub fn describe(&self) -> (r: String)
        ensures
            r@ == self@.description(),
    {
        match self {
            ApiClientError::Configuration => String::from_str(MISSING_CREDENTIAL),
            ApiClientError::Transport(failure) => failure.clone(),
            ApiClientError::Api { message, code } => {
                let mut text = String::from_str("API Error: ");
                text.append(message.as_str());
                text.append(" (Code: ");
                text.append(code.as_str());
                text.append(")");
                text
            },
            ApiClientError::MalformedResponse(diagnostic) => diagnostic.clone(),
        }
    }
}

/// The view of what a chat exchange returns: the reply's text, or the failure.
pub open spec fn outcome_view(outcome: Result<String, ApiClientError>) -> Result<
    Seq<char>,
    ApiClientErrorView,
> {
    match outcome {
        Ok(text) => Ok(text@),
        Err(error) => Err(error@),
    }
}

} // verus!
