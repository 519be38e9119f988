//! Which provider a value came from, and how a provider call can fail.
use vstd::prelude::*;

verus! {

/// The external data providers the dashboard draws on.
#[derive(Clone, Copy, Debug, PartialEq, Eq, Structural)]
pub enum Provider {
    /// The code-hosting profile API.
    Profile,
    /// The coding-time tracking API.
    TimeTracking,
    /// The quote endpoint.
    Quote,
}

/// Why one provider call produced no value.
#[derive(Debug)]
pub enum AdapterError {
    /// The request did not complete; carries the transport's own description.
    Transport(String),
    /// The body was not JSON, or not in the expected shape.
    MalformedResponse,
    /// The body was well-formed and carried the provider's own error message.
    ProviderReportedError(String),
}

/// The mathematical value of an [`AdapterError`].
pub enum AdapterErrorView {
    Transport(Seq<char>),
    MalformedResponse,
    ProviderReportedError(Seq<char>),
}

impl View for AdapterError {
    type V = AdapterErrorView;

    open spec fn view(&self) -> AdapterErrorView {
        match self {
            AdapterError::Transport(c) => AdapterErrorView::Transport(c@),
            AdapterError::MalformedResponse => AdapterErrorView::MalformedResponse,
            AdapterError::ProviderReportedError(m) => AdapterErrorView::ProviderReportedError(m@),
        }
    }
}

impl AdapterError {
    /// Text shown to a user for this error.
    pub open spec fn message_spec(&self) -> Seq<char> {
        match self {
            AdapterError::Transport(c) => "Request failed: "@ + c@,
            AdapterError::MalformedResponse => "Unexpected response from the provider"@,
            AdapterError::ProviderReportedError(m) => "Provider reported an error: "@ + m@,
        }
    }

    /// A human-readable description of this error.
    pub fn message(&self) -> (r: String)
        ensures
            r@ == self.message_spec(),
    {
        match self {
            AdapterError::Transport(c) => {
                let mut s = String::from_str("Request failed: ");
                s.append(c.as_str());
                s
            },
            AdapterError::MalformedResponse => String::from_str(
                "Unexpected response from the provider",
            ),
            AdapterError::ProviderReportedError(m) => {
                let mut s = String::from_str("Provider reported an error: ");
                s.append(m.as_str());
                s
            },
        }
    }
}

} // verus!
