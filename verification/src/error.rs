//! Why an action or a query did not go through.

use vstd::prelude::*;
use crate::plugins::PluginType;
use crate::text::{concat2, concat3};

verus! {

/// The failure of a dispatch or of an evaluation.
#[derive(Debug)]
pub enum ActionError {
    /// The registry holds no connector for the plugin that the envelope needs.
    PluginNotConfigured(PluginType),
    /// The connector was disconnected and its connection attempt failed.
    ConnectionUnavailable(PluginType),
    /// The peer rejected the request, or the request could not be carried out.
    RequestFailed(String),
    /// A chain stopped because one of its children failed.
    ChainAborted(Box<ActionError>),
    /// The connector found under a plugin's key is of another plugin.
    MismatchedPluginAndEnvelope,
}

impl ActionError {
    /// The text shown to the user for this failure.
    pub open spec fn message(self) -> Seq<char>
        decreases self,
    {
        match self {
            ActionError::PluginNotConfigured(t) => "Plugin "@ + t.name() + " not configured"@,
            ActionError::ConnectionUnavailable(t) => "Unable to create "@ + t.name()
                + " websocket connection"@,
            ActionError::RequestFailed(detail) => detail@,
            ActionError::ChainAborted(inner) => "Action chain failed: "@ + (*inner).message(),
            ActionError::MismatchedPluginAndEnvelope => "Mismatched action and plugin instance"@,
        }
    }

    /// Whether this is a failed request with the given words.
    pub open spec fn is_request_failed_with(self, detail: Seq<char>) -> bool {
        self is RequestFailed && self->RequestFailed_0@ == detail
    }

    /// A failed request with the given words.
    pub fn request_failed(detail: &str) -> (e: ActionError)
        ensures
            e.is_request_failed_with(detail@),
    {
        ActionError::RequestFailed(detail.to_string())
    }

    /// Renders the failure as text.
    pub fn to_string(&self) -> (s: String)
        ensures
            s@ == self.message(),
        decreases self,
    {
        match self {
            ActionError::PluginNotConfigured(t) => {
                let name = t.to_string();
                concat3("Plugin ", name.as_str(), " not configured")
            },
            ActionError::ConnectionUnavailable(t) => {
                let name = t.to_string();
                concat3("Unable to create ", name.as_str(), " websocket connection")
            },
            ActionError::RequestFailed(detail) => detail.clone(),
            ActionError::ChainAborted(inner) => {
                let rest = inner.to_string();
                concat2("Action chain failed: ", rest.as_str())
            },
            ActionError::MismatchedPluginAndEnvelope => {
                "Mismatched action and plugin instance".to_string()
            },
        }
    }

    /// Whether this failure is a chain wrapping of another.
    pub fn is_chain_aborted(&self) -> (b: bool)
        ensures
            b == (self is ChainAborted),
    {
        match self {
            ActionError::ChainAborted(_) => true,
            _ => false,
        }
    }
}

} // verus!
