//! The connection state that every connector keeps, and how it changes.
//!
//! A connector is either connected or disconnected. It connects when it is
//! used while disconnected, and it disconnects when a request fails. A failed
//! request is not sent again: the next use of the connector connects anew.

use vstd::prelude::*;
use crate::error::ActionError;
use crate::plugins::PluginType;

verus! {

/// Whether a connector holds a live connection.
#[derive(Clone, Copy, Debug, PartialEq, Eq, Structural, Hash)]
pub enum Link {
    Connected,
    Disconnected,
}

impl Link {
    /// The state that a connection attempt leaves.
    pub open spec fn attempted(succeeded: bool) -> Link {
        if succeeded {
            Link::Connected
        } else {
            Link::Disconnected
        }
    }

    /// The state after a request, by whether the request failed.
    pub open spec fn answered(self, failed: bool) -> Link {
        if failed {
            Link::Disconnected
        } else {
            self
        }
    }

    /// The state of a connector whose connection attempt went as given.
    pub fn after_attempt(succeeded: bool) -> (link: Link)
        ensures
            link == Link::attempted(succeeded),
    {
        if succeeded {
            Link::Connected
        } else {
            Link::Disconnected
        }
    }

    /// Whether a connection must be made before a request can be sent.
    pub fn needs_connection(&self) -> (needed: bool)
        ensures
            needed == (*self is Disconnected),
    {
        match self {
            Link::Connected => false,
            Link::Disconnected => true,
        }
    }

    /// Records a connection attempt made for `plugin`. A failed attempt
    /// leaves the connector disconnected and is reported; the request is
    /// then not to be sent.
    pub fn connection_attempted(&mut self, plugin: PluginType, succeeded: bool) -> (r: Result<
        (),
        ActionError,
    >)
        ensures
            *final(self) == Link::attempted(succeeded),
            succeeded ==> r == Ok::<(), ActionError>(()),
            !succeeded ==> r == Err::<(), ActionError>(ActionError::ConnectionUnavailable(plugin)),
    {
        if succeeded {
            *self = Link::Connected;
            Ok(())
        } else {
            *self = Link::Disconnected;
            Err(ActionError::ConnectionUnavailable(plugin))
        }
    }

    /// Records the peer's reply to a request: a failure disconnects and is
    /// handed on with the peer's words; an answer is handed on as it is.
    pub fn request_answered<T>(&mut self, reply: Result<T, String>) -> (r: Result<T, ActionError>)
        ensures
            *final(self) == old(self).answered(reply is Err),
            match reply {
                Ok(answer) => r == Ok::<T, ActionError>(answer),
                Err(detail) => r == Err::<T, ActionError>(ActionError::RequestFailed(detail)),
            },
    {
        match reply {
            Ok(answer) => Ok(answer),
            Err(detail) => {
                *self = Link::Disconnected;
                Err(ActionError::RequestFailed(detail))
            },
        }
    }
}

} // verus!
