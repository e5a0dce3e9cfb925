//! What the configuration tool asks of the plugins besides commands and
//! queries: lists of scenes, models, expressions and hotkeys.

use vstd::prelude::*;
use crate::error::ActionError;
use crate::plugins::link::Link;
use crate::plugins::{PluginConfig, PluginStates, PluginType};

verus! {

/// The token of a request that waits for a connection attempt.
#[derive(Debug)]
pub struct AwaitingLink {
    plugin: PluginType,
}

/// Whether a plugin can take a request.
#[derive(Debug)]
pub enum Readiness {
    /// The connector is connected: the request can be sent.
    Ready,
    /// A connection is to be made with this configuration, and the token
    /// told whether it was.
    Connect(PluginConfig, AwaitingLink),
}

impl AwaitingLink {
    /// The plugin that is being connected.
    pub closed spec fn plugin(self) -> PluginType {
        self.plugin
    }

    /// Takes the outcome of the connection attempt. Where it failed, the
    /// request is not to be sent.
    pub fn resume(self, plugins: &mut PluginStates, connected: bool) -> (r: Result<(), ActionError>)
        requires
            old(plugins).wf(),
        ensures
            final(plugins).wf(),
            final(plugins).changed_at(*old(plugins), self.plugin()),
            match old(plugins)@.get(self.plugin()) {
                None => r == Err::<(), ActionError>(
                    ActionError::PluginNotConfigured(self.plugin()),
                ),
                Some(before) => {
                    let after = final(plugins)@[self.plugin()];
                    &&& after.kept(before)
                    &&& after.link() == match before.link() {
                        Some(_) => Some(Link::attempted(connected)),
                        None => None,
                    }
                    &&& connected || before.link() is None ==> r == Ok::<(), ActionError>(())
                    &&& !connected && before.link() is Some ==> r == Err::<(), ActionError>(
                        ActionError::ConnectionUnavailable(before.plugin_type()),
                    )
                },
            },
    {
        match plugins.get_mut(self.plugin) {
            Some(plugin) => plugin.connection_attempted(connected),
            None => Err(ActionError::PluginNotConfigured(self.plugin)),
        }
    }
}

/// Says whether the plugin under `key` can take a request, or must be
/// connected first.
pub fn make_ready(plugins: &PluginStates, key: PluginType) -> (r: Result<Readiness, ActionError>)
    ensures
        match plugins@.get(key) {
            None => r == Err::<Readiness, ActionError>(ActionError::PluginNotConfigured(key)),
            Some(instance) => if instance.link() == Some(Link::Disconnected) {
                &&& r is Ok
                &&& r->Ok_0 is Connect
                &&& r->Ok_0->Connect_0 == instance.config()
                &&& r->Ok_0->Connect_1.plugin() == key
            } else {
                r == Ok::<Readiness, ActionError>(Readiness::Ready)
            },
        },
{
    match plugins.get(key) {
        None => Err(ActionError::PluginNotConfigured(key)),
        Some(instance) => {
            if instance.needs_connection() {
                Ok(Readiness::Connect(instance.get_config(), AwaitingLink { plugin: key }))
            } else {
                Ok(Readiness::Ready)
            }
        },
    }
}

} // verus!
