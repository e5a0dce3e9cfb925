//! Reusable actions for pluggable control surfaces.
//!
//! An [`action::Action`] is a single plugin command, an ordered chain of
//! actions, or a branch guarded by a plugin query. The library decides what to
//! do next; the caller performs the network traffic it asks for and hands the
//! answers back. No function of this crate performs I/O.

use vstd::prelude::*;
use crate::plugins::PluginConfig;

pub mod action;
pub mod confgen;
pub mod configurator;
pub mod error;
pub mod plugins;
pub mod table;
pub mod number;
pub mod text;
pub mod ui;

verus! {

/// Where the trigger server listens, and the plugins it drives.
#[derive(Debug, PartialEq, Eq)]
pub struct AppConfig {
    pub addr: String,
    pub port: u16,
    pub plugins: Vec<PluginConfig>,
}

impl AppConfig {
    /// A copy of the configuration.
    pub fn duplicate(&self) -> (copy: AppConfig)
        ensures
            copy.addr == self.addr,
            copy.port == self.port,
            copy.plugins@ == self.plugins@,
    {
        let mut plugins: Vec<PluginConfig> = Vec::new();
        let mut i: usize = 0;
        while i < self.plugins.len()
            invariant
                i <= self.plugins@.len(),
                plugins@ == self.plugins@.take(i as int),
            decreases self.plugins@.len() - i,
        {
            plugins.push(self.plugins[i].duplicate());
            proof {
                assert(plugins@ =~= self.plugins@.take(i + 1));
            }
            i += 1;
        }
        proof {
            assert(self.plugins@.take(i as int) =~= self.plugins@);
        }
        AppConfig { addr: self.addr.clone(), port: self.port, plugins }
    }
}

impl Clone for AppConfig {
    fn clone(&self) -> (copy: Self)
        ensures
            copy.addr == self.addr,
            copy.port == self.port,
            copy.plugins@ == self.plugins@,
    {
        self.duplicate()
    }
}

impl Default for AppConfig {
    /// The configuration of a fresh installation: `localhost`, port 8080,
    /// and the general plugin alone.
    fn default() -> (config: AppConfig)
        ensures
            config.addr@ == "localhost"@,
            config.port == 8080,
            config.plugins@ == seq![PluginConfig::General],
    {
        AppConfig {
            addr: "localhost".to_string(),
            port: 8080,
            plugins: PluginConfig::get_default_vec(),
        }
    }
}

} // verus!
