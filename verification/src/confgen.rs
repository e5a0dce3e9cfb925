//! The answers that a first configuration is made of.

use vstd::prelude::*;
use vstd::string::StringSliceAdditionalSpecFns;
use crate::plugins::obs::OBSConfig;
use crate::plugins::vts::VTSConfig;
use crate::plugins::PluginConfig;

verus! {

/// The answer that a line of input gives: the line as it was typed, or
/// `default` where nothing but the end of the line was typed.
pub fn input_str(line: &str, default: &str) -> (answer: String)
    ensures
        (line.spec_bytes().len() as usize) <= 1 ==> answer@ == default@,
        (line.spec_bytes().len() as usize) > 1 ==> answer@ == line@,
{
    if line.len() <= 1 {
        default.to_string()
    } else {
        line.to_string()
    }
}

/// The configuration of the streaming plugin: no password where the answer
/// for it is empty.
pub fn obs_setup(addr: String, port: u16, pw: String) -> (config: PluginConfig)
    ensures
        config == PluginConfig::OBS(
            OBSConfig {
                addr,
                port,
                password: if pw@.len() == 0 {
                    None
                } else {
                    Some(pw)
                },
            },
        ),
{
    let password = if pw.as_str().is_empty() {
        None
    } else {
        Some(pw)
    };
    PluginConfig::OBS(OBSConfig { addr, port, password })
}

/// The configuration of the avatar plugin.
pub fn vts_setup(addr: String, token_file: String) -> (config: PluginConfig)
    ensures
        config == PluginConfig::VTS(VTSConfig { addr, token_file }),
{
    PluginConfig::VTS(VTSConfig { addr, token_file })
}

} // verus!
