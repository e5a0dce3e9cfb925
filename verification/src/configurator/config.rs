//! What the configuration tool keeps at hand while it runs.

use vstd::prelude::*;
use crate::ui::{UIConfig, UIStyle};
use crate::AppConfig;

verus! {

/// The folder that the configuration documents are kept in.
#[derive(Debug)]
pub struct ConfigFolder(pub String);

/// The configuration that the tool was started with.
#[derive(Debug)]
pub struct AppConfigState(pub AppConfig);

/// The pages as they are being edited.
#[derive(Debug)]
pub struct UIConfigState(pub UIConfig);

/// A copy of the configuration that the tool was started with.
pub fn get_config(conf_state: &AppConfigState) -> (config: AppConfig)
    ensures
        config.addr == conf_state.0.addr,
        config.port == conf_state.0.port,
        config.plugins@ == conf_state.0.plugins@,
{
    conf_state.0.duplicate()
}

/// The folder that the configuration documents are kept in.
pub fn get_config_folder(conf_state: &ConfigFolder) -> (folder: String)
    ensures
        folder == conf_state.0,
{
    conf_state.0.clone()
}

/// The path of the document `name` in the configuration folder.
pub fn document_path(conf_state: &ConfigFolder, name: &str) -> (path: String)
    ensures
        path@ == conf_state.0@ + "/"@ + name@,
{
    crate::text::concat3(conf_state.0.as_str(), "/", name)
}

/// Puts `style` in place of the look of the pages.
pub fn store_ui_style(style: UIStyle, ui_state: &mut UIConfigState)
    ensures
        final(ui_state).0.style == style,
        final(ui_state).0.pages == old(ui_state).0.pages,
{
    ui_state.0.style = style;
}

/// A copy of the look of the pages.
pub fn get_ui_style(ui_state: &UIConfigState) -> (style: UIStyle)
    ensures
        style == ui_state.0.style,
{
    ui_state.0.style.duplicate()
}

} // verus!
