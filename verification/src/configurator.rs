//! The editing of actions and pages: what the configuration tool does to
//! the documents it keeps.

use vstd::prelude::*;
use crate::text::concat3;

pub mod actions;
pub mod chain;
pub mod condition;
pub mod config;
pub mod image;
pub mod pages;
pub mod plugins;
pub mod vts;

verus! {

/// Why an edit was refused.
#[derive(Debug, PartialEq, Eq)]
pub enum EditError {
    /// An action or a page cannot have the empty name.
    EmptyId,
    /// The name is taken by another action, and overwriting was not asked.
    ActionExists,
    /// There is no action of that name to delete, copy or point at.
    ActionMissing,
    /// There is no action of that name to load.
    ActionNotFound,
    /// The action to copy into the scratch chain is not a chain.
    NotAChain,
    /// The plugin that the new action or condition needs is not configured.
    PluginNotSelected,
    /// There is no page of that name.
    PageNotFound,
    /// There is no page of that name to edit a button in.
    PageMissing,
    /// The button to move is not on the page.
    StartOutOfBounds,
    /// The place to move the button to is not on the page.
    TargetOutOfBounds,
    /// The button is not on the page.
    ButtonOutOfBounds,
    /// The file chosen as an image is of no known type.
    UnknownFileType,
    /// The file chosen as an image is of another type.
    NotAnImage,
    /// A new button cannot keep an image that it never had.
    NoOriginalImage,
    /// The new name of the page is taken by another page.
    PageExists,
    /// There is no page of that name to rename.
    PageGone,
    /// The page to generate cannot have the empty name.
    EmptyPageId,
    /// The page to generate has the name of an existing page.
    PageTaken(String),
    /// There is no page `home` to link the generated page from.
    HomeMissing,
    /// A hotkey of the model has no name.
    NamelessHotkey,
    /// Two hotkeys of the model have one name.
    DuplicateHotkey,
    /// The action to generate for the hotkey of this name has the name of
    /// an existing action.
    ActionTaken(String),
    /// The file chosen as an image could not be read.
    File(String),
}

impl EditError {
    /// The text shown to the user for this refusal.
    pub open spec fn message(self) -> Seq<char> {
        match self {
            EditError::EmptyId => "ID can't be empty"@,
            EditError::ActionExists => "Action with given ID already exists"@,
            EditError::ActionMissing => "Action with given ID does not exist"@,
            EditError::ActionNotFound => "Action with given ID not found"@,
            EditError::NotAChain => "Action with given ID is not a chain"@,
            EditError::PluginNotSelected => "Selected plugin has not been configured"@,
            EditError::PageNotFound => "Page with given ID not found"@,
            EditError::PageMissing => "Page with the given ID does not exist"@,
            EditError::StartOutOfBounds => "Starting index out of bounds"@,
            EditError::TargetOutOfBounds => "Target index out of bounds"@,
            EditError::ButtonOutOfBounds => "Button index out of bounds"@,
            EditError::UnknownFileType => "Unable to determine selected file type"@,
            EditError::NotAnImage => "Selected file does not appear to be an image"@,
            EditError::NoOriginalImage => "No original image to keep since this is adding a new button"@,
            EditError::PageExists => "A page already exists with the given ID"@,
            EditError::PageGone => "The page with the given ID does not exist"@,
            EditError::EmptyPageId => "Page ID cannot be empty"@,
            EditError::PageTaken(id) => "Page with ID "@ + id@ + " already exists"@,
            EditError::HomeMissing => "The home page appears to be missing"@,
            EditError::NamelessHotkey => "A hotkey is present in the selected model with no name"@,
            EditError::DuplicateHotkey => "Multiple hotkeys in the selected model have the same name"@,
            EditError::ActionTaken(name) => "Action with ID "@ + name@ + " already exists"@,
            EditError::File(detail) => detail@,
        }
    }

    /// Renders the refusal as text.
    pub fn to_string(&self) -> (s: String)
        ensures
            s@ == self.message(),
    {
        match self {
            EditError::EmptyId => "ID can't be empty".to_string(),
            EditError::ActionExists => "Action with given ID already exists".to_string(),
            EditError::ActionMissing => "Action with given ID does not exist".to_string(),
            EditError::ActionNotFound => "Action with given ID not found".to_string(),
            EditError::NotAChain => "Action with given ID is not a chain".to_string(),
            EditError::PluginNotSelected => "Selected plugin has not been configured".to_string(),
            EditError::PageNotFound => "Page with given ID not found".to_string(),
            EditError::PageMissing => "Page with the given ID does not exist".to_string(),
            EditError::StartOutOfBounds => "Starting index out of bounds".to_string(),
            EditError::TargetOutOfBounds => "Target index out of bounds".to_string(),
            EditError::ButtonOutOfBounds => "Button index out of bounds".to_string(),
            EditError::UnknownFileType => "Unable to determine selected file type".to_string(),
            EditError::NotAnImage => "Selected file does not appear to be an image".to_string(),
            EditError::NoOriginalImage => {
                "No original image to keep since this is adding a new button".to_string()
            },
            EditError::PageExists => "A page already exists with the given ID".to_string(),
            EditError::PageGone => "The page with the given ID does not exist".to_string(),
            EditError::EmptyPageId => "Page ID cannot be empty".to_string(),
            EditError::PageTaken(id) => concat3("Page with ID ", id.as_str(), " already exists"),
            EditError::HomeMissing => "The home page appears to be missing".to_string(),
            EditError::NamelessHotkey => {
                "A hotkey is present in the selected model with no name".to_string()
            },
            EditError::DuplicateHotkey => {
                "Multiple hotkeys in the selected model have the same name".to_string()
            },
            EditError::ActionTaken(name) => concat3(
                "Action with ID ",
                name.as_str(),
                " already exists",
            ),
            EditError::File(detail) => detail.clone(),
        }
    }
}

} // verus!
