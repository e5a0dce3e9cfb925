//! The pages of buttons that trigger actions, and how they look.

use vstd::prelude::*;
use crate::table::Table;
use crate::text::{concat2, concat3};

verus! {

/// How a button looks. Sizes are CSS sizes, colours are CSS colours.
#[derive(Debug, PartialEq, Eq)]
pub struct ButtonStyle {
    pub width: String,
    pub height: String,
    pub bg_color: String,
    pub fg_color: String,
}

/// How the pages look.
#[derive(Debug, PartialEq, Eq)]
pub struct UIStyle {
    pub default_button_style: ButtonStyle,
    pub bg_color: String,
    pub fg_color: String,
}

/// An image, base64-encoded. `format` is its MIME type.
#[derive(Debug, PartialEq, Eq)]
pub struct Base64Image {
    pub format: String,
    pub data: String,
}

/// What a button points at, and how it differs from the default look.
#[derive(Debug, PartialEq, Eq)]
pub struct ButtonData {
    pub target_id: String,
    pub style_override: Option<ButtonStyle>,
    pub img: Option<Base64Image>,
}

/// The two kinds of button.
#[derive(Clone, Copy, Debug, PartialEq, Eq, Structural, Hash)]
pub enum UIButtonType {
    ExecuteAction,
    OpenPage,
}

/// A button: it runs an action, or it opens a page.
#[derive(Debug, PartialEq, Eq)]
pub enum UIButton {
    ExecuteAction(ButtonData),
    OpenPage(ButtonData),
}

/// A page of buttons.
#[derive(Debug, PartialEq, Eq)]
pub struct UIPage {
    pub buttons: Vec<UIButton>,
}

/// The pages, by name, and their look.
#[derive(Debug)]
pub struct UIConfig {
    pub style: UIStyle,
    pub pages: Table<UIPage>,
}

impl ButtonStyle {
    /// The style as shown to the user.
    pub open spec fn label(self) -> Seq<char> {
        "width: "@ + self.width@ + ", height: "@ + self.height@ + ", background color: "@
            + self.bg_color@ + ", text color: "@ + self.fg_color@
    }

    /// Renders the style for display.
    pub fn to_string(&self) -> (s: String)
        ensures
            s@ == self.label(),
    {
        let mut s = "width: ".to_string();
        s.append(self.width.as_str());
        s.append(", height: ");
        s.append(self.height.as_str());
        s.append(", background color: ");
        s.append(self.bg_color.as_str());
        s.append(", text color: ");
        s.append(self.fg_color.as_str());
        s
    }

    /// A copy of the style.
    pub fn duplicate(&self) -> (copy: ButtonStyle)
        ensures
            copy == *self,
    {
        ButtonStyle {
            width: self.width.clone(),
            height: self.height.clone(),
            bg_color: self.bg_color.clone(),
            fg_color: self.fg_color.clone(),
        }
    }
}

impl Clone for ButtonStyle {
    fn clone(&self) -> (copy: Self)
        ensures
            copy == *self,
    {
        self.duplicate()
    }
}

impl UIStyle {
    /// A copy of the style.
    pub fn duplicate(&self) -> (copy: UIStyle)
        ensures
            copy == *self,
    {
        UIStyle {
            default_button_style: self.default_button_style.duplicate(),
            bg_color: self.bg_color.clone(),
            fg_color: self.fg_color.clone(),
        }
    }
}

impl Clone for UIStyle {
    fn clone(&self) -> (copy: Self)
        ensures
            copy == *self,
    {
        self.duplicate()
    }
}

impl Default for UIStyle {
    /// Grey buttons of three centimetres, with white text, on a white page
    /// with black text.
    fn default() -> (style: UIStyle)
        ensures
            style.default_button_style.width@ == "3cm"@,
            style.default_button_style.height@ == "3cm"@,
            style.default_button_style.bg_color@ == "#656565"@,
            style.default_button_style.fg_color@ == "#FFFFFF"@,
            style.bg_color@ == "#FFFFFF"@,
            style.fg_color@ == "#000000"@,
    {
        UIStyle {
            default_button_style: ButtonStyle {
                width: "3cm".to_string(),
                height: "3cm".to_string(),
                bg_color: "#656565".to_string(),
                fg_color: "#FFFFFF".to_string(),
            },
            bg_color: "#FFFFFF".to_string(),
            fg_color: "#000000".to_string(),
        }
    }
}

impl Base64Image {
    /// The image as shown to the user: its MIME type.
    pub open spec fn label(self) -> Seq<char> {
        "MIME type: "@ + self.format@
    }

    /// Renders the image for display.
    pub fn to_string(&self) -> (s: String)
        ensures
            s@ == self.label(),
    {
        concat2("MIME type: ", self.format.as_str())
    }

    /// A copy of the image.
    pub fn duplicate(&self) -> (copy: Base64Image)
        ensures
            copy == *self,
    {
        Base64Image { format: self.format.clone(), data: self.data.clone() }
    }
}

impl Clone for Base64Image {
    fn clone(&self) -> (copy: Self)
        ensures
            copy == *self,
    {
        self.duplicate()
    }
}

impl ButtonData {
    /// The button's data as shown to the user.
    pub open spec fn label(self) -> Seq<char> {
        "ID: "@ + self.target_id@ + ", style override: ("@ + (match self.style_override {
            Some(style) => style.label(),
            None => "None"@,
        }) + ") and image: ("@ + (match self.img {
            Some(img) => img.label(),
            None => "None"@,
        }) + ")"@
    }

    /// Renders the button's data for display.
    pub fn to_string(&self) -> (s: String)
        ensures
            s@ == self.label(),
    {
        let mut s = "ID: ".to_string();
        s.append(self.target_id.as_str());
        s.append(", style override: (");
        match &self.style_override {
            Some(style) => {
                let text = style.to_string();
                s.append(text.as_str());
            },
            None => {
                s.append("None");
            },
        }
        s.append(") and image: (");
        match &self.img {
            Some(img) => {
                let text = img.to_string();
                s.append(text.as_str());
            },
            None => {
                s.append("None");
            },
        }
        s.append(")");
        s
    }

    /// A copy of the button's data.
    pub fn duplicate(&self) -> (copy: ButtonData)
        ensures
            copy == *self,
    {
        ButtonData {
            target_id: self.target_id.clone(),
            style_override: match &self.style_override {
                Some(style) => Some(style.duplicate()),
                None => None,
            },
            img: match &self.img {
                Some(img) => Some(img.duplicate()),
                None => None,
            },
        }
    }

    /// The data of a plain button that points at `target_id`.
    pub fn plain(target_id: String) -> (data: ButtonData)
        ensures
            data == (ButtonData { target_id, style_override: None, img: None }),
    {
        ButtonData { target_id, style_override: None, img: None }
    }
}

impl Clone for ButtonData {
    fn clone(&self) -> (copy: Self)
        ensures
            copy == *self,
    {
        self.duplicate()
    }
}

impl UIButton {
    /// The data of the button, whatever its kind.
    pub open spec fn data(self) -> ButtonData {
        match self {
            UIButton::ExecuteAction(data) => data,
            UIButton::OpenPage(data) => data,
        }
    }

    /// The kind of the button.
    pub open spec fn kind(self) -> UIButtonType {
        match self {
            UIButton::ExecuteAction(_) => UIButtonType::ExecuteAction,
            UIButton::OpenPage(_) => UIButtonType::OpenPage,
        }
    }

    /// This button with other data.
    pub open spec fn with_data(self, data: ButtonData) -> UIButton {
        match self {
            UIButton::ExecuteAction(_) => UIButton::ExecuteAction(data),
            UIButton::OpenPage(_) => UIButton::OpenPage(data),
        }
    }

    /// The data of the button, whatever its kind.
    pub fn get_data(&self) -> (data: &ButtonData)
        ensures
            *data == self.data(),
    {
        match self {
            UIButton::ExecuteAction(data) => data,
            UIButton::OpenPage(data) => data,
        }
    }

    /// The data of the button, to change it. The button keeps its kind.
    pub fn get_mut_data(&mut self) -> (data: &mut ButtonData)
        ensures
            *data == old(self).data(),
            *final(self) == old(self).with_data(*final(data)),
    {
        match self {
            UIButton::ExecuteAction(data) => data,
            UIButton::OpenPage(data) => data,
        }
    }

    /// The kind of the button.
    pub fn get_kind(&self) -> (kind: UIButtonType)
        ensures
            kind == self.kind(),
    {
        match self {
            UIButton::ExecuteAction(_) => UIButtonType::ExecuteAction,
            UIButton::OpenPage(_) => UIButtonType::OpenPage,
        }
    }

    /// The button as shown to the user.
    pub open spec fn label(self) -> Seq<char> {
        (match self {
            UIButton::ExecuteAction(_) => "Execute action"@,
            UIButton::OpenPage(_) => "Open page"@,
        }) + " with "@ + self.data().label()
    }

    /// Renders the button for display.
    pub fn to_string(&self) -> (s: String)
        ensures
            s@ == self.label(),
    {
        let data = self.get_data().to_string();
        match self {
            UIButton::ExecuteAction(_) => concat3("Execute action", " with ", data.as_str()),
            UIButton::OpenPage(_) => concat3("Open page", " with ", data.as_str()),
        }
    }

    /// A copy of the button.
    pub fn duplicate(&self) -> (copy: UIButton)
        ensures
            copy == *self,
    {
        match self {
            UIButton::ExecuteAction(data) => UIButton::ExecuteAction(data.duplicate()),
            UIButton::OpenPage(data) => UIButton::OpenPage(data.duplicate()),
        }
    }
}

impl Clone for UIButton {
    fn clone(&self) -> (copy: Self)
        ensures
            copy == *self,
    {
        self.duplicate()
    }
}

impl UIPage {
    /// A copy of the page's buttons, in order.
    pub fn duplicate_buttons(&self) -> (copy: Vec<UIButton>)
        ensures
            copy@ == self.buttons@,
    {
        let mut copy: Vec<UIButton> = Vec::new();
        let mut i: usize = 0;
        while i < self.buttons.len()
            invariant
                i <= self.buttons@.len(),
                copy@ == self.buttons@.take(i as int),
            decreases self.buttons@.len() - i,
        {
            copy.push(self.buttons[i].duplicate());
            proof {
                assert(copy@ =~= self.buttons@.take(i + 1));
            }
            i += 1;
        }
        proof {
            assert(self.buttons@.take(i as int) =~= self.buttons@);
        }
        copy
    }
}

impl Default for UIConfig {
    /// One empty page, `home`, in the default look.
    fn default() -> (config: UIConfig)
        ensures
            config.pages.wf(),
            config.pages@.dom() =~= set!["home"@],
            config.pages@["home"@].buttons@.len() == 0,
            config.pages.names().len() == 1,
            config.style.default_button_style.width@ == "3cm"@,
            config.style.default_button_style.height@ == "3cm"@,
            config.style.default_button_style.bg_color@ == "#656565"@,
            config.style.default_button_style.fg_color@ == "#FFFFFF"@,
            config.style.bg_color@ == "#FFFFFF"@,
            config.style.fg_color@ == "#000000"@,
    {
        let mut pages: Table<UIPage> = Table::new();
        let _ = pages.insert("home".to_string(), UIPage { buttons: Vec::new() });
        UIConfig { style: UIStyle::default(), pages }
    }
}

} // verus!
