//! The pages of buttons, and how they are listed and edited.

use vstd::prelude::*;
use crate::configurator::image::{examinable, get_base64image_from_bytes, is_image_from};
use crate::configurator::EditError;
use crate::action::ActionConfig;
use crate::text::{ascending, sort_texts};
use crate::ui::{Base64Image, ButtonData, UIButton, UIButtonType, UIConfig, UIPage};

verus! {

impl UIConfig {
    /// The pages are in order. Every configuration that this crate hands
    /// out is well formed, and its functions keep it so.
    pub open spec fn wf(self) -> bool {
        self.pages.wf()
    }

    /// The buttons of the page named `id`.
    pub open spec fn buttons_of(self, id: Seq<char>) -> Seq<UIButton> {
        self.pages@[id].buttons@
    }

    /// This configuration is `before`, but for the page named `id`.
    pub open spec fn changed_at(self, before: UIConfig, id: Seq<char>) -> bool {
        &&& self.wf()
        &&& self.style == before.style
        &&& self.pages.names() == before.pages.names()
        &&& forall|other: Seq<char>|
            self.pages@.contains_key(other) == #[trigger] before.pages@.contains_key(other)
        &&& forall|other: Seq<char>|
            other != id && #[trigger] before.pages@.contains_key(other) ==> self.pages@[other]
                == before.pages@[other]
    }

    /// This configuration is `before`, as far as can be observed.
    pub open spec fn same(self, before: UIConfig) -> bool {
        &&& self.wf()
        &&& self.style == before.style
        &&& self.pages.names() == before.pages.names()
        &&& self.pages@ == before.pages@
    }
}

/// The names of the pages, in ascending order.
pub fn get_page_names(ui: &UIConfig) -> (names: Vec<String>)
    requires
        ui.wf(),
    ensures
        ascending(names@),
        names@.to_multiset() == ui.pages.names().to_multiset(),
{
    let mut names = ui.pages.keys();
    sort_texts(&mut names);
    names
}

/// The buttons of the page named `id`, each as shown to the user.
pub fn get_page_buttons_info(id: &str, ui: &UIConfig) -> (r: Result<Vec<String>, EditError>)
    requires
        ui.wf(),
    ensures
        match r {
            Ok(texts) => {
                &&& ui.pages@.contains_key(id@)
                &&& texts@.len() == ui.buttons_of(id@).len()
                &&& forall|i: int|
                    0 <= i < texts@.len() ==> (#[trigger] texts@[i])@ == ui.buttons_of(
                        id@,
                    )[i].label()
            },
            Err(e) => !ui.pages@.contains_key(id@) && e == EditError::PageNotFound,
        },
{
    let page = match ui.pages.get(id) {
        Some(page) => page,
        None => {
            return Err(EditError::PageNotFound);
        },
    };
    let mut texts: Vec<String> = Vec::new();
    let mut i: usize = 0;
    while i < page.buttons.len()
        invariant
            i <= page.buttons@.len(),
            texts@.len() == i,
            forall|j: int| 0 <= j < i ==> (#[trigger] texts@[j])@ == page.buttons@[j].label(),
        decreases page.buttons@.len() - i,
    {
        texts.push(page.buttons[i].to_string());
        i += 1;
    }
    Ok(texts)
}

/// Takes the button at place `index` off the page named `id`.
pub fn delete_button_from_page(id: &str, index: usize, ui: &mut UIConfig) -> (r: Result<
    (),
    EditError,
>)
    requires
        old(ui).wf(),
        old(ui).pages@.contains_key(id@) ==> index < old(ui).buttons_of(id@).len(),
    ensures
        final(ui).changed_at(*old(ui), id@),
        old(ui).pages@.contains_key(id@) ==> r == Ok::<(), EditError>(()) && final(ui).buttons_of(
            id@,
        ) == old(ui).buttons_of(id@).remove(index as int),
        !old(ui).pages@.contains_key(id@) ==> r == Err::<(), EditError>(EditError::PageNotFound),
{
    match ui.pages.get_mut(id) {
        Some(page) => {
            let _ = page.buttons.remove(index);
            Ok(())
        },
        None => Err(EditError::PageNotFound),
    }
}

/// Takes the page named `id` out.
pub fn delete_page(id: &str, ui: &mut UIConfig) -> (r: Result<(), EditError>)
    requires
        old(ui).wf(),
    ensures
        final(ui).wf(),
        final(ui).style == old(ui).style,
        final(ui).pages@ == old(ui).pages@.remove(id@),
        old(ui).pages@.contains_key(id@) ==> r == Ok::<(), EditError>(()),
        !old(ui).pages@.contains_key(id@) ==> r == Err::<(), EditError>(EditError::PageNotFound),
{
    match ui.pages.remove(id) {
        Some(_) => Ok(()),
        None => Err(EditError::PageNotFound),
    }
}

/// Moves the button at place `index_initial` of the page named `id` to
/// place `index_target`; the buttons between the two places shift by one.
pub fn move_button_to_index(
    id: &str,
    index_initial: usize,
    index_target: usize,
    ui: &mut UIConfig,
) -> (r: Result<(), EditError>)
    requires
        old(ui).wf(),
    ensures
        final(ui).changed_at(*old(ui), id@),
        r is Err ==> final(ui).pages@ == old(ui).pages@,
        !old(ui).pages@.contains_key(id@) ==> r == Err::<(), EditError>(EditError::PageNotFound),
        old(ui).pages@.contains_key(id@) ==> ({
            let buttons = old(ui).buttons_of(id@);
            if index_initial >= buttons.len() {
                r == Err::<(), EditError>(EditError::StartOutOfBounds)
            } else if index_target >= buttons.len() {
                r == Err::<(), EditError>(EditError::TargetOutOfBounds)
            } else {
                &&& r == Ok::<(), EditError>(())
                &&& final(ui).buttons_of(id@) == buttons.remove(index_initial as int).insert(
                    index_target as int,
                    buttons[index_initial as int],
                )
            }
        }),
{
    let ghost before = ui.pages@;
    match ui.pages.get_mut(id) {
        Some(page) => {
            if index_initial >= page.buttons.len() {
                proof {
                    assert(after_borrow(*ui).pages@ =~= before);
                }
                return Err(EditError::StartOutOfBounds);
            }
            if index_target >= page.buttons.len() {
                proof {
                    assert(after_borrow(*ui).pages@ =~= before);
                }
                return Err(EditError::TargetOutOfBounds);
            }
            let button = page.buttons.remove(index_initial);
            page.buttons.insert(index_target, button);
            Ok(())
        },
        None => Err(EditError::PageNotFound),
    }
}

/// A copy of the button at place `index` of the page named `id`.
pub fn get_page_button_data(id: &str, index: usize, ui: &UIConfig) -> (r: Result<UIButton, EditError>)
    requires
        ui.wf(),
    ensures
        !ui.pages@.contains_key(id@) ==> r == Err::<UIButton, EditError>(EditError::PageNotFound),
        ui.pages@.contains_key(id@) ==> if index < ui.buttons_of(id@).len() {
            r == Ok::<UIButton, EditError>(ui.buttons_of(id@)[index as int])
        } else {
            r == Err::<UIButton, EditError>(EditError::ButtonOutOfBounds)
        },
{
    match ui.pages.get(id) {
        Some(page) => {
            if index >= page.buttons.len() {
                Err(EditError::ButtonOutOfBounds)
            } else {
                Ok(page.buttons[index].duplicate())
            }
        },
        None => Err(EditError::PageNotFound),
    }
}

/// A copy of the buttons of the page named `id`, in order.
pub fn get_page_buttons(id: &str, ui: &UIConfig) -> (r: Result<Vec<UIButton>, EditError>)
    requires
        ui.wf(),
    ensures
        match r {
            Ok(buttons) => ui.pages@.contains_key(id@) && buttons@ == ui.buttons_of(id@),
            Err(e) => !ui.pages@.contains_key(id@) && e == EditError::PageNotFound,
        },
{
    match ui.pages.get(id) {
        Some(page) => Ok(page.duplicate_buttons()),
        None => Err(EditError::PageNotFound),
    }
}

/// Whether one of `texts` is the text `wanted`.
pub open spec fn listed(texts: Seq<String>, wanted: Seq<char>) -> bool {
    exists|i: int| 0 <= i < texts.len() && (#[trigger] texts[i])@ == wanted
}

/// Those of `names` that are not among `taken`, in the order of `names`.
pub open spec fn not_taken(names: Seq<String>, taken: Seq<String>) -> Seq<String>
    decreases names.len(),
{
    if names.len() == 0 {
        names
    } else {
        let before = not_taken(names.drop_last(), taken);
        if listed(taken, names.last()@) {
            before
        } else {
            before.push(names.last())
        }
    }
}

/// The names that the first `upto` of `buttons` point at, as far as they
/// are of the given kind, in order.
pub open spec fn targets_of(buttons: Seq<UIButton>, kind: UIButtonType, upto: int) -> Seq<String>
    decreases upto,
{
    if upto <= 0 || upto > buttons.len() {
        Seq::empty()
    } else {
        let before = targets_of(buttons, kind, upto - 1);
        if buttons[upto - 1].kind() == kind {
            before.push(buttons[upto - 1].data().target_id)
        } else {
            before
        }
    }
}

/// The names that the buttons of the first `upto` of `pages` point at, as
/// far as they are of the given kind, page after page.
pub open spec fn targets_in(pages: Seq<UIPage>, kind: UIButtonType, upto: int) -> Seq<String>
    decreases upto,
{
    if upto <= 0 || upto > pages.len() {
        Seq::empty()
    } else {
        targets_in(pages, kind, upto - 1) + targets_of(
            pages[upto - 1].buttons@,
            kind,
            pages[upto - 1].buttons@.len() as int,
        )
    }
}

/// Whether one of `texts` is the text `wanted`.
pub fn is_listed(texts: &Vec<String>, wanted: &String) -> (found: bool)
    ensures
        found == listed(texts@, wanted@),
{
    let mut i: usize = 0;
    while i < texts.len()
        invariant
            i <= texts@.len(),
            forall|j: int| 0 <= j < i ==> (#[trigger] texts@[j])@ != wanted@,
        decreases texts@.len() - i,
    {
        if texts[i] == *wanted {
            return true;
        }
        i += 1;
    }
    false
}

/// Adds to `targets` the names that the buttons of the given kind point
/// at.
fn collect_targets(buttons: &Vec<UIButton>, kind: UIButtonType, targets: &mut Vec<String>)
    ensures
        final(targets)@ == old(targets)@ + targets_of(buttons@, kind, buttons@.len() as int),
{
    let mut i: usize = 0;
    proof {
        assert(targets@ =~= old(targets)@ + targets_of(buttons@, kind, 0));
    }
    while i < buttons.len()
        invariant
            i <= buttons@.len(),
            targets@ == old(targets)@ + targets_of(buttons@, kind, i as int),
        decreases buttons@.len() - i,
    {
        let same_kind = match kind {
            UIButtonType::ExecuteAction => match &buttons[i] {
                UIButton::ExecuteAction(_) => true,
                UIButton::OpenPage(_) => false,
            },
            UIButtonType::OpenPage => match &buttons[i] {
                UIButton::ExecuteAction(_) => false,
                UIButton::OpenPage(_) => true,
            },
        };
        if same_kind {
            targets.push(buttons[i].get_data().target_id.clone());
        }
        proof {
            assert(targets@ =~= old(targets)@ + targets_of(buttons@, kind, i + 1));
        }
        i += 1;
    }
}

/// The names that the buttons of the given kind point at, on all pages.
fn collect_all_targets(ui: &UIConfig, kind: UIButtonType) -> (targets: Vec<String>)
    requires
        ui.wf(),
    ensures
        targets@ == targets_in(ui.pages.values(), kind, ui.pages.values().len() as int),
{
    let mut targets: Vec<String> = Vec::new();
    let mut p: usize = 0;
    let count = ui.pages.len();
    proof {
        assert(targets@ =~= targets_in(ui.pages.values(), kind, 0));
    }
    while p < count
        invariant
            ui.wf(),
            count == ui.pages.values().len(),
            count == ui.pages.names().len(),
            p <= count,
            targets@ == targets_in(ui.pages.values(), kind, p as int),
        decreases count - p,
    {
        collect_targets(&ui.pages.value_at(p).buttons, kind, &mut targets);
        p += 1;
    }
    targets
}

/// Those of `names` that are not among `taken`, in ascending order.
fn remaining_sorted(names: &Vec<String>, taken: &Vec<String>) -> (left: Vec<String>)
    ensures
        ascending(left@),
        left@.to_multiset() == not_taken(names@, taken@).to_multiset(),
{
    let mut left: Vec<String> = Vec::new();
    let mut i: usize = 0;
    proof {
        assert(names@.take(0) =~= Seq::<String>::empty());
    }
    while i < names.len()
        invariant
            i <= names@.len(),
            left@ == not_taken(names@.take(i as int), taken@),
        decreases names@.len() - i,
    {
        proof {
            assert(names@.take(i + 1).drop_last() =~= names@.take(i as int));
        }
        if !is_listed(taken, &names[i]) {
            left.push(names[i].clone());
        }
        i += 1;
    }
    proof {
        assert(names@.take(i as int) =~= names@);
    }
    sort_texts(&mut left);
    left
}

/// The names that a new button of the given kind must not point at: what
/// the buttons of that kind already point at, on all pages or on the page
/// `id`; and for a button that opens a page, the page `id` itself.
pub open spec fn names_taken(
    ui: UIConfig,
    kind: UIButtonType,
    id: Option<String>,
    global_filter: bool,
) -> Seq<String> {
    let own = if kind is OpenPage && id is Some {
        seq![id->0]
    } else {
        Seq::empty()
    };
    if global_filter {
        targets_in(ui.pages.values(), kind, ui.pages.values().len() as int) + own
    } else if id is Some {
        own + targets_of(ui.buttons_of(id->0@), kind, ui.buttons_of(id->0@).len() as int)
    } else {
        Seq::empty()
    }
}

/// The names of the actions that a new button can run, in ascending order:
/// all actions but those that a button already runs, on any page where
/// `global_filter` is set, else on the page named `id`, if one is named.
fn get_action_name_list_filtered(
    id: Option<String>,
    global_filter: bool,
    ui: &UIConfig,
    actions: &ActionConfig,
) -> (r: Result<Vec<String>, EditError>)
    requires
        ui.wf(),
        actions.actions.wf(),
    ensures
        !global_filter && id is Some && !ui.pages@.contains_key(id->0@) ==> r == Err::<
            Vec<String>,
            EditError,
        >(EditError::PageNotFound),
        global_filter || id is None || ui.pages@.contains_key(id->0@) ==> {
            &&& r is Ok
            &&& ascending(r->Ok_0@)
            &&& r->Ok_0@.to_multiset() == not_taken(
                actions.actions.names(),
                names_taken(*ui, UIButtonType::ExecuteAction, id, global_filter),
            ).to_multiset()
        },
{
    let mut existing_actions: Vec<String> = Vec::new();
    if global_filter {
        existing_actions = collect_all_targets(ui, UIButtonType::ExecuteAction);
        proof {
            assert(existing_actions@ + Seq::<String>::empty() =~= existing_actions@);
        }
    } else if let Some(id) = &id {
        let page = match ui.pages.get(id.as_str()) {
            Some(page) => page,
            None => {
                return Err(EditError::PageNotFound);
            },
        };
        collect_targets(&page.buttons, UIButtonType::ExecuteAction, &mut existing_actions);
    }
    let names = actions.actions.keys();
    Ok(remaining_sorted(&names, &existing_actions))
}

/// The names of the pages that a new button can open, in ascending order:
/// all pages but the page named `id` itself and those that a button
/// already opens, on any page where `global_filter` is set, else on the
/// page named `id`, if one is named.
fn get_page_name_list_filtered(id: Option<String>, global_filter: bool, ui: &UIConfig) -> (r: Result<
    Vec<String>,
    EditError,
>)
    requires
        ui.wf(),
    ensures
        !global_filter && id is Some && !ui.pages@.contains_key(id->0@) ==> r == Err::<
            Vec<String>,
            EditError,
        >(EditError::PageNotFound),
        global_filter || id is None || ui.pages@.contains_key(id->0@) ==> {
            &&& r is Ok
            &&& ascending(r->Ok_0@)
            &&& r->Ok_0@.to_multiset() == not_taken(
                ui.pages.names(),
                names_taken(*ui, UIButtonType::OpenPage, id, global_filter),
            ).to_multiset()
        },
{
    let mut existing_pages: Vec<String> = Vec::new();
    if global_filter {
        existing_pages = collect_all_targets(ui, UIButtonType::OpenPage);
        if let Some(id) = &id {
            existing_pages.push(id.clone());
        }
        proof {
            let all = targets_in(
                ui.pages.values(),
                UIButtonType::OpenPage,
                ui.pages.values().len() as int,
            );
            if id is Some {
                assert(existing_pages@ =~= all + seq![id->0]);
            } else {
                assert(existing_pages@ =~= all + Seq::<String>::empty());
            }
        }
    } else if let Some(id) = &id {
        let page = match ui.pages.get(id.as_str()) {
            Some(page) => page,
            None => {
                return Err(EditError::PageNotFound);
            },
        };
        existing_pages.push(id.clone());
        collect_targets(&page.buttons, UIButtonType::OpenPage, &mut existing_pages);
    }
    let names = ui.pages.keys();
    Ok(remaining_sorted(&names, &existing_pages))
}

/// The names that a new button of kind `output_type` can point at, in
/// ascending order: the actions or the pages, but those that a button of
/// that kind already points at.
pub fn get_page_or_action_name_list(
    page_id: Option<String>,
    output_type: UIButtonType,
    global_filter: bool,
    ui: &UIConfig,
    actions: &ActionConfig,
) -> (r: Result<Vec<String>, EditError>)
    requires
        ui.wf(),
        actions.actions.wf(),
    ensures
        !global_filter && page_id is Some && !ui.pages@.contains_key(page_id->0@) ==> r == Err::<
            Vec<String>,
            EditError,
        >(EditError::PageNotFound),
        global_filter || page_id is None || ui.pages@.contains_key(page_id->0@) ==> {
            &&& r is Ok
            &&& ascending(r->Ok_0@)
            &&& r->Ok_0@.to_multiset() == not_taken(
                match output_type {
                    UIButtonType::ExecuteAction => actions.actions.names(),
                    UIButtonType::OpenPage => ui.pages.names(),
                },
                names_taken(*ui, output_type, page_id, global_filter),
            ).to_multiset()
        },
{
    match output_type {
        UIButtonType::ExecuteAction => get_action_name_list_filtered(
            page_id,
            global_filter,
            ui,
            actions,
        ),
        UIButtonType::OpenPage => get_page_name_list_filtered(page_id, global_filter, ui),
    }
}

/// The format that stands for "leave the button's image as it is".
pub open spec fn keep_original() -> Seq<char> {
    "keeporiginal"@
}

/// What is to become of a button's image when the button is written.
pub enum ImagePlan {
    /// The button has no image.
    Without,
    /// The button keeps the image that it has.
    Keep,
    /// The image is made of the file whose path the button's data names.
    Load,
}

impl UIButton {
    /// What is to become of the image, going by the data that came in.
    pub open spec fn image_plan(self) -> ImagePlan {
        match self.data().img {
            None => ImagePlan::Without,
            Some(img) => if img.format@ == keep_original() {
                ImagePlan::Keep
            } else {
                ImagePlan::Load
            },
        }
    }

    /// This button with another image.
    pub open spec fn with_image(self, img: Option<Base64Image>) -> UIButton {
        self.with_data(ButtonData { img, ..self.data() })
    }

    /// Whether `written` is this button with an image made of `bytes`.
    pub open spec fn written_with(self, written: UIButton, bytes: Seq<u8>) -> bool {
        &&& written.kind() == self.kind()
        &&& written.data().target_id == self.data().target_id
        &&& written.data().style_override == self.data().style_override
        &&& written.data().img is Some
        &&& is_image_from(Ok(written.data().img->0), bytes)
    }

    /// The path of the file that the image is to be made of, if it is to be
    /// made of one.
    pub fn image_to_load(&self) -> (path: Option<&String>)
        ensures
            match path {
                Some(p) => self.image_plan() is Load && *p == self.data().img->0.data,
                None => !(self.image_plan() is Load),
            },
    {
        match &self.get_data().img {
            None => None,
            Some(img) => {
                if img.format == "keeporiginal".to_string() {
                    None
                } else {
                    Some(&img.data)
                }
            },
        }
    }

    /// The button of the given kind with the given data.
    pub fn of_kind(kind: UIButtonType, data: ButtonData) -> (button: UIButton)
        ensures
            button.kind() == kind,
            button.data() == data,
    {
        match kind {
            UIButtonType::ExecuteAction => UIButton::ExecuteAction(data),
            UIButtonType::OpenPage => UIButton::OpenPage(data),
        }
    }

    /// The data of the button, taken out of it.
    pub fn into_data(self) -> (data: ButtonData)
        ensures
            data == self.data(),
    {
        match self {
            UIButton::ExecuteAction(data) => data,
            UIButton::OpenPage(data) => data,
        }
    }
}

impl UIButton {
    /// Whether the writing of this button over the button at place `index`
    /// of the page named `id` looks at the file that the button's data
    /// names: the place must be there, and the image to be made of a file.
    pub open spec fn reads_file_in(self, id: Seq<char>, index: usize, ui: UIConfig) -> bool {
        &&& ui.pages@.contains_key(id)
        &&& index < ui.buttons_of(id).len()
        &&& self.image_plan() is Load
    }

    /// Whether the adding of this button to the page named `id` looks at
    /// the file that the button's data names: the name must not be empty,
    /// and the image to be made of a file.
    pub open spec fn reads_file_for(self, id: Seq<char>) -> bool {
        id.len() > 0 && self.image_plan() is Load
    }

    /// The path of the file that `edit_button_in_page` will look at for
    /// this button, if it will look at one.
    pub fn image_for_edit<'a>(&'a self, id: &str, index: usize, ui: &UIConfig) -> (path: Option<
        &'a String,
    >)
        requires
            ui.wf(),
        ensures
            match path {
                Some(p) => self.reads_file_in(id@, index, *ui) && *p == self.data().img->0.data,
                None => !self.reads_file_in(id@, index, *ui),
            },
    {
        match ui.pages.get(id) {
            Some(page) => {
                if index < page.buttons.len() {
                    self.image_to_load()
                } else {
                    None
                }
            },
            None => None,
        }
    }

    /// The path of the file that `add_new_button_to_page` will look at for
    /// this button, if it will look at one.
    pub fn image_for_new_button<'a>(&'a self, id: &str) -> (path: Option<&'a String>)
        ensures
            match path {
                Some(p) => self.reads_file_for(id@) && *p == self.data().img->0.data,
                None => !self.reads_file_for(id@),
            },
    {
        if id.is_empty() {
            None
        } else {
            self.image_to_load()
        }
    }
}

/// The image for a button that is being written, where it is made of a
/// file: `raw` holds the file's bytes, or why they could not be read.
fn load_image(raw: Result<Vec<u8>, String>) -> (r: Result<Base64Image, EditError>)
    requires
        raw is Ok ==> examinable(raw->Ok_0@),
    ensures
        match raw {
            Err(detail) => r == Err::<Base64Image, EditError>(EditError::File(detail)),
            Ok(bytes) => is_image_from(r, bytes@),
        },
{
    match raw {
        Err(detail) => Err(EditError::File(detail)),
        Ok(bytes) => get_base64image_from_bytes(&bytes),
    }
}

/// Writes `data` over the button at place `index` of the page named `id`.
///
/// Where `data` holds an image of the format `keeporiginal`, the button
/// keeps the image that it has. Where it holds any other image, that
/// image's data is the path of a file, and the image is made of the file:
/// `raw` holds the file's bytes, or why they could not be read. Where the
/// file is looked at, it must be one that this machine can examine. A
/// refusal leaves the page as it is.
pub fn edit_button_in_page(
    id: &str,
    index: usize,
    data: UIButton,
    raw: Result<Vec<u8>, String>,
    ui: &mut UIConfig,
) -> (r: Result<(), EditError>)
    requires
        old(ui).wf(),
        data.reads_file_in(id@, index, *old(ui)) && raw is Ok ==> examinable(raw->Ok_0@),
    ensures
        final(ui).changed_at(*old(ui), id@),
        r is Err ==> final(ui).pages@ == old(ui).pages@,
        !old(ui).pages@.contains_key(id@) ==> r == Err::<(), EditError>(EditError::PageMissing),
        old(ui).pages@.contains_key(id@) && index >= old(ui).buttons_of(id@).len() ==> r == Err::<
            (),
            EditError,
        >(EditError::ButtonOutOfBounds),
        old(ui).pages@.contains_key(id@) && index < old(ui).buttons_of(id@).len() ==> ({
            let before = old(ui).buttons_of(id@);
            let after = final(ui).buttons_of(id@);
            match data.image_plan() {
                ImagePlan::Without => r is Ok && after == before.update(index as int, data),
                ImagePlan::Keep => r is Ok && after == before.update(
                    index as int,
                    data.with_image(before[index as int].data().img),
                ),
                ImagePlan::Load => match raw {
                    Err(detail) => r == Err::<(), EditError>(EditError::File(detail)),
                    Ok(bytes) => match load_outcome(bytes@) {
                        Some(refusal) => r == Err::<(), EditError>(refusal),
                        None => {
                            &&& r is Ok
                            &&& after.len() == before.len()
                            &&& data.written_with(after[index as int], bytes@)
                            &&& forall|j: int|
                                0 <= j < before.len() && j != index ==> after[j] == before[j]
                        },
                    },
                },
            }
        }),
{
    let ghost pages_before = ui.pages@;
    let page = match ui.pages.get_mut(id) {
        Some(page) => page,
        None => {
            return Err(EditError::PageMissing);
        },
    };
    if index >= page.buttons.len() {
        proof {
            assert(after_borrow(*ui).pages@ =~= pages_before);
        }
        return Err(EditError::ButtonOutOfBounds);
    }
    let ghost before = page.buttons@;
    let load = data.image_to_load().is_some();
    let kind = data.get_kind();
    let ButtonData { target_id, style_override, img } = data.into_data();
    let loaded = if load {
        match load_image(raw) {
            Ok(image) => Some(image),
            Err(e) => {
                proof {
                    assert(after_borrow(*ui).pages@ =~= pages_before);
                }
                return Err(e);
            },
        }
    } else {
        None
    };
    let replaced = page.buttons.remove(index);
    let img = match img {
        None => None,
        Some(_) => match loaded {
            Some(image) => Some(image),
            None => replaced.into_data().img,
        },
    };
    page.buttons.insert(index, UIButton::of_kind(kind, ButtonData { target_id, style_override, img }));
    proof {
        let after = page.buttons@;
        assert(after.len() == before.len());
        assert forall|j: int| 0 <= j < before.len() && j != index implies after[j] == before[j] by {}
        match data.image_plan() {
            ImagePlan::Without => {
                assert(after[index as int] == data);
                assert(after =~= before.update(index as int, data));
            },
            ImagePlan::Keep => {
                assert(after[index as int] == data.with_image(before[index as int].data().img));
                assert(after =~= before.update(
                    index as int,
                    data.with_image(before[index as int].data().img),
                ));
            },
            ImagePlan::Load => {},
        }
    }
    Ok(())
}

/// Why a file of these bytes makes no image, if it makes none.
pub open spec fn load_outcome(bytes: Seq<u8>) -> Option<EditError> {
    match crate::configurator::image::inferred(bytes) {
        None => Some(EditError::UnknownFileType),
        Some(kind) => if kind.0 is Image {
            None
        } else {
            Some(EditError::NotAnImage)
        },
    }
}

/// Puts the button `data` at the end of the page named `id`, and makes the
/// page where there is none of that name; says whether it made the page.
///
/// Where `data` holds an image, that image's data is the path of a file,
/// and the image is made of the file: `raw` holds the file's bytes, or why
/// they could not be read. Where the file is looked at, it must be one
/// that this machine can examine. A new button has no image to keep. A
/// refusal leaves the pages as they are.
pub fn add_new_button_to_page(
    id: String,
    data: UIButton,
    raw: Result<Vec<u8>, String>,
    ui: &mut UIConfig,
) -> (r: Result<bool, EditError>)
    requires
        old(ui).wf(),
        data.reads_file_for(id@) && raw is Ok ==> examinable(raw->Ok_0@),
    ensures
        final(ui).wf(),
        final(ui).style == old(ui).style,
        r is Err ==> final(ui).same(*old(ui)),
        id@.len() == 0 ==> r == Err::<bool, EditError>(EditError::EmptyId),
        id@.len() > 0 ==> match data.image_plan() {
            ImagePlan::Keep => r == Err::<bool, EditError>(EditError::NoOriginalImage),
            ImagePlan::Load => match raw {
                Err(detail) => r == Err::<bool, EditError>(EditError::File(detail)),
                Ok(bytes) => match load_outcome(bytes@) {
                    Some(refusal) => r == Err::<bool, EditError>(refusal),
                    None => {
                        &&& r == Ok::<bool, EditError>(!old(ui).pages@.contains_key(id@))
                        &&& final(ui).pages@.dom() =~= old(ui).pages@.dom().insert(id@)
                        &&& final(ui).buttons_of(id@).len() > 0
                        &&& data.written_with(final(ui).buttons_of(id@).last(), bytes@)
                        &&& final(ui).buttons_of(id@).drop_last() == if old(ui).pages@.contains_key(id@) {
                            old(ui).buttons_of(id@)
                        } else {
                            Seq::<UIButton>::empty()
                        }
                    },
                },
            },
            ImagePlan::Without => {
                &&& r == Ok::<bool, EditError>(!old(ui).pages@.contains_key(id@))
                &&& final(ui).pages@.dom() =~= old(ui).pages@.dom().insert(id@)
                &&& final(ui).buttons_of(id@) == if old(ui).pages@.contains_key(id@) {
                    old(ui).buttons_of(id@).push(data)
                } else {
                    seq![data]
                }
            },
        },
        forall|other: Seq<char>|
            other != id@ && #[trigger] old(ui).pages@.contains_key(other) ==> final(ui).pages@.contains_key(other) && final(ui).pages@[other] == old(ui).pages@[other],
{
    if id.as_str().is_empty() {
        return Err(EditError::EmptyId);
    }
    let kind = data.get_kind();
    let load = data.image_to_load().is_some();
    let ButtonData { target_id, style_override, img } = data.into_data();
    let img = match img {
        None => None,
        Some(_) => {
            if !load {
                return Err(EditError::NoOriginalImage);
            }
            match load_image(raw) {
                Ok(image) => Some(image),
                Err(e) => {
                    return Err(e);
                },
            }
        },
    };
    let button = UIButton::of_kind(kind, ButtonData { target_id, style_override, img });
    let ghost pages_before = ui.pages@;
    match ui.pages.get_mut(id.as_str()) {
        Some(page) => {
            let ghost before = page.buttons@;
            page.buttons.push(button);
            proof {
                assert(page.buttons@.drop_last() =~= before);
                assert(after_borrow(*ui).pages@.dom() =~= pages_before.dom().insert(id@));
            }
            Ok(false)
        },
        None => {
            let mut buttons: Vec<UIButton> = Vec::new();
            buttons.push(button);
            proof {
                assert(buttons@.drop_last() =~= Seq::<UIButton>::empty());
                assert(buttons@ =~= seq![button]);
            }
            let _ = ui.pages.insert(id, UIPage { buttons });
            Ok(true)
        },
    }
}

impl UIButton {
    /// This button, pointing at `to` where it opens the page `from`.
    pub open spec fn retargeted(self, from: Seq<char>, to: String) -> UIButton {
        match self {
            UIButton::OpenPage(data) => if data.target_id@ == from {
                UIButton::OpenPage(ButtonData { target_id: to, ..data })
            } else {
                self
            },
            UIButton::ExecuteAction(_) => self,
        }
    }
}

/// Whether `after` is `before` with each button that opens the page `from`
/// pointing at `to`.
pub open spec fn all_retargeted(
    after: Seq<UIButton>,
    before: Seq<UIButton>,
    from: Seq<char>,
    to: String,
) -> bool {
    &&& after.len() == before.len()
    &&& forall|i: int| 0 <= i < before.len() ==> #[trigger] after[i] == before[i].retargeted(from, to)
}

/// Makes each button that opens the page `from` point at `to`.
fn retarget_buttons(buttons: &mut Vec<UIButton>, from: &String, to: &String)
    ensures
        all_retargeted(final(buttons)@, old(buttons)@, from@, *to),
{
    let mut i: usize = 0;
    while i < buttons.len()
        invariant
            i <= buttons@.len(),
            buttons@.len() == old(buttons)@.len(),
            forall|j: int| 0 <= j < i ==> #[trigger] buttons@[j] == old(buttons)@[j].retargeted(
                from@,
                *to,
            ),
            forall|j: int| i <= j < buttons@.len() ==> #[trigger] buttons@[j] == old(buttons)@[j],
        decreases buttons@.len() - i,
    {
        let opens = match &buttons[i] {
            UIButton::OpenPage(data) => data.target_id == *from,
            UIButton::ExecuteAction(_) => false,
        };
        if opens {
            let ButtonData { target_id: _, style_override, img } = buttons.remove(i).into_data();
            buttons.insert(
                i,
                UIButton::OpenPage(ButtonData { target_id: to.clone(), style_override, img }),
            );
        }
        i += 1;
    }
}

/// Pages whose buttons are retargeted place by place are retargeted name by
/// name.
proof fn lemma_pages_retargeted(
    after: crate::table::Table<UIPage>,
    moved: crate::table::Table<UIPage>,
    from: Seq<char>,
    to: String,
)
    requires
        after.wf(),
        moved.wf(),
        after.names() == moved.names(),
        after.values().len() == moved.values().len(),
        forall|q: int|
            0 <= q < moved.values().len() ==> all_retargeted(
                (#[trigger] after.values()[q]).buttons@,
                moved.values()[q].buttons@,
                from,
                to,
            ),
    ensures
        after@.dom() =~= moved@.dom(),
        forall|name: Seq<char>| #[trigger]
            moved@.contains_key(name) ==> after@.contains_key(name) && all_retargeted(
                after@[name].buttons@,
                moved@[name].buttons@,
                from,
                to,
            ),
{
    moved.lemma_wf();
    after.lemma_wf();
    assert forall|name: Seq<char>| #[trigger] moved@.contains_key(name) implies after@.contains_key(
        name,
    ) && all_retargeted(after@[name].buttons@, moved@[name].buttons@, from, to) by {
        let q = crate::table::place_of(moved.names(), name)->0;
        assert(0 <= q < moved.values().len());
        assert(after@[name] == after.values()[q]);
        assert(moved@[name] == moved.values()[q]);
        assert(all_retargeted(
            after.values()[q].buttons@,
            moved.values()[q].buttons@,
            from,
            to,
        ));
    }
}

/// Gives the page named `current_id` the name `new_id`, and makes every
/// button that opens the page point at the new name. The renamed page
/// comes last among the pages. A refusal leaves the pages as they are.
pub fn rename_page(current_id: String, new_id: String, ui: &mut UIConfig) -> (r: Result<
    (),
    EditError,
>)
    requires
        old(ui).wf(),
    ensures
        final(ui).wf(),
        final(ui).style == old(ui).style,
        r is Err ==> final(ui).same(*old(ui)),
        current_id@.len() == 0 || new_id@.len() == 0 ==> r == Err::<(), EditError>(
            EditError::EmptyId,
        ),
        current_id@.len() > 0 && new_id@.len() > 0 ==> if old(ui).pages@.contains_key(new_id@) {
            r == Err::<(), EditError>(EditError::PageExists)
        } else if !old(ui).pages@.contains_key(current_id@) {
            r == Err::<(), EditError>(EditError::PageGone)
        } else {
            &&& r == Ok::<(), EditError>(())
            &&& final(ui).pages@.dom() =~= old(ui).pages@.dom().remove(current_id@).insert(
                new_id@,
            )
            &&& all_retargeted(
                final(ui).buttons_of(new_id@),
                old(ui).buttons_of(current_id@),
                current_id@,
                new_id,
            )
            &&& forall|other: Seq<char>|
                other != current_id@ && #[trigger] old(ui).pages@.contains_key(other)
                    ==> all_retargeted(
                    final(ui).buttons_of(other),
                    old(ui).buttons_of(other),
                    current_id@,
                    new_id,
                )
        },
{
    if current_id.as_str().is_empty() || new_id.as_str().is_empty() {
        return Err(EditError::EmptyId);
    }
    if ui.pages.contains_key(new_id.as_str()) {
        return Err(EditError::PageExists);
    }
    let page = match ui.pages.remove(current_id.as_str()) {
        Some(page) => page,
        None => {
            proof {
                assert(ui.pages.names() == old(ui).pages.names());
            }
            return Err(EditError::PageGone);
        },
    };
    let ghost taken_out = ui.pages@;
    let _ = ui.pages.insert(new_id.clone(), page);
    let ghost moved = ui.pages;
    proof {
        assert(taken_out == old(ui).pages@.remove(current_id@));
        assert(page == old(ui).pages@[current_id@]);
        assert(moved@ == taken_out.insert(new_id@, page));
    }
    let count = ui.pages.len();
    let mut p: usize = 0;
    while p < count
        invariant
            ui.wf(),
            ui.style == old(ui).style,
            moved.wf(),
            count == moved.names().len(),
            count == moved.values().len(),
            p <= count,
            ui.pages.names() == moved.names(),
            ui.pages.values().len() == count,
            forall|q: int|
                0 <= q < p ==> all_retargeted(
                    (#[trigger] ui.pages.values()[q]).buttons@,
                    moved.values()[q].buttons@,
                    current_id@,
                    new_id,
                ),
            forall|q: int| p <= q < count ==> #[trigger] ui.pages.values()[q] == moved.values()[q],
        decreases count - p,
    {
        let ghost before = ui.pages.values();
        let page = ui.pages.value_at_mut(p);
        retarget_buttons(&mut page.buttons, &current_id, &new_id);
        proof {
            let after = ui.pages.values();
            assert(after.len() == before.len());
            assert(all_retargeted(
                after[p as int].buttons@,
                moved.values()[p as int].buttons@,
                current_id@,
                new_id,
            ));
            assert forall|q: int| 0 <= q < p implies all_retargeted(
                (#[trigger] after[q]).buttons@,
                moved.values()[q].buttons@,
                current_id@,
                new_id,
            ) by {
                assert(after[q] == before[q]);
            }
            assert forall|q: int| p < q < count implies #[trigger] after[q] == moved.values()[q] by {
                assert(after[q] == before[q]);
            }
        }
        p += 1;
    }
    proof {
        lemma_pages_retargeted(ui.pages, moved, current_id@, new_id);
        assert(ui.pages@.contains_key(new_id@));
        assert(moved@[new_id@] == old(ui).pages@[current_id@]);
        assert forall|other: Seq<char>|
            other != current_id@ && #[trigger] old(ui).pages@.contains_key(other)
            implies all_retargeted(
            ui.buttons_of(other),
            old(ui).buttons_of(other),
            current_id@,
            new_id,
        ) by {
            assert(other != new_id@);
            assert(taken_out.contains_key(other));
            assert(moved@.contains_key(other));
            assert(moved@[other] == old(ui).pages@[other]);
        }
        assert(ui.pages@.dom() =~= old(ui).pages@.dom().remove(current_id@).insert(new_id@));
    }
    Ok(())
}

} // verus!
