//! A page of buttons for the hotkeys of an avatar model.

use vstd::prelude::*;
use crate::action::{Action, ActionConfig};
use crate::configurator::EditError;
use crate::plugins::vts::VTSAction;
use crate::plugins::PluginAction;
use crate::text::concat3;
use crate::ui::{ButtonData, UIButton, UIButtonType, UIConfig, UIPage};

verus! {

/// The name of the page that every other page is reached from.
pub open spec fn home() -> Seq<char> {
    "home"@
}

/// The name of the action that is generated for the hotkey named `name`.
pub open spec fn action_id(prefix: Seq<char>, name: Seq<char>, suffix: Seq<char>) -> Seq<char> {
    prefix + name + suffix
}

/// The action that is generated for the hotkey with the identifier `id`.
pub open spec fn trigger(id: String) -> Action {
    Action::Single(PluginAction::VTS(VTSAction::TriggerHotkey(id)))
}

/// Why no action can be generated for the hotkey at place `at`, if none
/// can: it has no name, it has the name of an earlier hotkey, or its
/// action's name is taken.
pub open spec fn hotkey_refusal(
    hotkeys: Seq<(String, String)>,
    at: int,
    prefix: Seq<char>,
    suffix: Seq<char>,
    actions: Map<Seq<char>, Action>,
) -> Option<EditError> {
    let name = hotkeys[at].1;
    if name@.len() == 0 {
        Some(EditError::NamelessHotkey)
    } else if exists|j: int| 0 <= j < at && (#[trigger] hotkeys[j]).1@ == name@ {
        Some(EditError::DuplicateHotkey)
    } else if actions.contains_key(action_id(prefix, name@, suffix)) {
        Some(EditError::ActionTaken(name))
    } else {
        None
    }
}

/// The refusal of the first of the first `upto` hotkeys that is refused.
pub open spec fn first_refusal(
    hotkeys: Seq<(String, String)>,
    upto: int,
    prefix: Seq<char>,
    suffix: Seq<char>,
    actions: Map<Seq<char>, Action>,
) -> Option<EditError>
    decreases upto,
{
    if upto <= 0 || upto > hotkeys.len() {
        None
    } else {
        match first_refusal(hotkeys, upto - 1, prefix, suffix, actions) {
            Some(refusal) => Some(refusal),
            None => hotkey_refusal(hotkeys, upto - 1, prefix, suffix, actions),
        }
    }
}

/// Why the page cannot be generated, if it cannot.
pub open spec fn generation_refusal(
    hotkeys: Seq<(String, String)>,
    page_id: String,
    prefix: Seq<char>,
    suffix: Seq<char>,
    actions: ActionConfig,
    ui: UIConfig,
) -> Option<EditError> {
    if page_id@.len() == 0 {
        Some(EditError::EmptyPageId)
    } else if ui.pages@.contains_key(page_id@) {
        Some(EditError::PageTaken(page_id))
    } else if !ui.pages@.contains_key(home()) {
        Some(EditError::HomeMissing)
    } else {
        first_refusal(hotkeys, hotkeys.len() as int, prefix, suffix, actions.actions@)
    }
}

/// Whether `button` is a plain button of the given kind that points at
/// `target`.
pub open spec fn is_plain(button: UIButton, kind: UIButtonType, target: Seq<char>) -> bool {
    &&& button.kind() == kind
    &&& button.data().target_id@ == target
    &&& button.data().style_override is None
    &&& button.data().img is None
}

/// Whether `buttons` are the buttons of the generated page: one that opens
/// `home`, then one for each hotkey, in order, that runs the hotkey's
/// action.
pub open spec fn is_hotkey_page(
    buttons: Seq<UIButton>,
    hotkeys: Seq<(String, String)>,
    prefix: Seq<char>,
    suffix: Seq<char>,
) -> bool {
    &&& buttons.len() == hotkeys.len() + 1
    &&& is_plain(buttons[0], UIButtonType::OpenPage, home())
    &&& forall|i: int|
        0 <= i < hotkeys.len() ==> is_plain(
            #[trigger] buttons[i + 1],
            UIButtonType::ExecuteAction,
            action_id(prefix, hotkeys[i].1@, suffix),
        )
}

/// Whether `after` is `before` with the actions of the first `upto`
/// hotkeys added.
pub open spec fn actions_added(
    after: Map<Seq<char>, Action>,
    before: Map<Seq<char>, Action>,
    hotkeys: Seq<(String, String)>,
    upto: int,
    prefix: Seq<char>,
    suffix: Seq<char>,
) -> bool {
    &&& forall|i: int|
        0 <= i < upto ==> after.contains_key(
            #[trigger] action_id(prefix, hotkeys[i].1@, suffix),
        ) && after[action_id(prefix, hotkeys[i].1@, suffix)] == trigger(hotkeys[i].0)
    &&& forall|name: Seq<char>| #[trigger]
        before.contains_key(name) ==> after.contains_key(name) && (after[name] == before[name] || exists|
            i: int,
        |
            0 <= i < upto && name == action_id(prefix, hotkeys[i].1@, suffix))
    &&& forall|name: Seq<char>| #[trigger]
        after.contains_key(name) ==> before.contains_key(name) || exists|i: int|
            0 <= i < upto && name == action_id(prefix, hotkeys[i].1@, suffix)
}

/// Whether an earlier hotkey has the name of the hotkey at place `at`.
fn name_seen_before(hotkeys: &Vec<(String, String)>, at: usize) -> (seen: bool)
    requires
        at < hotkeys@.len(),
    ensures
        seen == exists|j: int| 0 <= j < at && (#[trigger] hotkeys@[j]).1@ == hotkeys@[at as int].1@,
{
    let mut j: usize = 0;
    while j < at
        invariant
            j <= at < hotkeys@.len(),
            forall|k: int| 0 <= k < j ==> (#[trigger] hotkeys@[k]).1@ != hotkeys@[at as int].1@,
        decreases at - j,
    {
        if hotkeys[j].1 == hotkeys[at].1 {
            return true;
        }
        j += 1;
    }
    false
}

/// Generates a page named `page_id` with a button for each hotkey of a
/// model, and the action that each button runs: for the hotkey named `n`
/// the action named `prefix`, `n`, `suffix`, which triggers the hotkey.
/// The page opens with a button back to `home`, and `home` gets a button
/// that opens the page. `hotkeys` holds the identifier and the name of
/// each hotkey. A refusal leaves actions and pages as they are.
pub fn generate_buttons_for_hotkeys(
    hotkeys: Vec<(String, String)>,
    page_id: String,
    prefix: &str,
    suffix: &str,
    actions: &mut ActionConfig,
    ui: &mut UIConfig,
) -> (r: Result<(), EditError>)
    requires
        old(actions).actions.wf(),
        old(ui).wf(),
    ensures
        final(actions).actions.wf(),
        final(ui).wf(),
        final(ui).style == old(ui).style,
        match generation_refusal(hotkeys@, page_id, prefix@, suffix@, *old(actions), *old(ui)) {
            Some(refusal) => {
                &&& r == Err::<(), EditError>(refusal)
                &&& final(actions).actions@ == old(actions).actions@
                &&& final(ui).same(*old(ui))
            },
            None => {
                &&& r == Ok::<(), EditError>(())
                &&& actions_added(
                    final(actions).actions@,
                    old(actions).actions@,
                    hotkeys@,
                    hotkeys@.len() as int,
                    prefix@,
                    suffix@,
                )
                &&& final(ui).pages@.dom() =~= old(ui).pages@.dom().insert(page_id@)
                &&& is_hotkey_page(final(ui).buttons_of(page_id@), hotkeys@, prefix@, suffix@)
                &&& final(ui).buttons_of(home()) == old(ui).buttons_of(home()).push(
                    UIButton::OpenPage(
                        ButtonData { target_id: page_id, style_override: None, img: None },
                    ),
                )
                &&& forall|other: Seq<char>|
                    other != home() && other != page_id@ && #[trigger] old(ui).pages@.contains_key(
                        other,
                    ) ==> final(ui).pages@[other] == old(ui).pages@[other]
            },
        },
{
    if page_id.as_str().is_empty() {
        return Err(EditError::EmptyPageId);
    }
    if ui.pages.contains_key(page_id.as_str()) {
        return Err(EditError::PageTaken(page_id));
    }
    if !ui.pages.contains_key("home") {
        return Err(EditError::HomeMissing);
    }
    let mut ids: Vec<String> = Vec::new();
    let mut i: usize = 0;
    while i < hotkeys.len()
        invariant
            old(actions).actions.wf(),
            *actions == *old(actions),
            old(ui).wf(),
            *ui == *old(ui),
            page_id@.len() > 0,
            !ui.pages@.contains_key(page_id@),
            ui.pages@.contains_key(home()),
            i <= hotkeys@.len(),
            ids@.len() == i,
            first_refusal(hotkeys@, i as int, prefix@, suffix@, actions.actions@) is None,
            forall|k: int|
                0 <= k < i ==> (#[trigger] ids@[k])@ == action_id(prefix@, hotkeys@[k].1@, suffix@),
        decreases hotkeys@.len() - i,
    {
        proof {
            if hotkey_refusal(hotkeys@, i as int, prefix@, suffix@, actions.actions@) is Some {
                lemma_first_refused(
                    hotkeys@,
                    hotkeys@.len() as int,
                    prefix@,
                    suffix@,
                    actions.actions@,
                    i as int,
                );
            }
        }
        if hotkeys[i].1.as_str().is_empty() {
            return Err(EditError::NamelessHotkey);
        }
        if name_seen_before(&hotkeys, i) {
            return Err(EditError::DuplicateHotkey);
        }
        let id = concat3(prefix, hotkeys[i].1.as_str(), suffix);
        if actions.actions.contains_key(id.as_str()) {
            return Err(EditError::ActionTaken(hotkeys[i].1.clone()));
        }
        ids.push(id);
        i += 1;
    }
    let mut buttons: Vec<UIButton> = Vec::new();
    buttons.push(UIButton::OpenPage(ButtonData::plain("home".to_string())));
    let mut k: usize = 0;
    while k < hotkeys.len()
        invariant
            actions.actions.wf(),
            k <= hotkeys@.len(),
            ids@.len() == hotkeys@.len(),
            forall|j: int|
                0 <= j < hotkeys@.len() ==> (#[trigger] ids@[j])@ == action_id(
                    prefix@,
                    hotkeys@[j].1@,
                    suffix@,
                ),
            buttons@.len() == k + 1,
            is_plain(buttons@[0], UIButtonType::OpenPage, home()),
            forall|j: int|
                0 <= j < k ==> is_plain(
                    #[trigger] buttons@[j + 1],
                    UIButtonType::ExecuteAction,
                    action_id(prefix@, hotkeys@[j].1@, suffix@),
                ),
            actions_added(
                actions.actions@,
                old(actions).actions@,
                hotkeys@,
                k as int,
                prefix@,
                suffix@,
            ),
            first_refusal(
                hotkeys@,
                hotkeys@.len() as int,
                prefix@,
                suffix@,
                old(actions).actions@,
            ) is None,
        decreases hotkeys@.len() - k,
    {
        let ghost before = actions.actions@;
        let ghost shown = buttons@;
        let _ = actions.actions.insert(
            ids[k].clone(),
            Action::Single(PluginAction::VTS(VTSAction::TriggerHotkey(hotkeys[k].0.clone()))),
        );
        buttons.push(UIButton::ExecuteAction(ButtonData::plain(ids[k].clone())));
        proof {
            let here = action_id(prefix@, hotkeys@[k as int].1@, suffix@);
            assert(actions.actions@ == before.insert(here, trigger(hotkeys@[k as int].0)));
            lemma_names_differ(hotkeys@, prefix@, suffix@, old(actions).actions@, k as int);
            assert forall|j: int| 0 <= j < k + 1 implies actions.actions@.contains_key(
                #[trigger] action_id(prefix@, hotkeys@[j].1@, suffix@),
            ) && actions.actions@[action_id(prefix@, hotkeys@[j].1@, suffix@)] == trigger(
                hotkeys@[j].0,
            ) by {
                if j < k {
                    assert(action_id(prefix@, hotkeys@[j].1@, suffix@) != here);
                }
            }
            assert forall|j: int| 0 <= j < k + 1 implies is_plain(
                #[trigger] buttons@[j + 1],
                UIButtonType::ExecuteAction,
                action_id(prefix@, hotkeys@[j].1@, suffix@),
            ) by {
                if j < k {
                    assert(buttons@[j + 1] == shown[j + 1]);
                }
            }
        }
        k += 1;
    }
    match ui.pages.get_mut("home") {
        Some(home_page) => {
            home_page.buttons.push(UIButton::OpenPage(ButtonData::plain(page_id.clone())));
        },
        None => {},
    }
    let ghost linked = ui.pages@;
    let _ = ui.pages.insert(page_id, UIPage { buttons });
    proof {
        assert(ui.pages@.dom() =~= old(ui).pages@.dom().insert(page_id@));
        assert(ui.pages@[home()] == linked[home()]);
    }
    Ok(())
}

/// Where no hotkey is refused, the action generated for a hotkey has
/// another name than the actions generated for the hotkeys before it.
proof fn lemma_names_differ(
    hotkeys: Seq<(String, String)>,
    prefix: Seq<char>,
    suffix: Seq<char>,
    actions: Map<Seq<char>, Action>,
    at: int,
)
    requires
        0 <= at < hotkeys.len(),
        first_refusal(hotkeys, hotkeys.len() as int, prefix, suffix, actions) is None,
    ensures
        forall|j: int|
            0 <= j < at ==> #[trigger] action_id(prefix, hotkeys[j].1@, suffix) != action_id(
                prefix,
                hotkeys[at].1@,
                suffix,
            ),
        !actions.contains_key(action_id(prefix, hotkeys[at].1@, suffix)),
{
    lemma_none_refused(hotkeys, hotkeys.len() as int, prefix, suffix, actions, at);
    assert forall|j: int| 0 <= j < at implies #[trigger] action_id(prefix, hotkeys[j].1@, suffix)
        != action_id(prefix, hotkeys[at].1@, suffix) by {
        let a = hotkeys[j].1@;
        let b = hotkeys[at].1@;
        if prefix + a + suffix == prefix + b + suffix {
            lemma_concat_cancels(prefix, a, b, suffix);
        }
    }
}

/// Where the hotkey at place `at` is the first that is refused, its
/// refusal is the first refusal of any longer beginning of the list.
proof fn lemma_first_refused(
    hotkeys: Seq<(String, String)>,
    upto: int,
    prefix: Seq<char>,
    suffix: Seq<char>,
    actions: Map<Seq<char>, Action>,
    at: int,
)
    requires
        0 <= at < upto <= hotkeys.len(),
        first_refusal(hotkeys, at, prefix, suffix, actions) is None,
        hotkey_refusal(hotkeys, at, prefix, suffix, actions) is Some,
    ensures
        first_refusal(hotkeys, upto, prefix, suffix, actions) == hotkey_refusal(
            hotkeys,
            at,
            prefix,
            suffix,
            actions,
        ),
    decreases upto,
{
    if at < upto - 1 {
        lemma_first_refused(hotkeys, upto - 1, prefix, suffix, actions, at);
    }
}

/// Where none of the first `upto` hotkeys is refused, the hotkey at place
/// `at` among them is not refused.
proof fn lemma_none_refused(
    hotkeys: Seq<(String, String)>,
    upto: int,
    prefix: Seq<char>,
    suffix: Seq<char>,
    actions: Map<Seq<char>, Action>,
    at: int,
)
    requires
        0 <= at < upto <= hotkeys.len(),
        first_refusal(hotkeys, upto, prefix, suffix, actions) is None,
    ensures
        hotkey_refusal(hotkeys, at, prefix, suffix, actions) is None,
    decreases upto,
{
    if at < upto - 1 {
        lemma_none_refused(hotkeys, upto - 1, prefix, suffix, actions, at);
    }
}

/// Texts that are equal between the same beginning and the same end are
/// equal.
proof fn lemma_concat_cancels(prefix: Seq<char>, a: Seq<char>, b: Seq<char>, suffix: Seq<char>)
    requires
        prefix + a + suffix == prefix + b + suffix,
    ensures
        a == b,
{
    let left = prefix + a + suffix;
    let right = prefix + b + suffix;
    assert(left.len() == right.len());
    assert(a.len() == b.len());
    assert forall|i: int| 0 <= i < a.len() implies a[i] == b[i] by {
        assert(left[prefix.len() + i] == a[i]);
        assert(right[prefix.len() + i] == b[i]);
    }
    assert(a =~= b);
}

} // verus!
