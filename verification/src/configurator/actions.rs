//! The named actions, and how they are listed, added, read and deleted.

use vstd::prelude::*;
use crate::action::{Action, ActionConfig};
use crate::configurator::EditError;
use crate::text::{ascending, sort_texts};

verus! {

/// The names of the actions, in ascending order.
pub fn get_actions(actions: &ActionConfig) -> (names: Vec<String>)
    requires
        actions.actions.wf(),
    ensures
        ascending(names@),
        names@.to_multiset() == actions.actions.names().to_multiset(),
{
    let mut names = actions.actions.keys();
    sort_texts(&mut names);
    names
}

/// Puts `action` under the name `id`. The empty name is refused, and so is
/// a name that is taken, unless `overwrite` is set.
pub fn add_new_action(id: String, action: Action, overwrite: bool, actions: &mut ActionConfig) -> (r:
    Result<(), EditError>)
    requires
        old(actions).actions.wf(),
    ensures
        final(actions).actions.wf(),
        id@.len() == 0 ==> r == Err::<(), EditError>(EditError::EmptyId),
        id@.len() > 0 && !overwrite && old(actions).actions@.contains_key(id@) ==> r == Err::<
            (),
            EditError,
        >(EditError::ActionExists),
        id@.len() > 0 && (overwrite || !old(actions).actions@.contains_key(id@)) ==> r == Ok::<
            (),
            EditError,
        >(()),
        r is Ok ==> final(actions).actions@ == old(actions).actions@.insert(id@, action),
        r is Err ==> final(actions).actions@ == old(actions).actions@,
        r is Err ==> final(actions).actions.names() == old(actions).actions.names(),
{
    if id.as_str().is_empty() {
        return Err(EditError::EmptyId);
    }
    if !overwrite && actions.actions.contains_key(id.as_str()) {
        return Err(EditError::ActionExists);
    }
    let _ = actions.actions.insert(id, action);
    Ok(())
}

/// Takes the action named `id` out.
pub fn delete_action(id: &str, actions: &mut ActionConfig) -> (r: Result<(), EditError>)
    requires
        old(actions).actions.wf(),
    ensures
        final(actions).actions.wf(),
        final(actions).actions@ == old(actions).actions@.remove(id@),
        old(actions).actions@.contains_key(id@) ==> r == Ok::<(), EditError>(()),
        !old(actions).actions@.contains_key(id@) ==> r == Err::<(), EditError>(
            EditError::ActionMissing,
        ),
{
    match actions.actions.remove(id) {
        Some(_) => Ok(()),
        None => Err(EditError::ActionMissing),
    }
}

/// A copy of the action named `id`.
pub fn load_action_details(id: &str, actions: &ActionConfig) -> (r: Result<Action, EditError>)
    requires
        actions.actions.wf(),
    ensures
        match r {
            Ok(action) => actions.actions@.contains_key(id@) && action.alike(actions.actions@[id@]),
            Err(e) => !actions.actions@.contains_key(id@) && e == EditError::ActionNotFound,
        },
{
    match actions.actions.get(id) {
        Some(action) => Ok(action.clone()),
        None => Err(EditError::ActionNotFound),
    }
}

} // verus!
