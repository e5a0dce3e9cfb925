//! The scratch chain: a list of actions that is put together step by step
//! and then stored as one chain.

use vstd::prelude::*;
use crate::action::{Action, ActionConfig};
use crate::configurator::condition::{get_condition_action_from_ui, ConditionActionData};
use crate::configurator::EditError;
use crate::plugins::{PluginAction, PluginStates};

verus! {

/// The scratch chain.
#[derive(Debug)]
pub struct TemporaryChain(pub Vec<Action>);

/// Whether the two lists hold, place by place, actions that say the same.
pub open spec fn all_alike(copy: Seq<Action>, source: Seq<Action>) -> bool {
    &&& copy.len() == source.len()
    &&& forall|i: int| 0 <= i < source.len() ==> (#[trigger] copy[i]).alike(source[i])
}

/// Empties the scratch chain.
pub fn clear_temp_chain(temp_chain: &mut TemporaryChain)
    ensures
        final(temp_chain).0@.len() == 0,
{
    temp_chain.0.clear();
}

/// Stores a copy of the scratch chain as the chain named `id`. A name that
/// is taken is refused, unless `overwrite` is set.
pub fn store_temp_chain(
    id: String,
    actions: &mut ActionConfig,
    temp_chain: &TemporaryChain,
    overwrite: bool,
) -> (r: Result<(), EditError>)
    requires
        old(actions).actions.wf(),
    ensures
        final(actions).actions.wf(),
        !overwrite && old(actions).actions@.contains_key(id@) ==> r == Err::<(), EditError>(
            EditError::ActionExists,
        ) && final(actions).actions@ == old(actions).actions@,
        overwrite || !old(actions).actions@.contains_key(id@) ==> {
            &&& r == Ok::<(), EditError>(())
            &&& final(actions).actions@.contains_key(id@)
            &&& final(actions).actions@ == old(actions).actions@.insert(
                id@,
                final(actions).actions@[id@],
            )
            &&& final(actions).actions@[id@] is Chain
            &&& all_alike(final(actions).actions@[id@]->Chain_0@, temp_chain.0@)
        },
{
    if !overwrite && actions.actions.contains_key(id.as_str()) {
        return Err(EditError::ActionExists);
    }
    let _ = actions.actions.insert(id, Action::Chain(Action::duplicate_all(&temp_chain.0)));
    Ok(())
}

/// Makes the scratch chain a copy of the chain named `id`.
pub fn copy_action_to_temp_chain(
    id: &str,
    actions: &ActionConfig,
    temp_chain: &mut TemporaryChain,
) -> (r: Result<(), EditError>)
    requires
        actions.actions.wf(),
    ensures
        !actions.actions@.contains_key(id@) ==> r == Err::<(), EditError>(EditError::ActionMissing),
        actions.actions@.contains_key(id@) && !(actions.actions@[id@] is Chain) ==> r == Err::<
            (),
            EditError,
        >(EditError::NotAChain),
        actions.actions@.contains_key(id@) && actions.actions@[id@] is Chain ==> r == Ok::<
            (),
            EditError,
        >(()) && all_alike(final(temp_chain).0@, actions.actions@[id@]->Chain_0@),
        r is Err ==> final(temp_chain).0@ == old(temp_chain).0@,
{
    match actions.actions.get(id) {
        None => Err(EditError::ActionMissing),
        Some(Action::Chain(chain)) => {
            temp_chain.0 = Action::duplicate_all(chain);
            Ok(())
        },
        Some(_) => Err(EditError::NotAChain),
    }
}

/// Puts `action` into a list of actions: at place `index`, before what
/// stands there, or at the end where no place is given.
fn insert_or_push(chain: &mut Vec<Action>, index: Option<usize>, action: Action)
    requires
        index is Some ==> index->0 <= old(chain)@.len(),
    ensures
        final(chain)@ == match index {
            Some(i) => old(chain)@.insert(i as int, action),
            None => old(chain)@.push(action),
        },
{
    match index {
        Some(i) => chain.insert(i, action),
        None => chain.push(action),
    }
}

/// Puts the command `action` into the scratch chain: at place `index`,
/// before what stands there, or at the end where no place is given. The
/// command is refused where its plugin is not configured.
pub fn add_new_single_action_to_temp_chain(
    action: PluginAction,
    index: Option<usize>,
    plugins: &PluginStates,
    temp_chain: &mut TemporaryChain,
) -> (r: Result<(), EditError>)
    requires
        index is Some ==> index->0 <= old(temp_chain).0@.len(),
    ensures
        plugins@.contains_key(action.required_type()) ==> r == Ok::<(), EditError>(()) && final(temp_chain).0@ == match index {
            Some(i) => old(temp_chain).0@.insert(i as int, Action::Single(action)),
            None => old(temp_chain).0@.push(Action::Single(action)),
        },
        !plugins@.contains_key(action.required_type()) ==> r == Err::<(), EditError>(
            EditError::PluginNotSelected,
        ) && final(temp_chain).0@ == old(temp_chain).0@,
{
    if plugins.contains_key(action.get_required_type()) {
        insert_or_push(&mut temp_chain.0, index, Action::Single(action));
        Ok(())
    } else {
        Err(EditError::PluginNotSelected)
    }
}

/// Puts the branch that `action_data` describes into the scratch chain: at
/// place `index`, before what stands there, or at the end where no place
/// is given.
pub fn add_new_condition_action_to_temp_chain(
    action_data: ConditionActionData,
    index: Option<usize>,
    actions: &ActionConfig,
    plugins: &PluginStates,
    temp_chain: &mut TemporaryChain,
) -> (r: Result<(), EditError>)
    requires
        actions.actions.wf(),
        index is Some ==> index->0 <= old(temp_chain).0@.len(),
    ensures
        match action_data.refusal(*actions, *plugins) {
            Some(refusal) => r == Err::<(), EditError>(refusal) && final(temp_chain).0@ == old(temp_chain).0@,
            None => {
                &&& r == Ok::<(), EditError>(())
                &&& final(temp_chain).0@.len() == old(temp_chain).0@.len() + 1
                &&& match index {
                    Some(i) => action_data.describes(final(temp_chain).0@[i as int], *actions)
                        && final(temp_chain).0@.remove(i as int) == old(temp_chain).0@,
                    None => action_data.describes(final(temp_chain).0@.last(), *actions)
                        && final(temp_chain).0@.drop_last() == old(temp_chain).0@,
                }
            },
        },
{
    match get_condition_action_from_ui(action_data, actions, plugins) {
        Ok(action) => {
            insert_or_push(&mut temp_chain.0, index, action);
            proof {
                match index {
                    Some(i) => {
                        assert(temp_chain.0@.remove(i as int) =~= old(temp_chain).0@);
                    },
                    None => {
                        assert(temp_chain.0@.drop_last() =~= old(temp_chain).0@);
                    },
                }
            }
            Ok(())
        },
        Err(e) => Err(e),
    }
}

/// Takes the action at place `index` out of the scratch chain.
pub fn delete_entry_from_temp_chain(index: usize, temp_chain: &mut TemporaryChain)
    requires
        index < old(temp_chain).0@.len(),
    ensures
        final(temp_chain).0@ == old(temp_chain).0@.remove(index as int),
{
    let _ = temp_chain.0.remove(index);
}

} // verus!
