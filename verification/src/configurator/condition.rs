//! Branches, put together from a condition and the names of two actions.

use vstd::prelude::*;
use crate::action::{Action, ActionConfig, Condition};
use crate::configurator::EditError;
use crate::plugins::PluginStates;

verus! {

/// A branch as the user describes it: the condition, the name of the
/// action to run where it holds, and the name of the action to run where
/// it does not, if any.
#[derive(Debug)]
pub struct ConditionActionData {
    pub condition: Condition,
    pub then_action: String,
    pub else_action: Option<String>,
}

impl ConditionActionData {
    /// Why the branch cannot be made, if it cannot: the plugin of its
    /// query is not configured, or one of its actions is missing.
    pub open spec fn refusal(self, actions: ActionConfig, plugins: PluginStates) -> Option<
        EditError,
    > {
        if !plugins@.contains_key(self.condition.query.required_type()) {
            Some(EditError::PluginNotSelected)
        } else if !actions.actions@.contains_key(self.then_action@) {
            Some(EditError::ActionMissing)
        } else if self.else_action is Some && !actions.actions@.contains_key(self.else_action->0@) {
            Some(EditError::ActionMissing)
        } else {
            None
        }
    }

    /// Whether `branch` is the branch described: this condition, a copy of
    /// the first named action, and a copy of the second, if one is named.
    pub open spec fn describes(self, branch: Action, actions: ActionConfig) -> bool {
        &&& branch is If
        &&& branch->If_0 == self.condition
        &&& (*branch->If_1).alike(actions.actions@[self.then_action@])
        &&& match self.else_action {
            Some(name) => branch->If_2 is Some && (*branch->If_2->0).alike(actions.actions@[name@]),
            None => branch->If_2 is None,
        }
    }
}

/// Makes the branch that `action_data` describes, with copies of the
/// actions it names.
pub fn get_condition_action_from_ui(
    action_data: ConditionActionData,
    actions: &ActionConfig,
    plugins: &PluginStates,
) -> (r: Result<Action, EditError>)
    requires
        actions.actions.wf(),
    ensures
        match action_data.refusal(*actions, *plugins) {
            Some(refusal) => r == Err::<Action, EditError>(refusal),
            None => r is Ok && action_data.describes(r->Ok_0, *actions),
        },
{
    if !plugins.contains_key(action_data.condition.query.get_required_type()) {
        return Err(EditError::PluginNotSelected);
    }
    let ConditionActionData { condition, then_action, else_action } = action_data;
    let taken = match actions.actions.get(then_action.as_str()) {
        Some(action) => action.clone(),
        None => {
            return Err(EditError::ActionMissing);
        },
    };
    let otherwise = match else_action {
        None => None,
        Some(name) => match actions.actions.get(name.as_str()) {
            Some(action) => Some(Box::new(action.clone())),
            None => {
                return Err(EditError::ActionMissing);
            },
        },
    };
    Ok(Action::If(condition, Box::new(taken), otherwise))
}

/// Stores the branch that `action_data` describes under the name `id`. The
/// empty name is refused, and so is a name that is taken, unless
/// `overwrite` is set. A refusal leaves the actions as they are.
pub fn add_new_condition_action(
    id: String,
    action_data: ConditionActionData,
    overwrite: bool,
    actions: &mut ActionConfig,
    plugins: &PluginStates,
) -> (r: Result<(), EditError>)
    requires
        old(actions).actions.wf(),
    ensures
        final(actions).actions.wf(),
        r is Err ==> final(actions).actions@ == old(actions).actions@,
        id@.len() == 0 ==> r == Err::<(), EditError>(EditError::EmptyId),
        id@.len() > 0 ==> match action_data.refusal(*old(actions), *plugins) {
            Some(refusal) => r == Err::<(), EditError>(refusal),
            None => if !overwrite && old(actions).actions@.contains_key(id@) {
                r == Err::<(), EditError>(EditError::ActionExists)
            } else {
                &&& r == Ok::<(), EditError>(())
                &&& final(actions).actions@.contains_key(id@)
                &&& final(actions).actions@ == old(actions).actions@.insert(
                    id@,
                    final(actions).actions@[id@],
                )
                &&& action_data.describes(final(actions).actions@[id@], *old(actions))
            },
        },
{
    if id.as_str().is_empty() {
        return Err(EditError::EmptyId);
    }
    let action = match get_condition_action_from_ui(action_data, actions, plugins) {
        Ok(action) => action,
        Err(e) => {
            return Err(e);
        },
    };
    if !overwrite && actions.actions.contains_key(id.as_str()) {
        return Err(EditError::ActionExists);
    }
    let _ = actions.actions.insert(id, action);
    Ok(())
}

} // verus!
