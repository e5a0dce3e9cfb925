use scuffcommander::action::{Action, Condition, Step};
use scuffcommander::error::ActionError;
use scuffcommander::plugins::obs::{OBSAction, OBSQuery};
use scuffcommander::plugins::vts::VTSAction;
use scuffcommander::plugins::{PluginAction, PluginQuery, PluginType};

fn scene(name: &str) -> Action {
    Action::Single(PluginAction::OBS(OBSAction::ProgramSceneChange(name.to_string())))
}

fn scene_is(name: &str) -> Condition {
    Condition {
        query: PluginQuery::OBS(OBSQuery::CurrentProgramScene),
        target: name.to_string(),
    }
}

fn boom() -> ActionError {
    ActionError::RequestFailed("boom".to_string())
}

#[test]
fn single_dispatches_its_command_and_returns_its_result() {
    let action = scene("Waiting");
    match action.run() {
        Step::Run(command, token) => {
            assert_eq!(
                *command,
                PluginAction::OBS(OBSAction::ProgramSceneChange("Waiting".to_string()))
            );
            match token.resume(Ok(())) {
                Step::Finished(result) => assert!(result.is_ok()),
                _ => panic!("the evaluation should have ended"),
            }
        }
        _ => panic!("a single action starts with its command"),
    }
    match action.run() {
        Step::Run(_, token) => match token.resume(Err(boom())) {
            Step::Finished(Err(e)) => assert_eq!(e.to_string(), "boom"),
            _ => panic!("the failure should have ended the evaluation"),
        },
        _ => panic!("a single action starts with its command"),
    }
}

#[test]
fn empty_chain_succeeds_without_a_dispatch() {
    let action = Action::Chain(Vec::new());
    match action.run() {
        Step::Finished(result) => assert!(result.is_ok()),
        _ => panic!("an empty chain dispatches nothing"),
    }
}

#[test]
fn nested_empty_chains_succeed_without_a_dispatch() {
    let action = Action::Chain(vec![
        Action::Chain(Vec::new()),
        Action::Chain(vec![Action::Chain(Vec::new())]),
    ]);
    match action.run() {
        Step::Finished(result) => assert!(result.is_ok()),
        _ => panic!("empty chains dispatch nothing"),
    }
}

#[test]
fn chain_stops_at_the_first_failure() {
    let action = Action::Chain(vec![scene("A"), scene("B"), scene("C")]);
    let mut dispatched = Vec::new();
    let step = action.run();
    let step = match step {
        Step::Run(command, token) => {
            dispatched.push(command.clone());
            token.resume(Ok(()))
        }
        _ => panic!("the first child should be dispatched"),
    };
    let step = match step {
        Step::Run(command, token) => {
            dispatched.push(command.clone());
            token.resume(Err(boom()))
        }
        _ => panic!("the second child should be dispatched"),
    };
    match step {
        Step::Finished(Err(ActionError::ChainAborted(inner))) => {
            assert_eq!(inner.to_string(), "boom");
        }
        _ => panic!("the chain should have stopped with the wrapped failure"),
    }
    assert_eq!(
        dispatched,
        vec![
            PluginAction::OBS(OBSAction::ProgramSceneChange("A".to_string())),
            PluginAction::OBS(OBSAction::ProgramSceneChange("B".to_string())),
        ]
    );
}

#[test]
fn chain_runs_all_children_in_order() {
    let action = Action::Chain(vec![scene("A"), scene("B"), scene("C")]);
    let mut names = Vec::new();
    let mut step = action.run();
    loop {
        step = match step {
            Step::Run(command, token) => {
                names.push(command.clone());
                token.resume(Ok(()))
            }
            Step::Query(_, _) => panic!("no query in this chain"),
            Step::Finished(result) => {
                assert!(result.is_ok());
                break;
            }
        };
    }
    assert_eq!(
        names,
        vec![
            PluginAction::OBS(OBSAction::ProgramSceneChange("A".to_string())),
            PluginAction::OBS(OBSAction::ProgramSceneChange("B".to_string())),
            PluginAction::OBS(OBSAction::ProgramSceneChange("C".to_string())),
        ]
    );
}

#[test]
fn nested_chain_wraps_the_failure_once_per_chain() {
    let action = Action::Chain(vec![Action::Chain(vec![scene("A")])]);
    match action.run() {
        Step::Run(_, token) => match token.resume(Err(boom())) {
            Step::Finished(Err(e)) => {
                assert_eq!(
                    e.to_string(),
                    "Action chain failed: Action chain failed: boom"
                );
            }
            _ => panic!("the chains should have stopped"),
        },
        _ => panic!("the inner child should be dispatched"),
    }
}

#[test]
fn branch_takes_the_first_action_when_the_answer_is_the_target() {
    let action = Action::If(
        scene_is("A"),
        Box::new(scene("then")),
        Some(Box::new(scene("else"))),
    );
    match action.run() {
        Step::Query(query, token) => {
            assert_eq!(*query, PluginQuery::OBS(OBSQuery::CurrentProgramScene));
            match token.resume(Ok("A".to_string())) {
                Step::Run(command, token) => {
                    assert_eq!(
                        *command,
                        PluginAction::OBS(OBSAction::ProgramSceneChange("then".to_string()))
                    );
                    match token.resume(Ok(())) {
                        Step::Finished(result) => assert!(result.is_ok()),
                        _ => panic!("the other branch must not run"),
                    }
                }
                _ => panic!("the first branch should run"),
            }
        }
        _ => panic!("a branch starts with its query"),
    }
}

#[test]
fn branch_takes_the_second_action_when_the_answer_differs() {
    let action = Action::If(
        scene_is("A"),
        Box::new(scene("then")),
        Some(Box::new(scene("else"))),
    );
    match action.run() {
        Step::Query(_, token) => match token.resume(Ok("B".to_string())) {
            Step::Run(command, token) => {
                assert_eq!(
                    *command,
                    PluginAction::OBS(OBSAction::ProgramSceneChange("else".to_string()))
                );
                match token.resume(Ok(())) {
                    Step::Finished(result) => assert!(result.is_ok()),
                    _ => panic!("the first branch must not run"),
                }
            }
            _ => panic!("the second branch should run"),
        },
        _ => panic!("a branch starts with its query"),
    }
}

#[test]
fn branch_without_second_action_succeeds_when_the_answer_differs() {
    let action = Action::If(scene_is("A"), Box::new(scene("then")), None);
    match action.run() {
        Step::Query(_, token) => match token.resume(Ok("B".to_string())) {
            Step::Finished(result) => assert!(result.is_ok()),
            _ => panic!("nothing should run"),
        },
        _ => panic!("a branch starts with its query"),
    }
}

#[test]
fn branch_compares_exactly() {
    let action = Action::If(scene_is("true"), Box::new(scene("then")), None);
    match action.run() {
        Step::Query(_, token) => match token.resume(Ok("True".to_string())) {
            Step::Finished(result) => assert!(result.is_ok()),
            _ => panic!("another casing is another answer"),
        },
        _ => panic!("a branch starts with its query"),
    }
}

#[test]
fn failed_condition_ends_the_branch() {
    let action = Action::If(
        scene_is("A"),
        Box::new(scene("then")),
        Some(Box::new(scene("else"))),
    );
    match action.run() {
        Step::Query(_, token) => match token.resume(Err(boom())) {
            Step::Finished(Err(e)) => assert_eq!(e.to_string(), "boom"),
            _ => panic!("neither branch may run"),
        },
        _ => panic!("a branch starts with its query"),
    }
}

#[test]
fn failed_condition_in_a_chain_aborts_the_chain() {
    let action = Action::Chain(vec![
        Action::If(scene_is("A"), Box::new(scene("then")), None),
        scene("after"),
    ]);
    match action.run() {
        Step::Query(_, token) => match token.resume(Err(boom())) {
            Step::Finished(Err(e)) => {
                assert!(e.is_chain_aborted());
                assert_eq!(e.to_string(), "Action chain failed: boom");
            }
            _ => panic!("the chain should have stopped"),
        },
        _ => panic!("a branch starts with its query"),
    }
}

#[test]
fn chain_goes_on_after_a_branch() {
    let action = Action::Chain(vec![
        Action::If(scene_is("A"), Box::new(scene("then")), None),
        Action::Single(PluginAction::VTS(VTSAction::CheckConnection)),
    ]);
    let step = match action.run() {
        Step::Query(_, token) => token.resume(Ok("nope".to_string())),
        _ => panic!("a branch starts with its query"),
    };
    match step {
        Step::Run(command, token) => {
            assert_eq!(*command, PluginAction::VTS(VTSAction::CheckConnection));
            match token.resume(Ok(())) {
                Step::Finished(result) => assert!(result.is_ok()),
                _ => panic!("the chain should have ended"),
            }
        }
        _ => panic!("the second child should be dispatched"),
    }
}

#[test]
fn condition_check_compares_and_hands_failures_on() {
    let condition = scene_is("A");
    assert_eq!(condition.check(Ok("A".to_string())).unwrap(), true);
    assert_eq!(condition.check(Ok("a".to_string())).unwrap(), false);
    assert_eq!(condition.check(Ok("".to_string())).unwrap(), false);
    match condition.check(Err(boom())) {
        Err(e) => assert_eq!(e.to_string(), "boom"),
        Ok(_) => panic!("a failed query is not an answer"),
    }
}

#[test]
fn error_messages() {
    assert_eq!(
        ActionError::PluginNotConfigured(PluginType::OBS).to_string(),
        "Plugin OBS not configured"
    );
    assert_eq!(
        ActionError::PluginNotConfigured(PluginType::General).to_string(),
        "Plugin General not configured"
    );
    assert_eq!(
        ActionError::ConnectionUnavailable(PluginType::OBS).to_string(),
        "Unable to create OBS websocket connection"
    );
    assert_eq!(
        ActionError::MismatchedPluginAndEnvelope.to_string(),
        "Mismatched action and plugin instance"
    );
    assert_eq!(
        ActionError::ChainAborted(Box::new(ActionError::PluginNotConfigured(PluginType::VTS)))
            .to_string(),
        "Action chain failed: Plugin VTS not configured"
    );
}
