use scuffcommander::error::ActionError;
use scuffcommander::number::Real;
use scuffcommander::plugins::general::GeneralAction;
use scuffcommander::plugins::link::Link;
use scuffcommander::plugins::obs::{
    OBSAction, OBSConfig, OBSConnector, OBSQuery, OBSRequest, OBSResponse,
};
use scuffcommander::plugins::vts::{
    VTSAction, VTSConfig, VTSConnector, VTSExpression, VTSItem, VTSMoveModelInput, VTSPosition,
    VTSQuery, VTSRequest, VTSResponse,
};
use scuffcommander::plugins::{
    ActionExchange, PluginAction, PluginConfig, PluginConfigs, PluginInstance, PluginQuery,
    PluginStates, PluginType, QueryExchange, Request, Response,
};

fn obs_config() -> OBSConfig {
    OBSConfig {
        addr: "localhost".to_string(),
        port: 4455,
        password: Some("secret".to_string()),
    }
}

fn vts_config() -> VTSConfig {
    VTSConfig {
        addr: "ws://localhost:8001".to_string(),
        token_file: "vts_token.txt".to_string(),
    }
}

fn obs_only(connected: bool) -> PluginStates {
    PluginStates::init(vec![(PluginConfig::OBS(obs_config()), connected)])
}

fn vts_only(connected: bool) -> PluginStates {
    PluginStates::init(vec![(PluginConfig::VTS(vts_config()), connected)])
}

fn obs_is_connected(plugins: &PluginStates) -> bool {
    match plugins.get(PluginType::OBS) {
        Some(PluginInstance::OBS(conn)) => conn.is_connected(),
        _ => panic!("no OBS connector"),
    }
}

fn vts_connector(plugins: &PluginStates) -> &VTSConnector {
    match plugins.get(PluginType::VTS) {
        Some(PluginInstance::VTS(conn)) => conn,
        _ => panic!("no VTS connector"),
    }
}

fn position(n: u64) -> VTSPosition {
    VTSPosition {
        x: Real::from_bits(n),
        y: Real::from_bits(n + 1),
        rotation: Real::from_bits(n + 2),
        size: Real::from_bits(n + 3),
    }
}

#[test]
fn plugin_type_names() {
    assert_eq!(PluginType::OBS.to_string(), "OBS");
    assert_eq!(PluginType::VTS.to_string(), "VTS");
    assert_eq!(PluginType::General.to_string(), "General");
}

#[test]
fn required_types() {
    assert_eq!(
        PluginQuery::OBS(OBSQuery::Version).get_required_type(),
        PluginType::OBS
    );
    assert_eq!(
        PluginQuery::VTS(VTSQuery::ActiveModelId).get_required_type(),
        PluginType::VTS
    );
    assert_eq!(
        PluginAction::OBS(OBSAction::StartStream).get_required_type(),
        PluginType::OBS
    );
    assert_eq!(
        PluginAction::VTS(VTSAction::CheckConnection).get_required_type(),
        PluginType::VTS
    );
    assert_eq!(
        PluginAction::General(GeneralAction::Delay(Real::zero())).get_required_type(),
        PluginType::General
    );
}

#[test]
fn default_plugins_are_the_general_plugin_alone() {
    assert_eq!(PluginConfig::get_default_vec(), vec![PluginConfig::General]);
}

#[test]
fn link_transitions() {
    let mut link = Link::after_attempt(false);
    assert_eq!(link, Link::Disconnected);
    assert!(link.needs_connection());
    assert!(link.connection_attempted(PluginType::OBS, true).is_ok());
    assert_eq!(link, Link::Connected);
    assert!(!link.needs_connection());
    let answered: Result<u8, ActionError> = link.request_answered(Ok(7));
    assert_eq!(answered.unwrap(), 7);
    assert_eq!(link, Link::Connected);
    let failed: Result<u8, ActionError> = link.request_answered(Err("gone".to_string()));
    assert_eq!(failed.unwrap_err().to_string(), "gone");
    assert_eq!(link, Link::Disconnected);
    let refused = link.connection_attempted(PluginType::VTS, false);
    assert_eq!(
        refused.unwrap_err().to_string(),
        "Unable to create VTS websocket connection"
    );
    assert_eq!(link, Link::Disconnected);
}

#[test]
fn init_keeps_a_plugin_that_could_not_connect() {
    let plugins = PluginStates::init(vec![
        (PluginConfig::OBS(obs_config()), false),
        (PluginConfig::VTS(vts_config()), true),
        (PluginConfig::General, true),
    ]);
    assert!(plugins.contains_key(PluginType::OBS));
    assert!(plugins.contains_key(PluginType::VTS));
    assert!(plugins.contains_key(PluginType::General));
    assert!(!obs_is_connected(&plugins));
    assert!(vts_connector(&plugins).is_connected());
    match plugins.get(PluginType::OBS) {
        Some(PluginInstance::OBS(conn)) => assert_eq!(*conn.get_config(), obs_config()),
        _ => panic!("no OBS connector"),
    }
}

#[test]
fn init_makes_no_entry_for_a_plugin_that_is_not_configured() {
    let plugins = PluginStates::init(vec![(PluginConfig::General, true)]);
    assert!(!plugins.contains_key(PluginType::OBS));
    assert!(!plugins.contains_key(PluginType::VTS));
    assert!(plugins.contains_key(PluginType::General));
    let empty = PluginStates::init(Vec::new());
    assert!(!empty.contains_key(PluginType::General));
}

#[test]
fn init_keeps_the_later_of_two_entries_for_one_plugin() {
    let mut other = obs_config();
    other.port = 4456;
    let plugins = PluginStates::init(vec![
        (PluginConfig::OBS(obs_config()), true),
        (PluginConfig::OBS(other), false),
    ]);
    match plugins.get(PluginType::OBS) {
        Some(PluginInstance::OBS(conn)) => {
            assert_eq!(conn.get_config().port, 4456);
            assert!(!conn.is_connected());
        }
        _ => panic!("no OBS connector"),
    }
}

#[test]
fn dispatch_to_a_plugin_that_is_not_configured() {
    let mut plugins = vts_only(true);
    let action = PluginAction::OBS(OBSAction::StartStream);
    match plugins.dispatch_action(&action) {
        ActionExchange::Done(Err(e)) => {
            assert_eq!(e.to_string(), "Plugin OBS not configured");
        }
        _ => panic!("the dispatch should have ended"),
    }
    match plugins.dispatch_query(&PluginQuery::OBS(OBSQuery::Version)) {
        QueryExchange::Done(Err(e)) => {
            assert_eq!(e.to_string(), "Plugin OBS not configured");
        }
        _ => panic!("the dispatch should have ended"),
    }
    let mut none = PluginStates::new();
    let general = PluginAction::General(GeneralAction::Delay(Real::zero()));
    match none.dispatch_action(&general) {
        ActionExchange::Done(Err(e)) => {
            assert_eq!(e.to_string(), "Plugin General not configured");
        }
        _ => panic!("the dispatch should have ended"),
    }
}

#[test]
fn dispatch_to_a_mismatched_instance() {
    let mut plugins = PluginStates::new();
    plugins.insert(PluginType::OBS, PluginInstance::General);
    let action = PluginAction::OBS(OBSAction::StartStream);
    match plugins.dispatch_action(&action) {
        ActionExchange::Done(Err(e)) => {
            assert_eq!(e.to_string(), "Mismatched action and plugin instance");
        }
        _ => panic!("the dispatch should have ended"),
    }
    match plugins.dispatch_query(&PluginQuery::OBS(OBSQuery::Version)) {
        QueryExchange::Done(Err(e)) => {
            assert_eq!(e.to_string(), "Mismatched action and plugin instance");
        }
        _ => panic!("the dispatch should have ended"),
    }
}

#[test]
fn connected_connector_sends_at_once() {
    let mut plugins = obs_only(true);
    let action = PluginAction::OBS(OBSAction::ProgramSceneChange("Waiting".to_string()));
    match plugins.dispatch_action(&action) {
        ActionExchange::Send(Request::OBS(request), token) => {
            assert_eq!(
                request,
                OBSRequest::SetCurrentProgramScene(&"Waiting".to_string())
            );
            match token.resume(&mut plugins, Ok(Response::OBS(OBSResponse::Done))) {
                ActionExchange::Done(result) => assert!(result.is_ok()),
                _ => panic!("the dispatch should have ended"),
            }
        }
        _ => panic!("the request should go out at once"),
    }
    assert!(obs_is_connected(&plugins));
}

#[test]
fn reconnect_after_failure() {
    let mut plugins = obs_only(false);
    let action = PluginAction::OBS(OBSAction::StartRecord);
    let exchange = match plugins.dispatch_action(&action) {
        ActionExchange::Connect(config, token) => {
            assert_eq!(config, PluginConfig::OBS(obs_config()));
            token.resume(&mut plugins, true)
        }
        _ => panic!("a disconnected connector connects first"),
    };
    assert!(obs_is_connected(&plugins));
    let exchange = match exchange {
        ActionExchange::Send(Request::OBS(OBSRequest::StartRecord), token) => {
            token.resume(&mut plugins, Ok(Response::OBS(OBSResponse::Done)))
        }
        _ => panic!("the request goes out once connected"),
    };
    match exchange {
        ActionExchange::Done(result) => assert!(result.is_ok()),
        _ => panic!("the dispatch should have ended"),
    }
    assert!(obs_is_connected(&plugins));

    let exchange = match plugins.dispatch_action(&action) {
        ActionExchange::Send(_, token) => token.resume(&mut plugins, Err("broken pipe".to_string())),
        _ => panic!("a connected connector sends at once"),
    };
    match exchange {
        ActionExchange::Done(Err(e)) => assert_eq!(e.to_string(), "broken pipe"),
        _ => panic!("the failure ends the dispatch; the request is not sent again"),
    }
    assert!(!obs_is_connected(&plugins));

    match plugins.dispatch_action(&action) {
        ActionExchange::Connect(_, _) => {}
        _ => panic!("the next use connects anew"),
    }
}

#[test]
fn failed_connection_attempt_ends_the_dispatch() {
    let mut plugins = obs_only(false);
    let action = PluginAction::OBS(OBSAction::StopStream);
    match plugins.dispatch_action(&action) {
        ActionExchange::Connect(_, token) => match token.resume(&mut plugins, false) {
            ActionExchange::Done(Err(e)) => {
                assert_eq!(e.to_string(), "Unable to create OBS websocket connection");
            }
            _ => panic!("no request may be sent"),
        },
        _ => panic!("a disconnected connector connects first"),
    }
    assert!(!obs_is_connected(&plugins));
    match plugins.dispatch_query(&PluginQuery::OBS(OBSQuery::IsStreaming)) {
        QueryExchange::Connect(_, token) => match token.resume(&mut plugins, false) {
            QueryExchange::Done(Err(e)) => {
                assert_eq!(e.to_string(), "Unable to create OBS websocket connection");
            }
            _ => panic!("no request may be sent"),
        },
        _ => panic!("a disconnected connector connects first"),
    }
}

#[test]
fn obs_queries() {
    let mut plugins = obs_only(true);
    let cases: Vec<(OBSQuery, OBSRequest<'static>, OBSResponse, &str)> = vec![
        (
            OBSQuery::CurrentProgramScene,
            OBSRequest::CurrentProgramScene,
            OBSResponse::CurrentProgramScene("Desktop + VTS".to_string()),
            "Desktop + VTS",
        ),
        (
            OBSQuery::IsStreaming,
            OBSRequest::StreamStatus,
            OBSResponse::Active(true),
            "true",
        ),
        (
            OBSQuery::IsStreaming,
            OBSRequest::StreamStatus,
            OBSResponse::Active(false),
            "false",
        ),
        (
            OBSQuery::IsRecording,
            OBSRequest::RecordStatus,
            OBSResponse::Active(false),
            "false",
        ),
        (
            OBSQuery::IsRecording,
            OBSRequest::RecordStatus,
            OBSResponse::Active(true),
            "true",
        ),
        (
            OBSQuery::Version,
            OBSRequest::Version,
            OBSResponse::Version(28),
            "28",
        ),
    ];
    for (query, request, response, expected) in cases {
        match plugins.dispatch_query(&PluginQuery::OBS(query)) {
            QueryExchange::Send(Request::OBS(sent), token) => {
                assert_eq!(sent, request);
                match token.resume(&mut plugins, Ok(Response::OBS(response))) {
                    QueryExchange::Done(Ok(text)) => assert_eq!(text, expected),
                    _ => panic!("the query should have answered"),
                }
            }
            _ => panic!("the request should go out at once"),
        }
    }
}

#[test]
fn obs_query_failure_disconnects() {
    let mut plugins = obs_only(true);
    match plugins.dispatch_query(&PluginQuery::OBS(OBSQuery::Version)) {
        QueryExchange::Send(_, token) => match token.resume(&mut plugins, Err("nope".to_string())) {
            QueryExchange::Done(Err(e)) => assert_eq!(e.to_string(), "nope"),
            _ => panic!("the failure ends the dispatch"),
        },
        _ => panic!("the request should go out at once"),
    }
    assert!(!obs_is_connected(&plugins));
}

#[test]
fn unexpected_reply_is_a_failed_request_and_keeps_the_connection() {
    let mut plugins = obs_only(true);
    match plugins.dispatch_query(&PluginQuery::OBS(OBSQuery::Version)) {
        QueryExchange::Send(_, token) => {
            match token.resume(&mut plugins, Ok(Response::OBS(OBSResponse::Done))) {
                QueryExchange::Done(Err(e)) => {
                    assert_eq!(e.to_string(), "Unexpected reply from OBS");
                }
                _ => panic!("the answer does not fit"),
            }
        }
        _ => panic!("the request should go out at once"),
    }
    assert!(obs_is_connected(&plugins));
    let action = PluginAction::OBS(OBSAction::StartStream);
    match plugins.dispatch_action(&action) {
        ActionExchange::Send(_, token) => {
            match token.resume(&mut plugins, Ok(Response::General)) {
                ActionExchange::Done(Err(e)) => {
                    assert_eq!(e.to_string(), "Unexpected reply from OBS");
                }
                _ => panic!("the answer does not fit"),
            }
        }
        _ => panic!("the request should go out at once"),
    }
}

#[test]
fn obs_check_connection_asks_for_the_version() {
    let mut plugins = obs_only(true);
    let action = PluginAction::OBS(OBSAction::CheckConnection);
    match plugins.dispatch_action(&action) {
        ActionExchange::Send(Request::OBS(OBSRequest::Version), token) => {
            match token.resume(&mut plugins, Ok(Response::OBS(OBSResponse::Version(30)))) {
                ActionExchange::Done(result) => assert!(result.is_ok()),
                _ => panic!("the dispatch should have ended"),
            }
        }
        _ => panic!("the version should be asked for"),
    }
}

#[test]
fn obs_connector_operations() {
    let mut conn = OBSConnector::new(obs_config(), true);
    assert_eq!(
        conn.get_obs_version(Ok(OBSResponse::Version(28))).unwrap(),
        "28"
    );
    assert_eq!(
        conn.get_obs_version(Ok(OBSResponse::Version(0))).unwrap(),
        "0"
    );
    assert_eq!(
        conn.get_obs_version(Ok(OBSResponse::Version(18446744073709551615)))
            .unwrap(),
        "18446744073709551615"
    );
    assert_eq!(
        conn.get_scene_list(Ok(OBSResponse::SceneList(vec![
            "A".to_string(),
            "B".to_string()
        ])))
        .unwrap(),
        vec!["A".to_string(), "B".to_string()]
    );
    assert_eq!(
        conn.get_current_program_scene(Ok(OBSResponse::CurrentProgramScene("A".to_string())))
            .unwrap(),
        "A"
    );
    assert!(conn
        .change_current_program_scene(Ok(OBSResponse::Done))
        .is_ok());
    assert_eq!(
        conn.get_stream_status_string(Ok(OBSResponse::Active(true)))
            .unwrap(),
        "true"
    );
    assert_eq!(
        conn.get_record_status_string(Ok(OBSResponse::Active(false)))
            .unwrap(),
        "false"
    );
    assert!(conn.start_stream(Ok(OBSResponse::Done)).is_ok());
    assert!(conn.stop_stream(Ok(OBSResponse::Done)).is_ok());
    assert!(conn.start_record(Ok(OBSResponse::Done)).is_ok());
    assert!(conn.is_connected());
    assert_eq!(
        conn.stop_record(Err("lost".to_string()))
            .unwrap_err()
            .to_string(),
        "lost"
    );
    assert!(!conn.is_connected());
    assert!(conn.connection_attempted(true).is_ok());
    assert!(conn.is_connected());
}

#[test]
fn obs_labels() {
    assert_eq!(
        OBSQuery::CurrentProgramScene.to_string(),
        "Current Program Scene"
    );
    assert_eq!(OBSQuery::IsStreaming.to_string(), "Is Streaming");
    assert_eq!(OBSQuery::IsRecording.to_string(), "Is Recording");
    assert_eq!(OBSQuery::Version.to_string(), "Version");
    assert_eq!(
        OBSAction::ProgramSceneChange("Waiting".to_string()).to_string(),
        "Change program scene to Waiting"
    );
    assert_eq!(OBSAction::StartStream.to_string(), "Start streaming");
    assert_eq!(OBSAction::StopStream.to_string(), "Stop streaming");
    assert_eq!(OBSAction::StartRecord.to_string(), "Start recording");
    assert_eq!(OBSAction::StopRecord.to_string(), "Stop recording");
    assert_eq!(OBSAction::CheckConnection.to_string(), "Check connection");
}

#[test]
fn general_action_is_sent_as_it_is_and_its_failure_is_handed_on() {
    let mut plugins = PluginStates::init(vec![(PluginConfig::General, true)]);
    let action = PluginAction::General(GeneralAction::RunCommand(
        "echo".to_string(),
        vec!["hi".to_string()],
        None,
    ));
    match plugins.dispatch_action(&action) {
        ActionExchange::Send(Request::General(command), token) => {
            assert_eq!(
                *command,
                GeneralAction::RunCommand("echo".to_string(), vec!["hi".to_string()], None)
            );
            match token.resume(&mut plugins, Ok(Response::General)) {
                ActionExchange::Done(result) => assert!(result.is_ok()),
                _ => panic!("the dispatch should have ended"),
            }
        }
        _ => panic!("a general action needs no connection"),
    }
    match plugins.dispatch_action(&action) {
        ActionExchange::Send(_, token) => {
            match token.resume(&mut plugins, Err("No such file".to_string())) {
                ActionExchange::Done(Err(e)) => assert_eq!(e.to_string(), "No such file"),
                _ => panic!("the failure should have been handed on"),
            }
        }
        _ => panic!("a general action needs no connection"),
    }
}

#[test]
fn vts_toggle_flips_the_expression() {
    let mut plugins = vts_only(true);
    let action = PluginAction::VTS(VTSAction::ToggleExpression("Qt.exp3.json".to_string()));
    for active in [true, false] {
        let exchange = match plugins.dispatch_action(&action) {
            ActionExchange::Send(Request::VTS(request), token) => {
                assert_eq!(
                    request,
                    VTSRequest::ExpressionState(Some(&"Qt.exp3.json".to_string()))
                );
                token.resume(
                    &mut plugins,
                    Ok(Response::VTS(VTSResponse::Expressions(vec![VTSExpression {
                        name: "Qt".to_string(),
                        file: "Qt.exp3.json".to_string(),
                        active,
                    }]))),
                )
            }
            _ => panic!("the state should be asked for"),
        };
        match exchange {
            ActionExchange::Send(Request::VTS(request), token) => {
                assert_eq!(
                    request,
                    VTSRequest::ExpressionActivation(&"Qt.exp3.json".to_string(), !active)
                );
                match token.resume(&mut plugins, Ok(Response::VTS(VTSResponse::Done))) {
                    ActionExchange::Done(result) => assert!(result.is_ok()),
                    _ => panic!("the toggle should have ended"),
                }
            }
            _ => panic!("the expression should be switched"),
        }
    }
}

#[test]
fn vts_toggle_of_an_unknown_expression_fails() {
    let mut plugins = vts_only(true);
    let action = PluginAction::VTS(VTSAction::ToggleExpression("x".to_string()));
    match plugins.dispatch_action(&action) {
        ActionExchange::Send(_, token) => match token.resume(
            &mut plugins,
            Ok(Response::VTS(VTSResponse::Expressions(Vec::new()))),
        ) {
            ActionExchange::Done(Err(e)) => {
                assert_eq!(e.to_string(), "Expression not found in current model");
            }
            _ => panic!("the toggle should have failed"),
        },
        _ => panic!("the state should be asked for"),
    }
    assert!(vts_connector(&plugins).is_connected());
}

#[test]
fn vts_simple_commands_send_their_request() {
    let mut plugins = vts_only(true);
    let name = "n".to_string();
    let info = VTSMoveModelInput {
        x: Real::from_bits(1),
        y: Real::from_bits(2),
        rotation: Real::from_bits(3),
        size: Real::from_bits(4),
        time_sec: Real::from_bits(5),
    };
    let cases: Vec<(VTSAction, VTSRequest, VTSResponse)> = vec![
        (
            VTSAction::EnableExpression(name.clone()),
            VTSRequest::ExpressionActivation(&name, true),
            VTSResponse::Done,
        ),
        (
            VTSAction::DisableExpression(name.clone()),
            VTSRequest::ExpressionActivation(&name, false),
            VTSResponse::Done,
        ),
        (
            VTSAction::LoadModel(name.clone()),
            VTSRequest::ModelLoad(&name),
            VTSResponse::Done,
        ),
        (
            VTSAction::MoveModel(info),
            VTSRequest::MoveModel(info),
            VTSResponse::Done,
        ),
        (
            VTSAction::TriggerHotkey(name.clone()),
            VTSRequest::HotkeyTrigger(&name),
            VTSResponse::Done,
        ),
        (
            VTSAction::CheckConnection,
            VTSRequest::Statistics,
            VTSResponse::Statistics("1.2.3".to_string()),
        ),
    ];
    for (command, request, response) in cases {
        let action = PluginAction::VTS(command);
        match plugins.dispatch_action(&action) {
            ActionExchange::Send(Request::VTS(sent), token) => {
                assert_eq!(sent, request);
                match token.resume(&mut plugins, Ok(Response::VTS(response))) {
                    ActionExchange::Done(result) => assert!(result.is_ok()),
                    _ => panic!("the command should have ended"),
                }
            }
            _ => panic!("the request should go out at once"),
        }
    }
}

#[test]
fn vts_save_and_restore_a_position() {
    let mut plugins = vts_only(true);
    let save = PluginAction::VTS(VTSAction::SaveCurrentModelPosition("spot".to_string()));
    match plugins.dispatch_action(&save) {
        ActionExchange::Send(Request::VTS(VTSRequest::CurrentModel), token) => {
            match token.resume(
                &mut plugins,
                Ok(Response::VTS(VTSResponse::CurrentModel(
                    "model".to_string(),
                    position(10),
                ))),
            ) {
                ActionExchange::Done(result) => assert!(result.is_ok()),
                _ => panic!("the save should have ended"),
            }
        }
        _ => panic!("the position should be asked for"),
    }
    assert_eq!(
        vts_connector(&plugins).stored_position("spot"),
        Some(VTSMoveModelInput {
            x: Real::from_bits(10),
            y: Real::from_bits(11),
            rotation: Real::from_bits(12),
            size: Real::from_bits(13),
            time_sec: Real::zero(),
        })
    );
    let restore = PluginAction::VTS(VTSAction::RestoreModelPosition(
        "spot".to_string(),
        Real::from_bits(99),
    ));
    match plugins.dispatch_action(&restore) {
        ActionExchange::Send(Request::VTS(VTSRequest::MoveModel(info)), token) => {
            assert_eq!(
                info,
                VTSMoveModelInput {
                    x: Real::from_bits(10),
                    y: Real::from_bits(11),
                    rotation: Real::from_bits(12),
                    size: Real::from_bits(13),
                    time_sec: Real::from_bits(99),
                }
            );
            match token.resume(&mut plugins, Ok(Response::VTS(VTSResponse::Done))) {
                ActionExchange::Done(result) => assert!(result.is_ok()),
                _ => panic!("the restore should have ended"),
            }
        }
        _ => panic!("the model should be moved"),
    }
    assert_eq!(vts_connector(&plugins).stored_position("spot"), None);
    match plugins.dispatch_action(&restore) {
        ActionExchange::Done(Err(e)) => {
            assert_eq!(
                e.to_string(),
                "Variable spot does not have a stored position"
            );
        }
        _ => panic!("nothing is stored any more"),
    }
}

#[test]
fn vts_queries() {
    let mut plugins = vts_only(true);
    match plugins.dispatch_query(&PluginQuery::VTS(VTSQuery::ActiveModelId)) {
        QueryExchange::Send(Request::VTS(VTSRequest::CurrentModel), token) => {
            match token.resume(
                &mut plugins,
                Ok(Response::VTS(VTSResponse::CurrentModel(
                    "d87b771d".to_string(),
                    position(0),
                ))),
            ) {
                QueryExchange::Done(Ok(text)) => assert_eq!(text, "d87b771d"),
                _ => panic!("the query should have answered"),
            }
        }
        _ => panic!("the model should be asked for"),
    }
    match plugins.dispatch_query(&PluginQuery::VTS(VTSQuery::Version)) {
        QueryExchange::Send(Request::VTS(VTSRequest::Statistics), token) => {
            match token.resume(
                &mut plugins,
                Ok(Response::VTS(VTSResponse::Statistics("1.9.0".to_string()))),
            ) {
                QueryExchange::Done(Ok(text)) => assert_eq!(text, "1.9.0"),
                _ => panic!("the query should have answered"),
            }
        }
        _ => panic!("the statistics should be asked for"),
    }
}

#[test]
fn vts_failure_disconnects_and_the_next_use_connects() {
    let mut plugins = vts_only(true);
    let action = PluginAction::VTS(VTSAction::LoadModel("m".to_string()));
    match plugins.dispatch_action(&action) {
        ActionExchange::Send(_, token) => {
            match token.resume(&mut plugins, Err("timeout".to_string())) {
                ActionExchange::Done(Err(e)) => assert_eq!(e.to_string(), "timeout"),
                _ => panic!("the failure ends the dispatch"),
            }
        }
        _ => panic!("the request should go out at once"),
    }
    assert!(!vts_connector(&plugins).is_connected());
    match plugins.dispatch_action(&action) {
        ActionExchange::Connect(config, token) => {
            assert_eq!(config, PluginConfig::VTS(vts_config()));
            match token.resume(&mut plugins, true) {
                ActionExchange::Send(Request::VTS(VTSRequest::ModelLoad(model)), _) => {
                    assert_eq!(model, "m");
                }
                _ => panic!("the request goes out once connected"),
            }
        }
        _ => panic!("the next use connects anew"),
    }
    assert!(vts_connector(&plugins).is_connected());
}

#[test]
fn vts_lookups() {
    let mut conn = VTSConnector::new(vts_config(), true);
    let expressions = || {
        Ok(VTSResponse::Expressions(vec![
            VTSExpression {
                name: "Love".to_string(),
                file: "EyesLove.exp3.json".to_string(),
                active: false,
            },
            VTSExpression {
                name: "Qt".to_string(),
                file: "Qt.exp3.json".to_string(),
                active: true,
            },
            VTSExpression {
                name: "Love".to_string(),
                file: "second.exp3.json".to_string(),
                active: true,
            },
        ]))
    };
    let items = || {
        vec![
            VTSItem {
                name: "Akari".to_string(),
                id: "d87b".to_string(),
            },
            VTSItem {
                name: "Chloe".to_string(),
                id: "ca88".to_string(),
            },
        ]
    };
    assert_eq!(
        conn.get_expression_name_list(expressions()).unwrap(),
        vec!["Love".to_string(), "Qt".to_string(), "Love".to_string()]
    );
    assert_eq!(
        conn.get_expression_id_from_name("Love", expressions())
            .unwrap(),
        "EyesLove.exp3.json"
    );
    assert_eq!(
        conn.get_expression_id_from_name("none", expressions())
            .unwrap_err()
            .to_string(),
        "Expression with given name not found for the current model"
    );
    assert_eq!(
        conn.get_expression_name_from_id("Qt.exp3.json", expressions())
            .unwrap(),
        "Qt"
    );
    assert_eq!(
        conn.get_expression_name_from_id("none", expressions())
            .unwrap_err()
            .to_string(),
        "Expression with given ID not found for the current model"
    );
    assert_eq!(
        conn.get_model_name_list(Ok(VTSResponse::Models(items())))
            .unwrap(),
        vec!["Akari".to_string(), "Chloe".to_string()]
    );
    assert_eq!(
        conn.get_model_id_from_name("Chloe", Ok(VTSResponse::Models(items())))
            .unwrap(),
        "ca88"
    );
    assert_eq!(
        conn.get_model_id_from_name("x", Ok(VTSResponse::Models(items())))
            .unwrap_err()
            .to_string(),
        "No model found with the given name"
    );
    assert_eq!(
        conn.get_model_name_from_id("d87b", Ok(VTSResponse::Models(items())))
            .unwrap(),
        "Akari"
    );
    assert_eq!(
        conn.get_model_name_from_id("x", Ok(VTSResponse::Models(items())))
            .unwrap_err()
            .to_string(),
        "No model found with the given ID"
    );
    assert_eq!(
        conn.get_hotkey_id_from_name("Akari", Ok(VTSResponse::Hotkeys(items())))
            .unwrap(),
        "d87b"
    );
    assert_eq!(
        conn.get_hotkey_id_from_name("x", Ok(VTSResponse::Hotkeys(items())))
            .unwrap_err()
            .to_string(),
        "Hotkey with given name not found in current model"
    );
    assert_eq!(
        conn.get_hotkey_name_from_id("ca88", Ok(VTSResponse::Hotkeys(items())))
            .unwrap(),
        "Chloe"
    );
    assert_eq!(
        conn.get_hotkey_name_from_id("x", Ok(VTSResponse::Hotkeys(items())))
            .unwrap_err()
            .to_string(),
        "Hotkey with given ID not found in current model"
    );
    assert_eq!(
        conn.get_hotkey_id_list(Ok(VTSResponse::Hotkeys(items())))
            .unwrap(),
        vec![
            ("d87b".to_string(), "Akari".to_string()),
            ("ca88".to_string(), "Chloe".to_string())
        ]
    );
    assert_eq!(
        conn.get_hotkey_name_list(Ok(VTSResponse::Hotkeys(items())))
            .unwrap(),
        vec!["Akari".to_string(), "Chloe".to_string()]
    );
    assert_eq!(
        conn.get_current_model_position(Ok(VTSResponse::CurrentModel(
            "m".to_string(),
            position(3)
        )))
        .unwrap(),
        position(3)
    );
    assert!(conn.is_connected());
    assert_eq!(
        conn.get_model_name_list(Ok(VTSResponse::Done))
            .unwrap_err()
            .to_string(),
        "Unexpected reply from VTS"
    );
    assert!(conn.is_connected());
    assert_eq!(
        conn.get_hotkey_name_list(Err("closed".to_string()))
            .unwrap_err()
            .to_string(),
        "closed"
    );
    assert!(!conn.is_connected());
}

#[test]
fn clones_say_the_same() {
    let action = PluginAction::General(GeneralAction::RunCommand(
        "a".to_string(),
        vec!["b".to_string(), "c".to_string()],
        Some("d".to_string()),
    ));
    assert_eq!(action.clone(), action);
    let action = PluginAction::VTS(VTSAction::RestoreModelPosition(
        "v".to_string(),
        Real::from_bits(4607182418800017408),
    ));
    assert_eq!(action.clone(), action);
    assert_eq!(Real::from_bits(7).to_bits(), 7);
    assert_eq!(obs_config().clone(), obs_config());
    assert_eq!(vts_config().clone(), vts_config());
}

#[test]
fn replies_are_told_apart_by_plugin() {
    assert_eq!(
        Response::for_obs(Ok(Response::OBS(OBSResponse::Active(true)))).unwrap(),
        Ok(OBSResponse::Active(true))
    );
    assert_eq!(
        Response::for_obs(Err("lost".to_string())).unwrap(),
        Err("lost".to_string())
    );
    assert_eq!(
        Response::for_obs(Ok(Response::VTS(VTSResponse::Done)))
            .unwrap_err()
            .to_string(),
        "Unexpected reply from OBS"
    );
    assert_eq!(
        Response::for_obs(Ok(Response::General))
            .unwrap_err()
            .to_string(),
        "Unexpected reply from OBS"
    );
    assert_eq!(
        Response::for_vts(Ok(Response::VTS(VTSResponse::Statistics("1".to_string())))).unwrap(),
        Ok(VTSResponse::Statistics("1".to_string()))
    );
    assert_eq!(
        Response::for_vts(Err("lost".to_string())).unwrap(),
        Err("lost".to_string())
    );
    assert_eq!(
        Response::for_vts(Ok(Response::OBS(OBSResponse::Done)))
            .unwrap_err()
            .to_string(),
        "Unexpected reply from VTS"
    );
}

#[test]
fn unexpected_vts_reply_keeps_the_connection() {
    let mut plugins = vts_only(true);
    let action = PluginAction::VTS(VTSAction::LoadModel("m".to_string()));
    match plugins.dispatch_action(&action) {
        ActionExchange::Send(_, token) => {
            match token.resume(&mut plugins, Ok(Response::OBS(OBSResponse::Done))) {
                ActionExchange::Done(Err(e)) => {
                    assert_eq!(e.to_string(), "Unexpected reply from VTS");
                }
                _ => panic!("the answer does not fit"),
            }
        }
        _ => panic!("the request should go out at once"),
    }
    assert!(vts_connector(&plugins).is_connected());
    match plugins.dispatch_query(&PluginQuery::VTS(VTSQuery::Version)) {
        QueryExchange::Send(_, token) => {
            match token.resume(&mut plugins, Ok(Response::General)) {
                QueryExchange::Done(Err(e)) => {
                    assert_eq!(e.to_string(), "Unexpected reply from VTS");
                }
                _ => panic!("the answer does not fit"),
            }
        }
        _ => panic!("the request should go out at once"),
    }
    assert!(vts_connector(&plugins).is_connected());
}

#[test]
fn plugin_configurations_are_kept_in_order() {
    let configs = PluginConfigs {
        plugins: vec![PluginConfig::General, PluginConfig::OBS(obs_config())],
    };
    assert_eq!(configs.plugins.len(), 2);
    assert_eq!(configs.plugins[0], PluginConfig::General);
    assert_eq!(configs.plugins[1].get_type(), PluginType::OBS);
}
