//! The streaming-software plugin.

use vstd::prelude::*;
use crate::error::ActionError;
use crate::plugins::link::Link;
use crate::plugins::PluginType;
use crate::text::{decimal, decimal_string};

verus! {

/// A value that can be read from the streaming software.
///
/// `IsStreaming` and `IsRecording` answer `"true"` or `"false"`.
#[derive(Clone, Copy, Debug, PartialEq, Eq, Structural, Hash)]
pub enum OBSQuery {
    CurrentProgramScene,
    IsStreaming,
    IsRecording,
    Version,
}

/// A command for the streaming software.
#[derive(Debug, PartialEq, Eq)]
pub enum OBSAction {
    ProgramSceneChange(String),
    StartStream,
    StopStream,
    StartRecord,
    StopRecord,
    CheckConnection,
}

/// Where the streaming software listens, and the password it asks for.
#[derive(Debug, PartialEq, Eq)]
pub struct OBSConfig {
    pub addr: String,
    pub port: u16,
    pub password: Option<String>,
}

/// One request to the streaming software.
#[derive(Debug, PartialEq, Eq)]
pub enum OBSRequest<'a> {
    Version,
    SceneList,
    CurrentProgramScene,
    SetCurrentProgramScene(&'a String),
    StreamStatus,
    RecordStatus,
    StartStream,
    StopStream,
    StartRecord,
    StopRecord,
}

/// What the streaming software answered.
#[derive(Debug, PartialEq, Eq)]
pub enum OBSResponse {
    /// The major number of the software's version.
    Version(u64),
    /// The names of the scenes.
    SceneList(Vec<String>),
    /// The name of the scene that is on the program output.
    CurrentProgramScene(String),
    /// Whether the stream, or the recording, is running.
    Active(bool),
    /// The command was carried out.
    Done,
}

/// The words for an answer that does not fit the request.
pub open spec fn unexpected_reply() -> Seq<char> {
    "Unexpected reply from OBS"@
}

/// How a yes or no is written for conditions.
pub open spec fn truth_text(b: bool) -> Seq<char> {
    if b {
        "true"@
    } else {
        "false"@
    }
}

/// Writes a yes or no for conditions.
fn truth_string(b: bool) -> (s: String)
    ensures
        s@ == truth_text(b),
{
    if b {
        "true".to_string()
    } else {
        "false".to_string()
    }
}

/// The failure for an answer that does not fit the request.
fn unexpected<T>() -> (r: Result<T, ActionError>)
    ensures
        r is Err,
        r->Err_0.is_request_failed_with(unexpected_reply()),
{
    Err(ActionError::request_failed("Unexpected reply from OBS"))
}

impl OBSQuery {
    /// The request that fetches this value.
    pub open spec fn request(self) -> OBSRequest<'static> {
        match self {
            OBSQuery::CurrentProgramScene => OBSRequest::CurrentProgramScene,
            OBSQuery::IsStreaming => OBSRequest::StreamStatus,
            OBSQuery::IsRecording => OBSRequest::RecordStatus,
            OBSQuery::Version => OBSRequest::Version,
        }
    }

    /// The text that an answer stands for under this query, if it fits.
    pub open spec fn text_of(self, answer: OBSResponse) -> Option<Seq<char>> {
        match (self, answer) {
            (OBSQuery::CurrentProgramScene, OBSResponse::CurrentProgramScene(name)) => Some(name@),
            (OBSQuery::IsStreaming, OBSResponse::Active(on)) => Some(truth_text(on)),
            (OBSQuery::IsRecording, OBSResponse::Active(on)) => Some(truth_text(on)),
            (OBSQuery::Version, OBSResponse::Version(major)) => Some(decimal(major as nat)),
            _ => None,
        }
    }

    /// The request that fetches this value.
    pub fn get_request(&self) -> (request: OBSRequest<'static>)
        ensures
            request == self.request(),
    {
        match self {
            OBSQuery::CurrentProgramScene => OBSRequest::CurrentProgramScene,
            OBSQuery::IsStreaming => OBSRequest::StreamStatus,
            OBSQuery::IsRecording => OBSRequest::RecordStatus,
            OBSQuery::Version => OBSRequest::Version,
        }
    }

    /// Turns the peer's reply to this query's request into the query's
    /// value. A failure disconnects the connector.
    pub fn run(&self, conn: &mut OBSConnector, reply: Result<OBSResponse, String>) -> (r: Result<
        String,
        ActionError,
    >)
        ensures
            final(conn).config() == old(conn).config(),
            final(conn).link() == old(conn).link().answered(reply is Err),
            match reply {
                Err(detail) => r == Err::<String, ActionError>(ActionError::RequestFailed(detail)),
                Ok(answer) => match self.text_of(answer) {
                    Some(text) => r is Ok && r->Ok_0@ == text,
                    None => r is Err && r->Err_0.is_request_failed_with(unexpected_reply()),
                },
            },
    {
        match self {
            OBSQuery::CurrentProgramScene => conn.get_current_program_scene(reply),
            OBSQuery::IsStreaming => conn.get_stream_status_string(reply),
            OBSQuery::IsRecording => conn.get_record_status_string(reply),
            OBSQuery::Version => conn.get_obs_version(reply),
        }
    }

    /// The query's name for display.
    pub open spec fn label(self) -> Seq<char> {
        match self {
            OBSQuery::CurrentProgramScene => "Current Program Scene"@,
            OBSQuery::IsStreaming => "Is Streaming"@,
            OBSQuery::IsRecording => "Is Recording"@,
            OBSQuery::Version => "Version"@,
        }
    }

    /// Renders the query's name for display.
    pub fn to_string(&self) -> (s: String)
        ensures
            s@ == self.label(),
    {
        match self {
            OBSQuery::CurrentProgramScene => "Current Program Scene".to_string(),
            OBSQuery::IsStreaming => "Is Streaming".to_string(),
            OBSQuery::IsRecording => "Is Recording".to_string(),
            OBSQuery::Version => "Version".to_string(),
        }
    }
}

impl OBSAction {
    /// The request that carries this command out.
    pub open spec fn request(&self) -> OBSRequest<'_> {
        match self {
            OBSAction::ProgramSceneChange(scene) => OBSRequest::SetCurrentProgramScene(scene),
            OBSAction::StartStream => OBSRequest::StartStream,
            OBSAction::StopStream => OBSRequest::StopStream,
            OBSAction::StartRecord => OBSRequest::StartRecord,
            OBSAction::StopRecord => OBSRequest::StopRecord,
            OBSAction::CheckConnection => OBSRequest::Version,
        }
    }

    /// The request that carries this command out.
    pub fn get_request(&self) -> (request: OBSRequest<'_>)
        ensures
            request == self.request(),
    {
        match self {
            OBSAction::ProgramSceneChange(scene) => OBSRequest::SetCurrentProgramScene(scene),
            OBSAction::StartStream => OBSRequest::StartStream,
            OBSAction::StopStream => OBSRequest::StopStream,
            OBSAction::StartRecord => OBSRequest::StartRecord,
            OBSAction::StopRecord => OBSRequest::StopRecord,
            OBSAction::CheckConnection => OBSRequest::Version,
        }
    }

    /// Whether an answer fits this command's request.
    pub open spec fn fits(self, answer: OBSResponse) -> bool {
        match self {
            OBSAction::CheckConnection => answer is Version,
            _ => answer is Done,
        }
    }

    /// Takes the peer's reply to this command's request. A failure
    /// disconnects the connector.
    pub fn run(&self, conn: &mut OBSConnector, reply: Result<OBSResponse, String>) -> (r: Result<
        (),
        ActionError,
    >)
        ensures
            final(conn).config() == old(conn).config(),
            final(conn).link() == old(conn).link().answered(reply is Err),
            match reply {
                Err(detail) => r == Err::<(), ActionError>(ActionError::RequestFailed(detail)),
                Ok(answer) => if self.fits(answer) {
                    r == Ok::<(), ActionError>(())
                } else {
                    r is Err && r->Err_0.is_request_failed_with(unexpected_reply())
                },
            },
    {
        match self {
            OBSAction::ProgramSceneChange(_) => conn.change_current_program_scene(reply),
            OBSAction::StartStream => conn.start_stream(reply),
            OBSAction::StopStream => conn.stop_stream(reply),
            OBSAction::StartRecord => conn.start_record(reply),
            OBSAction::StopRecord => conn.stop_record(reply),
            OBSAction::CheckConnection => match conn.get_obs_version(reply) {
                Ok(_) => Ok(()),
                Err(e) => Err(e),
            },
        }
    }

    /// The command's description for display.
    pub open spec fn label(self) -> Seq<char> {
        match self {
            OBSAction::ProgramSceneChange(scene) => "Change program scene to "@ + scene@,
            OBSAction::StartStream => "Start streaming"@,
            OBSAction::StopStream => "Stop streaming"@,
            OBSAction::StartRecord => "Start recording"@,
            OBSAction::StopRecord => "Stop recording"@,
            OBSAction::CheckConnection => "Check connection"@,
        }
    }

    /// Renders the command's description for display.
    pub fn to_string(&self) -> (s: String)
        ensures
            s@ == self.label(),
    {
        match self {
            OBSAction::ProgramSceneChange(scene) => {
                let mut s = "Change program scene to ".to_string();
                s.append(scene.as_str());
                s
            },
            OBSAction::StartStream => "Start streaming".to_string(),
            OBSAction::StopStream => "Stop streaming".to_string(),
            OBSAction::StartRecord => "Start recording".to_string(),
            OBSAction::StopRecord => "Stop recording".to_string(),
            OBSAction::CheckConnection => "Check connection".to_string(),
        }
    }
}

impl Clone for OBSAction {
    fn clone(&self) -> (copy: Self)
        ensures
            copy == *self,
    {
        match self {
            OBSAction::ProgramSceneChange(scene) => OBSAction::ProgramSceneChange(scene.clone()),
            OBSAction::StartStream => OBSAction::StartStream,
            OBSAction::StopStream => OBSAction::StopStream,
            OBSAction::StartRecord => OBSAction::StartRecord,
            OBSAction::StopRecord => OBSAction::StopRecord,
            OBSAction::CheckConnection => OBSAction::CheckConnection,
        }
    }
}

impl Clone for OBSConfig {
    fn clone(&self) -> (copy: Self)
        ensures
            copy == *self,
    {
        self.duplicate()
    }
}

impl OBSConfig {
    /// A copy of the configuration.
    pub fn duplicate(&self) -> (copy: OBSConfig)
        ensures
            copy == *self,
    {
        OBSConfig {
            addr: self.addr.clone(),
            port: self.port,
            password: match &self.password {
                Some(p) => Some(p.clone()),
                None => None,
            },
        }
    }
}

/// The connector to the streaming software: its configuration, and whether
/// it holds a live connection.
#[derive(Debug)]
pub struct OBSConnector {
    link: Link,
    config: OBSConfig,
}

impl OBSConnector {
    /// Whether the connector holds a live connection.
    pub closed spec fn link(self) -> Link {
        self.link
    }

    /// The configuration that the connector was made with.
    pub closed spec fn config(self) -> OBSConfig {
        self.config
    }

    /// A connector for `config`, after the first connection attempt. A
    /// failed attempt is not an error: the connector is made all the same,
    /// and connects when it is first used.
    pub fn new(config: OBSConfig, connected: bool) -> (conn: OBSConnector)
        ensures
            conn.config() == config,
            conn.link() == Link::attempted(connected),
    {
        OBSConnector { link: Link::after_attempt(connected), config }
    }

    /// Whether the connector holds a live connection.
    pub fn is_connected(&self) -> (connected: bool)
        ensures
            connected == (self.link() is Connected),
    {
        !self.link.needs_connection()
    }

    /// The configuration that the connector was made with.
    pub fn get_config(&self) -> (config: &OBSConfig)
        ensures
            *config == self.config(),
    {
        &self.config
    }

    /// Records a connection attempt. A failed attempt is reported, and the
    /// request that it was made for is not to be sent.
    pub fn connection_attempted(&mut self, succeeded: bool) -> (r: Result<(), ActionError>)
        ensures
            final(self).config() == old(self).config(),
            final(self).link() == Link::attempted(succeeded),
            succeeded ==> r == Ok::<(), ActionError>(()),
            !succeeded ==> r == Err::<(), ActionError>(
                ActionError::ConnectionUnavailable(PluginType::OBS),
            ),
    {
        self.link.connection_attempted(PluginType::OBS, succeeded)
    }

    /// Records the peer's reply to a request: a failure disconnects.
    pub fn request_answered(&mut self, reply: Result<OBSResponse, String>) -> (r: Result<
        OBSResponse,
        ActionError,
    >)
        ensures
            final(self).config() == old(self).config(),
            final(self).link() == old(self).link().answered(reply is Err),
            match reply {
                Ok(answer) => r == Ok::<OBSResponse, ActionError>(answer),
                Err(detail) => r == Err::<OBSResponse, ActionError>(
                    ActionError::RequestFailed(detail),
                ),
            },
    {
        self.link.request_answered(reply)
    }

    /// The major number of the software's version, in decimal: `"28"` for
    /// version 28.0.2.
    pub fn get_obs_version(&mut self, reply: Result<OBSResponse, String>) -> (r: Result<
        String,
        ActionError,
    >)
        ensures
            final(self).config() == old(self).config(),
            final(self).link() == old(self).link().answered(reply is Err),
            match reply {
                Err(detail) => r == Err::<String, ActionError>(ActionError::RequestFailed(detail)),
                Ok(OBSResponse::Version(major)) => r is Ok && r->Ok_0@ == decimal(major as nat),
                Ok(_) => r is Err && r->Err_0.is_request_failed_with(unexpected_reply()),
            },
    {
        match self.request_answered(reply) {
            Err(e) => Err(e),
            Ok(OBSResponse::Version(major)) => Ok(decimal_string(major)),
            Ok(_) => unexpected(),
        }
    }

    /// The names of the scenes.
    pub fn get_scene_list(&mut self, reply: Result<OBSResponse, String>) -> (r: Result<
        Vec<String>,
        ActionError,
    >)
        ensures
            final(self).config() == old(self).config(),
            final(self).link() == old(self).link().answered(reply is Err),
            match reply {
                Err(detail) => r == Err::<Vec<String>, ActionError>(
                    ActionError::RequestFailed(detail),
                ),
                Ok(OBSResponse::SceneList(names)) => r == Ok::<Vec<String>, ActionError>(names),
                Ok(_) => r is Err && r->Err_0.is_request_failed_with(unexpected_reply()),
            },
    {
        match self.request_answered(reply) {
            Err(e) => Err(e),
            Ok(OBSResponse::SceneList(names)) => Ok(names),
            Ok(_) => unexpected(),
        }
    }

    /// The name of the scene that is on the program output.
    pub fn get_current_program_scene(&mut self, reply: Result<OBSResponse, String>) -> (r: Result<
        String,
        ActionError,
    >)
        ensures
            final(self).config() == old(self).config(),
            final(self).link() == old(self).link().answered(reply is Err),
            match reply {
                Err(detail) => r == Err::<String, ActionError>(ActionError::RequestFailed(detail)),
                Ok(OBSResponse::CurrentProgramScene(name)) => r == Ok::<String, ActionError>(name),
                Ok(_) => r is Err && r->Err_0.is_request_failed_with(unexpected_reply()),
            },
    {
        match self.request_answered(reply) {
            Err(e) => Err(e),
            Ok(OBSResponse::CurrentProgramScene(name)) => Ok(name),
            Ok(_) => unexpected(),
        }
    }

    /// Takes the reply to a change of the program scene.
    pub fn change_current_program_scene(&mut self, reply: Result<OBSResponse, String>) -> (r:
        Result<(), ActionError>)
        ensures
            final(self).config() == old(self).config(),
            final(self).link() == old(self).link().answered(reply is Err),
            match reply {
                Err(detail) => r == Err::<(), ActionError>(ActionError::RequestFailed(detail)),
                Ok(OBSResponse::Done) => r == Ok::<(), ActionError>(()),
                Ok(_) => r is Err && r->Err_0.is_request_failed_with(unexpected_reply()),
            },
    {
        self.command_answered(reply)
    }

    /// Takes the reply to a command that answers nothing.
    fn command_answered(&mut self, reply: Result<OBSResponse, String>) -> (r: Result<
        (),
        ActionError,
    >)
        ensures
            final(self).config() == old(self).config(),
            final(self).link() == old(self).link().answered(reply is Err),
            match reply {
                Err(detail) => r == Err::<(), ActionError>(ActionError::RequestFailed(detail)),
                Ok(OBSResponse::Done) => r == Ok::<(), ActionError>(()),
                Ok(_) => r is Err && r->Err_0.is_request_failed_with(unexpected_reply()),
            },
    {
        match self.request_answered(reply) {
            Err(e) => Err(e),
            Ok(OBSResponse::Done) => Ok(()),
            Ok(_) => unexpected(),
        }
    }

    /// Takes the reply to a status request.
    fn status_answered(&mut self, reply: Result<OBSResponse, String>) -> (r: Result<
        bool,
        ActionError,
    >)
        ensures
            final(self).config() == old(self).config(),
            final(self).link() == old(self).link().answered(reply is Err),
            match reply {
                Err(detail) => r == Err::<bool, ActionError>(ActionError::RequestFailed(detail)),
                Ok(OBSResponse::Active(on)) => r == Ok::<bool, ActionError>(on),
                Ok(_) => r is Err && r->Err_0.is_request_failed_with(unexpected_reply()),
            },
    {
        match self.request_answered(reply) {
            Err(e) => Err(e),
            Ok(OBSResponse::Active(on)) => Ok(on),
            Ok(_) => unexpected(),
        }
    }

    /// Whether the stream is running, as `"true"` or `"false"`.
    pub fn get_stream_status_string(&mut self, reply: Result<OBSResponse, String>) -> (r: Result<
        String,
        ActionError,
    >)
        ensures
            final(self).config() == old(self).config(),
            final(self).link() == old(self).link().answered(reply is Err),
            match reply {
                Err(detail) => r == Err::<String, ActionError>(ActionError::RequestFailed(detail)),
                Ok(OBSResponse::Active(on)) => r is Ok && r->Ok_0@ == truth_text(on),
                Ok(_) => r is Err && r->Err_0.is_request_failed_with(unexpected_reply()),
            },
    {
        match self.status_answered(reply) {
            Ok(on) => Ok(truth_string(on)),
            Err(e) => Err(e),
        }
    }

    /// Whether the recording is running, as `"true"` or `"false"`.
    pub fn get_record_status_string(&mut self, reply: Result<OBSResponse, String>) -> (r: Result<
        String,
        ActionError,
    >)
        ensures
            final(self).config() == old(self).config(),
            final(self).link() == old(self).link().answered(reply is Err),
            match reply {
                Err(detail) => r == Err::<String, ActionError>(ActionError::RequestFailed(detail)),
                Ok(OBSResponse::Active(on)) => r is Ok && r->Ok_0@ == truth_text(on),
                Ok(_) => r is Err && r->Err_0.is_request_failed_with(unexpected_reply()),
            },
    {
        match self.status_answered(reply) {
            Ok(on) => Ok(truth_string(on)),
            Err(e) => Err(e),
        }
    }

    /// Takes the reply to the start of the stream.
    pub fn start_stream(&mut self, reply: Result<OBSResponse, String>) -> (r: Result<
        (),
        ActionError,
    >)
        ensures
            final(self).config() == old(self).config(),
            final(self).link() == old(self).link().answered(reply is Err),
            match reply {
                Err(detail) => r == Err::<(), ActionError>(ActionError::RequestFailed(detail)),
                Ok(OBSResponse::Done) => r == Ok::<(), ActionError>(()),
                Ok(_) => r is Err && r->Err_0.is_request_failed_with(unexpected_reply()),
            },
    {
        self.command_answered(reply)
    }

    /// Takes the reply to the stop of the stream.
    pub fn stop_stream(&mut self, reply: Result<OBSResponse, String>) -> (r: Result<
        (),
        ActionError,
    >)
        ensures
            final(self).config() == old(self).config(),
            final(self).link() == old(self).link().answered(reply is Err),
            match reply {
                Err(detail) => r == Err::<(), ActionError>(ActionError::RequestFailed(detail)),
                Ok(OBSResponse::Done) => r == Ok::<(), ActionError>(()),
                Ok(_) => r is Err && r->Err_0.is_request_failed_with(unexpected_reply()),
            },
    {
        self.command_answered(reply)
    }

    /// Takes the reply to the start of the recording.
    pub fn start_record(&mut self, reply: Result<OBSResponse, String>) -> (r: Result<
        (),
        ActionError,
    >)
        ensures
            final(self).config() == old(self).config(),
            final(self).link() == old(self).link().answered(reply is Err),
            match reply {
                Err(detail) => r == Err::<(), ActionError>(ActionError::RequestFailed(detail)),
                Ok(OBSResponse::Done) => r == Ok::<(), ActionError>(()),
                Ok(_) => r is Err && r->Err_0.is_request_failed_with(unexpected_reply()),
            },
    {
        self.command_answered(reply)
    }

    /// Takes the reply to the stop of the recording.
    pub fn stop_record(&mut self, reply: Result<OBSResponse, String>) -> (r: Result<
        (),
        ActionError,
    >)
        ensures
            final(self).config() == old(self).config(),
            final(self).link() == old(self).link().answered(reply is Err),
            match reply {
                Err(detail) => r == Err::<(), ActionError>(ActionError::RequestFailed(detail)),
                Ok(OBSResponse::Done) => r == Ok::<(), ActionError>(()),
                Ok(_) => r is Err && r->Err_0.is_request_failed_with(unexpected_reply()),
            },
    {
        self.command_answered(reply)
    }
}

} // verus!
