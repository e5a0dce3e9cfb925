//! Plugin kinds, the envelopes routed to them, and the registry of connectors.

use vstd::prelude::*;
use crate::error::ActionError;
use crate::plugins::general::GeneralAction;
use crate::plugins::link::Link;
use crate::plugins::obs::{OBSAction, OBSConfig, OBSConnector, OBSQuery, OBSRequest, OBSResponse};
use crate::plugins::vts::{
    VTSAction, VTSConfig, VTSConnector, VTSMoveModelInput, VTSNext, VTSPhase, VTSQuery, VTSRequest,
    VTSResponse, VTSTurn,
};

pub mod general;
pub mod link;
pub mod obs;
pub mod vts;

verus! {

/// The kinds of control surface an action or a query can be routed to.
#[derive(Clone, Copy, Debug, PartialEq, Eq, Structural, Hash)]
pub enum PluginType {
    OBS,
    VTS,
    General,
}

impl PluginType {
    /// The name under which the plugin appears in messages.
    pub open spec fn name(self) -> Seq<char> {
        match self {
            PluginType::OBS => "OBS"@,
            PluginType::VTS => "VTS"@,
            PluginType::General => "General"@,
        }
    }

    /// Renders the plugin's name.
    pub fn to_string(&self) -> (s: String)
        ensures
            s@ == self.name(),
    {
        match self {
            PluginType::OBS => "OBS".to_string(),
            PluginType::VTS => "VTS".to_string(),
            PluginType::General => "General".to_string(),
        }
    }
}

/// A query, addressed to the plugin that can answer it.
#[derive(Clone, Copy, Debug, PartialEq, Eq, Structural, Hash)]
pub enum PluginQuery {
    OBS(OBSQuery),
    VTS(VTSQuery),
}

impl PluginQuery {
    /// The plugin that this query must be routed to.
    pub open spec fn required_type(self) -> PluginType {
        match self {
            PluginQuery::OBS(_) => PluginType::OBS,
            PluginQuery::VTS(_) => PluginType::VTS,
        }
    }

    /// The plugin that this query must be routed to.
    pub fn get_required_type(&self) -> (t: PluginType)
        ensures
            t == self.required_type(),
    {
        match self {
            PluginQuery::OBS(_) => PluginType::OBS,
            PluginQuery::VTS(_) => PluginType::VTS,
        }
    }
}

/// A command, addressed to the plugin that can carry it out.
#[derive(Debug, PartialEq, Eq)]
pub enum PluginAction {
    OBS(OBSAction),
    VTS(VTSAction),
    General(GeneralAction),
}

impl Clone for PluginAction {
    fn clone(&self) -> (copy: Self)
        ensures
            copy.alike(*self),
    {
        match self {
            PluginAction::OBS(action) => PluginAction::OBS(action.clone()),
            PluginAction::VTS(action) => PluginAction::VTS(action.clone()),
            PluginAction::General(action) => PluginAction::General(action.clone()),
        }
    }
}

/// The configurations of the plugins to drive, in the order in which they
/// are set up.
#[derive(Debug, PartialEq, Eq)]
pub struct PluginConfigs {
    pub plugins: Vec<PluginConfig>,
}

impl Clone for PluginConfig {
    fn clone(&self) -> (copy: Self)
        ensures
            copy == *self,
    {
        self.duplicate()
    }
}

impl PluginAction {
    /// Whether the two commands say the same.
    pub open spec fn alike(self, other: PluginAction) -> bool {
        match (self, other) {
            (PluginAction::OBS(a), PluginAction::OBS(b)) => a == b,
            (PluginAction::VTS(a), PluginAction::VTS(b)) => a == b,
            (PluginAction::General(a), PluginAction::General(b)) => a.alike(b),
            _ => false,
        }
    }

    /// The plugin that this command must be routed to.
    pub open spec fn required_type(self) -> PluginType {
        match self {
            PluginAction::OBS(_) => PluginType::OBS,
            PluginAction::VTS(_) => PluginType::VTS,
            PluginAction::General(_) => PluginType::General,
        }
    }

    /// The plugin that this command must be routed to.
    pub fn get_required_type(&self) -> (t: PluginType)
        ensures
            t == self.required_type(),
    {
        match self {
            PluginAction::OBS(_) => PluginType::OBS,
            PluginAction::VTS(_) => PluginType::VTS,
            PluginAction::General(_) => PluginType::General,
        }
    }
}

/// The configuration of one plugin.
#[derive(Debug, PartialEq, Eq)]
pub enum PluginConfig {
    OBS(OBSConfig),
    VTS(VTSConfig),
    General,
}

impl PluginConfig {
    /// The plugins of a fresh installation: the general plugin alone.
    pub fn get_default_vec() -> (v: Vec<PluginConfig>)
        ensures
            v@ == seq![PluginConfig::General],
    {
        let mut v = Vec::new();
        v.push(PluginConfig::General);
        assert(v@ =~= seq![PluginConfig::General]);
        v
    }
}

impl PluginConfig {
    /// A copy of the configuration.
    pub fn duplicate(&self) -> (copy: PluginConfig)
        ensures
            copy == *self,
    {
        match self {
            PluginConfig::OBS(c) => PluginConfig::OBS(c.duplicate()),
            PluginConfig::VTS(c) => PluginConfig::VTS(c.duplicate()),
            PluginConfig::General => PluginConfig::General,
        }
    }

    /// The plugin that this configuration is for.
    pub open spec fn plugin_type(self) -> PluginType {
        match self {
            PluginConfig::OBS(_) => PluginType::OBS,
            PluginConfig::VTS(_) => PluginType::VTS,
            PluginConfig::General => PluginType::General,
        }
    }

    /// The plugin that this configuration is for.
    pub fn get_type(&self) -> (t: PluginType)
        ensures
            t == self.plugin_type(),
    {
        match self {
            PluginConfig::OBS(_) => PluginType::OBS,
            PluginConfig::VTS(_) => PluginType::VTS,
            PluginConfig::General => PluginType::General,
        }
    }
}

/// A configured plugin: its connector, where it needs one.
#[derive(Debug)]
pub enum PluginInstance {
    OBS(OBSConnector),
    VTS(VTSConnector),
    General,
}

impl PluginInstance {
    /// The plugin that this instance is of.
    pub open spec fn plugin_type(self) -> PluginType {
        match self {
            PluginInstance::OBS(_) => PluginType::OBS,
            PluginInstance::VTS(_) => PluginType::VTS,
            PluginInstance::General => PluginType::General,
        }
    }

    /// The connector in it is well formed.
    pub open spec fn wf(self) -> bool {
        match self {
            PluginInstance::VTS(conn) => conn.wf(),
            _ => true,
        }
    }

    /// Whether the connector holds a live connection; `None` for a plugin
    /// that has no connector.
    pub open spec fn link(self) -> Option<Link> {
        match self {
            PluginInstance::OBS(conn) => Some(conn.link()),
            PluginInstance::VTS(conn) => Some(conn.link()),
            PluginInstance::General => None,
        }
    }

    /// The configuration that the instance was made from.
    pub open spec fn config(self) -> PluginConfig {
        match self {
            PluginInstance::OBS(conn) => PluginConfig::OBS(conn.config()),
            PluginInstance::VTS(conn) => PluginConfig::VTS(conn.config()),
            PluginInstance::General => PluginConfig::General,
        }
    }

    /// The model positions that the connector has saved.
    pub open spec fn positions(self) -> Map<Seq<char>, VTSMoveModelInput> {
        match self {
            PluginInstance::VTS(conn) => conn.positions(),
            _ => Map::empty(),
        }
    }

    /// This instance is `before` with, at most, another state of its link.
    pub open spec fn kept(self, before: PluginInstance) -> bool {
        &&& self.wf()
        &&& self.plugin_type() == before.plugin_type()
        &&& self.config() == before.config()
        &&& self.positions() == before.positions()
    }

    /// This instance is `before`, as far as can be observed.
    pub open spec fn same(self, before: PluginInstance) -> bool {
        self.kept(before) && self.link() == before.link()
    }

    /// An instance for `config`, after the first connection attempt. A
    /// failed attempt is not an error: the connector is made all the same,
    /// disconnected, and connects when it is first used.
    pub fn new(config: PluginConfig, connected: bool) -> (instance: PluginInstance)
        ensures
            instance.wf(),
            instance.config() == config,
            instance.plugin_type() == config.plugin_type(),
            instance.positions() == Map::<Seq<char>, VTSMoveModelInput>::empty(),
            instance.link() == match config {
                PluginConfig::General => None::<Link>,
                _ => Some(Link::attempted(connected)),
            },
    {
        match config {
            PluginConfig::OBS(c) => PluginInstance::OBS(OBSConnector::new(c, connected)),
            PluginConfig::VTS(c) => PluginInstance::VTS(VTSConnector::new(c, connected)),
            PluginConfig::General => PluginInstance::General,
        }
    }

    /// The plugin that this instance is of.
    pub fn get_type(&self) -> (t: PluginType)
        ensures
            t == self.plugin_type(),
    {
        match self {
            PluginInstance::OBS(_) => PluginType::OBS,
            PluginInstance::VTS(_) => PluginType::VTS,
            PluginInstance::General => PluginType::General,
        }
    }

    /// Whether a connection must be made before a request can be sent.
    pub fn needs_connection(&self) -> (needed: bool)
        ensures
            needed == (self.link() == Some(Link::Disconnected)),
    {
        match self {
            PluginInstance::OBS(conn) => !conn.is_connected(),
            PluginInstance::VTS(conn) => !conn.is_connected(),
            PluginInstance::General => false,
        }
    }

    /// A copy of the configuration that the instance was made from.
    pub fn get_config(&self) -> (config: PluginConfig)
        ensures
            config == self.config(),
    {
        match self {
            PluginInstance::OBS(conn) => PluginConfig::OBS(conn.get_config().duplicate()),
            PluginInstance::VTS(conn) => PluginConfig::VTS(conn.get_config().duplicate()),
            PluginInstance::General => PluginConfig::General,
        }
    }

    /// Records a connection attempt. A failed attempt is reported, and the
    /// request that it was made for is not to be sent. A plugin without a
    /// connector has nothing to record.
    pub fn connection_attempted(&mut self, succeeded: bool) -> (r: Result<(), ActionError>)
        requires
            old(self).wf(),
        ensures
            final(self).kept(*old(self)),
            final(self).link() == match old(self).link() {
                Some(_) => Some(Link::attempted(succeeded)),
                None => None,
            },
            succeeded || old(self).link() is None ==> r == Ok::<(), ActionError>(()),
            !succeeded && old(self).link() is Some ==> r == Err::<(), ActionError>(
                ActionError::ConnectionUnavailable(old(self).plugin_type()),
            ),
    {
        match self {
            PluginInstance::OBS(conn) => conn.connection_attempted(succeeded),
            PluginInstance::VTS(conn) => conn.connection_attempted(succeeded),
            PluginInstance::General => Ok(()),
        }
    }
}

/// One request to a plugin's peer, or one command for the local machine.
#[derive(Debug)]
pub enum Request<'a> {
    OBS(OBSRequest<'a>),
    VTS(VTSRequest<'a>),
    General(&'a GeneralAction),
}

/// What came back for a request.
#[derive(Debug)]
pub enum Response {
    OBS(OBSResponse),
    VTS(VTSResponse),
    /// The wait is over, or the program has ended.
    General,
}

impl Response {
    /// The reply as the streaming connector takes it: the peer's answer or
    /// failure, or the refusal of an answer that is not a streaming
    /// plugin's.
    pub fn for_obs(reply: Result<Response, String>) -> (r: Result<
        Result<OBSResponse, String>,
        ActionError,
    >)
        ensures
            match reply {
                Err(detail) => r == Ok::<Result<OBSResponse, String>, ActionError>(Err(detail)),
                Ok(Response::OBS(answer)) => r == Ok::<Result<OBSResponse, String>, ActionError>(
                    Ok(answer),
                ),
                Ok(_) => r is Err && r->Err_0.is_request_failed_with(
                    crate::plugins::obs::unexpected_reply(),
                ),
            },
    {
        match reply {
            Err(detail) => Ok(Err(detail)),
            Ok(Response::OBS(answer)) => Ok(Ok(answer)),
            Ok(_) => Err(ActionError::request_failed("Unexpected reply from OBS")),
        }
    }

    /// The reply as the avatar connector takes it: the peer's answer or
    /// failure, or the refusal of an answer that is not an avatar plugin's.
    pub fn for_vts(reply: Result<Response, String>) -> (r: Result<
        Result<VTSResponse, String>,
        ActionError,
    >)
        ensures
            match reply {
                Err(detail) => r == Ok::<Result<VTSResponse, String>, ActionError>(Err(detail)),
                Ok(Response::VTS(answer)) => r == Ok::<Result<VTSResponse, String>, ActionError>(
                    Ok(answer),
                ),
                Ok(_) => r is Err && r->Err_0.is_request_failed_with(
                    crate::plugins::vts::unexpected_reply(),
                ),
            },
    {
        match reply {
            Err(detail) => Ok(Err(detail)),
            Ok(Response::VTS(answer)) => Ok(Ok(answer)),
            Ok(_) => Err(ActionError::request_failed("Unexpected reply from VTS")),
        }
    }
}

/// The token of a command that waits for a connection attempt.
#[derive(Debug)]
pub struct ActionLink<'a> {
    action: &'a PluginAction,
    request: Request<'a>,
}

/// The token of a command that waits for the reply to a request.
#[derive(Debug)]
pub struct ActionReply<'a> {
    action: &'a PluginAction,
    phase: VTSPhase,
}

/// The next thing to do for a command that is being dispatched.
#[derive(Debug)]
pub enum ActionExchange<'a> {
    /// The dispatch has ended.
    Done(Result<(), ActionError>),
    /// A connection is to be made with this configuration, and the token
    /// told whether it was.
    Connect(PluginConfig, ActionLink<'a>),
    /// The request is to be sent over the live connection, and the reply
    /// given to the token.
    Send(Request<'a>, ActionReply<'a>),
}

impl<'a> ActionLink<'a> {
    /// The command that is being dispatched.
    pub closed spec fn action(self) -> PluginAction {
        *self.action
    }

    /// The request that goes out once the connection stands.
    pub closed spec fn request(self) -> Request<'a> {
        self.request
    }
}

impl<'a> ActionReply<'a> {
    /// The command that is being dispatched.
    pub closed spec fn action(self) -> PluginAction {
        *self.action
    }

    /// How far the command has come.
    pub closed spec fn phase(self) -> VTSPhase {
        self.phase
    }
}

impl<'a> ActionExchange<'a> {
    /// Whether this is the sending of `request` for `action` in `phase`.
    pub open spec fn sends(self, request: Request<'a>, action: PluginAction, phase: VTSPhase)
        -> bool {
        &&& self is Send
        &&& self->Send_0 == request
        &&& self->Send_1.action() == action
        &&& self->Send_1.phase() == phase
    }

    /// Whether this is the connecting with `config`, for `action` and its
    /// first `request`.
    pub open spec fn connects(self, config: PluginConfig, request: Request<'a>, action: PluginAction)
        -> bool {
        &&& self is Connect
        &&& self->Connect_0 == config
        &&& self->Connect_1.action() == action
        &&& self->Connect_1.request() == request
    }

    /// Whether this is the end of the dispatch, with a failed request of
    /// the given words.
    pub open spec fn fails_with(self, words: Seq<char>) -> bool {
        &&& self is Done
        &&& self->Done_0 is Err
        &&& self->Done_0->Err_0.is_request_failed_with(words)
    }

    /// Whether this is how the dispatch of `action` sets out with
    /// `request` on an instance: by connecting where the instance is
    /// disconnected, else by sending.
    pub open spec fn sets_out(self, instance: PluginInstance, request: Request<'a>, action: PluginAction)
        -> bool {
        if instance.link() == Some(Link::Disconnected) {
            self.connects(instance.config(), request, action)
        } else {
            self.sends(request, action, VTSPhase::First)
        }
    }
}

impl PluginAction {
    /// Whether `exchange` and `after` are what starting this command on the
    /// instance `before` gives.
    pub open spec fn started(
        &self,
        before: PluginInstance,
        after: PluginInstance,
        exchange: ActionExchange<'_>,
    ) -> bool {
        match (self, before) {
            (PluginAction::OBS(action), PluginInstance::OBS(_)) => {
                &&& after.same(before)
                &&& exchange.sets_out(before, Request::OBS(action.request()), *self)
            },
            (PluginAction::VTS(action), PluginInstance::VTS(conn)) => {
                &&& after.wf()
                &&& after.plugin_type() == before.plugin_type()
                &&& after.config() == before.config()
                &&& after.link() == before.link()
                &&& after.positions() == action.positions_after_start(conn.positions())
                &&& match action.first_request(conn.positions()) {
                    Some(request) => exchange.sets_out(before, Request::VTS(request), *self),
                    None => exchange.fails_with(
                        crate::plugins::vts::no_stored_position(action->RestoreModelPosition_0@),
                    ),
                }
            },
            (PluginAction::General(action), PluginInstance::General) => {
                &&& after.same(before)
                &&& exchange.sends(Request::General(action), *self, VTSPhase::First)
            },
            _ => {
                &&& after.same(before)
                &&& exchange == ActionExchange::Done(
                    Err(ActionError::MismatchedPluginAndEnvelope),
                )
            },
        }
    }

    /// Starts this command on a plugin instance. An instance of another
    /// plugin is refused; a disconnected one is connected first.
    pub fn run<'a>(&'a self, plugin: &mut PluginInstance) -> (exchange: ActionExchange<'a>)
        requires
            old(plugin).wf(),
        ensures
            final(plugin).wf(),
            self.started(*old(plugin), *final(plugin), exchange),
    {
        match self {
            PluginAction::OBS(action) => match plugin {
                PluginInstance::OBS(_) => {
                    set_out(self, Request::OBS(action.get_request()), plugin)
                },
                _ => ActionExchange::Done(Err(ActionError::MismatchedPluginAndEnvelope)),
            },
            PluginAction::VTS(action) => match plugin {
                PluginInstance::VTS(conn) => match action.begin(conn) {
                    Ok(request) => set_out(self, Request::VTS(request), plugin),
                    Err(e) => ActionExchange::Done(Err(e)),
                },
                _ => ActionExchange::Done(Err(ActionError::MismatchedPluginAndEnvelope)),
            },
            PluginAction::General(action) => match plugin {
                PluginInstance::General => ActionExchange::Send(
                    Request::General(action),
                    ActionReply { action: self, phase: VTSPhase::First },
                ),
                _ => ActionExchange::Done(Err(ActionError::MismatchedPluginAndEnvelope)),
            },
        }
    }
}

/// Sets out with the first request of a command: by connecting where the
/// instance is disconnected, else by sending.
fn set_out<'a>(action: &'a PluginAction, request: Request<'a>, plugin: &PluginInstance) -> (exchange:
    ActionExchange<'a>)
    ensures
        exchange.sets_out(*plugin, request, *action),
{
    if plugin.needs_connection() {
        ActionExchange::Connect(plugin.get_config(), ActionLink { action, request })
    } else {
        ActionExchange::Send(request, ActionReply { action, phase: VTSPhase::First })
    }
}

impl<'a> ActionLink<'a> {
    /// Whether `exchange` and `after` are what this token gives for a
    /// connection attempt on the instance `before`.
    pub open spec fn resumed(
        self,
        before: PluginInstance,
        connected: bool,
        after: PluginInstance,
        exchange: ActionExchange<'a>,
    ) -> bool {
        &&& after.kept(before)
        &&& after.link() == match before.link() {
            Some(_) => Some(Link::attempted(connected)),
            None => None,
        }
        &&& if connected || before.link() is None {
            exchange.sends(self.request(), self.action(), VTSPhase::First)
        } else {
            exchange == ActionExchange::Done(
                Err(ActionError::ConnectionUnavailable(before.plugin_type())),
            )
        }
    }

    /// Takes the outcome of the connection attempt. Where it failed, the
    /// dispatch ends and the request is not sent; where it succeeded, the
    /// connector is connected and the request goes out.
    pub fn resume_on(self, plugin: &mut PluginInstance, connected: bool) -> (exchange: ActionExchange<
        'a,
    >)
        requires
            old(plugin).wf(),
        ensures
            final(plugin).wf(),
            self.resumed(*old(plugin), connected, *final(plugin), exchange),
    {
        match plugin.connection_attempted(connected) {
            Ok(_) => ActionExchange::Send(
                self.request,
                ActionReply { action: self.action, phase: VTSPhase::First },
            ),
            Err(e) => ActionExchange::Done(Err(e)),
        }
    }
}

impl<'a> ActionReply<'a> {
    /// Whether `exchange` and `after` are what this token gives for a reply
    /// on the instance `before`.
    pub open spec fn resumed(
        self,
        before: PluginInstance,
        reply: Result<Response, String>,
        after: PluginInstance,
        exchange: ActionExchange<'a>,
    ) -> bool {
        match (self.action(), before) {
            (PluginAction::OBS(action), PluginInstance::OBS(_)) => match reply {
                Err(detail) => {
                    &&& after.kept(before)
                    &&& after.link() == Some(Link::Disconnected)
                    &&& exchange == ActionExchange::Done(Err(ActionError::RequestFailed(detail)))
                },
                Ok(Response::OBS(answer)) => {
                    &&& after.same(before)
                    &&& if action.fits(answer) {
                        exchange == ActionExchange::Done(Ok(()))
                    } else {
                        exchange.fails_with(crate::plugins::obs::unexpected_reply())
                    }
                },
                Ok(_) => {
                    &&& after.same(before)
                    &&& exchange.fails_with(crate::plugins::obs::unexpected_reply())
                },
            },
            (PluginAction::VTS(action), PluginInstance::VTS(conn)) => match reply {
                Err(detail) => {
                    &&& after.kept(before)
                    &&& after.link() == Some(Link::Disconnected)
                    &&& exchange == ActionExchange::Done(Err(ActionError::RequestFailed(detail)))
                },
                Ok(Response::VTS(answer)) => {
                    &&& after.wf()
                    &&& after.plugin_type() == before.plugin_type()
                    &&& after.config() == before.config()
                    &&& after.link() == before.link()
                    &&& after.positions() == action.positions_after(conn.positions(), answer)
                    &&& match action.next(self.phase(), answer) {
                        VTSTurn::Send(request) => exchange.sends(
                            Request::VTS(request),
                            self.action(),
                            VTSPhase::Second,
                        ),
                        VTSTurn::Succeed => exchange == ActionExchange::Done(Ok(())),
                        VTSTurn::Fail(words) => exchange.fails_with(words),
                    }
                },
                Ok(_) => {
                    &&& after.same(before)
                    &&& exchange.fails_with(crate::plugins::vts::unexpected_reply())
                },
            },
            (PluginAction::General(_), PluginInstance::General) => {
                &&& after.same(before)
                &&& match reply {
                    Err(detail) => exchange == ActionExchange::Done(
                        Err(ActionError::RequestFailed(detail)),
                    ),
                    Ok(_) => exchange == ActionExchange::Done(Ok(())),
                }
            },
            _ => {
                &&& after.same(before)
                &&& exchange == ActionExchange::Done(
                    Err(ActionError::MismatchedPluginAndEnvelope),
                )
            },
        }
    }

    /// Takes the reply to the request. A failure disconnects the connector
    /// and ends the dispatch; the request is not sent again.
    pub fn resume_on(self, plugin: &mut PluginInstance, reply: Result<Response, String>) -> (exchange:
        ActionExchange<'a>)
        requires
            old(plugin).wf(),
        ensures
            final(plugin).wf(),
            self.resumed(*old(plugin), reply, *final(plugin), exchange),
    {
        let action: &'a PluginAction = self.action;
        match action {
            PluginAction::OBS(command) => match plugin {
                PluginInstance::OBS(conn) => match Response::for_obs(reply) {
                    Ok(reply) => ActionExchange::Done(command.run(conn, reply)),
                    Err(e) => ActionExchange::Done(Err(e)),
                },
                _ => ActionExchange::Done(Err(ActionError::MismatchedPluginAndEnvelope)),
            },
            PluginAction::VTS(command) => match plugin {
                PluginInstance::VTS(conn) => {
                    let next = match Response::for_vts(reply) {
                        Ok(reply) => command.run(conn, self.phase, reply),
                        Err(e) => VTSNext::Done(Err(e)),
                    };
                    match next {
                        VTSNext::Done(result) => ActionExchange::Done(result),
                        VTSNext::Send(request) => ActionExchange::Send(
                            Request::VTS(request),
                            ActionReply { action, phase: VTSPhase::Second },
                        ),
                    }
                },
                _ => ActionExchange::Done(Err(ActionError::MismatchedPluginAndEnvelope)),
            },
            PluginAction::General(command) => match plugin {
                PluginInstance::General => match reply {
                    Err(detail) => ActionExchange::Done(command.run(Err(detail))),
                    Ok(_) => ActionExchange::Done(command.run(Ok(()))),
                },
                _ => ActionExchange::Done(Err(ActionError::MismatchedPluginAndEnvelope)),
            },
        }
    }
}

/// The token of a query that waits for a connection attempt.
#[derive(Debug)]
pub struct QueryLink {
    query: PluginQuery,
}

/// The token of a query that waits for the reply to its request.
#[derive(Debug)]
pub struct QueryReply {
    query: PluginQuery,
}

/// The next thing to do for a query that is being dispatched.
#[derive(Debug)]
pub enum QueryExchange {
    /// The dispatch has ended, with the query's value or a failure.
    Done(Result<String, ActionError>),
    /// A connection is to be made with this configuration, and the token
    /// told whether it was.
    Connect(PluginConfig, QueryLink),
    /// The request is to be sent over the live connection, and the reply
    /// given to the token.
    Send(Request<'static>, QueryReply),
}

impl QueryLink {
    /// The query that is being dispatched.
    pub closed spec fn query(self) -> PluginQuery {
        self.query
    }
}

impl QueryReply {
    /// The query that is being dispatched.
    pub closed spec fn query(self) -> PluginQuery {
        self.query
    }
}

impl QueryExchange {
    /// Whether this is the sending of the request of `query`.
    pub open spec fn sends(self, query: PluginQuery) -> bool {
        &&& self is Send
        &&& self->Send_0 == query.request()
        &&& self->Send_1.query() == query
    }

    /// Whether this is the connecting with `config`, for `query`.
    pub open spec fn connects(self, config: PluginConfig, query: PluginQuery) -> bool {
        &&& self is Connect
        &&& self->Connect_0 == config
        &&& self->Connect_1.query() == query
    }

    /// Whether this is the end of the dispatch, with the value `text`.
    pub open spec fn answers(self, text: Seq<char>) -> bool {
        &&& self is Done
        &&& self->Done_0 is Ok
        &&& self->Done_0->Ok_0@ == text
    }

    /// Whether this is the end of the dispatch, with a failed request of
    /// the given words.
    pub open spec fn fails_with(self, words: Seq<char>) -> bool {
        &&& self is Done
        &&& self->Done_0 is Err
        &&& self->Done_0->Err_0.is_request_failed_with(words)
    }
}

impl PluginQuery {
    /// The request that fetches this value.
    pub open spec fn request(self) -> Request<'static> {
        match self {
            PluginQuery::OBS(query) => Request::OBS(query.request()),
            PluginQuery::VTS(query) => Request::VTS(query.request()),
        }
    }

    /// The request that fetches this value.
    pub fn get_request(&self) -> (request: Request<'static>)
        ensures
            request == self.request(),
    {
        match self {
            PluginQuery::OBS(query) => Request::OBS(query.get_request()),
            PluginQuery::VTS(query) => Request::VTS(query.get_request()),
        }
    }

    /// Whether `exchange` is what starting this query on `instance` gives.
    pub open spec fn started(self, instance: PluginInstance, exchange: QueryExchange) -> bool {
        if instance.plugin_type() != self.required_type() {
            exchange == QueryExchange::Done(Err(ActionError::MismatchedPluginAndEnvelope))
        } else if instance.link() == Some(Link::Disconnected) {
            exchange.connects(instance.config(), self)
        } else {
            exchange.sends(self)
        }
    }

    /// Starts this query on a plugin instance. An instance of another
    /// plugin is refused; a disconnected one is connected first.
    pub fn get(&self, plugin: &PluginInstance) -> (exchange: QueryExchange)
        ensures
            self.started(*plugin, exchange),
    {
        let matched = match self {
            PluginQuery::OBS(_) => match plugin {
                PluginInstance::OBS(_) => true,
                _ => false,
            },
            PluginQuery::VTS(_) => match plugin {
                PluginInstance::VTS(_) => true,
                _ => false,
            },
        };
        if !matched {
            QueryExchange::Done(Err(ActionError::MismatchedPluginAndEnvelope))
        } else if plugin.needs_connection() {
            QueryExchange::Connect(plugin.get_config(), QueryLink { query: *self })
        } else {
            QueryExchange::Send(self.get_request(), QueryReply { query: *self })
        }
    }
}

impl QueryLink {
    /// Whether `exchange` and `after` are what this token gives for a
    /// connection attempt on the instance `before`.
    pub open spec fn resumed(
        self,
        before: PluginInstance,
        connected: bool,
        after: PluginInstance,
        exchange: QueryExchange,
    ) -> bool {
        &&& after.kept(before)
        &&& after.link() == match before.link() {
            Some(_) => Some(Link::attempted(connected)),
            None => None,
        }
        &&& if connected || before.link() is None {
            exchange.sends(self.query())
        } else {
            exchange == QueryExchange::Done(
                Err(ActionError::ConnectionUnavailable(before.plugin_type())),
            )
        }
    }

    /// Takes the outcome of the connection attempt. Where it failed, the
    /// dispatch ends and the request is not sent; where it succeeded, the
    /// connector is connected and the request goes out.
    pub fn resume_on(self, plugin: &mut PluginInstance, connected: bool) -> (exchange: QueryExchange)
        requires
            old(plugin).wf(),
        ensures
            final(plugin).wf(),
            self.resumed(*old(plugin), connected, *final(plugin), exchange),
    {
        match plugin.connection_attempted(connected) {
            Ok(_) => QueryExchange::Send(self.query.get_request(), QueryReply { query: self.query }),
            Err(e) => QueryExchange::Done(Err(e)),
        }
    }
}

impl QueryReply {
    /// Whether `exchange` and `after` are what this token gives for a reply
    /// on the instance `before`.
    pub open spec fn resumed(
        self,
        before: PluginInstance,
        reply: Result<Response, String>,
        after: PluginInstance,
        exchange: QueryExchange,
    ) -> bool {
        match (self.query(), before) {
            (PluginQuery::OBS(query), PluginInstance::OBS(_)) => match reply {
                Err(detail) => {
                    &&& after.kept(before)
                    &&& after.link() == Some(Link::Disconnected)
                    &&& exchange == QueryExchange::Done(Err(ActionError::RequestFailed(detail)))
                },
                Ok(Response::OBS(answer)) => {
                    &&& after.same(before)
                    &&& match query.text_of(answer) {
                        Some(text) => exchange.answers(text),
                        None => exchange.fails_with(crate::plugins::obs::unexpected_reply()),
                    }
                },
                Ok(_) => {
                    &&& after.same(before)
                    &&& exchange.fails_with(crate::plugins::obs::unexpected_reply())
                },
            },
            (PluginQuery::VTS(query), PluginInstance::VTS(_)) => match reply {
                Err(detail) => {
                    &&& after.kept(before)
                    &&& after.link() == Some(Link::Disconnected)
                    &&& exchange == QueryExchange::Done(Err(ActionError::RequestFailed(detail)))
                },
                Ok(Response::VTS(answer)) => {
                    &&& after.same(before)
                    &&& match query.text_of(answer) {
                        Some(text) => exchange == QueryExchange::Done(Ok(text)),
                        None => exchange.fails_with(crate::plugins::vts::unexpected_reply()),
                    }
                },
                Ok(_) => {
                    &&& after.same(before)
                    &&& exchange.fails_with(crate::plugins::vts::unexpected_reply())
                },
            },
            _ => {
                &&& after.same(before)
                &&& exchange == QueryExchange::Done(Err(ActionError::MismatchedPluginAndEnvelope))
            },
        }
    }

    /// Takes the reply to the request and ends the dispatch. A failure
    /// disconnects the connector; the request is not sent again.
    pub fn resume_on(self, plugin: &mut PluginInstance, reply: Result<Response, String>) -> (exchange:
        QueryExchange)
        requires
            old(plugin).wf(),
        ensures
            final(plugin).wf(),
            self.resumed(*old(plugin), reply, *final(plugin), exchange),
    {
        match self.query {
            PluginQuery::OBS(query) => match plugin {
                PluginInstance::OBS(conn) => match Response::for_obs(reply) {
                    Ok(reply) => QueryExchange::Done(query.run(conn, reply)),
                    Err(e) => QueryExchange::Done(Err(e)),
                },
                _ => QueryExchange::Done(Err(ActionError::MismatchedPluginAndEnvelope)),
            },
            PluginQuery::VTS(query) => match plugin {
                PluginInstance::VTS(conn) => match Response::for_vts(reply) {
                    Ok(reply) => QueryExchange::Done(query.run(conn, reply)),
                    Err(e) => QueryExchange::Done(Err(e)),
                },
                _ => QueryExchange::Done(Err(ActionError::MismatchedPluginAndEnvelope)),
            },
        }
    }
}

/// The registry of configured plugins: at most one instance for each
/// plugin type. It is built once, at start-up, and owns the connectors.
#[derive(Debug)]
pub struct PluginStates {
    obs: Option<PluginInstance>,
    vts: Option<PluginInstance>,
    general: Option<PluginInstance>,
}

impl PluginStates {
    /// What is held under `key`.
    pub closed spec fn slot(self, key: PluginType) -> Option<PluginInstance> {
        match key {
            PluginType::OBS => self.obs,
            PluginType::VTS => self.vts,
            PluginType::General => self.general,
        }
    }

    /// The registry as a map from plugin types to instances.
    pub open spec fn view(self) -> Map<PluginType, PluginInstance> {
        Map::new(|key: PluginType| self.slot(key) is Some, |key: PluginType| self.slot(key)->0)
    }

    /// Every instance in the registry is well formed.
    pub open spec fn wf(self) -> bool {
        forall|key: PluginType| #[trigger] self@.contains_key(key) ==> self@[key].wf()
    }

    /// Every instance stands under the key of its own plugin type.
    pub open spec fn matched(self) -> bool {
        forall|key: PluginType| #[trigger]
            self@.contains_key(key) ==> self@[key].plugin_type() == key
    }

    /// This registry is `before`, but for what stands under `key`.
    pub open spec fn changed_at(self, before: PluginStates, key: PluginType) -> bool {
        &&& forall|other: PluginType|
            self@.contains_key(other) == #[trigger] before@.contains_key(other)
        &&& forall|other: PluginType|
            other != key && #[trigger] before@.contains_key(other) ==> self@[other]
                == before@[other]
    }

    /// A registry without plugins.
    pub fn new() -> (plugins: PluginStates)
        ensures
            plugins@ == Map::<PluginType, PluginInstance>::empty(),
            plugins.wf(),
            plugins.matched(),
    {
        let plugins = PluginStates { obs: None, vts: None, general: None };
        assert(plugins@ =~= Map::<PluginType, PluginInstance>::empty());
        plugins
    }

    /// Puts `instance` under `key`, in place of what was there, and hands
    /// that back.
    pub fn insert(&mut self, key: PluginType, instance: PluginInstance) -> (before: Option<
        PluginInstance,
    >)
        ensures
            final(self)@ == old(self)@.insert(key, instance),
            before == old(self).slot(key),
            before is Some <==> old(self)@.contains_key(key),
            before is Some ==> before->0 == old(self)@[key],
    {
        let mut held = Some(instance);
        match key {
            PluginType::OBS => core::mem::swap(&mut self.obs, &mut held),
            PluginType::VTS => core::mem::swap(&mut self.vts, &mut held),
            PluginType::General => core::mem::swap(&mut self.general, &mut held),
        }
        proof {
            assert(self@ =~= old(self)@.insert(key, instance));
        }
        held
    }

    /// Whether a plugin of type `key` is configured.
    pub fn contains_key(&self, key: PluginType) -> (found: bool)
        ensures
            found == self@.contains_key(key),
    {
        match key {
            PluginType::OBS => self.obs.is_some(),
            PluginType::VTS => self.vts.is_some(),
            PluginType::General => self.general.is_some(),
        }
    }

    /// The instance under `key`.
    pub fn get(&self, key: PluginType) -> (instance: Option<&PluginInstance>)
        ensures
            match instance {
                Some(held) => self@.contains_key(key) && *held == self@[key],
                None => !self@.contains_key(key),
            },
    {
        match key {
            PluginType::OBS => self.obs.as_ref(),
            PluginType::VTS => self.vts.as_ref(),
            PluginType::General => self.general.as_ref(),
        }
    }

    /// The instance under `key`, to work on.
    pub fn get_mut(&mut self, key: PluginType) -> (instance: Option<&mut PluginInstance>)
        ensures
            match instance {
                Some(held) => old(self)@.contains_key(key) && *held == old(self)@[key]
                    && final(self)@ == old(self)@.insert(key, *final(held)),
                None => !old(self)@.contains_key(key) && *final(self) == *old(self),
            },
    {
        let ghost before = *self;
        let slot = match key {
            PluginType::OBS => &mut self.obs,
            PluginType::VTS => &mut self.vts,
            PluginType::General => &mut self.general,
        };
        match slot {
            Some(held) => {
                proof {
                    assert(after_borrow(*self)@ =~= before@.insert(key, *final(held)));
                }
                Some(held)
            },
            None => None,
        }
    }
}

/// The place of the last of the first `upto` entries that configures the
/// plugin `key`.
pub open spec fn last_for(entries: Seq<(PluginConfig, bool)>, key: PluginType, upto: int) -> Option<
    int,
>
    decreases upto,
{
    if upto <= 0 || upto > entries.len() {
        None
    } else if entries[upto - 1].0.plugin_type() == key {
        Some(upto - 1)
    } else {
        last_for(entries, key, upto - 1)
    }
}

impl PluginStates {
    /// Whether this registry is what the first `upto` of `entries` build:
    /// for each plugin type, the instance of the last entry that configures
    /// it, connected or not as that entry's connection attempt went.
    pub open spec fn built_from(self, entries: Seq<(PluginConfig, bool)>, upto: int) -> bool {
        forall|key: PluginType|
            match #[trigger] last_for(entries, key, upto) {
                Some(i) => {
                    &&& self@.contains_key(key)
                    &&& self@[key].wf()
                    &&& self@[key].plugin_type() == key
                    &&& self@[key].config() == entries[i].0
                    &&& self@[key].positions() == Map::<Seq<char>, VTSMoveModelInput>::empty()
                    &&& self@[key].link() == match key {
                        PluginType::General => None::<Link>,
                        _ => Some(Link::attempted(entries[i].1)),
                    }
                },
                None => !self@.contains_key(key),
            }
    }

    /// Builds the registry from the configured plugins, each with the
    /// outcome of its first connection attempt. This never fails: a plugin
    /// that could not be connected is in the registry all the same,
    /// disconnected, and connects when it is first used. Of two entries for
    /// one plugin type the later one stays.
    pub fn init(conf: Vec<(PluginConfig, bool)>) -> (plugins: PluginStates)
        ensures
            plugins.wf(),
            plugins.matched(),
            plugins.built_from(conf@, conf@.len() as int),
    {
        let mut plugins = PluginStates::new();
        let mut i: usize = 0;
        while i < conf.len()
            invariant
                i <= conf@.len(),
                plugins.built_from(conf@, i as int),
            decreases conf@.len() - i,
        {
            let ghost before = plugins;
            let config = conf[i].0.duplicate();
            let key = config.get_type();
            let instance = PluginInstance::new(config, conf[i].1);
            let _ = plugins.insert(key, instance);
            proof {
                assert forall|other: PluginType|
                    match #[trigger] last_for(conf@, other, i + 1) {
                        Some(at) => {
                            &&& plugins@.contains_key(other)
                            &&& plugins@[other].wf()
                            &&& plugins@[other].plugin_type() == other
                            &&& plugins@[other].config() == conf@[at].0
                            &&& plugins@[other].positions() == Map::<
                                Seq<char>,
                                VTSMoveModelInput,
                            >::empty()
                            &&& plugins@[other].link() == match other {
                                PluginType::General => None::<Link>,
                                _ => Some(Link::attempted(conf@[at].1)),
                            }
                        },
                        None => !plugins@.contains_key(other),
                    } by {
                    if other != key {
                        assert(last_for(conf@, other, i + 1) == last_for(conf@, other, i as int));
                    }
                }
            }
            i += 1;
        }
        proof {
            assert forall|key: PluginType| #[trigger] plugins@.contains_key(key) implies plugins@[key].wf()
                && plugins@[key].plugin_type() == key by {
                assert(last_for(conf@, key, conf@.len() as int) is Some);
            }
        }
        plugins
    }

    /// Whether `exchange` and `after` are what dispatching `action`
    /// against this registry gives: the end with "not configured" where
    /// the registry holds no plugin of the type that the command needs,
    /// else the start of the command on that plugin. Nothing else in the
    /// registry changes.
    pub open spec fn dispatched(
        self,
        action: &PluginAction,
        after: PluginStates,
        exchange: ActionExchange<'_>,
    ) -> bool {
        &&& after.changed_at(self, action.required_type())
        &&& match self@.get(action.required_type()) {
            None => exchange == ActionExchange::Done(
                Err(ActionError::PluginNotConfigured(action.required_type())),
            ),
            Some(before) => action.started(before, after@[action.required_type()], exchange),
        }
    }

    /// Whether `exchange` is what dispatching `query` against this
    /// registry gives: the end with "not configured" where the registry
    /// holds no plugin of the type that the query needs, else the start of
    /// the query on that plugin.
    pub open spec fn asked(self, query: PluginQuery, exchange: QueryExchange) -> bool {
        match self@.get(query.required_type()) {
            None => exchange == QueryExchange::Done(
                Err(ActionError::PluginNotConfigured(query.required_type())),
            ),
            Some(instance) => query.started(instance, exchange),
        }
    }

    /// Starts the dispatch of a command: finds the plugin that the command
    /// needs and starts the command on it. Where no such plugin is
    /// configured, the dispatch ends with that failure.
    pub fn dispatch_action<'a>(&mut self, action: &'a PluginAction) -> (exchange: ActionExchange<'a>)
        requires
            old(self).wf(),
        ensures
            final(self).wf(),
            old(self).dispatched(action, *final(self), exchange),
    {
        let key = action.get_required_type();
        match self.get_mut(key) {
            Some(plugin) => action.run(plugin),
            None => ActionExchange::Done(Err(ActionError::PluginNotConfigured(key))),
        }
    }

    /// Starts the dispatch of a query: finds the plugin that the query
    /// needs and starts the query on it. Where no such plugin is
    /// configured, the dispatch ends with that failure.
    pub fn dispatch_query(&self, query: &PluginQuery) -> (exchange: QueryExchange)
        ensures
            self.asked(*query, exchange),
    {
        let key = query.get_required_type();
        match self.get(key) {
            Some(plugin) => query.get(plugin),
            None => QueryExchange::Done(Err(ActionError::PluginNotConfigured(key))),
        }
    }
}

impl<'a> ActionLink<'a> {
    /// Takes the outcome of the connection attempt, for the plugin in the
    /// registry that the command needs.
    pub fn resume(self, plugins: &mut PluginStates, connected: bool) -> (exchange: ActionExchange<
        'a,
    >)
        requires
            old(plugins).wf(),
        ensures
            final(plugins).wf(),
            final(plugins).changed_at(*old(plugins), self.action().required_type()),
            match old(plugins)@.get(self.action().required_type()) {
                None => exchange == ActionExchange::<'a>::Done(
                    Err(ActionError::PluginNotConfigured(self.action().required_type())),
                ),
                Some(before) => self.resumed(
                    before,
                    connected,
                    final(plugins)@[self.action().required_type()],
                    exchange,
                ),
            },
    {
        let key = self.action.get_required_type();
        match plugins.get_mut(key) {
            Some(plugin) => self.resume_on(plugin, connected),
            None => ActionExchange::Done(Err(ActionError::PluginNotConfigured(key))),
        }
    }
}

impl<'a> ActionReply<'a> {
    /// Takes the reply to the request, for the plugin in the registry that
    /// the command needs.
    pub fn resume(self, plugins: &mut PluginStates, reply: Result<Response, String>) -> (exchange:
        ActionExchange<'a>)
        requires
            old(plugins).wf(),
        ensures
            final(plugins).wf(),
            final(plugins).changed_at(*old(plugins), self.action().required_type()),
            match old(plugins)@.get(self.action().required_type()) {
                None => exchange == ActionExchange::<'a>::Done(
                    Err(ActionError::PluginNotConfigured(self.action().required_type())),
                ),
                Some(before) => self.resumed(
                    before,
                    reply,
                    final(plugins)@[self.action().required_type()],
                    exchange,
                ),
            },
    {
        let key = self.action.get_required_type();
        match plugins.get_mut(key) {
            Some(plugin) => self.resume_on(plugin, reply),
            None => ActionExchange::Done(Err(ActionError::PluginNotConfigured(key))),
        }
    }
}

impl QueryLink {
    /// Takes the outcome of the connection attempt, for the plugin in the
    /// registry that the query needs.
    pub fn resume(self, plugins: &mut PluginStates, connected: bool) -> (exchange: QueryExchange)
        requires
            old(plugins).wf(),
        ensures
            final(plugins).wf(),
            final(plugins).changed_at(*old(plugins), self.query().required_type()),
            match old(plugins)@.get(self.query().required_type()) {
                None => exchange == QueryExchange::Done(
                    Err(ActionError::PluginNotConfigured(self.query().required_type())),
                ),
                Some(before) => self.resumed(
                    before,
                    connected,
                    final(plugins)@[self.query().required_type()],
                    exchange,
                ),
            },
    {
        let key = self.query.get_required_type();
        match plugins.get_mut(key) {
            Some(plugin) => self.resume_on(plugin, connected),
            None => QueryExchange::Done(Err(ActionError::PluginNotConfigured(key))),
        }
    }
}

impl QueryReply {
    /// Takes the reply to the request, for the plugin in the registry that
    /// the query needs.
    pub fn resume(self, plugins: &mut PluginStates, reply: Result<Response, String>) -> (exchange:
        QueryExchange)
        requires
            old(plugins).wf(),
        ensures
            final(plugins).wf(),
            final(plugins).changed_at(*old(plugins), self.query().required_type()),
            match old(plugins)@.get(self.query().required_type()) {
                None => exchange == QueryExchange::Done(
                    Err(ActionError::PluginNotConfigured(self.query().required_type())),
                ),
                Some(before) => self.resumed(
                    before,
                    reply,
                    final(plugins)@[self.query().required_type()],
                    exchange,
                ),
            },
    {
        let key = self.query.get_required_type();
        match plugins.get_mut(key) {
            Some(plugin) => self.resume_on(plugin, reply),
            None => QueryExchange::Done(Err(ActionError::PluginNotConfigured(key))),
        }
    }
}

/// Dispatch is safe in the plugin's type. A command dispatched against a
/// registry that holds no plugin of the type it needs ends with "not
/// configured", whatever else the registry holds, and changes nothing. In
/// a registry whose instances stand under their own types, as `init`
/// builds it, no dispatch ends with a mismatch, and a dispatch for a
/// plugin that is there does not end with "not configured".
pub proof fn lemma_dispatch_is_type_safe(
    plugins: PluginStates,
    action: PluginAction,
    after: PluginStates,
    exchange: ActionExchange<'_>,
)
    requires
        plugins.dispatched(&action, after, exchange),
    ensures
        !plugins@.contains_key(action.required_type()) ==> exchange == ActionExchange::Done(
            Err(ActionError::PluginNotConfigured(action.required_type())),
        ) && after@ =~= plugins@,
        plugins.matched() ==> exchange != ActionExchange::Done(
            Err(ActionError::MismatchedPluginAndEnvelope),
        ),
        plugins.matched() && plugins@.contains_key(action.required_type()) ==> exchange
            != ActionExchange::Done(Err(ActionError::PluginNotConfigured(action.required_type()))),
{
}

/// The same for a query: against a registry that holds no plugin of the
/// type it needs it ends with "not configured"; in a registry whose
/// instances stand under their own types it never ends with a mismatch,
/// and for a plugin that is there it does not end with "not configured".
pub proof fn lemma_query_dispatch_is_type_safe(
    plugins: PluginStates,
    query: PluginQuery,
    exchange: QueryExchange,
)
    requires
        plugins.asked(query, exchange),
    ensures
        !plugins@.contains_key(query.required_type()) ==> exchange == QueryExchange::Done(
            Err(ActionError::PluginNotConfigured(query.required_type())),
        ),
        plugins.matched() ==> exchange != QueryExchange::Done(
            Err(ActionError::MismatchedPluginAndEnvelope),
        ),
        plugins.matched() && plugins@.contains_key(query.required_type()) ==> exchange
            != QueryExchange::Done(Err(ActionError::PluginNotConfigured(query.required_type()))),
{
}

/// A connection attempt that fails ends the dispatch: nothing is sent, and
/// the connector stays disconnected.
pub proof fn lemma_failed_attempt_sends_nothing(
    token: ActionLink<'_>,
    before: PluginInstance,
    after: PluginInstance,
    exchange: ActionExchange<'_>,
)
    requires
        before.link() is Some,
        token.resumed(before, false, after, exchange),
    ensures
        exchange == ActionExchange::Done(
            Err(ActionError::ConnectionUnavailable(before.plugin_type())),
        ),
        after.link() == Some(Link::Disconnected),
{
}

/// A connector reconnects after a failure. Take a disconnected connector
/// `i0` and three commands for its plugin that can start. The first command
/// connects before anything is sent; once the attempt has succeeded the
/// connector is connected and the request goes out, and an answer leaves it
/// connected. The second command then sends at once; when its request
/// fails, the dispatch ends with that failure, the request is not sent
/// again, and the connector is disconnected. The third command therefore
/// connects anew before it sends.
pub proof fn lemma_reconnect_after_failure(
    commands: (PluginAction, PluginAction, PluginAction),
    instances: (
        PluginInstance,
        PluginInstance,
        PluginInstance,
        PluginInstance,
        PluginInstance,
        PluginInstance,
        PluginInstance,
    ),
    exchanges: (
        ActionExchange<'_>,
        ActionExchange<'_>,
        ActionExchange<'_>,
        ActionExchange<'_>,
        ActionExchange<'_>,
        ActionExchange<'_>,
    ),
    answer: Response,
    detail: String,
)
    requires
        instances.0.link() == Some(Link::Disconnected),
        commands.0.required_type() == instances.0.plugin_type(),
        commands.1.required_type() == instances.0.plugin_type(),
        commands.2.required_type() == instances.0.plugin_type(),
        commands.0.started(instances.0, instances.1, exchanges.0),
        !(exchanges.0 is Done),
        exchanges.0 is Connect ==> exchanges.0->Connect_1.resumed(
            instances.1,
            true,
            instances.2,
            exchanges.1,
        ),
        exchanges.1 is Send ==> exchanges.1->Send_1.resumed(
            instances.2,
            Ok(answer),
            instances.3,
            exchanges.2,
        ),
        commands.1.started(instances.3, instances.4, exchanges.3),
        !(exchanges.3 is Done),
        exchanges.3 is Send ==> exchanges.3->Send_1.resumed(
            instances.4,
            Err(detail),
            instances.5,
            exchanges.4,
        ),
        commands.2.started(instances.5, instances.6, exchanges.5),
        !(exchanges.5 is Done),
    ensures
        exchanges.0 is Connect,
        instances.2.link() == Some(Link::Connected),
        exchanges.1 is Send,
        exchanges.1->Send_0 == exchanges.0->Connect_1.request(),
        instances.3.link() == Some(Link::Connected),
        exchanges.3 is Send,
        exchanges.4 == ActionExchange::Done(Err(ActionError::RequestFailed(detail))),
        instances.5.link() == Some(Link::Disconnected),
        exchanges.5 is Connect,
{
}

} // verus!
