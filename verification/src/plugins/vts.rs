//! The avatar-animation plugin.

use vstd::prelude::*;
use crate::error::ActionError;
use crate::number::Real;
use crate::plugins::link::Link;
use crate::plugins::PluginType;
use crate::table::Table;
use crate::text::concat3;

verus! {

/// A value that can be read from the avatar software.
#[derive(Clone, Copy, Debug, PartialEq, Eq, Structural, Hash)]
pub enum VTSQuery {
    ActiveModelId,
    Version,
}

/// Where a model is placed, and how long the move takes.
#[derive(Clone, Copy, Debug, PartialEq, Eq, Structural, Hash)]
pub struct VTSMoveModelInput {
    pub x: Real,
    pub y: Real,
    pub rotation: Real,
    pub size: Real,
    pub time_sec: Real,
}

/// A command for the avatar software.
#[derive(Debug, PartialEq, Eq)]
pub enum VTSAction {
    ToggleExpression(String),
    EnableExpression(String),
    DisableExpression(String),
    LoadModel(String),
    MoveModel(VTSMoveModelInput),
    TriggerHotkey(String),
    SaveCurrentModelPosition(String),
    RestoreModelPosition(String, Real),
    CheckConnection,
}

/// Where the avatar software listens, and the file that keeps its token.
#[derive(Debug, PartialEq, Eq)]
pub struct VTSConfig {
    pub addr: String,
    pub token_file: String,
}

/// An expression of the loaded model.
#[derive(Debug, PartialEq, Eq)]
pub struct VTSExpression {
    pub name: String,
    pub file: String,
    pub active: bool,
}

/// A model or a hotkey: its display name and its identifier.
#[derive(Debug, PartialEq, Eq)]
pub struct VTSItem {
    pub name: String,
    pub id: String,
}

/// Where the loaded model stands.
#[derive(Clone, Copy, Debug, PartialEq, Eq, Structural, Hash)]
pub struct VTSPosition {
    pub x: Real,
    pub y: Real,
    pub rotation: Real,
    pub size: Real,
}

/// One request to the avatar software.
#[derive(Debug, PartialEq, Eq)]
pub enum VTSRequest<'a> {
    Statistics,
    CurrentModel,
    ModelLoad(&'a String),
    MoveModel(VTSMoveModelInput),
    /// The expression's file, and whether to switch it on.
    ExpressionActivation(&'a String, bool),
    /// The state of one expression, or of all.
    ExpressionState(Option<&'a String>),
    AvailableModels,
    /// The hotkeys of a model, or of the loaded one.
    HotkeysInCurrentModel(Option<&'a String>),
    HotkeyTrigger(&'a String),
}

/// What the avatar software answered.
#[derive(Debug, PartialEq, Eq)]
pub enum VTSResponse {
    /// The software's version.
    Statistics(String),
    /// The loaded model's identifier and position.
    CurrentModel(String, VTSPosition),
    Expressions(Vec<VTSExpression>),
    Models(Vec<VTSItem>),
    Hotkeys(Vec<VTSItem>),
    /// The command was carried out.
    Done,
}

/// The words for an answer that does not fit the request.
pub open spec fn unexpected_reply() -> Seq<char> {
    "Unexpected reply from VTS"@
}

/// The words for a toggle of an expression that the model does not have.
pub open spec fn expression_not_found() -> Seq<char> {
    "Expression not found in current model"@
}

/// The words for a restore from a name under which nothing is stored.
pub open spec fn no_stored_position(var_id: Seq<char>) -> Seq<char> {
    "Variable "@ + var_id + " does not have a stored position"@
}

/// The failure for an answer that does not fit the request.
fn unexpected<T>() -> (r: Result<T, ActionError>)
    ensures
        r is Err,
        r->Err_0.is_request_failed_with(unexpected_reply()),
{
    Err(ActionError::request_failed("Unexpected reply from VTS"))
}

/// The first place from `from` on where an item bears `name`.
pub open spec fn find_name(items: Seq<VTSItem>, name: Seq<char>, from: int) -> Option<int>
    decreases items.len() - from,
{
    if 0 <= from < items.len() {
        if items[from].name@ == name {
            Some(from)
        } else {
            find_name(items, name, from + 1)
        }
    } else {
        None
    }
}

/// The first place from `from` on where an item has the identifier `id`.
pub open spec fn find_id(items: Seq<VTSItem>, id: Seq<char>, from: int) -> Option<int>
    decreases items.len() - from,
{
    if 0 <= from < items.len() {
        if items[from].id@ == id {
            Some(from)
        } else {
            find_id(items, id, from + 1)
        }
    } else {
        None
    }
}

/// The first place from `from` on where an expression bears `name`.
pub open spec fn find_expression_name(items: Seq<VTSExpression>, name: Seq<char>, from: int)
    -> Option<int>
    decreases items.len() - from,
{
    if 0 <= from < items.len() {
        if items[from].name@ == name {
            Some(from)
        } else {
            find_expression_name(items, name, from + 1)
        }
    } else {
        None
    }
}

/// The first place from `from` on where an expression has the file `file`.
pub open spec fn find_expression_file(items: Seq<VTSExpression>, file: Seq<char>, from: int)
    -> Option<int>
    decreases items.len() - from,
{
    if 0 <= from < items.len() {
        if items[from].file@ == file {
            Some(from)
        } else {
            find_expression_file(items, file, from + 1)
        }
    } else {
        None
    }
}

/// The identifier of the first item that bears `name`.
pub fn id_from_name(items: &Vec<VTSItem>, name: &str) -> (id: Option<String>)
    ensures
        match find_name(items@, name@, 0) {
            Some(i) => id == Some(items@[i].id),
            None => id is None,
        },
{
    let wanted = name.to_string();
    let mut i: usize = 0;
    while i < items.len()
        invariant
            i <= items@.len(),
            wanted@ == name@,
            find_name(items@, name@, 0) == find_name(items@, name@, i as int),
        decreases items@.len() - i,
    {
        if items[i].name == wanted {
            return Some(items[i].id.clone());
        }
        i += 1;
    }
    None
}

/// The name of the first item that has the identifier `id`.
pub fn name_from_id(items: &Vec<VTSItem>, id: &str) -> (name: Option<String>)
    ensures
        match find_id(items@, id@, 0) {
            Some(i) => name == Some(items@[i].name),
            None => name is None,
        },
{
    let wanted = id.to_string();
    let mut i: usize = 0;
    while i < items.len()
        invariant
            i <= items@.len(),
            wanted@ == id@,
            find_id(items@, id@, 0) == find_id(items@, id@, i as int),
        decreases items@.len() - i,
    {
        if items[i].id == wanted {
            return Some(items[i].name.clone());
        }
        i += 1;
    }
    None
}

/// The names of the items, in order.
pub fn item_names(items: &Vec<VTSItem>) -> (names: Vec<String>)
    ensures
        names@.len() == items@.len(),
        forall|i: int| 0 <= i < items@.len() ==> #[trigger] names@[i] == items@[i].name,
{
    let mut names: Vec<String> = Vec::new();
    let mut i: usize = 0;
    while i < items.len()
        invariant
            i <= items@.len(),
            names@.len() == i,
            forall|j: int| 0 <= j < i ==> #[trigger] names@[j] == items@[j].name,
        decreases items@.len() - i,
    {
        names.push(items[i].name.clone());
        i += 1;
    }
    names
}

/// The identifier and the name of each item, in order.
pub fn item_ids(items: &Vec<VTSItem>) -> (pairs: Vec<(String, String)>)
    ensures
        pairs@.len() == items@.len(),
        forall|i: int|
            0 <= i < items@.len() ==> #[trigger] pairs@[i] == (items@[i].id, items@[i].name),
{
    let mut pairs: Vec<(String, String)> = Vec::new();
    let mut i: usize = 0;
    while i < items.len()
        invariant
            i <= items@.len(),
            pairs@.len() == i,
            forall|j: int| 0 <= j < i ==> #[trigger] pairs@[j] == (items@[j].id, items@[j].name),
        decreases items@.len() - i,
    {
        pairs.push((items[i].id.clone(), items[i].name.clone()));
        i += 1;
    }
    pairs
}

/// The file of the first expression that bears `name`.
pub fn expression_file_from_name(items: &Vec<VTSExpression>, name: &str) -> (file: Option<String>)
    ensures
        match find_expression_name(items@, name@, 0) {
            Some(i) => file == Some(items@[i].file),
            None => file is None,
        },
{
    let wanted = name.to_string();
    let mut i: usize = 0;
    while i < items.len()
        invariant
            i <= items@.len(),
            wanted@ == name@,
            find_expression_name(items@, name@, 0) == find_expression_name(
                items@,
                name@,
                i as int,
            ),
        decreases items@.len() - i,
    {
        if items[i].name == wanted {
            return Some(items[i].file.clone());
        }
        i += 1;
    }
    None
}

/// The name of the first expression that has the file `file`.
pub fn expression_name_from_file(items: &Vec<VTSExpression>, file: &str) -> (name: Option<String>)
    ensures
        match find_expression_file(items@, file@, 0) {
            Some(i) => name == Some(items@[i].name),
            None => name is None,
        },
{
    let wanted = file.to_string();
    let mut i: usize = 0;
    while i < items.len()
        invariant
            i <= items@.len(),
            wanted@ == file@,
            find_expression_file(items@, file@, 0) == find_expression_file(
                items@,
                file@,
                i as int,
            ),
        decreases items@.len() - i,
    {
        if items[i].file == wanted {
            return Some(items[i].name.clone());
        }
        i += 1;
    }
    None
}

/// The names of the expressions, in order.
pub fn expression_names(items: &Vec<VTSExpression>) -> (names: Vec<String>)
    ensures
        names@.len() == items@.len(),
        forall|i: int| 0 <= i < items@.len() ==> #[trigger] names@[i] == items@[i].name,
{
    let mut names: Vec<String> = Vec::new();
    let mut i: usize = 0;
    while i < items.len()
        invariant
            i <= items@.len(),
            names@.len() == i,
            forall|j: int| 0 <= j < i ==> #[trigger] names@[j] == items@[j].name,
        decreases items@.len() - i,
    {
        names.push(items[i].name.clone());
        i += 1;
    }
    names
}

impl VTSMoveModelInput {
    /// The placement that keeps a model at `position`, with no time set for
    /// the move.
    pub open spec fn at(position: VTSPosition) -> VTSMoveModelInput {
        VTSMoveModelInput {
            x: position.x,
            y: position.y,
            rotation: position.rotation,
            size: position.size,
            time_sec: Real { bits: 0 },
        }
    }

    /// This placement, with the move lasting `time_sec`.
    pub open spec fn lasting(self, time_sec: Real) -> VTSMoveModelInput {
        VTSMoveModelInput { time_sec, ..self }
    }
}

impl Clone for VTSAction {
    fn clone(&self) -> (copy: Self)
        ensures
            copy == *self,
    {
        match self {
            VTSAction::ToggleExpression(expr) => VTSAction::ToggleExpression(expr.clone()),
            VTSAction::EnableExpression(expr) => VTSAction::EnableExpression(expr.clone()),
            VTSAction::DisableExpression(expr) => VTSAction::DisableExpression(expr.clone()),
            VTSAction::LoadModel(model) => VTSAction::LoadModel(model.clone()),
            VTSAction::MoveModel(info) => VTSAction::MoveModel(*info),
            VTSAction::TriggerHotkey(hotkey) => VTSAction::TriggerHotkey(hotkey.clone()),
            VTSAction::SaveCurrentModelPosition(var_id) => VTSAction::SaveCurrentModelPosition(
                var_id.clone(),
            ),
            VTSAction::RestoreModelPosition(var_id, time_sec) => VTSAction::RestoreModelPosition(
                var_id.clone(),
                *time_sec,
            ),
            VTSAction::CheckConnection => VTSAction::CheckConnection,
        }
    }
}

impl Clone for VTSConfig {
    fn clone(&self) -> (copy: Self)
        ensures
            copy == *self,
    {
        self.duplicate()
    }
}

impl VTSConfig {
    /// A copy of the configuration.
    pub fn duplicate(&self) -> (copy: VTSConfig)
        ensures
            copy == *self,
    {
        VTSConfig { addr: self.addr.clone(), token_file: self.token_file.clone() }
    }
}

/// The connector to the avatar software: its configuration, whether it
/// holds a live connection, and the model positions saved under names.
#[derive(Debug)]
pub struct VTSConnector {
    link: Link,
    config: VTSConfig,
    position_store: Table<VTSMoveModelInput>,
}

impl VTSConnector {
    /// Whether the connector holds a live connection.
    pub closed spec fn link(self) -> Link {
        self.link
    }

    /// The configuration that the connector was made with.
    pub closed spec fn config(self) -> VTSConfig {
        self.config
    }

    /// The saved model positions, by name.
    pub closed spec fn positions(self) -> Map<Seq<char>, VTSMoveModelInput> {
        self.position_store@
    }

    /// The store of positions is in order. Every connector that this module
    /// hands out is well formed, and its functions keep it so.
    pub closed spec fn wf(self) -> bool {
        self.position_store.wf()
    }

    /// The connector `before` after a request that left its store alone.
    pub open spec fn answered(self, before: VTSConnector, failed: bool) -> bool {
        &&& self.wf()
        &&& self.config() == before.config()
        &&& self.positions() == before.positions()
        &&& self.link() == before.link().answered(failed)
    }

    /// A connector for `config`, after the first connection attempt, with no
    /// position saved. A failed attempt is not an error: the connector is
    /// made all the same, and connects when it is first used.
    pub fn new(config: VTSConfig, connected: bool) -> (conn: VTSConnector)
        ensures
            conn.wf(),
            conn.config() == config,
            conn.link() == Link::attempted(connected),
            conn.positions() == Map::<Seq<char>, VTSMoveModelInput>::empty(),
    {
        VTSConnector {
            link: Link::after_attempt(connected),
            config,
            position_store: Table::new(),
        }
    }

    /// Whether the connector holds a live connection.
    pub fn is_connected(&self) -> (connected: bool)
        ensures
            connected == (self.link() is Connected),
    {
        !self.link.needs_connection()
    }

    /// The configuration that the connector was made with.
    pub fn get_config(&self) -> (config: &VTSConfig)
        ensures
            *config == self.config(),
    {
        &self.config
    }

    /// The position saved under `var_id`.
    pub fn stored_position(&self, var_id: &str) -> (position: Option<VTSMoveModelInput>)
        requires
            self.wf(),
        ensures
            match position {
                Some(p) => self.positions().contains_key(var_id@) && p == self.positions()[var_id@],
                None => !self.positions().contains_key(var_id@),
            },
    {
        match self.position_store.get(var_id) {
            Some(p) => Some(*p),
            None => None,
        }
    }

    /// Records a connection attempt. A failed attempt is reported, and the
    /// request that it was made for is not to be sent.
    pub fn connection_attempted(&mut self, succeeded: bool) -> (r: Result<(), ActionError>)
        requires
            old(self).wf(),
        ensures
            final(self).wf(),
            final(self).config() == old(self).config(),
            final(self).positions() == old(self).positions(),
            final(self).link() == Link::attempted(succeeded),
            succeeded ==> r == Ok::<(), ActionError>(()),
            !succeeded ==> r == Err::<(), ActionError>(
                ActionError::ConnectionUnavailable(PluginType::VTS),
            ),
    {
        self.link.connection_attempted(PluginType::VTS, succeeded)
    }

    /// Records the peer's reply to a request: a failure disconnects.
    pub fn request_answered(&mut self, reply: Result<VTSResponse, String>) -> (r: Result<
        VTSResponse,
        ActionError,
    >)
        requires
            old(self).wf(),
        ensures
            final(self).answered(*old(self), reply is Err),
            match reply {
                Ok(answer) => r == Ok::<VTSResponse, ActionError>(answer),
                Err(detail) => r == Err::<VTSResponse, ActionError>(
                    ActionError::RequestFailed(detail),
                ),
            },
    {
        self.link.request_answered(reply)
    }

    /// Takes the reply to a command that answers nothing.
    fn command_answered(&mut self, reply: Result<VTSResponse, String>) -> (r: Result<
        (),
        ActionError,
    >)
        requires
            old(self).wf(),
        ensures
            final(self).answered(*old(self), reply is Err),
            match reply {
                Err(detail) => r == Err::<(), ActionError>(ActionError::RequestFailed(detail)),
                Ok(VTSResponse::Done) => r == Ok::<(), ActionError>(()),
                Ok(_) => r is Err && r->Err_0.is_request_failed_with(unexpected_reply()),
            },
    {
        match self.request_answered(reply) {
            Err(e) => Err(e),
            Ok(VTSResponse::Done) => Ok(()),
            Ok(_) => unexpected(),
        }
    }

    /// The software's version.
    pub fn get_vts_version(&mut self, reply: Result<VTSResponse, String>) -> (r: Result<
        String,
        ActionError,
    >)
        requires
            old(self).wf(),
        ensures
            final(self).answered(*old(self), reply is Err),
            match reply {
                Err(detail) => r == Err::<String, ActionError>(ActionError::RequestFailed(detail)),
                Ok(VTSResponse::Statistics(version)) => r == Ok::<String, ActionError>(version),
                Ok(_) => r is Err && r->Err_0.is_request_failed_with(unexpected_reply()),
            },
    {
        match self.request_answered(reply) {
            Err(e) => Err(e),
            Ok(VTSResponse::Statistics(version)) => Ok(version),
            Ok(_) => unexpected(),
        }
    }

    /// The identifier of the loaded model.
    pub fn get_current_model_id(&mut self, reply: Result<VTSResponse, String>) -> (r: Result<
        String,
        ActionError,
    >)
        requires
            old(self).wf(),
        ensures
            final(self).answered(*old(self), reply is Err),
            match reply {
                Err(detail) => r == Err::<String, ActionError>(ActionError::RequestFailed(detail)),
                Ok(VTSResponse::CurrentModel(id, _)) => r == Ok::<String, ActionError>(id),
                Ok(_) => r is Err && r->Err_0.is_request_failed_with(unexpected_reply()),
            },
    {
        match self.request_answered(reply) {
            Err(e) => Err(e),
            Ok(VTSResponse::CurrentModel(id, _)) => Ok(id),
            Ok(_) => unexpected(),
        }
    }

    /// Where the loaded model stands.
    pub fn get_current_model_position(&mut self, reply: Result<VTSResponse, String>) -> (r: Result<
        VTSPosition,
        ActionError,
    >)
        requires
            old(self).wf(),
        ensures
            final(self).answered(*old(self), reply is Err),
            match reply {
                Err(detail) => r == Err::<VTSPosition, ActionError>(
                    ActionError::RequestFailed(detail),
                ),
                Ok(VTSResponse::CurrentModel(_, position)) => r == Ok::<VTSPosition, ActionError>(
                    position,
                ),
                Ok(_) => r is Err && r->Err_0.is_request_failed_with(unexpected_reply()),
            },
    {
        match self.request_answered(reply) {
            Err(e) => Err(e),
            Ok(VTSResponse::CurrentModel(_, position)) => Ok(position),
            Ok(_) => unexpected(),
        }
    }

    /// Takes the reply to the loading of a model.
    pub fn load_model(&mut self, reply: Result<VTSResponse, String>) -> (r: Result<
        (),
        ActionError,
    >)
        requires
            old(self).wf(),
        ensures
            final(self).answered(*old(self), reply is Err),
            match reply {
                Err(detail) => r == Err::<(), ActionError>(ActionError::RequestFailed(detail)),
                Ok(VTSResponse::Done) => r == Ok::<(), ActionError>(()),
                Ok(_) => r is Err && r->Err_0.is_request_failed_with(unexpected_reply()),
            },
    {
        self.command_answered(reply)
    }

    /// Takes the reply to the move of a model.
    pub fn move_model(&mut self, reply: Result<VTSResponse, String>) -> (r: Result<
        (),
        ActionError,
    >)
        requires
            old(self).wf(),
        ensures
            final(self).answered(*old(self), reply is Err),
            match reply {
                Err(detail) => r == Err::<(), ActionError>(ActionError::RequestFailed(detail)),
                Ok(VTSResponse::Done) => r == Ok::<(), ActionError>(()),
                Ok(_) => r is Err && r->Err_0.is_request_failed_with(unexpected_reply()),
            },
    {
        self.command_answered(reply)
    }

    /// Takes the reply to the switching of an expression.
    pub fn change_expression_state(&mut self, reply: Result<VTSResponse, String>) -> (r: Result<
        (),
        ActionError,
    >)
        requires
            old(self).wf(),
        ensures
            final(self).answered(*old(self), reply is Err),
            match reply {
                Err(detail) => r == Err::<(), ActionError>(ActionError::RequestFailed(detail)),
                Ok(VTSResponse::Done) => r == Ok::<(), ActionError>(()),
                Ok(_) => r is Err && r->Err_0.is_request_failed_with(unexpected_reply()),
            },
    {
        self.command_answered(reply)
    }

    /// Takes the reply to the triggering of a hotkey.
    pub fn trigger_hotkey(&mut self, reply: Result<VTSResponse, String>) -> (r: Result<
        (),
        ActionError,
    >)
        requires
            old(self).wf(),
        ensures
            final(self).answered(*old(self), reply is Err),
            match reply {
                Err(detail) => r == Err::<(), ActionError>(ActionError::RequestFailed(detail)),
                Ok(VTSResponse::Done) => r == Ok::<(), ActionError>(()),
                Ok(_) => r is Err && r->Err_0.is_request_failed_with(unexpected_reply()),
            },
    {
        self.command_answered(reply)
    }

    /// Takes the state of the expression `expr` and yields the request that
    /// flips it: on where it is off, off where it is on. Where the model has
    /// no such expression, the toggle fails.
    pub fn toggle_expression<'a>(
        &mut self,
        expr: &'a String,
        reply: Result<VTSResponse, String>,
    ) -> (r: Result<VTSRequest<'a>, ActionError>)
        requires
            old(self).wf(),
        ensures
            final(self).answered(*old(self), reply is Err),
            match reply {
                Err(detail) => r == Err::<VTSRequest<'a>, ActionError>(
                    ActionError::RequestFailed(detail),
                ),
                Ok(VTSResponse::Expressions(found)) => if found@.len() == 0 {
                    r is Err && r->Err_0.is_request_failed_with(expression_not_found())
                } else {
                    r == Ok::<VTSRequest<'a>, ActionError>(
                        VTSRequest::ExpressionActivation(expr, !found@[0].active),
                    )
                },
                Ok(_) => r is Err && r->Err_0.is_request_failed_with(unexpected_reply()),
            },
    {
        match self.request_answered(reply) {
            Err(e) => Err(e),
            Ok(VTSResponse::Expressions(found)) => {
                if found.len() == 0 {
                    Err(ActionError::request_failed("Expression not found in current model"))
                } else {
                    Ok(VTSRequest::ExpressionActivation(expr, !found[0].active))
                }
            },
            Ok(_) => unexpected(),
        }
    }

    /// Takes the loaded model's position and keeps it under `var_id`, in
    /// place of what was kept there.
    pub fn save_current_model_position(
        &mut self,
        var_id: &str,
        reply: Result<VTSResponse, String>,
    ) -> (r: Result<(), ActionError>)
        requires
            old(self).wf(),
        ensures
            final(self).wf(),
            final(self).config() == old(self).config(),
            final(self).link() == old(self).link().answered(reply is Err),
            match reply {
                Err(detail) => r == Err::<(), ActionError>(ActionError::RequestFailed(detail))
                    && final(self).positions() == old(self).positions(),
                Ok(VTSResponse::CurrentModel(_, position)) => r == Ok::<(), ActionError>(())
                    && final(self).positions() == old(self).positions().insert(
                    var_id@,
                    VTSMoveModelInput::at(position),
                ),
                Ok(_) => r is Err && r->Err_0.is_request_failed_with(unexpected_reply())
                    && final(self).positions() == old(self).positions(),
            },
    {
        match self.get_current_model_position(reply) {
            Err(e) => Err(e),
            Ok(position) => {
                let kept = VTSMoveModelInput {
                    x: position.x,
                    y: position.y,
                    rotation: position.rotation,
                    size: position.size,
                    time_sec: Real::zero(),
                };
                let _ = self.position_store.insert(var_id.to_string(), kept);
                Ok(())
            },
        }
    }

    /// Takes the position kept under `var_id` out of the store and yields
    /// the request that moves the model there within `time_sec`. Where
    /// nothing is kept under that name, the restore fails.
    pub fn restore_model_position(&mut self, var_id: &str, time_sec: Real) -> (r: Result<
        VTSRequest<'static>,
        ActionError,
    >)
        requires
            old(self).wf(),
        ensures
            final(self).wf(),
            final(self).config() == old(self).config(),
            final(self).link() == old(self).link(),
            final(self).positions() == old(self).positions().remove(var_id@),
            old(self).positions().contains_key(var_id@) ==> r == Ok::<
                VTSRequest<'static>,
                ActionError,
            >(VTSRequest::MoveModel(old(self).positions()[var_id@].lasting(time_sec))),
            !old(self).positions().contains_key(var_id@) ==> r is Err
                && r->Err_0.is_request_failed_with(no_stored_position(var_id@)),
    {
        match self.position_store.remove(var_id) {
            Some(kept) => Ok(
                VTSRequest::MoveModel(
                    VTSMoveModelInput {
                        x: kept.x,
                        y: kept.y,
                        rotation: kept.rotation,
                        size: kept.size,
                        time_sec,
                    },
                ),
            ),
            None => Err(
                ActionError::RequestFailed(
                    concat3("Variable ", var_id, " does not have a stored position"),
                ),
            ),
        }
    }
}

/// The words for a name that no expression of the model bears.
pub open spec fn no_expression_named() -> Seq<char> {
    "Expression with given name not found for the current model"@
}

/// The words for a file that no expression of the model has.
pub open spec fn no_expression_with_id() -> Seq<char> {
    "Expression with given ID not found for the current model"@
}

/// The words for a name that no model bears.
pub open spec fn no_model_named() -> Seq<char> {
    "No model found with the given name"@
}

/// The words for an identifier that no model has.
pub open spec fn no_model_with_id() -> Seq<char> {
    "No model found with the given ID"@
}

/// The words for a name that no hotkey of the model bears.
pub open spec fn no_hotkey_named() -> Seq<char> {
    "Hotkey with given name not found in current model"@
}

/// The words for an identifier that no hotkey of the model has.
pub open spec fn no_hotkey_with_id() -> Seq<char> {
    "Hotkey with given ID not found in current model"@
}

/// What was looked for, or the failure that says it is missing.
fn found_or(found: Option<String>, missing: &str) -> (r: Result<String, ActionError>)
    ensures
        match found {
            Some(text) => r == Ok::<String, ActionError>(text),
            None => r is Err && r->Err_0.is_request_failed_with(missing@),
        },
{
    match found {
        Some(text) => Ok(text),
        None => Err(ActionError::request_failed(missing)),
    }
}

impl VTSConnector {
    /// Takes the reply that lists the expressions.
    fn expressions_answered(&mut self, reply: Result<VTSResponse, String>) -> (r: Result<
        Vec<VTSExpression>,
        ActionError,
    >)
        requires
            old(self).wf(),
        ensures
            final(self).answered(*old(self), reply is Err),
            match reply {
                Err(detail) => r == Err::<Vec<VTSExpression>, ActionError>(
                    ActionError::RequestFailed(detail),
                ),
                Ok(VTSResponse::Expressions(found)) => r == Ok::<Vec<VTSExpression>, ActionError>(
                    found,
                ),
                Ok(_) => r is Err && r->Err_0.is_request_failed_with(unexpected_reply()),
            },
    {
        match self.request_answered(reply) {
            Err(e) => Err(e),
            Ok(VTSResponse::Expressions(found)) => Ok(found),
            Ok(_) => unexpected(),
        }
    }

    /// Takes the reply that lists the models.
    fn models_answered(&mut self, reply: Result<VTSResponse, String>) -> (r: Result<
        Vec<VTSItem>,
        ActionError,
    >)
        requires
            old(self).wf(),
        ensures
            final(self).answered(*old(self), reply is Err),
            match reply {
                Err(detail) => r == Err::<Vec<VTSItem>, ActionError>(
                    ActionError::RequestFailed(detail),
                ),
                Ok(VTSResponse::Models(found)) => r == Ok::<Vec<VTSItem>, ActionError>(found),
                Ok(_) => r is Err && r->Err_0.is_request_failed_with(unexpected_reply()),
            },
    {
        match self.request_answered(reply) {
            Err(e) => Err(e),
            Ok(VTSResponse::Models(found)) => Ok(found),
            Ok(_) => unexpected(),
        }
    }

    /// Takes the reply that lists the hotkeys.
    fn hotkeys_answered(&mut self, reply: Result<VTSResponse, String>) -> (r: Result<
        Vec<VTSItem>,
        ActionError,
    >)
        requires
            old(self).wf(),
        ensures
            final(self).answered(*old(self), reply is Err),
            match reply {
                Err(detail) => r == Err::<Vec<VTSItem>, ActionError>(
                    ActionError::RequestFailed(detail),
                ),
                Ok(VTSResponse::Hotkeys(found)) => r == Ok::<Vec<VTSItem>, ActionError>(found),
                Ok(_) => r is Err && r->Err_0.is_request_failed_with(unexpected_reply()),
            },
    {
        match self.request_answered(reply) {
            Err(e) => Err(e),
            Ok(VTSResponse::Hotkeys(found)) => Ok(found),
            Ok(_) => unexpected(),
        }
    }

    /// The names of the model's expressions, in the peer's order.
    pub fn get_expression_name_list(&mut self, reply: Result<VTSResponse, String>) -> (r: Result<
        Vec<String>,
        ActionError,
    >)
        requires
            old(self).wf(),
        ensures
            final(self).answered(*old(self), reply is Err),
            match reply {
                Err(detail) => r == Err::<Vec<String>, ActionError>(
                    ActionError::RequestFailed(detail),
                ),
                Ok(VTSResponse::Expressions(found)) => r is Ok && r->Ok_0@.len() == found@.len()
                    && forall|i: int|
                    0 <= i < found@.len() ==> #[trigger] r->Ok_0@[i] == found@[i].name,
                Ok(_) => r is Err && r->Err_0.is_request_failed_with(unexpected_reply()),
            },
    {
        match self.expressions_answered(reply) {
            Err(e) => Err(e),
            Ok(found) => Ok(expression_names(&found)),
        }
    }

    /// The file of the first expression that bears `name`.
    pub fn get_expression_id_from_name(
        &mut self,
        name: &str,
        reply: Result<VTSResponse, String>,
    ) -> (r: Result<String, ActionError>)
        requires
            old(self).wf(),
        ensures
            final(self).answered(*old(self), reply is Err),
            match reply {
                Err(detail) => r == Err::<String, ActionError>(ActionError::RequestFailed(detail)),
                Ok(VTSResponse::Expressions(found)) => match find_expression_name(
                    found@,
                    name@,
                    0,
                ) {
                    Some(i) => r == Ok::<String, ActionError>(found@[i].file),
                    None => r is Err && r->Err_0.is_request_failed_with(no_expression_named()),
                },
                Ok(_) => r is Err && r->Err_0.is_request_failed_with(unexpected_reply()),
            },
    {
        match self.expressions_answered(reply) {
            Err(e) => Err(e),
            Ok(found) => found_or(
                expression_file_from_name(&found, name),
                "Expression with given name not found for the current model",
            ),
        }
    }

    /// The name of the first expression that has the file `id`.
    pub fn get_expression_name_from_id(
        &mut self,
        id: &str,
        reply: Result<VTSResponse, String>,
    ) -> (r: Result<String, ActionError>)
        requires
            old(self).wf(),
        ensures
            final(self).answered(*old(self), reply is Err),
            match reply {
                Err(detail) => r == Err::<String, ActionError>(ActionError::RequestFailed(detail)),
                Ok(VTSResponse::Expressions(found)) => match find_expression_file(found@, id@, 0) {
                    Some(i) => r == Ok::<String, ActionError>(found@[i].name),
                    None => r is Err && r->Err_0.is_request_failed_with(no_expression_with_id()),
                },
                Ok(_) => r is Err && r->Err_0.is_request_failed_with(unexpected_reply()),
            },
    {
        match self.expressions_answered(reply) {
            Err(e) => Err(e),
            Ok(found) => found_or(
                expression_name_from_file(&found, id),
                "Expression with given ID not found for the current model",
            ),
        }
    }

    /// The names of the models, in the peer's order.
    pub fn get_model_name_list(&mut self, reply: Result<VTSResponse, String>) -> (r: Result<
        Vec<String>,
        ActionError,
    >)
        requires
            old(self).wf(),
        ensures
            final(self).answered(*old(self), reply is Err),
            match reply {
                Err(detail) => r == Err::<Vec<String>, ActionError>(
                    ActionError::RequestFailed(detail),
                ),
                Ok(VTSResponse::Models(found)) => r is Ok && r->Ok_0@.len() == found@.len()
                    && forall|i: int|
                    0 <= i < found@.len() ==> #[trigger] r->Ok_0@[i] == found@[i].name,
                Ok(_) => r is Err && r->Err_0.is_request_failed_with(unexpected_reply()),
            },
    {
        match self.models_answered(reply) {
            Err(e) => Err(e),
            Ok(found) => Ok(item_names(&found)),
        }
    }

    /// The identifier of the first model that bears `name`.
    pub fn get_model_id_from_name(&mut self, name: &str, reply: Result<VTSResponse, String>) -> (r:
        Result<String, ActionError>)
        requires
            old(self).wf(),
        ensures
            final(self).answered(*old(self), reply is Err),
            match reply {
                Err(detail) => r == Err::<String, ActionError>(ActionError::RequestFailed(detail)),
                Ok(VTSResponse::Models(found)) => match find_name(found@, name@, 0) {
                    Some(i) => r == Ok::<String, ActionError>(found@[i].id),
                    None => r is Err && r->Err_0.is_request_failed_with(no_model_named()),
                },
                Ok(_) => r is Err && r->Err_0.is_request_failed_with(unexpected_reply()),
            },
    {
        match self.models_answered(reply) {
            Err(e) => Err(e),
            Ok(found) => found_or(id_from_name(&found, name), "No model found with the given name"),
        }
    }

    /// The name of the first model that has the identifier `id`.
    pub fn get_model_name_from_id(&mut self, id: &str, reply: Result<VTSResponse, String>) -> (r:
        Result<String, ActionError>)
        requires
            old(self).wf(),
        ensures
            final(self).answered(*old(self), reply is Err),
            match reply {
                Err(detail) => r == Err::<String, ActionError>(ActionError::RequestFailed(detail)),
                Ok(VTSResponse::Models(found)) => match find_id(found@, id@, 0) {
                    Some(i) => r == Ok::<String, ActionError>(found@[i].name),
                    None => r is Err && r->Err_0.is_request_failed_with(no_model_with_id()),
                },
                Ok(_) => r is Err && r->Err_0.is_request_failed_with(unexpected_reply()),
            },
    {
        match self.models_answered(reply) {
            Err(e) => Err(e),
            Ok(found) => found_or(name_from_id(&found, id), "No model found with the given ID"),
        }
    }

    /// The identifier of the first hotkey that bears `name`.
    pub fn get_hotkey_id_from_name(&mut self, name: &str, reply: Result<VTSResponse, String>) -> (r:
        Result<String, ActionError>)
        requires
            old(self).wf(),
        ensures
            final(self).answered(*old(self), reply is Err),
            match reply {
                Err(detail) => r == Err::<String, ActionError>(ActionError::RequestFailed(detail)),
                Ok(VTSResponse::Hotkeys(found)) => match find_name(found@, name@, 0) {
                    Some(i) => r == Ok::<String, ActionError>(found@[i].id),
                    None => r is Err && r->Err_0.is_request_failed_with(no_hotkey_named()),
                },
                Ok(_) => r is Err && r->Err_0.is_request_failed_with(unexpected_reply()),
            },
    {
        match self.hotkeys_answered(reply) {
            Err(e) => Err(e),
            Ok(found) => found_or(
                id_from_name(&found, name),
                "Hotkey with given name not found in current model",
            ),
        }
    }

    /// The name of the first hotkey that has the identifier `id`.
    pub fn get_hotkey_name_from_id(&mut self, id: &str, reply: Result<VTSResponse, String>) -> (r:
        Result<String, ActionError>)
        requires
            old(self).wf(),
        ensures
            final(self).answered(*old(self), reply is Err),
            match reply {
                Err(detail) => r == Err::<String, ActionError>(ActionError::RequestFailed(detail)),
                Ok(VTSResponse::Hotkeys(found)) => match find_id(found@, id@, 0) {
                    Some(i) => r == Ok::<String, ActionError>(found@[i].name),
                    None => r is Err && r->Err_0.is_request_failed_with(no_hotkey_with_id()),
                },
                Ok(_) => r is Err && r->Err_0.is_request_failed_with(unexpected_reply()),
            },
    {
        match self.hotkeys_answered(reply) {
            Err(e) => Err(e),
            Ok(found) => found_or(
                name_from_id(&found, id),
                "Hotkey with given ID not found in current model",
            ),
        }
    }

    /// The identifier and the name of each hotkey, in the peer's order.
    pub fn get_hotkey_id_list(&mut self, reply: Result<VTSResponse, String>) -> (r: Result<
        Vec<(String, String)>,
        ActionError,
    >)
        requires
            old(self).wf(),
        ensures
            final(self).answered(*old(self), reply is Err),
            match reply {
                Err(detail) => r == Err::<Vec<(String, String)>, ActionError>(
                    ActionError::RequestFailed(detail),
                ),
                Ok(VTSResponse::Hotkeys(found)) => r is Ok && r->Ok_0@.len() == found@.len()
                    && forall|i: int|
                    0 <= i < found@.len() ==> #[trigger] r->Ok_0@[i] == (
                        found@[i].id,
                        found@[i].name,
                    ),
                Ok(_) => r is Err && r->Err_0.is_request_failed_with(unexpected_reply()),
            },
    {
        match self.hotkeys_answered(reply) {
            Err(e) => Err(e),
            Ok(found) => Ok(item_ids(&found)),
        }
    }

    /// The names of the hotkeys, in the peer's order.
    pub fn get_hotkey_name_list(&mut self, reply: Result<VTSResponse, String>) -> (r: Result<
        Vec<String>,
        ActionError,
    >)
        requires
            old(self).wf(),
        ensures
            final(self).answered(*old(self), reply is Err),
            match reply {
                Err(detail) => r == Err::<Vec<String>, ActionError>(
                    ActionError::RequestFailed(detail),
                ),
                Ok(VTSResponse::Hotkeys(found)) => r is Ok && r->Ok_0@.len() == found@.len()
                    && forall|i: int|
                    0 <= i < found@.len() ==> #[trigger] r->Ok_0@[i] == found@[i].name,
                Ok(_) => r is Err && r->Err_0.is_request_failed_with(unexpected_reply()),
            },
    {
        match self.hotkeys_answered(reply) {
            Err(e) => Err(e),
            Ok(found) => Ok(item_names(&found)),
        }
    }
}

impl VTSQuery {
    /// The request that fetches this value.
    pub open spec fn request(self) -> VTSRequest<'static> {
        match self {
            VTSQuery::ActiveModelId => VTSRequest::CurrentModel,
            VTSQuery::Version => VTSRequest::Statistics,
        }
    }

    /// The text that an answer stands for under this query, if it fits.
    pub open spec fn text_of(self, answer: VTSResponse) -> Option<String> {
        match (self, answer) {
            (VTSQuery::ActiveModelId, VTSResponse::CurrentModel(id, _)) => Some(id),
            (VTSQuery::Version, VTSResponse::Statistics(version)) => Some(version),
            _ => None,
        }
    }

    /// The request that fetches this value.
    pub fn get_request(&self) -> (request: VTSRequest<'static>)
        ensures
            request == self.request(),
    {
        match self {
            VTSQuery::ActiveModelId => VTSRequest::CurrentModel,
            VTSQuery::Version => VTSRequest::Statistics,
        }
    }

    /// Turns the peer's reply to this query's request into the query's
    /// value. A failure disconnects the connector.
    pub fn run(&self, conn: &mut VTSConnector, reply: Result<VTSResponse, String>) -> (r: Result<
        String,
        ActionError,
    >)
        requires
            old(conn).wf(),
        ensures
            final(conn).answered(*old(conn), reply is Err),
            match reply {
                Err(detail) => r == Err::<String, ActionError>(ActionError::RequestFailed(detail)),
                Ok(answer) => match self.text_of(answer) {
                    Some(text) => r == Ok::<String, ActionError>(text),
                    None => r is Err && r->Err_0.is_request_failed_with(unexpected_reply()),
                },
            },
    {
        match self {
            VTSQuery::ActiveModelId => conn.get_current_model_id(reply),
            VTSQuery::Version => conn.get_vts_version(reply),
        }
    }
}

/// How far a command has come: each command sends one request, but for the
/// toggle of an expression, which sends two.
#[derive(Clone, Copy, Debug, PartialEq, Eq, Structural, Hash)]
pub enum VTSPhase {
    First,
    Second,
}

/// What a command does with an answer: go on with a request, end well, or
/// end with a failure of the given words.
pub enum VTSTurn<'a> {
    Send(VTSRequest<'a>),
    Succeed,
    Fail(Seq<char>),
}

/// What a command does after a reply.
#[derive(Debug)]
pub enum VTSNext<'a> {
    /// The command has ended.
    Done(Result<(), ActionError>),
    /// The command goes on with this request.
    Send(VTSRequest<'a>),
}

impl VTSAction {
    /// The request that a command starts with, given the saved positions;
    /// `None` where the command cannot start.
    pub open spec fn first_request(
        &self,
        positions: Map<Seq<char>, VTSMoveModelInput>,
    ) -> Option<VTSRequest<'_>> {
        match self {
            VTSAction::ToggleExpression(expr) => Some(VTSRequest::ExpressionState(Some(expr))),
            VTSAction::EnableExpression(expr) => Some(VTSRequest::ExpressionActivation(expr, true)),
            VTSAction::DisableExpression(expr) => Some(
                VTSRequest::ExpressionActivation(expr, false),
            ),
            VTSAction::LoadModel(model) => Some(VTSRequest::ModelLoad(model)),
            VTSAction::MoveModel(info) => Some(VTSRequest::MoveModel(*info)),
            VTSAction::TriggerHotkey(hotkey) => Some(VTSRequest::HotkeyTrigger(hotkey)),
            VTSAction::SaveCurrentModelPosition(_) => Some(VTSRequest::CurrentModel),
            VTSAction::RestoreModelPosition(var_id, time_sec) => {
                if positions.contains_key(var_id@) {
                    Some(VTSRequest::MoveModel(positions[var_id@].lasting(*time_sec)))
                } else {
                    None
                }
            },
            VTSAction::CheckConnection => Some(VTSRequest::Statistics),
        }
    }

    /// The saved positions once a command has started: a restore takes its
    /// position out of the store.
    pub open spec fn positions_after_start(
        self,
        positions: Map<Seq<char>, VTSMoveModelInput>,
    ) -> Map<Seq<char>, VTSMoveModelInput> {
        match self {
            VTSAction::RestoreModelPosition(var_id, _) => positions.remove(var_id@),
            _ => positions,
        }
    }

    /// Starts the command: yields its first request. A restore takes its
    /// position out of the store, and fails where none is kept.
    pub fn begin<'a>(&'a self, conn: &mut VTSConnector) -> (r: Result<VTSRequest<'a>, ActionError>)
        requires
            old(conn).wf(),
        ensures
            final(conn).wf(),
            final(conn).config() == old(conn).config(),
            final(conn).link() == old(conn).link(),
            final(conn).positions() == self.positions_after_start(old(conn).positions()),
            match self.first_request(old(conn).positions()) {
                Some(request) => r == Ok::<VTSRequest<'a>, ActionError>(request),
                None => r is Err && r->Err_0.is_request_failed_with(
                    no_stored_position(self->RestoreModelPosition_0@),
                ),
            },
    {
        match self {
            VTSAction::ToggleExpression(expr) => Ok(VTSRequest::ExpressionState(Some(expr))),
            VTSAction::EnableExpression(expr) => Ok(VTSRequest::ExpressionActivation(expr, true)),
            VTSAction::DisableExpression(expr) => Ok(VTSRequest::ExpressionActivation(expr, false)),
            VTSAction::LoadModel(model) => Ok(VTSRequest::ModelLoad(model)),
            VTSAction::MoveModel(info) => Ok(VTSRequest::MoveModel(*info)),
            VTSAction::TriggerHotkey(hotkey) => Ok(VTSRequest::HotkeyTrigger(hotkey)),
            VTSAction::SaveCurrentModelPosition(_) => Ok(VTSRequest::CurrentModel),
            VTSAction::RestoreModelPosition(var_id, time_sec) => {
                match conn.restore_model_position(var_id.as_str(), *time_sec) {
                    Ok(request) => Ok(request),
                    Err(e) => Err(e),
                }
            },
            VTSAction::CheckConnection => Ok(VTSRequest::Statistics),
        }
    }

    /// What the command does with an answer of the peer, in `phase`.
    pub open spec fn next(&self, phase: VTSPhase, answer: VTSResponse) -> VTSTurn<'_> {
        match self {
            VTSAction::ToggleExpression(expr) if phase is First => match answer {
                VTSResponse::Expressions(found) => if found@.len() > 0 {
                    VTSTurn::Send(VTSRequest::ExpressionActivation(expr, !found@[0].active))
                } else {
                    VTSTurn::Fail(expression_not_found())
                },
                _ => VTSTurn::Fail(unexpected_reply()),
            },
            VTSAction::SaveCurrentModelPosition(_) => match answer {
                VTSResponse::CurrentModel(_, _) => VTSTurn::Succeed,
                _ => VTSTurn::Fail(unexpected_reply()),
            },
            VTSAction::CheckConnection => match answer {
                VTSResponse::Statistics(_) => VTSTurn::Succeed,
                _ => VTSTurn::Fail(unexpected_reply()),
            },
            _ => match answer {
                VTSResponse::Done => VTSTurn::Succeed,
                _ => VTSTurn::Fail(unexpected_reply()),
            },
        }
    }

    /// The saved positions after an answer of the peer: a save keeps the
    /// model's position under its name.
    pub open spec fn positions_after(
        self,
        positions: Map<Seq<char>, VTSMoveModelInput>,
        answer: VTSResponse,
    ) -> Map<Seq<char>, VTSMoveModelInput> {
        match (self, answer) {
            (
                VTSAction::SaveCurrentModelPosition(var_id),
                VTSResponse::CurrentModel(_, position),
            ) => positions.insert(var_id@, VTSMoveModelInput::at(position)),
            _ => positions,
        }
    }

    /// Takes the peer's reply to the request that the command sent in
    /// `phase`, and says how the command goes on. A failure disconnects the
    /// connector and ends the command.
    pub fn run<'a>(
        &'a self,
        conn: &mut VTSConnector,
        phase: VTSPhase,
        reply: Result<VTSResponse, String>,
    ) -> (next: VTSNext<'a>)
        requires
            old(conn).wf(),
        ensures
            final(conn).wf(),
            final(conn).config() == old(conn).config(),
            final(conn).link() == old(conn).link().answered(reply is Err),
            match reply {
                Err(detail) => next == VTSNext::<'a>::Done(Err(ActionError::RequestFailed(detail)))
                    && final(conn).positions() == old(conn).positions(),
                Ok(answer) => {
                    &&& final(conn).positions() == self.positions_after(
                        old(conn).positions(),
                        answer,
                    )
                    &&& match self.next(phase, answer) {
                        VTSTurn::Send(request) => next == VTSNext::Send(request),
                        VTSTurn::Succeed => next == VTSNext::<'a>::Done(Ok(())),
                        VTSTurn::Fail(words) => next is Done && next->Done_0 is Err
                            && next->Done_0->Err_0.is_request_failed_with(words),
                    }
                },
            },
    {
        match self {
            VTSAction::ToggleExpression(expr) => match phase {
                VTSPhase::First => match conn.toggle_expression(expr, reply) {
                    Ok(request) => VTSNext::Send(request),
                    Err(e) => VTSNext::Done(Err(e)),
                },
                VTSPhase::Second => VTSNext::Done(conn.change_expression_state(reply)),
            },
            VTSAction::EnableExpression(_) => VTSNext::Done(conn.change_expression_state(reply)),
            VTSAction::DisableExpression(_) => VTSNext::Done(conn.change_expression_state(reply)),
            VTSAction::LoadModel(_) => VTSNext::Done(conn.load_model(reply)),
            VTSAction::MoveModel(_) => VTSNext::Done(conn.move_model(reply)),
            VTSAction::TriggerHotkey(_) => VTSNext::Done(conn.trigger_hotkey(reply)),
            VTSAction::SaveCurrentModelPosition(var_id) => VTSNext::Done(
                conn.save_current_model_position(var_id.as_str(), reply),
            ),
            VTSAction::RestoreModelPosition(_, _) => VTSNext::Done(conn.move_model(reply)),
            VTSAction::CheckConnection => match conn.get_vts_version(reply) {
                Ok(_) => VTSNext::Done(Ok(())),
                Err(e) => VTSNext::Done(Err(e)),
            },
        }
    }
}

} // verus!
