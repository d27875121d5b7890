use vstd::prelude::*;
use vstd::string::*;

use crate::args::{MsgArgs, MsgSubcommandArgs};
use crate::json::{
    is_text, json_of_text, lookup, parse_json_text, same_text, text_of_json, write_json_text,
    JsonValue,
};
use crate::state::{is_state_json, State};
use crate::transform::{
    is_mapping_json, is_request_mapping_json, lemma_request_mapping_round_trip,
    mapping_error_message, mapping_from_json, mapping_of_seq, MappingError, TransformMapping,
};

verus! {

/// A request to a running instance.
#[derive(Clone, Debug, PartialEq, Eq)]
pub enum IpcAction {
    /// Lock the rotation of the screen, or unlock it.
    LockRotation(bool),
    /// Toggle the lock of the rotation.
    ToggleLockRotation(),
    /// Rotate this monitor from now on.
    ChangeMonitor(String),
    /// Use this mapping from now on.
    ChangeTransform(TransformMapping),
    /// Ask whether the instance listens.
    Ping(),
    /// Stop the instance.
    Stop(),
    /// Ask for the state of the instance.
    PrintState(),
}

/// Why a JSON request is no [`IpcAction`].
#[derive(Clone, Debug, PartialEq, Eq)]
pub enum IpcError {
    /// The request is not a JSON object.
    Malformed,
    /// The request has no member `action`.
    MissingAction,
    /// The member `action` is not a string.
    ActionNotString,
    /// The request has no member `arg`.
    MissingArg,
    /// `lock_rotation` was given an `arg` that is not a boolean.
    LockRotationArg,
    /// `change_monitor` was given an `arg` that is not a string.
    ChangeMonitorArg,
    /// `change_transform` was given an `arg` that is no mapping.
    ChangeTransformArg(MappingError),
    /// No action has this name.
    UnknownAction(String),
}

/// What a request is answered, before it is written as JSON.
#[derive(Clone, Debug, PartialEq, Eq)]
pub enum Reply {
    /// The lock of the rotation before the request.
    OldLockRotation(bool),
    /// The monitor before the request.
    OldMonitor(String),
    /// The mapping before the request.
    OldMapping(TransformMapping),
    /// The answer to a ping.
    Pong,
    /// The answer to a stop.
    Stopping,
    /// The state of the instance.
    CurrentState(State),
}

/// The answer of the control socket: a status (`ok` or `error`) and a value.
#[derive(Clone, Debug, PartialEq, Eq)]
pub struct Response<T> {
    pub status: String,
    pub response: T,
}

/// How a request was handled: the JSON to answer, and whether the instance
/// is to stop.
#[derive(Debug, PartialEq, Eq)]
pub struct IpcOutcome {
    pub response: JsonValue,
    pub stop: bool,
}

/// The name of an action in a request.
pub open spec fn action_name(a: IpcAction) -> Seq<char> {
    match a {
        IpcAction::LockRotation(_) => "lock_rotation"@,
        IpcAction::ToggleLockRotation() => "toggle_lock_rotation"@,
        IpcAction::ChangeMonitor(_) => "change_monitor"@,
        IpcAction::ChangeTransform(_) => "change_transform"@,
        IpcAction::Ping() => "ping"@,
        IpcAction::Stop() => "stop"@,
        IpcAction::PrintState() => "print_state"@,
    }
}

/// The action named `name`, read with its argument `arg`; an error is given
/// by its message.
pub open spec fn action_of(name: String, arg: JsonValue) -> Result<IpcAction, Seq<char>> {
    if name@ == "lock_rotation"@ {
        match arg {
            JsonValue::Bool(b) => Ok(IpcAction::LockRotation(b)),
            _ => Err(ipc_error_message(IpcError::LockRotationArg)),
        }
    } else if name@ == "toggle_lock_rotation"@ {
        Ok(IpcAction::ToggleLockRotation())
    } else if name@ == "change_monitor"@ {
        match arg {
            JsonValue::String(s) => Ok(IpcAction::ChangeMonitor(s)),
            _ => Err(ipc_error_message(IpcError::ChangeMonitorArg)),
        }
    } else if name@ == "change_transform"@ {
        match mapping_from_json(arg) {
            Ok(m) => Ok(IpcAction::ChangeTransform(m)),
            Err(e) => Err(change_transform_error_message(e)),
        }
    } else if name@ == "ping"@ {
        Ok(IpcAction::Ping())
    } else if name@ == "stop"@ {
        Ok(IpcAction::Stop())
    } else if name@ == "print_state"@ {
        Ok(IpcAction::PrintState())
    } else {
        Err(ipc_error_message(IpcError::UnknownAction(name)))
    }
}

/// The action that a JSON request asks for: an object whose member `action`
/// is the action's name and whose member `arg` is its argument. An error is
/// given by its message.
pub open spec fn parse_action(j: JsonValue) -> Result<IpcAction, Seq<char>> {
    match j {
        JsonValue::Object(fields) => match lookup(fields@, "action"@) {
            None => Err(ipc_error_message(IpcError::MissingAction)),
            Some(JsonValue::String(name)) => match lookup(fields@, "arg"@) {
                None => Err(ipc_error_message(IpcError::MissingArg)),
                Some(arg) => action_of(name, arg),
            },
            Some(_) => Err(ipc_error_message(IpcError::ActionNotString)),
        },
        _ => Err(ipc_error_message(IpcError::Malformed)),
    }
}

/// A result with its error taken by its message.
pub open spec fn ipc_errs(r: Result<IpcAction, IpcError>) -> Result<IpcAction, Seq<char>> {
    match r {
        Ok(a) => Ok(a),
        Err(e) => Err(ipc_error_message(e)),
    }
}

/// The message for a `change_transform` argument that is no mapping.
pub open spec fn change_transform_error_message(mapping_message: Seq<char>) -> Seq<char> {
    "The `arg` for an action of type `change_transform` couldn't be serialized into a TransformMapping:\n"@
        + mapping_message
}

/// `j` is the argument that [`IpcAction::to_json`] writes for `a`.
pub open spec fn is_arg_json(a: IpcAction, j: JsonValue) -> bool {
    match a {
        IpcAction::LockRotation(b) => j == JsonValue::Bool(b),
        IpcAction::ChangeMonitor(m) => j == JsonValue::String(m),
        IpcAction::ChangeTransform(m) => is_request_mapping_json(m, j),
        _ => j is Null,
    }
}

/// `j` is the request that [`IpcAction::to_json`] writes for `a`:
/// `{"action": <name>, "arg": <argument or null>}`.
pub open spec fn is_request_json(a: IpcAction, j: JsonValue) -> bool {
    &&& j matches JsonValue::Object(fields)
    &&& fields@.len() == 2
    &&& fields@[0].0@ == "action"@ && is_text(fields@[0].1, action_name(a))
    &&& fields@[1].0@ == "arg"@ && is_arg_json(a, fields@[1].1)
}

/// `j` is an answer `{"status": <status>, "response": <value>}`.
pub open spec fn is_response_json(j: JsonValue, status: Seq<char>, value: JsonValue) -> bool {
    &&& j matches JsonValue::Object(fields)
    &&& fields@.len() == 2
    &&& fields@[0].0@ == "status"@ && is_text(fields@[0].1, status)
    &&& fields@[1].0@ == "response"@ && fields@[1].1 == value
}

/// The value of an answer.
pub open spec fn response_value(j: JsonValue) -> JsonValue {
    j->Object_0@[1].1
}

/// `v` is the JSON that a reply is written as.
pub open spec fn is_reply_json(r: Reply, v: JsonValue) -> bool {
    match r {
        Reply::OldLockRotation(b) => v == JsonValue::Bool(b),
        Reply::OldMonitor(m) => v == JsonValue::String(m),
        Reply::OldMapping(m) => is_mapping_json(m, v),
        Reply::Pong => is_text(v, "Pong!"@),
        Reply::Stopping => is_text(v, "Stopping!"@),
        Reply::CurrentState(s) => is_state_json(s, v),
    }
}

/// The state after the action `a` in state `s`.
pub open spec fn next_state(s: State, a: IpcAction) -> State {
    match a {
        IpcAction::LockRotation(b) => State { lock_rotation: b, ..s },
        IpcAction::ToggleLockRotation() => State { lock_rotation: !s.lock_rotation, ..s },
        IpcAction::ChangeMonitor(m) => State { monitor: m, ..s },
        IpcAction::ChangeTransform(m) => State { mapping: m, ..s },
        _ => s,
    }
}

/// What the action `a` in state `s` is answered: a change answers with the
/// value it replaced.
pub open spec fn reply_of(s: State, a: IpcAction) -> Reply {
    match a {
        IpcAction::LockRotation(_) => Reply::OldLockRotation(s.lock_rotation),
        IpcAction::ToggleLockRotation() => Reply::OldLockRotation(s.lock_rotation),
        IpcAction::ChangeMonitor(_) => Reply::OldMonitor(s.monitor),
        IpcAction::ChangeTransform(_) => Reply::OldMapping(s.mapping),
        IpcAction::Ping() => Reply::Pong,
        IpcAction::Stop() => Reply::Stopping,
        IpcAction::PrintState() => Reply::CurrentState(s),
    }
}

/// The message of an error in a request.
pub open spec fn ipc_error_message(e: IpcError) -> Seq<char> {
    match e {
        IpcError::Malformed => "The IpcAction JSON is malformed."@,
        IpcError::MissingAction => "The IpcAction JSON doesn't contain a field `action`"@,
        IpcError::ActionNotString => "The `action` field is not a String."@,
        IpcError::MissingArg => "The IpcAction JSON doesn't contain a field `arg`"@,
        IpcError::LockRotationArg => "The `arg` for an action of type `lock_rotation`, needs to be a boolean."@,
        IpcError::ChangeMonitorArg => "The `arg` for an action of type `change_monitor`, needs to be a string."@,
        IpcError::ChangeTransformArg(m) => change_transform_error_message(mapping_error_message(m)),
        IpcError::UnknownAction(n) => "The action `"@ + n@ + "` does not exist."@,
    }
}

/// `response` is `{"status": "error", "response": <message>}`.
pub open spec fn is_error_answer(response: JsonValue, message: Seq<char>) -> bool {
    &&& is_response_json(response, "error"@, response_value(response))
    &&& is_text(response_value(response), message)
}

/// How a JSON request is handled: a valid action is carried out and answered
/// `{"status": "ok", "response": <reply>}`, and only a stop stops; any other
/// request leaves the state alone and is answered with its error.
pub open spec fn request_answered(
    before: State,
    after: State,
    request: JsonValue,
    response: JsonValue,
    stop: bool,
) -> bool {
    match parse_action(request) {
        Ok(a) => {
            &&& after == next_state(before, a)
            &&& is_response_json(response, "ok"@, response_value(response))
            &&& is_reply_json(reply_of(before, a), response_value(response))
            &&& stop == (a is Stop)
        },
        Err(e) => {
            &&& after == before
            &&& is_error_answer(response, e)
            &&& !stop
        },
    }
}

/// The message answered to a request line that is no JSON.
pub open spec fn json_error_message(serde_message: Seq<char>) -> Seq<char> {
    "Couldn't parse the request as valid JSON: "@ + serde_message
}

/// The action that the `msg` subcommand asks for.
pub open spec fn action_of_args(args: MsgArgs) -> IpcAction {
    match args.command {
        MsgSubcommandArgs::LockRotation(c) => IpcAction::LockRotation(c.lock_rotation),
        MsgSubcommandArgs::ToggleLockRotation(_) => IpcAction::ToggleLockRotation(),
        MsgSubcommandArgs::ChangeMonitor(c) => IpcAction::ChangeMonitor(c.monitor),
        MsgSubcommandArgs::ChangeTransform(c) => IpcAction::ChangeTransform(
            mapping_of_seq(c.transform@),
        ),
        MsgSubcommandArgs::Ping(_) => IpcAction::Ping(),
        MsgSubcommandArgs::Stop(_) => IpcAction::Stop(),
        MsgSubcommandArgs::PrintState(_) => IpcAction::PrintState(),
    }
}

/// The directory of the control socket: `$XDG_RUNTIME_DIR`, or `/tmp` when
/// it is not set.
pub open spec fn socket_directory(runtime_dir: Option<String>) -> Seq<char> {
    match runtime_dir {
        Some(d) => d@,
        None => "/tmp"@,
    }
}

/// The default path of the control socket:
/// `<directory>/iio-niri.<$WAYLAND_DISPLAY or unknown>.sock`.
pub open spec fn socket_path(runtime_dir: Option<String>, wayland_display: Option<String>) -> Seq<
    char,
> {
    socket_directory(runtime_dir) + "/iio-niri."@ + match wayland_display {
        Some(d) => d@,
        None => "unknown"@,
    } + ".sock"@
}

/// The default path of the control socket is the runtime directory (or
/// `/tmp` when `$XDG_RUNTIME_DIR` is not set), then `/iio-niri.`, then the
/// display (or `unknown` when `$WAYLAND_DISPLAY` is not set), then `.sock`:
/// the directory depends on `$XDG_RUNTIME_DIR` alone, whatever the display.
pub proof fn lemma_socket_path_parts(runtime_dir: Option<String>, wayland_display: Option<String>)
    ensures
        socket_path(runtime_dir, wayland_display) == match runtime_dir {
            Some(d) => d@,
            None => "/tmp"@,
        } + "/iio-niri."@ + match wayland_display {
            Some(d) => d@,
            None => "unknown"@,
        } + ".sock"@,
        forall|other_display: Option<String>|
            #![trigger socket_path(runtime_dir, other_display)]
            socket_path(runtime_dir, other_display).take(
                socket_directory(runtime_dir).len() as int,
            ) == match runtime_dir {
                Some(d) => d@,
                None => "/tmp"@,
            },
{
    assert forall|other_display: Option<String>|
        #![trigger socket_path(runtime_dir, other_display)]
        socket_path(runtime_dir, other_display).take(socket_directory(runtime_dir).len() as int)
            == match runtime_dir {
            Some(d) => d@,
            None => "/tmp"@,
        } by {
        let dir = socket_directory(runtime_dir);
        let rest = "/iio-niri."@ + match other_display {
            Some(d) => d@,
            None => "unknown"@,
        } + ".sock"@;
        assert(socket_path(runtime_dir, other_display) =~= dir + rest);
        assert((dir + rest).take(dir.len() as int) =~= dir);
    }
}

/// The directory of the control socket, given the value of
/// `$XDG_RUNTIME_DIR` (`None` when it cannot be read).
pub fn get_iio_niri_default_socket_directory(runtime_dir: Option<String>) -> (r: String)
    ensures
        r@ == socket_directory(runtime_dir),
{
    match runtime_dir {
        Some(dir) => dir,
        None => String::from_str("/tmp"),
    }
}

/// The default path of the control socket, given the values of
/// `$XDG_RUNTIME_DIR` and `$WAYLAND_DISPLAY` (`None` when one cannot be read).
pub fn get_iio_niri_socket_path(runtime_dir: Option<String>, wayland_display: Option<String>) -> (r:
    String)
    ensures
        r@ == socket_path(runtime_dir, wayland_display),
        r@ == match runtime_dir {
            Some(d) => d@,
            None => "/tmp"@,
        } + "/iio-niri."@ + match wayland_display {
            Some(d) => d@,
            None => "unknown"@,
        } + ".sock"@,
{
    proof {
        lemma_socket_path_parts(runtime_dir, wayland_display);
    }
    let mut path = get_iio_niri_default_socket_directory(runtime_dir);
    path.append("/iio-niri.");
    match wayland_display {
        Some(display) => path.append(display.as_str()),
        None => path.append("unknown"),
    }
    path.append(".sock");
    path
}

impl IpcError {
    /// The message that tells what is wrong with the request.
    pub fn message(&self) -> (r: String)
        ensures
            r@ == ipc_error_message(*self),
    {
        match self {
            IpcError::Malformed => String::from_str("The IpcAction JSON is malformed."),
            IpcError::MissingAction => String::from_str(
                "The IpcAction JSON doesn't contain a field `action`",
            ),
            IpcError::ActionNotString => String::from_str("The `action` field is not a String."),
            IpcError::MissingArg => String::from_str("The IpcAction JSON doesn't contain a field `arg`"),
            IpcError::LockRotationArg => String::from_str(
                "The `arg` for an action of type `lock_rotation`, needs to be a boolean.",
            ),
            IpcError::ChangeMonitorArg => String::from_str(
                "The `arg` for an action of type `change_monitor`, needs to be a string.",
            ),
            IpcError::ChangeTransformArg(m) => {
                let mut s = String::from_str(
                    "The `arg` for an action of type `change_transform` couldn't be serialized into a TransformMapping:\n",
                );
                let inner = m.message();
                s.append(inner.as_str());
                s
            },
            IpcError::UnknownAction(n) => {
                let mut s = String::from_str("The action `");
                s.append(n.as_str());
                s.append("` does not exist.");
                s
            },
        }
    }
}

fn action_from_parts(name: &String, arg: &JsonValue) -> (r: Result<IpcAction, IpcError>)
    ensures
        ipc_errs(r) == action_of(*name, *arg),
{
    if same_text(name.as_str(), "lock_rotation") {
        match arg {
            JsonValue::Bool(b) => Ok(IpcAction::LockRotation(*b)),
            _ => Err(IpcError::LockRotationArg),
        }
    } else if same_text(name.as_str(), "toggle_lock_rotation") {
        Ok(IpcAction::ToggleLockRotation())
    } else if same_text(name.as_str(), "change_monitor") {
        match arg {
            JsonValue::String(s) => Ok(IpcAction::ChangeMonitor(s.clone())),
            _ => Err(IpcError::ChangeMonitorArg),
        }
    } else if same_text(name.as_str(), "change_transform") {
        match TransformMapping::from_json(arg) {
            Ok(m) => Ok(IpcAction::ChangeTransform(m)),
            Err(e) => Err(IpcError::ChangeTransformArg(e)),
        }
    } else if same_text(name.as_str(), "ping") {
        Ok(IpcAction::Ping())
    } else if same_text(name.as_str(), "stop") {
        Ok(IpcAction::Stop())
    } else if same_text(name.as_str(), "print_state") {
        Ok(IpcAction::PrintState())
    } else {
        Err(IpcError::UnknownAction(name.clone()))
    }
}

impl IpcAction {
    /// The name of this action in a request.
    pub fn action_string(&self) -> (r: &'static str)
        ensures
            r@ == action_name(*self),
    {
        match self {
            IpcAction::LockRotation(_) => "lock_rotation",
            IpcAction::ToggleLockRotation() => "toggle_lock_rotation",
            IpcAction::ChangeMonitor(_) => "change_monitor",
            IpcAction::ChangeTransform(_) => "change_transform",
            IpcAction::Ping() => "ping",
            IpcAction::Stop() => "stop",
            IpcAction::PrintState() => "print_state",
        }
    }

    /// Reads the action of a JSON request.
    pub fn from_json(json: JsonValue) -> (r: Result<IpcAction, IpcError>)
        ensures
            ipc_errs(r) == parse_action(json),
    {
        if !json.is_object() {
            return Err(IpcError::Malformed);
        }
        let action = match json.get("action") {
            Some(v) => v,
            None => return Err(IpcError::MissingAction),
        };
        let action = match action.as_str() {
            Some(s) => s,
            None => return Err(IpcError::ActionNotString),
        };
        let value = match json.get("arg") {
            Some(v) => v,
            None => return Err(IpcError::MissingArg),
        };
        action_from_parts(action, value)
    }

    /// This action as a JSON request: `{"action": <name>, "arg": <argument>}`,
    /// with `null` for the actions that take no argument.
    pub fn to_json(&self) -> (r: JsonValue)
        ensures
            is_request_json(*self, r),
    {
        let arg = match self {
            IpcAction::LockRotation(b) => JsonValue::Bool(*b),
            IpcAction::ChangeMonitor(m) => JsonValue::String(m.clone()),
            IpcAction::ChangeTransform(m) => m.to_request_json(),
            _ => JsonValue::Null,
        };
        let mut fields: Vec<(String, JsonValue)> = Vec::new();
        fields.push((String::from_str("action"), JsonValue::text(self.action_string())));
        fields.push((String::from_str("arg"), arg));
        JsonValue::Object(fields)
    }
}

impl<T> Response<T> {
    /// An answer with the given status.
    pub fn new(status: String, value: T) -> (r: Self)
        ensures
            r.status == status,
            r.response == value,
    {
        Self { status, response: value }
    }

    /// An answer with the status `ok`.
    pub fn new_ok(value: T) -> (r: Self)
        ensures
            r.status@ == "ok"@,
            r.response == value,
    {
        Self::new(String::from_str("ok"), value)
    }
}

impl Response<String> {
    /// An answer with the status `error`, whose value is the message.
    pub fn new_error(message: String) -> (r: Self)
        ensures
            r.status@ == "error"@,
            r.response == message,
    {
        Self::new(String::from_str("error"), message)
    }
}

impl Response<JsonValue> {
    /// This answer as JSON: `{"status": <status>, "response": <value>}`.
    pub fn to_json(self) -> (r: JsonValue)
        ensures
            is_response_json(r, self.status@, self.response),
    {
        let mut fields: Vec<(String, JsonValue)> = Vec::new();
        fields.push((String::from_str("status"), JsonValue::String(self.status)));
        fields.push((String::from_str("response"), self.response));
        JsonValue::Object(fields)
    }
}

impl Reply {
    /// This reply as the value of an answer.
    pub fn to_json(&self) -> (r: JsonValue)
        ensures
            is_reply_json(*self, r),
    {
        match self {
            Reply::OldLockRotation(b) => JsonValue::Bool(*b),
            Reply::OldMonitor(m) => JsonValue::String(m.clone()),
            Reply::OldMapping(m) => m.to_json(),
            Reply::Pong => JsonValue::text("Pong!"),
            Reply::Stopping => JsonValue::text("Stopping!"),
            Reply::CurrentState(s) => s.to_json(),
        }
    }
}

/// Carries out the action `change` on the state: a change of the lock, the
/// monitor or the mapping answers with the value it replaced; a ping, a stop
/// or a query of the state leaves the state as it is.
pub fn run_ipc_action(state: &mut State, change: IpcAction) -> (r: Reply)
    ensures
        *final(state) == next_state(*old(state), change),
        r == reply_of(*old(state), change),
{
    match change {
        IpcAction::LockRotation(b) => {
            let old = state.lock_rotation;
            state.lock_rotation = b;
            Reply::OldLockRotation(old)
        },
        IpcAction::ToggleLockRotation() => {
            let old = state.lock_rotation;
            state.lock_rotation = !state.lock_rotation;
            Reply::OldLockRotation(old)
        },
        IpcAction::ChangeMonitor(monitor) => {
            let mut old = monitor;
            std::mem::swap(&mut state.monitor, &mut old);
            Reply::OldMonitor(old)
        },
        IpcAction::ChangeTransform(mapping) => {
            let old = state.mapping;
            state.mapping = mapping;
            Reply::OldMapping(old)
        },
        IpcAction::Ping() => Reply::Pong,
        IpcAction::Stop() => Reply::Stopping,
        IpcAction::PrintState() => Reply::CurrentState(state.copy()),
    }
}

/// Handles one JSON request on the control socket.
///
/// A request that names a valid action is carried out and answered
/// `{"status": "ok", "response": <reply>}`; only a stop asks the instance to
/// stop. Any other request leaves the state alone and is answered
/// `{"status": "error", "response": <message>}`.
pub fn handle_request(state: &mut State, request: JsonValue) -> (r: IpcOutcome)
    ensures
        request_answered(*old(state), *final(state), request, r.response, r.stop),
{
    match IpcAction::from_json(request) {
        Ok(action) => {
            let stop = match action {
                IpcAction::Stop() => true,
                _ => false,
            };
            let reply = run_ipc_action(state, action);
            let response = Response::new_ok(reply.to_json()).to_json();
            IpcOutcome { response, stop }
        },
        Err(e) => {
            let answer = Response::new_error(e.message());
            let response = Response::new(answer.status, JsonValue::String(answer.response)).to_json();
            IpcOutcome { response, stop: false }
        },
    }
}

/// The error answer to a request line that serde_json does not read as JSON.
fn json_error_answer(serde_message: &String) -> (r: JsonValue)
    ensures
        is_error_answer(r, json_error_message(serde_message@)),
{
    let mut message = String::from_str("Couldn't parse the request as valid JSON: ");
    message.append(serde_message.as_str());
    let answer = Response::new_error(message);
    Response::new(answer.status, JsonValue::String(answer.response)).to_json()
}

/// Handles one request line of the control socket: reads it as JSON with
/// serde_json, handles it, and gives the answer's text and whether the
/// instance is to stop.
///
/// A line that is no JSON leaves the state alone and is answered
/// `{"status": "error", "response": "Couldn't parse the request as valid JSON: <serde_json's message>"}`.
pub fn handle_request_text(state: &mut State, request: &str) -> (r: (String, bool))
    ensures
        match json_of_text(request@) {
            Ok(jv) => exists|j: JsonValue, response: JsonValue|
                #![trigger j@, text_of_json(response@)]
                j@ == jv && request_answered(*old(state), *final(state), j, response, r.1) && r.0@
                    == text_of_json(response@),
            Err(e) => {
                &&& *final(state) == *old(state)
                &&& !r.1
                &&& exists|response: JsonValue|
                    is_error_answer(response, json_error_message(e)) && r.0@
                        == #[trigger] text_of_json(response@)
            },
        },
{
    match parse_json_text(request) {
        Ok(json) => {
            let ghost request_json = json;
            let outcome = handle_request(state, json);
            let text = write_json_text(&outcome.response);
            assert(request_json@ == request_json@);
            assert(text@ == text_of_json(outcome.response@));
            (text, outcome.stop)
        },
        Err(e) => {
            let response = json_error_answer(&e);
            let text = write_json_text(&response);
            assert(text@ == text_of_json(response@));
            (text, false)
        },
    }
}

/// The request line that the `msg` subcommand sends: the text serde_json
/// writes for the request's JSON.
pub fn request_text(args: MsgArgs) -> (r: String)
    requires
        args.command matches MsgSubcommandArgs::ChangeTransform(c) ==> c.transform.len() >= 4,
    ensures
        exists|j: JsonValue| is_request_json(action_of_args(args), j) && r@ == #[trigger] text_of_json(j@),
{
    let action = ipc_action_from_args(args);
    let json = action.to_json();
    let text = write_json_text(&json);
    assert(text@ == text_of_json(json@));
    text
}

/// The request that the `msg` subcommand sends.
pub fn ipc_action_from_args(args: MsgArgs) -> (r: IpcAction)
    requires
        args.command matches MsgSubcommandArgs::ChangeTransform(c) ==> c.transform.len() >= 4,
    ensures
        r == action_of_args(args),
{
    match args.command {
        MsgSubcommandArgs::LockRotation(sub_command) => IpcAction::LockRotation(sub_command.lock_rotation),
        MsgSubcommandArgs::ToggleLockRotation(_) => IpcAction::ToggleLockRotation(),
        MsgSubcommandArgs::ChangeMonitor(sub_command) => IpcAction::ChangeMonitor(sub_command.monitor),
        MsgSubcommandArgs::ChangeTransform(sub_command) => IpcAction::ChangeTransform(
            TransformMapping::from_transform_vec(Some(sub_command.transform)),
        ),
        MsgSubcommandArgs::Ping(_) => IpcAction::Ping(),
        MsgSubcommandArgs::Stop(_) => IpcAction::Stop(),
        MsgSubcommandArgs::PrintState(_) => IpcAction::PrintState(),
    }
}

/// A request that [`IpcAction::to_json`] wrote is read back by
/// [`IpcAction::from_json`] as the same action.
pub proof fn lemma_request_round_trip(a: IpcAction, j: JsonValue)
    requires
        is_request_json(a, j),
    ensures
        parse_action(j) == Ok::<IpcAction, Seq<char>>(a),
{
    reveal_strlit("action");
    reveal_strlit("arg");
    reveal_strlit("lock_rotation");
    reveal_strlit("toggle_lock_rotation");
    reveal_strlit("change_monitor");
    reveal_strlit("change_transform");
    reveal_strlit("ping");
    reveal_strlit("stop");
    reveal_strlit("print_state");
    reveal_with_fuel(lookup, 3);
    let fields = j->Object_0@;
    assert("action"@.len() == 6 && "arg"@.len() == 3);
    assert(fields.drop_first()[0] == fields[1]);
    assert(lookup(fields, "action"@) == Some(fields[0].1));
    assert(lookup(fields, "arg"@) == Some(fields[1].1));
    assert("lock_rotation"@.len() == 13 && "toggle_lock_rotation"@.len() == 20
        && "change_monitor"@.len() == 14 && "change_transform"@.len() == 16 && "ping"@.len() == 4
        && "stop"@.len() == 4 && "print_state"@.len() == 11);
    assert("ping"@[0] == 'p' && "stop"@[0] == 's');
    if let IpcAction::ChangeTransform(m) = a {
        lemma_request_mapping_round_trip(m, fields[1].1);
    }
}

/// Toggling the lock twice gives back the state as it was.
pub proof fn lemma_toggle_twice(s: State)
    ensures
        next_state(next_state(s, IpcAction::ToggleLockRotation()), IpcAction::ToggleLockRotation())
            == s,
{
}

/// Locking (or unlocking) twice does what doing it once does.
pub proof fn lemma_lock_rotation_idempotent(s: State, b: bool)
    ensures
        next_state(next_state(s, IpcAction::LockRotation(b)), IpcAction::LockRotation(b))
            == next_state(s, IpcAction::LockRotation(b)),
{
}

/// After the lock is set, the next change of the lock answers with the value
/// that was set.
pub proof fn lemma_lock_rotation_read_back(s: State, b: bool, c: IpcAction)
    requires
        c is LockRotation || c is ToggleLockRotation,
    ensures
        reply_of(next_state(s, IpcAction::LockRotation(b)), c) == Reply::OldLockRotation(b),
{
}

/// After the monitor is changed, the next change of the monitor answers with
/// the monitor that was set.
pub proof fn lemma_monitor_read_back(s: State, m: String, n: String)
    ensures
        reply_of(next_state(s, IpcAction::ChangeMonitor(m)), IpcAction::ChangeMonitor(n))
            == Reply::OldMonitor(m),
{
}

/// After the mapping is changed, the next change of the mapping answers with
/// the mapping that was set.
pub proof fn lemma_mapping_read_back(s: State, m: TransformMapping, n: TransformMapping)
    ensures
        reply_of(next_state(s, IpcAction::ChangeTransform(m)), IpcAction::ChangeTransform(n))
            == Reply::OldMapping(m),
{
}

/// A query of the state, after any action, reports the state that action
/// left.
pub proof fn lemma_print_state_reports_changes(s: State, a: IpcAction)
    ensures
        reply_of(next_state(s, a), IpcAction::PrintState()) == Reply::CurrentState(
            next_state(s, a),
        ),
{
}

/// A ping, a stop and a query of the state leave the state as it is.
pub proof fn lemma_queries_keep_state(s: State, a: IpcAction)
    requires
        a is Ping || a is Stop || a is PrintState,
    ensures
        next_state(s, a) == s,
{
}

/// Every action changes at most the one part of the state it names: the lock,
/// the monitor or the mapping.
pub proof fn lemma_actions_change_one_part(s: State, a: IpcAction)
    ensures
        !(a is LockRotation || a is ToggleLockRotation) ==> next_state(s, a).lock_rotation
            == s.lock_rotation,
        !(a is ChangeMonitor) ==> next_state(s, a).monitor == s.monitor,
        !(a is ChangeTransform) ==> next_state(s, a).mapping == s.mapping,
{
}

} // verus!
