use iio_niri::args::{
    ChangeMonitorArgs, ChangeTransformArgs, LockRotationArgs, MsgArgs, MsgSubcommandArgs, PingArgs,
    PrintStateArgs, StopArgs, ToggleLockRotationArgs,
};
use iio_niri::ipc::{
    get_iio_niri_default_socket_directory, get_iio_niri_socket_path, handle_request,
    handle_request_text, ipc_action_from_args, request_text, run_ipc_action, IpcAction, IpcError,
    Reply, Response,
};
use iio_niri::json::{parse_json_text, write_json_text, JsonValue};
use iio_niri::state::State;
use iio_niri::transform::{MappingError, MappingField, Transform, TransformMapping};

fn text(s: &str) -> JsonValue {
    JsonValue::String(s.to_string())
}

fn object(members: Vec<(&str, JsonValue)>) -> JsonValue {
    JsonValue::Object(members.into_iter().map(|(k, v)| (k.to_string(), v)).collect())
}

fn request(action: &str, arg: JsonValue) -> JsonValue {
    object(vec![("action", text(action)), ("arg", arg)])
}

fn answer(status: &str, value: JsonValue) -> JsonValue {
    object(vec![("status", text(status)), ("response", value)])
}

fn state() -> State {
    State {
        lock_rotation: false,
        monitor: "eDP-1".to_string(),
        mapping: TransformMapping::from_transform_vec(None),
    }
}

fn flipped_mapping() -> TransformMapping {
    TransformMapping {
        normal: Transform::Flipped,
        left_up: Transform::Flipped90,
        bottom_up: Transform::Flipped180,
        right_up: Transform::Flipped270,
    }
}

#[test]
fn lock_rotation_answers_old_value() {
    let mut s = state();
    let out = handle_request(&mut s, request("lock_rotation", JsonValue::Bool(true)));
    assert_eq!(out.response, answer("ok", JsonValue::Bool(false)));
    assert!(!out.stop);
    assert!(s.lock_rotation);
    let out = handle_request(&mut s, request("lock_rotation", JsonValue::Bool(true)));
    assert_eq!(out.response, answer("ok", JsonValue::Bool(true)));
    assert!(s.lock_rotation);
}

#[test]
fn toggle_twice_restores_state() {
    let mut s = state();
    let out = handle_request(&mut s, request("toggle_lock_rotation", JsonValue::Null));
    assert_eq!(out.response, answer("ok", JsonValue::Bool(false)));
    assert!(s.lock_rotation);
    let out = handle_request(&mut s, request("toggle_lock_rotation", JsonValue::Null));
    assert_eq!(out.response, answer("ok", JsonValue::Bool(true)));
    assert_eq!(s, state());
}

#[test]
fn change_monitor_reads_back() {
    let mut s = state();
    let out = handle_request(&mut s, request("change_monitor", text("HDMI-A-1")));
    assert_eq!(out.response, answer("ok", text("eDP-1")));
    assert_eq!(s.monitor, "HDMI-A-1");
    let out = handle_request(&mut s, request("change_monitor", text("DP-2")));
    assert_eq!(out.response, answer("ok", text("HDMI-A-1")));
}

#[test]
fn change_transform_answers_old_mapping() {
    let mut s = state();
    let out = handle_request(&mut s, request("change_transform", flipped_mapping().to_json()));
    assert_eq!(out.response, answer("ok", TransformMapping::from_transform_vec(None).to_json()));
    assert_eq!(s.mapping, flipped_mapping());
    assert!(!s.lock_rotation);
    assert_eq!(s.monitor, "eDP-1");
}

#[test]
fn ping_and_stop() {
    let mut s = state();
    let out = handle_request(&mut s, request("ping", JsonValue::Null));
    assert_eq!(out.response, answer("ok", text("Pong!")));
    assert!(!out.stop);
    let out = handle_request(&mut s, request("stop", JsonValue::Null));
    assert_eq!(out.response, answer("ok", text("Stopping!")));
    assert!(out.stop);
    assert_eq!(s, state());
}

#[test]
fn print_state_reports_state() {
    let mut s = state();
    handle_request(&mut s, request("lock_rotation", JsonValue::Bool(true)));
    let out = handle_request(&mut s, request("print_state", JsonValue::Null));
    let expected = object(vec![
        ("lock_rotation", JsonValue::Bool(true)),
        ("monitor", text("eDP-1")),
        ("mapping", TransformMapping::from_transform_vec(None).to_json()),
    ]);
    assert_eq!(out.response, answer("ok", expected));
}

fn error_of(make: impl Fn() -> JsonValue) -> (JsonValue, IpcError) {
    let mut s = state();
    let err = IpcAction::from_json(make()).unwrap_err();
    let out = handle_request(&mut s, make());
    assert!(!out.stop);
    assert_eq!(s, state());
    (out.response, err)
}

#[test]
fn malformed_request() {
    let (resp, err) = error_of(|| JsonValue::Array(vec![]));
    assert_eq!(err, IpcError::Malformed);
    assert_eq!(resp, answer("error", text("The IpcAction JSON is malformed.")));
}

#[test]
fn missing_action() {
    let (resp, err) = error_of(|| object(vec![("arg", JsonValue::Null)]));
    assert_eq!(err, IpcError::MissingAction);
    assert_eq!(resp, answer("error", text("The IpcAction JSON doesn't contain a field `action`")));
}

#[test]
fn action_not_string() {
    let (resp, err) = error_of(|| object(vec![("action", JsonValue::Bool(true)), ("arg", JsonValue::Null)]));
    assert_eq!(err, IpcError::ActionNotString);
    assert_eq!(resp, answer("error", text("The `action` field is not a String.")));
}

#[test]
fn missing_arg() {
    let (resp, err) = error_of(|| object(vec![("action", text("ping"))]));
    assert_eq!(err, IpcError::MissingArg);
    assert_eq!(resp, answer("error", text("The IpcAction JSON doesn't contain a field `arg`")));
}

#[test]
fn lock_rotation_needs_boolean() {
    let (resp, err) = error_of(|| request("lock_rotation", text("yes")));
    assert_eq!(err, IpcError::LockRotationArg);
    assert_eq!(
        resp,
        answer("error", text("The `arg` for an action of type `lock_rotation`, needs to be a boolean."))
    );
}

#[test]
fn change_monitor_needs_string() {
    let (resp, err) = error_of(|| request("change_monitor", JsonValue::Null));
    assert_eq!(err, IpcError::ChangeMonitorArg);
    assert_eq!(
        resp,
        answer("error", text("The `arg` for an action of type `change_monitor`, needs to be a string."))
    );
}

#[test]
fn change_transform_needs_mapping() {
    let (resp, err) = error_of(|| request("change_transform", object(vec![("normal", text("90"))])));
    assert_eq!(err, IpcError::ChangeTransformArg(MappingError::MissingField(MappingField::LeftUp)));
    assert_eq!(
        resp,
        answer(
            "error",
            text("The `arg` for an action of type `change_transform` couldn't be serialized into a TransformMapping:\nmissing field `left_up`")
        )
    );
}

#[test]
fn unknown_action() {
    let (resp, err) = error_of(|| request("rotate", JsonValue::Null));
    assert_eq!(err, IpcError::UnknownAction("rotate".to_string()));
    assert_eq!(resp, answer("error", text("The action `rotate` does not exist.")));
}

#[test]
fn requests_round_trip() {
    let actions = vec![
        IpcAction::LockRotation(true),
        IpcAction::LockRotation(false),
        IpcAction::ToggleLockRotation(),
        IpcAction::ChangeMonitor("DP-1".to_string()),
        IpcAction::ChangeTransform(flipped_mapping()),
        IpcAction::Ping(),
        IpcAction::Stop(),
        IpcAction::PrintState(),
    ];
    for a in actions {
        assert_eq!(IpcAction::from_json(a.to_json()), Ok(a));
    }
}

#[test]
fn request_json_shape() {
    assert_eq!(IpcAction::Ping().to_json(), request("ping", JsonValue::Null));
    assert_eq!(IpcAction::LockRotation(true).to_json(), request("lock_rotation", JsonValue::Bool(true)));
    assert_eq!(IpcAction::ChangeMonitor("DP-1".to_string()).to_json(), request("change_monitor", text("DP-1")));
    assert_eq!(IpcAction::PrintState().action_string(), "print_state");
    assert_eq!(IpcAction::ToggleLockRotation().action_string(), "toggle_lock_rotation");
}

#[test]
fn run_ipc_action_replies() {
    let mut s = state();
    assert_eq!(run_ipc_action(&mut s, IpcAction::Ping()), Reply::Pong);
    assert_eq!(run_ipc_action(&mut s, IpcAction::Stop()), Reply::Stopping);
    assert_eq!(run_ipc_action(&mut s, IpcAction::PrintState()), Reply::CurrentState(state()));
    assert_eq!(
        run_ipc_action(&mut s, IpcAction::ChangeTransform(flipped_mapping())),
        Reply::OldMapping(TransformMapping::from_transform_vec(None))
    );
    assert_eq!(
        run_ipc_action(&mut s, IpcAction::ChangeTransform(flipped_mapping())),
        Reply::OldMapping(flipped_mapping())
    );
}

#[test]
fn responses() {
    let r = Response::new("ok".to_string(), 5u8);
    assert_eq!(r.status, "ok");
    assert_eq!(r.response, 5u8);
    let r = Response::new_ok(true);
    assert_eq!(r.status, "ok");
    assert!(r.response);
    let r = Response::new_error("boom".to_string());
    assert_eq!(r.status, "error");
    assert_eq!(r.response, "boom");
    assert_eq!(Response::new_ok(text("x")).to_json(), answer("ok", text("x")));
}

#[test]
fn socket_paths() {
    assert_eq!(
        get_iio_niri_socket_path(Some("/run/user/1000".to_string()), Some("wayland-1".to_string())),
        "/run/user/1000/iio-niri.wayland-1.sock"
    );
    assert_eq!(get_iio_niri_socket_path(None, None), "/tmp/iio-niri.unknown.sock");
    assert_eq!(get_iio_niri_default_socket_directory(None), "/tmp");
    assert_eq!(get_iio_niri_default_socket_directory(Some("/run".to_string())), "/run");
}

#[test]
fn msg_args_to_actions() {
    let act = |command| ipc_action_from_args(MsgArgs { command });
    assert_eq!(
        act(MsgSubcommandArgs::LockRotation(LockRotationArgs { lock_rotation: true })),
        IpcAction::LockRotation(true)
    );
    assert_eq!(
        act(MsgSubcommandArgs::ToggleLockRotation(ToggleLockRotationArgs)),
        IpcAction::ToggleLockRotation()
    );
    assert_eq!(
        act(MsgSubcommandArgs::ChangeMonitor(ChangeMonitorArgs { monitor: "DP-3".to_string() })),
        IpcAction::ChangeMonitor("DP-3".to_string())
    );
    assert_eq!(
        act(MsgSubcommandArgs::ChangeTransform(ChangeTransformArgs {
            transform: vec![Transform::Flipped, Transform::Flipped90, Transform::Flipped180, Transform::Flipped270],
        })),
        IpcAction::ChangeTransform(flipped_mapping())
    );
    assert_eq!(act(MsgSubcommandArgs::Ping(PingArgs)), IpcAction::Ping());
    assert_eq!(act(MsgSubcommandArgs::Stop(StopArgs)), IpcAction::Stop());
    assert_eq!(act(MsgSubcommandArgs::PrintState(PrintStateArgs)), IpcAction::PrintState());
}

#[test]
fn request_lines_are_answered_in_text() {
    let mut s = state();
    let (answer, stop) = handle_request_text(&mut s, r#"{"action": "lock_rotation", "arg": true}"#);
    assert_eq!(answer, r#"{"status":"ok","response":false}"#);
    assert!(!stop);
    assert!(s.lock_rotation);
    let (answer, _) = handle_request_text(&mut s, r#"{"action":"print_state","arg":null}"#);
    assert_eq!(
        answer,
        r#"{"status":"ok","response":{"lock_rotation":true,"monitor":"eDP-1","mapping":{"normal":"Normal","left_up":"90","bottom_up":"180","right_up":"270"}}}"#
    );
    let (answer, stop) = handle_request_text(&mut s, r#"{"action":"stop","arg":null}"#);
    assert_eq!(answer, r#"{"status":"ok","response":"Stopping!"}"#);
    assert!(stop);
}

#[test]
fn request_line_that_is_no_json() {
    let mut s = state();
    let serde_message = serde_json::from_str::<serde_json::Value>("wake").unwrap_err().to_string();
    let (answer, stop) = handle_request_text(&mut s, "wake");
    assert!(!stop);
    assert_eq!(s, state());
    let mut m = serde_json::Map::new();
    m.insert("status".to_string(), serde_json::Value::String("error".to_string()));
    m.insert(
        "response".to_string(),
        serde_json::Value::String(format!("Couldn't parse the request as valid JSON: {}", serde_message)),
    );
    let expected = serde_json::Value::Object(m).to_string();
    assert_eq!(answer, expected);
}

#[test]
fn request_line_with_bad_action_answers_error() {
    let mut s = state();
    let (answer, stop) = handle_request_text(&mut s, r#"{"action":"rotate","arg":null}"#);
    assert_eq!(answer, r#"{"status":"error","response":"The action `rotate` does not exist."}"#);
    assert!(!stop);
}

#[test]
fn msg_request_lines() {
    let text = request_text(MsgArgs { command: MsgSubcommandArgs::LockRotation(LockRotationArgs { lock_rotation: true }) });
    assert_eq!(text, r#"{"action":"lock_rotation","arg":true}"#);
    let text = request_text(MsgArgs { command: MsgSubcommandArgs::Ping(PingArgs) });
    assert_eq!(text, r#"{"action":"ping","arg":null}"#);
    let text = request_text(MsgArgs {
        command: MsgSubcommandArgs::ChangeTransform(ChangeTransformArgs {
            transform: vec![Transform::_90, Transform::Normal, Transform::_180, Transform::_270],
        }),
    });
    assert_eq!(
        text,
        r#"{"action":"change_transform","arg":{"bottom_up":"180","left_up":"Normal","normal":"90","right_up":"270"}}"#
    );
    // What the client writes, the server reads back as the same request.
    let mut s = state();
    let (answer, _) = handle_request_text(&mut s, &text);
    assert_eq!(answer, r#"{"status":"ok","response":{"normal":"Normal","left_up":"90","bottom_up":"180","right_up":"270"}}"#);
    assert_eq!(s.mapping.normal, Transform::_90);
}

#[test]
fn json_text_round_trip() {
    let text = r#"{"b":[1,-2,3.5,true,null],"a":"x\ny"}"#;
    let v = parse_json_text(text).unwrap();
    assert_eq!(write_json_text(&v), text);
    assert!(parse_json_text("{").is_err());
}
