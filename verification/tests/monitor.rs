use iio_niri::args::ListenArgs;
use iio_niri::monitor::{get_monitor, MonitorError};
use iio_niri::orientation::{plan_orientation_update, OrientationError, OrientationUpdate, OutputInfo};
use iio_niri::state::State;
use iio_niri::transform::{Transform, TransformAction, TransformMapping};

fn names(v: &[&str]) -> Vec<String> {
    v.iter().map(|s| s.to_string()).collect()
}

fn output(name: &str, t: Option<Transform>) -> OutputInfo {
    OutputInfo { name: name.to_string(), logical_transform: t }
}

#[test]
fn monitor_defaults_to_first_output() {
    assert_eq!(get_monitor(&names(&["eDP-1", "HDMI-A-1"]), None), Ok("eDP-1".to_string()));
    assert_eq!(get_monitor(&names(&[]), None), Err(MonitorError::NoMonitor));
}

#[test]
fn monitor_given_must_be_connected() {
    let outs = names(&["eDP-1", "HDMI-A-1"]);
    assert_eq!(get_monitor(&outs, Some("HDMI-A-1".to_string())), Ok("HDMI-A-1".to_string()));
    assert_eq!(
        get_monitor(&outs, Some("DP-9".to_string())),
        Err(MonitorError::NotConnected("DP-9".to_string()))
    );
    assert_eq!(
        MonitorError::NotConnected("DP-9".to_string()).message(),
        "The provided monitor (DP-9) is not connected."
    );
    assert_eq!(MonitorError::NoMonitor.message(), "Couldn't select the monitor to rotate.");
}

#[test]
fn state_from_args() {
    let args = ListenArgs {
        monitor: None,
        transform: Some(vec![Transform::_90, Transform::Normal, Transform::_180, Transform::_270]),
        timeout: 5000,
        niri_socket: None,
    };
    let s = State::from_args(&names(&["eDP-1"]), &args).unwrap();
    assert!(!s.lock_rotation);
    assert_eq!(s.monitor, "eDP-1");
    assert_eq!(s.mapping.normal, Transform::_90);
    assert_eq!(s.mapping.left_up, Transform::Normal);
    let args = ListenArgs { monitor: Some("X".to_string()), transform: None, timeout: 1, niri_socket: None };
    assert_eq!(
        State::from_args(&names(&["eDP-1"]), &args),
        Err(MonitorError::NotConnected("X".to_string()))
    );
}

#[test]
fn locked_rotation_ignores_accelerometer() {
    let mut s = State {
        lock_rotation: true,
        monitor: "eDP-1".to_string(),
        mapping: TransformMapping::from_transform_vec(None),
    };
    assert_eq!(s.orientation_target("left-up"), TransformAction::KeepPrevious);
    s.lock_rotation = false;
    assert_eq!(s.orientation_target("left-up"), TransformAction::SetTo(Transform::_90));
    assert_eq!(s.orientation_target("undefined"), TransformAction::KeepPrevious);
}

#[test]
fn orientation_update_decisions() {
    let outs = vec![
        output("HDMI-A-1", None),
        output("eDP-1", Some(Transform::Normal)),
    ];
    assert_eq!(plan_orientation_update("eDP-1", Transform::Normal, &outs), Ok(OrientationUpdate::Unchanged));
    assert_eq!(
        plan_orientation_update("eDP-1", Transform::_90, &outs),
        Ok(OrientationUpdate::Apply { from: Transform::Normal, to: Transform::_90 })
    );
    assert_eq!(
        plan_orientation_update("HDMI-A-1", Transform::_90, &outs),
        Err(OrientationError::MissingLogical("HDMI-A-1".to_string()))
    );
    assert_eq!(
        plan_orientation_update("DP-1", Transform::_90, &outs),
        Err(OrientationError::UnknownMonitor("DP-1".to_string()))
    );
    assert_eq!(
        OrientationError::MissingLogical("HDMI-A-1".to_string()).message(),
        "Couldn't get the logical output information from the provided monitor (HDMI-A-1)."
    );
    assert_eq!(
        OrientationError::UnknownMonitor("DP-1".to_string()).message(),
        "Couldn't find the provided monitor (DP-1) in the list of outputs."
    );
}
