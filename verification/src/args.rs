use vstd::prelude::*;

use crate::transform::Transform;

verus! {

/// The arguments of the `listen` subcommand.
pub struct ListenArgs {
    /// The monitor to rotate after the accelerometer. Defaults to the first
    /// monitor Niri can see.
    pub monitor: Option<String>,
    /// The transforms that the accelerometer orientations normal, left-up,
    /// bottom-up and right-up map to, in that order.
    pub transform: Option<Vec<Transform>>,
    /// The number of milliseconds before a D-Bus request times out.
    pub timeout: u64,
    /// The path to the Niri IPC socket.
    pub niri_socket: Option<String>,
}

/// The arguments of the `msg` subcommand.
pub struct MsgArgs {
    pub command: MsgSubcommandArgs,
}

/// The subcommands of the `msg` subcommand.
pub enum MsgSubcommandArgs {
    /// Change whether the rotation of the screen is locked.
    LockRotation(LockRotationArgs),
    /// Toggle the lock of the rotation.
    ToggleLockRotation(ToggleLockRotationArgs),
    /// Change the monitor that follows the accelerometer.
    ChangeMonitor(ChangeMonitorArgs),
    /// Change the transform mapping.
    ChangeTransform(ChangeTransformArgs),
    /// Ask whether a running instance listens on its socket.
    Ping(PingArgs),
    /// Stop the running instance.
    Stop(StopArgs),
    /// Print the state of the running instance.
    PrintState(PrintStateArgs),
}

/// The arguments of `msg lock-rotation`.
pub struct LockRotationArgs {
    /// Whether to lock the rotation of the screen.
    pub lock_rotation: bool,
}

/// The arguments of `msg toggle-lock-rotation`.
pub struct ToggleLockRotationArgs;

/// The arguments of `msg ping`.
pub struct PingArgs;

/// The arguments of `msg stop`.
pub struct StopArgs;

/// The arguments of `msg print-state`.
pub struct PrintStateArgs;

/// The arguments of `msg change-monitor`.
pub struct ChangeMonitorArgs {
    /// The monitor to rotate after the accelerometer.
    pub monitor: String,
}

/// The arguments of `msg change-transform`.
pub struct ChangeTransformArgs {
    /// The transforms that normal, left-up, bottom-up and right-up map to.
    pub transform: Vec<Transform>,
}

} // verus!
