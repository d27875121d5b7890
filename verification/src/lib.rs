//! Rotates a Niri output after the accelerometer that iio-sensor-proxy
//! reports, and answers requests on its own control socket.
//!
//! This crate holds the decisions of the daemon: which monitor to rotate,
//! which transform an accelerometer orientation asks for, whether an output
//! must be changed, and how a control request changes the daemon's state and
//! what it is answered. Reading the sensor, talking to Niri and the sockets
//! themselves stay with the program around it.
pub mod args;
pub mod ipc;
pub mod json;
pub mod monitor;
pub mod orientation;
pub mod state;
pub mod transform;
