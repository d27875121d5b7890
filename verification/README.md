# iio-niri

Rotates a Niri output after the accelerometer that iio-sensor-proxy reports,
and takes requests on a control socket (`iio-niri msg ...`).

- `src/` is the verified library: the transform mapping and the reading of
  accelerometer orientations (`transform`), the choice of the monitor
  (`monitor`), the decision to turn an output (`orientation`), the state of a
  running instance (`state`), the JSON control protocol (`json`, `ipc`) and
  the command-line arguments the library reads (`args`).
- `app/` is the program around it: clap, D-Bus, the Niri socket, the control
  socket, JSON text through serde_json, threads and signals.
- `tests/` runs the library on concrete values.
