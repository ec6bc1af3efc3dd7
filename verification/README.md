# caniot_controller

A library for CANIOT, a protocol for devices on a CAN bus, verified with
Verus.

- `src/caniot`: device identifiers, error codes, frame identifiers and
  frames (encoding and decoding), payloads, the board classes (telemetry and
  command encodings), the attribute tables and the decoding and display of
  attribute values, request helpers, and the emulation of devices
  (behaviors, nodes, devices).
- `src/bus`: the configuration and counters of CAN interfaces, and an
  emulated CAN bus of emulated devices.
- `app`: what stays outside the verified library: the SocketCAN interface,
  the emulated bus driven by the clock of the process, conversions to and
  from CAN frames, and temperatures in degrees Celsius.

Times in the emulation are milliseconds on a clock the caller chooses.
