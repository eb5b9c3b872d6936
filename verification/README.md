# yudian_ai_tool

Host-side logic for Yudian AI-516 / AI-516P / AI-518 / AI-518P temperature
controllers, spoken to over Modbus RTU. The library in `src/` is verified with
Verus; `app/` is the plain Rust around it (serial and Modbus I/O, the async
device actor, serde types, floating-point unit conversions).

## Layout

- `src/modbus/` register map, model names, raw register decoding and
  encoding (`encode_i16`, dPt scale, exact temperature range checks), and the
  tool's limits and curve-shape rules.
- `src/device/bus.rs` the bus operations, replies and write plans that the
  transactions are made of; `PlanRunner` carries a plan out one reply at a
  time.
- `src/device/pid.rs`, `src/device/curve.rs` the PID write and curve
  download transactions (backup, write, read-back, rollback) and the curve
  read, each a state machine from reply to next operation with its protocol
  stated as a spec function.
- `src/device/session.rs` what is known about the connected controller: the
  connection probe, the read-only gate, reply decoding and the run-command
  safety checks.
- `src/device/handle.rs` request and transaction deadlines and how a reply
  wait is answered.
- `src/backend/` the simulated controller and the backend selection.
- `src/monitoring.rs` the monitoring back-off and failure reporting.
- `src/error.rs`, `src/types.rs`, `src/text.rs` errors, shared types and
  decimal/hex rendering.

The public proof functions named `law_*` state properties that span calls:
what a write plan leaves on a responsive device, that a whole curve
download (backup, write, verification) commits on a responsive device and a
curve read then gives the curve back, that a write transaction whose caller
left or whose queue deadline passed is skipped without a bus operation, that success needs the final
read-back, that every failure after the backup starts a rollback, that a run
needs a verified curve and valid PV/SV, and the monitoring back-off bounds.

`app/` drives the state machines against a real or simulated bus: it performs
each operation a machine asks for and hands the reply back.
