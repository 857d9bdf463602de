# AeroForge control core

The verified core of AeroForge, a fan, power and battery control stack for
Acer Nitro laptops made of a Windows service and a desktop shell. The
library holds the rules of both; every function in `src/` carries a
contract that Verus proves.

Layout:

- `src/service/control/` — fan curves (sanitizing, interpolation and the
  laws that hold of them), the order of the firmware fan writes, power
  profiles, the step-by-step order of a power apply and the processor-state
  policy,
  `powercfg` readback parsing, battery charge limiting, boot-logo checks, and
  how each apply outcome is recorded in the persisted control snapshot.
- `src/service/telemetry/` — CPU load and clock, firmware sensors and the
  refresh policy of slow probes, GPU
  adapter detection and polling decisions, NVML and `nvidia-smi` readings,
  and the composed telemetry snapshot.
- `src/service/lowlevel.rs` — decoding of the thermal model-specific
  registers read through the WinRing0 driver, and its load policy.
- `src/service/ipc.rs` — the named-pipe answers and the service's own health.
- `src/desktop/` — the shell's models, its service-pipe client logic, the
  control state its commands save, the Acer Care Center charging protocol
  and the effective-clock cache.
- `src/text.rs`, `src/json.rs` — number formats and grammars, trimming and
  splitting; JSON documents read through `serde_json`.
- `tests/` — tests on concrete values.
- `app/` — the operating-system edges: files, processes, the pipe handler
  and the control requests it carries out (with the firmware calls behind a
  trait), the control, telemetry and low-level workers' ticks, FFI to NVML, SetupAPI, the service
  manager and the WinRing0 device, and the Care Center websocket.
