# dpstream

The server side of a remote gaming system: it runs the Dolphin emulator,
streams its picture and sound to Moonlight clients over a Tailscale network,
and feeds the clients' controller input back to the emulator.

## Layout

- `src/` is the library, written in Verus. Every function in it carries a
  contract that Verus proves: the error codes and recovery advice, the
  health checks, the emulator's launch arguments, controller mappings and
  input sessions, pairing, the VPN's status parsing, the Moonlight control
  messages, RTP packets, frame and packet pools, the lock-free queues, the
  encoders, the circuit breakers and error correlations, and more. Calls
  into other crates go through small trusted wrappers whose contracts say
  what those crates document. The CPU feature checks ask `raw-cpuid` and
  `target-lexicon` in place of `is_x86_feature_detected!` and
  `cfg!(target_arch)`, which cannot stand in verified code. The session
  registry keeps its sessions in vstd's `HashMapWithView` rather than a
  `dashmap::DashMap`: the registry is generic over its session type, and
  the contents of an outside map can only be named for one fixed type.
- `tests/` runs the library on concrete inputs.
- `app/` is the program around it: `main`, the sockets, the emulator and
  Tailscale processes, the HTTP health endpoint, and the arithmetic on
  floating-point values (analog sticks, running means, trends), which
  Verus does not handle.
