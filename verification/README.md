# fpsmaxxing

A broker that runs reversible performance experiments, with its logic verified
by Verus.

- `src/` is the library: the change lifecycle and its policy, the mock provider,
  the experiment journal's records and scan, the trial evaluator and its replay,
  crash recovery, the framed IPC protocol, knob ownership, the MCP gateway, and
  the rules on command lines, paths, sockets and the order of start-up. Everything
  in it is verified.
  `lifecycle_laws.rs` and `runner_laws.rs`, and the `proof fn`s at the end of the
  other modules, state what holds of the library as a whole.
- `app/` is the program around it: the SQLite journal, sockets, files, processes
  and the floating-point means.
- `tests/` runs the library on concrete values.

The library does no I/O. An operation that has to write to the journal hands the
record out as a step and is resumed with the outcome.

`serde_json::from_str` and `serde_json::from_value` (`json.rs`) and
`rustix::process::geteuid` (`auth.rs`) are the outside functions that the library
calls; their doc comments say what is believed of them.
