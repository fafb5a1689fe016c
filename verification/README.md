# regor

Configuration, reporting and diagnostics logic for ARM's regor compiler (the
C/C++ backend of Vela, which compiles neural-network models for the Ethos-U
NPUs), with its behaviour stated in Verus contracts and proved.

## Layout

- `src/` — the verified library.
  - `options` — the two INI documents regor is configured with: the
    compiler options (`CompilerOptions`, with its validation and exact
    document layout) and the system configuration (`SystemConfig`), the
    accelerator variants and their Vela names, the scheduler feature sets.
  - `compiler` — the configuration a compiler context buffers until a
    compilation hands it to regor, system configuration first.
  - `error` — regor's status codes as results, C string arguments.
  - `perf`, `constraints` — the reports regor fills in, read into Rust values.
  - `logging` — the log filter and format, the line buffer that turns
    regor's chunked writes into whole lines, the severity of a line, and when
    a request to install the log writer goes through.
  - `sys` — the numbers and records of regor's C interface as plain values.
  - `text` — decimal numbers, `key=value` lines, joined lists, white space and
    C character buffers.
  Every module is public, so the spec functions the contracts are stated
  over, and the laws proved of them, can be named from other crates by
  their paths (for instance
  `regor::options::compiler_options::law_build_error_order`); spec and proof
  functions are erased from compiled code, so they are not re-exported at
  the crate root.
- `app/` — the calls into the native regor library, the process-wide lock
  around them, the log writer that forwards to `log` and `tracing`, and the
  `Display`/`Error` impls and `f32` values the library's types cannot carry.
- `tests/` — scenarios for the documents, the reports, the line buffer and
  the compiler state.
