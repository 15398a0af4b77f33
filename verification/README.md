# render_backend

The engine-independent core of a render device that runs a WebGPU-style
renderer on the Diligent engine, written in Verus. Verus proves the
contract of every function in `src/` except the trusted wrappers around
`naga`, `wgpu-types` and `core::time::Duration`, whose contracts it takes as
given (they are marked `#[verifier::external_body]`, in `shader.rs`,
`texture.rs` and `time.rs`).

- `src/` — the verified library: descriptor translation (`mapping`,
  `descriptors`, `texture`, `pipeline`, `binding`), capability derivation
  (`features`, `adapter`), render-pass planning and caching (`render_pass`),
  draw and pass state tracking (`draw`, `encoder_pass`, `bind_group`),
  dynamic-offset validation (`offsets`), resource registries and buffer
  mapping (`resources`), readback staging (`readback`), frame diagnostics
  (`diagnostics`), the device-error state machine (`errors`), shader
  compilation through naga (`shader`) and the monotonic instant (`time`).
  Calls into `naga` and `wgpu-types` go through the trusted wrappers in
  `shader.rs` and `texture.rs`; those into `core::time::Duration` through the
  ones in `time.rs`.
- `tests/` — tests on concrete values, run against the real outside crates.
- `app/` — ordinary Rust around the library: the clock, the process-wide
  registry and latches, conversions from `wgpu-types`, adapter reporting,
  shader module creation, texture uploads and readback delivery.
