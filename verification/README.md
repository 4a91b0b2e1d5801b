# mnn

Verified core of Rust bindings for the MNN inference engine, written in Verus.

- `src/` is the library: configuration objects
  (backend and schedule configurations with their native encodings), parsing of
  mode and backend names, tensor shapes and layouts, the checks made on tensors of a
  session, decoding of engine status codes, the load/unload state machine of the
  synchronous session API, the combinations tried by the benchmark tool, and the
  build helpers (where the engine comes from, CMake/C++ options and definitions,
  prebuilt packages, checksums, header patches). Every function of it is verified
  but two small trusted wrappers (over std's `String::push` and over the
  SHA-256 digest of the sha2 crate), whose contracts state what those calls do.
- `app/` holds what lives around it: error values with messages, command-line and
  serde forms of the library types, the session thread of the synchronous API, and
  the download, compile and linking steps of the build.
- `tests/` exercises the library on concrete values.

The native engine is reached through integer handles; functions that act on what
the engine reported take that report as an argument.
