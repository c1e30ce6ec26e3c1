# wasmlib

The value protocol between a WebAssembly module and its Lua host, verified with Verus.

- `src/lua_api.rs`: the error type, the host's type codes, the host's value queue,
  and reading (`Importable`) and writing (`Exportable`) Rust values as host values.
- `src/roundtrip.rs`: what is read back of what was written.
- `src/cc_mod.rs`: running an exported function on the host's arguments and the
  report of its outcome.
- `src/utils.rs`, `src/wasi.rs`, `src/py.rs`: error conversion, address rebasing for
  forwarded WASI calls, and the Python module's reply.
- `app/`: the foreign-function glue to the host, the `wasmi` linker setup, the
  Python module's globals, and the timing benchmark.
