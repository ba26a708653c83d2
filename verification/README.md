# droid_driver

A verified driver for Factory Droid sessions.

`src/` is the library. It decides: it plans the launch of the `droid` process, reads and
writes the lines of its JSON-RPC pipe, and turns commands of the application and messages
of the process into effects. Every function carries a contract that Verus proves, and
`src/laws/` states and proves what holds of sessions as a whole.

`app/` acts: it owns the process, the threads and the pipes, and carries out the effects.

JSON text is read and written by `serde_json`. The functions that call it are in
`src/codec.rs` and `src/json.rs`; their contracts are taken on trust and say so.

`tests/` runs the library on concrete values.
