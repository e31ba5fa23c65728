# holochain_conductor_runtime

The verified core of a Holochain conductor runtime and its Tauri integration.

- `src/` is the library, verified with Verus: the data-root checks, the hc-auth
  protocol and its state machine, the boot sequence as a state machine, the
  runtime's app-websocket and client-authorization records, the window-to-app
  bindings and rebinds, the origin a webview is locked to, the dev-instance
  directory claim, the network settings and their overrides, and the plain
  records exchanged over the FFI and IPC boundaries.
- `app/` is the host around it: lair, the conductor, the auth server's HTTP
  endpoints, files, and Tauri. It performs what the library's state machines
  ask for and reports back what happened.
- `tests/` exercises the library on concrete values.

The runtime's maps keyed by strings (app ids, client ids, window labels) are a
`StringMap` (`src/string_map.rs`): a `Vec` of entries with distinct keys, whose
view is a `Map` from the keys' characters to the values. vstd specifies
`std::collections::HashMap` only for keys that obey its key model, which it
grants to integers and `bool` but not to `String`, and granting it takes an
`assume`; over a `String` key its lookups and inserts would prove nothing, so
the library keeps its own map and states its contracts over the view.
