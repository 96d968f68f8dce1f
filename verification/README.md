# gatts_demo

A Bluetooth LE GATT server with two profiles (A and B), in the shape of the
ESP-IDF `gatt_server` example, whose decisions are verified with Verus.

The library (`src/`) holds the server's state and one handler per kind of
callback of the stack. Each handler takes the state and one event, updates
the state and returns the requests (`Action`s) that the stack is to carry
out; its contract says exactly which, through the transition functions of
`model.rs`.

- `consts.rs` — protocol and demo constants and payloads.
- `gatts_profile_inst.rs`, `prepare_type_env.rs`, `ble_types.rs` — the data.
- `event.rs`, `action.rs` — what the stack reports and what it is asked to do.
- `model.rs` — the mathematical state and the transition of every handler.
- `status.rs` — the executable handlers, proved to follow `model.rs`.
- `laws.rs` — properties over several events: profile isolation,
  registration, routing, advertising start-up, prepared writes,
  subscriptions, and the state invariant.

`app/` runs the server on an ESP32: it brings up the controller, turns the
stack's raw callback parameters into events, and performs the actions
through `esp-idf-sys`.
