# mountain-mqtt-embassy

An MQTT client and a connection manager for embassy, with their decisions proved in Verus.

- `src/` is the library. Nothing in it waits, reads a clock or touches a network. Every
  operation is a chain of steps: a step says what is to be done, and takes what came of it.
  - `poll_client` is a client that is polled for packets. It pings the server, and finds out
    when the server no longer answers. `client_laws` states what holds of every run of it.
  - `mqtt_manager` keeps a client connected and reports what happens as events.
    `manager_model` says what it does as a state machine, and `manager_laws` what holds of
    every run of that.
  - `packet_bin`, `message`, `error`, `time` and `address` hold what the two work on, and
    `step` the marks that keep steps in order.
- `tests/` runs the library on concrete values.
- `app/` drives the library on an embassy network stack.
