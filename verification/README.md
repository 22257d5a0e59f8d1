# airadb

A companion for Android wireless debugging: it pairs with a phone by QR code or pairing code,
connects to it, and starts `scrcpy` for it.

`src/` is the verified library. It decides and computes; it does no I/O.

- `text`, `endpoint`: plain text operations, and endpoints as people type them and as they stand
  on a screen.
- `clock`, `device`, `failure`, `choice`, `path`: time, devices, failures, the choice of a phone,
  and paths, which need not be Unicode.
- `cli`: the command line, read with the crate `clap`.
- `scrcpy`: the command that mirrors a phone.
- `dialogue`: what a flow says, asks for and gets back.
- `startup`, `pairing`, `flows`, `connect`, `discovery`, `search`, `mirror`: the flows. Each is a
  state with a function that takes a reply and returns what to say and what to ask for next;
  `leads_to` says exactly which.
- `program`: all flows as one, each waiting for the one above it.

The functions named `law_...` state what holds of all inputs of a function, of every step of a
flow, or of all of its runs.

`app/` is the command itself: it does what the program asks for and hands back what came of it.
`tests/` runs the library on examples.
