# wasm_agent

Host and guest logic of a small WebAssembly agent, verified with Verus.

A kernel probe reports every capability check; a WebAssembly handler turns
each event into a trace line; a host loads that handler with wasmtime, writes
the event into the guest's linear memory, runs it and reads the line back.

`src/` (verified):

- `event`, `capabilities`, `text`, `clock`, `utf8_text` — decoding an
  event's bytes, the capability names, and the exact column layout of the
  banner, the trace lines and the lost-events warning.
- `uniqueness` — the `--unique` option.
- `runtime` — the wasmtime and WASI calls the hosts make, each behind a
  trusted wrapper whose contract states what the call does to the store.
- `capable_host`, `agent_host`, `greeting_host`, `guest_memory`,
  `host_error` — the three hosts' protocols with their guests, each host
  keeping a record of the steps it took with its guest.
- `hello` — the greeting guest as a state machine, with its laws.
- `routes`, `store`, `front_end` — the web front end's routes and session
  store, the page frame's redirect rule and navigation bar, the article
  editor, and the article list.

`app/` holds what cannot be verified: the guests' raw-pointer exports, the
command line, file and process-environment access, and the `main` that
reads the greeting module from disk. `tests/` exercises the library, including the three hosts against small
WebAssembly modules assembled in the tests.
