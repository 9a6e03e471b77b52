# tauri-plugin-blec

A Bluetooth Low Energy client for Tauri applications, with a verified core.

- `src/` is the library. It holds what the client decides, and it is verified with Verus. Three
  small wrappers are trusted: `uuid_to_string` (the `uuid` crate), `compare_texts` and
  `from_utf8_lossy` (the standard library); their doc comments say what is claimed. It performs no radio work and never waits: each operation is a state machine whose state
  names the next action and whose events are the answers.
- `app/` performs the actions. It talks to the adapter through `bluest`, waits and runs the
  background tasks with `tokio`, and answers the front-end through `tauri`.
- `tests/` runs the library on concrete values.

| module | what it decides |
| --- | --- |
| `filter` | which advertisements pass a scan filter |
| `scan` | how a scan starts, what it keeps and reports, when it ends |
| `connect` | how a device is connected, in up to three attempts |
| `disconnect` | how a device is disconnected, and what a connection event changes |
| `services` | how the services of a device are listed |
| `subscribe` | how notifications are subscribed to and delivered |
| `connection` | which characteristic a request addresses |
| `handler` | the state that all operations share, and what can be asked of it |
| `history` | what holds of a handler whatever has been asked of it |
| `models`, `ids`, `text`, `error` | the data, and how it is shown |
| `timeout` | what becomes of a command that ran under a time limit |
| `event_handlers` | the callbacks of a user |
| `platform` | the types of the outside values that the library carries |

Each operation has a transition relation, a spec function whose name ends in `_goes`: it is the
contract of the function that performs one step. What holds of whole runs is stated by the proof
functions whose names begin with `law_`.
