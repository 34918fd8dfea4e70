# ralph_robot

The human-in-the-loop robot of Ralph: it connects orchestration loops with a human
operator over Telegram, Rocket.Chat or Matrix.

- `src/` is the verified library. It decides everything: which messages are heard,
  which loop they are for, what is recorded and read back, what the setup wizards,
  the status report, the daemons and the polling tasks do next, and how `ralph.yml`
  is read and edited. Its functions state what they do in `requires` and `ensures`
  clauses, and its laws are the public proof functions.
- `app/` performs what the library decides: command line, files, keychain, HTTP,
  the Matrix client, and the asynchronous loops.
- `tests/` run the library.

## Modules of the library

| Module | Contents |
|--------|----------|
| `text`, `lists`, `table`, `place`, `clock` | strings, lists, maps, paths and time |
| `json`, `yaml` | documents, and the calls into `serde_json` and `serde_yaml` |
| `routing`, `events` | which loop a message is for, and the events that are recorded |
| `service`, `daemon` | what the services and the daemons of all backends share |
| `matrix`, `rocketchat` | the two room backends |
| `bot` | arguments, tokens, config, Telegram, keychain, setup wizards, status, daemon setup |
| `interact` | progress messages |

A step function takes what has happened and returns what to print and what to do
next. The code in `app/` runs the loop around it.

## Outside calls

Verified code calls outside crates through a few wrappers whose contracts are
believed: `serde_json` and `serde_yaml` (parsing and printing), `ruma` of
`matrix-sdk` (identifiers, message contents, timeline events), `reqwest`
(the display of an HTTP status), `chrono` (the current time), and `std`
(`Duration::from_secs`, `Debug` of a string, `PathBuf::clone`). Each says in its doc
comment what it claims.
