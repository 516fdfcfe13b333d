# Hanami Companion

A desktop companion for osu! that follows the game through the local
[tosu](https://github.com/tosuapp/tosu) service, records the plays it sees and
keeps a Hanami session signed in.

## Layout

- `src/` is the library, written in Verus. Its functions carry contracts that
  Verus proves: the normalization of tosu's v2 payload, the play detector and
  the recent-activity store, the Hanami OAuth session and its restoration
  backoff, the loopback callback parser, the WebSocket monitor and listener
  steps, what each user command changes in the snapshot, the settings and the
  tray menu. Calls into outside crates (`url`, `chrono`, `uuid`, `keyring`,
  `serde_json`) and into the clock sit behind small trusted wrappers whose
  contracts say what the crates document. Where a result depends on the system
  (the credential store's answers, the clock, the shared connection flag), the
  contract fixes what goes into the call and what the library does with the
  answer, not the answer itself.
- `tests/` exercises the library through its public interface.
- `app/` is the program around the library: the Tokio runtime, the tosu
  WebSocket and HTTP clients, process management and the settings file (the
  credential store is reached from `src/` through the `keyring` wrappers). It
  publishes snapshots as JSON lines on standard output and reads commands from
  standard input.
