# codex_overlay

Verified core of the Codex usage overlay, a small desktop bar that shows the
remaining ChatGPT quota reported by a `codex app-server` child process.

- `src/` is the library, checked by Verus: a JSON value model and the
  message logic over it (routing, error texts, login classification,
  rate-limit reports), rate-limit normalization and sparse merging, the
  app-server session as a state machine (`connection`), the reconnect
  backoff that keeps the last values on display, window placement across monitors, and the tray and
  overlay-size decisions. `src/laws.rs` states the properties that hold
  across these functions.
- `app/` is the Tauri application around it: the window, tray and commands,
  the async connection to the app-server, settings on disk, JSON text
  conversion with `serde_json`, and the floating-point percentages.
- `tests/` exercises the library on concrete values.
