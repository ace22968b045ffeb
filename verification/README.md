# codex_account_switcher

The verified core of a desktop app that keeps several Codex (ChatGPT) logins,
shows each one's 5-hour and 1-week usage, and switches the active login.

- `src/` is the library, written in Verus:
  - `json` — the JSON document model and lookups; parsing through `serde_json`.
  - `text` — trimming, searching, splitting and number formatting on `&str`.
  - `auth` — the credentials file: login mode, tokens, identity-token claims
    (base64url through the `base64` crate), and the status shown in the app.
  - `usage` — the usage endpoint's URL (from `config.toml`) and turning a
    usage report into the nearest 5-hour and 1-week windows.
  - `accounts` — the account store: listing, importing, deleting, the startup
    import and usage refreshes.
  - `session` — the login saved during the add-account flow, and how Codex is
    launched after a switch.
  - `clock` — the current time and fresh account ids.
  - `laws` — properties across operations (unique account ids, importing or
    syncing twice, deleting, restoring once, usage URL normalisation).
- `app/` is the Tauri shell: commands, file and process I/O, HTTP, and the
  serialized forms of the library's types.
- `tests/` runs the library on concrete inputs.
