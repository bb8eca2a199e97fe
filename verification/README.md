# codex_plus

Verified core of the Codex++ launchers: the portable `config.ini` format,
the launch options, and the decisions the launchers take around their
single-instance guard, Remote Control session recovery, the bridge and the
native configuration dialog.

- `src/` — the library, verified with Verus:
  - `text` — whitespace, trimming, decimal ports, string building;
  - `ini` — the `[section]` / `key = value` reader;
  - `portable` — `PortableConfig`: defaults, loading, saving (with the
    save/load round-trip proof), backend settings, portable paths;
  - `settings` — relay profiles and the active profile;
  - `launch` — command-line options, the guard's attempt-by-attempt
    decision, the existing-instance activation steps;
  - `flow` — the order of a portable run as a state machine, with the
    proof that live state is touched only after the guard is taken;
  - `recovery` — pending Remote Control recoveries: the request checks and
    the in-order run over the queue, with its proofs;
  - `launcher` — runtime/data services, injection target and retries,
    manager opening, user-script locations, hooks;
  - `dialog` — dialog layout, hover fade, UTF-16 text;
  - `shortcut` — desktop shortcut and icon decisions;
  - `paths`, `json` — `std::path` and `serde_json` calls behind contracts.
- `app/` — the file, environment, clock and process edges, and the loops
  that perform the actions the library decides.
- `tests/` — the tests.
