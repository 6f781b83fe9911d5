# Monolith

A local-first game library: a desktop client, an HTTP backend with local and OIDC
accounts, and an administration tool.

- `src/` is the verified core, checked by Verus: the rules of configuration, accounts and
  sessions, the catalog (user overrides over harvested metadata, ROM availability and
  associations), the library scanner's decisions, the emulator commands, the client's
  navigation and its sign-in, scan and download state machines, and the text operations
  they rest on. Each public function states its result in its contract, as far as the
  outside calls it makes allow: where a result rests on the clock, on chance or on the
  platform, the contract states what holds of every outcome. The laws that tie several
  functions together are public proof functions.
- `app/` is the program around it: SQLite storage, the HTTP server and client, the file
  system walk, JSON and TOML files, background threads, the command line and the window.
  It runs as the client by default, as the backend with `monolith backend`, and as the
  administration tool with `monolith admin ...`.
- `tests/` exercises the library on concrete values.
