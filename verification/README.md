# ppb_server

The rules of the PPB management server — authentication and sessions,
CSRF and cookies, rate limiting, the action and job registries and their
dispatch, automation runbooks, log parsing and translation, the runtime and
PMP configuration, deployment commands, join intents, live streams,
notifications and the account endpoints — written in Verus and proved
against their contracts.

Layout:

- `src/` — the verified library. Calls into
  outside crates (hashing, base64, bcrypt, chrono, uuid, dashmap, reqwest's
  URL parser, the `http` header rules) go through small trusted wrappers
  whose contracts are stated next to them.
- `tests/` — ordinary Rust tests of the library, run with the real outside
  crates linked.
- `app/` — the program around the library: configuration files, the HTTP
  server (axum), JWT signing and the serde types at the edge.
