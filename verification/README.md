# berth

The verified core of Berth, a self-hostable deploy platform: subdomain
routing, app and deployment rules, the git-deploy state machine, container
start decisions, deployment logs, accounts, sessions, API tokens, secrets
sealing, zip-upload safety and the hub/agent protocol. Every function in
`src/` carries a Verus contract, and the properties that span several
functions are stated and proved as `lemma_*` proof functions.

- `src/` - the library, verified by Verus. Calls into outside crates
  (argon2, base64, rand, chacha20poly1305, sha2, jiff, papaya, zip, uuid) go through
  small `#[verifier::external_body]` wrappers whose contracts say what the
  crate's source and documentation show of each call.
- `tests/` - ordinary Rust tests of the library.
- `app/` - the hub binary: configuration files, the data directory, zip
  extraction onto disk, and the HTTP endpoints for signing in and out.
