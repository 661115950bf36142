# goals_backend

The decision logic of the Goals web service (posts with weekly tables,
voting, accounts), verified with Verus.

- `src/` is the verified library. `structures` holds the data of the
  service, `voting` the vote rules on a post's voter sets and their laws,
  `password` and `picture` the Argon2 and image-format calls with their
  contracts, `paths` and `token` the file layout and token expiry, and the
  `*_flow` modules one step machine per endpoint: each step takes what came
  of the last outside action (database, token, clock, file) and gives the
  next action or the answer.
- `app/` is the HTTP server: it runs the step machines, performing each
  action with actix-web, SurrealDB, jsonwebtoken and the file system. The
  random salts, post ids and picture tags come from `rand`
  (`app/gen_salt.rs`).
- `tests/` runs the library on concrete values.
