# eneo

The Eneo REST service, with its logic verified in Verus.

- `src/` is the verified library: SQL statements the services send, the
  decisions taken on what the database, argon2, uuid, chrono and rocket hand
  back, token claims and expiry, bearer authentication steps, and the bodies
  of every HTTP answer. Calls into outside crates sit behind small trusted
  wrappers whose contracts are documented next to them.
- `app/` is the server around it: rocket routes and catchers, the PostgreSQL
  round trips through sqlx, reading the environment and the clock, signing
  and decoding JWTs, and the JSON copies of the library's types.
- `tests/` runs the library with the real outside crates linked.
