# webauth

An account service (sign-up, log-in, sessions) on actix-web, with its logic
verified by Verus.

- `src/` — the verified library: reading the settings (`utils/config.rs`),
  decimal parsing and substring search (`utils/text.rs`), Argon2 password
  hashing and checking (`utils/password.rs`), the user models
  (`models/user.rs`), the log-in decisions (`api/auth.rs`) and the handling of
  database outcomes (`db.rs`).
- `app/` — the server: environment, database, templates, HTTP handlers and
  session middlewares, calling into the library.
- `tests/` — tests of the library.
