# actix-realworld-example

A RealWorld-style user service (registration, login, profiles, following)
whose decisions are verified with Verus.

- `src/` is the verified library: the data model, the error answers and their
  JSON bodies, Argon2 password hashing, reading the `Authorization` header,
  the claims of access tokens and the request validator's decisions, the
  registration state machine, and the decisions of the user and profile
  requests. Calls into argon2, serde_json and fastdate stand behind trusted
  wrappers whose contracts are documented where they are declared.
- `app/` is the HTTP server around it (actix-web, rbatis/PostgreSQL,
  jsonwebtoken): it reads the configuration and keys, talks to the database,
  signs and decodes tokens, and hands plain values to the library.
- `tests/` runs the library on concrete values.
