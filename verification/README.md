# server

A small community web server (user accounts, posts, and an Albert Heijn
product catalogue), written as a verified library and a thin program around
it.

- `src/` is the library, verified with Verus. It holds the rules of the
  server: which new users are accepted and why others are refused, which
  rights see which users and posts, who may create, change or delete what,
  how a login and an e-mail verification are decided, the cache keys and
  URLs the server writes, how the product catalogue is paged and refreshed,
  and the exact HTTP status of every refusal. Calls into `argon2`,
  `jsonwebtoken`, `chrono`, `hex`, `image`, `regex`, `rand`, `url` and
  `serde_json` stand behind small trusted wrappers whose contracts state
  what those crates document.
- `app/` is the program: configuration loading, the axum router and
  handlers, PostgreSQL and Redis access, the mail and template services,
  the Albert Heijn and reCAPTCHA HTTP clients, and the scheduled jobs. It
  performs the I/O and reads the clock; the rules it applies come from the
  library. Instants at a leap second, which the library's `Timestamp`
  leaves out, are handled with chrono directly.
- `tests/` runs the library on concrete values, through the real outside
  crates.
