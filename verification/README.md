# tiny_link

A link shortener service: it receives a long URL, stores it under a random
six-character short link, and redirects requests for the short link to the
long URL. Accounts log in with a password (kept as a bcrypt hash) and get a
JWT session cookie; creating administrators needs an administrator's token.

- `src/` is the verified library: the routing table, the checks of forms,
  URLs, paths and passwords, account and login decisions, authorization,
  and the error replies, each with its contract; `src/laws.rs` holds the
  properties that span several functions.
- `app/` is the server around it: warp, diesel/PostgreSQL, JWT encoding and
  decoding, the embedded UI files and logging.
- `tests/` runs the library on concrete values.
