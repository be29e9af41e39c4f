# server

A booking and shop back end: users register and log in with bearer tokens,
browse a catalog of services and products, fill a cart, check out, pay from an
internal wallet and book appointments; staff move orders through their
statuses, assign employees and read reports.

## Layout

- `src/` is the library, verified with Verus. It holds the rules of the
  service: request validation, role checks, bearer-token handling, the token
  whitelist's keys and lifetimes, payment decisions, order numbering, the
  ordering of order items, paging, and the planning of appointment slots. Each
  public function states in its contract what it returns; the `law_*` proof
  functions state properties that relate several functions.
- `tests/` runs the library on concrete values.
- `app/` is the HTTP server (Actix Web, PostgreSQL through SQLx, Redis through
  deadpool-redis). It reads requests and the database, hands plain values to
  the library and sends back what the library decides. Amounts of money are
  floating-point numbers and are compared there. Access tokens are signed
  and checked as HS256 JSON Web Tokens with the `jsonwebtoken` crate in
  `app/jwt.rs`: signing and decoding go through serde on the token's
  payload type, which the library cannot derive; the claims themselves are
  issued by the library (`tokens::issue_claims`).

## Configuration of the server

`DATABASE_URL`, `REDIS_URL`, `JWT_SECRET` (required), `BIND_ADDR`,
`BUSINESS_START_HOUR`, `BUSINESS_END_HOUR`, `SLOT_MINUTES`,
`DATABASE_MAX_CONNECTIONS`.
