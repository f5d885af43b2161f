# tgstate

The authentication logic of the tgstate file host, verified with Verus.

- `src/auth.rs`: password hashing and checking, session tokens, the session
  cookie, constant-time comparison and the upload access check.
- `src/middleware/auth.rs`: cookie lookup, the CSRF origin check, the session
  check and the decision the authentication middleware takes per request.
- `src/routes/api_auth.rs`: the login handler's decision.
- `src/laws.rs`: properties that span these functions.
- `src/text.rs`: character-level string helpers with exact specifications.
- `src/outside.rs`: the calls into sha2, hex, rand and argon2, with the
  contracts taken on trust.
- `app/`: the axum glue (middleware, routes, environment and settings).
