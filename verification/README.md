# auth_service

An authentication service: sign-up, log-in with an optional second factor
sent by e-mail, log-out by banning the token, and token checks.

- `src/` is the verified library (Verus). `domain/` holds the user data and
  its validation, the 2FA code and log-in attempt identifiers, decimal text
  of integers, and the three store traits with their abstract operations;
  `services/` holds the in-memory stores; `routes/` holds the decisions of
  each HTTP route, as functions from stores and request to new stores and
  answer; `laws.rs` proves what holds across operations.
- `app/` is the HTTP server (axum, tokio): it reads JSON, signs and checks
  tokens, sends e-mail, and calls the library for every decision.
- `tests/` exercise the library.
