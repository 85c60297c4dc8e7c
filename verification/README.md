# auth_service

The core of a small authentication service, verified with Verus.

- `src/domain/` — the domain types: `Email` (must hold an `@`), `Password`
  (at least 8 UTF-8 bytes), `User`, the second-factor `TwoFACode` and
  `LoginAttemptId`, the store traits and their errors, and `AuthAPIError`
  with the status code and message that answer each error.
- `src/services/` — the in-memory user store and second-factor code store,
  each specified as a map from email address to its entry.
- `src/routes/` — what the sign-up, login, logout and token-check requests
  decide, specified over the store's map.
- `src/text.rs` — decimal text: reading a `usize` and writing zero-padded
  digits.
- `app/` — the HTTP server (axum) around the library: JSON bodies, cookies,
  session tokens and the router.
