# proof_rust

The server of a small "estate": it renders a home page and a dashboard,
serves a notes API for signed-in users (backed by MongoDB), and bridges the
auth service's `user.signed_up` event to the notifications service.

- `src/` is the library; its functions carry contracts that are proved. It decides every answer of the
  API from plain values: who the signed-in user is, which note a request
  names, what a new or changed note holds, the JSON that goes back, and what
  is forwarded to the notifications service. `src/laws.rs` holds the
  properties that span several functions.
- `src/calls.rs` holds the few calls into outside crates (header decoding,
  object ids, time formatting, the clock and JWT checking); their contracts
  are trusted, and each doc comment says what is claimed.
- `app/` is the program around the library: the HTTP routes, the database and
  network calls, the pages, and `main`.
- `tests/` runs the library on concrete values.
