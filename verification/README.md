# pocket-oid

A small OpenID Connect provider: client-credentials and authorization-code
tokens signed with RS256, ES256 or PS256, local users, re-authentication at a
trusted upstream OpenID provider, and a read-only administrator console.

The provider's logic is a library verified with Verus (`src/`), including
the console's pages. Public functions state their results in
their contracts; where a result rests on the clock, randomness or a
signature, the contract states what holds of every such outcome. The
properties that span several calls are proof functions named `lemma_*`, for
example:

- an authorization code, a pending re-authentication and a pending consent
  each serve one request only (`auth.rs`);
- expired sessions and codes are never returned (`auth.rs`);
- the registered authentication mode, not the browser, decides how a client
  signs in (`handlers.rs`);
- the console allows at most 30 sign-in attempts a minute and 4096 sessions
  (`admin_console.rs`).

Calls into outside crates (hashing, encodings, URL parsing, JWT signing and
decoding, key parsing, JSON Schema validation, Argon2, the clock and random
numbers) go through the trusted wrappers of `src/bindings.rs`. Each states what its crate documents,
often by naming a deterministic result; where nothing can be promised, it
says so.

`app/` is the server around the library: command line, configuration files,
HTTP routes, SQLite stores and the upstream HTTP client.
`tests/` exercises the library, including complete authorization-code and
re-authentication flows.
