# auth_api

The authentication core of a GraphQL API server that sits in front of a
Hasura GraphQL engine, written in Verus.

- `src/` is the verified library: the `Authorization: Bearer` grammar
  (`bearer`), password hashing and checking, access-token issuing and
  checking and the `/auth` decision (`auth`), the GraphQL backend client
  settings and the decisions on its answers (`operations`), and the
  `register` / `login` mutations between their backend queries (`schema`).
  `crypto` holds the trusted wrappers around `rust-argon2`, `base64`,
  `sha256` and `rand`.
- `app/` is the Rocket server: routes, the Juniper schema, and the HTTP
  exchange with the backend (`reqwest`), which hands every outcome to the
  library.
- `tests/` runs the library, and checks the bearer grammar against the
  `regex` crate.
