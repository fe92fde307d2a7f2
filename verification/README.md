# animewatch

A small watch-list service for anime: it searches the allanime provider,
finds a playable stream for an episode, and keeps a per-user list of shows
behind a Google sign-in.

- `src/` is the library, verified with Verus: decoding the provider's
  obfuscated source URLs (through the `hex` crate), choosing the best
  source and link by priority, building the provider's request URLs,
  turning search answers into list entries, and the decisions of the HTTP
  routes, the session middleware and the sign-in flow (as step functions
  that the server drives).
- `app/` is the server around it: axum routes, the sea-orm database,
  reqwest calls to the provider and to Google, OAuth, and the shuttle
  entry point. It only performs the requests and hands the answers to the
  library.
- `tests/` runs the library on concrete values.
